//! From a request to the argument vector that states it to Taskwarrior.
//!
//! The argument vector of each operation is a spec function on the view of
//! its request; `compile` computes it. A list or a search is confined to the
//! project it names unless it is marked as crossing projects, and a new task
//! always names its project.

use crate::request::{
    AddTaskRequest, AddTaskView, AnnotateTaskRequest, AnnotateTaskView, ListTasksRequest,
    ListTasksView, ModifyTaskRequest, ModifyTaskView, Request, RequestView, SearchTasksRequest,
    SearchTasksView, TaskIdRequest, TaskIdView,
};
use crate::text::{joined, split_whitespace, words};
use vstd::prelude::*;
use vstd::string::*;

verus! {

/// The token that confines a command to `project`.
pub open spec fn scope_token(project: Seq<char>) -> Seq<char> {
    "project:"@ + project
}

/// Whether a request asks for all projects. Only `Some(true)` does.
pub open spec fn crosses_projects(all_projects: Option<bool>) -> bool {
    all_projects == Some(true)
}

/// The scoping tokens of a list or a search: the token of its project, or
/// none where it crosses projects.
pub open spec fn scope(project: Seq<char>, all_projects: Option<bool>) -> Seq<Seq<char>> {
    if crosses_projects(all_projects) {
        Seq::empty()
    } else {
        seq![scope_token(project)]
    }
}

/// The token `key` directly followed by the value, where there is a value.
pub open spec fn attribute(key: Seq<char>, value: Option<Seq<char>>) -> Seq<Seq<char>> {
    match value {
        Some(v) => seq![key + v],
        None => Seq::empty(),
    }
}

/// One token for each tag, in the order given: `+` and the tag.
pub open spec fn tag_tokens(tags: Option<Seq<Seq<char>>>) -> Seq<Seq<char>> {
    match tags {
        Some(t) => Seq::new(t.len(), |i: int| "+"@ + t[i]),
        None => Seq::empty(),
    }
}

/// The words of a filter, or none where no filter is given.
pub open spec fn filter_tokens(filter: Option<Seq<char>>) -> Seq<Seq<char>> {
    match filter {
        Some(f) => words(f),
        None => Seq::empty(),
    }
}

/// The report to run: the one named, or `next`.
pub open spec fn report_name(report: Option<Seq<char>>) -> Seq<char> {
    match report {
        Some(r) => r,
        None => "next"@,
    }
}

/// The token that searches for `pattern`: the pattern between two slashes.
pub open spec fn pattern_token(pattern: Seq<char>) -> Seq<char> {
    "/"@ + pattern + "/"@
}

impl AddTaskView {
    /// `add`, the description, the project, then the attributes that are
    /// present in the order due, priority, wait, scheduled, then the tags.
    pub open spec fn argument_vector(self) -> Seq<Seq<char>> {
        seq!["add"@, self.description, scope_token(self.project)] + attribute("due:"@, self.due)
            + attribute("priority:"@, self.priority) + attribute("wait:"@, self.wait) + attribute(
            "scheduled:"@,
            self.scheduled,
        ) + tag_tokens(self.tags)
    }
}

impl ListTasksView {
    /// What follows the scoping tokens: the words of the filter, then the
    /// report.
    pub open spec fn query(self) -> Seq<Seq<char>> {
        filter_tokens(self.filter).push(report_name(self.report))
    }

    /// The scoping tokens, then the query.
    pub open spec fn argument_vector(self) -> Seq<Seq<char>> {
        scope(self.project, self.all_projects) + self.query()
    }
}

impl SearchTasksView {
    /// What follows the scoping tokens: the words of the filter, the
    /// pattern, then `list`.
    pub open spec fn query(self) -> Seq<Seq<char>> {
        filter_tokens(self.filter).push(pattern_token(self.pattern)).push("list"@)
    }

    /// The scoping tokens, then the query.
    pub open spec fn argument_vector(self) -> Seq<Seq<char>> {
        scope(self.project, self.all_projects) + self.query()
    }
}

impl TaskIdView {
    /// The identifier as it was given, then `command`.
    pub open spec fn argument_vector(self, command: Seq<char>) -> Seq<Seq<char>> {
        seq![self.id, command]
    }
}

impl ModifyTaskView {
    /// The identifier, `modify`, then the words of the modifications.
    pub open spec fn argument_vector(self) -> Seq<Seq<char>> {
        seq![self.id, "modify"@] + words(self.modifications)
    }
}

impl AnnotateTaskView {
    /// The identifier, `annotate`, then the note as one token.
    pub open spec fn argument_vector(self) -> Seq<Seq<char>> {
        seq![self.id, "annotate"@, self.note]
    }
}

impl RequestView {
    /// The argument vector of the request.
    pub open spec fn argument_vector(self) -> Seq<Seq<char>> {
        match self {
            RequestView::AddTask(r) => r.argument_vector(),
            RequestView::ListTasks(r) => r.argument_vector(),
            RequestView::SearchTasks(r) => r.argument_vector(),
            RequestView::GetTask(r) => r.argument_vector("information"@),
            RequestView::ModifyTask(r) => r.argument_vector(),
            RequestView::CompleteTask(r) => r.argument_vector("done"@),
            RequestView::DeleteTask(r) => r.argument_vector("delete"@),
            RequestView::AnnotateTask(r) => r.argument_vector(),
        }
    }
}

/// A list that does not cross projects starts with the scoping token of its
/// project. The words of its filter follow that token directly, and the
/// report ends the vector.
pub proof fn lemma_list_is_scoped(r: ListTasksView)
    requires
        !crosses_projects(r.all_projects),
    ensures
        r.argument_vector() == seq![scope_token(r.project)] + r.query(),
        r.argument_vector().len() == filter_tokens(r.filter).len() + 2,
        r.argument_vector()[0] == scope_token(r.project),
        forall|i: int|
            0 <= i < filter_tokens(r.filter).len() ==> r.argument_vector()[i + 1] == filter_tokens(
                r.filter,
            )[i],
        r.argument_vector().last() == report_name(r.report),
{
}

/// A search that does not cross projects starts with the scoping token of
/// its project. The words of its filter follow that token directly, then
/// the pattern, and `list` ends the vector.
pub proof fn lemma_search_is_scoped(r: SearchTasksView)
    requires
        !crosses_projects(r.all_projects),
    ensures
        r.argument_vector() == seq![scope_token(r.project)] + r.query(),
        r.argument_vector().len() == filter_tokens(r.filter).len() + 3,
        r.argument_vector()[0] == scope_token(r.project),
        forall|i: int|
            0 <= i < filter_tokens(r.filter).len() ==> r.argument_vector()[i + 1] == filter_tokens(
                r.filter,
            )[i],
        r.argument_vector()[r.argument_vector().len() - 2] == pattern_token(r.pattern),
        r.argument_vector().last() == "list"@,
{
}

/// A list that crosses projects is its query alone: it has no scoping
/// token, and the project it names changes nothing.
pub proof fn lemma_list_crossing_projects(r: ListTasksView, project: Seq<char>)
    requires
        crosses_projects(r.all_projects),
    ensures
        r.argument_vector() == r.query(),
        r.argument_vector() == (ListTasksView { project, ..r }).argument_vector(),
{
}

/// A search that crosses projects is its query alone: it has no scoping
/// token, and the project it names changes nothing.
pub proof fn lemma_search_crossing_projects(r: SearchTasksView, project: Seq<char>)
    requires
        crosses_projects(r.all_projects),
    ensures
        r.argument_vector() == r.query(),
        r.argument_vector() == (SearchTasksView { project, ..r }).argument_vector(),
{
}

/// Every new task names its project: whatever else the request holds, the
/// vector starts with `add`, the description and the scoping token.
pub proof fn lemma_add_names_project(r: AddTaskView)
    ensures
        r.argument_vector().len() >= 3,
        r.argument_vector()[0] == "add"@,
        r.argument_vector()[1] == r.description,
        r.argument_vector()[2] == scope_token(r.project),
{
}

/// Two projects have the same scoping token only if they are the same
/// project.
pub proof fn lemma_scope_token_tells_projects_apart(p: Seq<char>, q: Seq<char>)
    requires
        scope_token(p) == scope_token(q),
    ensures
        p == q,
{
    let n = "project:"@.len() as int;
    assert(scope_token(q).skip(n) =~= q);
}

/// The token that confines a command to `project`.
pub fn scoping_token(project: &str) -> (token: String)
    ensures
        token@ == scope_token(project@),
{
    joined("project:", project)
}

/// Whether a request with this mark asks for all projects.
pub fn is_cross_project(all_projects: Option<bool>) -> (crossing: bool)
    ensures
        crossing == crosses_projects(all_projects),
{
    match all_projects {
        Some(b) => b,
        None => false,
    }
}

/// Adds `token` to the end of `argv`.
fn push_token(argv: &mut Vec<String>, token: String)
    ensures
        final(argv).deep_view() == old(argv).deep_view().push(token@),
{
    argv.push(token);
}

/// Adds `tokens` to the end of `argv`, in their order.
fn push_tokens(argv: &mut Vec<String>, tokens: Vec<String>)
    ensures
        final(argv).deep_view() == old(argv).deep_view() + tokens.deep_view(),
{
    let mut tokens = tokens;
    argv.append(&mut tokens);
}

/// Adds `key` directly followed by the value to the end of `argv`, where
/// there is a value.
fn push_attribute(argv: &mut Vec<String>, key: &str, value: &Option<String>)
    ensures
        final(argv).deep_view() == old(argv).deep_view() + attribute(key@, value.deep_view()),
{
    match value {
        Some(v) => push_token(argv, joined(key, v.as_str())),
        None => {},
    }
}

/// Adds the scoping tokens of a list or a search to the end of `argv`.
fn push_scope(argv: &mut Vec<String>, project: &String, all_projects: Option<bool>)
    ensures
        final(argv).deep_view() == old(argv).deep_view() + scope(project@, all_projects),
{
    if !is_cross_project(all_projects) {
        push_token(argv, scoping_token(project.as_str()));
    }
}

/// Adds the words of a filter to the end of `argv`.
fn push_filter(argv: &mut Vec<String>, filter: &Option<String>)
    ensures
        final(argv).deep_view() == old(argv).deep_view() + filter_tokens(filter.deep_view()),
{
    match filter {
        Some(f) => push_tokens(argv, split_whitespace(f.as_str())),
        None => {},
    }
}

/// Adds one token for each tag to the end of `argv`.
fn push_tags(argv: &mut Vec<String>, tags: &Option<Vec<String>>)
    ensures
        final(argv).deep_view() == old(argv).deep_view() + tag_tokens(tags.deep_view()),
{
    match tags {
        Some(t) => {
            let ghost wanted = tag_tokens(tags.deep_view());
            let mut i: usize = 0;
            while i < t.len()
                invariant
                    i <= t.len(),
                    wanted == tag_tokens(Some(t.deep_view())),
                    argv.deep_view() == old(argv).deep_view() + wanted.take(i as int),
                decreases t.len() - i,
            {
                push_token(argv, joined("+", t[i].as_str()));
                i += 1;
            }
        },
        None => {},
    }
}

impl AddTaskRequest {
    /// The argument vector that creates the task.
    pub fn compile(&self) -> (argv: Vec<String>)
        ensures
            argv.deep_view() == self@.argument_vector(),
    {
        let mut argv: Vec<String> = Vec::new();
        push_token(&mut argv, String::from_str("add"));
        push_token(&mut argv, self.description.clone());
        push_token(&mut argv, scoping_token(self.project.as_str()));
        push_attribute(&mut argv, "due:", &self.due);
        push_attribute(&mut argv, "priority:", &self.priority);
        push_attribute(&mut argv, "wait:", &self.wait);
        push_attribute(&mut argv, "scheduled:", &self.scheduled);
        push_tags(&mut argv, &self.tags);
        argv
    }
}

impl ListTasksRequest {
    /// The argument vector that runs the report.
    pub fn compile(&self) -> (argv: Vec<String>)
        ensures
            argv.deep_view() == self@.argument_vector(),
    {
        let mut argv: Vec<String> = Vec::new();
        push_scope(&mut argv, &self.project, self.all_projects);
        push_filter(&mut argv, &self.filter);
        let report = match &self.report {
            Some(r) => r.clone(),
            None => String::from_str("next"),
        };
        push_token(&mut argv, report);
        argv
    }
}

impl SearchTasksRequest {
    /// The argument vector that runs the search.
    pub fn compile(&self) -> (argv: Vec<String>)
        ensures
            argv.deep_view() == self@.argument_vector(),
    {
        let mut argv: Vec<String> = Vec::new();
        push_scope(&mut argv, &self.project, self.all_projects);
        push_filter(&mut argv, &self.filter);
        let mut pattern = joined("/", self.pattern.as_str());
        pattern.append("/");
        push_token(&mut argv, pattern);
        push_token(&mut argv, String::from_str("list"));
        argv
    }
}

impl TaskIdRequest {
    /// The argument vector that applies `command` to the task.
    pub fn compile(&self, command: &str) -> (argv: Vec<String>)
        ensures
            argv.deep_view() == self@.argument_vector(command@),
    {
        let mut argv: Vec<String> = Vec::new();
        push_token(&mut argv, self.id.clone());
        push_token(&mut argv, String::from_str(command));
        argv
    }
}

impl ModifyTaskRequest {
    /// The argument vector that applies the modifications.
    pub fn compile(&self) -> (argv: Vec<String>)
        ensures
            argv.deep_view() == self@.argument_vector(),
    {
        let mut argv: Vec<String> = Vec::new();
        push_token(&mut argv, self.id.clone());
        push_token(&mut argv, String::from_str("modify"));
        push_tokens(&mut argv, split_whitespace(self.modifications.as_str()));
        argv
    }
}

impl AnnotateTaskRequest {
    /// The argument vector that attaches the note.
    pub fn compile(&self) -> (argv: Vec<String>)
        ensures
            argv.deep_view() == self@.argument_vector(),
    {
        let mut argv: Vec<String> = Vec::new();
        push_token(&mut argv, self.id.clone());
        push_token(&mut argv, String::from_str("annotate"));
        push_token(&mut argv, self.note.clone());
        argv
    }
}

impl Request {
    /// The argument vector of the request.
    pub fn compile(&self) -> (argv: Vec<String>)
        ensures
            argv.deep_view() == self@.argument_vector(),
    {
        match self {
            Request::AddTask(r) => r.compile(),
            Request::ListTasks(r) => r.compile(),
            Request::SearchTasks(r) => r.compile(),
            Request::GetTask(r) => r.compile("information"),
            Request::ModifyTask(r) => r.compile(),
            Request::CompleteTask(r) => r.compile("done"),
            Request::DeleteTask(r) => r.compile("delete"),
            Request::AnnotateTask(r) => r.compile(),
        }
    }
}

} // verus!
