//! The requests a caller can make, one type for each operation, and what
//! each of them holds.

use vstd::prelude::*;

verus! {

/// Creates a task. Every task is filed under a project.
#[derive(Debug, Clone, PartialEq, Eq)]
pub struct AddTaskRequest {
    /// What the task is about.
    pub description: String,
    /// The project the task belongs to; dots separate subprojects.
    pub project: String,
    /// When the task is due, as a date expression.
    pub due: Option<String>,
    /// Tags to apply, without the `+` in front.
    pub tags: Option<Vec<String>>,
    /// `H`, `M` or `L`.
    pub priority: Option<String>,
    /// The date until which the task stays hidden from reports.
    pub wait: Option<String>,
    /// The date on which work on the task is planned to start.
    pub scheduled: Option<String>,
}

/// Runs a report over the tasks of one project, or of all projects.
#[derive(Debug, Clone, PartialEq, Eq)]
pub struct ListTasksRequest {
    /// The project the report is confined to.
    pub project: String,
    /// Further filter tokens, separated by whitespace.
    pub filter: Option<String>,
    /// The report to run; `next` where none is given.
    pub report: Option<String>,
    /// `Some(true)` lifts the confinement to `project`.
    pub all_projects: Option<bool>,
}

/// Searches descriptions and annotations for a pattern, in one project or
/// in all projects.
#[derive(Debug, Clone, PartialEq, Eq)]
pub struct SearchTasksRequest {
    /// The regular expression to search for.
    pub pattern: String,
    /// The project the search is confined to.
    pub project: String,
    /// Further filter tokens, separated by whitespace.
    pub filter: Option<String>,
    /// `Some(true)` lifts the confinement to `project`.
    pub all_projects: Option<bool>,
}

/// Names one task, by its number or by its UUID.
#[derive(Debug, Clone, PartialEq, Eq)]
pub struct TaskIdRequest {
    pub id: String,
}

/// Changes attributes of one task.
#[derive(Debug, Clone, PartialEq, Eq)]
pub struct ModifyTaskRequest {
    pub id: String,
    /// Modification tokens, separated by whitespace. A key with nothing
    /// after its colon clears the attribute.
    pub modifications: String,
}

/// Attaches a note to one task.
#[derive(Debug, Clone, PartialEq, Eq)]
pub struct AnnotateTaskRequest {
    pub id: String,
    pub note: String,
}

/// A request, tagged with its operation.
#[derive(Debug, Clone, PartialEq, Eq)]
pub enum Request {
    AddTask(AddTaskRequest),
    ListTasks(ListTasksRequest),
    SearchTasks(SearchTasksRequest),
    GetTask(TaskIdRequest),
    ModifyTask(ModifyTaskRequest),
    CompleteTask(TaskIdRequest),
    DeleteTask(TaskIdRequest),
    AnnotateTask(AnnotateTaskRequest),
}

/// The operation of a request, without what the request holds.
#[derive(Debug, Clone, Copy, PartialEq, Eq, Structural)]
pub enum RequestKind {
    AddTask,
    ListTasks,
    SearchTasks,
    GetTask,
    ModifyTask,
    CompleteTask,
    DeleteTask,
    AnnotateTask,
}

/// What an `AddTaskRequest` holds, as sequences of characters.
pub struct AddTaskView {
    pub description: Seq<char>,
    pub project: Seq<char>,
    pub due: Option<Seq<char>>,
    pub tags: Option<Seq<Seq<char>>>,
    pub priority: Option<Seq<char>>,
    pub wait: Option<Seq<char>>,
    pub scheduled: Option<Seq<char>>,
}

/// What an `ListTasksRequest` holds, as sequences of characters.
pub struct ListTasksView {
    pub project: Seq<char>,
    pub filter: Option<Seq<char>>,
    pub report: Option<Seq<char>>,
    pub all_projects: Option<bool>,
}

/// What an `SearchTasksRequest` holds, as sequences of characters.
pub struct SearchTasksView {
    pub pattern: Seq<char>,
    pub project: Seq<char>,
    pub filter: Option<Seq<char>>,
    pub all_projects: Option<bool>,
}

/// What an `TaskIdRequest` holds, as sequences of characters.
pub struct TaskIdView {
    pub id: Seq<char>,
}

/// What an `ModifyTaskRequest` holds, as sequences of characters.
pub struct ModifyTaskView {
    pub id: Seq<char>,
    pub modifications: Seq<char>,
}

/// What an `AnnotateTaskRequest` holds, as sequences of characters.
pub struct AnnotateTaskView {
    pub id: Seq<char>,
    pub note: Seq<char>,
}

/// What a `Request` holds, as sequences of characters.
pub enum RequestView {
    AddTask(AddTaskView),
    ListTasks(ListTasksView),
    SearchTasks(SearchTasksView),
    GetTask(TaskIdView),
    ModifyTask(ModifyTaskView),
    CompleteTask(TaskIdView),
    DeleteTask(TaskIdView),
    AnnotateTask(AnnotateTaskView),
}

impl View for AddTaskRequest {
    type V = AddTaskView;

    open spec fn view(&self) -> AddTaskView {
        AddTaskView {
            description: self.description@,
            project: self.project@,
            due: self.due.deep_view(),
            tags: self.tags.deep_view(),
            priority: self.priority.deep_view(),
            wait: self.wait.deep_view(),
            scheduled: self.scheduled.deep_view(),
        }
    }
}

impl View for ListTasksRequest {
    type V = ListTasksView;

    open spec fn view(&self) -> ListTasksView {
        ListTasksView {
            project: self.project@,
            filter: self.filter.deep_view(),
            report: self.report.deep_view(),
            all_projects: self.all_projects,
        }
    }
}

impl View for SearchTasksRequest {
    type V = SearchTasksView;

    open spec fn view(&self) -> SearchTasksView {
        SearchTasksView {
            pattern: self.pattern@,
            project: self.project@,
            filter: self.filter.deep_view(),
            all_projects: self.all_projects,
        }
    }
}

impl View for TaskIdRequest {
    type V = TaskIdView;

    open spec fn view(&self) -> TaskIdView {
        TaskIdView { id: self.id@ }
    }
}

impl View for ModifyTaskRequest {
    type V = ModifyTaskView;

    open spec fn view(&self) -> ModifyTaskView {
        ModifyTaskView { id: self.id@, modifications: self.modifications@ }
    }
}

impl View for AnnotateTaskRequest {
    type V = AnnotateTaskView;

    open spec fn view(&self) -> AnnotateTaskView {
        AnnotateTaskView { id: self.id@, note: self.note@ }
    }
}

impl View for Request {
    type V = RequestView;

    open spec fn view(&self) -> RequestView {
        match self {
            Request::AddTask(r) => RequestView::AddTask(r@),
            Request::ListTasks(r) => RequestView::ListTasks(r@),
            Request::SearchTasks(r) => RequestView::SearchTasks(r@),
            Request::GetTask(r) => RequestView::GetTask(r@),
            Request::ModifyTask(r) => RequestView::ModifyTask(r@),
            Request::CompleteTask(r) => RequestView::CompleteTask(r@),
            Request::DeleteTask(r) => RequestView::DeleteTask(r@),
            Request::AnnotateTask(r) => RequestView::AnnotateTask(r@),
        }
    }
}

impl RequestView {
    /// The operation of the request.
    pub open spec fn kind(self) -> RequestKind {
        match self {
            RequestView::AddTask(_) => RequestKind::AddTask,
            RequestView::ListTasks(_) => RequestKind::ListTasks,
            RequestView::SearchTasks(_) => RequestKind::SearchTasks,
            RequestView::GetTask(_) => RequestKind::GetTask,
            RequestView::ModifyTask(_) => RequestKind::ModifyTask,
            RequestView::CompleteTask(_) => RequestKind::CompleteTask,
            RequestView::DeleteTask(_) => RequestKind::DeleteTask,
            RequestView::AnnotateTask(_) => RequestKind::AnnotateTask,
        }
    }
}

impl Request {
    /// The operation of the request.
    pub fn kind(&self) -> (kind: RequestKind)
        ensures
            kind == self@.kind(),
    {
        match self {
            Request::AddTask(_) => RequestKind::AddTask,
            Request::ListTasks(_) => RequestKind::ListTasks,
            Request::SearchTasks(_) => RequestKind::SearchTasks,
            Request::GetTask(_) => RequestKind::GetTask,
            Request::ModifyTask(_) => RequestKind::ModifyTask,
            Request::CompleteTask(_) => RequestKind::CompleteTask,
            Request::DeleteTask(_) => RequestKind::DeleteTask,
            Request::AnnotateTask(_) => RequestKind::AnnotateTask,
        }
    }
}

} // verus!
