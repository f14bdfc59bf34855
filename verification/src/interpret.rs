//! From the outcome of a run to the result the caller sees.
//!
//! A run has failed only if the program reported failure and wrote nothing
//! to standard output. A report or a search that failed, or that wrote
//! nothing at all, found no tasks: the caller is told so, and not given an
//! error.

use crate::outcome::{ExecutionOutcome, OutcomeView};
use crate::request::RequestKind;
use crate::text::{
    is_space, is_word, joined, lemma_run_is_measured, lemma_word_is_its_own_word,
    lemma_words_split_at_space, split_whitespace, strip_trailing, strip_trailing_char, word_len,
    words,
};
use vstd::prelude::*;
use vstd::string::*;

verus! {

/// What the caller is given: a text, and whether it reports an error.
#[derive(Debug, Clone, PartialEq, Eq)]
pub struct ToolResult {
    pub text: String,
    pub is_error: bool,
}

/// What a `ToolResult` holds, as a sequence of characters and a flag.
pub struct ToolResultView {
    pub text: Seq<char>,
    pub is_error: bool,
}

impl View for ToolResult {
    type V = ToolResultView;

    open spec fn view(&self) -> ToolResultView {
        ToolResultView { text: self.text@, is_error: self.is_error }
    }
}

/// A run has failed if the program reported failure and standard output
/// holds nothing.
pub open spec fn has_failed(o: OutcomeView) -> bool {
    !o.success && o.stdout.len() == 0
}

/// What is reported of a failed run: standard error, or the exit status
/// where standard error holds nothing.
pub open spec fn failure_text(o: OutcomeView) -> Seq<char> {
    if o.stderr.len() > 0 {
        o.stderr
    } else {
        "task exited with status "@ + o.status
    }
}

/// What is passed on of a run that has not failed: standard output, or
/// standard error where standard output holds nothing.
pub open spec fn output_text(o: OutcomeView) -> Seq<char> {
    if o.stdout.len() > 0 {
        o.stdout
    } else {
        o.stderr
    }
}

/// The result of a run, whatever the operation.
pub open spec fn base_result(o: OutcomeView) -> ToolResultView {
    if has_failed(o) {
        ToolResultView { text: failure_text(o), is_error: true }
    } else {
        ToolResultView { text: output_text(o), is_error: false }
    }
}

/// The operations that only read: a report and a search.
pub open spec fn is_query(kind: RequestKind) -> bool {
    kind == RequestKind::ListTasks || kind == RequestKind::SearchTasks
}

/// What the caller is told when a query found nothing.
pub open spec fn nothing_found(kind: RequestKind) -> Seq<char>
    recommends
        is_query(kind),
{
    if kind == RequestKind::SearchTasks {
        "No matching tasks."@
    } else {
        "No tasks found."@
    }
}

/// The result of a run for an operation of kind `kind`. A query that
/// failed or gave no text found nothing; everything else is the base
/// result.
pub open spec fn interpretation(kind: RequestKind, o: OutcomeView) -> ToolResultView {
    let base = base_result(o);
    if is_query(kind) && (base.is_error || base.text.len() == 0) {
        ToolResultView { text: nothing_found(kind), is_error: false }
    } else {
        base
    }
}

/// What the caller is given when the program could not be started.
pub open spec fn invocation_failure_result(reason: Seq<char>) -> ToolResultView {
    ToolResultView { text: "Failed to run task: "@ + reason, is_error: true }
}

/// The identifier in the text that answers an `add`: the third word,
/// without the full stops that end it, or `1` where there are fewer than
/// three words.
pub open spec fn created_id_of(output: Seq<char>) -> Seq<char> {
    let w = words(output);
    strip_trailing(if w.len() > 2 { w[2] } else { "1"@ }, '.')
}

/// A query never gives an error. Where the run failed or left no text, the
/// caller is told that nothing was found; otherwise the caller gets the
/// output. Either way the text holds something.
pub proof fn lemma_queries_never_fail(kind: RequestKind, o: OutcomeView)
    requires
        is_query(kind),
    ensures
        !interpretation(kind, o).is_error,
        has_failed(o) || output_text(o).len() == 0 ==> interpretation(kind, o).text
            == nothing_found(kind),
        !has_failed(o) && output_text(o).len() > 0 ==> interpretation(kind, o).text == output_text(
            o,
        ),
        interpretation(kind, o).text.len() > 0,
{
    reveal_strlit("No tasks found.");
    reveal_strlit("No matching tasks.");
}

/// A search whose run failed is no error: the caller is told that no task
/// matches.
pub proof fn lemma_search_without_match(o: OutcomeView)
    requires
        has_failed(o),
    ensures
        interpretation(RequestKind::SearchTasks, o) == (ToolResultView {
            text: "No matching tasks."@,
            is_error: false,
        }),
{
}

/// An operation that is no query gives an error exactly when the run has
/// failed, with the text of the failure; otherwise it passes the output on.
pub proof fn lemma_commands_report_failure(kind: RequestKind, o: OutcomeView)
    requires
        !is_query(kind),
    ensures
        interpretation(kind, o) == base_result(o),
        interpretation(kind, o).is_error <==> !o.success && o.stdout.len() == 0,
        interpretation(kind, o).is_error ==> interpretation(kind, o).text == failure_text(o),
        !interpretation(kind, o).is_error ==> interpretation(kind, o).text == output_text(o),
{
}

/// A run that reported success never gives an error.
pub proof fn lemma_success_is_no_error(kind: RequestKind, o: OutcomeView)
    requires
        o.success,
    ensures
        !interpretation(kind, o).is_error,
{
}

/// From the answer `Created task`, an identifier and a full stop, the
/// identifier is read back, whatever follows the full stop after
/// whitespace. The identifier holds no whitespace and does not end in a full
/// stop.
pub proof fn lemma_created_id_reads_the_answer(id: Seq<char>, rest: Seq<char>)
    requires
        is_word(id),
        id.last() != '.',
        rest.len() == 0 || is_space(rest[0]),
    ensures
        created_id_of("Created task "@ + id + "."@ + rest) == id,
{
    reveal_strlit("Created task ");
    reveal_strlit("Created");
    reveal_strlit("task");
    reveal_strlit(".");
    let marked = id.push('.');
    let tail = marked + rest;
    let answer = "Created task "@ + id + "."@ + rest;
    assert(answer =~= "Created"@.push(' ') + ("task"@.push(' ') + tail));
    lemma_words_split_at_space("Created"@, ' ', "task"@.push(' ') + tail);
    lemma_words_split_at_space("task"@, ' ', tail);
    lemma_word_is_its_own_word("Created"@);
    lemma_word_is_its_own_word("task"@);
    lemma_run_is_measured(marked, rest);
    assert(words(answer)[2] == marked);
    assert(marked.drop_last() =~= id);
    assert(strip_trailing(marked, '.') == strip_trailing(id, '.'));
}

/// The result of a run, whatever the operation.
pub fn base_interpret(outcome: ExecutionOutcome) -> (result: ToolResult)
    ensures
        result@ == base_result(outcome@),
{
    if !outcome.success && outcome.stdout.as_str().is_empty() {
        let text = if !outcome.stderr.as_str().is_empty() {
            outcome.stderr
        } else {
            joined("task exited with status ", outcome.status.as_str())
        };
        ToolResult { text, is_error: true }
    } else {
        let text = if !outcome.stdout.as_str().is_empty() {
            outcome.stdout
        } else {
            outcome.stderr
        };
        ToolResult { text, is_error: false }
    }
}

/// The result of a run for an operation of kind `kind`.
pub fn interpret(kind: RequestKind, outcome: ExecutionOutcome) -> (result: ToolResult)
    ensures
        result@ == interpretation(kind, outcome@),
{
    let base = base_interpret(outcome);
    match kind {
        RequestKind::ListTasks => {
            if base.is_error || base.text.as_str().is_empty() {
                ToolResult { text: String::from_str("No tasks found."), is_error: false }
            } else {
                base
            }
        },
        RequestKind::SearchTasks => {
            if base.is_error || base.text.as_str().is_empty() {
                ToolResult { text: String::from_str("No matching tasks."), is_error: false }
            } else {
                base
            }
        },
        _ => base,
    }
}

/// What the caller is given when the program could not be started:
/// always an error, whatever the operation.
pub fn invocation_failure(reason: &str) -> (result: ToolResult)
    ensures
        result@ == invocation_failure_result(reason@),
{
    ToolResult { text: joined("Failed to run task: ", reason), is_error: true }
}

/// The identifier of the task that an `add` created, read from the text
/// that answered it.
pub fn created_id(output: &str) -> (id: String)
    ensures
        id@ == created_id_of(output@),
{
    let w = split_whitespace(output);
    if w.len() > 2 {
        strip_trailing_char(w[2].as_str(), '.')
    } else {
        strip_trailing_char("1", '.')
    }
}

} // verus!
