//! From what a run left behind to what the caller is given.

use task_warrior_mcp::interpret::{
    base_interpret, created_id, interpret, invocation_failure, ToolResult,
};
use task_warrior_mcp::invocation::{GlobalOptions, PROGRAM};
use task_warrior_mcp::outcome::ExecutionOutcome;
use task_warrior_mcp::request::RequestKind;

const COMMANDS: [RequestKind; 6] = [
    RequestKind::AddTask,
    RequestKind::GetTask,
    RequestKind::ModifyTask,
    RequestKind::CompleteTask,
    RequestKind::DeleteTask,
    RequestKind::AnnotateTask,
];

fn outcome(stdout: &str, stderr: &str, success: bool) -> ExecutionOutcome {
    ExecutionOutcome {
        stdout: stdout.to_string(),
        stderr: stderr.to_string(),
        success,
        status: if success { "exit status: 0" } else { "exit status: 2" }.to_string(),
    }
}

fn ok(text: &str) -> ToolResult {
    ToolResult { text: text.to_string(), is_error: false }
}

fn error(text: &str) -> ToolResult {
    ToolResult { text: text.to_string(), is_error: true }
}

#[test]
fn failure_without_output_reports_standard_error() {
    assert_eq!(base_interpret(outcome("", "No matches.", false)), error("No matches."));
    for kind in COMMANDS {
        assert_eq!(interpret(kind, outcome("", "No matches.", false)), error("No matches."));
    }
}

#[test]
fn failure_without_any_text_reports_the_exit_status() {
    assert_eq!(
        base_interpret(outcome("", "", false)),
        error("task exited with status exit status: 2")
    );
    let killed = ExecutionOutcome {
        stdout: String::new(),
        stderr: String::new(),
        success: false,
        status: "signal: 9 (SIGKILL)".to_string(),
    };
    assert_eq!(
        interpret(RequestKind::DeleteTask, killed),
        error("task exited with status signal: 9 (SIGKILL)")
    );
}

#[test]
fn failure_with_output_passes_the_output_on() {
    assert_eq!(base_interpret(outcome("usable", "complaint", false)), ok("usable"));
    for kind in COMMANDS {
        assert_eq!(interpret(kind, outcome("usable", "complaint", false)), ok("usable"));
    }
    assert_eq!(interpret(RequestKind::ListTasks, outcome("usable", "complaint", false)), ok("usable"));
    assert_eq!(interpret(RequestKind::SearchTasks, outcome("usable", "", false)), ok("usable"));
}

#[test]
fn success_passes_standard_output_on() {
    assert_eq!(base_interpret(outcome("Created task 1.", "note", true)), ok("Created task 1."));
    for kind in COMMANDS {
        assert_eq!(interpret(kind, outcome("Created task 1.", "note", true)), ok("Created task 1."));
    }
}

#[test]
fn success_without_output_passes_standard_error_on() {
    assert_eq!(base_interpret(outcome("", "only a note", true)), ok("only a note"));
    assert_eq!(interpret(RequestKind::ModifyTask, outcome("", "only a note", true)), ok("only a note"));
    assert_eq!(interpret(RequestKind::ListTasks, outcome("", "only a note", true)), ok("only a note"));
    assert_eq!(interpret(RequestKind::SearchTasks, outcome("", "only a note", true)), ok("only a note"));
}

#[test]
fn success_without_any_text_is_an_empty_result_for_a_command() {
    assert_eq!(base_interpret(outcome("", "", true)), ok(""));
    for kind in COMMANDS {
        assert_eq!(interpret(kind, outcome("", "", true)), ok(""));
    }
}

#[test]
fn a_list_that_fails_found_no_tasks() {
    assert_eq!(interpret(RequestKind::ListTasks, outcome("", "No matches.", false)), ok("No tasks found."));
    assert_eq!(interpret(RequestKind::ListTasks, outcome("", "", false)), ok("No tasks found."));
    assert_eq!(interpret(RequestKind::ListTasks, outcome("", "", true)), ok("No tasks found."));
}

#[test]
fn a_search_that_fails_found_no_matching_tasks() {
    assert_eq!(
        interpret(RequestKind::SearchTasks, outcome("", "No matches.", false)),
        ok("No matching tasks.")
    );
    assert_eq!(interpret(RequestKind::SearchTasks, outcome("", "", false)), ok("No matching tasks."));
    assert_eq!(interpret(RequestKind::SearchTasks, outcome("", "", true)), ok("No matching tasks."));
}

#[test]
fn a_query_passes_what_it_found_on() {
    assert_eq!(interpret(RequestKind::ListTasks, outcome("1 alpha  Task", "", true)), ok("1 alpha  Task"));
    assert_eq!(interpret(RequestKind::SearchTasks, outcome("1 alpha  Task", "", true)), ok("1 alpha  Task"));
}

#[test]
fn interpretation_takes_the_text_as_it_is() {
    assert_eq!(interpret(RequestKind::GetTask, outcome(" ", "complaint", false)), ok(" "));
    assert_eq!(interpret(RequestKind::ListTasks, outcome("\n", "", true)), ok("\n"));
}

#[test]
fn a_program_that_cannot_be_started() {
    assert_eq!(invocation_failure("not found"), error("Failed to run task: not found"));
    assert_eq!(invocation_failure(""), error("Failed to run task: "));
}

#[test]
fn capture_reads_bytes_as_text_and_trims() {
    let captured = ExecutionOutcome::capture(
        b"\n  Created task 5.\n",
        b" \t",
        true,
        "exit status: 0".to_string(),
    );
    assert_eq!(
        captured,
        ExecutionOutcome {
            stdout: "Created task 5.".to_string(),
            stderr: String::new(),
            success: true,
            status: "exit status: 0".to_string(),
        }
    );
}

#[test]
fn an_outcome_from_text_is_trimmed() {
    let outcome = ExecutionOutcome::from_text(
        "\n 1 alpha  Task \n",
        "\u{a0}No matches.\r\n",
        false,
        "exit status: 1".to_string(),
    );
    assert_eq!(
        outcome,
        ExecutionOutcome {
            stdout: "1 alpha  Task".to_string(),
            stderr: "No matches.".to_string(),
            success: false,
            status: "exit status: 1".to_string(),
        }
    );
}

#[test]
fn capture_replaces_what_is_not_utf8() {
    let captured = ExecutionOutcome::capture(
        b"caf\xc3\xa9 \xff!\n",
        b"\xa0x\xc2\xa0",
        false,
        "exit status: 1".to_string(),
    );
    assert_eq!(captured.stdout, "café \u{fffd}!");
    assert_eq!(captured.stderr, "\u{fffd}x");
    assert!(!captured.success);
    assert_eq!(captured.status, "exit status: 1");
}

#[test]
fn whitespace_alone_is_no_output() {
    let captured = ExecutionOutcome::capture(b" \n", b"No matches.\n", false, "exit status: 1".to_string());
    assert_eq!(interpret(RequestKind::GetTask, captured.clone()), error("No matches."));
    assert_eq!(interpret(RequestKind::SearchTasks, captured), ok("No matching tasks."));
}

#[test]
fn the_identifier_is_the_third_word() {
    assert_eq!(created_id("Created task 5."), "5");
    assert_eq!(created_id("Created task 12.\nThe project 'x' has changed."), "12");
    assert_eq!(created_id("  Created\ttask\n42...  "), "42");
    assert_eq!(created_id("Created task a1b2c3d4."), "a1b2c3d4");
    assert_eq!(created_id("Created task 7"), "7");
    assert_eq!(created_id("one two ..."), "");
}

#[test]
fn the_identifier_is_1_where_there_is_no_third_word() {
    assert_eq!(created_id(""), "1");
    assert_eq!(created_id("Created task"), "1");
    assert_eq!(created_id("   "), "1");
}

#[test]
fn the_command_line_starts_with_the_options() {
    let argv: Vec<String> = vec!["project:alpha".to_string(), "next".to_string()];
    assert_eq!(
        GlobalOptions::new().command_line(argv.clone()),
        vec!["rc.confirmation=no", "project:alpha", "next"]
    );
    assert_eq!(
        GlobalOptions::with_data_dir("/tmp/tw data").command_line(argv),
        vec!["rc.confirmation=no", "rc.data.location=/tmp/tw data", "project:alpha", "next"]
    );
    assert_eq!(GlobalOptions::new().command_line(Vec::new()), vec!["rc.confirmation=no"]);
}

#[test]
fn the_options_hold_the_data_directory() {
    assert_eq!(GlobalOptions::new(), GlobalOptions { data_dir: None });
    assert_eq!(
        GlobalOptions::with_data_dir("/tmp/x"),
        GlobalOptions { data_dir: Some("/tmp/x".to_string()) }
    );
}

#[test]
fn the_program_is_task() {
    assert_eq!(PROGRAM, "task");
}
