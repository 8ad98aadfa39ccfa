use tooly::command::Platform;
use tooly::log::{LogEntry, LogLevel};
use tooly::payload::Payload;
use tooly::script::{
    action_script, async_action_script, report_output, script_step, ScriptEvent, ScriptNext,
    ScriptPlan, StreamMode, SCRIPT_TIMEOUT,
};

fn info(items: &[&str]) -> Payload {
    Payload {
        target: "/tmp/x".to_string(),
        target_type: "directory".to_string(),
        items: items.iter().map(|s| s.to_string()).collect(),
        action: "echo hi".to_string(),
        action_type: "script".to_string(),
    }
}

fn error(message: &str) -> LogEntry {
    LogEntry { level: LogLevel::Error, message: message.to_string() }
}

fn note(message: &str) -> LogEntry {
    LogEntry { level: LogLevel::Info, message: message.to_string() }
}

fn plan() -> ScriptPlan {
    action_script(&info(&["/tmp/x/a.txt"]), Platform::Linux)
}

#[test]
fn the_limit_is_two_minutes() {
    assert_eq!(SCRIPT_TIMEOUT, 120);
}

#[test]
fn bash_gets_the_action_and_then_the_items() {
    let plan = action_script(&info(&["/tmp/x/a.txt", "b c"]), Platform::Linux);
    assert_eq!(plan.action, "echo hi");
    assert_eq!(plan.command.program, "bash");
    assert_eq!(
        plan.command.args,
        vec!["--noprofile", "--norc", "-c", "echo hi", "--", "/tmp/x/a.txt", "b c"]
    );
    assert_eq!(plan.stdin, StreamMode::Closed);
    assert_eq!(plan.stdout, StreamMode::Captured);
    assert_eq!(plan.stderr, StreamMode::Captured);
    assert_eq!(plan.timeout_secs, 120);
    assert_eq!(action_script(&info(&["/tmp/x/a.txt", "b c"]), Platform::MacOs), plan);
}

#[test]
fn bash_without_items_gets_the_action_alone() {
    let plan = action_script(&info(&[]), Platform::MacOs);
    assert_eq!(plan.command.args, vec!["--noprofile", "--norc", "-c", "echo hi", "--"]);
}

#[test]
fn cmd_gets_the_action_and_then_the_items() {
    let plan = action_script(&info(&["C:\\a.txt"]), Platform::Windows);
    assert_eq!(plan.command.program, "cmd");
    assert_eq!(plan.command.args, vec!["/C", "echo hi", "C:\\a.txt"]);
    assert_eq!(plan.stdin, StreamMode::Closed);
    assert_eq!(plan.stdout, StreamMode::Captured);
    assert_eq!(plan.stderr, StreamMode::Captured);
    assert_eq!(plan.timeout_secs, 120);
}

#[test]
fn the_job_owns_a_copy_of_the_instruction() {
    let original = info(&["/tmp/x/a.txt"]);
    let job = async_action_script(&original);
    assert_eq!(job.info, original);
}

#[test]
fn a_script_that_does_not_start_is_reported() {
    let step =
        script_step(&plan(), ScriptEvent::SpawnFailed { reason: "No such file".to_string() });
    assert_eq!(step.next, ScriptNext::Finish);
    assert_eq!(
        step.logs,
        vec![error("Command (script) - Failed to execute script 'echo hi': No such file")]
    );
}

#[test]
fn a_started_script_is_waited_for() {
    let step = script_step(&plan(), ScriptEvent::Spawned);
    assert_eq!(step.next, ScriptNext::Wait { secs: 120 });
    assert!(step.logs.is_empty());
}

#[test]
fn the_wait_is_as_long_as_the_plan_allows() {
    let mut short = plan();
    short.timeout_secs = 5;
    assert_eq!(script_step(&short, ScriptEvent::Spawned).next, ScriptNext::Wait { secs: 5 });
}

#[test]
fn a_script_that_ended_is_read() {
    let step = script_step(&plan(), ScriptEvent::Exited);
    assert_eq!(step.next, ScriptNext::Collect);
    assert!(step.logs.is_empty());
}

#[test]
fn the_output_of_a_script_is_logged() {
    let step = script_step(
        &plan(),
        ScriptEvent::Collected { stdout: b"hi\n".to_vec(), stderr: Vec::new() },
    );
    assert_eq!(step.next, ScriptNext::Finish);
    assert_eq!(step.logs, vec![note("Command (script) - Output: hi")]);
}

#[test]
fn the_error_output_of_a_script_is_logged_as_an_error() {
    let step = script_step(
        &plan(),
        ScriptEvent::Collected {
            stdout: b"  done  ".to_vec(),
            stderr: b"\nwarning: x\n\n".to_vec(),
        },
    );
    assert_eq!(step.next, ScriptNext::Finish);
    assert_eq!(
        step.logs,
        vec![note("Command (script) - Output: done"), error("Command (script) - Error: warning: x")]
    );
    let only_error =
        script_step(&plan(), ScriptEvent::Collected { stdout: Vec::new(), stderr: b"bad".to_vec() });
    assert_eq!(only_error.logs, vec![error("Command (script) - Error: bad")]);
}

#[test]
fn a_silent_script_leaves_no_entry() {
    let step = script_step(
        &plan(),
        ScriptEvent::Collected { stdout: b" \n\t".to_vec(), stderr: Vec::new() },
    );
    assert_eq!(step.next, ScriptNext::Finish);
    assert!(step.logs.is_empty());
}

#[test]
fn output_that_is_no_text_is_logged_with_replacements() {
    let step = script_step(
        &plan(),
        ScriptEvent::Collected { stdout: vec![0xff, b'a', b'\n'], stderr: vec![b'b', 0xc3] },
    );
    assert_eq!(
        step.logs,
        vec![
            note("Command (script) - Output: \u{FFFD}a"),
            error("Command (script) - Error: b\u{FFFD}")
        ]
    );
    let text = script_step(
        &plan(),
        ScriptEvent::Collected { stdout: "grüße €".as_bytes().to_vec(), stderr: Vec::new() },
    );
    assert_eq!(text.logs, vec![note("Command (script) - Output: grüße €")]);
}

#[test]
fn a_script_past_its_limit_is_terminated() {
    let step = script_step(&plan(), ScriptEvent::TimedOut);
    assert_eq!(step.next, ScriptNext::Kill);
    assert!(step.logs.is_empty());
}

#[test]
fn a_terminated_script_is_reported_as_a_timeout() {
    let step = script_step(&plan(), ScriptEvent::Killed);
    assert_eq!(step.next, ScriptNext::Finish);
    assert_eq!(step.logs, vec![error("Command (script) - Execution took too long (timeout).")]);
}

#[test]
fn a_script_that_cannot_be_terminated_is_reported_too() {
    let step = script_step(&plan(), ScriptEvent::KillFailed { reason: "EPERM".to_string() });
    assert_eq!(step.next, ScriptNext::Finish);
    assert_eq!(
        step.logs,
        vec![
            error("Command (script) - Failed to terminate script: EPERM"),
            error("Command (script) - Execution took too long (timeout).")
        ]
    );
}

#[test]
fn a_failed_wait_is_not_a_timeout() {
    let step = script_step(&plan(), ScriptEvent::WaitFailed { reason: "EINTR".to_string() });
    assert_eq!(step.next, ScriptNext::Finish);
    assert_eq!(
        step.logs,
        vec![error("Command (script) - Failed while waiting for command: EINTR")]
    );
    assert_ne!(step.logs, script_step(&plan(), ScriptEvent::Killed).logs);
}

#[test]
fn a_report_trims_both_streams() {
    assert_eq!(
        report_output(" out \n", "\terr"),
        vec![note("Command (script) - Output: out"), error("Command (script) - Error: err")]
    );
    assert_eq!(report_output("", ""), Vec::new());
    assert_eq!(report_output("a\nb\n", " "), vec![note("Command (script) - Output: a\nb")]);
}

#[test]
fn a_run_that_ends_in_time_is_spawn_wait_collect() {
    let mut next = script_step(&plan(), ScriptEvent::Spawned).next;
    assert_eq!(next, ScriptNext::Wait { secs: SCRIPT_TIMEOUT });
    next = script_step(&plan(), ScriptEvent::Exited).next;
    assert_eq!(next, ScriptNext::Collect);
    let last = script_step(&plan(), ScriptEvent::Collected { stdout: b"hi".to_vec(), stderr: Vec::new() });
    assert_eq!(last.next, ScriptNext::Finish);
    assert_eq!(last.logs.len(), 1);
    assert!(last.logs.iter().all(|e| e.level == LogLevel::Info));
}
