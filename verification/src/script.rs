//! The bounded script runner: a script that runs without a terminal, under a
//! wall-clock limit, on a context of its own.
//!
//! Nothing here starts a process. `action_script` says how the interpreter is
//! to be started, and `script_step` says, for each thing that can happen to the
//! process, what is logged and what is done next. The caller performs the
//! steps: it starts with the plan's command, and reports each event until the
//! step says `Finish`.

use vstd::prelude::*;
use vstd::string::StringExecFns;
use vstd::utf8::{decode_utf8, valid_utf8};
use crate::command::{push_all, texts, CommandLine, CommandLineView, Platform};
use crate::log::{entry, error_entry, info_entry, log_views, LogEntry, LogEntryView, LogLevel};
use crate::payload::{Payload, PayloadView};
use crate::text::{from_utf8_lossy, lossy_text, trim, trimmed};

verus! {

/// Seconds that a script may run before it is terminated.
pub const SCRIPT_TIMEOUT: u64 = 120;

/// What becomes of a stream of the script's process.
#[derive(Clone, Copy, Debug, PartialEq, Eq, Structural)]
pub enum StreamMode {
    /// Connected to an empty source.
    Closed,
    /// Kept for the runner to read, apart from the host's own output.
    Captured,
}

/// How the interpreter of a script is started and how long it may run.
#[derive(Clone, Debug, PartialEq, Eq)]
pub struct ScriptPlan {
    /// The script, for the log.
    pub action: String,
    pub command: CommandLine,
    pub stdin: StreamMode,
    pub stdout: StreamMode,
    pub stderr: StreamMode,
    pub timeout_secs: u64,
}

/// A `ScriptPlan` as plain text.
pub struct ScriptPlanView {
    pub action: Seq<char>,
    pub command: CommandLineView,
    pub stdin: StreamMode,
    pub stdout: StreamMode,
    pub stderr: StreamMode,
    pub timeout_secs: u64,
}

impl View for ScriptPlan {
    type V = ScriptPlanView;

    open spec fn view(&self) -> ScriptPlanView {
        ScriptPlanView {
            action: self.action@,
            command: self.command@,
            stdin: self.stdin,
            stdout: self.stdout,
            stderr: self.stderr,
            timeout_secs: self.timeout_secs,
        }
    }
}

/// The interpreter and its arguments: the action as the command body, then the
/// items as positional arguments.
pub open spec fn script_command(info: PayloadView, platform: Platform) -> CommandLineView {
    match platform {
        Platform::Windows => CommandLineView {
            program: "cmd"@,
            args: seq!["/C"@, info.action] + info.items,
        },
        _ => CommandLineView {
            program: "bash"@,
            args: seq!["--noprofile"@, "--norc"@, "-c"@, info.action, "--"@] + info.items,
        },
    }
}

/// The run of `info.action` as a script: its input closed, both its outputs
/// captured, and `SCRIPT_TIMEOUT` seconds to end in.
pub open spec fn script_plan(info: PayloadView, platform: Platform) -> ScriptPlanView {
    ScriptPlanView {
        action: info.action,
        command: script_command(info, platform),
        stdin: StreamMode::Closed,
        stdout: StreamMode::Captured,
        stderr: StreamMode::Captured,
        timeout_secs: SCRIPT_TIMEOUT,
    }
}

/// Plans the run of `info.action` as a script with `info.items` as its
/// arguments.
pub fn action_script(info: &Payload, platform: Platform) -> (plan: ScriptPlan)
    ensures
        plan@ == script_plan(info@, platform),
{
    let mut args: Vec<String> = Vec::new();
    let program = match platform {
        Platform::Windows => {
            args.push("/C".to_owned());
            args.push(info.action.clone());
            assert(texts(args@) == seq!["/C"@, info.action@]);
            "cmd".to_owned()
        },
        _ => {
            args.push("--noprofile".to_owned());
            args.push("--norc".to_owned());
            args.push("-c".to_owned());
            args.push(info.action.clone());
            args.push("--".to_owned());
            assert(texts(args@) == seq!["--noprofile"@, "--norc"@, "-c"@, info.action@, "--"@]);
            "bash".to_owned()
        },
    };
    push_all(&mut args, &info.items);
    ScriptPlan {
        action: info.action.clone(),
        command: CommandLine { program, args },
        stdin: StreamMode::Closed,
        stdout: StreamMode::Captured,
        stderr: StreamMode::Captured,
        timeout_secs: SCRIPT_TIMEOUT,
    }
}

/// A script run that has been handed over to a context of its own.
#[derive(Clone, Debug, PartialEq, Eq)]
pub struct ScriptJob {
    /// The instruction, owned by the job.
    pub info: Payload,
}

/// Hands the script of `info` over to a background context: the job owns a copy
/// of the instruction, so the caller need not wait for it.
pub fn async_action_script(info: &Payload) -> (job: ScriptJob)
    ensures
        job.info@ == info@,
{
    ScriptJob { info: info.clone() }
}

/// What can happen to the process of a script.
#[derive(Clone, Debug, PartialEq, Eq)]
pub enum ScriptEvent {
    /// The interpreter could not be started.
    SpawnFailed { reason: String },
    /// The interpreter runs.
    Spawned,
    /// The process ended within the limit.
    Exited,
    /// The limit passed and the process still runs.
    TimedOut,
    /// Waiting for the process failed.
    WaitFailed { reason: String },
    /// Both captured streams were read to their end.
    Collected { stdout: Vec<u8>, stderr: Vec<u8> },
    /// The process was terminated.
    Killed,
    /// The process could not be terminated.
    KillFailed { reason: String },
}

/// What the runner does next.
#[derive(Clone, Copy, Debug, PartialEq, Eq, Structural)]
pub enum ScriptNext {
    /// Wait for the process to end, `secs` seconds at most.
    Wait { secs: u64 },
    /// Read both captured streams to their end.
    Collect,
    /// Terminate the process.
    Kill,
    /// Nothing: the run is over.
    Finish,
}

/// The reaction to an event: what to log, then what to do.
#[derive(Clone, Debug, PartialEq, Eq)]
pub struct ScriptStep {
    pub logs: Vec<LogEntry>,
    pub next: ScriptNext,
}

/// Log text for a script that could not be started.
pub open spec fn spawn_failed_message(action: Seq<char>, reason: Seq<char>) -> Seq<char> {
    "Command (script) - Failed to execute script '"@ + action + "': "@ + reason
}

/// Log text for a wait that failed.
pub open spec fn wait_failed_message(reason: Seq<char>) -> Seq<char> {
    "Command (script) - Failed while waiting for command: "@ + reason
}

/// Log text for a process that could not be terminated.
pub open spec fn kill_failed_message(reason: Seq<char>) -> Seq<char> {
    "Command (script) - Failed to terminate script: "@ + reason
}

/// Log text for a script that ran past its limit.
pub open spec fn timeout_message() -> Seq<char> {
    "Command (script) - Execution took too long (timeout)."@
}

/// Log text for what a script wrote to its standard output.
pub open spec fn output_message(output: Seq<char>) -> Seq<char> {
    "Command (script) - Output: "@ + output
}

/// Log text for what a script wrote to its standard error.
pub open spec fn error_message(output: Seq<char>) -> Seq<char> {
    "Command (script) - Error: "@ + output
}

/// The log of a finished script: its output, trimmed, as information, then its
/// error output, trimmed, as an error; a stream that is empty once trimmed
/// leaves no entry.
pub open spec fn output_report(stdout: Seq<char>, stderr: Seq<char>) -> Seq<LogEntryView> {
    let out = trimmed(stdout);
    let err = trimmed(stderr);
    let first = if out.len() > 0 {
        seq![info_entry(output_message(out))]
    } else {
        Seq::empty()
    };
    let second = if err.len() > 0 {
        seq![error_entry(error_message(err))]
    } else {
        Seq::empty()
    };
    first + second
}

/// The log of a finished script whose two streams read `stdout` and `stderr`.
pub fn report_output(stdout: &str, stderr: &str) -> (logs: Vec<LogEntry>)
    ensures
        log_views(logs@) == output_report(stdout@, stderr@),
{
    let out = trim(stdout);
    let err = trim(stderr);
    let mut logs: Vec<LogEntry> = Vec::new();
    if out.as_str().unicode_len() > 0 {
        logs.push(entry(LogLevel::Info, "Command (script) - Output: ", out.as_str()));
    }
    if err.as_str().unicode_len() > 0 {
        logs.push(entry(LogLevel::Error, "Command (script) - Error: ", err.as_str()));
    }
    assert(log_views(logs@) == output_report(stdout@, stderr@));
    logs
}

/// What is logged once `event` has happened to the script of `plan`.
pub open spec fn script_logs(plan: ScriptPlanView, event: ScriptEvent) -> Seq<LogEntryView> {
    match event {
        ScriptEvent::SpawnFailed { reason } => seq![
            error_entry(spawn_failed_message(plan.action, reason@)),
        ],
        ScriptEvent::WaitFailed { reason } => seq![error_entry(wait_failed_message(reason@))],
        ScriptEvent::Collected { stdout, stderr } => output_report(
            lossy_text(stdout@),
            lossy_text(stderr@),
        ),
        ScriptEvent::Killed => seq![error_entry(timeout_message())],
        ScriptEvent::KillFailed { reason } => seq![
            error_entry(kill_failed_message(reason@)),
            error_entry(timeout_message()),
        ],
        _ => Seq::empty(),
    }
}

/// What is done once `event` has happened to the script of `plan`: a started
/// process is waited for, as long as the plan allows; one that ended is read;
/// one that ran past the limit is terminated; and every other event ends the
/// run.
pub open spec fn script_next(plan: ScriptPlanView, event: ScriptEvent) -> ScriptNext {
    match event {
        ScriptEvent::Spawned => ScriptNext::Wait { secs: plan.timeout_secs },
        ScriptEvent::Exited => ScriptNext::Collect,
        ScriptEvent::TimedOut => ScriptNext::Kill,
        _ => ScriptNext::Finish,
    }
}

/// The runner's reaction to `event`. Output that is well-formed UTF-8 is
/// logged as the text it encodes.
pub fn script_step(plan: &ScriptPlan, event: ScriptEvent) -> (step: ScriptStep)
    ensures
        log_views(step.logs@) == script_logs(plan@, event),
        step.next == script_next(plan@, event),
        event matches ScriptEvent::Collected { stdout, stderr } ==> (valid_utf8(stdout@)
            && valid_utf8(stderr@) ==> log_views(step.logs@) == output_report(
            decode_utf8(stdout@),
            decode_utf8(stderr@),
        )),
{
    let mut logs: Vec<LogEntry> = Vec::new();
    let next = match event {
        ScriptEvent::SpawnFailed { reason } => {
            let mut message = "Command (script) - Failed to execute script '".to_owned();
            message.append(plan.action.as_str());
            message.append("': ");
            message.append(reason.as_str());
            logs.push(LogEntry { level: LogLevel::Error, message });
            ScriptNext::Finish
        },
        ScriptEvent::Spawned => ScriptNext::Wait { secs: plan.timeout_secs },
        ScriptEvent::Exited => ScriptNext::Collect,
        ScriptEvent::TimedOut => ScriptNext::Kill,
        ScriptEvent::WaitFailed { reason } => {
            logs.push(
                entry(
                    LogLevel::Error,
                    "Command (script) - Failed while waiting for command: ",
                    reason.as_str(),
                ),
            );
            ScriptNext::Finish
        },
        ScriptEvent::Collected { stdout, stderr } => {
            let out = from_utf8_lossy(stdout.as_slice());
            let err = from_utf8_lossy(stderr.as_slice());
            logs = report_output(out.as_str(), err.as_str());
            ScriptNext::Finish
        },
        ScriptEvent::Killed => {
            logs.push(
                entry(LogLevel::Error, "Command (script) - Execution took too long (timeout).", ""),
            );
            ScriptNext::Finish
        },
        ScriptEvent::KillFailed { reason } => {
            logs.push(
                entry(
                    LogLevel::Error,
                    "Command (script) - Failed to terminate script: ",
                    reason.as_str(),
                ),
            );
            logs.push(
                entry(LogLevel::Error, "Command (script) - Execution took too long (timeout).", ""),
            );
            ScriptNext::Finish
        },
    };
    proof {
        reveal_strlit("");
        assert(timeout_message() + ""@ == timeout_message());
        assert(log_views(logs@) == script_logs(plan@, event));
    }
    ScriptStep { logs, next }
}

/// A script that ends within its limit is waited for, then read, and what is
/// logged of it is its output and nothing else.
pub proof fn lemma_script_in_time(plan: ScriptPlanView, stdout: Vec<u8>, stderr: Vec<u8>)
    ensures
        script_next(plan, ScriptEvent::Spawned) == (ScriptNext::Wait { secs: plan.timeout_secs }),
        script_next(plan, ScriptEvent::Exited) == ScriptNext::Collect,
        script_next(plan, ScriptEvent::Collected { stdout, stderr }) == ScriptNext::Finish,
        script_logs(plan, ScriptEvent::Spawned) + script_logs(plan, ScriptEvent::Exited)
            + script_logs(plan, ScriptEvent::Collected { stdout, stderr }) == output_report(
            lossy_text(stdout@),
            lossy_text(stderr@),
        ),
{
}

/// A script that runs past its limit is terminated, and what is logged of it
/// is the timeout and none of its output; a wait that fails is logged as
/// such, not as a timeout.
pub proof fn lemma_script_past_limit(plan: ScriptPlanView, reason: String)
    ensures
        script_next(plan, ScriptEvent::Spawned) == (ScriptNext::Wait { secs: plan.timeout_secs }),
        script_next(plan, ScriptEvent::TimedOut) == ScriptNext::Kill,
        script_next(plan, ScriptEvent::Killed) == ScriptNext::Finish,
        script_logs(plan, ScriptEvent::Spawned) + script_logs(plan, ScriptEvent::TimedOut)
            + script_logs(plan, ScriptEvent::Killed) == seq![error_entry(timeout_message())],
        script_next(plan, ScriptEvent::WaitFailed { reason }) == ScriptNext::Finish,
        script_logs(plan, ScriptEvent::WaitFailed { reason }) == seq![
            error_entry(wait_failed_message(reason@)),
        ],
{
}

} // verus!
