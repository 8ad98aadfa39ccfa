//! The dispatcher: from a trigger to the one action it asks for.
//!
//! A trigger is a URL whose host names a command and whose `payload`
//! parameter carries an instruction. Only the command `run` is known. The
//! dispatcher decodes the instruction and maps its action type to an action.
//! It performs nothing: the outcome says what is to be done, and an outcome
//! that is no action has no effect at all.

use vstd::prelude::*;
use vstd::string::StringExecFns;
use crate::codec::{
    decode_payload, encodes_twice, payload_text, raw_payload, trigger_command, TriggerUrl,
    TriggerUrlView,
};
use crate::command::{Host, HostView};
use crate::create::{action_create, create_plan, CreatePlan, CreatePlanView};
use crate::launch::{action_app, launch_plan, LaunchPlan, LaunchPlanView};
use crate::log::{error_entry, info_entry, LogEntry, LogEntryView, LogLevel};
use crate::payload::{
    decode_error_message, json_document, load_payload, payload_from_document,
    payload_of_document, DecodeError, DecodeErrorView, JsonDocument, JsonDocumentView, Payload,
    PayloadView,
};
use crate::script::{async_action_script, ScriptJob};
use crate::terminal::{action_terminal, terminal_plan, TerminalPlan, TerminalPlanView};
use crate::text::text_eq;

verus! {

/// What a decoded instruction asks for.
#[derive(Clone, Debug, PartialEq, Eq)]
pub enum Action {
    /// Create a file, under a name that no file has yet.
    Create(CreatePlan),
    /// Start an application and leave it to itself.
    Launch(LaunchPlan),
    /// Write a script and open it in a terminal.
    Terminal(TerminalPlan),
    /// Run a script under the time limit, on a context of its own.
    Script(ScriptJob),
    /// Open the find-and-replace surface. Nothing is renamed.
    FindAndReplace,
}

/// An `Action` as plain text.
pub enum ActionView {
    Create(CreatePlanView),
    Launch(LaunchPlanView),
    Terminal(TerminalPlanView),
    Script(PayloadView),
    FindAndReplace,
}

impl View for Action {
    type V = ActionView;

    open spec fn view(&self) -> ActionView {
        match self {
            Action::Create(plan) => ActionView::Create(plan@),
            Action::Launch(plan) => ActionView::Launch(plan@),
            Action::Terminal(plan) => ActionView::Terminal(plan@),
            Action::Script(job) => ActionView::Script(job.info@),
            Action::FindAndReplace => ActionView::FindAndReplace,
        }
    }
}

impl Action {
    /// Whether the action is performed on a context of its own, so that the
    /// triggering thread does not wait for it: so for a script, the one
    /// action that takes time.
    pub fn in_background(&self) -> (background: bool)
        ensures
            background == (self is Script),
    {
        match self {
            Action::Script(_) => true,
            _ => false,
        }
    }
}

/// What became of a trigger.
#[derive(Clone, Debug, PartialEq, Eq)]
pub enum Outcome {
    /// The command is not known. Nothing is done.
    UnknownCommand { command: String },
    /// The payload yields no instruction. Nothing is done.
    DecodeFailed { command: String, error: DecodeError },
    /// The instruction's action type is not known. Nothing is done.
    UnknownAction { command: String, action_type: String },
    /// The instruction asks for this action, and for nothing else.
    Run(Action),
}

/// An `Outcome` as plain text.
pub enum OutcomeView {
    UnknownCommand { command: Seq<char> },
    DecodeFailed { command: Seq<char>, error: DecodeErrorView },
    UnknownAction { command: Seq<char>, action_type: Seq<char> },
    Run(ActionView),
}

impl View for Outcome {
    type V = OutcomeView;

    open spec fn view(&self) -> OutcomeView {
        match self {
            Outcome::UnknownCommand { command } => OutcomeView::UnknownCommand {
                command: command@,
            },
            Outcome::DecodeFailed { command, error } => OutcomeView::DecodeFailed {
                command: command@,
                error: error@,
            },
            Outcome::UnknownAction { command, action_type } => OutcomeView::UnknownAction {
                command: command@,
                action_type: action_type@,
            },
            Outcome::Run(action) => OutcomeView::Run(action@),
        }
    }
}

/// The find-and-replace action: the surface is opened, and `info` is not
/// acted on.
pub fn action_find_and_replace(info: &Payload) -> (action: Action)
    ensures
        action@ == ActionView::FindAndReplace,
{
    Action::FindAndReplace
}

/// The action that `info.action_type` selects, from `create`, `app`,
/// `shortcut`, `terminal`, `script` and `replace`; none for any other tag.
pub open spec fn routed_action(info: PayloadView, host: HostView) -> Option<ActionView> {
    if info.action_type == "create"@ {
        Some(ActionView::Create(create_plan(info, host.platform)))
    } else if info.action_type == "app"@ {
        Some(ActionView::Launch(launch_plan(info, false, host.platform)))
    } else if info.action_type == "shortcut"@ {
        Some(ActionView::Launch(launch_plan(info, true, host.platform)))
    } else if info.action_type == "terminal"@ {
        Some(ActionView::Terminal(terminal_plan(info, host)))
    } else if info.action_type == "script"@ {
        Some(ActionView::Script(info))
    } else if info.action_type == "replace"@ {
        Some(ActionView::FindAndReplace)
    } else {
        None
    }
}

/// The outcome of the command `command` for a payload that was read as
/// `loaded`: the error where reading failed, else the action that the
/// instruction selects, or its unknown action type.
pub open spec fn command_outcome(
    command: Seq<char>,
    loaded: Result<PayloadView, DecodeErrorView>,
    host: HostView,
) -> OutcomeView {
    match loaded {
        Err(error) => OutcomeView::DecodeFailed { command, error },
        Ok(info) => match routed_action(info, host) {
            Some(action) => OutcomeView::Run(action),
            None => OutcomeView::UnknownAction { command, action_type: info.action_type },
        },
    }
}

/// Maps an instruction to the one action that its action type selects.
pub fn route(command: &str, info: &Payload, host: &Host) -> (outcome: Outcome)
    ensures
        outcome@ == command_outcome(command@, Ok(info@), host@),
{
    let tag = info.action_type.as_str();
    if text_eq(tag, "create") {
        Outcome::Run(Action::Create(action_create(info, host.platform)))
    } else if text_eq(tag, "app") {
        Outcome::Run(Action::Launch(action_app(info, false, host.platform)))
    } else if text_eq(tag, "shortcut") {
        Outcome::Run(Action::Launch(action_app(info, true, host.platform)))
    } else if text_eq(tag, "terminal") {
        Outcome::Run(Action::Terminal(action_terminal(info, host)))
    } else if text_eq(tag, "script") {
        Outcome::Run(Action::Script(async_action_script(info)))
    } else if text_eq(tag, "replace") {
        Outcome::Run(action_find_and_replace(info))
    } else {
        Outcome::UnknownAction {
            command: command.to_owned(),
            action_type: info.action_type.clone(),
        }
    }
}

/// Runs the command `command` on a payload that was read as `document`.
pub fn run_document(command: &str, document: &JsonDocument, host: &Host) -> (outcome: Outcome)
    ensures
        outcome@ == command_outcome(command@, payload_of_document(document@), host@),
{
    match payload_from_document(document) {
        Err(error) => Outcome::DecodeFailed { command: command.to_owned(), error },
        Ok(info) => route(command, &info, host),
    }
}

/// Runs the command `command` on the JSON text of a payload: reads the
/// instruction and maps it to its action.
pub fn run_command(command: &str, payload: &str, host: &Host) -> (outcome: Outcome)
    ensures
        outcome@ == command_outcome(
            command@,
            payload_of_document(json_document(payload@)),
            host@,
        ),
{
    match load_payload(payload) {
        Err(error) => Outcome::DecodeFailed { command: command.to_owned(), error },
        Ok(info) => route(command, &info, host),
    }
}

/// What becomes of a trigger: a command other than `run` is unknown; the
/// payload of `run` is percent-decoded twice, read as JSON and mapped to its
/// action, and each of the three can fail.
pub open spec fn trigger_outcome(url: TriggerUrlView, host: HostView) -> OutcomeView {
    let command = trigger_command(url);
    if command != "run"@ {
        OutcomeView::UnknownCommand { command }
    } else {
        match payload_text(raw_payload(url)) {
            None => OutcomeView::DecodeFailed { command, error: DecodeErrorView::MalformedEscape },
            Some(payload) => command_outcome(
                command,
                payload_of_document(json_document(payload)),
                host,
            ),
        }
    }
}

/// Handles a trigger: decides what it asks for.
///
/// A payload that was percent-encoded twice is read as it was before: the
/// outcome is that of the command `run` on the text that was encoded.
pub fn execute_url(url: &TriggerUrl, host: &Host) -> (outcome: Outcome)
    ensures
        outcome@ == trigger_outcome(url@, host@),
        forall|once: Seq<char>, payload: Seq<char>| #[trigger]
            encodes_twice(raw_payload(url@), once, payload) && trigger_command(url@) == "run"@
                ==> outcome@ == command_outcome(
                "run"@,
                payload_of_document(json_document(payload)),
                host@,
            ),
{
    let command = url.command();
    if !text_eq(command.as_str(), "run") {
        return Outcome::UnknownCommand { command };
    }
    let raw = url.raw_payload();
    match decode_payload(raw.as_str()) {
        Err(error) => Outcome::DecodeFailed { command, error },
        Ok(payload) => run_command(command.as_str(), payload.as_str(), host),
    }
}

/// What the log says of an outcome that is no action.
pub open spec fn outcome_entry(outcome: OutcomeView) -> Option<LogEntryView> {
    match outcome {
        OutcomeView::UnknownCommand { command } => Some(
            info_entry("Execution - Unknown command: "@ + command),
        ),
        OutcomeView::DecodeFailed { command, error } => Some(
            error_entry(
                "Command ("@ + command + ") - Failed to load payload: "@ + decode_error_message(
                    error,
                ),
            ),
        ),
        OutcomeView::UnknownAction { command, action_type } => Some(
            error_entry("Command ("@ + command + ") - Unknown action type: "@ + action_type),
        ),
        OutcomeView::Run(_) => None,
    }
}

/// The log entry for an outcome that is no action: the unknown command, the
/// failure to decode, or the unknown action type. An action is not logged
/// here; it is reported once performed.
pub fn outcome_log(outcome: &Outcome) -> (logged: Option<LogEntry>)
    ensures
        match logged {
            Some(e) => outcome_entry(outcome@) == Some(e@),
            None => outcome_entry(outcome@) is None,
        },
{
    match outcome {
        Outcome::UnknownCommand { command } => {
            let mut message = "Execution - Unknown command: ".to_owned();
            message.append(command.as_str());
            Some(LogEntry { level: LogLevel::Info, message })
        },
        Outcome::DecodeFailed { command, error } => {
            let reason = error.message();
            let mut message = "Command (".to_owned();
            message.append(command.as_str());
            message.append(") - Failed to load payload: ");
            message.append(reason.as_str());
            Some(LogEntry { level: LogLevel::Error, message })
        },
        Outcome::UnknownAction { command, action_type } => {
            let mut message = "Command (".to_owned();
            message.append(command.as_str());
            message.append(") - Unknown action type: ");
            message.append(action_type.as_str());
            Some(LogEntry { level: LogLevel::Error, message })
        },
        Outcome::Run(_) => None,
    }
}

/// A payload that yields no instruction has no effect: whatever the error,
/// the outcome is the decode failure, which is logged as an error, and no
/// action.
pub proof fn lemma_decode_failure_is_logged_and_no_action(
    command: Seq<char>,
    error: DecodeErrorView,
    host: HostView,
)
    ensures
        command_outcome(command, Err(error), host) == (OutcomeView::DecodeFailed {
            command,
            error,
        }),
        !(command_outcome(command, Err(error), host) is Run),
        outcome_entry(command_outcome(command, Err(error), host)) matches Some(entry)
            && entry.level == LogLevel::Error,
{
}

/// Malformed JSON yields no instruction: a payload that is not JSON is a
/// decode failure that carries the reason.
pub proof fn lemma_malformed_json_is_a_decode_failure(
    command: Seq<char>,
    reason: Seq<char>,
    host: HostView,
)
    ensures
        command_outcome(
            command,
            payload_of_document(JsonDocumentView::Malformed { reason }),
            host,
        ) == (OutcomeView::DecodeFailed {
            command,
            error: DecodeErrorView::MalformedJson { reason },
        }),
{
}

/// Whether `tag` is one of the six action types.
pub open spec fn known_action_type(tag: Seq<char>) -> bool {
    ||| tag == "create"@
    ||| tag == "app"@
    ||| tag == "shortcut"@
    ||| tag == "terminal"@
    ||| tag == "script"@
    ||| tag == "replace"@
}

/// An action type that is not one of the six has no effect: the outcome is
/// the unknown action type, which is logged as an error, and no action; and
/// each of the six yields an action.
pub proof fn lemma_unknown_action_is_logged_and_no_action(
    command: Seq<char>,
    info: PayloadView,
    host: HostView,
)
    ensures
        !known_action_type(info.action_type) ==> command_outcome(command, Ok(info), host) == (
        OutcomeView::UnknownAction { command, action_type: info.action_type }),
        !known_action_type(info.action_type) ==> outcome_entry(
            command_outcome(command, Ok(info), host),
        ) == Some(
            error_entry("Command ("@ + command + ") - Unknown action type: "@ + info.action_type),
        ),
        known_action_type(info.action_type) <==> command_outcome(command, Ok(info), host) is Run,
{
}

} // verus!
