//! The launch actions: an application opened through the platform's own
//! "open this with that" mechanism, started and left to itself.

use vstd::prelude::*;
use vstd::string::StringExecFns;
use crate::command::{push_all, texts, CommandLine, CommandLineView, Platform};
use crate::log::{error_entry, info_entry, LogEntry, LogLevel};
use crate::payload::{Payload, PayloadView};

verus! {

/// The command that opens the application `info.action`: the platform's
/// opener and the application, then the items unless the launch is that of a
/// shortcut, which names its own target.
pub open spec fn launch_command(
    info: PayloadView,
    is_shortcut: bool,
    platform: Platform,
) -> CommandLineView {
    let items = if is_shortcut {
        Seq::empty()
    } else {
        info.items
    };
    match platform {
        Platform::MacOs => CommandLineView {
            program: "open"@,
            args: seq!["-a"@, info.action] + items,
        },
        Platform::Windows => CommandLineView {
            program: "cmd"@,
            args: seq!["/C"@, "start"@, ""@, info.action] + items,
        },
        Platform::Linux => CommandLineView {
            program: "xdg-open"@,
            args: seq![info.action] + items,
        },
    }
}

/// An application to start: its name, for the log, and the command that
/// starts it. The process is left to itself once started.
#[derive(Clone, Debug, PartialEq, Eq)]
pub struct LaunchPlan {
    pub application: String,
    pub command: CommandLine,
}

/// A `LaunchPlan` as plain text.
pub struct LaunchPlanView {
    pub application: Seq<char>,
    pub command: CommandLineView,
}

impl View for LaunchPlan {
    type V = LaunchPlanView;

    open spec fn view(&self) -> LaunchPlanView {
        LaunchPlanView { application: self.application@, command: self.command@ }
    }
}

/// The launch of the application `info.action`.
pub open spec fn launch_plan(
    info: PayloadView,
    is_shortcut: bool,
    platform: Platform,
) -> LaunchPlanView {
    LaunchPlanView {
        application: info.action,
        command: launch_command(info, is_shortcut, platform),
    }
}

/// Plans the launch of the application `info.action`, with the items as its
/// arguments unless `is_shortcut` is set.
pub fn action_app(info: &Payload, is_shortcut: bool, platform: Platform) -> (plan: LaunchPlan)
    ensures
        plan@ == launch_plan(info@, is_shortcut, platform),
{
    let mut args: Vec<String> = Vec::new();
    let program = match platform {
        Platform::MacOs => {
            args.push("-a".to_owned());
            args.push(info.action.clone());
            assert(texts(args@) == seq!["-a"@, info.action@]);
            "open".to_owned()
        },
        Platform::Windows => {
            args.push("/C".to_owned());
            args.push("start".to_owned());
            args.push("".to_owned());
            args.push(info.action.clone());
            assert(texts(args@) == seq!["/C"@, "start"@, ""@, info.action@]);
            "cmd".to_owned()
        },
        Platform::Linux => {
            args.push(info.action.clone());
            assert(texts(args@) == seq![info.action@]);
            "xdg-open".to_owned()
        },
    };
    if !is_shortcut {
        push_all(&mut args, &info.items);
    } else {
        assert(texts(args@) + Seq::<Seq<char>>::empty() == texts(args@));
    }
    LaunchPlan { application: info.action.clone(), command: CommandLine { program, args } }
}

/// Log text for an application that was started.
pub open spec fn launched_message(application: Seq<char>) -> Seq<char> {
    "Action (app) - Launched app '"@ + application + "'"@
}

/// Log text for an application that could not be started.
pub open spec fn launch_failed_message(application: Seq<char>, reason: Seq<char>) -> Seq<char> {
    "Action (app) - Failed to launch app '"@ + application + "': "@ + reason
}

/// The log entry on the start of an application: its name, and the reason
/// where it could not be started.
pub fn launch_report(plan: &LaunchPlan, failure: Option<&str>) -> (report: LogEntry)
    ensures
        report@ == match failure {
            None => info_entry(launched_message(plan.application@)),
            Some(reason) => error_entry(launch_failed_message(plan.application@, reason@)),
        },
{
    match failure {
        None => {
            let mut message = "Action (app) - Launched app '".to_owned();
            message.append(plan.application.as_str());
            message.append("'");
            LogEntry { level: LogLevel::Info, message }
        },
        Some(reason) => {
            let mut message = "Action (app) - Failed to launch app '".to_owned();
            message.append(plan.application.as_str());
            message.append("': ");
            message.append(reason);
            LogEntry { level: LogLevel::Error, message }
        },
    }
}

} // verus!
