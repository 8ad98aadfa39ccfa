//! The create action: a new file under the target, under the first name of
//! `name`, `stem (1).ext`, `stem (2).ext`, ... that no file has yet.
//!
//! Whether a file exists is for the caller to find out, each time anew:
//! `create_step` takes the answer for one candidate and says whether to write
//! there or to ask about the next.

use vstd::prelude::*;
use vstd::string::StringExecFns;
use crate::command::Platform;
use crate::log::{error_entry, info_entry, LogEntry, LogLevel};
use crate::path::{is_separator, join_path, joined_path, separator};
use crate::payload::{Payload, PayloadView};
use crate::text::{
    after_first, before_first, chars_of, decimal, decimal_value, find_from, find_last, last_index,
    lemma_decimal_value, lemma_first_index, lemma_last_index, push_decimal, text_of_range,
};

verus! {

/// The name of a file that is created without one.
pub open spec fn default_file_name() -> Seq<char> {
    "New File.txt"@
}

/// The file name in a create action: what stands before the first `|`, and
/// the default name where nothing stands there.
pub open spec fn create_file_name(action: Seq<char>) -> Seq<char> {
    let name = before_first(action, '|');
    if name.len() == 0 {
        default_file_name()
    } else {
        name
    }
}

/// The content in a create action: what stands between the first `|` and the
/// second, and nothing where there is no `|`.
pub open spec fn create_content(action: Seq<char>) -> Seq<char> {
    match after_first(action, '|') {
        Some(rest) => before_first(rest, '|'),
        None => Seq::empty(),
    }
}

/// Where a file name divides into stem and extension: at its last `.`, and at
/// its end where it has none.
pub open spec fn extension_start(name: Seq<char>) -> int {
    if last_index(name, '.') >= 0 {
        last_index(name, '.')
    } else {
        name.len() as int
    }
}

/// The part of a file name before its last `.`.
pub open spec fn stem(name: Seq<char>) -> Seq<char> {
    name.take(extension_start(name))
}

/// The part of a file name from its last `.` on.
pub open spec fn extension(name: Seq<char>) -> Seq<char> {
    name.skip(extension_start(name))
}

/// The name tried after `attempt` names were found taken: the file name
/// itself at first, then the stem, ` (attempt)` and the extension.
pub open spec fn candidate_name(name: Seq<char>, attempt: nat) -> Seq<char> {
    if attempt == 0 {
        name
    } else {
        stem(name) + " ("@ + decimal(attempt) + ")"@ + extension(name)
    }
}

/// A file to create: where, under which name, with what in it.
#[derive(Clone, Debug, PartialEq, Eq)]
pub struct CreatePlan {
    pub platform: Platform,
    pub target: String,
    pub file_name: String,
    pub content: String,
}

/// A `CreatePlan` as plain text.
pub struct CreatePlanView {
    pub platform: Platform,
    pub target: Seq<char>,
    pub file_name: Seq<char>,
    pub content: Seq<char>,
}

impl View for CreatePlan {
    type V = CreatePlanView;

    open spec fn view(&self) -> CreatePlanView {
        CreatePlanView {
            platform: self.platform,
            target: self.target@,
            file_name: self.file_name@,
            content: self.content@,
        }
    }
}

/// The path tried after `attempt` paths were found taken.
pub open spec fn candidate_path(plan: CreatePlanView, attempt: nat) -> Seq<char> {
    joined_path(plan.platform, plan.target, candidate_name(plan.file_name, attempt))
}

/// The file that the create action of `info` asks for.
pub open spec fn create_plan(info: PayloadView, platform: Platform) -> CreatePlanView {
    CreatePlanView {
        platform,
        target: info.target,
        file_name: create_file_name(info.action),
        content: create_content(info.action),
    }
}

/// Reads the create action of `info`: the file's name and content, divided by
/// `|`, for a file under `info.target`.
pub fn action_create(info: &Payload, platform: Platform) -> (plan: CreatePlan)
    ensures
        plan@ == create_plan(info@, platform),
{
    let v = chars_of(info.action.as_str());
    assert(v@.skip(0) == v@);
    let bar = find_from(&v, 0, '|');
    let file_name = if bar == 0 {
        "New File.txt".to_owned()
    } else {
        text_of_range(&v, 0, bar)
    };
    let content = if bar < v.len() {
        let end = find_from(&v, bar + 1, '|');
        proof {
            let rest = v@.skip(bar + 1);
            lemma_first_index(rest, '|');
            assert(rest.take(end - (bar + 1)) == v@.subrange(bar + 1, end as int));
        }
        text_of_range(&v, bar + 1, end)
    } else {
        String::new()
    };
    CreatePlan { platform, target: info.target.clone(), file_name, content }
}

impl CreatePlan {
    /// The name to try after `attempt` names were found taken.
    pub fn candidate_name(&self, attempt: u64) -> (name: String)
        ensures
            name@ == candidate_name(self.file_name@, attempt as nat),
    {
        if attempt == 0 {
            self.file_name.clone()
        } else {
            let v = chars_of(self.file_name.as_str());
            let cut = match find_last(&v, '.') {
                Some(dot) => dot,
                None => v.len(),
            };
            let mut name = text_of_range(&v, 0, cut);
            name.append(" (");
            push_decimal(&mut name, attempt);
            name.append(")");
            let ext = text_of_range(&v, cut, v.len());
            name.append(ext.as_str());
            name
        }
    }

    /// The path to try after `attempt` paths were found taken.
    pub fn candidate(&self, attempt: u64) -> (path: String)
        ensures
            path@ == candidate_path(self@, attempt as nat),
    {
        let name = self.candidate_name(attempt);
        join_path(self.platform, self.target.as_str(), name.as_str())
    }
}

/// What to do about a candidate once it is known whether a file is there.
#[derive(Clone, Debug, PartialEq, Eq)]
pub enum CreateStep {
    /// No file is there: create one at `path`, holding `content`, and fail
    /// rather than replace a file that has appeared since.
    Write { path: String, content: String },
    /// A file is there: find out whether one is at `path`, the candidate of
    /// `attempt`.
    Probe { path: String, attempt: u64 },
    /// A file is there and no number is left for another name.
    GiveUp,
}

/// A `CreateStep` as plain text.
pub enum CreateStepView {
    Write { path: Seq<char>, content: Seq<char> },
    Probe { path: Seq<char>, attempt: nat },
    GiveUp,
}

impl View for CreateStep {
    type V = CreateStepView;

    open spec fn view(&self) -> CreateStepView {
        match self {
            CreateStep::Write { path, content } => CreateStepView::Write {
                path: path@,
                content: content@,
            },
            CreateStep::Probe { path, attempt } => CreateStepView::Probe {
                path: path@,
                attempt: *attempt as nat,
            },
            CreateStep::GiveUp => CreateStepView::GiveUp,
        }
    }
}

/// The step that follows the answer `exists` for the candidate of `attempt`:
/// write there if no file exists, else go on to the next candidate.
pub open spec fn create_reaction(plan: CreatePlanView, attempt: nat, exists: bool) -> CreateStepView {
    if !exists {
        CreateStepView::Write { path: candidate_path(plan, attempt), content: plan.content }
    } else if attempt < u64::MAX {
        CreateStepView::Probe { path: candidate_path(plan, attempt + 1), attempt: attempt + 1 }
    } else {
        CreateStepView::GiveUp
    }
}

/// Decides on the candidate of `attempt`, given whether a file exists at its
/// path.
pub fn create_step(plan: &CreatePlan, attempt: u64, exists: bool) -> (step: CreateStep)
    ensures
        step@ == create_reaction(plan@, attempt as nat, exists),
{
    if !exists {
        CreateStep::Write { path: plan.candidate(attempt), content: plan.content.clone() }
    } else if attempt < u64::MAX {
        CreateStep::Probe { path: plan.candidate(attempt + 1), attempt: attempt + 1 }
    } else {
        CreateStep::GiveUp
    }
}

/// Where the create action ends when it starts at the candidate of `attempt`,
/// may ask about `probes` further candidates, and `existing` holds the paths
/// at which a file exists.
pub open spec fn create_outcome(
    plan: CreatePlanView,
    existing: Set<Seq<char>>,
    attempt: nat,
    probes: nat,
) -> CreateStepView
    decreases probes,
{
    let step = create_reaction(plan, attempt, existing.contains(candidate_path(plan, attempt)));
    match step {
        CreateStepView::Probe { attempt: next, .. } => if probes > 0 {
            create_outcome(plan, existing, next, (probes - 1) as nat)
        } else {
            step
        },
        _ => step,
    }
}

/// From a candidate on, the create action writes to the first candidate at
/// which no file exists.
proof fn lemma_create_from(
    plan: CreatePlanView,
    existing: Set<Seq<char>>,
    attempt: nat,
    free: nat,
)
    requires
        attempt <= free <= u64::MAX,
        forall|k: nat| attempt <= k < free ==> existing.contains(candidate_path(plan, k)),
        !existing.contains(candidate_path(plan, free)),
    ensures
        create_outcome(plan, existing, attempt, (free - attempt) as nat) == (CreateStepView::Write {
            path: candidate_path(plan, free),
            content: plan.content,
        }),
    decreases free - attempt,
{
    if attempt < free {
        lemma_create_from(plan, existing, attempt + 1, free);
    }
}

/// Whatever files exist, the create action takes the first free name of the
/// sequence `name`, `stem (1).ext`, `stem (2).ext`, ...: where the
/// candidates before `free` are all taken and that of `free` is not, it
/// writes to the candidate of `free`, at which no file exists.
pub proof fn lemma_create_takes_first_free(
    plan: CreatePlanView,
    existing: Set<Seq<char>>,
    free: nat,
)
    requires
        free <= u64::MAX,
        forall|k: nat| k < free ==> existing.contains(candidate_path(plan, k)),
        !existing.contains(candidate_path(plan, free)),
    ensures
        create_outcome(plan, existing, 0, free) == (CreateStepView::Write {
            path: candidate_path(plan, free),
            content: plan.content,
        }),
{
    lemma_create_from(plan, existing, 0, free);
}

/// The create action never writes where a file exists: whatever files exist,
/// wherever it starts and however many candidates it may ask about, a path
/// that it writes to is not among the existing ones.
pub proof fn lemma_create_never_overwrites(
    plan: CreatePlanView,
    existing: Set<Seq<char>>,
    attempt: nat,
    probes: nat,
)
    ensures
        create_outcome(plan, existing, attempt, probes) matches CreateStepView::Write { path, .. }
            ==> !existing.contains(path),
    decreases probes,
{
    if probes > 0 && existing.contains(candidate_path(plan, attempt)) && attempt < u64::MAX {
        lemma_create_never_overwrites(plan, existing, attempt + 1, (probes - 1) as nat);
    }
}

/// Two candidates of different numbers have different names.
proof fn lemma_candidate_names_differ(name: Seq<char>, a: nat, b: nat)
    requires
        a < b,
    ensures
        candidate_name(name, a) != candidate_name(name, b),
{
    lemma_last_index(name, '.');
    lemma_decimal_value(a);
    lemma_decimal_value(b);
    let head = stem(name) + " ("@;
    let tail = ")"@ + extension(name);
    let second = candidate_name(name, b);
    assert(second == head + decimal(b) + tail);
    if a == 0 {
        assert(name == stem(name) + extension(name));
        assert(second.len() > name.len());
    } else {
        let first = candidate_name(name, a);
        assert(first == head + decimal(a) + tail);
        if first == second {
            assert(first.len() == second.len());
            assert(decimal(a).len() == decimal(b).len());
            let start = head.len() as int;
            let end = start + decimal(a).len();
            assert(first.subrange(start, end) == decimal(a));
            assert(second.subrange(start, end) == decimal(b));
            assert(decimal_value(decimal(a)) == decimal_value(decimal(b)));
        }
    }
}

/// Two candidates of different numbers have different paths.
proof fn lemma_candidate_paths_differ(plan: CreatePlanView, a: nat, b: nat)
    requires
        a != b,
    ensures
        candidate_path(plan, a) != candidate_path(plan, b),
{
    if a < b {
        lemma_candidate_names_differ(plan.file_name, a, b);
    } else {
        lemma_candidate_names_differ(plan.file_name, b, a);
    }
    let first = candidate_name(plan.file_name, a);
    let second = candidate_name(plan.file_name, b);
    let dir = if plan.target.len() == 0 || is_separator(plan.platform, plan.target.last()) {
        plan.target
    } else {
        plan.target.push(separator(plan.platform))
    };
    assert(candidate_path(plan, a) == dir + first);
    assert(candidate_path(plan, b) == dir + second);
    assert((dir + first).skip(dir.len() as int) == first);
    assert((dir + second).skip(dir.len() as int) == second);
}

/// Where the candidates up to that of `last` are all taken, more than `last`
/// files exist.
proof fn lemma_taken_candidates_are_counted(
    plan: CreatePlanView,
    existing: Set<Seq<char>>,
    last: nat,
)
    requires
        existing.finite(),
        forall|k: nat| k <= last ==> existing.contains(#[trigger] candidate_path(plan, k)),
    ensures
        existing.len() > last,
    decreases last,
{
    let path = candidate_path(plan, last);
    assert(existing.contains(path));
    if last > 0 {
        let others = existing.remove(path);
        assert forall|k: nat| k <= last - 1 implies others.contains(
            #[trigger] candidate_path(plan, k),
        ) by {
            lemma_candidate_paths_differ(plan, k, last);
        }
        lemma_taken_candidates_are_counted(plan, others, (last - 1) as nat);
    }
}

/// From a candidate on with all before it taken, the first free candidate is
/// found among as many candidates as files exist, and one more.
proof fn lemma_first_free_from(plan: CreatePlanView, existing: Set<Seq<char>>, from: nat) -> (free:
    nat)
    requires
        existing.finite(),
        from <= existing.len(),
        forall|k: nat| k < from ==> existing.contains(#[trigger] candidate_path(plan, k)),
    ensures
        from <= free <= existing.len(),
        forall|k: nat| k < free ==> existing.contains(#[trigger] candidate_path(plan, k)),
        !existing.contains(candidate_path(plan, free)),
    decreases existing.len() - from,
{
    if !existing.contains(candidate_path(plan, from)) {
        from
    } else {
        lemma_taken_candidates_are_counted(plan, existing, from);
        lemma_first_free_from(plan, existing, from + 1)
    }
}

/// The create action always takes the first free name: whatever the file
/// name and whatever files exist, finitely many, there is a first candidate
/// at which no file exists, it is found after no more probes than files
/// exist, and the action writes there and nowhere else.
pub proof fn lemma_create_always_takes_first_free(
    plan: CreatePlanView,
    existing: Set<Seq<char>>,
) -> (free: nat)
    requires
        existing.finite(),
        existing.len() <= u64::MAX,
    ensures
        free <= existing.len(),
        forall|k: nat| k < free ==> existing.contains(#[trigger] candidate_path(plan, k)),
        !existing.contains(candidate_path(plan, free)),
        create_outcome(plan, existing, 0, free) == (CreateStepView::Write {
            path: candidate_path(plan, free),
            content: plan.content,
        }),
{
    let free = lemma_first_free_from(plan, existing, 0);
    lemma_create_takes_first_free(plan, existing, free);
    free
}

/// Log text for a file that was created as the candidate of `attempt`.
pub open spec fn created_message(plan: CreatePlanView, attempt: nat) -> Seq<char> {
    "Action (create) - Created file '"@ + candidate_name(plan.file_name, attempt) + "' in '"@
        + plan.target + "'."@
}

/// Log text for a file that could not be created.
pub open spec fn create_failed_message(plan: CreatePlanView, reason: Seq<char>) -> Seq<char> {
    "Action (create) - Failed to create file in '"@ + plan.target + "': "@ + reason
}

/// The log entry on the write to the candidate of `attempt`: the file's name
/// and the target where it went well, the target and the reason where it
/// failed.
pub fn create_report(plan: &CreatePlan, attempt: u64, failure: Option<&str>) -> (report: LogEntry)
    ensures
        report@ == match failure {
            None => info_entry(created_message(plan@, attempt as nat)),
            Some(reason) => error_entry(create_failed_message(plan@, reason@)),
        },
{
    match failure {
        None => {
            let name = plan.candidate_name(attempt);
            let mut message = "Action (create) - Created file '".to_owned();
            message.append(name.as_str());
            message.append("' in '");
            message.append(plan.target.as_str());
            message.append("'.");
            LogEntry { level: LogLevel::Info, message }
        },
        Some(reason) => {
            let mut message = "Action (create) - Failed to create file in '".to_owned();
            message.append(plan.target.as_str());
            message.append("': ");
            message.append(reason);
            LogEntry { level: LogLevel::Error, message }
        },
    }
}

/// What the log gives as the reason where every candidate was taken.
pub open spec fn no_name_left() -> Seq<char> {
    "no free name is left"@
}

/// The log entry on a search that ended with every candidate taken.
pub fn give_up_report(plan: &CreatePlan) -> (report: LogEntry)
    ensures
        report@ == error_entry(create_failed_message(plan@, no_name_left())),
{
    create_report(plan, 0, Some("no free name is left"))
}

} // verus!
