//! Per-task decisions of the batch executor.
//!
//! The executor receives one entry per candidate path from expansion. An
//! entry that is itself an enumeration error becomes a failure outcome
//! directly, without invoking the formatting engine; for the others the
//! engine is invoked outside this library and its result comes back as a
//! [`TaskEvent`]. Every entry yields exactly one [`TaskOutcome`], whatever
//! its event was: one task terminating abnormally is just one more failure
//! event and cannot change any other task's outcome.

use vstd::prelude::*;

verus! {

/// One candidate produced by expansion: either a path to format, or an
/// error that enumeration itself reported for a path.
pub enum PathEntry {
    Matched(String),
    Unreadable { path: String, message: String },
}

/// What happened when one candidate path was handed to the formatting
/// engine and, on success, written back.
pub enum TaskEvent {
    /// The engine returned formatted text and the write-back succeeded.
    Written,
    /// The engine returned a structured error with this description.
    EngineError(String),
    /// The engine terminated abnormally; the diagnostic that was recovered.
    EnginePanic(String),
    /// The engine succeeded but writing the file back failed.
    WriteError(String),
}

/// The outcome recorded for one candidate path.
pub enum TaskOutcome {
    Success { path: String },
    Failure { path: String, message: String },
}

/// Mathematical model of one outcome: a success flag, the candidate path,
/// and (for failures) the diagnostic message.
#[verifier::ext_equal]
pub struct OutcomeModel {
    pub ok: bool,
    pub path: Seq<char>,
    pub message: Seq<char>,
}

impl View for TaskOutcome {
    type V = OutcomeModel;

    open spec fn view(&self) -> OutcomeModel {
        match self {
            TaskOutcome::Success { path } => OutcomeModel {
                ok: true,
                path: path@,
                message: Seq::empty(),
            },
            TaskOutcome::Failure { path, message } => OutcomeModel {
                ok: false,
                path: path@,
                message: message@,
            },
        }
    }
}

/// The outcome owed for an engine event on a matched path: only the
/// `Written` event is a success; every error and the abnormal-termination
/// event carry their diagnostic into a failure.
pub open spec fn model_event_outcome(path: Seq<char>, ev: TaskEvent) -> OutcomeModel {
    match ev {
        TaskEvent::Written => OutcomeModel { ok: true, path: path, message: Seq::empty() },
        TaskEvent::EngineError(m) => OutcomeModel { ok: false, path: path, message: m@ },
        TaskEvent::EnginePanic(m) => OutcomeModel { ok: false, path: path, message: m@ },
        TaskEvent::WriteError(m) => OutcomeModel { ok: false, path: path, message: m@ },
    }
}

/// The outcome owed for one entry, given the event its engine invocation
/// produced. For an enumeration error the engine is never consulted and
/// the event is irrelevant.
pub open spec fn model_outcome(entry: PathEntry, ev: TaskEvent) -> OutcomeModel {
    match entry {
        PathEntry::Matched(path) => model_event_outcome(path@, ev),
        PathEntry::Unreadable { path, message } => OutcomeModel {
            ok: false,
            path: path@,
            message: message@,
        },
    }
}

/// One task's event decides that task's outcome alone: whatever happened
/// at position `j` — abnormal termination included — every other entry is
/// owed the same outcome as under any other event at `j`. So a single
/// task's crash cannot prevent the remaining tasks from being decided and
/// reported.
pub proof fn lemma_panic_isolation(
    entries: Seq<PathEntry>,
    events1: Seq<TaskEvent>,
    events2: Seq<TaskEvent>,
    j: int,
)
    requires
        events1.len() == entries.len(),
        events2.len() == entries.len(),
        0 <= j < entries.len(),
        forall|i: int| 0 <= i < entries.len() && i != j ==> events1[i] == events2[i],
    ensures
        forall|i: int|
            0 <= i < entries.len() && i != j ==> model_outcome(entries[i], #[trigger] events1[i])
                == model_outcome(entries[i], events2[i]),
{
}

/// What the executor is to do with one entry: invoke the engine on a
/// path, or record an outcome that is already decided.
pub enum TaskPlan {
    RunEngine { path: String },
    Record { outcome: TaskOutcome },
}

/// Decides one entry: a matched path is to be formatted; an enumeration
/// error is recorded directly as a failure, without invoking the engine.
pub fn plan_task(entry: PathEntry) -> (p: TaskPlan)
    ensures
        match entry {
            PathEntry::Matched(path) => p matches TaskPlan::RunEngine { path: q } && q@ == path@,
            PathEntry::Unreadable { path, message } => p matches TaskPlan::Record { outcome }
                && outcome@ == (OutcomeModel { ok: false, path: path@, message: message@ }),
        },
{
    match entry {
        PathEntry::Matched(path) => TaskPlan::RunEngine { path },
        PathEntry::Unreadable { path, message } => TaskPlan::Record {
            outcome: TaskOutcome::Failure { path, message },
        },
    }
}

/// Converts the event of one engine invocation into the outcome recorded
/// for that path.
pub fn engine_outcome(path: String, ev: TaskEvent) -> (o: TaskOutcome)
    ensures
        o@ == model_event_outcome(path@, ev),
{
    match ev {
        TaskEvent::Written => TaskOutcome::Success { path },
        TaskEvent::EngineError(message) => TaskOutcome::Failure { path, message },
        TaskEvent::EnginePanic(message) => TaskOutcome::Failure { path, message },
        TaskEvent::WriteError(message) => TaskOutcome::Failure { path, message },
    }
}

/// Decides a whole batch at once: entry `i` is paired with event `i`.
/// Exactly one outcome comes back per entry, in the entries' order.
pub fn batch_outcomes(entries: Vec<PathEntry>, events: Vec<TaskEvent>) -> (r: Vec<TaskOutcome>)
    requires
        events@.len() == entries@.len(),
    ensures
        r@.len() == entries@.len(),
        forall|i: int|
            0 <= i < r@.len() ==> (#[trigger] r@[i])@ == model_outcome(entries@[i], events@[i]),
{
    let ghost entries0 = entries@;
    let ghost events0 = events@;
    let mut entries = entries;
    let mut events = events;
    let mut out: Vec<TaskOutcome> = Vec::new();
    let n: usize = entries.len();
    let mut i: usize = 0;
    while i < n
        invariant
            entries0.len() == n,
            events0.len() == n,
            0 <= i <= n,
            entries@ == entries0.subrange(i as int, n as int),
            events@ == events0.subrange(i as int, n as int),
            out@.len() == i,
            forall|k: int|
                0 <= k < i ==> (#[trigger] out@[k])@ == model_outcome(entries0[k], events0[k]),
        decreases n - i,
    {
        let entry = entries.remove(0);
        let ev = events.remove(0);
        proof {
            assert(entries@ =~= entries0.subrange(i + 1, n as int));
            assert(events@ =~= events0.subrange(i + 1, n as int));
        }
        let o = match plan_task(entry) {
            TaskPlan::RunEngine { path } => engine_outcome(path, ev),
            TaskPlan::Record { outcome } => outcome,
        };
        out.push(o);
        i = i + 1;
    }
    out
}

} // verus!
