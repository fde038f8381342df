//! Rendering of per-file status lines and the final summary line.
//!
//! One primary line is owed per task outcome: a success mark or a failure
//! mark followed by the candidate path. A failure additionally owes one
//! indented diagnostic line. After all outcomes, one summary line is owed
//! carrying the candidate count and the elapsed milliseconds of the
//! dispatch-and-wait phase; the caller measures the time and hands the
//! number in.

use vstd::prelude::*;
use crate::batch::model_outcome;
use crate::batch::OutcomeModel;
use crate::batch::PathEntry;
use crate::batch::TaskEvent;
use crate::batch::TaskOutcome;

verus! {

/// The decimal digit character for `d`.
pub open spec fn spec_digit_char(d: nat) -> char {
    if d == 0 {
        '0'
    } else if d == 1 {
        '1'
    } else if d == 2 {
        '2'
    } else if d == 3 {
        '3'
    } else if d == 4 {
        '4'
    } else if d == 5 {
        '5'
    } else if d == 6 {
        '6'
    } else if d == 7 {
        '7'
    } else if d == 8 {
        '8'
    } else {
        '9'
    }
}

/// The usual decimal rendering of `n`: no sign, no leading zero except
/// for `n == 0` itself.
pub open spec fn spec_decimal(n: nat) -> Seq<char>
    decreases n,
{
    if n < 10 {
        seq![spec_digit_char(n)]
    } else {
        spec_decimal(n / 10) + seq![spec_digit_char(n % 10)]
    }
}

/// The one-character string for a decimal digit.
fn digit_str(d: u128) -> (r: &'static str)
    requires
        d < 10,
    ensures
        r@ == seq![spec_digit_char(d as nat)],
{
    proof {
        reveal_strlit("0");
        reveal_strlit("1");
        reveal_strlit("2");
        reveal_strlit("3");
        reveal_strlit("4");
        reveal_strlit("5");
        reveal_strlit("6");
        reveal_strlit("7");
        reveal_strlit("8");
        reveal_strlit("9");
    }
    let r = match d {
        0 => "0",
        1 => "1",
        2 => "2",
        3 => "3",
        4 => "4",
        5 => "5",
        6 => "6",
        7 => "7",
        8 => "8",
        _ => "9",
    };
    proof {
        assert(r@ =~= seq![spec_digit_char(d as nat)]);
    }
    r
}

/// Renders `n` in decimal.
pub fn u128_to_string(n: u128) -> (r: String)
    ensures
        r@ == spec_decimal(n as nat),
{
    let mut m: u128 = n;
    let mut tail = String::new();
    while m >= 10
        invariant
            spec_decimal(n as nat) == spec_decimal(m as nat) + tail@,
        decreases m,
    {
        let d: u128 = m % 10;
        let mut next = String::from_str(digit_str(d));
        next.append(tail.as_str());
        tail = next;
        m = m / 10;
    }
    let mut r = String::from_str(digit_str(m));
    r.append(tail.as_str());
    proof {
        assert(r@ =~= spec_decimal(n as nat));
    }
    r
}

/// Renders `n` in decimal.
pub fn usize_to_string(n: usize) -> (r: String)
    ensures
        r@ == spec_decimal(n as nat),
{
    u128_to_string(n as u128)
}

/// The status line owed for a successfully formatted path.
pub open spec fn spec_success_line(path: Seq<char>) -> Seq<char> {
    "\u{2705} "@ + path
}

/// The status line owed for a failed path.
pub open spec fn spec_failure_line(path: Seq<char>) -> Seq<char> {
    "\u{274c} "@ + path
}

/// The indented diagnostic line owed under a failure line.
pub open spec fn spec_diagnostic_line(message: Seq<char>) -> Seq<char> {
    "\t\t"@ + message
}

/// Distinct failure messages render to distinct diagnostic lines, so two
/// failures that carry different diagnostics are reported distinguishably.
pub proof fn lemma_diagnostics_distinct(m1: Seq<char>, m2: Seq<char>)
    requires
        m1 != m2,
    ensures
        spec_diagnostic_line(m1) != spec_diagnostic_line(m2),
{
    reveal_strlit("\t\t");
    assert(spec_diagnostic_line(m1).skip(2) =~= m1);
    assert(spec_diagnostic_line(m2).skip(2) =~= m2);
}

/// The primary status line owed for one outcome.
pub open spec fn spec_primary_line(m: OutcomeModel) -> Seq<char> {
    if m.ok {
        spec_success_line(m.path)
    } else {
        spec_failure_line(m.path)
    }
}

/// Renders the status line for a successfully formatted path.
pub fn success_line(path: &str) -> (r: String)
    ensures
        r@ == spec_success_line(path@),
{
    let mut line = String::from_str("\u{2705} ");
    line.append(path);
    line
}

/// Renders the status line for a failed path.
pub fn failure_line(path: &str) -> (r: String)
    ensures
        r@ == spec_failure_line(path@),
{
    let mut line = String::from_str("\u{274c} ");
    line.append(path);
    line
}

/// Renders the diagnostic line carrying a failure's message.
pub fn diagnostic_line(message: &str) -> (r: String)
    ensures
        r@ == spec_diagnostic_line(message@),
{
    let mut line = String::from_str("\t\t");
    line.append(message);
    line
}

/// Renders one outcome: its primary line, and for a failure also the
/// diagnostic line that is owed under it.
pub fn render_outcome(o: &TaskOutcome) -> (r: (String, Option<String>))
    ensures
        r.0@ == spec_primary_line(o@),
        o@.ok <==> r.1 is None,
        r.1 matches Some(d) ==> d@ == spec_diagnostic_line(o@.message),
{
    match o {
        TaskOutcome::Success { path } => (success_line(path.as_str()), None),
        TaskOutcome::Failure { path, message } => (
            failure_line(path.as_str()),
            Some(diagnostic_line(message.as_str())),
        ),
    }
}

/// Renders the primary status lines of a whole batch: exactly one line
/// per outcome, in the outcomes' order.
pub fn report_lines(outcomes: &Vec<TaskOutcome>) -> (r: Vec<String>)
    ensures
        r@.len() == outcomes@.len(),
        forall|i: int|
            0 <= i < r@.len() ==> (#[trigger] r@[i])@ == spec_primary_line(outcomes@[i]@),
{
    let mut lines: Vec<String> = Vec::new();
    let mut i: usize = 0;
    while i < outcomes.len()
        invariant
            0 <= i <= outcomes@.len(),
            lines@.len() == i,
            forall|k: int|
                0 <= k < i ==> (#[trigger] lines@[k])@ == spec_primary_line(outcomes@[k]@),
        decreases outcomes@.len() - i,
    {
        let (line, _) = render_outcome(&outcomes[i]);
        lines.push(line);
        i = i + 1;
    }
    lines
}

/// The summary line owed after a batch of `total` candidates that took
/// `millis` milliseconds to dispatch and finish.
pub open spec fn spec_summary_line(total: nat, millis: nat) -> Seq<char> {
    "Formatted "@ + spec_decimal(total) + " files in "@ + spec_decimal(millis) + " ms"@
}

/// Renders the summary line for a batch.
pub fn summary_line(total: usize, millis: u128) -> (r: String)
    ensures
        r@ == spec_summary_line(total as nat, millis as nat),
{
    let mut line = String::from_str("Formatted ");
    let count = usize_to_string(total);
    line.append(count.as_str());
    line.append(" files in ");
    let elapsed = u128_to_string(millis);
    line.append(elapsed.as_str());
    line.append(" ms");
    proof {
        assert(line@ =~= spec_summary_line(total as nat, millis as nat));
    }
    line
}

/// How many of a batch's outcomes are failures.
pub open spec fn count_failures(outcomes: Seq<OutcomeModel>) -> nat
    decreases outcomes.len(),
{
    if outcomes.len() == 0 {
        0
    } else {
        count_failures(outcomes.drop_last()) + if outcomes.last().ok {
            0nat
        } else {
            1nat
        }
    }
}

/// A line that reports a failure: it opens with the failure mark.
pub open spec fn is_failure_line(line: Seq<char>) -> bool {
    line.len() >= 1 && line[0] == '\u{274c}'
}

/// How many of the rendered lines are failure lines.
pub open spec fn count_failure_lines(lines: Seq<Seq<char>>) -> nat
    decreases lines.len(),
{
    if lines.len() == 0 {
        0
    } else {
        count_failure_lines(lines.drop_last()) + if is_failure_line(lines.last()) {
            1nat
        } else {
            0nat
        }
    }
}

/// A primary line is a failure line exactly when its outcome failed.
proof fn lemma_primary_line_kind(m: OutcomeModel)
    ensures
        is_failure_line(spec_primary_line(m)) <==> !m.ok,
{
    reveal_strlit("\u{2705} ");
    reveal_strlit("\u{274c} ");
}

/// For every batch of N outcomes among which K failed, the report holds
/// exactly N primary lines of which exactly K are failure lines.
pub proof fn lemma_report_counts(outcomes: Seq<OutcomeModel>, lines: Seq<Seq<char>>)
    requires
        lines.len() == outcomes.len(),
        forall|i: int| 0 <= i < lines.len() ==> lines[i] == spec_primary_line(#[trigger] outcomes[i]),
    ensures
        count_failure_lines(lines) == count_failures(outcomes),
    decreases outcomes.len(),
{
    if outcomes.len() > 0 {
        lemma_report_counts(outcomes.drop_last(), lines.drop_last());
        lemma_primary_line_kind(outcomes.last());
    }
}

/// How many of a batch's tasks fail: the enumeration-error entries, and
/// the matched entries whose event was anything but a clean write-back.
pub open spec fn count_failed_tasks(entries: Seq<PathEntry>, events: Seq<TaskEvent>) -> nat
    decreases entries.len(),
{
    if entries.len() == 0 {
        0
    } else {
        count_failed_tasks(entries.drop_last(), events.drop_last()) + if model_outcome(
            entries.last(),
            events.last(),
        ).ok {
            0nat
        } else {
            1nat
        }
    }
}

/// The failures in a batch's outcomes are exactly its failed tasks: with
/// the per-file lines counted by [`lemma_report_counts`], a batch of N
/// candidates with K failed tasks is reported in exactly N per-file lines
/// of which exactly K are failure lines.
pub proof fn lemma_batch_failure_count(
    entries: Seq<PathEntry>,
    events: Seq<TaskEvent>,
    outcomes: Seq<OutcomeModel>,
)
    requires
        events.len() == entries.len(),
        outcomes.len() == entries.len(),
        forall|i: int|
            0 <= i < entries.len() ==> outcomes[i] == model_outcome(
                entries[i],
                #[trigger] events[i],
            ),
    ensures
        count_failures(outcomes) == count_failed_tasks(entries, events),
    decreases entries.len(),
{
    if entries.len() > 0 {
        let last = entries.len() - 1;
        assert(outcomes[last] == model_outcome(entries[last], events[last]));
        lemma_batch_failure_count(entries.drop_last(), events.drop_last(), outcomes.drop_last());
    }
}

} // verus!
