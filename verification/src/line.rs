//! The text of the two kinds of line: the status line, which is rewritten in
//! place while the work goes on, and the completion line, which stays.

use vstd::prelude::*;
use vstd::string::*;
use crate::decimal::{decimal, hundredths, push_decimal, push_hundredths};
use crate::estimate::{eta, eta_hundredths, percent, percent_hundredths};
use crate::layout::{fit_line, shorten_message, shorten_prefix};

verus! {

/// The time, in nanoseconds, after which the average speed is taken to be
/// steady enough to show estimates.
pub const WARM_UP_NANOS: u64 = 2_000_000_000;

/// The control sequence that erases from the cursor to the end of the line.
pub open spec fn erase_to_end() -> Seq<char> {
    seq!['\u{1b}', '[', '0', 'K']
}

/// The control sequence that erases from the start of the line to the cursor.
pub open spec fn erase_to_start() -> Seq<char> {
    seq!['\u{1b}', '[', '1', 'K']
}

/// The step counter and the label. With the total unknown: the step, the
/// label, each followed by a space. With a total: the step and the total in
/// square brackets, then the label and a colon.
pub open spec fn counter_text(total: nat, current: nat, label: Seq<char>) -> Seq<char> {
    if total == 0 {
        decimal(current) + seq![' '] + label + seq![' ']
    } else {
        seq!['['] + decimal(current) + seq!['/'] + decimal(total) + seq![']', ' '] + label + seq![
            ':',
            ' ',
        ]
    }
}

/// The percentage of the work done, with two fractional digits.
pub open spec fn percent_text(total: nat, current: nat) -> Seq<char> {
    hundredths(percent_hundredths(current, total)) + seq!['%', ' ']
}

/// The remaining time in seconds, with two fractional digits. At step zero no
/// speed is known and the time is infinite; beyond the total it is negative.
pub open spec fn eta_value(total: nat, current: nat, elapsed: nat) -> Seq<char> {
    if current == 0 {
        seq!['i', 'n', 'f']
    } else if current > total {
        seq!['-'] + hundredths(eta_hundredths(total, current, elapsed))
    } else {
        hundredths(eta_hundredths(total, current, elapsed))
    }
}

/// The estimate of the remaining time as it stands in a status line.
pub open spec fn eta_text(total: nat, current: nat, elapsed: nat) -> Seq<char> {
    seq!['E', 'T', 'A', ' '] + eta_value(total, current, elapsed) + seq!['s', ' ']
}

/// Estimates are shown where the total is known and the warm-up time is over.
pub open spec fn shows_estimate(total: nat, elapsed: nat) -> bool {
    total > 0 && elapsed > WARM_UP_NANOS
}

/// The percentage and the remaining time, or nothing where no estimate is
/// shown.
pub open spec fn estimate_text(total: nat, current: nat, elapsed: nat) -> Seq<char> {
    if shows_estimate(total, elapsed) {
        percent_text(total, current) + eta_text(total, current, elapsed)
    } else {
        Seq::empty()
    }
}

/// The prefix of a status line before it is fitted to the terminal.
pub open spec fn prefix_text(total: nat, current: nat, label: Seq<char>, elapsed: nat) -> Seq<
    char,
> {
    counter_text(total, current, label) + estimate_text(total, current, elapsed)
}

/// What is written for one status line: a carriage return, the prefix and the
/// message as they fit into `width` columns, and the sequence that erases
/// what an earlier, longer line left behind. No line feed.
pub open spec fn status_text(
    width: nat,
    total: nat,
    label: Seq<char>,
    current: nat,
    elapsed: nat,
    message: Seq<char>,
) -> Seq<char> {
    seq!['\r'] + fit_line(prefix_text(total, current, label, elapsed), message, width)
        + erase_to_end()
}

/// The visible text of the completion line: the label, behind a counter that
/// shows the total as reached where the total is known.
pub open spec fn completion_line(total: nat, label: Seq<char>) -> Seq<char> {
    if total == 0 {
        label
    } else {
        seq!['['] + decimal(total) + seq!['/'] + decimal(total) + seq![']', ' '] + label
    }
}

/// What is written for the completion line: the sequence that erases the
/// status line, a carriage return, the visible text and a line feed.
pub open spec fn completion_text(total: nat, label: Seq<char>) -> Seq<char> {
    erase_to_start() + seq!['\r'] + completion_line(total, label) + seq!['\n']
}

/// Builds the step counter and the label.
pub fn compose_counter(total: usize, current: usize, label: &str) -> (s: String)
    ensures
        s@ == counter_text(total as nat, current as nat, label@),
{
    proof {
        reveal_strlit(" ");
        reveal_strlit("[");
        reveal_strlit("/");
        reveal_strlit("] ");
        reveal_strlit(": ");
    }
    let mut s = String::new();
    if total == 0 {
        push_decimal(&mut s, current as u128);
        s.append(" ");
        s.append(label);
        s.append(" ");
    } else {
        s.append("[");
        push_decimal(&mut s, current as u128);
        s.append("/");
        push_decimal(&mut s, total as u128);
        s.append("] ");
        s.append(label);
        s.append(": ");
    }
    assert(s@ =~= counter_text(total as nat, current as nat, label@));
    s
}

/// Appends the percentage and the remaining time to a prefix.
pub fn push_estimate(out: &mut String, total: usize, current: usize, elapsed: u64)
    requires
        total > 0,
    ensures
        final(out)@ == old(out)@ + percent_text(total as nat, current as nat) + eta_text(
            total as nat,
            current as nat,
            elapsed as nat,
        ),
{
    proof {
        reveal_strlit("% ");
        reveal_strlit("ETA ");
        reveal_strlit("inf");
        reveal_strlit("-");
        reveal_strlit("s ");
    }
    push_hundredths(out, percent(current, total));
    out.append("% ");
    out.append("ETA ");
    if current == 0 {
        out.append("inf");
    } else {
        if current > total {
            out.append("-");
        }
        push_hundredths(out, eta(total, current, elapsed));
    }
    out.append("s ");
    assert(final(out)@ =~= old(out)@ + percent_text(total as nat, current as nat) + eta_text(
        total as nat,
        current as nat,
        elapsed as nat,
    ));
}

/// Builds the prefix of a status line, not yet fitted to the terminal.
pub fn compose_prefix(total: usize, current: usize, label: &str, elapsed: u64) -> (s: String)
    ensures
        s@ == prefix_text(total as nat, current as nat, label@, elapsed as nat),
{
    let mut s = compose_counter(total, current, label);
    if total > 0 && elapsed > WARM_UP_NANOS {
        push_estimate(&mut s, total, current, elapsed);
    }
    assert(s@ =~= prefix_text(total as nat, current as nat, label@, elapsed as nat));
    s
}

/// Builds what is written for one status line.
pub fn compose_status(
    width: usize,
    total: usize,
    label: &str,
    current: usize,
    elapsed: u64,
    message: &str,
) -> (s: String)
    ensures
        s@ == status_text(
            width as nat,
            total as nat,
            label@,
            current as nat,
            elapsed as nat,
            message@,
        ),
{
    proof {
        reveal_strlit("\r");
        reveal_strlit("\u{1b}[0K");
    }
    let prefix = compose_prefix(total, current, label, elapsed);
    let shown = shorten_prefix(prefix.as_str(), width);
    let shown_len: usize = shown.unicode_len();
    let rest = shorten_message(message, width, shown_len);
    let mut s = String::new();
    s.append("\r");
    s.append(shown);
    s.append(rest);
    s.append("\u{1b}[0K");
    assert(s@ =~= status_text(
        width as nat,
        total as nat,
        label@,
        current as nat,
        elapsed as nat,
        message@,
    ));
    s
}

/// Builds what is written for the completion line.
pub fn compose_completion(total: usize, label: &str) -> (s: String)
    ensures
        s@ == completion_text(total as nat, label@),
{
    proof {
        reveal_strlit("\u{1b}[1K");
        reveal_strlit("\r");
        reveal_strlit("[");
        reveal_strlit("/");
        reveal_strlit("] ");
        reveal_strlit("\n");
    }
    let mut s = String::new();
    s.append("\u{1b}[1K");
    s.append("\r");
    if total != 0 {
        s.append("[");
        push_decimal(&mut s, total as u128);
        s.append("/");
        push_decimal(&mut s, total as u128);
        s.append("] ");
    }
    s.append(label);
    s.append("\n");
    assert(s@ =~= completion_text(total as nat, label@));
    s
}

} // verus!
