//! The reporter as a state machine over mathematical values: what one update
//! does to the throttle, which line it writes, and what holds of every
//! sequence of updates.

use vstd::prelude::*;
use crate::decimal::decimal;
use crate::estimate::steps_per_interval;
use crate::layout::{fit_line, fit_message, fit_prefix, is_suffix_of, lemma_line_fits};
use crate::line::{
    completion_line,
    completion_text,
    erase_to_end,
    prefix_text,
    shows_estimate,
    status_text,
};

verus! {

/// The throttle interval of a new reporter, in nanoseconds.
pub const DEFAULT_THROTTLE_NANOS: u64 = 50_000_000;

/// The state of a reporter.
pub struct Reporter {
    /// Columns of the terminal; zero where the width is unknown.
    pub width: nat,
    /// Number of steps of the work; zero where it is unknown.
    pub total: nat,
    /// The label shown on every line.
    pub label: Seq<char>,
    /// The time that should pass between two status lines, in nanoseconds.
    pub interval: nat,
    /// Updates passed over since the last status line.
    pub skipped: nat,
    /// Updates to pass over between two status lines; zero until the throttle
    /// is calibrated, and time decides meanwhile.
    pub limit: nat,
}

/// One call for a status line: the time since the reporter was made, in
/// nanoseconds, the step reached and the message.
pub struct Update {
    pub elapsed: nat,
    pub current: nat,
    pub message: Seq<char>,
}

impl Reporter {
    /// A reporter that has seen no update.
    pub open spec fn fresh(total: nat, label: Seq<char>, width: nat) -> Reporter {
        Reporter {
            width,
            total,
            label,
            interval: DEFAULT_THROTTLE_NANOS as nat,
            skipped: 0,
            limit: 0,
        }
    }

    /// The same reporter with another throttle interval.
    pub open spec fn with_interval(self, interval: nat) -> Reporter {
        Reporter { interval, ..self }
    }

    /// Whether an update at time `elapsed` is passed over. An uncalibrated
    /// throttle goes by the time, a calibrated one by the count.
    pub open spec fn skips(self, elapsed: nat) -> bool {
        if self.limit == 0 {
            elapsed < self.interval
        } else {
            self.skipped < self.limit
        }
    }

    /// The state after the throttle has decided on an update, before any line
    /// is built.
    pub open spec fn gate(self, elapsed: nat, current: nat) -> Reporter {
        if self.limit == 0 {
            if elapsed < self.interval {
                self
            } else {
                Reporter { limit: current + 1, ..self }
            }
        } else if self.skipped < self.limit {
            Reporter { skipped: self.skipped + 1, ..self }
        } else {
            Reporter { skipped: 0, ..self }
        }
    }

    /// The state after an update. A line that shows estimates also sets the
    /// throttle to the number of steps that one interval holds at the average
    /// speed so far.
    pub open spec fn step(self, elapsed: nat, current: nat) -> Reporter {
        if !self.skips(elapsed) && shows_estimate(self.total, elapsed) {
            Reporter {
                limit: steps_per_interval(self.interval, current, elapsed),
                ..self.gate(elapsed, current)
            }
        } else {
            self.gate(elapsed, current)
        }
    }

    /// What an update writes: nothing where it is passed over, else the
    /// status line.
    pub open spec fn line(self, elapsed: nat, current: nat, message: Seq<char>) -> Option<
        Seq<char>,
    > {
        if self.skips(elapsed) {
            None
        } else {
            Some(status_text(self.width, self.total, self.label, current, elapsed, message))
        }
    }

    /// What is written when the reporter is done with.
    pub open spec fn completion(self) -> Seq<char> {
        completion_text(self.total, self.label)
    }

    /// The state after a sequence of updates.
    pub open spec fn run(self, updates: Seq<Update>) -> Reporter
        decreases updates.len(),
    {
        if updates.len() == 0 {
            self
        } else {
            self.run(updates.drop_last()).step(updates.last().elapsed, updates.last().current)
        }
    }

    /// The status lines that a sequence of updates writes, in order.
    pub open spec fn lines(self, updates: Seq<Update>) -> Seq<Seq<char>>
        decreases updates.len(),
    {
        if updates.len() == 0 {
            Seq::empty()
        } else {
            let earlier = self.lines(updates.drop_last());
            let u = updates.last();
            match self.run(updates.drop_last()).line(u.elapsed, u.current, u.message) {
                Some(text) => earlier.push(text),
                None => earlier,
            }
        }
    }
}

/// Updates change the throttle and nothing else: width, total, label and
/// interval stay as they were.
pub proof fn lemma_updates_keep_setup(r: Reporter, updates: Seq<Update>)
    ensures
        r.run(updates).width == r.width,
        r.run(updates).total == r.total,
        r.run(updates).label == r.label,
        r.run(updates).interval == r.interval,
    decreases updates.len(),
{
    if updates.len() > 0 {
        lemma_updates_keep_setup(r, updates.drop_last());
    }
}

/// Whatever updates a reporter has seen, and also where it has seen none, its
/// completion line is that of its total and label alone. With a known total
/// the line shows the total as the step reached, whatever step was reported
/// last.
pub proof fn lemma_completion_ignores_updates(r: Reporter, updates: Seq<Update>)
    ensures
        r.run(updates).completion() == r.completion(),
        r.total > 0 ==> completion_line(r.run(updates).total, r.run(updates).label) == seq!['[']
            + decimal(r.total) + seq!['/'] + decimal(r.total) + seq![']', ' '] + r.label,
{
    lemma_updates_keep_setup(r, updates);
}

/// With the total unknown, a status line holds the step, the label and the
/// message and no estimate, at whatever time it is written, and the throttle
/// is never set from a speed.
pub proof fn lemma_unknown_total_shows_no_estimate(
    r: Reporter,
    elapsed: nat,
    current: nat,
    message: Seq<char>,
)
    requires
        r.total == 0,
    ensures
        prefix_text(r.total, current, r.label, elapsed) == decimal(current) + seq![' '] + r.label
            + seq![' '],
        r.line(elapsed, current, message) matches Some(text) ==> text == seq!['\r'] + fit_line(
            decimal(current) + seq![' '] + r.label + seq![' '],
            message,
            r.width,
        ) + erase_to_end(),
        r.step(elapsed, current) == r.gate(elapsed, current),
{
    assert(prefix_text(r.total, current, r.label, elapsed) =~= decimal(current) + seq![' ']
        + r.label + seq![' ']);
}

/// With the total unknown, no update of any sequence writes an estimate: the
/// line of the update at `i`, if it writes one, is that of its step, the label
/// and its message.
pub proof fn lemma_unknown_total_never_shows_estimate(r: Reporter, updates: Seq<Update>, i: int)
    requires
        r.total == 0,
        0 <= i < updates.len(),
    ensures
        r.run(updates.take(i)).line(updates[i].elapsed, updates[i].current, updates[i].message)
            matches Some(text) ==> text == seq!['\r'] + fit_line(
            decimal(updates[i].current) + seq![' '] + r.label + seq![' '],
            updates[i].message,
            r.width,
        ) + erase_to_end(),
{
    lemma_updates_keep_setup(r, updates.take(i));
    lemma_unknown_total_shows_no_estimate(
        r.run(updates.take(i)),
        updates[i].elapsed,
        updates[i].current,
        updates[i].message,
    );
}

/// Before the throttle is calibrated the time alone decides: updates that all
/// come before the interval has passed write no line, however many they are,
/// and leave the reporter as it was.
pub proof fn lemma_silent_before_interval(r: Reporter, updates: Seq<Update>)
    requires
        r.limit == 0,
        forall|i: int| 0 <= i < updates.len() ==> (#[trigger] updates[i]).elapsed < r.interval,
    ensures
        r.lines(updates).len() == 0,
        r.run(updates) == r,
    decreases updates.len(),
{
    if updates.len() > 0 {
        let earlier = updates.drop_last();
        assert forall|i: int| 0 <= i < earlier.len() implies (#[trigger] earlier[i]).elapsed
            < r.interval by {
            assert(earlier[i] == updates[i]);
        }
        lemma_silent_before_interval(r, earlier);
        assert(updates.last() == updates[updates.len() - 1]);
    }
}

/// The first update at or after the interval writes a line and calibrates the
/// throttle: to the step after the one reported, or, where the line shows
/// estimates, to the steps that one interval holds.
pub proof fn lemma_line_once_interval_passed(
    r: Reporter,
    elapsed: nat,
    current: nat,
    message: Seq<char>,
)
    requires
        r.limit == 0,
        elapsed >= r.interval,
    ensures
        r.line(elapsed, current, message) == Some(
            status_text(r.width, r.total, r.label, current, elapsed, message),
        ),
        r.step(elapsed, current).skipped == r.skipped,
        r.step(elapsed, current).limit == if shows_estimate(r.total, elapsed) {
            steps_per_interval(r.interval, current, elapsed)
        } else {
            current + 1
        },
{
}

/// Once the throttle is calibrated the count alone decides: as long as fewer
/// updates were passed over than the throttle asks for, an update writes no
/// line, at whatever time it comes, and is counted.
pub proof fn lemma_silent_until_count_reached(r: Reporter, updates: Seq<Update>)
    requires
        r.limit > 0,
        r.skipped + updates.len() <= r.limit,
    ensures
        r.lines(updates).len() == 0,
        r.run(updates) == (Reporter { skipped: r.skipped + updates.len(), ..r }),
    decreases updates.len(),
{
    if updates.len() > 0 {
        lemma_silent_until_count_reached(r, updates.drop_last());
    }
}

/// Once as many updates were passed over as the calibrated throttle asks
/// for, the next update writes a line and the count starts again.
pub proof fn lemma_line_once_count_reached(
    r: Reporter,
    elapsed: nat,
    current: nat,
    message: Seq<char>,
)
    requires
        r.limit > 0,
        r.skipped >= r.limit,
    ensures
        r.line(elapsed, current, message) == Some(
            status_text(r.width, r.total, r.label, current, elapsed, message),
        ),
        r.step(elapsed, current).skipped == 0,
        r.step(elapsed, current).limit == if shows_estimate(r.total, elapsed) {
            steps_per_interval(r.interval, current, elapsed)
        } else {
            r.limit
        },
{
}

/// In a terminal of known width, a status line whose prefix is not exactly
/// as long as the width takes at most `width - 1` columns between the
/// carriage return and the erasing sequence, its prefix part among them, and
/// each part shown is the end of the part given, not its beginning.
pub proof fn lemma_status_line_fits(r: Reporter, elapsed: nat, current: nat, message: Seq<char>)
    requires
        r.width > 0,
        !r.skips(elapsed),
        prefix_text(r.total, current, r.label, elapsed).len() != r.width,
    ensures
        ({
            let prefix = prefix_text(r.total, current, r.label, elapsed);
            let shown = fit_prefix(prefix, r.width);
            let rest = fit_message(message, r.width, shown.len());
            &&& r.line(elapsed, current, message) == Some(
                seq!['\r'] + (shown + rest) + erase_to_end(),
            )
            &&& shown.len() <= r.width - 1
            &&& shown.len() + rest.len() <= r.width - 1
            &&& is_suffix_of(shown, prefix)
            &&& is_suffix_of(rest, message)
        }),
{
    lemma_line_fits(prefix_text(r.total, current, r.label, elapsed), message, r.width);
}

} // verus!
