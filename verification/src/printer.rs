//! The reporter itself: it keeps the throttle, reads the clock, and hands out
//! the text of each line for the caller to write.

use vstd::prelude::*;
use vstd::string::*;
use std::time::Instant;
use crate::clock::{elapsed_nanos, now};
use crate::estimate::interval_steps;
use crate::line::{compose_completion, compose_status, WARM_UP_NANOS};
use crate::reporter::{Reporter, DEFAULT_THROTTLE_NANOS};
use crate::terminal::detect_width;

verus! {

/// A progress reporter for one piece of work.
///
/// Status lines go to the standard error stream and the completion line to
/// the standard output; the reporter builds their text and leaves the writing
/// to its owner.
#[derive(Debug)]
pub struct Printer {
    /// Columns of the terminal; zero means that lines are not cut.
    term_width: usize,
    /// Number of steps of the work; zero means unknown.
    total: usize,
    /// The label shown on every line.
    prefix: String,
    /// The time that should pass between two status lines, in nanoseconds.
    throttle_nanos: u64,
    /// Updates passed over since the last status line.
    throttle_current_count: u128,
    /// Updates to pass over between two status lines; zero until calibrated.
    throttle_max_count: u128,
    /// When the reporter was made.
    start_time: Instant,
}

impl View for Printer {
    type V = Reporter;

    closed spec fn view(&self) -> Reporter {
        Reporter {
            width: self.term_width as nat,
            total: self.total as nat,
            label: self.prefix@,
            interval: self.throttle_nanos as nat,
            skipped: self.throttle_current_count as nat,
            limit: self.throttle_max_count as nat,
        }
    }
}

impl Printer {
    /// The instant at which the running time of the reporter starts. It is
    /// set when the reporter is made and never changes.
    pub closed spec fn started(&self) -> Instant {
        self.start_time
    }
}

/// The text that a call handed out, if any.
pub open spec fn written(line: Option<String>) -> Option<Seq<char>> {
    match line {
        Some(text) => Some(text@),
        None => None,
    }
}

/// An update at time `elapsed` took the reporter from `before` to `after` and
/// wrote `line`.
pub open spec fn updated_at(
    before: Reporter,
    after: Reporter,
    line: Option<Seq<char>>,
    elapsed: u64,
    current: nat,
    message: Seq<char>,
) -> bool {
    &&& after == before.step(elapsed as nat, current)
    &&& line == before.line(elapsed as nat, current, message)
}

/// Makes a reporter for `total` steps (zero: unknown) under the label
/// `prefix`, for the terminal behind the standard error stream.
pub fn printer(total: usize, prefix: &str) -> (p: Printer)
    ensures
        p@ == Reporter::fresh(total as nat, prefix@, p@.width),
        p@.width <= u16::MAX,
{
    Printer::new(total, prefix)
}

impl Printer {
    /// Makes a reporter for `total` steps (zero: unknown) under the label
    /// `prefix`, for the terminal behind the standard error stream. Its
    /// running time starts now.
    pub fn new(total: usize, prefix: &str) -> (p: Printer)
        ensures
            p@ == Reporter::fresh(total as nat, prefix@, p@.width),
            p@.width <= u16::MAX,
    {
        Printer::with_terminal_width(total, prefix, detect_width())
    }

    /// Makes a reporter for a terminal of `term_width` columns; zero stands
    /// for an unknown width. Its running time starts now.
    pub fn with_terminal_width(total: usize, prefix: &str, term_width: usize) -> (p: Printer)
        ensures
            p@ == Reporter::fresh(total as nat, prefix@, term_width as nat),
    {
        Printer::with_start(total, prefix, term_width, now())
    }

    /// Makes a reporter for a terminal of `term_width` columns whose running
    /// time is measured from `start_time`.
    pub fn with_start(
        total: usize,
        prefix: &str,
        term_width: usize,
        start_time: Instant,
    ) -> (p: Printer)
        ensures
            p@ == Reporter::fresh(total as nat, prefix@, term_width as nat),
            p.started() == start_time,
    {
        Printer {
            term_width,
            total,
            prefix: prefix.to_owned(),
            throttle_nanos: DEFAULT_THROTTLE_NANOS,
            throttle_current_count: 0,
            throttle_max_count: 0,
            start_time,
        }
    }

    /// Sets the time that should pass between two status lines, in
    /// nanoseconds. Meant to be called before the first update. Nothing else
    /// changes; the running time goes on from where it started.
    pub fn set_throttle_duration(&mut self, nanos: u64)
        ensures
            final(self)@ == old(self)@.with_interval(nanos as nat),
            final(self).started() == old(self).started(),
    {
        self.throttle_nanos = nanos;
    }

    /// Reports that `current` steps are done, with no message. Hands out the
    /// status line to write, or `None` where the throttle passes the update
    /// over. The reporter reads its running time from the clock; the outcome
    /// is that of `print_at` with an empty message at that time. The instant
    /// that the running time is measured from stays.
    pub fn update(&mut self, current: usize) -> (line: Option<String>)
        ensures
            exists|elapsed: u64| #[trigger]
                updated_at(
                    old(self)@,
                    final(self)@,
                    written(line),
                    elapsed,
                    current as nat,
                    Seq::empty(),
                ),
            final(self).started() == old(self).started(),
    {
        proof {
            reveal_strlit("");
        }
        assert(""@ =~= Seq::<char>::empty());
        self.print(current, "")
    }

    /// Reports that `current` steps are done, with a message. Hands out the
    /// status line to write, or `None` where the throttle passes the update
    /// over. The reporter reads its running time from the clock; the outcome
    /// is that of `print_at` at that time. The instant that the running time
    /// is measured from stays.
    pub fn print(&mut self, current: usize, text: &str) -> (line: Option<String>)
        ensures
            exists|elapsed: u64| #[trigger]
                updated_at(old(self)@, final(self)@, written(line), elapsed, current as nat, text@),
            final(self).started() == old(self).started(),
    {
        let elapsed: u64 = elapsed_nanos(&self.start_time);
        let line = self.print_at(elapsed, current, text);
        assert(updated_at(old(self)@, self@, written(line), elapsed, current as nat, text@));
        line
    }

    /// Reports that `current` steps are done after a running time of
    /// `elapsed` nanoseconds. The throttle decides first; where it lets the
    /// update through, the status line is handed out, and a line that shows
    /// estimates sets the throttle anew from the average speed. Only the
    /// throttle changes.
    pub fn print_at(&mut self, elapsed: u64, current: usize, text: &str) -> (line: Option<String>)
        ensures
            final(self)@ == old(self)@.step(elapsed as nat, current as nat),
            written(line) == old(self)@.line(elapsed as nat, current as nat, text@),
            final(self).started() == old(self).started(),
    {
        if self.throttle_max_count == 0 {
            if elapsed < self.throttle_nanos {
                return None;
            }
            self.throttle_max_count = current as u128 + 1;
        } else {
            if self.throttle_current_count < self.throttle_max_count {
                self.throttle_current_count = self.throttle_current_count + 1;
                return None;
            }
            self.throttle_current_count = 0;
        }
        if self.total > 0 && elapsed > WARM_UP_NANOS {
            self.throttle_max_count = interval_steps(self.throttle_nanos, current, elapsed);
        }
        Some(
            compose_status(
                self.term_width,
                self.total,
                self.prefix.as_str(),
                current,
                elapsed,
                text,
            ),
        )
    }

    /// Ends the reporter and hands out its completion line. It does not
    /// depend on what was reported, and no throttle holds it back.
    pub fn finish(self) -> (text: String)
        ensures
            text@ == self@.completion(),
    {
        compose_completion(self.total, self.prefix.as_str())
    }

    /// Number of steps of the work; zero means unknown.
    pub fn total(&self) -> (total: usize)
        ensures
            total == self@.total,
    {
        self.total
    }

    /// The label shown on every line.
    pub fn prefix(&self) -> (label: &str)
        ensures
            label@ == self@.label,
    {
        self.prefix.as_str()
    }

    /// Columns of the terminal; zero means that lines are not cut.
    pub fn terminal_width(&self) -> (width: usize)
        ensures
            width == self@.width,
    {
        self.term_width
    }

    /// The instant that the running time is measured from.
    pub fn start_time(&self) -> (start: Instant)
        ensures
            start == self.started(),
    {
        self.start_time
    }

    /// The time that should pass between two status lines, in nanoseconds.
    pub fn throttle_duration(&self) -> (nanos: u64)
        ensures
            nanos == self@.interval,
    {
        self.throttle_nanos
    }
}

} // verus!
