//! Fitting a status line into the width of a terminal.
//!
//! A line is made of a prefix (counters and label) and a message. Where the
//! width is known, each part gives up its leading characters first, so that
//! what stays is the end of the counters and the end of the message. A width
//! of zero means that the width is unknown, and nothing is cut.

use vstd::prelude::*;
use vstd::string::*;

verus! {

/// The last `n` characters of `s`, or all of `s` where it has no more than `n`.
pub open spec fn tail(s: Seq<char>, n: nat) -> Seq<char> {
    if s.len() <= n {
        s
    } else {
        s.subrange(s.len() - n, s.len() as int)
    }
}

/// The prefix as shown in a terminal of `width` columns: a prefix longer than
/// the width keeps its last `width - 1` characters.
pub open spec fn fit_prefix(prefix: Seq<char>, width: nat) -> Seq<char> {
    if width > 0 && prefix.len() > width {
        tail(prefix, (width - 1) as nat)
    } else {
        prefix
    }
}

/// The columns left for the message behind a prefix of `prefix_len`
/// characters: `width - prefix_len - 1`, and none where that would be
/// negative.
pub open spec fn room(width: nat, prefix_len: nat) -> nat {
    if width > prefix_len + 1 {
        (width - prefix_len - 1) as nat
    } else {
        0
    }
}

/// The message as shown behind a prefix of `prefix_len` characters: a message
/// longer than the room left keeps its last characters.
pub open spec fn fit_message(message: Seq<char>, width: nat, prefix_len: nat) -> Seq<char> {
    if width > 0 {
        tail(message, room(width, prefix_len))
    } else {
        message
    }
}

/// The visible part of a status line: the fitted prefix, then the message
/// fitted into what the prefix leaves.
pub open spec fn fit_line(prefix: Seq<char>, message: Seq<char>, width: nat) -> Seq<char> {
    fit_prefix(prefix, width) + fit_message(message, width, fit_prefix(prefix, width).len())
}

/// `part` is what `whole` ends with.
pub open spec fn is_suffix_of(part: Seq<char>, whole: Seq<char>) -> bool {
    part.len() <= whole.len() && part == whole.subrange(whole.len() - part.len(), whole.len() as int)
}

/// The last `n` characters of `s`.
pub fn keep_tail<'a>(s: &'a str, n: usize) -> (kept: &'a str)
    ensures
        kept@ == tail(s@, n as nat),
{
    let len: usize = s.unicode_len();
    if len <= n {
        s
    } else {
        s.substring_char(len - n, len)
    }
}

/// Cuts a prefix to the width of the terminal.
pub fn shorten_prefix<'a>(prefix: &'a str, width: usize) -> (kept: &'a str)
    ensures
        kept@ == fit_prefix(prefix@, width as nat),
{
    if width > 0 && prefix.unicode_len() > width {
        keep_tail(prefix, width - 1)
    } else {
        prefix
    }
}

/// Cuts a message to the room that a prefix of `prefix_len` characters leaves.
pub fn shorten_message<'a>(message: &'a str, width: usize, prefix_len: usize) -> (kept: &'a str)
    ensures
        kept@ == fit_message(message@, width as nat, prefix_len as nat),
{
    if width > 0 {
        let left: usize = if prefix_len < width {
            width - prefix_len - 1
        } else {
            0
        };
        keep_tail(message, left)
    } else {
        message
    }
}

/// What stays of a text is its end, and it is as long as the shorter of the
/// text and what was asked for.
pub proof fn lemma_tail_is_suffix(s: Seq<char>, n: nat)
    ensures
        is_suffix_of(tail(s, n), s),
        tail(s, n).len() == if s.len() <= n { s.len() } else { n },
{
    if s.len() <= n {
        assert(s.subrange(0, s.len() as int) =~= s);
    }
}

/// In a terminal of known width, a prefix of any length other than the width
/// itself is shown on at most `width - 1` columns, and what is shown is the
/// end of the prefix. A prefix of exactly `width` characters is not cut.
pub proof fn lemma_prefix_fits(prefix: Seq<char>, width: nat)
    requires
        width > 0,
        prefix.len() != width,
    ensures
        fit_prefix(prefix, width).len() <= width - 1,
        is_suffix_of(fit_prefix(prefix, width), prefix),
{
    lemma_tail_is_suffix(prefix, (width - 1) as nat);
    assert(prefix.subrange(0, prefix.len() as int) =~= prefix);
}

/// In a terminal of known width, a line whose prefix is not exactly as long as
/// the width takes at most `width - 1` columns, and both parts shown are the
/// ends of what was given.
pub proof fn lemma_line_fits(prefix: Seq<char>, message: Seq<char>, width: nat)
    requires
        width > 0,
        prefix.len() != width,
    ensures
        fit_line(prefix, message, width).len() <= width - 1,
        is_suffix_of(fit_prefix(prefix, width), prefix),
        is_suffix_of(fit_message(message, width, fit_prefix(prefix, width).len()), message),
{
    lemma_prefix_fits(prefix, width);
    lemma_tail_is_suffix(message, room(width, fit_prefix(prefix, width).len()));
}

/// With the width unknown, nothing is cut.
pub proof fn lemma_unknown_width_keeps_all(prefix: Seq<char>, message: Seq<char>)
    ensures
        fit_line(prefix, message, 0) == prefix + message,
{
}

} // verus!
