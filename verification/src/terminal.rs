//! The width of the terminal that status lines are written to.

use vstd::prelude::*;

verus! {

/// Whether the standard error stream is an interactive terminal:
/// `IsTerminal::is_terminal` on `std::io::stderr()`. The answer depends on
/// how the process was started, so nothing is claimed of it.
#[verifier::external_body]
fn stderr_is_terminal() -> bool {
    std::io::IsTerminal::is_terminal(&std::io::stderr())
}

/// The number of columns that `terminal_size::terminal_size` reports, or
/// `None` where it reports no size. The answer depends on the terminal, so
/// nothing is claimed of it.
#[verifier::external_body]
fn terminal_columns() -> Option<u16> {
    match terminal_size::terminal_size() {
        Some((width, _)) => Some(width.0),
        None => None,
    }
}

/// The width to cut lines to, from what was found out about the terminal:
/// the columns reported, and zero, which stands for an unknown width, where
/// the stream is no terminal or no size was reported.
pub open spec fn width_from(interactive: bool, columns: Option<u16>) -> nat {
    match columns {
        Some(n) if interactive => n as nat,
        _ => 0,
    }
}

/// The width to cut lines to, from what was found out about the terminal.
pub fn usable_width(interactive: bool, columns: Option<u16>) -> (width: usize)
    ensures
        width == width_from(interactive, columns),
{
    if interactive {
        match columns {
            Some(n) => n as usize,
            None => 0,
        }
    } else {
        0
    }
}

/// Finds out the width of the terminal behind the standard error stream. The
/// size is asked for only where the stream is a terminal. The width is what
/// `usable_width` makes of the answers; whatever they are, it is a number of
/// columns that a terminal can report, or zero.
pub fn detect_width() -> (width: usize)
    ensures
        width <= u16::MAX,
{
    if stderr_is_terminal() {
        usable_width(true, terminal_columns())
    } else {
        usable_width(false, None)
    }
}

} // verus!
