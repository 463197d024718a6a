//! Progress reporting for step-based work on a terminal: one status line that
//! is rewritten in place while the work goes on, and one completion line that
//! stays.
//!
//! A [`Printer`] is made for a number of steps and a label. Each update hands
//! out the text of a status line, or nothing where the throttle passes the
//! update over; ending the printer hands out the completion line. The library
//! builds the text and leaves the writing to the caller.
//!
//! - `reporter` states what a reporter does, as a state machine over
//!   mathematical values, and what holds of every sequence of updates.
//! - `line` and `layout` state the text of a line and how it is cut to the
//!   width of the terminal.
//! - `estimate` and `decimal` compute and write percentage, speed and
//!   remaining time in exact integer arithmetic.
//! - `clock` and `terminal` are where the library meets the machine.

pub mod clock;
pub mod decimal;
pub mod estimate;
pub mod layout;
pub mod line;
pub mod printer;
pub mod reporter;
pub mod terminal;

pub use printer::{printer, Printer};
