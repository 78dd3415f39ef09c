//! Decision steps of the three cooperative thread bodies. Each body is a
//! loop that polls a queue, decides, performs I/O and yields; the loop, the
//! polling and the I/O run at the edge, and the decisions are here.

use vstd::prelude::*;

verus! {

/// What the serial echo thread does with one received byte.
#[derive(Copy, Clone, PartialEq, Eq, Structural, Debug)]
pub struct EchoAction {
    /// Ask the platform to power off: the byte was the quit command.
    pub shutdown: bool,
    /// The byte to echo to the console; every received byte is echoed.
    pub output: u8,
}

/// One step of the echo thread: a received `Q` requests shutdown, and the
/// byte is echoed to the console either way.
pub fn echo(received: u8) -> (r: EchoAction)
    ensures
        r.shutdown == (received == 'Q' as u8),
        r.output == received,
{
    EchoAction { shutdown: received == 'Q' as u8, output: received }
}

/// One step of the clock thread: display the tick count exactly when it
/// moved since the last display, and record what was displayed. The tick
/// count only grows between steps.
pub fn clock(ticks: usize, last_displayed: usize) -> (r: Option<usize>)
    requires
        last_displayed <= ticks,
    ensures
        r == if ticks > last_displayed {
            Some(ticks)
        } else {
            None::<usize>
        },
{
    if ticks - last_displayed > 0 {
        Some(ticks)
    } else {
        None
    }
}

/// What the keyboard thread does with one decoded character.
#[derive(Copy, Clone, PartialEq, Eq, Structural, Debug)]
pub struct KeyboardAction {
    /// Ask the platform to power off: the character was the quit command.
    pub shutdown: bool,
    /// The character to print on the console; the quit command is not
    /// printed.
    pub console: Option<char>,
}

/// One step of the keyboard thread: every decoded character is forwarded
/// to the serial line by the caller; a `Q` requests shutdown and anything
/// else is printed on the console.
pub fn keyboard(c: char) -> (r: KeyboardAction)
    ensures
        r.shutdown == (c == 'Q'),
        r.console == if c == 'Q' {
            None::<char>
        } else {
            Some(c)
        },
{
    if c == 'Q' {
        KeyboardAction { shutdown: true, console: None }
    } else {
        KeyboardAction { shutdown: false, console: Some(c) }
    }
}

} // verus!
