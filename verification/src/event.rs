//! The events that the render loop consumes, and what the input source
//! forwards of what the terminal gives.

use vstd::prelude::*;

verus! {

/// How long one poll of the terminal waits for input, in milliseconds.
pub const POLL_TIMEOUT_MS: u64 = 100;

/// The identity of a key, as far as the dispatch tells keys apart.
#[derive(Clone, Copy, Debug, PartialEq, Eq, Structural)]
pub enum KeyCode {
    Char(char),
    Esc,
    Up,
    Down,
    Other,
}

/// Whether a key went down, is held down, or came up.
#[derive(Clone, Copy, Debug, PartialEq, Eq, Structural)]
pub enum KeyEventKind {
    Press,
    Repeat,
    Release,
}

/// One key event of the terminal.
#[derive(Clone, Copy, Debug, PartialEq, Eq, Structural)]
pub struct KeyEvent {
    pub code: KeyCode,
    pub kind: KeyEventKind,
}

/// What the render loop is woken by.
#[derive(Clone, Copy, Debug, PartialEq, Eq, Structural)]
pub enum Event {
    Key(KeyEvent),
    Tick,
}

/// What one read of the terminal gave: a key event, or something that the
/// application has no use for (the mouse, a resize, pasted text).
#[derive(Clone, Copy, Debug, PartialEq, Eq, Structural)]
pub enum Input {
    Key(KeyEvent),
    Other,
}

/// Whether the input source reads the terminal after a poll. `polled` is what
/// the poll said, `None` when it failed: a failed poll counts as no input.
pub fn input_ready(polled: Option<bool>) -> (ready: bool)
    ensures
        ready == (polled == Some(true)),
{
    match polled {
        Some(ready) => ready,
        None => false,
    }
}

/// The event that the input source puts on the queue for one read of the
/// terminal. `read` is `None` when the read failed. Every key event is
/// forwarded, whatever its kind; nothing else is.
pub fn input_event(read: Option<Input>) -> (event: Option<Event>)
    ensures
        event == match read {
            Some(Input::Key(key)) => Some(Event::Key(key)),
            _ => None,
        },
{
    match read {
        Some(Input::Key(key)) => Some(Event::Key(key)),
        _ => None,
    }
}

} // verus!
