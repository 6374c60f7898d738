//! Key and event model.
//!
//! The terminal layer translates raw input into these plain values; the
//! orchestrator and the views decide on them. Only key-down events reach
//! the library: everything else is dropped at the edge.

use vstd::prelude::*;

verus! {

/// A key, as the views and the orchestrator see it.
#[derive(Clone, Copy, Debug, PartialEq, Eq, Structural)]
pub enum KeyCode {
    Up,
    Down,
    Left,
    Right,
    Esc,
    Enter,
    /// A printable character key.
    Char(char),
    /// A function key, by number.
    F(u8),
    /// Any key the dashboard has no binding for.
    Other,
}

/// A key press together with the state of the control modifier.
#[derive(Clone, Copy, Debug, PartialEq, Eq, Structural)]
pub struct KeyEvent {
    pub code: KeyCode,
    pub ctrl: bool,
}

impl KeyEvent {
    /// A plain, unmodified key press.
    pub fn plain(code: KeyCode) -> (r: KeyEvent)
        ensures
            r == (KeyEvent { code, ctrl: false }),
    {
        KeyEvent { code, ctrl: false }
    }
}

/// One event on the orchestrator's channel: a key press from the input
/// task, or an error message from any fallible background operation.
#[derive(Debug, PartialEq, Eq)]
pub enum AppEvent {
    Key(KeyEvent),
    Error(String),
}

/// A raw terminal event, reduced to what the input task distinguishes:
/// a key-down press, or anything else (key releases, resizes, mouse
/// movement, focus changes).
#[derive(Clone, Copy, Debug, PartialEq, Eq)]
pub enum TerminalEvent {
    KeyPress(KeyEvent),
    Other,
}

/// What the input task forwards for one raw terminal event: key-down
/// presses become `AppEvent::Key`, everything else is dropped.
pub open spec fn spec_translate_terminal_event(ev: TerminalEvent) -> Option<KeyEvent> {
    match ev {
        TerminalEvent::KeyPress(k) => Some(k),
        TerminalEvent::Other => None,
    }
}

/// The input task's translation step: decide which raw events are
/// forwarded onto the event channel.
pub fn translate_terminal_event(ev: TerminalEvent) -> (r: Option<AppEvent>)
    ensures
        match spec_translate_terminal_event(ev) {
            Some(k) => r matches Some(a) && a matches AppEvent::Key(k2) && k2 == k,
            None => r is None,
        },
{
    match ev {
        TerminalEvent::KeyPress(k) => Some(AppEvent::Key(k)),
        TerminalEvent::Other => None,
    }
}

} // verus!
