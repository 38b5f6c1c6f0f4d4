//! What an input event asks of the display.

use vstd::prelude::*;
use crate::display::{DeltaView, ScrollCommand, StateDelta};

verus! {

/// The modifier bits of a key press with the control key alone.
pub const CONTROL_ONLY: u8 = 2;

/// The kinds of mouse event that matter here.
#[derive(Clone, Copy, Debug, PartialEq, Eq, Structural)]
pub enum MouseKind {
    /// The wheel turned down.
    WheelDown,
    /// The wheel turned up.
    WheelUp,
    /// Anything else the mouse did.
    Other,
}

/// One event from the terminal, as far as the display reads it.
#[derive(Clone, Copy, Debug)]
pub enum InputEvent {
    /// A key press: its modifier bits, and the character of a character key.
    Key { modifiers: u8, character: Option<char> },
    /// A mouse event.
    Mouse(MouseKind),
    /// Any other event.
    Other,
}

/// A delta that carries nothing but a scroll command or the wish to terminate.
pub open spec fn bare_delta(scroll_command: Option<ScrollCommand>, terminate: bool) -> DeltaView {
    DeltaView { artist: None, title: None, lyrics: None, scroll_command, terminate }
}

/// Whether the event is the exit chord: control and `c`, with no other modifier.
pub open spec fn is_exit_chord(event: InputEvent) -> bool {
    match event {
        InputEvent::Key { modifiers, character } => modifiers == CONTROL_ONLY && character == Some(
            'c',
        ),
        _ => false,
    }
}

/// The delta that an event stands for, if it stands for one. The exit chord
/// terminates. The wheel turned down shows more text, which is `ScrollUp`;
/// the wheel turned up goes back, which is `ScrollDown`. Other events stand
/// for nothing.
pub open spec fn delta_for(event: InputEvent) -> Option<DeltaView> {
    if is_exit_chord(event) {
        Some(bare_delta(None, true))
    } else {
        match event {
            InputEvent::Mouse(MouseKind::WheelDown) => Some(
                bare_delta(Some(ScrollCommand::ScrollUp), false),
            ),
            InputEvent::Mouse(MouseKind::WheelUp) => Some(
                bare_delta(Some(ScrollCommand::ScrollDown), false),
            ),
            _ => None,
        }
    }
}

/// The view of an optional delta.
pub open spec fn delta_view(delta: Option<StateDelta>) -> Option<DeltaView> {
    match delta {
        Some(d) => Some(d@),
        None => None,
    }
}

/// Turns an input event into the delta to send, or `None` where the event
/// asks nothing of the display.
pub fn classify_input(event: InputEvent) -> (delta: Option<StateDelta>)
    ensures
        delta_view(delta) == delta_for(event),
{
    let (scroll_command, terminate) = match event {
        InputEvent::Key { modifiers, character } => {
            let chord = modifiers == CONTROL_ONLY && match character {
                Some(c) => c == 'c',
                None => false,
            };
            if chord {
                (None, true)
            } else {
                return None;
            }
        },
        InputEvent::Mouse(MouseKind::WheelDown) => (Some(ScrollCommand::ScrollUp), false),
        InputEvent::Mouse(MouseKind::WheelUp) => (Some(ScrollCommand::ScrollDown), false),
        _ => {
            return None;
        },
    };
    Some(StateDelta { artist: None, title: None, lyrics: None, scroll_command, terminate })
}

} // verus!
