//! From a jog command to the key chord that stands for it.
//!
//! Host applications act on a chord only if its events arrive strictly
//! nested: modifier down, key down, key up, modifier up. [`press_chord`] is
//! the one place that lays a chord out.

use crate::grammar::{Axis, MovementCommand, MovementView};
use crate::keys::{
    key_tap, send_key_down, send_key_up, InputEvent, VK_CONTROL, VK_DOWN, VK_LEFT, VK_PAGEDOWN,
    VK_PAGEUP, VK_RIGHT, VK_UP,
};
use vstd::prelude::*;

verus! {

/// A key, optionally held inside a modifier.
#[derive(Clone, Copy, Debug, PartialEq, Eq)]
pub struct KeyChord {
    pub key: u16,
    pub modifier: Option<u16>,
}

/// The events of a chord: the key's press and release, enclosed by the
/// modifier's where there is one.
pub open spec fn chord_events(chord: KeyChord) -> Seq<InputEvent> {
    match chord.modifier {
        Some(modifier) => seq![
            InputEvent::KeyDown(modifier),
            InputEvent::KeyDown(chord.key),
            InputEvent::KeyUp(chord.key),
            InputEvent::KeyUp(modifier),
        ],
        None => key_tap(chord.key),
    }
}

/// The directional key of an axis and a sign. A magnitude that is not
/// positive, zero included, takes the second key of its axis.
pub open spec fn direction_key(axis: Axis, positive: bool) -> u16 {
    match axis {
        Axis::Y => if positive {
            VK_UP
        } else {
            VK_DOWN
        },
        Axis::X => if positive {
            VK_RIGHT
        } else {
            VK_LEFT
        },
        Axis::Z => if positive {
            VK_PAGEUP
        } else {
            VK_PAGEDOWN
        },
    }
}

/// The chord of a jog command: its directional key inside the control
/// modifier.
pub open spec fn movement_chord(command: MovementView) -> KeyChord {
    KeyChord {
        key: direction_key(command.axis, command.magnitude.is_positive()),
        modifier: Some(VK_CONTROL),
    }
}

/// The events that a jog command is turned into.
pub open spec fn movement_events(command: MovementView) -> Seq<InputEvent> {
    chord_events(movement_chord(command))
}

/// Every jog command gives exactly four events, strictly nested: control
/// down, the directional key of its axis and sign down and up, control up.
/// The modifier therefore never appears without its key inside it.
pub proof fn lemma_movement_events_nested(command: MovementView)
    ensures
        movement_events(command) == seq![
            InputEvent::KeyDown(VK_CONTROL),
            InputEvent::KeyDown(direction_key(command.axis, command.magnitude.is_positive())),
            InputEvent::KeyUp(direction_key(command.axis, command.magnitude.is_positive())),
            InputEvent::KeyUp(VK_CONTROL),
        ],
        movement_events(command).len() == 4,
        direction_key(Axis::Y, true) == VK_UP,
        direction_key(Axis::Y, false) == VK_DOWN,
        direction_key(Axis::X, true) == VK_RIGHT,
        direction_key(Axis::X, false) == VK_LEFT,
        direction_key(Axis::Z, true) == VK_PAGEUP,
        direction_key(Axis::Z, false) == VK_PAGEDOWN,
{
}

/// Selects the chord of a jog command.
pub fn chord_for(command: &MovementCommand) -> (r: KeyChord)
    ensures
        r == movement_chord(command@),
{
    let positive = command.magnitude.is_positive();
    let key = match command.axis {
        Axis::Y => if positive {
            VK_UP
        } else {
            VK_DOWN
        },
        Axis::X => if positive {
            VK_RIGHT
        } else {
            VK_LEFT
        },
        Axis::Z => if positive {
            VK_PAGEUP
        } else {
            VK_PAGEDOWN
        },
    };
    KeyChord { key, modifier: Some(VK_CONTROL) }
}

/// Appends the events of `chord`, in their nested order.
pub fn press_chord(sink: &mut Vec<InputEvent>, chord: KeyChord)
    ensures
        final(sink)@ == old(sink)@ + chord_events(chord),
{
    match chord.modifier {
        Some(modifier) => {
            send_key_down(sink, modifier);
            send_key_down(sink, chord.key);
            send_key_up(sink, chord.key);
            send_key_up(sink, modifier);
        },
        None => {
            send_key_down(sink, chord.key);
            send_key_up(sink, chord.key);
        },
    }
    assert(sink@ =~= old(sink)@ + chord_events(chord));
}

/// Appends the chord of a jog command.
pub fn press_movement(sink: &mut Vec<InputEvent>, command: &MovementCommand)
    ensures
        final(sink)@ == old(sink)@ + movement_events(command@),
{
    press_chord(sink, chord_for(command));
}

} // verus!
