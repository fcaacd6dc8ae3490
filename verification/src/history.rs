//! What holds of a session over its whole history.
//!
//! The steps of the session are functions of the state and of one input.
//! Folded over a history of inputs they give the facts stated here, which
//! hold of every history and every line.

use crate::grammar::{movement_in, regex_captures, MOVEMENT_PATTERN};
use crate::keys::{lemma_typed_events_layout, typed_events, InputEvent, VK_CONTROL, VK_RETURN};
use crate::session::{
    arrow_command, arrow_events, key_step, line_events, line_step, literal_text_events, Key, Mode,
    SessionView,
};
use crate::text::trimmed;
use vstd::prelude::*;

verus! {

/// Something that reaches the session: a line from the pendant or a local
/// key, with the time at which it came.
pub enum SessionInput {
    Line(Seq<char>, u64),
    Key(Key, u64),
}

/// The session after one input.
pub open spec fn input_step(session: SessionView, input: SessionInput) -> SessionView {
    match input {
        SessionInput::Line(line, now) => line_step(session, line, now),
        SessionInput::Key(key, now) => key_step(session, key, now),
    }
}

/// The session after a history of inputs, oldest first.
pub open spec fn session_after(start: SessionView, inputs: Seq<SessionInput>) -> SessionView
    decreases inputs.len(),
{
    if inputs.len() == 0 {
        start
    } else {
        input_step(session_after(start, inputs.drop_last()), inputs.last())
    }
}

/// The mode that the last `1` or `2` key of a history selects; `None` where
/// the history holds neither.
pub open spec fn last_selection(inputs: Seq<SessionInput>) -> Option<Mode>
    decreases inputs.len(),
{
    if inputs.len() == 0 {
        None
    } else if inputs.last() matches SessionInput::Key(key, _) && key == Key::Char('1') {
        Some(Mode::Arrow)
    } else if inputs.last() matches SessionInput::Key(key, _) && key == Key::Char('2') {
        Some(Mode::Gcode)
    } else {
        last_selection(inputs.drop_last())
    }
}

/// The mode depends on the last `1` or `2` key alone: after any history of
/// lines and keys it is the mode that this key selects, and the mode of the
/// start where no such key was pressed. No line ever changes it, and no
/// input changes the connection flag.
pub proof fn lemma_mode_is_last_selection(start: SessionView, inputs: Seq<SessionInput>)
    ensures
        session_after(start, inputs).mode == match last_selection(inputs) {
            Some(mode) => mode,
            None => start.mode,
        },
        session_after(start, inputs).connected == start.connected,
    decreases inputs.len(),
{
    if inputs.len() > 0 {
        lemma_mode_is_last_selection(start, inputs.drop_last());
    }
}

/// A relayed line is its characters, pressed and released one after the
/// other, and then Enter. The only key events in it are the two of Enter,
/// at its end; everything before them is a character event.
pub proof fn lemma_literal_text_layout(text: Seq<char>)
    ensures
        literal_text_events(text).len() == 2 * text.len() + 2,
        forall|i: int|
            0 <= i < text.len() ==> (#[trigger] literal_text_events(text)[2 * i])
                == InputEvent::CharDown(text[i]),
        forall|i: int|
            0 <= i < text.len() ==> (#[trigger] literal_text_events(text)[2 * i + 1])
                == InputEvent::CharUp(text[i]),
        literal_text_events(text)[2 * text.len() as int] == InputEvent::KeyDown(VK_RETURN),
        literal_text_events(text)[2 * text.len() as int + 1] == InputEvent::KeyUp(VK_RETURN),
        forall|j: int|
            0 <= j < 2 * text.len() ==> (#[trigger] literal_text_events(text)[j]) is CharDown
                || literal_text_events(text)[j] is CharUp,
{
    lemma_typed_events_layout(text);
    let typed = typed_events(text);
    let events = literal_text_events(text);
    assert forall|j: int| 0 <= j < 2 * text.len() implies (#[trigger] events[j]) is CharDown
        || events[j] is CharUp by {
        let i = j / 2;
        if j % 2 == 0 {
            assert(events[j] == typed[2 * i]);
        } else {
            assert(events[j] == typed[2 * i + 1]);
        }
    }
    assert forall|i: int| 0 <= i < text.len() implies (#[trigger] events[2 * i])
        == InputEvent::CharDown(text[i]) by {
        assert(events[2 * i] == typed[2 * i]);
    }
    assert forall|i: int| 0 <= i < text.len() implies (#[trigger] events[2 * i + 1])
        == InputEvent::CharUp(text[i]) by {
        assert(events[2 * i + 1] == typed[2 * i + 1]);
    }
}

/// In Gcode mode every line is relayed as text, a jog command like any
/// other: its events are those of typing the trimmed line and pressing
/// Enter, the control modifier is not among them, and the mode stays.
pub proof fn lemma_gcode_lines_are_typed(session: SessionView, line: Seq<char>, now: u64)
    requires
        session.mode == Mode::Gcode,
    ensures
        line_events(session.mode, line) == literal_text_events(trimmed(line)),
        line_step(session, line, now).mode == Mode::Gcode,
        forall|j: int|
            0 <= j < line_events(session.mode, line).len() ==> #[trigger] line_events(
                session.mode,
                line,
            )[j] != InputEvent::KeyDown(VK_CONTROL) && line_events(session.mode, line)[j]
                != InputEvent::KeyUp(VK_CONTROL),
{
    lemma_literal_text_layout(trimmed(line));
}

/// A line in which the search finds no jog command, or finds one that
/// cannot be read, gives no command and no event in Arrow mode. The outcome
/// depends on the line alone, so handling the line again gives the same.
pub proof fn lemma_no_match_no_events(line: Seq<char>)
    ensures
        regex_captures(MOVEMENT_PATTERN@, arrow_command(line)) is None ==> movement_in(
            arrow_command(line),
        ) is None,
        movement_in(arrow_command(line)) is None ==> arrow_events(line) == Seq::<
            InputEvent,
        >::empty(),
{
}

} // verus!
