//! Keyboard events and the primitive operations that emit them.
//!
//! An event sink is a growing list of [`InputEvent`]s. The functions here only
//! ever append to it, so the order in which a caller replays the list is the
//! order in which the events were decided.

use vstd::prelude::*;

verus! {

/// Virtual key code of the left arrow.
pub const VK_LEFT: u16 = 0x25;

/// Virtual key code of the up arrow.
pub const VK_UP: u16 = 0x26;

/// Virtual key code of the right arrow.
pub const VK_RIGHT: u16 = 0x27;

/// Virtual key code of the down arrow.
pub const VK_DOWN: u16 = 0x28;

/// Virtual key code of page-up.
pub const VK_PAGEUP: u16 = 0x21;

/// Virtual key code of page-down.
pub const VK_PAGEDOWN: u16 = 0x22;

/// Virtual key code of the control modifier.
pub const VK_CONTROL: u16 = 0x11;

/// Virtual key code of Enter.
pub const VK_RETURN: u16 = 0x0D;

/// One primitive transition handed to the host's input stream.
#[derive(Clone, Copy, Debug, PartialEq, Eq)]
pub enum InputEvent {
    /// A virtual key goes down.
    KeyDown(u16),
    /// A virtual key comes up.
    KeyUp(u16),
    /// A character is pressed as text.
    CharDown(char),
    /// A character pressed as text is released.
    CharUp(char),
}

/// The two events of pressing and releasing one virtual key.
pub open spec fn key_tap(key_code: u16) -> Seq<InputEvent> {
    seq![InputEvent::KeyDown(key_code), InputEvent::KeyUp(key_code)]
}

/// The press of `c` as text.
pub open spec fn char_down(c: char) -> InputEvent {
    InputEvent::CharDown(c)
}

/// The release of `c` as text.
pub open spec fn char_up(c: char) -> InputEvent {
    InputEvent::CharUp(c)
}

/// The events of typing `text`: for each character, in the order of the
/// characters, its press followed by its release.
pub open spec fn typed_events(text: Seq<char>) -> Seq<InputEvent>
    decreases text.len(),
{
    if text.len() == 0 {
        Seq::empty()
    } else {
        typed_events(text.drop_last()).push(char_down(text.last())).push(char_up(text.last()))
    }
}

/// Typing one more character appends its press and its release.
pub proof fn lemma_typed_events_push(text: Seq<char>, c: char)
    ensures
        typed_events(text.push(c)) == typed_events(text).push(char_down(c)).push(char_up(c)),
{
    assert(text.push(c).drop_last() =~= text);
}

/// Typed text is two events per character, and the pair of the character at
/// position `i` stands at positions `2 * i` and `2 * i + 1`.
pub proof fn lemma_typed_events_layout(text: Seq<char>)
    ensures
        typed_events(text).len() == 2 * text.len(),
        forall|i: int|
            0 <= i < text.len() ==> (#[trigger] typed_events(text)[2 * i])
                == InputEvent::CharDown(text[i]),
        forall|i: int|
            0 <= i < text.len() ==> (#[trigger] typed_events(text)[2 * i + 1])
                == InputEvent::CharUp(text[i]),
    decreases text.len(),
{
    if text.len() > 0 {
        lemma_typed_events_layout(text.drop_last());
    }
}

/// Appends the press of `key_code`.
pub fn send_key_down(sink: &mut Vec<InputEvent>, key_code: u16)
    ensures
        final(sink)@ == old(sink)@.push(InputEvent::KeyDown(key_code)),
{
    sink.push(InputEvent::KeyDown(key_code));
}

/// Appends the release of `key_code`.
pub fn send_key_up(sink: &mut Vec<InputEvent>, key_code: u16)
    ensures
        final(sink)@ == old(sink)@.push(InputEvent::KeyUp(key_code)),
{
    sink.push(InputEvent::KeyUp(key_code));
}

/// Appends the press of `key_code` and then its release.
pub fn send_key(sink: &mut Vec<InputEvent>, key_code: u16)
    ensures
        final(sink)@ == old(sink)@ + key_tap(key_code),
{
    send_key_down(sink, key_code);
    send_key_up(sink, key_code);
}

/// Types `text` character by character, with no escaping and no restriction
/// on the characters.
pub fn type_text(sink: &mut Vec<InputEvent>, text: &str)
    ensures
        final(sink)@ == old(sink)@ + typed_events(text@),
{
    broadcast use vstd::string::group_string_axioms;

    let ghost before = sink@;
    for c in it: text.chars()
        invariant
            it.seq() == text@,
            sink@ == before + typed_events(text@.take(it.index())),
    {
        proof {
            lemma_typed_events_push(text@.take(it.index()), c);
            assert(text@.take(it.index()).push(c) =~= text@.take(it.index() + 1));
        }
        sink.push(InputEvent::CharDown(c));
        sink.push(InputEvent::CharUp(c));
    }
    assert(text@.take(text@.len() as int) =~= text@);
}

} // verus!
