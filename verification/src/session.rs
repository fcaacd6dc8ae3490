//! The session: its state, and how serial lines and local keys change it.
//!
//! Every function here is one step of a state machine. It changes the
//! session, appends the keyboard events it decided on to the sink, and says
//! what its caller has to do next; it never does any of that itself.

use crate::chord::{movement_events, press_movement};
use crate::grammar::{match_command, movement_in, strip_label, without_label};
use crate::keys::{key_tap, send_key, type_text, typed_events, InputEvent, VK_RETURN};
use crate::text::trimmed;
use vstd::prelude::*;
use vstd::string::StringExecFns;

verus! {

/// What is put before a typed line in the record of the last command.
pub const TYPED_PREFIX: &'static str = "Typed: ";

/// What is put before a sent line in the record of the last command.
pub const SENT_PREFIX: &'static str = "Sent: ";

/// How lines from the pendant and keys from the terminal are read.
#[derive(Clone, Copy, Debug, PartialEq, Eq)]
pub enum Mode {
    /// Jog commands from the pendant become key chords.
    Arrow,
    /// Lines from the pendant are typed out, and local text is sent to it.
    Gcode,
}

/// The state of one session.
#[derive(Clone, Debug, PartialEq, Eq)]
pub struct AppState {
    pub mode: Mode,
    pub connected: bool,
    /// The record of the last line that was handled or sent.
    pub last_command: Option<String>,
    /// When that record was made, in milliseconds on the caller's clock.
    pub last_command_time: Option<u64>,
    /// The text typed so far that has not been sent.
    pub gcode_input: String,
}

/// The mathematical content of an [`AppState`].
pub struct SessionView {
    pub mode: Mode,
    pub connected: bool,
    pub last_command: Option<Seq<char>>,
    pub last_command_time: Option<u64>,
    pub gcode_input: Seq<char>,
}

impl View for AppState {
    type V = SessionView;

    open spec fn view(&self) -> SessionView {
        SessionView {
            mode: self.mode,
            connected: self.connected,
            last_command: match self.last_command {
                Some(text) => Some(text@),
                None => None,
            },
            last_command_time: self.last_command_time,
            gcode_input: self.gcode_input@,
        }
    }
}

impl SessionView {
    /// The session as it starts: in Gcode mode, not connected, with no
    /// record and nothing typed.
    pub open spec fn initial() -> SessionView {
        SessionView {
            mode: Mode::Gcode,
            connected: false,
            last_command: None,
            last_command_time: None,
            gcode_input: Seq::empty(),
        }
    }

    /// The session after `command` was recorded at `now`.
    pub open spec fn recorded(self, command: Seq<char>, now: u64) -> SessionView {
        SessionView { last_command: Some(command), last_command_time: Some(now), ..self }
    }
}

impl AppState {
    /// A session as it starts.
    pub fn new() -> (r: Self)
        ensures
            r@ == SessionView::initial(),
    {
        AppState {
            mode: Mode::Gcode,
            connected: false,
            last_command: None,
            last_command_time: None,
            gcode_input: String::new(),
        }
    }

    /// Records `command` as the last command, made at `now`.
    pub fn update_last_command(&mut self, command: String, now: u64)
        ensures
            final(self)@ == old(self)@.recorded(command@, now),
    {
        self.last_command = Some(command);
        self.last_command_time = Some(now);
    }

    /// The milliseconds from the last record to `now`, if there is a
    /// record; zero where `now` lies before it.
    pub fn time_since_last_command(&self, now: u64) -> (r: Option<u64>)
        ensures
            r == elapsed_since(self@.last_command_time, now),
    {
        match self.last_command_time {
            Some(then) => if now >= then {
                Some(now - then)
            } else {
                Some(0)
            },
            None => None,
        }
    }
}

/// The milliseconds from `then` to `now`, zero where `now` lies before it.
pub open spec fn elapsed_since(then: Option<u64>, now: u64) -> Option<u64> {
    match then {
        Some(then) => if now >= then {
            Some((now - then) as u64)
        } else {
            Some(0u64)
        },
        None => None,
    }
}

/// The events of relaying `text` as if an operator had typed it: every
/// character, then Enter.
pub open spec fn literal_text_events(text: Seq<char>) -> Seq<InputEvent> {
    typed_events(text) + key_tap(VK_RETURN)
}

/// Relays a line in Gcode mode: types it as it is given, presses Enter,
/// and records it as typed.
pub fn serial_to_gcode(line: &str, state: &mut AppState, now: u64, sink: &mut Vec<InputEvent>)
    ensures
        final(sink)@ == old(sink)@ + literal_text_events(line@),
        final(state)@ == old(state)@.recorded(TYPED_PREFIX@ + line@, now),
{
    type_text(sink, line);
    send_key(sink, VK_RETURN);
    let mut record = String::from_str(TYPED_PREFIX);
    record.append(line);
    state.update_last_command(record, now);
    assert(sink@ =~= old(sink)@ + literal_text_events(line@));
}

/// The command text of a line in Arrow mode: the line, trimmed, without
/// its label.
pub open spec fn arrow_command(line: Seq<char>) -> Seq<char> {
    without_label(trimmed(line))
}

/// The events that a line gives in Arrow mode: the chord of its jog
/// command, or nothing.
pub open spec fn arrow_events(line: Seq<char>) -> Seq<InputEvent> {
    match movement_in(arrow_command(line)) {
        Some(command) => movement_events(command),
        None => Seq::empty(),
    }
}

/// Handles a line in Arrow mode: trims it and removes its label, records
/// what is left, and presses the chord of the jog command in it, if there
/// is one. Returns whether there was one; where there was none, no event is
/// emitted.
pub fn serial_to_arrow(
    line: &str,
    state: &mut AppState,
    now: u64,
    sink: &mut Vec<InputEvent>,
) -> (r: bool)
    ensures
        r == movement_in(arrow_command(line@)) is Some,
        final(sink)@ == old(sink)@ + arrow_events(line@),
        !r ==> final(sink)@ == old(sink)@,
        final(state)@ == old(state)@.recorded(arrow_command(line@), now),
{
    let command = strip_label(line.trim());
    state.update_last_command(String::from_str(command), now);
    match match_command(command) {
        Some(movement) => {
            press_movement(sink, &movement);
            true
        },
        None => {
            assert(old(sink)@ + Seq::<InputEvent>::empty() =~= old(sink)@);
            false
        },
    }
}

/// Handles one line from the pendant, whatever the mode: the trimmed line
/// is relayed in Gcode mode, and read as a jog command in Arrow mode. The
/// mode, the connection flag and the pending text stay as they are.
pub fn handle_serial_line(
    line: &str,
    state: &mut AppState,
    now: u64,
    sink: &mut Vec<InputEvent>,
)
    ensures
        final(state)@ == line_step(old(state)@, line@, now),
        final(sink)@ == old(sink)@ + line_events(old(state)@.mode, line@),
        final(state)@.mode == old(state)@.mode,
        final(state)@.connected == old(state)@.connected,
        final(state)@.gcode_input == old(state)@.gcode_input,
{
    match state.mode {
        Mode::Arrow => {
            serial_to_arrow(line, state, now, sink);
        },
        Mode::Gcode => {
            serial_to_gcode(line.trim(), state, now, sink);
        },
    }
}

/// The session after a line from the pendant.
pub open spec fn line_step(session: SessionView, line: Seq<char>, now: u64) -> SessionView {
    match session.mode {
        Mode::Arrow => session.recorded(arrow_command(line), now),
        Mode::Gcode => session.recorded(TYPED_PREFIX@ + trimmed(line), now),
    }
}

/// The events that a line from the pendant gives in `mode`.
pub open spec fn line_events(mode: Mode, line: Seq<char>) -> Seq<InputEvent> {
    match mode {
        Mode::Arrow => arrow_events(line),
        Mode::Gcode => literal_text_events(trimmed(line)),
    }
}

/// A key pressed at the local terminal.
#[derive(Clone, Copy, Debug, PartialEq, Eq)]
pub enum Key {
    /// A character key.
    Char(char),
    Enter,
    Backspace,
    /// Any key that the session has no use for.
    Other,
}

/// What the caller has to do after a key.
#[derive(Clone, Debug, PartialEq, Eq)]
pub enum KeyAction {
    /// Leave the loop and end the program.
    Quit,
    /// Write this text to the pendant, then refresh the status display.
    Send(String),
    /// Refresh the status display.
    Redraw,
    /// Nothing.
    Nothing,
}

/// The mathematical content of a [`KeyAction`].
pub enum KeyActionView {
    Quit,
    Send(Seq<char>),
    Redraw,
    Nothing,
}

impl View for KeyAction {
    type V = KeyActionView;

    open spec fn view(&self) -> KeyActionView {
        match self {
            KeyAction::Quit => KeyActionView::Quit,
            KeyAction::Send(text) => KeyActionView::Send(text@),
            KeyAction::Redraw => KeyActionView::Redraw,
            KeyAction::Nothing => KeyActionView::Nothing,
        }
    }
}

/// The mode after a key: `1` selects Arrow, `2` selects Gcode, and no other
/// key changes it.
pub open spec fn next_mode(mode: Mode, key: Key) -> Mode {
    if key == Key::Char('1') {
        Mode::Arrow
    } else if key == Key::Char('2') {
        Mode::Gcode
    } else {
        mode
    }
}

/// The session after a key.
pub open spec fn key_step(session: SessionView, key: Key, now: u64) -> SessionView {
    if key == Key::Char('1') || key == Key::Char('2') {
        SessionView { mode: next_mode(session.mode, key), ..session }
    } else if key == Key::Char('q') || session.mode == Mode::Arrow {
        session
    } else {
        match key {
            Key::Enter => if session.gcode_input.len() > 0 {
                SessionView {
                    gcode_input: Seq::empty(),
                    ..session.recorded(SENT_PREFIX@ + session.gcode_input, now)
                }
            } else {
                session
            },
            Key::Backspace => if session.gcode_input.len() > 0 {
                SessionView { gcode_input: session.gcode_input.drop_last(), ..session }
            } else {
                session
            },
            Key::Char(c) => SessionView { gcode_input: session.gcode_input.push(c), ..session },
            Key::Other => session,
        }
    }
}

/// What the caller has to do after a key pressed in `session`.
pub open spec fn key_action(session: SessionView, key: Key) -> KeyActionView {
    if key == Key::Char('1') || key == Key::Char('2') {
        KeyActionView::Redraw
    } else if key == Key::Char('q') {
        KeyActionView::Quit
    } else if session.mode == Mode::Arrow {
        KeyActionView::Nothing
    } else if key == Key::Enter && session.gcode_input.len() > 0 {
        KeyActionView::Send(session.gcode_input.push('\n'))
    } else {
        KeyActionView::Redraw
    }
}

/// Applies one local key to the session.
///
/// `1` and `2` select the mode and `q` quits, in either mode and whatever
/// has been typed; `q` changes nothing. The other keys count in Gcode mode
/// only: a character is appended to the pending text, Backspace removes its
/// last character if it has one, and Enter, if the text is not empty, hands
/// it out with a line feed, records it as sent and clears it.
pub fn handle_key_press(key: Key, state: &mut AppState, now: u64) -> (r: KeyAction)
    ensures
        final(state)@ == key_step(old(state)@, key, now),
        r@ == key_action(old(state)@, key),
        final(state)@.mode == next_mode(old(state)@.mode, key),
        key == Key::Char('q') ==> {
            &&& r@ == KeyActionView::Quit
            &&& final(state)@ == old(state)@
        },
        key == Key::Backspace && old(state)@.gcode_input.len() == 0 ==> {
            final(state)@ == old(state)@
        },
        key == Key::Enter && old(state)@.gcode_input.len() == 0 ==> {
            &&& !(r@ is Send)
            &&& final(state)@ == old(state)@
        },
{
    match key {
        Key::Char('1') => {
            state.mode = Mode::Arrow;
            KeyAction::Redraw
        },
        Key::Char('2') => {
            state.mode = Mode::Gcode;
            KeyAction::Redraw
        },
        Key::Char('q') => KeyAction::Quit,
        _ => match state.mode {
            Mode::Arrow => KeyAction::Nothing,
            Mode::Gcode => match key {
                Key::Enter => {
                    if state.gcode_input.as_str().is_empty() {
                        KeyAction::Redraw
                    } else {
                        let mut outbound = state.gcode_input.clone();
                        outbound.push('\n');
                        let mut record = String::from_str(SENT_PREFIX);
                        record.append(state.gcode_input.as_str());
                        state.update_last_command(record, now);
                        state.gcode_input.clear();
                        KeyAction::Send(outbound)
                    }
                },
                Key::Backspace => {
                    state.gcode_input.pop();
                    KeyAction::Redraw
                },
                Key::Char(c) => {
                    state.gcode_input.push(c);
                    KeyAction::Redraw
                },
                Key::Other => KeyAction::Redraw,
            },
        },
    }
}

/// What the caller has to do after one turn of the loop.
#[derive(Clone, Debug, PartialEq, Eq)]
pub struct TickOutcome {
    /// Leave the loop and end the program.
    pub quit: bool,
    /// Refresh the status display.
    pub redraw: bool,
    /// Text to write to the pendant.
    pub outbound: Option<String>,
}

/// The session after one turn of the loop: the line from the pendant, if
/// one came, is handled before the local key, if one was pressed.
pub open spec fn tick_step(
    session: SessionView,
    line: Option<Seq<char>>,
    key: Option<Key>,
    now: u64,
) -> SessionView {
    let after_line = match line {
        Some(line) => line_step(session, line, now),
        None => session,
    };
    match key {
        Some(key) => key_step(after_line, key, now),
        None => after_line,
    }
}

/// The events of one turn of the loop: those of the line, if one came. A
/// local key gives none.
pub open spec fn tick_events(mode: Mode, line: Option<Seq<char>>) -> Seq<InputEvent> {
    match line {
        Some(line) => line_events(mode, line),
        None => Seq::empty(),
    }
}

/// What the local key of one turn asks for, given the session in which the
/// turn began.
pub open spec fn tick_action(
    session: SessionView,
    line: Option<Seq<char>>,
    key: Option<Key>,
    now: u64,
) -> KeyActionView {
    match key {
        Some(key) => key_action(tick_step(session, line, None, now), key),
        None => KeyActionView::Nothing,
    }
}

/// One turn of the event loop, on what the caller has read: at most one
/// line from the pendant and at most one local key. The line is handled
/// first. A turn with neither changes nothing and asks for nothing.
pub fn run_tick(
    state: &mut AppState,
    line: Option<&str>,
    key: Option<Key>,
    now: u64,
    sink: &mut Vec<InputEvent>,
) -> (r: TickOutcome)
    ensures
        final(state)@ == tick_step(old(state)@, line.deep_view(), key, now),
        final(sink)@ == old(sink)@ + tick_events(old(state)@.mode, line.deep_view()),
        r.quit == (tick_action(old(state)@, line.deep_view(), key, now) is Quit),
        r.redraw == (line is Some || tick_action(old(state)@, line.deep_view(), key, now) is Redraw
            || tick_action(old(state)@, line.deep_view(), key, now) is Send),
        match r.outbound {
            Some(text) => tick_action(old(state)@, line.deep_view(), key, now)
                == KeyActionView::Send(text@),
            None => !(tick_action(old(state)@, line.deep_view(), key, now) is Send),
        },
{
    let line_came = match line {
        Some(line) => {
            handle_serial_line(line, state, now, sink);
            true
        },
        None => {
            assert(sink@ =~= old(sink)@ + Seq::<InputEvent>::empty());
            false
        },
    };
    let action = match key {
        Some(key) => handle_key_press(key, state, now),
        None => KeyAction::Nothing,
    };
    match action {
        KeyAction::Quit => TickOutcome { quit: true, redraw: line_came, outbound: None },
        KeyAction::Send(text) => TickOutcome { quit: false, redraw: true, outbound: Some(text) },
        KeyAction::Redraw => TickOutcome { quit: false, redraw: true, outbound: None },
        KeyAction::Nothing => TickOutcome { quit: false, redraw: line_came, outbound: None },
    }
}

} // verus!
