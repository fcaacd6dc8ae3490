use pendant_watch::keys::{InputEvent, VK_CONTROL, VK_DOWN, VK_PAGEUP, VK_RETURN, VK_RIGHT};
use pendant_watch::session::{
    handle_key_press, handle_serial_line, run_tick, serial_to_arrow, serial_to_gcode, AppState,
    Key, KeyAction, Mode, TickOutcome,
};

fn nested(key: u16) -> Vec<InputEvent> {
    vec![
        InputEvent::KeyDown(VK_CONTROL),
        InputEvent::KeyDown(key),
        InputEvent::KeyUp(key),
        InputEvent::KeyUp(VK_CONTROL),
    ]
}

fn typed(text: &str) -> Vec<InputEvent> {
    let mut events = Vec::new();
    for c in text.chars() {
        events.push(InputEvent::CharDown(c));
        events.push(InputEvent::CharUp(c));
    }
    events.push(InputEvent::KeyDown(VK_RETURN));
    events.push(InputEvent::KeyUp(VK_RETURN));
    events
}

fn in_mode(mode: Mode) -> AppState {
    let mut state = AppState::new();
    state.mode = mode;
    state
}

fn type_keys(state: &mut AppState, text: &str) {
    for c in text.chars() {
        handle_key_press(Key::Char(c), state, 0);
    }
}

#[test]
fn new_session_starts_in_gcode_mode() {
    let state = AppState::new();
    assert_eq!(state.mode, Mode::Gcode);
    assert!(!state.connected);
    assert_eq!(state.last_command, None);
    assert_eq!(state.last_command_time, None);
    assert_eq!(state.gcode_input, "");
}

#[test]
fn update_last_command_sets_record_and_time() {
    let mut state = AppState::new();
    state.connected = true;
    state.update_last_command("G0".to_string(), 1500);
    assert_eq!(state.last_command, Some("G0".to_string()));
    assert_eq!(state.last_command_time, Some(1500));
    assert_eq!(state.mode, Mode::Gcode);
    assert!(state.connected);
    assert_eq!(state.gcode_input, "");
}

#[test]
fn time_since_last_command_is_the_difference() {
    let mut state = AppState::new();
    assert_eq!(state.time_since_last_command(10), None);
    state.update_last_command("G0".to_string(), 1500);
    assert_eq!(state.time_since_last_command(1500), Some(0));
    assert_eq!(state.time_since_last_command(4000), Some(2500));
    assert_eq!(state.time_since_last_command(u64::MAX), Some(u64::MAX - 1500));
}

#[test]
fn time_since_last_command_never_goes_below_zero() {
    let mut state = AppState::new();
    state.update_last_command("G0".to_string(), 1500);
    assert_eq!(state.time_since_last_command(1499), Some(0));
    assert_eq!(state.time_since_last_command(0), Some(0));
}

#[test]
fn labelled_jog_in_arrow_mode_presses_right() {
    let mut state = in_mode(Mode::Arrow);
    let mut sink = Vec::new();
    handle_serial_line("GCODE: G91G0X10.5", &mut state, 42, &mut sink);
    assert_eq!(sink, nested(VK_RIGHT));
    assert_eq!(state.last_command, Some("G91G0X10.5".to_string()));
    assert_eq!(state.last_command_time, Some(42));
    assert_eq!(state.mode, Mode::Arrow);
}

#[test]
fn negative_jog_in_arrow_mode_presses_down() {
    let mut state = in_mode(Mode::Arrow);
    let mut sink = Vec::new();
    handle_serial_line("G91G0Y-3", &mut state, 7, &mut sink);
    assert_eq!(sink, nested(VK_DOWN));
    assert_eq!(state.last_command, Some("G91G0Y-3".to_string()));
}

#[test]
fn line_in_gcode_mode_is_typed() {
    let mut state = AppState::new();
    let mut sink = Vec::new();
    handle_serial_line("hello world", &mut state, 9, &mut sink);
    assert_eq!(sink, typed("hello world"));
    assert_eq!(sink.len(), 24);
    assert_eq!(state.last_command, Some("Typed: hello world".to_string()));
    assert_eq!(state.last_command_time, Some(9));
}

#[test]
fn typing_and_enter_sends_the_line() {
    let mut state = AppState::new();
    assert_eq!(handle_key_press(Key::Char('G'), &mut state, 1), KeyAction::Redraw);
    assert_eq!(handle_key_press(Key::Char('0'), &mut state, 2), KeyAction::Redraw);
    assert_eq!(state.gcode_input, "G0");
    assert_eq!(state.last_command, None);
    let action = handle_key_press(Key::Enter, &mut state, 3);
    assert_eq!(action, KeyAction::Send("G0\n".to_string()));
    assert_eq!(state.gcode_input, "");
    assert_eq!(state.last_command, Some("Sent: G0".to_string()));
    assert_eq!(state.last_command_time, Some(3));
    assert_eq!(state.mode, Mode::Gcode);
}

#[test]
fn quit_changes_nothing() {
    for mode in [Mode::Arrow, Mode::Gcode] {
        let mut state = in_mode(mode);
        state.connected = true;
        state.gcode_input = "G1 X".to_string();
        state.update_last_command("Sent: G0".to_string(), 5);
        let before = state.clone();
        assert_eq!(handle_key_press(Key::Char('q'), &mut state, 99), KeyAction::Quit);
        assert_eq!(state, before);
    }
    let mut fresh = AppState::new();
    assert_eq!(handle_key_press(Key::Char('q'), &mut fresh, 0), KeyAction::Quit);
    assert_eq!(fresh, AppState::new());
}

#[test]
fn mode_follows_the_last_mode_key() {
    let mut state = AppState::new();
    assert_eq!(handle_key_press(Key::Char('1'), &mut state, 0), KeyAction::Redraw);
    assert_eq!(state.mode, Mode::Arrow);
    assert_eq!(handle_key_press(Key::Char('1'), &mut state, 0), KeyAction::Redraw);
    assert_eq!(state.mode, Mode::Arrow);
    assert_eq!(handle_key_press(Key::Char('2'), &mut state, 0), KeyAction::Redraw);
    assert_eq!(state.mode, Mode::Gcode);
    assert_eq!(handle_key_press(Key::Char('2'), &mut state, 0), KeyAction::Redraw);
    assert_eq!(state.mode, Mode::Gcode);
    let mut sink = Vec::new();
    handle_key_press(Key::Char('1'), &mut state, 0);
    handle_serial_line("G91G0X1", &mut state, 0, &mut sink);
    handle_key_press(Key::Enter, &mut state, 0);
    handle_key_press(Key::Other, &mut state, 0);
    handle_key_press(Key::Char('x'), &mut state, 0);
    assert_eq!(state.mode, Mode::Arrow);
}

#[test]
fn mode_keys_keep_the_pending_text() {
    let mut state = AppState::new();
    type_keys(&mut state, "G0 X");
    handle_key_press(Key::Char('1'), &mut state, 0);
    assert_eq!(state.gcode_input, "G0 X");
    handle_key_press(Key::Char('2'), &mut state, 0);
    assert_eq!(state.gcode_input, "G0 X");
    assert_eq!(state.last_command, None);
}

#[test]
fn jog_line_in_gcode_mode_is_only_typed() {
    let mut state = AppState::new();
    let mut sink = Vec::new();
    handle_serial_line("G91G0X10.5", &mut state, 0, &mut sink);
    assert_eq!(sink, typed("G91G0X10.5"));
    assert!(!sink.contains(&InputEvent::KeyDown(VK_CONTROL)));
    assert!(!sink.contains(&InputEvent::KeyDown(VK_RIGHT)));
    assert_eq!(state.last_command, Some("Typed: G91G0X10.5".to_string()));
}

#[test]
fn backspace_removes_the_last_character() {
    let mut state = AppState::new();
    type_keys(&mut state, "G03");
    assert_eq!(handle_key_press(Key::Backspace, &mut state, 0), KeyAction::Redraw);
    assert_eq!(state.gcode_input, "G0");
}

#[test]
fn backspace_on_empty_text_leaves_it_empty() {
    let mut state = AppState::new();
    assert_eq!(handle_key_press(Key::Backspace, &mut state, 0), KeyAction::Redraw);
    assert_eq!(state, AppState::new());
    type_keys(&mut state, "a");
    handle_key_press(Key::Backspace, &mut state, 0);
    handle_key_press(Key::Backspace, &mut state, 0);
    assert_eq!(state.gcode_input, "");
}

#[test]
fn enter_on_empty_text_sends_nothing() {
    let mut state = AppState::new();
    state.update_last_command("Typed: ok".to_string(), 4);
    let before = state.clone();
    assert_eq!(handle_key_press(Key::Enter, &mut state, 50), KeyAction::Redraw);
    assert_eq!(state, before);
    assert_eq!(state.last_command, Some("Typed: ok".to_string()));
    assert_eq!(state.last_command_time, Some(4));
}

#[test]
fn local_text_keys_do_nothing_in_arrow_mode() {
    let mut state = in_mode(Mode::Arrow);
    state.gcode_input = "G1".to_string();
    let before = state.clone();
    for key in [Key::Char('x'), Key::Char(' '), Key::Backspace, Key::Enter, Key::Other] {
        assert_eq!(handle_key_press(key, &mut state, 3), KeyAction::Nothing);
        assert_eq!(state, before);
    }
}

#[test]
fn mode_and_quit_characters_are_never_typed() {
    let mut state = AppState::new();
    handle_key_press(Key::Char('2'), &mut state, 0);
    assert_eq!(state.gcode_input, "");
    handle_key_press(Key::Char('q'), &mut state, 0);
    assert_eq!(state.gcode_input, "");
    handle_key_press(Key::Char('Q'), &mut state, 0);
    handle_key_press(Key::Char('3'), &mut state, 0);
    assert_eq!(state.gcode_input, "Q3");
}

#[test]
fn other_keys_in_gcode_mode_only_redraw() {
    let mut state = AppState::new();
    type_keys(&mut state, "G");
    let before = state.clone();
    assert_eq!(handle_key_press(Key::Other, &mut state, 0), KeyAction::Redraw);
    assert_eq!(state, before);
}

#[test]
fn sent_text_may_hold_any_character() {
    let mut state = AppState::new();
    type_keys(&mut state, "M5 \u{e9}t\u{e9}\t\u{1f600}");
    let action = handle_key_press(Key::Enter, &mut state, 0);
    assert_eq!(action, KeyAction::Send("M5 \u{e9}t\u{e9}\t\u{1f600}\n".to_string()));
    assert_eq!(state.last_command, Some("Sent: M5 \u{e9}t\u{e9}\t\u{1f600}".to_string()));
}

#[test]
fn serial_to_gcode_types_the_line_as_given() {
    let mut state = AppState::new();
    let mut sink = vec![InputEvent::KeyUp(1)];
    serial_to_gcode(" G0 ", &mut state, 11, &mut sink);
    let mut expected = vec![InputEvent::KeyUp(1)];
    expected.extend(typed(" G0 "));
    assert_eq!(sink, expected);
    assert_eq!(state.last_command, Some("Typed:  G0 ".to_string()));
    assert_eq!(state.last_command_time, Some(11));
}

#[test]
fn serial_to_gcode_of_an_empty_line_presses_enter() {
    let mut state = AppState::new();
    let mut sink = Vec::new();
    serial_to_gcode("", &mut state, 0, &mut sink);
    assert_eq!(sink, vec![InputEvent::KeyDown(VK_RETURN), InputEvent::KeyUp(VK_RETURN)]);
    assert_eq!(state.last_command, Some("Typed: ".to_string()));
}

#[test]
fn serial_to_arrow_reports_a_match() {
    let mut state = in_mode(Mode::Arrow);
    let mut sink = Vec::new();
    assert!(serial_to_arrow("G91G0Z2", &mut state, 1, &mut sink));
    assert_eq!(sink, nested(VK_PAGEUP));
}

#[test]
fn serial_to_arrow_trims_and_strips_the_label() {
    let mut state = in_mode(Mode::Arrow);
    let mut sink = Vec::new();
    assert!(serial_to_arrow("  GCODE: G91G0X10.5\r\n", &mut state, 1, &mut sink));
    assert_eq!(state.last_command, Some("G91G0X10.5".to_string()));
    assert_eq!(sink, nested(VK_RIGHT));
}

#[test]
fn serial_to_arrow_records_text_that_is_no_jog() {
    let mut state = in_mode(Mode::Arrow);
    state.gcode_input = "G1".to_string();
    let mut sink = vec![InputEvent::KeyUp(1)];
    assert!(!serial_to_arrow("hello world", &mut state, 8, &mut sink));
    assert_eq!(sink, vec![InputEvent::KeyUp(1)]);
    assert_eq!(state.last_command, Some("hello world".to_string()));
    assert_eq!(state.last_command_time, Some(8));
    assert_eq!(state.gcode_input, "G1");
    assert!(!serial_to_arrow("hello world", &mut state, 9, &mut sink));
    assert_eq!(sink, vec![InputEvent::KeyUp(1)]);
}

#[test]
fn serial_to_arrow_ignores_a_magnitude_it_cannot_read() {
    let mut state = in_mode(Mode::Arrow);
    let mut sink = Vec::new();
    assert!(!serial_to_arrow("G91G0X\u{0663}", &mut state, 0, &mut sink));
    assert!(sink.is_empty());
    assert_eq!(state.last_command, Some("G91G0X\u{0663}".to_string()));
}

#[test]
fn serial_to_arrow_treats_zero_as_not_positive() {
    let mut state = in_mode(Mode::Arrow);
    let mut sink = Vec::new();
    assert!(serial_to_arrow("G91G0Y0.0", &mut state, 0, &mut sink));
    assert_eq!(sink, nested(VK_DOWN));
}

#[test]
fn handle_serial_line_trims_before_typing() {
    let mut state = AppState::new();
    let mut sink = Vec::new();
    handle_serial_line("\t G0 X1 \r\n", &mut state, 0, &mut sink);
    assert_eq!(sink, typed("G0 X1"));
    assert_eq!(state.last_command, Some("Typed: G0 X1".to_string()));
}

#[test]
fn handle_serial_line_keeps_mode_and_pending_text() {
    for mode in [Mode::Arrow, Mode::Gcode] {
        let mut state = in_mode(mode);
        state.connected = true;
        state.gcode_input = "G1".to_string();
        let mut sink = Vec::new();
        handle_serial_line("G91G0X1", &mut state, 0, &mut sink);
        assert_eq!(state.mode, mode);
        assert!(state.connected);
        assert_eq!(state.gcode_input, "G1");
    }
}

#[test]
fn tick_without_input_does_nothing() {
    let mut state = AppState::new();
    let mut sink = Vec::new();
    let outcome = run_tick(&mut state, None, None, 5, &mut sink);
    assert_eq!(outcome, TickOutcome { quit: false, redraw: false, outbound: None });
    assert_eq!(state, AppState::new());
    assert!(sink.is_empty());
}

#[test]
fn tick_handles_the_line_before_the_key() {
    let mut state = AppState::new();
    let mut sink = Vec::new();
    let outcome = run_tick(&mut state, Some("G91G0X1"), Some(Key::Char('1')), 5, &mut sink);
    assert_eq!(sink, typed("G91G0X1"));
    assert_eq!(state.mode, Mode::Arrow);
    assert_eq!(state.last_command, Some("Typed: G91G0X1".to_string()));
    assert_eq!(outcome, TickOutcome { quit: false, redraw: true, outbound: None });

    let outcome = run_tick(&mut state, Some("G91G0X1"), Some(Key::Char('2')), 6, &mut sink);
    let mut expected = typed("G91G0X1");
    expected.extend(nested(VK_RIGHT));
    assert_eq!(sink, expected);
    assert_eq!(state.mode, Mode::Gcode);
    assert_eq!(outcome, TickOutcome { quit: false, redraw: true, outbound: None });
}

#[test]
fn tick_with_a_line_asks_for_a_redraw() {
    let mut state = in_mode(Mode::Arrow);
    let mut sink = Vec::new();
    let outcome = run_tick(&mut state, Some("noise"), None, 5, &mut sink);
    assert_eq!(outcome, TickOutcome { quit: false, redraw: true, outbound: None });
    let outcome = run_tick(&mut state, None, Some(Key::Char('x')), 5, &mut sink);
    assert_eq!(outcome, TickOutcome { quit: false, redraw: false, outbound: None });
    assert!(sink.is_empty());
}

#[test]
fn tick_hands_out_the_text_to_send() {
    let mut state = AppState::new();
    let mut sink = Vec::new();
    run_tick(&mut state, None, Some(Key::Char('G')), 1, &mut sink);
    run_tick(&mut state, None, Some(Key::Char('0')), 2, &mut sink);
    let outcome = run_tick(&mut state, None, Some(Key::Enter), 3, &mut sink);
    assert_eq!(
        outcome,
        TickOutcome { quit: false, redraw: true, outbound: Some("G0\n".to_string()) }
    );
    assert!(sink.is_empty());
    assert_eq!(state.last_command, Some("Sent: G0".to_string()));
}

#[test]
fn tick_quits_after_handling_the_line() {
    let mut state = in_mode(Mode::Arrow);
    let mut sink = Vec::new();
    let outcome = run_tick(&mut state, Some("G91G0Y1"), Some(Key::Char('q')), 5, &mut sink);
    assert_eq!(outcome, TickOutcome { quit: true, redraw: true, outbound: None });
    assert_eq!(sink.len(), 4);
    let outcome = run_tick(&mut state, None, Some(Key::Char('q')), 5, &mut sink);
    assert_eq!(outcome, TickOutcome { quit: true, redraw: false, outbound: None });
}
