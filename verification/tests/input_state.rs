use hudhook::input_state::{
    message_fits, Input, KeyTranslation, MessageOutcome, Point, RawRecord, WindowMessage,
    KEY_DOWN, KEY_UP,
};

fn msg(message: u32, wparam: usize, lparam: isize) -> WindowMessage {
    WindowMessage { message, wparam, lparam, pt: Point { x: 3, y: 4 }, raw: None, mapped_vk: 0 }
}

#[test]
fn a_new_input_state_is_idle() {
    let mut input = Input::new();
    assert!(!input.is_blocking_mouse_input());
    assert!(!input.is_blocking_keyboard_input());
    assert_eq!(input.keys().len(), 256);
    assert!(input.keys().iter().all(|&k| k == KEY_UP));
    assert!(!input.is_key_down(0x41));
    assert!(!input.is_mouse_button_down(0));
    assert!(!input.is_mouse_button_down(253));
    assert_eq!(input.get_input_character(), 0);
    assert_eq!(input.get_mouse_wheel_delta(), 0);
    assert_eq!(input.get_mouse_wheel_delta_h(), 0);
    assert_eq!(input.get_mouse_position(), Point { x: 0, y: 0 });
    assert_eq!(input.get_last_mouse_position(), Point { x: 0, y: 0 });
}

#[test]
fn getters_take_pending_values() {
    let mut input = Input::new();
    input.set_input_character(b'a');
    assert_eq!(input.get_input_character(), b'a');
    assert_eq!(input.get_input_character(), 0);
    input.set_mouse_wheel_delta(3);
    assert_eq!(input.get_mouse_wheel_delta(), 3);
    assert_eq!(input.get_mouse_wheel_delta(), 0);
    // Horizontal movement is recorded in the vertical slot.
    input.set_mouse_wheel_delta_h(-2);
    assert_eq!(input.get_mouse_wheel_delta_h(), 0);
    assert_eq!(input.get_mouse_wheel_delta(), -2);
    input.set_mouse_position(Point { x: 10, y: -5 });
    input.set_last_mouse_position(Point { x: 1, y: 2 });
    assert_eq!(input.get_mouse_position(), Point { x: 10, y: -5 });
    assert_eq!(input.get_last_mouse_position(), Point { x: 1, y: 2 });
    input.block_mouse_input(true);
    input.block_keyboard_input(true);
    assert!(input.is_blocking_mouse_input());
    assert!(input.is_blocking_keyboard_input());
}

#[test]
fn key_press_then_release() {
    let mut input = Input::new();
    let out = input.handle_window_message(msg(0x0100, 0x41, 0));
    assert_eq!(out, MessageOutcome { blocked: false, translate: None });
    assert!(input.is_key_down(0x41));
    assert_eq!(input.keys()[0x41], KEY_DOWN);
    assert_eq!(input.get_mouse_position(), Point { x: 3, y: 4 });
    input.handle_window_message(msg(0x0101, 0x41, 0));
    assert!(!input.is_key_down(0x41));
}

#[test]
fn blocked_input_is_kept_from_the_host() {
    let mut input = Input::new();
    input.block_keyboard_input(true);
    assert!(input.handle_window_message(msg(0x0100, 0x41, 0)).blocked);
    assert!(input.handle_window_message(msg(0x0102, 0x61, 0)).blocked);
    assert!(!input.handle_window_message(msg(0x0201, 0, 0)).blocked);
    input.block_mouse_input(true);
    assert!(input.handle_window_message(msg(0x0201, 0, 0)).blocked);
    assert!(input.is_mouse_button_down(0));
    // A message that is neither input nor raw input passes untouched.
    let out = input.handle_window_message(msg(0x0005, 0, 0x0300_0400));
    assert_eq!(out, MessageOutcome { blocked: false, translate: None });
}

#[test]
fn wheel_and_characters() {
    let mut input = Input::new();
    input.handle_window_message(msg(0x020A, 0x00F0_0000, 0));
    assert_eq!(input.get_mouse_wheel_delta(), 2);
    input.handle_window_message(msg(0x0102, 0x7A, 0));
    assert_eq!(input.get_input_character(), b'z');
    input.handle_window_message(msg(0x020B, 0x0002_0000, 0));
    assert!(input.is_mouse_button_down(4));
    input.handle_window_message(msg(0x020C, 0x0002_0000, 0));
    assert!(!input.is_mouse_button_down(4));
}

#[test]
fn raw_keyboard_input_asks_for_a_translation() {
    let mut input = Input::new();
    let mut m = msg(0x00FF, 0, 0);
    m.raw = Some(RawRecord::Keyboard { vkey: 0x41, make_code: 0x1E, flags: 0 });
    let out = input.handle_window_message(m);
    assert_eq!(out.translate, Some(KeyTranslation { virtual_key: 0x41, scan_code: 0x1E }));
    assert!(input.is_key_down(0x41));
    m.raw = Some(RawRecord::Keyboard { vkey: 0x41, make_code: 0x1E, flags: 1 });
    let out = input.handle_window_message(m);
    assert_eq!(out.translate, None);
    assert!(!input.is_key_down(0x41));
    // Background raw input (wparam not RIM_INPUT) is ignored.
    let mut bg = msg(0x00FF, 1, 0);
    bg.raw = Some(RawRecord::Keyboard { vkey: 0x42, make_code: 0x30, flags: 0 });
    assert_eq!(input.handle_window_message(bg).translate, None);
    assert!(!input.is_key_down(0x42));
}

#[test]
fn raw_mouse_input_updates_buttons_and_wheel() {
    let mut input = Input::new();
    let mut m = msg(0x00FF, 0, 0);
    m.raw = Some(RawRecord::Mouse { button_flags: 0x0001 | 0x0400, button_data: 120 });
    input.handle_window_message(m);
    assert!(input.is_mouse_button_down(0));
    assert_eq!(input.get_mouse_wheel_delta(), 1);
    m.raw = Some(RawRecord::Mouse { button_flags: 0x0002, button_data: 0 });
    input.handle_window_message(m);
    assert!(!input.is_mouse_button_down(0));
}

#[test]
fn messages_that_fit_the_key_table() {
    assert!(message_fits(&msg(0x0100, 0x41, 0)));
    assert!(message_fits(&msg(0x020B, 0x0001_0000, 0)));
    // An extra-button message that names no button does not fit.
    assert!(!message_fits(&msg(0x020B, 0, 0)));
    let mut shift = msg(0x0100, 0x10, 0);
    shift.mapped_vk = 0x1A0;
    assert!(!message_fits(&shift));
    shift.mapped_vk = 0xA0;
    assert!(message_fits(&shift));
}
