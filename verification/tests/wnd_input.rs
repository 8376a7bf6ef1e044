use hudhook::wnd_input::{
    handle_key_message, handle_raw_mouse_input, hiword, hiwordi, key_message_scan_code, loword,
    lowordi, map_vkey, raw_input_kind, raw_key_action, raw_scan_code, wheel_notches,
    wnd_proc_action, KeyEvent, KeyStates, MouseButton, MouseEvent, RawInputKind, RawKeyAction,
    UiKey, WndProcAction, RI_KEY_BREAK, RI_KEY_E0, RI_KEY_E1, RI_KEY_MAKE,
    RI_MOUSE_LEFT_BUTTON_DOWN, RI_MOUSE_RIGHT_BUTTON_UP, RI_MOUSE_WHEEL, RI_MOUSE_HWHEEL,
    VK_CONTROL, VK_LCONTROL, VK_LMENU, VK_LSHIFT, VK_MENU, VK_RCONTROL, VK_RMENU, VK_SHIFT,
};

fn no_keys() -> KeyStates {
    KeyStates {
        control: false,
        shift: false,
        menu: false,
        apps: false,
        lshift: false,
        rshift: false,
        lcontrol: false,
        rcontrol: false,
        lmenu: false,
        rmenu: false,
    }
}

#[test]
fn words_of_a_parameter() {
    assert_eq!(hiword(0x1234_5678), 0x1234);
    assert_eq!(loword(0x1234_5678), 0x5678);
    assert_eq!(hiwordi(0xFF88_0000), -120);
    assert_eq!(lowordi(0x0000_FFFF), -1);
    assert_eq!(lowordi(0x0000_7FFF), 0x7FFF);
}

#[test]
fn wheel_notches_round_towards_zero() {
    assert_eq!(wheel_notches(120), 1);
    assert_eq!(wheel_notches(240), 2);
    assert_eq!(wheel_notches(119), 0);
    assert_eq!(wheel_notches(-120), -1);
    assert_eq!(wheel_notches(-119), 0);
    assert_eq!(wheel_notches(-250), -2);
}

#[test]
fn modifier_keys_are_told_apart() {
    // Shift goes through the keyboard layout; 0 means no mapping.
    assert_eq!(map_vkey(VK_SHIFT, 0, VK_LSHIFT as u32), VK_LSHIFT);
    assert_eq!(map_vkey(VK_SHIFT, 0, 0), VK_SHIFT);
    // Control and alt by the extended-key bit.
    assert_eq!(map_vkey(VK_CONTROL, 0x0100_0000, 0), VK_RCONTROL);
    assert_eq!(map_vkey(VK_CONTROL, 0, 0), VK_LCONTROL);
    assert_eq!(map_vkey(VK_MENU, 0x0100_0000, 0), VK_RMENU);
    assert_eq!(map_vkey(VK_MENU, 0, 0), VK_LMENU);
    assert_eq!(map_vkey(0x41, 0x0100_0000, 7), 0x41);
    assert_eq!(key_message_scan_code(0x002A_0001), 0x2A);
}

#[test]
fn key_messages_give_key_and_modifier_events() {
    let events = handle_key_message(0x0100, 0x41, 0, 0, no_keys());
    assert_eq!(
        events,
        vec![
            KeyEvent { key: UiKey::Virtual(0x41), down: true },
            KeyEvent { key: UiKey::ModCtrl, down: false },
            KeyEvent { key: UiKey::ModShift, down: false },
            KeyEvent { key: UiKey::ModAlt, down: false },
            KeyEvent { key: UiKey::ModSuper, down: false },
        ]
    );
    // A key up for control, left control released and right control held.
    let mut ks = no_keys();
    ks.rcontrol = true;
    ks.control = true;
    let events = handle_key_message(0x0101, VK_CONTROL, 0, 0, ks);
    assert_eq!(events.len(), 5);
    assert_eq!(events[0], KeyEvent { key: UiKey::Virtual(VK_LCONTROL), down: false });
    // The key is mapped to VK_LCONTROL, which is not the generic control
    // key, so no side events follow.
    assert_eq!(events[1], KeyEvent { key: UiKey::ModCtrl, down: true });
}

#[test]
fn generic_shift_adds_side_events() {
    let mut ks = no_keys();
    ks.shift = true;
    ks.lshift = true;
    let events = handle_key_message(0x0100, VK_SHIFT, 0, 0, ks);
    assert_eq!(events.len(), 6);
    assert_eq!(events[0], KeyEvent { key: UiKey::Virtual(VK_SHIFT), down: true });
    assert_eq!(events[5], KeyEvent { key: UiKey::LeftShift, down: true });
}

#[test]
fn raw_keyboard_records() {
    assert_eq!(raw_scan_code(0x1D, RI_KEY_E0), 0xE01D);
    assert_eq!(raw_scan_code(0x1D, RI_KEY_E1), 0xE11D);
    assert_eq!(raw_scan_code(0x1D, 0), 0x1D);
    assert_eq!(
        raw_key_action(0x41, RI_KEY_MAKE, 0),
        Some(RawKeyAction { virtual_key: 0x41, key_down: true, key_up: false })
    );
    assert_eq!(
        raw_key_action(0x41, RI_KEY_BREAK, 0),
        Some(RawKeyAction { virtual_key: 0x41, key_down: false, key_up: true })
    );
    assert_eq!(
        raw_key_action(VK_SHIFT, RI_KEY_MAKE, 0xA1),
        Some(RawKeyAction { virtual_key: 0xA1, key_down: true, key_up: false })
    );
    assert_eq!(raw_key_action(0, RI_KEY_MAKE, 0), None);
    assert_eq!(raw_key_action(0xFF, RI_KEY_MAKE, 0), None);
}

#[test]
fn raw_mouse_records() {
    let events = handle_raw_mouse_input(
        RI_MOUSE_LEFT_BUTTON_DOWN | RI_MOUSE_RIGHT_BUTTON_UP | RI_MOUSE_WHEEL,
        240,
        0,
        5,
        -3,
    );
    assert_eq!(
        events,
        vec![
            MouseEvent::Button(MouseButton::Left, true),
            MouseEvent::Button(MouseButton::Right, false),
            MouseEvent::Wheel(2, 0),
            MouseEvent::Moved(5, -3),
        ]
    );
    let events = handle_raw_mouse_input(RI_MOUSE_HWHEEL, (-120i16) as u16, 1, 10, 20);
    assert_eq!(events, vec![MouseEvent::Wheel(0, -1), MouseEvent::Position(10, 20)]);
}

#[test]
fn raw_input_is_sorted_by_device() {
    assert_eq!(raw_input_kind(u32::MAX, 0, 0), RawInputKind::Ignore);
    assert_eq!(raw_input_kind(40, 1, 0), RawInputKind::Ignore);
    assert_eq!(raw_input_kind(40, 0, 0), RawInputKind::Mouse);
    assert_eq!(raw_input_kind(40, 0, 1), RawInputKind::Keyboard);
    assert_eq!(raw_input_kind(40, 0, 2), RawInputKind::Ignore);
}

#[test]
fn window_procedure_actions() {
    assert_eq!(wnd_proc_action(0x00FF, 0, 0), WndProcAction::RawInput);
    assert_eq!(wnd_proc_action(0x0100, 0x41, 0), WndProcAction::Key(0x0100));
    assert_eq!(wnd_proc_action(0x0100, 0x100, 0), WndProcAction::Nothing);
    assert_eq!(wnd_proc_action(0x0201, 0, 0), WndProcAction::MouseButton(MouseButton::Left, true));
    assert_eq!(wnd_proc_action(0x0205, 0, 0), WndProcAction::MouseButton(MouseButton::Right, false));
    assert_eq!(
        wnd_proc_action(0x020B, 0x0001_0000, 0),
        WndProcAction::MouseButton(MouseButton::Extra1, true)
    );
    assert_eq!(
        wnd_proc_action(0x020C, 0x0002_0000, 0),
        WndProcAction::MouseButton(MouseButton::Extra2, false)
    );
    assert_eq!(wnd_proc_action(0x020A, 0xFF88_0000, 0), WndProcAction::Wheel(false, -120));
    assert_eq!(wnd_proc_action(0x020E, 0x0078_0000, 0), WndProcAction::Wheel(true, 120));
    assert_eq!(wnd_proc_action(0x0200, 0, 0x0014_FFF6), WndProcAction::MousePosition(-10, 20));
    assert_eq!(wnd_proc_action(0x0102, 0x61, 0), WndProcAction::Character(0x61));
    assert_eq!(wnd_proc_action(0x0005, 0, 0x0300_0400), WndProcAction::Resize(0x400, 0x300));
    assert_eq!(wnd_proc_action(0x0010, 0, 0), WndProcAction::Nothing);
}
