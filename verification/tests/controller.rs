use hudhook::controller::{
    xinput_outcome, ControllerState, Gamepad, XInputOutcome, XInputState, XINPUT_GAMEPAD_A,
    XINPUT_GAMEPAD_DPAD_UP, XINPUT_GAMEPAD_LEFT_SHOULDER, XINPUT_GAMEPAD_Y,
};

#[test]
fn buttons_sticks_and_triggers_are_read() {
    let s = XInputState {
        packet_number: 7,
        gamepad: Gamepad {
            buttons: XINPUT_GAMEPAD_A | XINPUT_GAMEPAD_DPAD_UP | XINPUT_GAMEPAD_LEFT_SHOULDER,
            left_trigger: 10,
            right_trigger: 255,
            thumb_lx: -32768,
            thumb_ly: 32767,
            thumb_rx: 5,
            thumb_ry: -5,
        },
    };
    let c = ControllerState::from_state(&s);
    assert!(c.a && c.up && c.lb);
    assert!(!c.b && !c.x && !c.y && !c.down && !c.left && !c.right);
    assert!(!c.start && !c.back && !c.l3 && !c.r3 && !c.rb);
    assert_eq!((c.left_stick_x, c.left_stick_y, c.right_stick_x, c.right_stick_y), (-32768, 32767, 5, -5));
    assert_eq!((c.lt, c.rt), (10, 255));
}

#[test]
fn single_button_and_default() {
    let mut g = Gamepad { buttons: XINPUT_GAMEPAD_Y, left_trigger: 0, right_trigger: 0, thumb_lx: 0, thumb_ly: 0, thumb_rx: 0, thumb_ry: 0 };
    let c = ControllerState::from_state(&XInputState { packet_number: 0, gamepad: g });
    assert!(c.y && !c.a && !c.b && !c.x);
    g.buttons = 0;
    let idle = ControllerState::from_state(&XInputState { packet_number: 0, gamepad: g });
    assert_eq!(idle, ControllerState::default());
}

#[test]
fn xinput_hook_outcomes() {
    assert_eq!(xinput_outcome(5, 0, false), XInputOutcome { store_state: true, forward_state: true });
    assert_eq!(xinput_outcome(0, 0, true), XInputOutcome { store_state: false, forward_state: false });
}
