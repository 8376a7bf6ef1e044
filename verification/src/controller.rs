//! Game controller input, as the `XInputGetState` hook reads it: the state
//! of the buttons, sticks and triggers, and what the hook does with a
//! packet.
use vstd::prelude::*;

verus! {

pub const XINPUT_GAMEPAD_DPAD_UP: u16 = 0x0001;
pub const XINPUT_GAMEPAD_DPAD_DOWN: u16 = 0x0002;
pub const XINPUT_GAMEPAD_DPAD_LEFT: u16 = 0x0004;
pub const XINPUT_GAMEPAD_DPAD_RIGHT: u16 = 0x0008;
pub const XINPUT_GAMEPAD_START: u16 = 0x0010;
pub const XINPUT_GAMEPAD_BACK: u16 = 0x0020;
pub const XINPUT_GAMEPAD_LEFT_THUMB: u16 = 0x0040;
pub const XINPUT_GAMEPAD_RIGHT_THUMB: u16 = 0x0080;
pub const XINPUT_GAMEPAD_LEFT_SHOULDER: u16 = 0x0100;
pub const XINPUT_GAMEPAD_RIGHT_SHOULDER: u16 = 0x0200;
pub const XINPUT_GAMEPAD_A: u16 = 0x1000;
pub const XINPUT_GAMEPAD_B: u16 = 0x2000;
pub const XINPUT_GAMEPAD_X: u16 = 0x4000;
pub const XINPUT_GAMEPAD_Y: u16 = 0x8000;

/// The raw state of a gamepad: a button bit mask, the two triggers and the
/// two thumb sticks.
#[derive(Clone, Copy, Debug, PartialEq, Eq, Structural)]
pub struct Gamepad {
    pub buttons: u16,
    pub left_trigger: u8,
    pub right_trigger: u8,
    pub thumb_lx: i16,
    pub thumb_ly: i16,
    pub thumb_rx: i16,
    pub thumb_ry: i16,
}

/// One reading of a controller: its packet number, which changes when the
/// state does, and the gamepad state.
#[derive(Clone, Copy, Debug, PartialEq, Eq, Structural)]
pub struct XInputState {
    pub packet_number: u32,
    pub gamepad: Gamepad,
}

/// The state of a controller, one field per button, stick axis and trigger.
#[derive(Clone, Copy, Debug, PartialEq, Eq, Structural)]
pub struct ControllerState {
    pub up: bool,
    pub down: bool,
    pub left: bool,
    pub right: bool,
    pub start: bool,
    pub back: bool,
    pub l3: bool,
    pub r3: bool,
    pub lb: bool,
    pub rb: bool,
    pub a: bool,
    pub b: bool,
    pub x: bool,
    pub y: bool,
    pub left_stick_x: i16,
    pub left_stick_y: i16,
    pub right_stick_x: i16,
    pub right_stick_y: i16,
    pub lt: u8,
    pub rt: u8,
}

/// Whether the button `mask` is down in the bit mask `buttons`.
pub open spec fn pressed(buttons: u16, mask: u16) -> bool {
    buttons & mask != 0
}

/// The controller state that a gamepad reading shows.
pub open spec fn controller_state_of(g: Gamepad) -> ControllerState {
    ControllerState {
        up: pressed(g.buttons, XINPUT_GAMEPAD_DPAD_UP),
        down: pressed(g.buttons, XINPUT_GAMEPAD_DPAD_DOWN),
        left: pressed(g.buttons, XINPUT_GAMEPAD_DPAD_LEFT),
        right: pressed(g.buttons, XINPUT_GAMEPAD_DPAD_RIGHT),
        start: pressed(g.buttons, XINPUT_GAMEPAD_START),
        back: pressed(g.buttons, XINPUT_GAMEPAD_BACK),
        l3: pressed(g.buttons, XINPUT_GAMEPAD_LEFT_THUMB),
        r3: pressed(g.buttons, XINPUT_GAMEPAD_RIGHT_THUMB),
        lb: pressed(g.buttons, XINPUT_GAMEPAD_LEFT_SHOULDER),
        rb: pressed(g.buttons, XINPUT_GAMEPAD_RIGHT_SHOULDER),
        a: pressed(g.buttons, XINPUT_GAMEPAD_A),
        b: pressed(g.buttons, XINPUT_GAMEPAD_B),
        x: pressed(g.buttons, XINPUT_GAMEPAD_X),
        y: pressed(g.buttons, XINPUT_GAMEPAD_Y),
        left_stick_x: g.thumb_lx,
        left_stick_y: g.thumb_ly,
        right_stick_x: g.thumb_rx,
        right_stick_y: g.thumb_ry,
        lt: g.left_trigger,
        rt: g.right_trigger,
    }
}

impl Default for ControllerState {
    /// Nothing pressed, sticks centred, triggers released.
    fn default() -> (r: Self)
        ensures
            r == controller_state_of(
                Gamepad {
                    buttons: 0,
                    left_trigger: 0,
                    right_trigger: 0,
                    thumb_lx: 0,
                    thumb_ly: 0,
                    thumb_rx: 0,
                    thumb_ry: 0,
                },
            ),
    {
        let r = ControllerState {
            up: false,
            down: false,
            left: false,
            right: false,
            start: false,
            back: false,
            l3: false,
            r3: false,
            lb: false,
            rb: false,
            a: false,
            b: false,
            x: false,
            y: false,
            left_stick_x: 0,
            left_stick_y: 0,
            right_stick_x: 0,
            right_stick_y: 0,
            lt: 0,
            rt: 0,
        };
        assert(forall|m: u16| #[trigger] (0u16 & m) == 0u16) by (bit_vector);
        r
    }
}

fn button(buttons: u16, mask: u16) -> (r: bool)
    ensures
        r == pressed(buttons, mask),
{
    buttons & mask != 0
}

impl ControllerState {
    /// The controller state of an XInput reading.
    pub fn from_state(i: &XInputState) -> (r: Self)
        ensures
            r == controller_state_of(i.gamepad),
    {
        let g = i.gamepad;
        ControllerState {
            up: button(g.buttons, XINPUT_GAMEPAD_DPAD_UP),
            down: button(g.buttons, XINPUT_GAMEPAD_DPAD_DOWN),
            left: button(g.buttons, XINPUT_GAMEPAD_DPAD_LEFT),
            right: button(g.buttons, XINPUT_GAMEPAD_DPAD_RIGHT),
            start: button(g.buttons, XINPUT_GAMEPAD_START),
            back: button(g.buttons, XINPUT_GAMEPAD_BACK),
            l3: button(g.buttons, XINPUT_GAMEPAD_LEFT_THUMB),
            r3: button(g.buttons, XINPUT_GAMEPAD_RIGHT_THUMB),
            lb: button(g.buttons, XINPUT_GAMEPAD_LEFT_SHOULDER),
            rb: button(g.buttons, XINPUT_GAMEPAD_RIGHT_SHOULDER),
            a: button(g.buttons, XINPUT_GAMEPAD_A),
            b: button(g.buttons, XINPUT_GAMEPAD_B),
            x: button(g.buttons, XINPUT_GAMEPAD_X),
            y: button(g.buttons, XINPUT_GAMEPAD_Y),
            left_stick_x: g.thumb_lx,
            left_stick_y: g.thumb_ly,
            right_stick_x: g.thumb_rx,
            right_stick_y: g.thumb_ry,
            lt: g.left_trigger,
            rt: g.right_trigger,
        }
    }
}

/// What the `XInputGetState` hook does with a reading.
#[derive(Clone, Copy, Debug, PartialEq, Eq, Structural)]
pub struct XInputOutcome {
    /// Store the reading as the current controller state.
    pub store_state: bool,
    /// Hand the reading on to the game.
    pub forward_state: bool,
}

/// The hook stores a reading whose packet number differs from the last one
/// seen, and hands the reading to the game only while the UI does not
/// capture input.
pub fn xinput_outcome(packet_number: u32, last_packet_number: u32, is_capturing: bool) -> (r:
    XInputOutcome)
    ensures
        r.store_state == (packet_number != last_packet_number),
        r.forward_state == !is_capturing,
{
    XInputOutcome { store_state: packet_number != last_packet_number, forward_state: !is_capturing }
}

/// Each button of the controller state is its own bit of the reading's
/// button mask (d-pad up 0x1, down 0x2, left 0x4, right 0x8, start 0x10,
/// back 0x20, left stick 0x40, right stick 0x80, left shoulder 0x100, right
/// shoulder 0x200, A 0x1000, B 0x2000, X 0x4000, Y 0x8000), and the sticks
/// and triggers are the reading's own values.
pub proof fn lemma_controller_state_reads_the_gamepad(g: Gamepad)
    ensures
        ({
            let c = controller_state_of(g);
            let b = g.buttons;
            &&& c.up == (b & 0x0001u16 != 0) && c.down == (b & 0x0002u16 != 0)
            &&& c.left == (b & 0x0004u16 != 0) && c.right == (b & 0x0008u16 != 0)
            &&& c.start == (b & 0x0010u16 != 0) && c.back == (b & 0x0020u16 != 0)
            &&& c.l3 == (b & 0x0040u16 != 0) && c.r3 == (b & 0x0080u16 != 0)
            &&& c.lb == (b & 0x0100u16 != 0) && c.rb == (b & 0x0200u16 != 0)
            &&& c.a == (b & 0x1000u16 != 0) && c.b == (b & 0x2000u16 != 0)
            &&& c.x == (b & 0x4000u16 != 0) && c.y == (b & 0x8000u16 != 0)
            &&& c.left_stick_x == g.thumb_lx && c.left_stick_y == g.thumb_ly
            &&& c.right_stick_x == g.thumb_rx && c.right_stick_y == g.thumb_ry
            &&& c.lt == g.left_trigger && c.rt == g.right_trigger
        }),
{
}

} // verus!
