//! The input state that the hooks keep for the overlay from the messages of
//! the host's message loop, and the decision of which of those messages the
//! host must not see.
use vstd::prelude::*;
use crate::msg_filter::{
    WM_CHAR, WM_INPUT, WM_KEYDOWN, WM_KEYFIRST, WM_KEYLAST, WM_KEYUP, WM_LBUTTONDBLCLK,
    WM_LBUTTONDOWN, WM_LBUTTONUP, WM_MBUTTONDBLCLK, WM_MBUTTONDOWN, WM_MBUTTONUP, WM_MOUSEFIRST,
    WM_MOUSEHWHEEL, WM_MOUSELAST, WM_MOUSEWHEEL, WM_RBUTTONDBLCLK, WM_RBUTTONDOWN, WM_RBUTTONUP,
    WM_SYSKEYDOWN, WM_SYSKEYUP, WM_XBUTTONDBLCLK, WM_XBUTTONDOWN, WM_XBUTTONUP,
};
use crate::wnd_input::{
    hiword, hiwordi, map_vkey, raw_scan_code, signed_word, spec_map_vkey, spec_raw_scan_code,
    wheel_notches, wheel_steps, RIM_INPUT, RI_KEY_BREAK, RI_MOUSE_BUTTON_4_DOWN,
    RI_MOUSE_BUTTON_4_UP, RI_MOUSE_BUTTON_5_DOWN, RI_MOUSE_BUTTON_5_UP, RI_MOUSE_HWHEEL,
    RI_MOUSE_LEFT_BUTTON_DOWN, RI_MOUSE_LEFT_BUTTON_UP, RI_MOUSE_MIDDLE_BUTTON_DOWN,
    RI_MOUSE_MIDDLE_BUTTON_UP, RI_MOUSE_RIGHT_BUTTON_DOWN, RI_MOUSE_RIGHT_BUTTON_UP,
    RI_MOUSE_WHEEL, VK_CONTROL, VK_LBUTTON, VK_MBUTTON, VK_MENU, VK_RBUTTON, VK_SHIFT,
    VK_XBUTTON1, VK_XBUTTON2,
};

verus! {

/// Key state byte of a key that is down.
pub const KEY_DOWN: u8 = 0x88u8;
/// Key state byte of a key that is up.
pub const KEY_UP: u8 = 0x08u8;

/// A point in screen coordinates.
#[derive(Debug, Clone, Copy, PartialEq, Eq, Structural)]
pub struct Point {
    pub x: i32,
    pub y: i32,
}

/// The overlay's view of the keyboard and mouse.
pub struct Input {
    block_mouse: bool,
    block_keyboard: bool,
    keys: Vec<u8>,
    input_character: u8,
    mouse_wheel_delta: i16,
    mouse_wheel_delta_h: i16,
    mouse_position: Point,
    last_mouse_position: Point,
}

/// The contents of an [`Input`].
pub struct InputView {
    pub block_mouse: bool,
    pub block_keyboard: bool,
    pub keys: Seq<u8>,
    pub input_character: u8,
    pub mouse_wheel_delta: i16,
    pub mouse_wheel_delta_h: i16,
    pub mouse_position: Point,
    pub last_mouse_position: Point,
}

impl View for Input {
    type V = InputView;

    closed spec fn view(&self) -> InputView {
        InputView {
            block_mouse: self.block_mouse,
            block_keyboard: self.block_keyboard,
            keys: self.keys@,
            input_character: self.input_character,
            mouse_wheel_delta: self.mouse_wheel_delta,
            mouse_wheel_delta_h: self.mouse_wheel_delta_h,
            mouse_position: self.mouse_position,
            last_mouse_position: self.last_mouse_position,
        }
    }
}

/// The key state byte says the key is down.
pub open spec fn key_is_down(b: u8) -> bool {
    b & 0x80 == 0x80
}

/// The index in the key table of mouse button `button` (0 left, 1 right,
/// 2 middle, 3 and 4 the extra buttons): the virtual key codes of the mouse
/// buttons, which skip the code of the cancel key.
pub open spec fn mouse_button_key(button: int) -> int {
    if button < 2 {
        VK_LBUTTON + button
    } else {
        VK_LBUTTON + button + 1
    }
}

impl InputView {
    /// A table of 256 key state bytes.
    pub open spec fn wf(self) -> bool {
        self.keys.len() == 256
    }
}

impl Input {
    /// No key down, no input blocked.
    pub fn new() -> (r: Self)
        ensures
            r@.wf(),
            !r@.block_mouse,
            !r@.block_keyboard,
            forall|i: int| 0 <= i < 256 ==> r@.keys[i] == KEY_UP,
            r@.input_character == 0,
            r@.mouse_wheel_delta == 0,
            r@.mouse_wheel_delta_h == 0,
            r@.mouse_position == (Point { x: 0, y: 0 }),
            r@.last_mouse_position == (Point { x: 0, y: 0 }),
    {
        Input {
            block_mouse: false,
            block_keyboard: false,
            keys: vec![KEY_UP; 256],
            input_character: 0,
            mouse_wheel_delta: 0,
            mouse_wheel_delta_h: 0,
            mouse_position: Point { x: 0, y: 0 },
            last_mouse_position: Point { x: 0, y: 0 },
        }
    }

    pub fn is_blocking_mouse_input(&self) -> (r: bool)
        ensures
            r == self@.block_mouse,
    {
        self.block_mouse
    }

    pub fn block_mouse_input(&mut self, enabled: bool)
        ensures
            final(self)@ == (InputView { block_mouse: enabled, ..old(self)@ }),
    {
        self.block_mouse = enabled;
    }

    pub fn is_blocking_keyboard_input(&self) -> (r: bool)
        ensures
            r == self@.block_keyboard,
    {
        self.block_keyboard
    }

    pub fn block_keyboard_input(&mut self, enabled: bool)
        ensures
            final(self)@ == (InputView { block_keyboard: enabled, ..old(self)@ }),
    {
        self.block_keyboard = enabled;
    }

    /// Whether the key with this virtual key code is down.
    pub fn is_key_down(&self, keycode: usize) -> (r: bool)
        requires
            self@.wf(),
            keycode < 256,
        ensures
            r == key_is_down(self@.keys[keycode as int]),
    {
        (self.keys[keycode] & 0x80) == 0x80
    }

    /// Whether mouse button `button` (0 left, 1 right, 2 middle, 3 and 4 the
    /// extra buttons) is down.
    pub fn is_mouse_button_down(&self, button: usize) -> (r: bool)
        requires
            self@.wf(),
            button < 254,
        ensures
            r == key_is_down(self@.keys[mouse_button_key(button as int)]),
    {
        if button < 2 {
            self.is_key_down(VK_LBUTTON as usize + button)
        } else {
            self.is_key_down(VK_LBUTTON as usize + button + 1)
        }
    }

    /// Takes the pending input character, leaving none.
    pub fn get_input_character(&mut self) -> (r: u8)
        ensures
            r == old(self)@.input_character,
            final(self)@ == (InputView { input_character: 0, ..old(self)@ }),
    {
        let c = self.input_character;
        self.input_character = 0;
        c
    }

    pub fn set_input_character(&mut self, new_input_character: u8)
        ensures
            final(self)@ == (InputView { input_character: new_input_character, ..old(self)@ }),
    {
        self.input_character = new_input_character;
    }

    /// Takes the pending vertical wheel movement, in notches, leaving none.
    pub fn get_mouse_wheel_delta(&mut self) -> (r: i16)
        ensures
            r == old(self)@.mouse_wheel_delta,
            final(self)@ == (InputView { mouse_wheel_delta: 0, ..old(self)@ }),
    {
        let d = self.mouse_wheel_delta;
        self.mouse_wheel_delta = 0;
        d
    }

    pub fn set_mouse_wheel_delta(&mut self, new_mouse_wheel_delta: i16)
        ensures
            final(self)@ == (InputView { mouse_wheel_delta: new_mouse_wheel_delta, ..old(self)@ }),
    {
        self.mouse_wheel_delta = new_mouse_wheel_delta;
    }

    /// Takes the pending horizontal wheel movement, in notches, leaving none.
    pub fn get_mouse_wheel_delta_h(&mut self) -> (r: i16)
        ensures
            r == old(self)@.mouse_wheel_delta_h,
            final(self)@ == (InputView { mouse_wheel_delta_h: 0, ..old(self)@ }),
    {
        let d = self.mouse_wheel_delta_h;
        self.mouse_wheel_delta_h = 0;
        d
    }

    /// Records horizontal wheel movement. It is stored in the same slot as
    /// the vertical movement.
    pub fn set_mouse_wheel_delta_h(&mut self, new_mouse_wheel_delta: i16)
        ensures
            final(self)@ == (InputView { mouse_wheel_delta: new_mouse_wheel_delta, ..old(self)@ }),
    {
        self.mouse_wheel_delta = new_mouse_wheel_delta;
    }

    pub fn get_mouse_position(&self) -> (r: Point)
        ensures
            r == self@.mouse_position,
    {
        self.mouse_position
    }

    pub fn set_mouse_position(&mut self, new_position: Point)
        ensures
            final(self)@ == (InputView { mouse_position: new_position, ..old(self)@ }),
    {
        self.mouse_position = new_position;
    }

    pub fn get_last_mouse_position(&self) -> (r: Point)
        ensures
            r == self@.last_mouse_position,
    {
        self.last_mouse_position
    }

    pub fn set_last_mouse_position(&mut self, new_position: Point)
        ensures
            final(self)@ == (InputView { last_mouse_position: new_position, ..old(self)@ }),
    {
        self.last_mouse_position = new_position;
    }

    /// The key state table, as the layout's character translation reads it.
    pub fn keys(&self) -> (r: &[u8])
        ensures
            r@ == self@.keys,
    {
        self.keys.as_slice()
    }
}

// ---------------------------------------------------------------------------
// Message handling
// ---------------------------------------------------------------------------

/// The payload of a raw input message, as read from the system.
#[derive(Debug, Clone, Copy, PartialEq, Eq, Structural)]
pub enum RawRecord {
    Mouse { button_flags: u16, button_data: u16 },
    Keyboard { vkey: u16, make_code: u16, flags: u16 },
    Other,
}

/// A message from the host's message loop, with what the system reports
/// about it: `raw` is the raw input record of a `WM_INPUT` message (`None`
/// when it could not be read), `mapped_vk` the virtual key that the keyboard
/// layout gives for the message's scan code.
#[derive(Debug, Clone, Copy, PartialEq, Eq, Structural)]
pub struct WindowMessage {
    pub message: u32,
    pub wparam: usize,
    pub lparam: isize,
    pub pt: Point,
    pub raw: Option<RawRecord>,
    pub mapped_vk: u32,
}

/// A key whose character the keyboard layout must translate.
#[derive(Debug, Clone, Copy, PartialEq, Eq, Structural)]
pub struct KeyTranslation {
    pub virtual_key: u32,
    pub scan_code: u32,
}

/// What handling a message decided.
#[derive(Debug, Clone, Copy, PartialEq, Eq, Structural)]
pub struct MessageOutcome {
    /// The host must not see the message.
    pub blocked: bool,
    /// A key press whose character the layout must translate against the
    /// updated key table; a non-zero translation is the new input character.
    pub translate: Option<KeyTranslation>,
}

pub open spec fn is_mouse_message(msg: u32) -> bool {
    WM_MOUSEFIRST <= msg <= WM_MOUSELAST
}

pub open spec fn is_keyboard_message(msg: u32) -> bool {
    WM_KEYFIRST <= msg <= WM_KEYLAST
}

pub open spec fn is_key_message(m: WindowMessage) -> bool {
    (m.message == WM_KEYDOWN || m.message == WM_SYSKEYDOWN || m.message == WM_KEYUP || m.message
        == WM_SYSKEYUP) && m.wparam < 256
}

/// The raw keyboard record's key code after layout mapping of the generic
/// shift, control and alt keys.
pub open spec fn raw_virtual_key(vkey: u16, mapped: u32) -> u16 {
    if vkey == VK_SHIFT || vkey == VK_CONTROL || vkey == VK_MENU {
        if mapped == 0 {
            vkey
        } else {
            (mapped % 0x10000) as u16
        }
    } else {
        vkey
    }
}

/// The foreground window's raw input is readable for this message.
pub open spec fn raw_readable(m: WindowMessage) -> bool {
    (m.wparam as u32) & 0xFF == RIM_INPUT && m.raw is Some
}

/// The key table index of an extra-button message.
pub open spec fn x_button_key(m: WindowMessage) -> int {
    VK_XBUTTON1 + (m.wparam as u32) / 0x10000 - 1
}

/// The messages that the handler can process without indexing past the key
/// table: mapped keys and extra-button indices stay below 256, and an
/// extra-button message names a button (its high word is at least 1).
pub open spec fn message_in_range(m: WindowMessage) -> bool {
    &&& is_key_message(m) ==> spec_map_vkey(m.wparam as u16, m.lparam as usize, m.mapped_vk)
        < 256
    &&& (m.message == WM_INPUT && raw_readable(m)) ==> match m.raw {
        Some(RawRecord::Keyboard { vkey, make_code, flags }) => (vkey != 0 && vkey < 0xFF)
            ==> raw_virtual_key(vkey, m.mapped_vk) < 256,
        _ => true,
    }
    &&& (m.message == WM_XBUTTONDOWN || m.message == WM_XBUTTONDBLCLK || m.message
        == WM_XBUTTONUP) ==> 1 <= (m.wparam as u32) / 0x10000 && x_button_key(m) < 256
}

/// The key table after the raw mouse button flags: for each button, a down
/// flag presses it, otherwise an up flag releases it.
pub open spec fn raw_mouse_keys(keys: Seq<u8>, f: u16) -> Seq<u8> {
    let k1 = button_update(keys, f, RI_MOUSE_LEFT_BUTTON_DOWN, RI_MOUSE_LEFT_BUTTON_UP, VK_LBUTTON);
    let k2 = button_update(k1, f, RI_MOUSE_RIGHT_BUTTON_DOWN, RI_MOUSE_RIGHT_BUTTON_UP, VK_RBUTTON);
    let k3 = button_update(
        k2,
        f,
        RI_MOUSE_MIDDLE_BUTTON_DOWN,
        RI_MOUSE_MIDDLE_BUTTON_UP,
        VK_MBUTTON,
    );
    let k4 = button_update(k3, f, RI_MOUSE_BUTTON_4_DOWN, RI_MOUSE_BUTTON_4_UP, VK_XBUTTON1);
    button_update(k4, f, RI_MOUSE_BUTTON_5_DOWN, RI_MOUSE_BUTTON_5_UP, VK_XBUTTON2)
}

pub open spec fn button_update(keys: Seq<u8>, f: u16, down: u16, up: u16, vk: u16) -> Seq<u8> {
    if f & down != 0 {
        keys.update(vk as int, KEY_DOWN)
    } else if f & up != 0 {
        keys.update(vk as int, KEY_UP)
    } else {
        keys
    }
}

/// The state and outcome after a raw input message, given the state after
/// the pointer position was recorded.
pub open spec fn after_raw_input(v: InputView, m: WindowMessage) -> (InputView, MessageOutcome) {
    let idle = MessageOutcome {
        blocked: v.block_mouse && is_mouse_message(m.message) || v.block_keyboard
            && is_keyboard_message(m.message),
        translate: None,
    };
    if !raw_readable(m) {
        (v, idle)
    } else {
        match m.raw {
            Some(RawRecord::Mouse { button_flags, button_data }) => {
                let notches = wheel_steps((button_data as i16) as int) as i16;
                let wheel = if button_flags & RI_MOUSE_HWHEEL != 0 {
                    notches
                } else if button_flags & RI_MOUSE_WHEEL != 0 {
                    notches
                } else {
                    v.mouse_wheel_delta
                };
                (
                    InputView {
                        keys: raw_mouse_keys(v.keys, button_flags),
                        mouse_wheel_delta: wheel,
                        ..v
                    },
                    MessageOutcome { blocked: v.block_mouse || idle.blocked, translate: None },
                )
            },
            Some(RawRecord::Keyboard { vkey, make_code, flags }) => {
                if vkey == 0 {
                    (v, idle)
                } else {
                    let vk = raw_virtual_key(vkey, m.mapped_vk);
                    let released = flags & RI_KEY_BREAK != 0;
                    let passes = v.block_keyboard && released && vk < 0xFF && v.keys[vk as int]
                        & 0x04 == 0;
                    let keys = if vkey < 0xFF {
                        v.keys.update(
                            vk as int,
                            if released {
                                KEY_UP
                            } else {
                                KEY_DOWN
                            },
                        )
                    } else {
                        v.keys
                    };
                    (
                        InputView { keys, ..v },
                        MessageOutcome {
                            blocked: v.block_mouse && is_mouse_message(m.message) || v.block_keyboard
                                && !passes,
                            translate: if released {
                                None
                            } else {
                                Some(KeyTranslation { virtual_key: vk as u32, scan_code: spec_raw_scan_code(make_code, flags) })
                            },
                        },
                    )
                }
            },
            _ => (v, idle),
        }
    }
}

/// The state and outcome after a message that is not raw input, given the
/// state after the pointer position was recorded.
pub open spec fn after_message(v: InputView, m: WindowMessage) -> (InputView, MessageOutcome) {
    let msg = m.message;
    let blocked_as_is = v.block_mouse && is_mouse_message(msg) || v.block_keyboard
        && is_keyboard_message(msg);
    let idle = MessageOutcome { blocked: blocked_as_is, translate: None };
    let notches = wheel_steps(signed_word(((m.wparam as u32) / 0x10000) as int)) as i16;
    if is_key_message(m) {
        let down = msg == WM_KEYDOWN || msg == WM_SYSKEYDOWN;
        let kc = spec_map_vkey(m.wparam as u16, m.lparam as usize, m.mapped_vk) as int;
        if down {
            (InputView { keys: v.keys.update(kc, KEY_DOWN), ..v }, idle)
        } else {
            let passes = v.block_keyboard && v.keys[kc] & 0x04 == 0;
            (
                InputView { keys: v.keys.update(kc, KEY_UP), ..v },
                MessageOutcome { blocked: blocked_as_is && !passes, translate: None },
            )
        }
    } else if msg == WM_LBUTTONDOWN || msg == WM_LBUTTONDBLCLK {
        (InputView { keys: v.keys.update(VK_LBUTTON as int, KEY_DOWN), ..v }, idle)
    } else if msg == WM_LBUTTONUP {
        (InputView { keys: v.keys.update(VK_LBUTTON as int, KEY_UP), ..v }, idle)
    } else if msg == WM_RBUTTONDOWN || msg == WM_RBUTTONDBLCLK {
        (InputView { keys: v.keys.update(VK_RBUTTON as int, KEY_DOWN), ..v }, idle)
    } else if msg == WM_RBUTTONUP {
        (InputView { keys: v.keys.update(VK_RBUTTON as int, KEY_UP), ..v }, idle)
    } else if msg == WM_MBUTTONDOWN || msg == WM_MBUTTONDBLCLK {
        (InputView { keys: v.keys.update(VK_MBUTTON as int, KEY_DOWN), ..v }, idle)
    } else if msg == WM_MBUTTONUP {
        (InputView { keys: v.keys.update(VK_MBUTTON as int, KEY_UP), ..v }, idle)
    } else if msg == WM_XBUTTONDOWN || msg == WM_XBUTTONDBLCLK {
        (InputView { keys: v.keys.update(x_button_key(m), KEY_DOWN), ..v }, idle)
    } else if msg == WM_XBUTTONUP {
        (InputView { keys: v.keys.update(x_button_key(m), KEY_UP), ..v }, idle)
    } else if msg == WM_MOUSEWHEEL || msg == WM_MOUSEHWHEEL {
        (InputView { mouse_wheel_delta: notches, ..v }, idle)
    } else if msg == WM_CHAR {
        (InputView { input_character: m.wparam as u8, ..v }, idle)
    } else {
        (v, idle)
    }
}

/// The state and outcome after the host's message loop saw `m`: messages
/// that are neither raw input, mouse nor keyboard messages change nothing
/// and pass; the others record the pointer position, update the key table
/// and the pending wheel movement or character, and are blocked when the
/// kind of input they carry is blocked (a key release passes when the key's
/// press was not blocked).
pub open spec fn handled(v: InputView, m: WindowMessage) -> (InputView, MessageOutcome) {
    let msg = m.message;
    if msg != WM_INPUT && !is_mouse_message(msg) && !is_keyboard_message(msg) {
        (v, MessageOutcome { blocked: false, translate: None })
    } else {
        let v1 = InputView { mouse_position: m.pt, ..v };
        if msg == WM_INPUT {
            after_raw_input(v1, m)
        } else {
            after_message(v1, m)
        }
    }
}

/// Whether `m` is a message that [`Input::handle_window_message`] can take:
/// its key codes and extra-button indices stay inside the key table.
pub fn message_fits(m: &WindowMessage) -> (r: bool)
    ensures
        r == message_in_range(*m),
{
    let msg = m.message;
    let key_ok = if (msg == WM_KEYDOWN || msg == WM_SYSKEYDOWN || msg == WM_KEYUP || msg
        == WM_SYSKEYUP) && m.wparam < 256 {
        map_vkey(m.wparam as u16, m.lparam as usize, m.mapped_vk) < 256
    } else {
        true
    };
    let raw_ok = if msg == WM_INPUT && (m.wparam as u32) & 0xFF == RIM_INPUT {
        match m.raw {
            Some(RawRecord::Keyboard { vkey, make_code, flags }) => {
                if vkey != 0 && vkey < 0xFF {
                    let vk: u16 = if vkey == VK_SHIFT || vkey == VK_CONTROL || vkey == VK_MENU {
                        if m.mapped_vk == 0 {
                            vkey
                        } else {
                            (m.mapped_vk % 0x10000) as u16
                        }
                    } else {
                        vkey
                    };
                    vk < 256
                } else {
                    true
                }
            },
            _ => true,
        }
    } else {
        true
    };
    let x_ok = if msg == WM_XBUTTONDOWN || msg == WM_XBUTTONDBLCLK || msg == WM_XBUTTONUP {
        let hi = hiword(m.wparam as u32);
        1 <= hi && (VK_XBUTTON1 as u32) + (hi as u32) - 1 < 256
    } else {
        true
    };
    key_ok && raw_ok && x_ok
}

impl Input {
    fn set_key(&mut self, vk: usize, state: u8)
        requires
            old(self)@.wf(),
            vk < 256,
        ensures
            final(self)@ == (InputView { keys: old(self)@.keys.update(vk as int, state), ..old(self)@ }),
    {
        self.keys.set(vk, state);
    }

    fn raw_button(&mut self, f: u16, down: u16, up: u16, vk: u16)
        requires
            old(self)@.wf(),
            vk < 256,
        ensures
            final(self)@ == (InputView { keys: button_update(old(self)@.keys, f, down, up, vk), ..old(self)@ }),
    {
        if f & down != 0 {
            self.set_key(vk as usize, KEY_DOWN);
        } else if f & up != 0 {
            self.set_key(vk as usize, KEY_UP);
        }
    }

    /// Updates the input state with a message of the host's message loop and
    /// decides whether the host must not see it.
    pub fn handle_window_message(&mut self, m: WindowMessage) -> (r: MessageOutcome)
        requires
            old(self)@.wf(),
            message_in_range(m),
        ensures
            final(self)@.wf(),
            (final(self)@, r) == handled(old(self)@, m),
    {
        let msg = m.message;
        let mut is_mouse = WM_MOUSEFIRST <= msg && msg <= WM_MOUSELAST;
        let mut is_keyboard = WM_KEYFIRST <= msg && msg <= WM_KEYLAST;
        if msg != WM_INPUT && !is_mouse && !is_keyboard {
            return MessageOutcome { blocked: false, translate: None };
        }
        self.set_mouse_position(m.pt);
        let ghost v1 = self@;
        let mut translate: Option<KeyTranslation> = None;
        let wparam = m.wparam;
        if msg == WM_INPUT {
            if (wparam as u32) & 0xFF == RIM_INPUT {
                match m.raw {
                    Some(RawRecord::Mouse { button_flags, button_data }) => {
                        is_mouse = true;
                        let f = button_flags;
                        self.raw_button(f, RI_MOUSE_LEFT_BUTTON_DOWN, RI_MOUSE_LEFT_BUTTON_UP, VK_LBUTTON);
                        self.raw_button(f, RI_MOUSE_RIGHT_BUTTON_DOWN, RI_MOUSE_RIGHT_BUTTON_UP, VK_RBUTTON);
                        self.raw_button(f, RI_MOUSE_MIDDLE_BUTTON_DOWN, RI_MOUSE_MIDDLE_BUTTON_UP, VK_MBUTTON);
                        self.raw_button(f, RI_MOUSE_BUTTON_4_DOWN, RI_MOUSE_BUTTON_4_UP, VK_XBUTTON1);
                        self.raw_button(f, RI_MOUSE_BUTTON_5_DOWN, RI_MOUSE_BUTTON_5_UP, VK_XBUTTON2);
                        if f & RI_MOUSE_WHEEL != 0 {
                            let d = wheel_notches(button_data as i16);
                            self.set_mouse_wheel_delta(d);
                        }
                        if f & RI_MOUSE_HWHEEL != 0 {
                            let d = wheel_notches(button_data as i16);
                            self.set_mouse_wheel_delta_h(d);
                        }
                    },
                    Some(RawRecord::Keyboard { vkey, make_code, flags }) => {
                        if vkey != 0 {
                            is_keyboard = true;
                            let scan_code = raw_scan_code(make_code, flags);
                            let vk: u16 = if vkey == VK_SHIFT || vkey == VK_CONTROL || vkey == VK_MENU {
                                if m.mapped_vk == 0 {
                                    vkey
                                } else {
                                    (m.mapped_vk % 0x10000) as u16
                                }
                            } else {
                                vkey
                            };
                            let released = flags & RI_KEY_BREAK != 0;
                            if self.block_keyboard && released && vk < 0xFF && (self.keys[vk as usize] & 0x04) == 0 {
                                is_keyboard = false;
                            }
                            if vkey < 0xFF {
                                self.set_key(vk as usize, if released { KEY_UP } else { KEY_DOWN });
                            }
                            if !released {
                                translate = Some(KeyTranslation { virtual_key: vk as u32, scan_code });
                            }
                        }
                    },
                    _ => {},
                }
            }
        } else if (msg == WM_KEYDOWN || msg == WM_SYSKEYDOWN || msg == WM_KEYUP || msg == WM_SYSKEYUP)
            && wparam < 256 {
            let key_down = msg == WM_KEYDOWN || msg == WM_SYSKEYDOWN;
            let keycode = map_vkey(wparam as u16, m.lparam as usize, m.mapped_vk) as usize;
            if key_down {
                self.set_key(keycode, KEY_DOWN);
            } else {
                if self.block_keyboard && (self.keys[keycode] & 0x04) == 0 {
                    is_keyboard = false;
                }
                self.set_key(keycode, KEY_UP);
            }
        } else if msg == WM_LBUTTONDOWN || msg == WM_LBUTTONDBLCLK {
            self.set_key(VK_LBUTTON as usize, KEY_DOWN);
        } else if msg == WM_LBUTTONUP {
            self.set_key(VK_LBUTTON as usize, KEY_UP);
        } else if msg == WM_RBUTTONDOWN || msg == WM_RBUTTONDBLCLK {
            self.set_key(VK_RBUTTON as usize, KEY_DOWN);
        } else if msg == WM_RBUTTONUP {
            self.set_key(VK_RBUTTON as usize, KEY_UP);
        } else if msg == WM_MBUTTONDOWN || msg == WM_MBUTTONDBLCLK {
            self.set_key(VK_MBUTTON as usize, KEY_DOWN);
        } else if msg == WM_MBUTTONUP {
            self.set_key(VK_MBUTTON as usize, KEY_UP);
        } else if msg == WM_XBUTTONDOWN || msg == WM_XBUTTONDBLCLK {
            let idx = (VK_XBUTTON1 + (hiword(wparam as u32) - 1)) as usize;
            self.set_key(idx, KEY_DOWN);
        } else if msg == WM_XBUTTONUP {
            let idx = (VK_XBUTTON1 + (hiword(wparam as u32) - 1)) as usize;
            self.set_key(idx, KEY_UP);
        } else if msg == WM_MOUSEWHEEL {
            let d = wheel_notches(hiwordi(wparam as u32));
            self.set_mouse_wheel_delta(d);
        } else if msg == WM_MOUSEHWHEEL {
            let d = wheel_notches(hiwordi(wparam as u32));
            self.set_mouse_wheel_delta_h(d);
        } else if msg == WM_CHAR {
            self.set_input_character(wparam as u8);
        }
        let blocked = (self.block_mouse && is_mouse) || (self.block_keyboard && is_keyboard);
        MessageOutcome { blocked, translate }
    }
}

// ---------------------------------------------------------------------------
// Laws
// ---------------------------------------------------------------------------

/// With neither kind of input blocked, no message is kept from the host.
pub proof fn lemma_no_blocking_passes_everything(v: InputView, m: WindowMessage)
    requires
        !v.block_mouse,
        !v.block_keyboard,
    ensures
        !handled(v, m).1.blocked,
{
}

/// A message that is neither raw input, mouse nor keyboard input changes
/// nothing and passes.
pub proof fn lemma_other_messages_untouched(v: InputView, m: WindowMessage)
    requires
        m.message != WM_INPUT,
        !is_mouse_message(m.message),
        !is_keyboard_message(m.message),
    ensures
        handled(v, m) == (v, MessageOutcome { blocked: false, translate: None }),
{
}

/// With keyboard input blocked, every keyboard message but a key release
/// whose press was let through is kept from the host.
pub proof fn lemma_blocked_keyboard_blocks_keys(v: InputView, m: WindowMessage)
    requires
        v.wf(),
        v.block_keyboard,
        is_keyboard_message(m.message),
        !(is_key_message(m) && (m.message == WM_KEYUP || m.message == WM_SYSKEYUP)),
    ensures
        handled(v, m).1.blocked,
{
}

/// A key press message leaves its key down, and the matching release
/// message leaves it up.
pub proof fn lemma_key_press_then_release(v: InputView, down: WindowMessage, up: WindowMessage)
    requires
        v.wf(),
        down.message == WM_KEYDOWN,
        up.message == WM_KEYUP,
        down.wparam == up.wparam,
        down.lparam == up.lparam,
        down.mapped_vk == up.mapped_vk,
        is_key_message(down),
        message_in_range(down),
    ensures
        ({
            let kc = spec_map_vkey(down.wparam as u16, down.lparam as usize, down.mapped_vk) as int;
            let v1 = handled(v, down).0;
            let v2 = handled(v1, up).0;
            &&& key_is_down(v1.keys[kc])
            &&& !key_is_down(v2.keys[kc])
        }),
{
    assert(KEY_DOWN & 0x80 == 0x80) by (bit_vector);
    assert(KEY_UP & 0x80 != 0x80) by (bit_vector);
}

/// Mouse button messages press and release their button in the key table
/// (entry 0x88 down, 0x08 up) and leave every other entry alone: left
/// (entry 1) for 0x201/0x203 and 0x202, right (entry 2) for 0x204/0x206
/// and 0x205, middle (entry 4) for 0x207/0x209 and 0x208, and the extra
/// button named by the high word `h` of `wparam` (entry `4 + h`) for
/// 0x20B/0x20D and 0x20C.
pub proof fn lemma_button_messages_update_keys(v: InputView, m: WindowMessage)
    requires
        v.wf(),
        message_in_range(m),
    ensures
        ({
            let k = handled(v, m).0.keys;
            let msg = m.message;
            let idx: int = if msg == 0x0201 || msg == 0x0203 || msg == 0x0202 {
                1
            } else if msg == 0x0204 || msg == 0x0206 || msg == 0x0205 {
                2
            } else if msg == 0x0207 || msg == 0x0209 || msg == 0x0208 {
                4
            } else {
                4 + (m.wparam as u32) / 0x10000
            };
            let press = msg == 0x0201 || msg == 0x0203 || msg == 0x0204 || msg == 0x0206 || msg
                == 0x0207 || msg == 0x0209 || msg == 0x020B || msg == 0x020D;
            let release = msg == 0x0202 || msg == 0x0205 || msg == 0x0208 || msg == 0x020C;
            &&& press ==> k[idx] == 0x88u8
            &&& release ==> k[idx] == 0x08u8
            &&& (press || release) ==> k.len() == 256 && forall|j: int|
                0 <= j < 256 && j != idx ==> #[trigger] k[j] == v.keys[j]
        }),
{
}

/// A button pressed and then released is up again, whatever came before:
/// the release of a button after its press leaves its entry not down.
pub proof fn lemma_button_press_then_release(v: InputView, down: WindowMessage, up: WindowMessage)
    requires
        v.wf(),
        message_in_range(down),
        message_in_range(up),
        (down.message == 0x0201 && up.message == 0x0202) || (down.message == 0x0204
            && up.message == 0x0205) || (down.message == 0x0207 && up.message == 0x0208),
    ensures
        ({
            let idx: int = if up.message == 0x0202 { 1 } else if up.message == 0x0205 { 2 } else { 4 };
            let v1 = handled(v, down).0;
            let v2 = handled(v1, up).0;
            &&& v1.keys[idx] & 0x80 == 0x80
            &&& v2.keys[idx] & 0x80 == 0
        }),
{
    lemma_button_messages_update_keys(v, down);
    lemma_button_messages_update_keys(handled(v, down).0, up);
    assert(0x88u8 & 0x80 == 0x80) by (bit_vector);
    assert(0x08u8 & 0x80 == 0) by (bit_vector);
}

/// A raw mouse record read for the foreground window sets each button's
/// entry from its flags: down for the down flag, else up for the up flag,
/// else unchanged. Left (entry 1) has flags 0x1/0x2, right (2) 0x4/0x8,
/// middle (4) 0x10/0x20, extra 1 (5) 0x40/0x80, extra 2 (6) 0x100/0x200.
pub proof fn lemma_raw_mouse_updates_keys(v: InputView, m: WindowMessage, flags: u16, data: u16)
    requires
        v.wf(),
        m.message == 0x00FF,
        (m.wparam as u32) & 0xFF == 0,
        m.raw == Some(RawRecord::Mouse { button_flags: flags, button_data: data }),
    ensures
        ({
            let k = handled(v, m).0.keys;
            let entry = |i: int, dn: u16, up: u16|
                if flags & dn != 0 {
                    0x88u8
                } else if flags & up != 0 {
                    0x08u8
                } else {
                    v.keys[i]
                };
            &&& k[1] == entry(1, 0x0001, 0x0002)
            &&& k[2] == entry(2, 0x0004, 0x0008)
            &&& k[4] == entry(4, 0x0010, 0x0020)
            &&& k[5] == entry(5, 0x0040, 0x0080)
            &&& k[6] == entry(6, 0x0100, 0x0200)
        }),
{
}

/// What the other input messages do: every mouse message (0x200 to 0x20E)
/// is blocked exactly when mouse input is, and every non-raw keyboard
/// message that is not a key release (0x100 to 0x109) exactly when keyboard
/// input is; each of them, and raw input (0xFF), records the pointer
/// position of the message. A character (0x102) becomes the pending input
/// character (its low byte); the wheels (0x20A, 0x20E) set the pending
/// wheel movement to the signed high word of `wparam` in whole notches of
/// 120, rounded towards zero.
pub proof fn lemma_message_effects(v: InputView, m: WindowMessage)
    requires
        v.wf(),
        message_in_range(m),
    ensures
        ({
            let (v2, out) = handled(v, m);
            let msg = m.message;
            let hi = (m.wparam as u32) / 0x10000;
            let raw = if hi < 0x8000 { hi as int } else { hi - 0x10000 };
            let notches = (if raw >= 0 { raw / 120 } else { -((-raw) / 120) }) as i16;
            &&& (msg == 0x00FF || 0x0100 <= msg <= 0x0109 || 0x0200 <= msg <= 0x020E) ==> v2.mouse_position == m.pt
            &&& 0x0200 <= msg <= 0x020E ==> out.blocked == v.block_mouse && out.translate is None
            &&& (0x0100 <= msg <= 0x0109 && msg != 0x0101 && msg != 0x0105) ==> out.blocked
                == v.block_keyboard
            &&& msg == 0x0102 ==> v2.input_character == (m.wparam as u8) && v2.keys == v.keys
            &&& (msg == 0x020A || msg == 0x020E) ==> v2.mouse_wheel_delta == notches && v2.keys
                == v.keys
        }),
{
}

/// A raw keyboard record with a key code below 0xFF, read for the
/// foreground window, sets the key's entry (the layout's key for the
/// generic shift, control and alt keys when it has one): 0x88 without the
/// break flag (bit 0), 0x08 with it; only a press asks for its character,
/// with the key and the scan code.
pub proof fn lemma_raw_key_updates_keys(v: InputView, m: WindowMessage, vkey: u16, make_code: u16, flags: u16)
    requires
        v.wf(),
        message_in_range(m),
        m.message == 0x00FF,
        (m.wparam as u32) & 0xFF == 0,
        m.raw == Some(RawRecord::Keyboard { vkey, make_code, flags }),
        0 < vkey < 0xFF,
    ensures
        ({
            let (v2, out) = handled(v, m);
            let vk: u16 = if (vkey == 0x10 || vkey == 0x11 || vkey == 0x12) && m.mapped_vk != 0 {
                (m.mapped_vk % 0x10000) as u16
            } else {
                vkey
            };
            let released = flags & 0x0001u16 != 0;
            &&& v2.keys[vk as int] == if released { 0x08u8 } else { 0x88u8 }
            &&& released ==> out.translate is None
            &&& !released ==> out.translate == Some(
                KeyTranslation { virtual_key: vk as u32, scan_code: spec_raw_scan_code(make_code, flags) },
            )
        }),
{
}

} // verus!
