//! Interpretation of window messages and raw input for the overlay's input
//! state: what each message means for the keyboard, the mouse, characters
//! and the display size.
use vstd::prelude::*;
use crate::msg_filter::{
    WM_CHAR, WM_INPUT, WM_KEYDOWN, WM_KEYUP, WM_LBUTTONDBLCLK, WM_LBUTTONDOWN, WM_LBUTTONUP,
    WM_MBUTTONDBLCLK, WM_MBUTTONDOWN, WM_MBUTTONUP, WM_MOUSEHWHEEL, WM_MOUSEMOVE, WM_MOUSEWHEEL,
    WM_RBUTTONDBLCLK, WM_RBUTTONDOWN, WM_RBUTTONUP, WM_SIZE, WM_SYSKEYDOWN, WM_SYSKEYUP,
    WM_XBUTTONDBLCLK, WM_XBUTTONDOWN, WM_XBUTTONUP,
};

verus! {

pub const VK_LBUTTON: u16 = 0x01u16;
pub const VK_RBUTTON: u16 = 0x02u16;
pub const VK_MBUTTON: u16 = 0x04u16;
pub const VK_XBUTTON1: u16 = 0x05u16;
pub const VK_XBUTTON2: u16 = 0x06u16;
pub const VK_SHIFT: u16 = 0x10u16;
pub const VK_CONTROL: u16 = 0x11u16;
pub const VK_MENU: u16 = 0x12u16;
pub const VK_APPS: u16 = 0x5Du16;
pub const VK_LSHIFT: u16 = 0xA0u16;
pub const VK_RSHIFT: u16 = 0xA1u16;
pub const VK_LCONTROL: u16 = 0xA2u16;
pub const VK_RCONTROL: u16 = 0xA3u16;
pub const VK_LMENU: u16 = 0xA4u16;
pub const VK_RMENU: u16 = 0xA5u16;

pub const XBUTTON1: u16 = 0x0001u16;
pub const WHEEL_DELTA: i32 = 120i32;

pub const RIM_INPUT: u32 = 0u32;
pub const RIM_TYPEMOUSE: u32 = 0u32;
pub const RIM_TYPEKEYBOARD: u32 = 1u32;

pub const RI_KEY_MAKE: u16 = 0u16;
pub const RI_KEY_BREAK: u16 = 1u16;
pub const RI_KEY_E0: u16 = 2u16;
pub const RI_KEY_E1: u16 = 4u16;

pub const RI_MOUSE_LEFT_BUTTON_DOWN: u16 = 0x0001u16;
pub const RI_MOUSE_LEFT_BUTTON_UP: u16 = 0x0002u16;
pub const RI_MOUSE_RIGHT_BUTTON_DOWN: u16 = 0x0004u16;
pub const RI_MOUSE_RIGHT_BUTTON_UP: u16 = 0x0008u16;
pub const RI_MOUSE_MIDDLE_BUTTON_DOWN: u16 = 0x0010u16;
pub const RI_MOUSE_MIDDLE_BUTTON_UP: u16 = 0x0020u16;
pub const RI_MOUSE_BUTTON_4_DOWN: u16 = 0x0040u16;
pub const RI_MOUSE_BUTTON_4_UP: u16 = 0x0080u16;
pub const RI_MOUSE_BUTTON_5_DOWN: u16 = 0x0100u16;
pub const RI_MOUSE_BUTTON_5_UP: u16 = 0x0200u16;
pub const RI_MOUSE_WHEEL: u16 = 0x0400u16;
pub const RI_MOUSE_HWHEEL: u16 = 0x0800u16;
pub const MOUSE_MOVE_ABSOLUTE: u16 = 0x0001u16;

// ---------------------------------------------------------------------------
// Words of a message parameter
// ---------------------------------------------------------------------------

/// The high word of a 32-bit value (the Win32 `HIWORD` macro).
pub fn hiword(l: u32) -> (r: u16)
    ensures
        r == l / 0x10000,
{
    let r = ((l >> 16u32) & 0xffffu32) as u16;
    assert(((l >> 16u32) & 0xffffu32) == l / 0x10000) by (bit_vector);
    r
}

/// The low word of a 32-bit value (the Win32 `LOWORD` macro).
pub fn loword(l: u32) -> (r: u16)
    ensures
        r == l % 0x10000,
{
    let r = (l & 0xffffu32) as u16;
    assert((l & 0xffffu32) == l % 0x10000) by (bit_vector);
    r
}

/// A 16-bit word read as a two's complement signed value.
pub open spec fn signed_word(w: int) -> int {
    if w < 0x8000 {
        w
    } else {
        w - 0x10000
    }
}

/// The high word of a 32-bit value, signed.
pub fn hiwordi(l: u32) -> (r: i16)
    ensures
        r == signed_word((l / 0x10000) as int),
{
    let w = hiword(l);
    if w < 0x8000 {
        w as i16
    } else {
        (w as i32 - 0x10000) as i16
    }
}

/// The low word of a 32-bit value, signed.
pub fn lowordi(l: u32) -> (r: i16)
    ensures
        r == signed_word((l % 0x10000) as int),
{
    let w = loword(l);
    if w < 0x8000 {
        w as i16
    } else {
        (w as i32 - 0x10000) as i16
    }
}

/// Integer division by `WHEEL_DELTA`, rounding towards zero.
pub open spec fn wheel_steps(raw: int) -> int {
    if raw >= 0 {
        raw / 120
    } else {
        -((-raw) / 120)
    }
}

/// The number of whole wheel notches in a raw wheel delta, as `i16` division
/// by `WHEEL_DELTA` computes it.
pub fn wheel_notches(raw: i16) -> (r: i16)
    ensures
        r == wheel_steps(raw as int),
{
    let v = raw as i32;
    if v >= 0 {
        (v / WHEEL_DELTA) as i16
    } else {
        (-((-v) / WHEEL_DELTA)) as i16
    }
}

// ---------------------------------------------------------------------------
// Keyboard
// ---------------------------------------------------------------------------

/// The virtual key that a layout maps to, as a 16-bit key code.
pub open spec fn mapped_key(original: u16, mapped: u32) -> u16 {
    if mapped == 0 {
        original
    } else {
        (mapped % 0x10000) as u16
    }
}

/// The virtual key of a `WM_(SYS)KEY*` message: shift is resolved with the
/// layout (`mapped_shift` is what the layout maps the scan code in `lparam`
/// to), control and alt by the extended-key bit of `lparam`.
pub open spec fn spec_map_vkey(wparam: u16, lparam: usize, mapped_shift: u32) -> u16 {
    if wparam == VK_SHIFT {
        mapped_key(wparam, mapped_shift)
    } else if wparam == VK_CONTROL {
        if lparam & 0x01000000 != 0 {
            VK_RCONTROL
        } else {
            VK_LCONTROL
        }
    } else if wparam == VK_MENU {
        if lparam & 0x01000000 != 0 {
            VK_RMENU
        } else {
            VK_LMENU
        }
    } else {
        wparam
    }
}

/// The scan code of a key message, the one the layout lookup for shift
/// takes: bits 16 to 23 of `lparam`.
pub fn key_message_scan_code(lparam: usize) -> (r: u32)
    ensures
        r == (lparam & 0x00ff0000) >> 16,
{
    let v = (lparam & 0x00ff0000usize) >> 16usize;
    assert(v < 0x100) by (bit_vector)
        requires
            v == (lparam & 0x00ff0000usize) >> 16usize,
    ;
    v as u32
}

/// Maps the key code of a key message to the virtual key it stands for.
pub fn map_vkey(wparam: u16, lparam: usize, mapped_shift: u32) -> (r: u16)
    ensures
        r == spec_map_vkey(wparam, lparam, mapped_shift),
{
    if wparam == VK_SHIFT {
        if mapped_shift == 0 {
            wparam
        } else {
            (mapped_shift % 0x10000) as u16
        }
    } else if wparam == VK_CONTROL {
        if lparam & 0x01000000 != 0 {
            VK_RCONTROL
        } else {
            VK_LCONTROL
        }
    } else if wparam == VK_MENU {
        if lparam & 0x01000000 != 0 {
            VK_RMENU
        } else {
            VK_LMENU
        }
    } else {
        wparam
    }
}

/// An input event for the UI: a key identified by its virtual key code, or
/// one of the keys that the UI tracks on its own.
#[derive(Debug, Clone, Copy, PartialEq, Eq, Structural)]
pub enum UiKey {
    Virtual(u16),
    ModCtrl,
    ModShift,
    ModAlt,
    ModSuper,
    LeftShift,
    RightShift,
    LeftCtrl,
    RightCtrl,
    LeftAlt,
    RightAlt,
}

/// A key event: the key went down (`true`) or up (`false`).
#[derive(Debug, Clone, Copy, PartialEq, Eq, Structural)]
pub struct KeyEvent {
    pub key: UiKey,
    pub down: bool,
}

/// Which keys the keyboard reports as down when a key message arrives.
#[derive(Debug, Clone, Copy, PartialEq, Eq, Structural)]
pub struct KeyStates {
    pub control: bool,
    pub shift: bool,
    pub menu: bool,
    pub apps: bool,
    pub lshift: bool,
    pub rshift: bool,
    pub lcontrol: bool,
    pub rcontrol: bool,
    pub lmenu: bool,
    pub rmenu: bool,
}

/// A key message is a press for `WM_KEYDOWN` and `WM_SYSKEYDOWN`.
pub open spec fn is_key_down_message(state: u32) -> bool {
    state == WM_KEYDOWN || state == WM_SYSKEYDOWN
}

/// The side-specific events that a key message for one of the generic
/// modifier keys adds: a side's event is sent when that side's key state
/// agrees with the message.
pub open spec fn side_events(key: u16, down: bool, ks: KeyStates) -> Seq<KeyEvent> {
    let ev = |k: UiKey| KeyEvent { key: k, down };
    let (left, right, lk, rk) = if key == VK_SHIFT {
        (ks.lshift, ks.rshift, UiKey::LeftShift, UiKey::RightShift)
    } else if key == VK_CONTROL {
        (ks.lcontrol, ks.rcontrol, UiKey::LeftCtrl, UiKey::RightCtrl)
    } else {
        (ks.lmenu, ks.rmenu, UiKey::LeftAlt, UiKey::RightAlt)
    };
    if key == VK_SHIFT || key == VK_CONTROL || key == VK_MENU {
        (if left == down {
            seq![ev(lk)]
        } else {
            Seq::empty()
        }) + (if right == down {
            seq![ev(rk)]
        } else {
            Seq::empty()
        })
    } else {
        Seq::empty()
    }
}

/// The events of a `WM_(SYS)KEY*` message: the mapped key, then the four
/// modifier states, then the side-specific modifier events.
pub open spec fn key_message_events(
    state: u32,
    wparam: u16,
    lparam: usize,
    mapped_shift: u32,
    ks: KeyStates,
) -> Seq<KeyEvent> {
    let down = is_key_down_message(state);
    let key = spec_map_vkey(wparam, lparam, mapped_shift);
    seq![
        KeyEvent { key: UiKey::Virtual(key), down },
        KeyEvent { key: UiKey::ModCtrl, down: ks.control },
        KeyEvent { key: UiKey::ModShift, down: ks.shift },
        KeyEvent { key: UiKey::ModAlt, down: ks.menu },
        KeyEvent { key: UiKey::ModSuper, down: ks.apps },
    ] + side_events(key, down, ks)
}

/// The UI events of a `WM_(SYS)KEYDOWN`/`WM_(SYS)KEYUP` message.
pub fn handle_key_message(
    state: u32,
    wparam: u16,
    lparam: usize,
    mapped_shift: u32,
    ks: KeyStates,
) -> (r: Vec<KeyEvent>)
    ensures
        r@ == key_message_events(state, wparam, lparam, mapped_shift, ks),
{
    let down = state == WM_KEYDOWN || state == WM_SYSKEYDOWN;
    let key = map_vkey(wparam, lparam, mapped_shift);
    let mut out: Vec<KeyEvent> = Vec::new();
    out.push(KeyEvent { key: UiKey::Virtual(key), down });
    out.push(KeyEvent { key: UiKey::ModCtrl, down: ks.control });
    out.push(KeyEvent { key: UiKey::ModShift, down: ks.shift });
    out.push(KeyEvent { key: UiKey::ModAlt, down: ks.menu });
    out.push(KeyEvent { key: UiKey::ModSuper, down: ks.apps });
    let ghost head = out@;
    if key == VK_SHIFT {
        if ks.lshift == down {
            out.push(KeyEvent { key: UiKey::LeftShift, down });
        }
        if ks.rshift == down {
            out.push(KeyEvent { key: UiKey::RightShift, down });
        }
    } else if key == VK_CONTROL {
        if ks.lcontrol == down {
            out.push(KeyEvent { key: UiKey::LeftCtrl, down });
        }
        if ks.rcontrol == down {
            out.push(KeyEvent { key: UiKey::RightCtrl, down });
        }
    } else if key == VK_MENU {
        if ks.lmenu == down {
            out.push(KeyEvent { key: UiKey::LeftAlt, down });
        }
        if ks.rmenu == down {
            out.push(KeyEvent { key: UiKey::RightAlt, down });
        }
    }
    assert(out@ =~= key_message_events(state, wparam, lparam, mapped_shift, ks));
    out
}

/// The scan code of a raw keyboard record, with the `E0`/`E1` prefixes
/// folded in; it is what the layout lookup for modifier keys takes.
pub open spec fn spec_raw_scan_code(make_code: u16, flags: u16) -> u32 {
    let c0 = make_code as u32;
    let c1 = if flags & RI_KEY_E0 != 0 {
        c0 | 0xe000
    } else {
        c0
    };
    if flags & RI_KEY_E1 != 0 {
        c1 | 0xe100
    } else {
        c1
    }
}

/// Computes the scan code of a raw keyboard record.
pub fn raw_scan_code(make_code: u16, flags: u16) -> (r: u32)
    ensures
        r == spec_raw_scan_code(make_code, flags),
{
    let mut code = make_code as u32;
    if flags & RI_KEY_E0 != 0 {
        code = code | 0xe000;
    }
    if flags & RI_KEY_E1 != 0 {
        code = code | 0xe100;
    }
    code
}

/// What a raw keyboard record does to a virtual key.
#[derive(Debug, Clone, Copy, PartialEq, Eq, Structural)]
pub struct RawKeyAction {
    pub virtual_key: u16,
    pub key_down: bool,
    pub key_up: bool,
}

/// The action of a raw keyboard record with key code `vkey`, `flags`, and
/// `mapped` the layout's virtual key for its scan code (used for the generic
/// shift, control and alt keys): none for a record without key code, or
/// whose key is past the key table (0xFF and up).
pub open spec fn spec_raw_key_action(vkey: u16, flags: u16, mapped: u32) -> Option<RawKeyAction> {
    let vk = if vkey == VK_SHIFT || vkey == VK_CONTROL || vkey == VK_MENU {
        mapped_key(vkey, mapped)
    } else {
        vkey
    };
    if vkey == 0 || vk >= 0xFF {
        None
    } else {
        Some(
            RawKeyAction {
                virtual_key: vk,
                key_down: flags == RI_KEY_MAKE,
                key_up: flags & RI_KEY_BREAK != 0,
            },
        )
    }
}

/// Interprets a raw keyboard record.
pub fn raw_key_action(vkey: u16, flags: u16, mapped: u32) -> (r: Option<RawKeyAction>)
    ensures
        r == spec_raw_key_action(vkey, flags, mapped),
{
    if vkey == 0 {
        return None;
    }
    let vk = if vkey == VK_SHIFT || vkey == VK_CONTROL || vkey == VK_MENU {
        if mapped == 0 {
            vkey
        } else {
            (mapped % 0x10000) as u16
        }
    } else {
        vkey
    };
    if vk >= 0xFF {
        return None;
    }
    Some(RawKeyAction { virtual_key: vk, key_down: flags == RI_KEY_MAKE, key_up: flags & RI_KEY_BREAK != 0 })
}

// ---------------------------------------------------------------------------
// Mouse
// ---------------------------------------------------------------------------

/// A mouse button as the UI knows it.
#[derive(Debug, Clone, Copy, PartialEq, Eq, Structural)]
pub enum MouseButton {
    Left,
    Right,
    Middle,
    Extra1,
    Extra2,
}

/// A mouse event for the UI.
#[derive(Debug, Clone, Copy, PartialEq, Eq, Structural)]
pub enum MouseEvent {
    /// A button went down (`true`) or up.
    Button(MouseButton, bool),
    /// Wheel movement in whole notches: the first value from the vertical
    /// wheel flag, the second from the horizontal one.
    Wheel(i16, i16),
    /// The pointer is at this position.
    Position(i32, i32),
    /// The pointer moved by this much from where the UI last had it.
    Moved(i32, i32),
}

/// The flag is set in the raw mouse record's button flags.
pub open spec fn has_button_flag(flags: u16, flag: u16) -> bool {
    flags & flag != 0
}

/// The button event for `flag`, when the flag is set.
pub open spec fn button_event(flags: u16, flag: u16, button: MouseButton, down: bool) -> Seq<
    MouseEvent,
> {
    if has_button_flag(flags, flag) {
        seq![MouseEvent::Button(button, down)]
    } else {
        Seq::empty()
    }
}

/// The events of a raw mouse record: one per button transition flag, in the
/// order left, right, middle, extra 1, extra 2 (down before up), then the
/// wheel, then the position.
pub open spec fn raw_mouse_events(
    button_flags: u16,
    button_data: u16,
    mouse_flags: u16,
    last_x: i32,
    last_y: i32,
) -> Seq<MouseEvent> {
    let f = button_flags;
    let notches = wheel_steps((button_data as i16) as int) as i16;
    let wheel_v = if has_button_flag(f, RI_MOUSE_WHEEL) {
        notches
    } else {
        0i16
    };
    let wheel_h = if has_button_flag(f, RI_MOUSE_HWHEEL) {
        notches
    } else {
        0i16
    };
    let pos = if mouse_flags & MOUSE_MOVE_ABSOLUTE != 0 {
        MouseEvent::Position(last_x, last_y)
    } else {
        MouseEvent::Moved(last_x, last_y)
    };
    button_event(f, RI_MOUSE_LEFT_BUTTON_DOWN, MouseButton::Left, true) + button_event(
        f,
        RI_MOUSE_LEFT_BUTTON_UP,
        MouseButton::Left,
        false,
    ) + button_event(f, RI_MOUSE_RIGHT_BUTTON_DOWN, MouseButton::Right, true) + button_event(
        f,
        RI_MOUSE_RIGHT_BUTTON_UP,
        MouseButton::Right,
        false,
    ) + button_event(f, RI_MOUSE_MIDDLE_BUTTON_DOWN, MouseButton::Middle, true) + button_event(
        f,
        RI_MOUSE_MIDDLE_BUTTON_UP,
        MouseButton::Middle,
        false,
    ) + button_event(f, RI_MOUSE_BUTTON_4_DOWN, MouseButton::Extra1, true) + button_event(
        f,
        RI_MOUSE_BUTTON_4_UP,
        MouseButton::Extra1,
        false,
    ) + button_event(f, RI_MOUSE_BUTTON_5_DOWN, MouseButton::Extra2, true) + button_event(
        f,
        RI_MOUSE_BUTTON_5_UP,
        MouseButton::Extra2,
        false,
    ) + seq![MouseEvent::Wheel(wheel_v, wheel_h), pos]
}

fn push_button_event(
    out: &mut Vec<MouseEvent>,
    flags: u16,
    flag: u16,
    button: MouseButton,
    down: bool,
)
    ensures
        final(out)@ == old(out)@ + button_event(flags, flag, button, down),
{
    if flags & flag != 0 {
        out.push(MouseEvent::Button(button, down));
    }
    assert(final(out)@ =~= old(out)@ + button_event(flags, flag, button, down));
}

/// The UI events of a raw mouse record.
pub fn handle_raw_mouse_input(
    button_flags: u16,
    button_data: u16,
    mouse_flags: u16,
    last_x: i32,
    last_y: i32,
) -> (r: Vec<MouseEvent>)
    ensures
        r@ == raw_mouse_events(button_flags, button_data, mouse_flags, last_x, last_y),
{
    let f = button_flags;
    let mut out: Vec<MouseEvent> = Vec::new();
    push_button_event(&mut out, f, RI_MOUSE_LEFT_BUTTON_DOWN, MouseButton::Left, true);
    push_button_event(&mut out, f, RI_MOUSE_LEFT_BUTTON_UP, MouseButton::Left, false);
    push_button_event(&mut out, f, RI_MOUSE_RIGHT_BUTTON_DOWN, MouseButton::Right, true);
    push_button_event(&mut out, f, RI_MOUSE_RIGHT_BUTTON_UP, MouseButton::Right, false);
    push_button_event(&mut out, f, RI_MOUSE_MIDDLE_BUTTON_DOWN, MouseButton::Middle, true);
    push_button_event(&mut out, f, RI_MOUSE_MIDDLE_BUTTON_UP, MouseButton::Middle, false);
    push_button_event(&mut out, f, RI_MOUSE_BUTTON_4_DOWN, MouseButton::Extra1, true);
    push_button_event(&mut out, f, RI_MOUSE_BUTTON_4_UP, MouseButton::Extra1, false);
    push_button_event(&mut out, f, RI_MOUSE_BUTTON_5_DOWN, MouseButton::Extra2, true);
    push_button_event(&mut out, f, RI_MOUSE_BUTTON_5_UP, MouseButton::Extra2, false);
    let notches = wheel_notches(button_data as i16);
    let wheel_v = if f & RI_MOUSE_WHEEL != 0 {
        notches
    } else {
        0i16
    };
    let wheel_h = if f & RI_MOUSE_HWHEEL != 0 {
        notches
    } else {
        0i16
    };
    out.push(MouseEvent::Wheel(wheel_v, wheel_h));
    if mouse_flags & MOUSE_MOVE_ABSOLUTE != 0 {
        out.push(MouseEvent::Position(last_x, last_y));
    } else {
        out.push(MouseEvent::Moved(last_x, last_y));
    }
    assert(out@ =~= raw_mouse_events(button_flags, button_data, mouse_flags, last_x, last_y));
    out
}

// ---------------------------------------------------------------------------
// Raw input and the window procedure
// ---------------------------------------------------------------------------

/// What a `WM_INPUT` message carries.
#[derive(Debug, Clone, Copy, PartialEq, Eq, Structural)]
pub enum RawInputKind {
    /// Nothing to process: the data could not be read, the window was not in
    /// the foreground, or the device is neither a mouse nor a keyboard.
    Ignore,
    Mouse,
    Keyboard,
}

/// Sorts a `WM_INPUT` message: `read_result` is what reading its data
/// returned (`u32::MAX` on error), `device_type` the device type in its
/// header.
pub fn raw_input_kind(read_result: u32, wparam: usize, device_type: u32) -> (r: RawInputKind)
    ensures
        (read_result == u32::MAX || (wparam as u32) & 0xFF != RIM_INPUT) ==> r
            == RawInputKind::Ignore,
        !(read_result == u32::MAX || (wparam as u32) & 0xFF != RIM_INPUT) ==> r == (if device_type
            == RIM_TYPEMOUSE {
            RawInputKind::Mouse
        } else if device_type == RIM_TYPEKEYBOARD {
            RawInputKind::Keyboard
        } else {
            RawInputKind::Ignore
        }),
{
    if read_result == u32::MAX {
        return RawInputKind::Ignore;
    }
    if (wparam as u32) & 0xFF != RIM_INPUT {
        return RawInputKind::Ignore;
    }
    if device_type == RIM_TYPEMOUSE {
        RawInputKind::Mouse
    } else if device_type == RIM_TYPEKEYBOARD {
        RawInputKind::Keyboard
    } else {
        RawInputKind::Ignore
    }
}

/// What the overlay's window procedure does with a message.
#[derive(Debug, Clone, Copy, PartialEq, Eq, Structural)]
pub enum WndProcAction {
    /// Read and process the raw input the message refers to.
    RawInput,
    /// A key message (its message identifier).
    Key(u32),
    /// A mouse button went down (`true`) or up.
    MouseButton(MouseButton, bool),
    /// The wheel moved by this raw delta; `true` for the horizontal wheel.
    Wheel(bool, i16),
    /// The pointer moved to this position in the client area.
    MousePosition(i16, i16),
    /// A character was typed (its code point value).
    Character(u32),
    /// The window's client area has this new width and height.
    Resize(u16, u16),
    /// Nothing for the UI.
    Nothing,
}

/// The extra button named in the high word of `wparam`.
pub open spec fn x_button(wparam: usize) -> MouseButton {
    if (wparam as u32) / 0x10000 == XBUTTON1 {
        MouseButton::Extra1
    } else {
        MouseButton::Extra2
    }
}

/// The action for message `umsg` with parameters `wparam` and `lparam`.
pub open spec fn spec_wnd_proc_action(umsg: u32, wparam: usize, lparam: isize) -> WndProcAction {
    let hi = (wparam as u32) / 0x10000;
    if umsg == WM_INPUT {
        WndProcAction::RawInput
    } else if (umsg == WM_KEYDOWN || umsg == WM_SYSKEYDOWN || umsg == WM_KEYUP || umsg
        == WM_SYSKEYUP) && wparam < 256 {
        WndProcAction::Key(umsg)
    } else if umsg == WM_LBUTTONDOWN || umsg == WM_LBUTTONDBLCLK {
        WndProcAction::MouseButton(MouseButton::Left, true)
    } else if umsg == WM_RBUTTONDOWN || umsg == WM_RBUTTONDBLCLK {
        WndProcAction::MouseButton(MouseButton::Right, true)
    } else if umsg == WM_MBUTTONDOWN || umsg == WM_MBUTTONDBLCLK {
        WndProcAction::MouseButton(MouseButton::Middle, true)
    } else if umsg == WM_XBUTTONDOWN || umsg == WM_XBUTTONDBLCLK {
        WndProcAction::MouseButton(x_button(wparam), true)
    } else if umsg == WM_LBUTTONUP {
        WndProcAction::MouseButton(MouseButton::Left, false)
    } else if umsg == WM_RBUTTONUP {
        WndProcAction::MouseButton(MouseButton::Right, false)
    } else if umsg == WM_MBUTTONUP {
        WndProcAction::MouseButton(MouseButton::Middle, false)
    } else if umsg == WM_XBUTTONUP {
        WndProcAction::MouseButton(x_button(wparam), false)
    } else if umsg == WM_MOUSEWHEEL {
        WndProcAction::Wheel(false, signed_word(hi as int) as i16)
    } else if umsg == WM_MOUSEHWHEEL {
        WndProcAction::Wheel(true, signed_word(hi as int) as i16)
    } else if umsg == WM_MOUSEMOVE {
        WndProcAction::MousePosition(
            signed_word(((lparam as u32) % 0x10000) as int) as i16,
            signed_word(((lparam as u32) / 0x10000) as int) as i16,
        )
    } else if umsg == WM_CHAR {
        WndProcAction::Character(wparam as u32)
    } else if umsg == WM_SIZE {
        WndProcAction::Resize(((lparam as u32) % 0x10000) as u16, ((lparam as u32) / 0x10000) as u16)
    } else {
        WndProcAction::Nothing
    }
}

/// Decides what the overlay's window procedure does with a message.
pub fn wnd_proc_action(umsg: u32, wparam: usize, lparam: isize) -> (r: WndProcAction)
    ensures
        r == spec_wnd_proc_action(umsg, wparam, lparam),
{
    let w = wparam as u32;
    let l = lparam as u32;
    if umsg == WM_INPUT {
        WndProcAction::RawInput
    } else if (umsg == WM_KEYDOWN || umsg == WM_SYSKEYDOWN || umsg == WM_KEYUP || umsg
        == WM_SYSKEYUP) && wparam < 256 {
        WndProcAction::Key(umsg)
    } else if umsg == WM_LBUTTONDOWN || umsg == WM_LBUTTONDBLCLK {
        WndProcAction::MouseButton(MouseButton::Left, true)
    } else if umsg == WM_RBUTTONDOWN || umsg == WM_RBUTTONDBLCLK {
        WndProcAction::MouseButton(MouseButton::Right, true)
    } else if umsg == WM_MBUTTONDOWN || umsg == WM_MBUTTONDBLCLK {
        WndProcAction::MouseButton(MouseButton::Middle, true)
    } else if umsg == WM_XBUTTONDOWN || umsg == WM_XBUTTONDBLCLK {
        let btn = if hiword(w) == XBUTTON1 {
            MouseButton::Extra1
        } else {
            MouseButton::Extra2
        };
        WndProcAction::MouseButton(btn, true)
    } else if umsg == WM_LBUTTONUP {
        WndProcAction::MouseButton(MouseButton::Left, false)
    } else if umsg == WM_RBUTTONUP {
        WndProcAction::MouseButton(MouseButton::Right, false)
    } else if umsg == WM_MBUTTONUP {
        WndProcAction::MouseButton(MouseButton::Middle, false)
    } else if umsg == WM_XBUTTONUP {
        let btn = if hiword(w) == XBUTTON1 {
            MouseButton::Extra1
        } else {
            MouseButton::Extra2
        };
        WndProcAction::MouseButton(btn, false)
    } else if umsg == WM_MOUSEWHEEL {
        WndProcAction::Wheel(false, hiwordi(w))
    } else if umsg == WM_MOUSEHWHEEL {
        WndProcAction::Wheel(true, hiwordi(w))
    } else if umsg == WM_MOUSEMOVE {
        WndProcAction::MousePosition(lowordi(l), hiwordi(l))
    } else if umsg == WM_CHAR {
        WndProcAction::Character(w)
    } else if umsg == WM_SIZE {
        WndProcAction::Resize(loword(l), hiword(l))
    } else {
        WndProcAction::Nothing
    }
}

// ---------------------------------------------------------------------------
// Laws
// ---------------------------------------------------------------------------

/// The window procedure reports each mouse button message as a transition
/// of the right button: `WM_LBUTTONDOWN`/`DBLCLK` (0x201, 0x203),
/// `WM_RBUTTONDOWN`/`DBLCLK` (0x204, 0x206), `WM_MBUTTONDOWN`/`DBLCLK`
/// (0x207, 0x209) and `WM_XBUTTONDOWN`/`DBLCLK` (0x20B, 0x20D) press it;
/// `WM_LBUTTONUP` (0x202), `WM_RBUTTONUP` (0x205), `WM_MBUTTONUP` (0x208)
/// and `WM_XBUTTONUP` (0x20C) release it. The extra button is the first one
/// when the high word of `wparam` is 1, the second otherwise.
pub proof fn lemma_button_messages(wparam: usize, lparam: isize)
    ensures
        spec_wnd_proc_action(0x0201, wparam, lparam) == WndProcAction::MouseButton(MouseButton::Left, true),
        spec_wnd_proc_action(0x0203, wparam, lparam) == WndProcAction::MouseButton(MouseButton::Left, true),
        spec_wnd_proc_action(0x0202, wparam, lparam) == WndProcAction::MouseButton(MouseButton::Left, false),
        spec_wnd_proc_action(0x0204, wparam, lparam) == WndProcAction::MouseButton(MouseButton::Right, true),
        spec_wnd_proc_action(0x0206, wparam, lparam) == WndProcAction::MouseButton(MouseButton::Right, true),
        spec_wnd_proc_action(0x0205, wparam, lparam) == WndProcAction::MouseButton(MouseButton::Right, false),
        spec_wnd_proc_action(0x0207, wparam, lparam) == WndProcAction::MouseButton(MouseButton::Middle, true),
        spec_wnd_proc_action(0x0209, wparam, lparam) == WndProcAction::MouseButton(MouseButton::Middle, true),
        spec_wnd_proc_action(0x0208, wparam, lparam) == WndProcAction::MouseButton(MouseButton::Middle, false),
        ({
            let xb = if (wparam as u32) / 0x10000 == 1 {
                MouseButton::Extra1
            } else {
                MouseButton::Extra2
            };
            &&& spec_wnd_proc_action(0x020B, wparam, lparam) == WndProcAction::MouseButton(xb, true)
            &&& spec_wnd_proc_action(0x020D, wparam, lparam) == WndProcAction::MouseButton(xb, true)
            &&& spec_wnd_proc_action(0x020C, wparam, lparam) == WndProcAction::MouseButton(xb, false)
        }),
{
}

/// The other messages the window procedure handles: raw input (0xFF); key
/// messages (0x100, 0x101, 0x104, 0x105) with a key code below 256; the
/// vertical (0x20A) and horizontal (0x20E) wheel with the signed high word
/// of `wparam`; the pointer position (0x200) from the signed low and high
/// words of `lparam`; a character (0x102); the new client size (0x05) from
/// the low and high words of `lparam`; any other message does nothing.
pub proof fn lemma_other_messages(umsg: u32, wparam: usize, lparam: isize)
    ensures
        spec_wnd_proc_action(0x00FF, wparam, lparam) == WndProcAction::RawInput,
        (umsg == 0x0100 || umsg == 0x0101 || umsg == 0x0104 || umsg == 0x0105) && wparam < 256
            ==> spec_wnd_proc_action(umsg, wparam, lparam) == WndProcAction::Key(umsg),
        (umsg == 0x0100 || umsg == 0x0101 || umsg == 0x0104 || umsg == 0x0105) && wparam >= 256
            ==> spec_wnd_proc_action(umsg, wparam, lparam) == WndProcAction::Nothing,
        ({
            let hi = (wparam as u32) / 0x10000;
            let delta = (if hi < 0x8000 { hi as int } else { hi - 0x10000 }) as i16;
            &&& spec_wnd_proc_action(0x020A, wparam, lparam) == WndProcAction::Wheel(false, delta)
            &&& spec_wnd_proc_action(0x020E, wparam, lparam) == WndProcAction::Wheel(true, delta)
        }),
        ({
            let lo = (lparam as u32) % 0x10000;
            let hi = (lparam as u32) / 0x10000;
            &&& spec_wnd_proc_action(0x0200, wparam, lparam) == WndProcAction::MousePosition(
                (if lo < 0x8000 { lo as int } else { lo - 0x10000 }) as i16,
                (if hi < 0x8000 { hi as int } else { hi - 0x10000 }) as i16,
            )
            &&& spec_wnd_proc_action(0x0005, wparam, lparam) == WndProcAction::Resize(lo as u16, hi as u16)
        }),
        spec_wnd_proc_action(0x0102, wparam, lparam) == WndProcAction::Character(wparam as u32),
        !(umsg == 0x0005 || umsg == 0x00FF || 0x0100 <= umsg <= 0x0102 || umsg == 0x0104 || umsg
            == 0x0105 || 0x0200 <= umsg <= 0x020E) ==> spec_wnd_proc_action(umsg, wparam, lparam)
            == WndProcAction::Nothing,
{
}

/// A key message gives, in order: the key (the layout's mapping of the scan
/// code for shift, left or right control and alt by the extended-key bit,
/// the key code itself otherwise) going down for `WM_KEYDOWN` (0x100) and
/// `WM_SYSKEYDOWN` (0x104) and up otherwise; then control, shift, alt and
/// the Windows key with exactly the reported states of the control, shift,
/// menu and apps keys; then, for a shift, control or alt key, the event of
/// each side whose state agrees with the message, left before right. Every
/// event after the first four modifiers goes the same way as the key.
pub proof fn lemma_key_message_events(state: u32, wparam: u16, lparam: usize, mapped: u32, ks: KeyStates)
    ensures
        ({
            let e = key_message_events(state, wparam, lparam, mapped, ks);
            let down = state == 0x0100 || state == 0x0104;
            let ext = lparam & 0x0100_0000 != 0;
            let vk: u16 = if wparam == 0x10 {
                if mapped == 0 { 0x10u16 } else { (mapped % 0x10000) as u16 }
            } else if wparam == 0x11 {
                if ext { 0xA3u16 } else { 0xA2u16 }
            } else if wparam == 0x12 {
                if ext { 0xA5u16 } else { 0xA4u16 }
            } else {
                wparam
            };
            let side = |l: bool, lk: UiKey, r: bool, rk: UiKey|
                (if l == down { seq![KeyEvent { key: lk, down }] } else { Seq::empty() })
                + (if r == down { seq![KeyEvent { key: rk, down }] } else { Seq::empty() });
            &&& e.len() >= 5
            &&& e[0] == KeyEvent { key: UiKey::Virtual(vk), down }
            &&& e[1] == KeyEvent { key: UiKey::ModCtrl, down: ks.control }
            &&& e[2] == KeyEvent { key: UiKey::ModShift, down: ks.shift }
            &&& e[3] == KeyEvent { key: UiKey::ModAlt, down: ks.menu }
            &&& e[4] == KeyEvent { key: UiKey::ModSuper, down: ks.apps }
            &&& e.subrange(5, e.len() as int) == if vk == 0x10 {
                side(ks.lshift, UiKey::LeftShift, ks.rshift, UiKey::RightShift)
            } else if vk == 0x11 {
                side(ks.lcontrol, UiKey::LeftCtrl, ks.rcontrol, UiKey::RightCtrl)
            } else if vk == 0x12 {
                side(ks.lmenu, UiKey::LeftAlt, ks.rmenu, UiKey::RightAlt)
            } else {
                Seq::<KeyEvent>::empty()
            }
        }),
{
    let e = key_message_events(state, wparam, lparam, mapped, ks);
    assert(e.subrange(5, e.len() as int) =~= side_events(
        spec_map_vkey(wparam, lparam, mapped),
        state == 0x0100 || state == 0x0104,
        ks,
    ));
}

/// Row `k` of the raw mouse button flags, in the order the events come:
/// the button, whether the flag presses it, and the flag's bit.
pub open spec fn raw_button_row(k: int) -> (MouseButton, bool, u16) {
    if k == 0 {
        (MouseButton::Left, true, 0x0001u16)
    } else if k == 1 {
        (MouseButton::Left, false, 0x0002u16)
    } else if k == 2 {
        (MouseButton::Right, true, 0x0004u16)
    } else if k == 3 {
        (MouseButton::Right, false, 0x0008u16)
    } else if k == 4 {
        (MouseButton::Middle, true, 0x0010u16)
    } else if k == 5 {
        (MouseButton::Middle, false, 0x0020u16)
    } else if k == 6 {
        (MouseButton::Extra1, true, 0x0040u16)
    } else if k == 7 {
        (MouseButton::Extra1, false, 0x0080u16)
    } else if k == 8 {
        (MouseButton::Extra2, true, 0x0100u16)
    } else {
        (MouseButton::Extra2, false, 0x0200u16)
    }
}

/// The button events of the first `n` rows whose flag is set in `flags`.
pub open spec fn raw_button_events(flags: u16, n: int) -> Seq<MouseEvent>
    decreases n,
{
    if n <= 0 {
        Seq::empty()
    } else {
        let row = raw_button_row(n - 1);
        raw_button_events(flags, n - 1) + if flags & row.2 != 0 {
            seq![MouseEvent::Button(row.0, row.1)]
        } else {
            Seq::empty()
        }
    }
}

/// A raw mouse record gives one button event per button flag that is set,
/// in the order left, right, middle, extra 1, extra 2 and press before
/// release: the down flags (bits 0, 2, 4, 6, 8) press their button and the
/// up flags (bits 1, 3, 5, 7, 9) release it. Then comes the wheel movement
/// in whole notches of 120 (rounded towards zero) of the signed button
/// data, in the first slot for the vertical wheel flag (bit 10) and in the
/// second for the horizontal one (bit 11); then the pointer, an absolute
/// position when bit 0 of the mouse flags is set and a movement otherwise.
pub proof fn lemma_raw_mouse_events(button_flags: u16, button_data: u16, mouse_flags: u16, last_x: i32, last_y: i32)
    ensures
        ({
            let raw = (button_data as i16) as int;
            let n = (if raw >= 0 { raw / 120 } else { -((-raw) / 120) }) as i16;
            let wheel_v = if button_flags & 0x0400u16 != 0 { n } else { 0i16 };
            let wheel_h = if button_flags & 0x0800u16 != 0 { n } else { 0i16 };
            let pos = if mouse_flags & 0x0001u16 != 0 {
                MouseEvent::Position(last_x, last_y)
            } else {
                MouseEvent::Moved(last_x, last_y)
            };
            raw_mouse_events(button_flags, button_data, mouse_flags, last_x, last_y)
                == raw_button_events(button_flags, 10) + seq![MouseEvent::Wheel(wheel_v, wheel_h), pos]
        }),
{
    reveal_with_fuel(raw_button_events, 11);
    let raw = (button_data as i16) as int;
    let n = (if raw >= 0 { raw / 120 } else { -((-raw) / 120) }) as i16;
    let wheel_v = if button_flags & 0x0400u16 != 0 { n } else { 0i16 };
    let wheel_h = if button_flags & 0x0800u16 != 0 { n } else { 0i16 };
    let pos = if mouse_flags & 0x0001u16 != 0 {
        MouseEvent::Position(last_x, last_y)
    } else {
        MouseEvent::Moved(last_x, last_y)
    };
    assert(raw_mouse_events(button_flags, button_data, mouse_flags, last_x, last_y)
        =~= raw_button_events(button_flags, 10) + seq![MouseEvent::Wheel(wheel_v, wheel_h), pos]);
}

/// Every button event of a raw mouse record matches a set flag: a press
/// only for a set down flag, a release only for a set up flag. In
/// particular a record without down flags presses nothing.
pub proof fn lemma_raw_button_events_follow_flags(flags: u16, n: int, i: int)
    requires
        0 <= n <= 10,
        0 <= i < raw_button_events(flags, n).len(),
    ensures
        raw_button_events(flags, n)[i] is Button,
        exists|k: int|
            0 <= k < n && #[trigger] raw_button_row(k) == (
                raw_button_events(flags, n)[i]->Button_0,
                raw_button_events(flags, n)[i]->Button_1,
                raw_button_row(k).2,
            ) && flags & raw_button_row(k).2 != 0,
        flags & 0x0155u16 == 0 ==> !raw_button_events(flags, n)[i]->Button_1,
    decreases n,
{
    let prev = raw_button_events(flags, n - 1);
    let row = raw_button_row(n - 1);
    if i < prev.len() {
        lemma_raw_button_events_follow_flags(flags, n - 1, i);
        assert(raw_button_events(flags, n)[i] == prev[i]);
    } else {
        assert(flags & row.2 != 0);
        assert(raw_button_events(flags, n)[i] == MouseEvent::Button(row.0, row.1));
        assert(raw_button_row(n - 1) == (row.0, row.1, raw_button_row(n - 1).2));
        if flags & 0x0155u16 == 0 && row.1 {
            assert(flags & 0x0155u16 == 0 ==> flags & 0x0001u16 == 0 && flags & 0x0004u16 == 0
                && flags & 0x0010u16 == 0 && flags & 0x0040u16 == 0 && flags & 0x0100u16 == 0)
                by (bit_vector);
        }
    }
}

/// Wheel notches truncate: `raw == notches * 120 + rest` with the rest
/// smaller than a notch and of the sign of `raw`.
pub proof fn lemma_wheel_steps_truncate(raw: i16)
    ensures
        ({
            let n = wheel_steps(raw as int);
            let rest = raw - n * 120;
            &&& raw >= 0 ==> 0 <= rest < 120
            &&& raw < 0 ==> -120 < rest <= 0
        }),
{
}

/// A raw keyboard record with key code `vkey`: none without a key code;
/// otherwise the key (the layout's key `mapped` for the generic shift 0x10,
/// control 0x11 and alt 0x12 keys when it has one, the key code otherwise)
/// unless it is 0xFF or past it; the key goes down when the flags are 0
/// (make) and up when bit 0 (break) is set. The scan code carries the
/// `E0` prefix (flag bit 1) as 0xE000 and the `E1` prefix (bit 2) as 0xE100.
pub proof fn lemma_raw_keyboard_records(vkey: u16, flags: u16, mapped: u32, make_code: u16)
    ensures
        ({
            let vk: u16 = if (vkey == 0x10 || vkey == 0x11 || vkey == 0x12) && mapped != 0 {
                (mapped % 0x10000) as u16
            } else {
                vkey
            };
            &&& spec_raw_key_action(vkey, flags, mapped) is None <==> (vkey == 0 || vk >= 0xFF)
            &&& spec_raw_key_action(vkey, flags, mapped) matches Some(a) ==> a.virtual_key == vk
                && a.key_down == (flags == 0) && a.key_up == (flags & 0x0001u16 != 0)
        }),
        spec_raw_scan_code(make_code, flags) == (make_code as u32 | (if flags & 0x0002u16 != 0 {
            0xe000u32
        } else {
            0u32
        })) | (if flags & 0x0004u16 != 0 {
            0xe100u32
        } else {
            0u32
        }),
{
    let c = make_code as u32;
    assert(c | 0u32 == c) by (bit_vector);
    assert((c | 0xe000u32) | 0u32 == c | 0xe000u32) by (bit_vector);
}

} // verus!
