//! Filtering of window messages: which message identifiers a render loop
//! keeps from reaching the host application's window procedure.
use vstd::prelude::*;

verus! {

/// Blocks keyboard input event messages.
pub const INPUT_KEYBOARD: u32 = 0x1u32;
/// Blocks mouse input event messages.
pub const INPUT_MOUSE: u32 = 0x2u32;
/// Blocks raw input event messages.
pub const INPUT_RAW: u32 = 0x4u32;
/// Blocks window gain/lose focus event messages.
pub const WINDOW_FOCUS: u32 = 0x100u32;
/// Blocks window control event messages like move, resize, minimize.
pub const WINDOW_CONTROL: u32 = 0x200u32;
/// Blocks window close messages.
pub const WINDOW_CLOSE: u32 = 0x400u32;
/// Blocks message identifiers from 0 to `WM_USER - 1`.
pub const RANGE_SYSTEM_DEFINED: u32 = 0x1000_0000u32;
/// Blocks message identifiers from `WM_USER` to `WM_APP - 1`.
pub const RANGE_PRIVATE_RESERVED: u32 = 0x2000_0000u32;
/// Blocks message identifiers from `WM_APP` to 0xBFFF.
pub const RANGE_APP_PRIVATE: u32 = 0x4000_0000u32;
/// Blocks message identifiers from 0xC000 to 0xFFFF.
pub const RANGE_APP_REGISTERED: u32 = 0x8000_0000u32;
/// Blocks keyboard, mouse and raw input messages.
pub const INPUT_ALL: u32 = 0x7u32;
/// Blocks window focus, control and close messages.
pub const WINDOW_ALL: u32 = 0x700u32;

pub const WM_NULL: u32 = 0x0000u32;
pub const WM_MOVE: u32 = 0x0003u32;
pub const WM_SIZE: u32 = 0x0005u32;
pub const WM_ACTIVATE: u32 = 0x0006u32;
pub const WM_SETFOCUS: u32 = 0x0007u32;
pub const WM_KILLFOCUS: u32 = 0x0008u32;
pub const WM_ENABLE: u32 = 0x000Au32;
pub const WM_CLOSE: u32 = 0x0010u32;
pub const WM_SHOWWINDOW: u32 = 0x0018u32;
pub const WM_ACTIVATEAPP: u32 = 0x001Cu32;
pub const WM_MOUSEACTIVATE: u32 = 0x0021u32;
pub const WM_GETMINMAXINFO: u32 = 0x0024u32;
pub const WM_WINDOWPOSCHANGING: u32 = 0x0046u32;
pub const WM_WINDOWPOSCHANGED: u32 = 0x0047u32;
pub const WM_INPUT: u32 = 0x00FFu32;
pub const WM_KEYFIRST: u32 = 0x0100u32;
pub const WM_KEYDOWN: u32 = 0x0100u32;
pub const WM_KEYUP: u32 = 0x0101u32;
pub const WM_CHAR: u32 = 0x0102u32;
pub const WM_SYSKEYDOWN: u32 = 0x0104u32;
pub const WM_SYSKEYUP: u32 = 0x0105u32;
pub const WM_KEYLAST: u32 = 0x0109u32;
pub const WM_SYSCOMMAND: u32 = 0x0112u32;
pub const WM_MOUSEFIRST: u32 = 0x0200u32;
pub const WM_MOUSEMOVE: u32 = 0x0200u32;
pub const WM_LBUTTONDOWN: u32 = 0x0201u32;
pub const WM_LBUTTONUP: u32 = 0x0202u32;
pub const WM_LBUTTONDBLCLK: u32 = 0x0203u32;
pub const WM_RBUTTONDOWN: u32 = 0x0204u32;
pub const WM_RBUTTONUP: u32 = 0x0205u32;
pub const WM_RBUTTONDBLCLK: u32 = 0x0206u32;
pub const WM_MBUTTONDOWN: u32 = 0x0207u32;
pub const WM_MBUTTONUP: u32 = 0x0208u32;
pub const WM_MBUTTONDBLCLK: u32 = 0x0209u32;
pub const WM_MOUSEWHEEL: u32 = 0x020Au32;
pub const WM_XBUTTONDOWN: u32 = 0x020Bu32;
pub const WM_XBUTTONUP: u32 = 0x020Cu32;
pub const WM_XBUTTONDBLCLK: u32 = 0x020Du32;
pub const WM_MOUSEHWHEEL: u32 = 0x020Eu32;
pub const WM_MOUSELAST: u32 = 0x020Eu32;
pub const WM_SIZING: u32 = 0x0214u32;
pub const WM_MOVING: u32 = 0x0216u32;
pub const WM_ENTERSIZEMOVE: u32 = 0x0231u32;
pub const WM_EXITSIZEMOVE: u32 = 0x0232u32;
pub const WM_USER: u32 = 0x0400u32;
pub const WM_APP: u32 = 0x8000u32;

/// A set of message categories, held as the bits above.
#[derive(Clone, Copy, Debug, PartialEq, Eq, Structural)]
pub struct MessageFilter {
    bits: u32,
}

/// The message is one of those that a window-focus filter blocks.
pub open spec fn is_focus_message(id: u32) -> bool {
    id == WM_MOUSEACTIVATE || id == WM_ACTIVATEAPP || id == WM_ACTIVATE || id == WM_SETFOCUS
        || id == WM_KILLFOCUS || id == WM_ENABLE
}

/// The message is one of those that a window-control filter blocks.
pub open spec fn is_control_message(id: u32) -> bool {
    id == WM_SYSCOMMAND || id == WM_GETMINMAXINFO || id == WM_ENTERSIZEMOVE || id
        == WM_EXITSIZEMOVE || id == WM_WINDOWPOSCHANGING || id == WM_WINDOWPOSCHANGED || id
        == WM_SHOWWINDOW || id == WM_MOVING || id == WM_MOVE || id == WM_SIZING || id == WM_SIZE
}

/// The flag whose presence blocks the whole identifier range of `id`.
pub open spec fn range_flag(id: u32) -> u32 {
    if id < WM_USER {
        RANGE_SYSTEM_DEFINED
    } else if id < WM_APP {
        RANGE_PRIVATE_RESERVED
    } else if id < 0xC000 {
        RANGE_APP_PRIVATE
    } else {
        RANGE_APP_REGISTERED
    }
}

/// The flag of the message category of `id`, or 0 for a message that belongs
/// to no category.
pub open spec fn category_flag(id: u32) -> u32 {
    if WM_KEYFIRST <= id <= WM_KEYLAST {
        INPUT_KEYBOARD
    } else if WM_MOUSEFIRST <= id <= WM_MOUSELAST {
        INPUT_MOUSE
    } else if id == WM_INPUT {
        INPUT_RAW
    } else if is_focus_message(id) {
        WINDOW_FOCUS
    } else if is_control_message(id) {
        WINDOW_CONTROL
    } else if id == WM_CLOSE {
        WINDOW_CLOSE
    } else {
        0
    }
}

/// `bits` holds every bit of `flag`.
pub open spec fn has_flags(bits: u32, flag: u32) -> bool {
    bits & flag == flag
}

/// A filter made of `bits` blocks message `id`: identifiers past 0xFFFF are
/// never blocked; otherwise the message is blocked when its identifier range
/// is blocked, or when its category is.
pub open spec fn blocks(bits: u32, id: u32) -> bool {
    if id > 0xFFFF {
        false
    } else {
        has_flags(bits, range_flag(id)) || (category_flag(id) != 0 && has_flags(
            bits,
            category_flag(id),
        ))
    }
}

impl MessageFilter {
    /// The filter's bits.
    pub closed spec fn spec_bits(self) -> u32 {
        self.bits
    }

    /// The filter that blocks nothing.
    pub fn empty() -> (r: Self)
        ensures
            r.spec_bits() == 0,
    {
        MessageFilter { bits: 0 }
    }

    /// The filter with exactly these bits.
    pub fn from_bits_retain(bits: u32) -> (r: Self)
        ensures
            r.spec_bits() == bits,
    {
        MessageFilter { bits }
    }

    /// The filter's bits.
    pub fn bits(&self) -> (r: u32)
        ensures
            r == self.spec_bits(),
    {
        self.bits
    }

    /// Whether every flag of `other` is set in this filter.
    pub fn contains(&self, other: Self) -> (r: bool)
        ensures
            r == has_flags(self.spec_bits(), other.spec_bits()),
    {
        self.bits & other.bits == other.bits
    }

    /// The filter that blocks what either filter blocks.
    pub fn union(self, other: Self) -> (r: Self)
        ensures
            r.spec_bits() == self.spec_bits() | other.spec_bits(),
    {
        MessageFilter { bits: self.bits | other.bits }
    }

    /// Checks whether the message identifier is blocked by this filter.
    pub fn is_blocking(&self, message_id: u32) -> (r: bool)
        ensures
            r == blocks(self.spec_bits(), message_id),
    {
        let range_flag = if message_id <= 0x03FF {
            RANGE_SYSTEM_DEFINED
        } else if message_id <= 0x7FFF {
            RANGE_PRIVATE_RESERVED
        } else if message_id <= 0xBFFF {
            RANGE_APP_PRIVATE
        } else if message_id <= 0xFFFF {
            RANGE_APP_REGISTERED
        } else {
            return false;
        };
        if self.bits & range_flag == range_flag {
            return true;
        }
        let id = message_id;
        let flag = if WM_KEYFIRST <= id && id <= WM_KEYLAST {
            INPUT_KEYBOARD
        } else if WM_MOUSEFIRST <= id && id <= WM_MOUSELAST {
            INPUT_MOUSE
        } else if id == WM_INPUT {
            INPUT_RAW
        } else if id == WM_MOUSEACTIVATE || id == WM_ACTIVATEAPP || id == WM_ACTIVATE || id
            == WM_SETFOCUS || id == WM_KILLFOCUS || id == WM_ENABLE {
            WINDOW_FOCUS
        } else if id == WM_SYSCOMMAND || id == WM_GETMINMAXINFO || id == WM_ENTERSIZEMOVE || id
            == WM_EXITSIZEMOVE || id == WM_WINDOWPOSCHANGING || id == WM_WINDOWPOSCHANGED || id
            == WM_SHOWWINDOW || id == WM_MOVING || id == WM_MOVE || id == WM_SIZING || id
            == WM_SIZE {
            WINDOW_CONTROL
        } else if id == WM_CLOSE {
            WINDOW_CLOSE
        } else {
            return false;
        };
        self.bits & flag == flag
    }
}

/// The empty filter blocks no message.
pub proof fn lemma_empty_blocks_nothing(id: u32)
    ensures
        !blocks(0, id),
{
    assert(0u32 & RANGE_SYSTEM_DEFINED == 0) by (bit_vector);
    assert(0u32 & RANGE_PRIVATE_RESERVED == 0) by (bit_vector);
    assert(0u32 & RANGE_APP_PRIVATE == 0) by (bit_vector);
    assert(0u32 & RANGE_APP_REGISTERED == 0) by (bit_vector);
    assert(0u32 & INPUT_KEYBOARD == 0) by (bit_vector);
    assert(0u32 & INPUT_MOUSE == 0) by (bit_vector);
    assert(0u32 & INPUT_RAW == 0) by (bit_vector);
    assert(0u32 & WINDOW_FOCUS == 0) by (bit_vector);
    assert(0u32 & WINDOW_CONTROL == 0) by (bit_vector);
    assert(0u32 & WINDOW_CLOSE == 0) by (bit_vector);
}

/// A filter with more flags blocks at least the messages that one with fewer
/// flags blocks.
pub proof fn lemma_blocks_monotone(a: u32, b: u32, id: u32)
    requires
        a & b == a,
        blocks(a, id),
    ensures
        blocks(b, id),
{
    let r = range_flag(id);
    let c = category_flag(id);
    assert(a & b == a && a & r == r ==> b & r == r) by (bit_vector);
    assert(a & b == a && a & c == c ==> b & c == c) by (bit_vector);
}

/// Blocking a range of identifiers blocks every message in it below 0x10000.
pub proof fn lemma_range_flag_blocks_range(bits: u32, id: u32)
    requires
        id <= 0xFFFF,
        has_flags(bits, range_flag(id)),
    ensures
        blocks(bits, id),
{
}

/// The single category flags, and what each one blocks on its own: a filter
/// made of one category flag blocks exactly the messages of that category.
/// Keyboard (bit 0): 0x0100 to 0x0109. Mouse (bit 1): 0x0200 to 0x020E.
/// Raw input (bit 2): 0x00FF. Window focus (bit 8): `WM_ACTIVATE` (0x06),
/// `WM_SETFOCUS` (0x07), `WM_KILLFOCUS` (0x08), `WM_ENABLE` (0x0A),
/// `WM_ACTIVATEAPP` (0x1C), `WM_MOUSEACTIVATE` (0x21). Window control (bit 9):
/// `WM_MOVE` (0x03), `WM_SIZE` (0x05), `WM_SHOWWINDOW` (0x18),
/// `WM_GETMINMAXINFO` (0x24), `WM_WINDOWPOSCHANGING` (0x46),
/// `WM_WINDOWPOSCHANGED` (0x47), `WM_SYSCOMMAND` (0x112), `WM_SIZING`
/// (0x214), `WM_MOVING` (0x216), `WM_ENTERSIZEMOVE` (0x231),
/// `WM_EXITSIZEMOVE` (0x232). Window close (bit 10): `WM_CLOSE` (0x10).
pub proof fn lemma_single_category_filters(id: u32)
    ensures
        blocks(0x0000_0001u32, id) <==> 0x0100 <= id <= 0x0109,
        blocks(0x0000_0002u32, id) <==> 0x0200 <= id <= 0x020E,
        blocks(0x0000_0004u32, id) <==> id == 0x00FF,
        blocks(0x0000_0100u32, id) <==> (id == 0x0006 || id == 0x0007 || id == 0x0008 || id
            == 0x000A || id == 0x001C || id == 0x0021),
        blocks(0x0000_0200u32, id) <==> (id == 0x0003 || id == 0x0005 || id == 0x0018 || id
            == 0x0024 || id == 0x0046 || id == 0x0047 || id == 0x0112 || id == 0x0214 || id
            == 0x0216 || id == 0x0231 || id == 0x0232),
        blocks(0x0000_0400u32, id) <==> id == 0x0010,
{
    assert(forall|f: u32, c: u32|
        (f == 0x1u32 || f == 0x2u32 || f == 0x4u32 || f == 0x100u32 || f == 0x200u32 || f
            == 0x400u32) && (c == 0x1u32 || c == 0x2u32 || c == 0x4u32 || c == 0x100u32 || c
            == 0x200u32 || c == 0x400u32 || c == 0x1000_0000u32 || c == 0x2000_0000u32 || c
            == 0x4000_0000u32 || c == 0x8000_0000u32) ==> ((f & c == c) <==> f == c))
        by (bit_vector);
}

/// Any filter that holds a category flag blocks every message of that
/// category (stated with the message identifiers).
pub proof fn lemma_category_flag_blocks(bits: u32, id: u32)
    ensures
        bits & 0x1u32 == 0x1u32 && 0x0100 <= id <= 0x0109 ==> blocks(bits, id),
        bits & 0x2u32 == 0x2u32 && 0x0200 <= id <= 0x020E ==> blocks(bits, id),
        bits & 0x4u32 == 0x4u32 && id == 0x00FF ==> blocks(bits, id),
        bits & 0x100u32 == 0x100u32 && (id == 0x0006 || id == 0x0007 || id == 0x0008 || id
            == 0x000A || id == 0x001C || id == 0x0021) ==> blocks(bits, id),
        bits & 0x200u32 == 0x200u32 && (id == 0x0003 || id == 0x0005 || id == 0x0018 || id
            == 0x0024 || id == 0x0046 || id == 0x0047 || id == 0x0112 || id == 0x0214 || id
            == 0x0216 || id == 0x0231 || id == 0x0232) ==> blocks(bits, id),
        bits & 0x400u32 == 0x400u32 && id == 0x0010 ==> blocks(bits, id),
{
}

/// The range flags block whole identifier ranges, and nothing blocks an
/// identifier past 0xFFFF: bit 28 blocks 0 to 0x03FF, bit 29 0x0400 to
/// 0x7FFF, bit 30 0x8000 to 0xBFFF, bit 31 0xC000 to 0xFFFF.
pub proof fn lemma_range_flags_block_ranges(bits: u32, id: u32)
    ensures
        id > 0xFFFF ==> !blocks(bits, id),
        bits & 0x1000_0000u32 == 0x1000_0000u32 && id <= 0x03FF ==> blocks(bits, id),
        bits & 0x2000_0000u32 == 0x2000_0000u32 && 0x0400 <= id <= 0x7FFF ==> blocks(bits, id),
        bits & 0x4000_0000u32 == 0x4000_0000u32 && 0x8000 <= id <= 0xBFFF ==> blocks(bits, id),
        bits & 0x8000_0000u32 == 0x8000_0000u32 && 0xC000 <= id <= 0xFFFF ==> blocks(bits, id),
{
}

} // verus!
