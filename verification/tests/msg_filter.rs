use hudhook::msg_filter::{
    MessageFilter, INPUT_ALL, INPUT_KEYBOARD, INPUT_MOUSE, INPUT_RAW, RANGE_APP_PRIVATE,
    RANGE_APP_REGISTERED, RANGE_PRIVATE_RESERVED, RANGE_SYSTEM_DEFINED, WINDOW_ALL, WINDOW_CLOSE,
    WINDOW_CONTROL, WINDOW_FOCUS, WM_ACTIVATE, WM_CHAR, WM_CLOSE, WM_INPUT, WM_KEYDOWN, WM_KEYLAST,
    WM_LBUTTONDOWN, WM_MOUSEHWHEEL, WM_MOVE, WM_SETFOCUS, WM_SIZE, WM_SYSCOMMAND,
};

#[test]
fn empty_filter_blocks_nothing() {
    let f = MessageFilter::empty();
    for id in [0u32, WM_KEYDOWN, WM_LBUTTONDOWN, WM_INPUT, WM_CLOSE, 0x0400, 0x8000, 0xC000, 0xFFFF] {
        assert!(!f.is_blocking(id));
    }
}

#[test]
fn category_flags_block_their_messages() {
    let keyboard = MessageFilter::from_bits_retain(INPUT_KEYBOARD);
    assert!(keyboard.is_blocking(WM_KEYDOWN));
    assert!(keyboard.is_blocking(WM_CHAR));
    assert!(keyboard.is_blocking(WM_KEYLAST));
    assert!(!keyboard.is_blocking(WM_LBUTTONDOWN));

    let mouse = MessageFilter::from_bits_retain(INPUT_MOUSE);
    assert!(mouse.is_blocking(WM_LBUTTONDOWN));
    assert!(mouse.is_blocking(WM_MOUSEHWHEEL));
    assert!(!mouse.is_blocking(WM_KEYDOWN));

    let raw = MessageFilter::from_bits_retain(INPUT_RAW);
    assert!(raw.is_blocking(WM_INPUT));
    assert!(!raw.is_blocking(WM_KEYDOWN));

    let focus = MessageFilter::from_bits_retain(WINDOW_FOCUS);
    assert!(focus.is_blocking(WM_ACTIVATE));
    assert!(focus.is_blocking(WM_SETFOCUS));
    assert!(!focus.is_blocking(WM_CLOSE));

    let control = MessageFilter::from_bits_retain(WINDOW_CONTROL);
    assert!(control.is_blocking(WM_SYSCOMMAND));
    assert!(control.is_blocking(WM_MOVE));
    assert!(control.is_blocking(WM_SIZE));
    assert!(!control.is_blocking(WM_ACTIVATE));

    let close = MessageFilter::from_bits_retain(WINDOW_CLOSE);
    assert!(close.is_blocking(WM_CLOSE));
    assert!(!close.is_blocking(WM_SIZE));
}

#[test]
fn range_flags_block_whole_ranges() {
    let system = MessageFilter::from_bits_retain(RANGE_SYSTEM_DEFINED);
    assert!(system.is_blocking(0));
    assert!(system.is_blocking(0x03FF));
    assert!(!system.is_blocking(0x0400));

    let private = MessageFilter::from_bits_retain(RANGE_PRIVATE_RESERVED);
    assert!(private.is_blocking(0x0400));
    assert!(private.is_blocking(0x7FFF));
    assert!(!private.is_blocking(0x8000));

    let app = MessageFilter::from_bits_retain(RANGE_APP_PRIVATE);
    assert!(app.is_blocking(0x8000));
    assert!(app.is_blocking(0xBFFF));
    assert!(!app.is_blocking(0xC000));

    let registered = MessageFilter::from_bits_retain(RANGE_APP_REGISTERED);
    assert!(registered.is_blocking(0xC000));
    assert!(registered.is_blocking(0xFFFF));
    // Identifiers past 0xFFFF are never blocked.
    assert!(!registered.is_blocking(0x10000));
    let all = MessageFilter::from_bits_retain(u32::MAX);
    assert!(!all.is_blocking(0x10000));
}

#[test]
fn composite_flags_and_union() {
    assert_eq!(INPUT_ALL, INPUT_KEYBOARD | INPUT_MOUSE | INPUT_RAW);
    assert_eq!(WINDOW_ALL, WINDOW_FOCUS | WINDOW_CONTROL | WINDOW_CLOSE);
    let input = MessageFilter::from_bits_retain(INPUT_ALL);
    assert!(input.is_blocking(WM_KEYDOWN) && input.is_blocking(WM_LBUTTONDOWN) && input.is_blocking(WM_INPUT));
    assert!(!input.is_blocking(WM_CLOSE));
    let both = MessageFilter::from_bits_retain(INPUT_KEYBOARD)
        .union(MessageFilter::from_bits_retain(WINDOW_CLOSE));
    assert_eq!(both.bits(), INPUT_KEYBOARD | WINDOW_CLOSE);
    assert!(both.is_blocking(WM_KEYDOWN));
    assert!(both.is_blocking(WM_CLOSE));
    assert!(!both.is_blocking(WM_LBUTTONDOWN));
    assert!(both.contains(MessageFilter::from_bits_retain(INPUT_KEYBOARD)));
    assert!(!both.contains(MessageFilter::from_bits_retain(INPUT_ALL)));
}

#[test]
fn more_flags_block_more_messages() {
    let small = MessageFilter::from_bits_retain(INPUT_MOUSE);
    let large = MessageFilter::from_bits_retain(INPUT_MOUSE | WINDOW_ALL);
    for id in 0u32..0x0500 {
        if small.is_blocking(id) {
            assert!(large.is_blocking(id));
        }
    }
}
