use hudhook::process_name::{ansi_name_matches, find_ansi, find_wide, name_end_u16, name_end_u8, wide_name_matches};

fn wide(s: &str) -> Vec<u16> {
    s.encode_utf16().collect()
}

fn buffer(s: &str, len: usize) -> Vec<u8> {
    let mut b = s.as_bytes().to_vec();
    b.resize(len, 0);
    b
}

#[test]
fn names_end_at_the_first_zero() {
    assert_eq!(name_end_u8(&[b'a', b'b', 0, b'c']), 2);
    assert_eq!(name_end_u8(&[b'a', b'b']), 2);
    assert_eq!(name_end_u16(&[0, 1]), 0);
}

#[test]
fn ansi_names_compare_on_the_common_prefix() {
    let entry = buffer("notepad.exe", 260);
    assert!(ansi_name_matches(&entry, b"notepad.exe"));
    assert!(!ansi_name_matches(&entry, b"calc.exe"));
    // Only the positions both names have are compared.
    assert!(ansi_name_matches(&entry, b"note"));
    assert!(ansi_name_matches(&buffer("note", 260), b"notepad.exe"));
}

#[test]
fn wide_names_must_be_equal() {
    let mut entry = wide("notepad.exe");
    entry.resize(260, 0);
    assert!(wide_name_matches(&entry, &wide("notepad.exe")));
    assert!(!wide_name_matches(&entry, &wide("note")));
    assert!(!wide_name_matches(&entry, &wide("notepad.exe2")));
}

#[test]
fn the_first_matching_entry_is_found() {
    let entries = vec![buffer("System", 16), buffer("game.exe", 16), buffer("game.exe", 16)];
    assert_eq!(find_ansi(&entries, b"game.exe"), Some(1));
    assert_eq!(find_ansi(&entries, b"other.exe"), None);
    let mut w = vec![wide("System"), wide("game.exe")];
    w[0].resize(16, 0);
    assert_eq!(find_wide(&w, &wide("game.exe")), Some(1));
    assert_eq!(find_wide(&w, &wide("game")), None);
}
