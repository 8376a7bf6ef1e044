use hudhook::bmh::{aob_scan_buffer, bmh, into_needle};

#[test]
fn test_bmh() {
    let haystack = [0u8, 0, 0, 1, 2, 3, 4, 5, 4, 3, 2, 1];
    let needle1 = into_needle("00 00 00 01");
    let needle2 = into_needle("01 00 00 01");
    let needle3 = into_needle("01 02 ?? 04");
    assert_eq!(bmh(&haystack, &needle1), Some(0usize));
    assert_eq!(bmh(&haystack, &needle2), None);
    assert_eq!(bmh(&haystack, &needle3), Some(3usize));
}

#[test]
fn test_into_needle() {
    assert_eq!(into_needle("00 11 22 ??"), vec![Some(0x00), Some(0x11), Some(0x22), None]);
}

#[test]
fn into_needle_reads_pieces_like_from_str_radix() {
    // Upper and lower case digits, a leading plus sign and leading zeros.
    assert_eq!(into_needle("Ff +a 0001"), vec![Some(0xff), Some(0x0a), Some(0x01)]);
    // Values over a byte, signs, empty pieces and stray text are wildcards.
    assert_eq!(into_needle("100 -1 + zz ?"), vec![None, None, None, None, None]);
    assert_eq!(into_needle(""), vec![None]);
    assert_eq!(into_needle("01  02"), vec![Some(0x01), None, Some(0x02)]);
}

#[test]
fn bmh_finds_the_first_occurrence_of_a_concrete_pattern() {
    let haystack = [7u8, 1, 2, 9, 1, 2, 9, 1, 2];
    assert_eq!(bmh(&haystack, &into_needle("01 02 09")), Some(1));
    assert_eq!(bmh(&haystack, &into_needle("09 01 02")), Some(3));
    assert_eq!(bmh(&haystack, &into_needle("02 02")), None);
    // A pattern longer than the haystack is never found.
    assert_eq!(bmh(&[1u8, 2], &into_needle("01 02 03")), None);
    // A trailing wildcard keeps the search exact.
    assert_eq!(bmh(&haystack, &into_needle("02 ??")), Some(2));
}

#[test]
fn bmh_finds_matches_after_a_wildcard() {
    // A wildcard matches every byte, so the shift never jumps past it.
    let haystack = [5u8, 5, 1];
    assert_eq!(bmh(&haystack, &into_needle("?? 01")), Some(1));
    let haystack = [5u8, 1, 7];
    assert_eq!(bmh(&haystack, &into_needle("?? 01")), Some(0));
    let haystack = [9u8, 9, 9, 3, 7, 4, 2];
    assert_eq!(bmh(&haystack, &into_needle("03 ?? 04")), Some(3));
    assert_eq!(bmh(&haystack, &into_needle("?? ?? 02")), Some(4));
    assert_eq!(bmh(&haystack, &into_needle("04 ?? 09")), None);
}

#[test]
fn aob_scan_buffer_only_reads_the_filled_prefix() {
    let buffer = [0u8, 1, 2, 3, 4, 5];
    assert_eq!(aob_scan_buffer("03 04", &buffer, 6), Some(3));
    assert_eq!(aob_scan_buffer("03 04", &buffer, 4), None);
    assert_eq!(aob_scan_buffer("?? 01", &buffer, 2), Some(0));
}

#[test]
fn hex_bytes_joined_by_spaces_parse_back() {
    let bytes = [0x00u8, 0x7f, 0xa5, 0xff, 0x10];
    let text = bytes.iter().map(|b| format!("{:02x}", b)).collect::<Vec<_>>().join(" ");
    assert_eq!(into_needle(&text), bytes.iter().map(|&b| Some(b)).collect::<Vec<Option<u8>>>());
}
