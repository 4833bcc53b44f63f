use ruststringrange::range::RustStringRange;

#[test]
fn utf8_hello_has_five_bytes() {
    let r = RustStringRange::from_buffer_utf8(b"hello");
    assert_eq!(r.len(), 5);
    assert_eq!(r.as_slice(), "hello");
    assert_eq!(r.as_slice().as_bytes(), b"hello");
}

#[test]
fn utf16_hello_with_accent_decodes_to_six_utf8_bytes() {
    let units: [u16; 5] = [0x68, 0x00E9, 0x6C, 0x6C, 0x6F];
    let r = RustStringRange::from_buffer_utf16(&units);
    assert_eq!(r.len(), 6);
    assert_eq!(r.as_slice(), "h\u{e9}llo");
}

#[test]
fn valid_utf8_round_trips_byte_for_byte() {
    let input: &[u8] = "pr\u{e9}cis\u{e9}ment".as_bytes();
    let r = RustStringRange::from_buffer_utf8(input);
    assert_eq!(r.as_slice().as_bytes(), input);
    assert_eq!(r.len(), input.len());
}

#[test]
fn unpaired_surrogate_is_replaced_not_rejected() {
    let units: [u16; 2] = [0xD800, 0x0041];
    let r = RustStringRange::from_buffer_utf16(&units);
    assert_eq!(r.as_slice(), "\u{FFFD}A");
}

#[test]
fn truncated_utf8_is_replaced_not_rejected() {
    let bytes: [u8; 2] = [0x68, 0xE9];
    let r = RustStringRange::from_buffer_utf8(&bytes);
    assert_eq!(r.as_slice(), "h\u{FFFD}");
}

#[test]
fn invalid_utf8_in_the_middle_is_replaced() {
    let bytes: [u8; 4] = [0x61, 0xFF, 0xFE, 0x62];
    let r = RustStringRange::from_buffer_utf8(&bytes);
    assert_eq!(r.as_slice(), "a\u{FFFD}\u{FFFD}b");
}

#[test]
fn from_str_covers_the_whole_text() {
    let r = RustStringRange::from_str("abc");
    assert_eq!(r.len(), 3);
    assert_eq!(r.as_slice(), "abc");
}

#[test]
fn from_string_covers_the_whole_text() {
    let r = RustStringRange::from_string(String::from("h\u{e9}llo"));
    assert_eq!(r.len(), 6);
    assert_eq!(r.as_slice(), "h\u{e9}llo");
}

#[test]
fn empty_buffers_make_empty_ranges() {
    let no_units: [u16; 0] = [];
    let r16 = RustStringRange::from_buffer_utf16(&no_units);
    assert_eq!(r16.len(), 0);
    assert_eq!(r16.as_slice(), "");

    let no_bytes: [u8; 0] = [];
    let r8 = RustStringRange::from_buffer_utf8(&no_bytes);
    assert_eq!(r8.len(), 0);
    assert_eq!(r8.as_slice(), "");
}

#[test]
fn reads_of_one_range_always_agree() {
    let r = RustStringRange::from_str("stable");
    let p1 = r.as_slice().as_ptr();
    let l1 = r.len();
    let p2 = r.as_slice().as_ptr();
    let l2 = r.len();
    assert_eq!(p1, p2);
    assert_eq!(l1, l2);
    assert_eq!(l1, 6);
}
