use x11_window::text::{c_string, is_c_str, text_of};

#[test]
fn a_text_becomes_a_string_of_c() {
    assert_eq!(c_string("abc"), vec![97, 98, 99, 0]);
    assert_eq!(c_string(""), vec![0]);
    assert_eq!(c_string("é"), vec![0xc3, 0xa9, 0]);
}

#[test]
fn a_text_with_nul_is_no_string_of_c() {
    assert!(is_c_str("title"));
    assert!(is_c_str(""));
    assert!(!is_c_str("ti\0tle"));
    assert!(!is_c_str("\0"));
}

fn buffer(bytes: &[u8]) -> [u8; 16] {
    let mut r = [0xffu8; 16];
    r[..bytes.len()].copy_from_slice(bytes);
    r
}

#[test]
fn committed_text_is_decoded() {
    assert_eq!(text_of(&buffer("añ€".as_bytes()), 6), "añ€");
    assert_eq!(text_of(&buffer(b"abc"), 2), "ab");
    assert_eq!(text_of(&buffer(b"abc"), 0), "");
    assert_eq!(text_of(&buffer(b"0123456789abcdef"), 16), "0123456789abcdef");
}

#[test]
fn committed_bytes_that_are_not_utf8_are_dropped() {
    assert_eq!(text_of(&buffer(&[0x61, 0xff]), 2), "");
    // The last character is cut off.
    assert_eq!(text_of(&buffer("a€".as_bytes()), 3), "");
}
