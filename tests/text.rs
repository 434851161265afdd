use ttspico::status::INTERNAL_ERROR_CODE;
use ttspico::text::{bytes_equal, c_text_len_of, find_nul, make_cstring, PicoString};

#[test]
fn new_buffer_is_empty_text() {
    let s = PicoString::new(32);
    assert_eq!(s.capacity(), 32);
    assert!(s.as_bytes().iter().all(|b| *b == 0));
    assert_eq!(s.to_str().unwrap(), "");
}

#[test]
fn buffer_decodes_written_text() {
    let mut s = PicoString::new(8);
    s.as_mut_bytes()[..3].copy_from_slice(b"hey");
    assert_eq!(s.capacity(), 8);
    assert_eq!(s.to_str().unwrap(), "hey");
}

#[test]
fn buffer_rejects_invalid_utf8() {
    let mut s = PicoString::new(4);
    s.as_mut_bytes()[0] = 0xc3;
    assert!(s.to_str().is_err());
}

#[test]
fn terminator_search() {
    assert_eq!(find_nul(b"ab\0c\0"), Some(2));
    assert_eq!(find_nul(b"abc"), None);
    assert_eq!(c_text_len_of(b"ab\0c"), 2);
    assert_eq!(c_text_len_of(b"abc"), 3);
    assert_eq!(c_text_len_of(b""), 0);
}

#[test]
fn cstring_appends_terminator() {
    let c = make_cstring("TestVoice", "Invalid voice name").unwrap();
    assert_eq!(c.as_bytes_with_nul(), b"TestVoice\0");
    assert_eq!(c.to_str().unwrap(), "TestVoice");
    let e = make_cstring("", "x").unwrap();
    assert_eq!(e.as_bytes_with_nul(), b"\0");
}

#[test]
fn cstring_rejects_embedded_nul() {
    let err = make_cstring("ab\0cd\0", "Invalid resource name").unwrap_err();
    assert_eq!(err.code, INTERNAL_ERROR_CODE);
    assert_eq!(err.descr, "Invalid resource name: nul byte found in provided data at position: 2");
    let err = make_cstring("\0", "Invalid voice name").unwrap_err();
    assert_eq!(err.descr, "Invalid voice name: nul byte found in provided data at position: 0");
}

#[test]
fn cstring_rejects_late_nul() {
    let mut long = String::from("x").repeat(1234);
    long.push('\0');
    let err = make_cstring(&long, "p").unwrap_err();
    assert_eq!(err.descr, "p: nul byte found in provided data at position: 1234");
}

#[test]
fn native_strings_compare_by_bytes() {
    let a = make_cstring("voice", "x").unwrap();
    let b = make_cstring("voice", "y").unwrap();
    let c = make_cstring("voices", "x").unwrap();
    assert!(a == b);
    assert!(a != c);
    assert!(bytes_equal(b"ab", b"ab"));
    assert!(!bytes_equal(b"ab", b"abc"));
    assert!(!bytes_equal(b"ab", b"ac"));
}

#[test]
fn decimal_positions() {
    let mut s = String::from("x=");
    ttspico::text::push_decimal(&mut s, 0);
    assert_eq!(s, "x=0");
    let mut s = String::new();
    ttspico::text::push_decimal(&mut s, 9876543210);
    assert_eq!(s, "9876543210");
    let mut s = String::new();
    ttspico::text::push_decimal(&mut s, usize::MAX);
    assert_eq!(s, usize::MAX.to_string());
}
