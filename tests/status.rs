use ttspico::status::{check_status, status_ok, PicoError, PICO_EXC_CANT_OPEN_FILE, PICO_EXC_FILE_NOT_FOUND, PICO_OK, PICO_WARN_RESOURCE_DOUBLE_LOAD};
use ttspico::text::PicoString;

fn message(text: &[u8], capacity: usize) -> PicoString {
    let mut s = PicoString::new(capacity);
    s.as_mut_bytes()[..text.len()].copy_from_slice(text);
    s
}

#[test]
fn ok_status_is_success() {
    assert!(status_ok(PICO_OK));
    assert!(!status_ok(PICO_STEP_IDLE_CODE));
    let empty = PicoString::new(0);
    assert_eq!(check_status(PICO_OK, &empty), Ok(()));
}

const PICO_STEP_IDLE_CODE: i32 = 200;

#[test]
fn error_carries_code_and_message() {
    let msg = message(b"file not found", 200);
    let err = check_status(PICO_EXC_FILE_NOT_FOUND, &msg).unwrap_err();
    assert_eq!(err.code, -43);
    assert_eq!(err.descr, "file not found");
}

#[test]
fn missing_resource_file_scenario() {
    let msg = message(b"can't open file", 200);
    let err = check_status(PICO_EXC_CANT_OPEN_FILE, &msg).unwrap_err();
    assert!(err.code == PICO_EXC_CANT_OPEN_FILE || err.code == PICO_EXC_FILE_NOT_FOUND);
    assert!(!err.descr.is_empty());
}

#[test]
fn warnings_are_not_success() {
    let msg = message(b"resource double load", 200);
    let err = check_status(PICO_WARN_RESOURCE_DOUBLE_LOAD, &msg).unwrap_err();
    assert_eq!(err.code, 51);
    assert_eq!(err.descr, "resource double load");
}

#[test]
fn message_stops_at_terminator() {
    let msg = message(b"bad\0garbage", 200);
    let err = PicoError::from_status(-102, &msg);
    assert_eq!(err.descr, "bad");
}

#[test]
fn invalid_message_keeps_code() {
    let msg = message(&[b'a', 0xff, b'b'], 200);
    let err = PicoError::from_status(-999, &msg);
    assert_eq!(err.code, -999);
    assert!(err.descr.starts_with("[invalid Pico message: "));
    assert!(err.descr.ends_with("]"));
    assert!(err.descr.len() > "[invalid Pico message: ]".len());
}

#[test]
fn unterminated_message_uses_whole_buffer() {
    let msg = message(b"abcd", 4);
    let err = PicoError::from_status(-10, &msg);
    assert_eq!(err.descr, "abcd");
}

#[test]
fn error_text_shows_code() {
    let e = PicoError { code: -43, descr: String::from("file not found") };
    assert_eq!(e.to_string(), "file not found (error -43)");
    let w = PicoError { code: 51, descr: String::from("double load") };
    assert_eq!(w.to_string(), "double load (error 51)");
    let m = PicoError { code: i32::MIN, descr: String::new() };
    assert_eq!(m.to_string(), " (error -2147483648)");
}

#[test]
fn errors_compare_by_code_and_text() {
    let a = PicoError { code: -1, descr: String::from("x") };
    let b = PicoError { code: -1, descr: String::from("x") };
    let c = PicoError { code: -2, descr: String::from("x") };
    assert_eq!(a, b);
    assert_ne!(a, c);
}
