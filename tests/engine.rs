use ttspico::engine::{
    get_data_len, get_data_outcome, put_text_len, put_text_outcome, Engine, EngineResetMode, EngineStatus,
    PICO_DATA_PCM_16BIT, PICO_INT16_MAX,
};
use ttspico::status::{PICO_OK, PICO_STEP_BUSY, PICO_STEP_IDLE};
use ttspico::text::PicoString;

fn msg(text: &[u8]) -> PicoString {
    let mut s = PicoString::new(200);
    s.as_mut_bytes()[..text.len()].copy_from_slice(text);
    s
}

#[test]
fn engine_keeps_its_voice() {
    let e = Engine::create("voice", 0x99, PICO_OK, &PicoString::new(0)).unwrap();
    assert_eq!(*e.voice(), "voice");
    assert_eq!(e.handle(), 0x99);
}

#[test]
fn engine_creation_failure() {
    let err = Engine::create((), 0, -51, &msg(b"resource missing")).unwrap_err();
    assert_eq!(err.code, -51);
    assert_eq!(err.descr, "resource missing");
}

#[test]
fn put_text_is_capped() {
    assert_eq!(put_text_len(0), 0);
    assert_eq!(put_text_len(4), 4);
    assert_eq!(put_text_len(32767), 32767);
    assert_eq!(put_text_len(40000), PICO_INT16_MAX);
    assert_eq!(put_text_len(usize::MAX), 32767);
}

#[test]
fn put_text_outcomes() {
    assert_eq!(put_text_outcome(PICO_OK, 3, &PicoString::new(0)), Ok(3));
    assert_eq!(put_text_outcome(PICO_OK, -5, &PicoString::new(0)), Ok(0));
    let err = put_text_outcome(-20, 0, &msg(b"overflow")).unwrap_err();
    assert_eq!(err.code, -20);
    assert_eq!(err.descr, "overflow");
}

#[test]
fn get_data_counts_bytes() {
    assert_eq!(get_data_len(0), 0);
    assert_eq!(get_data_len(1024), 2048);
    assert_eq!(get_data_len(16383), 32766);
    assert_eq!(get_data_len(16384), 32767);
    assert_eq!(get_data_len(usize::MAX), 32767);
}

#[test]
fn get_data_outcomes() {
    let none = PicoString::new(0);
    assert_eq!(get_data_outcome(PICO_STEP_BUSY, 2048, PICO_DATA_PCM_16BIT, &none), Ok((1024, EngineStatus::Busy)));
    assert_eq!(get_data_outcome(PICO_STEP_IDLE, 0, PICO_DATA_PCM_16BIT, &none), Ok((0, EngineStatus::Idle)));
    assert_eq!(get_data_outcome(PICO_STEP_IDLE, 7, PICO_DATA_PCM_16BIT, &none), Ok((3, EngineStatus::Idle)));
    let err = get_data_outcome(-200, 0, PICO_DATA_PCM_16BIT, &msg(b"step error")).unwrap_err();
    assert_eq!(err.code, -200);
    assert_eq!(err.descr, "step error");
}

#[test]
fn native_codes_of_modes_and_statuses() {
    assert_eq!(EngineResetMode::Full.native_mode(), 0);
    assert_eq!(EngineResetMode::Soft.native_mode(), 16);
    assert_eq!(EngineStatus::Idle.native_code(), 200);
    assert_eq!(EngineStatus::Busy.native_code(), 201);
}

#[test]
fn engines_compare_by_voice_and_handle() {
    let none = PicoString::new(0);
    let a = Engine::create(7u32, 0x99, PICO_OK, &none).unwrap();
    let b = Engine::create(7u32, 0x99, PICO_OK, &none).unwrap();
    let c = Engine::create(8u32, 0x99, PICO_OK, &none).unwrap();
    let d = Engine::create(7u32, 0x98, PICO_OK, &none).unwrap();
    assert!(a == b);
    assert!(a != c);
    assert!(a != d);
}

#[test]
fn get_data_success_status_is_an_error() {
    let err = get_data_outcome(PICO_OK, 10, PICO_DATA_PCM_16BIT, &msg(b"no step status")).unwrap_err();
    assert_eq!(err.code, 0);
    assert_eq!(err.descr, "no step status");
    let err = get_data_outcome(12345, 10, PICO_DATA_PCM_16BIT, &msg(b"odd")).unwrap_err();
    assert_eq!(err.code, 12345);
}
