//! Native status codes and their translation into structured errors.
use vstd::prelude::*;
use vstd::utf8::*;
use crate::text::{c_text, decimal, push_decimal, PicoString};

verus! {

/// Status code of a successful native call.
pub const PICO_OK: i32 = 0;

/// Code carried by errors raised by this library itself rather than the engine.
pub const INTERNAL_ERROR_CODE: i32 = -1;

pub const PICO_EXC_NUMBER_FORMAT: i32 = -10;
pub const PICO_EXC_MAX_NUM_EXCEED: i32 = -11;
pub const PICO_EXC_NAME_CONFLICT: i32 = -12;
pub const PICO_EXC_NAME_UNDEFINED: i32 = -13;
pub const PICO_EXC_NAME_ILLEGAL: i32 = -14;
pub const PICO_EXC_BUF_OVERFLOW: i32 = -20;
pub const PICO_EXC_BUF_UNDERFLOW: i32 = -21;
pub const PICO_EXC_BUF_IGNORE: i32 = -22;
pub const PICO_EXC_OUT_OF_MEM: i32 = -30;
pub const PICO_EXC_CANT_OPEN_FILE: i32 = -40;
pub const PICO_EXC_UNEXPECTED_FILE_TYPE: i32 = -41;
pub const PICO_EXC_FILE_CORRUPT: i32 = -42;
pub const PICO_EXC_FILE_NOT_FOUND: i32 = -43;
pub const PICO_EXC_RESOURCE_BUSY: i32 = -50;
pub const PICO_EXC_RESOURCE_MISSING: i32 = -51;
pub const PICO_EXC_KB_MISSING: i32 = -60;

pub const PICO_ERR_NULLPTR_ACCESS: i32 = -100;
pub const PICO_ERR_INVALID_HANDLE: i32 = -101;
pub const PICO_ERR_INVALID_ARGUMENT: i32 = -102;
pub const PICO_ERR_INDEX_OUT_OF_RANGE: i32 = -103;
pub const PICO_ERR_OTHER: i32 = -999;

pub const PICO_WARN_INCOMPLETE: i32 = 10;
pub const PICO_WARN_FALLBACK: i32 = 11;
pub const PICO_WARN_OTHER: i32 = 19;
pub const PICO_WARN_KB_OVERWRITE: i32 = 50;
pub const PICO_WARN_RESOURCE_DOUBLE_LOAD: i32 = 51;
pub const PICO_WARN_INVECTOR: i32 = 60;
pub const PICO_WARN_CLASSIFICATION: i32 = 61;
pub const PICO_WARN_OUTVECTOR: i32 = 62;
pub const PICO_WARN_PU_IRREG_ITEM: i32 = 70;
pub const PICO_WARN_PU_DISCARD_BUF: i32 = 71;

/// Status of a synthesis step after which no more audio is pending.
pub const PICO_STEP_IDLE: i32 = 200;
/// Status of a synthesis step after which more audio is pending.
pub const PICO_STEP_BUSY: i32 = 201;
pub const PICO_STEP_ERROR: i32 = -200;

/// Capacity of the buffer the engine writes a status message into.
pub const PICO_RETSTRINGSIZE: usize = 200;

/// An error reported by the engine, or raised by this library (code `INTERNAL_ERROR_CODE`).
#[derive(Debug)]
pub struct PicoError {
    /// The status code of the error.
    pub code: i32,
    /// A human-readable description of the error.
    pub descr: String,
}

impl PartialEq for PicoError {
    fn eq(&self, other: &PicoError) -> (r: bool) {
        self.code == other.code && self.descr == other.descr
    }
}

impl vstd::std_specs::cmp::PartialEqSpecImpl for PicoError {
    open spec fn obeys_eq_spec() -> bool {
        true
    }

    open spec fn eq_spec(&self, other: &PicoError) -> bool {
        self.code == other.code && self.descr@ == other.descr@
    }
}

impl Eq for PicoError {}

/// The description substituted for a status message that is not valid UTF-8.
pub open spec fn invalid_message(detail: Seq<char>) -> Seq<char> {
    "[invalid Pico message: "@ + detail + "]"@
}

/// What a status message buffer says: its text decoded, or a placeholder naming the
/// decoding failure, described by some detail text.
pub open spec fn describes_message(descr: Seq<char>, message: Seq<u8>) -> bool {
    if valid_utf8(c_text(message)) {
        descr == decode_utf8(c_text(message))
    } else {
        exists|detail: Seq<char>| descr == invalid_message(detail)
    }
}

/// A signed integer in decimal, with a leading minus sign when negative.
pub open spec fn signed_decimal(n: int) -> Seq<char> {
    if n < 0 {
        seq!['-'] + decimal((-n) as nat)
    } else {
        decimal(n as nat)
    }
}

/// Returns whether a native status code denotes success.
pub fn status_ok(code: i32) -> (r: bool)
    ensures
        r == (code == PICO_OK),
{
    code == PICO_OK
}

impl PicoError {
    /// Builds the error for a non-success status `code`, whose message the engine wrote
    /// into `message`. A message that does not decode is replaced by a placeholder, so
    /// that the code is never lost.
    pub fn from_status(code: i32, message: &PicoString) -> (e: PicoError)
        ensures
            e.code == code,
            describes_message(e.descr@, message@),
    {
        match message.to_str() {
            Ok(text) => PicoError { code, descr: String::from_str(text) },
            Err(err) => {
                let detail = err.to_string();
                let mut descr = String::from_str("[invalid Pico message: ");
                descr.append(detail.as_str());
                descr.append("]");
                assert(descr@ == invalid_message(detail@));
                PicoError { code, descr }
            },
        }
    }

    /// The error as text: its description followed by its code.
    pub fn to_string(&self) -> (s: String)
        ensures
            s@ == self.descr@ + " (error "@ + signed_decimal(self.code as int) + ")"@,
    {
        let mut s = self.descr.clone();
        s.append(" (error ");
        if self.code < 0 {
            let ghost head = s@;
            s.append("-");
            let magnitude = (-(self.code as i64)) as usize;
            push_decimal(&mut s, magnitude);
            proof {
                reveal_strlit("-");
                assert(s@ =~= head + signed_decimal(self.code as int));
            }
        } else {
            push_decimal(&mut s, self.code as usize);
        }
        s.append(")");
        assert(s@ =~= self.descr@ + " (error "@ + signed_decimal(self.code as int) + ")"@);
        s
    }
}

/// Translates a native status code: success for `PICO_OK`, otherwise the error built
/// from the message the engine wrote for that code.
pub fn check_status(code: i32, message: &PicoString) -> (r: Result<(), PicoError>)
    ensures
        r is Ok <==> code == PICO_OK,
        r matches Err(e) ==> e.code == code && describes_message(e.descr@, message@),
{
    if code == PICO_OK {
        Ok(())
    } else {
        Err(PicoError::from_status(code, message))
    }
}

} // verus!
