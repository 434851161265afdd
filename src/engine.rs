//! Engines: one-shot synthesis sessions created from a voice, and the translation of
//! their streaming calls.
use vstd::prelude::*;
use crate::status::{
    check_status, describes_message, PicoError, PICO_OK, PICO_STEP_BUSY, PICO_STEP_IDLE,
};
use crate::text::PicoString;

verus! {

/// Most bytes of text or audio moved by one native call.
pub const PICO_INT16_MAX: i16 = 32767;

/// The data-type tag of 16-bit signed PCM audio, the only format the engine emits.
pub const PICO_DATA_PCM_16BIT: i16 = 1;

/// Sample rate of the audio, in samples per second (mono).
pub const SAMPLE_RATE_HZ: u32 = 16000;

/// Native code of a full reset.
pub const PICO_RESET_FULL: i32 = 0;

/// Native code of a soft reset.
pub const PICO_RESET_SOFT: i32 = 16;

/// An engine's status after a synthesis step.
#[derive(Debug, Clone, Copy, PartialEq, Eq, Structural)]
pub enum EngineStatus {
    /// No more audio until more text is put in.
    Idle,
    /// More audio is pending: step again to get it.
    Busy,
}

impl EngineStatus {
    /// The native step status this stands for.
    pub fn native_code(&self) -> (c: i32)
        ensures
            c == match self {
                EngineStatus::Idle => PICO_STEP_IDLE,
                EngineStatus::Busy => PICO_STEP_BUSY,
            },
    {
        match self {
            EngineStatus::Idle => PICO_STEP_IDLE,
            EngineStatus::Busy => PICO_STEP_BUSY,
        }
    }
}

/// The ways an engine can be reset.
#[derive(Debug, Clone, Copy, PartialEq, Eq, Structural)]
pub enum EngineResetMode {
    /// Full reset: the recovery after an error raised by a synthesis step.
    Full,
    /// Soft reset: flushes the internal input and output buffers.
    Soft,
}

impl EngineResetMode {
    /// The native code of the mode.
    pub fn native_mode(&self) -> (m: i32)
        ensures
            m == match self {
                EngineResetMode::Full => PICO_RESET_FULL,
                EngineResetMode::Soft => PICO_RESET_SOFT,
            },
    {
        match self {
            EngineResetMode::Full => PICO_RESET_FULL,
            EngineResetMode::Soft => PICO_RESET_SOFT,
        }
    }
}

/// A synthesis engine. It holds its voice (through `V`, the caller's reference to it)
/// so that the voice, and the resources and system behind it, outlive the engine.
#[derive(Debug)]
pub struct Engine<V> {
    voice: V,
    c_engine: usize,
}

impl<V> Engine<V> {
    pub closed spec fn spec_voice(&self) -> V {
        self.voice
    }

    pub closed spec fn spec_handle(&self) -> usize {
        self.c_engine
    }

    /// Completes the creation of an engine for `voice`, once the engine's creation
    /// returned `code` and the handle `c_engine`.
    pub fn create(voice: V, c_engine: usize, code: i32, message: &PicoString) -> (r: Result<
        Engine<V>,
        PicoError,
    >)
        ensures
            r is Ok <==> code == PICO_OK,
            r matches Ok(e) ==> e.spec_voice() == voice && e.spec_handle() == c_engine,
            r matches Err(e) ==> e.code == code && describes_message(e.descr@, message@),
    {
        match check_status(code, message) {
            Ok(()) => Ok(Engine { voice, c_engine }),
            Err(e) => Err(e),
        }
    }

    /// The voice this engine was created from.
    pub fn voice(&self) -> (v: &V)
        ensures
            *v == self.spec_voice(),
    {
        &self.voice
    }

    /// The native engine handle.
    pub fn handle(&self) -> (h: usize)
        ensures
            h == self.spec_handle(),
    {
        self.c_engine
    }
}

impl<V: PartialEq + vstd::std_specs::cmp::PartialEqSpec> PartialEq for Engine<V> {
    /// Two engines are the same when they are the same handle of the same voice.
    fn eq(&self, other: &Engine<V>) -> (r: bool) {
        self.c_engine == other.c_engine && self.voice == other.voice
    }
}

impl<V: PartialEq + vstd::std_specs::cmp::PartialEqSpec> vstd::std_specs::cmp::PartialEqSpecImpl for Engine<V> {
    open spec fn obeys_eq_spec() -> bool {
        V::obeys_eq_spec()
    }

    open spec fn eq_spec(&self, other: &Engine<V>) -> bool {
        self.spec_handle() == other.spec_handle() && self.spec_voice().eq_spec(&other.spec_voice())
    }
}

impl<V: Eq + vstd::std_specs::cmp::PartialEqSpec> Eq for Engine<V> {}

/// The smaller of two integers.
pub open spec fn min_int(a: int, b: int) -> int {
    if a <= b {
        a
    } else {
        b
    }
}

/// How many bytes of a text of `text_len` bytes one call puts into the engine.
pub fn put_text_len(text_len: usize) -> (n: i16)
    ensures
        n == min_int(text_len as int, PICO_INT16_MAX as int),
{
    if text_len < PICO_INT16_MAX as usize {
        text_len as i16
    } else {
        PICO_INT16_MAX
    }
}

/// Translates what putting text returned: the status `code` and the number of bytes
/// the engine accepted (a negative count reads as none).
pub fn put_text_outcome(code: i32, bytes_put: i16, message: &PicoString) -> (r: Result<
    usize,
    PicoError,
>)
    ensures
        r is Ok <==> code == PICO_OK,
        r matches Ok(n) ==> n == if bytes_put < 0 {
            0
        } else {
            bytes_put as int
        },
        r matches Err(e) ==> e.code == code && describes_message(e.descr@, message@),
{
    match check_status(code, message) {
        Ok(()) => {
            if bytes_put < 0 {
                Ok(0)
            } else {
                Ok(bytes_put as usize)
            }
        },
        Err(e) => Err(e),
    }
}

/// How many bytes of audio one step may write into a buffer of `samples` samples.
pub fn get_data_len(samples: usize) -> (n: i16)
    ensures
        n == min_int(2 * samples, PICO_INT16_MAX as int),
{
    if samples <= (PICO_INT16_MAX / 2) as usize {
        (2 * samples) as i16
    } else {
        PICO_INT16_MAX
    }
}

/// Translates what a synthesis step returned: its status `code`, the number of bytes
/// written and their data type. The result counts samples, not bytes; every status
/// other than busy or idle, success included, is an error.
pub fn get_data_outcome(code: i32, written: i16, dtype: i16, message: &PicoString) -> (r: Result<
    (usize, EngineStatus),
    PicoError,
>)
    requires
        dtype == PICO_DATA_PCM_16BIT,
    ensures
        r is Ok <==> (code == PICO_STEP_BUSY || code == PICO_STEP_IDLE),
        r matches Ok((n, status)) ==> n == (if written < 0 {
            0
        } else {
            written as int
        }) / 2 && status == (if code == PICO_STEP_BUSY {
            EngineStatus::Busy
        } else {
            EngineStatus::Idle
        }),
        r matches Err(e) ==> e.code == code && describes_message(e.descr@, message@),
{
    let n: usize = if written < 0 {
        0
    } else {
        written as usize / 2
    };
    if code == PICO_STEP_BUSY {
        Ok((n, EngineStatus::Busy))
    } else if code == PICO_STEP_IDLE {
        Ok((n, EngineStatus::Idle))
    } else {
        Err(PicoError::from_status(code, message))
    }
}

} // verus!
