//! Byte strings exchanged with the engine: the fixed-capacity buffers it writes names
//! and messages into, and the NUL-terminated strings handed to it.
use vstd::prelude::*;
use vstd::utf8::*;
use vstd::string::StringSliceAdditionalSpecFns;
use crate::status::{PicoError, INTERNAL_ERROR_CODE};

verus! {

/// The error of std's UTF-8 validation, carried through opaque.
#[verifier::external_type_specification]
#[verifier::external_body]
pub struct ExUtf8Error(core::str::Utf8Error);

/// Relies on core::str::from_utf8: it accepts exactly the valid UTF-8 byte sequences
/// and then returns their decoded text.
pub assume_specification[ core::str::from_utf8 ](v: &[u8]) -> (r: Result<&str, core::str::Utf8Error>)
    ensures
        r is Ok <==> valid_utf8(v@),
        r matches Ok(s) ==> s@ == decode_utf8(v@),
;

/// Whether `n` is the index of the first zero byte of `buf`.
pub open spec fn is_first_nul(buf: Seq<u8>, n: int) -> bool {
    &&& 0 <= n < buf.len()
    &&& buf[n] == 0
    &&& forall|j: int| 0 <= j < n ==> buf[j] != 0
}

/// Length of the NUL-terminated text at the start of `buf`: the index of its first zero
/// byte, or the whole buffer when it holds none.
pub open spec fn c_text_len(buf: Seq<u8>) -> int {
    if exists|n: int| is_first_nul(buf, n) {
        choose|n: int| is_first_nul(buf, n)
    } else {
        buf.len() as int
    }
}

/// The NUL-terminated text at the start of `buf`, without its terminator.
pub open spec fn c_text(buf: Seq<u8>) -> Seq<u8> {
    buf.subrange(0, c_text_len(buf))
}

proof fn lemma_first_nul_unique(buf: Seq<u8>, n: int)
    requires
        is_first_nul(buf, n),
    ensures
        c_text_len(buf) == n,
{
    let m = choose|m: int| is_first_nul(buf, m);
    assert(is_first_nul(buf, m));
    if m < n {
        assert(buf[m] != 0);
    } else if n < m {
        assert(buf[n] != 0);
    }
}

/// Finds the first zero byte of `buf`, if any.
pub fn find_nul(buf: &[u8]) -> (r: Option<usize>)
    ensures
        r matches Some(n) ==> is_first_nul(buf@, n as int),
        r is None ==> forall|j: int| 0 <= j < buf@.len() ==> buf@[j] != 0,
{
    let mut i: usize = 0;
    while i < buf.len()
        invariant
            i <= buf@.len(),
            forall|j: int| 0 <= j < i ==> buf@[j] != 0,
        decreases buf@.len() - i,
    {
        if buf[i] == 0 {
            return Some(i);
        }
        i = i + 1;
    }
    None
}

/// Length of the NUL-terminated text at the start of `buf`.
pub fn c_text_len_of(buf: &[u8]) -> (n: usize)
    ensures
        n == c_text_len(buf@),
        n <= buf@.len(),
{
    match find_nul(buf) {
        Some(n) => {
            proof {
                lemma_first_nul_unique(buf@, n as int);
            }
            n
        },
        None => {
            assert(!exists|n: int| is_first_nul(buf@, n));
            buf.len()
        },
    }
}

/// A fixed-capacity byte buffer that the engine writes a NUL-terminated string into
/// (a resource name, a status message). Its capacity never changes; its memory is
/// released exactly once, when it is dropped.
#[derive(Debug)]
pub struct PicoString {
    buf: Vec<u8>,
}

impl View for PicoString {
    type V = Seq<u8>;

    closed spec fn view(&self) -> Seq<u8> {
        self.buf@
    }
}

impl PicoString {
    /// Allocates a zero-filled buffer of `size` bytes, which reads as the empty string.
    pub fn new(size: usize) -> (s: PicoString)
        ensures
            s@ == Seq::new(size as nat, |i: int| 0u8),
    {
        let buf: Vec<u8> = vec![0u8; size];
        assert(buf@ =~= Seq::new(size as nat, |i: int| 0u8));
        PicoString { buf }
    }

    /// The buffer's capacity in bytes.
    pub fn capacity(&self) -> (n: usize)
        ensures
            n == self@.len(),
    {
        self.buf.len()
    }

    /// Read access to the raw bytes.
    pub fn as_bytes(&self) -> (b: &[u8])
        ensures
            b@ == self@,
    {
        self.buf.as_slice()
    }

    /// Write access to the raw bytes, for the native call that fills the buffer; the
    /// capacity cannot change through it.
    pub fn as_mut_bytes(&mut self) -> (b: &mut [u8])
        ensures
            b@ == old(self)@,
            final(self)@ == final(b)@,
    {
        self.buf.as_mut_slice()
    }

    /// The stored string, decoded as UTF-8: the bytes before the first zero byte, or the
    /// whole buffer when it holds none.
    pub fn to_str(&self) -> (r: Result<&str, core::str::Utf8Error>)
        ensures
            r is Ok <==> valid_utf8(c_text(self@)),
            r matches Ok(s) ==> s@ == decode_utf8(c_text(self@)),
    {
        let n = c_text_len_of(self.buf.as_slice());
        let bytes = vstd::slice::slice_subrange(self.buf.as_slice(), 0, n);
        core::str::from_utf8(bytes)
    }
}

/// A string in the form the engine takes it: its bytes, none of them zero, followed by
/// one terminating zero byte.
#[derive(Debug)]
pub struct NativeString {
    bytes: Vec<u8>,
}

impl View for NativeString {
    type V = Seq<u8>;

    /// The string's bytes, without the terminator.
    closed spec fn view(&self) -> Seq<u8> {
        self.bytes@.drop_last()
    }
}

impl NativeString {
    /// The string is its bytes followed by exactly one zero byte.
    #[verifier::type_invariant]
    spec fn wf(&self) -> bool {
        &&& self.bytes@.len() >= 1
        &&& self.bytes@.last() == 0
        &&& forall|j: int| 0 <= j < self.bytes@.len() - 1 ==> self.bytes@[j] != 0
    }

    /// The bytes handed to the engine, terminator included.
    pub fn as_bytes_with_nul(&self) -> (b: &[u8])
        ensures
            b@ == self@.push(0),
            forall|j: int| 0 <= j < self@.len() ==> self@[j] != 0,
    {
        proof {
            use_type_invariant(self);
            assert(self.bytes@ =~= self@.push(0));
        }
        self.bytes.as_slice()
    }

    /// The string decoded as UTF-8.
    pub fn to_str(&self) -> (r: Result<&str, core::str::Utf8Error>)
        ensures
            r is Ok <==> valid_utf8(self@),
            r matches Ok(s) ==> s@ == decode_utf8(self@),
    {
        proof {
            use_type_invariant(self);
        }
        let n = self.bytes.len() - 1;
        let bytes = vstd::slice::slice_subrange(self.bytes.as_slice(), 0, n);
        core::str::from_utf8(bytes)
    }
}

/// Whether two byte slices hold the same bytes.
pub fn bytes_equal(a: &[u8], b: &[u8]) -> (r: bool)
    ensures
        r == (a@ == b@),
{
    if a.len() != b.len() {
        return false;
    }
    let mut i: usize = 0;
    while i < a.len()
        invariant
            a@.len() == b@.len(),
            i <= a@.len(),
            forall|j: int| 0 <= j < i ==> a@[j] == b@[j],
        decreases a@.len() - i,
    {
        if a[i] != b[i] {
            return false;
        }
        i = i + 1;
    }
    assert(a@ =~= b@);
    true
}

impl PartialEq for NativeString {
    fn eq(&self, other: &NativeString) -> (r: bool) {
        let r = bytes_equal(self.bytes.as_slice(), other.bytes.as_slice());
        proof {
            if self@ == other@ {
                use_type_invariant(self);
                use_type_invariant(other);
                assert(self.bytes@ =~= self@.push(0));
                assert(other.bytes@ =~= other@.push(0));
            }
        }
        r
    }
}

impl vstd::std_specs::cmp::PartialEqSpecImpl for NativeString {
    open spec fn obeys_eq_spec() -> bool {
        true
    }

    open spec fn eq_spec(&self, other: &NativeString) -> bool {
        self@ == other@
    }
}

impl Eq for NativeString {}

/// Decimal digits of `n`, most significant first, without leading zeros.
pub open spec fn decimal(n: nat) -> Seq<char>
    decreases n,
{
    if n < 10 {
        seq![digit_char(n)]
    } else {
        decimal(n / 10).push(digit_char(n % 10))
    }
}

/// The character of a decimal digit.
pub open spec fn digit_char(d: nat) -> char {
    (('0' as u32) + d) as char
}

/// The one-character text of the decimal digit `d`.
fn digit_text(d: usize) -> (r: &'static str)
    requires
        d < 10,
    ensures
        r@ == seq![digit_char(d as nat)],
{
    proof {
        reveal_strlit("0");
        reveal_strlit("1");
        reveal_strlit("2");
        reveal_strlit("3");
        reveal_strlit("4");
        reveal_strlit("5");
        reveal_strlit("6");
        reveal_strlit("7");
        reveal_strlit("8");
        reveal_strlit("9");
    }
    match d {
        0 => "0",
        1 => "1",
        2 => "2",
        3 => "3",
        4 => "4",
        5 => "5",
        6 => "6",
        7 => "7",
        8 => "8",
        _ => "9",
    }
}

/// Appends `n` in decimal to `s`.
pub fn push_decimal(s: &mut String, n: usize)
    ensures
        final(s)@ == old(s)@ + decimal(n as nat),
    decreases n,
{
    if n >= 10 {
        push_decimal(s, n / 10);
    }
    s.append(digit_text(n % 10));
    assert(final(s)@ =~= old(s)@ + decimal(n as nat));
}

/// The text that describes a string rejected for holding a zero byte at `pos`.
pub open spec fn nul_error_text(err_descr: Seq<char>, pos: nat) -> Seq<char> {
    err_descr + ": nul byte found in provided data at position: "@ + decimal(pos)
}

/// Converts `string` to the form the engine takes. A string holding a zero byte cannot
/// be represented: it is rejected with an internal error whose description starts with
/// `err_descr` and gives the position of the first zero byte.
pub fn make_cstring(string: &str, err_descr: &str) -> (r: Result<NativeString, PicoError>)
    ensures
        match r {
            Ok(s) => s@ == string.spec_bytes(),
            Err(e) => exists|n: int|
                is_first_nul(string.spec_bytes(), n) && e.code == INTERNAL_ERROR_CODE
                    && e.descr@ == nul_error_text(err_descr@, n as nat),
        },
        r is Ok <==> forall|j: int|
            0 <= j < string.spec_bytes().len() ==> string.spec_bytes()[j] != 0,
{
    let bytes = string.as_bytes();
    match find_nul(bytes) {
        Some(pos) => {
            let mut descr = String::from_str(err_descr);
            descr.append(": nul byte found in provided data at position: ");
            push_decimal(&mut descr, pos);
            Err(PicoError { code: INTERNAL_ERROR_CODE, descr })
        },
        None => {
            let mut v: Vec<u8> = Vec::new();
            let mut i: usize = 0;
            while i < bytes.len()
                invariant
                    i <= bytes@.len(),
                    v@ == bytes@.subrange(0, i as int),
                decreases bytes@.len() - i,
            {
                v.push(bytes[i]);
                i = i + 1;
            }
            v.push(0u8);
            proof {
                assert(v@.drop_last() =~= bytes@);
            }
            Ok(NativeString { bytes: v })
        },
    }
}

} // verus!

verus! {

/// Decoding UTF-8 never yields more characters than there are bytes.
pub proof fn lemma_decoded_len_le(bytes: Seq<u8>)
    requires
        valid_utf8(bytes),
    ensures
        decode_utf8(bytes).len() <= bytes.len(),
    decreases bytes.len(),
{
    if bytes.len() > 0 {
        let rest = pop_first_scalar(bytes);
        assert(1 <= length_of_first_scalar(bytes) <= bytes.len());
        assert(rest.len() < bytes.len());
        lemma_decoded_len_le(rest);
    }
}

} // verus!
