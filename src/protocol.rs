//! The synthesis protocol: all text, then a terminating zero byte, is put into the
//! engine, honouring partial acceptance; then audio is drained step by step until the
//! engine reports that it is idle.
use vstd::prelude::*;
use crate::engine::{min_int, EngineStatus, PICO_INT16_MAX};

verus! {

/// What a speech job needs next.
#[derive(Debug, Clone, Copy, PartialEq, Eq, Structural)]
pub enum SynthesisStep {
    /// Put the pending text into the engine.
    PutText,
    /// Run a synthesis step and hand over the audio it wrote.
    GetData,
    /// Nothing: all text was put and the engine reported idle.
    Done,
}

/// Length of the chunk offered at `offset` of an input of `input_len` bytes.
pub open spec fn chunk_len(input_len: int, offset: int) -> int {
    min_int(input_len - offset, PICO_INT16_MAX as int)
}

/// The offset after the engine accepted `accepted` bytes of the chunk offered at
/// `offset`; acceptance beyond the chunk counts as the whole chunk.
pub open spec fn advance(input_len: int, offset: int, accepted: nat) -> int {
    offset + min_int(accepted as int, chunk_len(input_len, offset))
}

/// The offset reached once the engine accepted `counts[0]`, `counts[1]`, ... bytes of
/// the successive chunks offered to it.
pub open spec fn fed_len(input_len: int, counts: Seq<nat>) -> int
    decreases counts.len(),
{
    if counts.len() == 0 {
        0
    } else {
        advance(input_len, fed_len(input_len, counts.drop_last()), counts.last())
    }
}

/// The bytes the engine accepted, in the order it accepted them, when it accepted
/// `counts[0]`, `counts[1]`, ... bytes of the successive chunks offered to it.
pub open spec fn fed_bytes(input: Seq<u8>, counts: Seq<nat>) -> Seq<u8>
    decreases counts.len(),
{
    if counts.len() == 0 {
        Seq::<u8>::empty()
    } else {
        let before = fed_len(input.len() as int, counts.drop_last());
        fed_bytes(input, counts.drop_last()) + input.subrange(
            before,
            advance(input.len() as int, before, counts.last()),
        )
    }
}

/// However the engine splits its acceptance, what it accepted is a prefix of the input,
/// taken in order, without gap or repetition.
pub proof fn lemma_fed_prefix(input: Seq<u8>, counts: Seq<nat>)
    ensures
        0 <= fed_len(input.len() as int, counts) <= input.len(),
        fed_bytes(input, counts) == input.subrange(0, fed_len(input.len() as int, counts)),
    decreases counts.len(),
{
    if counts.len() > 0 {
        let before = fed_len(input.len() as int, counts.drop_last());
        lemma_fed_prefix(input, counts.drop_last());
        let after = advance(input.len() as int, before, counts.last());
        assert(input.subrange(0, before) + input.subrange(before, after) =~= input.subrange(0, after));
    }
}

/// Chunking does not change what the engine is given: two ways of accepting the whole
/// input hand it the same bytes, the input itself.
pub proof fn lemma_chunking_invariant(input: Seq<u8>, a: Seq<nat>, b: Seq<nat>)
    requires
        fed_len(input.len() as int, a) == input.len(),
        fed_len(input.len() as int, b) == input.len(),
    ensures
        fed_bytes(input, a) == input,
        fed_bytes(input, b) == input,
{
    lemma_fed_prefix(input, a);
    lemma_fed_prefix(input, b);
    assert(input.subrange(0, input.len() as int) =~= input);
}

/// One text-to-speech job driven through an engine: the text with its terminating
/// zero byte is put in chunks, then audio is collected until the engine is idle.
pub struct SpeechJob {
    input: Vec<u8>,
    offset: usize,
    samples: Vec<i16>,
    finished: bool,
    accepted: Ghost<Seq<nat>>,
}

impl SpeechJob {
    /// The accepted offset lies within the input and is where the recorded acceptance
    /// counts lead; a finished job has put all of its input.
    pub closed spec fn wf(&self) -> bool {
        &&& self.offset <= self.input@.len()
        &&& self.offset == fed_len(self.input@.len() as int, self.accepted@)
        &&& self.finished ==> self.offset == self.input@.len()
    }

    /// The bytes to put into the engine: the text and its terminating zero byte.
    pub closed spec fn spec_input(&self) -> Seq<u8> {
        self.input@
    }

    /// How many bytes of the input the engine has accepted.
    pub closed spec fn spec_offset(&self) -> nat {
        self.offset as nat
    }

    /// The counts of bytes the engine accepted, call by call.
    pub closed spec fn spec_accepted(&self) -> Seq<nat> {
        self.accepted@
    }

    /// The audio collected so far.
    pub closed spec fn spec_samples(&self) -> Seq<i16> {
        self.samples@
    }

    /// Whether the engine reported idle after all input was put.
    pub closed spec fn spec_finished(&self) -> bool {
        self.finished
    }

    /// A job that speaks `text`. The terminating zero byte that makes the engine
    /// synthesize is appended.
    pub fn new(text: &[u8]) -> (j: SpeechJob)
        ensures
            j.wf(),
            j.spec_input() == text@.push(0),
            j.spec_offset() == 0,
            j.spec_accepted().len() == 0,
            j.spec_samples().len() == 0,
            !j.spec_finished(),
    {
        let mut input: Vec<u8> = Vec::new();
        let mut i: usize = 0;
        while i < text.len()
            invariant
                i <= text@.len(),
                input@ == text@.subrange(0, i as int),
            decreases text@.len() - i,
        {
            input.push(text[i]);
            i = i + 1;
        }
        input.push(0u8);
        proof {
            assert(input@ =~= text@.push(0));
        }
        SpeechJob {
            input,
            offset: 0,
            samples: Vec::new(),
            finished: false,
            accepted: Ghost(Seq::empty()),
        }
    }

    /// What the job needs next: text while some remains, then audio until the engine
    /// is idle, then nothing.
    pub fn next_step(&self) -> (s: SynthesisStep)
        ensures
            s == if self.spec_offset() < self.spec_input().len() {
                SynthesisStep::PutText
            } else if !self.spec_finished() {
                SynthesisStep::GetData
            } else {
                SynthesisStep::Done
            },
    {
        if self.offset < self.input.len() {
            SynthesisStep::PutText
        } else if !self.finished {
            SynthesisStep::GetData
        } else {
            SynthesisStep::Done
        }
    }

    /// The chunk to offer the engine next: the input from the accepted offset on, at
    /// most as much as one call moves.
    pub fn pending_text(&self) -> (t: &[u8])
        requires
            self.wf(),
        ensures
            t@ == self.spec_input().subrange(
                self.spec_offset() as int,
                self.spec_offset() + chunk_len(self.spec_input().len() as int, self.spec_offset() as int),
            ),
    {
        let remaining = self.input.len() - self.offset;
        let n: usize = if remaining < PICO_INT16_MAX as usize {
            remaining
        } else {
            PICO_INT16_MAX as usize
        };
        vstd::slice::slice_subrange(self.input.as_slice(), self.offset, self.offset + n)
    }

    /// Records that the engine accepted `accepted` bytes of the pending chunk.
    pub fn text_accepted(&mut self, accepted: usize)
        requires
            old(self).wf(),
            old(self).spec_offset() < old(self).spec_input().len(),
        ensures
            final(self).wf(),
            final(self).spec_offset() == advance(
                old(self).spec_input().len() as int,
                old(self).spec_offset() as int,
                accepted as nat,
            ),
            final(self).spec_accepted() == old(self).spec_accepted().push(accepted as nat),
            final(self).spec_input() == old(self).spec_input(),
            final(self).spec_samples() == old(self).spec_samples(),
            !final(self).spec_finished(),
    {
        let remaining = self.input.len() - self.offset;
        let chunk: usize = if remaining < PICO_INT16_MAX as usize {
            remaining
        } else {
            PICO_INT16_MAX as usize
        };
        let step: usize = if accepted < chunk {
            accepted
        } else {
            chunk
        };
        let ghost next = self.accepted@.push(accepted as nat);
        assert(next.drop_last() =~= self.accepted@);
        self.offset = self.offset + step;
        self.accepted = Ghost(next);
    }

    /// Records the audio `audio` that a synthesis step wrote, and the status the engine
    /// reported after it. The job is finished once the engine reports idle.
    pub fn audio_received(&mut self, audio: &[i16], status: EngineStatus)
        requires
            old(self).wf(),
            old(self).spec_offset() == old(self).spec_input().len(),
            !old(self).spec_finished(),
        ensures
            final(self).wf(),
            final(self).spec_samples() == old(self).spec_samples() + audio@,
            final(self).spec_finished() == (status == EngineStatus::Idle),
            final(self).spec_input() == old(self).spec_input(),
            final(self).spec_offset() == old(self).spec_offset(),
            final(self).spec_accepted() == old(self).spec_accepted(),
    {
        let mut i: usize = 0;
        let ghost before = self.samples@;
        while i < audio.len()
            invariant
                i <= audio@.len(),
                self.samples@ == before + audio@.subrange(0, i as int),
                self.offset == old(self).offset,
                self.input == old(self).input,
                self.finished == old(self).finished,
                self.accepted == old(self).accepted,
            decreases audio@.len() - i,
        {
            self.samples.push(audio[i]);
            i = i + 1;
        }
        proof {
            assert(audio@.subrange(0, audio@.len() as int) =~= audio@);
        }
        self.finished = status == EngineStatus::Idle;
    }

    /// Whether the job is done.
    pub fn is_finished(&self) -> (b: bool)
        ensures
            b == self.spec_finished(),
    {
        self.finished
    }

    /// The audio collected so far.
    pub fn samples(&self) -> (s: &[i16])
        ensures
            s@ == self.spec_samples(),
    {
        self.samples.as_slice()
    }

    /// The bytes the engine has accepted so far.
    pub fn submitted(&self) -> (s: &[u8])
        requires
            self.wf(),
        ensures
            s@ == self.spec_input().subrange(0, self.spec_offset() as int),
            s@ == fed_bytes(self.spec_input(), self.spec_accepted()),
    {
        proof {
            lemma_fed_prefix(self.input@, self.accepted@);
        }
        vstd::slice::slice_subrange(self.input.as_slice(), 0, self.offset)
    }

    /// The collected audio.
    pub fn into_samples(self) -> (s: Vec<i16>)
        ensures
            s@ == self.spec_samples(),
    {
        self.samples
    }
}

} // verus!
