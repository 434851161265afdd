use ttspico::engine::EngineStatus;
use ttspico::protocol::{SpeechJob, SynthesisStep};

/// Feeds the job, the engine accepting at most `per_call` bytes a call.
fn feed(job: &mut SpeechJob, per_call: usize) -> Vec<u8> {
    let mut seen = Vec::new();
    while job.next_step() == SynthesisStep::PutText {
        let chunk = job.pending_text();
        let n = per_call.min(chunk.len());
        seen.extend_from_slice(&chunk[..n]);
        job.text_accepted(n);
    }
    seen
}

#[test]
fn job_appends_terminator() {
    let job = SpeechJob::new(b"abc");
    assert_eq!(job.pending_text(), b"abc\0");
    assert_eq!(job.next_step(), SynthesisStep::PutText);
    assert!(job.submitted().is_empty());
}

#[test]
fn chunking_hands_same_bytes() {
    for per_call in [1usize, 2, 3, 4, 100] {
        let mut job = SpeechJob::new(b"abc");
        assert_eq!(feed(&mut job, per_call), b"abc\0");
        assert_eq!(job.submitted(), b"abc\0");
        assert_eq!(job.next_step(), SynthesisStep::GetData);
    }
}

#[test]
fn zero_acceptance_keeps_offset() {
    let mut job = SpeechJob::new(b"ab");
    job.text_accepted(0);
    assert_eq!(job.pending_text(), b"ab\0");
    job.text_accepted(1000);
    assert!(job.pending_text().is_empty());
    assert_eq!(job.next_step(), SynthesisStep::GetData);
}

#[test]
fn long_text_is_offered_in_capped_chunks() {
    let text = vec![b'a'; 40000];
    let mut job = SpeechJob::new(&text);
    assert_eq!(job.pending_text().len(), 32767);
    job.text_accepted(32767);
    assert_eq!(job.pending_text().len(), 40001 - 32767);
}

#[test]
fn drain_until_idle() {
    let mut job = SpeechJob::new(b"1, 2, 3, Hello!");
    feed(&mut job, 7);
    job.audio_received(&[1, -2, 3], EngineStatus::Busy);
    assert_eq!(job.next_step(), SynthesisStep::GetData);
    job.audio_received(&[], EngineStatus::Busy);
    job.audio_received(&[4, 5], EngineStatus::Idle);
    assert!(job.is_finished());
    assert_eq!(job.next_step(), SynthesisStep::Done);
    assert_eq!(job.samples(), &[1, -2, 3, 4, 5]);
    assert_eq!(job.into_samples(), vec![1, -2, 3, 4, 5]);
}

#[test]
fn empty_text_still_flushes() {
    let mut job = SpeechJob::new(b"");
    assert_eq!(feed(&mut job, 1), b"\0");
    job.audio_received(&[], EngineStatus::Idle);
    assert_eq!(job.next_step(), SynthesisStep::Done);
    assert!(job.samples().is_empty());
}
