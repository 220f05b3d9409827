//! End-to-end walks through the recording pipeline: the state machine, the
//! capture buffer, the worker's preparation and completion decisions, and
//! the history store, wired together the way the shell drives them.

use murmur::capture::{stop_capture, CaptureBuffer};
use murmur::history::HistoryStore;
use murmur::session::{AppStatus, SharedState};
use murmur::worker::{
    completion_action, ladder_step, prepare_audio, skip_short_capture, AttemptOutcome,
    CompletionAction, LadderStep, PreparedAudio,
};

#[test]
fn immediate_stop_skips_transcription() {
    let mut machine: SharedState<CaptureBuffer> = SharedState::new();
    let history = HistoryStore::new();

    machine.set_recording(CaptureBuffer::new(16000, 30)).unwrap();
    let buffer = machine.take_recording().unwrap();
    // The user stopped within 100 ms; almost no frames arrived.
    let captured = stop_capture(buffer, 80);

    assert!(skip_short_capture(captured.duration_ms));
    // The model is never invoked; the session just returns to idle.
    machine.set_idle();
    assert_eq!(machine.status(), AppStatus::Idle);
    assert!(history.list(10).is_empty());
}

#[test]
fn five_seconds_of_silence_yield_empty_text_without_engine_error() {
    let mut machine: SharedState<CaptureBuffer> = SharedState::new();

    machine.set_recording(CaptureBuffer::new(16000, 30)).unwrap();
    let mut buffer = machine.take_recording().unwrap();
    buffer.push_samples_fixed(&vec![0i32; 80_000], 1);
    let captured = stop_capture(buffer, 5000);
    assert!(!captured.truncated);
    assert!(!skip_short_capture(captured.duration_ms));

    let prepared = match prepare_audio(&captured.samples, captured.sample_rate) {
        PreparedAudio::Ready(p) => p,
        _ => panic!("five seconds of audio must be decodable"),
    };
    assert_eq!(prepared.stats.rms, 0);

    // The engine finds no speech on any rung of the ladder; no error is
    // surfaced and the final text is empty.
    assert!(matches!(
        ladder_step(AttemptOutcome::Completed(Vec::new()), false),
        LadderStep::TryNext
    ));
    assert!(matches!(
        ladder_step(AttemptOutcome::EngineError(-6), false),
        LadderStep::TryNext
    ));
    let last = ladder_step(AttemptOutcome::Completed(Vec::new()), true);
    match last {
        LadderStep::Accept(text) => assert!(text.is_empty()),
        _ => panic!("silence must end in an accepted empty transcript"),
    }

    machine.set_idle();
    assert_eq!(machine.status(), AppStatus::Idle);
}

#[test]
fn capture_beyond_the_thirty_second_cap_truncates_exactly() {
    let rate = 1000u32;
    let mut machine: SharedState<CaptureBuffer> = SharedState::new();
    machine.set_recording(CaptureBuffer::new(rate, 30)).unwrap();
    let mut buffer = machine.take_recording().unwrap();

    // Forty seconds of audio arrive in blocks.
    for _ in 0..40 {
        buffer.push_samples_fixed(&vec![50i32; rate as usize], 1);
    }
    let captured = stop_capture(buffer, 40_000);
    assert!(captured.truncated);
    assert_eq!(captured.samples.len(), 30 * rate as usize);
    machine.set_idle();
    assert_eq!(machine.status(), AppStatus::Idle);
}

#[test]
fn cancelling_during_processing_ends_idle_with_nothing_persisted() {
    let mut machine: SharedState<CaptureBuffer> = SharedState::new();
    let history = HistoryStore::new();

    machine.set_recording(CaptureBuffer::new(16000, 30)).unwrap();
    let mut buffer = machine.take_recording().unwrap();
    assert_eq!(machine.status(), AppStatus::Processing);
    buffer.push_samples_fixed(&vec![500i32; 16_000], 1);
    let captured = stop_capture(buffer, 1000);

    // The user cancels while the worker is busy with the capture.
    assert_eq!(machine.request_cancel_processing(), Ok(true));
    assert_eq!(machine.status(), AppStatus::Cancelling);

    // The worker observes the flag on its completion path, whatever text
    // the engine had produced by then.
    assert!(captured.samples.len() > 0);
    let action = completion_action(machine.cancel_flag(), b"whatever came out".to_vec());
    assert!(matches!(action, CompletionAction::Cancelled));

    // Nothing is inserted, and the machine returns to idle.
    machine.set_idle();
    assert_eq!(machine.status(), AppStatus::Idle);
    assert!(history.list(10).is_empty());
}

#[test]
fn successful_transcription_is_persisted_once() {
    let mut machine: SharedState<CaptureBuffer> = SharedState::new();
    let mut history = HistoryStore::new();

    machine.set_recording(CaptureBuffer::new(16000, 30)).unwrap();
    let mut buffer = machine.take_recording().unwrap();
    buffer.push_samples_fixed(&vec![3000i32; 16_000], 1);
    let captured = stop_capture(buffer, 1000);

    let step = ladder_step(AttemptOutcome::Completed(b" hello world ".to_vec()), false);
    let text = match step {
        LadderStep::Accept(t) => t,
        _ => panic!("nonempty text must be accepted"),
    };

    match completion_action(machine.cancel_flag(), text) {
        CompletionAction::Persist(normalized) => {
            assert_eq!(normalized, b"hello world".to_vec());
            let id = history.insert(
                String::from_utf8(normalized).unwrap(),
                captured.duration_ms,
                String::from("ggml-base.en.bin"),
                String::from("2024-01-01 10:00:00"),
            );
            assert_eq!(id, 1);
        },
        CompletionAction::Cancelled => panic!("nothing was cancelled"),
    }

    machine.set_idle();
    assert_eq!(machine.status(), AppStatus::Idle);
    let listed = history.list(10);
    assert_eq!(listed.len(), 1);
    assert_eq!(listed[0].text, "hello world");
}
