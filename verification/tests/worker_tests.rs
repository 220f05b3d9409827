use murmur::signal::CaptureSignalStats;
use murmur::worker::{
    average_token_prob_milli, clamp_threads, completion_action, decode_ladder,
    is_english_only_model, is_likely_hallucination, is_slow_transcription,
    is_transient_engine_code, ladder_step, normalize_transcript, prepare_audio, skip_short_capture,
    AttemptOutcome, CompletionAction, LadderStep, LanguageMode, PreparedAudio,
};

fn stats(rms: u32, active_ratio: u32) -> CaptureSignalStats {
    CaptureSignalStats { rms, peak: rms, active_ratio }
}

#[test]
fn thread_count_is_clamped_to_sane_band() {
    assert_eq!(clamp_threads(0), 2);
    assert_eq!(clamp_threads(1), 2);
    assert_eq!(clamp_threads(4), 4);
    assert_eq!(clamp_threads(8), 8);
    assert_eq!(clamp_threads(64), 8);
}

#[test]
fn english_only_models_are_recognized_by_suffix() {
    assert!(is_english_only_model("ggml-base.en.bin"));
    assert!(is_english_only_model("ggml-medium.en.bin"));
    assert!(!is_english_only_model("ggml-large-v3.bin"));
    assert!(!is_english_only_model("en.bin.backup"));
    assert!(!is_english_only_model("bin"));
}

#[test]
fn ladder_for_english_model() {
    let ladder = decode_ladder(true, 16);
    assert_eq!(ladder.len(), 3);
    assert_eq!(ladder[0].language, LanguageMode::English);
    assert_eq!(ladder[0].best_of, 5);
    assert_eq!(ladder[0].threads, 8);
    assert_eq!(ladder[1].language, LanguageMode::English);
    assert_eq!(ladder[1].best_of, 2);
    assert_eq!(ladder[1].threads, 2);
    assert_eq!(ladder[2].language, LanguageMode::AutoDetect);
    assert_eq!(ladder[2].best_of, 2);
    assert_eq!(ladder[2].threads, 2);
}

#[test]
fn ladder_for_multilingual_model_autodetects_throughout() {
    let ladder = decode_ladder(false, 4);
    assert_eq!(ladder[0].language, LanguageMode::AutoDetect);
    assert_eq!(ladder[0].threads, 4);
    assert_eq!(ladder[2].language, LanguageMode::AutoDetect);
}

#[test]
fn nonempty_text_wins_immediately() {
    let step = ladder_step(AttemptOutcome::Completed(b"hello".to_vec()), false);
    assert!(matches!(step, LadderStep::Accept(t) if t == b"hello".to_vec()));
}

#[test]
fn empty_text_falls_through_to_next_attempt() {
    assert!(matches!(
        ladder_step(AttemptOutcome::Completed(Vec::new()), false),
        LadderStep::TryNext
    ));
    assert!(matches!(
        ladder_step(AttemptOutcome::Completed(Vec::new()), true),
        LadderStep::Accept(t) if t.is_empty()
    ));
}

#[test]
fn transient_engine_error_is_absorbed() {
    assert!(is_transient_engine_code(-6));
    assert!(!is_transient_engine_code(-5));
    assert!(matches!(
        ladder_step(AttemptOutcome::EngineError(-6), false),
        LadderStep::TryNext
    ));
    assert!(matches!(
        ladder_step(AttemptOutcome::EngineError(-6), true),
        LadderStep::Accept(t) if t.is_empty()
    ));
}

#[test]
fn fatal_engine_error_aborts_the_call() {
    assert!(matches!(
        ladder_step(AttemptOutcome::EngineError(3), false),
        LadderStep::Abort(3)
    ));
    assert!(matches!(
        ladder_step(AttemptOutcome::EngineError(-1), true),
        LadderStep::Abort(-1)
    ));
}

#[test]
fn cancellation_yields_empty_text_at_once() {
    assert!(matches!(
        ladder_step(AttemptOutcome::Cancelled, false),
        LadderStep::Accept(t) if t.is_empty()
    ));
}

#[test]
fn empty_capture_prepares_to_nothing() {
    assert!(matches!(prepare_audio(&Vec::new(), 16000), PreparedAudio::Empty));
    assert!(matches!(prepare_audio(&vec![1, 2, 3], 0), PreparedAudio::Empty));
}

#[test]
fn short_capture_is_skipped_before_decoding() {
    // 1000 samples at 16 kHz is 62 ms: under the 200 ms floor.
    assert!(matches!(prepare_audio(&vec![0; 1000], 16000), PreparedAudio::TooShort));
    // Exactly at the floor it is decoded.
    assert!(matches!(prepare_audio(&vec![0; 3200], 16000), PreparedAudio::Ready(_)));
}

#[test]
fn silence_prepares_with_zero_stats() {
    let five_seconds = vec![0i32; 80_000];
    match prepare_audio(&five_seconds, 16000) {
        PreparedAudio::Ready(p) => {
            assert_eq!(p.samples.len(), 80_000);
            assert!(p.samples.iter().all(|&s| s == 0));
            assert_eq!(p.stats.rms, 0);
            assert_eq!(p.stats.peak, 0);
            assert_eq!(p.stats.active_ratio, 0);
        },
        _ => panic!("five seconds of silence should be ready to decode"),
    }
}

#[test]
fn preparing_resamples_to_target_rate() {
    // One second at 32 kHz becomes half as many samples.
    let one_second = vec![2000i32; 32_000];
    match prepare_audio(&one_second, 32000) {
        PreparedAudio::Ready(p) => {
            assert_eq!(p.samples.len(), 16_000);
            assert_eq!(p.stats.rms, 2000);
        },
        _ => panic!("one second of audio should be ready to decode"),
    }
}

#[test]
fn average_probability_of_no_tokens_is_full_trust() {
    assert_eq!(average_token_prob_milli(&Vec::new()), 1000);
}

#[test]
fn average_probability_rounds_down() {
    assert_eq!(average_token_prob_milli(&vec![300, 500]), 400);
    assert_eq!(average_token_prob_milli(&vec![1000]), 1000);
    assert_eq!(average_token_prob_milli(&vec![1, 2]), 1);
}

#[test]
fn canned_phrase_on_silent_signal_is_discarded() {
    let text = b"  You. ".to_vec();
    assert!(is_likely_hallucination(&text, stats(5, 9000), 900));
}

#[test]
fn canned_phrase_on_strong_signal_is_trusted() {
    let text = b"Thank you.".to_vec();
    assert!(!is_likely_hallucination(&text, stats(5000, 5000), 900));
}

#[test]
fn inactive_signal_discards_canned_phrase() {
    let text = b"thanks for watching".to_vec();
    assert!(is_likely_hallucination(&text, stats(100, 39), 900));
    assert!(!is_likely_hallucination(&text, stats(100, 40), 900));
}

#[test]
fn low_confidence_with_quiet_signal_discards_canned_phrase() {
    let text = b"Okay".to_vec();
    assert!(is_likely_hallucination(&text, stats(20, 50), 299));
    assert!(!is_likely_hallucination(&text, stats(20, 50), 300));
    assert!(!is_likely_hallucination(&text, stats(30, 50), 299));
}

#[test]
fn uncanned_text_is_always_trusted() {
    let text = b"hello there".to_vec();
    assert!(!is_likely_hallucination(&text, stats(0, 0), 0));
}

#[test]
fn filter_decision_is_deterministic() {
    let text = b"Hmm...".to_vec();
    let s = stats(11, 9000);
    let first = is_likely_hallucination(&text, s, 500);
    let second = is_likely_hallucination(&text, s, 500);
    assert_eq!(first, second);
    assert!(first);
}

#[test]
fn short_capture_floor_is_two_hundred_milliseconds() {
    assert!(skip_short_capture(0));
    assert!(skip_short_capture(199));
    assert!(!skip_short_capture(200));
    assert!(!skip_short_capture(5000));
}

#[test]
fn slow_transcription_notice_threshold() {
    assert!(!is_slow_transcription(15000));
    assert!(is_slow_transcription(15001));
}

#[test]
fn transcripts_are_trimmed_or_replaced() {
    assert_eq!(normalize_transcript(&b"  hi there  ".to_vec()), b"hi there".to_vec());
    assert_eq!(
        normalize_transcript(&b"   ".to_vec()),
        b"(No speech detected)".to_vec()
    );
    assert_eq!(
        normalize_transcript(&Vec::new()),
        b"(No speech detected)".to_vec()
    );
}

#[test]
fn cancelled_transcriptions_are_dropped() {
    assert!(matches!(
        completion_action(true, b"hello".to_vec()),
        CompletionAction::Cancelled
    ));
    assert!(matches!(
        completion_action(false, b" hello ".to_vec()),
        CompletionAction::Persist(t) if t == b"hello".to_vec()
    ));
}
