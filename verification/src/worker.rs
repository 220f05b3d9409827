use crate::resample::{resample_to_16k, resampled_len, resampled_seq};
use crate::signal::{
    analyze_signal, apply_gain, clamp_all, clamp_signal, gained, in_range, stats_of,
    CaptureSignalStats,
};
use crate::text::{
    bytes_of, has_suffix, is_canned, is_canned_key, normalized_key, normalized_key_spec,
    str_has_suffix, trim, trim_bytes,
};
use vstd::prelude::*;
use vstd::string::StringSliceAdditionalSpecFns;

verus! {

/// The shortest decodable capture: 200 milliseconds at the 16 kHz decoding
/// rate. Anything shorter is treated as no speech rather than decoded.
pub const MIN_AUDIO_SAMPLES_16K: usize = 3200;

/// How one decode attempt chooses its language: pinned to English or left to
/// the engine to detect.
#[derive(Clone, Copy, Debug, PartialEq, Eq, Structural)]
pub enum LanguageMode {
    English,
    AutoDetect,
}

/// One inference configuration of the fallback ladder: a language mode, a
/// search width (best-of candidates) and a thread count.
#[derive(Clone, Copy, Debug, PartialEq, Eq, Structural)]
pub struct DecodeAttempt {
    pub language: LanguageMode,
    pub best_of: u32,
    pub threads: u32,
}

/// The available thread count clamped to the sane band `[2, 8]`.
pub open spec fn clamp_threads_spec(available: u32) -> u32 {
    if available < 2 {
        2
    } else if available > 8 {
        8
    } else {
        available
    }
}

/// Clamps the machine's available parallelism to the band the engine is
/// given.
pub fn clamp_threads(available: u32) -> (r: u32)
    ensures
        r == clamp_threads_spec(available),
{
    if available < 2 {
        2
    } else if available > 8 {
        8
    } else {
        available
    }
}

/// Whether a model file is an English-only model, by the `.en.bin` naming
/// convention of the model catalog.
pub fn is_english_only_model(model_name: &str) -> (r: bool)
    ensures
        r == has_suffix(model_name.spec_bytes(), ".en.bin".spec_bytes()),
{
    str_has_suffix(model_name, ".en.bin")
}

/// The fallback ladder: a wide fixed-language attempt on all clamped
/// threads, a narrow fixed-language attempt on fewer threads, then a narrow
/// auto-detect attempt. A model that is not English-only auto-detects from
/// the start.
pub open spec fn decode_ladder_spec(english_only: bool, available_threads: u32) -> Seq<
    DecodeAttempt,
> {
    let lang = if english_only {
        LanguageMode::English
    } else {
        LanguageMode::AutoDetect
    };
    seq![
        DecodeAttempt {
            language: lang,
            best_of: 5,
            threads: clamp_threads_spec(available_threads),
        },
        DecodeAttempt { language: lang, best_of: 2, threads: 2 },
        DecodeAttempt { language: LanguageMode::AutoDetect, best_of: 2, threads: 2 },
    ]
}

/// Builds the ordered list of decode attempts for one transcription.
pub fn decode_ladder(english_only: bool, available_threads: u32) -> (r: Vec<DecodeAttempt>)
    ensures
        r@ == decode_ladder_spec(english_only, available_threads),
        r@.len() == 3,
{
    let lang = if english_only {
        LanguageMode::English
    } else {
        LanguageMode::AutoDetect
    };
    let mut r: Vec<DecodeAttempt> = Vec::new();
    r.push(
        DecodeAttempt { language: lang, best_of: 5, threads: clamp_threads(available_threads) },
    );
    r.push(DecodeAttempt { language: lang, best_of: 2, threads: 2 });
    r.push(DecodeAttempt { language: LanguageMode::AutoDetect, best_of: 2, threads: 2 });
    proof {
        assert(r@ =~= decode_ladder_spec(english_only, available_threads));
    }
    r
}

/// What one decode attempt came back with: assembled text, an engine error
/// code, or an abort because the cancellation flag was observed.
pub enum AttemptOutcome {
    Completed(Vec<u8>),
    EngineError(i64),
    Cancelled,
}

/// What the ladder does after one attempt: accept a transcript (possibly
/// empty), move on to the next attempt, or abort the whole call.
pub enum LadderStep {
    Accept(Vec<u8>),
    TryNext,
    Abort(i64),
}

/// Whether an engine error code is one of the known transient codes that are
/// treated as "no speech detected" rather than surfaced.
pub open spec fn transient_engine_code(code: i64) -> bool {
    code == -6
}

/// Classifies an engine error code as transient or fatal.
pub fn is_transient_engine_code(code: i64) -> (r: bool)
    ensures
        r == transient_engine_code(code),
{
    code == -6
}

/// Decides the ladder's next move after one attempt. The first attempt that
/// yields nonempty text wins; empty text and known transient engine errors
/// fall through to the next attempt, or end the call with empty text after
/// the last one; an observed cancellation ends the call with empty text at
/// once; any other engine error aborts the whole call.
pub fn ladder_step(outcome: AttemptOutcome, is_last: bool) -> (r: LadderStep)
    ensures
        match outcome {
            AttemptOutcome::Completed(text) => {
                if text@.len() > 0 {
                    r == LadderStep::Accept(text)
                } else if is_last {
                    r matches LadderStep::Accept(t) && t@.len() == 0
                } else {
                    r is TryNext
                }
            },
            AttemptOutcome::EngineError(code) => {
                if transient_engine_code(code) {
                    if is_last {
                        r matches LadderStep::Accept(t) && t@.len() == 0
                    } else {
                        r is TryNext
                    }
                } else {
                    r == LadderStep::Abort(code)
                }
            },
            AttemptOutcome::Cancelled => r matches LadderStep::Accept(t) && t@.len() == 0,
        },
{
    match outcome {
        AttemptOutcome::Completed(text) => {
            if text.len() > 0 {
                LadderStep::Accept(text)
            } else if is_last {
                LadderStep::Accept(Vec::new())
            } else {
                LadderStep::TryNext
            }
        },
        AttemptOutcome::EngineError(code) => {
            if is_transient_engine_code(code) {
                if is_last {
                    LadderStep::Accept(Vec::new())
                } else {
                    LadderStep::TryNext
                }
            } else {
                LadderStep::Abort(code)
            }
        },
        AttemptOutcome::Cancelled => LadderStep::Accept(Vec::new()),
    }
}

/// Audio readied for the engine: the preprocessed 16 kHz samples and the
/// signal statistics of the clamped signal, measured before gain.
pub struct ProcessedAudio {
    pub samples: Vec<i32>,
    pub stats: CaptureSignalStats,
}

/// The outcome of readying a capture for decoding: nothing to decode, a
/// capture under the 200 ms floor, or audio ready for the engine.
pub enum PreparedAudio {
    Empty,
    TooShort,
    Ready(ProcessedAudio),
}

/// Resamples a capture to 16 kHz and preprocesses it for decoding. An empty
/// capture, a zero rate or an empty resampled signal yield `Empty`; a
/// resampled signal under the 200 ms floor yields `TooShort`; otherwise the
/// clamped, gain-adjusted samples come back with the signal statistics the
/// hallucination filter reads.
pub fn prepare_audio(input: &Vec<i32>, sample_rate: u32) -> (r: PreparedAudio)
    requires
        input@.len() * 16000 <= usize::MAX,
        sample_rate > 0 ==> resampled_len(input@.len() as int, sample_rate as int)
            <= 0x4000_0000,
    ensures
        ({
            let rl = resampled_len(input@.len() as int, sample_rate as int);
            let resampled = resampled_seq(input@, sample_rate as int);
            &&& (input@.len() == 0 || sample_rate == 0) ==> r is Empty
            &&& (input@.len() > 0 && sample_rate > 0 && rl == 0) ==> r is Empty
            &&& (input@.len() > 0 && sample_rate > 0 && 0 < rl
                < MIN_AUDIO_SAMPLES_16K as int) ==> r is TooShort
            &&& (input@.len() > 0 && sample_rate > 0 && rl >= MIN_AUDIO_SAMPLES_16K as int) ==> {
                &&& r is Ready
                &&& r->Ready_0.samples@ == gained(clamp_all(resampled))
                &&& r->Ready_0.stats == stats_of(clamp_all(resampled))
                &&& in_range(r->Ready_0.samples@)
            }
        }),
{
    if input.len() == 0 || sample_rate == 0 {
        return PreparedAudio::Empty;
    }
    let audio = resample_to_16k(input, sample_rate);
    if audio.len() == 0 {
        return PreparedAudio::Empty;
    }
    if audio.len() < MIN_AUDIO_SAMPLES_16K {
        return PreparedAudio::TooShort;
    }
    let clamped = clamp_signal(&audio);
    let stats = analyze_signal(&clamped);
    let samples = apply_gain(clamped);
    PreparedAudio::Ready(ProcessedAudio { samples, stats })
}

/// Whether the captured signal is weak enough to distrust a canned phrase:
/// nearly silent RMS, almost no active samples, or quiet RMS paired with a
/// low average token probability.
pub open spec fn weak_signal(stats: CaptureSignalStats, avg_prob_milli: u32) -> bool {
    stats.rms < 12 || stats.active_ratio < 40 || (stats.rms < 30 && avg_prob_milli < 300)
}

/// The hallucination filter's decision: a transcript is discarded exactly
/// when its normalized key is one of the canned phrases and the signal is
/// weak. Text outside the canned set is always trusted.
pub open spec fn hallucination_spec(
    text: Seq<u8>,
    stats: CaptureSignalStats,
    avg_prob_milli: u32,
) -> bool {
    is_canned_key(normalized_key_spec(text)) && weak_signal(stats, avg_prob_milli)
}

/// Decides whether a transcript is a likely hallucination. The average token
/// probability is given in thousandths.
pub fn is_likely_hallucination(
    text: &Vec<u8>,
    stats: CaptureSignalStats,
    avg_prob_milli: u32,
) -> (r: bool)
    ensures
        r == hallucination_spec(text@, stats, avg_prob_milli),
{
    let key = normalized_key(text);
    if !is_canned(&key) {
        return false;
    }
    stats.rms < 12 || stats.active_ratio < 40 || (stats.rms < 30 && avg_prob_milli < 300)
}

/// The filter's decision is a pure function of the normalized text and the
/// signal statistics: identical inputs always decide identically.
pub proof fn lemma_hallucination_filter_deterministic(
    t1: Seq<u8>,
    s1: CaptureSignalStats,
    p1: u32,
    t2: Seq<u8>,
    s2: CaptureSignalStats,
    p2: u32,
)
    requires
        normalized_key_spec(t1) == normalized_key_spec(t2),
        s1 == s2,
        p1 == p2,
    ensures
        hallucination_spec(t1, s1, p1) == hallucination_spec(t2, s2, p2),
{
}

/// The sum of a sequence of token probabilities.
pub open spec fn sum_probs(s: Seq<u32>) -> int
    decreases s.len(),
{
    if s.len() == 0 {
        0
    } else {
        sum_probs(s.drop_last()) + s.last()
    }
}

/// Averages per-token probabilities, each in thousandths. With no tokens the
/// transcript is fully trusted (average `1000`).
pub fn average_token_prob_milli(probs: &Vec<u32>) -> (r: u32)
    requires
        forall|i: int| 0 <= i < probs@.len() ==> #[trigger] probs@[i] <= 1000,
        probs@.len() <= 0x4000_0000,
    ensures
        probs@.len() == 0 ==> r == 1000,
        probs@.len() > 0 ==> r == sum_probs(probs@) / probs@.len() as int,
        r <= 1000,
{
    let n = probs.len();
    if n == 0 {
        return 1000;
    }
    let mut sum: u64 = 0;
    let mut i: usize = 0;
    while i < n
        invariant
            n == probs@.len() <= 0x4000_0000,
            0 <= i <= n,
            forall|t: int| 0 <= t < n ==> #[trigger] probs@[t] <= 1000,
            sum == sum_probs(probs@.subrange(0, i as int)),
            sum <= (i as int) * 1000,
        decreases n - i,
    {
        proof {
            let pre = probs@.subrange(0, i as int);
            let post = probs@.subrange(0, i as int + 1);
            assert(post.drop_last() =~= pre);
            assert(post.last() == probs@[i as int]);
        }
        sum = sum + (probs[i] as u64);
        i = i + 1;
    }
    proof {
        assert(probs@.subrange(0, n as int) =~= probs@);
    }
    let avg: u64 = sum / (n as u64);
    proof {
        assert(avg <= 1000) by (nonlinear_arith)
            requires
                n > 0,
                sum <= (n as int) * 1000,
                avg == sum as int / n as int,
        ;
    }
    avg as u32
}

/// Whether a capture is too short to transcribe: under the 200 millisecond
/// floor.
pub fn skip_short_capture(duration_ms: i64) -> (r: bool)
    ensures
        r == (duration_ms < 200),
{
    duration_ms < 200
}

/// Whether a finished transcription was slow enough to suggest a smaller
/// model (over 15 seconds of engine wall-clock time).
pub fn is_slow_transcription(elapsed_ms: u64) -> (r: bool)
    ensures
        r == (elapsed_ms > 15000),
{
    elapsed_ms > 15000
}

/// The transcript as it is persisted and shown: trimmed, with a fixed
/// placeholder for an empty (no speech) result.
pub open spec fn normalized_transcript_spec(text: Seq<u8>) -> Seq<u8> {
    let t = trim_bytes(text);
    if t.len() == 0 {
        "(No speech detected)".spec_bytes()
    } else {
        t
    }
}

/// Trims a transcript and substitutes the no-speech placeholder for an empty
/// result.
pub fn normalize_transcript(text: &Vec<u8>) -> (r: Vec<u8>)
    ensures
        r@ == normalized_transcript_spec(text@),
{
    let t = trim(text);
    if t.len() == 0 {
        bytes_of("(No speech detected)")
    } else {
        t
    }
}

/// What the completion path does with an engine result: drop it because the
/// user cancelled, or persist the normalized transcript.
pub enum CompletionAction {
    Cancelled,
    Persist(Vec<u8>),
}

/// Decides the completion path: a transcription whose cancellation flag was
/// set is dropped without persisting; any other result is normalized and
/// persisted.
pub fn completion_action(cancel_requested: bool, text: Vec<u8>) -> (r: CompletionAction)
    ensures
        cancel_requested ==> r is Cancelled,
        !cancel_requested ==> (r matches CompletionAction::Persist(t) && t@
            == normalized_transcript_spec(text@)),
{
    if cancel_requested {
        CompletionAction::Cancelled
    } else {
        CompletionAction::Persist(normalize_transcript(&text))
    }
}

} // verus!
