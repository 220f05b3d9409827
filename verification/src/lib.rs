//! Verified core of a push-to-talk dictation pipeline.
//!
//! The crate models the recording/transcription orchestration of a desktop
//! dictation tool: a bounded capture buffer fed by an audio callback, a
//! session state machine that serializes start/stop/cancel requests, and a
//! transcription worker that resamples audio to 16 kHz, applies gain
//! preprocessing, walks a ladder of decode attempts, and filters
//! low-confidence hallucinated output.
//!
//! Audio samples are carried as fixed-point integers: an `i32` value `v`
//! stands for the amplitude `v / 10000`, so `10000` is full scale (`1.0`).
//! All I/O (microphone streams, the inference engine, the on-disk history
//! store) lives outside this crate; callers hand plain values in and take
//! plain values back.

pub mod error;
pub mod history;
pub mod models;
pub mod capture;
pub mod resample;
pub mod session;
pub mod settings;
pub mod signal;
pub mod text;
pub mod tray;
pub mod worker;

pub use error::CoreError;
pub use error::StateConflictKind;
