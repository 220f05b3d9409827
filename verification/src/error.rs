use vstd::prelude::*;

verus! {

/// Which mode conflict a rejected state-machine request ran into.
#[derive(Clone, Copy, Debug, PartialEq, Eq, Structural)]
pub enum StateConflictKind {
    /// A start request arrived while the session was not idle.
    NotIdle,
    /// A stop request arrived while no recording was in progress.
    NotRecording,
    /// A cancel request arrived while nothing was being processed.
    NotProcessing,
    /// A cancel request found no cancellation flag installed.
    NoActiveTask,
}

/// The failure taxonomy of the pipeline.
///
/// Every failure the core can report falls into one of these classes; the
/// unverified shell maps device, engine and store failures into them at the
/// boundary.
#[derive(Clone, Copy, Debug, PartialEq, Eq, Structural)]
pub enum CoreError {
    /// No input device exists, or its configuration could not be read.
    DeviceError,
    /// The audio stream could not be built or started.
    StreamError,
    /// An operation was attempted in a mode that forbids it.
    StateConflict(StateConflictKind),
    /// The configured model file is missing.
    ModelNotFound,
    /// The inference engine reported a non-recoverable code.
    EngineError(i64),
    /// The history store could not durably record a result after retries.
    PersistenceError,
}

impl CoreError {
    /// The human-readable description of this error.
    pub fn message(&self) -> (r: String)
        ensures
            r@ == self.message_spec(),
    {
        match self {
            CoreError::DeviceError => String::from_str("No input microphone device found"),
            CoreError::StreamError => String::from_str("Failed to start audio stream"),
            CoreError::StateConflict(kind) => match kind {
                StateConflictKind::NotIdle => String::from_str("App is not idle"),
                StateConflictKind::NotRecording => String::from_str("App is not recording"),
                StateConflictKind::NotProcessing => String::from_str("App is not processing"),
                StateConflictKind::NoActiveTask => String::from_str("No active transcription task"),
            },
            CoreError::ModelNotFound => String::from_str("No installed model available"),
            CoreError::EngineError(_) => String::from_str("Transcription engine failed"),
            CoreError::PersistenceError => String::from_str("Failed to persist transcription"),
        }
    }

    /// What `message` returns, as a sequence of characters.
    pub open spec fn message_spec(&self) -> Seq<char> {
        match self {
            CoreError::DeviceError => "No input microphone device found"@,
            CoreError::StreamError => "Failed to start audio stream"@,
            CoreError::StateConflict(kind) => match kind {
                StateConflictKind::NotIdle => "App is not idle"@,
                StateConflictKind::NotRecording => "App is not recording"@,
                StateConflictKind::NotProcessing => "App is not processing"@,
                StateConflictKind::NoActiveTask => "No active transcription task"@,
            },
            CoreError::ModelNotFound => "No installed model available"@,
            CoreError::EngineError(_) => "Transcription engine failed"@,
            CoreError::PersistenceError => "Failed to persist transcription"@,
        }
    }
}

} // verus!
