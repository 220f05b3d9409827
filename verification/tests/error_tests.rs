use murmur::error::{CoreError, StateConflictKind};

#[test]
fn every_error_has_a_readable_message() {
    assert_eq!(CoreError::DeviceError.message(), "No input microphone device found");
    assert_eq!(CoreError::StreamError.message(), "Failed to start audio stream");
    assert_eq!(
        CoreError::StateConflict(StateConflictKind::NotIdle).message(),
        "App is not idle"
    );
    assert_eq!(
        CoreError::StateConflict(StateConflictKind::NotRecording).message(),
        "App is not recording"
    );
    assert_eq!(
        CoreError::StateConflict(StateConflictKind::NotProcessing).message(),
        "App is not processing"
    );
    assert_eq!(
        CoreError::StateConflict(StateConflictKind::NoActiveTask).message(),
        "No active transcription task"
    );
    assert_eq!(CoreError::ModelNotFound.message(), "No installed model available");
    assert_eq!(CoreError::EngineError(-3).message(), "Transcription engine failed");
    assert_eq!(CoreError::PersistenceError.message(), "Failed to persist transcription");
}

#[test]
fn errors_compare_by_structure() {
    assert_eq!(CoreError::EngineError(1), CoreError::EngineError(1));
    assert_ne!(CoreError::EngineError(1), CoreError::EngineError(2));
    assert_ne!(
        CoreError::StateConflict(StateConflictKind::NotIdle),
        CoreError::StateConflict(StateConflictKind::NotRecording)
    );
}
