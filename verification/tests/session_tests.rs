use murmur::error::{CoreError, StateConflictKind};
use murmur::session::{toggle_action, AppStatus, SharedState, ToggleAction};

fn invariant_holds<T>(s: &SharedState<T>) -> bool {
    (s.recording.is_some() == (s.status == AppStatus::Recording))
        && (s.cancel_requested.is_some()
            == (s.status == AppStatus::Processing || s.status == AppStatus::Cancelling))
}

#[test]
fn new_machine_is_idle() {
    let s: SharedState<u32> = SharedState::new();
    assert_eq!(s.status(), AppStatus::Idle);
    assert!(s.recording.is_none());
    assert!(s.cancel_requested.is_none());
    assert!(invariant_holds(&s));
}

#[test]
fn start_installs_session() {
    let mut s: SharedState<u32> = SharedState::new();
    assert!(s.set_recording(42).is_ok());
    assert_eq!(s.status(), AppStatus::Recording);
    assert_eq!(s.recording, Some(42));
    assert!(invariant_holds(&s));
}

#[test]
fn start_while_recording_is_refused() {
    let mut s: SharedState<u32> = SharedState::new();
    s.set_recording(1).unwrap();
    let err = s.set_recording(2).unwrap_err();
    assert_eq!(err, CoreError::StateConflict(StateConflictKind::NotIdle));
    assert_eq!(s.status(), AppStatus::Recording);
    assert_eq!(s.recording, Some(1));
}

#[test]
fn stop_while_idle_is_refused() {
    let mut s: SharedState<u32> = SharedState::new();
    let err = s.take_recording().unwrap_err();
    assert_eq!(err, CoreError::StateConflict(StateConflictKind::NotRecording));
    assert_eq!(s.status(), AppStatus::Idle);
}

#[test]
fn stop_detaches_session_and_installs_flag() {
    let mut s: SharedState<u32> = SharedState::new();
    s.set_recording(7).unwrap();
    let session = s.take_recording().unwrap();
    assert_eq!(session, 7);
    assert_eq!(s.status(), AppStatus::Processing);
    assert!(s.recording.is_none());
    assert_eq!(s.cancel_requested, Some(false));
    assert!(!s.cancel_flag());
    assert!(invariant_holds(&s));
}

#[test]
fn cancel_while_processing_sets_flag() {
    let mut s: SharedState<u32> = SharedState::new();
    s.set_recording(7).unwrap();
    s.take_recording().unwrap();
    assert_eq!(s.request_cancel_processing(), Ok(true));
    assert_eq!(s.status(), AppStatus::Cancelling);
    assert!(s.cancel_flag());
    assert!(invariant_holds(&s));
}

#[test]
fn second_cancel_reports_already_requested() {
    let mut s: SharedState<u32> = SharedState::new();
    s.set_recording(7).unwrap();
    s.take_recording().unwrap();
    assert_eq!(s.request_cancel_processing(), Ok(true));
    assert_eq!(s.request_cancel_processing(), Ok(false));
    assert_eq!(s.status(), AppStatus::Cancelling);
    assert!(s.cancel_flag());
}

#[test]
fn cancel_outside_processing_is_refused() {
    let mut s: SharedState<u32> = SharedState::new();
    assert_eq!(
        s.request_cancel_processing(),
        Err(CoreError::StateConflict(StateConflictKind::NotProcessing))
    );
    s.set_recording(7).unwrap();
    assert_eq!(
        s.request_cancel_processing(),
        Err(CoreError::StateConflict(StateConflictKind::NotProcessing))
    );
    assert_eq!(s.status(), AppStatus::Recording);
}

#[test]
fn finish_returns_to_idle_from_any_mode() {
    let mut s: SharedState<u32> = SharedState::new();
    s.set_recording(7).unwrap();
    s.set_idle();
    assert_eq!(s.status(), AppStatus::Idle);
    assert!(invariant_holds(&s));

    s.set_recording(8).unwrap();
    s.take_recording().unwrap();
    s.set_idle();
    assert_eq!(s.status(), AppStatus::Idle);

    s.set_recording(9).unwrap();
    s.take_recording().unwrap();
    s.request_cancel_processing().unwrap();
    s.set_idle();
    assert_eq!(s.status(), AppStatus::Idle);
    assert!(s.recording.is_none());
    assert!(s.cancel_requested.is_none());
}

#[test]
fn invariant_holds_along_a_mixed_request_sequence() {
    let mut s: SharedState<u32> = SharedState::new();
    let _ = s.take_recording();
    assert!(invariant_holds(&s));
    let _ = s.request_cancel_processing();
    assert!(invariant_holds(&s));
    let _ = s.set_recording(1);
    assert!(invariant_holds(&s));
    let _ = s.set_recording(2);
    assert!(invariant_holds(&s));
    let _ = s.take_recording();
    assert!(invariant_holds(&s));
    let _ = s.request_cancel_processing();
    assert!(invariant_holds(&s));
    let _ = s.request_cancel_processing();
    assert!(invariant_holds(&s));
    s.set_idle();
    assert!(invariant_holds(&s));
    let _ = s.set_recording(3);
    assert!(invariant_holds(&s));
    s.set_idle();
    assert!(invariant_holds(&s));
}

#[test]
fn toggle_decides_by_mode() {
    assert_eq!(toggle_action(AppStatus::Idle), ToggleAction::StartRecording);
    assert_eq!(toggle_action(AppStatus::Recording), ToggleAction::StopRecording);
    assert_eq!(toggle_action(AppStatus::Processing), ToggleAction::Busy);
    assert_eq!(toggle_action(AppStatus::Cancelling), ToggleAction::Busy);
}
