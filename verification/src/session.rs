use crate::error::CoreError;
use crate::error::StateConflictKind;
use vstd::prelude::*;

verus! {

/// The application mode: the single source of truth for what the pipeline is
/// doing.
#[derive(Clone, Copy, Debug, PartialEq, Eq, Structural)]
pub enum AppStatus {
    Idle,
    Recording,
    Processing,
    Cancelling,
}

/// The session state machine: the current mode, the active capture session
/// (present exactly while recording), and the cancellation flag of the
/// in-flight transcription (present exactly while processing or cancelling).
///
/// The type is generic over the session payload so that the shell can store
/// whatever handle its audio backend hands out.
pub struct SharedState<T> {
    pub status: AppStatus,
    pub recording: Option<T>,
    pub cancel_requested: Option<bool>,
}

/// One request arriving at the state machine. `Start` carries the capture
/// session a successful start would install.
pub enum SessionOp<T> {
    Start(T),
    Stop,
    Cancel,
    Finish,
}

impl<T> SharedState<T> {
    /// The mode invariant: a capture session is present if and only if the
    /// machine is recording, and a cancellation flag is present if and only
    /// if a transcription is being processed or cancelled.
    pub open spec fn wf(&self) -> bool {
        &&& self.recording is Some <==> self.status == AppStatus::Recording
        &&& self.cancel_requested is Some <==> (self.status == AppStatus::Processing
            || self.status == AppStatus::Cancelling)
    }

    /// The state a request leaves the machine in, whether it succeeds or is
    /// refused. Every executable transition below returns exactly this
    /// state.
    pub open spec fn step(self, op: SessionOp<T>) -> SharedState<T> {
        match op {
            SessionOp::Start(session) => {
                if self.status == AppStatus::Idle {
                    SharedState {
                        status: AppStatus::Recording,
                        recording: Some(session),
                        cancel_requested: None,
                    }
                } else {
                    self
                }
            },
            SessionOp::Stop => {
                if self.status == AppStatus::Recording {
                    SharedState {
                        status: AppStatus::Processing,
                        recording: None,
                        cancel_requested: Some(false),
                    }
                } else {
                    self
                }
            },
            SessionOp::Cancel => {
                if self.status == AppStatus::Processing && self.cancel_requested is Some {
                    SharedState {
                        status: AppStatus::Cancelling,
                        recording: self.recording,
                        cancel_requested: Some(true),
                    }
                } else {
                    self
                }
            },
            SessionOp::Finish => {
                SharedState { status: AppStatus::Idle, recording: None, cancel_requested: None }
            },
        }
    }

    /// Opens the machine in the idle mode.
    pub fn new() -> (r: SharedState<T>)
        ensures
            r.wf(),
            r.status == AppStatus::Idle,
            r.recording is None,
            r.cancel_requested is None,
    {
        SharedState { status: AppStatus::Idle, recording: None, cancel_requested: None }
    }

    /// The current mode.
    pub fn status(&self) -> (r: AppStatus)
        ensures
            r == self.status,
    {
        self.status
    }

    /// Whether the in-flight transcription has been asked to stop.
    pub fn cancel_flag(&self) -> (r: bool)
        ensures
            r == (self.cancel_requested == Some(true)),
    {
        match &self.cancel_requested {
            Some(flag) => *flag,
            None => false,
        }
    }

    /// A start request: installs the new capture session and moves to
    /// recording, or is refused if the machine is not idle. Performs no
    /// mutation on refusal.
    pub fn set_recording(&mut self, session: T) -> (r: Result<(), CoreError>)
        requires
            old(self).wf(),
        ensures
            final(self).wf(),
            *final(self) == old(self).step(SessionOp::Start(session)),
            r is Ok <==> old(self).status == AppStatus::Idle,
            r is Err ==> r == Err::<(), CoreError>(
                CoreError::StateConflict(StateConflictKind::NotIdle),
            ),
            r is Ok ==> final(self).status == AppStatus::Recording
                && final(self).recording == Some(session) && final(self).cancel_requested is None,
            r is Err ==> *final(self) == *old(self),
    {
        if !matches!(self.status, AppStatus::Idle) {
            return Err(CoreError::StateConflict(StateConflictKind::NotIdle));
        }
        self.cancel_requested = None;
        self.recording = Some(session);
        self.status = AppStatus::Recording;
        Ok(())
    }

    /// A stop request: detaches the capture session for the caller to
    /// finalize, installs a fresh (unset) cancellation flag and moves to
    /// processing, or is refused if the machine is not recording. Performs
    /// no mutation on refusal.
    pub fn take_recording(&mut self) -> (r: Result<T, CoreError>)
        requires
            old(self).wf(),
        ensures
            final(self).wf(),
            *final(self) == old(self).step(SessionOp::Stop),
            r is Ok <==> old(self).status == AppStatus::Recording,
            r is Ok ==> Some(r->Ok_0) == old(self).recording && final(self).status
                == AppStatus::Processing && final(self).recording is None
                && final(self).cancel_requested == Some(false),
            r is Err ==> r == Err::<T, CoreError>(
                CoreError::StateConflict(StateConflictKind::NotRecording),
            ) && *final(self) == *old(self),
    {
        if !matches!(self.status, AppStatus::Recording) {
            return Err(CoreError::StateConflict(StateConflictKind::NotRecording));
        }
        self.status = AppStatus::Processing;
        self.cancel_requested = Some(false);
        let recording = self.recording.take();
        match recording {
            Some(session) => Ok(session),
            None => {
                proof {
                    // The invariant puts a session in the recording mode.
                    assert(false);
                }
                Err(CoreError::StateConflict(StateConflictKind::NotRecording))
            },
        }
    }

    /// A cancel request: while processing, sets the shared flag and moves to
    /// cancelling, answering `true`; while already cancelling, answers
    /// `false` ("already requested") without mutating; in any other mode it
    /// is refused without mutation.
    pub fn request_cancel_processing(&mut self) -> (r: Result<bool, CoreError>)
        requires
            old(self).wf(),
        ensures
            final(self).wf(),
            *final(self) == old(self).step(SessionOp::Cancel),
            old(self).status == AppStatus::Processing ==> r == Ok::<bool, CoreError>(true)
                && final(self).status == AppStatus::Cancelling && final(self).cancel_requested
                == Some(true),
            old(self).status == AppStatus::Cancelling ==> r == Ok::<bool, CoreError>(false)
                && *final(self) == *old(self),
            old(self).status == AppStatus::Idle || old(self).status == AppStatus::Recording ==> r
                == Err::<bool, CoreError>(CoreError::StateConflict(StateConflictKind::NotProcessing))
                && *final(self) == *old(self),
    {
        match self.status {
            AppStatus::Processing => {
                if self.cancel_requested.is_some() {
                    self.cancel_requested = Some(true);
                    self.status = AppStatus::Cancelling;
                    Ok(true)
                } else {
                    proof {
                        // The invariant installs a flag in the processing mode.
                        assert(false);
                    }
                    Err(CoreError::StateConflict(StateConflictKind::NoActiveTask))
                }
            },
            AppStatus::Cancelling => Ok(false),
            _ => Err(CoreError::StateConflict(StateConflictKind::NotProcessing)),
        }
    }

    /// The worker's completion path: returns to idle unconditionally,
    /// clearing the session and the cancellation flag, whatever the prior
    /// mode was.
    pub fn set_idle(&mut self)
        ensures
            final(self).wf(),
            *final(self) == old(self).step(SessionOp::Finish),
            final(self).status == AppStatus::Idle,
            final(self).recording is None,
            final(self).cancel_requested is None,
    {
        self.status = AppStatus::Idle;
        self.recording = None;
        self.cancel_requested = None;
    }
}

/// What a toggle request (the hotkey) should do in each mode.
#[derive(Clone, Copy, Debug, PartialEq, Eq, Structural)]
pub enum ToggleAction {
    StartRecording,
    StopRecording,
    Busy,
}

/// Decides what the push-to-talk toggle does: start when idle, stop when
/// recording, and nothing but a notice while a transcription is still
/// running.
pub fn toggle_action(status: AppStatus) -> (r: ToggleAction)
    ensures
        status == AppStatus::Idle ==> r == ToggleAction::StartRecording,
        status == AppStatus::Recording ==> r == ToggleAction::StopRecording,
        status == AppStatus::Processing || status == AppStatus::Cancelling ==> r
            == ToggleAction::Busy,
{
    match status {
        AppStatus::Idle => ToggleAction::StartRecording,
        AppStatus::Recording => ToggleAction::StopRecording,
        AppStatus::Processing => ToggleAction::Busy,
        AppStatus::Cancelling => ToggleAction::Busy,
    }
}

/// The state after a whole sequence of requests, applied left to right.
pub open spec fn run_ops<T>(s: SharedState<T>, ops: Seq<SessionOp<T>>) -> SharedState<T>
    decreases ops.len(),
{
    if ops.len() == 0 {
        s
    } else {
        run_ops(s, ops.drop_last()).step(ops.last())
    }
}

/// One request preserves the mode invariant.
pub proof fn lemma_step_preserves_wf<T>(s: SharedState<T>, op: SessionOp<T>)
    requires
        s.wf(),
    ensures
        s.step(op).wf(),
{
}

/// The session-presence invariant holds after every sequence of start, stop,
/// cancel and finish requests: the capture session is present exactly in the
/// recording mode, and the cancellation flag exactly in the processing and
/// cancelling modes.
pub proof fn lemma_wf_preserved<T>(s: SharedState<T>, ops: Seq<SessionOp<T>>)
    requires
        s.wf(),
    ensures
        run_ops(s, ops).wf(),
    decreases ops.len(),
{
    if ops.len() > 0 {
        lemma_wf_preserved(s, ops.drop_last());
        lemma_step_preserves_wf(run_ops(s, ops.drop_last()), ops.last());
    }
}

/// Cancelling is idempotent: while processing, a first cancel request moves
/// the machine to cancelling, and a second request leaves the state exactly
/// as the first left it.
pub proof fn lemma_cancel_idempotent<T>(s: SharedState<T>)
    requires
        s.wf(),
        s.status == AppStatus::Processing,
    ensures
        s.step(SessionOp::Cancel).status == AppStatus::Cancelling,
        s.step(SessionOp::Cancel).step(SessionOp::Cancel) == s.step(SessionOp::Cancel),
{
}

} // verus!
