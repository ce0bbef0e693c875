//! The per-frame state machine: which step of a frame comes next, and what
//! to do when the presentable image cannot be acquired.

use vstd::prelude::*;

verus! {

/// Where a frame stands.
#[derive(Clone, Copy, Debug, PartialEq, Eq, Structural)]
pub enum FramePhase {
    Idle,
    Acquiring,
    Recording,
    Submitted,
    Presented,
    Terminated,
}

/// Why the presentable image could not be acquired.
#[derive(Clone, Copy, Debug, PartialEq, Eq, Structural)]
pub enum AcquireError {
    Timeout,
    Outdated,
    Lost,
    OutOfMemory,
}

/// What happened since the last step.
#[derive(Clone, Copy, Debug, PartialEq, Eq, Structural)]
pub enum FrameEvent {
    /// The host asks for a frame.
    Tick,
    /// The presentable image was acquired.
    Acquired,
    /// The presentable image could not be acquired.
    AcquireFailed(AcquireError),
    /// The render pass was recorded.
    PassRecorded,
    /// The recorded commands were submitted to the queue.
    CommandsSubmitted,
    /// The image was presented.
    ImagePresented,
}

/// What the host is to do next.
#[derive(Clone, Copy, Debug, PartialEq, Eq, Structural)]
pub enum FrameAction {
    /// Acquire the current presentable image.
    AcquireImage,
    /// Record the render pass into a new command unit.
    RecordPass,
    /// Submit the recorded commands to the queue.
    SubmitCommands,
    /// Resolve the antialiasing target into the image and present it.
    ResolveAndPresent,
    /// Reconfigure the surface at its current size; this frame is dropped.
    ReconfigureSurface,
    /// Skip this frame and try again on the next tick.
    DropFrame,
    /// End the session.
    Terminate,
    /// Nothing to do.
    Wait,
}

/// The response to a failed acquisition: the phase after it and the action.
pub open spec fn on_acquire_failure(e: AcquireError) -> (FramePhase, FrameAction) {
    match e {
        AcquireError::Lost => (FramePhase::Idle, FrameAction::ReconfigureSurface),
        AcquireError::OutOfMemory => (FramePhase::Terminated, FrameAction::Terminate),
        AcquireError::Outdated => (FramePhase::Idle, FrameAction::DropFrame),
        AcquireError::Timeout => (FramePhase::Idle, FrameAction::DropFrame),
    }
}

/// The transition table of a frame. An event that does not belong to the
/// current phase leaves it as it is.
pub open spec fn transition(phase: FramePhase, event: FrameEvent) -> (FramePhase, FrameAction) {
    match (phase, event) {
        (FramePhase::Idle, FrameEvent::Tick) => (FramePhase::Acquiring, FrameAction::AcquireImage),
        (FramePhase::Acquiring, FrameEvent::Acquired) => (
            FramePhase::Recording,
            FrameAction::RecordPass,
        ),
        (FramePhase::Acquiring, FrameEvent::AcquireFailed(e)) => on_acquire_failure(e),
        (FramePhase::Recording, FrameEvent::PassRecorded) => (
            FramePhase::Submitted,
            FrameAction::SubmitCommands,
        ),
        (FramePhase::Submitted, FrameEvent::CommandsSubmitted) => (
            FramePhase::Presented,
            FrameAction::ResolveAndPresent,
        ),
        (FramePhase::Presented, FrameEvent::ImagePresented) => (FramePhase::Idle, FrameAction::Wait),
        _ => (phase, FrameAction::Wait),
    }
}

/// The response to a failed acquisition.
pub fn acquire_failure(e: AcquireError) -> (r: (FramePhase, FrameAction))
    ensures
        r == on_acquire_failure(e),
{
    match e {
        AcquireError::Lost => (FramePhase::Idle, FrameAction::ReconfigureSurface),
        AcquireError::OutOfMemory => (FramePhase::Terminated, FrameAction::Terminate),
        AcquireError::Outdated => (FramePhase::Idle, FrameAction::DropFrame),
        AcquireError::Timeout => (FramePhase::Idle, FrameAction::DropFrame),
    }
}

/// Steps the frame state machine.
pub fn step(phase: FramePhase, event: FrameEvent) -> (r: (FramePhase, FrameAction))
    ensures
        r == transition(phase, event),
        phase == FramePhase::Terminated ==> r == (FramePhase::Terminated, FrameAction::Wait),
{
    match (phase, event) {
        (FramePhase::Idle, FrameEvent::Tick) => (FramePhase::Acquiring, FrameAction::AcquireImage),
        (FramePhase::Acquiring, FrameEvent::Acquired) => (
            FramePhase::Recording,
            FrameAction::RecordPass,
        ),
        (FramePhase::Acquiring, FrameEvent::AcquireFailed(e)) => acquire_failure(e),
        (FramePhase::Recording, FrameEvent::PassRecorded) => (
            FramePhase::Submitted,
            FrameAction::SubmitCommands,
        ),
        (FramePhase::Submitted, FrameEvent::CommandsSubmitted) => (
            FramePhase::Presented,
            FrameAction::ResolveAndPresent,
        ),
        (FramePhase::Presented, FrameEvent::ImagePresented) => (FramePhase::Idle, FrameAction::Wait),
        _ => (phase, FrameAction::Wait),
    }
}

} // verus!
