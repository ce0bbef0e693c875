use basalt::frame::{acquire_failure, step, AcquireError, FrameAction, FrameEvent, FramePhase};

#[test]
fn full_frame_passes_every_phase() {
    let (p, a) = step(FramePhase::Idle, FrameEvent::Tick);
    assert_eq!((p, a), (FramePhase::Acquiring, FrameAction::AcquireImage));
    let (p, a) = step(p, FrameEvent::Acquired);
    assert_eq!((p, a), (FramePhase::Recording, FrameAction::RecordPass));
    let (p, a) = step(p, FrameEvent::PassRecorded);
    assert_eq!((p, a), (FramePhase::Submitted, FrameAction::SubmitCommands));
    let (p, a) = step(p, FrameEvent::CommandsSubmitted);
    assert_eq!((p, a), (FramePhase::Presented, FrameAction::ResolveAndPresent));
    let (p, a) = step(p, FrameEvent::ImagePresented);
    assert_eq!((p, a), (FramePhase::Idle, FrameAction::Wait));
}

#[test]
fn lost_surface_reconfigures() {
    let r = step(FramePhase::Acquiring, FrameEvent::AcquireFailed(AcquireError::Lost));
    assert_eq!(r, (FramePhase::Idle, FrameAction::ReconfigureSurface));
}

#[test]
fn out_of_memory_terminates() {
    let r = step(FramePhase::Acquiring, FrameEvent::AcquireFailed(AcquireError::OutOfMemory));
    assert_eq!(r, (FramePhase::Terminated, FrameAction::Terminate));
    assert_eq!(step(FramePhase::Terminated, FrameEvent::Tick), (FramePhase::Terminated, FrameAction::Wait));
}

#[test]
fn outdated_and_timeout_drop_the_frame() {
    assert_eq!(acquire_failure(AcquireError::Outdated), (FramePhase::Idle, FrameAction::DropFrame));
    assert_eq!(acquire_failure(AcquireError::Timeout), (FramePhase::Idle, FrameAction::DropFrame));
}

#[test]
fn unexpected_event_is_ignored() {
    assert_eq!(step(FramePhase::Idle, FrameEvent::Acquired), (FramePhase::Idle, FrameAction::Wait));
    assert_eq!(step(FramePhase::Recording, FrameEvent::Tick), (FramePhase::Recording, FrameAction::Wait));
}
