use sidealsa::daemon::playback::ClientView;
use sidealsa::daemon::session::{SessionGeometry, SessionState};
use sidealsa::daemon::wait::{
    playback_deadline, ready_wait_outcome, retries_event_io, DescriptorEvents, PlaybackReadyWait,
    PlaybackWait, WaitAction, WaitEvent, WaitPhase,
};

const QUIET: DescriptorEvents = DescriptorEvents { readable: false, failed: false };
const READABLE: DescriptorEvents = DescriptorEvents { readable: true, failed: false };
const FAILED: DescriptorEvents = DescriptorEvents { readable: false, failed: true };

#[test]
fn playback_ready_wait_distinguishes_timeout_and_notification() {
    assert_eq!(ready_wait_outcome(Ok((QUIET, READABLE))), PlaybackReadyWait::Timeout);
    assert_eq!(ready_wait_outcome(Ok((READABLE, QUIET))), PlaybackReadyWait::Ready);
    assert_eq!(ready_wait_outcome(Ok((READABLE, READABLE))), PlaybackReadyWait::Ready);
}

#[test]
fn playback_ready_wait_reports_descriptor_failure() {
    assert_eq!(ready_wait_outcome(Ok((FAILED, READABLE))), PlaybackReadyWait::Failed);
    assert_eq!(ready_wait_outcome(Ok((READABLE, FAILED))), PlaybackReadyWait::Failed);
    assert_eq!(ready_wait_outcome(Ok((QUIET, QUIET))), PlaybackReadyWait::Failed);
    assert_eq!(ready_wait_outcome(Err(Some(libc::EBADF))), PlaybackReadyWait::Failed);
    assert_eq!(ready_wait_outcome(Err(None)), PlaybackReadyWait::Failed);
    assert_eq!(ready_wait_outcome(Err(Some(libc::EINTR))), PlaybackReadyWait::Interrupted);
}

#[test]
fn the_deadline_is_absolute_and_never_disarms_the_timer() {
    assert_eq!(playback_deadline(0), (0, 1));
    assert_eq!(playback_deadline(1), (0, 1));
    assert_eq!(playback_deadline(2_500_000_001), (2, 500_000_001));
    assert_eq!(playback_deadline(u64::MAX), (18_446_744_073, 709_551_615));
}

#[test]
fn event_descriptors_are_retried_once_after_a_signal() {
    assert!(retries_event_io(1, Some(libc::EINTR)));
    assert!(!retries_event_io(2, Some(libc::EINTR)));
    assert!(!retries_event_io(1, Some(libc::EAGAIN)));
    assert!(!retries_event_io(1, None));
}

fn session() -> SessionState {
    let mut session = SessionState::new(
        true,
        SessionGeometry {
            period_frames: 4,
            playback_channels: 2,
            capture_channels: 2,
            slot_count: 8,
        },
    );
    session.try_open(7, 0).unwrap();
    session.finish_open(7, true);
    assert!(session.start(7, 0));
    session
}

fn wait() -> PlaybackWait {
    PlaybackWait {
        session_id: 7,
        hardware_generation: 0,
        sequence: 10,
        cutoff_nanos: 1_000,
        phase: WaitPhase::Checking,
        core_miss: false,
    }
}

fn seen(block_ready: bool) -> WaitEvent {
    WaitEvent::Observed {
        session: session(),
        hardware_generation: 0,
        client: ClientView {
            activation_ready: true,
            client_state: 2,
            start_sequence: 9,
            block_ready,
        },
    }
}

#[test]
fn a_wait_looks_again_after_taking_back_signals() {
    let mut waiting = wait();
    assert_eq!(waiting.action(), WaitAction::Observe);
    waiting.step(seen(false));
    assert_eq!(waiting.action(), WaitAction::Drain);
    waiting.step(WaitEvent::Drained);
    assert_eq!(waiting.action(), WaitAction::Observe);
    waiting.step(seen(false));
    assert_eq!(waiting.action(), WaitAction::ReadClock);
    waiting.step(WaitEvent::Now(999));
    assert_eq!(waiting.action(), WaitAction::Wait(1_000));
    waiting.step(WaitEvent::Waited(PlaybackReadyWait::Interrupted));
    assert_eq!(waiting.action(), WaitAction::Observe);
    waiting.step(seen(true));
    assert_eq!(waiting.action(), WaitAction::Finish);
    assert!(!waiting.core_miss);
}

#[test]
fn a_wait_ends_at_the_cutoff_and_charges_only_failures_to_the_daemon() {
    let mut late = wait();
    late.phase = WaitPhase::Budgeting;
    late.step(WaitEvent::Now(1_000));
    assert_eq!(late.action(), WaitAction::Finish);
    assert!(!late.core_miss);

    let mut timed_out = wait();
    timed_out.phase = WaitPhase::Waiting;
    timed_out.step(WaitEvent::Waited(PlaybackReadyWait::Timeout));
    assert_eq!(timed_out.action(), WaitAction::Finish);
    assert!(!timed_out.core_miss);

    let mut failed = wait();
    failed.phase = WaitPhase::Waiting;
    failed.step(WaitEvent::Waited(PlaybackReadyWait::Failed));
    assert_eq!(failed.action(), WaitAction::Finish);
    assert!(failed.core_miss);
}
