use sidealsa::control::WorkerControl;
use sidealsa::cycle::ahead::{AheadCycle, AHEAD_STEPS};
use sidealsa::cycle::calibration::Calibration;
use sidealsa::cycle::capture::{CaptureWorker, CaptureWorkerConfig};
use sidealsa::cycle::linked::{LinkedCycle, LINKED_STEPS};
use sidealsa::cycle::packet::{
    linked_cycle_kind, linked_startup, LinkedCycleKind, LinkedStartup, PacketCycle,
};
use sidealsa::cycle::playback::{
    DuplexStartGate, GateStep, PlaybackWorker, PlaybackWorkerConfig, PLAYBACK_STEPS,
};
use sidealsa::cycle::{
    playback_target_step, CaptureObservation, CycleAction, CycleEvent, LinkedProConfig,
    PlaybackStatus, RunState, TargetStep,
};
use sidealsa::error::{DeviceFailure, EngineError, StreamDirection};
use sidealsa::timeline::HardwareTimeline;
use sidealsa::timing::DirectDuplexReadiness;

trait Machine {
    fn wanted(&self) -> CycleAction;
    fn feed(&mut self, state: &mut RunState, event: CycleEvent);
    fn ended(&self) -> Option<Result<(), EngineError>>;
}

impl Machine for LinkedCycle {
    fn wanted(&self) -> CycleAction {
        self.action()
    }
    fn feed(&mut self, state: &mut RunState, event: CycleEvent) {
        self.step(state, event)
    }
    fn ended(&self) -> Option<Result<(), EngineError>> {
        self.result()
    }
}

impl Machine for AheadCycle {
    fn wanted(&self) -> CycleAction {
        self.action()
    }
    fn feed(&mut self, state: &mut RunState, event: CycleEvent) {
        self.step(state, event)
    }
    fn ended(&self) -> Option<Result<(), EngineError>> {
        self.result()
    }
}

impl Machine for PacketCycle {
    fn wanted(&self) -> CycleAction {
        self.action()
    }
    fn feed(&mut self, state: &mut RunState, event: CycleEvent) {
        self.step(state, event)
    }
    fn ended(&self) -> Option<Result<(), EngineError>> {
        self.result()
    }
}

impl Machine for PlaybackWorker {
    fn wanted(&self) -> CycleAction {
        self.action()
    }
    fn feed(&mut self, state: &mut RunState, event: CycleEvent) {
        self.step(state, event)
    }
    fn ended(&self) -> Option<Result<(), EngineError>> {
        self.result()
    }
}

impl Machine for CaptureWorker {
    fn wanted(&self) -> CycleAction {
        self.action()
    }
    fn feed(&mut self, state: &mut RunState, event: CycleEvent) {
        self.step(state, event)
    }
    fn ended(&self) -> Option<Result<(), EngineError>> {
        self.result()
    }
}

impl Machine for Calibration {
    fn wanted(&self) -> CycleAction {
        self.action()
    }
    fn feed(&mut self, state: &mut RunState, event: CycleEvent) {
        self.step(state, event)
    }
    fn ended(&self) -> Option<Result<(), EngineError>> {
        self.result()
    }
}

fn state() -> RunState {
    RunState {
        control: WorkerControl {
            stop: false,
            done: false,
            hardware_ready: Some(false),
            capture_cycle_generation: Some(u64::MAX),
        },
        timeline: HardwareTimeline::default(),
    }
}

fn linked_config(event_driven: bool, sequence_lead: u64, hardware_period: i64) -> LinkedProConfig {
    LinkedProConfig {
        playback_channels: 2,
        capture_channels: 2,
        playback_period_samples: 128,
        capture_period_samples: 128,
        start_samples: 256,
        start_frames: 128,
        period: 64,
        buffer: 256,
        hardware_period,
        playback_floor: 64,
        phase_max_attempts: 4,
        rate: 48_000,
        handoff_nanos: 250_000,
        sequence_lead,
        event_driven,
        max_periods: Some(3),
    }
}

/// A device that does everything that is asked of it.
struct Rig {
    clock: u64,
    epoch: u64,
    target: u64,
    log: Vec<CycleAction>,
}

impl Rig {
    fn new() -> Rig {
        Rig { clock: 1_000_000, epoch: 0, target: 0, log: Vec::new() }
    }

    fn answer(&mut self, action: CycleAction) -> CycleEvent {
        match action {
            CycleAction::WaitDuplexPeriod => CycleEvent::DuplexReady(Ok(DirectDuplexReadiness {
                playback_queued_frames: 64,
                observed_nanos: self.clock,
            })),
            CycleAction::WaitPlaybackTarget | CycleAction::WaitTransfer => {
                CycleEvent::Waited(Ok(()))
            }
            CycleAction::WaitHandoff { target_nanos } => {
                self.clock = target_nanos;
                CycleEvent::Waited(Ok(()))
            }
            CycleAction::ReadCapture { samples, .. } => {
                CycleEvent::Captured(Ok((samples / 2) as i64))
            }
            CycleAction::ObserveCapture => CycleEvent::CaptureObserved(CaptureObservation {
                nanos: self.clock,
                capture_delay: Some(0),
                playback_delay: Some(128),
                pointer_phase: None,
            }),
            CycleAction::ReadClock => {
                self.clock += 1_000;
                CycleEvent::Clock { nanos: self.clock }
            }
            CycleAction::ReadPlaybackStatus => {
                CycleEvent::Status(Some(PlaybackStatus { delay: 64, available: 192 }))
            }
            CycleAction::ReadPlaybackDelay => CycleEvent::Delay(Ok(64)),
            CycleAction::ReadEpoch => CycleEvent::Epoch(Some(self.epoch)),
            CycleAction::ReadProTarget => CycleEvent::ProTarget { sequence: self.target },
            CycleAction::PublishProTarget { sequence } => {
                self.target = sequence;
                CycleEvent::Called { panicked: false }
            }
            CycleAction::WritePlayback { samples, .. } | CycleAction::WriteSilence { samples } => {
                CycleEvent::Written { result: Ok((samples / 2) as i64), write_nanos: 5_000 }
            }
            CycleAction::Recover
            | CycleAction::RecoverShifted { .. }
            | CycleAction::Rebase { .. } => CycleEvent::Recovered(Ok(())),
            _ => CycleEvent::Called { panicked: false },
        }
    }

    /// Runs a machine to its end; `intervene` may answer an action in place of the device.
    fn run(
        &mut self,
        machine: &mut dyn Machine,
        state: &mut RunState,
        intervene: &mut dyn FnMut(CycleAction, &mut RunState) -> Option<CycleEvent>,
    ) -> Result<(), EngineError> {
        for _ in 0..100_000 {
            if let Some(result) = machine.ended() {
                return result;
            }
            let action = machine.wanted();
            self.log.push(action);
            let event = match intervene(action, state) {
                Some(event) => event,
                None => self.answer(action),
            };
            machine.feed(state, event);
        }
        panic!("the machine did not end");
    }

    fn count(&self, wanted: fn(&CycleAction) -> bool) -> usize {
        self.log.iter().filter(|action| wanted(action)).count()
    }

    fn assert_commits_are_bracketed(&self) {
        let mut open = false;
        for action in &self.log {
            match action {
                CycleAction::BeginCommit => {
                    assert!(!open);
                    open = true;
                }
                CycleAction::EndCommit | CycleAction::ReleaseCommit => {
                    assert!(open);
                    open = false;
                }
                CycleAction::CommitPlayback { .. } => assert!(open),
                _ => {}
            }
        }
        assert!(!open);
    }
}

fn undisturbed(_: CycleAction, _: &mut RunState) -> Option<CycleEvent> {
    None
}

fn xrun(direction: StreamDirection) -> EngineError {
    EngineError::Xrun { operation: "test", direction, source: DeviceFailure::from_errno(32) }
}

#[test]
fn event_driven_linked_cycle_answers_each_capture_in_the_same_cycle() {
    let mut state = state();
    let mut cycle = LinkedCycle::new(linked_config(true, 0, 64), &mut state);
    let mut rig = Rig::new();
    rig.run(&mut cycle, &mut state, &mut undisturbed).unwrap();

    let first: Vec<CycleAction> = rig
        .log
        .iter()
        .copied()
        .take_while(|action| !matches!(action, CycleAction::ProcessDeferredCapture { .. }))
        .collect();
    assert_eq!(
        first,
        vec![
            CycleAction::WaitDuplexPeriod,
            CycleAction::ReadCapture { offset: 0, samples: 128 },
            CycleAction::ObserveCapture,
            CycleAction::PreparePlayback { sequence: 0 },
            CycleAction::ProcessCapture { hardware_sequence: 0, playback_sequence: 0 },
            CycleAction::ReadClock,
            CycleAction::WaitForClient { sequence: 0, cutoff_nanos: 1_250_000, exhausted: false },
            CycleAction::BeginCommit,
            CycleAction::ClearPlayback,
            CycleAction::ProcessPlayback { sequence: 0, cutoff_nanos: Some(1_250_000) },
            CycleAction::PreparePlaybackMix { sequence: 0 },
            CycleAction::CommitPlayback { sequence: 0 },
            CycleAction::WritePlayback { offset: 0, samples: 128 },
            CycleAction::ReadClock,
            CycleAction::EndCommit,
        ]
    );
    rig.assert_commits_are_bracketed();
    assert_eq!(cycle.sequence, 3);
    assert_eq!(cycle.periods_processed, 3);
    let stats = state.timeline.snapshot();
    assert_eq!(stats.periods_processed, 3);
    assert_eq!(stats.sample_position, 192);
    assert_eq!(stats.pro_wait_budget_max_nanos, 249_000);
    assert_eq!(state.control.hardware_ready, Some(true));
    assert!(state.control.done);
}

#[test]
fn timed_linked_cycle_waits_for_the_handoff_and_the_queue() {
    let mut state = state();
    let mut cycle = LinkedCycle::new(linked_config(false, 0, 64), &mut state);
    let mut rig = Rig::new();
    rig.run(&mut cycle, &mut state, &mut undisturbed).unwrap();

    assert_eq!(rig.count(|a| matches!(a, CycleAction::WaitHandoff { .. })), 3);
    assert_eq!(rig.count(|a| matches!(a, CycleAction::WaitPlaybackTarget)), 3);
    assert_eq!(rig.count(|a| matches!(a, CycleAction::WaitDuplexPeriod)), 0);
    rig.assert_commits_are_bracketed();
    assert_eq!(state.timeline.snapshot().periods_processed, 3);
}

#[test]
fn linked_cycle_restarts_after_an_xrun_and_gives_up_on_other_failures() {
    let mut state = state();
    let mut cycle = LinkedCycle::new(linked_config(true, 0, 64), &mut state);
    let mut rig = Rig::new();
    let mut failed = false;
    rig.run(&mut cycle, &mut state, &mut |action, _| match action {
        CycleAction::WritePlayback { .. } if !failed => {
            failed = true;
            Some(CycleEvent::Written {
                result: Err(xrun(StreamDirection::Playback)),
                write_nanos: 0,
            })
        }
        _ => None,
    })
    .unwrap();
    assert_eq!(rig.count(|a| matches!(a, CycleAction::Recover)), 1);
    rig.assert_commits_are_bracketed();
    assert_eq!(cycle.periods_processed, 3);

    let mut state = state_again();
    let mut cycle = LinkedCycle::new(linked_config(true, 0, 64), &mut state);
    let mut rig = Rig::new();
    let result = rig.run(&mut cycle, &mut state, &mut |action, _| match action {
        CycleAction::ReadCapture { .. } => Some(CycleEvent::Captured(Ok(63))),
        _ => None,
    });
    assert_eq!(
        result,
        Err(EngineError::ShortCommit {
            direction: StreamDirection::Capture,
            actual: 63,
            required: 64,
        })
    );
    assert!(state.control.done);
}

fn state_again() -> RunState {
    state()
}

#[test]
fn linked_cycle_reports_a_panic_of_the_client_and_lets_go_of_the_commit() {
    let mut state = state();
    let mut cycle = LinkedCycle::new(linked_config(true, 0, 64), &mut state);
    let mut rig = Rig::new();
    let result = rig.run(&mut cycle, &mut state, &mut |action, _| match action {
        CycleAction::ProcessPlayback { .. } => Some(CycleEvent::Called { panicked: true }),
        _ => None,
    });
    assert_eq!(result, Err(EngineError::WorkerPanic));
    rig.assert_commits_are_bracketed();
}

#[test]
fn a_request_to_stop_ends_every_cycle_without_a_failure() {
    let mut intervene = |action: CycleAction, state: &mut RunState| {
        if let CycleAction::ProcessCapture { .. } = action {
            state.control.stop = true;
        }
        None
    };
    let mut shared = state();
    let mut linked = LinkedCycle::new(linked_config(true, 0, 64), &mut shared);
    assert_eq!(Rig::new().run(&mut linked, &mut shared, &mut intervene), Ok(()));
    let mut shared = state();
    let mut ahead = AheadCycle::new(linked_config(false, 1, 64), &mut shared);
    assert_eq!(Rig::new().run(&mut ahead, &mut shared, &mut intervene), Ok(()));
    let mut shared = state();
    let mut packet = PacketCycle::new(linked_config(false, 1, 32), &mut shared).unwrap();
    assert_eq!(Rig::new().run(&mut packet, &mut shared, &mut intervene), Ok(()));
}

#[test]
fn cycle_with_lead_plays_the_answer_to_an_earlier_capture() {
    let mut state = state();
    let mut cycle = AheadCycle::new(linked_config(false, 1, 64), &mut state);
    let mut rig = Rig::new();
    rig.run(&mut cycle, &mut state, &mut undisturbed).unwrap();

    let captures: Vec<(u64, u64)> = rig
        .log
        .iter()
        .filter_map(|action| match action {
            CycleAction::ProcessCapture { hardware_sequence, playback_sequence } => {
                Some((*hardware_sequence, *playback_sequence))
            }
            _ => None,
        })
        .collect();
    assert_eq!(captures[..3], [(0, 1), (1, 2), (2, 3)]);
    rig.assert_commits_are_bracketed();
    assert_eq!(state.timeline.snapshot().periods_processed, 3);
}

#[test]
fn packet_cycle_moves_each_period_in_hardware_chunks() {
    let mut state = state();
    let mut cycle = PacketCycle::new(linked_config(false, 1, 32), &mut state).unwrap();
    let mut rig = Rig::new();
    rig.run(&mut cycle, &mut state, &mut undisturbed).unwrap();

    let reads: Vec<(usize, usize)> = rig
        .log
        .iter()
        .filter_map(|action| match action {
            CycleAction::ReadCapture { offset, samples } => Some((*offset, *samples)),
            _ => None,
        })
        .collect();
    assert_eq!(reads[..4], [(0, 64), (64, 64), (0, 64), (64, 64)]);
    rig.assert_commits_are_bracketed();
    assert_eq!(state.timeline.snapshot().periods_processed, 3);
}

fn playback_config(pro: bool) -> PlaybackWorkerConfig {
    PlaybackWorkerConfig {
        channels: 2,
        period_samples: 128,
        start_samples: 256,
        start_frames: 128,
        period: 64,
        buffer: 256,
        rate: 48_000,
        timer_scheduling: false,
        sequence_lead: 1,
        guard_frames: 32,
        realtime_priority: None,
        pro,
        max_periods: Some(3),
    }
}

#[test]
fn playback_worker_writes_its_periods_and_announces_each_once() {
    let mut state = state();
    let mut worker = PlaybackWorker::new(playback_config(true), &mut state);
    let mut rig = Rig::new();
    rig.run(&mut worker, &mut state, &mut undisturbed).unwrap();
    let announced: Vec<u64> = rig
        .log
        .iter()
        .filter_map(|action| match action {
            CycleAction::PreparePlayback { sequence } => Some(*sequence),
            _ => None,
        })
        .collect();
    assert_eq!(announced, vec![0, 1, 2]);
    rig.assert_commits_are_bracketed();
    assert_eq!(worker.successful_periods, 3);

    let mut state = state_again();
    let mut worker = PlaybackWorker::new(playback_config(false), &mut state);
    let mut rig = Rig::new();
    rig.run(&mut worker, &mut state, &mut undisturbed).unwrap();
    assert_eq!(rig.count(|a| matches!(a, CycleAction::ProcessPlayback { .. })), 0);
    assert_eq!(worker.successful_periods, 3);
}

#[test]
fn playback_worker_prepares_anew_when_output_was_taken_away() {
    let mut state = state();
    let mut worker = PlaybackWorker::new(playback_config(true), &mut state);
    let mut rig = Rig::new();
    let mut asked = 0;
    rig.run(&mut worker, &mut state, &mut |action, _| match action {
        CycleAction::ReadEpoch => {
            asked += 1;
            Some(CycleEvent::Epoch(Some(if asked == 2 { 1 } else { 0 })))
        }
        _ => None,
    })
    .unwrap();
    rig.assert_commits_are_bracketed();
    assert_eq!(worker.successful_periods, 3);
    assert!(rig.count(|a| matches!(a, CycleAction::ClearPlayback)) > 0);
}

#[test]
fn capture_worker_numbers_periods_upwards_and_follows_playback() {
    let mut state = state();
    let config = CaptureWorkerConfig {
        channels: 2,
        period_samples: 128,
        period: 64,
        initial_pro_sequence: 1,
        realtime_priority: None,
        pro: true,
    };
    let mut worker = CaptureWorker::new(config, &mut state);
    let mut rig = Rig::new();
    let mut targets = vec![6, 1, 5].into_iter();
    rig.run(&mut worker, &mut state, &mut |action, state| match action {
        CycleAction::ReadProTarget => match targets.next() {
            Some(sequence) => Some(CycleEvent::ProTarget { sequence }),
            None => {
                state.control.stop = true;
                None
            }
        },
        _ => None,
    })
    .unwrap();
    let published: Vec<u64> = rig
        .log
        .iter()
        .filter_map(|action| match action {
            CycleAction::ProcessCapture { playback_sequence, .. } => Some(*playback_sequence),
            _ => None,
        })
        .collect();
    assert_eq!(published[..3], [6, 7, 8]);
}

#[test]
fn workers_start_their_streams_in_order() {
    let running = state().control;
    let mut stopping = running;
    stopping.stop = true;

    let mut apart = DuplexStartGate::new(false);
    assert_eq!(apart.playback_step(&running), GateStep::Yield);
    assert_eq!(apart.capture_step(&running), GateStep::Yield);
    apart.capture_ready = true;
    apart.playback_ready = true;
    assert_eq!(apart.capture_step(&running), GateStep::Start);
    assert_eq!(apart.playback_step(&running), GateStep::Yield);
    apart.capture_started = true;
    assert_eq!(apart.playback_step(&running), GateStep::Start);
    assert_eq!(apart.capture_step(&running), GateStep::Yield);
    apart.started = true;
    assert_eq!(apart.capture_step(&running), GateStep::Proceed);

    let mut linked = DuplexStartGate::new(true);
    linked.capture_ready = true;
    assert_eq!(linked.playback_step(&running), GateStep::Start);
    assert_eq!(linked.playback_step(&stopping), GateStep::Leave);
}

#[test]
fn calibration_accepts_a_start_that_meets_the_target() {
    let config = linked_config(false, 1, 32);
    let mut shared = state();
    let mut calibration = Calibration::new(config, &shared);
    let mut rig = Rig::new();
    // Every look at the clock is 200 microseconds after the one before it, and there is one between
    // capture and write; the target is 166667 nanoseconds.
    let mut clock = 0;
    let result = rig.run(&mut calibration, &mut shared, &mut |action, _| match action {
        CycleAction::ReadClock => {
            clock += 200_000;
            Some(CycleEvent::Clock { nanos: clock })
        }
        _ => None,
    });
    assert_eq!(result, Ok(()));
    let stats = shared.timeline.snapshot();
    assert_eq!(stats.linked_phase_attempts, 1);
    assert!(stats.linked_phase_target_met);
    assert_eq!(stats.linked_phase_score_nanos, 400_000);
}

#[test]
fn calibration_gives_up_after_its_last_attempt() {
    let config = linked_config(false, 1, 32);
    let mut shared = state();
    let mut calibration = Calibration::new(config, &shared);
    let mut rig = Rig::new();
    let result = rig.run(&mut calibration, &mut shared, &mut undisturbed);
    assert_eq!(
        result,
        Err(EngineError::LinkedStartupUnstable { attempts: 4, minimum_write_nanos: 1_000 })
    );
    assert_eq!(rig.count(|a| matches!(a, CycleAction::Rebase { .. })), 3);
    assert!(!shared.timeline.snapshot().linked_phase_target_met);
}

#[test]
fn a_linked_pair_is_driven_by_the_cycle_for_its_lead() {
    assert_eq!(linked_cycle_kind(&linked_config(true, 0, 32)), LinkedCycleKind::Direct);
    assert_eq!(linked_cycle_kind(&linked_config(false, 1, 32)), LinkedCycleKind::Packet);
    assert_eq!(linked_cycle_kind(&linked_config(false, 1, 64)), LinkedCycleKind::Ahead);
    assert_eq!(linked_startup(&linked_config(true, 0, 64)), LinkedStartup::Qualify);
    assert_eq!(linked_startup(&linked_config(false, 0, 64)), LinkedStartup::Calibrate);
}

#[test]
fn a_guard_beyond_the_buffer_is_reached_at_once() {
    let mut state = state();
    assert_eq!(playback_target_step(&mut state, 0, 64, 96, 48_000, 0), TargetStep::Done);
    assert_eq!(state.timeline.snapshot().playback_target_overshoot_max_frames, 32);
    assert_eq!(playback_target_step(&mut state, 10, 64, 54, 48_000, 0), TargetStep::Done);
    assert!(matches!(
        playback_target_step(&mut state, 0, 64, 16, 48_000, 0),
        TargetStep::Sleep { .. }
    ));
}

#[test]
fn a_limited_run_ends_after_its_periods_within_its_steps() {
    let check = |machine: &mut dyn Machine, state: &mut RunState, bound: usize| {
        state.timeline.periods_processed = u64::MAX;
        state.timeline.sample_position = 100;
        let mut rig = Rig::new();
        rig.run(machine, state, &mut undisturbed).unwrap();
        assert!(rig.log.len() <= bound);
        assert!(state.control.done);
        let stats = state.timeline.snapshot();
        assert_eq!((stats.periods_processed, stats.sample_position), (2, 292));
    };
    for event_driven in [false, true] {
        let mut shared = state();
        let mut cycle = LinkedCycle::new(linked_config(event_driven, 0, 64), &mut shared);
        check(&mut cycle, &mut shared, 3 * LINKED_STEPS as usize);
    }
    let mut shared = state();
    let mut cycle = AheadCycle::new(linked_config(false, 1, 64), &mut shared);
    check(&mut cycle, &mut shared, 3 * AHEAD_STEPS as usize);
    let mut shared = state();
    let mut cycle = PacketCycle::new(linked_config(false, 1, 16), &mut shared).unwrap();
    check(&mut cycle, &mut shared, 3 * (17 + 6 * 4));
    for pro in [false, true] {
        let mut shared = state();
        let mut worker = PlaybackWorker::new(playback_config(pro), &mut shared);
        check(&mut worker, &mut shared, 3 * PLAYBACK_STEPS as usize);
    }
}

#[test]
fn a_run_without_periods_ends_at_once() {
    let mut shared = state();
    let config = LinkedProConfig { max_periods: Some(0), ..linked_config(true, 0, 64) };
    let cycle = LinkedCycle::new(config, &mut shared);
    assert_eq!(cycle.result(), Some(Ok(())));
    assert!(shared.control.done);
    assert_eq!(shared.timeline.snapshot().periods_processed, 0);
}
