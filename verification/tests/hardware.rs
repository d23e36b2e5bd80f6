use sidealsa::config::{
    HardwareConfig, PcmConfig, PortConfig, PortsConfig, Profile, SampleFormat,
};
use sidealsa::control::WorkerControl;
use sidealsa::cycle::restart::{
    linked_recovery_plan, linked_streams_recovered, recover_linked_streams_during_cycle,
    recover_stream, recovery_errno, stream_restart_plan, StepOutcome, StreamOp, StreamPlan,
};
use sidealsa::cycle::RunState;
use sidealsa::engine::{
    check_negotiated, requested_parameters, DuplexEngine, StopPhase, StreamParameters,
    WorkersOutcome, ACCESS_MMAP_INTERLEAVED, FORMAT_S32_LE,
};
use sidealsa::error::{
    ConfigError, DeviceFailure, EngineError, RoutingError, StreamDirection,
};
use sidealsa::routing::RoutingTable;
use sidealsa::timeline::HardwareTimeline;
use sidealsa::transfer::{Transfer, TransferStep};

fn profile() -> Profile {
    let stream = || PcmConfig {
        device: "hw:Test,0".to_string(),
        channels: 2,
        format: SampleFormat::S32Le,
    };
    Profile {
        device: HardwareConfig {
            name: "Test".to_string(),
            rate: 48_000,
            period_size: 32,
            hardware_period_size: 32,
            buffer_size: 64,
            shared_buffer_size: 64,
            playback_queue_periods: None,
            playback_timer_scheduling: false,
            duplex_link: false,
            event_driven_linked_pro: false,
            linked_playback_guard_frames: 0,
            linked_phase_max_attempts: 0,
            startup_loopback: None,
            shared_latency_periods: 0,
            shared_playback_repeat_on_underrun: false,
            pro_latency_periods: 0,
            pro_output_latency_frames: 0,
            pro_handoff_nanos: 0,
            pro_realtime_priority: 0,
            realtime: false,
            realtime_priority: 0,
            playback: stream(),
            capture: stream(),
        },
        ports: PortsConfig {
            playback: vec![PortConfig {
                id: "line1".to_string(),
                name: "Line 1".to_string(),
                channels: vec![0, 1],
            }],
            capture: vec![PortConfig {
                id: "mic1".to_string(),
                name: "Mic 1".to_string(),
                channels: vec![0],
            }],
        },
    }
}

fn running() -> WorkerControl {
    WorkerControl {
        stop: false,
        done: false,
        hardware_ready: None,
        capture_cycle_generation: None,
    }
}

fn failure(errno: i32) -> DeviceFailure {
    DeviceFailure::from_errno(errno)
}

fn xrun() -> EngineError {
    EngineError::Xrun {
        operation: "test",
        direction: StreamDirection::Playback,
        source: failure(libc::EPIPE),
    }
}

fn outcome(op: StreamOp, frames: i64) -> StepOutcome {
    match op {
        StreamOp::Prime => StepOutcome::Primed(Ok(frames)),
        StreamOp::Normalize => StepOutcome::Qualified(Ok(())),
        _ => StepOutcome::Device(Ok(())),
    }
}

fn carry_out(plan: &mut StreamPlan, frames: i64) -> Vec<StreamOp> {
    let mut done = Vec::new();
    while let Some(step) = plan.pending() {
        done.push(step.op);
        plan.report(&running(), outcome(step.op, frames));
    }
    done
}

#[test]
fn the_engine_settles_its_geometry() {
    let engine = DuplexEngine::open(profile(), Ok(())).unwrap();
    let g = engine.geometry;
    assert_eq!((g.period, g.buffer, g.hardware_period), (32, 64, 32));
    assert_eq!((g.playback_period_samples, g.capture_period_samples), (64, 64));
    assert_eq!(g.playback_buffer_samples, 128);
    assert_eq!((g.playback_start_frames, g.playback_start_samples), (64, 128));
    assert_eq!((g.playback_avail_min, g.playback_start_threshold), (32, 64));
    assert_eq!((g.capture_avail_min, g.capture_start_threshold), (32, 64));
    assert_eq!(engine.realtime_priority(), None);
    assert_eq!(engine.linked_pro_sequence_lead(), None);
}

#[test]
fn unusable_profiles_are_refused() {
    let reason = "port line1 uses channel 9".to_string();
    assert_eq!(
        DuplexEngine::open(profile(), Err(reason.clone())).err(),
        Some(EngineError::InvalidConfig(ConfigError::Profile(reason.clone())))
    );
    assert_eq!(
        RoutingTable::compile(&profile(), Err(reason.clone())).err(),
        Some(RoutingError::Profile(reason))
    );
    let mut narrow = profile();
    narrow.device.capture.format = SampleFormat::S16Le;
    assert!(matches!(
        DuplexEngine::open(narrow, Ok(())),
        Err(EngineError::InvalidConfig(ConfigError::UnsupportedFormat(StreamDirection::Capture)))
    ));
}

#[test]
fn a_stream_that_settles_on_something_else_is_refused() {
    let config = profile().device;
    let wanted = requested_parameters(&config, StreamDirection::Playback);
    assert_eq!(
        wanted,
        StreamParameters {
            rate: 48_000,
            period: 32,
            buffer: 64,
            channels: 2,
            format: FORMAT_S32_LE,
            access: ACCESS_MMAP_INTERLEAVED,
        }
    );
    assert_eq!(check_negotiated(&config, StreamDirection::Playback, wanted), Ok(()));
    for other in [
        StreamParameters { rate: 44_100, ..wanted },
        StreamParameters { period: 64, ..wanted },
        StreamParameters { buffer: 128, ..wanted },
        StreamParameters { channels: 1, ..wanted },
        StreamParameters { format: 2, ..wanted },
        StreamParameters { access: 3, ..wanted },
    ] {
        assert_eq!(
            check_negotiated(&config, StreamDirection::Playback, other),
            Err(EngineError::InvalidConfig(ConfigError::Negotiated {
                direction: StreamDirection::Playback,
                rate: other.rate,
                period: other.period,
                buffer: other.buffer,
                channels: other.channels,
                format: other.format,
                access: other.access,
            }))
        );
    }
}

#[test]
fn stopping_unlinks_and_drops_what_runs() {
    let mut engine = DuplexEngine::open(profile(), Ok(())).unwrap();
    assert!(matches!(engine.lifecycle.begin_stop(), StopPhase::Stopped { result: Ok(()) }));

    engine.lifecycle.started = true;
    engine.lifecycle.streams_linked = true;
    let phase = engine.lifecycle.begin_stop();
    assert!(matches!(phase, StopPhase::DropLinked));
    // A pair that cannot be dropped through its link is unlinked and dropped one by one.
    let phase = engine.lifecycle.continue_stop(phase, Err(failure(libc::EIO)));
    assert!(matches!(phase, StopPhase::UnlinkRunning));
    let phase = engine.lifecycle.continue_stop(phase, Ok(()));
    assert!(matches!(phase, StopPhase::DropPlayback));
    let phase = engine.lifecycle.continue_stop(phase, Ok(()));
    assert!(matches!(phase, StopPhase::DropCapture { playback: Ok(()) }));
    let phase = engine.lifecycle.continue_stop(phase, Ok(()));
    assert!(matches!(phase, StopPhase::Stopped { result: Ok(()) }));
    assert!(!engine.lifecycle.started);
    assert!(!engine.lifecycle.streams_linked);

    engine.lifecycle.started = true;
    engine.lifecycle.capture_held = false;
    assert!(matches!(
        engine.lifecycle.begin_stop(),
        StopPhase::Stopped {
            result: Err(EngineError::InvalidConfig(ConfigError::Reason("capture worker is active")))
        }
    ));
}

#[test]
fn streams_come_back_from_their_workers() {
    let mut engine = DuplexEngine::open(profile(), Ok(())).unwrap();
    assert_eq!(engine.take_streams(), Ok(()));
    assert!(engine.take_streams().is_err());
    let result = engine.workers_finished(WorkersOutcome::Joined {
        playback: Ok(()),
        capture: Err(EngineError::WorkerPanic),
    });
    assert_eq!(result, Err(EngineError::WorkerPanic));
    assert!(engine.lifecycle.playback_held && engine.lifecycle.capture_held);
}

#[test]
fn a_plan_ends_with_its_first_failure() {
    let mut plan = linked_recovery_plan(false, 0, 128);
    let done = carry_out(&mut plan, 128);
    assert_eq!(plan.result(), Some(Ok(())));
    assert!(done.len() > 4);

    let mut plan = linked_recovery_plan(false, 0, 128);
    let mut steps = 0;
    while let Some(step) = plan.pending() {
        steps += 1;
        let result = if let StreamOp::Prime = step.op {
            StepOutcome::Primed(Ok(127))
        } else {
            outcome(step.op, 128)
        };
        plan.report(&running(), result);
    }
    assert!(steps < done.len());
    assert!(matches!(
        plan.result(),
        Some(Err(EngineError::ShortCommit { actual: 127, required: 128, .. }))
    ));

    let mut plan = stream_restart_plan(StreamDirection::Playback, 128);
    assert!(plan.pending().is_some());
    let mut stopping = running();
    stopping.stop = true;
    plan.report(&stopping, StepOutcome::Device(Ok(())));
    assert_eq!(plan.result(), Some(Err(EngineError::Stopped)));
}

#[test]
fn recoveries_count_xruns_and_publish_one_generation() {
    let mut state = RunState { control: running(), timeline: HardwareTimeline::default() };
    let mut plan = recover_stream(&mut state, StreamDirection::Playback, &xrun(), libc::EPIPE);
    assert_eq!(state.timeline.snapshot().hw_playback_xruns, 1);
    assert_eq!(state.timeline.generation(), 0);
    carry_out(&mut plan, 0);
    assert_eq!(plan.result(), Some(Ok(())));
    linked_streams_recovered(&mut state.timeline, &xrun());
    assert_eq!(state.timeline.generation(), 1);

    let suspended = EngineError::Suspended {
        operation: "test",
        direction: StreamDirection::Capture,
        source: failure(libc::ESTRPIPE),
    };
    assert_eq!(recovery_errno(&suspended, libc::EPIPE), libc::ESTRPIPE);
    assert_eq!(recovery_errno(&EngineError::Stopped, libc::EPIPE), libc::EPIPE);
    recover_stream(&mut state, StreamDirection::Capture, &suspended, libc::EPIPE);
    assert_eq!(state.timeline.snapshot().hw_capture_xruns, 0);
}

#[test]
fn a_failure_before_readiness_is_not_recovered_from() {
    let mut state = RunState { control: running(), timeline: HardwareTimeline::default() };
    state.control.hardware_ready = Some(false);
    let result = recover_linked_streams_during_cycle(&mut state, &xrun(), true, 128);
    assert_eq!(result.err(), Some(EngineError::LinkedStartupInterrupted));
    state.control.hardware_ready = Some(true);
    assert!(recover_linked_streams_during_cycle(&mut state, &xrun(), true, 128).is_ok());
}

#[test]
fn transfers_go_on_until_every_frame_has_moved() {
    let mut transfer = Transfer::new(StreamDirection::Capture, 2, 8);
    let mut scratch = [0; 8];
    assert_eq!(transfer.next_step(0), TransferStep::Wait);
    assert_eq!(transfer.next_step(3), TransferStep::Move { frames: 3 });
    transfer.store_captured(&[1, 2, 3, 4, 5, 6], &mut scratch);
    assert_eq!(transfer.committed(3, 3), Ok(false));
    assert_eq!(transfer.offset_samples(), 6);
    assert_eq!(transfer.next_step(100), TransferStep::Move { frames: 1 });
    transfer.store_captured(&[7, 8], &mut scratch);
    assert_eq!(transfer.committed(1, 1), Ok(false));
    assert_eq!(transfer.next_step(100), TransferStep::Complete);
    assert_eq!(scratch, [1, 2, 3, 4, 5, 6, 7, 8]);

    let mut transfer = Transfer::new(StreamDirection::Playback, 2, 8);
    let mut mapped = [0; 4];
    transfer.load_playback(&scratch, &mut mapped);
    assert_eq!(mapped, [1, 2, 3, 4]);
    assert_eq!(transfer.committed(0, 0), Ok(true));
    assert!(matches!(
        transfer.committed(2, 1),
        Err(EngineError::ShortCommit { direction: StreamDirection::Playback, .. })
    ));
}

#[test]
fn a_transfer_is_complete_once_nothing_remains() {
    let mut transfer = Transfer::new(StreamDirection::Playback, 2, 6);
    assert!(!transfer.is_complete());
    assert_eq!(transfer.committed(2, 2), Ok(false));
    assert!(!transfer.is_complete());
    assert_eq!(transfer.committed(1, 1), Ok(false));
    assert!(transfer.is_complete());
    assert!(Transfer::new(StreamDirection::Capture, 2, 1).is_complete());
}

#[test]
fn an_engine_opens_with_nothing_recorded() {
    let engine = DuplexEngine::open(profile(), Ok(())).expect("engine should open");
    let fresh = HardwareTimeline::default();
    assert_eq!(engine.timeline().snapshot(), fresh.snapshot());
    assert_eq!(engine.timeline().pro_capture_elapsed_nanos(0, 1_000), None);
}
