use sidealsa::config::{
    HardwareConfig, PcmConfig, PortConfig, PortsConfig, Profile, SampleFormat,
};
use sidealsa::measurement::{
    plan_measurement, MeasurementError, MeasurementPhase, MeasurementPlan, MeasurementRequest,
    MeasurementRun, Measurements, PairReadiness, StreamEvents, PULSE_AMPLITUDE,
};

fn profile() -> Profile {
    let stream = || PcmConfig {
        device: "hw:Test,0".to_string(),
        channels: 2,
        format: SampleFormat::S32Le,
    };
    Profile {
        device: HardwareConfig {
            name: "Test".to_string(),
            rate: 48_000,
            period_size: 32,
            hardware_period_size: 32,
            buffer_size: 64,
            shared_buffer_size: 64,
            playback_queue_periods: None,
            playback_timer_scheduling: false,
            duplex_link: false,
            event_driven_linked_pro: false,
            linked_playback_guard_frames: 0,
            linked_phase_max_attempts: 0,
            startup_loopback: None,
            shared_latency_periods: 0,
            shared_playback_repeat_on_underrun: false,
            pro_latency_periods: 0,
            pro_output_latency_frames: 0,
            pro_handoff_nanos: 0,
            pro_realtime_priority: 0,
            realtime: false,
            realtime_priority: 0,
            playback: stream(),
            capture: stream(),
        },
        ports: PortsConfig {
            playback: vec![PortConfig {
                id: "line1".to_string(),
                name: "Line 1".to_string(),
                channels: vec![0, 1],
            }],
            capture: vec![PortConfig {
                id: "mic1".to_string(),
                name: "Mic 1".to_string(),
                channels: vec![0],
            }],
        },
    }
}

fn request() -> MeasurementRequest {
    MeasurementRequest {
        periods: 300,
        buffer_frames: None,
        start_frames: None,
        output_channel: 1,
        input_channel: 0,
    }
}

#[test]
fn a_plan_settles_buffer_start_and_periods() {
    let mut config = profile().device;
    let plan = plan_measurement(&config, request()).unwrap();
    assert_eq!(
        plan,
        MeasurementPlan {
            period_frames: 32,
            buffer_frames: 64,
            start_frames: 64,
            playback_channels: 2,
            capture_channels: 2,
            output_channel: 1,
            input_channel: 0,
            periods: 300,
            total_periods: 300 + 129 + 2,
        }
    );
    config.playback_queue_periods = Some(1);
    assert_eq!(plan_measurement(&config, request()).unwrap().start_frames, 32);
    let asked = MeasurementRequest {
        buffer_frames: Some(128),
        start_frames: Some(96),
        ..request()
    };
    let plan = plan_measurement(&config, asked).unwrap();
    assert_eq!((plan.buffer_frames, plan.start_frames), (128, 96));
}

#[test]
fn impossible_measurements_are_refused() {
    let config = profile().device;
    let refused = |config: &HardwareConfig, request| plan_measurement(config, request).unwrap_err();
    let mut unequal = config.clone();
    unequal.hardware_period_size = 16;
    assert_eq!(refused(&unequal, request()), MeasurementError::UnequalPeriods);
    for frames in [32, 65] {
        let asked = MeasurementRequest { buffer_frames: Some(frames), ..request() };
        assert_eq!(refused(&config, asked), MeasurementError::BufferFrames);
    }
    for frames in [31, 65] {
        let asked = MeasurementRequest { start_frames: Some(frames), ..request() };
        assert_eq!(refused(&config, asked), MeasurementError::StartFrames);
    }
    let asked = MeasurementRequest { output_channel: 2, ..request() };
    assert_eq!(refused(&config, asked), MeasurementError::ChannelOutside);
    let asked = MeasurementRequest { input_channel: 2, ..request() };
    assert_eq!(refused(&config, asked), MeasurementError::ChannelOutside);
}

#[test]
fn pulses_are_played_and_found_at_their_frames() {
    let mut measurements = Measurements::new();
    let mut next = 65;
    let mut block = [0; 64];
    measurements.emit_playback(32, &mut block, 2, 1, 64, &mut next);
    assert_eq!(next, 65);
    assert_eq!(block, [0; 64]);
    measurements.emit_playback(64, &mut block, 2, 1, 64, &mut next);
    assert_eq!(next, 65 + 4097);
    assert_eq!(block[3], PULSE_AMPLITUDE);
    assert_eq!(block.iter().filter(|sample| **sample != 0).count(), 1);
    assert_eq!(measurements.pending_output_frame, Some((65, 129)));

    // Too early, too quiet, and on the other channel.
    measurements.observe_capture(96, &[PULSE_AMPLITUDE, 0], 2, 0);
    measurements.observe_capture(130, &[PULSE_AMPLITUDE / 2 - 1, PULSE_AMPLITUDE], 2, 0);
    assert_eq!(measurements.measured, 0);
    measurements.observe_capture(138, &[0, 0, -PULSE_AMPLITUDE / 2, 0], 2, 0);
    assert_eq!(measurements.measured, 1);
    assert_eq!((measurements.minimum, measurements.maximum, measurements.total), (74, 74, 74));
    assert_eq!(measurements.physical_minimum, 10);
    assert_eq!(measurements.pending_output_frame, None);
    assert_eq!(
        measurements.check(),
        Err(MeasurementError::PulsesMissing { measured: 1, scheduled: 1 })
    );
}

#[test]
fn a_cable_with_a_fixed_delay_is_measured_exactly() {
    let plan = plan_measurement(&profile().device, request()).unwrap();
    let mut run = MeasurementRun::new(plan);
    assert_eq!(
        run.measurements,
        Measurements {
            scheduled: 0,
            measured: 0,
            minimum: 0,
            maximum: 0,
            total: 0,
            physical_minimum: 0,
            physical_maximum: 0,
            physical_total: 0,
            pending_output_frame: None,
        }
    );
    let mut played: Vec<i32> = Vec::new();
    let mut polls = 0;
    while run.phase != MeasurementPhase::Finished {
        match run.phase {
            MeasurementPhase::Polling => {
                polls += 1;
                run.streams_ready(96, 64);
                assert_eq!(run.available, 64);
            }
            MeasurementPhase::Reading => {
                // The device plays what was written after the frames it was started with, and the
                // cable takes seven frames more.
                let mut capture = [0; 64];
                for frame in 0..32 {
                    let at = run.capture_position as usize + frame;
                    if at >= 64 + 7 {
                        let source = (at - 64 - 7) * 2 + 1;
                        capture[frame * 2] = played.get(source).copied().unwrap_or(0);
                    }
                }
                let mut playback = [1; 64];
                run.captured(&capture, &mut playback);
                played.extend_from_slice(&playback);
            }
            MeasurementPhase::Writing => run.written(),
            MeasurementPhase::Finished => unreachable!(),
        }
    }
    assert_eq!(run.processed_periods, 431);
    assert_eq!(polls, 216);
    assert_eq!(run.measurements.check(), Ok(()));
    assert_eq!(run.measurements.scheduled, 3);
    assert_eq!((run.measurements.minimum, run.measurements.maximum), (71, 71));
    assert_eq!((run.measurements.physical_minimum, run.measurements.physical_maximum), (7, 7));
    assert_eq!(run.measurements.total, 213);
}

#[test]
fn a_pulse_that_stays_away_fails_the_measurement() {
    let mut measurements = Measurements::new();
    let mut next = 0;
    measurements.emit_playback(0, &mut [0; 2], 2, 0, 0, &mut next);
    assert_eq!(measurements.check(), Err(MeasurementError::PulsePending));
}

#[test]
fn both_streams_have_to_become_ready() {
    let quiet = StreamEvents { ready: false, failed: false };
    let ready = StreamEvents { ready: true, failed: false };
    let failed = StreamEvents { ready: false, failed: true };
    let mut pair = PairReadiness::new();
    assert_eq!(pair.polled(0, quiet, quiet), Err(MeasurementError::PollTimeout));
    assert_eq!(pair.polled(1, quiet, ready), Ok(false));
    // A stream that is ready is not looked at again.
    assert_eq!(pair.polled(1, quiet, failed), Ok(false));
    assert_eq!(pair.polled(1, ready, quiet), Ok(true));
    assert_eq!(
        PairReadiness::new().polled(1, failed, quiet),
        Err(MeasurementError::PollFailed { playback: true })
    );
    assert_eq!(
        PairReadiness::new().polled(1, quiet, failed),
        Err(MeasurementError::PollFailed { playback: false })
    );
}
