use sidealsa::control::WorkerControl;
use sidealsa::cycle::packet::{staged_playback_chunk_before_capture, uses_staged_packet_cycle};
use sidealsa::cycle::playback::{announced_output_matches, prepared_output_matches};
use sidealsa::cycle::restart::record_linked_hardware_xruns;
use sidealsa::cycle::{
    observe_pro_capture_target, period_limit_reached, take_pending_pro_capture, PendingProCapture,
    ProClock,
};
use sidealsa::error::{
    alsa_call, hardware_error_exit_code, DeviceFailure, EngineError, StreamDirection,
};
use sidealsa::loopback::{
    check_startup_loopback_deadline, startup_loopback_error, startup_loopback_padding,
    StartupLoopbackProbe, CONFIRMING_MARKERS, MEASURING_MARKERS, STARTUP_LOOPBACK_NANOS,
};
use sidealsa::sequence::{
    align_sequence_forward, pro_target_sequence, take_pro_capture_sequence,
};
use sidealsa::timeline::HardwareTimeline;
use sidealsa::timing::{
    bounded_pro_handoff_target, direct_linked_start_frames, direct_pro_cutoff_nanos,
    duplex_pointer_phase_from_timestamps, linked_ahead_start_frames, linked_phase_dither_frames,
    linked_phase_target_nanos, linked_phase_warmup_cycles, linked_start_frames,
    linked_zero_lead_playback_floor, playback_startup_priority, playback_target_sleep,
    DirectDuplexReadiness, Timespec,
};

const STARTUP_LOOPBACK_MARKERS: [[i32; 3]; 2] = [MEASURING_MARKERS, CONFIRMING_MARKERS];

fn control(stop: bool, done: bool) -> WorkerControl {
    WorkerControl { stop, done, hardware_ready: None, capture_cycle_generation: None }
}

#[test]
fn startup_loopback_padding_never_subtracts_or_relabels_frames() {
    assert_eq!(startup_loopback_padding(344, 376, 128, 256, 64).unwrap(), 32);
    assert_eq!(startup_loopback_padding(376, 376, 128, 256, 64).unwrap(), 0);
    assert!(matches!(
        startup_loopback_padding(377, 376, 128, 256, 64),
        Err(EngineError::StartupLoopback("unpadded loopback delay already exceeds target"))
    ));
    assert!(startup_loopback_padding(u64::MAX, 376, 128, 256, 64).is_err());
}

#[test]
fn startup_loopback_padding_keeps_one_full_client_block_writable() {
    let start = direct_linked_start_frames(64, 256, Some(2));
    assert_eq!(start, 128);
    assert_eq!(startup_loopback_padding(312, 376, start, 256, 64).unwrap(), 64);
    assert_eq!(startup_loopback_padding(313, 376, start, 256, 64).unwrap(), 63);
    assert!(startup_loopback_padding(311, 376, start, 256, 64).is_err());
    assert_eq!(startup_loopback_padding(376, 376, start, 192, 64).unwrap(), 0);
    assert!(startup_loopback_padding(375, 376, start, 192, 64).is_err());
    assert!(startup_loopback_padding(376, 376, start, 191, 64).is_err());
    assert!(startup_loopback_padding(376, 376, start, 64, 64).is_err());
    // A later hardware start uses its own measurement and the unchanged base prime.
    assert_eq!(startup_loopback_padding(352, 376, start, 256, 64).unwrap(), 24);
}

#[test]
fn startup_loopback_requires_three_stable_delays_and_exact_verification() {
    let mut probe = StartupLoopbackProbe {
        markers: STARTUP_LOOPBACK_MARKERS[0],
        interval: 4001,
        delays: [None; 3],
    };
    assert_eq!(probe.measured_delay(None).unwrap(), None);
    probe.delays = [Some(344), Some(344), None];
    assert_eq!(probe.measured_delay(None).unwrap(), None);
    probe.delays[2] = Some(345);
    assert!(matches!(
        probe.measured_delay(None),
        Err(EngineError::StartupLoopback("unstable loopback delay"))
    ));
    probe.delays[2] = Some(344);
    assert_eq!(probe.measured_delay(None).unwrap(), Some(344));
    assert!(probe.measured_delay(Some(376)).is_err());
    probe.delays = [Some(376), Some(376), None];
    assert_eq!(probe.measured_delay(Some(376)).unwrap(), None);
    probe.delays[2] = Some(376);
    assert_eq!(probe.measured_delay(Some(376)).unwrap(), Some(376));
}

#[test]
fn startup_loopback_ignores_unsent_inexact_and_other_channel_markers() {
    let [first, second, third] = STARTUP_LOOPBACK_MARKERS[0];
    let mut probe = StartupLoopbackProbe {
        markers: STARTUP_LOOPBACK_MARKERS[0],
        interval: 4001,
        delays: [None; 3],
    };
    probe.observe(4000, 4000, &[0, first], 2, 1).unwrap();
    probe.observe(4300, 4288, &[first, first - 1, second, first + 1], 2, 1).unwrap();
    assert_eq!(probe.delays, [None; 3]);
    for (index, marker) in STARTUP_LOOPBACK_MARKERS[0].into_iter().enumerate() {
        let frame = (index as u64 + 1) * probe.interval + 344;
        probe.observe(frame, frame / 64 * 64, &[0, marker], 2, 1).unwrap();
    }
    assert_eq!(probe.measured_delay(None).unwrap(), Some(344));
    assert!(matches!(
        probe.observe(12_400, 12_352, &[0, third], 2, 1),
        Err(EngineError::StartupLoopback("ambiguous repeated probe"))
    ));
}

#[test]
fn startup_loopback_constant_input_cannot_qualify() {
    let mut probe = StartupLoopbackProbe {
        markers: STARTUP_LOOPBACK_MARKERS[0],
        interval: 4001,
        delays: [None; 3],
    };
    assert!(probe
        .observe(4352, 4352, &[STARTUP_LOOPBACK_MARKERS[0][0]; 64], 1, 0)
        .is_err());
    assert_eq!(probe.measured_delay(None).unwrap(), None);
}

#[test]
fn startup_loopback_detects_one_db_attenuation_after_24_bit_rounding() {
    let gain = 10_f64.powf(-1.0 / 20.0);
    for markers in STARTUP_LOOPBACK_MARKERS {
        let mut probe = StartupLoopbackProbe { markers, interval: 4001, delays: [None; 3] };
        for (index, marker) in markers.into_iter().enumerate() {
            let attenuated = ((f64::from(marker) * gain / 256.0).round() as i32) * 256;
            assert_ne!(marker, attenuated);
            let frame = (index as u64 + 1) * probe.interval + 344;
            probe.observe(frame, frame / 64 * 64, &[attenuated], 1, 0).unwrap();
        }
        assert_eq!(probe.measured_delay(None).unwrap(), None);
    }
}

#[test]
fn startup_loopback_transfer_failures_are_terminal() {
    assert!(matches!(
        startup_loopback_error(EngineError::ShortCommit {
            direction: StreamDirection::Playback,
            actual: 8,
            required: 32,
        }),
        EngineError::StartupLoopback(_)
    ));
    assert!(matches!(startup_loopback_error(EngineError::Stopped), EngineError::Stopped));
}

#[test]
fn startup_loopback_markers_preserve_ordinals_across_every_period_split() {
    for markers in STARTUP_LOOPBACK_MARKERS {
        for split in 1..64 {
            let mut probe = StartupLoopbackProbe { markers, interval: 4001, delays: [None; 3] };
            let mut playback = [99; 64 * 2];
            probe.emit(3968, &mut playback[..split * 2], 2, 1);
            probe.emit(3968 + split as u64, &mut playback[split * 2..], 2, 1);
            for (frame, samples) in playback.chunks_exact(2).enumerate() {
                assert_eq!(samples[0], 0);
                assert_eq!(samples[1], if frame == 33 { markers[0] } else { 0 });
            }

            let mut capture = [0; 64 * 3];
            capture[25 * 3 + 2] = playback[33 * 2 + 1];
            probe.observe(4352, 4352, &capture[..split * 3], 3, 2).unwrap();
            probe.observe(4352 + split as u64, 4352, &capture[split * 3..], 3, 2).unwrap();
            assert_eq!(probe.delays, [Some(376), None, None]);
        }
    }
}

#[test]
fn startup_loopback_deadline_and_shutdown_are_terminal() {
    let timeline = HardwareTimeline::default();
    let mut worker = control(false, false);
    let now = 5_000_000_000;
    let error = check_startup_loopback_deadline(worker.should_stop(), now, now).unwrap_err();
    assert!(matches!(error, EngineError::StartupLoopback("two-second deadline expired")));
    assert!(!error.is_recoverable());
    let deadline = now + STARTUP_LOOPBACK_NANOS;
    assert_eq!(STARTUP_LOOPBACK_NANOS, 2_000_000_000);
    check_startup_loopback_deadline(worker.should_stop(), now, deadline).unwrap();
    worker.stop = true;
    assert!(matches!(
        check_startup_loopback_deadline(worker.should_stop(), now, deadline),
        Err(EngineError::Stopped)
    ));
    worker.stop = false;
    worker.done = true;
    assert!(matches!(
        check_startup_loopback_deadline(worker.should_stop(), now, deadline),
        Err(EngineError::Stopped)
    ));
    assert_eq!(timeline.generation(), 0);
    assert_eq!(timeline.snapshot().periods_processed, 0);
}

#[test]
fn playback_target_tracks_configured_lead() {
    assert_eq!(pro_target_sequence(4, 0), 4);
    assert_eq!(pro_target_sequence(4, 1), 5);
    assert_eq!(pro_target_sequence(9, 1), 10);
    assert_eq!(pro_target_sequence(u64::MAX, 1), 0);
}

#[test]
fn handoff_target_is_consumed_only_by_its_exact_playback_sequence() {
    let target = PendingProCapture {
        hardware_sequence: u64::MAX,
        playback_sequence: 0,
        target_nanos: 250,
    };
    let mut pending = Some(target);

    assert_eq!(take_pending_pro_capture(&mut pending, u64::MAX), None);
    assert_eq!(pending, Some(target));
    assert_eq!(take_pending_pro_capture(&mut pending, 0), Some(target));
    assert_eq!(pending, None);
}

#[test]
fn capture_publishes_one_monotonic_target_per_period() {
    let mut next = 4;
    let mut generation = 0;
    assert_eq!(take_pro_capture_sequence(&mut next, &mut generation, 0, 4), 4);
    assert_eq!(take_pro_capture_sequence(&mut next, &mut generation, 0, 5), 5);
    assert_eq!(take_pro_capture_sequence(&mut next, &mut generation, 0, 6), 6);
}

#[test]
fn first_capture_aligns_to_playback_after_startup_queueing() {
    let mut next = 1;

    align_sequence_forward(&mut next, 3);

    assert_eq!(next, 3);
}

#[test]
fn capture_advances_to_target_without_moving_backward() {
    let mut next = 50;
    let mut generation = 3;
    assert_eq!(take_pro_capture_sequence(&mut next, &mut generation, 3, 20), 50);
    assert_eq!(take_pro_capture_sequence(&mut next, &mut generation, 4, 20), 51);
    assert_eq!(take_pro_capture_sequence(&mut next, &mut generation, 4, 99), 99);
    assert_eq!(take_pro_capture_sequence(&mut next, &mut generation, 4, 100), 100);
}

#[test]
fn capture_advances_locally_when_playback_clock_lags() {
    let mut next = 2;
    let mut generation = 0;

    assert_eq!(take_pro_capture_sequence(&mut next, &mut generation, 0, 1), 2);
    assert_eq!(take_pro_capture_sequence(&mut next, &mut generation, 0, 1), 3);
    assert_eq!(take_pro_capture_sequence(&mut next, &mut generation, 0, 6), 6);
}

#[test]
fn capture_observes_playback_clock_without_waiting_for_publish() {
    let timeline = HardwareTimeline::default();
    let mut clock = ProClock::new(4);

    assert_eq!(observe_pro_capture_target(&timeline, &clock), (0, 4));
    clock.publish(5);
    assert_eq!(observe_pro_capture_target(&timeline, &clock), (0, 5));
}

#[test]
fn finite_period_limit_uses_local_success_count() {
    assert!(!period_limit_reached(0, Some(2)));
    assert!(!period_limit_reached(1, Some(2)));
    assert!(period_limit_reached(2, Some(2)));
    assert!(!period_limit_reached(u64::MAX, None));
}

#[test]
fn playback_recovery_reuses_output_only_within_the_same_generation() {
    let prepared = Some((42, 7, 3));

    assert!(prepared_output_matches(prepared, 42, 7, 3));
    assert!(!prepared_output_matches(prepared, 42, 8, 3));
    assert!(!prepared_output_matches(prepared, 43, 7, 3));
    assert!(!prepared_output_matches(prepared, 42, 7, 4));
    assert!(announced_output_matches(prepared, 42, 7, 3));
    assert!(!announced_output_matches(prepared, 42, 8, 3));
    assert!(!announced_output_matches(prepared, 43, 7, 3));
    assert!(!announced_output_matches(prepared, 42, 7, 4));
}

#[test]
fn alsa_suspend_is_recoverable_but_not_an_xrun() {
    let xrun = alsa_call::<()>(
        Err(DeviceFailure::from_errno(libc::EPIPE)),
        "test operation",
        StreamDirection::Playback,
    )
    .unwrap_err();
    let suspended = alsa_call::<()>(
        Err(DeviceFailure::from_errno(libc::ESTRPIPE)),
        "test operation",
        StreamDirection::Capture,
    )
    .unwrap_err();

    assert!(matches!(xrun, EngineError::Xrun { .. }));
    assert!(xrun.is_xrun());
    assert!(xrun.is_recoverable());
    assert!(matches!(suspended, EngineError::Suspended { .. }));
    assert!(!suspended.is_xrun());
    assert!(suspended.is_recoverable());
}

#[test]
fn linked_xrun_records_each_stopped_direction() {
    let mut timeline = HardwareTimeline::default();
    let error = EngineError::LinkedXrun {
        operation: "test linked availability",
        playback: true,
        capture: true,
        source: DeviceFailure::from_errno(libc::EPIPE),
    };

    record_linked_hardware_xruns(&mut timeline, &error);

    let stats = timeline.snapshot();
    assert_eq!(stats.hw_playback_xruns, 1);
    assert_eq!(stats.hw_capture_xruns, 1);

    let transfer_error = EngineError::Xrun {
        operation: "test linked capture transfer",
        direction: StreamDirection::Capture,
        source: DeviceFailure::from_errno(libc::EPIPE),
    };
    record_linked_hardware_xruns(&mut timeline, &transfer_error);

    let stats = timeline.snapshot();
    assert_eq!(stats.hw_playback_xruns, 2);
    assert_eq!(stats.hw_capture_xruns, 2);
}

#[test]
fn worker_control_reports_shutdown_before_recovery_work() {
    let worker = control(true, false);

    assert!(matches!(worker.ensure_running(), Err(EngineError::Stopped)));
}

#[test]
fn playback_target_sleep_leaves_bounded_prewake_margin() {
    assert_eq!(playback_target_sleep(64, 48_000, 50_000), 1_283_333);
    assert_eq!(playback_target_sleep(12, 48_000, 0), 250_000);
    assert_eq!(playback_target_sleep(2, 48_000, 50_000), 1_000);
}

#[test]
fn direct_linked_start_uses_the_profile_queue_depth() {
    assert_eq!(direct_linked_start_frames(64, 256, None), 128);
    assert_eq!(direct_linked_start_frames(64, 256, Some(2)), 128);
    assert_eq!(direct_linked_start_frames(64, 256, Some(3)), 192);
    assert_eq!(direct_linked_start_frames(64, 256, Some(4)), 256);
    assert_eq!(direct_linked_start_frames(64, 128, Some(2)), 128);
}

#[test]
fn direct_cutoff_reserves_fallback_and_write_time() {
    let readiness = |playback_queued_frames| DirectDuplexReadiness {
        playback_queued_frames,
        observed_nanos: 1_000_000,
    };

    assert_eq!(direct_pro_cutoff_nanos(readiness(64), 64, 48_000, 750_000), 1_750_000);
    assert_eq!(direct_pro_cutoff_nanos(readiness(48), 64, 48_000, 750_000), 1_666_666);
    assert_eq!(direct_pro_cutoff_nanos(readiness(16), 64, 48_000, 750_000), 1_000_000);
}

#[test]
fn playback_uses_capture_priority_until_deferred_start_is_ready() {
    assert_eq!(playback_startup_priority(Some(88), true), Some(87));
    assert_eq!(playback_startup_priority(Some(1), true), Some(1));
    assert_eq!(playback_startup_priority(Some(88), false), Some(88));
    assert_eq!(playback_startup_priority(None, true), None);
}

#[test]
fn linked_start_primes_period_guard_and_handoff() {
    assert_eq!(linked_start_frames(64, 32, 192, 48_000, 250_000), 108);
    assert_eq!(linked_start_frames(64, 64, 192, 48_000, 250_000), 140);
    assert_eq!(linked_start_frames(64, 32, 128, 48_000, 250_000), 108);
    assert_eq!(linked_start_frames(64, 32, 192, 48_000, 500_000), 120);
}

#[test]
fn zero_lead_refill_accounts_for_hardware_availability_granularity() {
    let playback_floor = linked_zero_lead_playback_floor(32, 32, 192, 64);
    assert_eq!(playback_floor, 128);
    assert_eq!(linked_start_frames(64, playback_floor, 192, 48_000, 250_000), 192);
    assert_eq!(linked_zero_lead_playback_floor(32, 32, 128, 64), 64);
    assert_eq!(linked_zero_lead_playback_floor(64, 32, 192, 64), 128);

    let compact_floor = linked_zero_lead_playback_floor(32, 32, 256, 64);
    assert_eq!(compact_floor, 128);
    assert_eq!(linked_start_frames(64, compact_floor, 256, 48_000, 500_000), 216);
    let reference_floor = linked_zero_lead_playback_floor(48, 32, 256, 64);
    assert_eq!(reference_floor, 144);
    assert_eq!(linked_start_frames(64, reference_floor, 256, 48_000, 500_000), 232);
}

#[test]
fn pro_handoff_is_clamped_before_playback_reserve_is_consumed() {
    assert_eq!(
        bounded_pro_handoff_target(1_000_000, 1_050_000, 500_000, 128, 64, 48_000),
        1_550_000
    );
    assert_eq!(
        bounded_pro_handoff_target(1_000_000, 1_050_000, 500_000, 80, 64, 48_000),
        1_333_333
    );
    assert_eq!(
        bounded_pro_handoff_target(1_000_000, 1_050_000, 500_000, 32, 64, 48_000),
        1_000_000
    );
}

#[test]
fn duplex_pointer_phase_normalizes_status_query_time() {
    let timestamp = |nanos: i64| Timespec {
        tv_sec: nanos / 1_000_000_000,
        tv_nsec: nanos % 1_000_000_000,
    };

    assert_eq!(
        duplex_pointer_phase_from_timestamps(
            timestamp(10_000_300_000),
            timestamp(2_000_300_000),
            timestamp(10_000_900_000),
            timestamp(2_000_400_000),
        ),
        500_000
    );
}

#[test]
fn linked_process_ahead_primes_one_logical_and_one_physical_period() {
    assert_eq!(linked_ahead_start_frames(64, 32, 192), 96);
    assert_eq!(linked_ahead_start_frames(64, 32, 80), 80);
}

#[test]
fn staged_packet_order_carries_final_chunk_into_next_cycle() {
    assert!(uses_staged_packet_cycle(1, 64, 32));
    assert!(!uses_staged_packet_cycle(0, 64, 32));
    assert!(!uses_staged_packet_cycle(1, 64, 64));
    assert_eq!(staged_playback_chunk_before_capture(0), None);
    assert_eq!(staged_playback_chunk_before_capture(1), Some(0));
    assert_eq!(staged_playback_chunk_before_capture(2), Some(1));
}

#[test]
fn linked_phase_warms_for_one_second_and_preserves_processing_margin() {
    assert_eq!(linked_phase_warmup_cycles(48_000, 64), 750);
    assert_eq!(linked_phase_warmup_cycles(48_000, 128), 375);
    assert_eq!(linked_phase_target_nanos(32, 48_000, 500_000), 416_667);
    assert_eq!(linked_phase_target_nanos(25, 48_000, 250_000), 184_896);
    assert_eq!(linked_phase_dither_frames(1, 32), 1);
    assert_eq!(linked_phase_dither_frames(31, 32), 31);
    assert_eq!(linked_phase_dither_frames(32, 32), 0);
}

#[test]
fn hardware_ready_requires_capture_then_playback_commit() {
    let mut timeline = HardwareTimeline::default();
    let mut worker = WorkerControl {
        stop: false,
        done: false,
        hardware_ready: Some(false),
        capture_cycle_generation: Some(u64::MAX),
    };

    worker.publish_hardware_ready(timeline.generation());
    assert_eq!(worker.hardware_ready, Some(false));
    worker.mark_capture_cycle_ready(timeline.generation());
    timeline.reset_after_hardware_rebase();
    worker.publish_hardware_ready(timeline.generation());
    assert_eq!(worker.hardware_ready, Some(false));
    worker.mark_capture_cycle_ready(timeline.generation());
    worker.publish_hardware_ready(timeline.generation());
    assert_eq!(worker.hardware_ready, Some(true));
}

#[test]
fn unqualified_loopback_prevents_service_restart() {
    assert_eq!(
        hardware_error_exit_code(&EngineError::StartupLoopback("missing digital route")),
        78
    );
    assert_eq!(hardware_error_exit_code(&EngineError::Stopped), 1);
}

#[test]
fn a_block_plays_the_same_however_it_is_cut() {
    let probe = StartupLoopbackProbe::new([11, 22, 33], 5);
    let mut whole = [9; 24];
    probe.emit(3, &mut whole, 2, 1);
    for cut in 0..=12 {
        let mut parts = [9; 24];
        probe.emit(3, &mut parts[..cut * 2], 2, 1);
        probe.emit(3 + cut as u64, &mut parts[cut * 2..], 2, 1);
        assert_eq!(parts, whole);
    }
    assert!(whole.contains(&11) || whole.contains(&22));
    let mut last = [9; 4];
    probe.emit(u64::MAX - 1, &mut last, 2, 0);
    assert_eq!(last, [0; 4]);
}
