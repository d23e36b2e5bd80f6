use sidealsa::error::StreamDirection;
use sidealsa::timeline::HardwareTimeline;

#[test]
fn sample_position_stays_monotonic_across_xrun() {
    let mut timeline = HardwareTimeline::default();

    timeline.update_playback_position(64);
    timeline.update_capture_position(64);
    timeline.processed_frames(64, 1);
    timeline.record_hardware_xrun(StreamDirection::Capture);
    timeline.reset_after_hardware_xrun();
    timeline.update_playback_position(0);
    timeline.update_capture_position(0);
    timeline.processed_frames(64, 1);

    let stats = timeline.snapshot();
    assert_eq!(stats.sample_position, 128);
    assert_eq!(stats.generation, 1);
    assert_eq!(stats.timeline_resets, 1);
    assert_eq!(stats.hw_capture_xruns, 1);
}

#[test]
fn failed_xrun_recovery_is_counted_without_publishing_reset() {
    let mut timeline = HardwareTimeline::default();

    timeline.record_hardware_xrun(StreamDirection::Playback);

    let stats = timeline.snapshot();
    assert_eq!(stats.hw_playback_xruns, 1);
    assert_eq!(stats.generation, 0);
    assert_eq!(stats.timeline_resets, 0);
}

#[test]
fn non_xrun_hardware_restart_resets_timeline_without_counting_xrun() {
    let mut timeline = HardwareTimeline::default();

    timeline.reset_after_hardware_restart();

    let stats = timeline.snapshot();
    assert_eq!(stats.generation, 1);
    assert_eq!(stats.timeline_resets, 1);
    assert_eq!(stats.hw_playback_xruns, 0);
    assert_eq!(stats.hw_capture_xruns, 0);
}

#[test]
fn intentional_rebase_resets_timeline_without_counting_xrun() {
    let mut timeline = HardwareTimeline::default();

    timeline.reset_after_hardware_rebase();

    let stats = timeline.snapshot();
    assert_eq!(stats.generation, 1);
    assert_eq!(stats.timeline_resets, 1);
    assert_eq!(stats.linked_phase_rebases, 1);
    assert_eq!(stats.hw_playback_xruns, 0);
    assert_eq!(stats.hw_capture_xruns, 0);
}

#[test]
fn xrun_invalidates_linked_phase_score() {
    let mut timeline = HardwareTimeline::default();
    timeline.record_linked_phase_calibration(3, 300_000, true);

    timeline.reset_after_hardware_xrun();

    let stats = timeline.snapshot();
    assert_eq!(stats.linked_phase_attempts, 0);
    assert_eq!(stats.linked_phase_score_nanos, 0);
    assert!(!stats.linked_phase_target_met);
}

#[test]
fn pro_deadline_miss_does_not_reset_hardware_timeline() {
    let mut timeline = HardwareTimeline::default();

    timeline.record_pro_deadline_miss();

    let stats = timeline.snapshot();
    assert_eq!(stats.pro_deadline_misses, 1);
    assert_eq!(stats.pro_client_deadline_misses, 1);
    assert_eq!(stats.pro_core_deadline_misses, 0);
    assert_eq!(stats.generation, 0);
    assert_eq!(stats.timeline_resets, 0);
    assert_eq!(stats.hw_playback_xruns, 0);
    assert_eq!(stats.hw_capture_xruns, 0);
}

#[test]
fn shared_misses_do_not_reset_hardware_timeline() {
    let mut timeline = HardwareTimeline::default();

    timeline.record_shared_underrun();
    timeline.record_shared_overrun();

    let stats = timeline.snapshot();
    assert_eq!(stats.shared_underruns, 1);
    assert_eq!(stats.shared_overruns, 1);
    assert_eq!(stats.generation, 0);
    assert_eq!(stats.timeline_resets, 0);
}

#[test]
fn playback_delay_tracks_low_watermarks_separately_from_xruns() {
    let mut timeline = HardwareTimeline::default();

    timeline.update_pcm_delay(StreamDirection::Playback, 128, 64);
    timeline.update_pcm_delay(StreamDirection::Capture, 32, 64);
    timeline.update_pcm_delay(StreamDirection::Playback, 63, 64);

    let stats = timeline.snapshot();
    assert_eq!(stats.playback_delay_frames, 63);
    assert_eq!(stats.capture_delay_frames, 32);
    assert_eq!(stats.playback_delay_min_frames, 63);
    assert_eq!(stats.playback_delay_max_frames, 128);
    assert_eq!(stats.capture_delay_min_frames, 32);
    assert_eq!(stats.capture_delay_max_frames, 32);
    assert_eq!(stats.playback_low_watermarks, 1);
    assert_eq!(stats.hw_playback_xruns, 0);
}

#[test]
fn playback_delay_breakdown_separates_ring_and_driver() {
    let mut timeline = HardwareTimeline::default();

    timeline.update_playback_delay_breakdown(256, 128, 192);
    timeline.update_playback_delay_breakdown(200, 160, 192);

    let stats = timeline.snapshot();
    assert_eq!(stats.playback_ring_delay_frames, 32);
    assert_eq!(stats.playback_ring_delay_min_frames, 32);
    assert_eq!(stats.playback_ring_delay_max_frames, 64);
    assert_eq!(stats.playback_driver_delay_frames, 168);
    assert_eq!(stats.playback_driver_delay_min_frames, 168);
    assert_eq!(stats.playback_driver_delay_max_frames, 192);
}

#[test]
fn exact_sequence_timing_tracks_capture_to_playback() {
    let mut timeline = HardwareTimeline::default();

    timeline.record_pro_capture_read(9, 100);
    timeline.record_pro_playback_write(8, 140);
    timeline.record_pro_playback_write(9, 160);

    let stats = timeline.snapshot();
    assert_eq!(stats.capture_to_playback_write_nanos, 60);
    assert_eq!(stats.capture_to_playback_write_min_nanos, 60);
    assert_eq!(stats.capture_to_playback_write_max_nanos, 60);
}

#[test]
fn timing_diagnostics_track_bounds() {
    let mut timeline = HardwareTimeline::default();

    timeline.record_playback_target_overshoot(4);
    timeline.record_playback_target_overshoot(2);
    timeline.record_pro_wait_budget(0);
    timeline.record_pro_wait_budget(50);
    timeline.record_pro_ready_wait(30);
    timeline.record_playback_write(40);

    let stats = timeline.snapshot();
    assert_eq!(stats.playback_target_overshoot_max_frames, 4);
    assert_eq!(stats.capture_clock_wait_max_nanos, 0);
    assert_eq!(stats.pro_wait_budget_min_nanos, 0);
    assert_eq!(stats.pro_wait_budget_max_nanos, 50);
    assert_eq!(stats.pro_ready_wait_max_nanos, 30);
    assert_eq!(stats.playback_write_max_nanos, 40);
}

#[test]
fn a_report_agrees_with_itself_after_any_course() {
    let mut timeline = HardwareTimeline::default();
    for round in 0..5_i64 {
        timeline.record_pro_deadline_miss();
        timeline.record_pro_core_deadline_miss();
        timeline.record_pro_deadline_miss();
        timeline.record_pro_playback_block(round % 2 == 0);
        timeline.reset_after_hardware_restart();
        if round == 3 {
            timeline.reset_after_hardware_rebase();
        }
        timeline.update_pcm_delay(StreamDirection::Playback, 90 - round * 10, 64);
        timeline.update_pcm_delay(StreamDirection::Capture, -round, 64);
        timeline.update_playback_delay_breakdown(200, 100 + round, 256);
        timeline.record_pro_wait_budget(1_000 + round as u64);
        timeline.record_duplex_pointer_phase(-500 + round * 7);
        timeline.record_pro_capture_read(round as u64, 1_000);
        timeline.record_pro_playback_write(round as u64, 1_500 + round as u64);
    }
    let stats = timeline.snapshot();
    assert_eq!(stats.pro_deadline_misses, 15);
    assert_eq!(stats.pro_client_deadline_misses, 10);
    assert_eq!(stats.pro_core_deadline_misses, 5);
    assert_eq!(stats.generation, 6);
    assert_eq!(stats.timeline_resets, 6);
    assert_eq!(stats.linked_phase_rebases, 1);
    assert_eq!((stats.pro_playback_blocks, stats.pro_playback_nonzero_blocks), (5, 3));
    assert_eq!((stats.playback_delay_min_frames, stats.playback_delay_max_frames), (50, 90));
    assert_eq!((stats.capture_delay_min_frames, stats.capture_delay_max_frames), (0, 0));
    assert_eq!(
        (stats.playback_ring_delay_min_frames, stats.playback_ring_delay_max_frames),
        (152, 156)
    );
    assert_eq!(
        (stats.playback_driver_delay_min_frames, stats.playback_driver_delay_max_frames),
        (44, 48)
    );
    assert_eq!(
        (stats.pro_wait_budget_min_nanos, stats.pro_wait_budget_max_nanos),
        (1_000, 1_004)
    );
    assert_eq!(
        (stats.capture_to_playback_write_min_nanos, stats.capture_to_playback_write_max_nanos),
        (500, 504)
    );
    assert_eq!(
        (stats.duplex_pointer_phase_min_nanos, stats.duplex_pointer_phase_max_nanos),
        (-500, -472)
    );
}
