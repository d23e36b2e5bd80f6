use sidealsa::latency::{LatencyGuard, WARMUP_NANOS, WINDOW};

fn window(g: &mut LatencyGuard, time: u64, total: i64) -> bool {
    let mut trigger = false;
    for _ in 0..WINDOW {
        trigger = g.sample(time, total, 0);
    }
    trigger
}
fn primed() -> LatencyGuard {
    let mut g = LatencyGuard::new(64, 48000);
    g.ready(0, 0);
    assert!(!window(&mut g, WARMUP_NANOS, 200));
    g
}
#[test]
fn persistent_extra_period_after_stall_requires_two_windows() {
    let mut g = primed();
    g.completed(1_000_000_000, 1_003_500_000);
    assert!(!window(&mut g, 1_100_000_000, 315));
    assert!(window(&mut g, 1_200_000_000, 315));
}
#[test]
fn small_phase_changes_transients_and_unrelated_queue_changes_do_not_rebase() {
    let mut g = primed();
    assert!(!window(&mut g, 1_100_000_000, 315));
    assert!(!window(&mut g, 1_200_000_000, 315)); // No HW stall.
    g.completed(2_000_000_000, 2_003_500_000);
    assert!(!window(&mut g, 2_100_000_000, 225));
    assert!(!window(&mut g, 2_200_000_000, 225));
    assert!(!window(&mut g, 2_300_000_000, 315));
    assert!(!window(&mut g, 2_400_000_000, 200));
    assert!(!window(&mut g, 13_000_000_000, 315)); // Evidence expired.
}
#[test]
fn generation_change_relearns_baseline_and_normal_callback_budget_is_not_stall() {
    let mut g = primed();
    g.completed(1_000_000_000, 1_001_100_000);
    assert!(!window(&mut g, 1_100_000_000, 315));
    assert!(!window(&mut g, 1_200_000_000, 315));
    g.completed(2_000_000_000, 2_004_000_000);
    g.ready(1, 3_000_000_000);
    assert!(!window(&mut g, 3_100_000_000, 400)); // Startup ignored.
    assert!(!window(&mut g, 4_000_000_000, 210));
    assert_eq!(g.baseline, Some(210));
}

#[test]
fn sampling_scales_with_period_and_rejects_single_outliers() {
    for (period, stride) in [(64, 64), (256, 16), (1024, 4)] {
        let g = LatencyGuard::new(period, 48000);
        assert!(g.sample_due(stride));
        assert!(!g.sample_due(stride / 2));
    }
    let mut g = primed();
    g.completed(1_000_000_000, 1_004_000_000);
    for _ in 0..3 {
        assert!(!g.sample(2_000_000_000, 1000, 0));
        for _ in 1..WINDOW {
            assert!(!g.sample(2_000_000_000, 200, 0));
        }
    }
}

#[test]
fn both_windows_must_close_under_a_stall_and_a_period_above_the_first() {
    let mut g = primed();
    g.completed(1_000_000_000, 1_003_500_000);
    assert!(!window(&mut g, 1_100_000_000, 264));
    assert!(window(&mut g, 1_200_000_000, 264));
    // One frame less than a period.
    let mut g = primed();
    g.completed(1_000_000_000, 1_003_500_000);
    assert!(!window(&mut g, 1_100_000_000, 264));
    assert!(!window(&mut g, 1_200_000_000, 263));
    // A low window between two high ones.
    assert!(!window(&mut g, 1_300_000_000, 264));
    assert!(window(&mut g, 1_400_000_000, 264));
    // The stall has run out when the second window is closed.
    let mut g = primed();
    g.completed(1_000_000_000, 1_003_500_000);
    assert!(!window(&mut g, 1_100_000_000, 315));
    assert!(!window(&mut g, 11_003_500_000, 315));
}

#[test]
fn readiness_after_more_than_two_periods_is_a_stall() {
    for (gap, rebases) in [(2 * 1_333_333, false), (2 * 1_333_333 + 1, true)] {
        let mut g = primed();
        g.ready(0, gap);
        assert!(!window(&mut g, 1_100_000_000, 315));
        assert_eq!(window(&mut g, 1_200_000_000, 315), rebases);
    }
}

#[test]
fn negative_delays_and_early_samples_do_not_count() {
    let mut g = primed();
    g.completed(1_000_000_000, 1_003_500_000);
    assert!(!window(&mut g, 1_100_000_000, 315));
    for _ in 0..WINDOW - 1 {
        assert!(!g.sample(1_200_000_000, 315, 0));
    }
    assert!(!g.sample(1_200_000_000, -1, 400));
    assert!(!g.sample(1_200_000_000, 400, -1));
    assert!(!g.sample(WARMUP_NANOS - 1, 315, 0));
    assert!(g.sample(1_200_000_000, 315, 0));
}
