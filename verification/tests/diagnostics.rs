use sidealsa::diagnostics::{ProDiagnostics, ProMiss};

#[test]
fn snapshot_preserves_zero_budget_and_unknown_publication() {
    let mut diagnostics = ProDiagnostics::default();
    assert!(diagnostics.snapshot().unwrap().last_miss.is_none());
    let miss = ProMiss {
        sequence: 42,
        wait_entry_budget_nanos: Some(0),
        core: true,
        ..ProMiss::default()
    };
    diagnostics.record_miss(miss);
    let snapshot = diagnostics.snapshot().unwrap();
    assert_eq!(snapshot.misses_recorded, 1);
    assert_eq!(snapshot.last_miss, Some(miss));
    diagnostics.record_accepted(123);
    diagnostics.record_accepted(100);
    let snapshot = diagnostics.snapshot().unwrap();
    assert_eq!(snapshot.accepted_roundtrip_samples, 2);
    assert_eq!(snapshot.accepted_roundtrip_max_nanos, 123);
}

#[test]
fn snapshot_preserves_the_full_optional_timestamp_range() {
    let mut diagnostics = ProDiagnostics::default();
    for value in [Some(u64::MAX), Some(0), None] {
        let miss = ProMiss {
            wait_entry_budget_nanos: value,
            cutoff_nanos: value,
            published_nanos: value,
            capture_to_publish_nanos: value,
            ..ProMiss::default()
        };
        diagnostics.record_miss(miss);
        assert_eq!(diagnostics.snapshot().unwrap().last_miss, Some(miss));
    }
}
