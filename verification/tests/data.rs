use jolt::data::{
    retention_cutoff, schema_action, size_prune_target, time_remaining, ChargeState,
    ChargingState, DatabaseStats, HistoryBuffer, HistoryMetric, PruneResult, SchemaAction,
    MAX_HISTORY_POINTS,
};

fn stats(size: u64) -> DatabaseStats {
    DatabaseStats {
        sample_count: 0,
        hourly_count: 0,
        daily_count: 0,
        oldest_sample: None,
        newest_sample: None,
        size_bytes: size,
    }
}

#[test]
fn database_size_text() {
    assert_eq!(stats(0).size_formatted(), "0 B");
    assert_eq!(stats(1023).size_formatted(), "1023 B");
    assert_eq!(stats(1024).size_formatted(), "1.0 KB");
    assert_eq!(stats(1536).size_formatted(), "1.5 KB");
    assert_eq!(stats(5 * 1024 * 1024).size_formatted(), "5.0 MB");
    assert_eq!(stats(3 * 1024 * 1024 * 1024 / 2).size_formatted(), "1.50 GB");
}

#[test]
fn database_size_text_matches_float_formatting() {
    for &b in &[1024u64, 1075, 1126, 1177, 2000, 10_000, 123_456, 1_048_576, 7_340_032, 999_999_999, 1_073_741_824, 5_000_000_000] {
        let v = b as f64;
        let expected = if b < 1024 {
            format!("{} B", b)
        } else if v < 1024.0 * 1024.0 {
            format!("{:.1} KB", v / 1024.0)
        } else if v < 1024.0 * 1024.0 * 1024.0 {
            format!("{:.1} MB", v / (1024.0 * 1024.0))
        } else {
            format!("{:.2} GB", v / (1024.0 * 1024.0 * 1024.0))
        };
        assert_eq!(stats(b).size_formatted(), expected);
    }
}

#[test]
fn charge_state_helpers() {
    assert_eq!(ChargeState::Discharging.state_label(), "On Battery");
    assert!(ChargeState::NotCharging.is_on_ac());
    assert!(!ChargeState::Unknown.is_on_ac());
    assert!(ChargeState::Charging.is_charging());
    assert_eq!(time_remaining(ChargeState::Charging, Some(60), Some(120)), Some(60));
    assert_eq!(time_remaining(ChargeState::Discharging, Some(60), Some(120)), Some(120));
    assert_eq!(time_remaining(ChargeState::Full, Some(60), Some(120)), None);
}

#[test]
fn metric_toggles_back() {
    let m = HistoryMetric::Battery;
    assert_eq!(m.toggled(), HistoryMetric::Power);
    assert_eq!(m.toggled().toggled(), m);
    assert_eq!(HistoryMetric::Battery.label(), "Battery %");
    assert_eq!(HistoryMetric::Power.label(), "Power (W)");
}

#[test]
fn history_keeps_the_newest_points() {
    let mut h: HistoryBuffer<u32> = HistoryBuffer::new(3);
    assert!(h.latest().is_none());
    for i in 0..5u32 {
        h.record(i);
    }
    assert_eq!(h.len(), 3);
    assert_eq!(*h.get(0), 2);
    assert_eq!(*h.get(2), 4);
    assert_eq!(h.latest(), Some(&4));
    let mut full: HistoryBuffer<u8> = HistoryBuffer::new(MAX_HISTORY_POINTS);
    for i in 0..200u32 {
        full.record((i % 256) as u8);
    }
    assert_eq!(full.len(), MAX_HISTORY_POINTS);
}

#[test]
fn charging_state_codes() {
    assert_eq!(ChargingState::from(0), ChargingState::Discharging);
    assert_eq!(ChargingState::from(1), ChargingState::Charging);
    assert_eq!(ChargingState::from(2), ChargingState::Full);
    assert_eq!(ChargingState::from(7), ChargingState::Unknown);
    assert_eq!(ChargingState::from(-1), ChargingState::Unknown);
    for s in [ChargingState::Discharging, ChargingState::Charging, ChargingState::Full, ChargingState::Unknown] {
        assert_eq!(ChargingState::from(s.code()), s);
    }
}

#[test]
fn schema_steps() {
    assert_eq!(schema_action(0), SchemaAction::CreateInitial);
    assert_eq!(schema_action(1), SchemaAction::Migrate { add_power_columns: true });
    assert_eq!(schema_action(2), SchemaAction::UpToDate);
    assert_eq!(schema_action(5), SchemaAction::UpToDate);
}

#[test]
fn retention_and_size_limits() {
    assert_eq!(retention_cutoff(1_000_000, 0), None);
    assert_eq!(retention_cutoff(1_000_000, 2), Some(1_000_000 - 172_800));
    assert_eq!(size_prune_target(0, u64::MAX), None);
    assert_eq!(size_prune_target(10, 10 * 1024 * 1024), None);
    assert_eq!(size_prune_target(10, 10 * 1024 * 1024 + 1), Some(8 * 1024 * 1024));
}

#[test]
fn prune_result_starts_at_zero() {
    let r = PruneResult::default();
    assert_eq!(r.samples_deleted + r.hourly_deleted + r.daily_deleted + r.processes_deleted, 0);
}

#[test]
fn size_text_of_huge_databases_follows_the_double() {
    let gb = 1024.0 * 1024.0 * 1024.0;
    for b in [
        (1u64 << 53) - 1,
        1u64 << 53,
        (1u64 << 53) + 1,
        (1u64 << 53) + 3,
        (1u64 << 60) + 12_345_678_901,
        u64::MAX - 1,
        u64::MAX,
        17_000_000_000_000_000_001,
    ] {
        assert_eq!(stats(b).size_formatted(), format!("{:.2} GB", b as f64 / gb));
    }
}
