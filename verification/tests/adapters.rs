use sbh_tui::adapters::AdapterHealth;
use sbh_tui::adapters::DashboardStateAdapter;
use sbh_tui::adapters::IoFailure;
use sbh_tui::adapters::MountStats;
use sbh_tui::adapters::NANOS_PER_SEC;
use sbh_tui::adapters::NullStateAdapter;
use sbh_tui::adapters::SnapshotSource;
use sbh_tui::adapters::StateAdapter;
use sbh_tui::adapters::StateFileProbe;
use sbh_tui::adapters::StateFreshness;
use sbh_tui::adapters::StateReadOutcome;
use sbh_tui::adapters::fallback_mounts;
use sbh_tui::adapters::fallback_pressure_level;
use sbh_tui::adapters::finish_snapshot;
use sbh_tui::adapters::needs_stats;
use sbh_tui::double::Double;
use sbh_tui::model::BallastState;
use sbh_tui::model::Counters;
use sbh_tui::model::DaemonState;
use sbh_tui::model::LastScanState;
use sbh_tui::model::MountPressure;
use sbh_tui::model::PressureState;

fn d(value: f64) -> Double {
    Double::from_bits(value.to_bits())
}

fn sample_daemon_state() -> DaemonState {
    DaemonState {
        version: "0.1.0".to_string(),
        pid: 42,
        started_at: "2026-02-16T00:00:00Z".to_string(),
        uptime_seconds: 60,
        last_updated: "2026-02-16T00:01:00Z".to_string(),
        pressure: PressureState {
            overall: "yellow".to_string(),
            mounts: vec![MountPressure {
                path: "/".to_string(),
                free_pct: d(42.0),
                level: "yellow".to_string(),
                rate_bps: Some(d(1024.0)),
            }],
        },
        ballast: BallastState { available: 9, total: 10, released: 1 },
        last_scan: LastScanState {
            at: Some("2026-02-16T00:00:30Z".to_string()),
            candidates: 7,
            deleted: 3,
        },
        counters: Counters {
            scans: 13,
            deletions: 5,
            bytes_freed: 4096,
            errors: 0,
            dropped_log_events: 0,
        },
        policy_mode: String::new(),
        memory_rss_bytes: 1024 * 1024,
    }
}

fn readable(age: u64) -> StateFileProbe {
    StateFileProbe { metadata: Ok(()), content: Ok(Some(sample_daemon_state())), age: Ok(age) }
}

fn missing() -> StateFileProbe {
    StateFileProbe {
        metadata: Err(IoFailure::NotFound),
        content: Err(IoFailure::NotFound),
        age: Err("no file".to_string()),
    }
}

fn malformed() -> StateFileProbe {
    StateFileProbe { metadata: Ok(()), content: Ok(None), age: Ok(0) }
}

/// What the filesystem says of the given number of paths below `/tmp`.
fn live(paths: usize) -> Option<Vec<MountStats>> {
    Some((0..paths).map(|_| stats_of("/tmp", 70.0)).collect())
}

fn stats_of(mount: &str, free_pct: f64) -> MountStats {
    MountStats { mount_point: mount.to_string(), free_pct: d(free_pct) }
}

#[test]
fn null_adapter_reports_unavailable() {
    let adapter = NullStateAdapter;
    assert!(adapter.read_state("/tmp/state.json").is_none());
    assert_eq!(
        adapter.health(),
        AdapterHealth { state_file_available: false, telemetry_available: false }
    );
}

#[test]
fn fresh_state_prefers_daemon_data() {
    let adapter = DashboardStateAdapter::new(90 * NANOS_PER_SEC, NANOS_PER_SEC);
    let snapshot = adapter.load_snapshot(readable(0), live(1));

    assert_eq!(snapshot.freshness, StateFreshness::Fresh);
    assert_eq!(snapshot.source, SnapshotSource::DaemonState);
    assert_eq!(snapshot.mounts.len(), 1);
    assert_eq!(snapshot.mounts[0].path, "/");
    assert_eq!(snapshot.mounts[0].source, SnapshotSource::DaemonState);
}

#[test]
fn stale_state_falls_back_to_filesystem_stats() {
    let adapter = DashboardStateAdapter::new(90 * NANOS_PER_SEC, NANOS_PER_SEC);
    let snapshot = adapter.load_snapshot(readable(3_600 * NANOS_PER_SEC), live(1));

    match snapshot.freshness {
        StateFreshness::Stale { age } => assert!(age >= 3_000 * NANOS_PER_SEC),
        other => panic!("expected stale freshness, got {other:?}"),
    }
    assert_eq!(snapshot.source, SnapshotSource::FilesystemFallback);
    assert_eq!(snapshot.mounts.len(), 1);
    assert_eq!(snapshot.mounts[0].path, "/tmp");
    assert_eq!(snapshot.mounts[0].source, SnapshotSource::FilesystemFallback);
    assert!(snapshot.daemon_state.is_some());
}

#[test]
fn malformed_state_falls_back() {
    let adapter = DashboardStateAdapter::new(90 * NANOS_PER_SEC, NANOS_PER_SEC);
    let snapshot = adapter.load_snapshot(malformed(), live(1));

    assert_eq!(snapshot.freshness, StateFreshness::Malformed);
    assert_eq!(snapshot.source, SnapshotSource::FilesystemFallback);
    assert_eq!(snapshot.mounts.len(), 1);
}

#[test]
fn missing_state_falls_back() {
    let adapter = DashboardStateAdapter::new(90 * NANOS_PER_SEC, NANOS_PER_SEC);
    let snapshot = adapter.load_snapshot(missing(), live(1));

    assert_eq!(snapshot.freshness, StateFreshness::Missing);
    assert_eq!(snapshot.source, SnapshotSource::FilesystemFallback);
    assert_eq!(snapshot.mounts.len(), 1);
}

#[test]
fn read_state_only_accepts_fresh_state() {
    let fresh_adapter = DashboardStateAdapter::new(90 * NANOS_PER_SEC, NANOS_PER_SEC);
    assert!(fresh_adapter.accepted_state(readable(0)).is_some());

    let stale_adapter = DashboardStateAdapter::new(NANOS_PER_SEC, NANOS_PER_SEC);
    assert!(stale_adapter.accepted_state(readable(300 * NANOS_PER_SEC)).is_none());
}

#[test]
fn fallback_mounts_are_deduplicated_by_mount_path() {
    let adapter = DashboardStateAdapter::new(90 * NANOS_PER_SEC, NANOS_PER_SEC);
    let snapshot = adapter.load_snapshot(missing(), live(2));

    assert_eq!(snapshot.freshness, StateFreshness::Missing);
    assert_eq!(snapshot.mounts.len(), 1);
    assert_eq!(snapshot.mounts[0].path, "/tmp");
}

#[test]
fn state_at_the_threshold_is_still_fresh() {
    let adapter = DashboardStateAdapter::new(90 * NANOS_PER_SEC, NANOS_PER_SEC);
    assert!(adapter.accepted_state(readable(90 * NANOS_PER_SEC)).is_some());
    assert!(adapter.accepted_state(readable(90 * NANOS_PER_SEC + 1)).is_none());
}

#[test]
fn unreadable_state_reports_the_error() {
    let adapter = DashboardStateAdapter::new(90 * NANOS_PER_SEC, NANOS_PER_SEC);
    let denied = IoFailure::Other("permission denied".to_string());
    let probe = StateFileProbe { metadata: Err(denied), content: Ok(None), age: Ok(0) };
    assert_eq!(
        adapter.read_state_outcome(probe),
        StateReadOutcome::ReadError("permission denied".to_string())
    );
}

#[test]
fn nothing_readable_leaves_the_source_unavailable() {
    let adapter = DashboardStateAdapter::new(90 * NANOS_PER_SEC, NANOS_PER_SEC);
    let snapshot = adapter.load_snapshot(missing(), None);
    assert!(snapshot.mounts.is_empty());
    assert_eq!(snapshot.source, SnapshotSource::Unavailable);
}

#[test]
fn fallback_levels_change_at_the_thresholds() {
    assert_eq!(fallback_pressure_level(d(4.99)), "red");
    assert_eq!(fallback_pressure_level(d(5.0)), "orange");
    assert_eq!(fallback_pressure_level(d(19.99)), "orange");
    assert_eq!(fallback_pressure_level(d(20.0)), "yellow");
    assert_eq!(fallback_pressure_level(d(35.0)), "green");
}

#[test]
fn fallback_mounts_are_listed_by_path() {
    let stats = vec![stats_of("/var", 3.0), stats_of("/", 50.0), stats_of("/home", 10.0)];
    let rows = fallback_mounts(&stats);
    let paths: Vec<&str> = rows.iter().map(|row| row.path.as_str()).collect();
    assert_eq!(paths, ["/", "/home", "/var"]);
}

#[test]
fn undetected_platform_is_an_error() {
    assert!(DashboardStateAdapter::from_detected_platform(Err("unknown".to_string()), 90).is_err());
    let adapter = DashboardStateAdapter::from_detected_platform(Ok(()), 90).expect("adapter");
    assert!(adapter.accepted_state(readable(90 * NANOS_PER_SEC)).is_some());
    assert!(adapter.accepted_state(readable(90 * NANOS_PER_SEC + 1)).is_none());
}

#[test]
fn only_a_fresh_state_needs_no_statistics() {
    let adapter = DashboardStateAdapter::new(90 * NANOS_PER_SEC, NANOS_PER_SEC);
    let fresh = adapter.read_state_outcome(readable(0));
    assert!(!needs_stats(&fresh));
    assert_eq!(finish_snapshot(fresh, None).mounts.len(), 1);
    assert!(needs_stats(&adapter.read_state_outcome(readable(91 * NANOS_PER_SEC))));
    assert!(needs_stats(&adapter.read_state_outcome(missing())));
    assert!(needs_stats(&adapter.read_state_outcome(malformed())));
}
