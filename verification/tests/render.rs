use sbh_tui::double::Double;
use sbh_tui::input::command_palette_actions;
use sbh_tui::markup::Atom;
use sbh_tui::markup::Doc;
use sbh_tui::markup::Gauge;
use sbh_tui::markup::Pad;
use sbh_tui::markup::Tone;
use sbh_tui::markup::no_style;
use sbh_tui::model::BallastState;
use sbh_tui::model::BallastVolume;
use sbh_tui::model::Counters;
use sbh_tui::model::DaemonState;
use sbh_tui::model::DashboardModel;
use sbh_tui::model::FrameStats;
use sbh_tui::model::LastScanState;
use sbh_tui::model::MountPressure;
use sbh_tui::model::NotificationLevel;
use sbh_tui::model::Overlay;
use sbh_tui::model::PreferenceProfileMode;
use sbh_tui::model::PressureState;
use sbh_tui::model::Screen;
use sbh_tui::model::SeverityFilter;
use sbh_tui::preferences::DensityMode;
use sbh_tui::preferences::HintVerbosity;
use sbh_tui::preferences::StartScreen;
use sbh_tui::render::common::RenderContext;
use sbh_tui::render::common::truncate_path;
use sbh_tui::render::decisions::reclaimable_fits;
use sbh_tui::render::decisions::render_factor_bar;
use sbh_tui::render::frame::is_drawable;
use sbh_tui::render::overview::styled_pressure_summary;
use sbh_tui::render::page::render;
use sbh_tui::telemetry::DataSource;
use sbh_tui::telemetry::DecisionEvidence;
use sbh_tui::telemetry::FactorBreakdown;
use sbh_tui::telemetry::TimelineEvent;

fn d(value: f64) -> Double {
    Double::from_bits(value.to_bits())
}

fn f(value: Double) -> f64 {
    f64::from_bits(value.bits)
}

fn context() -> RenderContext {
    RenderContext { no_color: true, compact_padding: 0, comfortable_padding: 1, now: 0 }
}

fn in_units(value: f64, base: f64, units: &[&str]) -> String {
    let mut rest = value;
    let mut unit = 0;
    while rest >= base && unit + 1 < units.len() {
        rest /= base;
        unit += 1;
    }
    if unit == 0 {
        format!("{rest:.0} {}", units[unit])
    } else {
        format!("{rest:.1} {}", units[unit])
    }
}

fn bar(share: f64, width: usize) -> String {
    let filled = ((share.clamp(0.0, 1.0) * width as f64).round()) as usize;
    "\u{2588}".repeat(filled) + &"\u{2591}".repeat(width - filled)
}

fn gauge_share(of: Gauge) -> f64 {
    match of {
        Gauge::Used(free) => (100.0 - f(free)) / 100.0,
        Gauge::Share { part, whole } => part as f64 / whole.max(1) as f64,
        Gauge::Rest { part, whole } => 1.0 - part as f64 / whole.max(1) as f64,
        Gauge::Score(score) => f(score),
    }
}

fn atom_text(atom: &Atom<String, Vec<Double>>) -> String {
    match atom {
        Atom::Text(text) => text.clone(),
        Atom::Newline => "\n".to_string(),
        Atom::Badge(label) => format!("[{label}]"),
        Atom::Header { title, width } => {
            let rest = width.saturating_sub(title.chars().count() + 4);
            format!("\u{2500}\u{2500} {title} {}", "\u{2500}".repeat(rest))
        }
        Atom::Rule(width) => "\u{2500}".repeat(*width),
        Atom::KeyHint { key, label } => format!("{key} {label}"),
        Atom::Bytes(count) => in_units(*count as f64, 1024.0, &["B", "KB", "MB", "GB", "TB"]),
        Atom::Duration(secs) if *secs >= 3600 => {
            format!("{}h {:02}m", secs / 3600, secs % 3600 / 60)
        }
        Atom::Duration(secs) => format!("{}m {:02}s", secs / 60, secs % 60),
        Atom::Rate(rate) => in_units(f(*rate).abs(), 1024.0, &["B/s", "KB/s", "MB/s", "GB/s"]),
        Atom::Trend(rate) if f(*rate).abs() < 1024.0 => "(stable)".to_string(),
        Atom::Trend(rate) if f(*rate) > 0.0 => "(filling)".to_string(),
        Atom::Trend(_) => "(recovering)".to_string(),
        Atom::Clock(stamp) => stamp.get(11..19).unwrap_or(stamp).to_string(),
        Atom::Fixed { value, decimals } => format!("{:.*}", *decimals as usize, f(*value)),
        Atom::Mean { values, decimals } => {
            let sum: f64 = values.iter().map(|value| f(*value)).sum();
            format!("{:.*}", *decimals as usize, sum / values.len().max(1) as f64)
        }
        Atom::Percent { part, whole } => {
            format!("{:.0}", *part as f64 * 100.0 / (*whole).max(1) as f64)
        }
        Atom::Eta { free_pct, rate } => format!("{:.0}s", f(*free_pct) / f(*rate).abs()),
        Atom::Gauge { of, width, .. } => bar(gauge_share(*of), *width),
        Atom::FactorBar { value, width } => bar(f(*value), *width),
        Atom::MiniBar(_) => "\u{2584}".to_string(),
        Atom::Spark { samples, .. } => "\u{2581}".repeat(samples.len()),
        Atom::Progress(tick) => ["|", "/", "-", "\\"][(tick % 4) as usize].to_string(),
    }
}

/// The text of some content on a terminal without colours.
fn shown(doc: &Doc) -> String {
    let mut out = String::new();
    for piece in &doc.pieces {
        let text = atom_text(&piece.atom);
        match piece.pad {
            Pad::Free => out.push_str(&text),
            Pad::Left(width) => out.push_str(&format!("{text:<0$}", width as usize)),
            Pad::Right(width) => out.push_str(&format!("{text:>0$}", width as usize)),
        }
    }
    out
}

/// Adds a frame time and brings the timing figures up to date.
fn measure(model: &mut DashboardModel, ms: f64) {
    model.frame_times.push(d(ms));
    let times: Vec<f64> = model.frame_times.chronological().into_iter().map(f).collect();
    let avg = times.iter().sum::<f64>() / times.len() as f64;
    model.frame_stats = Some(FrameStats {
        current: d(ms),
        avg: d(avg),
        min: d(times.iter().copied().fold(f64::INFINITY, f64::min)),
        max: d(times.iter().copied().fold(f64::NEG_INFINITY, f64::max)),
        budget_pct: d(avg / model.refresh as f64 * 100.0),
    });
}

fn frame_of(model: &DashboardModel) -> String {
    shown(&render(model, context()))
}

fn sample_state(level: &str, free_pct: f64) -> DaemonState {
    DaemonState {
        version: String::from("0.1.0"),
        pid: 1234,
        started_at: String::from("2026-02-16T00:00:00Z"),
        uptime_seconds: 1_337,
        last_updated: String::from("2026-02-16T01:00:00Z"),
        pressure: PressureState {
            overall: level.to_string(),
            mounts: vec![MountPressure {
                path: String::from("/"),
                free_pct: d(free_pct),
                level: level.to_string(),
                rate_bps: Some(d(-4096.0)),
            }],
        },
        ballast: BallastState {
            available: 2,
            total: 4,
            released: 2,
        },
        last_scan: LastScanState {
            at: Some(String::from("2026-02-16T00:59:00Z")),
            candidates: 12,
            deleted: 3,
        },
        counters: Counters {
            scans: 100,
            deletions: 5,
            bytes_freed: 1_024_000,
            errors: 1,
            dropped_log_events: 0,
        },
        policy_mode: "enforce".into(),
        memory_rss_bytes: 52_428_800,
    }
}

#[test]
fn render_includes_mode_and_dimensions() {
    let mut model = DashboardModel::new(
        "/tmp/state.json".to_string(),
        vec!["/tmp".to_string()],
        1_000,
        (120, 42),
    );
    model.tick = 9;
    model.degraded = false;

    let frame = frame_of(&model);
    assert!(frame.contains("NORMAL"));
    assert!(frame.contains("tick=9"));
    assert!(frame.contains("120x42"));
    assert!(frame.contains("[S1 Overview]"));
    assert!(frame.contains("theme="));
}

#[test]
fn render_header_includes_active_preference_profile() {
    let mut model = DashboardModel::new(
        "/tmp/state.json".to_string(),
        vec![],
        1_000,
        (120, 42),
    );
    model.set_preference_profile(
        StartScreen::Timeline,
        DensityMode::Compact,
        HintVerbosity::Off,
        PreferenceProfileMode::SessionOverride,
    );
    let frame = frame_of(&model);
    assert!(frame.contains("prefs mode=session"));
    assert!(frame.contains("start=timeline"));
    assert!(frame.contains("density=compact"));
    assert!(frame.contains("hints=off"));
}

#[test]
fn render_reports_terminal_too_small() {
    let model = DashboardModel::new(
        "/tmp/state.json".to_string(),
        vec![],
        1_000,
        (30, 7),
    );

    let frame = frame_of(&model);
    assert!(frame.contains("terminal-too-small"));
    assert!(frame.contains("need >= 40x8"));
}

#[test]
fn hint_verbosity_off_hides_navigation_hints_but_keeps_safety_signal() {
    let mut model = DashboardModel::new(
        "/tmp/state.json".to_string(),
        vec![],
        1_000,
        (120, 40),
    );
    model.degraded = false;
    model.daemon_state = Some(sample_state("red", 4.2));
    model.hint_verbosity = HintVerbosity::Off;
    model.screen = Screen::Overview;

    let frame = frame_of(&model);
    assert!(!frame.contains("? help"));
    assert!(frame.contains("pressure"));
    assert!(frame.contains("RED"));
}

#[test]
fn render_log_search_screen_shows_real_content() {
    let mut model = DashboardModel::new(
        "/tmp/state.json".to_string(),
        vec![],
        1_000,
        (80, 24),
    );
    model.screen = Screen::LogSearch;
    let frame = frame_of(&model);
    assert!(frame.contains("[S6 Logs]"));
    assert!(frame.contains("query=<preview>"));
    assert!(!frame.contains("implementation pending"));
}

#[test]
fn render_shows_overlay_indicator() {
    let mut model = DashboardModel::new(
        "/tmp/state.json".to_string(),
        vec![],
        1_000,
        (80, 24),
    );
    model.active_overlay = Some(Overlay::Help);
    let frame = frame_of(&model);
    assert!(frame.contains("overlay"));
    assert!(frame.contains("Help"));
}

#[test]
fn render_shows_notifications() {
    let mut model = DashboardModel::new(
        "/tmp/state.json".to_string(),
        vec![],
        1_000,
        (80, 24),
    );
    model.push_notification(NotificationLevel::Error, "disk full".into());
    let frame = frame_of(&model);
    assert!(frame.contains("disk full"));
    assert!(frame.contains("ERROR"));
    assert!(frame.contains("toast#"));
}

fn multi_mount_state() -> DaemonState {
    DaemonState {
        version: String::from("0.1.0"),
        pid: 4567,
        started_at: String::from("2026-02-16T00:00:00Z"),
        uptime_seconds: 7200,
        last_updated: String::from("2026-02-16T02:00:00Z"),
        pressure: PressureState {
            overall: String::from("yellow"),
            mounts: vec![
                MountPressure {
                    path: String::from("/"),
                    free_pct: d(22.5),
                    level: String::from("green"),
                    rate_bps: Some(d(-500.0)),
                },
                MountPressure {
                    path: String::from("/data"),
                    free_pct: d(8.3),
                    level: String::from("yellow"),
                    rate_bps: Some(d(2_000_000.0)),
                },
            ],
        },
        ballast: BallastState {
            available: 1,
            total: 4,
            released: 3,
        },
        last_scan: LastScanState {
            at: Some(String::from("2026-02-16T01:45:30.123Z")),
            candidates: 42,
            deleted: 7,
        },
        counters: Counters {
            scans: 200,
            deletions: 15,
            bytes_freed: 2_147_483_648,
            errors: 3,
            dropped_log_events: 1,
        },
        policy_mode: "enforce".into(),
        memory_rss_bytes: 104_857_600,
    }
}

#[test]
fn overview_uses_layout_and_pressure_priority() {
    let mut model = DashboardModel::new(
        "/tmp/state.json".to_string(),
        vec![],
        1_000,
        (120, 30),
    );
    model.degraded = false;
    model.daemon_state = Some(sample_state("red", 4.2));
    model.rate_histories.record("/", 30, d(-4096.0));

    let frame = frame_of(&model);
    assert!(frame.contains("overview-layout=Wide"));
    assert!(frame.contains("[pressure-summary p0"));
    assert!(frame.contains("RED"));
    assert!(frame.contains("ballast"));
}

#[test]
fn pressure_shows_per_mount_detail() {
    let mut model = DashboardModel::new(
        "/tmp/state.json".to_string(),
        vec![],
        1_000,
        (120, 30),
    );
    model.daemon_state = Some(multi_mount_state());

    let frame = frame_of(&model);
    // Both mounts appear with their paths.
    assert!(frame.contains("/data"));
    assert!(frame.contains("[GREEN]"));
    assert!(frame.contains("[YELLOW]"));
    // Mount with positive rate + free > 0 shows warning.
    assert!(frame.contains("\u{26a0}"));
    // Per-mount gauge present.
    assert!(frame.contains("22.5% free"));
    assert!(frame.contains("8.3% free"));
}

#[test]
fn ewma_shows_all_mounts_with_trend_labels() {
    let mut model = DashboardModel::new(
        "/tmp/state.json".to_string(),
        vec![],
        1_000,
        (120, 30),
    );
    for mount in ["/", "/data", "/home", "/var"] {
        model.rate_histories.record(mount, 30, d(500.0));
    }

    let frame = frame_of(&model);
    // All 4 mounts visible (no longer capped at 3).
    assert!(frame.contains("ewma 4 mounts"));
    assert!(frame.contains("/home"));
    assert!(frame.contains("/var"));
    // Smart rate formatting present.
    assert!(frame.contains("B/s"));
    // Trend label present.
    assert!(frame.contains("(stable)"));
}

#[test]
fn action_lane_formats_freed_bytes() {
    let mut model = DashboardModel::new(
        "/tmp/state.json".to_string(),
        vec![],
        1_000,
        (120, 30),
    );
    model.daemon_state = Some(multi_mount_state());

    let frame = frame_of(&model);
    // 2_147_483_648 bytes = 2.0 GB
    assert!(frame.contains("freed=2.0 GB"));
}

#[test]
fn recent_activity_extracts_time() {
    let mut model = DashboardModel::new(
        "/tmp/state.json".to_string(),
        vec![],
        1_000,
        (120, 30),
    );
    model.daemon_state = Some(multi_mount_state());

    let frame = frame_of(&model);
    // Time portion extracted from "2026-02-16T01:45:30.123Z".
    assert!(frame.contains("last-scan=01:45:30"));
    assert!(!frame.contains("2026-02-16T01:45:30"));
}

#[test]
fn counters_show_human_rss_and_uptime() {
    let mut model = DashboardModel::new(
        "/tmp/state.json".to_string(),
        vec![],
        1_000,
        (120, 30),
    );
    model.daemon_state = Some(multi_mount_state());

    let frame = frame_of(&model);
    // 104_857_600 bytes = 100.0 MB
    assert!(frame.contains("rss=100.0 MB"));
    // PID visible.
    assert!(frame.contains("pid=4567"));
    // 7200 seconds = 2h 00m
    assert!(frame.contains("uptime=2h 00m"));
}

#[test]
fn degraded_pressure_lists_monitor_paths() {
    let model = DashboardModel::new(
        "/tmp/state.json".to_string(),
        vec!["/".to_string(), "/data".to_string()],
        1_000,
        (120, 30),
    );
    assert!(model.degraded);
    assert!(model.daemon_state.is_none());

    let frame = frame_of(&model);
    assert!(frame.contains("DEGRADED"));
    assert!(frame.contains("paths=2"));
}

fn sample_decision(
    id: u64,
    action: &str,
    vetoed: bool,
) -> DecisionEvidence {
    DecisionEvidence {
        decision_id: id,
        timestamp: String::from("2026-02-16T03:15:42Z"),
        path: String::from("/data/projects/test-proj/target/debug"),
        size_bytes: 524_288_000,
        age_secs: 7200,
        action: action.to_string(),
        effective_action: Some(action.to_string()),
        policy_mode: String::from("live"),
        factors: FactorBreakdown {
            location: d(0.80),
            name: d(0.75),
            age: d(0.90),
            size: d(0.60),
            structure: d(0.85),
            pressure_multiplier: d(1.3),
        },
        total_score: d(2.15),
        posterior_abandoned: d(0.87),
        expected_loss_keep: d(26.1),
        expected_loss_delete: d(13.0),
        calibration_score: d(0.82),
        vetoed,
        veto_reason: if vetoed {
            Some(String::from("contains .git"))
        } else {
            None
        },
        guard_status: Some(String::from("Pass")),
        summary: String::from("High-confidence build artifact, scored above threshold"),
        raw_json: None,
    }
}

#[test]
fn explainability_empty_shows_no_data_message() {
    let mut model = DashboardModel::new(
        "/tmp/state.json".to_string(),
        vec![],
        1_000,
        (120, 30),
    );
    model.screen = Screen::Explainability;

    let frame = frame_of(&model);
    assert!(frame.contains("[S3 Explain]"));
    assert!(frame.contains("NO DATA") || frame.contains("no data"));
    assert!(frame.contains("No decision evidence available"));
}

#[test]
fn explainability_shows_decisions_list() {
    let mut model = DashboardModel::new(
        "/tmp/state.json".to_string(),
        vec![],
        1_000,
        (120, 30),
    );
    model.screen = Screen::Explainability;
    model.explainability_decisions = vec![
        sample_decision(42, "delete", false),
        sample_decision(43, "keep", false),
    ];
    model.explainability_source = DataSource::Sqlite;

    let frame = frame_of(&model);
    assert!(frame.contains("[S3 Explain]"));
    assert!(frame.contains("data-source=SQLite"));
    assert!(frame.contains("decisions=2"));
    assert!(frame.contains("#42"));
    assert!(frame.contains("#43"));
    assert!(frame.contains("DELETE"));
    assert!(frame.contains("KEEP"));
    assert!(frame.contains("Recent Decisions"));
}

#[test]
fn explainability_shows_veto_marker() {
    let mut model = DashboardModel::new(
        "/tmp/state.json".to_string(),
        vec![],
        1_000,
        (120, 30),
    );
    model.screen = Screen::Explainability;
    model.explainability_decisions = vec![sample_decision(99, "delete", true)];

    let frame = frame_of(&model);
    assert!(frame.contains("VETOED"));
}

#[test]
fn explainability_detail_shows_factor_breakdown() {
    let mut model = DashboardModel::new(
        "/tmp/state.json".to_string(),
        vec![],
        1_000,
        (120, 40),
    );
    model.screen = Screen::Explainability;
    model.explainability_decisions = vec![sample_decision(42, "delete", false)];
    model.explainability_detail = true;

    let frame = frame_of(&model);
    assert!(frame.contains("Decision Detail"));
    assert!(frame.contains("Factor Breakdown"));
    assert!(frame.contains("location"));
    assert!(frame.contains("0.80"));
    assert!(frame.contains("Bayesian Decision"));
    assert!(frame.contains("P(abandoned)"));
    assert!(frame.contains("0.8700"));
    assert!(frame.contains("calibration"));
}

#[test]
fn explainability_detail_shows_veto_reason() {
    let mut model = DashboardModel::new(
        "/tmp/state.json".to_string(),
        vec![],
        1_000,
        (120, 40),
    );
    model.screen = Screen::Explainability;
    model.explainability_decisions = vec![sample_decision(99, "delete", true)];
    model.explainability_detail = true;

    let frame = frame_of(&model);
    assert!(frame.contains("VETOED"));
    assert!(frame.contains("contains .git"));
}

#[test]
fn explainability_shows_confidence_badge() {
    let mut model = DashboardModel::new(
        "/tmp/state.json".to_string(),
        vec![],
        1_000,
        (120, 40),
    );
    model.screen = Screen::Explainability;
    model.explainability_decisions = vec![sample_decision(42, "delete", false)];
    model.explainability_detail = true;

    let frame = frame_of(&model);
    // calibration_score = 0.82 => MODERATE confidence
    assert!(frame.contains("MODERATE"));
}

#[test]
fn explainability_partial_data_shows_warning() {
    let mut model = DashboardModel::new(
        "/tmp/state.json".to_string(),
        vec![],
        1_000,
        (120, 30),
    );
    model.screen = Screen::Explainability;
    model.explainability_decisions = vec![sample_decision(1, "keep", false)];
    model.explainability_source = DataSource::Jsonl;
    model.explainability_partial = true;
    model.explainability_diagnostics = "SQLite unavailable, using JSONL fallback".into();

    let frame = frame_of(&model);
    assert!(frame.contains("PARTIAL"));
    assert!(frame.contains("JSONL"));
    assert!(frame.contains("SQLite unavailable"));
}

#[test]
fn explainability_cursor_indicator() {
    let mut model = DashboardModel::new(
        "/tmp/state.json".to_string(),
        vec![],
        1_000,
        (120, 30),
    );
    model.screen = Screen::Explainability;
    model.explainability_decisions = vec![
        sample_decision(1, "delete", false),
        sample_decision(2, "keep", false),
    ];
    model.explainability_selected = 1;

    let frame = frame_of(&model);
    // Second decision should have the cursor marker
    let lines: Vec<&str> = frame.lines().collect();
    let cursor_line = lines.iter().find(|l| l.contains("#2") && l.contains('>'));
    assert!(cursor_line.is_some(), "cursor should be on decision #2");
}

#[test]
fn truncate_path_preserves_short_paths() {
    assert_eq!(truncate_path("/short/path", 40), "/short/path");
}

#[test]
fn truncate_path_truncates_long_paths_at_boundary() {
    let long = "/very/long/deeply/nested/project/target/debug/build/artifact";
    let truncated = truncate_path(long, 30);
    assert!(truncated.len() <= 35); // might be slightly longer due to boundary
    assert!(truncated.starts_with('/'));
}

fn sample_timeline_event(severity: &str, event_type: &str) -> TimelineEvent {
    TimelineEvent {
        timestamp: String::from("2026-02-16T03:15:42Z"),
        event_type: event_type.to_owned(),
        severity: severity.to_owned(),
        path: Some(String::from("/data/projects/test/target/debug")),
        size_bytes: Some(524_288_000),
        score: Some(d(2.15)),
        pressure_level: Some(String::from("yellow")),
        free_pct: Some(d(12.5)),
        success: Some(true),
        error_code: None,
        error_message: None,
        duration_ms: Some(150),
        details: Some(String::from("artifact cleanup")),
    }
}

#[test]
fn timeline_empty_shows_no_events_message() {
    let mut model = DashboardModel::new(
        "/tmp/state.json".to_string(),
        vec![],
        1_000,
        (120, 30),
    );
    model.screen = Screen::Timeline;

    let frame = frame_of(&model);
    assert!(frame.contains("[S2 Timeline]"));
    assert!(frame.contains("events=0/0"));
    assert!(frame.contains("No timeline events available"));
}

#[test]
fn timeline_shows_event_list() {
    let mut model = DashboardModel::new(
        "/tmp/state.json".to_string(),
        vec![],
        1_000,
        (120, 30),
    );
    model.screen = Screen::Timeline;
    model.timeline_events = vec![
        sample_timeline_event("info", "scan_complete"),
        sample_timeline_event("warning", "pressure_change"),
    ];
    model.timeline_source = DataSource::Sqlite;

    let frame = frame_of(&model);
    assert!(frame.contains("events=2/2"));
    assert!(frame.contains("data-source=SQLite"));
    assert!(frame.contains("scan_complete"));
    assert!(frame.contains("pressure_change"));
}

#[test]
fn timeline_filter_shows_subset_count() {
    let mut model = DashboardModel::new(
        "/tmp/state.json".to_string(),
        vec![],
        1_000,
        (120, 30),
    );
    model.screen = Screen::Timeline;
    model.timeline_events = vec![
        sample_timeline_event("info", "scan"),
        sample_timeline_event("warning", "pressure_change"),
        sample_timeline_event("critical", "artifact_delete"),
    ];
    model.timeline_filter = SeverityFilter::Warning;

    let frame = frame_of(&model);
    assert!(frame.contains("filter=warning"));
    assert!(frame.contains("events=1/3"));
}

#[test]
fn timeline_follow_mode_shows_indicator() {
    let mut model = DashboardModel::new(
        "/tmp/state.json".to_string(),
        vec![],
        1_000,
        (120, 30),
    );
    model.screen = Screen::Timeline;
    model.timeline_follow = true;

    let frame = frame_of(&model);
    assert!(frame.contains("[FOLLOW]"));
}

#[test]
fn timeline_cursor_shows_marker() {
    let mut model = DashboardModel::new(
        "/tmp/state.json".to_string(),
        vec![],
        1_000,
        (120, 30),
    );
    model.screen = Screen::Timeline;
    model.timeline_events = vec![
        sample_timeline_event("info", "first"),
        sample_timeline_event("info", "second"),
    ];
    model.timeline_selected = 1;

    let frame = frame_of(&model);
    let lines: Vec<&str> = frame.lines().collect();
    let cursor_line = lines
        .iter()
        .find(|l| l.contains("second") && l.starts_with('>'));
    assert!(cursor_line.is_some(), "cursor should be on second event");
}

#[test]
fn timeline_wide_shows_event_detail() {
    let mut model = DashboardModel::new(
        "/tmp/state.json".to_string(),
        vec![],
        1_000,
        (140, 30),
    );
    model.screen = Screen::Timeline;
    model.timeline_events = vec![sample_timeline_event("info", "scan_complete")];

    let frame = frame_of(&model);
    assert!(frame.contains("Event Detail"));
    assert!(frame.contains("timestamp:"));
    assert!(frame.contains("artifact cleanup"));
}

#[test]
fn timeline_empty_filter_shows_hint() {
    let mut model = DashboardModel::new(
        "/tmp/state.json".to_string(),
        vec![],
        1_000,
        (120, 30),
    );
    model.screen = Screen::Timeline;
    model.timeline_events = vec![sample_timeline_event("info", "scan")];
    model.timeline_filter = SeverityFilter::Critical;

    let frame = frame_of(&model);
    assert!(frame.contains("events=0/1"));
    assert!(frame.contains("No events match"));
}

#[test]
fn timeline_partial_data_shows_warning() {
    let mut model = DashboardModel::new(
        "/tmp/state.json".to_string(),
        vec![],
        1_000,
        (120, 30),
    );
    model.screen = Screen::Timeline;
    model.timeline_source = DataSource::Jsonl;
    model.timeline_partial = true;
    model.timeline_diagnostics = "SQLite unavailable".into();

    let frame = frame_of(&model);
    assert!(frame.contains("PARTIAL"));
    assert!(frame.contains("SQLite unavailable"));
}

#[test]
fn timeline_severity_badges() {
    let mut model = DashboardModel::new(
        "/tmp/state.json".to_string(),
        vec![],
        1_000,
        (120, 30),
    );
    model.screen = Screen::Timeline;
    model.timeline_events = vec![
        sample_timeline_event("info", "a"),
        sample_timeline_event("warning", "b"),
        sample_timeline_event("critical", "c"),
    ];

    let frame = frame_of(&model);
    assert!(frame.contains("INFO"));
    assert!(frame.contains("WARNING"));
    assert!(frame.contains("CRITICAL"));
}

fn sample_candidate(
    id: u64,
    action: &str,
    vetoed: bool,
    score: f64,
    size: u64,
) -> DecisionEvidence {
    DecisionEvidence {
        decision_id: id,
        timestamp: String::from("2026-02-16T04:30:00Z"),
        path: String::from("/data/projects/myapp/target/debug"),
        size_bytes: size,
        age_secs: 3600,
        action: action.to_string(),
        effective_action: Some(action.to_string()),
        policy_mode: String::from("live"),
        factors: FactorBreakdown {
            location: d(0.80),
            name: d(0.75),
            age: d(0.90),
            size: d(0.60),
            structure: d(0.85),
            pressure_multiplier: d(1.3),
        },
        total_score: d(score),
        posterior_abandoned: d(0.87),
        expected_loss_keep: d(26.1),
        expected_loss_delete: d(13.0),
        calibration_score: d(0.82),
        vetoed,
        veto_reason: if vetoed {
            Some(String::from("path contains .git"))
        } else {
            None
        },
        guard_status: Some(String::from("Pass")),
        summary: String::from("Build artifact candidate"),
        raw_json: None,
    }
}

#[test]
fn candidates_empty_shows_no_data_message() {
    let mut model = DashboardModel::new(
        "/tmp/state.json".to_string(),
        vec![],
        1_000,
        (120, 30),
    );
    model.screen = Screen::Candidates;

    let frame = frame_of(&model);
    assert!(frame.contains("[S4 Candidates]"));
    assert!(frame.contains("NO DATA") || frame.contains("no data"));
    assert!(frame.contains("No scan candidates available"));
}

#[test]
fn candidates_shows_ranking_list() {
    let mut model = DashboardModel::new(
        "/tmp/state.json".to_string(),
        vec![],
        1_000,
        (120, 30),
    );
    model.screen = Screen::Candidates;
    model.candidates_list = vec![
        sample_candidate(10, "delete", false, 2.15, 524_288_000),
        sample_candidate(11, "keep", false, 0.45, 1_048_576),
    ];
    model.candidates_source = DataSource::Sqlite;

    let frame = frame_of(&model);
    assert!(frame.contains("[S4 Candidates]"));
    assert!(frame.contains("data-source=SQLite"));
    assert!(frame.contains("candidates=2"));
    assert!(frame.contains("Scan Candidates"));
    assert!(frame.contains("DELETE"));
    assert!(frame.contains("KEEP"));
}

#[test]
fn candidates_shows_veto_markers() {
    let mut model = DashboardModel::new(
        "/tmp/state.json".to_string(),
        vec![],
        1_000,
        (120, 30),
    );
    model.screen = Screen::Candidates;
    model.candidates_list = vec![
        sample_candidate(10, "delete", true, 2.15, 100_000),
        sample_candidate(11, "delete", false, 1.50, 200_000),
    ];

    let frame = frame_of(&model);
    assert!(frame.contains("VETOED"));
    assert!(frame.contains("1 candidate(s)"));
    assert!(frame.contains("protected from deletion"));
}

#[test]
fn candidates_shows_sort_indicator() {
    let mut model = DashboardModel::new(
        "/tmp/state.json".to_string(),
        vec![],
        1_000,
        (120, 30),
    );
    model.screen = Screen::Candidates;
    model.candidates_list = vec![sample_candidate(1, "delete", false, 2.0, 1000)];

    let frame = frame_of(&model);
    assert!(frame.contains("sort=score"));
}

#[test]
fn candidates_cursor_indicator() {
    let mut model = DashboardModel::new(
        "/tmp/state.json".to_string(),
        vec![],
        1_000,
        (120, 30),
    );
    model.screen = Screen::Candidates;
    model.candidates_list = vec![
        sample_candidate(1, "delete", false, 2.0, 1000),
        sample_candidate(2, "keep", false, 0.5, 2000),
    ];
    model.candidates_selected = 1;

    let frame = frame_of(&model);
    let lines: Vec<&str> = frame.lines().collect();
    let cursor_line = lines.iter().find(|l| l.contains('2') && l.starts_with('>'));
    assert!(cursor_line.is_some(), "cursor should be on candidate #2");
}

#[test]
fn candidates_detail_shows_score_breakdown() {
    let mut model = DashboardModel::new(
        "/tmp/state.json".to_string(),
        vec![],
        1_000,
        (120, 40),
    );
    model.screen = Screen::Candidates;
    model.candidates_list = vec![sample_candidate(42, "delete", false, 2.15, 524_288_000)];
    model.candidates_detail = true;

    let frame = frame_of(&model);
    assert!(frame.contains("Candidate Detail"));
    assert!(frame.contains("Score Breakdown"));
    assert!(frame.contains("location"));
    assert!(frame.contains("0.80"));
    assert!(frame.contains("Decision Statistics"));
    assert!(frame.contains("P(abandoned)"));
}

#[test]
fn candidates_detail_shows_veto_reason() {
    let mut model = DashboardModel::new(
        "/tmp/state.json".to_string(),
        vec![],
        1_000,
        (120, 40),
    );
    model.screen = Screen::Candidates;
    model.candidates_list = vec![sample_candidate(99, "delete", true, 2.0, 1000)];
    model.candidates_detail = true;

    let frame = frame_of(&model);
    assert!(frame.contains("VETOED"));
    assert!(frame.contains("path contains .git"));
}

#[test]
fn candidates_shows_reclaim_estimate() {
    let mut model = DashboardModel::new(
        "/tmp/state.json".to_string(),
        vec![],
        1_000,
        (120, 30),
    );
    model.screen = Screen::Candidates;
    model.candidates_list = vec![
        sample_candidate(1, "delete", false, 2.0, 1_073_741_824),
        sample_candidate(2, "delete", false, 1.5, 524_288_000),
        sample_candidate(3, "keep", false, 0.3, 100_000_000),
    ];

    let frame = frame_of(&model);
    // Only delete (non-vetoed) candidates counted: 1GB + 500MB = 1.5GB
    assert!(frame.contains("estimated reclaimable: 1.5 GB"));
}

#[test]
fn candidates_partial_data_shows_warning() {
    let mut model = DashboardModel::new(
        "/tmp/state.json".to_string(),
        vec![],
        1_000,
        (120, 30),
    );
    model.screen = Screen::Candidates;
    model.candidates_list = vec![sample_candidate(1, "keep", false, 0.5, 1000)];
    model.candidates_source = DataSource::Jsonl;
    model.candidates_partial = true;
    model.candidates_diagnostics = "SQLite unavailable, using JSONL fallback".into();

    let frame = frame_of(&model);
    assert!(frame.contains("PARTIAL"));
    assert!(frame.contains("JSONL"));
    assert!(frame.contains("SQLite unavailable"));
}

#[test]
fn candidates_confidence_badge_in_detail() {
    let mut model = DashboardModel::new(
        "/tmp/state.json".to_string(),
        vec![],
        1_000,
        (120, 40),
    );
    model.screen = Screen::Candidates;
    model.candidates_list = vec![sample_candidate(42, "delete", false, 2.15, 1000)];
    model.candidates_detail = true;

    let frame = frame_of(&model);
    // calibration_score = 0.82 => MODERATE confidence
    assert!(frame.contains("MODERATE"));
}

#[test]
fn diagnostics_shows_health_section() {
    let mut model = DashboardModel::new(
        "/tmp/state.json".to_string(),
        vec![],
        1_000,
        (120, 30),
    );
    model.screen = Screen::Diagnostics;
    model.tick = 42;

    let frame = frame_of(&model);
    assert!(frame.contains("[S7 Diagnostics]"));
    assert!(frame.contains("Dashboard Health"));
    assert!(frame.contains("DEGRADED")); // starts degraded
    assert!(frame.contains("tick:"));
    assert!(frame.contains("42"));
    assert!(frame.contains("refresh=1000ms"));
    assert!(frame.contains("missed-ticks:"));
}

#[test]
fn diagnostics_shows_normal_mode_when_not_degraded() {
    let mut model = DashboardModel::new(
        "/tmp/state.json".to_string(),
        vec![],
        1_000,
        (120, 30),
    );
    model.screen = Screen::Diagnostics;
    model.degraded = false;

    let frame = frame_of(&model);
    assert!(frame.contains("NORMAL"));
}

#[test]
fn diagnostics_shows_frame_timing_with_data() {
    let mut model = DashboardModel::new(
        "/tmp/state.json".to_string(),
        vec![],
        1_000,
        (120, 30),
    );
    model.screen = Screen::Diagnostics;
    for ms in [2.0, 3.0, 1.5, 4.0, 2.5] {
        measure(&mut model, ms);
    }

    let frame = frame_of(&model);
    assert!(frame.contains("Frame Timing"));
    assert!(frame.contains("current: 2.5ms"));
    assert!(frame.contains("avg:"));
    assert!(frame.contains("budget:"));
    assert!(frame.contains("5 samples"));
}

#[test]
fn diagnostics_no_frame_data_message() {
    let mut model = DashboardModel::new(
        "/tmp/state.json".to_string(),
        vec![],
        1_000,
        (120, 30),
    );
    model.screen = Screen::Diagnostics;

    let frame = frame_of(&model);
    assert!(frame.contains("no frame data yet"));
}

#[test]
fn diagnostics_shows_adapter_health() {
    let mut model = DashboardModel::new(
        "/tmp/state.json".to_string(),
        vec![],
        1_000,
        (120, 30),
    );
    model.screen = Screen::Diagnostics;
    model.adapter_reads = 95;
    model.adapter_errors = 5;

    let frame = frame_of(&model);
    assert!(frame.contains("Data Adapters"));
    assert!(frame.contains("reads=95"));
    assert!(frame.contains("errors=5"));
    assert!(frame.contains("DEGRADED")); // 5% error rate < 10%
}

#[test]
fn diagnostics_adapter_ok_with_zero_errors() {
    let mut model = DashboardModel::new(
        "/tmp/state.json".to_string(),
        vec![],
        1_000,
        (120, 30),
    );
    model.screen = Screen::Diagnostics;
    model.degraded = false;
    model.adapter_reads = 100;
    model.adapter_errors = 0;

    let frame = frame_of(&model);
    // Should show "OK" for adapter health (not DEGRADED from dashboard mode)
    let adapter_line = frame
        .lines()
        .find(|l| l.contains("state-adapter:"))
        .expect("adapter line");
    assert!(adapter_line.contains("OK") || adapter_line.contains("ok"));
}

#[test]
fn diagnostics_shows_telemetry_sources() {
    let mut model = DashboardModel::new(
        "/tmp/state.json".to_string(),
        vec![],
        1_000,
        (120, 30),
    );
    model.screen = Screen::Diagnostics;
    model.timeline_source = DataSource::Sqlite;
    model.explainability_source = DataSource::Jsonl;
    model.explainability_partial = true;

    let frame = frame_of(&model);
    assert!(frame.contains("timeline"));
    assert!(frame.contains("SQLite"));
    assert!(frame.contains("explainability"));
    assert!(frame.contains("JSONL"));
    assert!(frame.contains("PARTIAL"));
    assert!(frame.contains("candidates"));
    assert!(frame.contains("INACTIVE")); // candidates still DataSource::Absent
}

#[test]
fn diagnostics_shows_terminal_info() {
    let mut model = DashboardModel::new(
        "/tmp/state.json".to_string(),
        vec![],
        1_000,
        (120, 30),
    );
    model.screen = Screen::Diagnostics;

    let frame = frame_of(&model);
    assert!(frame.contains("Terminal"));
    assert!(frame.contains("120x30"));
}

#[test]
fn diagnostics_verbose_shows_daemon_and_screen_state() {
    let mut model = DashboardModel::new(
        "/tmp/state.json".to_string(),
        vec![],
        1_000,
        (120, 40),
    );
    model.screen = Screen::Diagnostics;
    model.diagnostics_verbose = true;
    model.daemon_state = Some(sample_state("green", 80.0));

    let frame = frame_of(&model);
    assert!(frame.contains("Daemon Process"));
    assert!(frame.contains("pid:"));
    assert!(frame.contains("1234"));
    assert!(frame.contains("rss:"));
    assert!(frame.contains("Screen State"));
    assert!(frame.contains("active:"));
    assert!(frame.contains("S7 Diagnostics"));
}

#[test]
fn diagnostics_verbose_off_hides_daemon_section() {
    let mut model = DashboardModel::new(
        "/tmp/state.json".to_string(),
        vec![],
        1_000,
        (120, 30),
    );
    model.screen = Screen::Diagnostics;
    model.diagnostics_verbose = false;
    model.daemon_state = Some(sample_state("green", 80.0));

    let frame = frame_of(&model);
    assert!(!frame.contains("Daemon Process"));
    assert!(!frame.contains("Screen State"));
}

#[test]
fn diagnostics_navigation_hint() {
    let mut model = DashboardModel::new(
        "/tmp/state.json".to_string(),
        vec![],
        1_000,
        (120, 30),
    );
    model.screen = Screen::Diagnostics;

    let frame = frame_of(&model);
    assert!(frame.contains("V verbose"));
    assert!(frame.contains("(off)"));

    model.diagnostics_verbose = true;
    let frame = frame_of(&model);
    assert!(frame.contains("(on)"));
}

#[test]
fn diagnostics_budget_badge_reflects_load() {
    let mut model = DashboardModel::new(
        "/tmp/state.json".to_string(),
        vec![],
        1_000,
        (120, 30),
    );
    model.screen = Screen::Diagnostics;
    // avg = 900ms, budget = 1000ms → 90% → OVER badge
    for _ in 0..10 {
        measure(&mut model, 900.0);
    }

    let frame = frame_of(&model);
    assert!(frame.contains("OVER"));
}

#[test]
fn diagnostics_adapter_failing_at_high_error_rate() {
    let mut model = DashboardModel::new(
        "/tmp/state.json".to_string(),
        vec![],
        1_000,
        (120, 30),
    );
    model.screen = Screen::Diagnostics;
    model.adapter_reads = 5;
    model.adapter_errors = 15; // 75% error rate

    let frame = frame_of(&model);
    let adapter_line = frame
        .lines()
        .find(|l| l.contains("state-adapter:"))
        .expect("adapter line");
    assert!(adapter_line.contains("FAILING"));
}

fn sample_ballast_volume(
    mount: &str,
    available: usize,
    total: usize,
    releasable: u64,
    skipped: bool,
) -> BallastVolume {
    BallastVolume {
        mount_point: mount.to_string(),
        ballast_dir: format!("{mount}/.sbh/ballast"),
        fs_type: String::from("ext4"),
        strategy: String::from("fallocate"),
        files_available: available,
        files_total: total,
        releasable_bytes: releasable,
        skipped,
        status: String::from(if skipped {
            "SKIPPED"
        } else if available * 2 < total {
            "LOW"
        } else {
            "OK"
        }),
        skip_reason: if skipped {
            Some(String::from("unsupported filesystem"))
        } else {
            None
        },
    }
}

#[test]
fn ballast_empty_shows_no_data_message() {
    let mut model = DashboardModel::new(
        "/tmp/state.json".to_string(),
        vec![],
        1_000,
        (120, 30),
    );
    model.screen = Screen::Ballast;

    let frame = frame_of(&model);
    assert!(frame.contains("[S5 Ballast]"));
    assert!(frame.contains("NO DATA") || frame.contains("no data"));
    assert!(frame.contains("No ballast volume data available"));
}

#[test]
fn ballast_shows_volume_list() {
    let mut model = DashboardModel::new(
        "/tmp/state.json".to_string(),
        vec![],
        1_000,
        (120, 30),
    );
    model.screen = Screen::Ballast;
    model.ballast_volumes = vec![
        sample_ballast_volume("/", 3, 5, 3_221_225_472, false),
        sample_ballast_volume("/data", 2, 5, 2_147_483_648, false),
    ];
    model.ballast_source = DataSource::Sqlite;

    let frame = frame_of(&model);
    assert!(frame.contains("[S5 Ballast]"));
    assert!(frame.contains("data-source=SQLite"));
    assert!(frame.contains("volumes=2"));
    assert!(frame.contains("Ballast Volumes"));
    assert!(frame.contains("ext4"));
    assert!(frame.contains("fallocate"));
}

#[test]
fn ballast_shows_status_badges() {
    let mut model = DashboardModel::new(
        "/tmp/state.json".to_string(),
        vec![],
        1_000,
        (120, 30),
    );
    model.screen = Screen::Ballast;
    model.ballast_volumes = vec![
        sample_ballast_volume("/", 4, 5, 4_294_967_296, false),
        sample_ballast_volume("/data", 1, 5, 1_073_741_824, false),
        sample_ballast_volume("/mnt/nfs", 0, 0, 0, true),
    ];

    let frame = frame_of(&model);
    assert!(frame.contains("OK"));
    assert!(frame.contains("LOW"));
    assert!(frame.contains("SKIPPED"));
}

#[test]
fn ballast_shows_total_releasable() {
    let mut model = DashboardModel::new(
        "/tmp/state.json".to_string(),
        vec![],
        1_000,
        (120, 30),
    );
    model.screen = Screen::Ballast;
    model.ballast_volumes = vec![
        sample_ballast_volume("/", 3, 5, 1_073_741_824, false),
        sample_ballast_volume("/data", 2, 5, 2_147_483_648, false),
    ];

    let frame = frame_of(&model);
    assert!(frame.contains("total releasable: 3.0 GB"));
}

#[test]
fn ballast_shows_skipped_summary() {
    let mut model = DashboardModel::new(
        "/tmp/state.json".to_string(),
        vec![],
        1_000,
        (120, 30),
    );
    model.screen = Screen::Ballast;
    model.ballast_volumes = vec![
        sample_ballast_volume("/", 3, 5, 3_221_225_472, false),
        sample_ballast_volume("/mnt/nfs", 0, 0, 0, true),
    ];

    let frame = frame_of(&model);
    assert!(frame.contains("1 volume(s)"));
    assert!(frame.contains("SKIPPED"));
}

#[test]
fn ballast_cursor_indicator() {
    let mut model = DashboardModel::new(
        "/tmp/state.json".to_string(),
        vec![],
        1_000,
        (120, 30),
    );
    model.screen = Screen::Ballast;
    model.ballast_volumes = vec![
        sample_ballast_volume("/", 3, 5, 3_221_225_472, false),
        sample_ballast_volume("/data", 2, 5, 2_147_483_648, false),
    ];
    model.ballast_selected = 1;

    let frame = frame_of(&model);
    let lines: Vec<&str> = frame.lines().collect();
    let cursor_line = lines
        .iter()
        .find(|l| l.contains("/data") && l.starts_with('>'));
    assert!(cursor_line.is_some(), "cursor should be on /data volume");
}

#[test]
fn ballast_detail_shows_volume_info() {
    let mut model = DashboardModel::new(
        "/tmp/state.json".to_string(),
        vec![],
        1_000,
        (120, 40),
    );
    model.screen = Screen::Ballast;
    model.ballast_volumes = vec![sample_ballast_volume("/", 3, 5, 3_221_225_472, false)];
    model.ballast_detail = true;

    let frame = frame_of(&model);
    assert!(frame.contains("Volume Detail"));
    assert!(frame.contains("mount:"));
    assert!(frame.contains("ballast:"));
    assert!(frame.contains("/.sbh/ballast"));
    assert!(frame.contains("fs-type:"));
    assert!(frame.contains("strategy:"));
    assert!(frame.contains("files:"));
    assert!(frame.contains("3/5"));
    assert!(frame.contains("fill:"));
}

#[test]
fn ballast_detail_shows_skip_reason() {
    let mut model = DashboardModel::new(
        "/tmp/state.json".to_string(),
        vec![],
        1_000,
        (120, 40),
    );
    model.screen = Screen::Ballast;
    model.ballast_volumes = vec![sample_ballast_volume("/mnt/nfs", 0, 0, 0, true)];
    model.ballast_detail = true;

    let frame = frame_of(&model);
    assert!(frame.contains("SKIPPED"));
    assert!(frame.contains("unsupported filesystem"));
}

#[test]
fn ballast_partial_data_shows_warning() {
    let mut model = DashboardModel::new(
        "/tmp/state.json".to_string(),
        vec![],
        1_000,
        (120, 30),
    );
    model.screen = Screen::Ballast;
    model.ballast_volumes = vec![sample_ballast_volume("/", 3, 5, 3_221_225_472, false)];
    model.ballast_source = DataSource::Jsonl;
    model.ballast_partial = true;
    model.ballast_diagnostics = "SQLite unavailable, using JSONL fallback".into();

    let frame = frame_of(&model);
    assert!(frame.contains("PARTIAL"));
    assert!(frame.contains("JSONL"));
    assert!(frame.contains("SQLite unavailable"));
}

#[test]
fn ballast_aggregate_from_daemon_state() {
    let mut model = DashboardModel::new(
        "/tmp/state.json".to_string(),
        vec![],
        1_000,
        (120, 30),
    );
    model.screen = Screen::Ballast;
    model.ballast_volumes = vec![sample_ballast_volume("/", 3, 5, 3_221_225_472, false)];
    model.daemon_state = Some(sample_state("green", 80.0));

    let frame = frame_of(&model);
    assert!(frame.contains("ballast:"));
    assert!(frame.contains("available"));
    assert!(frame.contains("released"));
}

#[test]
fn breadcrumb_not_shown_with_empty_history() {
    let model = DashboardModel::new(
        "/tmp/state.json".to_string(),
        vec![],
        1_000,
        (80, 24),
    );
    let frame = frame_of(&model);
    assert!(!frame.contains("nav:"));
}

#[test]
fn breadcrumb_shown_after_navigation() {
    let mut model = DashboardModel::new(
        "/tmp/state.json".to_string(),
        vec![],
        1_000,
        (80, 24),
    );
    model.navigate_to(Screen::Timeline);
    model.navigate_to(Screen::Candidates);

    let frame = frame_of(&model);
    assert!(frame.contains("nav:"));
    assert!(frame.contains("S1 Overview"));
    assert!(frame.contains("S2 Timeline"));
    assert!(frame.contains("S4 Candidates"));
}

#[test]
fn breadcrumb_limited_to_five_entries() {
    let mut model = DashboardModel::new(
        "/tmp/state.json".to_string(),
        vec![],
        1_000,
        (120, 30),
    );
    // Navigate through 7 screens to build long history.
    model.navigate_to(Screen::Timeline);
    model.navigate_to(Screen::Explainability);
    model.navigate_to(Screen::Candidates);
    model.navigate_to(Screen::Ballast);
    model.navigate_to(Screen::Diagnostics);
    model.navigate_to(Screen::Overview);

    let frame = frame_of(&model);
    // Breadcrumb shows last 5 + current, so first entry (Overview) is trimmed.
    let nav_line = frame.lines().find(|l| l.starts_with("nav:")).unwrap();
    // Count "> " separators: 5 entries + current = 5 " > " separators.
    let separator_count = nav_line.matches(" > ").count();
    assert!(separator_count <= 5, "breadcrumb too long: {nav_line}");
}

#[test]
fn palette_overlay_renders_search_box() {
    let mut model = DashboardModel::new(
        "/tmp/state.json".to_string(),
        vec![],
        1_000,
        (80, 24),
    );
    model.active_overlay = Some(Overlay::CommandPalette);
    model.palette_query = String::from("ballast");

    let frame = frame_of(&model);
    assert!(frame.contains("Command Palette"));
    assert!(frame.contains("> ballast"));
    assert!(frame.contains("matches:"));
}

#[test]
fn palette_overlay_shows_matching_actions() {
    let mut model = DashboardModel::new(
        "/tmp/state.json".to_string(),
        vec![],
        1_000,
        (80, 24),
    );
    model.active_overlay = Some(Overlay::CommandPalette);

    let frame = frame_of(&model);
    // Empty query shows all actions (up to 10 displayed).
    let total = command_palette_actions().len();
    assert!(
        frame.contains(&format!("matches: 10 / {total}")),
        "expected 'matches: 10 / {total}' in frame"
    );
    assert!(frame.contains("nav.overview"));
    assert!(frame.contains("Enter execute"));
    assert!(frame.contains("Esc close"));
}

#[test]
fn palette_overlay_shows_cursor() {
    let mut model = DashboardModel::new(
        "/tmp/state.json".to_string(),
        vec![],
        1_000,
        (80, 24),
    );
    model.active_overlay = Some(Overlay::CommandPalette);
    model.palette_selected = 2;

    let frame = frame_of(&model);
    // Third action should have cursor ">"
    let has_palette_lines = frame
        .lines()
        .filter(|l| l.starts_with("> ") || l.starts_with("  "))
        .any(|l| l.contains("nav.") || l.contains("overlay.") || l.contains("action."));
    assert!(has_palette_lines);
}

#[test]
fn palette_overlay_suppresses_debug_line() {
    let mut model = DashboardModel::new(
        "/tmp/state.json".to_string(),
        vec![],
        1_000,
        (80, 24),
    );
    model.active_overlay = Some(Overlay::CommandPalette);

    let frame = frame_of(&model);
    // Should NOT show debug "[overlay: CommandPalette]"
    assert!(!frame.contains("[overlay: CommandPalette]"));
    // But should show the actual palette UI
    assert!(frame.contains("Command Palette"));
}

#[test]
fn help_overlay_still_shows_debug_line() {
    let mut model = DashboardModel::new(
        "/tmp/state.json".to_string(),
        vec![],
        1_000,
        (80, 24),
    );
    model.active_overlay = Some(Overlay::Help);

    let frame = frame_of(&model);
    assert!(frame.contains("[overlay: Help]"));
}

#[test]
fn overview_has_navigation_footer() {
    let model = DashboardModel::new(
        "/tmp/state.json".to_string(),
        vec![],
        1_000,
        (80, 24),
    );
    let frame = frame_of(&model);
    assert!(frame.contains("? help"));
    assert!(frame.contains(": palette"));
}

#[test]
fn all_screens_mention_palette_in_footer() {
    let screens = [
        Screen::Overview,
        Screen::Timeline,
        Screen::Explainability,
        Screen::Candidates,
        Screen::Diagnostics,
        Screen::Ballast,
        Screen::LogSearch,
    ];
    for screen in screens {
        let mut model = DashboardModel::new(
            "/tmp/state.json".to_string(),
            vec![],
            1_000,
            (80, 24),
        );
        model.screen = screen;
        let frame = frame_of(&model);
        assert!(
            frame.contains("palette"),
            "screen {screen:?} missing palette hint"
        );
    }
}

#[test]
fn all_screens_mention_help_in_footer() {
    let screens = [
        Screen::Overview,
        Screen::Timeline,
        Screen::Explainability,
        Screen::Candidates,
        Screen::Diagnostics,
        Screen::Ballast,
        Screen::LogSearch,
    ];
    for screen in screens {
        let mut model = DashboardModel::new(
            "/tmp/state.json".to_string(),
            vec![],
            1_000,
            (80, 24),
        );
        model.screen = screen;
        let frame = frame_of(&model);
        assert!(
            frame.contains("help"),
            "screen {screen:?} missing help hint"
        );
    }
}

/// Multi-mount page on a terminal of the given size.
fn page_of_state(state: DaemonState) -> String {
    let mut model = DashboardModel::new(
        "/tmp/test-state.json".to_string(),
        vec!["/".to_string(), "/data".to_string()],
        1_000,
        (120, 30),
    );
    model.daemon_state = Some(state);
    model.degraded = false;
    frame_of(&model)
}

/// State with no rate data to test rate-optional rendering.
fn state_without_rates() -> DaemonState {
    DaemonState {
        version: "0.1.0".into(),
        pid: 5678,
        started_at: "2026-02-16T00:00:00Z".into(),
        uptime_seconds: 900,
        last_updated: "2026-02-16T00:15:00Z".into(),
        pressure: PressureState {
            overall: "green".into(),
            mounts: vec![MountPressure {
                path: "/data".into(),
                free_pct: d(80.0),
                level: "green".into(),
                rate_bps: None,
            }],
        },
        ballast: BallastState { available: 5, total: 5, released: 0 },
        last_scan: LastScanState { at: None, candidates: 0, deleted: 0 },
        counters: Counters::default(),
        policy_mode: String::new(),
        memory_rss_bytes: 16_000_000,
    }
}

/// State with no scan history.
fn state_no_scan_history() -> DaemonState {
    DaemonState {
        version: "0.1.0".into(),
        pid: 9999,
        started_at: "2026-02-16T00:00:00Z".into(),
        uptime_seconds: 30,
        last_updated: "2026-02-16T00:00:30Z".into(),
        pressure: PressureState {
            overall: "green".into(),
            mounts: vec![MountPressure {
                path: "/".into(),
                free_pct: d(90.0),
                level: "green".into(),
                rate_bps: Some(d(0.0)),
            }],
        },
        ballast: BallastState { available: 10, total: 10, released: 0 },
        last_scan: LastScanState { at: None, candidates: 0, deleted: 0 },
        counters: Counters::default(),
        policy_mode: String::new(),
        memory_rss_bytes: 8_000_000,
    }
}

#[test]
fn c09_pressure_per_mount_detail() {
    let frame = page_of_state(multi_mount_state());
    assert!(frame.contains("/data"));
    assert!(frame.contains("[GREEN]"));
    assert!(frame.contains("[YELLOW]"));
    assert!(frame.contains("22.5% free"));
    assert!(frame.contains("8.3% free"));
    assert!(frame.contains('\u{2588}') || frame.contains('\u{2591}'));
    assert!(frame.contains('\u{26a0}'));
}

#[test]
fn c10_rate_only_when_present() {
    let frame_without = page_of_state(state_without_rates());
    assert!(!frame_without.contains('\u{26a0}'));
}

#[test]
fn c11_ballast_inventory() {
    let frame = page_of_state(multi_mount_state());
    assert!(frame.contains("ballast"));
    assert!(frame.contains("available=1/4"));
    assert!(frame.contains("released=3"));
}

#[test]
fn c12_activity_with_and_without_scan() {
    let frame_with_scan = page_of_state(multi_mount_state());
    let frame_no_scan = page_of_state(state_no_scan_history());
    assert!(frame_with_scan.contains("01:45:30"));
    assert!(frame_no_scan.contains("never"));
}

#[test]
fn c17_degraded_with_monitor_paths() {
    let mut model = DashboardModel::new(
        "/tmp/test-state.json".to_string(),
        vec!["/".to_string(), "/data".to_string()],
        1_000,
        (120, 30),
    );
    model.tick = 1;
    let frame = frame_of(&model);
    assert!(frame.contains("DEGRADED"));
    assert!(frame.contains("paths=2"));
}

#[test]
fn c18_all_sections_visible() {
    let mut model = DashboardModel::new(
        "/tmp/state.json".to_string(),
        vec!["/".to_string()],
        1_000,
        (120, 40),
    );
    model.daemon_state = Some(multi_mount_state());
    model.degraded = false;
    model.rate_histories.record("/data", 30, d(-4096.0));
    let frame = frame_of(&model);
    assert!(frame.contains("pressure"));
    assert!(frame.contains("ewma"));
    assert!(frame.contains("activity"));
    assert!(frame.contains("last-scan"));
    assert!(frame.contains("ballast"));
    assert!(frame.contains("counters"));
    assert!(frame.contains("pid="));
    assert!(frame.contains("MB") || frame.contains("GB") || frame.contains("KB"));
}

#[test]
fn factor_bar_stands_in_brackets() {
    assert_eq!(
        shown(&render_factor_bar("name     ", d(0.5), 10)),
        "  name      [\u{2588}\u{2588}\u{2588}\u{2588}\u{2588}\u{2591}\u{2591}\u{2591}\u{2591}\u{2591} ] 0.50\n",
    );
    assert_eq!(shown(&render_factor_bar("age", d(0.0), 0)), "  age [ ] 0.00\n");
}

fn watching(paths: &[&str]) -> DashboardModel {
    DashboardModel::new(
        "/tmp/state.json".to_string(),
        paths.iter().map(|path| path.to_string()).collect(),
        1_000,
        (120, 30),
    )
}

#[test]
fn line_breaks_inside_a_path_are_indented() {
    let frame = frame_of(&watching(&["/da\nta\r\nset", "/x"]));
    assert!(frame.contains("paths=2\n    /da\n  ta\n  set\n    /x\n"));
}

#[test]
fn line_break_behind_the_last_path_adds_no_line() {
    assert_eq!(frame_of(&watching(&["/data\n"])), frame_of(&watching(&["/data"])));
    assert_eq!(frame_of(&watching(&["/data\r\n"])), frame_of(&watching(&["/data"])));
    assert_ne!(frame_of(&watching(&["/data\n\n"])), frame_of(&watching(&["/data"])));
}

#[test]
fn carriage_return_before_a_line_end_belongs_to_it() {
    assert_eq!(frame_of(&watching(&["/a\r", "/b"])), frame_of(&watching(&["/a", "/b"])));
    assert_ne!(frame_of(&watching(&["/a\r"])), frame_of(&watching(&["/a"])));
}

#[test]
fn line_breaks_inside_a_level_are_indented() {
    let mut model = watching(&[]);
    model.daemon_state = Some(sample_state("re\nd", 5.0));
    let frame = frame_of(&model);
    assert!(frame.contains("pressure [RE\n  D] worst-free=5.0%"));
    assert!(frame.contains("forecast [RE\n  D] worst=/ free=5.0%"));
    assert!(frame.contains("    [RE\n  D] "));
}

#[test]
fn text_breaks_into_lines() {
    let mut doc = Doc::new();
    doc.ink("one\r\ntwo", Tone::Accent);
    doc.text("");
    doc.badge("A\r\nB", Tone::Danger);
    doc.put(Atom::Text("x\ny".to_string()), Pad::Right(5), no_style());
    doc.text("\r");
    doc.newline();
    assert_eq!(shown(&doc.clone().in_lines()), "one\ntwo[A\r\nB]  x\ny");
    assert_eq!(shown(&doc.clone().indent()), "one\n  two[A\n  B]  x\n  y");
    let lines = doc.in_lines();
    assert!(lines.pieces.iter().all(|piece| match &piece.atom {
        Atom::Text(text) => !text.contains('\n') && !text.is_empty(),
        _ => true,
    }));
    assert_eq!(lines.pieces[0].style, lines.pieces[2].style);
    assert!(lines.pieces[0].style.fg.is_some());
}

#[test]
fn unbroken_content_stays_as_it_is() {
    let mut doc = Doc::new();
    doc.ink("one", Tone::Accent);
    doc.newline();
    doc.text("two");
    assert_eq!(doc.clone().in_lines(), doc);
}

#[test]
fn unknown_pressure_has_no_colours() {
    for (paths, text) in [
        (vec![], "pressure [UNKNOWN] daemon-state-unavailable\n"),
        (vec!["/da\nta"], "pressure [DEGRADED] live-fs-stats paths=1\n  /da\nta\n"),
    ] {
        let doc = styled_pressure_summary(&watching(&paths), 60);
        assert_eq!(shown(&doc), text);
        assert!(doc.pieces.iter().all(|piece| {
            piece.style.fg.is_none() && piece.style.bg.is_none() && !piece.style.bold
        }));
        assert_eq!(
            doc.pieces.iter().filter(|piece| piece.atom == Atom::Newline).count(),
            text.matches('\n').count()
        );
    }
}

#[test]
fn sums_that_do_not_fit_are_not_drawn() {
    let mut model = watching(&[]);
    model.candidates_list = vec![
        sample_candidate(1, "delete", false, 0.9, 10),
        sample_candidate(2, "delete", false, 0.8, 20),
    ];
    assert!(is_drawable(&model));
    model.candidates_list[0].size_bytes = u64::MAX;
    model.candidates_list[1].size_bytes = 1;
    assert!(!reclaimable_fits(&model.candidates_list));
    assert!(is_drawable(&model));
    model.screen = Screen::Candidates;
    assert!(!is_drawable(&model));
    model.candidates_list[1].vetoed = true;
    assert!(is_drawable(&model));
    model.candidates_list[1].vetoed = false;
    model.terminal_size = (20, 5);
    assert!(is_drawable(&model));
}

#[test]
fn unordered_histories_are_not_drawn() {
    let mut model = watching(&[]);
    model.rate_histories.record("/a", 4, d(1.0));
    model.rate_histories.record("/b", 4, d(2.0));
    model.rate_histories.record("/c", 4, d(3.0));
    assert!(model.is_sound() && is_drawable(&model));
    model.rate_histories.entries.swap(0, 2);
    assert!(!model.rate_histories.is_sound());
    assert!(!is_drawable(&model));
}
