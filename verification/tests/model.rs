use sbh_tui::double::Double;
use sbh_tui::model::DashboardModel;
use sbh_tui::model::NotificationLevel;
use sbh_tui::model::RateHistory;
use sbh_tui::model::RateTable;
use sbh_tui::model::Screen;
use sbh_tui::model::SeverityFilter;
use sbh_tui::telemetry::DataSource;
use sbh_tui::telemetry::DecisionEvidence;
use sbh_tui::telemetry::FactorBreakdown;
use sbh_tui::telemetry::TimelineEvent;

fn d(value: f64) -> Double {
    Double::from_bits(value.to_bits())
}

/// Readings scaled to the unit interval around one half.
fn normalized(h: &RateHistory) -> Vec<f64> {
    let values: Vec<f64> = h.chronological().iter().map(|v| f64::from_bits(v.bits)).collect();
    let largest = values.iter().fold(0.0_f64, |m, v| m.max(v.abs()));
    if largest == 0.0 {
        return vec![0.5; values.len()];
    }
    values.iter().map(|v| (v / largest + 1.0) / 2.0).collect()
}

fn test_model() -> DashboardModel {
    DashboardModel::new(
        "/tmp/state.json".to_string(),
        vec![],
        1000,
        (80, 24),
    )
}

// ── Screen enum ──

#[test]
fn default_screen_is_overview() {
    assert_eq!(Screen::default(), Screen::Overview);
}

#[test]
fn screen_number_round_trip() {
    for n in 1..=7 {
        let screen = Screen::from_number(n).unwrap();
        assert_eq!(screen.number(), n);
    }
}

#[test]
fn screen_from_number_out_of_range() {
    assert_eq!(Screen::from_number(0), None);
    assert_eq!(Screen::from_number(8), None);
}

#[test]
fn screen_next_wraps() {
    assert_eq!(Screen::Overview.next(), Screen::Timeline);
    assert_eq!(Screen::Diagnostics.next(), Screen::Overview);
}

#[test]
fn screen_prev_wraps() {
    assert_eq!(Screen::Overview.prev(), Screen::Diagnostics);
    assert_eq!(Screen::Timeline.prev(), Screen::Overview);
}

#[test]
fn screen_next_prev_cycle_all_seven() {
    let mut s = Screen::Overview;
    for _ in 0..7 {
        s = s.next();
    }
    assert_eq!(s, Screen::Overview);
}

#[test]
fn screen_prev_next_are_inverse() {
    for n in 1..=7 {
        let s = Screen::from_number(n).unwrap();
        assert_eq!(s.next().prev(), s);
        assert_eq!(s.prev().next(), s);
    }
}

// ── Model ──

#[test]
fn new_model_starts_degraded() {
    let model = test_model();
    assert!(model.degraded);
    assert!(model.daemon_state.is_none());
    assert!(!model.quit);
    assert_eq!(model.tick, 0);
    assert_eq!(model.screen, Screen::Overview);
    assert!(model.screen_history.is_empty());
    assert!(model.active_overlay.is_none());
    assert!(model.notifications.is_empty());
}

#[test]
fn navigate_to_pushes_history() {
    let mut model = test_model();
    assert!(model.navigate_to(Screen::Timeline));
    assert_eq!(model.screen, Screen::Timeline);
    assert_eq!(model.screen_history, vec![Screen::Overview]);
}

#[test]
fn navigate_to_same_screen_is_noop() {
    let mut model = test_model();
    assert!(!model.navigate_to(Screen::Overview));
    assert!(model.screen_history.is_empty());
}

#[test]
fn navigate_back_pops_history() {
    let mut model = test_model();
    model.navigate_to(Screen::Timeline);
    model.navigate_to(Screen::Candidates);
    assert_eq!(model.screen, Screen::Candidates);
    assert_eq!(model.screen_history.len(), 2);

    assert!(model.navigate_back());
    assert_eq!(model.screen, Screen::Timeline);
    assert!(model.navigate_back());
    assert_eq!(model.screen, Screen::Overview);
    assert!(!model.navigate_back()); // empty history
}

#[test]
fn push_notification_evicts_oldest() {
    let mut model = test_model();
    model.push_notification(NotificationLevel::Info, "a".into());
    model.push_notification(NotificationLevel::Info, "b".into());
    model.push_notification(NotificationLevel::Info, "c".into());
    assert_eq!(model.notifications.len(), 3);

    let id = model.push_notification(NotificationLevel::Warning, "d".into());
    assert_eq!(model.notifications.len(), 3);
    assert_eq!(model.notifications[0].message, "b"); // "a" evicted
    assert_eq!(model.notifications[2].id, id);
}

#[test]
fn notification_ids_are_monotonic() {
    let mut model = test_model();
    let id1 = model.push_notification(NotificationLevel::Info, "x".into());
    let id2 = model.push_notification(NotificationLevel::Info, "y".into());
    assert_eq!(id2, id1 + 1);
}

// ── RateHistory ──

#[test]
fn rate_history_push_and_normalize() {
    let mut h = RateHistory::new(5);
    h.push(d(100.0));
    h.push(d(-100.0));
    h.push(d(0.0));

    let norm = normalized(&h);
    assert_eq!(norm.len(), 3);
    assert!((norm[0] - 1.0).abs() < 0.01);
    assert!((norm[1] - 0.0).abs() < 0.01);
    assert!((norm[2] - 0.5).abs() < 0.01);
}

#[test]
fn rate_history_wraps_correctly() {
    let mut h = RateHistory::new(3);
    h.push(d(1.0));
    h.push(d(2.0));
    h.push(d(3.0));
    h.push(d(4.0)); // overwrites 1.0

    assert_eq!(h.len(), 3);
    assert_eq!(h.latest(), Some(d(4.0)));
    assert_eq!(normalized(&h).len(), 3);
}

#[test]
fn rate_history_all_zeros_normalize_to_midpoint() {
    let mut h = RateHistory::new(5);
    h.push(d(0.0));
    h.push(d(0.0));
    h.push(d(0.0));

    let norm = normalized(&h);
    assert!(norm.iter().all(|v| (*v - 0.5).abs() < 0.01));
}

#[test]
fn rate_history_empty_latest_is_none() {
    let h = RateHistory::new(10);
    assert_eq!(h.latest(), None);
    assert!(normalized(&h).is_empty());
}

// ── SeverityFilter ──

#[test]
fn severity_filter_cycles_through_all_levels() {
    let f = SeverityFilter::All;
    assert_eq!(f.cycle(), SeverityFilter::Info);
    assert_eq!(f.cycle().cycle(), SeverityFilter::Warning);
    assert_eq!(f.cycle().cycle().cycle(), SeverityFilter::Critical);
    assert_eq!(f.cycle().cycle().cycle().cycle(), SeverityFilter::All);
}

#[test]
fn severity_filter_labels() {
    assert_eq!(SeverityFilter::All.label(), "all");
    assert_eq!(SeverityFilter::Info.label(), "info");
    assert_eq!(SeverityFilter::Warning.label(), "warning");
    assert_eq!(SeverityFilter::Critical.label(), "critical");
}

#[test]
fn severity_filter_matches_correctly() {
    assert!(SeverityFilter::All.matches("info"));
    assert!(SeverityFilter::All.matches("warning"));
    assert!(SeverityFilter::All.matches("critical"));
    assert!(SeverityFilter::Info.matches("info"));
    assert!(!SeverityFilter::Info.matches("warning"));
    assert!(SeverityFilter::Critical.matches("critical"));
    assert!(!SeverityFilter::Critical.matches("info"));
}

#[test]
fn severity_filter_to_event_filter() {
    let ef = SeverityFilter::All.to_event_filter();
    assert!(ef.is_empty());

    let ef = SeverityFilter::Warning.to_event_filter();
    assert_eq!(ef.severities, vec!["warning"]);
    assert!(ef.event_types.is_empty());
}

// ── Timeline state ──

fn make_event(severity: &str, event_type: &str) -> TimelineEvent {
    TimelineEvent {
        timestamp: "2026-01-01T00:00:00Z".to_owned(),
        event_type: event_type.to_owned(),
        severity: severity.to_owned(),
        path: None,
        size_bytes: None,
        score: None,
        pressure_level: None,
        free_pct: None,
        success: None,
        error_code: None,
        error_message: None,
        duration_ms: None,
        details: None,
    }
}

#[test]
fn timeline_defaults() {
    let model = test_model();
    assert!(model.timeline_events.is_empty());
    assert_eq!(model.timeline_filter, SeverityFilter::All);
    assert_eq!(model.timeline_selected, 0);
    assert!(model.timeline_follow);
    assert_eq!(model.timeline_source, DataSource::Absent);
}

#[test]
fn timeline_cursor_navigation() {
    let mut model = test_model();
    model.timeline_events = vec![
        make_event("info", "scan"),
        make_event("warning", "pressure_change"),
        make_event("critical", "artifact_delete"),
    ];

    assert!(!model.timeline_cursor_up()); // already at 0
    assert!(model.timeline_cursor_down());
    assert_eq!(model.timeline_selected, 1);
    assert!(!model.timeline_follow); // manual nav disables follow

    assert!(model.timeline_cursor_down());
    assert_eq!(model.timeline_selected, 2);
    assert!(!model.timeline_cursor_down()); // at end
}

#[test]
fn timeline_filter_narrows_events() {
    let mut model = test_model();
    model.timeline_events = vec![
        make_event("info", "scan"),
        make_event("warning", "pressure_change"),
        make_event("critical", "artifact_delete"),
    ];

    assert_eq!(model.timeline_filtered_events().len(), 3);

    model.timeline_filter = SeverityFilter::Warning;
    assert_eq!(model.timeline_filtered_events().len(), 1);
    assert_eq!(
        model.timeline_filtered_events()[0].event_type,
        "pressure_change"
    );
}

#[test]
fn timeline_cycle_filter_resets_cursor() {
    let mut model = test_model();
    model.timeline_events = vec![
        make_event("info", "a"),
        make_event("warning", "b"),
    ];
    model.timeline_selected = 1;

    model.timeline_cycle_filter();
    assert_eq!(model.timeline_filter, SeverityFilter::Info);
    assert_eq!(model.timeline_selected, 0);
}

#[test]
fn timeline_toggle_follow_jumps_to_latest() {
    let mut model = test_model();
    model.timeline_events = vec![
        make_event("info", "a"),
        make_event("info", "b"),
        make_event("info", "c"),
    ];
    model.timeline_follow = false;
    model.timeline_selected = 0;

    model.timeline_toggle_follow();
    assert!(model.timeline_follow);
    assert_eq!(model.timeline_selected, 2); // jumped to last
}

#[test]
fn timeline_selected_event_returns_correct_item() {
    let mut model = test_model();
    model.timeline_events = vec![
        make_event("info", "first"),
        make_event("warning", "second"),
    ];

    assert_eq!(
        model.timeline_selected_event().map(|e| &e.event_type),
        Some(&"first".to_owned())
    );

    model.timeline_selected = 1;
    assert_eq!(
        model.timeline_selected_event().map(|e| &e.event_type),
        Some(&"second".to_owned())
    );
}

#[test]
fn timeline_selected_event_with_filter() {
    let mut model = test_model();
    model.timeline_events = vec![
        make_event("info", "a"),
        make_event("warning", "b"),
        make_event("critical", "c"),
    ];
    model.timeline_filter = SeverityFilter::Critical;
    model.timeline_selected = 0;

    assert_eq!(
        model.timeline_selected_event().map(|e| &e.event_type),
        Some(&"c".to_owned())
    );
}

// ── Explainability state tests ──

fn sample_decision(id: u64) -> DecisionEvidence {
    DecisionEvidence {
        decision_id: id,
        timestamp: String::new(),
        path: String::from("/test"),
        size_bytes: 1000,
        age_secs: 60,
        action: String::from("delete"),
        effective_action: None,
        policy_mode: String::from("live"),
        factors: FactorBreakdown {
            location: d(0.5),
            name: d(0.5),
            age: d(0.5),
            size: d(0.5),
            structure: d(0.5),
            pressure_multiplier: d(1.0),
        },
        total_score: d(1.5),
        posterior_abandoned: d(0.7),
        expected_loss_keep: d(20.0),
        expected_loss_delete: d(30.0),
        calibration_score: d(0.75),
        vetoed: false,
        veto_reason: None,
        guard_status: None,
        summary: String::new(),
        raw_json: None,
    }
}

#[test]
fn new_model_explainability_defaults() {
    let model = test_model();
    assert!(model.explainability_decisions.is_empty());
    assert_eq!(model.explainability_selected, 0);
    assert!(!model.explainability_detail);
    assert_eq!(
        model.explainability_source,
        DataSource::Absent
    );
}

#[test]
fn explainability_cursor_down_moves() {
    let mut model = test_model();
    model.explainability_decisions = vec![sample_decision(1), sample_decision(2)];
    assert!(model.explainability_cursor_down());
    assert_eq!(model.explainability_selected, 1);
}

#[test]
fn explainability_cursor_down_clamps_at_end() {
    let mut model = test_model();
    model.explainability_decisions = vec![sample_decision(1)];
    assert!(!model.explainability_cursor_down());
    assert_eq!(model.explainability_selected, 0);
}

#[test]
fn explainability_cursor_up_moves() {
    let mut model = test_model();
    model.explainability_decisions = vec![sample_decision(1), sample_decision(2)];
    model.explainability_selected = 1;
    assert!(model.explainability_cursor_up());
    assert_eq!(model.explainability_selected, 0);
}

#[test]
fn explainability_cursor_up_clamps_at_start() {
    let mut model = test_model();
    model.explainability_decisions = vec![sample_decision(1)];
    assert!(!model.explainability_cursor_up());
    assert_eq!(model.explainability_selected, 0);
}

#[test]
fn explainability_toggle_detail() {
    let mut model = test_model();
    model.explainability_toggle_detail();
    assert!(model.explainability_detail);
    model.explainability_toggle_detail();
    assert!(!model.explainability_detail);
}

#[test]
fn explainability_selected_decision_returns_correct() {
    let mut model = test_model();
    model.explainability_decisions = vec![sample_decision(10), sample_decision(20)];
    model.explainability_selected = 1;
    let d = model.explainability_selected_decision().unwrap();
    assert_eq!(d.decision_id, 20);
}

#[test]
fn explainability_selected_decision_none_when_empty() {
    let model = test_model();
    assert!(model.explainability_selected_decision().is_none());
}

#[test]
fn explainability_cursor_empty_decisions() {
    let mut model = test_model();
    assert!(!model.explainability_cursor_down());
    assert!(!model.explainability_cursor_up());
}
// ── Laws on concrete values ──

#[test]
fn rate_history_lists_readings_oldest_first() {
    let mut h = RateHistory::new(3);
    for v in [1.0, 2.0, 3.0, 4.0, 5.0] {
        h.push(d(v));
    }
    assert_eq!(h.chronological(), vec![d(3.0), d(4.0), d(5.0)]);
}

#[test]
fn rate_table_keeps_mounts_sorted_and_apart() {
    let mut table = RateTable::new();
    table.record("/data", 2, d(1.0));
    table.record("/", 2, d(2.0));
    table.record("/data", 2, d(3.0));
    table.record("/data", 2, d(4.0));
    assert_eq!(table.len(), 2);
    assert_eq!(table.entries[0].mount, "/");
    assert_eq!(table.entries[1].mount, "/data");
    assert_eq!(table.entries[1].history.chronological(), vec![d(3.0), d(4.0)]);
}

#[test]
fn going_back_undoes_going_to_a_screen() {
    let mut model = test_model();
    model.navigate_to(Screen::Ballast);
    let history = model.screen_history.clone();
    model.navigate_to(Screen::Candidates);
    model.navigate_back();
    assert_eq!(model.screen, Screen::Ballast);
    assert_eq!(model.screen_history, history);
}

#[test]
fn a_fourth_notification_leaves_three() {
    let mut model = test_model();
    for text in ["a", "b", "c", "d", "e"] {
        model.push_notification(NotificationLevel::Info, text.to_string());
    }
    let shown: Vec<&str> = model.notifications.iter().map(|n| n.message.as_str()).collect();
    assert_eq!(shown, vec!["c", "d", "e"]);
}
