use sbh_tui::cockpit::CockpitLoop;
use sbh_tui::cockpit::NotificationTimer;
use sbh_tui::cockpit::TerminalEvent;
use sbh_tui::cockpit::drawable_size;
use sbh_tui::cockpit::event_message;
use sbh_tui::cockpit::poll_message;
use sbh_tui::input::KeyCode;
use sbh_tui::input::KeyEvent;
use sbh_tui::input::KeyEventKind;
use sbh_tui::input::Modifiers;
use sbh_tui::model::DashboardCmd;
use sbh_tui::model::DashboardModel;
use sbh_tui::model::DashboardMsg;
use sbh_tui::model::NotificationLevel;
use sbh_tui::model::PreferenceAction;
use sbh_tui::model::PreferenceProfileMode;
use sbh_tui::model::Screen;
use sbh_tui::preferences::ContrastMode;
use sbh_tui::preferences::DensityMode;
use sbh_tui::preferences::HintVerbosity;
use sbh_tui::preferences::LoadOutcome;
use sbh_tui::preferences::MotionMode;
use sbh_tui::preferences::StartScreen;
use sbh_tui::preferences::UserPreferences;
use sbh_tui::preferences::ValidationReport;
use sbh_tui::preferences::load;
use sbh_tui::runtime::ActionReply;
use sbh_tui::runtime::ActionStep;
use sbh_tui::runtime::CommandStep;
use sbh_tui::runtime::DashboardRuntimeConfig;
use sbh_tui::runtime::DashboardRuntimeMode;
use sbh_tui::runtime::PreferenceRuntimeState;
use sbh_tui::runtime::RuntimePlan;
use sbh_tui::runtime::TelemetryRequest;
use sbh_tui::runtime::action_notice;
use sbh_tui::runtime::execute_cmd;
use sbh_tui::runtime::load_notice;
use sbh_tui::runtime::preference_profile_hash;
use sbh_tui::runtime::run_dashboard;
use sbh_tui::runtime::telemetry_plan;
use sbh_tui::telemetry::DataSource;
use sbh_tui::telemetry::TelemetryHook;
use sbh_tui::telemetry::TelemetrySample;
use sbh_tui::terminal::terminal_size;

fn test_model() -> DashboardModel {
    DashboardModel::new("/tmp/state.json".to_string(), vec![], 1_000, (120, 40))
}

struct CapturingTelemetryHook {
    samples: Vec<TelemetrySample>,
}

impl TelemetryHook for CapturingTelemetryHook {
    fn record(&mut self, sample: TelemetrySample) {
        self.samples.push(sample);
    }
}

fn clean_report() -> ValidationReport {
    ValidationReport { warnings: vec![], applied_defaults: vec![] }
}

fn started_without_profile() -> PreferenceRuntimeState {
    let (state, warning) =
        PreferenceRuntimeState::load(None, None, ContrastMode::Standard, MotionMode::Full);
    assert!(warning.is_none());
    state
}

#[test]
fn runtime_mode_defaults_to_new_cockpit() {
    assert_eq!(DashboardRuntimeMode::default(), DashboardRuntimeMode::NewCockpit);
}

#[test]
fn runtime_config_maps_to_legacy_config() {
    let cfg = DashboardRuntimeConfig {
        state_file: "/tmp/state.json".to_string(),
        refresh: 750,
        monitor_paths: vec!["/tmp".to_string(), "/data/projects".to_string()],
        mode: DashboardRuntimeMode::LegacyFallback,
        sqlite_db: None,
        jsonl_log: None,
    };

    let legacy = cfg.as_legacy_config();
    assert_eq!(legacy.state_file, "/tmp/state.json");
    assert_eq!(legacy.refresh, 750);
    assert_eq!(legacy.monitor_paths.len(), 2);
}

#[test]
fn the_mode_selects_the_dashboard() {
    let mut cfg = DashboardRuntimeConfig {
        state_file: "/tmp/state.json".to_string(),
        refresh: 750,
        monitor_paths: vec![],
        mode: DashboardRuntimeMode::NewCockpit,
        sqlite_db: None,
        jsonl_log: None,
    };
    assert_eq!(run_dashboard(&cfg), RuntimePlan::Cockpit);
    cfg.mode = DashboardRuntimeMode::LegacyFallback;
    assert_eq!(run_dashboard(&cfg), RuntimePlan::Legacy(cfg.as_legacy_config()));
}

#[test]
fn preference_state_loads_persisted_profile_and_applies_startup_screen() {
    let persisted = UserPreferences {
        start_screen: StartScreen::Ballast,
        density: DensityMode::Compact,
        hint_verbosity: HintVerbosity::Off,
        ..UserPreferences::default()
    };
    let loaded = LoadOutcome::Loaded { prefs: persisted, report: clean_report() };
    let (state, warning) = PreferenceRuntimeState::load(
        Some("/tmp/preferences.json".to_string()),
        Some(loaded),
        ContrastMode::Standard,
        MotionMode::Full,
    );
    assert!(warning.is_none());
    assert_eq!(state.profile_mode, PreferenceProfileMode::Persisted);

    let mut model = test_model();
    assert_eq!(model.screen, Screen::Overview);
    state.apply_to_model(&mut model, true, false);
    assert_eq!(model.screen, Screen::Ballast);
    assert_eq!(model.density, DensityMode::Compact);
    assert_eq!(model.hint_verbosity, HintVerbosity::Off);
}

#[test]
fn preference_action_revert_to_defaults_resets_model_profile() {
    let mut state = PreferenceRuntimeState {
        path: Some("/tmp/preferences.json".to_string()),
        prefs: UserPreferences {
            start_screen: StartScreen::Diagnostics,
            density: DensityMode::Compact,
            hint_verbosity: HintVerbosity::Minimal,
            ..UserPreferences::default()
        },
        profile_mode: PreferenceProfileMode::SessionOverride,
        env_contrast: ContrastMode::Standard,
        env_motion: MotionMode::Full,
    };
    let mut model = test_model();
    model.screen = Screen::Diagnostics;
    model.preference_profile_mode = PreferenceProfileMode::SessionOverride;
    model.candidates_source = DataSource::Sqlite;

    let action = PreferenceAction::RevertToDefaults;
    let step = state.begin_action(action);
    assert_eq!(step, ActionStep::Persist(Some("/tmp/preferences.json".to_string())));
    let msg = state
        .execute_action(action, ActionReply::Persisted(None), &mut model)
        .expect("revert defaults");
    assert!(msg.contains("defaults"));
    assert_eq!(model.preferred_start_screen, StartScreen::Overview);
    assert_eq!(model.density, DensityMode::Comfortable);
    assert_eq!(model.hint_verbosity, HintVerbosity::Full);
    assert_eq!(model.preference_profile_mode, PreferenceProfileMode::Defaults);
}

#[test]
fn preference_action_emits_structured_telemetry() {
    let mut hook = CapturingTelemetryHook { samples: Vec::new() };
    let mut state = started_without_profile();
    let mut model = test_model();

    let action = PreferenceAction::SetDensity(DensityMode::Compact);
    assert_eq!(state.begin_action(action), ActionStep::Persist(None));
    let result = state.execute_action(action, ActionReply::Persisted(None), &mut model);
    hook.record(state.action_sample(action, &result, Some(b"{}".to_vec())));
    result.expect("set density");

    let captured = hook.samples;
    assert_eq!(captured.len(), 1);
    let sample = &captured[0];
    assert_eq!(sample.source, "dashboard.preferences");
    assert_eq!(sample.kind, "set_density");

    let detail: serde_json::Value =
        serde_json::from_str(&sample.detail).expect("detail json payload");
    assert_eq!(detail["actor"], "tui-dashboard");
    assert_eq!(detail["action"], "set_density");
    assert_eq!(detail["target"], "density=compact");
    assert_eq!(detail["result"], "ok");
    assert_eq!(detail["profile_mode"], "session_override");
    assert_eq!(detail["schema_version"], 1);
    assert!(detail["profile_hash"].as_str().is_some_and(|s| !s.is_empty()));
    assert!(detail["error"].is_null());
}

#[test]
fn profile_hash_is_the_sha256_digest() {
    assert_eq!(
        preference_profile_hash(&b"abc".to_vec()),
        "ba7816bf8f01cfea414140de5dae2223b00361a396177a9cb410ff61f20015ad"
    );
    assert_eq!(
        preference_profile_hash(&Vec::new()),
        "e3b0c44298fc1c149afbf4c8996fb92427ae41e4649b934ca495991b7852b855"
    );
}

#[test]
fn failed_action_is_recorded_with_its_error() {
    let state = started_without_profile();
    let action = PreferenceAction::SetStartScreen(StartScreen::Ballast);
    let sample = state.action_sample(action, &Err("disk \"full\"".to_string()), None);
    let detail: serde_json::Value = serde_json::from_str(&sample.detail).expect("json");
    assert_eq!(detail["result"], "error");
    assert_eq!(detail["error"], "disk \"full\"");
    assert_eq!(detail["profile_hash"], "unavailable");
    assert_eq!(detail["target"], "start_screen=ballast");
}

#[test]
fn failed_persist_leaves_the_model_alone() {
    let mut state = started_without_profile();
    let mut model = test_model();
    let action = PreferenceAction::SetDensity(DensityMode::Compact);
    state.begin_action(action);
    let reply = ActionReply::Persisted(Some("read-only".to_string()));
    let result = state.execute_action(action, reply, &mut model);
    assert_eq!(result, Err("read-only".to_string()));
    assert_eq!(model.density, DensityMode::Comfortable);

    let notice = action_notice(result);
    assert_eq!(notice.level, NotificationLevel::Error);
    assert_eq!(notice.message, "preference update failed: read-only");
    assert_eq!(notice.stays, Some(10_000));
}

#[test]
fn corrupt_profile_starts_with_defaults_and_a_warning() {
    let outcome = LoadOutcome::Corrupt {
        details: "line 1".to_string(),
        defaults: UserPreferences::default(),
    };
    let (state, warning) = PreferenceRuntimeState::load(
        Some("/p".to_string()),
        Some(outcome),
        ContrastMode::Standard,
        MotionMode::Full,
    );
    assert_eq!(warning.as_deref(), Some("preferences corrupted; using defaults: line 1"));
    assert_eq!(state.profile_mode, PreferenceProfileMode::Defaults);
    assert_eq!(load_notice(warning.unwrap()).level, NotificationLevel::Warning);
}

#[test]
fn reset_reloads_the_stored_profile() {
    let mut state = started_without_profile();
    state.path = Some("/p".to_string());
    let mut model = test_model();
    state.begin_action(PreferenceAction::SetDensity(DensityMode::Compact));
    let step = state.begin_action(PreferenceAction::ResetToPersisted);
    assert_eq!(step, ActionStep::Reload("/p".to_string()));
    let stored =
        UserPreferences { hint_verbosity: HintVerbosity::Minimal, ..UserPreferences::default() };
    let reply = ActionReply::Reloaded(LoadOutcome::Loaded {
        prefs: stored,
        report: clean_report(),
    });
    state.execute_action(PreferenceAction::ResetToPersisted, reply, &mut model).expect("reset");
    assert_eq!(state.profile_mode, PreferenceProfileMode::Persisted);
    assert_eq!(model.density, DensityMode::Comfortable);
    assert_eq!(model.hint_verbosity, HintVerbosity::Minimal);
}

#[test]
fn commands_run_in_order() {
    let cmd = DashboardCmd::Batch(vec![
        DashboardCmd::FetchData,
        DashboardCmd::Batch(vec![
            DashboardCmd::Idle,
            DashboardCmd::ScheduleNotificationExpiry { id: 7, after: 300 },
        ]),
        DashboardCmd::FetchTelemetry,
        DashboardCmd::Quit,
    ]);
    assert_eq!(
        execute_cmd(&cmd),
        [
            CommandStep::ReadState,
            CommandStep::StartTimer { id: 7, after: 300 },
            CommandStep::QueryTelemetry,
            CommandStep::Quit,
        ]
    );
}

#[test]
fn timers_run_out_at_their_deadline() {
    let timer = |id, deadline| NotificationTimer { id, deadline };
    let mut cockpit = CockpitLoop::new((80, 24));
    cockpit.start_timer(1, 0, 100);
    cockpit.start_timer(2, 50, 150);
    cockpit.start_timer(3, 50, 100);
    assert_eq!(cockpit.take_expired(99), Vec::<u64>::new());
    assert_eq!(cockpit.take_expired(150), [1, 3]);
    assert_eq!(cockpit.timers, [timer(2, 200)]);
}

#[test]
fn info_notices_are_dismissed_after_five_seconds() {
    let mut cockpit = CockpitLoop::new((80, 24));
    let mut model = test_model();
    let state = started_without_profile();
    let notice = state.profile_notice(action_notice(Ok("density set to compact".to_string())));
    cockpit.notify(&mut model, notice, 500);
    assert_eq!(model.notifications.len(), 1);
    assert_eq!(model.notifications[0].level, NotificationLevel::Info);
    assert_eq!(model.notifications[0].message, "density set to compact");
    let id = model.notifications[0].id;
    assert_eq!(cockpit.timers, [NotificationTimer { id, deadline: 5_500 }]);
    assert_eq!(cockpit.take_expired(5_499), Vec::<u64>::new());
    assert_eq!(cockpit.take_expired(5_500), [id]);
}

#[test]
fn warnings_persist() {
    let mut cockpit = CockpitLoop::new((80, 24));
    let mut model = test_model();
    cockpit.notify(&mut model, load_notice("check preferences".to_string()), 500);
    assert_eq!(model.notifications.len(), 1);
    assert_eq!(model.notifications[0].level, NotificationLevel::Warning);
    assert!(cockpit.timers.is_empty());
    assert_eq!(cockpit.take_expired(u64::MAX), Vec::<u64>::new());
}

#[test]
fn profile_sets_how_long_notices_stay() {
    let mut state = started_without_profile();
    state.prefs.notification_timeout_secs = 12;
    let done = || action_notice(Ok("done".to_string()));
    let failed = || action_notice(Err("failed".to_string()));
    assert_eq!(state.profile_notice(done()).stays, Some(12_000));
    assert_eq!(state.profile_notice(failed()).stays, Some(10_000));
    assert_eq!(state.profile_notice(load_notice("warned".to_string())).stays, None);

    state.prefs.notification_timeout_secs = 0;
    assert_eq!(state.profile_notice(done()).stays, None);
    assert_eq!(state.profile_notice(failed()).stays, None);
}

#[test]
fn each_screen_queries_its_own_telemetry() {
    let mut model = test_model();
    assert_eq!(telemetry_plan(&model).len(), 2);
    model.screen = Screen::Explainability;
    let plan = telemetry_plan(&model);
    assert!(matches!(plan[0], TelemetryRequest::Decisions { limit: 20 }));
    model.screen = Screen::Candidates;
    let plan = telemetry_plan(&model);
    assert!(matches!(plan[0], TelemetryRequest::Candidates { limit: 40 }));
    model.screen = Screen::Ballast;
    assert!(telemetry_plan(&model).is_empty());
}

#[test]
fn only_key_presses_and_resizes_have_messages() {
    let key = KeyEvent {
        code: KeyCode::Char('q'),
        modifiers: Modifiers { shift: false, alt: false, ctrl: false, super_key: false },
        kind: KeyEventKind::Press,
    };
    assert!(event_message(TerminalEvent::Key(key)).is_some());
    let released = KeyEvent { kind: KeyEventKind::Release, ..key };
    assert!(event_message(TerminalEvent::Key(released)).is_none());
    assert!(matches!(
        event_message(TerminalEvent::Resize { width: 90, height: 30 }),
        Some(DashboardMsg::Resize { cols: 90, rows: 30 })
    ));
    assert!(event_message(TerminalEvent::Other).is_none());
}

#[test]
fn frames_have_at_least_one_cell() {
    assert_eq!(drawable_size((0, 0)), (1, 1));
    assert_eq!(drawable_size((80, 24)), (80, 24));
}

#[test]
fn first_and_resized_frames_are_repainted() {
    let mut cockpit = CockpitLoop::new((80, 24));
    assert!(cockpit.next_frame((80, 24)).full);
    assert!(!cockpit.next_frame((80, 24)).full);
    let resized = cockpit.next_frame((0, 24));
    assert!(resized.full);
    assert_eq!(resized.size, (1, 24));
    assert!(!cockpit.next_frame((1, 24)).full);
}

#[test]
fn waiting_in_vain_is_a_tick() {
    assert!(matches!(poll_message(None), Some(DashboardMsg::Tick)));
    assert!(poll_message(Some(TerminalEvent::Other)).is_none());
}

#[test]
fn terminal_size_fallback() {
    let (cols, rows) = terminal_size(None, None);
    assert!(cols > 0);
    assert!(rows > 0);
    assert_eq!(terminal_size(Some("132"), Some("+50")), (132, 50));
    assert_eq!(terminal_size(Some("wide"), Some("70000")), (80, 24));
}
