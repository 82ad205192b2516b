use sbh_tui::model::Screen;
use sbh_tui::preferences::ContrastMode;
use sbh_tui::preferences::ContrastPreference;
use sbh_tui::preferences::DebouncedWriter;
use sbh_tui::preferences::DensityMode;
use sbh_tui::preferences::HintVerbosity;
use sbh_tui::preferences::LoadOutcome;
use sbh_tui::preferences::MotionMode;
use sbh_tui::preferences::MotionPreference;
use sbh_tui::preferences::PreferencesRead;
use sbh_tui::preferences::ResolvedPreferences;
use sbh_tui::preferences::SCHEMA_VERSION;
use sbh_tui::preferences::SessionOverrides;
use sbh_tui::preferences::StartScreen;
use sbh_tui::preferences::UserPreferences;
use sbh_tui::preferences::default_preferences_path;
use sbh_tui::preferences::load;
use sbh_tui::preferences::merge;
use sbh_tui::preferences::validate;

// ── Default values ──

#[test]
fn defaults_are_sensible() {
    let prefs = UserPreferences::default();
    assert_eq!(prefs.schema_version, SCHEMA_VERSION);
    assert_eq!(prefs.start_screen, StartScreen::Overview);
    assert_eq!(prefs.density, DensityMode::Comfortable);
    assert_eq!(prefs.contrast, ContrastPreference::Auto);
    assert_eq!(prefs.motion, MotionPreference::Auto);
    assert_eq!(prefs.hint_verbosity, HintVerbosity::Full);
    assert_eq!(prefs.notification_timeout_secs, 5);
    assert!(!prefs.show_help_on_start);
}


// ── Validation ──

#[test]
fn validation_clamps_notification_timeout() {
    let prefs = UserPreferences {
        notification_timeout_secs: 9999,
        ..Default::default()
    };
    let (fixed, report) = validate(prefs);
    assert_eq!(fixed.notification_timeout_secs, 300);
    assert!(!report.warnings.is_empty());
}

#[test]
fn validation_warns_on_future_schema() {
    let prefs = UserPreferences {
        schema_version: 999,
        ..Default::default()
    };
    let (_, report) = validate(prefs);
    assert!(report.warnings.iter().any(|w| w.contains("newer")));
}

#[test]
fn validation_passes_for_defaults() {
    let (_, report) = validate(UserPreferences::default());
    assert!(report.is_clean());
}

// ── StartScreen resolution ──

#[test]
fn start_screen_resolve_explicit() {
    assert_eq!(StartScreen::Diagnostics.resolve(None), Screen::Diagnostics,);
}

#[test]
fn start_screen_resolve_remember_with_last() {
    assert_eq!(
        StartScreen::Remember.resolve(Some(Screen::Ballast)),
        Screen::Ballast,
    );
}

#[test]
fn start_screen_resolve_remember_without_last() {
    assert_eq!(StartScreen::Remember.resolve(None), Screen::Overview,);
}

// ── Contrast/motion resolution ──

#[test]
fn contrast_auto_defers_to_env() {
    assert_eq!(
        ContrastPreference::Auto.resolve(ContrastMode::High),
        ContrastMode::High,
    );
}

#[test]
fn contrast_force_overrides_env() {
    assert_eq!(
        ContrastPreference::ForceStandard.resolve(ContrastMode::High),
        ContrastMode::Standard,
    );
}

#[test]
fn motion_auto_defers_to_env() {
    assert_eq!(
        MotionPreference::Auto.resolve(MotionMode::Reduced),
        MotionMode::Reduced,
    );
}

#[test]
fn motion_force_overrides_env() {
    assert_eq!(
        MotionPreference::ForceFull.resolve(MotionMode::Reduced),
        MotionMode::Full,
    );
}

// ── Merge ──

#[test]
fn merge_uses_persisted_when_no_overrides() {
    let persisted = UserPreferences {
        density: DensityMode::Compact,
        ..Default::default()
    };
    let merged = merge(&persisted, &SessionOverrides::default());
    assert_eq!(merged.density, DensityMode::Compact);
}

#[test]
fn merge_override_wins() {
    let persisted = UserPreferences::default();
    let overrides = SessionOverrides {
        density: Some(DensityMode::Compact),
        hint_verbosity: Some(HintVerbosity::Off),
        ..Default::default()
    };
    let merged = merge(&persisted, &overrides);
    assert_eq!(merged.density, DensityMode::Compact);
    assert_eq!(merged.hint_verbosity, HintVerbosity::Off);
    // Non-overridden fields stay at persisted.
    assert_eq!(merged.start_screen, StartScreen::Overview);
}

// ── ResolvedPreferences ──

#[test]
fn resolved_preferences_complete() {
    let prefs = UserPreferences {
        start_screen: StartScreen::Remember,
        contrast: ContrastPreference::ForceHigh,
        motion: MotionPreference::Auto,
        notification_timeout_secs: 10,
        ..Default::default()
    };
    let resolved = ResolvedPreferences::resolve(
        &prefs,
        ContrastMode::Standard,
        MotionMode::Full,
        Some(Screen::Timeline),
    );
    assert_eq!(resolved.start_screen, Screen::Timeline);
    assert_eq!(resolved.contrast, ContrastMode::High);
    assert_eq!(resolved.motion, MotionMode::Full);
    assert_eq!(resolved.notification_timeout, 10);
}


#[test]
fn load_outcome_into_prefs_returns_defaults_on_failure() {
    let outcome = LoadOutcome::Corrupt {
        details: "bad".into(),
        defaults: UserPreferences::default(),
    };
    let prefs = outcome.into_prefs();
    assert_eq!(prefs, UserPreferences::default());
}


// ── Display impls ──

#[test]
fn display_impls() {
    assert_eq!(DensityMode::Compact.label(), "compact");
    assert_eq!(DensityMode::Comfortable.label(), "comfortable");
    assert_eq!(HintVerbosity::Full.label(), "full");
    assert_eq!(HintVerbosity::Off.label(), "off");
    assert_eq!(ContrastPreference::Auto.label(), "auto");
    assert_eq!(ContrastPreference::ForceHigh.label(), "high");
    assert_eq!(MotionPreference::ForceReduced.label(), "reduced");
}


// ── Edge cases ──

#[test]
fn notification_timeout_zero_means_no_dismiss() {
    let prefs = UserPreferences {
        notification_timeout_secs: 0,
        ..Default::default()
    };
    let (fixed, report) = validate(prefs);
    assert_eq!(fixed.notification_timeout_secs, 0);
    assert!(report.is_clean()); // 0 is valid (means never auto-dismiss).
}

#[test]
fn load_outcome_is_ok_variants() {
    assert!(LoadOutcome::Missing.is_ok());
    assert!(
        !LoadOutcome::Corrupt {
            details: String::new(),
            defaults: UserPreferences::default(),
        }
        .is_ok()
    );
}
// ── Persistence ──

#[test]
fn load_missing_file_returns_missing() {
    assert!(matches!(load(PreferencesRead::NotFound), LoadOutcome::Missing));
}

#[test]
fn load_corrupt_file_returns_corrupt() {
    let outcome = load(PreferencesRead::Unparseable("expected ident at line 1".to_string()));
    assert!(matches!(outcome, LoadOutcome::Corrupt { .. }));
    let outcome = load(PreferencesRead::NotText("stream did not contain valid UTF-8".to_string()));
    assert!(matches!(outcome, LoadOutcome::Corrupt { .. }));
}

#[test]
fn load_failing_read_is_an_io_error() {
    match load(PreferencesRead::Failed("permission denied".to_string())) {
        LoadOutcome::IoError { details, defaults } => {
            assert_eq!(details, "permission denied");
            assert_eq!(defaults, UserPreferences::default());
        }
        other => panic!("expected IoError, got {other:?}"),
    }
}

#[test]
fn load_validates_what_was_parsed() {
    let parsed = UserPreferences {
        notification_timeout_secs: 301,
        ..Default::default()
    };
    match load(PreferencesRead::Parsed(parsed)) {
        LoadOutcome::Loaded { prefs, report } => {
            assert_eq!(prefs.notification_timeout_secs, 300);
            assert_eq!(report.warnings.len(), 1);
            assert!(report.warnings[0].contains("301"));
        }
        other => panic!("expected Loaded, got {other:?}"),
    }
}

#[test]
fn preferences_path_prefers_the_override() {
    let path = default_preferences_path(Some("/tmp/p.json".to_string()), Some("/home/me".to_string()));
    assert_eq!(path, Some("/tmp/p.json".to_string()));
    let path = default_preferences_path(None, Some("/home/me".to_string()));
    assert_eq!(path, Some("/home/me/.config/sbh/preferences.json".to_string()));
    assert_eq!(default_preferences_path(None, None), None);
}

// ── Debounced writer ──

#[test]
fn debounced_writer_no_pending_returns_none() {
    let mut writer = DebouncedWriter::new("/tmp/prefs.json".to_string());
    assert!(writer.try_flush(0).is_none());
}

#[test]
fn debounced_writer_first_save_immediate() {
    let mut writer = DebouncedWriter::new("/tmp/prefs.json".to_string()).with_debounce(0);
    writer.request_save();
    assert_eq!(writer.try_flush(0), Some("/tmp/prefs.json".to_string()));
}

#[test]
fn debounced_writer_respects_debounce() {
    let mut writer = DebouncedWriter::new("/tmp/prefs.json".to_string()).with_debounce(60_000);

    // First write goes through.
    writer.request_save();
    assert!(writer.try_flush(1_000).is_some());

    // Second write within debounce is suppressed.
    writer.request_save();
    assert!(writer.try_flush(1_001).is_none());
    assert!(writer.is_pending()); // Still pending.

    // Once the interval is over it goes through.
    assert!(writer.try_flush(60_999).is_none());
    assert!(writer.try_flush(61_000).is_some());
    assert!(!writer.is_pending());
}

#[test]
fn debounced_writer_force_flush_bypasses_debounce() {
    let mut writer = DebouncedWriter::new("/tmp/prefs.json".to_string()).with_debounce(60_000);

    // First write.
    writer.request_save();
    assert!(writer.try_flush(0).is_some());

    // Force flush bypasses debounce.
    writer.request_save();
    assert!(writer.force_flush(1).is_some());
    assert!(!writer.is_pending());
}

// ── Laws on concrete values ──

#[test]
fn validating_twice_changes_nothing_more() {
    let prefs = UserPreferences {
        schema_version: 7,
        notification_timeout_secs: 5000,
        ..Default::default()
    };
    let (once, _) = validate(prefs);
    let (twice, _) = validate(once);
    assert_eq!(once, twice);
}

#[test]
fn merging_the_same_overrides_again_changes_nothing() {
    let overrides = SessionOverrides {
        start_screen: Some(StartScreen::Ballast),
        ..Default::default()
    };
    let once = merge(&UserPreferences::default(), &overrides);
    assert_eq!(merge(&once, &overrides), once);
    assert_eq!(once.start_screen, StartScreen::Ballast);
}
