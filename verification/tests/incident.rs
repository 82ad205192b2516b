use sbh_tui::incident::IncidentSeverity;
use sbh_tui::incident::incident_banner;
use sbh_tui::incident::incident_hints;
use sbh_tui::incident::incident_playbook;
use sbh_tui::incident::playbook_for_severity;
use sbh_tui::incident::shortcuts_enabled;
use sbh_tui::model::DaemonState;
use sbh_tui::model::Screen;
use sbh_tui::preferences::HintVerbosity;

// ── IncidentSeverity ──

#[test]
fn severity_from_pressure_level_known_values() {
    assert_eq!(
        IncidentSeverity::from_pressure_level("green"),
        IncidentSeverity::Normal
    );
    assert_eq!(
        IncidentSeverity::from_pressure_level("yellow"),
        IncidentSeverity::Elevated
    );
    assert_eq!(
        IncidentSeverity::from_pressure_level("warning"),
        IncidentSeverity::Elevated
    );
    assert_eq!(
        IncidentSeverity::from_pressure_level("orange"),
        IncidentSeverity::High
    );
    assert_eq!(
        IncidentSeverity::from_pressure_level("high"),
        IncidentSeverity::High
    );
    assert_eq!(
        IncidentSeverity::from_pressure_level("red"),
        IncidentSeverity::Critical
    );
    assert_eq!(
        IncidentSeverity::from_pressure_level("critical"),
        IncidentSeverity::Critical
    );
    assert_eq!(
        IncidentSeverity::from_pressure_level("emergency"),
        IncidentSeverity::Critical
    );
}

#[test]
fn severity_from_pressure_level_case_insensitive() {
    assert_eq!(
        IncidentSeverity::from_pressure_level("CRITICAL"),
        IncidentSeverity::Critical
    );
    assert_eq!(
        IncidentSeverity::from_pressure_level("Yellow"),
        IncidentSeverity::Elevated
    );
    assert_eq!(
        IncidentSeverity::from_pressure_level("RED"),
        IncidentSeverity::Critical
    );
}

#[test]
fn severity_from_pressure_level_unknown_is_normal() {
    assert_eq!(
        IncidentSeverity::from_pressure_level(""),
        IncidentSeverity::Normal
    );
    assert_eq!(
        IncidentSeverity::from_pressure_level("unknown"),
        IncidentSeverity::Normal
    );
    assert_eq!(
        IncidentSeverity::from_pressure_level("foobar"),
        IncidentSeverity::Normal
    );
}

#[test]
fn severity_from_daemon_state_none_is_normal() {
    assert_eq!(
        IncidentSeverity::from_daemon_state(None),
        IncidentSeverity::Normal
    );
}

#[test]
fn severity_from_daemon_state_extracts_overall() {
    let mut state = DaemonState::default();
    state.pressure.overall = "critical".to_string();
    assert_eq!(
        IncidentSeverity::from_daemon_state(Some(&state)),
        IncidentSeverity::Critical
    );
}

#[test]
fn severity_labels() {
    assert_eq!(IncidentSeverity::Normal.label(), "NORMAL");
    assert_eq!(IncidentSeverity::Elevated.label(), "ELEVATED");
    assert_eq!(IncidentSeverity::High.label(), "HIGH");
    assert_eq!(IncidentSeverity::Critical.label(), "CRITICAL");
}

#[test]
fn severity_shows_hints_only_above_normal() {
    assert!(!IncidentSeverity::Normal.shows_hints());
    assert!(IncidentSeverity::Elevated.shows_hints());
    assert!(IncidentSeverity::High.shows_hints());
    assert!(IncidentSeverity::Critical.shows_hints());
}

#[test]
fn severity_shows_banner_only_high_and_critical() {
    assert!(!IncidentSeverity::Normal.shows_banner());
    assert!(!IncidentSeverity::Elevated.shows_banner());
    assert!(IncidentSeverity::High.shows_banner());
    assert!(IncidentSeverity::Critical.shows_banner());
}

#[test]
fn severity_ordering_is_consistent() {
    assert!(IncidentSeverity::Normal < IncidentSeverity::Elevated);
    assert!(IncidentSeverity::Elevated < IncidentSeverity::High);
    assert!(IncidentSeverity::High < IncidentSeverity::Critical);
}

// ── Playbook ──

#[test]
fn playbook_is_non_empty() {
    assert!(!incident_playbook().is_empty());
}

#[test]
fn playbook_entries_have_valid_targets() {
    for entry in incident_playbook() {
        // Verify label and description are non-empty.
        assert!(!entry.label.is_empty());
        assert!(!entry.description.is_empty());
        assert!(!entry.shortcut_hint.is_empty());
        // Verify target screen is a valid screen.
        let _num = entry.target.number(); // won't panic
    }
}

#[test]
fn playbook_first_entry_is_ballast_release() {
    let first = &incident_playbook()[0];
    assert_eq!(first.target, Screen::Ballast);
    assert!(first.label.contains("ballast") || first.label.contains("Release"));
}

#[test]
fn playbook_for_severity_filters_correctly() {
    let normal = playbook_for_severity(IncidentSeverity::Normal);
    let elevated = playbook_for_severity(IncidentSeverity::Elevated);
    let high = playbook_for_severity(IncidentSeverity::High);
    let critical = playbook_for_severity(IncidentSeverity::Critical);

    // Higher severity includes more entries (or same).
    assert!(normal.len() <= elevated.len());
    assert!(elevated.len() <= high.len());
    assert!(high.len() <= critical.len());

    // Critical should see all entries.
    assert_eq!(critical.len(), incident_playbook().len());
}

#[test]
fn playbook_for_normal_excludes_high_only_entries() {
    let normal_entries = playbook_for_severity(IncidentSeverity::Normal);
    // No entry with min_severity > Normal should appear.
    for entry in &normal_entries {
        assert_eq!(entry.min_severity, IncidentSeverity::Normal);
    }
}

#[test]
fn playbook_for_elevated_includes_elevated_and_normal() {
    let entries = playbook_for_severity(IncidentSeverity::Elevated);
    for entry in &entries {
        assert!(entry.min_severity <= IncidentSeverity::Elevated);
    }
}

// ── Incident hints ──

#[test]
fn hints_empty_when_normal_severity() {
    let hints = incident_hints(
        IncidentSeverity::Normal,
        Screen::Overview,
        HintVerbosity::Full,
    );
    assert!(hints.is_empty());
}

#[test]
fn hints_empty_when_verbosity_off() {
    let hints = incident_hints(
        IncidentSeverity::Critical,
        Screen::Overview,
        HintVerbosity::Off,
    );
    assert!(hints.is_empty());
}

#[test]
fn hints_present_for_elevated_with_full_verbosity() {
    let hints = incident_hints(
        IncidentSeverity::Elevated,
        Screen::Overview,
        HintVerbosity::Full,
    );
    assert!(!hints.is_empty());
    // Should always include the playbook hint.
    assert!(hints.iter().any(|h| h.shortcut == "!"));
}

#[test]
fn hints_include_quick_release_on_overview_when_high() {
    let hints = incident_hints(
        IncidentSeverity::High,
        Screen::Overview,
        HintVerbosity::Full,
    );
    assert!(hints.iter().any(|h| h.shortcut == "x"));
}

#[test]
fn hints_no_quick_release_on_overview_when_elevated() {
    let hints = incident_hints(
        IncidentSeverity::Elevated,
        Screen::Overview,
        HintVerbosity::Full,
    );
    assert!(!hints.iter().any(|h| h.shortcut == "x"));
}

#[test]
fn hints_include_filter_on_timeline() {
    let hints = incident_hints(
        IncidentSeverity::Elevated,
        Screen::Timeline,
        HintVerbosity::Full,
    );
    assert!(hints.iter().any(|h| h.shortcut == "f"));
}

#[test]
fn hints_include_release_on_ballast_screen() {
    let hints = incident_hints(
        IncidentSeverity::Elevated,
        Screen::Ballast,
        HintVerbosity::Full,
    );
    assert!(hints.iter().any(|h| h.shortcut == "r"));
}

#[test]
fn hints_minimal_mode_truncates_to_one() {
    let hints = incident_hints(
        IncidentSeverity::Critical,
        Screen::Overview,
        HintVerbosity::Minimal,
    );
    assert_eq!(hints.len(), 1);
    assert!(hints[0].shortcut == "!");
}

// ── Incident banner ──

#[test]
fn banner_none_for_normal() {
    assert!(incident_banner(IncidentSeverity::Normal).is_none());
}

#[test]
fn banner_none_for_elevated() {
    assert!(incident_banner(IncidentSeverity::Elevated).is_none());
}

#[test]
fn banner_present_for_high() {
    let banner = incident_banner(IncidentSeverity::High).unwrap();
    assert!(banner.contains("HIGH PRESSURE"));
    assert!(banner.contains("[!]"));
    assert!(banner.contains("[x]"));
}

#[test]
fn banner_present_for_critical() {
    let banner = incident_banner(IncidentSeverity::Critical).unwrap();
    assert!(banner.contains("CRITICAL PRESSURE"));
    assert!(banner.contains("[!]"));
    assert!(banner.contains("[x]"));
}

// ── Feature gate ──

#[test]
fn shortcuts_enabled_by_default() {
    assert!(shortcuts_enabled(HintVerbosity::Full));
    assert!(shortcuts_enabled(HintVerbosity::Minimal));
}

#[test]
fn shortcuts_disabled_when_off() {
    assert!(!shortcuts_enabled(HintVerbosity::Off));
}
// ── Exact values ──

#[test]
fn playbook_grows_with_severity() {
    assert_eq!(playbook_for_severity(IncidentSeverity::Normal).len(), 0);
    assert_eq!(playbook_for_severity(IncidentSeverity::Elevated).len(), 4);
    assert_eq!(playbook_for_severity(IncidentSeverity::High).len(), 7);
    assert_eq!(playbook_for_severity(IncidentSeverity::Critical).len(), 7);
}

#[test]
fn minimal_hints_are_the_first_of_the_full_ones() {
    let full = incident_hints(IncidentSeverity::High, Screen::Timeline, HintVerbosity::Full);
    let minimal = incident_hints(IncidentSeverity::High, Screen::Timeline, HintVerbosity::Minimal);
    assert_eq!(minimal.len(), 1);
    assert_eq!(minimal[0].text, full[0].text);
}

#[test]
fn lower_playbooks_are_subsequences_of_higher_ones() {
    let high = playbook_for_severity(IncidentSeverity::High);
    let mut rest = high.iter();
    for step in playbook_for_severity(IncidentSeverity::Elevated) {
        assert!(rest.any(|entry| *entry == step));
    }
}
