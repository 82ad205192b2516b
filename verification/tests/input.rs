use sbh_tui::input::InputAction;
use sbh_tui::input::InputContext;
use sbh_tui::input::KeyCode;
use sbh_tui::input::KeyEvent;
use sbh_tui::input::KeyEventKind;
use sbh_tui::input::Modifiers;
use sbh_tui::input::command_palette_actions;
use sbh_tui::input::contextual_help;
use sbh_tui::input::map_key_event;
use sbh_tui::input::resolve_key_event;
use sbh_tui::input::resolve_palette_action;
use sbh_tui::input::search_palette_actions;
use sbh_tui::model::DashboardModel;
use sbh_tui::model::DashboardMsg;
use sbh_tui::model::Overlay;
use sbh_tui::model::Screen;

use std::collections::HashSet;

const NONE: Modifiers = Modifiers { shift: false, alt: false, ctrl: false, super_key: false };
const CTRL: Modifiers = Modifiers { shift: false, alt: false, ctrl: true, super_key: false };

fn key(code: KeyCode) -> KeyEvent {
    KeyEvent {
        code,
        modifiers: NONE,
        kind: KeyEventKind::Press,
    }
}

fn ctrl(code: KeyCode) -> KeyEvent {
    KeyEvent {
        code,
        modifiers: CTRL,
        kind: KeyEventKind::Press,
    }
}

#[test]
fn key_mapping_preserves_event() {
    let event = ctrl(KeyCode::Char('q'));

    let msg = map_key_event(event);
    match msg {
        DashboardMsg::Key(inner) => {
            assert_eq!(inner.code, KeyCode::Char('q'));
            assert!(inner.ctrl());
        }
        _ => panic!("expected key event"),
    }
}

#[test]
fn global_keys_resolve_to_actions() {
    let ctx = InputContext::default();
    let nav = resolve_key_event(&key(KeyCode::Char('5')), ctx);
    let refresh = resolve_key_event(&key(KeyCode::Char('r')), ctx);
    let unknown = resolve_key_event(&key(KeyCode::Char('x')), ctx);

    assert_eq!(nav.action, Some(InputAction::Navigate(Screen::Ballast)));
    assert_eq!(refresh.action, Some(InputAction::ForceRefresh));
    assert!(!unknown.consumed);
    assert!(unknown.action.is_none());
}

#[test]
fn overlay_precedence_consumes_unmapped_keys() {
    let ctx = InputContext {
        screen: Screen::Overview,
        active_overlay: Some(Overlay::Help),
    };
    let action = resolve_key_event(&key(KeyCode::Char('3')), ctx);
    assert!(action.consumed);
    assert!(action.action.is_none());
}

#[test]
fn overlay_toggle_keys_resolve_when_same_overlay_active() {
    let ctx = InputContext {
        screen: Screen::Overview,
        active_overlay: Some(Overlay::CommandPalette),
    };
    let action = resolve_key_event(&ctrl(KeyCode::Char('p')), ctx);
    assert_eq!(
        action.action,
        Some(InputAction::ToggleOverlay(Overlay::CommandPalette))
    );
}

#[test]
fn command_palette_catalog_has_unique_ids() {
    let actions = command_palette_actions();
    let mut ids = HashSet::new();
    for action in actions {
        assert!(ids.insert(action.id), "duplicate action id: {}", action.id);
        assert!(resolve_palette_action(action.id).is_some());
    }
}

#[test]
fn command_palette_search_empty_query_returns_catalog_prefix() {
    let top = search_palette_actions("", 4);
    assert_eq!(top.len(), 4);
    assert_eq!(top[0].id, "nav.overview");
    assert_eq!(top[1].id, "nav.timeline");
    assert_eq!(top[2].id, "nav.explainability");
    assert_eq!(top[3].id, "nav.candidates");
}

#[test]
fn command_palette_search_prefers_exact_id_then_prefix() {
    let exact = search_palette_actions("nav.ballast", 3);
    assert_eq!(exact[0].id, "nav.ballast");

    let prefix = search_palette_actions("nav.", 3);
    assert_eq!(prefix[0].id, "nav.ballast");
    assert_eq!(prefix[1].id, "nav.candidates");
    assert_eq!(prefix[2].id, "nav.diagnostics");
}

#[test]
fn command_palette_search_is_case_insensitive_and_stable() {
    let upper = search_palette_actions("OVERVIEW", 2);
    let mixed = search_palette_actions("OvErViEw", 2);

    assert!(!upper.is_empty());
    assert_eq!(upper[0].id, "nav.overview");
    assert_eq!(upper, mixed);
}

#[test]
fn command_palette_search_respects_limit_and_zero_limit_is_empty() {
    let limited = search_palette_actions("nav", 2);
    assert_eq!(limited.len(), 2);

    let none = search_palette_actions("nav", 0);
    assert!(none.is_empty());
}

#[test]
fn contextual_help_reflects_overlay_and_screen_context() {
    let help = contextual_help(InputContext {
        screen: Screen::Diagnostics,
        active_overlay: None,
    });
    assert_eq!(help.title, "Global Navigation");
    assert!(help.screen_hint.contains("frame health"));
    assert!(help.bindings.iter().any(|line| line.keys == "Ctrl-P or :"));

    let overlay_help = contextual_help(InputContext {
        screen: Screen::Diagnostics,
        active_overlay: Some(Overlay::Help),
    });
    assert_eq!(overlay_help.title, "Help Overlay");
    assert!(
        overlay_help
            .bindings
            .iter()
            .any(|line| line.description.contains("Close help overlay"))
    );
}

#[test]
fn search_ranks_titles_behind_identifiers() {
    let found = search_palette_actions("ballast", 10);
    assert!(found.len() >= 2);
    assert!(found.iter().any(|a| a.id == "nav.ballast"));
    assert!(found.iter().any(|a| a.id == "action.jump_ballast"));
}

#[test]
fn search_ignores_outer_white_space() {
    assert_eq!(search_palette_actions("  nav.logs ", 5), search_palette_actions("nav.logs", 5));
    assert_eq!(search_palette_actions("   ", 3).len(), 3);
}

#[test]
fn every_palette_entry_resolves_to_its_action() {
    for entry in command_palette_actions() {
        assert_eq!(resolve_palette_action(entry.id), Some(entry.action));
    }
    assert_eq!(resolve_palette_action("no.such.entry"), None);
}

#[test]
fn overlays_swallow_screen_numbers() {
    for overlay in [Overlay::Help, Overlay::Voi, Overlay::IncidentPlaybook] {
        let ctx = InputContext { screen: Screen::Timeline, active_overlay: Some(overlay) };
        let r = resolve_key_event(&key(KeyCode::Char('1')), ctx);
        assert!(r.consumed);
        assert!(r.action.is_none());
    }
}

/// Whether a key leaves a dashboard that has just started.
fn leaves(event: KeyEvent) -> bool {
    let mut model =
        DashboardModel::new("/tmp/state.json".to_string(), vec![], 1_000, (120, 40));
    let ctx = InputContext { screen: model.screen, active_overlay: model.active_overlay };
    match resolve_key_event(&event, ctx).action {
        Some(InputAction::Quit) => true,
        Some(InputAction::BackOrQuit) => !model.navigate_back(),
        _ => false,
    }
}

#[test]
fn c16_exit_keys_all_work() {
    assert!(leaves(key(KeyCode::Char('q'))));
    assert!(leaves(KeyEvent {
        code: KeyCode::Char('c'),
        modifiers: Modifiers { shift: false, alt: false, ctrl: true, super_key: false },
        kind: KeyEventKind::Press,
    }));
    assert!(leaves(key(KeyCode::Escape)));
    assert!(!leaves(key(KeyCode::Char('x'))));
}

#[test]
fn exact_identifier_is_found_first() {
    for entry in command_palette_actions() {
        assert_eq!(search_palette_actions(entry.id, 1), [entry]);
    }
}
