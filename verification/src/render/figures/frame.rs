//! What is shown on the frame: figures behind
//! their labels, columns in order, and parts in their place.

use vstd::prelude::*;

use crate::incident::IncidentSeverity;
use crate::incident::PlaybookEntry;
use crate::incident::relevant_steps;
use crate::incident::severity_label;
use crate::incident::state_severity;
use crate::input::PaletteAction;
use crate::input::search_result;
use crate::layout::MIN_USABLE_COLS;
use crate::layout::MIN_USABLE_ROWS;
use crate::markup::Atom;
use crate::markup::Tone;
use crate::markup::before;
use crate::markup::before_at;
use crate::markup::ink;
use crate::markup::labels;
use crate::markup::reads;
use crate::model::ConfirmAction;
use crate::model::DashboardModel;
use crate::model::Notification;
use crate::model::Overlay;
use crate::model::Screen;
use crate::model::filter_label;
use crate::render::common::notification_word_of;
use crate::render::common::source_label;
use crate::render::common::spaced_of;
use crate::render::common::tab_label_of;
use crate::render::diagnostics::mode_word_of;
use crate::render::frame::HEADER_CRUMBS;
use crate::render::frame::ballast_keys;
use crate::render::frame::ballast_strip;
use crate::render::frame::ballast_summary;
use crate::render::frame::candidates_keys;
use crate::render::frame::candidates_strip;
use crate::render::frame::candidates_summary;
use crate::render::frame::confirm_overlay;
use crate::render::frame::confirm_text_of;
use crate::render::frame::diagnostics_keys;
use crate::render::frame::diagnostics_strip;
use crate::render::frame::diagnostics_summary;
use crate::render::frame::explainability_keys;
use crate::render::frame::explainability_strip;
use crate::render::frame::explainability_summary;
use crate::render::frame::footer_keys;
use crate::render::frame::footer_status;
use crate::render::frame::footer_summary;
use crate::render::frame::frame_toast;
use crate::render::frame::frame_toasts_of;
use crate::render::frame::header_content;
use crate::render::frame::header_crumbs_of;
use crate::render::frame::header_title;
use crate::render::frame::header_trail;
use crate::render::frame::help_overlay;
use crate::render::frame::log_keys;
use crate::render::frame::log_strip;
use crate::render::frame::log_summary;
use crate::render::frame::overlay_content;
use crate::render::frame::overview_keys;
use crate::render::frame::overview_summary;
use crate::render::frame::palette_entries_of;
use crate::render::frame::palette_entry;
use crate::render::frame::palette_overlay;
use crate::render::frame::playbook_overlay;
use crate::render::frame::playbook_step;
use crate::render::frame::playbook_steps_of;
use crate::render::frame::small_message;
use crate::render::frame::tab;
use crate::render::frame::tab_key_of;
use crate::render::frame::tab_name_of;
use crate::render::frame::tab_screens;
use crate::render::frame::tab_strip_of;
use crate::render::frame::timeline_keys;
use crate::render::frame::timeline_strip;
use crate::render::frame::timeline_summary;
use crate::render::frame::voi_overlay;
use crate::render::page::PALETTE_SEARCH_LIMIT;
use crate::render::page::crumbs_from;
use crate::render::page::palette_shown_of;
use crate::render::scene::least;
use crate::text::dec;
use crate::text::padded_right;
use crate::text::uppered;

verus! {

/// Title row: the data mode and the policy mode: each label is followed by the figure
/// that it names.
pub proof fn law_header_title_figures(model: DashboardModel)
    ensures
        ({
            let d = header_title(model);
            &&& labels(d, " SBH Dashboard "@, Atom::Text(spaced_of(mode_word_of(model.degraded))))
        }),
{
    broadcast use crate::markup::group_labels;

}

/// Title row: the data mode and the policy mode: its figures stand in the order of their columns.
pub proof fn law_header_title_order(model: DashboardModel)
    ensures
        ({
            let d = header_title(model);
            &&& model.daemon_state is Some && (model.daemon_state->0.policy_mode@.len() > 0) ==> before(
                d,
                Atom::Text(spaced_of(mode_word_of(model.degraded))),
                Atom::Text(spaced_of(uppered(model.daemon_state->0.policy_mode@))),
            )
        }),
{
    let d = header_title(model);
    if model.daemon_state is Some && (model.daemon_state->0.policy_mode@.len() > 0) {
        assert(before_at(
            d,
            1,
            3,
            Atom::Text(spaced_of(mode_word_of(model.degraded))),
            Atom::Text(spaced_of(uppered(model.daemon_state->0.policy_mode@))),
        ));
    }
}

/// One tab; the active one stands on its accent: its figures stand in the order of their columns.
pub proof fn law_tab_order(screen: Screen, current: Screen)
    ensures
        ({
            let d = tab(screen, current);
            &&& before(d, Atom::Text(tab_key_of(screen)), Atom::Text(tab_name_of(screen)))
        }),
{
    let d = tab(screen, current);
    if (screen == current) {
        assert(before_at(d, 0, 1, Atom::Text(tab_key_of(screen)), Atom::Text(tab_name_of(screen))));
    }
    if (!(screen == current)) {
        assert(before_at(d, 0, 1, Atom::Text(tab_key_of(screen)), Atom::Text(tab_name_of(screen))));
    }
}

/// The screens of the header trail: one row follows another, and each shows its own item.
pub proof fn law_header_crumbs_row_by_row(screens: Seq<Screen>, from: int, mid: int, to: int)
    requires
        from <= mid <= to,
    ensures
        header_crumbs_of(screens, from, to)
            == header_crumbs_of(screens, from, mid) + header_crumbs_of(screens, mid, to),
        header_crumbs_of(screens, mid, mid + 1)
            == seq![ink(tab_label_of(screens[mid]), Tone::Secondary), ink(" \u{203A} "@, Tone::Muted)],
    decreases to - mid,
{
    assert(header_crumbs_of(screens, mid, mid) =~= seq![]);
    assert(header_crumbs_of(screens, mid, mid + 1)
        =~= seq![ink(tab_label_of(screens[mid]), Tone::Secondary), ink(" \u{203A} "@, Tone::Muted)]);
    if mid < to {
        law_header_crumbs_row_by_row(screens, from, mid, to - 1);
        assert(header_crumbs_of(screens, from, to)
            =~= header_crumbs_of(screens, from, mid) + header_crumbs_of(screens, mid, to));
    } else {
        assert(header_crumbs_of(screens, from, to)
            =~= header_crumbs_of(screens, from, mid) + header_crumbs_of(screens, mid, to));
    }
}

/// Breadcrumb row; a rule while there is no history: its parts stand in it.
pub proof fn law_header_trail_parts(model: DashboardModel, width: u16)
    ensures
        ({
            let d = header_trail(model, width);
            &&& (!(model.screen_history@.len() == 0)) ==> reads(
                d,
                header_crumbs_of(
                    model.screen_history@,
                    crumbs_from(model.screen_history@.len() as int, HEADER_CRUMBS as int),
                    model.screen_history@.len() as int,
                ),
            )
        }),
{
    broadcast use crate::markup::group_reads;

}

/// The rows of the header: title, rule, tabs and breadcrumbs: its parts stand in it.
pub proof fn law_header_content_parts(model: DashboardModel, width: u16)
    ensures
        ({
            let d = header_content(model, width);
            &&& reads(d, header_title(model))
            &&& reads(d, tab_strip_of(model.screen, tab_screens().len() as int))
            &&& reads(d, header_trail(model, width))
        }),
{
    broadcast use crate::markup::group_reads;

}

/// Key bindings of the overview screen: its figures stand in the order of their columns.
pub proof fn law_overview_keys_order()
    ensures
        ({
            let d = overview_keys();
            &&& before(
                d,
                Atom::KeyHint { key: "Tab"@, label: "focus"@ },
                Atom::KeyHint { key: "\u{23CE}"@, label: "open"@ },
            )
            &&& before(
                d,
                Atom::KeyHint { key: "\u{23CE}"@, label: "open"@ },
                Atom::KeyHint { key: "1-7"@, label: "screen"@ },
            )
            &&& before(
                d,
                Atom::KeyHint { key: "1-7"@, label: "screen"@ },
                Atom::KeyHint { key: "?"@, label: "help"@ },
            )
            &&& before(
                d,
                Atom::KeyHint { key: "?"@, label: "help"@ },
                Atom::KeyHint { key: ":"@, label: "cmd"@ },
            )
            &&& before(
                d,
                Atom::KeyHint { key: ":"@, label: "cmd"@ },
                Atom::KeyHint { key: "Esc"@, label: "back"@ },
            )
        }),
{
    let d = overview_keys();
    assert(before_at(
        d,
        0,
        1,
        Atom::KeyHint { key: "Tab"@, label: "focus"@ },
        Atom::KeyHint { key: "\u{23CE}"@, label: "open"@ },
    ));
    assert(before_at(
        d,
        1,
        2,
        Atom::KeyHint { key: "\u{23CE}"@, label: "open"@ },
        Atom::KeyHint { key: "1-7"@, label: "screen"@ },
    ));
    assert(before_at(
        d,
        2,
        3,
        Atom::KeyHint { key: "1-7"@, label: "screen"@ },
        Atom::KeyHint { key: "?"@, label: "help"@ },
    ));
    assert(before_at(
        d,
        3,
        4,
        Atom::KeyHint { key: "?"@, label: "help"@ },
        Atom::KeyHint { key: ":"@, label: "cmd"@ },
    ));
    assert(before_at(
        d,
        4,
        5,
        Atom::KeyHint { key: ":"@, label: "cmd"@ },
        Atom::KeyHint { key: "Esc"@, label: "back"@ },
    ));
}

/// Key bindings of the timeline screen: its figures stand in the order of their columns.
pub proof fn law_timeline_keys_order()
    ensures
        ({
            let d = timeline_keys();
            &&& before(
                d,
                Atom::KeyHint { key: "j/k"@, label: "nav"@ },
                Atom::KeyHint { key: "f"@, label: "filter"@ },
            )
            &&& before(
                d,
                Atom::KeyHint { key: "f"@, label: "filter"@ },
                Atom::KeyHint { key: "F"@, label: "follow"@ },
            )
            &&& before(
                d,
                Atom::KeyHint { key: "F"@, label: "follow"@ },
                Atom::KeyHint { key: "r"@, label: "refresh"@ },
            )
            &&& before(
                d,
                Atom::KeyHint { key: "r"@, label: "refresh"@ },
                Atom::KeyHint { key: "?"@, label: "help"@ },
            )
            &&& before(
                d,
                Atom::KeyHint { key: "?"@, label: "help"@ },
                Atom::KeyHint { key: "Esc"@, label: "back"@ },
            )
        }),
{
    let d = timeline_keys();
    assert(before_at(
        d,
        0,
        1,
        Atom::KeyHint { key: "j/k"@, label: "nav"@ },
        Atom::KeyHint { key: "f"@, label: "filter"@ },
    ));
    assert(before_at(
        d,
        1,
        2,
        Atom::KeyHint { key: "f"@, label: "filter"@ },
        Atom::KeyHint { key: "F"@, label: "follow"@ },
    ));
    assert(before_at(
        d,
        2,
        3,
        Atom::KeyHint { key: "F"@, label: "follow"@ },
        Atom::KeyHint { key: "r"@, label: "refresh"@ },
    ));
    assert(before_at(
        d,
        3,
        4,
        Atom::KeyHint { key: "r"@, label: "refresh"@ },
        Atom::KeyHint { key: "?"@, label: "help"@ },
    ));
    assert(before_at(
        d,
        4,
        5,
        Atom::KeyHint { key: "?"@, label: "help"@ },
        Atom::KeyHint { key: "Esc"@, label: "back"@ },
    ));
}

/// Key bindings of the explainability screen: its figures stand in the order of their columns.
pub proof fn law_explainability_keys_order()
    ensures
        ({
            let d = explainability_keys();
            &&& before(
                d,
                Atom::KeyHint { key: "j/k"@, label: "nav"@ },
                Atom::KeyHint { key: "\u{23CE}"@, label: "detail"@ },
            )
            &&& before(
                d,
                Atom::KeyHint { key: "\u{23CE}"@, label: "detail"@ },
                Atom::KeyHint { key: "d"@, label: "close"@ },
            )
            &&& before(
                d,
                Atom::KeyHint { key: "d"@, label: "close"@ },
                Atom::KeyHint { key: "r"@, label: "refresh"@ },
            )
            &&& before(
                d,
                Atom::KeyHint { key: "r"@, label: "refresh"@ },
                Atom::KeyHint { key: "?"@, label: "help"@ },
            )
            &&& before(
                d,
                Atom::KeyHint { key: "?"@, label: "help"@ },
                Atom::KeyHint { key: "Esc"@, label: "back"@ },
            )
        }),
{
    let d = explainability_keys();
    assert(before_at(
        d,
        0,
        1,
        Atom::KeyHint { key: "j/k"@, label: "nav"@ },
        Atom::KeyHint { key: "\u{23CE}"@, label: "detail"@ },
    ));
    assert(before_at(
        d,
        1,
        2,
        Atom::KeyHint { key: "\u{23CE}"@, label: "detail"@ },
        Atom::KeyHint { key: "d"@, label: "close"@ },
    ));
    assert(before_at(
        d,
        2,
        3,
        Atom::KeyHint { key: "d"@, label: "close"@ },
        Atom::KeyHint { key: "r"@, label: "refresh"@ },
    ));
    assert(before_at(
        d,
        3,
        4,
        Atom::KeyHint { key: "r"@, label: "refresh"@ },
        Atom::KeyHint { key: "?"@, label: "help"@ },
    ));
    assert(before_at(
        d,
        4,
        5,
        Atom::KeyHint { key: "?"@, label: "help"@ },
        Atom::KeyHint { key: "Esc"@, label: "back"@ },
    ));
}

/// Key bindings of the candidates screen: its figures stand in the order of their columns.
pub proof fn law_candidates_keys_order()
    ensures
        ({
            let d = candidates_keys();
            &&& before(
                d,
                Atom::KeyHint { key: "j/k"@, label: "nav"@ },
                Atom::KeyHint { key: "\u{23CE}"@, label: "detail"@ },
            )
            &&& before(
                d,
                Atom::KeyHint { key: "\u{23CE}"@, label: "detail"@ },
                Atom::KeyHint { key: "s"@, label: "sort"@ },
            )
            &&& before(
                d,
                Atom::KeyHint { key: "s"@, label: "sort"@ },
                Atom::KeyHint { key: "d"@, label: "close"@ },
            )
            &&& before(
                d,
                Atom::KeyHint { key: "d"@, label: "close"@ },
                Atom::KeyHint { key: "?"@, label: "help"@ },
            )
            &&& before(
                d,
                Atom::KeyHint { key: "?"@, label: "help"@ },
                Atom::KeyHint { key: "Esc"@, label: "back"@ },
            )
        }),
{
    let d = candidates_keys();
    assert(before_at(
        d,
        0,
        1,
        Atom::KeyHint { key: "j/k"@, label: "nav"@ },
        Atom::KeyHint { key: "\u{23CE}"@, label: "detail"@ },
    ));
    assert(before_at(
        d,
        1,
        2,
        Atom::KeyHint { key: "\u{23CE}"@, label: "detail"@ },
        Atom::KeyHint { key: "s"@, label: "sort"@ },
    ));
    assert(before_at(
        d,
        2,
        3,
        Atom::KeyHint { key: "s"@, label: "sort"@ },
        Atom::KeyHint { key: "d"@, label: "close"@ },
    ));
    assert(before_at(
        d,
        3,
        4,
        Atom::KeyHint { key: "d"@, label: "close"@ },
        Atom::KeyHint { key: "?"@, label: "help"@ },
    ));
    assert(before_at(
        d,
        4,
        5,
        Atom::KeyHint { key: "?"@, label: "help"@ },
        Atom::KeyHint { key: "Esc"@, label: "back"@ },
    ));
}

/// Key bindings of the ballast screen: its figures stand in the order of their columns.
pub proof fn law_ballast_keys_order()
    ensures
        ({
            let d = ballast_keys();
            &&& before(
                d,
                Atom::KeyHint { key: "j/k"@, label: "nav"@ },
                Atom::KeyHint { key: "\u{23CE}"@, label: "detail"@ },
            )
            &&& before(
                d,
                Atom::KeyHint { key: "\u{23CE}"@, label: "detail"@ },
                Atom::KeyHint { key: "d"@, label: "close"@ },
            )
            &&& before(
                d,
                Atom::KeyHint { key: "d"@, label: "close"@ },
                Atom::KeyHint { key: "r"@, label: "refresh"@ },
            )
            &&& before(
                d,
                Atom::KeyHint { key: "r"@, label: "refresh"@ },
                Atom::KeyHint { key: "?"@, label: "help"@ },
            )
            &&& before(
                d,
                Atom::KeyHint { key: "?"@, label: "help"@ },
                Atom::KeyHint { key: "Esc"@, label: "back"@ },
            )
        }),
{
    let d = ballast_keys();
    assert(before_at(
        d,
        0,
        1,
        Atom::KeyHint { key: "j/k"@, label: "nav"@ },
        Atom::KeyHint { key: "\u{23CE}"@, label: "detail"@ },
    ));
    assert(before_at(
        d,
        1,
        2,
        Atom::KeyHint { key: "\u{23CE}"@, label: "detail"@ },
        Atom::KeyHint { key: "d"@, label: "close"@ },
    ));
    assert(before_at(
        d,
        2,
        3,
        Atom::KeyHint { key: "d"@, label: "close"@ },
        Atom::KeyHint { key: "r"@, label: "refresh"@ },
    ));
    assert(before_at(
        d,
        3,
        4,
        Atom::KeyHint { key: "r"@, label: "refresh"@ },
        Atom::KeyHint { key: "?"@, label: "help"@ },
    ));
    assert(before_at(
        d,
        4,
        5,
        Atom::KeyHint { key: "?"@, label: "help"@ },
        Atom::KeyHint { key: "Esc"@, label: "back"@ },
    ));
}

/// Key bindings of the log screen: its figures stand in the order of their columns.
pub proof fn law_log_keys_order()
    ensures
        ({
            let d = log_keys();
            &&& before(
                d,
                Atom::KeyHint { key: "j/k"@, label: "nav"@ },
                Atom::KeyHint { key: "1-7"@, label: "screen"@ },
            )
            &&& before(
                d,
                Atom::KeyHint { key: "1-7"@, label: "screen"@ },
                Atom::KeyHint { key: "r"@, label: "refresh"@ },
            )
            &&& before(
                d,
                Atom::KeyHint { key: "r"@, label: "refresh"@ },
                Atom::KeyHint { key: "?"@, label: "help"@ },
            )
            &&& before(
                d,
                Atom::KeyHint { key: "?"@, label: "help"@ },
                Atom::KeyHint { key: "Esc"@, label: "back"@ },
            )
        }),
{
    let d = log_keys();
    assert(before_at(
        d,
        0,
        1,
        Atom::KeyHint { key: "j/k"@, label: "nav"@ },
        Atom::KeyHint { key: "1-7"@, label: "screen"@ },
    ));
    assert(before_at(
        d,
        1,
        2,
        Atom::KeyHint { key: "1-7"@, label: "screen"@ },
        Atom::KeyHint { key: "r"@, label: "refresh"@ },
    ));
    assert(before_at(
        d,
        2,
        3,
        Atom::KeyHint { key: "r"@, label: "refresh"@ },
        Atom::KeyHint { key: "?"@, label: "help"@ },
    ));
    assert(before_at(
        d,
        3,
        4,
        Atom::KeyHint { key: "?"@, label: "help"@ },
        Atom::KeyHint { key: "Esc"@, label: "back"@ },
    ));
}

/// Key bindings of the diagnostics screen: its figures stand in the order of their columns.
pub proof fn law_diagnostics_keys_order()
    ensures
        ({
            let d = diagnostics_keys();
            &&& before(
                d,
                Atom::KeyHint { key: "V"@, label: "verbose"@ },
                Atom::KeyHint { key: "r"@, label: "refresh"@ },
            )
            &&& before(
                d,
                Atom::KeyHint { key: "r"@, label: "refresh"@ },
                Atom::KeyHint { key: "1-7"@, label: "screen"@ },
            )
            &&& before(
                d,
                Atom::KeyHint { key: "1-7"@, label: "screen"@ },
                Atom::KeyHint { key: "?"@, label: "help"@ },
            )
            &&& before(
                d,
                Atom::KeyHint { key: "?"@, label: "help"@ },
                Atom::KeyHint { key: "Esc"@, label: "back"@ },
            )
        }),
{
    let d = diagnostics_keys();
    assert(before_at(
        d,
        0,
        1,
        Atom::KeyHint { key: "V"@, label: "verbose"@ },
        Atom::KeyHint { key: "r"@, label: "refresh"@ },
    ));
    assert(before_at(
        d,
        1,
        2,
        Atom::KeyHint { key: "r"@, label: "refresh"@ },
        Atom::KeyHint { key: "1-7"@, label: "screen"@ },
    ));
    assert(before_at(
        d,
        2,
        3,
        Atom::KeyHint { key: "1-7"@, label: "screen"@ },
        Atom::KeyHint { key: "?"@, label: "help"@ },
    ));
    assert(before_at(
        d,
        3,
        4,
        Atom::KeyHint { key: "?"@, label: "help"@ },
        Atom::KeyHint { key: "Esc"@, label: "back"@ },
    ));
}

/// Key bindings of a screen: its parts stand in it.
pub proof fn law_footer_keys_parts(screen: Screen)
    ensures
        ({
            let d = footer_keys(screen);
            &&& (screen == Screen::Overview) ==> reads(d, overview_keys())
            &&& (screen == Screen::Timeline) ==> reads(d, timeline_keys())
            &&& (screen == Screen::Explainability) ==> reads(d, explainability_keys())
            &&& (screen == Screen::Candidates) ==> reads(d, candidates_keys())
            &&& (screen == Screen::Ballast) ==> reads(d, ballast_keys())
            &&& (screen == Screen::LogSearch) ==> reads(d, log_keys())
            &&& (screen == Screen::Diagnostics) ==> reads(d, diagnostics_keys())
        }),
{
    broadcast use crate::markup::group_reads;

}

/// What the footer says of the overview screen: each label is followed by the figure that it names.
pub proof fn law_overview_summary_figures(model: DashboardModel)
    ensures
        ({
            let d = overview_summary(model);
            &&& model.daemon_state is Some ==> labels(
                d,
                " mounts "@,
                Atom::Badge(uppered(model.daemon_state->0.pressure.overall@)),
            )
        }),
{
    broadcast use crate::markup::group_labels;

}

/// What the footer says of the overview screen: its figures stand in the order of their columns.
pub proof fn law_overview_summary_order(model: DashboardModel)
    ensures
        ({
            let d = overview_summary(model);
            &&& model.daemon_state is Some ==> before(
                d,
                Atom::Text(dec(model.daemon_state->0.pressure.mounts@.len() as nat)),
                Atom::Badge(uppered(model.daemon_state->0.pressure.overall@)),
            )
        }),
{
    let d = overview_summary(model);
    if model.daemon_state is Some {
        assert(before_at(
            d,
            0,
            2,
            Atom::Text(dec(model.daemon_state->0.pressure.mounts@.len() as nat)),
            Atom::Badge(uppered(model.daemon_state->0.pressure.overall@)),
        ));
    }
}

/// What the footer says of the timeline screen: each label is followed by the figure that it names.
pub proof fn law_timeline_summary_figures(model: DashboardModel)
    ensures
        ({
            let d = timeline_summary(model);
            &&& labels(d, "/"@, Atom::Text(dec(model.timeline_events@.len() as nat)))
            &&& labels(d, " events "@, Atom::Badge(uppered(filter_label(model.timeline_filter))))
        }),
{
    broadcast use crate::markup::group_labels;

}

/// What the footer says of the timeline screen: its figures stand in the order of their columns.
pub proof fn law_timeline_summary_order(model: DashboardModel)
    ensures
        ({
            let d = timeline_summary(model);
            &&& before(
                d,
                Atom::Text(dec(model.shown_events().len() as nat)),
                Atom::Text(dec(model.timeline_events@.len() as nat)),
            )
        }),
{
    let d = timeline_summary(model);
    assert(before_at(
        d,
        0,
        2,
        Atom::Text(dec(model.shown_events().len() as nat)),
        Atom::Text(dec(model.timeline_events@.len() as nat)),
    ));
}

/// What the footer says of the explainability screen: each label is followed by the
/// figure that it names.
pub proof fn law_explainability_summary_figures(model: DashboardModel)
    ensures
        ({
            let d = explainability_summary(model);
            &&& labels(d, " decisions "@, Atom::Badge(uppered(source_label(model.timeline_source))))
        }),
{
    broadcast use crate::markup::group_labels;

}

/// What the footer says of the explainability screen: its figures stand in the order of
/// their columns.
pub proof fn law_explainability_summary_order(model: DashboardModel)
    ensures
        ({
            let d = explainability_summary(model);
            &&& before(
                d,
                Atom::Text(dec(model.explainability_decisions@.len() as nat)),
                Atom::Badge(uppered(source_label(model.timeline_source))),
            )
        }),
{
    let d = explainability_summary(model);
    assert(before_at(
        d,
        0,
        2,
        Atom::Text(dec(model.explainability_decisions@.len() as nat)),
        Atom::Badge(uppered(source_label(model.timeline_source))),
    ));
}

/// What the footer says of the candidates screen: each label is followed by the figure
/// that it names.
pub proof fn law_candidates_summary_figures(model: DashboardModel)
    ensures
        ({
            let d = candidates_summary(model);
            &&& labels(d, " candidates "@, Atom::Badge(uppered(model.candidates_sort@)))
        }),
{
    broadcast use crate::markup::group_labels;

}

/// What the footer says of the candidates screen: its figures stand in the order of their columns.
pub proof fn law_candidates_summary_order(model: DashboardModel)
    ensures
        ({
            let d = candidates_summary(model);
            &&& before(
                d,
                Atom::Text(dec(model.candidates_list@.len() as nat)),
                Atom::Badge(uppered(model.candidates_sort@)),
            )
        }),
{
    let d = candidates_summary(model);
    assert(before_at(
        d,
        0,
        2,
        Atom::Text(dec(model.candidates_list@.len() as nat)),
        Atom::Badge(uppered(model.candidates_sort@)),
    ));
}

/// What the footer says of the diagnostics screen: each label is followed by the figure
/// that it names.
pub proof fn law_diagnostics_summary_figures(model: DashboardModel)
    ensures
        ({
            let d = diagnostics_summary(model);
            &&& labels(d, "tick "@, Atom::Text(dec(model.tick as nat)))
        }),
{
    broadcast use crate::markup::group_labels;

}

/// What the footer says of the diagnostics screen: its figures stand in the order of their columns.
pub proof fn law_diagnostics_summary_order(model: DashboardModel)
    ensures
        ({
            let d = diagnostics_summary(model);
            &&& before(
                d,
                Atom::Text(dec(model.tick as nat)),
                Atom::Badge(mode_word_of(model.degraded)),
            )
        }),
{
    let d = diagnostics_summary(model);
    assert(before_at(
        d,
        1,
        3,
        Atom::Text(dec(model.tick as nat)),
        Atom::Badge(mode_word_of(model.degraded)),
    ));
}

/// What the footer says of the active screen: its parts stand in it.
pub proof fn law_footer_summary_parts(model: DashboardModel)
    ensures
        ({
            let d = footer_summary(model);
            &&& (model.screen == Screen::Overview) ==> reads(d, overview_summary(model))
            &&& (model.screen == Screen::Timeline) ==> reads(d, timeline_summary(model))
            &&& (model.screen == Screen::Explainability) ==> reads(d, explainability_summary(model))
            &&& (model.screen == Screen::Candidates) ==> reads(d, candidates_summary(model))
            &&& (model.screen == Screen::Ballast) ==> reads(d, ballast_summary(model))
            &&& (model.screen == Screen::LogSearch) ==> reads(d, log_summary(model))
            &&& (model.screen == Screen::Diagnostics) ==> reads(d, diagnostics_summary(model))
        }),
{
    broadcast use crate::markup::group_reads;

}

/// The right side of the footer: the summary and the place of the screen: its parts stand in it.
pub proof fn law_footer_status_parts(model: DashboardModel)
    ensures
        ({
            let d = footer_status(model);
            &&& reads(d, footer_summary(model))
        }),
{
    broadcast use crate::markup::group_reads;

}

/// One toast of the frame: each label is followed by the figure that it names.
pub proof fn law_frame_toast_figures(toast: Notification)
    ensures
        ({
            let d = frame_toast(toast);
            &&& labels(d, "\u{2502}"@, Atom::Text(spaced_of(notification_word_of(toast.level))))
        }),
{
    broadcast use crate::markup::group_labels;

}

/// One toast of the frame: its figures stand in the order of their columns.
pub proof fn law_frame_toast_order(toast: Notification)
    ensures
        ({
            let d = frame_toast(toast);
            &&& before(
                d,
                Atom::Text(spaced_of(notification_word_of(toast.level))),
                Atom::Text(toast.message@),
            )
        }),
{
    let d = frame_toast(toast);
    assert(before_at(
        d,
        1,
        3,
        Atom::Text(spaced_of(notification_word_of(toast.level))),
        Atom::Text(toast.message@),
    ));
}

/// Toasts of the frame: one row follows another, and each shows its own item.
pub proof fn law_frame_toasts_row_by_row(
    notifications: Seq<Notification>,
    from: int,
    mid: int,
    to: int,
)
    requires
        from <= mid <= to,
    ensures
        frame_toasts_of(notifications, from, to)
            == frame_toasts_of(notifications, from, mid) + frame_toasts_of(notifications, mid, to),
        frame_toasts_of(notifications, mid, mid + 1) == frame_toast(notifications[mid]),
    decreases to - mid,
{
    assert(frame_toasts_of(notifications, mid, mid) =~= seq![]);
    assert(frame_toasts_of(notifications, mid, mid + 1) =~= frame_toast(notifications[mid]));
    if mid < to {
        law_frame_toasts_row_by_row(notifications, from, mid, to - 1);
        assert(frame_toasts_of(notifications, from, to)
            =~= frame_toasts_of(notifications, from, mid) + frame_toasts_of(notifications, mid, to));
    } else {
        assert(frame_toasts_of(notifications, from, to)
            =~= frame_toasts_of(notifications, from, mid) + frame_toasts_of(notifications, mid, to));
    }
}

/// One styled entry of the palette: each label is followed by the figure that it names.
pub proof fn law_palette_entry_figures(action: PaletteAction, selected: bool)
    ensures
        ({
            let d = palette_entry(action, selected);
            &&& selected ==> labels(d, " \u{25B8} "@, Atom::Text(padded_right(action.id@, 12)))
        }),
{
    broadcast use crate::markup::group_labels;

}

/// One styled entry of the palette: its figures stand in the order of their columns.
pub proof fn law_palette_entry_order(action: PaletteAction, selected: bool)
    ensures
        ({
            let d = palette_entry(action, selected);
            &&& before(d, Atom::Text(padded_right(action.id@, 12)), Atom::Text(action.title@))
        }),
{
    let d = palette_entry(action, selected);
    if selected {
        assert(before_at(
            d,
            1,
            2,
            Atom::Text(padded_right(action.id@, 12)),
            Atom::Text(action.title@),
        ));
    }
    if !(selected) {
        assert(before_at(
            d,
            1,
            2,
            Atom::Text(padded_right(action.id@, 12)),
            Atom::Text(action.title@),
        ));
    }
}

/// Styled entries of the palette: one row follows another, and each shows its own item.
pub proof fn law_palette_entries_row_by_row(
    found: Seq<PaletteAction>,
    selected: int,
    from: int,
    mid: int,
    to: int,
)
    requires
        from <= mid <= to,
    ensures
        palette_entries_of(found, selected, from, to)
            == palette_entries_of(found, selected, from, mid) + palette_entries_of(found, selected, mid, to),
        palette_entries_of(found, selected, mid, mid + 1)
            == palette_entry(found[mid], mid == selected),
    decreases to - mid,
{
    assert(palette_entries_of(found, selected, mid, mid) =~= seq![]);
    assert(palette_entries_of(found, selected, mid, mid + 1)
        =~= palette_entry(found[mid], mid == selected));
    if mid < to {
        law_palette_entries_row_by_row(found, selected, from, mid, to - 1);
        assert(palette_entries_of(found, selected, from, to)
            =~= palette_entries_of(found, selected, from, mid) + palette_entries_of(found, selected, mid, to));
    } else {
        assert(palette_entries_of(found, selected, from, to)
            =~= palette_entries_of(found, selected, from, mid) + palette_entries_of(found, selected, mid, to));
    }
}

/// Command palette: query, counts and the entries found: each label is followed by the
/// figure that it names.
pub proof fn law_palette_overlay_figures(model: DashboardModel, width: u16)
    ensures
        ({
            let d = palette_overlay(model, width);
            &&& labels(
                d,
                "/"@,
                Atom::Text(dec((search_result(model.palette_query@, PALETTE_SEARCH_LIMIT as nat)).len() as nat)),
            )
        }),
{
    broadcast use crate::markup::group_labels;

}

/// Command palette: query, counts and the entries found: its figures stand in the order
/// of their columns.
pub proof fn law_palette_overlay_order(model: DashboardModel, width: u16)
    ensures
        ({
            let d = palette_overlay(model, width);
            &&& before(
                d,
                Atom::Text(model.palette_query@),
                Atom::Text(dec((palette_shown_of((search_result(model.palette_query@, PALETTE_SEARCH_LIMIT as nat)))) as nat)),
            )
            &&& before(
                d,
                Atom::Text(dec((palette_shown_of((search_result(model.palette_query@, PALETTE_SEARCH_LIMIT as nat)))) as nat)),
                Atom::Text(dec((search_result(model.palette_query@, PALETTE_SEARCH_LIMIT as nat)).len() as nat)),
            )
            &&& before(
                d,
                Atom::Text(dec((search_result(model.palette_query@, PALETTE_SEARCH_LIMIT as nat)).len() as nat)),
                Atom::Rule(least(width as int, 60) as usize),
            )
        }),
{
    let d = palette_overlay(model, width);
    assert(before_at(
        d,
        2,
        5,
        Atom::Text(model.palette_query@),
        Atom::Text(dec((palette_shown_of((search_result(model.palette_query@, PALETTE_SEARCH_LIMIT as nat)))) as nat)),
    ));
    assert(before_at(
        d,
        5,
        7,
        Atom::Text(dec((palette_shown_of((search_result(model.palette_query@, PALETTE_SEARCH_LIMIT as nat)))) as nat)),
        Atom::Text(dec((search_result(model.palette_query@, PALETTE_SEARCH_LIMIT as nat)).len() as nat)),
    ));
    assert(before_at(
        d,
        7,
        10,
        Atom::Text(dec((search_result(model.palette_query@, PALETTE_SEARCH_LIMIT as nat)).len() as nat)),
        Atom::Rule(least(width as int, 60) as usize),
    ));
}

/// Command palette: query, counts and the entries found: its parts stand in it.
pub proof fn law_palette_overlay_parts(model: DashboardModel, width: u16)
    ensures
        ({
            let d = palette_overlay(model, width);
            &&& reads(
                d,
                palette_entries_of(
                    (search_result(model.palette_query@, PALETTE_SEARCH_LIMIT as nat)),
                    model.palette_selected as int,
                    0,
                    palette_shown_of(
                        (search_result(model.palette_query@, PALETTE_SEARCH_LIMIT as nat)),
                    ),
                ),
            )
        }),
{
    broadcast use crate::markup::group_reads;

}

/// Help: the key bindings by category: its figures stand in the order of their columns.
pub proof fn law_help_overlay_order()
    ensures
        ({
            let d = help_overlay();
            &&& before(
                d,
                Atom::KeyHint { key: "?"@, label: "toggle help"@ },
                Atom::KeyHint { key: ":"@, label: "command palette"@ },
            )
            &&& before(
                d,
                Atom::KeyHint { key: ":"@, label: "command palette"@ },
                Atom::KeyHint { key: "1-7"@, label: "jump to screen"@ },
            )
            &&& before(
                d,
                Atom::KeyHint { key: "1-7"@, label: "jump to screen"@ },
                Atom::KeyHint { key: "[/]"@, label: "prev/next screen"@ },
            )
            &&& before(
                d,
                Atom::KeyHint { key: "[/]"@, label: "prev/next screen"@ },
                Atom::KeyHint { key: "Tab"@, label: "next overview pane"@ },
            )
            &&& before(
                d,
                Atom::KeyHint { key: "Tab"@, label: "next overview pane"@ },
                Atom::KeyHint { key: "S-Tab"@, label: "prev overview pane"@ },
            )
            &&& before(
                d,
                Atom::KeyHint { key: "S-Tab"@, label: "prev overview pane"@ },
                Atom::KeyHint { key: "\u{23CE}"@, label: "open focused pane"@ },
            )
            &&& before(
                d,
                Atom::KeyHint { key: "\u{23CE}"@, label: "open focused pane"@ },
                Atom::KeyHint { key: "j/k"@, label: "navigate list items"@ },
            )
            &&& before(
                d,
                Atom::KeyHint { key: "j/k"@, label: "navigate list items"@ },
                Atom::KeyHint { key: "Esc"@, label: "close \u{2192} back \u{2192} quit"@ },
            )
            &&& before(
                d,
                Atom::KeyHint { key: "Esc"@, label: "close \u{2192} back \u{2192} quit"@ },
                Atom::KeyHint { key: "click"@, label: "close overlay"@ },
            )
            &&& before(
                d,
                Atom::KeyHint { key: "click"@, label: "close overlay"@ },
                Atom::KeyHint { key: "r"@, label: "refresh data"@ },
            )
            &&& before(
                d,
                Atom::KeyHint { key: "r"@, label: "refresh data"@ },
                Atom::KeyHint { key: "q"@, label: "quit dashboard"@ },
            )
        }),
{
    let d = help_overlay();
    assert(before_at(
        d,
        3,
        6,
        Atom::KeyHint { key: "?"@, label: "toggle help"@ },
        Atom::KeyHint { key: ":"@, label: "command palette"@ },
    ));
    assert(before_at(
        d,
        6,
        9,
        Atom::KeyHint { key: ":"@, label: "command palette"@ },
        Atom::KeyHint { key: "1-7"@, label: "jump to screen"@ },
    ));
    assert(before_at(
        d,
        9,
        12,
        Atom::KeyHint { key: "1-7"@, label: "jump to screen"@ },
        Atom::KeyHint { key: "[/]"@, label: "prev/next screen"@ },
    ));
    assert(before_at(
        d,
        12,
        18,
        Atom::KeyHint { key: "[/]"@, label: "prev/next screen"@ },
        Atom::KeyHint { key: "Tab"@, label: "next overview pane"@ },
    ));
    assert(before_at(
        d,
        18,
        21,
        Atom::KeyHint { key: "Tab"@, label: "next overview pane"@ },
        Atom::KeyHint { key: "S-Tab"@, label: "prev overview pane"@ },
    ));
    assert(before_at(
        d,
        21,
        24,
        Atom::KeyHint { key: "S-Tab"@, label: "prev overview pane"@ },
        Atom::KeyHint { key: "\u{23CE}"@, label: "open focused pane"@ },
    ));
    assert(before_at(
        d,
        24,
        27,
        Atom::KeyHint { key: "\u{23CE}"@, label: "open focused pane"@ },
        Atom::KeyHint { key: "j/k"@, label: "navigate list items"@ },
    ));
    assert(before_at(
        d,
        27,
        33,
        Atom::KeyHint { key: "j/k"@, label: "navigate list items"@ },
        Atom::KeyHint { key: "Esc"@, label: "close \u{2192} back \u{2192} quit"@ },
    ));
    assert(before_at(
        d,
        33,
        36,
        Atom::KeyHint { key: "Esc"@, label: "close \u{2192} back \u{2192} quit"@ },
        Atom::KeyHint { key: "click"@, label: "close overlay"@ },
    ));
    assert(before_at(
        d,
        36,
        42,
        Atom::KeyHint { key: "click"@, label: "close overlay"@ },
        Atom::KeyHint { key: "r"@, label: "refresh data"@ },
    ));
    assert(before_at(
        d,
        42,
        45,
        Atom::KeyHint { key: "r"@, label: "refresh data"@ },
        Atom::KeyHint { key: "q"@, label: "quit dashboard"@ },
    ));
}

/// The scan scheduler and its budget: each label is followed by the figure that it names.
pub proof fn law_voi_overlay_figures()
    ensures
        ({
            let d = voi_overlay();
            &&& labels(d, "  paths/cycle  "@, Atom::Badge("5"@))
            &&& labels(d, "  split        "@, Atom::Badge("80%"@))
            &&& labels(d, " exploit  "@, Atom::Badge("20%"@))
        }),
{
    broadcast use crate::markup::group_labels;

}

/// A confirmation: what is asked for and the keys that answer: its figures stand in the
/// order of their columns.
pub proof fn law_confirm_overlay_order(action: ConfirmAction, width: u16)
    ensures
        ({
            let d = confirm_overlay(action, width);
            &&& before(
                d,
                Atom::Text(confirm_text_of(action)),
                Atom::Rule(least(width as int, 40) as usize),
            )
            &&& before(
                d,
                Atom::Rule(least(width as int, 40) as usize),
                Atom::KeyHint { key: "Enter"@, label: "Confirm"@ },
            )
            &&& before(
                d,
                Atom::KeyHint { key: "Enter"@, label: "Confirm"@ },
                Atom::KeyHint { key: "Esc"@, label: "Cancel"@ },
            )
        }),
{
    let d = confirm_overlay(action, width);
    assert(before_at(
        d,
        4,
        10,
        Atom::Text(confirm_text_of(action)),
        Atom::Rule(least(width as int, 40) as usize),
    ));
    assert(before_at(
        d,
        10,
        13,
        Atom::Rule(least(width as int, 40) as usize),
        Atom::KeyHint { key: "Enter"@, label: "Confirm"@ },
    ));
    assert(before_at(
        d,
        13,
        15,
        Atom::KeyHint { key: "Enter"@, label: "Confirm"@ },
        Atom::KeyHint { key: "Esc"@, label: "Cancel"@ },
    ));
}

/// One step of the playbook: each label is followed by the figure that it names.
pub proof fn law_playbook_step_figures(
    entry: PlaybookEntry,
    number: nat,
    selected: bool,
    severity: IncidentSeverity,
)
    ensures
        ({
            let d = playbook_step(entry, number, selected, severity);
            &&& selected ==> labels(d, "\u{25B8} "@, Atom::Text(dec(number)))
            &&& labels(d, ". "@, Atom::Text(entry.label@))
        }),
{
    broadcast use crate::markup::group_labels;

}

/// One step of the playbook: its figures stand in the order of their columns.
pub proof fn law_playbook_step_order(
    entry: PlaybookEntry,
    number: nat,
    selected: bool,
    severity: IncidentSeverity,
)
    ensures
        ({
            let d = playbook_step(entry, number, selected, severity);
            &&& before(d, Atom::Text(entry.label@), Atom::Badge(tab_label_of(entry.target)))
            &&& before(d, Atom::Badge(tab_label_of(entry.target)), Atom::Text(entry.description@))
            &&& !(selected) ==> before(d, Atom::Text(dec(number)), Atom::Text(entry.label@))
        }),
{
    let d = playbook_step(entry, number, selected, severity);
    if selected {
        assert(before_at(
            d,
            3,
            5,
            Atom::Text(entry.label@),
            Atom::Badge(tab_label_of(entry.target)),
        ));
        assert(before_at(
            d,
            5,
            8,
            Atom::Badge(tab_label_of(entry.target)),
            Atom::Text(entry.description@),
        ));
    }
    if !(selected) {
        assert(before_at(d, 1, 3, Atom::Text(dec(number)), Atom::Text(entry.label@)));
        assert(before_at(
            d,
            3,
            5,
            Atom::Text(entry.label@),
            Atom::Badge(tab_label_of(entry.target)),
        ));
        assert(before_at(
            d,
            5,
            8,
            Atom::Badge(tab_label_of(entry.target)),
            Atom::Text(entry.description@),
        ));
    }
}

/// Steps of the playbook: one row follows another, and each shows its own item.
pub proof fn law_playbook_steps_row_by_row(
    entries: Seq<PlaybookEntry>,
    selected: int,
    severity: IncidentSeverity,
    from: int,
    mid: int,
    to: int,
)
    requires
        from <= mid <= to,
    ensures
        playbook_steps_of(entries, selected, severity, from, to)
            == playbook_steps_of(entries, selected, severity, from, mid) + playbook_steps_of(entries, selected, severity, mid, to),
        playbook_steps_of(entries, selected, severity, mid, mid + 1)
            == playbook_step(entries[mid], (mid + 1) as nat, mid == selected, severity),
    decreases to - mid,
{
    assert(playbook_steps_of(entries, selected, severity, mid, mid) =~= seq![]);
    assert(playbook_steps_of(entries, selected, severity, mid, mid + 1)
        =~= playbook_step(entries[mid], (mid + 1) as nat, mid == selected, severity));
    if mid < to {
        law_playbook_steps_row_by_row(entries, selected, severity, from, mid, to - 1);
        assert(playbook_steps_of(entries, selected, severity, from, to)
            =~= playbook_steps_of(entries, selected, severity, from, mid) + playbook_steps_of(entries, selected, severity, mid, to));
    } else {
        assert(playbook_steps_of(entries, selected, severity, from, to)
            =~= playbook_steps_of(entries, selected, severity, from, mid) + playbook_steps_of(entries, selected, severity, mid, to));
    }
}

/// Incident playbook: the severity and its triage steps: each label is followed by the
/// figure that it names.
pub proof fn law_playbook_overlay_figures(model: DashboardModel, width: u16)
    ensures
        ({
            let d = playbook_overlay(model, width);
            &&& labels(
                d,
                "severity "@,
                Atom::Badge(severity_label((state_severity(model.daemon_state)))),
            )
        }),
{
    broadcast use crate::markup::group_labels;

}

/// Incident playbook: the severity and its triage steps: its figures stand in the order
/// of their columns.
pub proof fn law_playbook_overlay_order(model: DashboardModel, width: u16)
    ensures
        ({
            let d = playbook_overlay(model, width);
            &&& before(
                d,
                Atom::Badge(severity_label((state_severity(model.daemon_state)))),
                Atom::Text(dec((relevant_steps((state_severity(model.daemon_state)))).len() as nat)),
            )
            &&& before(
                d,
                Atom::Text(dec((relevant_steps((state_severity(model.daemon_state)))).len() as nat)),
                Atom::Rule(least(width as int, 50) as usize),
            )
        }),
{
    let d = playbook_overlay(model, width);
    assert(before_at(
        d,
        1,
        3,
        Atom::Badge(severity_label((state_severity(model.daemon_state)))),
        Atom::Text(dec((relevant_steps((state_severity(model.daemon_state)))).len() as nat)),
    ));
    assert(before_at(
        d,
        3,
        6,
        Atom::Text(dec((relevant_steps((state_severity(model.daemon_state)))).len() as nat)),
        Atom::Rule(least(width as int, 50) as usize),
    ));
}

/// Incident playbook: the severity and its triage steps: its parts stand in it.
pub proof fn law_playbook_overlay_parts(model: DashboardModel, width: u16)
    ensures
        ({
            let d = playbook_overlay(model, width);
            &&& reads(
                d,
                playbook_steps_of(
                    (relevant_steps((state_severity(model.daemon_state)))),
                    model.incident_playbook_selected as int,
                    (state_severity(model.daemon_state)),
                    0,
                    (relevant_steps((state_severity(model.daemon_state)))).len() as int,
                ),
            )
        }),
{
    broadcast use crate::markup::group_reads;

}

/// Content of an overlay whose inner area has a width: its parts stand in it.
pub proof fn law_overlay_content_parts(model: DashboardModel, overlay: Overlay, width: u16)
    ensures
        ({
            let d = overlay_content(model, overlay, width);
            &&& (overlay == Overlay::CommandPalette) ==> reads(d, palette_overlay(model, width))
            &&& (overlay == Overlay::Help) ==> reads(d, help_overlay())
            &&& (overlay == Overlay::Voi) ==> reads(d, voi_overlay())
            &&& (overlay == Overlay::IncidentPlaybook) ==> reads(d, playbook_overlay(model, width))
        }),
{
    broadcast use crate::markup::group_reads;

}

/// That the terminal is too small, and what to do: each label is followed by the figure
/// that it names.
pub proof fn law_small_message_figures(model: DashboardModel)
    ensures
        ({
            let d = small_message(model);
            &&& labels(d, "Need >= "@, Atom::Text(dec(MIN_USABLE_COLS as nat)))
            &&& labels(d, "x"@, Atom::Text(dec(MIN_USABLE_ROWS as nat)))
            &&& labels(d, ", got "@, Atom::Text(dec(model.terminal_size.0 as nat)))
            &&& labels(d, "x"@, Atom::Text(dec(model.terminal_size.1 as nat)))
        }),
{
    broadcast use crate::markup::group_labels;

}

/// Status strip of the timeline screen: its figures stand in the order of their columns.
pub proof fn law_timeline_strip_order()
    ensures
        ({
            let d = timeline_strip();
            &&& before(
                d,
                Atom::KeyHint { key: "j/k"@, label: "scroll"@ },
                Atom::KeyHint { key: "f"@, label: "filter"@ },
            )
            &&& before(
                d,
                Atom::KeyHint { key: "f"@, label: "filter"@ },
                Atom::KeyHint { key: "F"@, label: "follow"@ },
            )
            &&& before(
                d,
                Atom::KeyHint { key: "F"@, label: "follow"@ },
                Atom::KeyHint { key: "r"@, label: "refresh"@ },
            )
            &&& before(
                d,
                Atom::KeyHint { key: "r"@, label: "refresh"@ },
                Atom::KeyHint { key: "Esc"@, label: "back"@ },
            )
        }),
{
    let d = timeline_strip();
    assert(before_at(
        d,
        0,
        1,
        Atom::KeyHint { key: "j/k"@, label: "scroll"@ },
        Atom::KeyHint { key: "f"@, label: "filter"@ },
    ));
    assert(before_at(
        d,
        1,
        2,
        Atom::KeyHint { key: "f"@, label: "filter"@ },
        Atom::KeyHint { key: "F"@, label: "follow"@ },
    ));
    assert(before_at(
        d,
        2,
        3,
        Atom::KeyHint { key: "F"@, label: "follow"@ },
        Atom::KeyHint { key: "r"@, label: "refresh"@ },
    ));
    assert(before_at(
        d,
        3,
        4,
        Atom::KeyHint { key: "r"@, label: "refresh"@ },
        Atom::KeyHint { key: "Esc"@, label: "back"@ },
    ));
}

/// Status strip of the explainability screen: its figures stand in the order of their columns.
pub proof fn law_explainability_strip_order()
    ensures
        ({
            let d = explainability_strip();
            &&& before(
                d,
                Atom::KeyHint { key: "j/k"@, label: "scroll"@ },
                Atom::KeyHint { key: "\u{23CE}"@, label: "detail"@ },
            )
            &&& before(
                d,
                Atom::KeyHint { key: "\u{23CE}"@, label: "detail"@ },
                Atom::KeyHint { key: "d"@, label: "close"@ },
            )
            &&& before(
                d,
                Atom::KeyHint { key: "d"@, label: "close"@ },
                Atom::KeyHint { key: "r"@, label: "refresh"@ },
            )
            &&& before(
                d,
                Atom::KeyHint { key: "r"@, label: "refresh"@ },
                Atom::KeyHint { key: "Esc"@, label: "back"@ },
            )
        }),
{
    let d = explainability_strip();
    assert(before_at(
        d,
        0,
        1,
        Atom::KeyHint { key: "j/k"@, label: "scroll"@ },
        Atom::KeyHint { key: "\u{23CE}"@, label: "detail"@ },
    ));
    assert(before_at(
        d,
        1,
        2,
        Atom::KeyHint { key: "\u{23CE}"@, label: "detail"@ },
        Atom::KeyHint { key: "d"@, label: "close"@ },
    ));
    assert(before_at(
        d,
        2,
        3,
        Atom::KeyHint { key: "d"@, label: "close"@ },
        Atom::KeyHint { key: "r"@, label: "refresh"@ },
    ));
    assert(before_at(
        d,
        3,
        4,
        Atom::KeyHint { key: "r"@, label: "refresh"@ },
        Atom::KeyHint { key: "Esc"@, label: "back"@ },
    ));
}

/// Status strip of the candidates screen: its figures stand in the order of their columns.
pub proof fn law_candidates_strip_order()
    ensures
        ({
            let d = candidates_strip();
            &&& before(
                d,
                Atom::KeyHint { key: "j/k"@, label: "scroll"@ },
                Atom::KeyHint { key: "\u{23CE}"@, label: "detail"@ },
            )
            &&& before(
                d,
                Atom::KeyHint { key: "\u{23CE}"@, label: "detail"@ },
                Atom::KeyHint { key: "s"@, label: "sort"@ },
            )
            &&& before(
                d,
                Atom::KeyHint { key: "s"@, label: "sort"@ },
                Atom::KeyHint { key: "d"@, label: "close"@ },
            )
            &&& before(
                d,
                Atom::KeyHint { key: "d"@, label: "close"@ },
                Atom::KeyHint { key: "Esc"@, label: "back"@ },
            )
        }),
{
    let d = candidates_strip();
    assert(before_at(
        d,
        0,
        1,
        Atom::KeyHint { key: "j/k"@, label: "scroll"@ },
        Atom::KeyHint { key: "\u{23CE}"@, label: "detail"@ },
    ));
    assert(before_at(
        d,
        1,
        2,
        Atom::KeyHint { key: "\u{23CE}"@, label: "detail"@ },
        Atom::KeyHint { key: "s"@, label: "sort"@ },
    ));
    assert(before_at(
        d,
        2,
        3,
        Atom::KeyHint { key: "s"@, label: "sort"@ },
        Atom::KeyHint { key: "d"@, label: "close"@ },
    ));
    assert(before_at(
        d,
        3,
        4,
        Atom::KeyHint { key: "d"@, label: "close"@ },
        Atom::KeyHint { key: "Esc"@, label: "back"@ },
    ));
}

/// Status strip of the ballast screen: its figures stand in the order of their columns.
pub proof fn law_ballast_strip_order()
    ensures
        ({
            let d = ballast_strip();
            &&& before(
                d,
                Atom::KeyHint { key: "j/k"@, label: "scroll"@ },
                Atom::KeyHint { key: "\u{23CE}"@, label: "detail"@ },
            )
            &&& before(
                d,
                Atom::KeyHint { key: "\u{23CE}"@, label: "detail"@ },
                Atom::KeyHint { key: "d"@, label: "close"@ },
            )
            &&& before(
                d,
                Atom::KeyHint { key: "d"@, label: "close"@ },
                Atom::KeyHint { key: "r"@, label: "refresh"@ },
            )
            &&& before(
                d,
                Atom::KeyHint { key: "r"@, label: "refresh"@ },
                Atom::KeyHint { key: "Esc"@, label: "back"@ },
            )
        }),
{
    let d = ballast_strip();
    assert(before_at(
        d,
        0,
        1,
        Atom::KeyHint { key: "j/k"@, label: "scroll"@ },
        Atom::KeyHint { key: "\u{23CE}"@, label: "detail"@ },
    ));
    assert(before_at(
        d,
        1,
        2,
        Atom::KeyHint { key: "\u{23CE}"@, label: "detail"@ },
        Atom::KeyHint { key: "d"@, label: "close"@ },
    ));
    assert(before_at(
        d,
        2,
        3,
        Atom::KeyHint { key: "d"@, label: "close"@ },
        Atom::KeyHint { key: "r"@, label: "refresh"@ },
    ));
    assert(before_at(
        d,
        3,
        4,
        Atom::KeyHint { key: "r"@, label: "refresh"@ },
        Atom::KeyHint { key: "Esc"@, label: "back"@ },
    ));
}

/// Status strip of the log screen: its figures stand in the order of their columns.
pub proof fn law_log_strip_order()
    ensures
        ({
            let d = log_strip();
            &&& before(
                d,
                Atom::KeyHint { key: "j/k"@, label: "scroll"@ },
                Atom::KeyHint { key: "r"@, label: "refresh"@ },
            )
            &&& before(
                d,
                Atom::KeyHint { key: "r"@, label: "refresh"@ },
                Atom::KeyHint { key: "Esc"@, label: "back"@ },
            )
        }),
{
    let d = log_strip();
    assert(before_at(
        d,
        0,
        1,
        Atom::KeyHint { key: "j/k"@, label: "scroll"@ },
        Atom::KeyHint { key: "r"@, label: "refresh"@ },
    ));
    assert(before_at(
        d,
        1,
        2,
        Atom::KeyHint { key: "r"@, label: "refresh"@ },
        Atom::KeyHint { key: "Esc"@, label: "back"@ },
    ));
}

/// Status strip of the diagnostics screen: its figures stand in the order of their columns.
pub proof fn law_diagnostics_strip_order()
    ensures
        ({
            let d = diagnostics_strip();
            &&& before(
                d,
                Atom::KeyHint { key: "V"@, label: "verbose"@ },
                Atom::KeyHint { key: "r"@, label: "refresh"@ },
            )
            &&& before(
                d,
                Atom::KeyHint { key: "r"@, label: "refresh"@ },
                Atom::KeyHint { key: "Esc"@, label: "back"@ },
            )
        }),
{
    let d = diagnostics_strip();
    assert(before_at(
        d,
        0,
        1,
        Atom::KeyHint { key: "V"@, label: "verbose"@ },
        Atom::KeyHint { key: "r"@, label: "refresh"@ },
    ));
    assert(before_at(
        d,
        1,
        2,
        Atom::KeyHint { key: "r"@, label: "refresh"@ },
        Atom::KeyHint { key: "Esc"@, label: "back"@ },
    ));
}

/// Title row: the data mode and the policy mode: each case shows what belongs to it and no more.
pub proof fn law_header_title_shows_no_more(model: DashboardModel)
    ensures
        ({
            let d = header_title(model);
            &&& model.daemon_state is Some && (model.daemon_state->0.policy_mode@.len() > 0) ==> d.len()
                == 5
            &&& model.daemon_state is Some && (!(model.daemon_state->0.policy_mode@.len() > 0)) ==> d.len()
                == 3
            &&& model.daemon_state is None ==> d.len() == 3
        }),
{
}

/// Breadcrumb row; a rule while there is no history: each case shows what belongs to it
/// and no more.
pub proof fn law_header_trail_shows_no_more(model: DashboardModel, width: u16)
    ensures
        ({
            let d = header_trail(model, width);
            &&& (model.screen_history@.len() == 0) ==> d.len() == 2
            &&& (!(model.screen_history@.len()
                == 0)) ==> d.len() == 3 + header_crumbs_of(model.screen_history@, crumbs_from(model.screen_history@.len() as int, HEADER_CRUMBS as int), model.screen_history@.len() as int).len()
        }),
{
}

/// Key bindings of a screen: each case shows what belongs to it and no more.
pub proof fn law_footer_keys_shows_no_more(screen: Screen)
    ensures
        ({
            let d = footer_keys(screen);
            &&& (screen == Screen::Overview) ==> d.len() == overview_keys().len()
            &&& (screen == Screen::Timeline) ==> d.len() == timeline_keys().len()
            &&& (screen == Screen::Explainability) ==> d.len() == explainability_keys().len()
            &&& (screen == Screen::Candidates) ==> d.len() == candidates_keys().len()
            &&& (screen == Screen::Ballast) ==> d.len() == ballast_keys().len()
            &&& (screen == Screen::LogSearch) ==> d.len() == log_keys().len()
            &&& (screen == Screen::Diagnostics) ==> d.len() == diagnostics_keys().len()
        }),
{
}

/// What the footer says of the overview screen: each case shows what belongs to it and no more.
pub proof fn law_overview_summary_shows_no_more(model: DashboardModel)
    ensures
        ({
            let d = overview_summary(model);
            &&& model.daemon_state is Some ==> d.len() == 3
            &&& model.daemon_state is None ==> d.len() == 2
        }),
{
}

/// What the footer says of the active screen: each case shows what belongs to it and no more.
pub proof fn law_footer_summary_shows_no_more(model: DashboardModel)
    ensures
        ({
            let d = footer_summary(model);
            &&& (model.screen == Screen::Overview) ==> d.len() == overview_summary(model).len()
            &&& (model.screen == Screen::Timeline) ==> d.len() == timeline_summary(model).len()
            &&& (model.screen
                == Screen::Explainability) ==> d.len() == explainability_summary(model).len()
            &&& (model.screen == Screen::Candidates) ==> d.len() == candidates_summary(model).len()
            &&& (model.screen == Screen::Ballast) ==> d.len() == ballast_summary(model).len()
            &&& (model.screen == Screen::LogSearch) ==> d.len() == log_summary(model).len()
            &&& (model.screen
                == Screen::Diagnostics) ==> d.len() == diagnostics_summary(model).len()
        }),
{
}

/// Content of an overlay whose inner area has a width: each case shows what belongs to
/// it and no more.
pub proof fn law_overlay_content_shows_no_more(model: DashboardModel, overlay: Overlay, width: u16)
    ensures
        ({
            let d = overlay_content(model, overlay, width);
            &&& (overlay
                == Overlay::CommandPalette) ==> d.len() == palette_overlay(model, width).len()
            &&& (overlay == Overlay::Help) ==> d.len() == help_overlay().len()
            &&& (overlay == Overlay::Voi) ==> d.len() == voi_overlay().len()
            &&& (overlay
                == Overlay::IncidentPlaybook) ==> d.len() == playbook_overlay(model, width).len()
        }),
{
}

} // verus!
