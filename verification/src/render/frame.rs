//! The frame: header, screen, overlay, footer and toasts as drawing steps.

use vstd::prelude::*;

use crate::incident::IncidentSeverity;
use crate::incident::PlaybookEntry;
use crate::incident::playbook_for_severity;
use crate::incident::relevant_steps;
use crate::incident::severity_label;
use crate::incident::state_severity;
use crate::input::PaletteAction;
use crate::input::search_palette_actions;
use crate::input::search_result;
use crate::layout::BallastPane;
use crate::layout::BallastPlacement;
use crate::layout::CandidatesPane;
use crate::layout::CandidatesPlacement;
use crate::layout::DiagnosticsPane;
use crate::layout::DiagnosticsPlacement;
use crate::layout::ExplainabilityPane;
use crate::layout::ExplainabilityPlacement;
use crate::layout::LogSearchPane;
use crate::layout::LogSearchPlacement;
use crate::layout::MIN_USABLE_COLS;
use crate::layout::MIN_USABLE_ROWS;
use crate::layout::OverviewPane;
use crate::layout::PanePlacement;
use crate::layout::PaneRect;
use crate::layout::TimelinePane;
use crate::layout::TimelinePlacement;
use crate::layout::ballast_placements;
use crate::layout::build_ballast_layout;
use crate::layout::build_candidates_layout;
use crate::layout::build_diagnostics_layout;
use crate::layout::build_explainability_layout;
use crate::layout::build_log_search_layout;
use crate::layout::build_overview_layout;
use crate::layout::build_timeline_layout;
use crate::layout::candidates_placements;
use crate::layout::diagnostics_placements;
use crate::layout::explainability_placements;
use crate::layout::is_terminal_too_small;
use crate::layout::log_search_placements;
use crate::layout::monus;
use crate::layout::overview_placements;
use crate::layout::timeline_placements;
use crate::markup::Atom;
use crate::markup::Doc;
use crate::markup::Ink;
use crate::markup::InkV;
use crate::markup::PieceV;
use crate::markup::Tone;
use crate::markup::alarm;
use crate::markup::badge;
use crate::markup::badge_in;
use crate::markup::bold;
use crate::markup::bold_on;
use crate::markup::drawn;
use crate::markup::fg;
use crate::markup::fg_on;
use crate::markup::ground;
use crate::markup::head_lines;
use crate::markup::in_bold_on;
use crate::markup::in_fg;
use crate::markup::in_fg_on;
use crate::markup::ink;
use crate::markup::nl;
use crate::markup::styled;
use crate::markup::txt;
use crate::model::ConfirmAction;
use crate::model::DashboardModel;
use crate::model::Notification;
use crate::model::Overlay;
use crate::model::Screen;
use crate::model::filter_label;
use crate::model::screen_number;
use crate::preferences::HintVerbosity;
use crate::render::ballast::ballast_detail_pane;
use crate::render::ballast::ballast_list_pane;
use crate::render::ballast::frame_ballast_detail_styled;
use crate::render::ballast::frame_ballast_list_styled;
use crate::render::common::RenderContext;
use crate::render::common::body_rows;
use crate::render::common::data_source_label;
use crate::render::common::notification_tone;
use crate::render::common::notification_tone_of;
use crate::render::common::notification_word;
use crate::render::common::notification_word_of;
use crate::render::common::overlay_panel_rect;
use crate::render::common::overlay_rect;
use crate::render::common::overview_pane_title;
use crate::render::common::pane_body_rows;
use crate::render::common::pane_title;
use crate::render::common::placed;
use crate::render::common::policy_mode_color;
use crate::render::common::policy_tone_of;
use crate::render::common::rect_in_body;
use crate::render::common::screen_tab_label;
use crate::render::common::source_label;
use crate::render::common::spaced;
use crate::render::common::spaced_of;
use crate::render::common::tab_label_of;
use crate::render::decisions::candidates_detail_pane;
use crate::render::decisions::candidates_list_pane;
use crate::render::decisions::candidates_summary_pane;
use crate::render::decisions::explainability_detail_pane;
use crate::render::decisions::explainability_header_pane;
use crate::render::decisions::explainability_list_pane;
use crate::render::decisions::frame_candidates_detail_styled;
use crate::render::decisions::frame_candidates_list_styled;
use crate::render::decisions::frame_candidates_summary_styled;
use crate::render::decisions::frame_explainability_detail_styled;
use crate::render::decisions::frame_explainability_header_styled;
use crate::render::decisions::frame_explainability_list_styled;
use crate::render::decisions::reclaimable_fits;
use crate::render::decisions::reclaimable_of;
use crate::render::diagnostics::diagnostics_health_pane;
use crate::render::diagnostics::diagnostics_perf_pane;
use crate::render::diagnostics::diagnostics_runtime_pane;
use crate::render::diagnostics::frame_diagnostics_health_styled;
use crate::render::diagnostics::frame_diagnostics_perf_styled;
use crate::render::diagnostics::frame_diagnostics_runtime_styled;
use crate::render::diagnostics::mode_tone;
use crate::render::diagnostics::mode_tone_of;
use crate::render::diagnostics::mode_word;
use crate::render::diagnostics::mode_word_of;
use crate::render::overview::overview_pane_styled;
use crate::render::overview::styled_pane;
use crate::render::page::PALETTE_SEARCH_LIMIT;
use crate::render::page::crumbs_from;
use crate::render::page::palette_shown;
use crate::render::page::palette_shown_of;
use crate::render::page::too_small;
use crate::render::scene::Draw;
use crate::render::scene::DrawV;
use crate::render::scene::Scene;
use crate::render::scene::inner_of;
use crate::render::scene::least;
use crate::render::scene::panel_inner;
use crate::render::scene::split_rows;
use crate::render::scene::stacked;
use crate::render::timeline::frame_log_search_detail_styled;
use crate::render::timeline::frame_log_search_header_styled;
use crate::render::timeline::frame_log_search_list_styled;
use crate::render::timeline::frame_timeline_detail_styled;
use crate::render::timeline::frame_timeline_filter_styled;
use crate::render::timeline::frame_timeline_list_styled;
use crate::render::timeline::log_detail_pane;
use crate::render::timeline::log_header_pane;
use crate::render::timeline::log_list_pane;
use crate::render::timeline::timeline_detail_pane;
use crate::render::timeline::timeline_filter_bar;
use crate::render::timeline::timeline_list_pane;
use crate::text::dec;
use crate::text::decimal;
use crate::text::decimal_usize;
use crate::text::pad_right;
use crate::text::padded_right;
use crate::text::to_upper;
use crate::text::uppered;

verus! {

/// Rows of the frame header.
pub const FRAME_HEADER_ROWS: u16 = 4;

/// Rows of the frame footer.
pub const FRAME_FOOTER_ROWS: u16 = 1;

/// Screens that the breadcrumb trail of the header shows.
pub const HEADER_CRUMBS: usize = 6;

/// Toasts that a frame shows.
pub const FRAME_TOASTS: usize = 3;

/// Title row: the data mode and the policy mode.
pub open spec fn header_title(model: DashboardModel) -> Seq<PieceV> {
    let d = seq![
        bold(" SBH Dashboard "@, Tone::Accent),
        styled(
            spaced_of(mode_word_of(model.degraded)),
            bold_on(Ink::Of(Tone::Dark), Ink::Of(mode_tone_of(model.degraded))),
        ),
    ];
    let d = match model.daemon_state {
        Some(state) => {
            d + ({
                if state.policy_mode@.len() > 0 {
                    seq![
                        txt(" "@),
                        styled(
                            spaced_of(uppered(state.policy_mode@)),
                            bold_on(
                                Ink::Of(Tone::Dark),
                                Ink::Of(policy_tone_of(state.policy_mode@)),
                            ),
                        ),
                    ]
                } else {
                    seq![]
                }
            })
        },
        None => {
            d
        },
    };
    d + seq![
        nl(),
    ]
}

fn header_title_doc(model: &DashboardModel) -> (doc: Doc)
    ensures
        doc@ == header_title(*model),
{
    let mut d = Doc::new();
    d.bold(" SBH Dashboard ", Tone::Accent);
    d.styled(
        spaced(mode_word(model.degraded)).as_str(),
        in_bold_on(Ink::Of(Tone::Dark), Ink::Of(mode_tone(model.degraded))),
    );
    if let Some(state) = &model.daemon_state {
        let p = if !state.policy_mode.as_str().is_empty() {
            let mut q = Doc::new();
            q.text(" ");
            q.styled(
                spaced(to_upper(state.policy_mode.as_str()).as_str()).as_str(),
                in_bold_on(
                    Ink::Of(Tone::Dark),
                    Ink::Of(policy_mode_color(state.policy_mode.as_str())),
                ),
            );
            q
        } else {
            Doc::new()
        };
        d.append(p);
    }
    let mut p = Doc::new();
    p.newline();
    d.append(p);
    d
}

/// The screens of the tab strip, in order.
pub open spec fn tab_screens() -> Seq<Screen> {
    seq![
        Screen::Overview,
        Screen::Timeline,
        Screen::Explainability,
        Screen::Candidates,
        Screen::Ballast,
        Screen::LogSearch,
        Screen::Diagnostics,
    ]
}

fn tabs() -> (screens: Vec<Screen>)
    ensures
        screens@ == tab_screens(),
{
    vec![
        Screen::Overview,
        Screen::Timeline,
        Screen::Explainability,
        Screen::Candidates,
        Screen::Ballast,
        Screen::LogSearch,
        Screen::Diagnostics,
    ]
}

/// Key part of a tab.
pub open spec fn tab_key_of(screen: Screen) -> Seq<char> {
    " "@ + dec(screen_number(screen) as nat) + ":"@
}

fn tab_key(screen: Screen) -> (s: String)
    ensures
        s@ == tab_key_of(screen),
{
    let mut s = " ".to_owned();
    s.append(decimal(screen.number() as u64).as_str());
    s.append(":");
    s
}

/// Name part of a tab.
pub open spec fn tab_name_of(screen: Screen) -> Seq<char> {
    tab_label_of(screen) + " "@
}

fn tab_name(screen: Screen) -> (s: String)
    ensures
        s@ == tab_name_of(screen),
{
    let mut s = screen_tab_label(screen).to_owned();
    s.append(" ");
    s
}

/// One tab; the active one stands on its accent.
pub open spec fn tab(screen: Screen, current: Screen) -> Seq<PieceV> {
    if screen == current {
        seq![
            styled(
                tab_key_of(screen),
                fg_on(Ink::Of(Tone::Dark), Ink::Tab(screen_number(screen) as u8)),
            ),
            styled(
                tab_name_of(screen),
                bold_on(Ink::Of(Tone::Dark), Ink::Tab(screen_number(screen) as u8)),
            ),
        ]
    } else {
        seq![
            ink(tab_key_of(screen), Tone::Muted),
            ink(tab_name_of(screen), Tone::Secondary),
        ]
    }
}

fn tab_doc(screen: Screen, current: Screen) -> (doc: Doc)
    ensures
        doc@ == tab(screen, current),
{
    if screen == current {
        let mut p = Doc::new();
        p.styled(
            tab_key(screen).as_str(),
            in_fg_on(Ink::Of(Tone::Dark), Ink::Tab(screen.number())),
        );
        p.styled(
            tab_name(screen).as_str(),
            in_bold_on(Ink::Of(Tone::Dark), Ink::Tab(screen.number())),
        );
        p
    } else {
        let mut p = Doc::new();
        p.ink(tab_key(screen).as_str(), Tone::Muted);
        p.ink(tab_name(screen).as_str(), Tone::Secondary);
        p
    }
}

/// What stands between two tabs: a dim bar, or a space beside the active one.
pub open spec fn tab_gap(screen: Screen, next: Screen, current: Screen) -> Seq<PieceV> {
    if screen != current && next != current {
        seq![
            ink("\u{2502}"@, Tone::Border),
        ]
    } else {
        seq![
            txt(" "@),
        ]
    }
}

fn tab_gap_doc(screen: Screen, next: Screen, current: Screen) -> (doc: Doc)
    ensures
        doc@ == tab_gap(screen, next, current),
{
    if screen != current && next != current {
        let mut p = Doc::new();
        p.ink("\u{2502}", Tone::Border);
        p
    } else {
        let mut p = Doc::new();
        p.text(" ");
        p
    }
}

/// The tabs up to an index, with what stands between them.
pub open spec fn tab_strip_of(current: Screen, to: int) -> Seq<PieceV>
    decreases to,
{
    if to <= 0 {
        seq![txt(" "@)]
    } else {
        let d = tab_strip_of(current, to - 1) + tab(tab_screens()[to - 1], current);
        if to < tab_screens().len() {
            d + tab_gap(tab_screens()[to - 1], tab_screens()[to], current)
        } else {
            d
        }
    }
}

fn tab_strip(current: Screen) -> (doc: Doc)
    ensures
        doc@ == tab_strip_of(current, tab_screens().len() as int),
{
    let screens = tabs();
    let mut d = Doc::new();
    d.text(" ");
    let mut k: usize = 0;
    while k < screens.len()
        invariant
            screens@ == tab_screens(),
            k <= screens@.len(),
            d@ == tab_strip_of(current, k as int),
        decreases screens@.len() - k,
    {
        d.append(tab_doc(screens[k], current));
        if k + 1 < screens.len() {
            d.append(tab_gap_doc(screens[k], screens[k + 1], current));
        }
        k += 1;
    }
    d
}

/// The screens of the header trail.
pub open spec fn header_crumbs_of(screens: Seq<Screen>, from: int, to: int) -> Seq<PieceV>
    decreases to - from,
{
    if to <= from {
        seq![]
    } else {
        header_crumbs_of(screens, from, to - 1) + seq![
            ink(tab_label_of(screens[(to - 1)]), Tone::Secondary),
            ink(" \u{203A} "@, Tone::Muted),
        ]
    }
}

fn header_crumb(screen: Screen) -> (doc: Doc)
    ensures
        doc@ == seq![
            ink(tab_label_of(screen), Tone::Secondary),
            ink(" \u{203A} "@, Tone::Muted),
        ],
{
    let mut d = Doc::new();
    d.ink(screen_tab_label(screen), Tone::Secondary);
    d.ink(" \u{203A} ", Tone::Muted);
    d
}

fn header_crumbs(screens: &Vec<Screen>, from: usize, to: usize) -> (doc: Doc)
    requires
        from <= to,
        to <= screens@.len(),
    ensures
        doc@ == header_crumbs_of(screens@, from as int, to as int),
{
    let mut d = Doc::new();
    let mut k: usize = from;
    while k < to
        invariant
            from <= k <= to,
            to <= screens@.len(),
            d@ == header_crumbs_of(screens@, from as int, k as int),
        decreases to - k,
    {
        d.append(header_crumb(screens[k]));
        k += 1;
    }
    d
}

/// Breadcrumb row; a rule while there is no history.
pub open spec fn header_trail(model: DashboardModel, width: u16) -> Seq<PieceV> {
    if model.screen_history@.len() == 0 {
        seq![
            drawn(Atom::Rule(width as usize), fg(Ink::Of(Tone::Border))),
            nl(),
        ]
    } else {
        let len = model.screen_history@.len() as int;
        let d = seq![
            ink(" \u{25B8} "@, Tone::Muted),
        ];
        let d = d + header_crumbs_of(
            model.screen_history@,
            crumbs_from(len, HEADER_CRUMBS as int),
            len,
        );
        d + seq![
            bold(tab_label_of(model.screen), Tone::Accent),
            nl(),
        ]
    }
}

fn header_trail_doc(model: &DashboardModel, width: u16) -> (doc: Doc)
    ensures
        doc@ == header_trail(*model, width),
{
    if model.screen_history.len() == 0 {
        let mut p = Doc::new();
        p.drawn(Atom::Rule(width as usize), in_fg(Ink::Of(Tone::Border)));
        p.newline();
        p
    } else {
        let len: usize = model.screen_history.len();
        let from: usize = if len > HEADER_CRUMBS {
            len - HEADER_CRUMBS
        } else {
            0
        };
        let mut p = Doc::new();
        p.ink(" \u{25B8} ", Tone::Muted);
        p.append(header_crumbs(&model.screen_history, from, len));
        let mut q = Doc::new();
        q.bold(screen_tab_label(model.screen), Tone::Accent);
        q.newline();
        p.append(q);
        p
    }
}

/// The rows of the header: title, rule, tabs and breadcrumbs.
pub open spec fn header_content(model: DashboardModel, width: u16) -> Seq<PieceV> {
    let d = header_title(model);
    let d = d + seq![
        drawn(Atom::Rule(width as usize), fg(Ink::Of(Tone::Border))),
        nl(),
    ];
    let d = d + tab_strip_of(model.screen, tab_screens().len() as int);
    let d = d + seq![
        nl(),
    ];
    d + header_trail(model, width)
}

/// The rows of the header: title, rule, tabs and breadcrumbs.
pub fn frame_header_content(model: &DashboardModel, width: u16) -> (doc: Doc)
    ensures
        doc@ == header_content(*model, width),
{
    let mut d = header_title_doc(model);
    let mut p = Doc::new();
    p.drawn(Atom::Rule(width as usize), in_fg(Ink::Of(Tone::Border)));
    p.newline();
    d.append(p);
    d.append(tab_strip(model.screen));
    let mut p = Doc::new();
    p.newline();
    d.append(p);
    d.append(header_trail_doc(model, width));
    d
}

/// Key bindings of the overview screen.
pub open spec fn overview_keys() -> Seq<PieceV> {
    seq![
        drawn(Atom::KeyHint { key: "Tab"@, label: "focus"@ }, fg(Ink::Tab(1))),
        drawn(Atom::KeyHint { key: "\u{23CE}"@, label: "open"@ }, fg(Ink::Tab(1))),
        drawn(Atom::KeyHint { key: "1-7"@, label: "screen"@ }, fg(Ink::Tab(1))),
        drawn(Atom::KeyHint { key: "?"@, label: "help"@ }, fg(Ink::Tab(1))),
        drawn(Atom::KeyHint { key: ":"@, label: "cmd"@ }, fg(Ink::Tab(1))),
        drawn(Atom::KeyHint { key: "Esc"@, label: "back"@ }, fg(Ink::Tab(1))),
    ]
}

fn overview_keys_doc() -> (doc: Doc)
    ensures
        doc@ == overview_keys(),
{
    let mut d = Doc::new();
    d.drawn(Atom::KeyHint { key: "Tab".to_owned(), label: "focus".to_owned() }, in_fg(Ink::Tab(1)));
    d.drawn(
        Atom::KeyHint { key: "\u{23CE}".to_owned(), label: "open".to_owned() },
        in_fg(Ink::Tab(1)),
    );
    d.drawn(
        Atom::KeyHint { key: "1-7".to_owned(), label: "screen".to_owned() },
        in_fg(Ink::Tab(1)),
    );
    d.drawn(Atom::KeyHint { key: "?".to_owned(), label: "help".to_owned() }, in_fg(Ink::Tab(1)));
    d.drawn(Atom::KeyHint { key: ":".to_owned(), label: "cmd".to_owned() }, in_fg(Ink::Tab(1)));
    d.drawn(Atom::KeyHint { key: "Esc".to_owned(), label: "back".to_owned() }, in_fg(Ink::Tab(1)));
    d
}

/// Key bindings of the timeline screen.
pub open spec fn timeline_keys() -> Seq<PieceV> {
    seq![
        drawn(Atom::KeyHint { key: "j/k"@, label: "nav"@ }, fg(Ink::Tab(2))),
        drawn(Atom::KeyHint { key: "f"@, label: "filter"@ }, fg(Ink::Tab(2))),
        drawn(Atom::KeyHint { key: "F"@, label: "follow"@ }, fg(Ink::Tab(2))),
        drawn(Atom::KeyHint { key: "r"@, label: "refresh"@ }, fg(Ink::Tab(2))),
        drawn(Atom::KeyHint { key: "?"@, label: "help"@ }, fg(Ink::Tab(2))),
        drawn(Atom::KeyHint { key: "Esc"@, label: "back"@ }, fg(Ink::Tab(2))),
    ]
}

fn timeline_keys_doc() -> (doc: Doc)
    ensures
        doc@ == timeline_keys(),
{
    let mut d = Doc::new();
    d.drawn(Atom::KeyHint { key: "j/k".to_owned(), label: "nav".to_owned() }, in_fg(Ink::Tab(2)));
    d.drawn(Atom::KeyHint { key: "f".to_owned(), label: "filter".to_owned() }, in_fg(Ink::Tab(2)));
    d.drawn(Atom::KeyHint { key: "F".to_owned(), label: "follow".to_owned() }, in_fg(Ink::Tab(2)));
    d.drawn(Atom::KeyHint { key: "r".to_owned(), label: "refresh".to_owned() }, in_fg(Ink::Tab(2)));
    d.drawn(Atom::KeyHint { key: "?".to_owned(), label: "help".to_owned() }, in_fg(Ink::Tab(2)));
    d.drawn(Atom::KeyHint { key: "Esc".to_owned(), label: "back".to_owned() }, in_fg(Ink::Tab(2)));
    d
}

/// Key bindings of the explainability screen.
pub open spec fn explainability_keys() -> Seq<PieceV> {
    seq![
        drawn(Atom::KeyHint { key: "j/k"@, label: "nav"@ }, fg(Ink::Tab(3))),
        drawn(Atom::KeyHint { key: "\u{23CE}"@, label: "detail"@ }, fg(Ink::Tab(3))),
        drawn(Atom::KeyHint { key: "d"@, label: "close"@ }, fg(Ink::Tab(3))),
        drawn(Atom::KeyHint { key: "r"@, label: "refresh"@ }, fg(Ink::Tab(3))),
        drawn(Atom::KeyHint { key: "?"@, label: "help"@ }, fg(Ink::Tab(3))),
        drawn(Atom::KeyHint { key: "Esc"@, label: "back"@ }, fg(Ink::Tab(3))),
    ]
}

fn explainability_keys_doc() -> (doc: Doc)
    ensures
        doc@ == explainability_keys(),
{
    let mut d = Doc::new();
    d.drawn(Atom::KeyHint { key: "j/k".to_owned(), label: "nav".to_owned() }, in_fg(Ink::Tab(3)));
    d.drawn(
        Atom::KeyHint { key: "\u{23CE}".to_owned(), label: "detail".to_owned() },
        in_fg(Ink::Tab(3)),
    );
    d.drawn(Atom::KeyHint { key: "d".to_owned(), label: "close".to_owned() }, in_fg(Ink::Tab(3)));
    d.drawn(Atom::KeyHint { key: "r".to_owned(), label: "refresh".to_owned() }, in_fg(Ink::Tab(3)));
    d.drawn(Atom::KeyHint { key: "?".to_owned(), label: "help".to_owned() }, in_fg(Ink::Tab(3)));
    d.drawn(Atom::KeyHint { key: "Esc".to_owned(), label: "back".to_owned() }, in_fg(Ink::Tab(3)));
    d
}

/// Key bindings of the candidates screen.
pub open spec fn candidates_keys() -> Seq<PieceV> {
    seq![
        drawn(Atom::KeyHint { key: "j/k"@, label: "nav"@ }, fg(Ink::Tab(4))),
        drawn(Atom::KeyHint { key: "\u{23CE}"@, label: "detail"@ }, fg(Ink::Tab(4))),
        drawn(Atom::KeyHint { key: "s"@, label: "sort"@ }, fg(Ink::Tab(4))),
        drawn(Atom::KeyHint { key: "d"@, label: "close"@ }, fg(Ink::Tab(4))),
        drawn(Atom::KeyHint { key: "?"@, label: "help"@ }, fg(Ink::Tab(4))),
        drawn(Atom::KeyHint { key: "Esc"@, label: "back"@ }, fg(Ink::Tab(4))),
    ]
}

fn candidates_keys_doc() -> (doc: Doc)
    ensures
        doc@ == candidates_keys(),
{
    let mut d = Doc::new();
    d.drawn(Atom::KeyHint { key: "j/k".to_owned(), label: "nav".to_owned() }, in_fg(Ink::Tab(4)));
    d.drawn(
        Atom::KeyHint { key: "\u{23CE}".to_owned(), label: "detail".to_owned() },
        in_fg(Ink::Tab(4)),
    );
    d.drawn(Atom::KeyHint { key: "s".to_owned(), label: "sort".to_owned() }, in_fg(Ink::Tab(4)));
    d.drawn(Atom::KeyHint { key: "d".to_owned(), label: "close".to_owned() }, in_fg(Ink::Tab(4)));
    d.drawn(Atom::KeyHint { key: "?".to_owned(), label: "help".to_owned() }, in_fg(Ink::Tab(4)));
    d.drawn(Atom::KeyHint { key: "Esc".to_owned(), label: "back".to_owned() }, in_fg(Ink::Tab(4)));
    d
}

/// Key bindings of the ballast screen.
pub open spec fn ballast_keys() -> Seq<PieceV> {
    seq![
        drawn(Atom::KeyHint { key: "j/k"@, label: "nav"@ }, fg(Ink::Tab(5))),
        drawn(Atom::KeyHint { key: "\u{23CE}"@, label: "detail"@ }, fg(Ink::Tab(5))),
        drawn(Atom::KeyHint { key: "d"@, label: "close"@ }, fg(Ink::Tab(5))),
        drawn(Atom::KeyHint { key: "r"@, label: "refresh"@ }, fg(Ink::Tab(5))),
        drawn(Atom::KeyHint { key: "?"@, label: "help"@ }, fg(Ink::Tab(5))),
        drawn(Atom::KeyHint { key: "Esc"@, label: "back"@ }, fg(Ink::Tab(5))),
    ]
}

fn ballast_keys_doc() -> (doc: Doc)
    ensures
        doc@ == ballast_keys(),
{
    let mut d = Doc::new();
    d.drawn(Atom::KeyHint { key: "j/k".to_owned(), label: "nav".to_owned() }, in_fg(Ink::Tab(5)));
    d.drawn(
        Atom::KeyHint { key: "\u{23CE}".to_owned(), label: "detail".to_owned() },
        in_fg(Ink::Tab(5)),
    );
    d.drawn(Atom::KeyHint { key: "d".to_owned(), label: "close".to_owned() }, in_fg(Ink::Tab(5)));
    d.drawn(Atom::KeyHint { key: "r".to_owned(), label: "refresh".to_owned() }, in_fg(Ink::Tab(5)));
    d.drawn(Atom::KeyHint { key: "?".to_owned(), label: "help".to_owned() }, in_fg(Ink::Tab(5)));
    d.drawn(Atom::KeyHint { key: "Esc".to_owned(), label: "back".to_owned() }, in_fg(Ink::Tab(5)));
    d
}

/// Key bindings of the log screen.
pub open spec fn log_keys() -> Seq<PieceV> {
    seq![
        drawn(Atom::KeyHint { key: "j/k"@, label: "nav"@ }, fg(Ink::Tab(6))),
        drawn(Atom::KeyHint { key: "1-7"@, label: "screen"@ }, fg(Ink::Tab(6))),
        drawn(Atom::KeyHint { key: "r"@, label: "refresh"@ }, fg(Ink::Tab(6))),
        drawn(Atom::KeyHint { key: "?"@, label: "help"@ }, fg(Ink::Tab(6))),
        drawn(Atom::KeyHint { key: "Esc"@, label: "back"@ }, fg(Ink::Tab(6))),
    ]
}

fn log_keys_doc() -> (doc: Doc)
    ensures
        doc@ == log_keys(),
{
    let mut d = Doc::new();
    d.drawn(Atom::KeyHint { key: "j/k".to_owned(), label: "nav".to_owned() }, in_fg(Ink::Tab(6)));
    d.drawn(
        Atom::KeyHint { key: "1-7".to_owned(), label: "screen".to_owned() },
        in_fg(Ink::Tab(6)),
    );
    d.drawn(Atom::KeyHint { key: "r".to_owned(), label: "refresh".to_owned() }, in_fg(Ink::Tab(6)));
    d.drawn(Atom::KeyHint { key: "?".to_owned(), label: "help".to_owned() }, in_fg(Ink::Tab(6)));
    d.drawn(Atom::KeyHint { key: "Esc".to_owned(), label: "back".to_owned() }, in_fg(Ink::Tab(6)));
    d
}

/// Key bindings of the diagnostics screen.
pub open spec fn diagnostics_keys() -> Seq<PieceV> {
    seq![
        drawn(Atom::KeyHint { key: "V"@, label: "verbose"@ }, fg(Ink::Tab(7))),
        drawn(Atom::KeyHint { key: "r"@, label: "refresh"@ }, fg(Ink::Tab(7))),
        drawn(Atom::KeyHint { key: "1-7"@, label: "screen"@ }, fg(Ink::Tab(7))),
        drawn(Atom::KeyHint { key: "?"@, label: "help"@ }, fg(Ink::Tab(7))),
        drawn(Atom::KeyHint { key: "Esc"@, label: "back"@ }, fg(Ink::Tab(7))),
    ]
}

fn diagnostics_keys_doc() -> (doc: Doc)
    ensures
        doc@ == diagnostics_keys(),
{
    let mut d = Doc::new();
    d.drawn(Atom::KeyHint { key: "V".to_owned(), label: "verbose".to_owned() }, in_fg(Ink::Tab(7)));
    d.drawn(Atom::KeyHint { key: "r".to_owned(), label: "refresh".to_owned() }, in_fg(Ink::Tab(7)));
    d.drawn(
        Atom::KeyHint { key: "1-7".to_owned(), label: "screen".to_owned() },
        in_fg(Ink::Tab(7)),
    );
    d.drawn(Atom::KeyHint { key: "?".to_owned(), label: "help".to_owned() }, in_fg(Ink::Tab(7)));
    d.drawn(Atom::KeyHint { key: "Esc".to_owned(), label: "back".to_owned() }, in_fg(Ink::Tab(7)));
    d
}

/// Key bindings of a screen.
pub open spec fn footer_keys(screen: Screen) -> Seq<PieceV> {
    match screen {
        Screen::Overview => overview_keys(),
        Screen::Timeline => timeline_keys(),
        Screen::Explainability => explainability_keys(),
        Screen::Candidates => candidates_keys(),
        Screen::Ballast => ballast_keys(),
        Screen::LogSearch => log_keys(),
        Screen::Diagnostics => diagnostics_keys(),
    }
}

fn footer_keys_doc(screen: Screen) -> (doc: Doc)
    ensures
        doc@ == footer_keys(screen),
{
    match screen {
        Screen::Overview => overview_keys_doc(),
        Screen::Timeline => timeline_keys_doc(),
        Screen::Explainability => explainability_keys_doc(),
        Screen::Candidates => candidates_keys_doc(),
        Screen::Ballast => ballast_keys_doc(),
        Screen::LogSearch => log_keys_doc(),
        Screen::Diagnostics => diagnostics_keys_doc(),
    }
}

/// What the footer says of the overview screen.
pub open spec fn overview_summary(model: DashboardModel) -> Seq<PieceV> {
    match model.daemon_state {
        Some(state) => {
            seq![
                ink(dec(state.pressure.mounts@.len() as nat), Tone::Secondary),
                ink(" mounts "@, Tone::Secondary),
                badge_in(uppered(state.pressure.overall@), Ink::Pressure(state.pressure.overall@)),
            ]
        },
        None => {
            seq![
                ink("0"@, Tone::Secondary),
                ink(" mounts "@, Tone::Secondary),
            ]
        },
    }
}

fn overview_summary_doc(model: &DashboardModel) -> (doc: Doc)
    ensures
        doc@ == overview_summary(*model),
{
    if let Some(state) = &model.daemon_state {
        let mut p = Doc::new();
        p.ink(decimal_usize(state.pressure.mounts.len()).as_str(), Tone::Secondary);
        p.ink(" mounts ", Tone::Secondary);
        p.badge_in(
            to_upper(state.pressure.overall.as_str()).as_str(),
            Ink::Pressure(state.pressure.overall.clone()),
        );
        p
    } else {
        let mut p = Doc::new();
        p.ink("0", Tone::Secondary);
        p.ink(" mounts ", Tone::Secondary);
        p
    }
}

/// What the footer says of the timeline screen.
pub open spec fn timeline_summary(model: DashboardModel) -> Seq<PieceV> {
    seq![
        ink(dec(model.shown_events().len() as nat), Tone::Secondary),
        ink("/"@, Tone::Secondary),
        ink(dec(model.timeline_events@.len() as nat), Tone::Secondary),
        ink(" events "@, Tone::Secondary),
        badge_in(uppered(filter_label(model.timeline_filter)), Ink::Tab(2)),
    ]
}

fn timeline_summary_doc(model: &DashboardModel) -> (doc: Doc)
    ensures
        doc@ == timeline_summary(*model),
{
    let shown: usize = model.timeline_filtered_events().len();
    let mut d = Doc::new();
    d.ink(decimal_usize(shown).as_str(), Tone::Secondary);
    d.ink("/", Tone::Secondary);
    d.ink(decimal_usize(model.timeline_events.len()).as_str(), Tone::Secondary);
    d.ink(" events ", Tone::Secondary);
    d.badge_in(to_upper(model.timeline_filter.label()).as_str(), Ink::Tab(2));
    d
}

/// What the footer says of the explainability screen.
pub open spec fn explainability_summary(model: DashboardModel) -> Seq<PieceV> {
    seq![
        ink(dec(model.explainability_decisions@.len() as nat), Tone::Secondary),
        ink(" decisions "@, Tone::Secondary),
        badge_in(uppered(source_label(model.timeline_source)), Ink::Tab(3)),
    ]
}

fn explainability_summary_doc(model: &DashboardModel) -> (doc: Doc)
    ensures
        doc@ == explainability_summary(*model),
{
    let mut d = Doc::new();
    d.ink(decimal_usize(model.explainability_decisions.len()).as_str(), Tone::Secondary);
    d.ink(" decisions ", Tone::Secondary);
    d.badge_in(to_upper(data_source_label(model.timeline_source)).as_str(), Ink::Tab(3));
    d
}

/// What the footer says of the candidates screen.
pub open spec fn candidates_summary(model: DashboardModel) -> Seq<PieceV> {
    seq![
        ink(dec(model.candidates_list@.len() as nat), Tone::Secondary),
        ink(" candidates "@, Tone::Secondary),
        badge_in(uppered(model.candidates_sort@), Ink::Tab(4)),
    ]
}

fn candidates_summary_doc(model: &DashboardModel) -> (doc: Doc)
    ensures
        doc@ == candidates_summary(*model),
{
    let mut d = Doc::new();
    d.ink(decimal_usize(model.candidates_list.len()).as_str(), Tone::Secondary);
    d.ink(" candidates ", Tone::Secondary);
    d.badge_in(to_upper(model.candidates_sort.as_str()).as_str(), Ink::Tab(4));
    d
}

/// What the footer says of the ballast screen.
pub open spec fn ballast_summary(model: DashboardModel) -> Seq<PieceV> {
    seq![
        ink(dec(model.ballast_volumes@.len() as nat), Tone::Secondary),
        ink(" volumes "@, Tone::Secondary),
    ]
}

fn ballast_summary_doc(model: &DashboardModel) -> (doc: Doc)
    ensures
        doc@ == ballast_summary(*model),
{
    let mut d = Doc::new();
    d.ink(decimal_usize(model.ballast_volumes.len()).as_str(), Tone::Secondary);
    d.ink(" volumes ", Tone::Secondary);
    d
}

/// What the footer says of the log screen.
pub open spec fn log_summary(model: DashboardModel) -> Seq<PieceV> {
    seq![
        ink(dec(model.timeline_events@.len() as nat), Tone::Secondary),
        ink(" entries "@, Tone::Secondary),
    ]
}

fn log_summary_doc(model: &DashboardModel) -> (doc: Doc)
    ensures
        doc@ == log_summary(*model),
{
    let mut d = Doc::new();
    d.ink(decimal_usize(model.timeline_events.len()).as_str(), Tone::Secondary);
    d.ink(" entries ", Tone::Secondary);
    d
}

/// What the footer says of the diagnostics screen.
pub open spec fn diagnostics_summary(model: DashboardModel) -> Seq<PieceV> {
    seq![
        ink("tick "@, Tone::Secondary),
        ink(dec(model.tick as nat), Tone::Secondary),
        ink(" "@, Tone::Secondary),
        badge(mode_word_of(model.degraded), mode_tone_of(model.degraded)),
    ]
}

fn diagnostics_summary_doc(model: &DashboardModel) -> (doc: Doc)
    ensures
        doc@ == diagnostics_summary(*model),
{
    let mut d = Doc::new();
    d.ink("tick ", Tone::Secondary);
    d.ink(decimal(model.tick).as_str(), Tone::Secondary);
    d.ink(" ", Tone::Secondary);
    d.badge(mode_word(model.degraded), mode_tone(model.degraded));
    d
}

/// What the footer says of the active screen.
pub open spec fn footer_summary(model: DashboardModel) -> Seq<PieceV> {
    match model.screen {
        Screen::Overview => overview_summary(model),
        Screen::Timeline => timeline_summary(model),
        Screen::Explainability => explainability_summary(model),
        Screen::Candidates => candidates_summary(model),
        Screen::Ballast => ballast_summary(model),
        Screen::LogSearch => log_summary(model),
        Screen::Diagnostics => diagnostics_summary(model),
    }
}

fn footer_summary_doc(model: &DashboardModel) -> (doc: Doc)
    ensures
        doc@ == footer_summary(*model),
{
    match model.screen {
        Screen::Overview => overview_summary_doc(model),
        Screen::Timeline => timeline_summary_doc(model),
        Screen::Explainability => explainability_summary_doc(model),
        Screen::Candidates => candidates_summary_doc(model),
        Screen::Ballast => ballast_summary_doc(model),
        Screen::LogSearch => log_summary_doc(model),
        Screen::Diagnostics => diagnostics_summary_doc(model),
    }
}

/// The right side of the footer: the summary and the place of the screen.
pub open spec fn footer_status(model: DashboardModel) -> Seq<PieceV> {
    let d = footer_summary(model);
    d + seq![
        styled(" "@, fg_on(Ink::Of(Tone::Secondary), Ink::Of(Tone::Panel))),
        styled(
            dec(screen_number(model.screen) as nat),
            fg_on(Ink::Of(Tone::Secondary), Ink::Of(Tone::Panel)),
        ),
        styled("/7 "@, fg_on(Ink::Of(Tone::Secondary), Ink::Of(Tone::Panel))),
    ]
}

fn footer_status_doc(model: &DashboardModel) -> (doc: Doc)
    ensures
        doc@ == footer_status(*model),
{
    let mut d = footer_summary_doc(model);
    let mut p = Doc::new();
    p.styled(" ", in_fg_on(Ink::Of(Tone::Secondary), Ink::Of(Tone::Panel)));
    p.styled(
        decimal(model.screen.number() as u64).as_str(),
        in_fg_on(Ink::Of(Tone::Secondary), Ink::Of(Tone::Panel)),
    );
    p.styled("/7 ", in_fg_on(Ink::Of(Tone::Secondary), Ink::Of(Tone::Panel)));
    d.append(p);
    d
}

/// Spaces between the two sides of a row: what they leave of its width.
pub open spec fn row_gap_of(width: u16, left: int, right: int) -> int {
    monus(width as int, left + right)
}

/// Spaces between the two sides of a row, for measured widths of the sides.
pub fn row_gap(width: u16, left: usize, right: usize) -> (gap: usize)
    requires
        left + right <= usize::MAX,
    ensures
        gap == row_gap_of(width, left as int, right as int),
{
    let used: usize = left + right;
    if used < width as usize {
        width as usize - used
    } else {
        0
    }
}

/// The two sides and the gap fill the row exactly where they fit.
pub proof fn law_row_is_filled(width: u16, left: int, right: int)
    requires
        left >= 0,
        right >= 0,
    ensures
        left + right <= width ==> left + row_gap_of(width, left, right) + right == width,
        left + right > width ==> row_gap_of(width, left, right) == 0,
{
}

/// One toast of the frame.
pub open spec fn frame_toast(toast: Notification) -> Seq<PieceV> {
    seq![
        ink("\u{2502}"@, notification_tone_of(toast.level)),
        styled(
            spaced_of(notification_word_of(toast.level)),
            bold_on(Ink::Of(Tone::Dark), Ink::Of(notification_tone_of(toast.level))),
        ),
        txt("  "@),
        ink(toast.message@, Tone::Primary),
        nl(),
    ]
}

fn frame_toast_doc(toast: &Notification) -> (doc: Doc)
    ensures
        doc@ == frame_toast(*toast),
{
    let mut d = Doc::new();
    d.ink("\u{2502}", notification_tone(toast.level));
    d.styled(
        spaced(notification_word(toast.level)).as_str(),
        in_bold_on(Ink::Of(Tone::Dark), Ink::Of(notification_tone(toast.level))),
    );
    d.text("  ");
    d.ink(toast.message.as_str(), Tone::Primary);
    d.newline();
    d
}

/// Toasts of the frame.
pub open spec fn frame_toasts_of(
    notifications: Seq<Notification>,
    from: int,
    to: int,
) -> Seq<PieceV>
    decreases to - from,
{
    if to <= from {
        seq![]
    } else {
        frame_toasts_of(notifications, from, to - 1) + frame_toast(notifications[(to - 1)])
    }
}

fn frame_toasts(notifications: &Vec<Notification>, from: usize, to: usize) -> (doc: Doc)
    requires
        from <= to,
        to <= notifications@.len(),
    ensures
        doc@ == frame_toasts_of(notifications@, from as int, to as int),
{
    let mut d = Doc::new();
    let mut k: usize = from;
    while k < to
        invariant
            from <= k <= to,
            to <= notifications@.len(),
            d@ == frame_toasts_of(notifications@, from as int, k as int),
        decreases to - k,
    {
        d.append(frame_toast_doc(&notifications[k]));
        k += 1;
    }
    d
}

/// How many toasts a frame shows.
pub open spec fn toast_rows_of(notifications: Seq<Notification>) -> u16 {
    if notifications.len() < FRAME_TOASTS {
        notifications.len() as u16
    } else {
        FRAME_TOASTS as u16
    }
}

fn toast_rows(notifications: &Vec<Notification>) -> (n: u16)
    ensures
        n == toast_rows_of(notifications@),
        n <= notifications@.len(),
{
    if notifications.len() < FRAME_TOASTS {
        notifications.len() as u16
    } else {
        FRAME_TOASTS as u16
    }
}

fn at_most(n: usize, limit: usize) -> (r: usize)
    ensures
        r == least(n as int, limit as int),
{
    if n < limit {
        n
    } else {
        limit
    }
}

/// One styled entry of the palette.
pub open spec fn palette_entry(action: PaletteAction, selected: bool) -> Seq<PieceV> {
    let d = if selected {
        seq![
            bold(" \u{25B8} "@, Tone::Accent),
            styled(
                padded_right(action.id@, 12),
                bold_on(Ink::Of(Tone::Accent), Ink::Of(Tone::Highlight)),
            ),
            styled(action.title@, fg_on(Ink::Of(Tone::Primary), Ink::Of(Tone::Highlight))),
        ]
    } else {
        seq![
            txt("   "@),
            ink(padded_right(action.id@, 12), Tone::Secondary),
            ink(action.title@, Tone::Secondary),
        ]
    };
    d + seq![
        nl(),
    ]
}

fn palette_entry_doc(action: PaletteAction, selected: bool) -> (doc: Doc)
    ensures
        doc@ == palette_entry(action, selected),
{
    let mut d = if selected {
        let mut p = Doc::new();
        p.bold(" \u{25B8} ", Tone::Accent);
        p.styled(
            pad_right(action.id, 12).as_str(),
            in_bold_on(Ink::Of(Tone::Accent), Ink::Of(Tone::Highlight)),
        );
        p.styled(action.title, in_fg_on(Ink::Of(Tone::Primary), Ink::Of(Tone::Highlight)));
        p
    } else {
        let mut p = Doc::new();
        p.text("   ");
        p.ink(pad_right(action.id, 12).as_str(), Tone::Secondary);
        p.ink(action.title, Tone::Secondary);
        p
    };
    let mut p = Doc::new();
    p.newline();
    d.append(p);
    d
}

/// Styled entries of the palette.
pub open spec fn palette_entries_of(
    found: Seq<PaletteAction>,
    selected: int,
    from: int,
    to: int,
) -> Seq<PieceV>
    decreases to - from,
{
    if to <= from {
        seq![]
    } else {
        palette_entries_of(found, selected, from, to - 1) + palette_entry(
            found[(to - 1)],
            (to - 1) == selected,
        )
    }
}

fn palette_entries(
    found: &Vec<PaletteAction>,
    selected: usize,
    from: usize,
    to: usize,
) -> (doc: Doc)
    requires
        from <= to,
        to <= found@.len(),
    ensures
        doc@ == palette_entries_of(found@, selected as int, from as int, to as int),
{
    let mut d = Doc::new();
    let mut k: usize = from;
    while k < to
        invariant
            from <= k <= to,
            to <= found@.len(),
            d@ == palette_entries_of(found@, selected as int, from as int, k as int),
        decreases to - k,
    {
        d.append(palette_entry_doc(found[k], k == selected));
        k += 1;
    }
    d
}

/// Command palette: query, counts and the entries found.
pub open spec fn palette_overlay(model: DashboardModel, width: u16) -> Seq<PieceV> {
    let found = search_result(model.palette_query@, PALETTE_SEARCH_LIMIT as nat);
    let d = seq![
        styled(" \u{25B8} "@, bold_on(Ink::Of(Tone::Dark), Ink::Of(Tone::Accent))),
        txt(" "@),
        ink(model.palette_query@, Tone::Primary),
        nl(),
        ink("  "@, Tone::Muted),
        ink(dec((palette_shown_of(found)) as nat), Tone::Muted),
        ink("/"@, Tone::Muted),
        ink(dec(found.len() as nat), Tone::Muted),
        ink(" matches"@, Tone::Muted),
        nl(),
        drawn(Atom::Rule(least(width as int, 60) as usize), fg(Ink::Of(Tone::Border))),
        nl(),
    ];
    d + palette_entries_of(found, model.palette_selected as int, 0, palette_shown_of(found))
}

fn palette_overlay_doc(model: &DashboardModel, width: u16) -> (doc: Doc)
    ensures
        doc@ == palette_overlay(*model, width),
{
    let found = search_palette_actions(model.palette_query.as_str(), PALETTE_SEARCH_LIMIT);
    let mut d = Doc::new();
    d.styled(" \u{25B8} ", in_bold_on(Ink::Of(Tone::Dark), Ink::Of(Tone::Accent)));
    d.text(" ");
    d.ink(model.palette_query.as_str(), Tone::Primary);
    d.newline();
    d.ink("  ", Tone::Muted);
    d.ink(decimal_usize(palette_shown(&found)).as_str(), Tone::Muted);
    d.ink("/", Tone::Muted);
    d.ink(decimal_usize(found.len()).as_str(), Tone::Muted);
    d.ink(" matches", Tone::Muted);
    d.newline();
    d.drawn(Atom::Rule(at_most(width as usize, 60)), in_fg(Ink::Of(Tone::Border)));
    d.newline();
    d.append(palette_entries(&found, model.palette_selected, 0, palette_shown(&found)));
    d
}

/// Help: the key bindings by category.
pub open spec fn help_overlay() -> Seq<PieceV> {
    let d = seq![
        bold(" Navigation"@, Tone::Primary),
        nl(),
        txt("  "@),
        drawn(Atom::KeyHint { key: "?"@, label: "toggle help"@ }, fg(Ink::Of(Tone::Accent))),
        nl(),
        txt("  "@),
        drawn(Atom::KeyHint { key: ":"@, label: "command palette"@ }, fg(Ink::Of(Tone::Accent))),
        nl(),
        txt("  "@),
        drawn(Atom::KeyHint { key: "1-7"@, label: "jump to screen"@ }, fg(Ink::Of(Tone::Accent))),
        nl(),
        txt("  "@),
        drawn(Atom::KeyHint { key: "[/]"@, label: "prev/next screen"@ }, fg(Ink::Of(Tone::Accent))),
        nl(),
        nl(),
    ];
    let d = d + seq![
        bold(" Screen"@, Tone::Primary),
        nl(),
        txt("  "@),
        drawn(
            Atom::KeyHint { key: "Tab"@, label: "next overview pane"@ },
            fg(Ink::Of(Tone::Accent)),
        ),
        nl(),
        txt("  "@),
        drawn(
            Atom::KeyHint { key: "S-Tab"@, label: "prev overview pane"@ },
            fg(Ink::Of(Tone::Accent)),
        ),
        nl(),
        txt("  "@),
        drawn(
            Atom::KeyHint { key: "\u{23CE}"@, label: "open focused pane"@ },
            fg(Ink::Of(Tone::Accent)),
        ),
        nl(),
        txt("  "@),
        drawn(
            Atom::KeyHint { key: "j/k"@, label: "navigate list items"@ },
            fg(Ink::Of(Tone::Accent)),
        ),
        nl(),
        nl(),
    ];
    let d = d + seq![
        bold(" Overlay"@, Tone::Primary),
        nl(),
        txt("  "@),
        drawn(
            Atom::KeyHint { key: "Esc"@, label: "close \u{2192} back \u{2192} quit"@ },
            fg(Ink::Of(Tone::Accent)),
        ),
        nl(),
        txt("  "@),
        drawn(Atom::KeyHint { key: "click"@, label: "close overlay"@ }, fg(Ink::Of(Tone::Accent))),
        nl(),
        nl(),
    ];
    d + seq![
        bold(" General"@, Tone::Primary),
        nl(),
        txt("  "@),
        drawn(Atom::KeyHint { key: "r"@, label: "refresh data"@ }, fg(Ink::Of(Tone::Accent))),
        nl(),
        txt("  "@),
        drawn(Atom::KeyHint { key: "q"@, label: "quit dashboard"@ }, fg(Ink::Of(Tone::Accent))),
        nl(),
    ]
}

fn help_overlay_doc() -> (doc: Doc)
    ensures
        doc@ == help_overlay(),
{
    let mut d = Doc::new();
    d.bold(" Navigation", Tone::Primary);
    d.newline();
    d.text("  ");
    d.drawn(
        Atom::KeyHint { key: "?".to_owned(), label: "toggle help".to_owned() },
        in_fg(Ink::Of(Tone::Accent)),
    );
    d.newline();
    d.text("  ");
    d.drawn(
        Atom::KeyHint { key: ":".to_owned(), label: "command palette".to_owned() },
        in_fg(Ink::Of(Tone::Accent)),
    );
    d.newline();
    d.text("  ");
    d.drawn(
        Atom::KeyHint { key: "1-7".to_owned(), label: "jump to screen".to_owned() },
        in_fg(Ink::Of(Tone::Accent)),
    );
    d.newline();
    d.text("  ");
    d.drawn(
        Atom::KeyHint { key: "[/]".to_owned(), label: "prev/next screen".to_owned() },
        in_fg(Ink::Of(Tone::Accent)),
    );
    d.newline();
    d.newline();
    let mut p = Doc::new();
    p.bold(" Screen", Tone::Primary);
    p.newline();
    p.text("  ");
    p.drawn(
        Atom::KeyHint { key: "Tab".to_owned(), label: "next overview pane".to_owned() },
        in_fg(Ink::Of(Tone::Accent)),
    );
    p.newline();
    p.text("  ");
    p.drawn(
        Atom::KeyHint { key: "S-Tab".to_owned(), label: "prev overview pane".to_owned() },
        in_fg(Ink::Of(Tone::Accent)),
    );
    p.newline();
    p.text("  ");
    p.drawn(
        Atom::KeyHint { key: "\u{23CE}".to_owned(), label: "open focused pane".to_owned() },
        in_fg(Ink::Of(Tone::Accent)),
    );
    p.newline();
    p.text("  ");
    p.drawn(
        Atom::KeyHint { key: "j/k".to_owned(), label: "navigate list items".to_owned() },
        in_fg(Ink::Of(Tone::Accent)),
    );
    p.newline();
    p.newline();
    d.append(p);
    let mut p = Doc::new();
    p.bold(" Overlay", Tone::Primary);
    p.newline();
    p.text("  ");
    p.drawn(
        Atom::KeyHint { key: "Esc".to_owned(), label: "close \u{2192} back \u{2192} quit".to_owned() },
        in_fg(Ink::Of(Tone::Accent)),
    );
    p.newline();
    p.text("  ");
    p.drawn(
        Atom::KeyHint { key: "click".to_owned(), label: "close overlay".to_owned() },
        in_fg(Ink::Of(Tone::Accent)),
    );
    p.newline();
    p.newline();
    d.append(p);
    let mut p = Doc::new();
    p.bold(" General", Tone::Primary);
    p.newline();
    p.text("  ");
    p.drawn(
        Atom::KeyHint { key: "r".to_owned(), label: "refresh data".to_owned() },
        in_fg(Ink::Of(Tone::Accent)),
    );
    p.newline();
    p.text("  ");
    p.drawn(
        Atom::KeyHint { key: "q".to_owned(), label: "quit dashboard".to_owned() },
        in_fg(Ink::Of(Tone::Accent)),
    );
    p.newline();
    d.append(p);
    d
}

/// The scan scheduler and its budget.
pub open spec fn voi_overlay() -> Seq<PieceV> {
    let d = seq![
        bold("VOI (Value-of-Information) Scan Scheduler"@, Tone::Accent),
        nl(),
        nl(),
        ink("Allocates a limited scan budget to paths most likely"@, Tone::Secondary),
        nl(),
        ink("to yield reclaimable space."@, Tone::Secondary),
        nl(),
        nl(),
    ];
    let d = d + seq![
        bold("Budget"@, Tone::Primary),
        nl(),
        ink("  paths/cycle  "@, Tone::Muted),
        badge("5"@, Tone::Accent),
        nl(),
        ink("  split        "@, Tone::Muted),
        badge("80%"@, Tone::Success),
        ink(" exploit  "@, Tone::Secondary),
        badge("20%"@, Tone::Warning),
        ink(" explore"@, Tone::Secondary),
        nl(),
        nl(),
    ];
    let d = d + seq![
        bold("Exploitation"@, Tone::Primary),
        nl(),
        ink("  Selects paths with highest expected reclaim"@, Tone::Secondary),
        nl(),
        ink("  weighted by IO cost and false-positive risk."@, Tone::Secondary),
        nl(),
        nl(),
    ];
    let d = d + seq![
        bold("Exploration"@, Tone::Primary),
        nl(),
        ink("  Re-scans least-recently-visited paths to"@, Tone::Secondary),
        nl(),
        ink("  discover changed workloads."@, Tone::Secondary),
        nl(),
        nl(),
    ];
    d + seq![
        bold("Fallback"@, Tone::Primary),
        nl(),
        ink("  MAPE > 50% for 3 windows \u{2192} round-robin."@, Tone::Secondary),
        nl(),
        ink("  Recovers after 5 clean windows."@, Tone::Secondary),
        nl(),
        nl(),
        ink("Config: [scheduler] section in config.toml"@, Tone::Muted),
        nl(),
    ]
}

fn voi_overlay_doc() -> (doc: Doc)
    ensures
        doc@ == voi_overlay(),
{
    let mut d = Doc::new();
    d.bold("VOI (Value-of-Information) Scan Scheduler", Tone::Accent);
    d.newline();
    d.newline();
    d.ink("Allocates a limited scan budget to paths most likely", Tone::Secondary);
    d.newline();
    d.ink("to yield reclaimable space.", Tone::Secondary);
    d.newline();
    d.newline();
    let mut p = Doc::new();
    p.bold("Budget", Tone::Primary);
    p.newline();
    p.ink("  paths/cycle  ", Tone::Muted);
    p.badge("5", Tone::Accent);
    p.newline();
    p.ink("  split        ", Tone::Muted);
    p.badge("80%", Tone::Success);
    p.ink(" exploit  ", Tone::Secondary);
    p.badge("20%", Tone::Warning);
    p.ink(" explore", Tone::Secondary);
    p.newline();
    p.newline();
    d.append(p);
    let mut p = Doc::new();
    p.bold("Exploitation", Tone::Primary);
    p.newline();
    p.ink("  Selects paths with highest expected reclaim", Tone::Secondary);
    p.newline();
    p.ink("  weighted by IO cost and false-positive risk.", Tone::Secondary);
    p.newline();
    p.newline();
    d.append(p);
    let mut p = Doc::new();
    p.bold("Exploration", Tone::Primary);
    p.newline();
    p.ink("  Re-scans least-recently-visited paths to", Tone::Secondary);
    p.newline();
    p.ink("  discover changed workloads.", Tone::Secondary);
    p.newline();
    p.newline();
    d.append(p);
    let mut p = Doc::new();
    p.bold("Fallback", Tone::Primary);
    p.newline();
    p.ink("  MAPE > 50% for 3 windows \u{2192} round-robin.", Tone::Secondary);
    p.newline();
    p.ink("  Recovers after 5 clean windows.", Tone::Secondary);
    p.newline();
    p.newline();
    p.ink("Config: [scheduler] section in config.toml", Tone::Muted);
    p.newline();
    d.append(p);
    d
}

/// What a confirmation asks for.
pub open spec fn confirm_text_of(action: ConfirmAction) -> Seq<char> {
    match action {
        ConfirmAction::BallastRelease => "Release selected ballast file"@,
        ConfirmAction::BallastReleaseAll => "Release ALL ballast files on this mount"@,
    }
}

fn confirm_text(action: ConfirmAction) -> (s: &'static str)
    ensures
        s@ == confirm_text_of(action),
{
    match action {
        ConfirmAction::BallastRelease => "Release selected ballast file",
        ConfirmAction::BallastReleaseAll => "Release ALL ballast files on this mount",
    }
}

/// Colour role of a confirmation.
pub open spec fn confirm_tone_of(action: ConfirmAction) -> Tone {
    match action {
        ConfirmAction::BallastRelease => Tone::Warning,
        ConfirmAction::BallastReleaseAll => Tone::Danger,
    }
}

fn confirm_tone(action: ConfirmAction) -> (t: Tone)
    ensures
        t == confirm_tone_of(action),
{
    match action {
        ConfirmAction::BallastRelease => Tone::Warning,
        ConfirmAction::BallastReleaseAll => Tone::Danger,
    }
}

/// A confirmation: what is asked for and the keys that answer.
pub open spec fn confirm_overlay(action: ConfirmAction, width: u16) -> Seq<PieceV> {
    seq![
        bold("\u{26A0}  Confirmation Required"@, confirm_tone_of(action)),
        nl(),
        nl(),
        bold("  "@, confirm_tone_of(action)),
        bold(confirm_text_of(action), confirm_tone_of(action)),
        nl(),
        nl(),
        ink("  Are you sure?"@, Tone::Primary),
        nl(),
        nl(),
        drawn(Atom::Rule(least(width as int, 40) as usize), fg(Ink::Of(Tone::Border))),
        nl(),
        txt("  "@),
        drawn(
            Atom::KeyHint { key: "Enter"@, label: "Confirm"@ },
            fg(Ink::Of(confirm_tone_of(action))),
        ),
        txt("  "@),
        drawn(Atom::KeyHint { key: "Esc"@, label: "Cancel"@ }, fg(Ink::Of(Tone::Muted))),
        nl(),
    ]
}

fn confirm_overlay_doc(action: ConfirmAction, width: u16) -> (doc: Doc)
    ensures
        doc@ == confirm_overlay(action, width),
{
    let mut d = Doc::new();
    d.bold("\u{26A0}  Confirmation Required", confirm_tone(action));
    d.newline();
    d.newline();
    d.bold("  ", confirm_tone(action));
    d.bold(confirm_text(action), confirm_tone(action));
    d.newline();
    d.newline();
    d.ink("  Are you sure?", Tone::Primary);
    d.newline();
    d.newline();
    d.drawn(Atom::Rule(at_most(width as usize, 40)), in_fg(Ink::Of(Tone::Border)));
    d.newline();
    d.text("  ");
    d.drawn(
        Atom::KeyHint { key: "Enter".to_owned(), label: "Confirm".to_owned() },
        in_fg(Ink::Of(confirm_tone(action))),
    );
    d.text("  ");
    d.drawn(
        Atom::KeyHint { key: "Esc".to_owned(), label: "Cancel".to_owned() },
        in_fg(Ink::Of(Tone::Muted)),
    );
    d.newline();
    d
}

/// Colour role of an incident severity.
pub open spec fn incident_tone_of(severity: IncidentSeverity) -> Tone {
    match severity {
        IncidentSeverity::Critical => Tone::Danger,
        IncidentSeverity::High | IncidentSeverity::Elevated => Tone::Warning,
        IncidentSeverity::Normal => Tone::Success,
    }
}

fn incident_tone(severity: IncidentSeverity) -> (t: Tone)
    ensures
        t == incident_tone_of(severity),
{
    match severity {
        IncidentSeverity::Critical => Tone::Danger,
        IncidentSeverity::High | IncidentSeverity::Elevated => Tone::Warning,
        IncidentSeverity::Normal => Tone::Success,
    }
}

/// One step of the playbook.
pub open spec fn playbook_step(
    entry: PlaybookEntry,
    number: nat,
    selected: bool,
    severity: IncidentSeverity,
) -> Seq<PieceV> {
    let d = if selected {
        seq![
            bold("\u{25B8} "@, incident_tone_of(severity)),
            ink(dec(number), Tone::Muted),
            ink(". "@, Tone::Muted),
            styled(
                entry.label@,
                bold_on(Ink::Of(incident_tone_of(severity)), Ink::Of(Tone::Highlight)),
            ),
        ]
    } else {
        seq![
            ink("  "@, Tone::Muted),
            ink(dec(number), Tone::Muted),
            ink(". "@, Tone::Muted),
            ink(entry.label@, Tone::Primary),
        ]
    };
    d + seq![
        txt(" "@),
        badge_in(tab_label_of(entry.target), Ink::Tab(screen_number(entry.target) as u8)),
        nl(),
        txt("     "@),
        ink(entry.description@, Tone::Secondary),
        nl(),
    ]
}

fn playbook_step_doc(
    entry: PlaybookEntry,
    number: usize,
    selected: bool,
    severity: IncidentSeverity,
) -> (doc: Doc)
    ensures
        doc@ == playbook_step(entry, number as nat, selected, severity),
{
    let mut d = if selected {
        let mut p = Doc::new();
        p.bold("\u{25B8} ", incident_tone(severity));
        p.ink(decimal_usize(number).as_str(), Tone::Muted);
        p.ink(". ", Tone::Muted);
        p.styled(
            entry.label,
            in_bold_on(Ink::Of(incident_tone(severity)), Ink::Of(Tone::Highlight)),
        );
        p
    } else {
        let mut p = Doc::new();
        p.ink("  ", Tone::Muted);
        p.ink(decimal_usize(number).as_str(), Tone::Muted);
        p.ink(". ", Tone::Muted);
        p.ink(entry.label, Tone::Primary);
        p
    };
    let mut p = Doc::new();
    p.text(" ");
    p.badge_in(screen_tab_label(entry.target), Ink::Tab(entry.target.number()));
    p.newline();
    p.text("     ");
    p.ink(entry.description, Tone::Secondary);
    p.newline();
    d.append(p);
    d
}

/// Steps of the playbook.
pub open spec fn playbook_steps_of(
    entries: Seq<PlaybookEntry>,
    selected: int,
    severity: IncidentSeverity,
    from: int,
    to: int,
) -> Seq<PieceV>
    decreases to - from,
{
    if to <= from {
        seq![]
    } else {
        playbook_steps_of(entries, selected, severity, from, to - 1) + playbook_step(
            entries[(to - 1)],
            ((to - 1) + 1) as nat,
            (to - 1) == selected,
            severity,
        )
    }
}

fn playbook_steps(
    entries: &Vec<PlaybookEntry>,
    selected: usize,
    severity: IncidentSeverity,
    from: usize,
    to: usize,
) -> (doc: Doc)
    requires
        from <= to,
        to <= entries@.len(),
    ensures
        doc@ == playbook_steps_of(entries@, selected as int, severity, from as int, to as int),
{
    let mut d = Doc::new();
    let mut k: usize = from;
    while k < to
        invariant
            from <= k <= to,
            to <= entries@.len(),
            d@ == playbook_steps_of(entries@, selected as int, severity, from as int, k as int),
        decreases to - k,
    {
        d.append(playbook_step_doc(entries[k], k + 1, k == selected, severity));
        k += 1;
    }
    d
}

/// Incident playbook: the severity and its triage steps.
pub open spec fn playbook_overlay(model: DashboardModel, width: u16) -> Seq<PieceV> {
    let severity = state_severity(model.daemon_state);
    let entries = relevant_steps(severity);
    let d = seq![
        ink("severity "@, Tone::Secondary),
        badge(severity_label(severity), incident_tone_of(severity)),
        ink("  "@, Tone::Muted),
        ink(dec(entries.len() as nat), Tone::Muted),
        ink(" steps"@, Tone::Muted),
        nl(),
        drawn(Atom::Rule(least(width as int, 50) as usize), fg(Ink::Of(Tone::Border))),
        nl(),
    ];
    let d = d + playbook_steps_of(
        entries,
        model.incident_playbook_selected as int,
        severity,
        0,
        entries.len() as int,
    );
    d + seq![
        nl(),
        txt("  "@),
        drawn(
            Atom::KeyHint { key: "Enter"@, label: "navigate to step"@ },
            fg(Ink::Of(incident_tone_of(severity))),
        ),
        nl(),
    ]
}

fn playbook_overlay_doc(model: &DashboardModel, width: u16) -> (doc: Doc)
    ensures
        doc@ == playbook_overlay(*model, width),
{
    let severity = IncidentSeverity::from_daemon_state(model.daemon_state.as_ref());
    let entries = playbook_for_severity(severity);
    let mut d = Doc::new();
    d.ink("severity ", Tone::Secondary);
    d.badge(severity.label(), incident_tone(severity));
    d.ink("  ", Tone::Muted);
    d.ink(decimal_usize(entries.len()).as_str(), Tone::Muted);
    d.ink(" steps", Tone::Muted);
    d.newline();
    d.drawn(Atom::Rule(at_most(width as usize, 50)), in_fg(Ink::Of(Tone::Border)));
    d.newline();
    d.append(playbook_steps(
        &entries,
        model.incident_playbook_selected,
        severity,
        0,
        entries.len(),
    ));
    let mut p = Doc::new();
    p.newline();
    p.text("  ");
    p.drawn(
        Atom::KeyHint { key: "Enter".to_owned(), label: "navigate to step".to_owned() },
        in_fg(Ink::Of(incident_tone(severity))),
    );
    p.newline();
    d.append(p);
    d
}

/// Title of an overlay.
pub open spec fn overlay_title_of(overlay: Overlay) -> Seq<char> {
    match overlay {
        Overlay::CommandPalette => "Command Palette"@,
        Overlay::Help => "Help"@,
        Overlay::Voi => "VOI Scheduler"@,
        Overlay::Confirmation(_) => "Confirm"@,
        Overlay::IncidentPlaybook => "Incident Playbook"@,
    }
}

fn overlay_title(overlay: Overlay) -> (s: &'static str)
    ensures
        s@ == overlay_title_of(overlay),
{
    match overlay {
        Overlay::CommandPalette => "Command Palette",
        Overlay::Help => "Help",
        Overlay::Voi => "VOI Scheduler",
        Overlay::Confirmation(_) => "Confirm",
        Overlay::IncidentPlaybook => "Incident Playbook",
    }
}

/// Content of an overlay whose inner area has a width.
pub open spec fn overlay_content(
    model: DashboardModel,
    overlay: Overlay,
    width: u16,
) -> Seq<PieceV> {
    match overlay {
        Overlay::CommandPalette => palette_overlay(model, width),
        Overlay::Help => help_overlay(),
        Overlay::Voi => voi_overlay(),
        Overlay::Confirmation(action) => confirm_overlay(action, width),
        Overlay::IncidentPlaybook => playbook_overlay(model, width),
    }
}

/// Content of an overlay whose inner area has a width.
pub fn frame_overlay_content(model: &DashboardModel, overlay: Overlay, width: u16) -> (doc: Doc)
    ensures
        doc@ == overlay_content(*model, overlay, width),
{
    match overlay {
        Overlay::CommandPalette => palette_overlay_doc(model, width),
        Overlay::Help => help_overlay_doc(),
        Overlay::Voi => voi_overlay_doc(),
        Overlay::Confirmation(action) => confirm_overlay_doc(action, width),
        Overlay::IncidentPlaybook => playbook_overlay_doc(model, width),
    }
}

/// That the terminal is too small, and what to do.
pub open spec fn small_message(model: DashboardModel) -> Seq<PieceV> {
    seq![
        txt("Terminal too small for dashboard layout."@),
        nl(),
        txt("Need >= "@),
        txt(dec(MIN_USABLE_COLS as nat)),
        txt("x"@),
        txt(dec(MIN_USABLE_ROWS as nat)),
        txt(", got "@),
        txt(dec(model.terminal_size.0 as nat)),
        txt("x"@),
        txt(dec(model.terminal_size.1 as nat)),
        txt("."@),
        nl(),
        txt("Resize terminal to continue."@),
        nl(),
    ]
}

fn too_small_message(model: &DashboardModel) -> (doc: Doc)
    ensures
        doc@ == small_message(*model),
{
    let mut d = Doc::new();
    d.text("Terminal too small for dashboard layout.");
    d.newline();
    d.text("Need >= ");
    d.text(decimal(MIN_USABLE_COLS as u64).as_str());
    d.text("x");
    d.text(decimal(MIN_USABLE_ROWS as u64).as_str());
    d.text(", got ");
    d.text(decimal(model.terminal_size.0 as u64).as_str());
    d.text("x");
    d.text(decimal(model.terminal_size.1 as u64).as_str());
    d.text(".");
    d.newline();
    d.text("Resize terminal to continue.");
    d.newline();
    d
}

/// Status strip of the timeline screen.
pub open spec fn timeline_strip() -> Seq<PieceV> {
    seq![
        drawn(Atom::KeyHint { key: "j/k"@, label: "scroll"@ }, fg(Ink::Tab(2))),
        drawn(Atom::KeyHint { key: "f"@, label: "filter"@ }, fg(Ink::Tab(2))),
        drawn(Atom::KeyHint { key: "F"@, label: "follow"@ }, fg(Ink::Tab(2))),
        drawn(Atom::KeyHint { key: "r"@, label: "refresh"@ }, fg(Ink::Tab(2))),
        drawn(Atom::KeyHint { key: "Esc"@, label: "back"@ }, fg(Ink::Tab(2))),
    ]
}

fn timeline_strip_doc() -> (doc: Doc)
    ensures
        doc@ == timeline_strip(),
{
    let mut d = Doc::new();
    d.drawn(
        Atom::KeyHint { key: "j/k".to_owned(), label: "scroll".to_owned() },
        in_fg(Ink::Tab(2)),
    );
    d.drawn(Atom::KeyHint { key: "f".to_owned(), label: "filter".to_owned() }, in_fg(Ink::Tab(2)));
    d.drawn(Atom::KeyHint { key: "F".to_owned(), label: "follow".to_owned() }, in_fg(Ink::Tab(2)));
    d.drawn(Atom::KeyHint { key: "r".to_owned(), label: "refresh".to_owned() }, in_fg(Ink::Tab(2)));
    d.drawn(Atom::KeyHint { key: "Esc".to_owned(), label: "back".to_owned() }, in_fg(Ink::Tab(2)));
    d
}

/// Status strip of the explainability screen.
pub open spec fn explainability_strip() -> Seq<PieceV> {
    seq![
        drawn(Atom::KeyHint { key: "j/k"@, label: "scroll"@ }, fg(Ink::Tab(3))),
        drawn(Atom::KeyHint { key: "\u{23CE}"@, label: "detail"@ }, fg(Ink::Tab(3))),
        drawn(Atom::KeyHint { key: "d"@, label: "close"@ }, fg(Ink::Tab(3))),
        drawn(Atom::KeyHint { key: "r"@, label: "refresh"@ }, fg(Ink::Tab(3))),
        drawn(Atom::KeyHint { key: "Esc"@, label: "back"@ }, fg(Ink::Tab(3))),
    ]
}

fn explainability_strip_doc() -> (doc: Doc)
    ensures
        doc@ == explainability_strip(),
{
    let mut d = Doc::new();
    d.drawn(
        Atom::KeyHint { key: "j/k".to_owned(), label: "scroll".to_owned() },
        in_fg(Ink::Tab(3)),
    );
    d.drawn(
        Atom::KeyHint { key: "\u{23CE}".to_owned(), label: "detail".to_owned() },
        in_fg(Ink::Tab(3)),
    );
    d.drawn(Atom::KeyHint { key: "d".to_owned(), label: "close".to_owned() }, in_fg(Ink::Tab(3)));
    d.drawn(Atom::KeyHint { key: "r".to_owned(), label: "refresh".to_owned() }, in_fg(Ink::Tab(3)));
    d.drawn(Atom::KeyHint { key: "Esc".to_owned(), label: "back".to_owned() }, in_fg(Ink::Tab(3)));
    d
}

/// Status strip of the candidates screen.
pub open spec fn candidates_strip() -> Seq<PieceV> {
    seq![
        drawn(Atom::KeyHint { key: "j/k"@, label: "scroll"@ }, fg(Ink::Tab(4))),
        drawn(Atom::KeyHint { key: "\u{23CE}"@, label: "detail"@ }, fg(Ink::Tab(4))),
        drawn(Atom::KeyHint { key: "s"@, label: "sort"@ }, fg(Ink::Tab(4))),
        drawn(Atom::KeyHint { key: "d"@, label: "close"@ }, fg(Ink::Tab(4))),
        drawn(Atom::KeyHint { key: "Esc"@, label: "back"@ }, fg(Ink::Tab(4))),
    ]
}

fn candidates_strip_doc() -> (doc: Doc)
    ensures
        doc@ == candidates_strip(),
{
    let mut d = Doc::new();
    d.drawn(
        Atom::KeyHint { key: "j/k".to_owned(), label: "scroll".to_owned() },
        in_fg(Ink::Tab(4)),
    );
    d.drawn(
        Atom::KeyHint { key: "\u{23CE}".to_owned(), label: "detail".to_owned() },
        in_fg(Ink::Tab(4)),
    );
    d.drawn(Atom::KeyHint { key: "s".to_owned(), label: "sort".to_owned() }, in_fg(Ink::Tab(4)));
    d.drawn(Atom::KeyHint { key: "d".to_owned(), label: "close".to_owned() }, in_fg(Ink::Tab(4)));
    d.drawn(Atom::KeyHint { key: "Esc".to_owned(), label: "back".to_owned() }, in_fg(Ink::Tab(4)));
    d
}

/// Status strip of the ballast screen.
pub open spec fn ballast_strip() -> Seq<PieceV> {
    seq![
        drawn(Atom::KeyHint { key: "j/k"@, label: "scroll"@ }, fg(Ink::Tab(5))),
        drawn(Atom::KeyHint { key: "\u{23CE}"@, label: "detail"@ }, fg(Ink::Tab(5))),
        drawn(Atom::KeyHint { key: "d"@, label: "close"@ }, fg(Ink::Tab(5))),
        drawn(Atom::KeyHint { key: "r"@, label: "refresh"@ }, fg(Ink::Tab(5))),
        drawn(Atom::KeyHint { key: "Esc"@, label: "back"@ }, fg(Ink::Tab(5))),
    ]
}

fn ballast_strip_doc() -> (doc: Doc)
    ensures
        doc@ == ballast_strip(),
{
    let mut d = Doc::new();
    d.drawn(
        Atom::KeyHint { key: "j/k".to_owned(), label: "scroll".to_owned() },
        in_fg(Ink::Tab(5)),
    );
    d.drawn(
        Atom::KeyHint { key: "\u{23CE}".to_owned(), label: "detail".to_owned() },
        in_fg(Ink::Tab(5)),
    );
    d.drawn(Atom::KeyHint { key: "d".to_owned(), label: "close".to_owned() }, in_fg(Ink::Tab(5)));
    d.drawn(Atom::KeyHint { key: "r".to_owned(), label: "refresh".to_owned() }, in_fg(Ink::Tab(5)));
    d.drawn(Atom::KeyHint { key: "Esc".to_owned(), label: "back".to_owned() }, in_fg(Ink::Tab(5)));
    d
}

/// Status strip of the log screen.
pub open spec fn log_strip() -> Seq<PieceV> {
    seq![
        drawn(Atom::KeyHint { key: "j/k"@, label: "scroll"@ }, fg(Ink::Tab(6))),
        drawn(Atom::KeyHint { key: "r"@, label: "refresh"@ }, fg(Ink::Tab(6))),
        drawn(Atom::KeyHint { key: "Esc"@, label: "back"@ }, fg(Ink::Tab(6))),
    ]
}

fn log_strip_doc() -> (doc: Doc)
    ensures
        doc@ == log_strip(),
{
    let mut d = Doc::new();
    d.drawn(
        Atom::KeyHint { key: "j/k".to_owned(), label: "scroll".to_owned() },
        in_fg(Ink::Tab(6)),
    );
    d.drawn(Atom::KeyHint { key: "r".to_owned(), label: "refresh".to_owned() }, in_fg(Ink::Tab(6)));
    d.drawn(Atom::KeyHint { key: "Esc".to_owned(), label: "back".to_owned() }, in_fg(Ink::Tab(6)));
    d
}

/// Status strip of the diagnostics screen.
pub open spec fn diagnostics_strip() -> Seq<PieceV> {
    seq![
        drawn(Atom::KeyHint { key: "V"@, label: "verbose"@ }, fg(Ink::Tab(7))),
        drawn(Atom::KeyHint { key: "r"@, label: "refresh"@ }, fg(Ink::Tab(7))),
        drawn(Atom::KeyHint { key: "Esc"@, label: "back"@ }, fg(Ink::Tab(7))),
    ]
}

fn diagnostics_strip_doc() -> (doc: Doc)
    ensures
        doc@ == diagnostics_strip(),
{
    let mut d = Doc::new();
    d.drawn(Atom::KeyHint { key: "V".to_owned(), label: "verbose".to_owned() }, in_fg(Ink::Tab(7)));
    d.drawn(Atom::KeyHint { key: "r".to_owned(), label: "refresh".to_owned() }, in_fg(Ink::Tab(7)));
    d.drawn(Atom::KeyHint { key: "Esc".to_owned(), label: "back".to_owned() }, in_fg(Ink::Tab(7)));
    d
}

/// A pane: nothing in an empty area, bare content in a small one, and
/// otherwise a titled panel with the content inside.
pub open spec fn pane_scene(
    area: PaneRect,
    title: Seq<char>,
    content: Seq<PieceV>,
    border: InkV,
) -> Seq<DrawV> {
    if area.width == 0 || area.height == 0 {
        seq![]
    } else if area.height < 3 || area.width < 6 {
        seq![Draw::Content { rect: area, content, fg: Some(Tone::Primary), bg: None }]
    } else {
        seq![
            Draw::Panel { rect: area, title, border },
            Draw::Content {
                rect: inner_of(area),
                content,
                fg: Some(Tone::Secondary),
                bg: None,
            },
        ]
    }
}

/// A pane: nothing in an empty area, bare content in a small one, and
/// otherwise a titled panel with the content inside.
pub fn frame_render_styled_pane(
    area: PaneRect,
    title: &str,
    content: Doc,
    border: Ink<String>,
) -> (scene: Scene)
    ensures
        scene@ == pane_scene(area, title@, content@, border@),
{
    let mut s = Scene::new();
    if area.width == 0 || area.height == 0 {
        return s;
    }
    if area.height < 3 || area.width < 6 {
        s.put(Draw::Content { rect: area, content, fg: Some(Tone::Primary), bg: None });
        return s;
    }
    s.put(Draw::Panel { rect: area, title: title.to_owned(), border });
    s.put(
        Draw::Content {
            rect: panel_inner(area),
            content,
            fg: Some(Tone::Secondary),
            bg: None,
        },
    );
    s
}

/// A status strip; nothing in an empty area.
pub open spec fn strip_scene(area: PaneRect, content: Seq<PieceV>) -> Seq<DrawV> {
    if area.width == 0 || area.height == 0 {
        seq![]
    } else {
        seq![
            Draw::Content {
                rect: area,
                content,
                fg: Some(Tone::Muted),
                bg: Some(Tone::Panel),
            },
        ]
    }
}

/// A status strip; nothing in an empty area.
pub fn frame_render_styled_status_strip(area: PaneRect, content: Doc) -> (scene: Scene)
    ensures
        scene@ == strip_scene(area, content@),
{
    let mut s = Scene::new();
    if area.width > 0 && area.height > 0 {
        s.put(
            Draw::Content {
                rect: area,
                content,
                fg: Some(Tone::Muted),
                bg: Some(Tone::Panel),
            },
        );
    }
    s
}

/// One pane of the timeline screen.
pub open spec fn timeline_pane(
    model: DashboardModel,
    pane: TimelinePane,
    area: PaneRect,
) -> Seq<DrawV> {
    match pane {
        TimelinePane::FilterBar => pane_scene(
            area,
            "Filters"@,
            timeline_filter_bar(model),
            Ink::Of(Tone::Border),
        ),
        TimelinePane::EventList => pane_scene(
            area,
            "Events"@,
            timeline_list_pane(model, body_rows(area)),
            Ink::Tab(2),
        ),
        TimelinePane::EventDetail => pane_scene(
            area,
            "Detail"@,
            timeline_detail_pane(model),
            Ink::Tab(2),
        ),
        TimelinePane::StatusFooter => strip_scene(area, timeline_strip()),
    }
}

fn timeline_pane_scene(model: &DashboardModel, pane: TimelinePane, area: PaneRect) -> (scene: Scene)
    ensures
        scene@ == timeline_pane(*model, pane, area),
{
    match pane {
        TimelinePane::FilterBar => frame_render_styled_pane(
            area,
            "Filters",
            frame_timeline_filter_styled(model),
            Ink::Of(Tone::Border),
        ),
        TimelinePane::EventList => frame_render_styled_pane(
            area,
            "Events",
            frame_timeline_list_styled(model, pane_body_rows(area)),
            Ink::Tab(2),
        ),
        TimelinePane::EventDetail => frame_render_styled_pane(
            area,
            "Detail",
            frame_timeline_detail_styled(model),
            Ink::Tab(2),
        ),
        TimelinePane::StatusFooter => frame_render_styled_status_strip(area, timeline_strip_doc()),
    }
}

/// The first panes of the timeline screen in a body area; hidden panes and panes
/// that do not fit are left out.
pub open spec fn timeline_panes(
    model: DashboardModel,
    body: PaneRect,
    placements: Seq<TimelinePlacement>,
    to: int,
) -> Seq<DrawV>
    decreases to,
{
    if to <= 0 {
        seq![]
    } else {
        let p = placements[to - 1];
        let area = placed(body, p.rect);
        let before = timeline_panes(model, body, placements, to - 1);
        if p.visible && area.width > 0 && area.height > 0 {
            before + timeline_pane(model, p.pane, area)
        } else {
            before
        }
    }
}

/// The timeline screen in a body area.
pub open spec fn timeline_scene(model: DashboardModel, body: PaneRect) -> Seq<DrawV> {
    let placements = timeline_placements(body.width as int, body.height as int);
    timeline_panes(model, body, placements, placements.len() as int)
}

/// The timeline screen in a body area.
pub fn frame_render_timeline(model: &DashboardModel, body: PaneRect) -> (scene: Scene)
    ensures
        scene@ == timeline_scene(*model, body),
{
    let layout = build_timeline_layout(body.width, body.height);
    let mut s = Scene::new();
    let mut k: usize = 0;
    while k < layout.placements.len()
        invariant
            k <= layout.placements@.len(),
            layout.placements@ == timeline_placements(body.width as int, body.height as int),
            s@ == timeline_panes(*model, body, layout.placements@, k as int),
        decreases layout.placements@.len() - k,
    {
        let p = layout.placements[k];
        let area = rect_in_body(body, p.rect);
        if p.visible && area.width > 0 && area.height > 0 {
            s.append(timeline_pane_scene(model, p.pane, area));
        }
        k += 1;
    }
    s
}

/// One pane of the explainability screen.
pub open spec fn explainability_pane(
    model: DashboardModel,
    pane: ExplainabilityPane,
    area: PaneRect,
) -> Seq<DrawV> {
    match pane {
        ExplainabilityPane::DecisionHeader => pane_scene(
            area,
            "Overview"@,
            explainability_header_pane(model),
            Ink::Of(Tone::Border),
        ),
        ExplainabilityPane::FactorBreakdown => pane_scene(
            area,
            "Decisions"@,
            explainability_list_pane(model, body_rows(area)),
            Ink::Tab(3),
        ),
        ExplainabilityPane::VetoDetail => pane_scene(
            area,
            "Evidence"@,
            explainability_detail_pane(model, area.width),
            Ink::Tab(3),
        ),
        ExplainabilityPane::StatusFooter => strip_scene(area, explainability_strip()),
    }
}

fn explainability_pane_scene(
    model: &DashboardModel,
    pane: ExplainabilityPane,
    area: PaneRect,
) -> (scene: Scene)
    ensures
        scene@ == explainability_pane(*model, pane, area),
{
    match pane {
        ExplainabilityPane::DecisionHeader => frame_render_styled_pane(
            area,
            "Overview",
            frame_explainability_header_styled(model),
            Ink::Of(Tone::Border),
        ),
        ExplainabilityPane::FactorBreakdown => frame_render_styled_pane(
            area,
            "Decisions",
            frame_explainability_list_styled(model, pane_body_rows(area)),
            Ink::Tab(3),
        ),
        ExplainabilityPane::VetoDetail => frame_render_styled_pane(
            area,
            "Evidence",
            frame_explainability_detail_styled(model, area.width),
            Ink::Tab(3),
        ),
        ExplainabilityPane::StatusFooter => frame_render_styled_status_strip(
            area,
            explainability_strip_doc(),
        ),
    }
}

/// The first panes of the explainability screen in a body area; hidden panes and panes
/// that do not fit are left out.
pub open spec fn explainability_panes(
    model: DashboardModel,
    body: PaneRect,
    placements: Seq<ExplainabilityPlacement>,
    to: int,
) -> Seq<DrawV>
    decreases to,
{
    if to <= 0 {
        seq![]
    } else {
        let p = placements[to - 1];
        let area = placed(body, p.rect);
        let before = explainability_panes(model, body, placements, to - 1);
        if p.visible && area.width > 0 && area.height > 0 {
            before + explainability_pane(model, p.pane, area)
        } else {
            before
        }
    }
}

/// The explainability screen in a body area.
pub open spec fn explainability_scene(model: DashboardModel, body: PaneRect) -> Seq<DrawV> {
    let placements = explainability_placements(body.width as int, body.height as int);
    explainability_panes(model, body, placements, placements.len() as int)
}

/// The explainability screen in a body area.
pub fn frame_render_explainability(model: &DashboardModel, body: PaneRect) -> (scene: Scene)
    ensures
        scene@ == explainability_scene(*model, body),
{
    let layout = build_explainability_layout(body.width, body.height);
    let mut s = Scene::new();
    let mut k: usize = 0;
    while k < layout.placements.len()
        invariant
            k <= layout.placements@.len(),
            layout.placements@ == explainability_placements(body.width as int, body.height as int),
            s@ == explainability_panes(*model, body, layout.placements@, k as int),
        decreases layout.placements@.len() - k,
    {
        let p = layout.placements[k];
        let area = rect_in_body(body, p.rect);
        if p.visible && area.width > 0 && area.height > 0 {
            s.append(explainability_pane_scene(model, p.pane, area));
        }
        k += 1;
    }
    s
}

/// One pane of the candidates screen.
pub open spec fn candidates_pane(
    model: DashboardModel,
    pane: CandidatesPane,
    area: PaneRect,
) -> Seq<DrawV> {
    match pane {
        CandidatesPane::SummaryBar => pane_scene(
            area,
            "Summary"@,
            candidates_summary_pane(model),
            Ink::Of(Tone::Border),
        ),
        CandidatesPane::CandidateList => pane_scene(
            area,
            "Candidates"@,
            candidates_list_pane(model, body_rows(area)),
            Ink::Tab(4),
        ),
        CandidatesPane::ScoreDetail => pane_scene(
            area,
            "Score Breakdown"@,
            candidates_detail_pane(model, area.width),
            Ink::Tab(4),
        ),
        CandidatesPane::StatusFooter => strip_scene(area, candidates_strip()),
    }
}

fn candidates_pane_scene(
    model: &DashboardModel,
    pane: CandidatesPane,
    area: PaneRect,
) -> (scene: Scene)
    requires
        reclaimable_of(model.candidates_list@) <= u64::MAX,
    ensures
        scene@ == candidates_pane(*model, pane, area),
{
    match pane {
        CandidatesPane::SummaryBar => frame_render_styled_pane(
            area,
            "Summary",
            frame_candidates_summary_styled(model),
            Ink::Of(Tone::Border),
        ),
        CandidatesPane::CandidateList => frame_render_styled_pane(
            area,
            "Candidates",
            frame_candidates_list_styled(model, pane_body_rows(area)),
            Ink::Tab(4),
        ),
        CandidatesPane::ScoreDetail => frame_render_styled_pane(
            area,
            "Score Breakdown",
            frame_candidates_detail_styled(model, area.width),
            Ink::Tab(4),
        ),
        CandidatesPane::StatusFooter => frame_render_styled_status_strip(
            area,
            candidates_strip_doc(),
        ),
    }
}

/// The first panes of the candidates screen in a body area; hidden panes and panes
/// that do not fit are left out.
pub open spec fn candidates_panes(
    model: DashboardModel,
    body: PaneRect,
    placements: Seq<CandidatesPlacement>,
    to: int,
) -> Seq<DrawV>
    decreases to,
{
    if to <= 0 {
        seq![]
    } else {
        let p = placements[to - 1];
        let area = placed(body, p.rect);
        let before = candidates_panes(model, body, placements, to - 1);
        if p.visible && area.width > 0 && area.height > 0 {
            before + candidates_pane(model, p.pane, area)
        } else {
            before
        }
    }
}

/// The candidates screen in a body area.
pub open spec fn candidates_scene(model: DashboardModel, body: PaneRect) -> Seq<DrawV> {
    let placements = candidates_placements(body.width as int, body.height as int);
    candidates_panes(model, body, placements, placements.len() as int)
}

/// The candidates screen in a body area.
pub fn frame_render_candidates(model: &DashboardModel, body: PaneRect) -> (scene: Scene)
    requires
        reclaimable_of(model.candidates_list@) <= u64::MAX,
    ensures
        scene@ == candidates_scene(*model, body),
{
    let layout = build_candidates_layout(body.width, body.height);
    let mut s = Scene::new();
    let mut k: usize = 0;
    while k < layout.placements.len()
        invariant
            k <= layout.placements@.len(),
            layout.placements@ == candidates_placements(body.width as int, body.height as int),
            reclaimable_of(model.candidates_list@) <= u64::MAX,
            s@ == candidates_panes(*model, body, layout.placements@, k as int),
        decreases layout.placements@.len() - k,
    {
        let p = layout.placements[k];
        let area = rect_in_body(body, p.rect);
        if p.visible && area.width > 0 && area.height > 0 {
            s.append(candidates_pane_scene(model, p.pane, area));
        }
        k += 1;
    }
    s
}

/// One pane of the ballast screen.
pub open spec fn ballast_pane(
    model: DashboardModel,
    pane: BallastPane,
    area: PaneRect,
) -> Seq<DrawV> {
    match pane {
        BallastPane::VolumeList => pane_scene(
            area,
            "Volumes"@,
            ballast_list_pane(model, body_rows(area)),
            Ink::Tab(5),
        ),
        BallastPane::VolumeDetail => pane_scene(
            area,
            "Volume Detail"@,
            ballast_detail_pane(model),
            Ink::Tab(5),
        ),
        BallastPane::StatusFooter => strip_scene(area, ballast_strip()),
    }
}

fn ballast_pane_scene(model: &DashboardModel, pane: BallastPane, area: PaneRect) -> (scene: Scene)
    ensures
        scene@ == ballast_pane(*model, pane, area),
{
    match pane {
        BallastPane::VolumeList => frame_render_styled_pane(
            area,
            "Volumes",
            frame_ballast_list_styled(model, pane_body_rows(area)),
            Ink::Tab(5),
        ),
        BallastPane::VolumeDetail => frame_render_styled_pane(
            area,
            "Volume Detail",
            frame_ballast_detail_styled(model),
            Ink::Tab(5),
        ),
        BallastPane::StatusFooter => frame_render_styled_status_strip(area, ballast_strip_doc()),
    }
}

/// The first panes of the ballast screen in a body area; hidden panes and panes
/// that do not fit are left out.
pub open spec fn ballast_panes(
    model: DashboardModel,
    body: PaneRect,
    placements: Seq<BallastPlacement>,
    to: int,
) -> Seq<DrawV>
    decreases to,
{
    if to <= 0 {
        seq![]
    } else {
        let p = placements[to - 1];
        let area = placed(body, p.rect);
        let before = ballast_panes(model, body, placements, to - 1);
        if p.visible && area.width > 0 && area.height > 0 {
            before + ballast_pane(model, p.pane, area)
        } else {
            before
        }
    }
}

/// The ballast screen in a body area.
pub open spec fn ballast_scene(model: DashboardModel, body: PaneRect) -> Seq<DrawV> {
    let placements = ballast_placements(body.width as int, body.height as int);
    ballast_panes(model, body, placements, placements.len() as int)
}

/// The ballast screen in a body area.
pub fn frame_render_ballast(model: &DashboardModel, body: PaneRect) -> (scene: Scene)
    ensures
        scene@ == ballast_scene(*model, body),
{
    let layout = build_ballast_layout(body.width, body.height);
    let mut s = Scene::new();
    let mut k: usize = 0;
    while k < layout.placements.len()
        invariant
            k <= layout.placements@.len(),
            layout.placements@ == ballast_placements(body.width as int, body.height as int),
            s@ == ballast_panes(*model, body, layout.placements@, k as int),
        decreases layout.placements@.len() - k,
    {
        let p = layout.placements[k];
        let area = rect_in_body(body, p.rect);
        if p.visible && area.width > 0 && area.height > 0 {
            s.append(ballast_pane_scene(model, p.pane, area));
        }
        k += 1;
    }
    s
}

/// One pane of the log screen.
pub open spec fn log_pane(
    model: DashboardModel,
    pane: LogSearchPane,
    area: PaneRect,
) -> Seq<DrawV> {
    match pane {
        LogSearchPane::SearchBar => pane_scene(
            area,
            "Search"@,
            log_header_pane(model),
            Ink::Of(Tone::Border),
        ),
        LogSearchPane::LogList => pane_scene(
            area,
            "Log Entries"@,
            log_list_pane(model, body_rows(area)),
            Ink::Tab(6),
        ),
        LogSearchPane::EntryDetail => pane_scene(
            area,
            "Entry Detail"@,
            log_detail_pane(model),
            Ink::Tab(6),
        ),
        LogSearchPane::StatusFooter => strip_scene(area, log_strip()),
    }
}

fn log_pane_scene(model: &DashboardModel, pane: LogSearchPane, area: PaneRect) -> (scene: Scene)
    ensures
        scene@ == log_pane(*model, pane, area),
{
    match pane {
        LogSearchPane::SearchBar => frame_render_styled_pane(
            area,
            "Search",
            frame_log_search_header_styled(model),
            Ink::Of(Tone::Border),
        ),
        LogSearchPane::LogList => frame_render_styled_pane(
            area,
            "Log Entries",
            frame_log_search_list_styled(model, pane_body_rows(area)),
            Ink::Tab(6),
        ),
        LogSearchPane::EntryDetail => frame_render_styled_pane(
            area,
            "Entry Detail",
            frame_log_search_detail_styled(model),
            Ink::Tab(6),
        ),
        LogSearchPane::StatusFooter => frame_render_styled_status_strip(area, log_strip_doc()),
    }
}

/// The first panes of the log screen in a body area; hidden panes and panes
/// that do not fit are left out.
pub open spec fn log_panes(
    model: DashboardModel,
    body: PaneRect,
    placements: Seq<LogSearchPlacement>,
    to: int,
) -> Seq<DrawV>
    decreases to,
{
    if to <= 0 {
        seq![]
    } else {
        let p = placements[to - 1];
        let area = placed(body, p.rect);
        let before = log_panes(model, body, placements, to - 1);
        if p.visible && area.width > 0 && area.height > 0 {
            before + log_pane(model, p.pane, area)
        } else {
            before
        }
    }
}

/// The log screen in a body area.
pub open spec fn log_scene(model: DashboardModel, body: PaneRect) -> Seq<DrawV> {
    let placements = log_search_placements(body.width as int, body.height as int);
    log_panes(model, body, placements, placements.len() as int)
}

/// The log screen in a body area.
pub fn frame_render_log_search(model: &DashboardModel, body: PaneRect) -> (scene: Scene)
    ensures
        scene@ == log_scene(*model, body),
{
    let layout = build_log_search_layout(body.width, body.height);
    let mut s = Scene::new();
    let mut k: usize = 0;
    while k < layout.placements.len()
        invariant
            k <= layout.placements@.len(),
            layout.placements@ == log_search_placements(body.width as int, body.height as int),
            s@ == log_panes(*model, body, layout.placements@, k as int),
        decreases layout.placements@.len() - k,
    {
        let p = layout.placements[k];
        let area = rect_in_body(body, p.rect);
        if p.visible && area.width > 0 && area.height > 0 {
            s.append(log_pane_scene(model, p.pane, area));
        }
        k += 1;
    }
    s
}

/// One pane of the diagnostics screen.
pub open spec fn diagnostics_pane(
    model: DashboardModel,
    ctx: RenderContext,
    pane: DiagnosticsPane,
    area: PaneRect,
) -> Seq<DrawV> {
    match pane {
        DiagnosticsPane::HealthHeader => pane_scene(
            area,
            "System Health"@,
            diagnostics_health_pane(model, ctx),
            Ink::Of(Tone::Border),
        ),
        DiagnosticsPane::ThreadTable => pane_scene(
            area,
            "Runtime"@,
            diagnostics_runtime_pane(model),
            Ink::Tab(7),
        ),
        DiagnosticsPane::PerfPanel => pane_scene(
            area,
            "Performance"@,
            diagnostics_perf_pane(model),
            Ink::Tab(7),
        ),
        DiagnosticsPane::StatusFooter => strip_scene(area, diagnostics_strip()),
    }
}

fn diagnostics_pane_scene(
    model: &DashboardModel,
    ctx: RenderContext,
    pane: DiagnosticsPane,
    area: PaneRect,
) -> (scene: Scene)
    requires
        model.frame_times.wf(),
    ensures
        scene@ == diagnostics_pane(*model, ctx, pane, area),
{
    match pane {
        DiagnosticsPane::HealthHeader => frame_render_styled_pane(
            area,
            "System Health",
            frame_diagnostics_health_styled(model, ctx),
            Ink::Of(Tone::Border),
        ),
        DiagnosticsPane::ThreadTable => frame_render_styled_pane(
            area,
            "Runtime",
            frame_diagnostics_runtime_styled(model),
            Ink::Tab(7),
        ),
        DiagnosticsPane::PerfPanel => frame_render_styled_pane(
            area,
            "Performance",
            frame_diagnostics_perf_styled(model),
            Ink::Tab(7),
        ),
        DiagnosticsPane::StatusFooter => frame_render_styled_status_strip(
            area,
            diagnostics_strip_doc(),
        ),
    }
}

/// The first panes of the diagnostics screen in a body area; hidden panes and panes
/// that do not fit are left out.
pub open spec fn diagnostics_panes(
    model: DashboardModel,
    ctx: RenderContext,
    body: PaneRect,
    placements: Seq<DiagnosticsPlacement>,
    to: int,
) -> Seq<DrawV>
    decreases to,
{
    if to <= 0 {
        seq![]
    } else {
        let p = placements[to - 1];
        let area = placed(body, p.rect);
        let before = diagnostics_panes(model, ctx, body, placements, to - 1);
        if p.visible && area.width > 0 && area.height > 0 {
            before + diagnostics_pane(model, ctx, p.pane, area)
        } else {
            before
        }
    }
}

/// The diagnostics screen in a body area.
pub open spec fn diagnostics_scene(
    model: DashboardModel,
    ctx: RenderContext,
    body: PaneRect,
) -> Seq<DrawV> {
    let placements = diagnostics_placements(body.width as int, body.height as int);
    diagnostics_panes(model, ctx, body, placements, placements.len() as int)
}

/// The diagnostics screen in a body area.
pub fn frame_render_diagnostics(
    model: &DashboardModel,
    ctx: RenderContext,
    body: PaneRect,
) -> (scene: Scene)
    requires
        model.frame_times.wf(),
    ensures
        scene@ == diagnostics_scene(*model, ctx, body),
{
    let layout = build_diagnostics_layout(body.width, body.height);
    let mut s = Scene::new();
    let mut k: usize = 0;
    while k < layout.placements.len()
        invariant
            k <= layout.placements@.len(),
            layout.placements@ == diagnostics_placements(body.width as int, body.height as int),
            model.frame_times.wf(),
            s@ == diagnostics_panes(*model, ctx, body, layout.placements@, k as int),
        decreases layout.placements@.len() - k,
    {
        let p = layout.placements[k];
        let area = rect_in_body(body, p.rect);
        if p.visible && area.width > 0 && area.height > 0 {
            s.append(diagnostics_pane_scene(model, ctx, p.pane, area));
        }
        k += 1;
    }
    s
}

/// Border role of an overview card: focus first, then the pointer.
pub open spec fn card_tone_of(model: DashboardModel, pane: OverviewPane) -> Tone {
    if model.overview_focus_pane == pane {
        Tone::Accent
    } else if model.overview_hover_pane == Some(pane) {
        Tone::Warning
    } else {
        Tone::Border
    }
}

/// Whether an overview card says which screen it opens.
pub open spec fn shows_target_of(model: DashboardModel, pane: OverviewPane) -> bool {
    (model.overview_focus_pane == pane || model.overview_hover_pane == Some(pane))
        && model.hint_verbosity != HintVerbosity::Off
}

fn hovers(model: &DashboardModel, pane: OverviewPane) -> (b: bool)
    ensures
        b == (model.overview_hover_pane == Some(pane)),
{
    match model.overview_hover_pane {
        Some(p) => p == pane,
        None => false,
    }
}

/// A card of the overview screen.
pub open spec fn overview_card(model: DashboardModel, pane: OverviewPane, area: PaneRect) -> Seq<
    DrawV,
> {
    let inner = inner_of(area);
    let panel = Draw::Panel {
        rect: area,
        title: pane_title(pane),
        border: Ink::Of(card_tone_of(model, pane)),
    };
    if inner.width == 0 || inner.height == 0 {
        seq![panel]
    } else {
        seq![
            panel,
            Draw::Content {
                rect: inner,
                content: styled_pane(model, pane, inner.width, shows_target_of(model, pane)),
                fg: Some(Tone::Secondary),
                bg: None,
            },
        ]
    }
}

/// A card of the overview screen.
pub fn frame_render_overview_card(model: &DashboardModel, pane: OverviewPane, area: PaneRect) -> (
    scene: Scene)
    requires
        model.rate_histories.wf(),
    ensures
        scene@ == overview_card(*model, pane, area),
{
    let focused = model.overview_focus_pane == pane;
    let hovered = hovers(model, pane);
    let tone = if focused {
        Tone::Accent
    } else if hovered {
        Tone::Warning
    } else {
        Tone::Border
    };
    let inner = panel_inner(area);
    let mut s = Scene::new();
    s.put(
        Draw::Panel {
            rect: area,
            title: overview_pane_title(pane).to_owned(),
            border: Ink::Of(tone),
        },
    );
    if inner.width == 0 || inner.height == 0 {
        return s;
    }
    let hint = (focused || hovered) && model.hint_verbosity != HintVerbosity::Off;
    s.put(
        Draw::Content {
            rect: inner,
            content: overview_pane_styled(model, pane, inner.width, hint),
            fg: Some(Tone::Secondary),
            bg: None,
        },
    );
    s
}

/// The first cards of the overview screen in a body area; hidden panes and
/// panes without room for a border are left out.
pub open spec fn overview_cards(
    model: DashboardModel,
    body: PaneRect,
    placements: Seq<PanePlacement>,
    to: int,
) -> Seq<DrawV>
    decreases to,
{
    if to <= 0 {
        seq![]
    } else {
        let p = placements[to - 1];
        let area = placed(body, p.rect);
        let before = overview_cards(model, body, placements, to - 1);
        if p.visible && area.width >= 2 && area.height >= 2 {
            before + overview_card(model, p.pane, area)
        } else {
            before
        }
    }
}

/// The overview screen in a body area.
pub open spec fn overview_scene(model: DashboardModel, body: PaneRect) -> Seq<DrawV> {
    let placements = overview_placements(body.width as int, body.height as int);
    overview_cards(model, body, placements, placements.len() as int)
}

/// The overview screen in a body area.
pub fn frame_render_overview(model: &DashboardModel, body: PaneRect) -> (scene: Scene)
    requires
        model.rate_histories.wf(),
    ensures
        scene@ == overview_scene(*model, body),
{
    let layout = build_overview_layout(body.width, body.height);
    let mut s = Scene::new();
    let mut k: usize = 0;
    while k < layout.placements.len()
        invariant
            k <= layout.placements@.len(),
            layout.placements@ == overview_placements(body.width as int, body.height as int),
            model.rate_histories.wf(),
            s@ == overview_cards(*model, body, layout.placements@, k as int),
        decreases layout.placements@.len() - k,
    {
        let p = layout.placements[k];
        let area = rect_in_body(body, p.rect);
        if p.visible && area.width >= 2 && area.height >= 2 {
            s.append(frame_render_overview_card(model, p.pane, area));
        }
        k += 1;
    }
    s
}

/// The histories are sound, and the sum that the candidates show fits its
/// machine word.
pub open spec fn drawable(model: DashboardModel) -> bool {
    &&& model.wf()
    &&& model.screen == Screen::Candidates ==> reclaimable_of(model.candidates_list@) <= u64::MAX
}

/// Whether a frame of the model can be drawn.
pub fn is_drawable(model: &DashboardModel) -> (b: bool)
    ensures
        b == (too_small(*model) || drawable(*model)),
{
    if is_terminal_too_small(model.terminal_size.0, model.terminal_size.1) {
        return true;
    }
    match model.screen {
        Screen::Candidates => model.is_sound() && reclaimable_fits(&model.candidates_list),
        _ => model.is_sound(),
    }
}

/// The active screen in a body area.
pub open spec fn screen_scene(
    model: DashboardModel,
    ctx: RenderContext,
    body: PaneRect,
) -> Seq<DrawV> {
    match model.screen {
        Screen::Overview => overview_scene(model, body),
        Screen::Timeline => timeline_scene(model, body),
        Screen::Explainability => explainability_scene(model, body),
        Screen::Candidates => candidates_scene(model, body),
        Screen::Ballast => ballast_scene(model, body),
        Screen::LogSearch => log_scene(model, body),
        Screen::Diagnostics => diagnostics_scene(model, ctx, body),
    }
}

/// The active screen in a body area.
pub fn frame_render_screen(
    model: &DashboardModel,
    ctx: RenderContext,
    body: PaneRect,
) -> (scene: Scene)
    requires
        drawable(*model),
    ensures
        scene@ == screen_scene(*model, ctx, body),
{
    match model.screen {
        Screen::Overview => frame_render_overview(model, body),
        Screen::Timeline => frame_render_timeline(model, body),
        Screen::Explainability => frame_render_explainability(model, body),
        Screen::Candidates => frame_render_candidates(model, body),
        Screen::Ballast => frame_render_ballast(model, body),
        Screen::LogSearch => frame_render_log_search(model, body),
        Screen::Diagnostics => frame_render_diagnostics(model, ctx, body),
    }
}

/// The header: its background, and its rows as far as there is room.
pub open spec fn header_scene(model: DashboardModel, area: PaneRect) -> Seq<DrawV> {
    let ground = Draw::Ground { rect: area, bg: Tone::Panel, fg: None };
    if area.width == 0 || area.height == 0 {
        seq![ground]
    } else {
        seq![
            ground,
            Draw::Content {
                rect: area,
                content: head_lines(header_content(model, area.width), area.height as nat),
                fg: Some(Tone::Primary),
                bg: None,
            },
        ]
    }
}

/// The header: its background, and its rows as far as there is room.
pub fn frame_render_header(model: &DashboardModel, area: PaneRect) -> (scene: Scene)
    ensures
        scene@ == header_scene(*model, area),
{
    let mut s = Scene::new();
    s.put(Draw::Ground { rect: area, bg: Tone::Panel, fg: None });
    if area.width == 0 || area.height == 0 {
        return s;
    }
    let content = frame_header_content(model, area.width).first_lines(area.height as usize);
    s.put(Draw::Content { rect: area, content, fg: Some(Tone::Primary), bg: None });
    s
}

/// The footer: key bindings on the left, the status on the right.
pub open spec fn footer_scene(model: DashboardModel, area: PaneRect) -> Seq<DrawV> {
    seq![
        Draw::Spread {
            rect: area,
            left: footer_keys(model.screen),
            right: footer_status(model),
            fg: Tone::Muted,
            bg: Tone::Surface,
        },
    ]
}

/// The footer: key bindings on the left, the status on the right.
pub fn frame_render_footer(model: &DashboardModel, area: PaneRect) -> (scene: Scene)
    ensures
        scene@ == footer_scene(*model, area),
{
    let mut s = Scene::new();
    s.put(
        Draw::Spread {
            rect: area,
            left: footer_keys_doc(model.screen),
            right: footer_status_doc(model),
            fg: Tone::Muted,
            bg: Tone::Surface,
        },
    );
    s
}

/// The first toasts; nothing where there are none.
pub open spec fn notifications_scene(model: DashboardModel, area: PaneRect) -> Seq<DrawV> {
    if model.notifications@.len() == 0 {
        seq![]
    } else {
        seq![
            Draw::Content {
                rect: area,
                content: frame_toasts_of(
                    model.notifications@,
                    0,
                    toast_rows_of(model.notifications@) as int,
                ),
                fg: Some(Tone::Primary),
                bg: None,
            },
        ]
    }
}

/// The first toasts; nothing where there are none.
pub fn frame_render_notifications(model: &DashboardModel, area: PaneRect) -> (scene: Scene)
    ensures
        scene@ == notifications_scene(*model, area),
{
    let mut s = Scene::new();
    if model.notifications.len() > 0 {
        let n: u16 = toast_rows(&model.notifications);
        s.put(
            Draw::Content {
                rect: area,
                content: frame_toasts(&model.notifications, 0, n as usize),
                fg: Some(Tone::Primary),
                bg: None,
            },
        );
    }
    s
}

/// An overlay over a dimmed body.
pub open spec fn overlay_scene(model: DashboardModel, overlay: Overlay, body: PaneRect) -> Seq<
    DrawV,
> {
    let area = overlay_rect(body, overlay);
    let inner = inner_of(area);
    seq![
        Draw::Ground { rect: body, bg: Tone::Scrim, fg: Some(Tone::Muted) },
        Draw::Panel {
            rect: area,
            title: overlay_title_of(overlay),
            border: Ink::Of(Tone::Accent),
        },
        Draw::Content {
            rect: inner,
            content: overlay_content(model, overlay, inner.width),
            fg: None,
            bg: None,
        },
    ]
}

/// An overlay over a dimmed body.
pub fn frame_render_overlay(model: &DashboardModel, overlay: Overlay, body: PaneRect) -> (scene:
    Scene)
    requires
        body.col + body.width <= u16::MAX,
        body.row + body.height <= u16::MAX,
    ensures
        scene@ == overlay_scene(*model, overlay, body),
{
    let area = overlay_panel_rect(body, overlay);
    let inner = panel_inner(area);
    let mut s = Scene::new();
    s.put(Draw::Ground { rect: body, bg: Tone::Scrim, fg: Some(Tone::Muted) });
    s.put(
        Draw::Panel {
            rect: area,
            title: overlay_title(overlay).to_owned(),
            border: Ink::Of(Tone::Accent),
        },
    );
    s.put(
        Draw::Content {
            rect: inner,
            content: frame_overlay_content(model, overlay, inner.width),
            fg: None,
            bg: None,
        },
    );
    s
}

/// The notice on a terminal that is too small.
pub open spec fn too_small_scene(model: DashboardModel, area: PaneRect) -> Seq<DrawV> {
    let inner = inner_of(area);
    let panel = Draw::Panel {
        rect: area,
        title: "SBH Dashboard"@,
        border: Ink::Of(Tone::Warning),
    };
    if inner.width == 0 || inner.height == 0 {
        seq![panel]
    } else {
        seq![
            panel,
            Draw::Content {
                rect: inner,
                content: small_message(model),
                fg: Some(Tone::Warning),
                bg: None,
            },
        ]
    }
}

/// The notice on a terminal that is too small.
pub fn frame_render_too_small(model: &DashboardModel, area: PaneRect) -> (scene: Scene)
    ensures
        scene@ == too_small_scene(*model, area),
{
    let inner = panel_inner(area);
    let mut s = Scene::new();
    s.put(
        Draw::Panel {
            rect: area,
            title: "SBH Dashboard".to_owned(),
            border: Ink::Of(Tone::Warning),
        },
    );
    if inner.width == 0 || inner.height == 0 {
        return s;
    }
    s.put(
        Draw::Content {
            rect: inner,
            content: too_small_message(model),
            fg: Some(Tone::Warning),
            bg: None,
        },
    );
    s
}

/// The area of a whole frame.
pub open spec fn frame_area(model: DashboardModel) -> PaneRect {
    PaneRect { col: 0, row: 0, width: model.terminal_size.0, height: model.terminal_size.1 }
}

/// Header, body, footer and notices of a frame.
pub open spec fn frame_parts(model: DashboardModel) -> Seq<PaneRect> {
    stacked(
        frame_area(model),
        FRAME_HEADER_ROWS,
        FRAME_FOOTER_ROWS,
        toast_rows_of(model.notifications@),
    )
}

/// A whole frame: background, header, the active screen, the overlay over it,
/// footer and toasts; a terminal that is too small gets a notice only.
pub open spec fn frame_scene(model: DashboardModel, ctx: RenderContext) -> Seq<DrawV> {
    let ground = seq![Draw::Ground { rect: frame_area(model), bg: Tone::Surface, fg: None }];
    if too_small(model) {
        ground + too_small_scene(model, frame_area(model))
    } else {
        let parts = frame_parts(model);
        let overlay = match model.active_overlay {
            Some(overlay) => overlay_scene(model, overlay, parts[1]),
            None => seq![],
        };
        ground + header_scene(model, parts[0]) + screen_scene(model, ctx, parts[1]) + overlay
            + footer_scene(model, parts[2]) + notifications_scene(model, parts[3])
    }
}

/// A whole frame.
pub fn render_frame(model: &DashboardModel, ctx: RenderContext) -> (scene: Scene)
    requires
        too_small(*model) || drawable(*model),
    ensures
        scene@ == frame_scene(*model, ctx),
{
    let area = PaneRect::new(0, 0, model.terminal_size.0, model.terminal_size.1);
    let mut s = Scene::new();
    s.put(Draw::Ground { rect: area, bg: Tone::Surface, fg: None });
    if is_terminal_too_small(model.terminal_size.0, model.terminal_size.1) {
        s.append(frame_render_too_small(model, area));
        return s;
    }
    let parts = split_rows(
        area,
        FRAME_HEADER_ROWS,
        FRAME_FOOTER_ROWS,
        toast_rows(&model.notifications),
    );
    s.append(frame_render_header(model, parts[0]));
    s.append(frame_render_screen(model, ctx, parts[1]));
    if let Some(overlay) = model.active_overlay {
        s.append(frame_render_overlay(model, overlay, parts[1]));
    } else {
        s.append(Scene::new());
    }
    s.append(frame_render_footer(model, parts[2]));
    s.append(frame_render_notifications(model, parts[3]));
    s
}

/// A frame shows at most three toasts and reserves one row for each.
pub proof fn law_toasts_are_limited(model: DashboardModel)
    requires
        !too_small(model),
    ensures
        toast_rows_of(model.notifications@) <= 3,
        model.notifications@.len() <= 3 ==> toast_rows_of(model.notifications@)
            == model.notifications@.len(),
        frame_parts(model)[3].height == toast_rows_of(model.notifications@),
{
}

/// On a usable terminal the header and the footer have all their rows, and
/// the parts of the frame follow each other down to its last row.
pub proof fn law_frame_is_divided(model: DashboardModel)
    requires
        !too_small(model),
    ensures
        frame_parts(model)[0].height == FRAME_HEADER_ROWS,
        frame_parts(model)[2].height == FRAME_FOOTER_ROWS,
        frame_parts(model)[0].row == 0,
        frame_parts(model)[1].row == frame_parts(model)[0].height,
        frame_parts(model)[2].row == frame_parts(model)[1].row + frame_parts(model)[1].height,
        frame_parts(model)[3].row + frame_parts(model)[3].height == model.terminal_size.1,
{
}

/// Small areas still show the content of a pane; only empty ones show nothing.
pub proof fn law_pane_shows_its_content(
    area: PaneRect,
    title: Seq<char>,
    content: Seq<PieceV>,
    border: InkV,
)
    ensures
        pane_scene(area, title, content, border).len() == 0 <==> area.width == 0 || area.height
            == 0,
        area.width > 0 && area.height > 0 ==> pane_scene(
            area,
            title,
            content,
            border,
        ).last() is Content && pane_scene(area, title, content, border).last()->content == content,
{
}

/// A graver incident is never shown in a calmer colour, and only normal operation is a
/// success.
pub proof fn law_incident_colours(a: IncidentSeverity, b: IncidentSeverity)
    ensures
        incident_tone_of(a) == Tone::Success <==> a == IncidentSeverity::Normal,
        incident_tone_of(a) == Tone::Danger <==> a == IncidentSeverity::Critical,
        a == IncidentSeverity::Critical ==> alarm(incident_tone_of(a)) >= alarm(incident_tone_of(b)),
        b == IncidentSeverity::Normal ==> alarm(incident_tone_of(a)) >= alarm(incident_tone_of(b)),
{
}

/// Releasing all ballast is asked for more urgently than releasing one file.
pub proof fn law_confirm_colours()
    ensures
        alarm(confirm_tone_of(ConfirmAction::BallastReleaseAll)) > alarm(
            confirm_tone_of(ConfirmAction::BallastRelease),
        ),
        confirm_tone_of(ConfirmAction::BallastRelease) == Tone::Warning,
        confirm_tone_of(ConfirmAction::BallastReleaseAll) == Tone::Danger,
{
}

/// The current tab stands out by its own ground; every other tab has none.
pub proof fn law_current_tab_stands_out(screen: Screen, current: Screen, next: Screen)
    ensures
        tab(screen, current).len() == 2,
        tab(screen, current)[0].style.bg is Some <==> screen == current,
        tab(screen, current)[1].style.bg is Some <==> screen == current,
        tab(screen, current)[1].style.bold <==> screen == current,
        screen == current ==> tab(screen, current)[1].style.bg == Some(
            Ink::Tab::<Seq<char>>(screen_number(screen) as u8),
        ),
        tab_gap(screen, next, current).len() == 1,
        tab_gap(screen, next, current)[0] == txt(" "@) <==> screen == current || next == current,
{
    reveal_strlit(" ");
    reveal_strlit("\u{2502}");
    assert(" "@[0] != "\u{2502}"@[0]);
    if screen != current && next != current {
        assert(tab_gap(screen, next, current)[0].style.fg is Some);
    }
}

/// The row that is drawn fills the width: the gap takes what the two ends leave, and never
/// less than one cell.
pub proof fn law_gap_fills_the_row(width: u16, left: usize, right: usize, gap: usize)
    requires
        left + right <= usize::MAX,
        call_ensures(row_gap, (width, left, right), gap),
    ensures
        left + right < width ==> left + gap + right == width,
        gap <= width || gap <= 1,
{
}

/// The tabs are the seven screens in the order of their numbers, each under its number.
pub proof fn law_tabs_are_numbered(i: int)
    requires
        0 <= i < 7,
    ensures
        tab_screens().len() == 7,
        screen_number(tab_screens()[i]) == i + 1,
        tab_key_of(tab_screens()[i]) == " "@ + dec((i + 1) as nat) + ":"@,
        tab_name_of(tab_screens()[i]) == tab_label_of(tab_screens()[i]) + " "@,
{
}

/// The focused card is drawn in the accent colour, a hovered one in that of warnings and
/// any other in that of borders; the target is told of a focused or hovered card unless
/// hints are off.
pub proof fn law_focused_card_stands_out(model: DashboardModel, pane: OverviewPane)
    ensures
        card_tone_of(model, pane) == Tone::Accent <==> pane == model.overview_focus_pane,
        card_tone_of(model, pane) == Tone::Border <==> pane != model.overview_focus_pane
            && model.overview_hover_pane != Some(pane),
        card_tone_of(model, pane) == Tone::Warning <==> pane != model.overview_focus_pane
            && model.overview_hover_pane == Some(pane),
        model.hint_verbosity == HintVerbosity::Off ==> !shows_target_of(model, pane),
        model.hint_verbosity != HintVerbosity::Off ==> (shows_target_of(model, pane)
            <==> card_tone_of(model, pane) != Tone::Border),
{
}

/// The titles tell the overlays apart, and the confirmations what is released.
pub proof fn law_overlay_titles_differ(a: Overlay, b: Overlay)
    ensures
        overlay_title_of(a) == overlay_title_of(b) <==> a == b || (a is Confirmation
            && b is Confirmation),
        overlay_title_of(a).first() == 'H' <==> a == Overlay::Help,
        overlay_title_of(a).first() == 'V' <==> a == Overlay::Voi,
        overlay_title_of(a).first() == 'I' <==> a == Overlay::IncidentPlaybook,
        contains_at(confirm_text_of(ConfirmAction::BallastReleaseAll), "ALL"@, 8),
        !contains_at(confirm_text_of(ConfirmAction::BallastRelease), "ALL"@, 8),
{
    reveal_strlit("Command Palette");
    reveal_strlit("Help");
    reveal_strlit("VOI Scheduler");
    reveal_strlit("Confirm");
    reveal_strlit("Incident Playbook");
    reveal_strlit("ALL");
    reveal_strlit("Release selected ballast file");
    reveal_strlit("Release ALL ballast files on this mount");
    let (s, t) = (overlay_title_of(a), overlay_title_of(b));
    assert(s.first() == s[0] && t.first() == t[0]);
    assert("Command Palette"@.len() == 15 && "Confirm"@.len() == 7);
    assert("Release ALL ballast files on this mount"@.subrange(8, 11) =~= "ALL"@);
    assert("Release selected ballast file"@.subrange(8, 11)[0] == 's');
}

/// Whether a part stands in a text at a position.
pub open spec fn contains_at(text: Seq<char>, part: Seq<char>, at: int) -> bool {
    0 <= at <= text.len() - part.len() && text.subrange(at, at + part.len()) == part
}

} // verus!
