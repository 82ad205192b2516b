//! Timeline and log screens.

use vstd::prelude::*;

use crate::layout::build_log_search_layout;
use crate::layout::build_timeline_layout;
use crate::layout::log_search_placements;
use crate::layout::timeline_placements;
use crate::markup::Atom;
use crate::markup::Doc;
use crate::markup::Ink;
use crate::markup::PieceV;
use crate::markup::Tone;
use crate::markup::badge;
use crate::markup::badge_in;
use crate::markup::bold_on;
use crate::markup::drawn;
use crate::markup::fg;
use crate::markup::fg_on;
use crate::markup::ground;
use crate::markup::header;
use crate::markup::in_bold_on;
use crate::markup::in_fg;
use crate::markup::in_fg_on;
use crate::markup::ink;
use crate::markup::nl;
use crate::markup::plain;
use crate::markup::styled;
use crate::markup::txt;
use crate::model::DashboardModel;
use crate::model::filter_label;
use crate::preferences::HintVerbosity;
use crate::render::common::centered_window;
use crate::render::common::cursor_mark;
use crate::render::common::cursor_mark_of;
use crate::render::common::data_source_label;
use crate::render::common::dir_part;
use crate::render::common::file_part;
use crate::render::common::health_tone;
use crate::render::common::health_tone_of;
use crate::render::common::health_word;
use crate::render::common::health_word_of;
use crate::render::common::law_window_shows_selection;
use crate::render::common::nav_hint_of;
use crate::render::common::page_width;
use crate::render::common::page_width_of;
use crate::render::common::row_cursor;
use crate::render::common::row_cursor_of;
use crate::render::common::row_ground;
use crate::render::common::row_ground_of;
use crate::render::common::section;
use crate::render::common::severity_tone;
use crate::render::common::severity_tone_of;
use crate::render::common::severity_word;
use crate::render::common::severity_word_of;
use crate::render::common::shortened;
use crate::render::common::source_label;
use crate::render::common::spaced;
use crate::render::common::spaced_of;
use crate::render::common::split_path_dir_file;
use crate::render::common::truncate_path;
use crate::render::common::window_end;
use crate::render::common::window_start;
use crate::render::common::write_navigation_hint;
use crate::telemetry::TimelineEvent;
use crate::text::dec;
use crate::text::decimal;
use crate::text::decimal_usize;
use crate::text::pad_right;
use crate::text::padded_right;
use crate::text::text_eq;
use crate::text::to_upper;
use crate::text::uppered;

verus! {

/// One line of the event list.
pub open spec fn event_row(cursor: Seq<char>, event: TimelineEvent) -> Seq<PieceV> {
    let d = seq![
        txt(cursor),
        txt(" "@),
        plain(Atom::Clock(event.timestamp@)),
        txt(" "@),
        badge(severity_word_of(event.severity@), severity_tone_of(event.severity@)),
        txt(" "@),
        txt(padded_right(event.event_type@, 20)),
        txt(" "@),
    ];
    let d = match event.path {
        Some(path) => {
            d + seq![
                txt(shortened(path@, 30 as nat)),
            ]
        },
        None => {
            d + seq![
                txt("-"@),
            ]
        },
    };
    let d = d + seq![
        txt(" "@),
    ];
    let d = match event.size_bytes {
        Some(size) => {
            d + seq![
                plain(Atom::Bytes(size)),
            ]
        },
        None => {
            d
        },
    };
    let d = match event.success {
        Some(ok) => {
            d + ({
                if ok {
                    seq![
                        txt(" \u{2713}"@),
                    ]
                } else {
                    seq![
                        txt(" \u{2717}"@),
                    ]
                }
            })
        },
        None => {
            d
        },
    };
    d + seq![
        nl(),
    ]
}

/// One line of the event list.
pub fn render_event_row(cursor: &str, event: &TimelineEvent) -> (doc: Doc)
    ensures
        doc@ == event_row(cursor@, *event),
{
    let mut d = Doc::new();
    d.text(cursor);
    d.text(" ");
    d.plain(Atom::Clock(event.timestamp.clone()));
    d.text(" ");
    d.badge(
        severity_word(event.severity.as_str()).as_str(),
        severity_tone(event.severity.as_str()),
    );
    d.text(" ");
    d.text(pad_right(event.event_type.as_str(), 20).as_str());
    d.text(" ");
    if let Some(path) = &event.path {
        let mut p = Doc::new();
        p.text(truncate_path(path.as_str(), 30).as_str());
        d.append(p);
    } else {
        let mut p = Doc::new();
        p.text("-");
        d.append(p);
    }
    let mut p = Doc::new();
    p.text(" ");
    d.append(p);
    if let Some(size) = event.size_bytes {
        let mut p = Doc::new();
        p.plain(Atom::Bytes(size));
        d.append(p);
    }
    if let Some(ok) = event.success {
        let p = if ok {
            let mut q = Doc::new();
            q.text(" \u{2713}");
            q
        } else {
            let mut q = Doc::new();
            q.text(" \u{2717}");
            q
        };
        d.append(p);
    }
    let mut p = Doc::new();
    p.newline();
    d.append(p);
    d
}

/// The path line of an event.
pub open spec fn event_path_line(event: TimelineEvent) -> Seq<PieceV> {
    match event.path {
        Some(path) => {
            seq![
                txt("  path:       "@),
                txt(path@),
                nl(),
            ]
        },
        None => {
            seq![]
        },
    }
}

fn event_path_line_doc(event: &TimelineEvent) -> (doc: Doc)
    ensures
        doc@ == event_path_line(*event),
{
    if let Some(path) = &event.path {
        let mut p = Doc::new();
        p.text("  path:       ");
        p.text(path.as_str());
        p.newline();
        p
    } else {
        Doc::new()
    }
}

/// The size bytes line of an event.
pub open spec fn event_size_bytes_line(event: TimelineEvent) -> Seq<PieceV> {
    match event.size_bytes {
        Some(size) => {
            seq![
                txt("  size:       "@),
                plain(Atom::Bytes(size)),
                txt(" ("@),
                txt(dec(size as nat)),
                txt(" bytes)"@),
                nl(),
            ]
        },
        None => {
            seq![]
        },
    }
}

fn event_size_bytes_line_doc(event: &TimelineEvent) -> (doc: Doc)
    ensures
        doc@ == event_size_bytes_line(*event),
{
    if let Some(size) = event.size_bytes {
        let mut p = Doc::new();
        p.text("  size:       ");
        p.plain(Atom::Bytes(size));
        p.text(" (");
        p.text(decimal(size).as_str());
        p.text(" bytes)");
        p.newline();
        p
    } else {
        Doc::new()
    }
}

/// The score line of an event.
pub open spec fn event_score_line(event: TimelineEvent) -> Seq<PieceV> {
    match event.score {
        Some(score) => {
            seq![
                txt("  score:      "@),
                plain(Atom::Fixed { value: score, decimals: 4 }),
                nl(),
            ]
        },
        None => {
            seq![]
        },
    }
}

fn event_score_line_doc(event: &TimelineEvent) -> (doc: Doc)
    ensures
        doc@ == event_score_line(*event),
{
    if let Some(score) = event.score {
        let mut p = Doc::new();
        p.text("  score:      ");
        p.plain(Atom::Fixed { value: score, decimals: 4 });
        p.newline();
        p
    } else {
        Doc::new()
    }
}

/// The pressure level line of an event.
pub open spec fn event_pressure_level_line(event: TimelineEvent) -> Seq<PieceV> {
    match event.pressure_level {
        Some(level) => {
            seq![
                txt("  pressure:   "@),
                txt(level@),
                nl(),
            ]
        },
        None => {
            seq![]
        },
    }
}

fn event_pressure_level_line_doc(event: &TimelineEvent) -> (doc: Doc)
    ensures
        doc@ == event_pressure_level_line(*event),
{
    if let Some(level) = &event.pressure_level {
        let mut p = Doc::new();
        p.text("  pressure:   ");
        p.text(level.as_str());
        p.newline();
        p
    } else {
        Doc::new()
    }
}

/// The free pct line of an event.
pub open spec fn event_free_pct_line(event: TimelineEvent) -> Seq<PieceV> {
    match event.free_pct {
        Some(pct) => {
            seq![
                txt("  free:       "@),
                plain(Atom::Fixed { value: pct, decimals: 1 }),
                txt("%"@),
                nl(),
            ]
        },
        None => {
            seq![]
        },
    }
}

fn event_free_pct_line_doc(event: &TimelineEvent) -> (doc: Doc)
    ensures
        doc@ == event_free_pct_line(*event),
{
    if let Some(pct) = event.free_pct {
        let mut p = Doc::new();
        p.text("  free:       ");
        p.plain(Atom::Fixed { value: pct, decimals: 1 });
        p.text("%");
        p.newline();
        p
    } else {
        Doc::new()
    }
}

/// The success line of an event.
pub open spec fn event_success_line(event: TimelineEvent) -> Seq<PieceV> {
    match event.success {
        Some(ok) => {
            if ok {
                seq![
                    txt("  success:    "@),
                    txt("yes"@),
                    nl(),
                ]
            } else {
                seq![
                    txt("  success:    "@),
                    txt("no"@),
                    nl(),
                ]
            }
        },
        None => {
            seq![]
        },
    }
}

fn event_success_line_doc(event: &TimelineEvent) -> (doc: Doc)
    ensures
        doc@ == event_success_line(*event),
{
    if let Some(ok) = event.success {
        if ok {
            let mut q = Doc::new();
            q.text("  success:    ");
            q.text("yes");
            q.newline();
            q
        } else {
            let mut q = Doc::new();
            q.text("  success:    ");
            q.text("no");
            q.newline();
            q
        }
    } else {
        Doc::new()
    }
}

/// The error code line of an event.
pub open spec fn event_error_code_line(event: TimelineEvent) -> Seq<PieceV> {
    match event.error_code {
        Some(code) => {
            seq![
                txt("  error-code: "@),
                txt(code@),
                nl(),
            ]
        },
        None => {
            seq![]
        },
    }
}

fn event_error_code_line_doc(event: &TimelineEvent) -> (doc: Doc)
    ensures
        doc@ == event_error_code_line(*event),
{
    if let Some(code) = &event.error_code {
        let mut p = Doc::new();
        p.text("  error-code: ");
        p.text(code.as_str());
        p.newline();
        p
    } else {
        Doc::new()
    }
}

/// The error message line of an event.
pub open spec fn event_error_message_line(event: TimelineEvent) -> Seq<PieceV> {
    match event.error_message {
        Some(msg) => {
            seq![
                txt("  error:      "@),
                txt(msg@),
                nl(),
            ]
        },
        None => {
            seq![]
        },
    }
}

fn event_error_message_line_doc(event: &TimelineEvent) -> (doc: Doc)
    ensures
        doc@ == event_error_message_line(*event),
{
    if let Some(msg) = &event.error_message {
        let mut p = Doc::new();
        p.text("  error:      ");
        p.text(msg.as_str());
        p.newline();
        p
    } else {
        Doc::new()
    }
}

/// The duration ms line of an event.
pub open spec fn event_duration_ms_line(event: TimelineEvent) -> Seq<PieceV> {
    match event.duration_ms {
        Some(ms) => {
            seq![
                txt("  duration:   "@),
                txt(dec(ms as nat)),
                txt("ms"@),
                nl(),
            ]
        },
        None => {
            seq![]
        },
    }
}

fn event_duration_ms_line_doc(event: &TimelineEvent) -> (doc: Doc)
    ensures
        doc@ == event_duration_ms_line(*event),
{
    if let Some(ms) = event.duration_ms {
        let mut p = Doc::new();
        p.text("  duration:   ");
        p.text(decimal(ms).as_str());
        p.text("ms");
        p.newline();
        p
    } else {
        Doc::new()
    }
}

/// The details line of an event.
pub open spec fn event_details_line(event: TimelineEvent) -> Seq<PieceV> {
    match event.details {
        Some(details) => {
            seq![
                txt("  details:    "@),
                txt(details@),
                nl(),
            ]
        },
        None => {
            seq![]
        },
    }
}

fn event_details_line_doc(event: &TimelineEvent) -> (doc: Doc)
    ensures
        doc@ == event_details_line(*event),
{
    if let Some(details) = &event.details {
        let mut p = Doc::new();
        p.text("  details:    ");
        p.text(details.as_str());
        p.newline();
        p
    } else {
        Doc::new()
    }
}

/// The fields of an event, one per line; fields that are absent are left out.
pub open spec fn event_detail(event: TimelineEvent) -> Seq<PieceV> {
    let d = seq![
        txt("  timestamp:  "@),
        txt(event.timestamp@),
        nl(),
        txt("  event-type: "@),
        txt(event.event_type@),
        nl(),
        txt("  severity:   "@),
        badge(severity_word_of(event.severity@), severity_tone_of(event.severity@)),
        nl(),
    ];
    let d = d + event_path_line(event);
    let d = d + event_size_bytes_line(event);
    let d = d + event_score_line(event);
    let d = d + event_pressure_level_line(event);
    let d = d + event_free_pct_line(event);
    let d = d + event_success_line(event);
    let d = d + event_error_code_line(event);
    let d = d + event_error_message_line(event);
    let d = d + event_duration_ms_line(event);
    d + event_details_line(event)
}

/// The fields of an event, one per line; fields that are absent are left out.
pub fn render_event_detail(event: &TimelineEvent) -> (doc: Doc)
    ensures
        doc@ == event_detail(*event),
{
    let mut d = Doc::new();
    d.text("  timestamp:  ");
    d.text(event.timestamp.as_str());
    d.newline();
    d.text("  event-type: ");
    d.text(event.event_type.as_str());
    d.newline();
    d.text("  severity:   ");
    d.badge(
        severity_word(event.severity.as_str()).as_str(),
        severity_tone(event.severity.as_str()),
    );
    d.newline();
    d.append(event_path_line_doc(event));
    d.append(event_size_bytes_line_doc(event));
    d.append(event_score_line_doc(event));
    d.append(event_pressure_level_line_doc(event));
    d.append(event_free_pct_line_doc(event));
    d.append(event_success_line_doc(event));
    d.append(event_error_code_line_doc(event));
    d.append(event_error_message_line_doc(event));
    d.append(event_duration_ms_line_doc(event));
    d.append(event_details_line_doc(event));
    d
}

/// Rows of the timeline list.
pub open spec fn timeline_rows_of(
    events: Seq<TimelineEvent>,
    selected: int,
    from: int,
    to: int,
) -> Seq<PieceV>
    decreases to - from,
{
    if to <= from {
        seq![]
    } else {
        timeline_rows_of(events, selected, from, to - 1) + event_row(
            cursor_mark_of((to - 1) == selected),
            events[(to - 1)],
        )
    }
}

fn timeline_rows(
    model: &DashboardModel,
    events: &Vec<&TimelineEvent>,
    from: usize,
    to: usize,
) -> (doc: Doc)
    requires
        from <= to,
        to <= events@.len(),
        events@.len() == model.shown_events().len(),
        forall|j: int| 0 <= j < events@.len() ==> *(#[trigger] events@[j]) == model.shown_events()[j],
    ensures
        doc@ == timeline_rows_of(
            model.shown_events(),
            model.timeline_selected as int,
            from as int,
            to as int,
        ),
{
    let mut d = Doc::new();
    let mut k: usize = from;
    while k < to
        invariant
            from <= k <= to,
            to <= events@.len(),
            events@.len() == model.shown_events().len(),
            forall|j: int| 0 <= j < events@.len() ==> *(#[trigger] events@[j]) == model.shown_events()[j],
            d@ == timeline_rows_of(
                model.shown_events(),
                model.timeline_selected as int,
                from as int,
                k as int,
            ),
        decreases to - k,
    {
        d.append(render_event_row(cursor_mark(k == model.timeline_selected), events[k]));
        k += 1;
    }
    d
}

/// Height of the event list on the timeline screen.
pub open spec fn timeline_list_rows(size: (u16, u16)) -> int {
    timeline_placements(size.0 as int, size.1 as int)[1].rect.height as int
}

/// Whether the timeline screen has room for its detail panel.
pub open spec fn timeline_has_detail(size: (u16, u16)) -> bool {
    timeline_placements(size.0 as int, size.1 as int)[2].visible
}

/// Filter, data source and counts.
pub open spec fn timeline_head_of(model: DashboardModel) -> Seq<PieceV> {
    let d = seq![
        txt("filter="@),
        txt(filter_label(model.timeline_filter)),
    ];
    let d = if model.timeline_follow {
        d + seq![
            txt(" [FOLLOW]"@),
        ]
    } else {
        d
    };
    let d = d + seq![
        nl(),
        txt("data-source="@),
        txt(source_label(model.timeline_source)),
        txt(" "@),
        badge(
            health_word_of(model.timeline_source, model.timeline_partial),
            health_tone_of(model.timeline_source, model.timeline_partial),
        ),
        nl(),
    ];
    let d = if model.timeline_diagnostics@.len() > 0 {
        d + seq![
            txt("  diag: "@),
            txt(model.timeline_diagnostics@),
            nl(),
        ]
    } else {
        d
    };
    d + seq![
        txt("events="@),
        txt(dec(model.shown_events().len() as nat)),
        txt("/"@),
        txt(dec(model.timeline_events@.len() as nat)),
        nl(),
        nl(),
    ]
}

fn timeline_head_doc(model: &DashboardModel) -> (doc: Doc)
    ensures
        doc@ == timeline_head_of(*model),
{
    let events = model.timeline_filtered_events();
    let mut d = Doc::new();
    d.text("filter=");
    d.text(model.timeline_filter.label());
    if model.timeline_follow {
        let mut p = Doc::new();
        p.text(" [FOLLOW]");
        d.append(p);
    }
    let mut p = Doc::new();
    p.newline();
    p.text("data-source=");
    p.text(data_source_label(model.timeline_source));
    p.text(" ");
    p.badge(
        health_word(model.timeline_source, model.timeline_partial),
        health_tone(model.timeline_source, model.timeline_partial),
    );
    p.newline();
    d.append(p);
    if !model.timeline_diagnostics.as_str().is_empty() {
        let mut p = Doc::new();
        p.text("  diag: ");
        p.text(model.timeline_diagnostics.as_str());
        p.newline();
        d.append(p);
    }
    let mut p = Doc::new();
    p.text("events=");
    p.text(decimal_usize(events.len()).as_str());
    p.text("/");
    p.text(decimal_usize(model.timeline_events.len()).as_str());
    p.newline();
    p.newline();
    d.append(p);
    d
}

/// The shown events around the cursor, or why there are none.
pub open spec fn timeline_list_of(model: DashboardModel) -> Seq<PieceV> {
    if model.shown_events().len() == 0 {
        if model.timeline_events@.len() == 0 {
            seq![
                txt("No timeline events available. The daemon must be running with"@),
                nl(),
                txt("telemetry enabled to populate this screen."@),
                nl(),
            ]
        } else {
            seq![
                txt("No events match the current filter ("@),
                txt(filter_label(model.timeline_filter)),
                txt(")."@),
                nl(),
                txt("Press f to cycle the severity filter."@),
                nl(),
            ]
        }
    } else {
        let total = model.shown_events().len() as int;
            let height = timeline_list_rows(model.terminal_size);
        timeline_rows_of(
                model.shown_events(),
                model.timeline_selected as int,
                window_start(model.timeline_selected as int, total, height),
                window_end(model.timeline_selected as int, total, height),
            )
    }
}

fn timeline_list_doc(model: &DashboardModel) -> (doc: Doc)
    ensures
        doc@ == timeline_list_of(*model),
{
    let events = model.timeline_filtered_events();
    if events.len() == 0 {
        if model.timeline_events.len() == 0 {
            let mut q = Doc::new();
            q.text("No timeline events available. The daemon must be running with");
            q.newline();
            q.text("telemetry enabled to populate this screen.");
            q.newline();
            q
        } else {
            let mut q = Doc::new();
            q.text("No events match the current filter (");
            q.text(model.timeline_filter.label());
            q.text(").");
            q.newline();
            q.text("Press f to cycle the severity filter.");
            q.newline();
            q
        }
    } else {
        let layout = build_timeline_layout(model.terminal_size.0, model.terminal_size.1);
        let height: usize = layout.placements[1].rect.height as usize;
        let (from, to) = centered_window(model.timeline_selected, events.len(), height);
        timeline_rows(model, &events, from, to)
    }
}

/// The selected event, where the terminal has room for it.
pub open spec fn timeline_detail_of(model: DashboardModel) -> Seq<PieceV> {
    if timeline_has_detail(model.terminal_size) && model.timeline_selected < model.shown_events().len() {
        let d = seq![
            nl(),
        ];
        let d = d + header("Event Detail"@, page_width_of(model.terminal_size.0));
        d + event_detail(model.shown_events()[model.timeline_selected as int])
    } else {
        seq![]
    }
}

fn timeline_detail_doc(model: &DashboardModel) -> (doc: Doc)
    ensures
        doc@ == timeline_detail_of(*model),
{
    let layout = build_timeline_layout(model.terminal_size.0, model.terminal_size.1);
    let events = model.timeline_filtered_events();
    if layout.placements[2].visible && model.timeline_selected < events.len() {
        let mut p = Doc::new();
        p.newline();
        p.append(section("Event Detail", page_width(model.terminal_size.0)));
        p.append(render_event_detail(events[model.timeline_selected]));
        p
    } else {
        Doc::new()
    }
}

/// What the timeline screen shows besides its hint line.
pub open spec fn timeline_body(model: DashboardModel) -> Seq<PieceV> {
    let d = timeline_head_of(model);
    let d = d + timeline_list_of(model);
    d + timeline_detail_of(model)
}

fn timeline_body_doc(model: &DashboardModel) -> (doc: Doc)
    ensures
        doc@ == timeline_body(*model),
{
    let mut d = timeline_head_doc(model);
    d.append(timeline_list_doc(model));
    d.append(timeline_detail_doc(model));
    d
}

/// The hint line of the timeline screen.
pub open spec fn timeline_hint(model: DashboardModel) -> Seq<PieceV> {
    nav_hint_of(
        model.hint_verbosity,
        "j/k or \u{2191}/\u{2193} navigate  f filter  F follow  r refresh  ? help  : palette"@,
        "j/k navigate  f filter  F follow  r refresh"@,
    )
}

fn timeline_hint_doc(model: &DashboardModel) -> (doc: Doc)
    ensures
        doc@ == timeline_hint(*model),
{
    write_navigation_hint(
        model.hint_verbosity,
        "j/k or \u{2191}/\u{2193} navigate  f filter  F follow  r refresh  ? help  : palette",
        "j/k navigate  f filter  F follow  r refresh",
    )
}

/// The timeline screen: filter, data source, the shown events around the cursor, and
/// in a wide terminal the selected event.
pub open spec fn timeline_page(model: DashboardModel) -> Seq<PieceV> {
    let d = timeline_body(model);
    d + timeline_hint(model)
}

/// The timeline screen: filter, data source, the shown events around the cursor, and
/// in a wide terminal the selected event.
pub fn render_timeline(model: &DashboardModel) -> (doc: Doc)
    ensures
        doc@ == timeline_page(*model),
{
    let mut d = timeline_body_doc(model);
    d.append(timeline_hint_doc(model));
    d
}

/// Rows of the log list.
pub open spec fn log_rows_of(
    events: Seq<TimelineEvent>,
    selected: int,
    from: int,
    to: int,
) -> Seq<PieceV>
    decreases to - from,
{
    if to <= from {
        seq![]
    } else {
        log_rows_of(events, selected, from, to - 1) + event_row(
            cursor_mark_of((to - 1) == selected),
            events[(to - 1)],
        )
    }
}

fn log_rows(model: &DashboardModel, selected: usize, from: usize, to: usize) -> (doc: Doc)
    requires
        from <= to,
        to <= model.timeline_events@.len(),
    ensures
        doc@ == log_rows_of(model.timeline_events@, selected as int, from as int, to as int),
{
    let mut d = Doc::new();
    let mut k: usize = from;
    while k < to
        invariant
            from <= k <= to,
            to <= model.timeline_events@.len(),
            d@ == log_rows_of(model.timeline_events@, selected as int, from as int, k as int),
        decreases to - k,
    {
        d.append(render_event_row(cursor_mark(k == selected), &model.timeline_events[k]));
        k += 1;
    }
    d
}

/// The cursor of the log screen, held inside the list.
pub open spec fn log_cursor_of(model: DashboardModel) -> int {
    if model.timeline_selected < model.timeline_events@.len() {
        model.timeline_selected as int
    } else if model.timeline_events@.len() == 0 {
        0
    } else {
        model.timeline_events@.len() - 1
    }
}

fn log_cursor(model: &DashboardModel) -> (n: usize)
    ensures
        n == log_cursor_of(*model),
        model.timeline_events@.len() > 0 ==> n < model.timeline_events@.len(),
{
    if model.timeline_selected < model.timeline_events.len() {
        model.timeline_selected
    } else if model.timeline_events.len() == 0 {
        0
    } else {
        model.timeline_events.len() - 1
    }
}

/// Height of the entry list on the log screen.
pub open spec fn log_list_rows(size: (u16, u16)) -> int {
    log_search_placements(size.0 as int, size.1 as int)[1].rect.height as int
}

/// Whether the log screen has room for its detail panel.
pub open spec fn log_has_detail(size: (u16, u16)) -> bool {
    log_search_placements(size.0 as int, size.1 as int)[2].visible
}

/// The log entries around the cursor.
pub open spec fn log_list_of(model: DashboardModel) -> Seq<PieceV> {
    if model.timeline_events@.len() == 0 {
        seq![
            txt("No log entries loaded. Timeline telemetry powers this preview."@),
            nl(),
        ]
    } else {
        let total = model.timeline_events@.len() as int;
            let height = log_list_rows(model.terminal_size);
        log_rows_of(
                model.timeline_events@,
                log_cursor_of(model),
                window_start(log_cursor_of(model), total, height),
                window_end(log_cursor_of(model), total, height),
            )
    }
}

fn log_list_doc(model: &DashboardModel) -> (doc: Doc)
    ensures
        doc@ == log_list_of(*model),
{
    if model.timeline_events.len() == 0 {
        let mut p = Doc::new();
        p.text("No log entries loaded. Timeline telemetry powers this preview.");
        p.newline();
        p
    } else {
        let layout = build_log_search_layout(model.terminal_size.0, model.terminal_size.1);
        let selected: usize = log_cursor(model);
        let height: usize = layout.placements[1].rect.height as usize;
        let (from, to) = centered_window(selected, model.timeline_events.len(), height);
        log_rows(model, selected, from, to)
    }
}

/// The selected log entry, where the terminal has room for it.
pub open spec fn log_detail_of(model: DashboardModel) -> Seq<PieceV> {
    if log_has_detail(model.terminal_size) && model.timeline_events@.len() > 0 {
        let d = seq![
            nl(),
        ];
        let d = d + header("Entry Detail"@, page_width_of(model.terminal_size.0));
        d + event_detail(model.timeline_events@[log_cursor_of(model)])
    } else {
        seq![]
    }
}

fn log_detail_doc(model: &DashboardModel) -> (doc: Doc)
    ensures
        doc@ == log_detail_of(*model),
{
    let layout = build_log_search_layout(model.terminal_size.0, model.terminal_size.1);
    if layout.placements[2].visible && model.timeline_events.len() > 0 {
        let mut p = Doc::new();
        p.newline();
        p.append(section("Entry Detail", page_width(model.terminal_size.0)));
        p.append(render_event_detail(&model.timeline_events[log_cursor(model)]));
        p
    } else {
        Doc::new()
    }
}

/// What the log screen shows besides its hint line.
pub open spec fn log_body(model: DashboardModel) -> Seq<PieceV> {
    let d = seq![
        txt("query=<preview> source="@),
        txt(source_label(model.timeline_source)),
        txt(" entries="@),
        txt(dec(model.timeline_events@.len() as nat)),
        txt(" mode=timeline-mirror"@),
        nl(),
    ];
    let d = if model.timeline_diagnostics@.len() > 0 {
        d + seq![
            txt("  diag: "@),
            txt(model.timeline_diagnostics@),
            nl(),
        ]
    } else {
        d
    };
    let d = d + seq![
        nl(),
    ];
    let d = d + log_list_of(model);
    d + log_detail_of(model)
}

fn log_body_doc(model: &DashboardModel) -> (doc: Doc)
    ensures
        doc@ == log_body(*model),
{
    let mut d = Doc::new();
    d.text("query=<preview> source=");
    d.text(data_source_label(model.timeline_source));
    d.text(" entries=");
    d.text(decimal_usize(model.timeline_events.len()).as_str());
    d.text(" mode=timeline-mirror");
    d.newline();
    if !model.timeline_diagnostics.as_str().is_empty() {
        let mut p = Doc::new();
        p.text("  diag: ");
        p.text(model.timeline_diagnostics.as_str());
        p.newline();
        d.append(p);
    }
    let mut p = Doc::new();
    p.newline();
    d.append(p);
    d.append(log_list_doc(model));
    d.append(log_detail_doc(model));
    d
}

/// The hint line of the log screen.
pub open spec fn log_hint(model: DashboardModel) -> Seq<PieceV> {
    nav_hint_of(
        model.hint_verbosity,
        "j/k or wheel navigate  click row focus  r refresh  ? help  : palette"@,
        "j/k or wheel navigate  click row focus  r refresh"@,
    )
}

fn log_hint_doc(model: &DashboardModel) -> (doc: Doc)
    ensures
        doc@ == log_hint(*model),
{
    write_navigation_hint(
        model.hint_verbosity,
        "j/k or wheel navigate  click row focus  r refresh  ? help  : palette",
        "j/k or wheel navigate  click row focus  r refresh",
    )
}

/// The log screen: the timeline entries around the cursor, and in a wide terminal the
/// selected entry.
pub open spec fn log_page(model: DashboardModel) -> Seq<PieceV> {
    let d = log_body(model);
    d + log_hint(model)
}

/// The log screen: the timeline entries around the cursor, and in a wide terminal the
/// selected entry.
pub fn render_log_search(model: &DashboardModel) -> (doc: Doc)
    ensures
        doc@ == log_page(*model),
{
    let mut d = log_body_doc(model);
    d.append(log_hint_doc(model));
    d
}

/// Filter bar of the timeline screen.
pub open spec fn timeline_filter_bar(model: DashboardModel) -> Seq<PieceV> {
    let label = filter_label(model.timeline_filter);
    let tone = if label == "critical"@ {
        Tone::Critical
    } else if label == "warning+"@ {
        Tone::Warning
    } else {
        Tone::Accent
    };
    let d = seq![
        ink("severity "@, Tone::Secondary),
        badge(label, tone),
        txt("  "@),
        ink("follow "@, Tone::Secondary),
    ];
    let d = if model.timeline_follow {
        d + seq![
            badge("ON"@, Tone::Success),
        ]
    } else {
        d + seq![
            badge("OFF"@, Tone::Muted),
        ]
    };
    let d = d + seq![
        txt("  "@),
        ink("source "@, Tone::Secondary),
        badge(source_label(model.timeline_source), Tone::Accent),
    ];
    let d = if model.timeline_partial {
        d + seq![
            txt(" "@),
            badge("PARTIAL"@, Tone::Warning),
        ]
    } else {
        d
    };
    d + seq![
        nl(),
    ]
}

/// Filter bar of the timeline screen.
pub fn frame_timeline_filter_styled(model: &DashboardModel) -> (doc: Doc)
    ensures
        doc@ == timeline_filter_bar(*model),
{
    let label = model.timeline_filter.label();
    let tone = if text_eq(label, "critical") {
        Tone::Critical
    } else if text_eq(label, "warning+") {
        Tone::Warning
    } else {
        Tone::Accent
    };
    let mut d = Doc::new();
    d.ink("severity ", Tone::Secondary);
    d.badge(label, tone);
    d.text("  ");
    d.ink("follow ", Tone::Secondary);
    if model.timeline_follow {
        let mut p = Doc::new();
        p.badge("ON", Tone::Success);
        d.append(p);
    } else {
        let mut p = Doc::new();
        p.badge("OFF", Tone::Muted);
        d.append(p);
    }
    let mut p = Doc::new();
    p.text("  ");
    p.ink("source ", Tone::Secondary);
    p.badge(data_source_label(model.timeline_source), Tone::Accent);
    d.append(p);
    if model.timeline_partial {
        let mut p = Doc::new();
        p.text(" ");
        p.badge("PARTIAL", Tone::Warning);
        d.append(p);
    }
    let mut p = Doc::new();
    p.newline();
    d.append(p);
    d
}

/// One styled line of the event list; the log screen leaves out the size.
pub open spec fn styled_event_row_of(
    event: TimelineEvent,
    selected: bool,
    accent: u8,
    with_size: bool,
) -> Seq<PieceV> {
    let tone = severity_tone_of(event.severity@);
    let d = seq![row_cursor_of(selected, accent)];
    let d = d + seq![
        drawn(
            Atom::Clock(event.timestamp@),
            fg_on(Ink::Of(Tone::Muted), Ink::Of(row_ground_of(selected))),
        ),
        styled(" "@, fg_on(Ink::Of(Tone::Muted), Ink::Of(row_ground_of(selected)))),
        styled(spaced_of(uppered(event.severity@)), bold_on(Ink::Of(Tone::Dark), Ink::Of(tone))),
        styled(
            spaced_of(padded_right(event.event_type@, 18)),
            fg_on(Ink::Of(Tone::Primary), Ink::Of(row_ground_of(selected))),
        ),
    ];
    let d = match event.path {
        Some(path) => {
            d + seq![
                styled(
                    shortened(path@, 24 as nat),
                    fg_on(Ink::Of(Tone::Muted), Ink::Of(row_ground_of(selected))),
                ),
            ]
        },
        None => {
            d + seq![
                styled("-"@, fg_on(Ink::Of(Tone::Muted), Ink::Of(row_ground_of(selected)))),
            ]
        },
    };
    let d = if with_size && event.size_bytes is Some {
        d + ({
            let size = event.size_bytes->0;
            seq![
                styled(" "@, fg_on(Ink::Of(Tone::Secondary), Ink::Of(row_ground_of(selected)))),
                drawn(
                    Atom::Bytes(size),
                    fg_on(Ink::Of(Tone::Secondary), Ink::Of(row_ground_of(selected))),
                ),
            ]
        })
    } else {
        d
    };
    d + seq![
        nl(),
    ]
}

/// One styled line of the event list; the log screen leaves out the size.
pub fn styled_event_row(
    event: &TimelineEvent,
    selected: bool,
    accent: u8,
    with_size: bool,
) -> (doc: Doc)
    ensures
        doc@ == styled_event_row_of(*event, selected, accent, with_size),
{
    let tone = severity_tone(event.severity.as_str());
    let ground = row_ground(selected);
    let mut d = row_cursor(selected, accent);
    let mut p = Doc::new();
    p.drawn(Atom::Clock(event.timestamp.clone()), in_fg_on(Ink::Of(Tone::Muted), Ink::Of(ground)));
    p.styled(" ", in_fg_on(Ink::Of(Tone::Muted), Ink::Of(ground)));
    p.styled(
        spaced(to_upper(event.severity.as_str()).as_str()).as_str(),
        in_bold_on(Ink::Of(Tone::Dark), Ink::Of(tone)),
    );
    p.styled(
        spaced(pad_right(event.event_type.as_str(), 18).as_str()).as_str(),
        in_fg_on(Ink::Of(Tone::Primary), Ink::Of(ground)),
    );
    d.append(p);
    if let Some(path) = &event.path {
        let mut p = Doc::new();
        p.styled(
            truncate_path(path.as_str(), 24).as_str(),
            in_fg_on(Ink::Of(Tone::Muted), Ink::Of(ground)),
        );
        d.append(p);
    } else {
        let mut p = Doc::new();
        p.styled("-", in_fg_on(Ink::Of(Tone::Muted), Ink::Of(ground)));
        d.append(p);
    }
    if with_size && event.size_bytes.is_some() {
        let size: u64 = event.size_bytes.unwrap();
        let mut p = Doc::new();
        p.styled(" ", in_fg_on(Ink::Of(Tone::Secondary), Ink::Of(ground)));
        p.drawn(Atom::Bytes(size), in_fg_on(Ink::Of(Tone::Secondary), Ink::Of(ground)));
        d.append(p);
    }
    let mut p = Doc::new();
    p.newline();
    d.append(p);
    d
}

/// Styled rows of the timeline list.
pub open spec fn styled_timeline_rows_of(
    events: Seq<TimelineEvent>,
    selected: int,
    from: int,
    to: int,
) -> Seq<PieceV>
    decreases to - from,
{
    if to <= from {
        seq![]
    } else {
        styled_timeline_rows_of(events, selected, from, to - 1) + styled_event_row_of(
            events[(to - 1)],
            (to - 1) == selected,
            2,
            true,
        )
    }
}

fn styled_timeline_rows(
    model: &DashboardModel,
    events: &Vec<&TimelineEvent>,
    from: usize,
    to: usize,
) -> (doc: Doc)
    requires
        from <= to,
        to <= events@.len(),
        events@.len() == model.shown_events().len(),
        forall|j: int| 0 <= j < events@.len() ==> *(#[trigger] events@[j]) == model.shown_events()[j],
    ensures
        doc@ == styled_timeline_rows_of(
            model.shown_events(),
            model.timeline_selected as int,
            from as int,
            to as int,
        ),
{
    let mut d = Doc::new();
    let mut k: usize = from;
    while k < to
        invariant
            from <= k <= to,
            to <= events@.len(),
            events@.len() == model.shown_events().len(),
            forall|j: int| 0 <= j < events@.len() ==> *(#[trigger] events@[j]) == model.shown_events()[j],
            d@ == styled_timeline_rows_of(
                model.shown_events(),
                model.timeline_selected as int,
                from as int,
                k as int,
            ),
        decreases to - k,
    {
        d.append(styled_event_row(events[k], k == model.timeline_selected, 2, true));
        k += 1;
    }
    d
}

/// Event list pane of the timeline screen.
pub open spec fn timeline_list_pane(model: DashboardModel, rows: int) -> Seq<PieceV> {
    let total = model.shown_events().len() as int;
    if total == 0 {
        seq![
            ink("No events available for filter="@, Tone::Muted),
            ink(filter_label(model.timeline_filter), Tone::Muted),
            ink(". Press f to cycle."@, Tone::Muted),
            nl(),
        ]
    } else {
        let from = window_start(model.timeline_selected as int, total, rows);
            let to = window_end(model.timeline_selected as int, total, rows);
        let d = seq![
            ink("events="@, Tone::Secondary),
            ink(dec(total as nat), Tone::Secondary),
            ink(" of "@, Tone::Secondary),
            ink(dec(model.timeline_events@.len() as nat), Tone::Secondary),
            ink(" "@, Tone::Secondary),
            ink("(rows "@, Tone::Muted),
            ink(dec((from + 1) as nat), Tone::Muted),
            ink(".."@, Tone::Muted),
            ink(dec((to) as nat), Tone::Muted),
            ink(")"@, Tone::Muted),
            nl(),
        ];
        d + styled_timeline_rows_of(
            model.shown_events(),
            model.timeline_selected as int,
            from,
            to,
        )
    }
}

/// Event list pane of the timeline screen.
pub fn frame_timeline_list_styled(model: &DashboardModel, rows: usize) -> (doc: Doc)
    ensures
        doc@ == timeline_list_pane(*model, rows as int),
{
    let events = model.timeline_filtered_events();
    if events.len() == 0 {
        let mut p = Doc::new();
        p.ink("No events available for filter=", Tone::Muted);
        p.ink(model.timeline_filter.label(), Tone::Muted);
        p.ink(". Press f to cycle.", Tone::Muted);
        p.newline();
        p
    } else {
        let (from, to) = centered_window(model.timeline_selected, events.len(), rows);
        let mut p = Doc::new();
        p.ink("events=", Tone::Secondary);
        p.ink(decimal_usize(events.len()).as_str(), Tone::Secondary);
        p.ink(" of ", Tone::Secondary);
        p.ink(decimal_usize(model.timeline_events.len()).as_str(), Tone::Secondary);
        p.ink(" ", Tone::Secondary);
        p.ink("(rows ", Tone::Muted);
        p.ink(decimal_usize(from + 1).as_str(), Tone::Muted);
        p.ink("..", Tone::Muted);
        p.ink(decimal_usize(to).as_str(), Tone::Muted);
        p.ink(")", Tone::Muted);
        p.newline();
        p.append(styled_timeline_rows(model, &events, from, to));
        p
    }
}

/// The styled path line of an event.
pub open spec fn styled_path_line(event: TimelineEvent) -> Seq<PieceV> {
    match event.path {
        Some(path) => {
            seq![
                ink("  path       "@, Tone::Muted),
                ink(dir_part(path@), Tone::Muted),
                ink(file_part(path@), Tone::Accent),
                nl(),
            ]
        },
        None => {
            seq![]
        },
    }
}

fn styled_path_line_doc(event: &TimelineEvent) -> (doc: Doc)
    ensures
        doc@ == styled_path_line(*event),
{
    if let Some(path) = &event.path {
        let (dir, file) = split_path_dir_file(path.as_str());
        let mut p = Doc::new();
        p.ink("  path       ", Tone::Muted);
        p.ink(dir.as_str(), Tone::Muted);
        p.ink(file.as_str(), Tone::Accent);
        p.newline();
        p
    } else {
        Doc::new()
    }
}

/// The styled size bytes line of an event.
pub open spec fn styled_size_bytes_line(event: TimelineEvent) -> Seq<PieceV> {
    match event.size_bytes {
        Some(size) => {
            seq![
                ink("  size       "@, Tone::Muted),
                drawn(Atom::Bytes(size), fg(Ink::Of(Tone::Primary))),
                ink(" ("@, Tone::Primary),
                ink(dec(size as nat), Tone::Primary),
                ink(" bytes)"@, Tone::Primary),
                nl(),
            ]
        },
        None => {
            seq![]
        },
    }
}

fn styled_size_bytes_line_doc(event: &TimelineEvent) -> (doc: Doc)
    ensures
        doc@ == styled_size_bytes_line(*event),
{
    if let Some(size) = event.size_bytes {
        let mut p = Doc::new();
        p.ink("  size       ", Tone::Muted);
        p.drawn(Atom::Bytes(size), in_fg(Ink::Of(Tone::Primary)));
        p.ink(" (", Tone::Primary);
        p.ink(decimal(size).as_str(), Tone::Primary);
        p.ink(" bytes)", Tone::Primary);
        p.newline();
        p
    } else {
        Doc::new()
    }
}

/// The styled score line of an event.
pub open spec fn styled_score_line(event: TimelineEvent) -> Seq<PieceV> {
    match event.score {
        Some(score) => {
            seq![
                ink("  score      "@, Tone::Muted),
                drawn(Atom::Fixed { value: score, decimals: 4 }, fg(Ink::Gradient(score))),
                nl(),
            ]
        },
        None => {
            seq![]
        },
    }
}

fn styled_score_line_doc(event: &TimelineEvent) -> (doc: Doc)
    ensures
        doc@ == styled_score_line(*event),
{
    if let Some(score) = event.score {
        let mut p = Doc::new();
        p.ink("  score      ", Tone::Muted);
        p.drawn(Atom::Fixed { value: score, decimals: 4 }, in_fg(Ink::Gradient(score)));
        p.newline();
        p
    } else {
        Doc::new()
    }
}

/// The styled pressure level line of an event.
pub open spec fn styled_pressure_level_line(event: TimelineEvent) -> Seq<PieceV> {
    match event.pressure_level {
        Some(level) => {
            seq![
                ink("  pressure   "@, Tone::Muted),
                badge_in(uppered(level@), Ink::Pressure(level@)),
                nl(),
            ]
        },
        None => {
            seq![]
        },
    }
}

fn styled_pressure_level_line_doc(event: &TimelineEvent) -> (doc: Doc)
    ensures
        doc@ == styled_pressure_level_line(*event),
{
    if let Some(level) = &event.pressure_level {
        let mut p = Doc::new();
        p.ink("  pressure   ", Tone::Muted);
        p.badge_in(to_upper(level.as_str()).as_str(), Ink::Pressure(level.clone()));
        p.newline();
        p
    } else {
        Doc::new()
    }
}

/// The styled free pct line of an event.
pub open spec fn styled_free_pct_line(event: TimelineEvent) -> Seq<PieceV> {
    match event.free_pct {
        Some(pct) => {
            seq![
                ink("  free       "@, Tone::Muted),
                drawn(Atom::Fixed { value: pct, decimals: 1 }, fg(Ink::Of(Tone::Secondary))),
                ink("%"@, Tone::Secondary),
                nl(),
            ]
        },
        None => {
            seq![]
        },
    }
}

fn styled_free_pct_line_doc(event: &TimelineEvent) -> (doc: Doc)
    ensures
        doc@ == styled_free_pct_line(*event),
{
    if let Some(pct) = event.free_pct {
        let mut p = Doc::new();
        p.ink("  free       ", Tone::Muted);
        p.drawn(Atom::Fixed { value: pct, decimals: 1 }, in_fg(Ink::Of(Tone::Secondary)));
        p.ink("%", Tone::Secondary);
        p.newline();
        p
    } else {
        Doc::new()
    }
}

/// The styled success line of an event.
pub open spec fn styled_success_line(event: TimelineEvent) -> Seq<PieceV> {
    match event.success {
        Some(ok) => {
            if ok {
                seq![
                    ink("  success    "@, Tone::Muted),
                    ink("yes"@, Tone::Success),
                    nl(),
                ]
            } else {
                seq![
                    ink("  success    "@, Tone::Muted),
                    ink("no"@, Tone::Danger),
                    nl(),
                ]
            }
        },
        None => {
            seq![]
        },
    }
}

fn styled_success_line_doc(event: &TimelineEvent) -> (doc: Doc)
    ensures
        doc@ == styled_success_line(*event),
{
    if let Some(ok) = event.success {
        if ok {
            let mut q = Doc::new();
            q.ink("  success    ", Tone::Muted);
            q.ink("yes", Tone::Success);
            q.newline();
            q
        } else {
            let mut q = Doc::new();
            q.ink("  success    ", Tone::Muted);
            q.ink("no", Tone::Danger);
            q.newline();
            q
        }
    } else {
        Doc::new()
    }
}

/// The styled error code line of an event.
pub open spec fn styled_error_code_line(event: TimelineEvent) -> Seq<PieceV> {
    match event.error_code {
        Some(code) => {
            seq![
                ink("  error-code "@, Tone::Muted),
                ink(code@, Tone::Danger),
                nl(),
            ]
        },
        None => {
            seq![]
        },
    }
}

fn styled_error_code_line_doc(event: &TimelineEvent) -> (doc: Doc)
    ensures
        doc@ == styled_error_code_line(*event),
{
    if let Some(code) = &event.error_code {
        let mut p = Doc::new();
        p.ink("  error-code ", Tone::Muted);
        p.ink(code.as_str(), Tone::Danger);
        p.newline();
        p
    } else {
        Doc::new()
    }
}

/// The styled error message line of an event.
pub open spec fn styled_error_message_line(event: TimelineEvent) -> Seq<PieceV> {
    match event.error_message {
        Some(msg) => {
            seq![
                ink("  error      "@, Tone::Muted),
                ink(msg@, Tone::Danger),
                nl(),
            ]
        },
        None => {
            seq![]
        },
    }
}

fn styled_error_message_line_doc(event: &TimelineEvent) -> (doc: Doc)
    ensures
        doc@ == styled_error_message_line(*event),
{
    if let Some(msg) = &event.error_message {
        let mut p = Doc::new();
        p.ink("  error      ", Tone::Muted);
        p.ink(msg.as_str(), Tone::Danger);
        p.newline();
        p
    } else {
        Doc::new()
    }
}

/// The styled duration ms line of an event.
pub open spec fn styled_duration_ms_line(event: TimelineEvent) -> Seq<PieceV> {
    match event.duration_ms {
        Some(ms) => {
            seq![
                ink("  duration   "@, Tone::Muted),
                ink(dec(ms as nat), Tone::Secondary),
                ink("ms"@, Tone::Secondary),
                nl(),
            ]
        },
        None => {
            seq![]
        },
    }
}

fn styled_duration_ms_line_doc(event: &TimelineEvent) -> (doc: Doc)
    ensures
        doc@ == styled_duration_ms_line(*event),
{
    if let Some(ms) = event.duration_ms {
        let mut p = Doc::new();
        p.ink("  duration   ", Tone::Muted);
        p.ink(decimal(ms).as_str(), Tone::Secondary);
        p.ink("ms", Tone::Secondary);
        p.newline();
        p
    } else {
        Doc::new()
    }
}

/// The styled details line of an event.
pub open spec fn styled_details_line(event: TimelineEvent) -> Seq<PieceV> {
    match event.details {
        Some(details) => {
            seq![
                ink("  details    "@, Tone::Muted),
                ink(details@, Tone::Secondary),
                nl(),
            ]
        },
        None => {
            seq![]
        },
    }
}

fn styled_details_line_doc(event: &TimelineEvent) -> (doc: Doc)
    ensures
        doc@ == styled_details_line(*event),
{
    if let Some(details) = &event.details {
        let mut p = Doc::new();
        p.ink("  details    ", Tone::Muted);
        p.ink(details.as_str(), Tone::Secondary);
        p.newline();
        p
    } else {
        Doc::new()
    }
}

/// Styled fields of an event; fields that are absent are left out.
pub open spec fn styled_event_detail_of(event: TimelineEvent) -> Seq<PieceV> {
    let tone = severity_tone_of(event.severity@);
    let d = seq![
        ink("  timestamp  "@, Tone::Muted),
        ink(event.timestamp@, Tone::Primary),
        nl(),
        ink("  event      "@, Tone::Muted),
        ink(event.event_type@, Tone::Primary),
        nl(),
        ink("  severity   "@, Tone::Muted),
        badge(uppered(event.severity@), tone),
        nl(),
    ];
    let d = d + styled_path_line(event);
    let d = d + styled_size_bytes_line(event);
    let d = d + styled_score_line(event);
    let d = d + styled_pressure_level_line(event);
    let d = d + styled_free_pct_line(event);
    let d = d + styled_success_line(event);
    let d = d + styled_error_code_line(event);
    let d = d + styled_error_message_line(event);
    let d = d + styled_duration_ms_line(event);
    d + styled_details_line(event)
}

/// Styled fields of an event; fields that are absent are left out.
pub fn styled_event_detail(event: &TimelineEvent) -> (doc: Doc)
    ensures
        doc@ == styled_event_detail_of(*event),
{
    let tone = severity_tone(event.severity.as_str());
    let mut d = Doc::new();
    d.ink("  timestamp  ", Tone::Muted);
    d.ink(event.timestamp.as_str(), Tone::Primary);
    d.newline();
    d.ink("  event      ", Tone::Muted);
    d.ink(event.event_type.as_str(), Tone::Primary);
    d.newline();
    d.ink("  severity   ", Tone::Muted);
    d.badge(to_upper(event.severity.as_str()).as_str(), tone);
    d.newline();
    d.append(styled_path_line_doc(event));
    d.append(styled_size_bytes_line_doc(event));
    d.append(styled_score_line_doc(event));
    d.append(styled_pressure_level_line_doc(event));
    d.append(styled_free_pct_line_doc(event));
    d.append(styled_success_line_doc(event));
    d.append(styled_error_code_line_doc(event));
    d.append(styled_error_message_line_doc(event));
    d.append(styled_duration_ms_line_doc(event));
    d.append(styled_details_line_doc(event));
    d
}

/// Detail pane of the timeline screen.
pub open spec fn timeline_detail_pane(model: DashboardModel) -> Seq<PieceV> {
    if model.timeline_selected < model.shown_events().len() {
        styled_event_detail_of(model.shown_events()[model.timeline_selected as int])
    } else {
        seq![
            ink("No selected event."@, Tone::Muted),
            nl(),
        ]
    }
}

/// Detail pane of the timeline screen.
pub fn frame_timeline_detail_styled(model: &DashboardModel) -> (doc: Doc)
    ensures
        doc@ == timeline_detail_pane(*model),
{
    if model.timeline_selected < model.timeline_filtered_events().len() {
        let events = model.timeline_filtered_events();
        styled_event_detail(events[model.timeline_selected])
    } else {
        let mut p = Doc::new();
        p.ink("No selected event.", Tone::Muted);
        p.newline();
        p
    }
}

/// Search bar of the log screen.
pub open spec fn log_header_pane(model: DashboardModel) -> Seq<PieceV> {
    seq![
        ink("query "@, Tone::Secondary),
        ink("<not-yet-editable>"@, Tone::Muted),
        txt("  "@),
        ink("source "@, Tone::Secondary),
        badge(source_label(model.timeline_source), Tone::Accent),
        txt("  "@),
        ink("events="@, Tone::Secondary),
        ink(dec(model.timeline_events@.len() as nat), Tone::Secondary),
        nl(),
    ]
}

/// Search bar of the log screen.
pub fn frame_log_search_header_styled(model: &DashboardModel) -> (doc: Doc)
    ensures
        doc@ == log_header_pane(*model),
{
    let mut d = Doc::new();
    d.ink("query ", Tone::Secondary);
    d.ink("<not-yet-editable>", Tone::Muted);
    d.text("  ");
    d.ink("source ", Tone::Secondary);
    d.badge(data_source_label(model.timeline_source), Tone::Accent);
    d.text("  ");
    d.ink("events=", Tone::Secondary);
    d.ink(decimal_usize(model.timeline_events.len()).as_str(), Tone::Secondary);
    d.newline();
    d
}

/// Styled rows of the log list.
pub open spec fn styled_log_rows_of(
    events: Seq<TimelineEvent>,
    selected: int,
    from: int,
    to: int,
) -> Seq<PieceV>
    decreases to - from,
{
    if to <= from {
        seq![]
    } else {
        styled_log_rows_of(events, selected, from, to - 1) + styled_event_row_of(
            events[(to - 1)],
            (to - 1) == selected,
            6,
            false,
        )
    }
}

fn styled_log_rows(model: &DashboardModel, selected: usize, from: usize, to: usize) -> (doc: Doc)
    requires
        from <= to,
        to <= model.timeline_events@.len(),
    ensures
        doc@ == styled_log_rows_of(model.timeline_events@, selected as int, from as int, to as int),
{
    let mut d = Doc::new();
    let mut k: usize = from;
    while k < to
        invariant
            from <= k <= to,
            to <= model.timeline_events@.len(),
            d@ == styled_log_rows_of(
                model.timeline_events@,
                selected as int,
                from as int,
                k as int,
            ),
        decreases to - k,
    {
        d.append(styled_event_row(&model.timeline_events[k], k == selected, 6, false));
        k += 1;
    }
    d
}

/// Entry list pane of the log screen.
pub open spec fn log_list_pane(model: DashboardModel, rows: int) -> Seq<PieceV> {
    if model.timeline_events@.len() == 0 {
        seq![
            ink("No log entries loaded. Timeline telemetry powers this preview."@, Tone::Muted),
            nl(),
        ]
    } else {
        let total = model.timeline_events@.len() as int;
            let cursor = log_cursor_of(model);
        styled_log_rows_of(
                model.timeline_events@,
                cursor,
                window_start(cursor, total, rows),
                window_end(cursor, total, rows),
            )
    }
}

/// Entry list pane of the log screen.
pub fn frame_log_search_list_styled(model: &DashboardModel, rows: usize) -> (doc: Doc)
    ensures
        doc@ == log_list_pane(*model, rows as int),
{
    if model.timeline_events.len() == 0 {
        let mut p = Doc::new();
        p.ink("No log entries loaded. Timeline telemetry powers this preview.", Tone::Muted);
        p.newline();
        p
    } else {
        let cursor: usize = log_cursor(model);
        let (from, to) = centered_window(cursor, model.timeline_events.len(), rows);
        styled_log_rows(model, cursor, from, to)
    }
}

/// Detail pane of the log screen.
pub open spec fn log_detail_pane(model: DashboardModel) -> Seq<PieceV> {
    if model.timeline_events@.len() == 0 {
        seq![
            ink("No selected entry."@, Tone::Muted),
            nl(),
        ]
    } else {
        styled_event_detail_of(model.timeline_events@[log_cursor_of(model)])
    }
}

/// Detail pane of the log screen.
pub fn frame_log_search_detail_styled(model: &DashboardModel) -> (doc: Doc)
    ensures
        doc@ == log_detail_pane(*model),
{
    if model.timeline_events.len() == 0 {
        let mut p = Doc::new();
        p.ink("No selected entry.", Tone::Muted);
        p.newline();
        p
    } else {
        styled_event_detail(&model.timeline_events[log_cursor(model)])
    }
}

/// What the screen shows besides its hint line does not depend on how verbose
/// hints are.
pub proof fn law_timeline_ignores_hints(model: DashboardModel, other: HintVerbosity)
    ensures
        timeline_body(model) == timeline_body((DashboardModel { hint_verbosity: other, ..model })),
{
}

/// What the screen shows besides its hint line does not depend on how verbose
/// hints are.
pub proof fn law_log_ignores_hints(model: DashboardModel, other: HintVerbosity)
    ensures
        log_body(model) == log_body((DashboardModel { hint_verbosity: other, ..model })),
{
}

/// The plain and the styled list show the cursor on the same event.
pub proof fn law_timeline_cursor_is_shown(model: DashboardModel, rows: int)
    requires
        model.timeline_selected < model.shown_events().len(),
        rows >= 0,
    ensures
        window_start(model.timeline_selected as int, model.shown_events().len() as int, rows)
            <= model.timeline_selected < window_end(
            model.timeline_selected as int,
            model.shown_events().len() as int,
            rows,
        ),
{
    law_window_shows_selection(
        model.timeline_selected as int,
        model.shown_events().len() as int,
        rows,
    );
}

/// The cursor of the log stands on an event wherever there is one: on the selected event,
/// or on the last one where the selection lies beyond it.
pub proof fn law_log_cursor_is_in_the_list(model: DashboardModel)
    ensures
        model.timeline_events@.len() > 0 ==> 0 <= log_cursor_of(model)
            < model.timeline_events@.len(),
        model.timeline_selected < model.timeline_events@.len() ==> log_cursor_of(model)
            == model.timeline_selected,
        model.timeline_selected >= model.timeline_events@.len() && model.timeline_events@.len() > 0
            ==> log_cursor_of(model) + 1 == model.timeline_events@.len(),
{
}

} // verus!
