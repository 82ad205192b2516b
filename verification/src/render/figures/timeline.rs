//! What is shown on the timeline and log screens: figures behind
//! their labels, columns in order, and parts in their place.

use vstd::prelude::*;

use crate::markup::Atom;
use crate::markup::before;
use crate::markup::before_at;
use crate::markup::labels;
use crate::markup::reads;
use crate::model::DashboardModel;
use crate::model::filter_label;
use crate::render::common::cursor_mark_of;
use crate::render::common::dir_part;
use crate::render::common::file_part;
use crate::render::common::health_word_of;
use crate::render::common::nav_hint_of;
use crate::render::common::severity_word_of;
use crate::render::common::shortened;
use crate::render::common::source_label;
use crate::render::common::spaced_of;
use crate::render::common::window_end;
use crate::render::common::window_start;
use crate::render::timeline::event_detail;
use crate::render::timeline::event_details_line;
use crate::render::timeline::event_duration_ms_line;
use crate::render::timeline::event_error_code_line;
use crate::render::timeline::event_error_message_line;
use crate::render::timeline::event_free_pct_line;
use crate::render::timeline::event_path_line;
use crate::render::timeline::event_pressure_level_line;
use crate::render::timeline::event_row;
use crate::render::timeline::event_score_line;
use crate::render::timeline::event_size_bytes_line;
use crate::render::timeline::event_success_line;
use crate::render::timeline::log_body;
use crate::render::timeline::log_cursor_of;
use crate::render::timeline::log_detail_of;
use crate::render::timeline::log_detail_pane;
use crate::render::timeline::log_has_detail;
use crate::render::timeline::log_header_pane;
use crate::render::timeline::log_hint;
use crate::render::timeline::log_list_of;
use crate::render::timeline::log_list_pane;
use crate::render::timeline::log_list_rows;
use crate::render::timeline::log_page;
use crate::render::timeline::log_rows_of;
use crate::render::timeline::styled_details_line;
use crate::render::timeline::styled_duration_ms_line;
use crate::render::timeline::styled_error_code_line;
use crate::render::timeline::styled_error_message_line;
use crate::render::timeline::styled_event_detail_of;
use crate::render::timeline::styled_event_row_of;
use crate::render::timeline::styled_free_pct_line;
use crate::render::timeline::styled_log_rows_of;
use crate::render::timeline::styled_path_line;
use crate::render::timeline::styled_pressure_level_line;
use crate::render::timeline::styled_score_line;
use crate::render::timeline::styled_size_bytes_line;
use crate::render::timeline::styled_success_line;
use crate::render::timeline::styled_timeline_rows_of;
use crate::render::timeline::timeline_body;
use crate::render::timeline::timeline_detail_of;
use crate::render::timeline::timeline_detail_pane;
use crate::render::timeline::timeline_filter_bar;
use crate::render::timeline::timeline_has_detail;
use crate::render::timeline::timeline_head_of;
use crate::render::timeline::timeline_hint;
use crate::render::timeline::timeline_list_of;
use crate::render::timeline::timeline_list_pane;
use crate::render::timeline::timeline_list_rows;
use crate::render::timeline::timeline_page;
use crate::render::timeline::timeline_rows_of;
use crate::telemetry::TimelineEvent;
use crate::text::dec;
use crate::text::padded_right;
use crate::text::uppered;

verus! {

/// One line of the event list: its figures stand in the order of their columns.
pub proof fn law_event_row_order(cursor: Seq<char>, event: TimelineEvent)
    ensures
        ({
            let d = event_row(cursor, event);
            &&& before(d, Atom::Text(cursor), Atom::Clock(event.timestamp@))
            &&& before(
                d,
                Atom::Clock(event.timestamp@),
                Atom::Badge(severity_word_of(event.severity@)),
            )
            &&& before(
                d,
                Atom::Badge(severity_word_of(event.severity@)),
                Atom::Text(padded_right(event.event_type@, 20)),
            )
            &&& event.path is Some ==> before(
                d,
                Atom::Text(padded_right(event.event_type@, 20)),
                Atom::Text(shortened(event.path->0@, 30 as nat)),
            )
            &&& event.size_bytes is Some && event.path is Some ==> before(
                d,
                Atom::Text(shortened(event.path->0@, 30 as nat)),
                Atom::Bytes(event.size_bytes->0),
            )
            &&& event.size_bytes is Some && event.path is None ==> before(
                d,
                Atom::Text(padded_right(event.event_type@, 20)),
                Atom::Bytes(event.size_bytes->0),
            )
        }),
{
    let d = event_row(cursor, event);
    if event.success is Some && event.size_bytes is Some && event.path is Some && (event.success->0) {
        assert(before_at(d, 0, 2, Atom::Text(cursor), Atom::Clock(event.timestamp@)));
        assert(before_at(
            d,
            2,
            4,
            Atom::Clock(event.timestamp@),
            Atom::Badge(severity_word_of(event.severity@)),
        ));
        assert(before_at(
            d,
            4,
            6,
            Atom::Badge(severity_word_of(event.severity@)),
            Atom::Text(padded_right(event.event_type@, 20)),
        ));
        assert(before_at(
            d,
            6,
            8,
            Atom::Text(padded_right(event.event_type@, 20)),
            Atom::Text(shortened(event.path->0@, 30 as nat)),
        ));
        assert(before_at(
            d,
            8,
            10,
            Atom::Text(shortened(event.path->0@, 30 as nat)),
            Atom::Bytes(event.size_bytes->0),
        ));
    }
    if event.success is Some && event.size_bytes is Some && event.path is Some && (!(event.success->0)) {
        assert(before_at(d, 0, 2, Atom::Text(cursor), Atom::Clock(event.timestamp@)));
        assert(before_at(
            d,
            2,
            4,
            Atom::Clock(event.timestamp@),
            Atom::Badge(severity_word_of(event.severity@)),
        ));
        assert(before_at(
            d,
            4,
            6,
            Atom::Badge(severity_word_of(event.severity@)),
            Atom::Text(padded_right(event.event_type@, 20)),
        ));
        assert(before_at(
            d,
            6,
            8,
            Atom::Text(padded_right(event.event_type@, 20)),
            Atom::Text(shortened(event.path->0@, 30 as nat)),
        ));
        assert(before_at(
            d,
            8,
            10,
            Atom::Text(shortened(event.path->0@, 30 as nat)),
            Atom::Bytes(event.size_bytes->0),
        ));
    }
    if event.success is Some && event.size_bytes is Some && event.path is None && (event.success->0) {
        assert(before_at(d, 0, 2, Atom::Text(cursor), Atom::Clock(event.timestamp@)));
        assert(before_at(
            d,
            2,
            4,
            Atom::Clock(event.timestamp@),
            Atom::Badge(severity_word_of(event.severity@)),
        ));
        assert(before_at(
            d,
            4,
            6,
            Atom::Badge(severity_word_of(event.severity@)),
            Atom::Text(padded_right(event.event_type@, 20)),
        ));
        assert(before_at(
            d,
            6,
            10,
            Atom::Text(padded_right(event.event_type@, 20)),
            Atom::Bytes(event.size_bytes->0),
        ));
    }
    if event.success is Some && event.size_bytes is Some && event.path is None && (!(event.success->0)) {
        assert(before_at(d, 0, 2, Atom::Text(cursor), Atom::Clock(event.timestamp@)));
        assert(before_at(
            d,
            2,
            4,
            Atom::Clock(event.timestamp@),
            Atom::Badge(severity_word_of(event.severity@)),
        ));
        assert(before_at(
            d,
            4,
            6,
            Atom::Badge(severity_word_of(event.severity@)),
            Atom::Text(padded_right(event.event_type@, 20)),
        ));
        assert(before_at(
            d,
            6,
            10,
            Atom::Text(padded_right(event.event_type@, 20)),
            Atom::Bytes(event.size_bytes->0),
        ));
    }
    if event.success is Some && event.size_bytes is None && event.path is Some && (event.success->0) {
        assert(before_at(d, 0, 2, Atom::Text(cursor), Atom::Clock(event.timestamp@)));
        assert(before_at(
            d,
            2,
            4,
            Atom::Clock(event.timestamp@),
            Atom::Badge(severity_word_of(event.severity@)),
        ));
        assert(before_at(
            d,
            4,
            6,
            Atom::Badge(severity_word_of(event.severity@)),
            Atom::Text(padded_right(event.event_type@, 20)),
        ));
        assert(before_at(
            d,
            6,
            8,
            Atom::Text(padded_right(event.event_type@, 20)),
            Atom::Text(shortened(event.path->0@, 30 as nat)),
        ));
    }
    if event.success is Some && event.size_bytes is None && event.path is Some && (!(event.success->0)) {
        assert(before_at(d, 0, 2, Atom::Text(cursor), Atom::Clock(event.timestamp@)));
        assert(before_at(
            d,
            2,
            4,
            Atom::Clock(event.timestamp@),
            Atom::Badge(severity_word_of(event.severity@)),
        ));
        assert(before_at(
            d,
            4,
            6,
            Atom::Badge(severity_word_of(event.severity@)),
            Atom::Text(padded_right(event.event_type@, 20)),
        ));
        assert(before_at(
            d,
            6,
            8,
            Atom::Text(padded_right(event.event_type@, 20)),
            Atom::Text(shortened(event.path->0@, 30 as nat)),
        ));
    }
    if event.success is Some && event.size_bytes is None && event.path is None && (event.success->0) {
        assert(before_at(d, 0, 2, Atom::Text(cursor), Atom::Clock(event.timestamp@)));
        assert(before_at(
            d,
            2,
            4,
            Atom::Clock(event.timestamp@),
            Atom::Badge(severity_word_of(event.severity@)),
        ));
        assert(before_at(
            d,
            4,
            6,
            Atom::Badge(severity_word_of(event.severity@)),
            Atom::Text(padded_right(event.event_type@, 20)),
        ));
    }
    if event.success is Some && event.size_bytes is None && event.path is None && (!(event.success->0)) {
        assert(before_at(d, 0, 2, Atom::Text(cursor), Atom::Clock(event.timestamp@)));
        assert(before_at(
            d,
            2,
            4,
            Atom::Clock(event.timestamp@),
            Atom::Badge(severity_word_of(event.severity@)),
        ));
        assert(before_at(
            d,
            4,
            6,
            Atom::Badge(severity_word_of(event.severity@)),
            Atom::Text(padded_right(event.event_type@, 20)),
        ));
    }
    if event.success is None && event.size_bytes is Some && event.path is Some {
        assert(before_at(d, 0, 2, Atom::Text(cursor), Atom::Clock(event.timestamp@)));
        assert(before_at(
            d,
            2,
            4,
            Atom::Clock(event.timestamp@),
            Atom::Badge(severity_word_of(event.severity@)),
        ));
        assert(before_at(
            d,
            4,
            6,
            Atom::Badge(severity_word_of(event.severity@)),
            Atom::Text(padded_right(event.event_type@, 20)),
        ));
        assert(before_at(
            d,
            6,
            8,
            Atom::Text(padded_right(event.event_type@, 20)),
            Atom::Text(shortened(event.path->0@, 30 as nat)),
        ));
        assert(before_at(
            d,
            8,
            10,
            Atom::Text(shortened(event.path->0@, 30 as nat)),
            Atom::Bytes(event.size_bytes->0),
        ));
    }
    if event.success is None && event.size_bytes is Some && event.path is None {
        assert(before_at(d, 0, 2, Atom::Text(cursor), Atom::Clock(event.timestamp@)));
        assert(before_at(
            d,
            2,
            4,
            Atom::Clock(event.timestamp@),
            Atom::Badge(severity_word_of(event.severity@)),
        ));
        assert(before_at(
            d,
            4,
            6,
            Atom::Badge(severity_word_of(event.severity@)),
            Atom::Text(padded_right(event.event_type@, 20)),
        ));
        assert(before_at(
            d,
            6,
            10,
            Atom::Text(padded_right(event.event_type@, 20)),
            Atom::Bytes(event.size_bytes->0),
        ));
    }
    if event.success is None && event.size_bytes is None && event.path is Some {
        assert(before_at(d, 0, 2, Atom::Text(cursor), Atom::Clock(event.timestamp@)));
        assert(before_at(
            d,
            2,
            4,
            Atom::Clock(event.timestamp@),
            Atom::Badge(severity_word_of(event.severity@)),
        ));
        assert(before_at(
            d,
            4,
            6,
            Atom::Badge(severity_word_of(event.severity@)),
            Atom::Text(padded_right(event.event_type@, 20)),
        ));
        assert(before_at(
            d,
            6,
            8,
            Atom::Text(padded_right(event.event_type@, 20)),
            Atom::Text(shortened(event.path->0@, 30 as nat)),
        ));
    }
    if event.success is None && event.size_bytes is None && event.path is None {
        assert(before_at(d, 0, 2, Atom::Text(cursor), Atom::Clock(event.timestamp@)));
        assert(before_at(
            d,
            2,
            4,
            Atom::Clock(event.timestamp@),
            Atom::Badge(severity_word_of(event.severity@)),
        ));
        assert(before_at(
            d,
            4,
            6,
            Atom::Badge(severity_word_of(event.severity@)),
            Atom::Text(padded_right(event.event_type@, 20)),
        ));
    }
}

/// The path line of an event: each label is followed by the figure that it names.
pub proof fn law_event_path_line_figures(event: TimelineEvent)
    ensures
        ({
            let d = event_path_line(event);
            &&& event.path is Some ==> labels(d, "  path:       "@, Atom::Text(event.path->0@))
        }),
{
    broadcast use crate::markup::group_labels;

}

/// The size bytes line of an event: each label is followed by the figure that it names.
pub proof fn law_event_size_bytes_line_figures(event: TimelineEvent)
    ensures
        ({
            let d = event_size_bytes_line(event);
            &&& event.size_bytes is Some ==> labels(
                d,
                "  size:       "@,
                Atom::Bytes(event.size_bytes->0),
            )
            &&& event.size_bytes is Some ==> labels(
                d,
                " ("@,
                Atom::Text(dec(event.size_bytes->0 as nat)),
            )
        }),
{
    broadcast use crate::markup::group_labels;

}

/// The score line of an event: each label is followed by the figure that it names.
pub proof fn law_event_score_line_figures(event: TimelineEvent)
    ensures
        ({
            let d = event_score_line(event);
            &&& event.score is Some ==> labels(
                d,
                "  score:      "@,
                Atom::Fixed { value: event.score->0, decimals: 4 },
            )
        }),
{
    broadcast use crate::markup::group_labels;

}

/// The pressure level line of an event: each label is followed by the figure that it names.
pub proof fn law_event_pressure_level_line_figures(event: TimelineEvent)
    ensures
        ({
            let d = event_pressure_level_line(event);
            &&& event.pressure_level is Some ==> labels(
                d,
                "  pressure:   "@,
                Atom::Text(event.pressure_level->0@),
            )
        }),
{
    broadcast use crate::markup::group_labels;

}

/// The free pct line of an event: each label is followed by the figure that it names.
pub proof fn law_event_free_pct_line_figures(event: TimelineEvent)
    ensures
        ({
            let d = event_free_pct_line(event);
            &&& event.free_pct is Some ==> labels(
                d,
                "  free:       "@,
                Atom::Fixed { value: event.free_pct->0, decimals: 1 },
            )
        }),
{
    broadcast use crate::markup::group_labels;

}

/// The error code line of an event: each label is followed by the figure that it names.
pub proof fn law_event_error_code_line_figures(event: TimelineEvent)
    ensures
        ({
            let d = event_error_code_line(event);
            &&& event.error_code is Some ==> labels(
                d,
                "  error-code: "@,
                Atom::Text(event.error_code->0@),
            )
        }),
{
    broadcast use crate::markup::group_labels;

}

/// The error message line of an event: each label is followed by the figure that it names.
pub proof fn law_event_error_message_line_figures(event: TimelineEvent)
    ensures
        ({
            let d = event_error_message_line(event);
            &&& event.error_message is Some ==> labels(
                d,
                "  error:      "@,
                Atom::Text(event.error_message->0@),
            )
        }),
{
    broadcast use crate::markup::group_labels;

}

/// The duration ms line of an event: each label is followed by the figure that it names.
pub proof fn law_event_duration_ms_line_figures(event: TimelineEvent)
    ensures
        ({
            let d = event_duration_ms_line(event);
            &&& event.duration_ms is Some ==> labels(
                d,
                "  duration:   "@,
                Atom::Text(dec(event.duration_ms->0 as nat)),
            )
        }),
{
    broadcast use crate::markup::group_labels;

}

/// The details line of an event: each label is followed by the figure that it names.
pub proof fn law_event_details_line_figures(event: TimelineEvent)
    ensures
        ({
            let d = event_details_line(event);
            &&& event.details is Some ==> labels(
                d,
                "  details:    "@,
                Atom::Text(event.details->0@),
            )
        }),
{
    broadcast use crate::markup::group_labels;

}

/// The fields of an event, one per line; fields that are absent are left out: each
/// label is followed by the figure that it names.
pub proof fn law_event_detail_figures(event: TimelineEvent)
    ensures
        ({
            let d = event_detail(event);
            &&& labels(d, "  timestamp:  "@, Atom::Text(event.timestamp@))
            &&& labels(d, "  event-type: "@, Atom::Text(event.event_type@))
            &&& labels(d, "  severity:   "@, Atom::Badge(severity_word_of(event.severity@)))
        }),
{
    broadcast use crate::markup::group_labels;

}

/// The fields of an event, one per line; fields that are absent are left out: its parts
/// stand in it.
pub proof fn law_event_detail_parts(event: TimelineEvent)
    ensures
        ({
            let d = event_detail(event);
            &&& reads(d, event_path_line(event))
            &&& reads(d, event_size_bytes_line(event))
            &&& reads(d, event_score_line(event))
            &&& reads(d, event_pressure_level_line(event))
            &&& reads(d, event_free_pct_line(event))
            &&& reads(d, event_success_line(event))
            &&& reads(d, event_error_code_line(event))
            &&& reads(d, event_error_message_line(event))
            &&& reads(d, event_duration_ms_line(event))
            &&& reads(d, event_details_line(event))
        }),
{
    broadcast use crate::markup::group_reads;

}

/// Rows of the timeline list: one row follows another, and each shows its own item.
pub proof fn law_timeline_rows_row_by_row(
    events: Seq<TimelineEvent>,
    selected: int,
    from: int,
    mid: int,
    to: int,
)
    requires
        from <= mid <= to,
    ensures
        timeline_rows_of(events, selected, from, to)
            == timeline_rows_of(events, selected, from, mid) + timeline_rows_of(events, selected, mid, to),
        timeline_rows_of(events, selected, mid, mid + 1)
            == event_row(cursor_mark_of(mid == selected), events[mid]),
    decreases to - mid,
{
    assert(timeline_rows_of(events, selected, mid, mid) =~= seq![]);
    assert(timeline_rows_of(events, selected, mid, mid + 1)
        =~= event_row(cursor_mark_of(mid == selected), events[mid]));
    if mid < to {
        law_timeline_rows_row_by_row(events, selected, from, mid, to - 1);
        assert(timeline_rows_of(events, selected, from, to)
            =~= timeline_rows_of(events, selected, from, mid) + timeline_rows_of(events, selected, mid, to));
    } else {
        assert(timeline_rows_of(events, selected, from, to)
            =~= timeline_rows_of(events, selected, from, mid) + timeline_rows_of(events, selected, mid, to));
    }
}

/// Filter, data source and counts: each label is followed by the figure that it names.
pub proof fn law_timeline_head_figures(model: DashboardModel)
    ensures
        ({
            let d = timeline_head_of(model);
            &&& labels(d, "filter="@, Atom::Text(filter_label(model.timeline_filter)))
            &&& labels(d, "data-source="@, Atom::Text(source_label(model.timeline_source)))
            &&& (model.timeline_diagnostics@.len() > 0) ==> labels(
                d,
                "  diag: "@,
                Atom::Text(model.timeline_diagnostics@),
            )
            &&& labels(d, "events="@, Atom::Text(dec(model.shown_events().len() as nat)))
            &&& labels(d, "/"@, Atom::Text(dec(model.timeline_events@.len() as nat)))
        }),
{
    broadcast use crate::markup::group_labels;

}

/// Filter, data source and counts: its figures stand in the order of their columns.
pub proof fn law_timeline_head_order(model: DashboardModel)
    ensures
        ({
            let d = timeline_head_of(model);
            &&& before(
                d,
                Atom::Text(source_label(model.timeline_source)),
                Atom::Badge(health_word_of(model.timeline_source, model.timeline_partial)),
            )
            &&& (model.timeline_diagnostics@.len() > 0) ==> before(
                d,
                Atom::Badge(health_word_of(model.timeline_source, model.timeline_partial)),
                Atom::Text(model.timeline_diagnostics@),
            )
            &&& (!(model.timeline_diagnostics@.len() > 0)) ==> before(
                d,
                Atom::Badge(health_word_of(model.timeline_source, model.timeline_partial)),
                Atom::Text(dec(model.shown_events().len() as nat)),
            )
        }),
{
    let d = timeline_head_of(model);
    if (model.timeline_diagnostics@.len() > 0) && model.timeline_follow {
        assert(before_at(
            d,
            5,
            7,
            Atom::Text(source_label(model.timeline_source)),
            Atom::Badge(health_word_of(model.timeline_source, model.timeline_partial)),
        ));
        assert(before_at(
            d,
            7,
            10,
            Atom::Badge(health_word_of(model.timeline_source, model.timeline_partial)),
            Atom::Text(model.timeline_diagnostics@),
        ));
    }
    if (model.timeline_diagnostics@.len() > 0) && !(model.timeline_follow) {
        assert(before_at(
            d,
            4,
            6,
            Atom::Text(source_label(model.timeline_source)),
            Atom::Badge(health_word_of(model.timeline_source, model.timeline_partial)),
        ));
        assert(before_at(
            d,
            6,
            9,
            Atom::Badge(health_word_of(model.timeline_source, model.timeline_partial)),
            Atom::Text(model.timeline_diagnostics@),
        ));
    }
    if (!(model.timeline_diagnostics@.len() > 0)) && model.timeline_follow {
        assert(before_at(
            d,
            5,
            7,
            Atom::Text(source_label(model.timeline_source)),
            Atom::Badge(health_word_of(model.timeline_source, model.timeline_partial)),
        ));
        assert(before_at(
            d,
            7,
            10,
            Atom::Badge(health_word_of(model.timeline_source, model.timeline_partial)),
            Atom::Text(dec(model.shown_events().len() as nat)),
        ));
    }
    if (!(model.timeline_diagnostics@.len() > 0)) && !(model.timeline_follow) {
        assert(before_at(
            d,
            4,
            6,
            Atom::Text(source_label(model.timeline_source)),
            Atom::Badge(health_word_of(model.timeline_source, model.timeline_partial)),
        ));
        assert(before_at(
            d,
            6,
            9,
            Atom::Badge(health_word_of(model.timeline_source, model.timeline_partial)),
            Atom::Text(dec(model.shown_events().len() as nat)),
        ));
    }
}

/// The shown events around the cursor, or why there are none: each label is followed by
/// the figure that it names.
pub proof fn law_timeline_list_figures(model: DashboardModel)
    ensures
        ({
            let d = timeline_list_of(model);
            &&& (model.shown_events().len() == 0) && (!(model.timeline_events@.len() == 0)) ==> labels(
                d,
                "No events match the current filter ("@,
                Atom::Text(filter_label(model.timeline_filter)),
            )
        }),
{
    broadcast use crate::markup::group_labels;

}

/// The shown events around the cursor, or why there are none: its parts stand in it.
pub proof fn law_timeline_list_parts(model: DashboardModel)
    ensures
        ({
            let d = timeline_list_of(model);
            &&& (!(model.shown_events().len() == 0)) ==> reads(
                d,
                timeline_rows_of(
                    model.shown_events(),
                    model.timeline_selected as int,
                    window_start(
                        model.timeline_selected as int,
                        model.shown_events().len() as int,
                        (timeline_list_rows(model.terminal_size)),
                    ),
                    window_end(
                        model.timeline_selected as int,
                        model.shown_events().len() as int,
                        (timeline_list_rows(model.terminal_size)),
                    ),
                ),
            )
        }),
{
    broadcast use crate::markup::group_reads;

}

/// The selected event, where the terminal has room for it: its parts stand in it.
pub proof fn law_timeline_detail_parts(model: DashboardModel)
    ensures
        ({
            let d = timeline_detail_of(model);
            &&& (timeline_has_detail(model.terminal_size) && model.timeline_selected < model.shown_events().len()) ==> reads(
                d,
                event_detail(model.shown_events()[model.timeline_selected as int]),
            )
        }),
{
    broadcast use crate::markup::group_reads;

}

/// What the timeline screen shows besides its hint line: its parts stand in it.
pub proof fn law_timeline_body_parts(model: DashboardModel)
    ensures
        ({
            let d = timeline_body(model);
            &&& reads(d, timeline_head_of(model))
            &&& reads(d, timeline_list_of(model))
            &&& reads(d, timeline_detail_of(model))
        }),
{
    broadcast use crate::markup::group_reads;

}

/// The hint line of the timeline screen: its parts stand in it.
pub proof fn law_timeline_hint_parts(model: DashboardModel)
    ensures
        ({
            let d = timeline_hint(model);
            &&& reads(
                d,
                nav_hint_of(
                    model.hint_verbosity,
                    "j/k or \u{2191}/\u{2193} navigate  f filter  F follow  r refresh  ? help  : palette"@,
                    "j/k navigate  f filter  F follow  r refresh"@,
                ),
            )
        }),
{
    broadcast use crate::markup::group_reads;

}

/// The timeline screen: filter, data source, the shown events around the cursor, and in
/// a wide terminal the selected event: its parts stand in it.
pub proof fn law_timeline_page_parts(model: DashboardModel)
    ensures
        ({
            let d = timeline_page(model);
            &&& reads(d, timeline_body(model))
            &&& reads(d, timeline_hint(model))
        }),
{
    broadcast use crate::markup::group_reads;

}

/// Rows of the log list: one row follows another, and each shows its own item.
pub proof fn law_log_rows_row_by_row(
    events: Seq<TimelineEvent>,
    selected: int,
    from: int,
    mid: int,
    to: int,
)
    requires
        from <= mid <= to,
    ensures
        log_rows_of(events, selected, from, to)
            == log_rows_of(events, selected, from, mid) + log_rows_of(events, selected, mid, to),
        log_rows_of(events, selected, mid, mid + 1)
            == event_row(cursor_mark_of(mid == selected), events[mid]),
    decreases to - mid,
{
    assert(log_rows_of(events, selected, mid, mid) =~= seq![]);
    assert(log_rows_of(events, selected, mid, mid + 1)
        =~= event_row(cursor_mark_of(mid == selected), events[mid]));
    if mid < to {
        law_log_rows_row_by_row(events, selected, from, mid, to - 1);
        assert(log_rows_of(events, selected, from, to)
            =~= log_rows_of(events, selected, from, mid) + log_rows_of(events, selected, mid, to));
    } else {
        assert(log_rows_of(events, selected, from, to)
            =~= log_rows_of(events, selected, from, mid) + log_rows_of(events, selected, mid, to));
    }
}

/// The log entries around the cursor: its parts stand in it.
pub proof fn law_log_list_parts(model: DashboardModel)
    ensures
        ({
            let d = log_list_of(model);
            &&& (!(model.timeline_events@.len() == 0)) ==> reads(
                d,
                log_rows_of(
                    model.timeline_events@,
                    log_cursor_of(model),
                    window_start(
                        log_cursor_of(model),
                        model.timeline_events@.len() as int,
                        (log_list_rows(model.terminal_size)),
                    ),
                    window_end(
                        log_cursor_of(model),
                        model.timeline_events@.len() as int,
                        (log_list_rows(model.terminal_size)),
                    ),
                ),
            )
        }),
{
    broadcast use crate::markup::group_reads;

}

/// The selected log entry, where the terminal has room for it: its parts stand in it.
pub proof fn law_log_detail_parts(model: DashboardModel)
    ensures
        ({
            let d = log_detail_of(model);
            &&& (log_has_detail(model.terminal_size) && model.timeline_events@.len() > 0) ==> reads(
                d,
                event_detail(model.timeline_events@[log_cursor_of(model)]),
            )
        }),
{
    broadcast use crate::markup::group_reads;

}

/// What the log screen shows besides its hint line: each label is followed by the
/// figure that it names.
pub proof fn law_log_body_figures(model: DashboardModel)
    ensures
        ({
            let d = log_body(model);
            &&& labels(
                d,
                "query=<preview> source="@,
                Atom::Text(source_label(model.timeline_source)),
            )
            &&& labels(d, " entries="@, Atom::Text(dec(model.timeline_events@.len() as nat)))
            &&& (model.timeline_diagnostics@.len() > 0) ==> labels(
                d,
                "  diag: "@,
                Atom::Text(model.timeline_diagnostics@),
            )
        }),
{
    broadcast use crate::markup::group_labels;

}

/// What the log screen shows besides its hint line: its parts stand in it.
pub proof fn law_log_body_parts(model: DashboardModel)
    ensures
        ({
            let d = log_body(model);
            &&& reads(d, log_list_of(model))
            &&& reads(d, log_detail_of(model))
        }),
{
    broadcast use crate::markup::group_reads;

}

/// The hint line of the log screen: its parts stand in it.
pub proof fn law_log_hint_parts(model: DashboardModel)
    ensures
        ({
            let d = log_hint(model);
            &&& reads(
                d,
                nav_hint_of(
                    model.hint_verbosity,
                    "j/k or wheel navigate  click row focus  r refresh  ? help  : palette"@,
                    "j/k or wheel navigate  click row focus  r refresh"@,
                ),
            )
        }),
{
    broadcast use crate::markup::group_reads;

}

/// The log screen: the timeline entries around the cursor, and in a wide terminal the
/// selected entry: its parts stand in it.
pub proof fn law_log_page_parts(model: DashboardModel)
    ensures
        ({
            let d = log_page(model);
            &&& reads(d, log_body(model))
            &&& reads(d, log_hint(model))
        }),
{
    broadcast use crate::markup::group_reads;

}

/// Filter bar of the timeline screen: each label is followed by the figure that it names.
pub proof fn law_timeline_filter_bar_figures(model: DashboardModel)
    ensures
        ({
            let d = timeline_filter_bar(model);
            &&& labels(d, "severity "@, Atom::Badge((filter_label(model.timeline_filter))))
            &&& labels(d, "source "@, Atom::Badge(source_label(model.timeline_source)))
        }),
{
    broadcast use crate::markup::group_labels;

}

/// Filter bar of the timeline screen: its figures stand in the order of their columns.
pub proof fn law_timeline_filter_bar_order(model: DashboardModel)
    ensures
        ({
            let d = timeline_filter_bar(model);
            &&& model.timeline_follow ==> before(
                d,
                Atom::Badge((filter_label(model.timeline_filter))),
                Atom::Badge("ON"@),
            )
            &&& model.timeline_follow ==> before(
                d,
                Atom::Badge("ON"@),
                Atom::Badge(source_label(model.timeline_source)),
            )
            &&& model.timeline_partial ==> before(
                d,
                Atom::Badge(source_label(model.timeline_source)),
                Atom::Badge("PARTIAL"@),
            )
            &&& !(model.timeline_follow) ==> before(
                d,
                Atom::Badge((filter_label(model.timeline_filter))),
                Atom::Badge("OFF"@),
            )
            &&& !(model.timeline_follow) ==> before(
                d,
                Atom::Badge("OFF"@),
                Atom::Badge(source_label(model.timeline_source)),
            )
        }),
{
    let d = timeline_filter_bar(model);
    if model.timeline_partial && model.timeline_follow {
        assert(before_at(
            d,
            1,
            4,
            Atom::Badge((filter_label(model.timeline_filter))),
            Atom::Badge("ON"@),
        ));
        assert(before_at(
            d,
            4,
            7,
            Atom::Badge("ON"@),
            Atom::Badge(source_label(model.timeline_source)),
        ));
        assert(before_at(
            d,
            7,
            9,
            Atom::Badge(source_label(model.timeline_source)),
            Atom::Badge("PARTIAL"@),
        ));
    }
    if model.timeline_partial && !(model.timeline_follow) {
        assert(before_at(
            d,
            1,
            4,
            Atom::Badge((filter_label(model.timeline_filter))),
            Atom::Badge("OFF"@),
        ));
        assert(before_at(
            d,
            4,
            7,
            Atom::Badge("OFF"@),
            Atom::Badge(source_label(model.timeline_source)),
        ));
        assert(before_at(
            d,
            7,
            9,
            Atom::Badge(source_label(model.timeline_source)),
            Atom::Badge("PARTIAL"@),
        ));
    }
    if !(model.timeline_partial) && model.timeline_follow {
        assert(before_at(
            d,
            1,
            4,
            Atom::Badge((filter_label(model.timeline_filter))),
            Atom::Badge("ON"@),
        ));
        assert(before_at(
            d,
            4,
            7,
            Atom::Badge("ON"@),
            Atom::Badge(source_label(model.timeline_source)),
        ));
    }
    if !(model.timeline_partial) && !(model.timeline_follow) {
        assert(before_at(
            d,
            1,
            4,
            Atom::Badge((filter_label(model.timeline_filter))),
            Atom::Badge("OFF"@),
        ));
        assert(before_at(
            d,
            4,
            7,
            Atom::Badge("OFF"@),
            Atom::Badge(source_label(model.timeline_source)),
        ));
    }
}

/// One styled line of the event list; the log screen leaves out the size: its figures
/// stand in the order of their columns.
pub proof fn law_styled_event_row_order(
    event: TimelineEvent,
    selected: bool,
    accent: u8,
    with_size: bool,
)
    ensures
        ({
            let d = styled_event_row_of(event, selected, accent, with_size);
            &&& before(
                d,
                Atom::Clock(event.timestamp@),
                Atom::Text(spaced_of(uppered(event.severity@))),
            )
            &&& before(
                d,
                Atom::Text(spaced_of(uppered(event.severity@))),
                Atom::Text(spaced_of(padded_right(event.event_type@, 18))),
            )
            &&& event.path is Some ==> before(
                d,
                Atom::Text(spaced_of(padded_right(event.event_type@, 18))),
                Atom::Text(shortened(event.path->0@, 24 as nat)),
            )
            &&& (with_size && event.size_bytes is Some) && event.path is Some ==> before(
                d,
                Atom::Text(shortened(event.path->0@, 24 as nat)),
                Atom::Bytes(event.size_bytes->0),
            )
            &&& (with_size && event.size_bytes is Some) && event.path is None ==> before(
                d,
                Atom::Text(spaced_of(padded_right(event.event_type@, 18))),
                Atom::Bytes(event.size_bytes->0),
            )
        }),
{
    let d = styled_event_row_of(event, selected, accent, with_size);
    if (with_size && event.size_bytes is Some) && event.path is Some {
        assert(before_at(
            d,
            1,
            3,
            Atom::Clock(event.timestamp@),
            Atom::Text(spaced_of(uppered(event.severity@))),
        ));
        assert(before_at(
            d,
            3,
            4,
            Atom::Text(spaced_of(uppered(event.severity@))),
            Atom::Text(spaced_of(padded_right(event.event_type@, 18))),
        ));
        assert(before_at(
            d,
            4,
            5,
            Atom::Text(spaced_of(padded_right(event.event_type@, 18))),
            Atom::Text(shortened(event.path->0@, 24 as nat)),
        ));
        assert(before_at(
            d,
            5,
            7,
            Atom::Text(shortened(event.path->0@, 24 as nat)),
            Atom::Bytes(event.size_bytes->0),
        ));
    }
    if (with_size && event.size_bytes is Some) && event.path is None {
        assert(before_at(
            d,
            1,
            3,
            Atom::Clock(event.timestamp@),
            Atom::Text(spaced_of(uppered(event.severity@))),
        ));
        assert(before_at(
            d,
            3,
            4,
            Atom::Text(spaced_of(uppered(event.severity@))),
            Atom::Text(spaced_of(padded_right(event.event_type@, 18))),
        ));
        assert(before_at(
            d,
            4,
            7,
            Atom::Text(spaced_of(padded_right(event.event_type@, 18))),
            Atom::Bytes(event.size_bytes->0),
        ));
    }
    if (!(with_size && event.size_bytes is Some)) && event.path is Some {
        assert(before_at(
            d,
            1,
            3,
            Atom::Clock(event.timestamp@),
            Atom::Text(spaced_of(uppered(event.severity@))),
        ));
        assert(before_at(
            d,
            3,
            4,
            Atom::Text(spaced_of(uppered(event.severity@))),
            Atom::Text(spaced_of(padded_right(event.event_type@, 18))),
        ));
        assert(before_at(
            d,
            4,
            5,
            Atom::Text(spaced_of(padded_right(event.event_type@, 18))),
            Atom::Text(shortened(event.path->0@, 24 as nat)),
        ));
    }
    if (!(with_size && event.size_bytes is Some)) && event.path is None {
        assert(before_at(
            d,
            1,
            3,
            Atom::Clock(event.timestamp@),
            Atom::Text(spaced_of(uppered(event.severity@))),
        ));
        assert(before_at(
            d,
            3,
            4,
            Atom::Text(spaced_of(uppered(event.severity@))),
            Atom::Text(spaced_of(padded_right(event.event_type@, 18))),
        ));
    }
}

/// Styled rows of the timeline list: one row follows another, and each shows its own item.
pub proof fn law_styled_timeline_rows_row_by_row(
    events: Seq<TimelineEvent>,
    selected: int,
    from: int,
    mid: int,
    to: int,
)
    requires
        from <= mid <= to,
    ensures
        styled_timeline_rows_of(events, selected, from, to)
            == styled_timeline_rows_of(events, selected, from, mid) + styled_timeline_rows_of(events, selected, mid, to),
        styled_timeline_rows_of(events, selected, mid, mid + 1)
            == styled_event_row_of(events[mid], mid == selected, 2, true),
    decreases to - mid,
{
    assert(styled_timeline_rows_of(events, selected, mid, mid) =~= seq![]);
    assert(styled_timeline_rows_of(events, selected, mid, mid + 1)
        =~= styled_event_row_of(events[mid], mid == selected, 2, true));
    if mid < to {
        law_styled_timeline_rows_row_by_row(events, selected, from, mid, to - 1);
        assert(styled_timeline_rows_of(events, selected, from, to)
            =~= styled_timeline_rows_of(events, selected, from, mid) + styled_timeline_rows_of(events, selected, mid, to));
    } else {
        assert(styled_timeline_rows_of(events, selected, from, to)
            =~= styled_timeline_rows_of(events, selected, from, mid) + styled_timeline_rows_of(events, selected, mid, to));
    }
}

/// Event list pane of the timeline screen: each label is followed by the figure that it names.
pub proof fn law_timeline_list_pane_figures(model: DashboardModel, rows: int)
    ensures
        ({
            let d = timeline_list_pane(model, rows);
            &&& (model.shown_events().len() as int == 0) ==> labels(
                d,
                "No events available for filter="@,
                Atom::Text(filter_label(model.timeline_filter)),
            )
            &&& (!(model.shown_events().len() as int == 0)) ==> labels(
                d,
                "events="@,
                Atom::Text(dec(model.shown_events().len() as int as nat)),
            )
            &&& (!(model.shown_events().len() as int == 0)) ==> labels(
                d,
                " of "@,
                Atom::Text(dec(model.timeline_events@.len() as nat)),
            )
            &&& (!(model.shown_events().len() as int == 0)) ==> labels(
                d,
                "(rows "@,
                Atom::Text(dec(((window_start(model.timeline_selected as int, model.shown_events().len() as int, rows)) + 1) as nat)),
            )
            &&& (!(model.shown_events().len() as int == 0)) ==> labels(
                d,
                ".."@,
                Atom::Text(dec(((window_end(model.timeline_selected as int, model.shown_events().len() as int, rows))) as nat)),
            )
        }),
{
    broadcast use crate::markup::group_labels;

}

/// Event list pane of the timeline screen: its parts stand in it.
pub proof fn law_timeline_list_pane_parts(model: DashboardModel, rows: int)
    ensures
        ({
            let d = timeline_list_pane(model, rows);
            &&& (!(model.shown_events().len() as int == 0)) ==> reads(
                d,
                styled_timeline_rows_of(
                    model.shown_events(),
                    model.timeline_selected as int,
                    (window_start(model.timeline_selected as int, model.shown_events().len() as int, rows)),
                    (window_end(model.timeline_selected as int, model.shown_events().len() as int, rows)),
                ),
            )
        }),
{
    broadcast use crate::markup::group_reads;

}

/// The styled path line of an event: each label is followed by the figure that it names.
pub proof fn law_styled_path_line_figures(event: TimelineEvent)
    ensures
        ({
            let d = styled_path_line(event);
            &&& event.path is Some ==> labels(
                d,
                "  path       "@,
                Atom::Text(dir_part(event.path->0@)),
            )
        }),
{
    broadcast use crate::markup::group_labels;

}

/// The styled path line of an event: its figures stand in the order of their columns.
pub proof fn law_styled_path_line_order(event: TimelineEvent)
    ensures
        ({
            let d = styled_path_line(event);
            &&& event.path is Some ==> before(
                d,
                Atom::Text(dir_part(event.path->0@)),
                Atom::Text(file_part(event.path->0@)),
            )
        }),
{
    let d = styled_path_line(event);
    if event.path is Some {
        assert(before_at(
            d,
            1,
            2,
            Atom::Text(dir_part(event.path->0@)),
            Atom::Text(file_part(event.path->0@)),
        ));
    }
}

/// The styled size bytes line of an event: each label is followed by the figure that it names.
pub proof fn law_styled_size_bytes_line_figures(event: TimelineEvent)
    ensures
        ({
            let d = styled_size_bytes_line(event);
            &&& event.size_bytes is Some ==> labels(
                d,
                "  size       "@,
                Atom::Bytes(event.size_bytes->0),
            )
            &&& event.size_bytes is Some ==> labels(
                d,
                " ("@,
                Atom::Text(dec(event.size_bytes->0 as nat)),
            )
        }),
{
    broadcast use crate::markup::group_labels;

}

/// The styled score line of an event: each label is followed by the figure that it names.
pub proof fn law_styled_score_line_figures(event: TimelineEvent)
    ensures
        ({
            let d = styled_score_line(event);
            &&& event.score is Some ==> labels(
                d,
                "  score      "@,
                Atom::Fixed { value: event.score->0, decimals: 4 },
            )
        }),
{
    broadcast use crate::markup::group_labels;

}

/// The styled pressure level line of an event: each label is followed by the figure that it names.
pub proof fn law_styled_pressure_level_line_figures(event: TimelineEvent)
    ensures
        ({
            let d = styled_pressure_level_line(event);
            &&& event.pressure_level is Some ==> labels(
                d,
                "  pressure   "@,
                Atom::Badge(uppered(event.pressure_level->0@)),
            )
        }),
{
    broadcast use crate::markup::group_labels;

}

/// The styled free pct line of an event: each label is followed by the figure that it names.
pub proof fn law_styled_free_pct_line_figures(event: TimelineEvent)
    ensures
        ({
            let d = styled_free_pct_line(event);
            &&& event.free_pct is Some ==> labels(
                d,
                "  free       "@,
                Atom::Fixed { value: event.free_pct->0, decimals: 1 },
            )
        }),
{
    broadcast use crate::markup::group_labels;

}

/// The styled error code line of an event: each label is followed by the figure that it names.
pub proof fn law_styled_error_code_line_figures(event: TimelineEvent)
    ensures
        ({
            let d = styled_error_code_line(event);
            &&& event.error_code is Some ==> labels(
                d,
                "  error-code "@,
                Atom::Text(event.error_code->0@),
            )
        }),
{
    broadcast use crate::markup::group_labels;

}

/// The styled error message line of an event: each label is followed by the figure that it names.
pub proof fn law_styled_error_message_line_figures(event: TimelineEvent)
    ensures
        ({
            let d = styled_error_message_line(event);
            &&& event.error_message is Some ==> labels(
                d,
                "  error      "@,
                Atom::Text(event.error_message->0@),
            )
        }),
{
    broadcast use crate::markup::group_labels;

}

/// The styled duration ms line of an event: each label is followed by the figure that it names.
pub proof fn law_styled_duration_ms_line_figures(event: TimelineEvent)
    ensures
        ({
            let d = styled_duration_ms_line(event);
            &&& event.duration_ms is Some ==> labels(
                d,
                "  duration   "@,
                Atom::Text(dec(event.duration_ms->0 as nat)),
            )
        }),
{
    broadcast use crate::markup::group_labels;

}

/// The styled details line of an event: each label is followed by the figure that it names.
pub proof fn law_styled_details_line_figures(event: TimelineEvent)
    ensures
        ({
            let d = styled_details_line(event);
            &&& event.details is Some ==> labels(d, "  details    "@, Atom::Text(event.details->0@))
        }),
{
    broadcast use crate::markup::group_labels;

}

/// Styled fields of an event; fields that are absent are left out: each label is
/// followed by the figure that it names.
pub proof fn law_styled_event_detail_figures(event: TimelineEvent)
    ensures
        ({
            let d = styled_event_detail_of(event);
            &&& labels(d, "  timestamp  "@, Atom::Text(event.timestamp@))
            &&& labels(d, "  event      "@, Atom::Text(event.event_type@))
            &&& labels(d, "  severity   "@, Atom::Badge(uppered(event.severity@)))
        }),
{
    broadcast use crate::markup::group_labels;

}

/// Styled fields of an event; fields that are absent are left out: its parts stand in it.
pub proof fn law_styled_event_detail_parts(event: TimelineEvent)
    ensures
        ({
            let d = styled_event_detail_of(event);
            &&& reads(d, styled_path_line(event))
            &&& reads(d, styled_size_bytes_line(event))
            &&& reads(d, styled_score_line(event))
            &&& reads(d, styled_pressure_level_line(event))
            &&& reads(d, styled_free_pct_line(event))
            &&& reads(d, styled_success_line(event))
            &&& reads(d, styled_error_code_line(event))
            &&& reads(d, styled_error_message_line(event))
            &&& reads(d, styled_duration_ms_line(event))
            &&& reads(d, styled_details_line(event))
        }),
{
    broadcast use crate::markup::group_reads;

}

/// Detail pane of the timeline screen: its parts stand in it.
pub proof fn law_timeline_detail_pane_parts(model: DashboardModel)
    ensures
        ({
            let d = timeline_detail_pane(model);
            &&& (model.timeline_selected < model.shown_events().len()) ==> reads(
                d,
                styled_event_detail_of(model.shown_events()[model.timeline_selected as int]),
            )
        }),
{
    broadcast use crate::markup::group_reads;

}

/// Search bar of the log screen: each label is followed by the figure that it names.
pub proof fn law_log_header_pane_figures(model: DashboardModel)
    ensures
        ({
            let d = log_header_pane(model);
            &&& labels(d, "source "@, Atom::Badge(source_label(model.timeline_source)))
            &&& labels(d, "events="@, Atom::Text(dec(model.timeline_events@.len() as nat)))
        }),
{
    broadcast use crate::markup::group_labels;

}

/// Styled rows of the log list: one row follows another, and each shows its own item.
pub proof fn law_styled_log_rows_row_by_row(
    events: Seq<TimelineEvent>,
    selected: int,
    from: int,
    mid: int,
    to: int,
)
    requires
        from <= mid <= to,
    ensures
        styled_log_rows_of(events, selected, from, to)
            == styled_log_rows_of(events, selected, from, mid) + styled_log_rows_of(events, selected, mid, to),
        styled_log_rows_of(events, selected, mid, mid + 1)
            == styled_event_row_of(events[mid], mid == selected, 6, false),
    decreases to - mid,
{
    assert(styled_log_rows_of(events, selected, mid, mid) =~= seq![]);
    assert(styled_log_rows_of(events, selected, mid, mid + 1)
        =~= styled_event_row_of(events[mid], mid == selected, 6, false));
    if mid < to {
        law_styled_log_rows_row_by_row(events, selected, from, mid, to - 1);
        assert(styled_log_rows_of(events, selected, from, to)
            =~= styled_log_rows_of(events, selected, from, mid) + styled_log_rows_of(events, selected, mid, to));
    } else {
        assert(styled_log_rows_of(events, selected, from, to)
            =~= styled_log_rows_of(events, selected, from, mid) + styled_log_rows_of(events, selected, mid, to));
    }
}

/// Entry list pane of the log screen: its parts stand in it.
pub proof fn law_log_list_pane_parts(model: DashboardModel, rows: int)
    ensures
        ({
            let d = log_list_pane(model, rows);
            &&& (!(model.timeline_events@.len() == 0)) ==> reads(
                d,
                styled_log_rows_of(
                    model.timeline_events@,
                    (log_cursor_of(model)),
                    window_start((log_cursor_of(model)), model.timeline_events@.len() as int, rows),
                    window_end((log_cursor_of(model)), model.timeline_events@.len() as int, rows),
                ),
            )
        }),
{
    broadcast use crate::markup::group_reads;

}

/// Detail pane of the log screen: its parts stand in it.
pub proof fn law_log_detail_pane_parts(model: DashboardModel)
    ensures
        ({
            let d = log_detail_pane(model);
            &&& (!(model.timeline_events@.len() == 0)) ==> reads(
                d,
                styled_event_detail_of(model.timeline_events@[log_cursor_of(model)]),
            )
        }),
{
    broadcast use crate::markup::group_reads;

}

/// The path line of an event: each case shows what belongs to it and no more.
pub proof fn law_event_path_line_shows_no_more(event: TimelineEvent)
    ensures
        ({
            let d = event_path_line(event);
            &&& event.path is Some ==> d.len() == 3
            &&& event.path is None ==> d.len() == 0
        }),
{
}

/// The size bytes line of an event: each case shows what belongs to it and no more.
pub proof fn law_event_size_bytes_line_shows_no_more(event: TimelineEvent)
    ensures
        ({
            let d = event_size_bytes_line(event);
            &&& event.size_bytes is Some ==> d.len() == 6
            &&& event.size_bytes is None ==> d.len() == 0
        }),
{
}

/// The score line of an event: each case shows what belongs to it and no more.
pub proof fn law_event_score_line_shows_no_more(event: TimelineEvent)
    ensures
        ({
            let d = event_score_line(event);
            &&& event.score is Some ==> d.len() == 3
            &&& event.score is None ==> d.len() == 0
        }),
{
}

/// The pressure level line of an event: each case shows what belongs to it and no more.
pub proof fn law_event_pressure_level_line_shows_no_more(event: TimelineEvent)
    ensures
        ({
            let d = event_pressure_level_line(event);
            &&& event.pressure_level is Some ==> d.len() == 3
            &&& event.pressure_level is None ==> d.len() == 0
        }),
{
}

/// The free pct line of an event: each case shows what belongs to it and no more.
pub proof fn law_event_free_pct_line_shows_no_more(event: TimelineEvent)
    ensures
        ({
            let d = event_free_pct_line(event);
            &&& event.free_pct is Some ==> d.len() == 4
            &&& event.free_pct is None ==> d.len() == 0
        }),
{
}

/// The success line of an event: each case shows what belongs to it and no more.
pub proof fn law_event_success_line_shows_no_more(event: TimelineEvent)
    ensures
        ({
            let d = event_success_line(event);
            &&& event.success is Some && (event.success->0) ==> d.len() == 3
            &&& event.success is Some && (!(event.success->0)) ==> d.len() == 3
            &&& event.success is None ==> d.len() == 0
        }),
{
}

/// The error code line of an event: each case shows what belongs to it and no more.
pub proof fn law_event_error_code_line_shows_no_more(event: TimelineEvent)
    ensures
        ({
            let d = event_error_code_line(event);
            &&& event.error_code is Some ==> d.len() == 3
            &&& event.error_code is None ==> d.len() == 0
        }),
{
}

/// The error message line of an event: each case shows what belongs to it and no more.
pub proof fn law_event_error_message_line_shows_no_more(event: TimelineEvent)
    ensures
        ({
            let d = event_error_message_line(event);
            &&& event.error_message is Some ==> d.len() == 3
            &&& event.error_message is None ==> d.len() == 0
        }),
{
}

/// The duration ms line of an event: each case shows what belongs to it and no more.
pub proof fn law_event_duration_ms_line_shows_no_more(event: TimelineEvent)
    ensures
        ({
            let d = event_duration_ms_line(event);
            &&& event.duration_ms is Some ==> d.len() == 4
            &&& event.duration_ms is None ==> d.len() == 0
        }),
{
}

/// The details line of an event: each case shows what belongs to it and no more.
pub proof fn law_event_details_line_shows_no_more(event: TimelineEvent)
    ensures
        ({
            let d = event_details_line(event);
            &&& event.details is Some ==> d.len() == 3
            &&& event.details is None ==> d.len() == 0
        }),
{
}

/// Filter, data source and counts: each case shows what belongs to it and no more.
pub proof fn law_timeline_head_shows_no_more(model: DashboardModel)
    ensures
        ({
            let d = timeline_head_of(model);
            &&& (model.timeline_diagnostics@.len() > 0) && model.timeline_follow ==> d.len() == 18
            &&& (model.timeline_diagnostics@.len() > 0) && !(model.timeline_follow) ==> d.len()
                == 17
            &&& (!(model.timeline_diagnostics@.len() > 0)) && model.timeline_follow ==> d.len()
                == 15
            &&& (!(model.timeline_diagnostics@.len() > 0)) && !(model.timeline_follow) ==> d.len()
                == 14
        }),
{
}

/// The shown events around the cursor, or why there are none: each case shows what
/// belongs to it and no more.
pub proof fn law_timeline_list_shows_no_more(model: DashboardModel)
    ensures
        ({
            let d = timeline_list_of(model);
            &&& (model.shown_events().len()
                == 0) && (model.timeline_events@.len() == 0) ==> d.len() == 4
            &&& (model.shown_events().len()
                == 0) && (!(model.timeline_events@.len() == 0)) ==> d.len() == 6
            &&& (!(model.shown_events().len()
                == 0)) ==> d.len() == timeline_rows_of(model.shown_events(), model.timeline_selected as int, window_start(model.timeline_selected as int, model.shown_events().len() as int, (timeline_list_rows(model.terminal_size))), window_end(model.timeline_selected as int, model.shown_events().len() as int, (timeline_list_rows(model.terminal_size)))).len()
        }),
{
}

/// The selected event, where the terminal has room for it: each case shows what belongs
/// to it and no more.
pub proof fn law_timeline_detail_shows_no_more(model: DashboardModel)
    ensures
        ({
            let d = timeline_detail_of(model);
            &&& (timeline_has_detail(model.terminal_size) && model.timeline_selected < model.shown_events().len()) ==> d.len()
                == 3 + event_detail(model.shown_events()[model.timeline_selected as int]).len()
            &&& (!(timeline_has_detail(model.terminal_size) && model.timeline_selected < model.shown_events().len())) ==> d.len()
                == 0
        }),
{
}

/// The log entries around the cursor: each case shows what belongs to it and no more.
pub proof fn law_log_list_shows_no_more(model: DashboardModel)
    ensures
        ({
            let d = log_list_of(model);
            &&& (model.timeline_events@.len() == 0) ==> d.len() == 2
            &&& (!(model.timeline_events@.len()
                == 0)) ==> d.len() == log_rows_of(model.timeline_events@, log_cursor_of(model), window_start(log_cursor_of(model), model.timeline_events@.len() as int, (log_list_rows(model.terminal_size))), window_end(log_cursor_of(model), model.timeline_events@.len() as int, (log_list_rows(model.terminal_size)))).len()
        }),
{
}

/// The selected log entry, where the terminal has room for it: each case shows what
/// belongs to it and no more.
pub proof fn law_log_detail_shows_no_more(model: DashboardModel)
    ensures
        ({
            let d = log_detail_of(model);
            &&& (log_has_detail(model.terminal_size) && model.timeline_events@.len() > 0) ==> d.len()
                == 3 + event_detail(model.timeline_events@[log_cursor_of(model)]).len()
            &&& (!(log_has_detail(model.terminal_size) && model.timeline_events@.len() > 0)) ==> d.len()
                == 0
        }),
{
}

/// What the log screen shows besides its hint line: each case shows what belongs to it and no more.
pub proof fn law_log_body_shows_no_more(model: DashboardModel)
    ensures
        ({
            let d = log_body(model);
            &&& (model.timeline_diagnostics@.len() > 0) ==> d.len()
                == 10 + log_list_of(model).len() + log_detail_of(model).len()
            &&& (!(model.timeline_diagnostics@.len() > 0)) ==> d.len()
                == 7 + log_list_of(model).len() + log_detail_of(model).len()
        }),
{
}

/// Filter bar of the timeline screen: each case shows what belongs to it and no more.
pub proof fn law_timeline_filter_bar_shows_no_more(model: DashboardModel)
    ensures
        ({
            let d = timeline_filter_bar(model);
            &&& model.timeline_partial && model.timeline_follow ==> d.len() == 11
            &&& model.timeline_partial && !(model.timeline_follow) ==> d.len() == 11
            &&& !(model.timeline_partial) && model.timeline_follow ==> d.len() == 9
            &&& !(model.timeline_partial) && !(model.timeline_follow) ==> d.len() == 9
        }),
{
}

/// One styled line of the event list; the log screen leaves out the size: each case
/// shows what belongs to it and no more.
pub proof fn law_styled_event_row_shows_no_more(
    event: TimelineEvent,
    selected: bool,
    accent: u8,
    with_size: bool,
)
    ensures
        ({
            let d = styled_event_row_of(event, selected, accent, with_size);
            &&& (with_size && event.size_bytes is Some) && event.path is Some ==> d.len() == 9
            &&& (with_size && event.size_bytes is Some) && event.path is None ==> d.len() == 9
            &&& (!(with_size && event.size_bytes is Some)) && event.path is Some ==> d.len() == 7
            &&& (!(with_size && event.size_bytes is Some)) && event.path is None ==> d.len() == 7
        }),
{
}

/// Event list pane of the timeline screen: each case shows what belongs to it and no more.
pub proof fn law_timeline_list_pane_shows_no_more(model: DashboardModel, rows: int)
    ensures
        ({
            let d = timeline_list_pane(model, rows);
            &&& (model.shown_events().len() as int == 0) ==> d.len() == 4
            &&& (!(model.shown_events().len() as int
                == 0)) ==> d.len() == 11 + styled_timeline_rows_of(model.shown_events(), model.timeline_selected as int, (window_start(model.timeline_selected as int, model.shown_events().len() as int, rows)), (window_end(model.timeline_selected as int, model.shown_events().len() as int, rows))).len()
        }),
{
}

/// The styled path line of an event: each case shows what belongs to it and no more.
pub proof fn law_styled_path_line_shows_no_more(event: TimelineEvent)
    ensures
        ({
            let d = styled_path_line(event);
            &&& event.path is Some ==> d.len() == 4
            &&& event.path is None ==> d.len() == 0
        }),
{
}

/// The styled size bytes line of an event: each case shows what belongs to it and no more.
pub proof fn law_styled_size_bytes_line_shows_no_more(event: TimelineEvent)
    ensures
        ({
            let d = styled_size_bytes_line(event);
            &&& event.size_bytes is Some ==> d.len() == 6
            &&& event.size_bytes is None ==> d.len() == 0
        }),
{
}

/// The styled score line of an event: each case shows what belongs to it and no more.
pub proof fn law_styled_score_line_shows_no_more(event: TimelineEvent)
    ensures
        ({
            let d = styled_score_line(event);
            &&& event.score is Some ==> d.len() == 3
            &&& event.score is None ==> d.len() == 0
        }),
{
}

/// The styled pressure level line of an event: each case shows what belongs to it and no more.
pub proof fn law_styled_pressure_level_line_shows_no_more(event: TimelineEvent)
    ensures
        ({
            let d = styled_pressure_level_line(event);
            &&& event.pressure_level is Some ==> d.len() == 3
            &&& event.pressure_level is None ==> d.len() == 0
        }),
{
}

/// The styled free pct line of an event: each case shows what belongs to it and no more.
pub proof fn law_styled_free_pct_line_shows_no_more(event: TimelineEvent)
    ensures
        ({
            let d = styled_free_pct_line(event);
            &&& event.free_pct is Some ==> d.len() == 4
            &&& event.free_pct is None ==> d.len() == 0
        }),
{
}

/// The styled success line of an event: each case shows what belongs to it and no more.
pub proof fn law_styled_success_line_shows_no_more(event: TimelineEvent)
    ensures
        ({
            let d = styled_success_line(event);
            &&& event.success is Some && (event.success->0) ==> d.len() == 3
            &&& event.success is Some && (!(event.success->0)) ==> d.len() == 3
            &&& event.success is None ==> d.len() == 0
        }),
{
}

/// The styled error code line of an event: each case shows what belongs to it and no more.
pub proof fn law_styled_error_code_line_shows_no_more(event: TimelineEvent)
    ensures
        ({
            let d = styled_error_code_line(event);
            &&& event.error_code is Some ==> d.len() == 3
            &&& event.error_code is None ==> d.len() == 0
        }),
{
}

/// The styled error message line of an event: each case shows what belongs to it and no more.
pub proof fn law_styled_error_message_line_shows_no_more(event: TimelineEvent)
    ensures
        ({
            let d = styled_error_message_line(event);
            &&& event.error_message is Some ==> d.len() == 3
            &&& event.error_message is None ==> d.len() == 0
        }),
{
}

/// The styled duration ms line of an event: each case shows what belongs to it and no more.
pub proof fn law_styled_duration_ms_line_shows_no_more(event: TimelineEvent)
    ensures
        ({
            let d = styled_duration_ms_line(event);
            &&& event.duration_ms is Some ==> d.len() == 4
            &&& event.duration_ms is None ==> d.len() == 0
        }),
{
}

/// The styled details line of an event: each case shows what belongs to it and no more.
pub proof fn law_styled_details_line_shows_no_more(event: TimelineEvent)
    ensures
        ({
            let d = styled_details_line(event);
            &&& event.details is Some ==> d.len() == 3
            &&& event.details is None ==> d.len() == 0
        }),
{
}

/// Detail pane of the timeline screen: each case shows what belongs to it and no more.
pub proof fn law_timeline_detail_pane_shows_no_more(model: DashboardModel)
    ensures
        ({
            let d = timeline_detail_pane(model);
            &&& (model.timeline_selected < model.shown_events().len()) ==> d.len()
                == styled_event_detail_of(model.shown_events()[model.timeline_selected as int]).len()
            &&& (!(model.timeline_selected < model.shown_events().len())) ==> d.len() == 2
        }),
{
}

/// Entry list pane of the log screen: each case shows what belongs to it and no more.
pub proof fn law_log_list_pane_shows_no_more(model: DashboardModel, rows: int)
    ensures
        ({
            let d = log_list_pane(model, rows);
            &&& (model.timeline_events@.len() == 0) ==> d.len() == 2
            &&& (!(model.timeline_events@.len()
                == 0)) ==> d.len() == styled_log_rows_of(model.timeline_events@, (log_cursor_of(model)), window_start((log_cursor_of(model)), model.timeline_events@.len() as int, rows), window_end((log_cursor_of(model)), model.timeline_events@.len() as int, rows)).len()
        }),
{
}

/// Detail pane of the log screen: each case shows what belongs to it and no more.
pub proof fn law_log_detail_pane_shows_no_more(model: DashboardModel)
    ensures
        ({
            let d = log_detail_pane(model);
            &&& (model.timeline_events@.len() == 0) ==> d.len() == 2
            &&& (!(model.timeline_events@.len()
                == 0)) ==> d.len() == styled_event_detail_of(model.timeline_events@[log_cursor_of(model)]).len()
        }),
{
}

} // verus!
