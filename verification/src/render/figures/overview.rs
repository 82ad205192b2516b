//! What is shown on the overview screen: figures behind
//! their labels, columns in order, and parts in their place.

use vstd::prelude::*;

use crate::double::Double;
use crate::layout::OverviewPane;
use crate::layout::PanePlacement;
use crate::layout::overview_class;
use crate::layout::overview_density;
use crate::layout::overview_pane_id;
use crate::layout::overview_placements;
use crate::markup::Atom;
use crate::markup::Gauge;
use crate::markup::bare;
use crate::markup::before;
use crate::markup::before_at;
use crate::markup::in_lines;
use crate::markup::indented;
use crate::markup::labels;
use crate::markup::nl;
use crate::markup::reads;
use crate::markup::txt;
use crate::model::DaemonState;
use crate::model::DashboardModel;
use crate::model::MountPressure;
use crate::model::RateEntry;
use crate::render::common::class_name;
use crate::render::common::cursor_mark_of;
use crate::render::common::gauge_width;
use crate::render::common::nav_hint_of;
use crate::render::common::pane_target;
use crate::render::common::priority_label;
use crate::render::common::shortened;
use crate::render::common::source_name;
use crate::render::common::tier_name;
use crate::render::decisions::vetoed_of;
use crate::render::overview::ALERT_RATE;
use crate::render::overview::ZERO;
use crate::render::overview::action_lane;
use crate::render::overview::ballast_quick;
use crate::render::overview::candidate_hotlist;
use crate::render::overview::consumes_of;
use crate::render::overview::criticals_of;
use crate::render::overview::decision_pulse;
use crate::render::overview::ewma_trend;
use crate::render::overview::extended_counters;
use crate::render::overview::fleet_word_of;
use crate::render::overview::forecast_horizon;
use crate::render::overview::has_eta_of;
use crate::render::overview::heat_word_of;
use crate::render::overview::hotlist_len_of;
use crate::render::overview::hotlist_row;
use crate::render::overview::hotlist_rows_of;
use crate::render::overview::hover_text_of;
use crate::render::overview::latest_of;
use crate::render::overview::level_tag_of;
use crate::render::overview::lowest_free_of;
use crate::render::overview::mount_forecast;
use crate::render::overview::mount_row;
use crate::render::overview::mount_rows_of;
use crate::render::overview::overview_body;
use crate::render::overview::overview_hint;
use crate::render::overview::overview_page;
use crate::render::overview::overview_section;
use crate::render::overview::overview_sections_of;
use crate::render::overview::pane_content;
use crate::render::overview::path_column_of;
use crate::render::overview::path_hits_of;
use crate::render::overview::policy_text_of;
use crate::render::overview::pressure_matrix;
use crate::render::overview::pressure_summary;
use crate::render::overview::pulse_word_of;
use crate::render::overview::recent_activity;
use crate::render::overview::scores_of;
use crate::render::overview::special_locations;
use crate::render::overview::styled_actions_of;
use crate::render::overview::styled_counters_of;
use crate::render::overview::styled_fleet_of;
use crate::render::overview::styled_forecast_of;
use crate::render::overview::styled_hotlist_of;
use crate::render::overview::styled_hotlist_row;
use crate::render::overview::styled_hotlist_rows_of;
use crate::render::overview::styled_locations_of;
use crate::render::overview::styled_mount_forecast;
use crate::render::overview::styled_mount_of;
use crate::render::overview::styled_mounts_of;
use crate::render::overview::styled_pane;
use crate::render::overview::styled_pane_lines;
use crate::render::overview::styled_pressure_of;
use crate::render::overview::styled_pulse_of;
use crate::render::overview::styled_trend_of;
use crate::render::overview::styled_trend_row;
use crate::render::overview::styled_trend_rows_of;
use crate::render::overview::trend_row;
use crate::render::overview::trend_rows_of;
use crate::render::overview::visible_of;
use crate::render::overview::watch_word_of;
use crate::render::overview::watched_paths_of;
use crate::render::overview::worst_mount_of;
use crate::telemetry::DecisionEvidence;
use crate::telemetry::samples;
use crate::text::dec;
use crate::text::padded_left;
use crate::text::padded_right;
use crate::text::uppered;

verus! {

/// One mount of the pressure matrix: its figures stand in the order of their columns.
pub proof fn law_mount_row_order(mount: MountPressure, pane_width: u16)
    ensures
        ({
            let d = mount_row(mount, pane_width);
            &&& before(
                d,
                Atom::Text(padded_right(shortened(mount.path@, path_column_of(pane_width, 40, 8, 26) as nat), path_column_of(pane_width, 40, 8, 26) as nat)),
                Atom::Fixed { value: mount.free_pct, decimals: 1 },
            )
            &&& mount.rate_bps is Some ==> before(
                d,
                Atom::Fixed { value: mount.free_pct, decimals: 1 },
                Atom::Rate(mount.rate_bps->0),
            )
            &&& mount.rate_bps is Some ==> before(
                d,
                Atom::Rate(mount.rate_bps->0),
                Atom::Text(padded_left(level_tag_of(mount.level@), 10)),
            )
            &&& before(
                d,
                Atom::Text(padded_left(level_tag_of(mount.level@), 10)),
                Atom::Gauge { of: Gauge::Used(mount.free_pct), width: gauge_width(pane_width) as usize, segmented: false, },
            )
            &&& mount.rate_bps is None ==> before(
                d,
                Atom::Fixed { value: mount.free_pct, decimals: 1 },
                Atom::Text(padded_left("-"@, 11)),
            )
            &&& mount.rate_bps is None ==> before(
                d,
                Atom::Text(padded_left("-"@, 11)),
                Atom::Text(padded_left(level_tag_of(mount.level@), 10)),
            )
        }),
{
    let d = mount_row(mount, pane_width);
    if (consumes_of(mount.rate_bps) && mount.free_pct.gt(Double { bits: ZERO })) && mount.rate_bps is Some {
        assert(before_at(
            d,
            2,
            4,
            Atom::Text(padded_right(shortened(mount.path@, path_column_of(pane_width, 40, 8, 26) as nat), path_column_of(pane_width, 40, 8, 26) as nat)),
            Atom::Fixed { value: mount.free_pct, decimals: 1 },
        ));
        assert(before_at(
            d,
            4,
            6,
            Atom::Fixed { value: mount.free_pct, decimals: 1 },
            Atom::Rate(mount.rate_bps->0),
        ));
        assert(before_at(
            d,
            6,
            8,
            Atom::Rate(mount.rate_bps->0),
            Atom::Text(padded_left(level_tag_of(mount.level@), 10)),
        ));
        assert(before_at(
            d,
            8,
            10,
            Atom::Text(padded_left(level_tag_of(mount.level@), 10)),
            Atom::Gauge { of: Gauge::Used(mount.free_pct), width: gauge_width(pane_width) as usize, segmented: false, },
        ));
    }
    if (consumes_of(mount.rate_bps) && mount.free_pct.gt(Double { bits: ZERO })) && mount.rate_bps is None {
        assert(before_at(
            d,
            2,
            4,
            Atom::Text(padded_right(shortened(mount.path@, path_column_of(pane_width, 40, 8, 26) as nat), path_column_of(pane_width, 40, 8, 26) as nat)),
            Atom::Fixed { value: mount.free_pct, decimals: 1 },
        ));
        assert(before_at(
            d,
            4,
            6,
            Atom::Fixed { value: mount.free_pct, decimals: 1 },
            Atom::Text(padded_left("-"@, 11)),
        ));
        assert(before_at(
            d,
            6,
            8,
            Atom::Text(padded_left("-"@, 11)),
            Atom::Text(padded_left(level_tag_of(mount.level@), 10)),
        ));
        assert(before_at(
            d,
            8,
            10,
            Atom::Text(padded_left(level_tag_of(mount.level@), 10)),
            Atom::Gauge { of: Gauge::Used(mount.free_pct), width: gauge_width(pane_width) as usize, segmented: false, },
        ));
    }
    if (!(consumes_of(mount.rate_bps) && mount.free_pct.gt(Double { bits: ZERO }))) && mount.rate_bps is Some {
        assert(before_at(
            d,
            2,
            4,
            Atom::Text(padded_right(shortened(mount.path@, path_column_of(pane_width, 40, 8, 26) as nat), path_column_of(pane_width, 40, 8, 26) as nat)),
            Atom::Fixed { value: mount.free_pct, decimals: 1 },
        ));
        assert(before_at(
            d,
            4,
            6,
            Atom::Fixed { value: mount.free_pct, decimals: 1 },
            Atom::Rate(mount.rate_bps->0),
        ));
        assert(before_at(
            d,
            6,
            8,
            Atom::Rate(mount.rate_bps->0),
            Atom::Text(padded_left(level_tag_of(mount.level@), 10)),
        ));
        assert(before_at(
            d,
            8,
            10,
            Atom::Text(padded_left(level_tag_of(mount.level@), 10)),
            Atom::Gauge { of: Gauge::Used(mount.free_pct), width: gauge_width(pane_width) as usize, segmented: false, },
        ));
    }
    if (!(consumes_of(mount.rate_bps) && mount.free_pct.gt(Double { bits: ZERO }))) && mount.rate_bps is None {
        assert(before_at(
            d,
            2,
            4,
            Atom::Text(padded_right(shortened(mount.path@, path_column_of(pane_width, 40, 8, 26) as nat), path_column_of(pane_width, 40, 8, 26) as nat)),
            Atom::Fixed { value: mount.free_pct, decimals: 1 },
        ));
        assert(before_at(
            d,
            4,
            6,
            Atom::Fixed { value: mount.free_pct, decimals: 1 },
            Atom::Text(padded_left("-"@, 11)),
        ));
        assert(before_at(
            d,
            6,
            8,
            Atom::Text(padded_left("-"@, 11)),
            Atom::Text(padded_left(level_tag_of(mount.level@), 10)),
        ));
        assert(before_at(
            d,
            8,
            10,
            Atom::Text(padded_left(level_tag_of(mount.level@), 10)),
            Atom::Gauge { of: Gauge::Used(mount.free_pct), width: gauge_width(pane_width) as usize, segmented: false, },
        ));
    }
}

/// Rows of the pressure matrix: one row follows another, and each shows its own item.
pub proof fn law_mount_rows_row_by_row(
    state: DaemonState,
    pane_width: u16,
    from: int,
    mid: int,
    to: int,
)
    requires
        from <= mid <= to,
    ensures
        mount_rows_of(state, pane_width, from, to)
            == mount_rows_of(state, pane_width, from, mid) + mount_rows_of(state, pane_width, mid, to),
        mount_rows_of(state, pane_width, mid, mid + 1)
            == mount_row(state.pressure.mounts@[mid], pane_width),
    decreases to - mid,
{
    assert(mount_rows_of(state, pane_width, mid, mid) =~= seq![]);
    assert(mount_rows_of(state, pane_width, mid, mid + 1)
        =~= mount_row(state.pressure.mounts@[mid], pane_width));
    if mid < to {
        law_mount_rows_row_by_row(state, pane_width, from, mid, to - 1);
        assert(mount_rows_of(state, pane_width, from, to)
            =~= mount_rows_of(state, pane_width, from, mid) + mount_rows_of(state, pane_width, mid, to));
    } else {
        assert(mount_rows_of(state, pane_width, from, to)
            =~= mount_rows_of(state, pane_width, from, mid) + mount_rows_of(state, pane_width, mid, to));
    }
}

/// Pressure of the machine and of each mount: each label is followed by the figure that it names.
pub proof fn law_pressure_matrix_figures(state: DaemonState, pane_width: u16)
    ensures
        ({
            let d = pressure_matrix(state, pane_width);
            &&& labels(d, "pressure "@, Atom::Badge(uppered(state.pressure.overall@)))
            &&& labels(
                d,
                " worst-free="@,
                Atom::Fixed { value: lowest_free_of(state.pressure.mounts@), decimals: 1 },
            )
            &&& labels(d, "% mounts="@, Atom::Text(dec(state.pressure.mounts@.len() as nat)))
            &&& (state.policy_mode@.len() > 0) ==> labels(
                d,
                " policy="@,
                Atom::Badge(uppered(state.policy_mode@)),
            )
        }),
{
    broadcast use crate::markup::group_labels;

}

/// Pressure of the machine and of each mount: its figures stand in the order of their columns.
pub proof fn law_pressure_matrix_order(state: DaemonState, pane_width: u16)
    ensures
        ({
            let d = pressure_matrix(state, pane_width);
            &&& (state.policy_mode@.len() > 0) ==> before(
                d,
                Atom::Badge(uppered(state.policy_mode@)),
                Atom::Text(padded_right("mount"@, path_column_of(pane_width, 40, 8, 26) as nat)),
            )
            &&& (!(state.policy_mode@.len() > 0)) ==> before(
                d,
                Atom::Text(dec(state.pressure.mounts@.len() as nat)),
                Atom::Text(padded_right("mount"@, path_column_of(pane_width, 40, 8, 26) as nat)),
            )
        }),
{
    let d = pressure_matrix(state, pane_width);
    if (state.policy_mode@.len() > 0) {
        assert(before_at(
            d,
            7,
            10,
            Atom::Badge(uppered(state.policy_mode@)),
            Atom::Text(padded_right("mount"@, path_column_of(pane_width, 40, 8, 26) as nat)),
        ));
    }
    if (!(state.policy_mode@.len() > 0)) {
        assert(before_at(
            d,
            5,
            8,
            Atom::Text(dec(state.pressure.mounts@.len() as nat)),
            Atom::Text(padded_right("mount"@, path_column_of(pane_width, 40, 8, 26) as nat)),
        ));
    }
}

/// Pressure of the machine and of each mount: its parts stand in it.
pub proof fn law_pressure_matrix_parts(state: DaemonState, pane_width: u16)
    ensures
        ({
            let d = pressure_matrix(state, pane_width);
            &&& reads(d, mount_rows_of(state, pane_width, 0, state.pressure.mounts@.len() as int))
        }),
{
    broadcast use crate::markup::group_reads;

}

/// The watched paths, one per line: one row follows another, and each shows its own item.
pub proof fn law_watched_paths_row_by_row(paths: Seq<String>, from: int, mid: int, to: int)
    requires
        from <= mid <= to,
    ensures
        watched_paths_of(paths, from, to)
            == watched_paths_of(paths, from, mid) + watched_paths_of(paths, mid, to),
        watched_paths_of(paths, mid, mid + 1) == seq![nl(), txt("  "@), txt(paths[mid]@)],
    decreases to - mid,
{
    assert(watched_paths_of(paths, mid, mid) =~= seq![]);
    assert(watched_paths_of(paths, mid, mid + 1) =~= seq![nl(), txt("  "@), txt(paths[mid]@)]);
    if mid < to {
        law_watched_paths_row_by_row(paths, from, mid, to - 1);
        assert(watched_paths_of(paths, from, to)
            =~= watched_paths_of(paths, from, mid) + watched_paths_of(paths, mid, to));
    } else {
        assert(watched_paths_of(paths, from, to)
            =~= watched_paths_of(paths, from, mid) + watched_paths_of(paths, mid, to));
    }
}

/// Pressure pane: the matrix of mounts, the watched paths while degraded, or that
/// nothing is known: each label is followed by the figure that it names.
pub proof fn law_pressure_summary_figures(model: DashboardModel, pane_width: u16)
    ensures
        ({
            let d = pressure_summary(model, pane_width);
            &&& model.daemon_state is None && (model.degraded && model.monitor_paths@.len() > 0) ==> labels(
                d,
                "pressure "@,
                Atom::Badge("DEGRADED"@),
            )
            &&& model.daemon_state is None && (model.degraded && model.monitor_paths@.len() > 0) ==> labels(
                d,
                " live-fs-stats paths="@,
                Atom::Text(dec(model.monitor_paths@.len() as nat)),
            )
            &&& model.daemon_state is None && (!(model.degraded && model.monitor_paths@.len() > 0)) ==> labels(
                d,
                "pressure "@,
                Atom::Badge("UNKNOWN"@),
            )
        }),
{
    broadcast use crate::markup::group_labels;

}

/// Pressure pane: the matrix of mounts, the watched paths while degraded, or that
/// nothing is known: its parts stand in it.
pub proof fn law_pressure_summary_parts(model: DashboardModel, pane_width: u16)
    ensures
        ({
            let d = pressure_summary(model, pane_width);
            &&& model.daemon_state is Some ==> reads(
                d,
                pressure_matrix(model.daemon_state->0, pane_width),
            )
            &&& model.daemon_state is None && (model.degraded && model.monitor_paths@.len() > 0) ==> reads(
                d,
                watched_paths_of(model.monitor_paths@, 0, model.monitor_paths@.len() as int),
            )
        }),
{
    broadcast use crate::markup::group_reads;

}

/// Action pane: what the daemon has done: each label is followed by the figure that it names.
pub proof fn law_action_lane_figures(model: DashboardModel)
    ensures
        ({
            let d = action_lane(model);
            &&& model.daemon_state is Some ==> labels(
                d,
                "actions scans="@,
                Atom::Text(dec(model.daemon_state->0.counters.scans as nat)),
            )
            &&& model.daemon_state is Some ==> labels(
                d,
                " deleted="@,
                Atom::Text(dec(model.daemon_state->0.counters.deletions as nat)),
            )
            &&& model.daemon_state is Some ==> labels(
                d,
                " freed="@,
                Atom::Bytes(model.daemon_state->0.counters.bytes_freed),
            )
        }),
{
    broadcast use crate::markup::group_labels;

}

/// The forecast for one mount: each label is followed by the figure that it names.
pub proof fn law_mount_forecast_figures(mount: MountPressure)
    ensures
        ({
            let d = mount_forecast(mount);
            &&& labels(d, "forecast "@, Atom::Badge(uppered(mount.level@)))
            &&& labels(d, " worst="@, Atom::Text(mount.path@))
            &&& labels(d, " free="@, Atom::Fixed { value: mount.free_pct, decimals: 1 })
        }),
{
    broadcast use crate::markup::group_labels;

}

/// The forecast for one mount: its figures stand in the order of their columns.
pub proof fn law_mount_forecast_order(mount: MountPressure)
    ensures
        ({
            let d = mount_forecast(mount);
            &&& has_eta_of(mount) ==> before(
                d,
                Atom::Fixed { value: mount.free_pct, decimals: 1 },
                Atom::Eta { free_pct: mount.free_pct, rate: mount.rate_bps->0 },
            )
        }),
{
    let d = mount_forecast(mount);
    if has_eta_of(mount) {
        assert(before_at(
            d,
            5,
            7,
            Atom::Fixed { value: mount.free_pct, decimals: 1 },
            Atom::Eta { free_pct: mount.free_pct, rate: mount.rate_bps->0 },
        ));
    }
}

/// Forecast pane: when the worst mount is full: its parts stand in it.
pub proof fn law_forecast_horizon_parts(model: DashboardModel)
    ensures
        ({
            let d = forecast_horizon(model);
            &&& model.daemon_state is Some && (model.daemon_state->0.pressure.mounts@.len() > 0) ==> reads(
                d,
                mount_forecast(
                    model.daemon_state->0.pressure.mounts@[worst_mount_of(model.daemon_state->0.pressure.mounts@)],
                ),
            )
        }),
{
    broadcast use crate::markup::group_reads;

}

/// One mount of the trend lattice: its figures stand in the order of their columns.
pub proof fn law_trend_row_order(entry: RateEntry)
    ensures
        ({
            let d = trend_row(entry);
            &&& before(
                d,
                Atom::Text(padded_right(entry.mount@, 14)),
                Atom::Spark { samples: entry.history@, colored: false },
            )
            &&& before(
                d,
                Atom::Spark { samples: entry.history@, colored: false },
                Atom::Rate((latest_of(entry.history))),
            )
            &&& before(
                d,
                Atom::Rate((latest_of(entry.history))),
                Atom::Trend((latest_of(entry.history))),
            )
        }),
{
    let d = trend_row(entry);
    if (latest_of(entry.history)).gt(Double { bits: ALERT_RATE }) {
        assert(before_at(
            d,
            2,
            4,
            Atom::Text(padded_right(entry.mount@, 14)),
            Atom::Spark { samples: entry.history@, colored: false },
        ));
        assert(before_at(
            d,
            4,
            6,
            Atom::Spark { samples: entry.history@, colored: false },
            Atom::Rate((latest_of(entry.history))),
        ));
        assert(before_at(
            d,
            6,
            8,
            Atom::Rate((latest_of(entry.history))),
            Atom::Trend((latest_of(entry.history))),
        ));
    }
    if !((latest_of(entry.history)).gt(Double { bits: ALERT_RATE })) {
        assert(before_at(
            d,
            2,
            4,
            Atom::Text(padded_right(entry.mount@, 14)),
            Atom::Spark { samples: entry.history@, colored: false },
        ));
        assert(before_at(
            d,
            4,
            6,
            Atom::Spark { samples: entry.history@, colored: false },
            Atom::Rate((latest_of(entry.history))),
        ));
        assert(before_at(
            d,
            6,
            8,
            Atom::Rate((latest_of(entry.history))),
            Atom::Trend((latest_of(entry.history))),
        ));
    }
}

/// Rows of the trend lattice, in mount order: one row follows another, and each shows its own item.
pub proof fn law_trend_rows_row_by_row(entries: Seq<RateEntry>, from: int, mid: int, to: int)
    requires
        from <= mid <= to,
    ensures
        trend_rows_of(entries, from, to)
            == trend_rows_of(entries, from, mid) + trend_rows_of(entries, mid, to),
        trend_rows_of(entries, mid, mid + 1) == trend_row(entries[mid]),
    decreases to - mid,
{
    assert(trend_rows_of(entries, mid, mid) =~= seq![]);
    assert(trend_rows_of(entries, mid, mid + 1) =~= trend_row(entries[mid]));
    if mid < to {
        law_trend_rows_row_by_row(entries, from, mid, to - 1);
        assert(trend_rows_of(entries, from, to)
            =~= trend_rows_of(entries, from, mid) + trend_rows_of(entries, mid, to));
    } else {
        assert(trend_rows_of(entries, from, to)
            =~= trend_rows_of(entries, from, mid) + trend_rows_of(entries, mid, to));
    }
}

/// Trend pane: the recent rates of each mount: each label is followed by the figure that it names.
pub proof fn law_ewma_trend_figures(model: DashboardModel)
    ensures
        ({
            let d = ewma_trend(model);
            &&& (!(model.rate_histories.entries@.len() == 0)) ==> labels(
                d,
                "ewma "@,
                Atom::Text(dec(model.rate_histories.entries@.len() as nat)),
            )
        }),
{
    broadcast use crate::markup::group_labels;

}

/// Trend pane: the recent rates of each mount: its parts stand in it.
pub proof fn law_ewma_trend_parts(model: DashboardModel)
    ensures
        ({
            let d = ewma_trend(model);
            &&& (!(model.rate_histories.entries@.len() == 0)) ==> reads(
                d,
                trend_rows_of(
                    model.rate_histories.entries@,
                    0,
                    model.rate_histories.entries@.len() as int,
                ),
            )
        }),
{
    broadcast use crate::markup::group_reads;

}

/// What the last scan did: each label is followed by the figure that it names.
pub proof fn law_recent_activity_figures(model: DashboardModel)
    ensures
        ({
            let d = recent_activity(model);
            &&& model.daemon_state is Some ==> labels(
                d,
                " candidates="@,
                Atom::Text(dec(model.daemon_state->0.last_scan.candidates as nat)),
            )
            &&& model.daemon_state is Some ==> labels(
                d,
                " deleted="@,
                Atom::Text(dec(model.daemon_state->0.last_scan.deleted as nat)),
            )
            &&& model.daemon_state is Some ==> labels(
                d,
                " errors="@,
                Atom::Text(dec(model.daemon_state->0.counters.errors as nat)),
            )
        }),
{
    broadcast use crate::markup::group_labels;

}

/// What the last scan did: its figures stand in the order of their columns.
pub proof fn law_recent_activity_order(model: DashboardModel)
    ensures
        ({
            let d = recent_activity(model);
            &&& model.daemon_state is Some && (model.daemon_state->0.last_scan.at is Some) ==> before(
                d,
                Atom::Clock(model.daemon_state->0.last_scan.at->0@),
                Atom::Text(dec(model.daemon_state->0.last_scan.candidates as nat)),
            )
        }),
{
    let d = recent_activity(model);
    if model.daemon_state is Some && (model.daemon_state->0.last_scan.at is Some) {
        assert(before_at(
            d,
            1,
            3,
            Atom::Clock(model.daemon_state->0.last_scan.at->0@),
            Atom::Text(dec(model.daemon_state->0.last_scan.candidates as nat)),
        ));
    }
}

/// Decision pane: the decisions so far and the last scan: each label is followed by the
/// figure that it names.
pub proof fn law_decision_pulse_figures(model: DashboardModel)
    ensures
        ({
            let d = decision_pulse(model);
            &&& (!(model.explainability_decisions@.len() == 0)) ==> labels(
                d,
                "decision-pulse "@,
                Atom::Badge(pulse_word_of(vetoed_of(model.explainability_decisions@) as int)),
            )
            &&& (!(model.explainability_decisions@.len() == 0)) ==> labels(
                d,
                " decisions="@,
                Atom::Text(dec(model.explainability_decisions@.len() as nat)),
            )
            &&& (!(model.explainability_decisions@.len() == 0)) ==> labels(
                d,
                " vetoed="@,
                Atom::Text(dec(vetoed_of(model.explainability_decisions@) as nat)),
            )
            &&& (!(model.explainability_decisions@.len() == 0)) ==> labels(
                d,
                " avg-score="@,
                Atom::Mean { values: scores_of(model.explainability_decisions@), decimals: 2 },
            )
        }),
{
    broadcast use crate::markup::group_labels;

}

/// Decision pane: the decisions so far and the last scan: its parts stand in it.
pub proof fn law_decision_pulse_parts(model: DashboardModel)
    ensures
        ({
            let d = decision_pulse(model);
            &&& reads(d, recent_activity(model))
        }),
{
    broadcast use crate::markup::group_reads;

}

/// One candidate of the hotlist: each label is followed by the figure that it names.
pub proof fn law_hotlist_row_figures(
    decision: DecisionEvidence,
    number: nat,
    selected: bool,
    pane_width: u16,
)
    ensures
        ({
            let d = hotlist_row(decision, number, selected, pane_width);
            &&& labels(d, ". "@, Atom::Fixed { value: decision.total_score, decimals: 2 })
        }),
{
    broadcast use crate::markup::group_labels;

}

/// One candidate of the hotlist: its figures stand in the order of their columns.
pub proof fn law_hotlist_row_order(
    decision: DecisionEvidence,
    number: nat,
    selected: bool,
    pane_width: u16,
)
    ensures
        ({
            let d = hotlist_row(decision, number, selected, pane_width);
            &&& before(
                d,
                Atom::Text(cursor_mark_of(selected)),
                Atom::Text(padded_left(dec(number), 2)),
            )
            &&& before(
                d,
                Atom::Text(padded_left(dec(number), 2)),
                Atom::Fixed { value: decision.total_score, decimals: 2 },
            )
            &&& before(
                d,
                Atom::Fixed { value: decision.total_score, decimals: 2 },
                Atom::Bytes(decision.size_bytes),
            )
            &&& before(d, Atom::Bytes(decision.size_bytes), Atom::Duration(decision.age_secs))
            &&& before(
                d,
                Atom::Duration(decision.age_secs),
                Atom::Badge(heat_word_of(decision.total_score)),
            )
            &&& before(
                d,
                Atom::Badge(heat_word_of(decision.total_score)),
                Atom::Text(padded_right(shortened(decision.path@, path_column_of(pane_width, 36, 12, 46) as nat), path_column_of(pane_width, 36, 12, 46) as nat)),
            )
        }),
{
    let d = hotlist_row(decision, number, selected, pane_width);
    if decision.vetoed {
        assert(before_at(
            d,
            1,
            3,
            Atom::Text(cursor_mark_of(selected)),
            Atom::Text(padded_left(dec(number), 2)),
        ));
        assert(before_at(
            d,
            3,
            5,
            Atom::Text(padded_left(dec(number), 2)),
            Atom::Fixed { value: decision.total_score, decimals: 2 },
        ));
        assert(before_at(
            d,
            5,
            7,
            Atom::Fixed { value: decision.total_score, decimals: 2 },
            Atom::Bytes(decision.size_bytes),
        ));
        assert(before_at(
            d,
            7,
            9,
            Atom::Bytes(decision.size_bytes),
            Atom::Duration(decision.age_secs),
        ));
        assert(before_at(
            d,
            9,
            11,
            Atom::Duration(decision.age_secs),
            Atom::Badge(heat_word_of(decision.total_score)),
        ));
        assert(before_at(
            d,
            11,
            13,
            Atom::Badge(heat_word_of(decision.total_score)),
            Atom::Text(padded_right(shortened(decision.path@, path_column_of(pane_width, 36, 12, 46) as nat), path_column_of(pane_width, 36, 12, 46) as nat)),
        ));
    }
    if !(decision.vetoed) {
        assert(before_at(
            d,
            1,
            3,
            Atom::Text(cursor_mark_of(selected)),
            Atom::Text(padded_left(dec(number), 2)),
        ));
        assert(before_at(
            d,
            3,
            5,
            Atom::Text(padded_left(dec(number), 2)),
            Atom::Fixed { value: decision.total_score, decimals: 2 },
        ));
        assert(before_at(
            d,
            5,
            7,
            Atom::Fixed { value: decision.total_score, decimals: 2 },
            Atom::Bytes(decision.size_bytes),
        ));
        assert(before_at(
            d,
            7,
            9,
            Atom::Bytes(decision.size_bytes),
            Atom::Duration(decision.age_secs),
        ));
        assert(before_at(
            d,
            9,
            11,
            Atom::Duration(decision.age_secs),
            Atom::Badge(heat_word_of(decision.total_score)),
        ));
        assert(before_at(
            d,
            11,
            13,
            Atom::Badge(heat_word_of(decision.total_score)),
            Atom::Text(padded_right(shortened(decision.path@, path_column_of(pane_width, 36, 12, 46) as nat), path_column_of(pane_width, 36, 12, 46) as nat)),
        ));
    }
}

/// Rows of the hotlist: one row follows another, and each shows its own item.
pub proof fn law_hotlist_rows_row_by_row(
    candidates: Seq<DecisionEvidence>,
    selected: usize,
    pane_width: u16,
    from: int,
    mid: int,
    to: int,
)
    requires
        from <= mid <= to,
    ensures
        hotlist_rows_of(candidates, selected, pane_width, from, to)
            == hotlist_rows_of(candidates, selected, pane_width, from, mid) + hotlist_rows_of(candidates, selected, pane_width, mid, to),
        hotlist_rows_of(candidates, selected, pane_width, mid, mid + 1)
            == hotlist_row(candidates[mid], (mid + 1) as nat, mid == selected, pane_width),
    decreases to - mid,
{
    assert(hotlist_rows_of(candidates, selected, pane_width, mid, mid) =~= seq![]);
    assert(hotlist_rows_of(candidates, selected, pane_width, mid, mid + 1)
        =~= hotlist_row(candidates[mid], (mid + 1) as nat, mid == selected, pane_width));
    if mid < to {
        law_hotlist_rows_row_by_row(candidates, selected, pane_width, from, mid, to - 1);
        assert(hotlist_rows_of(candidates, selected, pane_width, from, to)
            =~= hotlist_rows_of(candidates, selected, pane_width, from, mid) + hotlist_rows_of(candidates, selected, pane_width, mid, to));
    } else {
        assert(hotlist_rows_of(candidates, selected, pane_width, from, to)
            =~= hotlist_rows_of(candidates, selected, pane_width, from, mid) + hotlist_rows_of(candidates, selected, pane_width, mid, to));
    }
}

/// Candidate pane: the first candidates of the ranking: each label is followed by the
/// figure that it names.
pub proof fn law_candidate_hotlist_figures(model: DashboardModel, pane_width: u16)
    ensures
        ({
            let d = candidate_hotlist(model, pane_width);
            &&& (!(model.candidates_list@.len() == 0)) ==> labels(
                d,
                "hotlist total="@,
                Atom::Text(dec(model.candidates_list@.len() as nat)),
            )
            &&& (!(model.candidates_list@.len() == 0)) ==> labels(
                d,
                " source="@,
                Atom::Text(source_name(model.candidates_source)),
            )
        }),
{
    broadcast use crate::markup::group_labels;

}

/// Candidate pane: the first candidates of the ranking: its parts stand in it.
pub proof fn law_candidate_hotlist_parts(model: DashboardModel, pane_width: u16)
    ensures
        ({
            let d = candidate_hotlist(model, pane_width);
            &&& (!(model.candidates_list@.len() == 0)) ==> reads(
                d,
                hotlist_rows_of(
                    model.candidates_list@,
                    model.candidates_selected,
                    pane_width,
                    0,
                    hotlist_len_of(model.candidates_list@),
                ),
            )
        }),
{
    broadcast use crate::markup::group_reads;

}

/// Locations pane: events on temporary directories: each label is followed by the
/// figure that it names.
pub proof fn law_special_locations_figures(model: DashboardModel)
    ensures
        ({
            let d = special_locations(model);
            &&& (!(model.timeline_events@.len() == 0)) ==> labels(
                d,
                "special-locations "@,
                Atom::Badge(watch_word_of(criticals_of(model.timeline_events@) as int)),
            )
            &&& (!(model.timeline_events@.len() == 0)) ==> labels(
                d,
                " /tmp-events="@,
                Atom::Text(dec(path_hits_of(model.timeline_events@, "/tmp"@) as nat)),
            )
            &&& (!(model.timeline_events@.len() == 0)) ==> labels(
                d,
                " /data/tmp-events="@,
                Atom::Text(dec(path_hits_of(model.timeline_events@, "/data/tmp"@) as nat)),
            )
            &&& (!(model.timeline_events@.len() == 0)) ==> labels(
                d,
                " critical-events="@,
                Atom::Text(dec(criticals_of(model.timeline_events@) as nat)),
            )
        }),
{
    broadcast use crate::markup::group_labels;

}

/// Ballast pane: how much ballast is left: each label is followed by the figure that it names.
pub proof fn law_ballast_quick_figures(model: DashboardModel)
    ensures
        ({
            let d = ballast_quick(model);
            &&& model.daemon_state is Some ==> labels(
                d,
                "ballast "@,
                Atom::Badge(fleet_word_of(model.daemon_state->0.ballast.available, model.daemon_state->0.ballast.total)),
            )
            &&& model.daemon_state is Some ==> labels(
                d,
                " available="@,
                Atom::Text(dec(model.daemon_state->0.ballast.available as nat)),
            )
            &&& model.daemon_state is Some ==> labels(
                d,
                "/"@,
                Atom::Text(dec(model.daemon_state->0.ballast.total as nat)),
            )
            &&& model.daemon_state is Some ==> labels(
                d,
                " released="@,
                Atom::Text(dec(model.daemon_state->0.ballast.released as nat)),
            )
            &&& model.daemon_state is None ==> labels(d, "ballast "@, Atom::Badge("UNKNOWN"@))
        }),
{
    broadcast use crate::markup::group_labels;

}

/// Counters pane: the daemon process and its counters: each label is followed by the
/// figure that it names.
pub proof fn law_extended_counters_figures(model: DashboardModel)
    ensures
        ({
            let d = extended_counters(model);
            &&& model.daemon_state is Some ==> labels(
                d,
                "runtime scans="@,
                Atom::Text(dec(model.daemon_state->0.counters.scans as nat)),
            )
            &&& model.daemon_state is Some ==> labels(
                d,
                " deletions="@,
                Atom::Text(dec(model.daemon_state->0.counters.deletions as nat)),
            )
            &&& model.daemon_state is Some ==> labels(
                d,
                " errors="@,
                Atom::Text(dec(model.daemon_state->0.counters.errors as nat)),
            )
            &&& model.daemon_state is Some ==> labels(
                d,
                " dropped="@,
                Atom::Text(dec(model.daemon_state->0.counters.dropped_log_events as nat)),
            )
            &&& model.daemon_state is Some ==> labels(
                d,
                "  freed="@,
                Atom::Bytes(model.daemon_state->0.counters.bytes_freed),
            )
            &&& model.daemon_state is Some ==> labels(
                d,
                " rss="@,
                Atom::Bytes(model.daemon_state->0.memory_rss_bytes),
            )
            &&& model.daemon_state is Some ==> labels(
                d,
                " uptime="@,
                Atom::Duration(model.daemon_state->0.uptime_seconds),
            )
            &&& model.daemon_state is Some ==> labels(
                d,
                "  pid="@,
                Atom::Text(dec(model.daemon_state->0.pid as nat)),
            )
            &&& model.daemon_state is Some ==> labels(
                d,
                " policy="@,
                Atom::Text(policy_text_of(model.daemon_state->0.policy_mode@)),
            )
            &&& model.daemon_state is Some ==> labels(
                d,
                " adapters(r/e)="@,
                Atom::Text(dec(model.adapter_reads as nat)),
            )
            &&& labels(d, "/"@, Atom::Text(dec(model.adapter_errors as nat)))
            &&& model.daemon_state is None ==> labels(
                d,
                "  adapters(r/e)="@,
                Atom::Text(dec(model.adapter_reads as nat)),
            )
        }),
{
    broadcast use crate::markup::group_labels;

}

/// Content of an overview pane, without a line end after the last line: its parts stand in it.
pub proof fn law_pane_content_parts(model: DashboardModel, pane: OverviewPane, pane_width: u16)
    ensures
        ({
            let d = pane_content(model, pane, pane_width);
            &&& (pane == OverviewPane::PressureSummary) ==> reads(
                d,
                pressure_summary(model, pane_width),
            )
            &&& (pane == OverviewPane::ForecastHorizon) ==> reads(d, forecast_horizon(model))
            &&& (pane == OverviewPane::ActionLane) ==> reads(d, action_lane(model))
            &&& (pane == OverviewPane::EwmaTrend) ==> reads(d, ewma_trend(model))
            &&& (pane == OverviewPane::DecisionPulse) ==> reads(d, decision_pulse(model))
            &&& (pane == OverviewPane::CandidateHotlist) ==> reads(
                d,
                candidate_hotlist(model, pane_width),
            )
            &&& (pane == OverviewPane::BallastQuick) ==> reads(d, ballast_quick(model))
            &&& (pane == OverviewPane::SpecialLocations) ==> reads(d, special_locations(model))
            &&& (pane == OverviewPane::ExtendedCounters) ==> reads(d, extended_counters(model))
        }),
{
    broadcast use crate::markup::group_reads;

    reveal(pane_content);
}

/// A visible pane under its header, later lines indented: each label is followed by the
/// figure that it names.
pub proof fn law_overview_section_figures(model: DashboardModel, placement: PanePlacement)
    ensures
        ({
            let d = overview_section(model, placement);
            &&& placement.visible ==> labels(d, "["@, Atom::Text(overview_pane_id(placement.pane)))
            &&& placement.visible ==> labels(d, " @"@, Atom::Text(dec(placement.rect.col as nat)))
            &&& placement.visible ==> labels(d, ","@, Atom::Text(dec(placement.rect.row as nat)))
            &&& placement.visible ==> labels(d, "x"@, Atom::Text(dec(placement.rect.height as nat)))
        }),
{
    broadcast use crate::markup::group_labels;

    reveal(overview_section);
}

/// A visible pane under its header, later lines indented: its figures stand in the
/// order of their columns.
pub proof fn law_overview_section_order(model: DashboardModel, placement: PanePlacement)
    ensures
        ({
            let d = overview_section(model, placement);
            &&& placement.visible ==> before(
                d,
                Atom::Text(overview_pane_id(placement.pane)),
                Atom::Text(priority_label(placement.priority)),
            )
            &&& placement.visible ==> before(
                d,
                Atom::Text(priority_label(placement.priority)),
                Atom::Text(dec(placement.rect.col as nat)),
            )
            &&& placement.visible ==> before(
                d,
                Atom::Text(dec(placement.rect.row as nat)),
                Atom::Text(dec(placement.rect.width as nat)),
            )
            &&& placement.visible ==> before(
                d,
                Atom::Text(dec(placement.rect.width as nat)),
                Atom::Text(dec(placement.rect.height as nat)),
            )
        }),
{
    reveal(overview_section);
    let d = overview_section(model, placement);
    if placement.visible {
        assert(before_at(
            d,
            1,
            3,
            Atom::Text(overview_pane_id(placement.pane)),
            Atom::Text(priority_label(placement.priority)),
        ));
        assert(before_at(
            d,
            3,
            5,
            Atom::Text(priority_label(placement.priority)),
            Atom::Text(dec(placement.rect.col as nat)),
        ));
        assert(before_at(
            d,
            7,
            9,
            Atom::Text(dec(placement.rect.row as nat)),
            Atom::Text(dec(placement.rect.width as nat)),
        ));
        assert(before_at(
            d,
            9,
            11,
            Atom::Text(dec(placement.rect.width as nat)),
            Atom::Text(dec(placement.rect.height as nat)),
        ));
    }
}

/// A visible pane under its header, later lines indented: its parts stand in it.
pub proof fn law_overview_section_parts(model: DashboardModel, placement: PanePlacement)
    ensures
        ({
            let d = overview_section(model, placement);
            &&& placement.visible ==> reads(
                d,
                indented(pane_content(model, placement.pane, placement.rect.width)),
            )
        }),
{
    broadcast use crate::markup::group_reads;

    reveal(overview_section);
}

/// The visible panes in order: one row follows another, and each shows its own item.
pub proof fn law_overview_sections_row_by_row(
    model: DashboardModel,
    placements: Seq<PanePlacement>,
    from: int,
    mid: int,
    to: int,
)
    requires
        from <= mid <= to,
    ensures
        overview_sections_of(model, placements, from, to)
            == overview_sections_of(model, placements, from, mid) + overview_sections_of(model, placements, mid, to),
        overview_sections_of(model, placements, mid, mid + 1)
            == overview_section(model, placements[mid]),
    decreases to - mid,
{
    assert(overview_sections_of(model, placements, mid, mid) =~= seq![]);
    assert(overview_sections_of(model, placements, mid, mid + 1)
        =~= overview_section(model, placements[mid]));
    if mid < to {
        law_overview_sections_row_by_row(model, placements, from, mid, to - 1);
        assert(overview_sections_of(model, placements, from, to)
            =~= overview_sections_of(model, placements, from, mid) + overview_sections_of(model, placements, mid, to));
    } else {
        assert(overview_sections_of(model, placements, from, to)
            =~= overview_sections_of(model, placements, from, mid) + overview_sections_of(model, placements, mid, to));
    }
}

/// What the overview screen shows besides its hint line: each label is followed by the
/// figure that it names.
pub proof fn law_overview_body_figures(model: DashboardModel)
    ensures
        ({
            let d = overview_body(model);
            &&& labels(
                d,
                "overview-layout="@,
                Atom::Text(class_name(overview_class(model.terminal_size.0 as int, model.terminal_size.1 as int))),
            )
            &&& labels(
                d,
                "/"@,
                Atom::Text(tier_name(overview_density(model.terminal_size.0 as int, model.terminal_size.1 as int))),
            )
            &&& labels(
                d,
                " visible-panes="@,
                Atom::Text(dec(visible_of((overview_placements(model.terminal_size.0 as int, model.terminal_size.1 as int))) as nat)),
            )
            &&& labels(d, " focus="@, Atom::Text(overview_pane_id(model.overview_focus_pane)))
            &&& labels(d, " hover="@, Atom::Text(hover_text_of(model.overview_hover_pane)))
        }),
{
    broadcast use crate::markup::group_labels;

}

/// What the overview screen shows besides its hint line: its parts stand in it.
pub proof fn law_overview_body_parts(model: DashboardModel)
    ensures
        ({
            let d = overview_body(model);
            &&& reads(
                d,
                overview_sections_of(
                    model,
                    (overview_placements(model.terminal_size.0 as int, model.terminal_size.1 as int)),
                    0,
                    (overview_placements(model.terminal_size.0 as int, model.terminal_size.1 as int)).len() as int,
                ),
            )
        }),
{
    broadcast use crate::markup::group_reads;

}

/// The hint line of the overview screen: its parts stand in it.
pub proof fn law_overview_hint_parts(model: DashboardModel)
    ensures
        ({
            let d = overview_hint(model);
            &&& reads(
                d,
                nav_hint_of(
                    model.hint_verbosity,
                    "Tab/Shift-Tab pane focus  Enter/Space open pane  mouse move/click drill-in  1-7 screens  [/] prev/next  b ballast  r refresh  ? help  : palette"@,
                    "Tab focus  Enter/Space open pane  mouse click  1-7 screens  [/] prev/next"@,
                ),
            )
        }),
{
    broadcast use crate::markup::group_reads;

}

/// The overview screen: the layout and its visible panes: its parts stand in it.
pub proof fn law_overview_page_parts(model: DashboardModel)
    ensures
        ({
            let d = overview_page(model);
            &&& reads(d, overview_body(model))
            &&& reads(d, overview_hint(model))
        }),
{
    broadcast use crate::markup::group_reads;

}

/// One styled mount of the pressure matrix: its figures stand in the order of their columns.
pub proof fn law_styled_mount_order(mount: MountPressure, pane_width: u16)
    ensures
        ({
            let d = styled_mount_of(mount, pane_width);
            &&& before(
                d,
                Atom::Text(padded_right(shortened(mount.path@, 16 as nat), 16)),
                Atom::Gauge { of: Gauge::Used(mount.free_pct), width: gauge_width(pane_width) as usize, segmented: true, },
            )
            &&& mount.rate_bps is Some ==> before(
                d,
                Atom::Gauge { of: Gauge::Used(mount.free_pct), width: gauge_width(pane_width) as usize, segmented: true, },
                Atom::Rate(mount.rate_bps->0),
            )
        }),
{
    let d = styled_mount_of(mount, pane_width);
    if mount.rate_bps is Some && (mount.rate_bps->0.gt(Double { bits: ZERO })) {
        assert(before_at(
            d,
            1,
            3,
            Atom::Text(padded_right(shortened(mount.path@, 16 as nat), 16)),
            Atom::Gauge { of: Gauge::Used(mount.free_pct), width: gauge_width(pane_width) as usize, segmented: true, },
        ));
        assert(before_at(
            d,
            3,
            5,
            Atom::Gauge { of: Gauge::Used(mount.free_pct), width: gauge_width(pane_width) as usize, segmented: true, },
            Atom::Rate(mount.rate_bps->0),
        ));
    }
    if mount.rate_bps is Some && (!(mount.rate_bps->0.gt(Double { bits: ZERO }))) {
        assert(before_at(
            d,
            1,
            3,
            Atom::Text(padded_right(shortened(mount.path@, 16 as nat), 16)),
            Atom::Gauge { of: Gauge::Used(mount.free_pct), width: gauge_width(pane_width) as usize, segmented: true, },
        ));
        assert(before_at(
            d,
            3,
            5,
            Atom::Gauge { of: Gauge::Used(mount.free_pct), width: gauge_width(pane_width) as usize, segmented: true, },
            Atom::Rate(mount.rate_bps->0),
        ));
    }
    if mount.rate_bps is None {
        assert(before_at(
            d,
            1,
            3,
            Atom::Text(padded_right(shortened(mount.path@, 16 as nat), 16)),
            Atom::Gauge { of: Gauge::Used(mount.free_pct), width: gauge_width(pane_width) as usize, segmented: true, },
        ));
    }
}

/// Styled rows of the pressure matrix: one row follows another, and each shows its own item.
pub proof fn law_styled_mounts_row_by_row(
    state: DaemonState,
    pane_width: u16,
    from: int,
    mid: int,
    to: int,
)
    requires
        from <= mid <= to,
    ensures
        styled_mounts_of(state, pane_width, from, to)
            == styled_mounts_of(state, pane_width, from, mid) + styled_mounts_of(state, pane_width, mid, to),
        styled_mounts_of(state, pane_width, mid, mid + 1)
            == styled_mount_of(state.pressure.mounts@[mid], pane_width),
    decreases to - mid,
{
    assert(styled_mounts_of(state, pane_width, mid, mid) =~= seq![]);
    assert(styled_mounts_of(state, pane_width, mid, mid + 1)
        =~= styled_mount_of(state.pressure.mounts@[mid], pane_width));
    if mid < to {
        law_styled_mounts_row_by_row(state, pane_width, from, mid, to - 1);
        assert(styled_mounts_of(state, pane_width, from, to)
            =~= styled_mounts_of(state, pane_width, from, mid) + styled_mounts_of(state, pane_width, mid, to));
    } else {
        assert(styled_mounts_of(state, pane_width, from, to)
            =~= styled_mounts_of(state, pane_width, from, mid) + styled_mounts_of(state, pane_width, mid, to));
    }
}

/// Styled pressure pane: each label is followed by the figure that it names.
pub proof fn law_styled_pressure_figures(model: DashboardModel, pane_width: u16)
    ensures
        ({
            let d = styled_pressure_of(model, pane_width);
            &&& model.daemon_state is Some ==> labels(
                d,
                "pressure "@,
                Atom::Badge(uppered(model.daemon_state->0.pressure.overall@)),
            )
        }),
{
    broadcast use crate::markup::group_labels;

}

/// Styled pressure pane: its figures stand in the order of their columns.
pub proof fn law_styled_pressure_order(model: DashboardModel, pane_width: u16)
    ensures
        ({
            let d = styled_pressure_of(model, pane_width);
            &&& model.daemon_state is Some && (model.daemon_state->0.policy_mode@.len() > 0) ==> before(
                d,
                Atom::Badge(uppered(model.daemon_state->0.pressure.overall@)),
                Atom::Badge(uppered(model.daemon_state->0.policy_mode@)),
            )
            &&& model.daemon_state is Some && (model.daemon_state->0.pressure.overall@ != "green"@) && (model.daemon_state->0.policy_mode@.len() > 0) ==> before(
                d,
                Atom::Badge(uppered(model.daemon_state->0.policy_mode@)),
                Atom::Progress(model.tick),
            )
            &&& model.daemon_state is Some && (model.daemon_state->0.pressure.overall@ != "green"@) && (!(model.daemon_state->0.policy_mode@.len() > 0)) ==> before(
                d,
                Atom::Badge(uppered(model.daemon_state->0.pressure.overall@)),
                Atom::Progress(model.tick),
            )
        }),
{
    let d = styled_pressure_of(model, pane_width);
    if model.daemon_state is Some && (model.daemon_state->0.pressure.overall@ != "green"@) && (model.daemon_state->0.policy_mode@.len() > 0) {
        assert(before_at(
            d,
            1,
            3,
            Atom::Badge(uppered(model.daemon_state->0.pressure.overall@)),
            Atom::Badge(uppered(model.daemon_state->0.policy_mode@)),
        ));
        assert(before_at(
            d,
            3,
            5,
            Atom::Badge(uppered(model.daemon_state->0.policy_mode@)),
            Atom::Progress(model.tick),
        ));
    }
    if model.daemon_state is Some && (model.daemon_state->0.pressure.overall@ != "green"@) && (!(model.daemon_state->0.policy_mode@.len() > 0)) {
        assert(before_at(
            d,
            1,
            3,
            Atom::Badge(uppered(model.daemon_state->0.pressure.overall@)),
            Atom::Progress(model.tick),
        ));
    }
    if model.daemon_state is Some && (!(model.daemon_state->0.pressure.overall@ != "green"@)) && (model.daemon_state->0.policy_mode@.len() > 0) {
        assert(before_at(
            d,
            1,
            3,
            Atom::Badge(uppered(model.daemon_state->0.pressure.overall@)),
            Atom::Badge(uppered(model.daemon_state->0.policy_mode@)),
        ));
    }
}

/// Styled pressure pane: its parts stand in it.
pub proof fn law_styled_pressure_parts(model: DashboardModel, pane_width: u16)
    ensures
        ({
            let d = styled_pressure_of(model, pane_width);
            &&& model.daemon_state is Some ==> reads(
                d,
                styled_mounts_of(
                    model.daemon_state->0,
                    pane_width,
                    0,
                    model.daemon_state->0.pressure.mounts@.len() as int,
                ),
            )
            &&& model.daemon_state is None ==> reads(
                d,
                bare(in_lines(pressure_summary(model, pane_width))),
            )
        }),
{
    broadcast use crate::markup::group_reads;

}

/// The styled forecast for one mount: each label is followed by the figure that it names.
pub proof fn law_styled_mount_forecast_figures(mount: MountPressure)
    ensures
        ({
            let d = styled_mount_forecast(mount);
            &&& labels(d, "forecast "@, Atom::Badge(uppered(mount.level@)))
            &&& labels(d, "  worst="@, Atom::Text(mount.path@))
            &&& labels(d, "  free="@, Atom::Fixed { value: mount.free_pct, decimals: 1 })
        }),
{
    broadcast use crate::markup::group_labels;

}

/// The styled forecast for one mount: its figures stand in the order of their columns.
pub proof fn law_styled_mount_forecast_order(mount: MountPressure)
    ensures
        ({
            let d = styled_mount_forecast(mount);
            &&& has_eta_of(mount) ==> before(
                d,
                Atom::Fixed { value: mount.free_pct, decimals: 1 },
                Atom::Eta { free_pct: mount.free_pct, rate: mount.rate_bps->0 },
            )
        }),
{
    let d = styled_mount_forecast(mount);
    if has_eta_of(mount) {
        assert(before_at(
            d,
            7,
            10,
            Atom::Fixed { value: mount.free_pct, decimals: 1 },
            Atom::Eta { free_pct: mount.free_pct, rate: mount.rate_bps->0 },
        ));
    }
}

/// Styled forecast pane: its parts stand in it.
pub proof fn law_styled_forecast_parts(model: DashboardModel)
    ensures
        ({
            let d = styled_forecast_of(model);
            &&& model.daemon_state is Some && (model.daemon_state->0.pressure.mounts@.len() > 0) ==> reads(
                d,
                styled_mount_forecast(
                    model.daemon_state->0.pressure.mounts@[worst_mount_of(model.daemon_state->0.pressure.mounts@)],
                ),
            )
        }),
{
    broadcast use crate::markup::group_reads;

}

/// One styled mount of the trend lattice: its figures stand in the order of their columns.
pub proof fn law_styled_trend_row_order(entry: RateEntry)
    ensures
        ({
            let d = styled_trend_row(entry);
            &&& before(
                d,
                Atom::Text(padded_right(entry.mount@, 14)),
                Atom::Spark { samples: entry.history@, colored: true },
            )
            &&& before(
                d,
                Atom::Spark { samples: entry.history@, colored: true },
                Atom::Rate((latest_of(entry.history))),
            )
            &&& before(
                d,
                Atom::Rate((latest_of(entry.history))),
                Atom::Trend((latest_of(entry.history))),
            )
        }),
{
    let d = styled_trend_row(entry);
    if (latest_of(entry.history)).gt(Double { bits: ALERT_RATE }) {
        assert(before_at(
            d,
            1,
            3,
            Atom::Text(padded_right(entry.mount@, 14)),
            Atom::Spark { samples: entry.history@, colored: true },
        ));
        assert(before_at(
            d,
            3,
            5,
            Atom::Spark { samples: entry.history@, colored: true },
            Atom::Rate((latest_of(entry.history))),
        ));
        assert(before_at(
            d,
            5,
            7,
            Atom::Rate((latest_of(entry.history))),
            Atom::Trend((latest_of(entry.history))),
        ));
    }
    if !((latest_of(entry.history)).gt(Double { bits: ALERT_RATE })) {
        assert(before_at(
            d,
            1,
            3,
            Atom::Text(padded_right(entry.mount@, 14)),
            Atom::Spark { samples: entry.history@, colored: true },
        ));
        assert(before_at(
            d,
            3,
            5,
            Atom::Spark { samples: entry.history@, colored: true },
            Atom::Rate((latest_of(entry.history))),
        ));
        assert(before_at(
            d,
            5,
            7,
            Atom::Rate((latest_of(entry.history))),
            Atom::Trend((latest_of(entry.history))),
        ));
    }
}

/// Styled rows of the trend lattice: one row follows another, and each shows its own item.
pub proof fn law_styled_trend_rows_row_by_row(entries: Seq<RateEntry>, from: int, mid: int, to: int)
    requires
        from <= mid <= to,
    ensures
        styled_trend_rows_of(entries, from, to)
            == styled_trend_rows_of(entries, from, mid) + styled_trend_rows_of(entries, mid, to),
        styled_trend_rows_of(entries, mid, mid + 1) == styled_trend_row(entries[mid]),
    decreases to - mid,
{
    assert(styled_trend_rows_of(entries, mid, mid) =~= seq![]);
    assert(styled_trend_rows_of(entries, mid, mid + 1) =~= styled_trend_row(entries[mid]));
    if mid < to {
        law_styled_trend_rows_row_by_row(entries, from, mid, to - 1);
        assert(styled_trend_rows_of(entries, from, to)
            =~= styled_trend_rows_of(entries, from, mid) + styled_trend_rows_of(entries, mid, to));
    } else {
        assert(styled_trend_rows_of(entries, from, to)
            =~= styled_trend_rows_of(entries, from, mid) + styled_trend_rows_of(entries, mid, to));
    }
}

/// Styled trend pane: each label is followed by the figure that it names.
pub proof fn law_styled_trend_figures(model: DashboardModel)
    ensures
        ({
            let d = styled_trend_of(model);
            &&& (!(model.rate_histories.entries@.len() == 0)) ==> labels(
                d,
                "ewma "@,
                Atom::Text(dec(model.rate_histories.entries@.len() as nat)),
            )
        }),
{
    broadcast use crate::markup::group_labels;

}

/// Styled trend pane: its parts stand in it.
pub proof fn law_styled_trend_parts(model: DashboardModel)
    ensures
        ({
            let d = styled_trend_of(model);
            &&& (!(model.rate_histories.entries@.len() == 0)) ==> reads(
                d,
                styled_trend_rows_of(
                    model.rate_histories.entries@,
                    0,
                    model.rate_histories.entries@.len() as int,
                ),
            )
        }),
{
    broadcast use crate::markup::group_reads;

}

/// Styled decision pane: each label is followed by the figure that it names.
pub proof fn law_styled_pulse_figures(model: DashboardModel)
    ensures
        ({
            let d = styled_pulse_of(model);
            &&& (!(model.explainability_decisions@.len() == 0)) ==> labels(
                d,
                "decision-pulse "@,
                Atom::Badge(pulse_word_of(vetoed_of(model.explainability_decisions@) as int)),
            )
            &&& (!(model.explainability_decisions@.len() == 0)) ==> labels(
                d,
                "  decisions="@,
                Atom::Badge(dec(model.explainability_decisions@.len() as nat)),
            )
            &&& (!(model.explainability_decisions@.len() == 0)) ==> labels(
                d,
                "  vetoed="@,
                Atom::Badge(dec(vetoed_of(model.explainability_decisions@) as nat)),
            )
            &&& (!(model.explainability_decisions@.len() == 0)) ==> labels(
                d,
                "  avg="@,
                Atom::Mean { values: scores_of(model.explainability_decisions@), decimals: 2 },
            )
        }),
{
    broadcast use crate::markup::group_labels;

}

/// One styled candidate of the hotlist: each label is followed by the figure that it names.
pub proof fn law_styled_hotlist_row_figures(
    decision: DecisionEvidence,
    number: nat,
    selected: bool,
    pane_width: u16,
)
    ensures
        ({
            let d = styled_hotlist_row(decision, number, selected, pane_width);
            &&& selected ==> labels(d, "\u{25B8} "@, Atom::Text(padded_left(dec(number), 2)))
        }),
{
    broadcast use crate::markup::group_labels;

}

/// One styled candidate of the hotlist: its figures stand in the order of their columns.
pub proof fn law_styled_hotlist_row_order(
    decision: DecisionEvidence,
    number: nat,
    selected: bool,
    pane_width: u16,
)
    ensures
        ({
            let d = styled_hotlist_row(decision, number, selected, pane_width);
            &&& before(
                d,
                Atom::Text(padded_left(dec(number), 2)),
                Atom::MiniBar(decision.total_score),
            )
            &&& before(
                d,
                Atom::MiniBar(decision.total_score),
                Atom::Fixed { value: decision.total_score, decimals: 2 },
            )
            &&& before(
                d,
                Atom::Fixed { value: decision.total_score, decimals: 2 },
                Atom::Badge(heat_word_of(decision.total_score)),
            )
            &&& before(
                d,
                Atom::Badge(heat_word_of(decision.total_score)),
                Atom::Bytes(decision.size_bytes),
            )
            &&& before(
                d,
                Atom::Bytes(decision.size_bytes),
                Atom::Text(shortened(decision.path@, path_column_of(pane_width, 36, 12, 46) as nat)),
            )
        }),
{
    let d = styled_hotlist_row(decision, number, selected, pane_width);
    if decision.vetoed && selected {
        assert(before_at(
            d,
            1,
            4,
            Atom::Text(padded_left(dec(number), 2)),
            Atom::MiniBar(decision.total_score),
        ));
        assert(before_at(
            d,
            4,
            6,
            Atom::MiniBar(decision.total_score),
            Atom::Fixed { value: decision.total_score, decimals: 2 },
        ));
        assert(before_at(
            d,
            6,
            8,
            Atom::Fixed { value: decision.total_score, decimals: 2 },
            Atom::Badge(heat_word_of(decision.total_score)),
        ));
        assert(before_at(
            d,
            8,
            10,
            Atom::Badge(heat_word_of(decision.total_score)),
            Atom::Bytes(decision.size_bytes),
        ));
        assert(before_at(
            d,
            10,
            12,
            Atom::Bytes(decision.size_bytes),
            Atom::Text(shortened(decision.path@, path_column_of(pane_width, 36, 12, 46) as nat)),
        ));
    }
    if decision.vetoed && !(selected) {
        assert(before_at(
            d,
            1,
            4,
            Atom::Text(padded_left(dec(number), 2)),
            Atom::MiniBar(decision.total_score),
        ));
        assert(before_at(
            d,
            4,
            6,
            Atom::MiniBar(decision.total_score),
            Atom::Fixed { value: decision.total_score, decimals: 2 },
        ));
        assert(before_at(
            d,
            6,
            8,
            Atom::Fixed { value: decision.total_score, decimals: 2 },
            Atom::Badge(heat_word_of(decision.total_score)),
        ));
        assert(before_at(
            d,
            8,
            10,
            Atom::Badge(heat_word_of(decision.total_score)),
            Atom::Bytes(decision.size_bytes),
        ));
        assert(before_at(
            d,
            10,
            12,
            Atom::Bytes(decision.size_bytes),
            Atom::Text(shortened(decision.path@, path_column_of(pane_width, 36, 12, 46) as nat)),
        ));
    }
    if !(decision.vetoed) && selected {
        assert(before_at(
            d,
            1,
            4,
            Atom::Text(padded_left(dec(number), 2)),
            Atom::MiniBar(decision.total_score),
        ));
        assert(before_at(
            d,
            4,
            6,
            Atom::MiniBar(decision.total_score),
            Atom::Fixed { value: decision.total_score, decimals: 2 },
        ));
        assert(before_at(
            d,
            6,
            8,
            Atom::Fixed { value: decision.total_score, decimals: 2 },
            Atom::Badge(heat_word_of(decision.total_score)),
        ));
        assert(before_at(
            d,
            8,
            10,
            Atom::Badge(heat_word_of(decision.total_score)),
            Atom::Bytes(decision.size_bytes),
        ));
        assert(before_at(
            d,
            10,
            12,
            Atom::Bytes(decision.size_bytes),
            Atom::Text(shortened(decision.path@, path_column_of(pane_width, 36, 12, 46) as nat)),
        ));
    }
    if !(decision.vetoed) && !(selected) {
        assert(before_at(
            d,
            1,
            4,
            Atom::Text(padded_left(dec(number), 2)),
            Atom::MiniBar(decision.total_score),
        ));
        assert(before_at(
            d,
            4,
            6,
            Atom::MiniBar(decision.total_score),
            Atom::Fixed { value: decision.total_score, decimals: 2 },
        ));
        assert(before_at(
            d,
            6,
            8,
            Atom::Fixed { value: decision.total_score, decimals: 2 },
            Atom::Badge(heat_word_of(decision.total_score)),
        ));
        assert(before_at(
            d,
            8,
            10,
            Atom::Badge(heat_word_of(decision.total_score)),
            Atom::Bytes(decision.size_bytes),
        ));
        assert(before_at(
            d,
            10,
            12,
            Atom::Bytes(decision.size_bytes),
            Atom::Text(shortened(decision.path@, path_column_of(pane_width, 36, 12, 46) as nat)),
        ));
    }
}

/// Styled rows of the hotlist: one row follows another, and each shows its own item.
pub proof fn law_styled_hotlist_rows_row_by_row(
    candidates: Seq<DecisionEvidence>,
    selected: usize,
    pane_width: u16,
    from: int,
    mid: int,
    to: int,
)
    requires
        from <= mid <= to,
    ensures
        styled_hotlist_rows_of(candidates, selected, pane_width, from, to)
            == styled_hotlist_rows_of(candidates, selected, pane_width, from, mid) + styled_hotlist_rows_of(candidates, selected, pane_width, mid, to),
        styled_hotlist_rows_of(candidates, selected, pane_width, mid, mid + 1)
            == styled_hotlist_row(candidates[mid], (mid + 1) as nat, mid == selected, pane_width),
    decreases to - mid,
{
    assert(styled_hotlist_rows_of(candidates, selected, pane_width, mid, mid) =~= seq![]);
    assert(styled_hotlist_rows_of(candidates, selected, pane_width, mid, mid + 1)
        =~= styled_hotlist_row(candidates[mid], (mid + 1) as nat, mid == selected, pane_width));
    if mid < to {
        law_styled_hotlist_rows_row_by_row(candidates, selected, pane_width, from, mid, to - 1);
        assert(styled_hotlist_rows_of(candidates, selected, pane_width, from, to)
            =~= styled_hotlist_rows_of(candidates, selected, pane_width, from, mid) + styled_hotlist_rows_of(candidates, selected, pane_width, mid, to));
    } else {
        assert(styled_hotlist_rows_of(candidates, selected, pane_width, from, to)
            =~= styled_hotlist_rows_of(candidates, selected, pane_width, from, mid) + styled_hotlist_rows_of(candidates, selected, pane_width, mid, to));
    }
}

/// Styled candidate pane: each label is followed by the figure that it names.
pub proof fn law_styled_hotlist_figures(model: DashboardModel, pane_width: u16)
    ensures
        ({
            let d = styled_hotlist_of(model, pane_width);
            &&& (!(model.candidates_list@.len() == 0)) ==> labels(
                d,
                "hotlist total="@,
                Atom::Text(dec(model.candidates_list@.len() as nat)),
            )
        }),
{
    broadcast use crate::markup::group_labels;

}

/// Styled candidate pane: its parts stand in it.
pub proof fn law_styled_hotlist_parts(model: DashboardModel, pane_width: u16)
    ensures
        ({
            let d = styled_hotlist_of(model, pane_width);
            &&& (!(model.candidates_list@.len() == 0)) ==> reads(
                d,
                styled_hotlist_rows_of(
                    model.candidates_list@,
                    model.candidates_selected,
                    pane_width,
                    0,
                    hotlist_len_of(model.candidates_list@),
                ),
            )
        }),
{
    broadcast use crate::markup::group_reads;

}

/// Styled ballast pane: each label is followed by the figure that it names.
pub proof fn law_styled_fleet_figures(model: DashboardModel)
    ensures
        ({
            let d = styled_fleet_of(model);
            &&& model.daemon_state is Some ==> labels(
                d,
                "ballast "@,
                Atom::Badge(fleet_word_of(model.daemon_state->0.ballast.available, model.daemon_state->0.ballast.total)),
            )
            &&& model.daemon_state is Some ==> labels(
                d,
                "  available="@,
                Atom::Text(dec(model.daemon_state->0.ballast.available as nat)),
            )
            &&& model.daemon_state is Some ==> labels(
                d,
                "/"@,
                Atom::Text(dec(model.daemon_state->0.ballast.total as nat)),
            )
            &&& model.daemon_state is Some ==> labels(
                d,
                " released="@,
                Atom::Text(dec(model.daemon_state->0.ballast.released as nat)),
            )
            &&& model.daemon_state is None ==> labels(d, "ballast "@, Atom::Badge("UNKNOWN"@))
        }),
{
    broadcast use crate::markup::group_labels;

}

/// Styled ballast pane: its figures stand in the order of their columns.
pub proof fn law_styled_fleet_order(model: DashboardModel)
    ensures
        ({
            let d = styled_fleet_of(model);
            &&& model.daemon_state is Some ==> before(
                d,
                Atom::Text(dec(model.daemon_state->0.ballast.released as nat)),
                Atom::Gauge { of: Gauge::Rest { part: model.daemon_state->0.ballast.available, whole: model.daemon_state->0.ballast.total }, width: 20, segmented: true, },
            )
        }),
{
    let d = styled_fleet_of(model);
    if model.daemon_state is Some {
        assert(before_at(
            d,
            8,
            11,
            Atom::Text(dec(model.daemon_state->0.ballast.released as nat)),
            Atom::Gauge { of: Gauge::Rest { part: model.daemon_state->0.ballast.available, whole: model.daemon_state->0.ballast.total }, width: 20, segmented: true, },
        ));
    }
}

/// Styled action pane: each label is followed by the figure that it names.
pub proof fn law_styled_actions_figures(model: DashboardModel)
    ensures
        ({
            let d = styled_actions_of(model);
            &&& model.daemon_state is Some ==> labels(
                d,
                "scans="@,
                Atom::Text(dec(model.daemon_state->0.counters.scans as nat)),
            )
            &&& model.daemon_state is Some ==> labels(
                d,
                " deleted="@,
                Atom::Text(dec(model.daemon_state->0.counters.deletions as nat)),
            )
            &&& model.daemon_state is Some ==> labels(
                d,
                " freed="@,
                Atom::Bytes(model.daemon_state->0.counters.bytes_freed),
            )
            &&& model.daemon_state is Some ==> labels(
                d,
                "  candidates="@,
                Atom::Text(dec(model.daemon_state->0.last_scan.candidates as nat)),
            )
            &&& model.daemon_state is Some ==> labels(
                d,
                " deleted="@,
                Atom::Text(dec(model.daemon_state->0.last_scan.deleted as nat)),
            )
        }),
{
    broadcast use crate::markup::group_labels;

}

/// Styled action pane: its figures stand in the order of their columns.
pub proof fn law_styled_actions_order(model: DashboardModel)
    ensures
        ({
            let d = styled_actions_of(model);
            &&& model.daemon_state is Some && (model.daemon_state->0.last_scan.at is Some) ==> before(
                d,
                Atom::Bytes(model.daemon_state->0.counters.bytes_freed),
                Atom::Clock(model.daemon_state->0.last_scan.at->0@),
            )
            &&& model.daemon_state is Some && (model.daemon_state->0.last_scan.at is Some) ==> before(
                d,
                Atom::Clock(model.daemon_state->0.last_scan.at->0@),
                Atom::Text(dec(model.daemon_state->0.last_scan.candidates as nat)),
            )
        }),
{
    let d = styled_actions_of(model);
    if model.daemon_state is Some && (model.daemon_state->0.last_scan.at is Some) {
        assert(before_at(
            d,
            6,
            9,
            Atom::Bytes(model.daemon_state->0.counters.bytes_freed),
            Atom::Clock(model.daemon_state->0.last_scan.at->0@),
        ));
        assert(before_at(
            d,
            9,
            11,
            Atom::Clock(model.daemon_state->0.last_scan.at->0@),
            Atom::Text(dec(model.daemon_state->0.last_scan.candidates as nat)),
        ));
    }
}

/// Styled locations pane: each label is followed by the figure that it names.
pub proof fn law_styled_locations_figures(model: DashboardModel)
    ensures
        ({
            let d = styled_locations_of(model);
            &&& (!(model.timeline_events@.len() == 0)) ==> labels(
                d,
                "special-locations "@,
                Atom::Badge(watch_word_of(criticals_of(model.timeline_events@) as int)),
            )
            &&& (!(model.timeline_events@.len() == 0)) ==> labels(
                d,
                "  /tmp="@,
                Atom::Text(dec(path_hits_of(model.timeline_events@, "/tmp"@) as nat)),
            )
            &&& (!(model.timeline_events@.len() == 0)) ==> labels(
                d,
                "  /data/tmp="@,
                Atom::Text(dec(path_hits_of(model.timeline_events@, "/data/tmp"@) as nat)),
            )
            &&& (!(model.timeline_events@.len() == 0)) ==> labels(
                d,
                "  critical="@,
                Atom::Text(dec(criticals_of(model.timeline_events@) as nat)),
            )
        }),
{
    broadcast use crate::markup::group_labels;

}

/// Styled counters pane: each label is followed by the figure that it names.
pub proof fn law_styled_counters_figures(model: DashboardModel)
    ensures
        ({
            let d = styled_counters_of(model);
            &&& model.daemon_state is Some && (model.daemon_state->0.counters.dropped_log_events > 0) ==> labels(
                d,
                "="@,
                Atom::Text(dec(model.daemon_state->0.counters.dropped_log_events as nat)),
            )
            &&& model.daemon_state is Some ==> labels(
                d,
                "scans="@,
                Atom::Text(dec(model.daemon_state->0.counters.scans as nat)),
            )
            &&& model.daemon_state is Some ==> labels(
                d,
                " del="@,
                Atom::Text(dec(model.daemon_state->0.counters.deletions as nat)),
            )
            &&& model.daemon_state is Some ==> labels(
                d,
                " err="@,
                Atom::Text(dec(model.daemon_state->0.counters.errors as nat)),
            )
            &&& model.daemon_state is Some ==> labels(
                d,
                "  freed="@,
                Atom::Bytes(model.daemon_state->0.counters.bytes_freed),
            )
            &&& model.daemon_state is Some ==> labels(
                d,
                " rss="@,
                Atom::Bytes(model.daemon_state->0.memory_rss_bytes),
            )
            &&& model.daemon_state is Some ==> labels(
                d,
                " up="@,
                Atom::Duration(model.daemon_state->0.uptime_seconds),
            )
            &&& model.daemon_state is Some ==> labels(
                d,
                "  pid="@,
                Atom::Text(dec(model.daemon_state->0.pid as nat)),
            )
            &&& model.daemon_state is Some ==> labels(
                d,
                " policy="@,
                Atom::Text(policy_text_of(model.daemon_state->0.policy_mode@)),
            )
            &&& model.daemon_state is Some ==> labels(
                d,
                " adapter(r/e)="@,
                Atom::Text(dec(model.adapter_reads as nat)),
            )
            &&& labels(d, "/"@, Atom::Text(dec(model.adapter_errors as nat)))
            &&& model.daemon_state is None ==> labels(
                d,
                "  adapters(r/e)="@,
                Atom::Text(dec(model.adapter_reads as nat)),
            )
        }),
{
    broadcast use crate::markup::group_labels;

}

/// Styled counters pane: its figures stand in the order of their columns.
pub proof fn law_styled_counters_order(model: DashboardModel)
    ensures
        ({
            let d = styled_counters_of(model);
            &&& model.daemon_state is Some && (model.daemon_state->0.counters.dropped_log_events > 0) ==> before(
                d,
                Atom::Badge("DROPPED"@),
                Atom::Text(dec(model.daemon_state->0.counters.dropped_log_events as nat)),
            )
        }),
{
    let d = styled_counters_of(model);
    if model.daemon_state is Some && (model.daemon_state->0.counters.dropped_log_events > 0) {
        assert(before_at(
            d,
            1,
            3,
            Atom::Badge("DROPPED"@),
            Atom::Text(dec(model.daemon_state->0.counters.dropped_log_events as nat)),
        ));
    }
}

/// Styled content of an overview pane: its parts stand in it.
pub proof fn law_styled_pane_lines_parts(model: DashboardModel, pane: OverviewPane, pane_width: u16)
    ensures
        ({
            let d = styled_pane_lines(model, pane, pane_width);
            &&& (pane == OverviewPane::PressureSummary) ==> reads(
                d,
                styled_pressure_of(model, pane_width),
            )
            &&& (pane == OverviewPane::ForecastHorizon) ==> reads(d, styled_forecast_of(model))
            &&& (pane == OverviewPane::ActionLane) ==> reads(d, styled_actions_of(model))
            &&& (pane == OverviewPane::EwmaTrend) ==> reads(d, styled_trend_of(model))
            &&& (pane == OverviewPane::DecisionPulse) ==> reads(d, styled_pulse_of(model))
            &&& (pane == OverviewPane::CandidateHotlist) ==> reads(
                d,
                styled_hotlist_of(model, pane_width),
            )
            &&& (pane == OverviewPane::BallastQuick) ==> reads(d, styled_fleet_of(model))
            &&& (pane == OverviewPane::SpecialLocations) ==> reads(d, styled_locations_of(model))
            &&& (pane == OverviewPane::ExtendedCounters) ==> reads(d, styled_counters_of(model))
        }),
{
    broadcast use crate::markup::group_reads;

    reveal(styled_pane_lines);
}

/// Styled content of an overview pane, with the screen it opens where asked for: each
/// label is followed by the figure that it names.
pub proof fn law_styled_pane_figures(
    model: DashboardModel,
    pane: OverviewPane,
    pane_width: u16,
    show_target: bool,
)
    ensures
        ({
            let d = styled_pane(model, pane, pane_width, show_target);
            &&& show_target ==> labels(d, "Enter/Space opens "@, Atom::Text(pane_target(pane)))
        }),
{
    broadcast use crate::markup::group_labels;

}

/// Styled content of an overview pane, with the screen it opens where asked for: its
/// parts stand in it.
pub proof fn law_styled_pane_parts(
    model: DashboardModel,
    pane: OverviewPane,
    pane_width: u16,
    show_target: bool,
)
    ensures
        ({
            let d = styled_pane(model, pane, pane_width, show_target);
            &&& reads(d, styled_pane_lines(model, pane, pane_width))
        }),
{
    broadcast use crate::markup::group_reads;

}

/// One mount of the pressure matrix: each case shows what belongs to it and no more.
pub proof fn law_mount_row_shows_no_more(mount: MountPressure, pane_width: u16)
    ensures
        ({
            let d = mount_row(mount, pane_width);
            &&& (consumes_of(mount.rate_bps) && mount.free_pct.gt(Double { bits: ZERO })) && mount.rate_bps is Some ==> d.len()
                == 12
            &&& (consumes_of(mount.rate_bps) && mount.free_pct.gt(Double { bits: ZERO })) && mount.rate_bps is None ==> d.len()
                == 12
            &&& (!(consumes_of(mount.rate_bps) && mount.free_pct.gt(Double { bits: ZERO }))) && mount.rate_bps is Some ==> d.len()
                == 11
            &&& (!(consumes_of(mount.rate_bps) && mount.free_pct.gt(Double { bits: ZERO }))) && mount.rate_bps is None ==> d.len()
                == 11
        }),
{
}

/// Pressure of the machine and of each mount: each case shows what belongs to it and no more.
pub proof fn law_pressure_matrix_shows_no_more(state: DaemonState, pane_width: u16)
    ensures
        ({
            let d = pressure_matrix(state, pane_width);
            &&& (state.policy_mode@.len() > 0) ==> d.len()
                == 12 + mount_rows_of(state, pane_width, 0, state.pressure.mounts@.len() as int).len()
            &&& (!(state.policy_mode@.len() > 0)) ==> d.len()
                == 10 + mount_rows_of(state, pane_width, 0, state.pressure.mounts@.len() as int).len()
        }),
{
}

/// Pressure pane: the matrix of mounts, the watched paths while degraded, or that
/// nothing is known: each case shows what belongs to it and no more.
pub proof fn law_pressure_summary_shows_no_more(model: DashboardModel, pane_width: u16)
    ensures
        ({
            let d = pressure_summary(model, pane_width);
            &&& model.daemon_state is Some ==> d.len()
                == pressure_matrix(model.daemon_state->0, pane_width).len()
            &&& model.daemon_state is None && (model.degraded && model.monitor_paths@.len() > 0) ==> d.len()
                == 4 + watched_paths_of(model.monitor_paths@, 0, model.monitor_paths@.len() as int).len()
            &&& model.daemon_state is None && (!(model.degraded && model.monitor_paths@.len() > 0)) ==> d.len()
                == 3
        }),
{
}

/// Action pane: what the daemon has done: each case shows what belongs to it and no more.
pub proof fn law_action_lane_shows_no_more(model: DashboardModel)
    ensures
        ({
            let d = action_lane(model);
            &&& model.daemon_state is Some ==> d.len() == 6
            &&& model.daemon_state is None ==> d.len() == 1
        }),
{
}

/// Forecast pane: when the worst mount is full: each case shows what belongs to it and no more.
pub proof fn law_forecast_horizon_shows_no_more(model: DashboardModel)
    ensures
        ({
            let d = forecast_horizon(model);
            &&& model.daemon_state is Some && (model.daemon_state->0.pressure.mounts@.len() > 0) ==> d.len()
                == mount_forecast(model.daemon_state->0.pressure.mounts@[worst_mount_of(model.daemon_state->0.pressure.mounts@)]).len()
            &&& model.daemon_state is Some && (!(model.daemon_state->0.pressure.mounts@.len() > 0)) ==> d.len()
                == 1
            &&& model.daemon_state is None ==> d.len() == 1
        }),
{
}

/// One mount of the trend lattice: each case shows what belongs to it and no more.
pub proof fn law_trend_row_shows_no_more(entry: RateEntry)
    ensures
        ({
            let d = trend_row(entry);
            &&& (latest_of(entry.history)).gt(Double { bits: ALERT_RATE }) ==> d.len() == 10
            &&& !((latest_of(entry.history)).gt(Double { bits: ALERT_RATE })) ==> d.len() == 9
        }),
{
}

/// Trend pane: the recent rates of each mount: each case shows what belongs to it and no more.
pub proof fn law_ewma_trend_shows_no_more(model: DashboardModel)
    ensures
        ({
            let d = ewma_trend(model);
            &&& (model.rate_histories.entries@.len() == 0) ==> d.len() == 1
            &&& (!(model.rate_histories.entries@.len()
                == 0)) ==> d.len() == 3 + trend_rows_of(model.rate_histories.entries@, 0, model.rate_histories.entries@.len() as int).len()
        }),
{
}

/// What the last scan did: each case shows what belongs to it and no more.
pub proof fn law_recent_activity_shows_no_more(model: DashboardModel)
    ensures
        ({
            let d = recent_activity(model);
            &&& model.daemon_state is Some && (model.daemon_state->0.last_scan.at is Some) ==> d.len()
                == 8
            &&& model.daemon_state is Some && (model.daemon_state->0.last_scan.at is None) ==> d.len()
                == 8
            &&& model.daemon_state is None ==> d.len() == 1
        }),
{
}

/// Decision pane: the decisions so far and the last scan: each case shows what belongs
/// to it and no more.
pub proof fn law_decision_pulse_shows_no_more(model: DashboardModel)
    ensures
        ({
            let d = decision_pulse(model);
            &&& (model.explainability_decisions@.len()
                == 0) ==> d.len() == 3 + recent_activity(model).len()
            &&& (!(model.explainability_decisions@.len()
                == 0)) ==> d.len() == 10 + recent_activity(model).len()
        }),
{
}

/// One candidate of the hotlist: each case shows what belongs to it and no more.
pub proof fn law_hotlist_row_shows_no_more(
    decision: DecisionEvidence,
    number: nat,
    selected: bool,
    pane_width: u16,
)
    ensures
        ({
            let d = hotlist_row(decision, number, selected, pane_width);
            &&& decision.vetoed ==> d.len() == 15
            &&& !(decision.vetoed) ==> d.len() == 14
        }),
{
}

/// Candidate pane: the first candidates of the ranking: each case shows what belongs to
/// it and no more.
pub proof fn law_candidate_hotlist_shows_no_more(model: DashboardModel, pane_width: u16)
    ensures
        ({
            let d = candidate_hotlist(model, pane_width);
            &&& (model.candidates_list@.len() == 0) ==> d.len() == 1
            &&& (!(model.candidates_list@.len()
                == 0)) ==> d.len() == 6 + hotlist_rows_of(model.candidates_list@, model.candidates_selected, pane_width, 0, hotlist_len_of(model.candidates_list@)).len()
        }),
{
}

/// Locations pane: events on temporary directories: each case shows what belongs to it and no more.
pub proof fn law_special_locations_shows_no_more(model: DashboardModel)
    ensures
        ({
            let d = special_locations(model);
            &&& (model.timeline_events@.len() == 0) ==> d.len() == 1
            &&& (!(model.timeline_events@.len() == 0)) ==> d.len() == 8
        }),
{
}

/// Ballast pane: how much ballast is left: each case shows what belongs to it and no more.
pub proof fn law_ballast_quick_shows_no_more(model: DashboardModel)
    ensures
        ({
            let d = ballast_quick(model);
            &&& model.daemon_state is Some ==> d.len() == 8
            &&& model.daemon_state is None ==> d.len() == 3
        }),
{
}

/// Counters pane: the daemon process and its counters: each case shows what belongs to
/// it and no more.
pub proof fn law_extended_counters_shows_no_more(model: DashboardModel)
    ensures
        ({
            let d = extended_counters(model);
            &&& model.daemon_state is Some && (model.daemon_state->0.counters.dropped_log_events > 0) ==> d.len()
                == 25
            &&& model.daemon_state is Some && (!(model.daemon_state->0.counters.dropped_log_events > 0)) ==> d.len()
                == 24
            &&& model.daemon_state is None ==> d.len() == 6
        }),
{
}

/// A visible pane under its header, later lines indented: each case shows what belongs
/// to it and no more.
pub proof fn law_overview_section_shows_no_more(model: DashboardModel, placement: PanePlacement)
    ensures
        ({
            let d = overview_section(model, placement);
            &&& placement.visible ==> d.len()
                == 14 + indented(pane_content(model, placement.pane, placement.rect.width)).len()
            &&& !(placement.visible) ==> d.len() == 0
        }),
{
    reveal(overview_section);
}

/// One styled mount of the pressure matrix: each case shows what belongs to it and no more.
pub proof fn law_styled_mount_shows_no_more(mount: MountPressure, pane_width: u16)
    ensures
        ({
            let d = styled_mount_of(mount, pane_width);
            &&& mount.rate_bps is Some && (mount.rate_bps->0.gt(Double { bits: ZERO })) ==> d.len()
                == 8
            &&& mount.rate_bps is Some && (!(mount.rate_bps->0.gt(Double { bits: ZERO }))) ==> d.len()
                == 7
            &&& mount.rate_bps is None ==> d.len() == 5
        }),
{
}

/// Styled pressure pane: each case shows what belongs to it and no more.
pub proof fn law_styled_pressure_shows_no_more(model: DashboardModel, pane_width: u16)
    ensures
        ({
            let d = styled_pressure_of(model, pane_width);
            &&& model.daemon_state is Some && (model.daemon_state->0.pressure.overall@ != "green"@) && (model.daemon_state->0.policy_mode@.len() > 0) ==> d.len()
                == 7 + styled_mounts_of(model.daemon_state->0, pane_width, 0, model.daemon_state->0.pressure.mounts@.len() as int).len()
            &&& model.daemon_state is Some && (model.daemon_state->0.pressure.overall@ != "green"@) && (!(model.daemon_state->0.policy_mode@.len() > 0)) ==> d.len()
                == 5 + styled_mounts_of(model.daemon_state->0, pane_width, 0, model.daemon_state->0.pressure.mounts@.len() as int).len()
            &&& model.daemon_state is Some && (!(model.daemon_state->0.pressure.overall@ != "green"@)) && (model.daemon_state->0.policy_mode@.len() > 0) ==> d.len()
                == 5 + styled_mounts_of(model.daemon_state->0, pane_width, 0, model.daemon_state->0.pressure.mounts@.len() as int).len()
            &&& model.daemon_state is Some && (!(model.daemon_state->0.pressure.overall@ != "green"@)) && (!(model.daemon_state->0.policy_mode@.len() > 0)) ==> d.len()
                == 3 + styled_mounts_of(model.daemon_state->0, pane_width, 0, model.daemon_state->0.pressure.mounts@.len() as int).len()
            &&& model.daemon_state is None ==> d.len()
                == 1 + bare(in_lines(pressure_summary(model, pane_width))).len()
        }),
{
}

/// Styled forecast pane: each case shows what belongs to it and no more.
pub proof fn law_styled_forecast_shows_no_more(model: DashboardModel)
    ensures
        ({
            let d = styled_forecast_of(model);
            &&& model.daemon_state is Some && (model.daemon_state->0.pressure.mounts@.len() > 0) ==> d.len()
                == styled_mount_forecast(model.daemon_state->0.pressure.mounts@[worst_mount_of(model.daemon_state->0.pressure.mounts@)]).len()
            &&& model.daemon_state is Some && (!(model.daemon_state->0.pressure.mounts@.len() > 0)) ==> d.len()
                == 2
            &&& model.daemon_state is None ==> d.len() == 2
        }),
{
}

/// One styled mount of the trend lattice: each case shows what belongs to it and no more.
pub proof fn law_styled_trend_row_shows_no_more(entry: RateEntry)
    ensures
        ({
            let d = styled_trend_row(entry);
            &&& (latest_of(entry.history)).gt(Double { bits: ALERT_RATE }) ==> d.len() == 10
            &&& !((latest_of(entry.history)).gt(Double { bits: ALERT_RATE })) ==> d.len() == 9
        }),
{
}

/// Styled trend pane: each case shows what belongs to it and no more.
pub proof fn law_styled_trend_shows_no_more(model: DashboardModel)
    ensures
        ({
            let d = styled_trend_of(model);
            &&& (model.rate_histories.entries@.len() == 0) ==> d.len() == 2
            &&& (!(model.rate_histories.entries@.len()
                == 0)) ==> d.len() == 4 + styled_trend_rows_of(model.rate_histories.entries@, 0, model.rate_histories.entries@.len() as int).len()
        }),
{
}

/// Styled decision pane: each case shows what belongs to it and no more.
pub proof fn law_styled_pulse_shows_no_more(model: DashboardModel)
    ensures
        ({
            let d = styled_pulse_of(model);
            &&& (model.explainability_decisions@.len() == 0) ==> d.len() == 2
            &&& (!(model.explainability_decisions@.len() == 0)) ==> d.len() == 10
        }),
{
}

/// One styled candidate of the hotlist: each case shows what belongs to it and no more.
pub proof fn law_styled_hotlist_row_shows_no_more(
    decision: DecisionEvidence,
    number: nat,
    selected: bool,
    pane_width: u16,
)
    ensures
        ({
            let d = styled_hotlist_row(decision, number, selected, pane_width);
            &&& decision.vetoed && selected ==> d.len() == 15
            &&& decision.vetoed && !(selected) ==> d.len() == 15
            &&& !(decision.vetoed) && selected ==> d.len() == 14
            &&& !(decision.vetoed) && !(selected) ==> d.len() == 14
        }),
{
}

/// Styled candidate pane: each case shows what belongs to it and no more.
pub proof fn law_styled_hotlist_shows_no_more(model: DashboardModel, pane_width: u16)
    ensures
        ({
            let d = styled_hotlist_of(model, pane_width);
            &&& (model.candidates_list@.len() == 0) ==> d.len() == 2
            &&& (!(model.candidates_list@.len()
                == 0)) ==> d.len() == 3 + styled_hotlist_rows_of(model.candidates_list@, model.candidates_selected, pane_width, 0, hotlist_len_of(model.candidates_list@)).len()
        }),
{
}

/// Styled ballast pane: each case shows what belongs to it and no more.
pub proof fn law_styled_fleet_shows_no_more(model: DashboardModel)
    ensures
        ({
            let d = styled_fleet_of(model);
            &&& model.daemon_state is Some ==> d.len() == 13
            &&& model.daemon_state is None ==> d.len() == 4
        }),
{
}

/// Styled action pane: each case shows what belongs to it and no more.
pub proof fn law_styled_actions_shows_no_more(model: DashboardModel)
    ensures
        ({
            let d = styled_actions_of(model);
            &&& model.daemon_state is Some && (model.daemon_state->0.last_scan.at is Some) ==> d.len()
                == 15
            &&& model.daemon_state is Some && (model.daemon_state->0.last_scan.at is None) ==> d.len()
                == 15
            &&& model.daemon_state is None ==> d.len() == 2
        }),
{
}

/// Styled locations pane: each case shows what belongs to it and no more.
pub proof fn law_styled_locations_shows_no_more(model: DashboardModel)
    ensures
        ({
            let d = styled_locations_of(model);
            &&& (model.timeline_events@.len() == 0) ==> d.len() == 2
            &&& (!(model.timeline_events@.len() == 0)) ==> d.len() == 10
        }),
{
}

/// Styled counters pane: each case shows what belongs to it and no more.
pub proof fn law_styled_counters_shows_no_more(model: DashboardModel)
    ensures
        ({
            let d = styled_counters_of(model);
            &&& model.daemon_state is Some && (model.daemon_state->0.counters.dropped_log_events > 0) ==> d.len()
                == 28
            &&& model.daemon_state is Some && (!(model.daemon_state->0.counters.dropped_log_events > 0)) ==> d.len()
                == 24
            &&& model.daemon_state is None ==> d.len() == 7
        }),
{
}

/// Styled content of an overview pane, with the screen it opens where asked for: each
/// case shows what belongs to it and no more.
pub proof fn law_styled_pane_shows_no_more(
    model: DashboardModel,
    pane: OverviewPane,
    pane_width: u16,
    show_target: bool,
)
    ensures
        ({
            let d = styled_pane(model, pane, pane_width, show_target);
            &&& show_target ==> d.len() == 4 + styled_pane_lines(model, pane, pane_width).len()
            &&& !(show_target) ==> d.len() == styled_pane_lines(model, pane, pane_width).len()
        }),
{
}

} // verus!
