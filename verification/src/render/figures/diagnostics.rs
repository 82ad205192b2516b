//! What is shown on the diagnostics screen: figures behind
//! their labels, columns in order, and parts in their place.

use vstd::prelude::*;

use crate::markup::Atom;
use crate::markup::before;
use crate::markup::before_at;
use crate::markup::labels;
use crate::markup::reads;
use crate::model::DashboardModel;
use crate::model::filter_label;
use crate::render::common::RenderContext;
use crate::render::common::activity_word_of;
use crate::render::common::color_mode;
use crate::render::common::nav_hint_of;
use crate::render::common::screen_label_of;
use crate::render::common::source_label;
use crate::render::common::spacing_mode;
use crate::render::diagnostics::adapter_word_of;
use crate::render::diagnostics::budget_word_of;
use crate::render::diagnostics::diagnostics_adapters;
use crate::render::diagnostics::diagnostics_body;
use crate::render::diagnostics::diagnostics_dropped;
use crate::render::diagnostics::diagnostics_fetch;
use crate::render::diagnostics::diagnostics_health;
use crate::render::diagnostics::diagnostics_health_pane;
use crate::render::diagnostics::diagnostics_hint;
use crate::render::diagnostics::diagnostics_page;
use crate::render::diagnostics::diagnostics_perf_pane;
use crate::render::diagnostics::diagnostics_policy;
use crate::render::diagnostics::diagnostics_process;
use crate::render::diagnostics::diagnostics_runtime_pane;
use crate::render::diagnostics::diagnostics_state;
use crate::render::diagnostics::diagnostics_terminal;
use crate::render::diagnostics::diagnostics_timing;
use crate::render::diagnostics::diagnostics_verbose_of;
use crate::render::diagnostics::fetch_age_of;
use crate::render::diagnostics::mode_word_of;
use crate::render::diagnostics::runtime_counters_of;
use crate::render::diagnostics::runtime_verbose_of;
use crate::render::diagnostics::source_line;
use crate::render::diagnostics::styled_source_of;
use crate::telemetry::DataSource;
use crate::telemetry::samples;
use crate::text::dec;
use crate::text::padded_right;
use crate::text::uppered;

verus! {

/// One line on a telemetry backend: each label is followed by the figure that it names.
pub proof fn law_source_line_figures(name: Seq<char>, source: DataSource, partial: bool)
    ensures
        ({
            let d = source_line(name, source, partial);
            &&& labels(d, " source="@, Atom::Text(source_label(source)))
        }),
{
    broadcast use crate::markup::group_labels;

}

/// One line on a telemetry backend: its figures stand in the order of their columns.
pub proof fn law_source_line_order(name: Seq<char>, source: DataSource, partial: bool)
    ensures
        ({
            let d = source_line(name, source, partial);
            &&& before(
                d,
                Atom::Text(padded_right(name, 16)),
                Atom::Badge(activity_word_of(source, partial)),
            )
            &&& before(
                d,
                Atom::Badge(activity_word_of(source, partial)),
                Atom::Text(source_label(source)),
            )
        }),
{
    let d = source_line(name, source, partial);
    assert(before_at(
        d,
        1,
        3,
        Atom::Text(padded_right(name, 16)),
        Atom::Badge(activity_word_of(source, partial)),
    ));
    assert(before_at(
        d,
        3,
        5,
        Atom::Badge(activity_word_of(source, partial)),
        Atom::Text(source_label(source)),
    ));
}

/// The policy mode of the daemon, where it is known: each label is followed by the
/// figure that it names.
pub proof fn law_diagnostics_policy_figures(model: DashboardModel)
    ensures
        ({
            let d = diagnostics_policy(model);
            &&& model.daemon_state is Some && (model.daemon_state->0.policy_mode@.len() > 0) ==> labels(
                d,
                "  policy:        "@,
                Atom::Badge(uppered(model.daemon_state->0.policy_mode@)),
            )
        }),
{
    broadcast use crate::markup::group_labels;

}

/// When data last came in: each label is followed by the figure that it names.
pub proof fn law_diagnostics_fetch_figures(model: DashboardModel, ctx: RenderContext)
    ensures
        ({
            let d = diagnostics_fetch(model, ctx);
            &&& labels(d, "  last-fetch:    "@, Atom::Text(fetch_age_of(model.last_fetch, ctx.now)))
            &&& labels(d, "  notifications: "@, Atom::Text(dec(model.notifications@.len() as nat)))
        }),
{
    broadcast use crate::markup::group_labels;

}

/// How many log events were dropped: each label is followed by the figure that it names.
pub proof fn law_diagnostics_dropped_figures(model: DashboardModel)
    ensures
        ({
            let d = diagnostics_dropped(model);
            &&& model.daemon_state is Some && (model.daemon_state->0.counters.dropped_log_events > 0) ==> labels(
                d,
                "  dropped-logs:  "@,
                Atom::Text(dec(model.daemon_state->0.counters.dropped_log_events as nat)),
            )
        }),
{
    broadcast use crate::markup::group_labels;

}

/// How many log events were dropped: its figures stand in the order of their columns.
pub proof fn law_diagnostics_dropped_order(model: DashboardModel)
    ensures
        ({
            let d = diagnostics_dropped(model);
            &&& model.daemon_state is Some && (model.daemon_state->0.counters.dropped_log_events > 0) ==> before(
                d,
                Atom::Text(dec(model.daemon_state->0.counters.dropped_log_events as nat)),
                Atom::Badge("WARN"@),
            )
        }),
{
    let d = diagnostics_dropped(model);
    if model.daemon_state is Some && (model.daemon_state->0.counters.dropped_log_events > 0) {
        assert(before_at(
            d,
            1,
            3,
            Atom::Text(dec(model.daemon_state->0.counters.dropped_log_events as nat)),
            Atom::Badge("WARN"@),
        ));
    }
}

/// The dashboard health section: each label is followed by the figure that it names.
pub proof fn law_diagnostics_health_figures(model: DashboardModel, ctx: RenderContext)
    ensures
        ({
            let d = diagnostics_health(model, ctx);
            &&& labels(d, "  mode:          "@, Atom::Badge(mode_word_of(model.degraded)))
            &&& labels(d, "  tick:          "@, Atom::Text(dec(model.tick as nat)))
            &&& labels(d, " (refresh="@, Atom::Text(dec(model.refresh as nat)))
            &&& labels(d, "  missed-ticks:  "@, Atom::Text(dec(model.missed_ticks as nat)))
        }),
{
    broadcast use crate::markup::group_labels;

}

/// The dashboard health section: its parts stand in it.
pub proof fn law_diagnostics_health_parts(model: DashboardModel, ctx: RenderContext)
    ensures
        ({
            let d = diagnostics_health(model, ctx);
            &&& reads(d, diagnostics_policy(model))
            &&& reads(d, diagnostics_fetch(model, ctx))
            &&& reads(d, diagnostics_dropped(model))
        }),
{
    broadcast use crate::markup::group_reads;

}

/// The frame timing section: each label is followed by the figure that it names.
pub proof fn law_diagnostics_timing_figures(model: DashboardModel)
    ensures
        ({
            let d = diagnostics_timing(model);
            &&& model.frame_stats is Some ==> labels(
                d,
                "  current: "@,
                Atom::Fixed { value: model.frame_stats->0.current, decimals: 1 },
            )
            &&& model.frame_stats is Some ==> labels(
                d,
                "ms  avg: "@,
                Atom::Fixed { value: model.frame_stats->0.avg, decimals: 1 },
            )
            &&& model.frame_stats is Some ==> labels(
                d,
                "ms  min: "@,
                Atom::Fixed { value: model.frame_stats->0.min, decimals: 1 },
            )
            &&& model.frame_stats is Some ==> labels(
                d,
                "ms  max: "@,
                Atom::Fixed { value: model.frame_stats->0.max, decimals: 1 },
            )
            &&& model.frame_stats is Some ==> labels(
                d,
                "  budget:  "@,
                Atom::Fixed { value: model.frame_stats->0.budget_pct, decimals: 0 },
            )
            &&& model.frame_stats is Some ==> labels(
                d,
                "% of "@,
                Atom::Text(dec(model.refresh as nat)),
            )
            &&& model.frame_stats is Some ==> labels(
                d,
                "ms "@,
                Atom::Badge(budget_word_of(model.frame_stats->0.budget_pct)),
            )
            &&& model.frame_stats is Some && (model.frame_times@.len() > 0) ==> labels(
                d,
                "  history: "@,
                Atom::Spark { samples: model.frame_times@, colored: false },
            )
            &&& model.frame_stats is Some && (model.frame_times@.len() > 0) ==> labels(
                d,
                " ("@,
                Atom::Text(dec(model.frame_times@.len() as nat)),
            )
        }),
{
    broadcast use crate::markup::group_labels;

}

/// The data adapters section: each label is followed by the figure that it names.
pub proof fn law_diagnostics_adapters_figures(model: DashboardModel)
    ensures
        ({
            let d = diagnostics_adapters(model);
            &&& labels(
                d,
                "  state-adapter: "@,
                Atom::Badge(adapter_word_of(model.adapter_reads, model.adapter_errors)),
            )
            &&& labels(d, " reads="@, Atom::Text(dec(model.adapter_reads as nat)))
            &&& labels(d, " errors="@, Atom::Text(dec(model.adapter_errors as nat)))
            &&& labels(
                d,
                " ("@,
                Atom::Percent { part: model.adapter_errors, whole: (model.adapter_reads + model.adapter_errors) as u64, },
            )
        }),
{
    broadcast use crate::markup::group_labels;

}

/// The data adapters section: its parts stand in it.
pub proof fn law_diagnostics_adapters_parts(model: DashboardModel)
    ensures
        ({
            let d = diagnostics_adapters(model);
            &&& reads(d, source_line("timeline"@, model.timeline_source, model.timeline_partial))
            &&& reads(
                d,
                source_line(
                    "explainability"@,
                    model.explainability_source,
                    model.explainability_partial,
                ),
            )
            &&& reads(
                d,
                source_line("candidates"@, model.candidates_source, model.candidates_partial),
            )
        }),
{
    broadcast use crate::markup::group_reads;

}

/// The terminal section: each label is followed by the figure that it names.
pub proof fn law_diagnostics_terminal_figures(model: DashboardModel, ctx: RenderContext)
    ensures
        ({
            let d = diagnostics_terminal(model, ctx);
            &&& labels(d, "  size:    "@, Atom::Text(dec(model.terminal_size.0 as nat)))
            &&& labels(d, "x"@, Atom::Text(dec(model.terminal_size.1 as nat)))
            &&& labels(d, "  theme:   "@, Atom::Text(color_mode(ctx)))
            &&& labels(d, " spacing="@, Atom::Text(spacing_mode(ctx, model.density)))
        }),
{
    broadcast use crate::markup::group_labels;

}

/// The daemon process section: each label is followed by the figure that it names.
pub proof fn law_diagnostics_process_figures(model: DashboardModel)
    ensures
        ({
            let d = diagnostics_process(model);
            &&& model.daemon_state is Some ==> labels(
                d,
                "  version: "@,
                Atom::Text(model.daemon_state->0.version@),
            )
            &&& model.daemon_state is Some ==> labels(
                d,
                "  pid:     "@,
                Atom::Text(dec(model.daemon_state->0.pid as nat)),
            )
            &&& model.daemon_state is Some ==> labels(
                d,
                "  uptime:  "@,
                Atom::Duration(model.daemon_state->0.uptime_seconds),
            )
            &&& model.daemon_state is Some ==> labels(
                d,
                "  rss:     "@,
                Atom::Bytes(model.daemon_state->0.memory_rss_bytes),
            )
            &&& model.daemon_state is Some ==> labels(
                d,
                "  scans="@,
                Atom::Text(dec(model.daemon_state->0.counters.scans as nat)),
            )
            &&& model.daemon_state is Some ==> labels(
                d,
                " deletions="@,
                Atom::Text(dec(model.daemon_state->0.counters.deletions as nat)),
            )
            &&& model.daemon_state is Some ==> labels(
                d,
                " errors="@,
                Atom::Text(dec(model.daemon_state->0.counters.errors as nat)),
            )
            &&& model.daemon_state is Some ==> labels(
                d,
                " dropped="@,
                Atom::Text(dec(model.daemon_state->0.counters.dropped_log_events as nat)),
            )
        }),
{
    broadcast use crate::markup::group_labels;

}

/// The screen state section: each label is followed by the figure that it names.
pub proof fn law_diagnostics_state_figures(model: DashboardModel)
    ensures
        ({
            let d = diagnostics_state(model);
            &&& labels(d, "  active:      "@, Atom::Text(screen_label_of(model.screen)))
            &&& labels(d, "  history:     "@, Atom::Text(dec(model.screen_history@.len() as nat)))
            &&& labels(
                d,
                "  rate-mounts: "@,
                Atom::Text(dec(model.rate_histories.entries@.len() as nat)),
            )
            &&& labels(d, "  timeline:    "@, Atom::Text(dec(model.timeline_events@.len() as nat)))
            &&& labels(d, " events (filter="@, Atom::Text(filter_label(model.timeline_filter)))
            &&& labels(
                d,
                "  decisions:   "@,
                Atom::Text(dec(model.explainability_decisions@.len() as nat)),
            )
            &&& labels(d, "  candidates:  "@, Atom::Text(dec(model.candidates_list@.len() as nat)))
            &&& labels(d, " (sort="@, Atom::Text(model.candidates_sort@))
        }),
{
    broadcast use crate::markup::group_labels;

}

/// The sections of the verbose mode: its parts stand in it.
pub proof fn law_diagnostics_verbose_parts(model: DashboardModel)
    ensures
        ({
            let d = diagnostics_verbose_of(model);
            &&& model.diagnostics_verbose ==> reads(d, diagnostics_process(model))
            &&& model.diagnostics_verbose ==> reads(d, diagnostics_state(model))
        }),
{
    broadcast use crate::markup::group_reads;

}

/// The hint line of the diagnostics screen: its parts stand in it.
pub proof fn law_diagnostics_hint_parts(model: DashboardModel)
    ensures
        ({
            let d = diagnostics_hint(model);
            &&& model.diagnostics_verbose ==> reads(
                d,
                nav_hint_of(
                    model.hint_verbosity,
                    "V verbose (on)  r refresh  ? help  : palette  q quit"@,
                    "V verbose  r refresh  q quit"@,
                ),
            )
            &&& !(model.diagnostics_verbose) ==> reads(
                d,
                nav_hint_of(
                    model.hint_verbosity,
                    "V verbose (off)  r refresh  ? help  : palette  q quit"@,
                    "V verbose  r refresh  q quit"@,
                ),
            )
        }),
{
    broadcast use crate::markup::group_reads;

}

/// What the diagnostics screen shows besides its hint line: its parts stand in it.
pub proof fn law_diagnostics_body_parts(model: DashboardModel, ctx: RenderContext)
    ensures
        ({
            let d = diagnostics_body(model, ctx);
            &&& reads(d, diagnostics_health(model, ctx))
            &&& reads(d, diagnostics_timing(model))
            &&& reads(d, diagnostics_adapters(model))
            &&& reads(d, diagnostics_terminal(model, ctx))
            &&& reads(d, diagnostics_verbose_of(model))
        }),
{
    broadcast use crate::markup::group_reads;

}

/// The diagnostics screen: health, frame timing, adapters, terminal and, in verbose
/// mode, the daemon process and the screen state: its parts stand in it.
pub proof fn law_diagnostics_page_parts(model: DashboardModel, ctx: RenderContext)
    ensures
        ({
            let d = diagnostics_page(model, ctx);
            &&& reads(d, diagnostics_body(model, ctx))
            &&& reads(d, diagnostics_hint(model))
        }),
{
    broadcast use crate::markup::group_reads;

}

/// Health pane of the diagnostics screen: each label is followed by the figure that it names.
pub proof fn law_diagnostics_health_pane_figures(model: DashboardModel, ctx: RenderContext)
    ensures
        ({
            let d = diagnostics_health_pane(model, ctx);
            &&& labels(d, "mode "@, Atom::Badge(mode_word_of(model.degraded)))
            &&& labels(d, "  tick="@, Atom::Text(dec(model.tick as nat)))
            &&& labels(d, " refresh="@, Atom::Text(dec(model.refresh as nat)))
            &&& labels(d, "last-fetch="@, Atom::Text(fetch_age_of(model.last_fetch, ctx.now)))
            &&& labels(d, "  notifications="@, Atom::Text(dec(model.notifications@.len() as nat)))
            &&& labels(d, "  missed="@, Atom::Text(dec(model.missed_ticks as nat)))
            &&& model.daemon_state is Some ==> labels(
                d,
                "pressure "@,
                Atom::Badge(uppered(model.daemon_state->0.pressure.overall@)),
            )
            &&& model.daemon_state is Some ==> labels(
                d,
                "policy "@,
                Atom::Badge(uppered(model.daemon_state->0.policy_mode@)),
            )
            &&& model.daemon_state is Some ==> labels(
                d,
                "  pid="@,
                Atom::Text(dec(model.daemon_state->0.pid as nat)),
            )
            &&& model.daemon_state is Some ==> labels(
                d,
                " rss="@,
                Atom::Bytes(model.daemon_state->0.memory_rss_bytes),
            )
        }),
{
    broadcast use crate::markup::group_labels;

}

/// Health pane of the diagnostics screen: its figures stand in the order of their columns.
pub proof fn law_diagnostics_health_pane_order(model: DashboardModel, ctx: RenderContext)
    ensures
        ({
            let d = diagnostics_health_pane(model, ctx);
            &&& model.degraded ==> before(
                d,
                Atom::Badge(mode_word_of(model.degraded)),
                Atom::Progress(model.tick),
            )
            &&& model.degraded ==> before(
                d,
                Atom::Progress(model.tick),
                Atom::Text(dec(model.tick as nat)),
            )
        }),
{
    let d = diagnostics_health_pane(model, ctx);
    if model.daemon_state is Some && model.degraded {
        assert(before_at(
            d,
            1,
            3,
            Atom::Badge(mode_word_of(model.degraded)),
            Atom::Progress(model.tick),
        ));
        assert(before_at(d, 3, 5, Atom::Progress(model.tick), Atom::Text(dec(model.tick as nat))));
    }
    if model.daemon_state is None && model.degraded {
        assert(before_at(
            d,
            1,
            3,
            Atom::Badge(mode_word_of(model.degraded)),
            Atom::Progress(model.tick),
        ));
        assert(before_at(d, 3, 5, Atom::Progress(model.tick), Atom::Text(dec(model.tick as nat))));
    }
}

/// One styled line on a telemetry backend: its figures stand in the order of their columns.
pub proof fn law_styled_source_order(name: Seq<char>, source: DataSource, partial: bool)
    ensures
        ({
            let d = styled_source_of(name, source, partial);
            &&& before(d, Atom::Text(name), Atom::Badge(activity_word_of(source, partial)))
            &&& before(
                d,
                Atom::Badge(activity_word_of(source, partial)),
                Atom::Text(source_label(source)),
            )
        }),
{
    let d = styled_source_of(name, source, partial);
    assert(before_at(d, 0, 2, Atom::Text(name), Atom::Badge(activity_word_of(source, partial))));
    assert(before_at(
        d,
        2,
        4,
        Atom::Badge(activity_word_of(source, partial)),
        Atom::Text(source_label(source)),
    ));
}

/// State adapter and daemon counters: each label is followed by the figure that it names.
pub proof fn law_runtime_counters_figures(model: DashboardModel)
    ensures
        ({
            let d = runtime_counters_of(model);
            &&& labels(
                d,
                "adapter "@,
                Atom::Badge(adapter_word_of(model.adapter_reads, model.adapter_errors)),
            )
            &&& labels(d, " reads="@, Atom::Text(dec(model.adapter_reads as nat)))
            &&& labels(d, " errors="@, Atom::Text(dec(model.adapter_errors as nat)))
            &&& model.daemon_state is Some ==> labels(
                d,
                "scans="@,
                Atom::Text(dec(model.daemon_state->0.counters.scans as nat)),
            )
            &&& model.daemon_state is Some ==> labels(
                d,
                " deletions="@,
                Atom::Text(dec(model.daemon_state->0.counters.deletions as nat)),
            )
            &&& model.daemon_state is Some ==> labels(
                d,
                " errors="@,
                Atom::Text(dec(model.daemon_state->0.counters.errors as nat)),
            )
            &&& model.daemon_state is Some ==> labels(
                d,
                " dropped="@,
                Atom::Text(dec(model.daemon_state->0.counters.dropped_log_events as nat)),
            )
        }),
{
    broadcast use crate::markup::group_labels;

}

/// The screen state in the verbose mode: each label is followed by the figure that it names.
pub proof fn law_runtime_verbose_figures(model: DashboardModel)
    ensures
        ({
            let d = runtime_verbose_of(model);
            &&& model.diagnostics_verbose ==> labels(
                d,
                "screen="@,
                Atom::Text(screen_label_of(model.screen)),
            )
            &&& model.diagnostics_verbose ==> labels(
                d,
                " history="@,
                Atom::Text(dec(model.screen_history@.len() as nat)),
            )
            &&& model.diagnostics_verbose ==> labels(
                d,
                " events="@,
                Atom::Text(dec(model.timeline_events@.len() as nat)),
            )
            &&& model.diagnostics_verbose ==> labels(
                d,
                " decisions="@,
                Atom::Text(dec(model.explainability_decisions@.len() as nat)),
            )
            &&& model.diagnostics_verbose ==> labels(
                d,
                " candidates="@,
                Atom::Text(dec(model.candidates_list@.len() as nat)),
            )
        }),
{
    broadcast use crate::markup::group_labels;

}

/// Runtime pane of the diagnostics screen: its parts stand in it.
pub proof fn law_diagnostics_runtime_pane_parts(model: DashboardModel)
    ensures
        ({
            let d = diagnostics_runtime_pane(model);
            &&& reads(d, runtime_counters_of(model))
            &&& reads(
                d,
                styled_source_of("timeline"@, model.timeline_source, model.timeline_partial),
            )
            &&& reads(
                d,
                styled_source_of(
                    "explain "@,
                    model.explainability_source,
                    model.explainability_partial,
                ),
            )
            &&& reads(
                d,
                styled_source_of("candidat"@, model.candidates_source, model.candidates_partial),
            )
            &&& reads(d, runtime_verbose_of(model))
        }),
{
    broadcast use crate::markup::group_reads;

}

/// Performance pane of the diagnostics screen: each label is followed by the figure that it names.
pub proof fn law_diagnostics_perf_pane_figures(model: DashboardModel)
    ensures
        ({
            let d = diagnostics_perf_pane(model);
            &&& model.frame_stats is Some ==> labels(
                d,
                "frame "@,
                Atom::Fixed { value: model.frame_stats->0.current, decimals: 1 },
            )
            &&& model.frame_stats is Some ==> labels(
                d,
                "  avg="@,
                Atom::Fixed { value: model.frame_stats->0.avg, decimals: 1 },
            )
            &&& model.frame_stats is Some ==> labels(
                d,
                "ms  min="@,
                Atom::Fixed { value: model.frame_stats->0.min, decimals: 1 },
            )
            &&& model.frame_stats is Some ==> labels(
                d,
                "ms  max="@,
                Atom::Fixed { value: model.frame_stats->0.max, decimals: 1 },
            )
            &&& (model.frame_times@.len() > 0) ==> labels(
                d,
                "trace "@,
                Atom::Spark { samples: model.frame_times@, colored: true },
            )
            &&& labels(d, "terminal="@, Atom::Text(dec(model.terminal_size.0 as nat)))
            &&& labels(d, "x"@, Atom::Text(dec(model.terminal_size.1 as nat)))
        }),
{
    broadcast use crate::markup::group_labels;

}

/// The policy mode of the daemon, where it is known: each case shows what belongs to it
/// and no more.
pub proof fn law_diagnostics_policy_shows_no_more(model: DashboardModel)
    ensures
        ({
            let d = diagnostics_policy(model);
            &&& model.daemon_state is Some && (model.daemon_state->0.policy_mode@.len() > 0) ==> d.len()
                == 3
            &&& model.daemon_state is Some && (!(model.daemon_state->0.policy_mode@.len() > 0)) ==> d.len()
                == 0
            &&& model.daemon_state is None ==> d.len() == 0
        }),
{
}

/// When data last came in: each case shows what belongs to it and no more.
pub proof fn law_diagnostics_fetch_shows_no_more(model: DashboardModel, ctx: RenderContext)
    ensures
        ({
            let d = diagnostics_fetch(model, ctx);
            &&& model.last_fetch is Some ==> d.len() == 8
            &&& !(model.last_fetch is Some) ==> d.len() == 7
        }),
{
}

/// How many log events were dropped: each case shows what belongs to it and no more.
pub proof fn law_diagnostics_dropped_shows_no_more(model: DashboardModel)
    ensures
        ({
            let d = diagnostics_dropped(model);
            &&& model.daemon_state is Some && (model.daemon_state->0.counters.dropped_log_events > 0) ==> d.len()
                == 5
            &&& model.daemon_state is Some && (!(model.daemon_state->0.counters.dropped_log_events > 0)) ==> d.len()
                == 2
            &&& model.daemon_state is None ==> d.len() == 0
        }),
{
}

/// The frame timing section: each case shows what belongs to it and no more.
pub proof fn law_diagnostics_timing_shows_no_more(model: DashboardModel)
    ensures
        ({
            let d = diagnostics_timing(model);
            &&& model.frame_stats is Some && (model.frame_times@.len() > 0) ==> d.len() == 26
            &&& model.frame_stats is Some && (!(model.frame_times@.len() > 0)) ==> d.len() == 20
            &&& model.frame_stats is None ==> d.len() == 5
        }),
{
}

/// The daemon process section: each case shows what belongs to it and no more.
pub proof fn law_diagnostics_process_shows_no_more(model: DashboardModel)
    ensures
        ({
            let d = diagnostics_process(model);
            &&& model.daemon_state is Some ==> d.len() == 24
            &&& model.daemon_state is None ==> d.len() == 5
        }),
{
}

/// The sections of the verbose mode: each case shows what belongs to it and no more.
pub proof fn law_diagnostics_verbose_shows_no_more(model: DashboardModel)
    ensures
        ({
            let d = diagnostics_verbose_of(model);
            &&& model.diagnostics_verbose ==> d.len()
                == diagnostics_process(model).len() + diagnostics_state(model).len()
            &&& !(model.diagnostics_verbose) ==> d.len() == 0
        }),
{
}

/// The hint line of the diagnostics screen: each case shows what belongs to it and no more.
pub proof fn law_diagnostics_hint_shows_no_more(model: DashboardModel)
    ensures
        ({
            let d = diagnostics_hint(model);
            &&& model.diagnostics_verbose ==> d.len()
                == nav_hint_of(model.hint_verbosity, "V verbose (on)  r refresh  ? help  : palette  q quit"@, "V verbose  r refresh  q quit"@).len()
            &&& !(model.diagnostics_verbose) ==> d.len()
                == nav_hint_of(model.hint_verbosity, "V verbose (off)  r refresh  ? help  : palette  q quit"@, "V verbose  r refresh  q quit"@).len()
        }),
{
}

/// Health pane of the diagnostics screen: each case shows what belongs to it and no more.
pub proof fn law_diagnostics_health_pane_shows_no_more(model: DashboardModel, ctx: RenderContext)
    ensures
        ({
            let d = diagnostics_health_pane(model, ctx);
            &&& model.daemon_state is Some && model.degraded ==> d.len() == 27
            &&& model.daemon_state is Some && !(model.degraded) ==> d.len() == 25
            &&& model.daemon_state is None && model.degraded ==> d.len() == 17
            &&& model.daemon_state is None && !(model.degraded) ==> d.len() == 15
        }),
{
}

/// State adapter and daemon counters: each case shows what belongs to it and no more.
pub proof fn law_runtime_counters_shows_no_more(model: DashboardModel)
    ensures
        ({
            let d = runtime_counters_of(model);
            &&& model.daemon_state is Some ==> d.len() == 16
            &&& model.daemon_state is None ==> d.len() == 7
        }),
{
}

/// The screen state in the verbose mode: each case shows what belongs to it and no more.
pub proof fn law_runtime_verbose_shows_no_more(model: DashboardModel)
    ensures
        ({
            let d = runtime_verbose_of(model);
            &&& model.diagnostics_verbose ==> d.len() == 11
            &&& !(model.diagnostics_verbose) ==> d.len() == 0
        }),
{
}

/// Performance pane of the diagnostics screen: each case shows what belongs to it and no more.
pub proof fn law_diagnostics_perf_pane_shows_no_more(model: DashboardModel)
    ensures
        ({
            let d = diagnostics_perf_pane(model);
            &&& (model.frame_times@.len() > 0) && model.frame_stats is Some ==> d.len() == 19
            &&& (model.frame_times@.len() > 0) && model.frame_stats is None ==> d.len() == 10
            &&& (!(model.frame_times@.len() > 0)) && model.frame_stats is Some ==> d.len() == 16
            &&& (!(model.frame_times@.len() > 0)) && model.frame_stats is None ==> d.len() == 7
        }),
{
}

} // verus!
