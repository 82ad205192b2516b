//! Diagnostics screen.

use vstd::prelude::*;

use crate::markup::alarm;
use crate::double::Double;
use crate::layout::monus;
use crate::markup::Atom;
use crate::markup::Doc;
use crate::markup::Ink;
use crate::markup::PieceV;
use crate::markup::Tone;
use crate::markup::badge;
use crate::markup::badge_in;
use crate::markup::bold_fg;
use crate::markup::drawn;
use crate::markup::fg;
use crate::markup::header;
use crate::markup::in_bold;
use crate::markup::in_fg;
use crate::markup::ink;
use crate::markup::nl;
use crate::markup::plain;
use crate::markup::styled;
use crate::markup::txt;
use crate::model::DashboardModel;
use crate::model::filter_label;
use crate::preferences::HintVerbosity;
use crate::render::common::RenderContext;
use crate::render::common::activity_word;
use crate::render::common::activity_word_of;
use crate::render::common::color_mode;
use crate::render::common::color_mode_label;
use crate::render::common::data_source_label;
use crate::render::common::health_tone;
use crate::render::common::health_tone_of;
use crate::render::common::nav_hint_of;
use crate::render::common::page_width;
use crate::render::common::page_width_of;
use crate::render::common::policy_mode_color;
use crate::render::common::policy_tone_of;
use crate::render::common::screen_label;
use crate::render::common::screen_label_of;
use crate::render::common::section;
use crate::render::common::source_label;
use crate::render::common::spacing_mode;
use crate::render::common::spacing_mode_label;
use crate::render::common::write_navigation_hint;
use crate::telemetry::DataSource;
use crate::text::dec;
use crate::text::decimal;
use crate::text::decimal_usize;
use crate::text::pad_right;
use crate::text::padded_right;
use crate::text::to_upper;
use crate::text::uppered;

verus! {

/// Share of the refresh interval above which a frame budget is exceeded (80%).
pub const BUDGET_OVER: u64 = 0x4054_0000_0000_0000;

/// Share of the refresh interval above which a frame budget runs high (50%).
pub const BUDGET_HIGH: u64 = 0x4049_0000_0000_0000;

/// Frame time in milliseconds above which a frame is slow (16 ms).
pub const SLOW_FRAME: u64 = 0x4030_0000_0000_0000;

/// Frame time in milliseconds above which a frame is sluggish (8 ms).
pub const SLUGGISH_FRAME: u64 = 0x4020_0000_0000_0000;

/// Badge label for a frame budget.
pub open spec fn budget_word_of(pct: Double) -> Seq<char> {
    if pct.gt(Double { bits: BUDGET_OVER }) {
        "OVER"@
    } else if pct.gt(Double { bits: BUDGET_HIGH }) {
        "HIGH"@
    } else {
        "OK"@
    }
}

/// Badge label for a frame budget.
pub fn budget_word(pct: Double) -> (w: &'static str)
    ensures
        w@ == budget_word_of(pct),
{
    if pct.greater_than(Double { bits: BUDGET_OVER }) {
        "OVER"
    } else if pct.greater_than(Double { bits: BUDGET_HIGH }) {
        "HIGH"
    } else {
        "OK"
    }
}

/// Colour role for a frame budget.
pub open spec fn budget_tone_of(pct: Double) -> Tone {
    if pct.gt(Double { bits: BUDGET_OVER }) {
        Tone::Danger
    } else if pct.gt(Double { bits: BUDGET_HIGH }) {
        Tone::Warning
    } else {
        Tone::Success
    }
}

/// Colour role for a frame budget.
pub fn budget_tone(pct: Double) -> (t: Tone)
    ensures
        t == budget_tone_of(pct),
{
    if pct.greater_than(Double { bits: BUDGET_OVER }) {
        Tone::Danger
    } else if pct.greater_than(Double { bits: BUDGET_HIGH }) {
        Tone::Warning
    } else {
        Tone::Success
    }
}

/// Colour role for a frame time.
pub open spec fn frame_tone_of(ms: Double) -> Tone {
    if ms.gt(Double { bits: SLOW_FRAME }) {
        Tone::Danger
    } else if ms.gt(Double { bits: SLUGGISH_FRAME }) {
        Tone::Warning
    } else {
        Tone::Success
    }
}

/// Colour role for a frame time.
pub fn frame_tone(ms: Double) -> (t: Tone)
    ensures
        t == frame_tone_of(ms),
{
    if ms.greater_than(Double { bits: SLOW_FRAME }) {
        Tone::Danger
    } else if ms.greater_than(Double { bits: SLUGGISH_FRAME }) {
        Tone::Warning
    } else {
        Tone::Success
    }
}

/// Whether less than a tenth of the state reads failed.
pub open spec fn mostly_read_of(reads: int, errors: int) -> bool {
    10 * errors < reads + errors
}

fn mostly_read(reads: u64, errors: u64) -> (b: bool)
    ensures
        b == mostly_read_of(reads as int, errors as int),
{
    errors <= reads / 9 && errors < reads - errors * 8
}

/// Badge label for the state adapter.
pub open spec fn adapter_word_of(reads: u64, errors: u64) -> Seq<char> {
    if errors == 0 {
        "OK"@
    } else if mostly_read_of(reads as int, errors as int) {
        "DEGRADED"@
    } else {
        "FAILING"@
    }
}

/// Badge label for the state adapter.
pub fn adapter_word(reads: u64, errors: u64) -> (w: &'static str)
    ensures
        w@ == adapter_word_of(reads, errors),
{
    if errors == 0 {
        "OK"
    } else if mostly_read(reads, errors) {
        "DEGRADED"
    } else {
        "FAILING"
    }
}

/// Colour role for the state adapter.
pub open spec fn adapter_tone_of(reads: u64, errors: u64) -> Tone {
    if errors == 0 {
        Tone::Success
    } else if mostly_read_of(reads as int, errors as int) {
        Tone::Warning
    } else {
        Tone::Danger
    }
}

/// Colour role for the state adapter.
pub fn adapter_tone(reads: u64, errors: u64) -> (t: Tone)
    ensures
        t == adapter_tone_of(reads, errors),
{
    if errors == 0 {
        Tone::Success
    } else if mostly_read(reads, errors) {
        Tone::Warning
    } else {
        Tone::Danger
    }
}

/// Badge label for the data mode.
pub open spec fn mode_word_of(degraded: bool) -> Seq<char> {
    if degraded {
        "DEGRADED"@
    } else {
        "NORMAL"@
    }
}

/// Badge label for the data mode.
pub fn mode_word(degraded: bool) -> (w: &'static str)
    ensures
        w@ == mode_word_of(degraded),
{
    if degraded {
        "DEGRADED"
    } else {
        "NORMAL"
    }
}

/// Colour role for the data mode.
pub open spec fn mode_tone_of(degraded: bool) -> Tone {
    if degraded {
        Tone::Warning
    } else {
        Tone::Success
    }
}

/// Colour role for the data mode.
pub fn mode_tone(degraded: bool) -> (t: Tone)
    ensures
        t == mode_tone_of(degraded),
{
    if degraded {
        Tone::Warning
    } else {
        Tone::Success
    }
}

/// Age of the last fetch in milliseconds, or that there was none.
pub open spec fn fetch_age_of(last_fetch: Option<u64>, now: u64) -> Seq<char> {
    match last_fetch {
        Some(t) => dec(monus(now as int, t as int) as nat) + "ms"@,
        None => "never"@,
    }
}

fn fetch_age(last_fetch: Option<u64>, now: u64) -> (s: String)
    ensures
        s@ == fetch_age_of(last_fetch, now),
{
    if let Some(t) = last_fetch {
        let age: u64 = if t <= now {
            now - t
        } else {
            0
        };
        let mut s = decimal(age);
        s.append("ms");
        s
    } else {
        "never".to_owned()
    }
}

/// One line on a telemetry backend.
pub open spec fn source_line(name: Seq<char>, source: DataSource, partial: bool) -> Seq<PieceV> {
    seq![
        txt("  "@),
        txt(padded_right(name, 16)),
        txt(" "@),
        badge(activity_word_of(source, partial), health_tone_of(source, partial)),
        txt(" source="@),
        txt(source_label(source)),
        nl(),
    ]
}

fn source_line_doc(name: &str, source: DataSource, partial: bool) -> (doc: Doc)
    ensures
        doc@ == source_line(name@, source, partial),
{
    let mut d = Doc::new();
    d.text("  ");
    d.text(pad_right(name, 16).as_str());
    d.text(" ");
    d.badge(activity_word(source, partial), health_tone(source, partial));
    d.text(" source=");
    d.text(data_source_label(source));
    d.newline();
    d
}

/// The policy mode of the daemon, where it is known.
pub open spec fn diagnostics_policy(model: DashboardModel) -> Seq<PieceV> {
    match model.daemon_state {
        Some(state) => {
            if state.policy_mode@.len() > 0 {
                seq![
                    txt("  policy:        "@),
                    badge(uppered(state.policy_mode@), policy_tone_of(state.policy_mode@)),
                    nl(),
                ]
            } else {
                seq![]
            }
        },
        None => {
            seq![]
        },
    }
}

fn diagnostics_policy_doc(model: &DashboardModel) -> (doc: Doc)
    ensures
        doc@ == diagnostics_policy(*model),
{
    if let Some(state) = &model.daemon_state {
        if !state.policy_mode.as_str().is_empty() {
            let mut q = Doc::new();
            q.text("  policy:        ");
            q.badge(
                to_upper(state.policy_mode.as_str()).as_str(),
                policy_mode_color(state.policy_mode.as_str()),
            );
            q.newline();
            q
        } else {
            Doc::new()
        }
    } else {
        Doc::new()
    }
}

/// When data last came in.
pub open spec fn diagnostics_fetch(model: DashboardModel, ctx: RenderContext) -> Seq<PieceV> {
    let d = seq![
        txt("  last-fetch:    "@),
        txt(fetch_age_of(model.last_fetch, ctx.now)),
    ];
    let d = if model.last_fetch is Some {
        d + seq![
            txt(" ago"@),
        ]
    } else {
        d
    };
    d + seq![
        nl(),
        txt("  notifications: "@),
        txt(dec(model.notifications@.len() as nat)),
        txt(" active"@),
        nl(),
    ]
}

fn diagnostics_fetch_doc(model: &DashboardModel, ctx: RenderContext) -> (doc: Doc)
    ensures
        doc@ == diagnostics_fetch(*model, ctx),
{
    let mut d = Doc::new();
    d.text("  last-fetch:    ");
    d.text(fetch_age(model.last_fetch, ctx.now).as_str());
    if model.last_fetch.is_some() {
        let mut p = Doc::new();
        p.text(" ago");
        d.append(p);
    }
    let mut p = Doc::new();
    p.newline();
    p.text("  notifications: ");
    p.text(decimal_usize(model.notifications.len()).as_str());
    p.text(" active");
    p.newline();
    d.append(p);
    d
}

/// How many log events were dropped.
pub open spec fn diagnostics_dropped(model: DashboardModel) -> Seq<PieceV> {
    match model.daemon_state {
        Some(state) => {
            if state.counters.dropped_log_events > 0 {
                seq![
                    txt("  dropped-logs:  "@),
                    txt(dec(state.counters.dropped_log_events as nat)),
                    txt(" "@),
                    badge("WARN"@, Tone::Warning),
                    nl(),
                ]
            } else {
                seq![
                    txt("  dropped-logs:  0"@),
                    nl(),
                ]
            }
        },
        None => {
            seq![]
        },
    }
}

fn diagnostics_dropped_doc(model: &DashboardModel) -> (doc: Doc)
    ensures
        doc@ == diagnostics_dropped(*model),
{
    if let Some(state) = &model.daemon_state {
        if state.counters.dropped_log_events > 0 {
            let mut q = Doc::new();
            q.text("  dropped-logs:  ");
            q.text(decimal(state.counters.dropped_log_events).as_str());
            q.text(" ");
            q.badge("WARN", Tone::Warning);
            q.newline();
            q
        } else {
            let mut q = Doc::new();
            q.text("  dropped-logs:  0");
            q.newline();
            q
        }
    } else {
        Doc::new()
    }
}

/// The dashboard health section.
pub open spec fn diagnostics_health(model: DashboardModel, ctx: RenderContext) -> Seq<PieceV> {
    let d = header("Dashboard Health"@, page_width_of(model.terminal_size.0));
    let d = d + seq![
        txt("  mode:          "@),
        badge(mode_word_of(model.degraded), mode_tone_of(model.degraded)),
        nl(),
        txt("  tick:          "@),
        txt(dec(model.tick as nat)),
        txt(" (refresh="@),
        txt(dec(model.refresh as nat)),
        txt("ms)"@),
        nl(),
        txt("  missed-ticks:  "@),
        txt(dec(model.missed_ticks as nat)),
        nl(),
    ];
    let d = d + diagnostics_policy(model);
    let d = d + diagnostics_fetch(model, ctx);
    d + diagnostics_dropped(model)
}

fn diagnostics_health_doc(model: &DashboardModel, ctx: RenderContext) -> (doc: Doc)
    ensures
        doc@ == diagnostics_health(*model, ctx),
{
    let mut d = section("Dashboard Health", page_width(model.terminal_size.0));
    let mut p = Doc::new();
    p.text("  mode:          ");
    p.badge(mode_word(model.degraded), mode_tone(model.degraded));
    p.newline();
    p.text("  tick:          ");
    p.text(decimal(model.tick).as_str());
    p.text(" (refresh=");
    p.text(decimal(model.refresh).as_str());
    p.text("ms)");
    p.newline();
    p.text("  missed-ticks:  ");
    p.text(decimal(model.missed_ticks).as_str());
    p.newline();
    d.append(p);
    d.append(diagnostics_policy_doc(model));
    d.append(diagnostics_fetch_doc(model, ctx));
    d.append(diagnostics_dropped_doc(model));
    d
}

/// The frame timing section.
pub open spec fn diagnostics_timing(model: DashboardModel) -> Seq<PieceV> {
    let d = seq![
        nl(),
    ];
    let d = d + header("Frame Timing"@, page_width_of(model.terminal_size.0));
    match model.frame_stats {
        Some(stats) => {
            d + ({
                let d = seq![
                    txt("  current: "@),
                    plain(Atom::Fixed { value: stats.current, decimals: 1 }),
                    txt("ms  avg: "@),
                    plain(Atom::Fixed { value: stats.avg, decimals: 1 }),
                    txt("ms  min: "@),
                    plain(Atom::Fixed { value: stats.min, decimals: 1 }),
                    txt("ms  max: "@),
                    plain(Atom::Fixed { value: stats.max, decimals: 1 }),
                    txt("ms"@),
                    nl(),
                    txt("  budget:  "@),
                    plain(Atom::Fixed { value: stats.budget_pct, decimals: 0 }),
                    txt("% of "@),
                    txt(dec(model.refresh as nat)),
                    txt("ms "@),
                    badge(budget_word_of(stats.budget_pct), budget_tone_of(stats.budget_pct)),
                    nl(),
                ];
                if model.frame_times@.len() > 0 {
                    d + seq![
                        txt("  history: "@),
                        plain(Atom::Spark { samples: model.frame_times@, colored: false }),
                        txt(" ("@),
                        txt(dec(model.frame_times@.len() as nat)),
                        txt(" samples)"@),
                        nl(),
                    ]
                } else {
                    d
                }
            })
        },
        None => {
            d + seq![
                txt("  no frame data yet"@),
                nl(),
            ]
        },
    }
}

fn diagnostics_timing_doc(model: &DashboardModel) -> (doc: Doc)
    requires
        model.frame_times.wf(),
    ensures
        doc@ == diagnostics_timing(*model),
{
    let mut d = Doc::new();
    d.newline();
    d.append(section("Frame Timing", page_width(model.terminal_size.0)));
    if let Some(stats) = &model.frame_stats {
        let mut p = Doc::new();
        p.text("  current: ");
        p.plain(Atom::Fixed { value: stats.current, decimals: 1 });
        p.text("ms  avg: ");
        p.plain(Atom::Fixed { value: stats.avg, decimals: 1 });
        p.text("ms  min: ");
        p.plain(Atom::Fixed { value: stats.min, decimals: 1 });
        p.text("ms  max: ");
        p.plain(Atom::Fixed { value: stats.max, decimals: 1 });
        p.text("ms");
        p.newline();
        p.text("  budget:  ");
        p.plain(Atom::Fixed { value: stats.budget_pct, decimals: 0 });
        p.text("% of ");
        p.text(decimal(model.refresh).as_str());
        p.text("ms ");
        p.badge(budget_word(stats.budget_pct), budget_tone(stats.budget_pct));
        p.newline();
        if model.frame_times.len() > 0 {
            let mut q = Doc::new();
            q.text("  history: ");
            q.plain(Atom::Spark { samples: model.frame_times.chronological(), colored: false });
            q.text(" (");
            q.text(decimal_usize(model.frame_times.len()).as_str());
            q.text(" samples)");
            q.newline();
            p.append(q);
        }
        d.append(p);
    } else {
        let mut p = Doc::new();
        p.text("  no frame data yet");
        p.newline();
        d.append(p);
    }
    d
}

/// The data adapters section.
pub open spec fn diagnostics_adapters(model: DashboardModel) -> Seq<PieceV> {
    let d = seq![
        nl(),
    ];
    let d = d + header("Data Adapters"@, page_width_of(model.terminal_size.0));
    let d = d + seq![
        txt("  state-adapter: "@),
        badge(
            adapter_word_of(model.adapter_reads, model.adapter_errors),
            adapter_tone_of(model.adapter_reads, model.adapter_errors),
        ),
        txt(" reads="@),
        txt(dec(model.adapter_reads as nat)),
        txt(" errors="@),
        txt(dec(model.adapter_errors as nat)),
        txt(" ("@),
        plain(Atom::Percent {
                part: model.adapter_errors,
                whole: (model.adapter_reads + model.adapter_errors) as u64,
            }),
        txt("%)"@),
        nl(),
    ];
    let d = d + source_line("timeline"@, model.timeline_source, model.timeline_partial);
    let d = d + source_line(
        "explainability"@,
        model.explainability_source,
        model.explainability_partial,
    );
    d + source_line("candidates"@, model.candidates_source, model.candidates_partial)
}

fn diagnostics_adapters_doc(model: &DashboardModel) -> (doc: Doc)
    requires
        model.adapter_reads + model.adapter_errors <= u64::MAX,
    ensures
        doc@ == diagnostics_adapters(*model),
{
    let mut d = Doc::new();
    d.newline();
    d.append(section("Data Adapters", page_width(model.terminal_size.0)));
    let mut p = Doc::new();
    p.text("  state-adapter: ");
    p.badge(
        adapter_word(model.adapter_reads, model.adapter_errors),
        adapter_tone(model.adapter_reads, model.adapter_errors),
    );
    p.text(" reads=");
    p.text(decimal(model.adapter_reads).as_str());
    p.text(" errors=");
    p.text(decimal(model.adapter_errors).as_str());
    p.text(" (");
    p.plain(Atom::Percent {
            part: model.adapter_errors,
            whole: model.adapter_reads + model.adapter_errors,
        });
    p.text("%)");
    p.newline();
    d.append(p);
    d.append(source_line_doc("timeline", model.timeline_source, model.timeline_partial));
    d.append(
        source_line_doc(
            "explainability",
            model.explainability_source,
            model.explainability_partial,
        ),
    );
    d.append(source_line_doc("candidates", model.candidates_source, model.candidates_partial));
    d
}

/// The terminal section.
pub open spec fn diagnostics_terminal(model: DashboardModel, ctx: RenderContext) -> Seq<PieceV> {
    let d = seq![
        nl(),
    ];
    let d = d + header("Terminal"@, page_width_of(model.terminal_size.0));
    d + seq![
        txt("  size:    "@),
        txt(dec(model.terminal_size.0 as nat)),
        txt("x"@),
        txt(dec(model.terminal_size.1 as nat)),
        nl(),
        txt("  theme:   "@),
        txt(color_mode(ctx)),
        txt(" spacing="@),
        txt(spacing_mode(ctx, model.density)),
        nl(),
    ]
}

fn diagnostics_terminal_doc(model: &DashboardModel, ctx: RenderContext) -> (doc: Doc)
    ensures
        doc@ == diagnostics_terminal(*model, ctx),
{
    let mut d = Doc::new();
    d.newline();
    d.append(section("Terminal", page_width(model.terminal_size.0)));
    let mut p = Doc::new();
    p.text("  size:    ");
    p.text(decimal(model.terminal_size.0 as u64).as_str());
    p.text("x");
    p.text(decimal(model.terminal_size.1 as u64).as_str());
    p.newline();
    p.text("  theme:   ");
    p.text(color_mode_label(ctx));
    p.text(" spacing=");
    p.text(spacing_mode_label(ctx, model.density));
    p.newline();
    d.append(p);
    d
}

/// The daemon process section.
pub open spec fn diagnostics_process(model: DashboardModel) -> Seq<PieceV> {
    let d = seq![
        nl(),
    ];
    let d = d + header("Daemon Process"@, page_width_of(model.terminal_size.0));
    match model.daemon_state {
        Some(state) => {
            d + seq![
                txt("  version: "@),
                txt(state.version@),
                nl(),
                txt("  pid:     "@),
                txt(dec(state.pid as nat)),
                nl(),
                txt("  uptime:  "@),
                plain(Atom::Duration(state.uptime_seconds)),
                nl(),
                txt("  rss:     "@),
                plain(Atom::Bytes(state.memory_rss_bytes)),
                nl(),
                txt("  scans="@),
                txt(dec(state.counters.scans as nat)),
                txt(" deletions="@),
                txt(dec(state.counters.deletions as nat)),
                txt(" errors="@),
                txt(dec(state.counters.errors as nat)),
                txt(" dropped="@),
                txt(dec(state.counters.dropped_log_events as nat)),
                nl(),
            ]
        },
        None => {
            d + seq![
                txt("  daemon not connected"@),
                nl(),
            ]
        },
    }
}

fn diagnostics_process_doc(model: &DashboardModel) -> (doc: Doc)
    ensures
        doc@ == diagnostics_process(*model),
{
    let mut d = Doc::new();
    d.newline();
    d.append(section("Daemon Process", page_width(model.terminal_size.0)));
    if let Some(state) = &model.daemon_state {
        let mut p = Doc::new();
        p.text("  version: ");
        p.text(state.version.as_str());
        p.newline();
        p.text("  pid:     ");
        p.text(decimal(state.pid as u64).as_str());
        p.newline();
        p.text("  uptime:  ");
        p.plain(Atom::Duration(state.uptime_seconds));
        p.newline();
        p.text("  rss:     ");
        p.plain(Atom::Bytes(state.memory_rss_bytes));
        p.newline();
        p.text("  scans=");
        p.text(decimal(state.counters.scans).as_str());
        p.text(" deletions=");
        p.text(decimal(state.counters.deletions).as_str());
        p.text(" errors=");
        p.text(decimal(state.counters.errors).as_str());
        p.text(" dropped=");
        p.text(decimal(state.counters.dropped_log_events).as_str());
        p.newline();
        d.append(p);
    } else {
        let mut p = Doc::new();
        p.text("  daemon not connected");
        p.newline();
        d.append(p);
    }
    d
}

/// The screen state section.
pub open spec fn diagnostics_state(model: DashboardModel) -> Seq<PieceV> {
    let d = seq![
        nl(),
    ];
    let d = d + header("Screen State"@, page_width_of(model.terminal_size.0));
    d + seq![
        txt("  active:      "@),
        txt(screen_label_of(model.screen)),
        nl(),
        txt("  history:     "@),
        txt(dec(model.screen_history@.len() as nat)),
        txt(" entries"@),
        nl(),
        txt("  rate-mounts: "@),
        txt(dec(model.rate_histories.entries@.len() as nat)),
        txt(" tracked"@),
        nl(),
        txt("  timeline:    "@),
        txt(dec(model.timeline_events@.len() as nat)),
        txt(" events (filter="@),
        txt(filter_label(model.timeline_filter)),
        txt(")"@),
        nl(),
        txt("  decisions:   "@),
        txt(dec(model.explainability_decisions@.len() as nat)),
        nl(),
        txt("  candidates:  "@),
        txt(dec(model.candidates_list@.len() as nat)),
        txt(" (sort="@),
        txt(model.candidates_sort@),
        txt(")"@),
        nl(),
    ]
}

fn diagnostics_state_doc(model: &DashboardModel) -> (doc: Doc)
    ensures
        doc@ == diagnostics_state(*model),
{
    let mut d = Doc::new();
    d.newline();
    d.append(section("Screen State", page_width(model.terminal_size.0)));
    let mut p = Doc::new();
    p.text("  active:      ");
    p.text(screen_label(model.screen));
    p.newline();
    p.text("  history:     ");
    p.text(decimal_usize(model.screen_history.len()).as_str());
    p.text(" entries");
    p.newline();
    p.text("  rate-mounts: ");
    p.text(decimal_usize(model.rate_histories.len()).as_str());
    p.text(" tracked");
    p.newline();
    p.text("  timeline:    ");
    p.text(decimal_usize(model.timeline_events.len()).as_str());
    p.text(" events (filter=");
    p.text(model.timeline_filter.label());
    p.text(")");
    p.newline();
    p.text("  decisions:   ");
    p.text(decimal_usize(model.explainability_decisions.len()).as_str());
    p.newline();
    p.text("  candidates:  ");
    p.text(decimal_usize(model.candidates_list.len()).as_str());
    p.text(" (sort=");
    p.text(model.candidates_sort.as_str());
    p.text(")");
    p.newline();
    d.append(p);
    d
}

/// The sections of the verbose mode.
pub open spec fn diagnostics_verbose_of(model: DashboardModel) -> Seq<PieceV> {
    if model.diagnostics_verbose {
        let d = diagnostics_process(model);
        d + diagnostics_state(model)
    } else {
        seq![]
    }
}

fn diagnostics_verbose_doc(model: &DashboardModel) -> (doc: Doc)
    ensures
        doc@ == diagnostics_verbose_of(*model),
{
    if model.diagnostics_verbose {
        let mut p = diagnostics_process_doc(model);
        p.append(diagnostics_state_doc(model));
        p
    } else {
        Doc::new()
    }
}

/// The hint line of the diagnostics screen.
pub open spec fn diagnostics_hint(model: DashboardModel) -> Seq<PieceV> {
    if model.diagnostics_verbose {
        nav_hint_of(
            model.hint_verbosity,
            "V verbose (on)  r refresh  ? help  : palette  q quit"@,
            "V verbose  r refresh  q quit"@,
        )
    } else {
        nav_hint_of(
            model.hint_verbosity,
            "V verbose (off)  r refresh  ? help  : palette  q quit"@,
            "V verbose  r refresh  q quit"@,
        )
    }
}

fn diagnostics_hint_doc(model: &DashboardModel) -> (doc: Doc)
    ensures
        doc@ == diagnostics_hint(*model),
{
    if model.diagnostics_verbose {
        write_navigation_hint(
            model.hint_verbosity,
            "V verbose (on)  r refresh  ? help  : palette  q quit",
            "V verbose  r refresh  q quit",
        )
    } else {
        write_navigation_hint(
            model.hint_verbosity,
            "V verbose (off)  r refresh  ? help  : palette  q quit",
            "V verbose  r refresh  q quit",
        )
    }
}

/// What the diagnostics screen shows besides its hint line.
pub open spec fn diagnostics_body(model: DashboardModel, ctx: RenderContext) -> Seq<PieceV> {
    let d = diagnostics_health(model, ctx);
    let d = d + diagnostics_timing(model);
    let d = d + diagnostics_adapters(model);
    let d = d + diagnostics_terminal(model, ctx);
    d + diagnostics_verbose_of(model)
}

fn diagnostics_body_doc(model: &DashboardModel, ctx: RenderContext) -> (doc: Doc)
    requires
        model.frame_times.wf(),
        model.adapter_reads + model.adapter_errors <= u64::MAX,
    ensures
        doc@ == diagnostics_body(*model, ctx),
{
    let mut d = diagnostics_health_doc(model, ctx);
    d.append(diagnostics_timing_doc(model));
    d.append(diagnostics_adapters_doc(model));
    d.append(diagnostics_terminal_doc(model, ctx));
    d.append(diagnostics_verbose_doc(model));
    d
}

/// The diagnostics screen: health, frame timing, adapters, terminal and, in verbose
/// mode, the daemon process and the screen state.
pub open spec fn diagnostics_page(model: DashboardModel, ctx: RenderContext) -> Seq<PieceV> {
    let d = diagnostics_body(model, ctx);
    d + diagnostics_hint(model)
}

/// The diagnostics screen: health, frame timing, adapters, terminal and, in verbose
/// mode, the daemon process and the screen state.
pub fn render_diagnostics(model: &DashboardModel, ctx: RenderContext) -> (doc: Doc)
    requires
        model.frame_times.wf(),
        model.adapter_reads + model.adapter_errors <= u64::MAX,
    ensures
        doc@ == diagnostics_page(*model, ctx),
{
    let mut d = diagnostics_body_doc(model, ctx);
    d.append(diagnostics_hint_doc(model));
    d
}

/// Health pane of the diagnostics screen.
pub open spec fn diagnostics_health_pane(model: DashboardModel, ctx: RenderContext) -> Seq<PieceV> {
    let d = seq![
        ink("mode "@, Tone::Secondary),
        badge(mode_word_of(model.degraded), mode_tone_of(model.degraded)),
    ];
    let d = if model.degraded {
        d + seq![
            txt(" "@),
            drawn(Atom::Progress(model.tick), fg(Ink::Of(Tone::Warning))),
        ]
    } else {
        d
    };
    let d = d + seq![
        ink("  tick="@, Tone::Secondary),
        ink(dec(model.tick as nat), Tone::Secondary),
        ink(" refresh="@, Tone::Secondary),
        ink(dec(model.refresh as nat), Tone::Secondary),
        ink("ms"@, Tone::Secondary),
        nl(),
        ink("last-fetch="@, Tone::Secondary),
        ink(fetch_age_of(model.last_fetch, ctx.now), Tone::Secondary),
        ink("  notifications="@, Tone::Secondary),
        ink(dec(model.notifications@.len() as nat), Tone::Secondary),
        ink("  missed="@, Tone::Secondary),
        ink(dec(model.missed_ticks as nat), Tone::Secondary),
        nl(),
    ];
    match model.daemon_state {
        Some(state) => {
            d + seq![
                ink("pressure "@, Tone::Secondary),
                badge_in(uppered(state.pressure.overall@), Ink::Pressure(state.pressure.overall@)),
                txt("  "@),
                ink("policy "@, Tone::Secondary),
                badge(uppered(state.policy_mode@), policy_tone_of(state.policy_mode@)),
                ink("  pid="@, Tone::Muted),
                ink(dec(state.pid as nat), Tone::Muted),
                ink(" rss="@, Tone::Muted),
                drawn(Atom::Bytes(state.memory_rss_bytes), fg(Ink::Of(Tone::Muted))),
                nl(),
            ]
        },
        None => {
            d
        },
    }
}

/// Health pane of the diagnostics screen.
pub fn frame_diagnostics_health_styled(model: &DashboardModel, ctx: RenderContext) -> (doc: Doc)
    ensures
        doc@ == diagnostics_health_pane(*model, ctx),
{
    let mut d = Doc::new();
    d.ink("mode ", Tone::Secondary);
    d.badge(mode_word(model.degraded), mode_tone(model.degraded));
    if model.degraded {
        let mut p = Doc::new();
        p.text(" ");
        p.drawn(Atom::Progress(model.tick), in_fg(Ink::Of(Tone::Warning)));
        d.append(p);
    }
    let mut p = Doc::new();
    p.ink("  tick=", Tone::Secondary);
    p.ink(decimal(model.tick).as_str(), Tone::Secondary);
    p.ink(" refresh=", Tone::Secondary);
    p.ink(decimal(model.refresh).as_str(), Tone::Secondary);
    p.ink("ms", Tone::Secondary);
    p.newline();
    p.ink("last-fetch=", Tone::Secondary);
    p.ink(fetch_age(model.last_fetch, ctx.now).as_str(), Tone::Secondary);
    p.ink("  notifications=", Tone::Secondary);
    p.ink(decimal_usize(model.notifications.len()).as_str(), Tone::Secondary);
    p.ink("  missed=", Tone::Secondary);
    p.ink(decimal(model.missed_ticks).as_str(), Tone::Secondary);
    p.newline();
    d.append(p);
    if let Some(state) = &model.daemon_state {
        let mut p = Doc::new();
        p.ink("pressure ", Tone::Secondary);
        p.badge_in(
            to_upper(state.pressure.overall.as_str()).as_str(),
            Ink::Pressure(state.pressure.overall.clone()),
        );
        p.text("  ");
        p.ink("policy ", Tone::Secondary);
        p.badge(
            to_upper(state.policy_mode.as_str()).as_str(),
            policy_mode_color(state.policy_mode.as_str()),
        );
        p.ink("  pid=", Tone::Muted);
        p.ink(decimal(state.pid as u64).as_str(), Tone::Muted);
        p.ink(" rss=", Tone::Muted);
        p.drawn(Atom::Bytes(state.memory_rss_bytes), in_fg(Ink::Of(Tone::Muted)));
        p.newline();
        d.append(p);
    }
    d
}

/// One styled line on a telemetry backend.
pub open spec fn styled_source_of(
    name: Seq<char>,
    source: DataSource,
    partial: bool,
) -> Seq<PieceV> {
    seq![
        ink(name, Tone::Muted),
        ink(" "@, Tone::Muted),
        badge(activity_word_of(source, partial), health_tone_of(source, partial)),
        ink(" "@, Tone::Secondary),
        ink(source_label(source), Tone::Secondary),
        nl(),
    ]
}

fn styled_source_doc(name: &str, source: DataSource, partial: bool) -> (doc: Doc)
    ensures
        doc@ == styled_source_of(name@, source, partial),
{
    let mut d = Doc::new();
    d.ink(name, Tone::Muted);
    d.ink(" ", Tone::Muted);
    d.badge(activity_word(source, partial), health_tone(source, partial));
    d.ink(" ", Tone::Secondary);
    d.ink(data_source_label(source), Tone::Secondary);
    d.newline();
    d
}

/// State adapter and daemon counters.
pub open spec fn runtime_counters_of(model: DashboardModel) -> Seq<PieceV> {
    let d = seq![
        ink("adapter "@, Tone::Secondary),
        badge(
            adapter_word_of(model.adapter_reads, model.adapter_errors),
            adapter_tone_of(model.adapter_reads, model.adapter_errors),
        ),
        ink(" reads="@, Tone::Secondary),
        ink(dec(model.adapter_reads as nat), Tone::Secondary),
        ink(" errors="@, Tone::Secondary),
        ink(dec(model.adapter_errors as nat), Tone::Secondary),
        nl(),
    ];
    match model.daemon_state {
        Some(state) => {
            d + seq![
                ink("scans="@, Tone::Secondary),
                ink(dec(state.counters.scans as nat), Tone::Secondary),
                ink(" deletions="@, Tone::Secondary),
                ink(dec(state.counters.deletions as nat), Tone::Secondary),
                ink(" errors="@, Tone::Secondary),
                ink(dec(state.counters.errors as nat), Tone::Secondary),
                ink(" dropped="@, Tone::Secondary),
                ink(dec(state.counters.dropped_log_events as nat), Tone::Secondary),
                nl(),
            ]
        },
        None => {
            d
        },
    }
}

fn runtime_counters_doc(model: &DashboardModel) -> (doc: Doc)
    ensures
        doc@ == runtime_counters_of(*model),
{
    let mut d = Doc::new();
    d.ink("adapter ", Tone::Secondary);
    d.badge(
        adapter_word(model.adapter_reads, model.adapter_errors),
        adapter_tone(model.adapter_reads, model.adapter_errors),
    );
    d.ink(" reads=", Tone::Secondary);
    d.ink(decimal(model.adapter_reads).as_str(), Tone::Secondary);
    d.ink(" errors=", Tone::Secondary);
    d.ink(decimal(model.adapter_errors).as_str(), Tone::Secondary);
    d.newline();
    if let Some(state) = &model.daemon_state {
        let mut p = Doc::new();
        p.ink("scans=", Tone::Secondary);
        p.ink(decimal(state.counters.scans).as_str(), Tone::Secondary);
        p.ink(" deletions=", Tone::Secondary);
        p.ink(decimal(state.counters.deletions).as_str(), Tone::Secondary);
        p.ink(" errors=", Tone::Secondary);
        p.ink(decimal(state.counters.errors).as_str(), Tone::Secondary);
        p.ink(" dropped=", Tone::Secondary);
        p.ink(decimal(state.counters.dropped_log_events).as_str(), Tone::Secondary);
        p.newline();
        d.append(p);
    }
    d
}

/// The screen state in the verbose mode.
pub open spec fn runtime_verbose_of(model: DashboardModel) -> Seq<PieceV> {
    if model.diagnostics_verbose {
        seq![
            ink("screen="@, Tone::Muted),
            ink(screen_label_of(model.screen), Tone::Muted),
            ink(" history="@, Tone::Muted),
            ink(dec(model.screen_history@.len() as nat), Tone::Muted),
            ink(" events="@, Tone::Muted),
            ink(dec(model.timeline_events@.len() as nat), Tone::Muted),
            ink(" decisions="@, Tone::Muted),
            ink(dec(model.explainability_decisions@.len() as nat), Tone::Muted),
            ink(" candidates="@, Tone::Muted),
            ink(dec(model.candidates_list@.len() as nat), Tone::Muted),
            nl(),
        ]
    } else {
        seq![]
    }
}

fn runtime_verbose_doc(model: &DashboardModel) -> (doc: Doc)
    ensures
        doc@ == runtime_verbose_of(*model),
{
    if model.diagnostics_verbose {
        let mut p = Doc::new();
        p.ink("screen=", Tone::Muted);
        p.ink(screen_label(model.screen), Tone::Muted);
        p.ink(" history=", Tone::Muted);
        p.ink(decimal_usize(model.screen_history.len()).as_str(), Tone::Muted);
        p.ink(" events=", Tone::Muted);
        p.ink(decimal_usize(model.timeline_events.len()).as_str(), Tone::Muted);
        p.ink(" decisions=", Tone::Muted);
        p.ink(decimal_usize(model.explainability_decisions.len()).as_str(), Tone::Muted);
        p.ink(" candidates=", Tone::Muted);
        p.ink(decimal_usize(model.candidates_list.len()).as_str(), Tone::Muted);
        p.newline();
        p
    } else {
        Doc::new()
    }
}

/// Runtime pane of the diagnostics screen.
pub open spec fn diagnostics_runtime_pane(model: DashboardModel) -> Seq<PieceV> {
    let d = runtime_counters_of(model);
    let d = d + styled_source_of("timeline"@, model.timeline_source, model.timeline_partial);
    let d = d + styled_source_of(
        "explain "@,
        model.explainability_source,
        model.explainability_partial,
    );
    let d = d + styled_source_of("candidat"@, model.candidates_source, model.candidates_partial);
    d + runtime_verbose_of(model)
}

/// Runtime pane of the diagnostics screen.
pub fn frame_diagnostics_runtime_styled(model: &DashboardModel) -> (doc: Doc)
    ensures
        doc@ == diagnostics_runtime_pane(*model),
{
    let mut d = runtime_counters_doc(model);
    d.append(styled_source_doc("timeline", model.timeline_source, model.timeline_partial));
    d.append(
        styled_source_doc("explain ", model.explainability_source, model.explainability_partial),
    );
    d.append(styled_source_doc("candidat", model.candidates_source, model.candidates_partial));
    d.append(runtime_verbose_doc(model));
    d
}

/// Performance pane of the diagnostics screen.
pub open spec fn diagnostics_perf_pane(model: DashboardModel) -> Seq<PieceV> {
    let d = match model.frame_stats {
        Some(stats) => {
            seq![
                ink("frame "@, Tone::Secondary),
                drawn(
                    Atom::Fixed { value: stats.current, decimals: 1 },
                    bold_fg(Ink::Of(frame_tone_of(stats.current))),
                ),
                styled("ms"@, bold_fg(Ink::Of(frame_tone_of(stats.current)))),
                ink("  avg="@, Tone::Secondary),
                drawn(Atom::Fixed { value: stats.avg, decimals: 1 }, fg(Ink::Of(Tone::Secondary))),
                ink("ms  min="@, Tone::Secondary),
                drawn(Atom::Fixed { value: stats.min, decimals: 1 }, fg(Ink::Of(Tone::Secondary))),
                ink("ms  max="@, Tone::Secondary),
                drawn(Atom::Fixed { value: stats.max, decimals: 1 }, fg(Ink::Of(Tone::Secondary))),
                ink("ms"@, Tone::Secondary),
                nl(),
            ]
        },
        None => {
            seq![
                ink("frame no data yet"@, Tone::Muted),
                nl(),
            ]
        },
    };
    let d = if model.frame_times@.len() > 0 {
        d + seq![
            ink("trace "@, Tone::Secondary),
            plain(Atom::Spark { samples: model.frame_times@, colored: true }),
            nl(),
        ]
    } else {
        d
    };
    d + seq![
        ink("terminal="@, Tone::Secondary),
        ink(dec(model.terminal_size.0 as nat), Tone::Secondary),
        ink("x"@, Tone::Secondary),
        ink(dec(model.terminal_size.1 as nat), Tone::Secondary),
        nl(),
    ]
}

/// Performance pane of the diagnostics screen.
pub fn frame_diagnostics_perf_styled(model: &DashboardModel) -> (doc: Doc)
    requires
        model.frame_times.wf(),
    ensures
        doc@ == diagnostics_perf_pane(*model),
{
    let mut d = if let Some(stats) = &model.frame_stats {
        let mut p = Doc::new();
        p.ink("frame ", Tone::Secondary);
        p.drawn(
            Atom::Fixed { value: stats.current, decimals: 1 },
            in_bold(Ink::Of(frame_tone(stats.current))),
        );
        p.styled("ms", in_bold(Ink::Of(frame_tone(stats.current))));
        p.ink("  avg=", Tone::Secondary);
        p.drawn(Atom::Fixed { value: stats.avg, decimals: 1 }, in_fg(Ink::Of(Tone::Secondary)));
        p.ink("ms  min=", Tone::Secondary);
        p.drawn(Atom::Fixed { value: stats.min, decimals: 1 }, in_fg(Ink::Of(Tone::Secondary)));
        p.ink("ms  max=", Tone::Secondary);
        p.drawn(Atom::Fixed { value: stats.max, decimals: 1 }, in_fg(Ink::Of(Tone::Secondary)));
        p.ink("ms", Tone::Secondary);
        p.newline();
        p
    } else {
        let mut p = Doc::new();
        p.ink("frame no data yet", Tone::Muted);
        p.newline();
        p
    };
    if model.frame_times.len() > 0 {
        let mut p = Doc::new();
        p.ink("trace ", Tone::Secondary);
        p.plain(Atom::Spark { samples: model.frame_times.chronological(), colored: true });
        p.newline();
        d.append(p);
    }
    let mut p = Doc::new();
    p.ink("terminal=", Tone::Secondary);
    p.ink(decimal(model.terminal_size.0 as u64).as_str(), Tone::Secondary);
    p.ink("x", Tone::Secondary);
    p.ink(decimal(model.terminal_size.1 as u64).as_str(), Tone::Secondary);
    p.newline();
    d.append(p);
    d
}

/// What the screen shows besides its hint line does not depend on how verbose
/// hints are.
pub proof fn law_diagnostics_ignore_hints(
    model: DashboardModel,
    ctx: RenderContext,
    other: HintVerbosity,
)
    ensures
        diagnostics_body(model, ctx) == diagnostics_body(
            (DashboardModel { hint_verbosity: other, ..model }),
            ctx,
        ),
{
}

/// An adapter without errors is healthy; one whose reads fail at least one
/// time in ten is failing.
pub proof fn law_adapter_badge(reads: u64, errors: u64)
    ensures
        adapter_word_of(reads, errors) == "OK"@ <== errors == 0,
        errors > 0 && 10 * errors >= reads + errors ==> adapter_word_of(reads, errors)
            == "FAILING"@,
        errors > 0 && 10 * errors < reads + errors ==> adapter_word_of(reads, errors)
            == "DEGRADED"@,
{
}

/// The verbose sections appear in the verbose mode only.
pub proof fn law_verbose_sections(model: DashboardModel)
    ensures
        !model.diagnostics_verbose ==> diagnostics_verbose_of(model).len() == 0,
        model.diagnostics_verbose ==> diagnostics_verbose_of(model).len() > 0,
{
}

/// A heavier frame is never shown as better, and the words of the frame budget agree with
/// its colours.
pub proof fn law_heavier_frames_are_not_better(a: Double, b: Double)
    requires
        a.ge(b),
    ensures
        alarm(budget_tone_of(a)) >= alarm(budget_tone_of(b)),
        alarm(frame_tone_of(a)) >= alarm(frame_tone_of(b)),
        budget_word_of(a) == "OVER"@ <==> budget_tone_of(a) == Tone::Danger,
        budget_word_of(a) == "HIGH"@ <==> budget_tone_of(a) == Tone::Warning,
        budget_word_of(a) == "OK"@ <==> budget_tone_of(a) == Tone::Success,
        budget_tone_of(a) == Tone::Danger <==> a.gt(Double { bits: 0x4054_0000_0000_0000 }),
        budget_tone_of(a) == Tone::Success <==> !a.gt(Double { bits: 0x4049_0000_0000_0000 }),
        frame_tone_of(a) == Tone::Danger <==> a.gt(Double { bits: 0x4030_0000_0000_0000 }),
        frame_tone_of(a) == Tone::Success <==> !a.gt(Double { bits: 0x4020_0000_0000_0000 }),
{
    reveal_strlit("OVER");
    reveal_strlit("HIGH");
    reveal_strlit("OK");
    assert("OVER"@[0] != "HIGH"@[0]);
    assert("OK"@.len() == 2 && "OVER"@.len() == 4 && "HIGH"@.len() == 4);
}

/// More failed reads never look better, and more reads that went well never look worse;
/// word and colour agree.
pub proof fn law_more_errors_are_not_better(reads: u64, more_reads: u64, errors: u64, more: u64)
    requires
        errors <= more,
        reads <= more_reads,
    ensures
        alarm(adapter_tone_of(reads, errors)) <= alarm(adapter_tone_of(reads, more)),
        alarm(adapter_tone_of(more_reads, errors)) <= alarm(adapter_tone_of(reads, errors)),
        adapter_tone_of(reads, errors) == Tone::Success <==> errors == 0,
        adapter_word_of(reads, errors) == "OK"@ <==> adapter_tone_of(reads, errors) == Tone::Success,
        adapter_word_of(reads, errors) == "FAILING"@ <==> adapter_tone_of(reads, errors)
            == Tone::Danger,
{
    reveal_strlit("OK");
    reveal_strlit("DEGRADED");
    reveal_strlit("FAILING");
    assert("OK"@.len() == 2 && "DEGRADED"@.len() == 8 && "FAILING"@.len() == 7);
}

/// The data mode reads "DEGRADED" in a warning colour exactly while it is degraded.
pub proof fn law_mode_badge(degraded: bool)
    ensures
        mode_word_of(degraded) == "DEGRADED"@ <==> degraded,
        mode_word_of(degraded) == "NORMAL"@ <==> !degraded,
        alarm(mode_tone_of(degraded)) > 0 <==> degraded,
{
    reveal_strlit("DEGRADED");
    reveal_strlit("NORMAL");
    assert("DEGRADED"@.len() == 8 && "NORMAL"@.len() == 6);
}

/// The age of a fetch is the time since then: a later fetch by some time is younger by
/// that time.
pub proof fn law_fetch_age(fetched: u64, age: u64)
    requires
        fetched + age <= u64::MAX,
    ensures
        fetch_age_of(Some(fetched), (fetched + age) as u64) == dec(age as nat) + "ms"@,
        fetch_age_of(None, fetched) == "never"@,
{
}

} // verus!
