//! Overview screen.

use vstd::prelude::*;

use crate::markup::alarm;
use crate::markup::labels;
use crate::double::Double;
use crate::layout::OverviewPane;
use crate::layout::PanePlacement;
use crate::layout::build_overview_layout;
use crate::layout::monus;
use crate::layout::overview_class;
use crate::layout::overview_density;
use crate::layout::overview_pane_id;
use crate::layout::overview_placements;
use crate::markup::Atom;
use crate::markup::Doc;
use crate::markup::Gauge;
use crate::markup::Ink;
use crate::markup::Pad;
use crate::markup::PieceV;
use crate::markup::Tone;
use crate::markup::badge;
use crate::markup::badge_in;
use crate::markup::bare;
use crate::markup::bold;
use crate::markup::bold_fg;
use crate::markup::drawn;
use crate::markup::fg;
use crate::markup::field;
use crate::markup::in_bold;
use crate::markup::in_fg;
use crate::markup::in_lines;
use crate::markup::indented;
use crate::markup::ink;
use crate::markup::nl;
use crate::markup::no_style;
use crate::markup::plain;
use crate::markup::styled;
use crate::markup::txt;
use crate::markup::unstyled;
use crate::model::DaemonState;
use crate::model::DashboardModel;
use crate::model::MountPressure;
use crate::model::RateEntry;
use crate::model::RateHistory;
use crate::model::RateTable;
use crate::preferences::HintVerbosity;
use crate::render::common::clamp;
use crate::render::common::clamped;
use crate::render::common::class_name;
use crate::render::common::cursor_mark;
use crate::render::common::cursor_mark_of;
use crate::render::common::data_source_name;
use crate::render::common::density_tier_name;
use crate::render::common::gauge_width;
use crate::render::common::gauge_width_for;
use crate::render::common::layout_class_name;
use crate::render::common::nav_hint_of;
use crate::render::common::overview_pane_target_label;
use crate::render::common::pane_priority_label;
use crate::render::common::pane_target;
use crate::render::common::policy_mode_color;
use crate::render::common::policy_tone_of;
use crate::render::common::priority_label;
use crate::render::common::shortened;
use crate::render::common::source_name;
use crate::render::common::tier_name;
use crate::render::common::truncate_path;
use crate::render::common::write_navigation_hint;
use crate::render::decisions::vetoed;
use crate::render::decisions::vetoed_of;
use crate::telemetry::DecisionEvidence;
use crate::telemetry::TimelineEvent;
use crate::text::chars_of;
use crate::text::contains;
use crate::text::contains_text;
use crate::text::dec;
use crate::text::decimal;
use crate::text::decimal_usize;
use crate::text::pad_left;
use crate::text::pad_right;
use crate::text::padded_left;
use crate::text::padded_right;
use crate::text::stands_at;
use crate::text::text_eq;
use crate::text::to_upper;
use crate::text::uppered;

verus! {

/// Free-space percentage below which a forecast is urgent (10%).
pub const URGENT_FREE: u64 = 0x4024_0000_0000_0000;

/// Free-space percentage below which a forecast is a warning (25%).
pub const WARNING_FREE: u64 = 0x4039_0000_0000_0000;

/// Free-space percentage of a machine without mounts (100%).
pub const ALL_FREE: u64 = 0x4059_0000_0000_0000;

/// Rate above which a trend raises an alert (1,000,000 bytes per second).
pub const ALERT_RATE: u64 = 0x412E_8480_0000_0000;

/// Score from which a candidate is hot (0.8).
pub const HOT_SCORE: u64 = 0x3FE9_9999_9999_999A;

/// Score from which a candidate is warm (0.6).
pub const WARM_SCORE: u64 = 0x3FE3_3333_3333_3333;

/// Zero.
pub const ZERO: u64 = 0;

/// Number of candidates on the hotlist.
pub const HOTLIST_LEN: usize = 5;

/// Width of a path column: what a reserve leaves of the pane, within bounds.
pub open spec fn path_column_of(pane_width: u16, reserve: int, lo: int, hi: int) -> int {
    clamped(monus(pane_width as int, reserve), lo, hi)
}

fn path_column(pane_width: u16, reserve: u16, lo: usize, hi: usize) -> (w: usize)
    requires
        lo <= hi,
    ensures
        w == path_column_of(pane_width, reserve as int, lo as int, hi as int),
{
    let rest: usize = if pane_width > reserve {
        (pane_width - reserve) as usize
    } else {
        0
    };
    clamp(rest, lo, hi)
}

/// Lowest free-space percentage over the mounts; all free without mounts.
pub open spec fn lowest_free_of(mounts: Seq<MountPressure>) -> Double
    decreases mounts.len(),
{
    if mounts.len() == 0 {
        Double { bits: ALL_FREE }
    } else if mounts.len() == 1 {
        mounts[0].free_pct
    } else {
        lowest_free_of(mounts.drop_last()).lesser(mounts.last().free_pct)
    }
}

/// Lowest free-space percentage over the mounts; all free without mounts.
pub fn lowest_free(mounts: &Vec<MountPressure>) -> (pct: Double)
    ensures
        pct == lowest_free_of(mounts@),
{
    if mounts.len() == 0 {
        return Double { bits: ALL_FREE };
    }
    let mut pct = mounts[0].free_pct;
    let mut k: usize = 1;
    assert(mounts@.take(1).len() == 1);
    while k < mounts.len()
        invariant
            1 <= k <= mounts@.len(),
            pct == lowest_free_of(mounts@.take(k as int)),
        decreases mounts@.len() - k,
    {
        assert(mounts@.take(k + 1).drop_last() =~= mounts@.take(k as int));
        pct = pct.lesser_of(mounts[k].free_pct);
        k += 1;
    }
    assert(mounts@.take(k as int) =~= mounts@);
    pct
}

/// Index of the mount with the least free space, the first one of several.
pub open spec fn worst_mount_of(mounts: Seq<MountPressure>) -> int
    decreases mounts.len(),
{
    if mounts.len() <= 1 {
        0
    } else {
        let w = worst_mount_of(mounts.drop_last());
        if mounts.last().free_pct.total_key() < mounts[w].free_pct.total_key() {
            mounts.len() - 1
        } else {
            w
        }
    }
}

/// The worst mount has the least free space of all, and those before it more.
pub proof fn law_worst_mount(mounts: Seq<MountPressure>)
    requires
        mounts.len() > 0,
    ensures
        0 <= worst_mount_of(mounts) < mounts.len(),
        forall|j: int|
            0 <= j < mounts.len() ==> mounts[worst_mount_of(mounts)].free_pct.total_key() <= (
            #[trigger] mounts[j]).free_pct.total_key(),
        forall|j: int|
            0 <= j < worst_mount_of(mounts) ==> mounts[worst_mount_of(mounts)].free_pct.total_key()
                < (#[trigger] mounts[j]).free_pct.total_key(),
    decreases mounts.len(),
{
    if mounts.len() > 1 {
        let rest = mounts.drop_last();
        law_worst_mount(rest);
        assert forall|j: int| 0 <= j < mounts.len() implies mounts[worst_mount_of(
            mounts,
        )].free_pct.total_key() <= (#[trigger] mounts[j]).free_pct.total_key() by {
            if j < rest.len() {
                assert(rest[j] == mounts[j]);
            }
        }
        assert forall|j: int| 0 <= j < worst_mount_of(mounts) implies mounts[worst_mount_of(
            mounts,
        )].free_pct.total_key() < (#[trigger] mounts[j]).free_pct.total_key() by {
            assert(rest[j] == mounts[j]);
        }
    }
}

/// Index of the mount with the least free space, the first one of several.
pub fn worst_mount(mounts: &Vec<MountPressure>) -> (w: usize)
    requires
        mounts@.len() > 0,
    ensures
        w == worst_mount_of(mounts@),
        w < mounts@.len(),
{
    let mut w: usize = 0;
    let mut k: usize = 1;
    while k < mounts.len()
        invariant
            1 <= k <= mounts@.len(),
            w < k,
            w == worst_mount_of(mounts@.take(k as int)),
        decreases mounts@.len() - k,
    {
        assert(mounts@.take(k + 1).drop_last() =~= mounts@.take(k as int));
        if mounts[k].free_pct.totally_before(mounts[w].free_pct) {
            w = k;
        }
        k += 1;
    }
    assert(mounts@.take(k as int) =~= mounts@);
    w
}

/// Whether a mount fills up while there is something left to fill.
pub open spec fn has_eta_of(mount: MountPressure) -> bool {
    match mount.rate_bps {
        Some(rate) => !(Double { bits: ZERO }).ge(rate) && !(Double { bits: ZERO }).ge(
            mount.free_pct,
        ),
        None => false,
    }
}

fn has_eta(mount: &MountPressure) -> (b: bool)
    ensures
        b == has_eta_of(*mount),
{
    let zero = Double { bits: ZERO };
    match mount.rate_bps {
        Some(rate) => !zero.at_least(rate) && !zero.at_least(mount.free_pct),
        None => false,
    }
}

/// Whether a rate is known and consumes space.
pub open spec fn consumes_of(rate: Option<Double>) -> bool {
    match rate {
        Some(r) => r.gt(Double { bits: ZERO }),
        None => false,
    }
}

fn consumes(rate: Option<Double>) -> (b: bool)
    ensures
        b == consumes_of(rate),
{
    match rate {
        Some(r) => r.greater_than(Double { bits: ZERO }),
        None => false,
    }
}

/// A pressure level in capitals, cut to eight characters, in brackets.
pub open spec fn level_tag_of(level: Seq<char>) -> Seq<char> {
    let core = uppered(level);
    "["@ + (if core.len() <= 8 {
        core
    } else {
        core.take(8)
    }) + "]"@
}

fn level_tag(level: &str) -> (s: String)
    ensures
        s@ == level_tag_of(level@),
{
    let core = to_upper(level);
    let chars = chars_of(core.as_str());
    let mut s = "[".to_owned();
    let mut k: usize = 0;
    while k < chars.len() && k < 8
        invariant
            chars@ == core@,
            k <= chars@.len(),
            k <= 8,
            s@ == "["@ + core@.take(k as int),
        decreases chars@.len() - k,
    {
        s.push(chars[k]);
        assert(core@.take(k as int).push(chars@[k as int]) =~= core@.take(k + 1));
        k += 1;
    }
    assert(core@.len() <= 8 ==> core@.take(k as int) =~= core@);
    s.append("]");
    s
}

/// Scores of a list of decisions, in order.
pub open spec fn scores_of(decisions: Seq<DecisionEvidence>) -> Seq<Double> {
    decisions.map_values(|d: DecisionEvidence| d.total_score)
}

fn scores(decisions: &Vec<DecisionEvidence>) -> (s: Vec<Double>)
    ensures
        s@ == scores_of(decisions@),
{
    let mut s: Vec<Double> = Vec::new();
    let mut k: usize = 0;
    while k < decisions.len()
        invariant
            k <= decisions@.len(),
            s@.len() == k,
            forall|j: int| 0 <= j < k ==> #[trigger] s@[j] == decisions@[j].total_score,
        decreases decisions@.len() - k,
    {
        s.push(decisions[k].total_score);
        k += 1;
    }
    assert(s@ =~= scores_of(decisions@));
    s
}

/// Whether an event is on a path that holds a text.
pub open spec fn on_path_of(event: TimelineEvent, part: Seq<char>) -> bool {
    match event.path {
        Some(path) => contains_text(path@, part),
        None => false,
    }
}

/// Number of events on paths that hold a text.
pub open spec fn path_hits_of(events: Seq<TimelineEvent>, part: Seq<char>) -> nat
    decreases events.len(),
{
    if events.len() == 0 {
        0
    } else if on_path_of(events.last(), part) {
        path_hits_of(events.drop_last(), part) + 1
    } else {
        path_hits_of(events.drop_last(), part)
    }
}

/// Number of events on paths that hold a text.
pub fn path_hits(events: &Vec<TimelineEvent>, part: &str) -> (n: usize)
    ensures
        n == path_hits_of(events@, part@),
{
    let mut n: usize = 0;
    let mut k: usize = 0;
    while k < events.len()
        invariant
            n <= k <= events@.len(),
            n == path_hits_of(events@.take(k as int), part@),
        decreases events@.len() - k,
    {
        assert(events@.take(k + 1).drop_last() =~= events@.take(k as int));
        if let Some(path) = &events[k].path {
            if contains(path.as_str(), part) {
                n += 1;
            }
        }
        k += 1;
    }
    assert(events@.take(k as int) =~= events@);
    n
}

/// Number of critical events.
pub open spec fn criticals_of(events: Seq<TimelineEvent>) -> nat
    decreases events.len(),
{
    if events.len() == 0 {
        0
    } else if events.last().severity@ == "critical"@ {
        criticals_of(events.drop_last()) + 1
    } else {
        criticals_of(events.drop_last())
    }
}

/// Number of critical events.
pub fn criticals(events: &Vec<TimelineEvent>) -> (n: usize)
    ensures
        n == criticals_of(events@),
{
    let mut n: usize = 0;
    let mut k: usize = 0;
    while k < events.len()
        invariant
            n <= k <= events@.len(),
            n == criticals_of(events@.take(k as int)),
        decreases events@.len() - k,
    {
        assert(events@.take(k + 1).drop_last() =~= events@.take(k as int));
        if text_eq(events[k].severity.as_str(), "critical") {
            n += 1;
        }
        k += 1;
    }
    assert(events@.take(k as int) =~= events@);
    n
}

/// An event under a directory of another one is counted with both.
pub proof fn law_nested_path_hits(events: Seq<TimelineEvent>)
    ensures
        path_hits_of(events, "/data/tmp"@) <= path_hits_of(events, "/tmp"@) <= events.len(),
    decreases events.len(),
{
    if events.len() > 0 {
        law_nested_path_hits(events.drop_last());
        let event = events.last();
        if on_path_of(event, "/data/tmp"@) {
            reveal_strlit("/data/tmp");
            reveal_strlit("/tmp");
            let path = event.path->0@;
            let at = choose|at: int| stands_at(path, "/data/tmp"@, at);
            assert("/data/tmp"@.subrange(5, 9) =~= "/tmp"@);
            assert(path.subrange(at + 5, at + 9) =~= path.subrange(at, at + 9).subrange(5, 9));
            assert(stands_at(path, "/tmp"@, at + 5));
        }
    }
}

/// Latest reading of a history; zero without readings.
pub open spec fn latest_of(history: RateHistory) -> Double {
    if history@.len() == 0 {
        Double { bits: ZERO }
    } else {
        history@.last()
    }
}

fn latest(history: &RateHistory) -> (d: Double)
    requires
        history.wf(),
    ensures
        d == latest_of(*history),
{
    match history.latest() {
        Some(d) => d,
        None => Double { bits: ZERO },
    }
}

/// Hotlist label for a score.
pub open spec fn heat_word_of(score: Double) -> Seq<char> {
    if score.ge(Double { bits: HOT_SCORE }) {
        "HOT"@
    } else if score.ge(Double { bits: WARM_SCORE }) {
        "WARM"@
    } else {
        "MILD"@
    }
}

/// Hotlist label for a score.
pub fn heat_word(score: Double) -> (w: &'static str)
    ensures
        w@ == heat_word_of(score),
{
    if score.at_least(Double { bits: HOT_SCORE }) {
        "HOT"
    } else if score.at_least(Double { bits: WARM_SCORE }) {
        "WARM"
    } else {
        "MILD"
    }
}

/// Colour role for a hotlist score.
pub open spec fn heat_tone_of(score: Double) -> Tone {
    if score.ge(Double { bits: HOT_SCORE }) {
        Tone::Critical
    } else if score.ge(Double { bits: WARM_SCORE }) {
        Tone::Warning
    } else {
        Tone::Accent
    }
}

/// Colour role for a hotlist score.
pub fn heat_tone(score: Double) -> (t: Tone)
    ensures
        t == heat_tone_of(score),
{
    if score.at_least(Double { bits: HOT_SCORE }) {
        Tone::Critical
    } else if score.at_least(Double { bits: WARM_SCORE }) {
        Tone::Warning
    } else {
        Tone::Accent
    }
}

/// Colour role for a free-space forecast.
pub open spec fn urgency_tone_of(pct: Double) -> Tone {
    if pct.lt(Double { bits: URGENT_FREE }) {
        Tone::Danger
    } else if pct.lt(Double { bits: WARNING_FREE }) {
        Tone::Warning
    } else {
        Tone::Success
    }
}

/// Colour role for a free-space forecast.
pub fn urgency_tone(pct: Double) -> (t: Tone)
    ensures
        t == urgency_tone_of(pct),
{
    if pct.less_than(Double { bits: URGENT_FREE }) {
        Tone::Danger
    } else if pct.less_than(Double { bits: WARNING_FREE }) {
        Tone::Warning
    } else {
        Tone::Success
    }
}

/// Colour role for a rate.
pub open spec fn rate_tone_of(rate: Double) -> Tone {
    if rate.gt(Double { bits: ALERT_RATE }) {
        Tone::Danger
    } else if rate.gt(Double { bits: ZERO }) {
        Tone::Warning
    } else {
        Tone::Success
    }
}

/// Colour role for a rate.
pub fn rate_tone(rate: Double) -> (t: Tone)
    ensures
        t == rate_tone_of(rate),
{
    if rate.greater_than(Double { bits: ALERT_RATE }) {
        Tone::Danger
    } else if rate.greater_than(Double { bits: ZERO }) {
        Tone::Warning
    } else {
        Tone::Success
    }
}

/// Badge label of the ballast pane.
pub open spec fn fleet_word_of(available: u64, total: u64) -> Seq<char> {
    if total > 0 && available == 0 {
        "CRITICAL"@
    } else if 2 * available < total {
        "LOW"@
    } else {
        "OK"@
    }
}

/// Badge label of the ballast pane.
pub fn fleet_word(available: u64, total: u64) -> (w: &'static str)
    ensures
        w@ == fleet_word_of(available, total),
{
    if total > 0 && available == 0 {
        "CRITICAL"
    } else if available <= total && available < total - available {
        "LOW"
    } else {
        "OK"
    }
}

/// Colour role of the ballast pane.
pub open spec fn fleet_tone_of(available: u64, total: u64) -> Tone {
    if total > 0 && available == 0 {
        Tone::Critical
    } else if 2 * available < total {
        Tone::Warning
    } else {
        Tone::Success
    }
}

/// Colour role of the ballast pane.
pub fn fleet_tone(available: u64, total: u64) -> (t: Tone)
    ensures
        t == fleet_tone_of(available, total),
{
    if total > 0 && available == 0 {
        Tone::Critical
    } else if available <= total && available < total - available {
        Tone::Warning
    } else {
        Tone::Success
    }
}

/// Badge label for a count of vetoes.
pub open spec fn pulse_word_of(count: int) -> Seq<char> {
    if count > 0 {
        "VETOES"@
    } else {
        "CLEAR"@
    }
}

/// Badge label for a count of vetoes.
pub fn pulse_word(count: usize) -> (w: &'static str)
    ensures
        w@ == pulse_word_of(count as int),
{
    if count > 0 {
        "VETOES"
    } else {
        "CLEAR"
    }
}

/// Badge label for a count of critical events.
pub open spec fn watch_word_of(count: int) -> Seq<char> {
    if count > 0 {
        "WATCH"@
    } else {
        "STABLE"@
    }
}

/// Badge label for a count of critical events.
pub fn watch_word(count: usize) -> (w: &'static str)
    ensures
        w@ == watch_word_of(count as int),
{
    if count > 0 {
        "WATCH"
    } else {
        "STABLE"
    }
}

/// Colour role for a count that should be zero.
pub open spec fn count_tone_of(count: int) -> Tone {
    if count > 0 {
        Tone::Warning
    } else {
        Tone::Success
    }
}

/// Colour role for a count that should be zero.
pub fn count_tone(count: usize) -> (t: Tone)
    ensures
        t == count_tone_of(count as int),
{
    if count > 0 {
        Tone::Warning
    } else {
        Tone::Success
    }
}

/// The policy mode, or that it is unknown.
pub open spec fn policy_text_of(mode: Seq<char>) -> Seq<char> {
    if mode.len() == 0 {
        "unknown"@
    } else {
        mode
    }
}

fn policy_text(mode: &str) -> (s: String)
    ensures
        s@ == policy_text_of(mode@),
{
    if mode.is_empty() {
        "unknown".to_owned()
    } else {
        mode.to_owned()
    }
}

/// One mount of the pressure matrix.
pub open spec fn mount_row(mount: MountPressure, pane_width: u16) -> Seq<PieceV> {
    let d = seq![
        nl(),
        txt("  "@),
        txt(
            padded_right(
                shortened(mount.path@, path_column_of(pane_width, 40, 8, 26) as nat),
                path_column_of(pane_width, 40, 8, 26) as nat,
            ),
        ),
        txt(" "@),
        field(Atom::Fixed { value: mount.free_pct, decimals: 1 }, Pad::Right(5), unstyled()),
        txt("% free "@),
    ];
    let d = match mount.rate_bps {
        Some(rate) => {
            d + seq![
                field(Atom::Rate(rate), Pad::Right(11), unstyled()),
            ]
        },
        None => {
            d + seq![
                txt(padded_left("-"@, 11)),
            ]
        },
    };
    let d = d + seq![
        txt(" "@),
        txt(padded_left(level_tag_of(mount.level@), 10)),
        txt(" "@),
        plain(Atom::Gauge {
            of: Gauge::Used(mount.free_pct),
            width: gauge_width(pane_width) as usize,
            segmented: false,
        }),
    ];
    if consumes_of(mount.rate_bps) && mount.free_pct.gt(Double { bits: ZERO }) {
        d + seq![
            txt(" \u{26a0}"@),
        ]
    } else {
        d
    }
}

fn mount_row_doc(mount: &MountPressure, pane_width: u16) -> (doc: Doc)
    ensures
        doc@ == mount_row(*mount, pane_width),
{
    let column: usize = path_column(pane_width, 40, 8, 26);
    let mut d = Doc::new();
    d.newline();
    d.text("  ");
    d.text(pad_right(truncate_path(mount.path.as_str(), column).as_str(), column).as_str());
    d.text(" ");
    d.put(Atom::Fixed { value: mount.free_pct, decimals: 1 }, Pad::Right(5), no_style());
    d.text("% free ");
    if let Some(rate) = mount.rate_bps {
        let mut p = Doc::new();
        p.put(Atom::Rate(rate), Pad::Right(11), no_style());
        d.append(p);
    } else {
        let mut p = Doc::new();
        p.text(pad_left("-", 11).as_str());
        d.append(p);
    }
    let mut p = Doc::new();
    p.text(" ");
    p.text(pad_left(level_tag(mount.level.as_str()).as_str(), 10).as_str());
    p.text(" ");
    p.plain(Atom::Gauge {
            of: Gauge::Used(mount.free_pct),
            width: gauge_width_for(pane_width),
            segmented: false,
        });
    d.append(p);
    if consumes(mount.rate_bps) && mount.free_pct.greater_than(Double { bits: ZERO }) {
        let mut p = Doc::new();
        p.text(" \u{26a0}");
        d.append(p);
    }
    d
}

/// Rows of the pressure matrix.
pub open spec fn mount_rows_of(
    state: DaemonState,
    pane_width: u16,
    from: int,
    to: int,
) -> Seq<PieceV>
    decreases to - from,
{
    if to <= from {
        seq![]
    } else {
        mount_rows_of(state, pane_width, from, to - 1) + mount_row(
            state.pressure.mounts@[(to - 1)],
            pane_width,
        )
    }
}

fn mount_rows(state: &DaemonState, pane_width: u16, from: usize, to: usize) -> (doc: Doc)
    requires
        from <= to,
        to <= state.pressure.mounts@.len(),
    ensures
        doc@ == mount_rows_of(*state, pane_width, from as int, to as int),
{
    let mut d = Doc::new();
    let mut k: usize = from;
    while k < to
        invariant
            from <= k <= to,
            to <= state.pressure.mounts@.len(),
            d@ == mount_rows_of(*state, pane_width, from as int, k as int),
        decreases to - k,
    {
        d.append(mount_row_doc(&state.pressure.mounts[k], pane_width));
        k += 1;
    }
    d
}

/// Pressure of the machine and of each mount.
pub open spec fn pressure_matrix(state: DaemonState, pane_width: u16) -> Seq<PieceV> {
    let d = seq![
        txt("pressure "@),
        badge_in(uppered(state.pressure.overall@), Ink::Pressure(state.pressure.overall@)),
        txt(" worst-free="@),
        plain(Atom::Fixed { value: lowest_free_of(state.pressure.mounts@), decimals: 1 }),
        txt("% mounts="@),
        txt(dec(state.pressure.mounts@.len() as nat)),
    ];
    let d = if state.policy_mode@.len() > 0 {
        d + seq![
            txt(" policy="@),
            badge(uppered(state.policy_mode@), policy_tone_of(state.policy_mode@)),
        ]
    } else {
        d
    };
    let d = d + seq![
        nl(),
        txt("  "@),
        txt(padded_right("mount"@, path_column_of(pane_width, 40, 8, 26) as nat)),
        txt("        free        rate      level used"@),
    ];
    d + mount_rows_of(state, pane_width, 0, state.pressure.mounts@.len() as int)
}

fn pressure_matrix_doc(state: &DaemonState, pane_width: u16) -> (doc: Doc)
    ensures
        doc@ == pressure_matrix(*state, pane_width),
{
    let mut d = Doc::new();
    d.text("pressure ");
    d.badge_in(
        to_upper(state.pressure.overall.as_str()).as_str(),
        Ink::Pressure(state.pressure.overall.clone()),
    );
    d.text(" worst-free=");
    d.plain(Atom::Fixed { value: lowest_free(&state.pressure.mounts), decimals: 1 });
    d.text("% mounts=");
    d.text(decimal_usize(state.pressure.mounts.len()).as_str());
    if !state.policy_mode.as_str().is_empty() {
        let mut p = Doc::new();
        p.text(" policy=");
        p.badge(
            to_upper(state.policy_mode.as_str()).as_str(),
            policy_mode_color(state.policy_mode.as_str()),
        );
        d.append(p);
    }
    let mut p = Doc::new();
    p.newline();
    p.text("  ");
    p.text(pad_right("mount", path_column(pane_width, 40, 8, 26)).as_str());
    p.text("        free        rate      level used");
    d.append(p);
    d.append(mount_rows(state, pane_width, 0, state.pressure.mounts.len()));
    d
}

/// The watched paths, one per line.
pub open spec fn watched_paths_of(paths: Seq<String>, from: int, to: int) -> Seq<PieceV>
    decreases to - from,
{
    if to <= from {
        seq![]
    } else {
        watched_paths_of(paths, from, to - 1) + seq![
            nl(),
            txt("  "@),
            txt(paths[(to - 1)]@),
        ]
    }
}

fn watched_path(path: &str) -> (doc: Doc)
    ensures
        doc@ == seq![nl(), txt("  "@), txt(path@)],
{
    let mut d = Doc::new();
    d.newline();
    d.text("  ");
    d.text(path);
    d
}

fn watched_paths(paths: &Vec<String>, from: usize, to: usize) -> (doc: Doc)
    requires
        from <= to,
        to <= paths@.len(),
    ensures
        doc@ == watched_paths_of(paths@, from as int, to as int),
{
    let mut d = Doc::new();
    let mut k: usize = from;
    while k < to
        invariant
            from <= k <= to,
            to <= paths@.len(),
            d@ == watched_paths_of(paths@, from as int, k as int),
        decreases to - k,
    {
        d.append(watched_path(paths[k].as_str()));
        k += 1;
    }
    d
}

/// Pressure pane: the matrix of mounts, the watched paths while degraded, or that
/// nothing is known.
pub open spec fn pressure_summary(model: DashboardModel, pane_width: u16) -> Seq<PieceV> {
    match model.daemon_state {
        Some(state) => {
            pressure_matrix(state, pane_width)
        },
        None => {
            if model.degraded && model.monitor_paths@.len() > 0 {
                let d = seq![
                    txt("pressure "@),
                    badge("DEGRADED"@, Tone::Warning),
                    txt(" live-fs-stats paths="@),
                    txt(dec(model.monitor_paths@.len() as nat)),
                ];
                d + watched_paths_of(model.monitor_paths@, 0, model.monitor_paths@.len() as int)
            } else {
                seq![
                    txt("pressure "@),
                    badge("UNKNOWN"@, Tone::Muted),
                    txt(" daemon-state-unavailable"@),
                ]
            }
        },
    }
}

/// Pressure pane: the matrix of mounts, the watched paths while degraded, or that
/// nothing is known.
pub fn render_pressure_summary(model: &DashboardModel, pane_width: u16) -> (doc: Doc)
    ensures
        doc@ == pressure_summary(*model, pane_width),
{
    if let Some(state) = &model.daemon_state {
        pressure_matrix_doc(state, pane_width)
    } else {
        if model.degraded && model.monitor_paths.len() > 0 {
            let mut q = Doc::new();
            q.text("pressure ");
            q.badge("DEGRADED", Tone::Warning);
            q.text(" live-fs-stats paths=");
            q.text(decimal_usize(model.monitor_paths.len()).as_str());
            q.append(watched_paths(&model.monitor_paths, 0, model.monitor_paths.len()));
            q
        } else {
            let mut q = Doc::new();
            q.text("pressure ");
            q.badge("UNKNOWN", Tone::Muted);
            q.text(" daemon-state-unavailable");
            q
        }
    }
}

/// Action pane: what the daemon has done.
pub open spec fn action_lane(model: DashboardModel) -> Seq<PieceV> {
    match model.daemon_state {
        Some(state) => {
            seq![
                txt("actions scans="@),
                txt(dec(state.counters.scans as nat)),
                txt(" deleted="@),
                txt(dec(state.counters.deletions as nat)),
                txt(" freed="@),
                plain(Atom::Bytes(state.counters.bytes_freed)),
            ]
        },
        None => {
            seq![
                txt("actions awaiting daemon connection"@),
            ]
        },
    }
}

/// Action pane: what the daemon has done.
pub fn render_action_lane(model: &DashboardModel) -> (doc: Doc)
    ensures
        doc@ == action_lane(*model),
{
    if let Some(state) = &model.daemon_state {
        let mut p = Doc::new();
        p.text("actions scans=");
        p.text(decimal(state.counters.scans).as_str());
        p.text(" deleted=");
        p.text(decimal(state.counters.deletions).as_str());
        p.text(" freed=");
        p.plain(Atom::Bytes(state.counters.bytes_freed));
        p
    } else {
        let mut p = Doc::new();
        p.text("actions awaiting daemon connection");
        p
    }
}

/// The forecast for one mount.
pub open spec fn mount_forecast(mount: MountPressure) -> Seq<PieceV> {
    let d = seq![
        txt("forecast "@),
        badge_in(uppered(mount.level@), Ink::Pressure(mount.level@)),
        txt(" worst="@),
        txt(mount.path@),
        txt(" free="@),
        plain(Atom::Fixed { value: mount.free_pct, decimals: 1 }),
        txt("% eta\u{2248}"@),
    ];
    if has_eta_of(mount) {
        d + seq![
            plain(Atom::Eta { free_pct: mount.free_pct, rate: mount.rate_bps->0 }),
        ]
    } else {
        d + seq![
            txt("insufficient trend data"@),
        ]
    }
}

fn mount_forecast_doc(mount: &MountPressure) -> (doc: Doc)
    ensures
        doc@ == mount_forecast(*mount),
{
    let mut d = Doc::new();
    d.text("forecast ");
    d.badge_in(to_upper(mount.level.as_str()).as_str(), Ink::Pressure(mount.level.clone()));
    d.text(" worst=");
    d.text(mount.path.as_str());
    d.text(" free=");
    d.plain(Atom::Fixed { value: mount.free_pct, decimals: 1 });
    d.text("% eta\u{2248}");
    if has_eta(mount) {
        let mut p = Doc::new();
        p.plain(Atom::Eta { free_pct: mount.free_pct, rate: mount.rate_bps.unwrap() });
        d.append(p);
    } else {
        let mut p = Doc::new();
        p.text("insufficient trend data");
        d.append(p);
    }
    d
}

/// Forecast pane: when the worst mount is full.
pub open spec fn forecast_horizon(model: DashboardModel) -> Seq<PieceV> {
    match model.daemon_state {
        Some(state) => {
            if state.pressure.mounts@.len() > 0 {
                mount_forecast(
                    state.pressure.mounts@[worst_mount_of(state.pressure.mounts@)],
                )
            } else {
                seq![
                    txt("forecast awaiting daemon trend inputs"@),
                ]
            }
        },
        None => {
            seq![
                txt("forecast awaiting daemon trend inputs"@),
            ]
        },
    }
}

/// Forecast pane: when the worst mount is full.
pub fn render_forecast_horizon(model: &DashboardModel) -> (doc: Doc)
    ensures
        doc@ == forecast_horizon(*model),
{
    if let Some(state) = &model.daemon_state {
        if state.pressure.mounts.len() > 0 {
            mount_forecast_doc(&state.pressure.mounts[worst_mount(&state.pressure.mounts)])
        } else {
            let mut q = Doc::new();
            q.text("forecast awaiting daemon trend inputs");
            q
        }
    } else {
        let mut p = Doc::new();
        p.text("forecast awaiting daemon trend inputs");
        p
    }
}

/// One mount of the trend lattice.
pub open spec fn trend_row(entry: RateEntry) -> Seq<PieceV> {
    let rate = latest_of(entry.history);
    let d = seq![
        nl(),
        txt("  "@),
        txt(padded_right(entry.mount@, 14)),
        txt(" "@),
        plain(Atom::Spark { samples: entry.history@, colored: false }),
        txt(" "@),
        plain(Atom::Rate(rate)),
        txt(" "@),
        plain(Atom::Trend(rate)),
    ];
    if rate.gt(Double { bits: ALERT_RATE }) {
        d + seq![
            txt(" \u{26a0}"@),
        ]
    } else {
        d
    }
}

fn trend_row_doc(entry: &RateEntry) -> (doc: Doc)
    requires
        entry.history.wf(),
    ensures
        doc@ == trend_row(*entry),
{
    let rate = latest(&entry.history);
    let mut d = Doc::new();
    d.newline();
    d.text("  ");
    d.text(pad_right(entry.mount.as_str(), 14).as_str());
    d.text(" ");
    d.plain(Atom::Spark { samples: entry.history.chronological(), colored: false });
    d.text(" ");
    d.plain(Atom::Rate(rate));
    d.text(" ");
    d.plain(Atom::Trend(rate));
    if rate.greater_than(Double { bits: ALERT_RATE }) {
        let mut p = Doc::new();
        p.text(" \u{26a0}");
        d.append(p);
    }
    d
}

/// Rows of the trend lattice, in mount order.
pub open spec fn trend_rows_of(entries: Seq<RateEntry>, from: int, to: int) -> Seq<PieceV>
    decreases to - from,
{
    if to <= from {
        seq![]
    } else {
        trend_rows_of(entries, from, to - 1) + trend_row(entries[(to - 1)])
    }
}

fn trend_rows(table: &RateTable, from: usize, to: usize) -> (doc: Doc)
    requires
        from <= to,
        to <= table.entries@.len(),
        table.wf(),
    ensures
        doc@ == trend_rows_of(table.entries@, from as int, to as int),
{
    let mut d = Doc::new();
    let mut k: usize = from;
    while k < to
        invariant
            from <= k <= to,
            to <= table.entries@.len(),
            table.wf(),
            d@ == trend_rows_of(table.entries@, from as int, k as int),
        decreases to - k,
    {
        d.append(trend_row_doc(&table.entries[k]));
        k += 1;
    }
    d
}

/// Trend pane: the recent rates of each mount.
pub open spec fn ewma_trend(model: DashboardModel) -> Seq<PieceV> {
    if model.rate_histories.entries@.len() == 0 {
        seq![
            txt("ewma no-rate-data"@),
        ]
    } else {
        let d = seq![
            txt("ewma "@),
            txt(dec(model.rate_histories.entries@.len() as nat)),
            txt(" mounts"@),
        ];
        d + trend_rows_of(
            model.rate_histories.entries@,
            0,
            model.rate_histories.entries@.len() as int,
        )
    }
}

/// Trend pane: the recent rates of each mount.
pub fn render_ewma_trend(model: &DashboardModel) -> (doc: Doc)
    requires
        model.rate_histories.wf(),
    ensures
        doc@ == ewma_trend(*model),
{
    if model.rate_histories.entries.len() == 0 {
        let mut p = Doc::new();
        p.text("ewma no-rate-data");
        p
    } else {
        let mut p = Doc::new();
        p.text("ewma ");
        p.text(decimal_usize(model.rate_histories.entries.len()).as_str());
        p.text(" mounts");
        p.append(trend_rows(&model.rate_histories, 0, model.rate_histories.entries.len()));
        p
    }
}

/// What the last scan did.
pub open spec fn recent_activity(model: DashboardModel) -> Seq<PieceV> {
    match model.daemon_state {
        Some(state) => {
            let d = seq![
                txt("activity last-scan="@),
            ];
            let d = match state.last_scan.at {
                Some(at) => {
                    d + seq![
                        plain(Atom::Clock(at@)),
                    ]
                },
                None => {
                    d + seq![
                        txt("never"@),
                    ]
                },
            };
            d + seq![
                txt(" candidates="@),
                txt(dec(state.last_scan.candidates as nat)),
                txt(" deleted="@),
                txt(dec(state.last_scan.deleted as nat)),
                txt(" errors="@),
                txt(dec(state.counters.errors as nat)),
            ]
        },
        None => {
            seq![
                txt("activity unavailable while degraded"@),
            ]
        },
    }
}

/// What the last scan did.
pub fn render_recent_activity(model: &DashboardModel) -> (doc: Doc)
    ensures
        doc@ == recent_activity(*model),
{
    if let Some(state) = &model.daemon_state {
        let mut p = Doc::new();
        p.text("activity last-scan=");
        if let Some(at) = &state.last_scan.at {
            let mut q = Doc::new();
            q.plain(Atom::Clock(at.clone()));
            p.append(q);
        } else {
            let mut q = Doc::new();
            q.text("never");
            p.append(q);
        }
        let mut q = Doc::new();
        q.text(" candidates=");
        q.text(decimal(state.last_scan.candidates).as_str());
        q.text(" deleted=");
        q.text(decimal(state.last_scan.deleted).as_str());
        q.text(" errors=");
        q.text(decimal(state.counters.errors).as_str());
        p.append(q);
        p
    } else {
        let mut p = Doc::new();
        p.text("activity unavailable while degraded");
        p
    }
}

/// Decision pane: the decisions so far and the last scan.
pub open spec fn decision_pulse(model: DashboardModel) -> Seq<PieceV> {
    let d = if model.explainability_decisions@.len() == 0 {
        seq![
            txt("decision-pulse no evidence loaded yet"@),
        ]
    } else {
        seq![
            txt("decision-pulse "@),
            badge(
                pulse_word_of(vetoed_of(model.explainability_decisions@) as int),
                count_tone_of(vetoed_of(model.explainability_decisions@) as int),
            ),
            txt(" decisions="@),
            txt(dec(model.explainability_decisions@.len() as nat)),
            txt(" vetoed="@),
            txt(dec(vetoed_of(model.explainability_decisions@) as nat)),
            txt(" avg-score="@),
            plain(Atom::Mean { values: scores_of(model.explainability_decisions@), decimals: 2 }),
        ]
    };
    let d = d + seq![
        nl(),
        txt("  "@),
    ];
    d + recent_activity(model)
}

/// Decision pane: the decisions so far and the last scan.
pub fn render_decision_pulse(model: &DashboardModel) -> (doc: Doc)
    ensures
        doc@ == decision_pulse(*model),
{
    let mut d = if model.explainability_decisions.len() == 0 {
        let mut p = Doc::new();
        p.text("decision-pulse no evidence loaded yet");
        p
    } else {
        let mut p = Doc::new();
        p.text("decision-pulse ");
        p.badge(
            pulse_word(vetoed(&model.explainability_decisions)),
            count_tone(vetoed(&model.explainability_decisions)),
        );
        p.text(" decisions=");
        p.text(decimal_usize(model.explainability_decisions.len()).as_str());
        p.text(" vetoed=");
        p.text(decimal_usize(vetoed(&model.explainability_decisions)).as_str());
        p.text(" avg-score=");
        p.plain(Atom::Mean { values: scores(&model.explainability_decisions), decimals: 2 });
        p
    };
    let mut p = Doc::new();
    p.newline();
    p.text("  ");
    d.append(p);
    d.append(render_recent_activity(model));
    d
}

/// One candidate of the hotlist.
pub open spec fn hotlist_row(
    decision: DecisionEvidence,
    number: nat,
    selected: bool,
    pane_width: u16,
) -> Seq<PieceV> {
    let d = seq![
        nl(),
        txt(cursor_mark_of(selected)),
        txt(" "@),
        txt(padded_left(dec(number), 2)),
        txt(". "@),
        field(Atom::Fixed { value: decision.total_score, decimals: 2 }, Pad::Right(5), unstyled()),
        txt(" "@),
        field(Atom::Bytes(decision.size_bytes), Pad::Right(10), unstyled()),
        txt(" "@),
        field(Atom::Duration(decision.age_secs), Pad::Right(8), unstyled()),
        txt(" "@),
        badge(heat_word_of(decision.total_score), heat_tone_of(decision.total_score)),
        txt(" "@),
        txt(
            padded_right(
                shortened(decision.path@, path_column_of(pane_width, 36, 12, 46) as nat),
                path_column_of(pane_width, 36, 12, 46) as nat,
            ),
        ),
    ];
    if decision.vetoed {
        d + seq![
            txt(" VETO"@),
        ]
    } else {
        d
    }
}

fn hotlist_row_doc(
    decision: &DecisionEvidence,
    number: usize,
    selected: bool,
    pane_width: u16,
) -> (doc: Doc)
    ensures
        doc@ == hotlist_row(*decision, number as nat, selected, pane_width),
{
    let column: usize = path_column(pane_width, 36, 12, 46);
    let mut d = Doc::new();
    d.newline();
    d.text(cursor_mark(selected));
    d.text(" ");
    d.text(pad_left(decimal_usize(number).as_str(), 2).as_str());
    d.text(". ");
    d.put(Atom::Fixed { value: decision.total_score, decimals: 2 }, Pad::Right(5), no_style());
    d.text(" ");
    d.put(Atom::Bytes(decision.size_bytes), Pad::Right(10), no_style());
    d.text(" ");
    d.put(Atom::Duration(decision.age_secs), Pad::Right(8), no_style());
    d.text(" ");
    d.badge(heat_word(decision.total_score), heat_tone(decision.total_score));
    d.text(" ");
    d.text(pad_right(truncate_path(decision.path.as_str(), column).as_str(), column).as_str());
    if decision.vetoed {
        let mut p = Doc::new();
        p.text(" VETO");
        d.append(p);
    }
    d
}

/// How many candidates the hotlist shows.
pub open spec fn hotlist_len_of(candidates: Seq<DecisionEvidence>) -> int {
    if candidates.len() < HOTLIST_LEN {
        candidates.len() as int
    } else {
        HOTLIST_LEN as int
    }
}

fn hotlist_len(candidates: &Vec<DecisionEvidence>) -> (n: usize)
    ensures
        n == hotlist_len_of(candidates@),
        n <= candidates@.len(),
{
    if candidates.len() < HOTLIST_LEN {
        candidates.len()
    } else {
        HOTLIST_LEN
    }
}

/// Rows of the hotlist.
pub open spec fn hotlist_rows_of(
    candidates: Seq<DecisionEvidence>,
    selected: usize,
    pane_width: u16,
    from: int,
    to: int,
) -> Seq<PieceV>
    decreases to - from,
{
    if to <= from {
        seq![]
    } else {
        hotlist_rows_of(candidates, selected, pane_width, from, to - 1) + hotlist_row(
            candidates[(to - 1)],
            ((to - 1) + 1) as nat,
            (to - 1) == selected,
            pane_width,
        )
    }
}

fn hotlist_rows(
    candidates: &Vec<DecisionEvidence>,
    selected: usize,
    pane_width: u16,
    from: usize,
    to: usize,
) -> (doc: Doc)
    requires
        from <= to,
        to <= candidates@.len(),
    ensures
        doc@ == hotlist_rows_of(candidates@, selected, pane_width, from as int, to as int),
{
    let mut d = Doc::new();
    let mut k: usize = from;
    while k < to
        invariant
            from <= k <= to,
            to <= candidates@.len(),
            d@ == hotlist_rows_of(candidates@, selected, pane_width, from as int, k as int),
        decreases to - k,
    {
        d.append(hotlist_row_doc(&candidates[k], k + 1, k == selected, pane_width));
        k += 1;
    }
    d
}

/// Candidate pane: the first candidates of the ranking.
pub open spec fn candidate_hotlist(model: DashboardModel, pane_width: u16) -> Seq<PieceV> {
    if model.candidates_list@.len() == 0 {
        seq![
            txt("hotlist no candidate ranking loaded yet"@),
        ]
    } else {
        let d = seq![
            txt("hotlist total="@),
            txt(dec(model.candidates_list@.len() as nat)),
            txt(" source="@),
            txt(source_name(model.candidates_source)),
            nl(),
            txt("  rank score   size        age      path"@),
        ];
        d + hotlist_rows_of(
            model.candidates_list@,
            model.candidates_selected,
            pane_width,
            0,
            hotlist_len_of(model.candidates_list@),
        )
    }
}

/// Candidate pane: the first candidates of the ranking.
pub fn render_candidate_hotlist(model: &DashboardModel, pane_width: u16) -> (doc: Doc)
    ensures
        doc@ == candidate_hotlist(*model, pane_width),
{
    if model.candidates_list.len() == 0 {
        let mut p = Doc::new();
        p.text("hotlist no candidate ranking loaded yet");
        p
    } else {
        let mut p = Doc::new();
        p.text("hotlist total=");
        p.text(decimal_usize(model.candidates_list.len()).as_str());
        p.text(" source=");
        p.text(data_source_name(model.candidates_source));
        p.newline();
        p.text("  rank score   size        age      path");
        p.append(
            hotlist_rows(
                &model.candidates_list,
                model.candidates_selected,
                pane_width,
                0,
                hotlist_len(&model.candidates_list),
            ),
        );
        p
    }
}

/// Locations pane: events on temporary directories.
pub open spec fn special_locations(model: DashboardModel) -> Seq<PieceV> {
    if model.timeline_events@.len() == 0 {
        seq![
            txt("special-locations no timeline telemetry loaded yet"@),
        ]
    } else {
        seq![
            txt("special-locations "@),
            badge(
                watch_word_of(criticals_of(model.timeline_events@) as int),
                count_tone_of(criticals_of(model.timeline_events@) as int),
            ),
            txt(" /tmp-events="@),
            txt(dec(path_hits_of(model.timeline_events@, "/tmp"@) as nat)),
            txt(" /data/tmp-events="@),
            txt(dec(path_hits_of(model.timeline_events@, "/data/tmp"@) as nat)),
            txt(" critical-events="@),
            txt(dec(criticals_of(model.timeline_events@) as nat)),
        ]
    }
}

/// Locations pane: events on temporary directories.
pub fn render_special_locations(model: &DashboardModel) -> (doc: Doc)
    ensures
        doc@ == special_locations(*model),
{
    if model.timeline_events.len() == 0 {
        let mut p = Doc::new();
        p.text("special-locations no timeline telemetry loaded yet");
        p
    } else {
        let mut p = Doc::new();
        p.text("special-locations ");
        p.badge(
            watch_word(criticals(&model.timeline_events)),
            count_tone(criticals(&model.timeline_events)),
        );
        p.text(" /tmp-events=");
        p.text(decimal_usize(path_hits(&model.timeline_events, "/tmp")).as_str());
        p.text(" /data/tmp-events=");
        p.text(decimal_usize(path_hits(&model.timeline_events, "/data/tmp")).as_str());
        p.text(" critical-events=");
        p.text(decimal_usize(criticals(&model.timeline_events)).as_str());
        p
    }
}

/// Ballast pane: how much ballast is left.
pub open spec fn ballast_quick(model: DashboardModel) -> Seq<PieceV> {
    match model.daemon_state {
        Some(state) => {
            seq![
                txt("ballast "@),
                badge(
                    fleet_word_of(state.ballast.available, state.ballast.total),
                    fleet_tone_of(state.ballast.available, state.ballast.total),
                ),
                txt(" available="@),
                txt(dec(state.ballast.available as nat)),
                txt("/"@),
                txt(dec(state.ballast.total as nat)),
                txt(" released="@),
                txt(dec(state.ballast.released as nat)),
            ]
        },
        None => {
            seq![
                txt("ballast "@),
                badge("UNKNOWN"@, Tone::Muted),
                txt(" unavailable"@),
            ]
        },
    }
}

/// Ballast pane: how much ballast is left.
pub fn render_ballast_quick(model: &DashboardModel) -> (doc: Doc)
    ensures
        doc@ == ballast_quick(*model),
{
    if let Some(state) = &model.daemon_state {
        let mut p = Doc::new();
        p.text("ballast ");
        p.badge(
            fleet_word(state.ballast.available, state.ballast.total),
            fleet_tone(state.ballast.available, state.ballast.total),
        );
        p.text(" available=");
        p.text(decimal(state.ballast.available).as_str());
        p.text("/");
        p.text(decimal(state.ballast.total).as_str());
        p.text(" released=");
        p.text(decimal(state.ballast.released).as_str());
        p
    } else {
        let mut p = Doc::new();
        p.text("ballast ");
        p.badge("UNKNOWN", Tone::Muted);
        p.text(" unavailable");
        p
    }
}

/// Counters pane: the daemon process and its counters.
pub open spec fn extended_counters(model: DashboardModel) -> Seq<PieceV> {
    match model.daemon_state {
        Some(state) => {
            let d = seq![
                txt("runtime scans="@),
                txt(dec(state.counters.scans as nat)),
                txt(" deletions="@),
                txt(dec(state.counters.deletions as nat)),
                txt(" errors="@),
                txt(dec(state.counters.errors as nat)),
                txt(" dropped="@),
                txt(dec(state.counters.dropped_log_events as nat)),
            ];
            let d = if state.counters.dropped_log_events > 0 {
                d + seq![
                    txt(" \u{26a0}"@),
                ]
            } else {
                d
            };
            d + seq![
                nl(),
                txt("  freed="@),
                plain(Atom::Bytes(state.counters.bytes_freed)),
                txt(" rss="@),
                plain(Atom::Bytes(state.memory_rss_bytes)),
                txt(" uptime="@),
                plain(Atom::Duration(state.uptime_seconds)),
                nl(),
                txt("  pid="@),
                txt(dec(state.pid as nat)),
                txt(" policy="@),
                txt(policy_text_of(state.policy_mode@)),
                txt(" adapters(r/e)="@),
                txt(dec(model.adapter_reads as nat)),
                txt("/"@),
                txt(dec(model.adapter_errors as nat)),
            ]
        },
        None => {
            seq![
                txt("counters unavailable"@),
                nl(),
                txt("  adapters(r/e)="@),
                txt(dec(model.adapter_reads as nat)),
                txt("/"@),
                txt(dec(model.adapter_errors as nat)),
            ]
        },
    }
}

/// Counters pane: the daemon process and its counters.
pub fn render_extended_counters(model: &DashboardModel) -> (doc: Doc)
    ensures
        doc@ == extended_counters(*model),
{
    if let Some(state) = &model.daemon_state {
        let mut p = Doc::new();
        p.text("runtime scans=");
        p.text(decimal(state.counters.scans).as_str());
        p.text(" deletions=");
        p.text(decimal(state.counters.deletions).as_str());
        p.text(" errors=");
        p.text(decimal(state.counters.errors).as_str());
        p.text(" dropped=");
        p.text(decimal(state.counters.dropped_log_events).as_str());
        if state.counters.dropped_log_events > 0 {
            let mut q = Doc::new();
            q.text(" \u{26a0}");
            p.append(q);
        }
        let mut q = Doc::new();
        q.newline();
        q.text("  freed=");
        q.plain(Atom::Bytes(state.counters.bytes_freed));
        q.text(" rss=");
        q.plain(Atom::Bytes(state.memory_rss_bytes));
        q.text(" uptime=");
        q.plain(Atom::Duration(state.uptime_seconds));
        q.newline();
        q.text("  pid=");
        q.text(decimal(state.pid as u64).as_str());
        q.text(" policy=");
        q.text(policy_text(state.policy_mode.as_str()).as_str());
        q.text(" adapters(r/e)=");
        q.text(decimal(model.adapter_reads).as_str());
        q.text("/");
        q.text(decimal(model.adapter_errors).as_str());
        p.append(q);
        p
    } else {
        let mut p = Doc::new();
        p.text("counters unavailable");
        p.newline();
        p.text("  adapters(r/e)=");
        p.text(decimal(model.adapter_reads).as_str());
        p.text("/");
        p.text(decimal(model.adapter_errors).as_str());
        p
    }
}

/// Content of an overview pane, without a line end after the last line.
#[verifier::opaque]
pub open spec fn pane_content(
    model: DashboardModel,
    pane: OverviewPane,
    pane_width: u16,
) -> Seq<PieceV> {
    match pane {
        OverviewPane::PressureSummary => pressure_summary(model, pane_width),
        OverviewPane::ForecastHorizon => forecast_horizon(model),
        OverviewPane::ActionLane => action_lane(model),
        OverviewPane::EwmaTrend => ewma_trend(model),
        OverviewPane::DecisionPulse => decision_pulse(model),
        OverviewPane::CandidateHotlist => candidate_hotlist(model, pane_width),
        OverviewPane::BallastQuick => ballast_quick(model),
        OverviewPane::SpecialLocations => special_locations(model),
        OverviewPane::ExtendedCounters => extended_counters(model),
    }
}

/// Content of an overview pane, without a line end after the last line.
pub fn overview_pane_content(
    model: &DashboardModel,
    pane: OverviewPane,
    pane_width: u16,
) -> (doc: Doc)
    requires
        model.rate_histories.wf(),
    ensures
        doc@ == pane_content(*model, pane, pane_width),
{
    reveal(pane_content);
    match pane {
        OverviewPane::PressureSummary => render_pressure_summary(model, pane_width),
        OverviewPane::ForecastHorizon => render_forecast_horizon(model),
        OverviewPane::ActionLane => render_action_lane(model),
        OverviewPane::EwmaTrend => render_ewma_trend(model),
        OverviewPane::DecisionPulse => render_decision_pulse(model),
        OverviewPane::CandidateHotlist => render_candidate_hotlist(model, pane_width),
        OverviewPane::BallastQuick => render_ballast_quick(model),
        OverviewPane::SpecialLocations => render_special_locations(model),
        OverviewPane::ExtendedCounters => render_extended_counters(model),
    }
}

/// Identifier of a pane.
pub open spec fn hover_text_of(pane: Option<OverviewPane>) -> Seq<char> {
    match pane {
        Some(p) => overview_pane_id(p),
        None => "-"@,
    }
}

fn hover_text(pane: Option<OverviewPane>) -> (s: &'static str)
    ensures
        s@ == hover_text_of(pane),
{
    match pane {
        Some(p) => p.id(),
        None => "-",
    }
}

/// Number of visible panes.
pub open spec fn visible_of(placements: Seq<PanePlacement>) -> nat
    decreases placements.len(),
{
    if placements.len() == 0 {
        0
    } else if placements.last().visible {
        visible_of(placements.drop_last()) + 1
    } else {
        visible_of(placements.drop_last())
    }
}

fn visible(placements: &Vec<PanePlacement>) -> (n: usize)
    ensures
        n == visible_of(placements@),
{
    let mut n: usize = 0;
    let mut k: usize = 0;
    while k < placements.len()
        invariant
            n <= k <= placements@.len(),
            n == visible_of(placements@.take(k as int)),
        decreases placements@.len() - k,
    {
        assert(placements@.take(k + 1).drop_last() =~= placements@.take(k as int));
        if placements[k].visible {
            n += 1;
        }
        k += 1;
    }
    assert(placements@.take(k as int) =~= placements@);
    n
}

/// A visible pane under its header, later lines indented.
#[verifier::opaque]
pub open spec fn overview_section(model: DashboardModel, placement: PanePlacement) -> Seq<PieceV> {
    if placement.visible {
        let d = seq![
            txt("["@),
            txt(overview_pane_id(placement.pane)),
            txt(" "@),
            txt(priority_label(placement.priority)),
            txt(" @"@),
            txt(dec(placement.rect.col as nat)),
            txt(","@),
            txt(dec(placement.rect.row as nat)),
            txt(" "@),
            txt(dec(placement.rect.width as nat)),
            txt("x"@),
            txt(dec(placement.rect.height as nat)),
            txt("] "@),
        ];
        let d = d + indented(pane_content(model, placement.pane, placement.rect.width));
        d + seq![
            nl(),
        ]
    } else {
        seq![]
    }
}

fn overview_section_doc(model: &DashboardModel, placement: PanePlacement) -> (doc: Doc)
    requires
        model.rate_histories.wf(),
    ensures
        doc@ == overview_section(*model, placement),
{
    reveal(overview_section);
    if placement.visible {
        let mut p = Doc::new();
        p.text("[");
        p.text(placement.pane.id());
        p.text(" ");
        p.text(pane_priority_label(placement.priority));
        p.text(" @");
        p.text(decimal(placement.rect.col as u64).as_str());
        p.text(",");
        p.text(decimal(placement.rect.row as u64).as_str());
        p.text(" ");
        p.text(decimal(placement.rect.width as u64).as_str());
        p.text("x");
        p.text(decimal(placement.rect.height as u64).as_str());
        p.text("] ");
        p.append(overview_pane_content(model, placement.pane, placement.rect.width).indent());
        let mut q = Doc::new();
        q.newline();
        p.append(q);
        p
    } else {
        Doc::new()
    }
}

/// The visible panes in order.
pub open spec fn overview_sections_of(
    model: DashboardModel,
    placements: Seq<PanePlacement>,
    from: int,
    to: int,
) -> Seq<PieceV>
    decreases to - from,
{
    if to <= from {
        seq![]
    } else {
        overview_sections_of(model, placements, from, to - 1) + overview_section(
            model,
            placements[(to - 1)],
        )
    }
}

fn overview_sections(
    model: &DashboardModel,
    placements: &Vec<PanePlacement>,
    from: usize,
    to: usize,
) -> (doc: Doc)
    requires
        from <= to,
        to <= placements@.len(),
        model.rate_histories.wf(),
    ensures
        doc@ == overview_sections_of(*model, placements@, from as int, to as int),
{
    let mut d = Doc::new();
    let mut k: usize = from;
    while k < to
        invariant
            from <= k <= to,
            to <= placements@.len(),
            model.rate_histories.wf(),
            d@ == overview_sections_of(*model, placements@, from as int, k as int),
        decreases to - k,
    {
        d.append(overview_section_doc(model, placements[k]));
        k += 1;
    }
    d
}

/// What the overview screen shows besides its hint line.
pub open spec fn overview_body(model: DashboardModel) -> Seq<PieceV> {
    let cols = model.terminal_size.0 as int;
    let rows = model.terminal_size.1 as int;
    let placements = overview_placements(cols, rows);
    let d = seq![
        txt("overview-layout="@),
        txt(class_name(overview_class(cols, rows))),
        txt("/"@),
        txt(tier_name(overview_density(cols, rows))),
        txt(" visible-panes="@),
        txt(dec(visible_of(placements) as nat)),
        txt(" focus="@),
        txt(overview_pane_id(model.overview_focus_pane)),
        txt(" hover="@),
        txt(hover_text_of(model.overview_hover_pane)),
        nl(),
    ];
    d + overview_sections_of(model, placements, 0, placements.len() as int)
}

fn overview_body_doc(model: &DashboardModel) -> (doc: Doc)
    requires
        model.rate_histories.wf(),
    ensures
        doc@ == overview_body(*model),
{
    let layout = build_overview_layout(model.terminal_size.0, model.terminal_size.1);
    let mut d = Doc::new();
    d.text("overview-layout=");
    d.text(layout_class_name(layout.class));
    d.text("/");
    d.text(density_tier_name(layout.density));
    d.text(" visible-panes=");
    d.text(decimal_usize(visible(&layout.placements)).as_str());
    d.text(" focus=");
    d.text(model.overview_focus_pane.id());
    d.text(" hover=");
    d.text(hover_text(model.overview_hover_pane));
    d.newline();
    d.append(overview_sections(model, &layout.placements, 0, layout.placements.len()));
    d
}

/// The hint line of the overview screen.
pub open spec fn overview_hint(model: DashboardModel) -> Seq<PieceV> {
    nav_hint_of(
        model.hint_verbosity,
        "Tab/Shift-Tab pane focus  Enter/Space open pane  mouse move/click drill-in  1-7 screens  [/] prev/next  b ballast  r refresh  ? help  : palette"@,
        "Tab focus  Enter/Space open pane  mouse click  1-7 screens  [/] prev/next"@,
    )
}

fn overview_hint_doc(model: &DashboardModel) -> (doc: Doc)
    ensures
        doc@ == overview_hint(*model),
{
    write_navigation_hint(
        model.hint_verbosity,
        "Tab/Shift-Tab pane focus  Enter/Space open pane  mouse move/click drill-in  1-7 screens  [/] prev/next  b ballast  r refresh  ? help  : palette",
        "Tab focus  Enter/Space open pane  mouse click  1-7 screens  [/] prev/next",
    )
}

/// The overview screen: the layout and its visible panes.
pub open spec fn overview_page(model: DashboardModel) -> Seq<PieceV> {
    let d = overview_body(model);
    d + overview_hint(model)
}

/// The overview screen: the layout and its visible panes.
pub fn render_overview(model: &DashboardModel) -> (doc: Doc)
    requires
        model.rate_histories.wf(),
    ensures
        doc@ == overview_page(*model),
{
    let mut d = overview_body_doc(model);
    d.append(overview_hint_doc(model));
    d
}

/// One styled mount of the pressure matrix.
pub open spec fn styled_mount_of(mount: MountPressure, pane_width: u16) -> Seq<PieceV> {
    let d = seq![
        ink("  "@, Tone::Secondary),
        ink(padded_right(shortened(mount.path@, 16 as nat), 16), Tone::Secondary),
        ink(" "@, Tone::Secondary),
        plain(Atom::Gauge {
            of: Gauge::Used(mount.free_pct),
            width: gauge_width(pane_width) as usize,
            segmented: true,
        }),
    ];
    let d = match mount.rate_bps {
        Some(rate) => {
            d + ({
                if rate.gt(Double { bits: ZERO }) {
                    seq![
                        ink(" "@, Tone::Warning),
                        drawn(Atom::Rate(rate), fg(Ink::Of(Tone::Warning))),
                        ink(" \u{26a0}"@, Tone::Warning),
                    ]
                } else {
                    seq![
                        ink(" "@, Tone::Secondary),
                        drawn(Atom::Rate(rate), fg(Ink::Of(Tone::Secondary))),
                    ]
                }
            })
        },
        None => {
            d
        },
    };
    d + seq![
        nl(),
    ]
}

fn styled_mount_doc(mount: &MountPressure, pane_width: u16) -> (doc: Doc)
    ensures
        doc@ == styled_mount_of(*mount, pane_width),
{
    let mut d = Doc::new();
    d.ink("  ", Tone::Secondary);
    d.ink(pad_right(truncate_path(mount.path.as_str(), 16).as_str(), 16).as_str(), Tone::Secondary);
    d.ink(" ", Tone::Secondary);
    d.plain(Atom::Gauge {
            of: Gauge::Used(mount.free_pct),
            width: gauge_width_for(pane_width),
            segmented: true,
        });
    if let Some(rate) = mount.rate_bps {
        let p = if rate.greater_than(Double { bits: ZERO }) {
            let mut q = Doc::new();
            q.ink(" ", Tone::Warning);
            q.drawn(Atom::Rate(rate), in_fg(Ink::Of(Tone::Warning)));
            q.ink(" \u{26a0}", Tone::Warning);
            q
        } else {
            let mut q = Doc::new();
            q.ink(" ", Tone::Secondary);
            q.drawn(Atom::Rate(rate), in_fg(Ink::Of(Tone::Secondary)));
            q
        };
        d.append(p);
    }
    let mut p = Doc::new();
    p.newline();
    d.append(p);
    d
}

/// Styled rows of the pressure matrix.
pub open spec fn styled_mounts_of(
    state: DaemonState,
    pane_width: u16,
    from: int,
    to: int,
) -> Seq<PieceV>
    decreases to - from,
{
    if to <= from {
        seq![]
    } else {
        styled_mounts_of(state, pane_width, from, to - 1) + styled_mount_of(
            state.pressure.mounts@[(to - 1)],
            pane_width,
        )
    }
}

fn styled_mounts(state: &DaemonState, pane_width: u16, from: usize, to: usize) -> (doc: Doc)
    requires
        from <= to,
        to <= state.pressure.mounts@.len(),
    ensures
        doc@ == styled_mounts_of(*state, pane_width, from as int, to as int),
{
    let mut d = Doc::new();
    let mut k: usize = from;
    while k < to
        invariant
            from <= k <= to,
            to <= state.pressure.mounts@.len(),
            d@ == styled_mounts_of(*state, pane_width, from as int, k as int),
        decreases to - k,
    {
        d.append(styled_mount_doc(&state.pressure.mounts[k], pane_width));
        k += 1;
    }
    d
}

/// Styled pressure pane.
pub open spec fn styled_pressure_of(model: DashboardModel, pane_width: u16) -> Seq<PieceV> {
    match model.daemon_state {
        Some(state) => {
            let d = seq![
                ink("pressure "@, Tone::Secondary),
                badge_in(uppered(state.pressure.overall@), Ink::Pressure(state.pressure.overall@)),
            ];
            let d = if state.policy_mode@.len() > 0 {
                d + seq![
                    txt(" "@),
                    badge(uppered(state.policy_mode@), policy_tone_of(state.policy_mode@)),
                ]
            } else {
                d
            };
            let d = if state.pressure.overall@ != "green"@ {
                d + seq![
                    txt(" "@),
                    drawn(Atom::Progress(model.tick), fg(Ink::Pressure(state.pressure.overall@))),
                ]
            } else {
                d
            };
            let d = d + seq![
                nl(),
            ];
            d + styled_mounts_of(state, pane_width, 0, state.pressure.mounts@.len() as int)
        },
        None => {
            let d = bare(in_lines(pressure_summary(model, pane_width)));
            d + seq![
                nl(),
            ]
        },
    }
}

/// Without daemon state the pressure pane has neither colours nor weight.
pub proof fn law_unknown_pressure_is_bare(model: DashboardModel, pane_width: u16)
    requires
        model.daemon_state is None,
    ensures
        forall|i: int|
            0 <= i < styled_pressure_of(model, pane_width).len() ==> (
            #[trigger] styled_pressure_of(model, pane_width)[i]).style == unstyled(),
{
}

/// Styled pressure pane.
pub fn styled_pressure_summary(model: &DashboardModel, pane_width: u16) -> (doc: Doc)
    ensures
        doc@ == styled_pressure_of(*model, pane_width),
{
    if let Some(state) = &model.daemon_state {
        let mut p = Doc::new();
        p.ink("pressure ", Tone::Secondary);
        p.badge_in(
            to_upper(state.pressure.overall.as_str()).as_str(),
            Ink::Pressure(state.pressure.overall.clone()),
        );
        if !state.policy_mode.as_str().is_empty() {
            let mut q = Doc::new();
            q.text(" ");
            q.badge(
                to_upper(state.policy_mode.as_str()).as_str(),
                policy_mode_color(state.policy_mode.as_str()),
            );
            p.append(q);
        }
        if !text_eq(state.pressure.overall.as_str(), "green") {
            let mut q = Doc::new();
            q.text(" ");
            q.drawn(
                Atom::Progress(model.tick),
                in_fg(Ink::Pressure(state.pressure.overall.clone())),
            );
            p.append(q);
        }
        let mut q = Doc::new();
        q.newline();
        p.append(q);
        p.append(styled_mounts(state, pane_width, 0, state.pressure.mounts.len()));
        p
    } else {
        let mut p = render_pressure_summary(model, pane_width).in_lines().bare();
        let mut q = Doc::new();
        q.newline();
        p.append(q);
        p
    }
}

/// The styled forecast for one mount.
pub open spec fn styled_mount_forecast(mount: MountPressure) -> Seq<PieceV> {
    let d = seq![
        ink("forecast "@, Tone::Secondary),
        badge_in(uppered(mount.level@), Ink::Pressure(mount.level@)),
        nl(),
        ink("  worst="@, Tone::Secondary),
        ink(mount.path@, Tone::Primary),
        nl(),
        ink("  free="@, urgency_tone_of(mount.free_pct)),
        drawn(
            Atom::Fixed { value: mount.free_pct, decimals: 1 },
            fg(Ink::Of(urgency_tone_of(mount.free_pct))),
        ),
        ink("%"@, urgency_tone_of(mount.free_pct)),
        bold("  eta\u{2248}"@, urgency_tone_of(mount.free_pct)),
    ];
    let d = if has_eta_of(mount) {
        d + seq![
            drawn(
                Atom::Eta { free_pct: mount.free_pct, rate: mount.rate_bps->0 },
                bold_fg(Ink::Of(urgency_tone_of(mount.free_pct))),
            ),
        ]
    } else {
        d + seq![
            bold("N/A"@, urgency_tone_of(mount.free_pct)),
        ]
    };
    d + seq![
        nl(),
    ]
}

fn styled_mount_forecast_doc(mount: &MountPressure) -> (doc: Doc)
    ensures
        doc@ == styled_mount_forecast(*mount),
{
    let mut d = Doc::new();
    d.ink("forecast ", Tone::Secondary);
    d.badge_in(to_upper(mount.level.as_str()).as_str(), Ink::Pressure(mount.level.clone()));
    d.newline();
    d.ink("  worst=", Tone::Secondary);
    d.ink(mount.path.as_str(), Tone::Primary);
    d.newline();
    d.ink("  free=", urgency_tone(mount.free_pct));
    d.drawn(
        Atom::Fixed { value: mount.free_pct, decimals: 1 },
        in_fg(Ink::Of(urgency_tone(mount.free_pct))),
    );
    d.ink("%", urgency_tone(mount.free_pct));
    d.bold("  eta\u{2248}", urgency_tone(mount.free_pct));
    if has_eta(mount) {
        let mut p = Doc::new();
        p.drawn(
            Atom::Eta { free_pct: mount.free_pct, rate: mount.rate_bps.unwrap() },
            in_bold(Ink::Of(urgency_tone(mount.free_pct))),
        );
        d.append(p);
    } else {
        let mut p = Doc::new();
        p.bold("N/A", urgency_tone(mount.free_pct));
        d.append(p);
    }
    let mut p = Doc::new();
    p.newline();
    d.append(p);
    d
}

/// Styled forecast pane.
pub open spec fn styled_forecast_of(model: DashboardModel) -> Seq<PieceV> {
    match model.daemon_state {
        Some(state) => {
            if state.pressure.mounts@.len() > 0 {
                styled_mount_forecast(
                    state.pressure.mounts@[worst_mount_of(state.pressure.mounts@)],
                )
            } else {
                seq![
                    ink("forecast awaiting daemon trend inputs"@, Tone::Muted),
                    nl(),
                ]
            }
        },
        None => {
            seq![
                ink("forecast awaiting daemon trend inputs"@, Tone::Muted),
                nl(),
            ]
        },
    }
}

/// Styled forecast pane.
pub fn styled_forecast_horizon(model: &DashboardModel) -> (doc: Doc)
    ensures
        doc@ == styled_forecast_of(*model),
{
    if let Some(state) = &model.daemon_state {
        if state.pressure.mounts.len() > 0 {
            styled_mount_forecast_doc(&state.pressure.mounts[worst_mount(&state.pressure.mounts)])
        } else {
            let mut q = Doc::new();
            q.ink("forecast awaiting daemon trend inputs", Tone::Muted);
            q.newline();
            q
        }
    } else {
        let mut p = Doc::new();
        p.ink("forecast awaiting daemon trend inputs", Tone::Muted);
        p.newline();
        p
    }
}

/// One styled mount of the trend lattice.
pub open spec fn styled_trend_row(entry: RateEntry) -> Seq<PieceV> {
    let rate = latest_of(entry.history);
    let d = seq![
        ink("  "@, Tone::Secondary),
        ink(padded_right(entry.mount@, 14), Tone::Secondary),
        ink(" "@, Tone::Secondary),
        plain(Atom::Spark { samples: entry.history@, colored: true }),
        ink(" "@, rate_tone_of(rate)),
        drawn(Atom::Rate(rate), fg(Ink::Of(rate_tone_of(rate)))),
        ink(" "@, rate_tone_of(rate)),
        drawn(Atom::Trend(rate), fg(Ink::Of(rate_tone_of(rate)))),
    ];
    let d = if rate.gt(Double { bits: ALERT_RATE }) {
        d + seq![
            ink(" \u{26a0}"@, Tone::Danger),
        ]
    } else {
        d
    };
    d + seq![
        nl(),
    ]
}

fn styled_trend_row_doc(entry: &RateEntry) -> (doc: Doc)
    requires
        entry.history.wf(),
    ensures
        doc@ == styled_trend_row(*entry),
{
    let rate = latest(&entry.history);
    let mut d = Doc::new();
    d.ink("  ", Tone::Secondary);
    d.ink(pad_right(entry.mount.as_str(), 14).as_str(), Tone::Secondary);
    d.ink(" ", Tone::Secondary);
    d.plain(Atom::Spark { samples: entry.history.chronological(), colored: true });
    d.ink(" ", rate_tone(rate));
    d.drawn(Atom::Rate(rate), in_fg(Ink::Of(rate_tone(rate))));
    d.ink(" ", rate_tone(rate));
    d.drawn(Atom::Trend(rate), in_fg(Ink::Of(rate_tone(rate))));
    if rate.greater_than(Double { bits: ALERT_RATE }) {
        let mut p = Doc::new();
        p.ink(" \u{26a0}", Tone::Danger);
        d.append(p);
    }
    let mut p = Doc::new();
    p.newline();
    d.append(p);
    d
}

/// Styled rows of the trend lattice.
pub open spec fn styled_trend_rows_of(entries: Seq<RateEntry>, from: int, to: int) -> Seq<PieceV>
    decreases to - from,
{
    if to <= from {
        seq![]
    } else {
        styled_trend_rows_of(entries, from, to - 1) + styled_trend_row(entries[(to - 1)])
    }
}

fn styled_trend_rows(table: &RateTable, from: usize, to: usize) -> (doc: Doc)
    requires
        from <= to,
        to <= table.entries@.len(),
        table.wf(),
    ensures
        doc@ == styled_trend_rows_of(table.entries@, from as int, to as int),
{
    let mut d = Doc::new();
    let mut k: usize = from;
    while k < to
        invariant
            from <= k <= to,
            to <= table.entries@.len(),
            table.wf(),
            d@ == styled_trend_rows_of(table.entries@, from as int, k as int),
        decreases to - k,
    {
        d.append(styled_trend_row_doc(&table.entries[k]));
        k += 1;
    }
    d
}

/// Styled trend pane.
pub open spec fn styled_trend_of(model: DashboardModel) -> Seq<PieceV> {
    if model.rate_histories.entries@.len() == 0 {
        seq![
            ink("ewma no rate data"@, Tone::Muted),
            nl(),
        ]
    } else {
        let d = seq![
            ink("ewma "@, Tone::Secondary),
            ink(dec(model.rate_histories.entries@.len() as nat), Tone::Secondary),
            ink(" mounts"@, Tone::Secondary),
            nl(),
        ];
        d + styled_trend_rows_of(
            model.rate_histories.entries@,
            0,
            model.rate_histories.entries@.len() as int,
        )
    }
}

/// Styled trend pane.
pub fn styled_ewma_trend(model: &DashboardModel) -> (doc: Doc)
    requires
        model.rate_histories.wf(),
    ensures
        doc@ == styled_trend_of(*model),
{
    if model.rate_histories.entries.len() == 0 {
        let mut p = Doc::new();
        p.ink("ewma no rate data", Tone::Muted);
        p.newline();
        p
    } else {
        let mut p = Doc::new();
        p.ink("ewma ", Tone::Secondary);
        p.ink(decimal_usize(model.rate_histories.entries.len()).as_str(), Tone::Secondary);
        p.ink(" mounts", Tone::Secondary);
        p.newline();
        p.append(styled_trend_rows(&model.rate_histories, 0, model.rate_histories.entries.len()));
        p
    }
}

/// Styled decision pane.
pub open spec fn styled_pulse_of(model: DashboardModel) -> Seq<PieceV> {
    if model.explainability_decisions@.len() == 0 {
        seq![
            ink("decision-pulse no evidence loaded yet"@, Tone::Muted),
            nl(),
        ]
    } else {
        seq![
            ink("decision-pulse "@, Tone::Secondary),
            badge(
                pulse_word_of(vetoed_of(model.explainability_decisions@) as int),
                count_tone_of(vetoed_of(model.explainability_decisions@) as int),
            ),
            nl(),
            ink("  decisions="@, Tone::Secondary),
            badge(dec(model.explainability_decisions@.len() as nat), Tone::Accent),
            ink("  vetoed="@, Tone::Secondary),
            badge(
                dec(vetoed_of(model.explainability_decisions@) as nat),
                count_tone_of(vetoed_of(model.explainability_decisions@) as int),
            ),
            ink("  avg="@, Tone::Secondary),
            drawn(
                Atom::Mean { values: scores_of(model.explainability_decisions@), decimals: 2 },
                fg(Ink::Of(Tone::Secondary)),
            ),
            nl(),
        ]
    }
}

/// Styled decision pane.
pub fn styled_decision_pulse(model: &DashboardModel) -> (doc: Doc)
    ensures
        doc@ == styled_pulse_of(*model),
{
    if model.explainability_decisions.len() == 0 {
        let mut p = Doc::new();
        p.ink("decision-pulse no evidence loaded yet", Tone::Muted);
        p.newline();
        p
    } else {
        let mut p = Doc::new();
        p.ink("decision-pulse ", Tone::Secondary);
        p.badge(
            pulse_word(vetoed(&model.explainability_decisions)),
            count_tone(vetoed(&model.explainability_decisions)),
        );
        p.newline();
        p.ink("  decisions=", Tone::Secondary);
        p.badge(decimal_usize(model.explainability_decisions.len()).as_str(), Tone::Accent);
        p.ink("  vetoed=", Tone::Secondary);
        p.badge(
            decimal_usize(vetoed(&model.explainability_decisions)).as_str(),
            count_tone(vetoed(&model.explainability_decisions)),
        );
        p.ink("  avg=", Tone::Secondary);
        p.drawn(
            Atom::Mean { values: scores(&model.explainability_decisions), decimals: 2 },
            in_fg(Ink::Of(Tone::Secondary)),
        );
        p.newline();
        p
    }
}

/// One styled candidate of the hotlist.
pub open spec fn styled_hotlist_row(
    decision: DecisionEvidence,
    number: nat,
    selected: bool,
    pane_width: u16,
) -> Seq<PieceV> {
    let d = if selected {
        seq![
            ink("\u{25B8} "@, Tone::Accent),
            ink(padded_left(dec(number), 2), Tone::Accent),
            ink("."@, Tone::Accent),
        ]
    } else {
        seq![
            ink("  "@, Tone::Muted),
            ink(padded_left(dec(number), 2), Tone::Muted),
            ink("."@, Tone::Muted),
        ]
    };
    let d = d + seq![
        txt(" "@),
        drawn(Atom::MiniBar(decision.total_score), fg(Ink::Gradient(decision.total_score))),
        styled(" "@, fg(Ink::Gradient(decision.total_score))),
        drawn(
            Atom::Fixed { value: decision.total_score, decimals: 2 },
            fg(Ink::Gradient(decision.total_score)),
        ),
        txt(" "@),
        badge(heat_word_of(decision.total_score), heat_tone_of(decision.total_score)),
        ink(" "@, Tone::Secondary),
        field(Atom::Bytes(decision.size_bytes), Pad::Right(8), fg(Ink::Of(Tone::Secondary))),
        ink(" "@, Tone::Secondary),
        ink(
            shortened(decision.path@, path_column_of(pane_width, 36, 12, 46) as nat),
            Tone::Primary,
        ),
    ];
    let d = if decision.vetoed {
        d + seq![
            bold(" VETO"@, Tone::Danger),
        ]
    } else {
        d
    };
    d + seq![
        nl(),
    ]
}

fn styled_hotlist_row_doc(
    decision: &DecisionEvidence,
    number: usize,
    selected: bool,
    pane_width: u16,
) -> (doc: Doc)
    ensures
        doc@ == styled_hotlist_row(*decision, number as nat, selected, pane_width),
{
    let mut d = if selected {
        let mut p = Doc::new();
        p.ink("\u{25B8} ", Tone::Accent);
        p.ink(pad_left(decimal_usize(number).as_str(), 2).as_str(), Tone::Accent);
        p.ink(".", Tone::Accent);
        p
    } else {
        let mut p = Doc::new();
        p.ink("  ", Tone::Muted);
        p.ink(pad_left(decimal_usize(number).as_str(), 2).as_str(), Tone::Muted);
        p.ink(".", Tone::Muted);
        p
    };
    let mut p = Doc::new();
    p.text(" ");
    p.drawn(Atom::MiniBar(decision.total_score), in_fg(Ink::Gradient(decision.total_score)));
    p.styled(" ", in_fg(Ink::Gradient(decision.total_score)));
    p.drawn(
        Atom::Fixed { value: decision.total_score, decimals: 2 },
        in_fg(Ink::Gradient(decision.total_score)),
    );
    p.text(" ");
    p.badge(heat_word(decision.total_score), heat_tone(decision.total_score));
    p.ink(" ", Tone::Secondary);
    p.put(Atom::Bytes(decision.size_bytes), Pad::Right(8), in_fg(Ink::Of(Tone::Secondary)));
    p.ink(" ", Tone::Secondary);
    p.ink(
        truncate_path(decision.path.as_str(), path_column(pane_width, 36, 12, 46)).as_str(),
        Tone::Primary,
    );
    d.append(p);
    if decision.vetoed {
        let mut p = Doc::new();
        p.bold(" VETO", Tone::Danger);
        d.append(p);
    }
    let mut p = Doc::new();
    p.newline();
    d.append(p);
    d
}

/// Styled rows of the hotlist.
pub open spec fn styled_hotlist_rows_of(
    candidates: Seq<DecisionEvidence>,
    selected: usize,
    pane_width: u16,
    from: int,
    to: int,
) -> Seq<PieceV>
    decreases to - from,
{
    if to <= from {
        seq![]
    } else {
        styled_hotlist_rows_of(candidates, selected, pane_width, from, to - 1) + styled_hotlist_row(
            candidates[(to - 1)],
            ((to - 1) + 1) as nat,
            (to - 1) == selected,
            pane_width,
        )
    }
}

fn styled_hotlist_rows(
    candidates: &Vec<DecisionEvidence>,
    selected: usize,
    pane_width: u16,
    from: usize,
    to: usize,
) -> (doc: Doc)
    requires
        from <= to,
        to <= candidates@.len(),
    ensures
        doc@ == styled_hotlist_rows_of(candidates@, selected, pane_width, from as int, to as int),
{
    let mut d = Doc::new();
    let mut k: usize = from;
    while k < to
        invariant
            from <= k <= to,
            to <= candidates@.len(),
            d@ == styled_hotlist_rows_of(candidates@, selected, pane_width, from as int, k as int),
        decreases to - k,
    {
        d.append(styled_hotlist_row_doc(&candidates[k], k + 1, k == selected, pane_width));
        k += 1;
    }
    d
}

/// Styled candidate pane.
pub open spec fn styled_hotlist_of(model: DashboardModel, pane_width: u16) -> Seq<PieceV> {
    if model.candidates_list@.len() == 0 {
        seq![
            ink("hotlist no candidate ranking loaded yet"@, Tone::Muted),
            nl(),
        ]
    } else {
        let d = seq![
            ink("hotlist total="@, Tone::Secondary),
            ink(dec(model.candidates_list@.len() as nat), Tone::Secondary),
            nl(),
        ];
        d + styled_hotlist_rows_of(
            model.candidates_list@,
            model.candidates_selected,
            pane_width,
            0,
            hotlist_len_of(model.candidates_list@),
        )
    }
}

/// Styled candidate pane.
pub fn styled_candidate_hotlist(model: &DashboardModel, pane_width: u16) -> (doc: Doc)
    ensures
        doc@ == styled_hotlist_of(*model, pane_width),
{
    if model.candidates_list.len() == 0 {
        let mut p = Doc::new();
        p.ink("hotlist no candidate ranking loaded yet", Tone::Muted);
        p.newline();
        p
    } else {
        let mut p = Doc::new();
        p.ink("hotlist total=", Tone::Secondary);
        p.ink(decimal_usize(model.candidates_list.len()).as_str(), Tone::Secondary);
        p.newline();
        p.append(
            styled_hotlist_rows(
                &model.candidates_list,
                model.candidates_selected,
                pane_width,
                0,
                hotlist_len(&model.candidates_list),
            ),
        );
        p
    }
}

/// Styled ballast pane.
pub open spec fn styled_fleet_of(model: DashboardModel) -> Seq<PieceV> {
    match model.daemon_state {
        Some(state) => {
            seq![
                ink("ballast "@, Tone::Secondary),
                badge(
                    fleet_word_of(state.ballast.available, state.ballast.total),
                    fleet_tone_of(state.ballast.available, state.ballast.total),
                ),
                nl(),
                ink("  available="@, Tone::Secondary),
                ink(dec(state.ballast.available as nat), Tone::Secondary),
                ink("/"@, Tone::Secondary),
                ink(dec(state.ballast.total as nat), Tone::Secondary),
                ink(" released="@, Tone::Secondary),
                ink(dec(state.ballast.released as nat), Tone::Secondary),
                nl(),
                ink("  "@, Tone::Secondary),
                plain(Atom::Gauge {
                    of: Gauge::Rest { part: state.ballast.available, whole: state.ballast.total },
                    width: 20,
                    segmented: true,
                }),
                nl(),
            ]
        },
        None => {
            seq![
                ink("ballast "@, Tone::Secondary),
                badge("UNKNOWN"@, Tone::Muted),
                ink(" unavailable"@, Tone::Muted),
                nl(),
            ]
        },
    }
}

/// Styled ballast pane.
pub fn styled_ballast_quick(model: &DashboardModel) -> (doc: Doc)
    ensures
        doc@ == styled_fleet_of(*model),
{
    if let Some(state) = &model.daemon_state {
        let mut p = Doc::new();
        p.ink("ballast ", Tone::Secondary);
        p.badge(
            fleet_word(state.ballast.available, state.ballast.total),
            fleet_tone(state.ballast.available, state.ballast.total),
        );
        p.newline();
        p.ink("  available=", Tone::Secondary);
        p.ink(decimal(state.ballast.available).as_str(), Tone::Secondary);
        p.ink("/", Tone::Secondary);
        p.ink(decimal(state.ballast.total).as_str(), Tone::Secondary);
        p.ink(" released=", Tone::Secondary);
        p.ink(decimal(state.ballast.released).as_str(), Tone::Secondary);
        p.newline();
        p.ink("  ", Tone::Secondary);
        p.plain(Atom::Gauge {
                    of: Gauge::Rest { part: state.ballast.available, whole: state.ballast.total },
                    width: 20,
                    segmented: true,
                });
        p.newline();
        p
    } else {
        let mut p = Doc::new();
        p.ink("ballast ", Tone::Secondary);
        p.badge("UNKNOWN", Tone::Muted);
        p.ink(" unavailable", Tone::Muted);
        p.newline();
        p
    }
}

/// Styled action pane.
pub open spec fn styled_actions_of(model: DashboardModel) -> Seq<PieceV> {
    match model.daemon_state {
        Some(state) => {
            let d = seq![
                ink("actions "@, Tone::Secondary),
                ink("scans="@, Tone::Secondary),
                ink(dec(state.counters.scans as nat), Tone::Secondary),
                ink(" deleted="@, Tone::Secondary),
                ink(dec(state.counters.deletions as nat), Tone::Secondary),
                ink(" freed="@, Tone::Secondary),
                drawn(Atom::Bytes(state.counters.bytes_freed), fg(Ink::Of(Tone::Secondary))),
                nl(),
                ink("  last-scan "@, Tone::Muted),
            ];
            let d = match state.last_scan.at {
                Some(at) => {
                    d + seq![
                        drawn(Atom::Clock(at@), fg(Ink::Of(Tone::Primary))),
                    ]
                },
                None => {
                    d + seq![
                        ink("never"@, Tone::Primary),
                    ]
                },
            };
            d + seq![
                ink("  candidates="@, Tone::Secondary),
                ink(dec(state.last_scan.candidates as nat), Tone::Secondary),
                ink(" deleted="@, Tone::Secondary),
                ink(dec(state.last_scan.deleted as nat), Tone::Secondary),
                nl(),
            ]
        },
        None => {
            seq![
                ink("actions awaiting daemon connection"@, Tone::Muted),
                nl(),
            ]
        },
    }
}

/// Styled action pane.
pub fn styled_action_lane(model: &DashboardModel) -> (doc: Doc)
    ensures
        doc@ == styled_actions_of(*model),
{
    if let Some(state) = &model.daemon_state {
        let mut p = Doc::new();
        p.ink("actions ", Tone::Secondary);
        p.ink("scans=", Tone::Secondary);
        p.ink(decimal(state.counters.scans).as_str(), Tone::Secondary);
        p.ink(" deleted=", Tone::Secondary);
        p.ink(decimal(state.counters.deletions).as_str(), Tone::Secondary);
        p.ink(" freed=", Tone::Secondary);
        p.drawn(Atom::Bytes(state.counters.bytes_freed), in_fg(Ink::Of(Tone::Secondary)));
        p.newline();
        p.ink("  last-scan ", Tone::Muted);
        if let Some(at) = &state.last_scan.at {
            let mut q = Doc::new();
            q.drawn(Atom::Clock(at.clone()), in_fg(Ink::Of(Tone::Primary)));
            p.append(q);
        } else {
            let mut q = Doc::new();
            q.ink("never", Tone::Primary);
            p.append(q);
        }
        let mut q = Doc::new();
        q.ink("  candidates=", Tone::Secondary);
        q.ink(decimal(state.last_scan.candidates).as_str(), Tone::Secondary);
        q.ink(" deleted=", Tone::Secondary);
        q.ink(decimal(state.last_scan.deleted).as_str(), Tone::Secondary);
        q.newline();
        p.append(q);
        p
    } else {
        let mut p = Doc::new();
        p.ink("actions awaiting daemon connection", Tone::Muted);
        p.newline();
        p
    }
}

/// Styled locations pane.
pub open spec fn styled_locations_of(model: DashboardModel) -> Seq<PieceV> {
    if model.timeline_events@.len() == 0 {
        seq![
            ink("special-locations no timeline data yet"@, Tone::Muted),
            nl(),
        ]
    } else {
        seq![
            ink("special-locations "@, Tone::Secondary),
            badge(
                watch_word_of(criticals_of(model.timeline_events@) as int),
                count_tone_of(criticals_of(model.timeline_events@) as int),
            ),
            nl(),
            ink("  /tmp="@, Tone::Secondary),
            ink(dec(path_hits_of(model.timeline_events@, "/tmp"@) as nat), Tone::Secondary),
            ink("  /data/tmp="@, Tone::Secondary),
            ink(dec(path_hits_of(model.timeline_events@, "/data/tmp"@) as nat), Tone::Secondary),
            ink("  critical="@, Tone::Secondary),
            ink(dec(criticals_of(model.timeline_events@) as nat), Tone::Secondary),
            nl(),
        ]
    }
}

/// Styled locations pane.
pub fn styled_special_locations(model: &DashboardModel) -> (doc: Doc)
    ensures
        doc@ == styled_locations_of(*model),
{
    if model.timeline_events.len() == 0 {
        let mut p = Doc::new();
        p.ink("special-locations no timeline data yet", Tone::Muted);
        p.newline();
        p
    } else {
        let mut p = Doc::new();
        p.ink("special-locations ", Tone::Secondary);
        p.badge(
            watch_word(criticals(&model.timeline_events)),
            count_tone(criticals(&model.timeline_events)),
        );
        p.newline();
        p.ink("  /tmp=", Tone::Secondary);
        p.ink(decimal_usize(path_hits(&model.timeline_events, "/tmp")).as_str(), Tone::Secondary);
        p.ink("  /data/tmp=", Tone::Secondary);
        p.ink(
            decimal_usize(path_hits(&model.timeline_events, "/data/tmp")).as_str(),
            Tone::Secondary,
        );
        p.ink("  critical=", Tone::Secondary);
        p.ink(decimal_usize(criticals(&model.timeline_events)).as_str(), Tone::Secondary);
        p.newline();
        p
    }
}

/// Styled counters pane.
pub open spec fn styled_counters_of(model: DashboardModel) -> Seq<PieceV> {
    match model.daemon_state {
        Some(state) => {
            let d = seq![
                ink("runtime "@, Tone::Secondary),
            ];
            let d = if state.counters.dropped_log_events > 0 {
                d + seq![
                    badge("DROPPED"@, Tone::Warning),
                    ink("="@, Tone::Warning),
                    ink(dec(state.counters.dropped_log_events as nat), Tone::Warning),
                    ink(" "@, Tone::Warning),
                ]
            } else {
                d
            };
            d + seq![
                ink("scans="@, Tone::Secondary),
                ink(dec(state.counters.scans as nat), Tone::Secondary),
                ink(" del="@, Tone::Secondary),
                ink(dec(state.counters.deletions as nat), Tone::Secondary),
                ink(" err="@, Tone::Secondary),
                ink(dec(state.counters.errors as nat), Tone::Secondary),
                nl(),
                ink("  freed="@, Tone::Muted),
                drawn(Atom::Bytes(state.counters.bytes_freed), fg(Ink::Of(Tone::Muted))),
                ink(" rss="@, Tone::Muted),
                drawn(Atom::Bytes(state.memory_rss_bytes), fg(Ink::Of(Tone::Muted))),
                ink(" up="@, Tone::Muted),
                drawn(Atom::Duration(state.uptime_seconds), fg(Ink::Of(Tone::Muted))),
                nl(),
                ink("  pid="@, Tone::Muted),
                ink(dec(state.pid as nat), Tone::Muted),
                ink(" policy="@, Tone::Muted),
                ink(policy_text_of(state.policy_mode@), Tone::Muted),
                ink(" adapter(r/e)="@, Tone::Muted),
                ink(dec(model.adapter_reads as nat), Tone::Muted),
                ink("/"@, Tone::Muted),
                ink(dec(model.adapter_errors as nat), Tone::Muted),
                nl(),
            ]
        },
        None => {
            seq![
                ink("counters unavailable"@, Tone::Muted),
                nl(),
                ink("  adapters(r/e)="@, Tone::Muted),
                ink(dec(model.adapter_reads as nat), Tone::Muted),
                ink("/"@, Tone::Muted),
                ink(dec(model.adapter_errors as nat), Tone::Muted),
                nl(),
            ]
        },
    }
}

/// Styled counters pane.
pub fn styled_extended_counters(model: &DashboardModel) -> (doc: Doc)
    ensures
        doc@ == styled_counters_of(*model),
{
    if let Some(state) = &model.daemon_state {
        let mut p = Doc::new();
        p.ink("runtime ", Tone::Secondary);
        if state.counters.dropped_log_events > 0 {
            let mut q = Doc::new();
            q.badge("DROPPED", Tone::Warning);
            q.ink("=", Tone::Warning);
            q.ink(decimal(state.counters.dropped_log_events).as_str(), Tone::Warning);
            q.ink(" ", Tone::Warning);
            p.append(q);
        }
        let mut q = Doc::new();
        q.ink("scans=", Tone::Secondary);
        q.ink(decimal(state.counters.scans).as_str(), Tone::Secondary);
        q.ink(" del=", Tone::Secondary);
        q.ink(decimal(state.counters.deletions).as_str(), Tone::Secondary);
        q.ink(" err=", Tone::Secondary);
        q.ink(decimal(state.counters.errors).as_str(), Tone::Secondary);
        q.newline();
        q.ink("  freed=", Tone::Muted);
        q.drawn(Atom::Bytes(state.counters.bytes_freed), in_fg(Ink::Of(Tone::Muted)));
        q.ink(" rss=", Tone::Muted);
        q.drawn(Atom::Bytes(state.memory_rss_bytes), in_fg(Ink::Of(Tone::Muted)));
        q.ink(" up=", Tone::Muted);
        q.drawn(Atom::Duration(state.uptime_seconds), in_fg(Ink::Of(Tone::Muted)));
        q.newline();
        q.ink("  pid=", Tone::Muted);
        q.ink(decimal(state.pid as u64).as_str(), Tone::Muted);
        q.ink(" policy=", Tone::Muted);
        q.ink(policy_text(state.policy_mode.as_str()).as_str(), Tone::Muted);
        q.ink(" adapter(r/e)=", Tone::Muted);
        q.ink(decimal(model.adapter_reads).as_str(), Tone::Muted);
        q.ink("/", Tone::Muted);
        q.ink(decimal(model.adapter_errors).as_str(), Tone::Muted);
        q.newline();
        p.append(q);
        p
    } else {
        let mut p = Doc::new();
        p.ink("counters unavailable", Tone::Muted);
        p.newline();
        p.ink("  adapters(r/e)=", Tone::Muted);
        p.ink(decimal(model.adapter_reads).as_str(), Tone::Muted);
        p.ink("/", Tone::Muted);
        p.ink(decimal(model.adapter_errors).as_str(), Tone::Muted);
        p.newline();
        p
    }
}

/// Styled content of an overview pane.
#[verifier::opaque]
pub open spec fn styled_pane_lines(
    model: DashboardModel,
    pane: OverviewPane,
    pane_width: u16,
) -> Seq<PieceV> {
    match pane {
        OverviewPane::PressureSummary => styled_pressure_of(model, pane_width),
        OverviewPane::ForecastHorizon => styled_forecast_of(model),
        OverviewPane::ActionLane => styled_actions_of(model),
        OverviewPane::EwmaTrend => styled_trend_of(model),
        OverviewPane::DecisionPulse => styled_pulse_of(model),
        OverviewPane::CandidateHotlist => styled_hotlist_of(model, pane_width),
        OverviewPane::BallastQuick => styled_fleet_of(model),
        OverviewPane::SpecialLocations => styled_locations_of(model),
        OverviewPane::ExtendedCounters => styled_counters_of(model),
    }
}

/// Styled content of an overview pane.
pub fn styled_pane_content(
    model: &DashboardModel,
    pane: OverviewPane,
    pane_width: u16,
) -> (doc: Doc)
    requires
        model.rate_histories.wf(),
    ensures
        doc@ == styled_pane_lines(*model, pane, pane_width),
{
    reveal(styled_pane_lines);
    match pane {
        OverviewPane::PressureSummary => styled_pressure_summary(model, pane_width),
        OverviewPane::ForecastHorizon => styled_forecast_horizon(model),
        OverviewPane::ActionLane => styled_action_lane(model),
        OverviewPane::EwmaTrend => styled_ewma_trend(model),
        OverviewPane::DecisionPulse => styled_decision_pulse(model),
        OverviewPane::CandidateHotlist => styled_candidate_hotlist(model, pane_width),
        OverviewPane::BallastQuick => styled_ballast_quick(model),
        OverviewPane::SpecialLocations => styled_special_locations(model),
        OverviewPane::ExtendedCounters => styled_extended_counters(model),
    }
}

/// Styled content of an overview pane, with the screen it opens where asked for.
pub open spec fn styled_pane(
    model: DashboardModel,
    pane: OverviewPane,
    pane_width: u16,
    show_target: bool,
) -> Seq<PieceV> {
    let d = styled_pane_lines(model, pane, pane_width);
    if show_target {
        d + seq![
            ink("  \u{2192} "@, Tone::Muted),
            ink("Enter/Space opens "@, Tone::Secondary),
            ink(pane_target(pane), Tone::Secondary),
            nl(),
        ]
    } else {
        d
    }
}

/// Styled content of an overview pane, with the screen it opens where asked for.
pub fn overview_pane_styled(
    model: &DashboardModel,
    pane: OverviewPane,
    pane_width: u16,
    show_target: bool,
) -> (doc: Doc)
    requires
        model.rate_histories.wf(),
    ensures
        doc@ == styled_pane(*model, pane, pane_width, show_target),
{
    let mut d = styled_pane_content(model, pane, pane_width);
    if show_target {
        let mut p = Doc::new();
        p.ink("  \u{2192} ", Tone::Muted);
        p.ink("Enter/Space opens ", Tone::Secondary);
        p.ink(overview_pane_target_label(pane), Tone::Secondary);
        p.newline();
        d.append(p);
    }
    d
}

/// The hotlist never shows more than five candidates, and every one of a
/// shorter ranking.
pub proof fn law_hotlist_is_short(candidates: Seq<DecisionEvidence>)
    ensures
        hotlist_len_of(candidates) <= 5,
        candidates.len() <= 5 ==> hotlist_len_of(candidates) == candidates.len(),
{
}

/// What the overview shows of a pane does not depend on how verbose hints are.
pub proof fn law_pane_content_ignores_hints(
    model: DashboardModel,
    other: HintVerbosity,
    pane: OverviewPane,
    pane_width: u16,
)
    ensures
        pane_content(model, pane, pane_width) == pane_content(
            (DashboardModel { hint_verbosity: other, ..model }),
            pane,
            pane_width,
        ),
{
    reveal(pane_content);
}

proof fn section_ignores_hints(
    model: DashboardModel,
    other: HintVerbosity,
    placement: PanePlacement,
)
    ensures
        overview_section(model, placement) == overview_section(
            (DashboardModel { hint_verbosity: other, ..model }),
            placement,
        ),
{
    reveal(overview_section);
    law_pane_content_ignores_hints(model, other, placement.pane, placement.rect.width);
}

proof fn alike_sections(
    a: DashboardModel,
    b: DashboardModel,
    placements: Seq<PanePlacement>,
    to: int,
)
    requires
        0 <= to <= placements.len(),
        forall|p: PanePlacement| #[trigger] overview_section(a, p) == overview_section(b, p),
    ensures
        overview_sections_of(a, placements, 0, to) == overview_sections_of(b, placements, 0, to),
    decreases to,
{
    if to > 0 {
        alike_sections(a, b, placements, to - 1);
        let p = placements[to - 1];
        assert(overview_section(a, p) == overview_section(b, p));
    }
}

/// What the screen shows besides its hint line does not depend on how verbose
/// hints are.
pub proof fn law_overview_ignores_hints(model: DashboardModel, other: HintVerbosity)
    ensures
        overview_body(model) == overview_body((DashboardModel { hint_verbosity: other, ..model })),
{
    let twin = DashboardModel { hint_verbosity: other, ..model };
    let placements = overview_placements(
        model.terminal_size.0 as int,
        model.terminal_size.1 as int,
    );
    assert forall|p: PanePlacement| #[trigger]
        overview_section(model, p) == overview_section(twin, p) by {
        section_ignores_hints(model, other, p);
    }
    alike_sections(model, twin, placements, placements.len() as int);
}

/// Whether some mount has a known free-space percentage.
pub open spec fn some_known(mounts: Seq<MountPressure>) -> bool {
    exists|i: int| 0 <= i < mounts.len() && !(#[trigger] mounts[i]).free_pct.is_nan()
}

proof fn lowest_free_over_mounts(mounts: Seq<MountPressure>)
    requires
        mounts.len() > 0,
    ensures
        some_known(mounts) == !lowest_free_of(mounts).is_nan(),
        exists|i: int|
            0 <= i < mounts.len() && (#[trigger] mounts[i]).free_pct == lowest_free_of(mounts),
        forall|i: int|
            0 <= i < mounts.len() && !(#[trigger] mounts[i]).free_pct.is_nan()
                ==> mounts[i].free_pct.ge(lowest_free_of(mounts)),
    decreases mounts.len(),
{
    if mounts.len() == 1 {
        assert(mounts[0].free_pct == lowest_free_of(mounts));
    } else {
        let rest = mounts.drop_last();
        lowest_free_over_mounts(rest);
        let k = choose|i: int|
            0 <= i < rest.len() && (#[trigger] rest[i]).free_pct == lowest_free_of(rest);
        assert(mounts[k] == rest[k]);
        let last = mounts[mounts.len() - 1];
        assert forall|i: int| 0 <= i < mounts.len() && !(#[trigger] mounts[i]).free_pct.is_nan()
            implies mounts[i].free_pct.ge(lowest_free_of(mounts)) by {
            if i < rest.len() {
                assert(rest[i] == mounts[i]);
                assert(some_known(rest));
            }
        }
    }
}

/// The worst free-space percentage is that of some mount, and no mount has less free.
/// Unknown percentages do not count while there is a known one.
pub proof fn law_worst_free_is_the_least(mounts: Seq<MountPressure>)
    requires
        some_known(mounts),
    ensures
        !lowest_free_of(mounts).is_nan(),
        exists|i: int|
            0 <= i < mounts.len() && (#[trigger] mounts[i]).free_pct == lowest_free_of(mounts),
        forall|i: int|
            0 <= i < mounts.len() ==> !(#[trigger] mounts[i]).free_pct.lt(lowest_free_of(mounts)),
{
    lowest_free_over_mounts(mounts);
}

/// Where all percentages are known, the worst free-space percentage is the number that
/// the forecast gives for the mount it names.
pub proof fn law_worst_free_is_that_of_the_forecast(mounts: Seq<MountPressure>)
    requires
        mounts.len() > 0,
        forall|i: int| 0 <= i < mounts.len() ==> !(#[trigger] mounts[i]).free_pct.is_nan(),
    ensures
        lowest_free_of(mounts).same(mounts[worst_mount_of(mounts)].free_pct),
{
    law_worst_mount(mounts);
    assert(!mounts[0].free_pct.is_nan());
    lowest_free_over_mounts(mounts);
    let i = choose|i: int|
        0 <= i < mounts.len() && (#[trigger] mounts[i]).free_pct == lowest_free_of(mounts);
    assert(mounts[worst_mount_of(mounts)].free_pct.total_key() <= mounts[i].free_pct.total_key());
}

/// The figure behind "worst-free" on the pressure pane is the free-space percentage of a
/// mount that no other one undercuts.
pub proof fn law_pressure_line_shows_the_least(
    model: DashboardModel,
    state: DaemonState,
    pane_width: u16,
)
    requires
        model.daemon_state == Some(state),
        some_known(state.pressure.mounts@),
    ensures
        exists|i: int|
            0 <= i < state.pressure.mounts@.len() && labels(
                pressure_summary(model, pane_width),
                " worst-free="@,
                Atom::Fixed {
                    value: (#[trigger] state.pressure.mounts@[i]).free_pct,
                    decimals: 1,
                },
            ) && forall|j: int|
                0 <= j < state.pressure.mounts@.len()
                    ==> !(#[trigger] state.pressure.mounts@[j]).free_pct.lt(
                    state.pressure.mounts@[i].free_pct,
                ),
{
    broadcast use crate::markup::group_labels;

    let mounts = state.pressure.mounts@;
    law_worst_free_is_the_least(mounts);
    let i = choose|i: int|
        0 <= i < mounts.len() && (#[trigger] mounts[i]).free_pct == lowest_free_of(mounts);
    assert(labels(
        pressure_summary(model, pane_width),
        " worst-free="@,
        Atom::Fixed { value: mounts[i].free_pct, decimals: 1 },
    ));
}

/// The forecast is made for a mount that no other one undercuts, and names it with its
/// own path and percentage.
pub proof fn law_forecast_names_the_worst_mount(model: DashboardModel, state: DaemonState)
    requires
        model.daemon_state == Some(state),
        state.pressure.mounts@.len() > 0,
    ensures
        exists|i: int|
            0 <= i < state.pressure.mounts@.len() && labels(
                forecast_horizon(model),
                " worst="@,
                Atom::Text((#[trigger] state.pressure.mounts@[i]).path@),
            ) && labels(
                forecast_horizon(model),
                " free="@,
                Atom::Fixed { value: state.pressure.mounts@[i].free_pct, decimals: 1 },
            ) && forall|j: int|
                0 <= j < state.pressure.mounts@.len()
                    ==> !(#[trigger] state.pressure.mounts@[j]).free_pct.lt(
                    state.pressure.mounts@[i].free_pct,
                ),
{
    broadcast use crate::markup::group_labels;

    let mounts = state.pressure.mounts@;
    law_worst_mount(mounts);
    let w = worst_mount_of(mounts);
    assert(forecast_horizon(model) == mount_forecast(mounts[w]));
    assert(labels(mount_forecast(mounts[w]), " worst="@, Atom::Text(mounts[w].path@)));
    assert forall|j: int| 0 <= j < mounts.len() implies !(#[trigger] mounts[j]).free_pct.lt(
        mounts[w].free_pct,
    ) by {
        crate::double::law_double_total_order(mounts[j].free_pct, mounts[w].free_pct);
    }
}

/// A higher score is never shown as milder, and word and colour agree.
pub proof fn law_hotter_is_not_milder(a: Double, b: Double)
    requires
        a.ge(b),
    ensures
        alarm(heat_tone_of(a)) >= alarm(heat_tone_of(b)),
        heat_word_of(a) == "HOT"@ <==> heat_tone_of(a) == Tone::Critical,
        heat_word_of(a) == "WARM"@ <==> heat_tone_of(a) == Tone::Warning,
        heat_word_of(a) == "MILD"@ <==> heat_tone_of(a) == Tone::Accent,
        heat_word_of(b) == "HOT"@ ==> heat_word_of(a) == "HOT"@,
        heat_word_of(a) == "MILD"@ ==> heat_word_of(b) == "MILD"@,
{
    reveal_strlit("HOT");
    reveal_strlit("WARM");
    reveal_strlit("MILD");
    assert("HOT"@.len() == 3 && "WARM"@.len() == 4 && "MILD"@.len() == 4);
    assert("WARM"@[0] != "MILD"@[0]);
}

/// Less free space is never shown as less urgent.
pub proof fn law_less_free_is_not_calmer(a: Double, b: Double)
    requires
        a.ge(b),
    ensures
        alarm(urgency_tone_of(a)) <= alarm(urgency_tone_of(b)),
        a.ge(Double { bits: 0x4039_0000_0000_0000 }) ==> urgency_tone_of(a) == Tone::Success,
        a.lt(Double { bits: 0x4024_0000_0000_0000 }) ==> urgency_tone_of(a) == Tone::Danger,
        urgency_tone_of(a) == Tone::Success ==> !a.lt(Double { bits: 0x4039_0000_0000_0000 }),
        urgency_tone_of(a) == Tone::Danger ==> a.lt(Double { bits: 0x4024_0000_0000_0000 }),
{
}

/// A faster consumption is never shown as calmer, and no space is consumed where the
/// colour says success.
pub proof fn law_faster_is_not_calmer(a: Double, b: Double)
    requires
        a.ge(b),
    ensures
        alarm(rate_tone_of(a)) >= alarm(rate_tone_of(b)),
        rate_tone_of(a) == Tone::Success <==> !a.gt(Double { bits: 0 }),
        consumes_of(Some(a)) <==> alarm(rate_tone_of(a)) > 0,
{
}

/// Fewer available ballast files are never shown as better, and word and colour agree: none
/// left is critical, less than half is low.
pub proof fn law_fleet_badge(fewer: u64, more: u64, total: u64)
    requires
        fewer <= more <= total,
    ensures
        alarm(fleet_tone_of(fewer, total)) >= alarm(fleet_tone_of(more, total)),
        fleet_word_of(fewer, total) == "CRITICAL"@ <==> total > 0 && fewer == 0,
        fleet_word_of(fewer, total) == "OK"@ <==> fewer >= total - fewer,
        fleet_tone_of(fewer, total) == Tone::Critical <==> fleet_word_of(fewer, total)
            == "CRITICAL"@,
        fleet_tone_of(fewer, total) == Tone::Success <==> fleet_word_of(fewer, total) == "OK"@,
{
    reveal_strlit("CRITICAL");
    reveal_strlit("LOW");
    reveal_strlit("OK");
    assert("OK"@.len() == 2 && "LOW"@.len() == 3 && "CRITICAL"@.len() == 8);
}

/// Counts that should be zero are alarming exactly where they are not, and their words
/// tell it.
pub proof fn law_count_badges(count: int)
    ensures
        alarm(count_tone_of(count)) > 0 <==> count > 0,
        pulse_word_of(count) == "VETOES"@ <==> count > 0,
        pulse_word_of(count) == "CLEAR"@ <==> count <= 0,
        watch_word_of(count) == "WATCH"@ <==> count > 0,
        watch_word_of(count) == "STABLE"@ <==> count <= 0,
{
    reveal_strlit("VETOES");
    reveal_strlit("CLEAR");
    reveal_strlit("WATCH");
    reveal_strlit("STABLE");
    assert("VETOES"@.len() == 6 && "CLEAR"@.len() == 5 && "WATCH"@.len() == 5 && "STABLE"@.len()
        == 6);
}

/// One more event adds one to the count of hits exactly where its path holds the text, and
/// one to the count of critical events exactly where it is critical.
pub proof fn law_events_are_counted(
    events: Seq<TimelineEvent>,
    event: TimelineEvent,
    part: Seq<char>,
)
    ensures
        path_hits_of(events.push(event), part) - path_hits_of(events, part) == if event.path is Some
            && contains_text(event.path->0@, part) {
            1int
        } else {
            0
        },
        criticals_of(events.push(event)) - criticals_of(events) == if event.severity@
            == "critical"@ {
            1int
        } else {
            0
        },
        path_hits_of(seq![], part) == 0,
        criticals_of(seq![]) == 0,
{
    assert(events.push(event).drop_last() =~= events);
}

/// A forecast is given exactly for a mount that fills up and has space left.
pub proof fn law_forecast_needs_a_trend(mount: MountPressure)
    requires
        !mount.free_pct.is_nan(),
        mount.rate_bps is Some ==> !mount.rate_bps->0.is_nan(),
    ensures
        has_eta_of(mount) <==> mount.rate_bps is Some && mount.rate_bps->0.gt(Double { bits: 0 })
            && mount.free_pct.gt(Double { bits: 0 }),
        has_eta_of(mount) ==> consumes_of(mount.rate_bps),
{
}

/// The tag of a level is in brackets and shows the level in capitals, cut to eight
/// characters.
pub proof fn law_level_tag(level: Seq<char>)
    ensures
        ({
            let tag = level_tag_of(level);
            &&& tag.len() >= 2 && tag[0] == '[' && tag.last() == ']'
            &&& tag.len() <= 10
            &&& level.len() <= 8 ==> tag.len() == level.len() + 2
            &&& forall|i: int|
                0 <= i < tag.len() - 2 ==> #[trigger] tag[i + 1] == uppered(level)[i]
        }),
{
    reveal_strlit("[");
    reveal_strlit("]");
}

/// A path column keeps within its bounds and takes what the reserve leaves between them.
pub proof fn law_path_column(pane_width: u16, reserve: int, lo: int, hi: int)
    requires
        0 <= reserve,
        0 <= lo <= hi,
    ensures
        lo <= path_column_of(pane_width, reserve, lo, hi) <= hi,
        lo <= pane_width - reserve <= hi ==> path_column_of(pane_width, reserve, lo, hi)
            == pane_width - reserve,
        pane_width - reserve < lo ==> path_column_of(pane_width, reserve, lo, hi) == lo,
        pane_width - reserve > hi ==> path_column_of(pane_width, reserve, lo, hi) == hi,
{
}

/// Every visible pane is counted once, whatever comes before it.
pub proof fn law_visible_panes_are_counted(placements: Seq<PanePlacement>, p: PanePlacement)
    ensures
        visible_of(Seq::empty()) == 0,
        visible_of(placements.push(p)) == visible_of(placements) + (if p.visible { 1int } else { 0 }),
{
    assert(placements.push(p).drop_last() =~= placements);
}

/// The scores are those of the decisions, one by one; the latest rate is the last reading,
/// and nothing is read as zero.
pub proof fn law_scores_and_rates(decisions: Seq<DecisionEvidence>, i: int, history: RateHistory)
    requires
        0 <= i < decisions.len(),
    ensures
        scores_of(decisions).len() == decisions.len(),
        scores_of(decisions)[i] == decisions[i].total_score,
        history@.len() > 0 ==> latest_of(history) == history@[history@.len() - 1],
        history@.len() == 0 ==> latest_of(history).bits == 0,
{
}

/// A policy without a name is unknown, and no hovered pane is a dash.
pub proof fn law_missing_words(mode: Seq<char>, pane: OverviewPane)
    ensures
        mode.len() > 0 ==> policy_text_of(mode) == mode,
        mode.len() == 0 ==> policy_text_of(mode) == "unknown"@,
        hover_text_of(Some(pane)) == overview_pane_id(pane),
        hover_text_of(None) == "-"@,
{
}

} // verus!
