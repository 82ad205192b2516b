//! State model of the dashboard.
//!
//! All display state lives in [`DashboardModel`]. Input and data events arrive
//! as [`DashboardMsg`] values; side-effects are represented as
//! [`DashboardCmd`] values. No I/O happens here.

use vstd::prelude::*;

use crate::order::subsequence;
use crate::order::law_filter_is_subsequence;
use crate::double::Double;
use crate::input::KeyEvent;
use crate::layout::OverviewPane;
use crate::preferences::DensityMode;
use crate::preferences::HintVerbosity;
use crate::preferences::StartScreen;
use crate::telemetry::last_n;
use crate::telemetry::DataSource;
use crate::telemetry::DecisionEvidence;
use crate::telemetry::EventFilter;
use crate::telemetry::TelemetryResult;
use crate::telemetry::TimelineEvent;
use crate::text::law_text_order_total;
use crate::text::law_text_order_transitive;
use crate::text::precedes;
use crate::text::text_before;
use crate::text::text_eq;

verus! {

/// Top-level screens in the dashboard navigation model.
#[derive(Debug, Clone, Copy, PartialEq, Eq, Hash, Structural)]
pub enum Screen {
    /// Primary overview: pressure gauges, EWMA trends, ballast, counters.
    Overview,
    /// Ordered event stream with severity filtering.
    Timeline,
    /// Decision evidence, posterior trace, and factor contributions.
    Explainability,
    /// Candidate ranking with score breakdown and veto visibility.
    Candidates,
    /// Per-volume ballast inventory, release, and replenish controls.
    Ballast,
    /// JSONL/SQLite log viewing with search and filter.
    LogSearch,
    /// Daemon health, performance percentiles, thread status.
    Diagnostics,
}

impl Default for Screen {
    fn default() -> (s: Self)
        ensures
            s == Screen::Overview,
    {
        Screen::Overview
    }
}

/// Total number of screens (used for prev/next wrapping).
pub const SCREEN_COUNT: u8 = 7;

/// The position of a screen in navigation order, counted from one.
pub open spec fn screen_number(s: Screen) -> int {
    match s {
        Screen::Overview => 1,
        Screen::Timeline => 2,
        Screen::Explainability => 3,
        Screen::Candidates => 4,
        Screen::Ballast => 5,
        Screen::LogSearch => 6,
        Screen::Diagnostics => 7,
    }
}

/// The screen at a position, where there is one.
pub open spec fn numbered_screen(n: int) -> Option<Screen> {
    if n == 1 {
        Some(Screen::Overview)
    } else if n == 2 {
        Some(Screen::Timeline)
    } else if n == 3 {
        Some(Screen::Explainability)
    } else if n == 4 {
        Some(Screen::Candidates)
    } else if n == 5 {
        Some(Screen::Ballast)
    } else if n == 6 {
        Some(Screen::LogSearch)
    } else if n == 7 {
        Some(Screen::Diagnostics)
    } else {
        None
    }
}

/// The screen that follows, wrapping from the last to the first.
pub open spec fn next_screen(s: Screen) -> Screen {
    numbered_screen(screen_number(s) % 7 + 1)->0
}

/// The screen that comes before, wrapping from the first to the last.
pub open spec fn prev_screen(s: Screen) -> Screen {
    numbered_screen((screen_number(s) + 5) % 7 + 1)->0
}

impl Screen {
    /// 1-based screen number for hotkey mapping (keys `1`–`7`).
    pub fn number(self) -> (n: u8)
        ensures
            n == screen_number(self),
            1 <= n <= 7,
    {
        match self {
            Self::Overview => 1,
            Self::Timeline => 2,
            Self::Explainability => 3,
            Self::Candidates => 4,
            Self::Ballast => 5,
            Self::LogSearch => 6,
            Self::Diagnostics => 7,
        }
    }

    /// Resolve a 1-based number key to a screen. Returns `None` for out-of-range.
    pub fn from_number(n: u8) -> (s: Option<Self>)
        ensures
            s == numbered_screen(n as int),
            s is Some <==> 1 <= n <= 7,
    {
        match n {
            1 => Some(Self::Overview),
            2 => Some(Self::Timeline),
            3 => Some(Self::Explainability),
            4 => Some(Self::Candidates),
            5 => Some(Self::Ballast),
            6 => Some(Self::LogSearch),
            7 => Some(Self::Diagnostics),
            _ => None,
        }
    }

    /// Next screen in navigation order, wrapping at the end.
    pub fn next(self) -> (s: Self)
        ensures
            s == next_screen(self),
    {
        let n: u8 = self.number() % SCREEN_COUNT + 1;
        match Self::from_number(n) {
            Some(s) => s,
            None => Self::Overview,
        }
    }

    /// Previous screen in navigation order, wrapping at the start.
    pub fn prev(self) -> (s: Self)
        ensures
            s == prev_screen(self),
    {
        let n: u8 = if self.number() == 1 {
            SCREEN_COUNT
        } else {
            self.number() - 1
        };
        match Self::from_number(n) {
            Some(s) => s,
            None => Self::Diagnostics,
        }
    }
}

/// A screen and its number determine each other.
pub proof fn law_screen_number_round_trip(s: Screen, n: int)
    ensures
        numbered_screen(screen_number(s)) == Some(s),
        numbered_screen(n) is Some ==> screen_number(numbered_screen(n)->0) == n,
{
}

/// Going to the next screen and back, or back and to the next, changes nothing.
pub proof fn law_next_and_prev_are_inverse(s: Screen)
    ensures
        prev_screen(next_screen(s)) == s,
        next_screen(prev_screen(s)) == s,
{
}

/// `n` steps forward in navigation order.
pub open spec fn steps_forward(s: Screen, n: nat) -> Screen
    decreases n,
{
    if n == 0 {
        s
    } else {
        next_screen(steps_forward(s, (n - 1) as nat))
    }
}

/// Seven steps forward visit every screen and come back to the start.
pub proof fn law_seven_steps_cycle(s: Screen, t: Screen)
    ensures
        steps_forward(s, 7) == s,
        exists|n: nat| n < 7 && #[trigger] steps_forward(s, n) == t,
{
    let n: nat = ((screen_number(t) - screen_number(s) + 7) % 7) as nat;
    lemma_steps_advance_number(s, 7);
    lemma_steps_advance_number(s, n);
    assert(steps_forward(s, n) == t);
}

proof fn lemma_steps_advance_number(s: Screen, n: nat)
    ensures
        screen_number(steps_forward(s, n)) == (screen_number(s) - 1 + n) % 7 + 1,
    decreases n,
{
    if n > 0 {
        lemma_steps_advance_number(s, (n - 1) as nat);
        law_screen_number_round_trip(
            s,
            screen_number(steps_forward(s, (n - 1) as nat)) % 7 + 1,
        );
    }
}

/// Actions that require modal confirmation before execution.
#[derive(Debug, Clone, Copy, PartialEq, Eq, Structural)]
pub enum ConfirmAction {
    /// Release a single ballast file on the selected mount.
    BallastRelease,
    /// Release all ballast files on the selected mount.
    BallastReleaseAll,
}

/// Floating surfaces that overlay the current screen.
///
/// Only one overlay can be active at a time. Overlays have input precedence
/// over screen-level keys.
#[derive(Debug, Clone, Copy, PartialEq, Eq, Structural)]
pub enum Overlay {
    /// Fuzzy-search command palette (`Ctrl-P` or `:`).
    CommandPalette,
    /// Contextual key map for current screen (`?`).
    Help,
    /// VOI scheduler state panel (`v`).
    Voi,
    /// Modal confirmation for mutating actions.
    Confirmation(ConfirmAction),
    /// Triage steps for the current incident severity.
    IncidentPlaybook,
}

/// Severity-level filter for the timeline screen.
#[derive(Debug, Clone, Copy, PartialEq, Eq, Structural)]
pub enum SeverityFilter {
    /// Show all events regardless of severity.
    All,
    /// Show only informational events.
    Info,
    /// Show only warning events.
    Warning,
    /// Show only critical events.
    Critical,
}

impl Default for SeverityFilter {
    fn default() -> (f: Self)
        ensures
            f == SeverityFilter::All,
    {
        SeverityFilter::All
    }
}

/// The filter that follows in the cycle.
pub open spec fn next_filter(f: SeverityFilter) -> SeverityFilter {
    match f {
        SeverityFilter::All => SeverityFilter::Info,
        SeverityFilter::Info => SeverityFilter::Warning,
        SeverityFilter::Warning => SeverityFilter::Critical,
        SeverityFilter::Critical => SeverityFilter::All,
    }
}

/// The label of a filter.
pub open spec fn filter_label(f: SeverityFilter) -> Seq<char> {
    match f {
        SeverityFilter::All => "all"@,
        SeverityFilter::Info => "info"@,
        SeverityFilter::Warning => "warning"@,
        SeverityFilter::Critical => "critical"@,
    }
}

/// Whether an event of the given severity passes a filter.
pub open spec fn filter_passes(f: SeverityFilter, severity: Seq<char>) -> bool {
    f == SeverityFilter::All || severity == filter_label(f)
}

impl SeverityFilter {
    /// Advance to the next filter in the cycle.
    pub fn cycle(self) -> (f: Self)
        ensures
            f == next_filter(self),
    {
        match self {
            Self::All => Self::Info,
            Self::Info => Self::Warning,
            Self::Warning => Self::Critical,
            Self::Critical => Self::All,
        }
    }

    /// Human-readable label for status bar display.
    pub fn label(self) -> (l: &'static str)
        ensures
            l@ == filter_label(self),
    {
        match self {
            Self::All => "all",
            Self::Info => "info",
            Self::Warning => "warning",
            Self::Critical => "critical",
        }
    }

    /// Convert to an [`EventFilter`] for adapter queries.
    pub fn to_event_filter(self) -> (filter: EventFilter)
        ensures
            filter.event_types@.len() == 0,
            if self == SeverityFilter::All {
                filter.severities@.len() == 0
            } else {
                filter.severities@.len() == 1 && filter.severities@[0]@ == filter_label(self)
            },
    {
        match self {
            Self::All => EventFilter::default(),
            _ => EventFilter { severities: vec![self.label().to_owned()], event_types: Vec::new() },
        }
    }

    /// Check whether a severity string passes this filter.
    pub fn matches(self, severity: &str) -> (b: bool)
        ensures
            b == filter_passes(self, severity@),
    {
        match self {
            Self::All => true,
            _ => text_eq(severity, self.label()),
        }
    }
}

/// Four steps through the filter cycle come back to the start.
pub proof fn law_filter_cycle(f: SeverityFilter)
    ensures
        next_filter(next_filter(next_filter(next_filter(f)))) == f,
        next_filter(f) != f,
        next_filter(next_filter(f)) != f,
{
}

/// The query filter made from a severity filter accepts exactly the events
/// that the severity filter passes.
pub proof fn law_event_filter_agrees(
    f: SeverityFilter,
    filter: EventFilter,
    severity: Seq<char>,
    event_type: Seq<char>,
)
    requires
        call_ensures(SeverityFilter::to_event_filter, (f,), filter),
    ensures
        filter.accepts(severity, event_type) == filter_passes(f, severity),
{
    if f != SeverityFilter::All && severity == filter_label(f) {
        assert(filter.severities@[0]@ == severity);
    }
}

/// Notification severity.
#[derive(Debug, Clone, Copy, PartialEq, Eq, Structural)]
pub enum NotificationLevel {
    Info,
    Warning,
    Error,
}

/// Toast notification displayed in the top-right corner.
///
/// Info notifications auto-dismiss after 5 seconds. Warnings persist until
/// manually dismissed. Max 3 visible at once.
#[derive(Debug, Clone, PartialEq, Eq)]
pub struct Notification {
    /// Monotonic ID for expiry tracking.
    pub id: u64,
    /// Severity level controlling auto-dismiss behavior.
    pub level: NotificationLevel,
    /// Human-readable message text.
    pub message: String,
}

/// An error event surfaced through the model for operator visibility.
#[derive(Debug, Clone, PartialEq, Eq)]
pub struct DashboardError {
    /// Human-readable error description.
    pub message: String,
    /// Subsystem that produced the error (e.g. "adapter", "telemetry").
    pub source: String,
}

/// Ring buffer tracking recent readings for sparkline rendering.
#[derive(Debug, Clone, PartialEq, Eq)]
pub struct RateHistory {
    values: Vec<Double>,
    capacity: usize,
    write_pos: usize,
}

impl View for RateHistory {
    type V = Seq<Double>;

    /// The readings, oldest first.
    closed spec fn view(&self) -> Seq<Double> {
        if self.values@.len() < self.capacity {
            self.values@
        } else {
            self.values@.skip(self.write_pos as int) + self.values@.take(self.write_pos as int)
        }
    }
}

impl RateHistory {
    /// How many readings are kept.
    pub closed spec fn limit(self) -> nat {
        self.capacity as nat
    }

    /// The write position is behind the newest reading, and inside the buffer.
    pub closed spec fn wf(self) -> bool {
        &&& self.values@.len() <= self.capacity
        &&& self.values@.len() < self.capacity ==> self.write_pos == self.values@.len()
        &&& self.write_pos < self.capacity || self.capacity == 0 && self.write_pos == 0
    }

    /// Whether the write position is where the readings say.
    pub fn is_sound(&self) -> (b: bool)
        ensures
            b == self.wf(),
    {
        let len: usize = self.values.len();
        let inside = self.write_pos < self.capacity || self.capacity == 0 && self.write_pos == 0;
        len <= self.capacity && (len == self.capacity || self.write_pos == len) && inside
    }

    /// Create a new ring buffer with the given capacity.
    pub fn new(capacity: usize) -> (h: Self)
        ensures
            h.wf(),
            h.limit() == capacity,
            h@ == Seq::<Double>::empty(),
    {
        let h = RateHistory { values: Vec::new(), capacity, write_pos: 0 };
        assert(h@ =~= Seq::<Double>::empty());
        h
    }

    /// Push a new value into the ring buffer, overwriting the oldest if full.
    pub fn push(&mut self, value: Double)
        requires
            old(self).wf(),
            old(self).limit() > 0,
        ensures
            final(self).wf(),
            final(self).limit() == old(self).limit(),
            final(self)@ == last_n(old(self)@.push(value), old(self).limit()),
    {
        let ghost before = self.values@;
        let ghost pos = self.write_pos as int;
        if self.values.len() < self.capacity {
            self.values.push(value);
        } else {
            self.values.set(self.write_pos, value);
        }
        self.write_pos = if self.write_pos + 1 == self.capacity {
            0
        } else {
            self.write_pos + 1
        };
        proof {
            let now = self@;
            if before.len() < self.capacity {
                assert(now =~= last_n(old(self)@.push(value), old(self).limit()));
            } else {
                assert(now =~= (before.skip(pos) + before.take(pos)).push(value).skip(1));
            }
        }
    }

    /// Number of readings held.
    pub fn len(&self) -> (n: usize)
        requires
            self.wf(),
        ensures
            n == self@.len(),
            n <= self.limit(),
    {
        self.values.len()
    }

    /// The readings in chronological order.
    pub fn chronological(&self) -> (readings: Vec<Double>)
        requires
            self.wf(),
        ensures
            readings@ == self@,
    {
        let len: usize = self.values.len();
        let start: usize = if len < self.capacity {
            0
        } else {
            self.write_pos
        };
        let mut readings: Vec<Double> = Vec::new();
        let mut i: usize = start;
        while i < len
            invariant
                start <= i <= len,
                len == self.values@.len(),
                readings@ == self.values@.subrange(start as int, i as int),
            decreases len - i,
        {
            readings.push(self.values[i]);
            i += 1;
        }
        let mut j: usize = 0;
        while j < start
            invariant
                j <= start <= len,
                len == self.values@.len(),
                readings@ == self.values@.skip(start as int) + self.values@.take(j as int),
            decreases start - j,
        {
            readings.push(self.values[j]);
            j += 1;
        }
        assert(readings@ =~= self@);
        readings
    }

    /// Most recently pushed value, if any.
    pub fn latest(&self) -> (value: Option<Double>)
        requires
            self.wf(),
        ensures
            value == (if self@.len() == 0 {
                None
            } else {
                Some(self@.last())
            }),
    {
        if self.values.is_empty() {
            return None;
        }
        let idx: usize = if self.write_pos == 0 {
            self.values.len() - 1
        } else {
            self.write_pos - 1
        };
        Some(self.values[idx])
    }
}

/// After a push, the newest reading is the one pushed.
pub proof fn law_latest_is_last_pushed(before: Seq<Double>, value: Double, limit: nat)
    requires
        limit > 0,
    ensures
        last_n(before.push(value), limit).len() > 0,
        last_n(before.push(value), limit).last() == value,
        last_n(before.push(value), limit).len() <= limit || before.len() < limit,
{
}

/// The rate history of one mount.
#[derive(Debug, Clone, PartialEq, Eq)]
pub struct RateEntry {
    pub mount: String,
    pub history: RateHistory,
}

/// Rate histories by mount, in mount order.
#[derive(Debug, Clone, PartialEq, Eq)]
pub struct RateTable {
    pub entries: Vec<RateEntry>,
}

impl RateTable {
    /// Mounts are in ascending order without repetition, and histories are sound.
    pub open spec fn wf(self) -> bool {
        &&& forall|i: int, j: int|
            #![trigger self.entries@[i], self.entries@[j]]
            0 <= i < j < self.entries@.len() ==> precedes(
                self.entries@[i].mount@,
                self.entries@[j].mount@,
            )
        &&& forall|i: int|
            0 <= i < self.entries@.len() ==> (#[trigger] self.entries@[i]).history.wf()
    }

    /// Whether the mounts are in order and the histories sound.
    pub fn is_sound(&self) -> (b: bool)
        ensures
            b == self.wf(),
    {
        let mut k: usize = 0;
        while k < self.entries.len()
            invariant
                k <= self.entries@.len(),
                forall|i: int, j: int|
                    #![trigger self.entries@[i], self.entries@[j]]
                    0 <= i < j < k ==> precedes(self.entries@[i].mount@, self.entries@[j].mount@),
                forall|i: int| 0 <= i < k ==> (#[trigger] self.entries@[i]).history.wf(),
            decreases self.entries.len() - k,
        {
            if !self.entries[k].history.is_sound() {
                return false;
            }
            if k > 0 && !text_before(
                self.entries[k - 1].mount.as_str(),
                self.entries[k].mount.as_str(),
            ) {
                assert(!precedes(self.entries@[k - 1].mount@, self.entries@[k as int].mount@));
                return false;
            }
            proof {
                assert forall|i: int| 0 <= i < k implies precedes(
                    (#[trigger] self.entries@[i]).mount@,
                    self.entries@[k as int].mount@,
                ) by {
                    if i < k - 1 {
                        law_text_order_transitive(
                            self.entries@[i].mount@,
                            self.entries@[k - 1].mount@,
                            self.entries@[k as int].mount@,
                        );
                    }
                }
            }
            k += 1;
        }
        true
    }

    /// A table without mounts.
    pub fn new() -> (t: Self)
        ensures
            t.wf(),
            t.entries@.len() == 0,
    {
        RateTable { entries: Vec::new() }
    }

    /// Number of tracked mounts.
    pub fn len(&self) -> (n: usize)
        ensures
            n == self.entries@.len(),
    {
        self.entries.len()
    }

    /// The position of the first mount that does not come before `mount`.
    fn position(&self, mount: &str) -> (at: usize)
        requires
            self.wf(),
        ensures
            at <= self.entries@.len(),
            forall|i: int|
                0 <= i < at ==> precedes((#[trigger] self.entries@[i]).mount@, mount@),
            forall|i: int|
                at <= i < self.entries@.len() ==> !precedes(
                    (#[trigger] self.entries@[i]).mount@,
                    mount@,
                ),
    {
        let mut at: usize = 0;
        while at < self.entries.len() && text_before(self.entries[at].mount.as_str(), mount)
            invariant
                at <= self.entries@.len(),
                forall|i: int|
                    0 <= i < at ==> precedes((#[trigger] self.entries@[i]).mount@, mount@),
            decreases self.entries.len() - at,
        {
            at += 1;
        }
        proof {
            assert forall|i: int| at <= i < self.entries@.len() implies !precedes(
                (#[trigger] self.entries@[i]).mount@,
                mount@,
            ) by {
                if i > at && precedes(self.entries@[i].mount@, mount@) {
                    law_text_order_transitive(
                        self.entries@[at as int].mount@,
                        self.entries@[i].mount@,
                        mount@,
                    );
                }
            }
        }
        at
    }

    /// Appends a reading to the history of a mount. A mount seen for the first
    /// time gets a history of the given capacity.
    pub fn record(&mut self, mount: &str, capacity: usize, value: Double)
        requires
            old(self).wf(),
            capacity > 0,
            forall|i: int|
                0 <= i < old(self).entries@.len() ==> (#[trigger] old(self).entries@[i]).history.limit()
                    > 0,
        ensures
            final(self).wf(),
            ({
                let was = old(self).entries@;
                let now = final(self).entries@;
                if exists|i: int| 0 <= i < was.len() && (#[trigger] was[i]).mount@ == mount@ {
                    &&& now.len() == was.len()
                    &&& forall|i: int|
                        0 <= i < was.len() ==> {
                            &&& (#[trigger] now[i]).mount == was[i].mount
                            &&& now[i].history.limit() == was[i].history.limit()
                            &&& now[i].history@ == (if was[i].mount@ == mount@ {
                                last_n(was[i].history@.push(value), was[i].history.limit())
                            } else {
                                was[i].history@
                            })
                        }
                } else {
                    exists|at: int, e: RateEntry|
                        0 <= at <= was.len() && now == #[trigger] was.insert(at, e) && e.mount@
                            == mount@ && e.history.limit() == capacity && e.history@ == seq![value]
                }
            }),
    {
        let at: usize = self.position(mount);
        let ghost was = self.entries@;
        if at < self.entries.len() && text_eq(self.entries[at].mount.as_str(), mount) {
            assert(was[at as int].mount@ == mount@);
            let mut entry = self.entries.remove(at);
            entry.history.push(value);
            self.entries.insert(at, entry);
            proof {
                assert forall|i: int| 0 <= i < was.len() && i != at implies (
                #[trigger] was[i]).mount@ != mount@ by {
                    law_text_order_total(was[i].mount@, mount@);
                    if i < at {
                    } else {
                        assert(precedes(was[at as int].mount@, was[i].mount@));
                    }
                }
                assert forall|i: int| 0 <= i < was.len() implies (#[trigger] self.entries@[i]).mount
                    == was[i].mount by {}
            }
        } else {
            proof {
                assert forall|i: int| 0 <= i < was.len() implies (#[trigger] was[i]).mount@
                    != mount@ by {
                    law_text_order_total(was[i].mount@, mount@);
                    if i > at && was[i].mount@ == mount@ {
                        assert(precedes(was[at as int].mount@, was[i].mount@));
                    }
                }
            }
            let mut history = RateHistory::new(capacity);
            history.push(value);
            let entry = RateEntry { mount: mount.to_owned(), history };
            assert(entry.history@ =~= seq![value]);
            self.entries.insert(at, entry);
            proof {
                assert(self.entries@ == was.insert(at as int, entry));
                assert forall|i: int, j: int|
                    #![trigger self.entries@[i], self.entries@[j]]
                    0 <= i < j < self.entries@.len() implies precedes(
                    self.entries@[i].mount@,
                    self.entries@[j].mount@,
                ) by {
                    if j == at {
                    } else if i == at {
                        law_text_order_total(mount@, was[j - 1].mount@);
                    } else {
                        let wi = if i < at {
                            i
                        } else {
                            i - 1
                        };
                        let wj = if j < at {
                            j
                        } else {
                            j - 1
                        };
                        assert(precedes(was[wi].mount@, was[wj].mount@));
                    }
                }
            }
        }
    }
}

/// Pressure reading of one mount.
#[derive(Debug, Clone, PartialEq, Eq)]
pub struct MountPressure {
    pub path: String,
    pub free_pct: Double,
    pub level: String,
    pub rate_bps: Option<Double>,
}

/// Pressure over all mounts.
#[derive(Debug, Clone, PartialEq, Eq, Default)]
pub struct PressureState {
    pub overall: String,
    pub mounts: Vec<MountPressure>,
}

/// Ballast file counts.
#[derive(Debug, Clone, Copy, PartialEq, Eq, Structural, Default)]
pub struct BallastState {
    pub available: u64,
    pub total: u64,
    pub released: u64,
}

/// Outcome of the most recent scan.
#[derive(Debug, Clone, PartialEq, Eq, Default)]
pub struct LastScanState {
    pub at: Option<String>,
    pub candidates: u64,
    pub deleted: u64,
}

/// Lifetime counters of the daemon.
#[derive(Debug, Clone, Copy, PartialEq, Eq, Structural, Default)]
pub struct Counters {
    pub scans: u64,
    pub deletions: u64,
    pub bytes_freed: u64,
    pub errors: u64,
    pub dropped_log_events: u64,
}

/// Snapshot that the daemon publishes in its state file.
#[derive(Debug, Clone, PartialEq, Eq, Default)]
pub struct DaemonState {
    pub version: String,
    pub pid: u32,
    pub started_at: String,
    pub uptime_seconds: u64,
    pub last_updated: String,
    pub pressure: PressureState,
    pub ballast: BallastState,
    pub last_scan: LastScanState,
    pub counters: Counters,
    pub memory_rss_bytes: u64,
    pub policy_mode: String,
}

/// Ballast inventory of one volume.
#[derive(Debug, Clone, PartialEq, Eq)]
pub struct BallastVolume {
    pub mount_point: String,
    pub ballast_dir: String,
    pub fs_type: String,
    pub strategy: String,
    pub files_available: usize,
    pub files_total: usize,
    pub releasable_bytes: u64,
    pub skipped: bool,
    pub skip_reason: Option<String>,
    /// Status label: OK, LOW, CRITICAL or another word.
    pub status: String,
}

/// Frame timing figures in milliseconds, with the mean frame time as a
/// percentage of the refresh interval.
#[derive(Debug, Clone, Copy, PartialEq, Eq, Structural)]
pub struct FrameStats {
    pub current: Double,
    pub avg: Double,
    pub min: Double,
    pub max: Double,
    pub budget_pct: Double,
}

/// Where the active preference profile comes from.
#[derive(Debug, Clone, Copy, PartialEq, Eq, Structural)]
pub enum PreferenceProfileMode {
    Defaults,
    Persisted,
    SessionOverride,
}

/// A change to the preference profile that the operator asked for.
#[derive(Debug, Clone, Copy, PartialEq, Eq, Structural)]
pub enum PreferenceAction {
    SetStartScreen(StartScreen),
    SetDensity(DensityMode),
    SetHintVerbosity(HintVerbosity),
    ResetToPersisted,
    RevertToDefaults,
}

/// Maximum number of visible notification toasts.
pub const MAX_NOTIFICATIONS: usize = 3;

/// Number of frame times kept for the frame-time trace.
pub const FRAME_TIME_SAMPLES: usize = 60;

/// Complete display state of the dashboard.
#[derive(Debug)]
pub struct DashboardModel {
    /// Active screen.
    pub screen: Screen,
    /// Screen navigation history for back-navigation (most recent last).
    pub screen_history: Vec<Screen>,
    /// Currently active overlay, if any.
    pub active_overlay: Option<Overlay>,
    /// Most recent daemon state snapshot (None when daemon is not running).
    pub daemon_state: Option<DaemonState>,
    /// Per-mount rate histories for sparkline rendering.
    pub rate_histories: RateTable,
    /// Terminal dimensions (columns, rows).
    pub terminal_size: (u16, u16),
    /// Whether we are in degraded mode (daemon unreachable).
    pub degraded: bool,
    /// Monotonic tick counter for timing-dependent rendering.
    pub tick: u64,
    /// Configured refresh interval in milliseconds.
    pub refresh: u64,
    /// Path to the daemon state file.
    pub state_file: String,
    /// Filesystem paths to monitor in degraded mode.
    pub monitor_paths: Vec<String>,
    /// Time of last data fetch on a monotonic clock, in milliseconds.
    pub last_fetch: Option<u64>,
    /// Whether the user has requested quit.
    pub quit: bool,
    /// Active notification toasts (oldest first).
    pub notifications: Vec<Notification>,
    /// Monotonic counter for notification IDs.
    pub next_notification_id: u64,
    /// Cached timeline events for the timeline screen.
    pub timeline_events: Vec<TimelineEvent>,
    /// Active severity filter for the timeline view.
    pub timeline_filter: SeverityFilter,
    /// Cursor position in the filtered event list.
    pub timeline_selected: usize,
    /// Follow mode: auto-scroll to newest events on data arrival.
    pub timeline_follow: bool,
    /// Backend that sourced the current timeline data.
    pub timeline_source: DataSource,
    /// Whether the timeline data is known to be incomplete.
    pub timeline_partial: bool,
    /// Diagnostic message from the telemetry adapter.
    pub timeline_diagnostics: String,
    /// Cached decision evidence for the explainability screen.
    pub explainability_decisions: Vec<DecisionEvidence>,
    /// Cursor position in the decisions list.
    pub explainability_selected: usize,
    /// Whether the detail pane is expanded for the selected decision.
    pub explainability_detail: bool,
    /// Backend that sourced the current decision data.
    pub explainability_source: DataSource,
    /// Whether the decision data is known to be incomplete.
    pub explainability_partial: bool,
    /// Diagnostic message from the telemetry adapter.
    pub explainability_diagnostics: String,
    /// Candidate ranking for the candidates screen.
    pub candidates_list: Vec<DecisionEvidence>,
    /// Cursor position in the candidate ranking.
    pub candidates_selected: usize,
    /// Whether the detail pane is expanded for the selected candidate.
    pub candidates_detail: bool,
    /// Label of the active sort order.
    pub candidates_sort: String,
    /// Backend that sourced the current candidate data.
    pub candidates_source: DataSource,
    /// Whether the candidate data is known to be incomplete.
    pub candidates_partial: bool,
    /// Diagnostic message from the telemetry adapter.
    pub candidates_diagnostics: String,
    /// Ballast inventory for the ballast screen.
    pub ballast_volumes: Vec<BallastVolume>,
    /// Cursor position in the volume list.
    pub ballast_selected: usize,
    /// Whether the detail pane is expanded for the selected volume.
    pub ballast_detail: bool,
    /// Backend that sourced the current ballast data.
    pub ballast_source: DataSource,
    /// Whether the ballast data is known to be incomplete.
    pub ballast_partial: bool,
    /// Diagnostic message from the ballast source.
    pub ballast_diagnostics: String,
    /// Text typed into the command palette.
    pub palette_query: String,
    /// Cursor position in the palette results.
    pub palette_selected: usize,
    /// Cursor position in the incident playbook.
    pub incident_playbook_selected: usize,
    /// Overview pane that has the keyboard focus.
    pub overview_focus_pane: OverviewPane,
    /// Overview pane under the pointer, if any.
    pub overview_hover_pane: Option<OverviewPane>,
    /// Recent frame times.
    pub frame_times: RateHistory,
    /// Frame timing figures, once a frame was measured.
    pub frame_stats: Option<FrameStats>,
    /// Successful state reads.
    pub adapter_reads: u64,
    /// Failed state reads.
    pub adapter_errors: u64,
    /// Refresh ticks that came too late.
    pub missed_ticks: u64,
    /// Whether the diagnostics screen shows its verbose sections.
    pub diagnostics_verbose: bool,
    /// Visual density.
    pub density: DensityMode,
    /// How verbose inline hints are.
    pub hint_verbosity: HintVerbosity,
    /// Start screen of the active profile.
    pub preferred_start_screen: StartScreen,
    /// Where the active profile comes from.
    pub preference_profile_mode: PreferenceProfileMode,
}

/// The events that pass a severity filter, in order.
pub open spec fn filtered(events: Seq<TimelineEvent>, f: SeverityFilter) -> Seq<TimelineEvent> {
    events.filter(|e: TimelineEvent| filter_passes(f, e.severity@))
}

/// A screen and its history after navigating to a target: staying put leaves
/// no trace in the history.
pub open spec fn visited(place: (Screen, Seq<Screen>), target: Screen) -> (Screen, Seq<Screen>) {
    if target == place.0 {
        place
    } else {
        (target, place.1.push(place.0))
    }
}

/// A screen and its history after going back; nothing changes without history.
pub open spec fn returned(place: (Screen, Seq<Screen>)) -> (Screen, Seq<Screen>) {
    if place.1.len() == 0 {
        place
    } else {
        (place.1.last(), place.1.drop_last())
    }
}

impl DashboardModel {
    /// The active screen with its history.
    pub open spec fn place(self) -> (Screen, Seq<Screen>) {
        (self.screen, self.screen_history@)
    }

    /// The histories are sound.
    pub open spec fn wf(self) -> bool {
        self.rate_histories.wf() && self.frame_times.wf()
    }

    /// Whether the histories are sound.
    pub fn is_sound(&self) -> (b: bool)
        ensures
            b == self.wf(),
    {
        self.rate_histories.is_sound() && self.frame_times.is_sound()
    }

    /// The events the timeline shows.
    pub open spec fn shown_events(self) -> Seq<TimelineEvent> {
        filtered(self.timeline_events@, self.timeline_filter)
    }

    /// Create a new model with the given configuration.
    pub fn new(
        state_file: String,
        monitor_paths: Vec<String>,
        refresh: u64,
        terminal_size: (u16, u16),
    ) -> (m: Self)
        ensures
            m.wf(),
            m.screen == Screen::Overview,
            m.screen_history@.len() == 0,
            m.active_overlay is None,
            m.daemon_state is None,
            m.rate_histories.entries@.len() == 0,
            m.terminal_size == terminal_size,
            m.degraded,
            m.tick == 0,
            m.refresh == refresh,
            m.state_file == state_file,
            m.monitor_paths == monitor_paths,
            m.last_fetch is None,
            !m.quit,
            m.notifications@.len() == 0,
            m.next_notification_id == 0,
            m.timeline_events@.len() == 0,
            m.timeline_filter == SeverityFilter::All,
            m.timeline_selected == 0,
            m.timeline_follow,
            m.timeline_source == DataSource::Absent,
            !m.timeline_partial,
            m.timeline_diagnostics@.len() == 0,
            m.explainability_decisions@.len() == 0,
            m.explainability_selected == 0,
            !m.explainability_detail,
            m.explainability_source == DataSource::Absent,
            !m.explainability_partial,
            m.explainability_diagnostics@.len() == 0,
            m.candidates_list@.len() == 0,
            m.candidates_selected == 0,
            !m.candidates_detail,
            m.candidates_sort@ == "score"@,
            m.candidates_source == DataSource::Absent,
            !m.candidates_partial,
            m.candidates_diagnostics@.len() == 0,
            m.ballast_volumes@.len() == 0,
            m.ballast_selected == 0,
            !m.ballast_detail,
            m.ballast_source == DataSource::Absent,
            !m.ballast_partial,
            m.ballast_diagnostics@.len() == 0,
            m.palette_query@.len() == 0,
            m.palette_selected == 0,
            m.incident_playbook_selected == 0,
            m.overview_focus_pane == OverviewPane::PressureSummary,
            m.overview_hover_pane is None,
            m.frame_times@.len() == 0,
            m.frame_stats is None,
            m.adapter_reads == 0,
            m.adapter_errors == 0,
            m.missed_ticks == 0,
            !m.diagnostics_verbose,
            m.density == DensityMode::Comfortable,
            m.hint_verbosity == HintVerbosity::Full,
            m.preferred_start_screen == StartScreen::Overview,
            m.preference_profile_mode == PreferenceProfileMode::Defaults,
    {
        DashboardModel {
            screen: Screen::default(),
            screen_history: Vec::new(),
            active_overlay: None,
            daemon_state: None,
            rate_histories: RateTable::new(),
            terminal_size,
            degraded: true,
            tick: 0,
            refresh,
            state_file,
            monitor_paths,
            last_fetch: None,
            quit: false,
            notifications: Vec::new(),
            next_notification_id: 0,
            timeline_events: Vec::new(),
            timeline_filter: SeverityFilter::default(),
            timeline_selected: 0,
            timeline_follow: true,
            timeline_source: DataSource::Absent,
            timeline_partial: false,
            timeline_diagnostics: String::new(),
            explainability_decisions: Vec::new(),
            explainability_selected: 0,
            explainability_detail: false,
            explainability_source: DataSource::Absent,
            explainability_partial: false,
            explainability_diagnostics: String::new(),
            candidates_list: Vec::new(),
            candidates_selected: 0,
            candidates_detail: false,
            candidates_sort: "score".to_owned(),
            candidates_source: DataSource::Absent,
            candidates_partial: false,
            candidates_diagnostics: String::new(),
            ballast_volumes: Vec::new(),
            ballast_selected: 0,
            ballast_detail: false,
            ballast_source: DataSource::Absent,
            ballast_partial: false,
            ballast_diagnostics: String::new(),
            palette_query: String::new(),
            palette_selected: 0,
            incident_playbook_selected: 0,
            overview_focus_pane: OverviewPane::PressureSummary,
            overview_hover_pane: None,
            frame_times: RateHistory::new(FRAME_TIME_SAMPLES),
            frame_stats: None,
            adapter_reads: 0,
            adapter_errors: 0,
            missed_ticks: 0,
            diagnostics_verbose: false,
            density: DensityMode::default(),
            hint_verbosity: HintVerbosity::default(),
            preferred_start_screen: StartScreen::default(),
            preference_profile_mode: PreferenceProfileMode::Defaults,
        }
    }

    /// Push a notification, evicting the oldest if at capacity.
    /// Returns the assigned notification ID.
    pub fn push_notification(&mut self, level: NotificationLevel, message: String) -> (id: u64)
        requires
            old(self).next_notification_id < u64::MAX,
        ensures
            id == old(self).next_notification_id,
            final(self).next_notification_id == id + 1,
            final(self).notifications@ == last_n(
                old(self).notifications@.push(Notification { id, level, message }),
                3,
            ),
            final(self).notifications@.len() <= 3,
            *final(self) == (DashboardModel {
                next_notification_id: final(self).next_notification_id,
                notifications: final(self).notifications,
                ..*old(self)
            }),
    {
        let id: u64 = self.next_notification_id;
        self.next_notification_id = id + 1;
        self.notifications.push(Notification { id, level, message });
        let ghost all = self.notifications@;
        assert(all.skip(0) == all);
        while self.notifications.len() > MAX_NOTIFICATIONS
            invariant
                self.notifications@.len() <= all.len(),
                all.len() <= 3 ==> self.notifications@.len() == all.len(),
                all.len() > 3 ==> self.notifications@.len() >= 3,
                self.notifications@ == all.skip(all.len() - self.notifications@.len()),
                all == old(self).notifications@.push(Notification { id, level, message }),
                *self == (DashboardModel {
                    next_notification_id: self.next_notification_id,
                    notifications: self.notifications,
                    ..*old(self)
                }),
                self.next_notification_id == id + 1,
            decreases self.notifications.len(),
        {
            let ghost shown = self.notifications@;
            self.notifications.remove(0);
            assert(self.notifications@ =~= all.skip(all.len() - shown.len() + 1));
        }
        id
    }

    /// Navigate to a screen, recording the current screen in history.
    /// No-op if already on the target screen.
    /// Returns `true` if navigation occurred.
    pub fn navigate_to(&mut self, target: Screen) -> (moved: bool)
        ensures
            moved == (target != old(self).screen),
            final(self).place() == visited(old(self).place(), target),
            !moved ==> *final(self) == *old(self),
            *final(self) == (DashboardModel {
                screen: final(self).screen,
                screen_history: final(self).screen_history,
                ..*old(self)
            }),
    {
        if target == self.screen {
            return false;
        }
        self.screen_history.push(self.screen);
        self.screen = target;
        true
    }

    /// Go back to the previous screen. Returns `true` if history was non-empty.
    pub fn navigate_back(&mut self) -> (moved: bool)
        ensures
            moved == (old(self).screen_history@.len() > 0),
            final(self).place() == returned(old(self).place()),
            !moved ==> *final(self) == *old(self),
            *final(self) == (DashboardModel {
                screen: final(self).screen,
                screen_history: final(self).screen_history,
                ..*old(self)
            }),
    {
        if self.screen_history.len() == 0 {
            return false;
        }
        match self.screen_history.pop() {
            Some(prev) => {
                self.screen = prev;
                true
            },
            None => false,
        }
    }

    /// Events filtered by the current severity filter.
    pub fn timeline_filtered_events(&self) -> (events: Vec<&TimelineEvent>)
        ensures
            events@.len() == self.shown_events().len(),
            forall|i: int|
                0 <= i < events@.len() ==> *(#[trigger] events@[i]) == self.shown_events()[i],
    {
        let mut events: Vec<&TimelineEvent> = Vec::new();
        let ghost keep = |e: TimelineEvent| filter_passes(self.timeline_filter, e.severity@);
        let mut i: usize = 0;
        assert(self.timeline_events@.take(0).filter(keep) == Seq::<TimelineEvent>::empty()) by {
            reveal(Seq::filter);
        }
        while i < self.timeline_events.len()
            invariant
                i <= self.timeline_events@.len(),
                keep == (|e: TimelineEvent| filter_passes(self.timeline_filter, e.severity@)),
                events@.len() == self.timeline_events@.take(i as int).filter(keep).len(),
                forall|k: int|
                    0 <= k < events@.len() ==> *(#[trigger] events@[k])
                        == self.timeline_events@.take(i as int).filter(keep)[k],
            decreases self.timeline_events.len() - i,
        {
            proof {
                reveal(Seq::filter);
                assert(self.timeline_events@.take(i + 1).drop_last() == self.timeline_events@.take(
                    i as int,
                ));
            }
            if self.timeline_filter.matches(self.timeline_events[i].severity.as_str()) {
                events.push(&self.timeline_events[i]);
            }
            i += 1;
        }
        assert(self.timeline_events@.take(self.timeline_events@.len() as int)
            == self.timeline_events@);
        events
    }

    /// Move the timeline cursor up. Returns `true` if the cursor moved.
    /// Moving by hand leaves follow mode.
    pub fn timeline_cursor_up(&mut self) -> (moved: bool)
        ensures
            moved == (old(self).timeline_selected > 0),
            *final(self) == (if moved {
                DashboardModel {
                    timeline_selected: (old(self).timeline_selected - 1) as usize,
                    timeline_follow: false,
                    ..*old(self)
                }
            } else {
                *old(self)
            }),
    {
        if self.timeline_selected > 0 {
            self.timeline_selected -= 1;
            self.timeline_follow = false;
            true
        } else {
            false
        }
    }

    /// Move the timeline cursor down. Returns `true` if the cursor moved.
    /// Moving by hand leaves follow mode.
    pub fn timeline_cursor_down(&mut self) -> (moved: bool)
        ensures
            moved == (old(self).timeline_selected + 1 < old(self).shown_events().len()),
            *final(self) == (if moved {
                DashboardModel {
                    timeline_selected: (old(self).timeline_selected + 1) as usize,
                    timeline_follow: false,
                    ..*old(self)
                }
            } else {
                *old(self)
            }),
    {
        let count: usize = self.timeline_filtered_events().len();
        let max: usize = if count > 0 {
            count - 1
        } else {
            0
        };
        if self.timeline_selected < max {
            self.timeline_selected += 1;
            self.timeline_follow = false;
            true
        } else {
            false
        }
    }

    /// Cycle the severity filter to the next level and reset the cursor.
    pub fn timeline_cycle_filter(&mut self)
        ensures
            *final(self) == (DashboardModel {
                timeline_filter: next_filter(old(self).timeline_filter),
                timeline_selected: 0,
                ..*old(self)
            }),
    {
        self.timeline_filter = self.timeline_filter.cycle();
        self.timeline_selected = 0;
    }

    /// Toggle follow mode (auto-scroll on new data). Entering it jumps to the
    /// latest shown event.
    pub fn timeline_toggle_follow(&mut self)
        ensures
            *final(self) == (DashboardModel {
                timeline_follow: !old(self).timeline_follow,
                timeline_selected: if old(self).timeline_follow {
                    old(self).timeline_selected
                } else if old(self).shown_events().len() == 0 {
                    0
                } else {
                    (old(self).shown_events().len() - 1) as usize
                },
                ..*old(self)
            }),
    {
        self.timeline_follow = !self.timeline_follow;
        if self.timeline_follow {
            let count: usize = self.timeline_filtered_events().len();
            self.timeline_selected = if count > 0 {
                count - 1
            } else {
                0
            };
        }
    }

    /// Get the currently selected timeline event, if any.
    pub fn timeline_selected_event(&self) -> (event: Option<&TimelineEvent>)
        ensures
            match event {
                Some(e) => self.timeline_selected < self.shown_events().len() && *e
                    == self.shown_events()[self.timeline_selected as int],
                None => self.timeline_selected >= self.shown_events().len(),
            },
    {
        let events = self.timeline_filtered_events();
        if self.timeline_selected < events.len() {
            Some(events[self.timeline_selected])
        } else {
            None
        }
    }

    /// Move the explainability cursor up. Returns `true` if the cursor moved.
    pub fn explainability_cursor_up(&mut self) -> (moved: bool)
        ensures
            moved == (old(self).explainability_selected > 0),
            *final(self) == (DashboardModel {
                explainability_selected: if moved {
                    (old(self).explainability_selected - 1) as usize
                } else {
                    old(self).explainability_selected
                },
                ..*old(self)
            }),
    {
        if self.explainability_selected > 0 {
            self.explainability_selected -= 1;
            true
        } else {
            false
        }
    }

    /// Move the explainability cursor down. Returns `true` if the cursor moved.
    pub fn explainability_cursor_down(&mut self) -> (moved: bool)
        ensures
            moved == (old(self).explainability_selected + 1 < old(self).explainability_decisions@.len()),
            *final(self) == (DashboardModel {
                explainability_selected: if moved {
                    (old(self).explainability_selected + 1) as usize
                } else {
                    old(self).explainability_selected
                },
                ..*old(self)
            }),
    {
        if !self.explainability_decisions.is_empty() && self.explainability_selected
            < self.explainability_decisions.len() - 1 {
            self.explainability_selected += 1;
            true
        } else {
            false
        }
    }

    /// Toggle the detail pane for the selected decision.
    pub fn explainability_toggle_detail(&mut self)
        ensures
            *final(self) == (DashboardModel {
                explainability_detail: !old(self).explainability_detail,
                ..*old(self)
            }),
    {
        self.explainability_detail = !self.explainability_detail;
    }

    /// Get the currently selected decision, if any.
    pub fn explainability_selected_decision(&self) -> (decision: Option<&DecisionEvidence>)
        ensures
            match decision {
                Some(d) => self.explainability_selected < self.explainability_decisions@.len() && *d
                    == self.explainability_decisions@[self.explainability_selected as int],
                None => self.explainability_selected >= self.explainability_decisions@.len(),
            },
    {
        if self.explainability_selected < self.explainability_decisions.len() {
            Some(&self.explainability_decisions[self.explainability_selected])
        } else {
            None
        }
    }

    /// Record the active preference profile.
    pub fn set_preference_profile(
        &mut self,
        start_screen: StartScreen,
        density: DensityMode,
        hint_verbosity: HintVerbosity,
        mode: PreferenceProfileMode,
    )
        ensures
            *final(self) == (DashboardModel {
                preferred_start_screen: start_screen,
                density,
                hint_verbosity,
                preference_profile_mode: mode,
                ..*old(self)
            }),
    {
        self.preferred_start_screen = start_screen;
        self.density = density;
        self.hint_verbosity = hint_verbosity;
        self.preference_profile_mode = mode;
    }
}

/// Going to another screen and back restores the screen and the history.
pub proof fn law_back_undoes_navigation(place: (Screen, Seq<Screen>), target: Screen)
    requires
        target != place.0,
    ensures
        returned(visited(place, target)) == place,
{
    assert(place.1.push(place.0).drop_last() =~= place.1);
}

/// The newest notification is always among those shown, and the ones before it
/// keep their order.
pub proof fn law_newest_notification_is_shown(before: Seq<Notification>, n: Notification)
    ensures
        last_n(before.push(n), 3).last() == n,
        last_n(before.push(n), 3).len() == (if before.len() < 3 {
            before.len() + 1
        } else {
            3
        }),
        forall|i: int|
            0 <= i < last_n(before.push(n), 3).len() - 1 ==> last_n(before.push(n), 3)[i]
                == before[before.len() + 1 - last_n(before.push(n), 3).len() + i],
{
}

/// Every event the timeline shows passes its filter.
pub proof fn law_shown_events_pass_filter(m: DashboardModel, i: int)
    requires
        0 <= i < m.shown_events().len(),
    ensures
        filter_passes(m.timeline_filter, m.shown_events()[i].severity@),
        m.timeline_events@.contains(m.shown_events()[i]),
        m.shown_events().len() <= m.timeline_events@.len(),
{
    let keep = |e: TimelineEvent| filter_passes(m.timeline_filter, e.severity@);
    m.timeline_events@.lemma_filter_pred(keep, i);
    m.timeline_events@.lemma_filter_contains_rev(keep, m.shown_events()[i]);
    m.timeline_events@.lemma_filter_len(keep);
    assert(keep(m.shown_events()[i]));
}

/// Events that drive state transitions in the dashboard model.
#[derive(Debug)]
pub enum DashboardMsg {
    /// Periodic timer tick: triggers data refresh and re-render.
    Tick,
    /// Terminal key press event.
    Key(KeyEvent),
    /// Terminal was resized.
    Resize { cols: u16, rows: u16 },
    /// Fresh daemon state arrived (None = daemon unreachable).
    DataUpdate(Option<DaemonState>),
    /// Navigate directly to a screen.
    Navigate(Screen),
    /// Go back to the previous screen (pop history stack).
    NavigateBack,
    /// Toggle an overlay on or off.
    ToggleOverlay(Overlay),
    /// Close the currently active overlay.
    CloseOverlay,
    /// Force an immediate data refresh (bypass timer).
    ForceRefresh,
    /// A notification's auto-dismiss timer expired.
    NotificationExpired(u64),
    /// An error event to surface to the operator.
    Error(DashboardError),
    /// Timeline events arrived from the telemetry adapter.
    TelemetryTimeline(TelemetryResult<Vec<TimelineEvent>>),
    /// Decision evidence arrived from the telemetry adapter.
    TelemetryDecisions(TelemetryResult<Vec<DecisionEvidence>>),
    /// Candidate evidence arrived from the telemetry adapter.
    TelemetryCandidates(TelemetryResult<Vec<DecisionEvidence>>),
}

/// Side-effects for the runtime to execute.
#[derive(Debug)]
pub enum DashboardCmd {
    /// No side-effect.
    Idle,
    /// Read the daemon state file and deliver a `DataUpdate` message.
    FetchData,
    /// Schedule the next tick after the given number of milliseconds.
    ScheduleTick(u64),
    /// Terminate the dashboard event loop.
    Quit,
    /// Execute multiple commands.
    Batch(Vec<DashboardCmd>),
    /// Query telemetry data for the active screen.
    FetchTelemetry,
    /// Schedule a notification auto-dismiss after the given number of milliseconds.
    ScheduleNotificationExpiry { id: u64, after: u64 },
    /// Change the preference profile.
    ExecutePreferenceAction(PreferenceAction),
}

/// Navigation ends on the target, and the screen left behind is the newest of the history;
/// going nowhere leaves no trace. Going back ends on the newest screen of the history.
pub proof fn law_navigation_remembers(place: (Screen, Seq<Screen>), target: Screen)
    ensures
        visited(place, target).0 == target,
        target == place.0 ==> visited(place, target).1 == place.1,
        target != place.0 ==> visited(place, target).1.len() == place.1.len() + 1 && visited(
            place,
            target,
        ).1.last() == place.0,
        place.1.len() > 0 ==> returned(place).0 == place.1.last() && returned(place).1.len()
            == place.1.len() - 1,
        place.1.len() == 0 ==> returned(place) == place,
{
}

/// The next screen has the next number, and the one before it the number before; the first
/// and the last screen are neighbours.
pub proof fn law_next_screen_has_the_next_number(s: Screen)
    ensures
        screen_number(next_screen(s)) == if screen_number(s) == 7 {
            1
        } else {
            screen_number(s) + 1
        },
        screen_number(prev_screen(s)) == if screen_number(s) == 1 {
            7
        } else {
            screen_number(s) - 1
        },
{
}

/// A filter passes everything or a single severity, and different filters for single
/// severities pass different ones.
pub proof fn law_filters_pass_their_severity(f: SeverityFilter, g: SeverityFilter, s: Seq<char>)
    ensures
        filter_passes(SeverityFilter::All, s),
        f != SeverityFilter::All ==> (filter_passes(f, s) <==> s == filter_label(f)),
        f != SeverityFilter::All && g != SeverityFilter::All && filter_passes(f, s)
            && filter_passes(g, s) ==> f == g,
        filter_passes(SeverityFilter::Critical, s) <==> s == "critical"@,
        filter_passes(SeverityFilter::Warning, s) <==> s == "warning"@,
        filter_passes(SeverityFilter::Info, s) <==> s == "info"@,
{
    reveal_strlit("all");
    reveal_strlit("info");
    reveal_strlit("warning");
    reveal_strlit("critical");
    assert("all"@.len() == 3 && "info"@.len() == 4 && "warning"@.len() == 7 && "critical"@.len()
        == 8);
}

/// The timeline shows every event that passes its filter, in the order in which they came,
/// and without a filter all of them.
pub proof fn law_passing_events_are_shown(m: DashboardModel, i: int)
    requires
        0 <= i < m.timeline_events@.len(),
    ensures
        filter_passes(m.timeline_filter, m.timeline_events@[i].severity@)
            ==> m.shown_events().contains(m.timeline_events@[i]),
        subsequence(m.shown_events(), m.timeline_events@),
        m.timeline_filter == SeverityFilter::All ==> m.shown_events() == m.timeline_events@,
{
    let keep = |e: TimelineEvent| filter_passes(m.timeline_filter, e.severity@);
    law_filter_is_subsequence(m.timeline_events@, keep);
    if keep(m.timeline_events@[i]) {
        m.timeline_events@.lemma_filter_contains(keep, i);
    }
    if m.timeline_filter == SeverityFilter::All {
        all_kept(m.timeline_events@, keep);
    }
}

proof fn all_kept(events: Seq<TimelineEvent>, keep: spec_fn(TimelineEvent) -> bool)
    requires
        forall|i: int| 0 <= i < events.len() ==> keep(#[trigger] events[i]),
    ensures
        events.filter(keep) == events,
    decreases events.len(),
{
    reveal(Seq::filter);
    if events.len() > 0 {
        all_kept(events.drop_last(), keep);
        assert(events.drop_last().push(events.last()) =~= events);
    }
}

/// No more events are shown than an index can count.
proof fn lemma_shown_events_fit(m: DashboardModel)
    ensures
        m.shown_events().len() <= usize::MAX,
{
    let f = m.timeline_filter;
    m.timeline_events@.lemma_filter_len(|e: TimelineEvent| filter_passes(f, e.severity@));
    assert(m.timeline_events@.len() == m.timeline_events.len());
}

/// Moving the timeline cursor by hand moves it by one shown event and leaves follow mode;
/// it stops at the first and at the last event, and touches nothing else.
pub proof fn law_timeline_cursor_moves_by_one(
    up: &mut DashboardModel,
    down: &mut DashboardModel,
    went_up: bool,
    went_down: bool,
)
    requires
        call_ensures(DashboardModel::timeline_cursor_up, (up,), went_up),
        call_ensures(DashboardModel::timeline_cursor_down, (down,), went_down),
    ensures
        went_up <==> old(up).timeline_selected > 0,
        went_up ==> final(up).timeline_selected == old(up).timeline_selected - 1,
        went_up ==> !final(up).timeline_follow,
        !went_up ==> *final(up) == *old(up),
        went_down <==> old(down).timeline_selected + 1 < old(down).shown_events().len(),
        went_down ==> final(down).timeline_selected == old(down).timeline_selected + 1,
        went_down ==> !final(down).timeline_follow,
        !went_down ==> *final(down) == *old(down),
        final(up).timeline_events == old(up).timeline_events,
        final(down).timeline_filter == old(down).timeline_filter,
{
    lemma_shown_events_fit(*old(down));
}

/// Going down and up again ends on the same event.
pub proof fn law_timeline_up_undoes_down(first: &mut DashboardModel, second: &mut DashboardModel)
    requires
        call_ensures(DashboardModel::timeline_cursor_down, (first,), true),
        *second == *final(first),
        call_ensures(DashboardModel::timeline_cursor_up, (second,), true),
    ensures
        final(second).timeline_selected == old(first).timeline_selected,
{
    lemma_shown_events_fit(*old(first));
}

/// Cycling the filter goes on to the next filter and starts over at the first event; the
/// events stay.
pub proof fn law_cycling_the_filter_starts_over(m: &mut DashboardModel)
    requires
        call_ensures(DashboardModel::timeline_cycle_filter, (m,), ()),
    ensures
        final(m).timeline_selected == 0,
        final(m).timeline_filter == next_filter(old(m).timeline_filter),
        final(m).timeline_filter != old(m).timeline_filter,
        final(m).timeline_events == old(m).timeline_events,
        final(m).screen == old(m).screen,
{
}

/// Entering follow mode jumps to the newest shown event, leaving it stays where it is, and
/// doing both ends in the mode that it began with.
pub proof fn law_following_jumps_to_the_latest(first: &mut DashboardModel, second: &mut DashboardModel)
    requires
        call_ensures(DashboardModel::timeline_toggle_follow, (first,), ()),
        *second == *final(first),
        call_ensures(DashboardModel::timeline_toggle_follow, (second,), ()),
    ensures
        final(first).timeline_follow != old(first).timeline_follow,
        final(second).timeline_follow == old(first).timeline_follow,
        final(first).timeline_follow && old(first).shown_events().len() > 0
            ==> final(first).timeline_selected
            == old(first).shown_events().len() - 1,
        !final(first).timeline_follow ==> final(first).timeline_selected
            == old(first).timeline_selected,
        final(first).timeline_filter == old(first).timeline_filter,
{
    lemma_shown_events_fit(*old(first));
}

/// The selected event is the shown one under the cursor, and there is one exactly where
/// the cursor stands on a shown event.
pub proof fn law_selected_event_is_under_the_cursor(m: DashboardModel, event: Option<&TimelineEvent>)
    requires
        call_ensures(DashboardModel::timeline_selected_event, (&m,), event),
    ensures
        event is Some <==> m.timeline_selected < m.shown_events().len(),
        event is Some ==> *event->0 == m.shown_events()[m.timeline_selected as int],
        event is Some ==> filter_passes(m.timeline_filter, (*event->0).severity@),
{
    if event is Some {
        law_shown_events_pass_filter(m, m.timeline_selected as int);
    }
}

/// The cursor of the explainability screen moves by one decision and stops at either end;
/// the selected decision is the one under it.
pub proof fn law_decision_cursor_moves_by_one(
    up: &mut DashboardModel,
    down: &mut DashboardModel,
    went_up: bool,
    went_down: bool,
    m: DashboardModel,
    decision: Option<&DecisionEvidence>,
)
    requires
        call_ensures(DashboardModel::explainability_cursor_up, (up,), went_up),
        call_ensures(DashboardModel::explainability_cursor_down, (down,), went_down),
        call_ensures(DashboardModel::explainability_selected_decision, (&m,), decision),
    ensures
        went_up <==> old(up).explainability_selected > 0,
        went_up ==> final(up).explainability_selected == old(up).explainability_selected - 1,
        !went_up ==> final(up).explainability_selected == old(up).explainability_selected,
        went_down <==> old(down).explainability_selected + 1
            < old(down).explainability_decisions@.len(),
        went_down ==> final(down).explainability_selected == old(down).explainability_selected + 1,
        !went_down ==> final(down).explainability_selected == old(down).explainability_selected,
        final(down).explainability_decisions == old(down).explainability_decisions,
        decision is Some <==> m.explainability_selected < m.explainability_decisions@.len(),
        decision is Some ==> *decision->0
            == m.explainability_decisions@[m.explainability_selected as int],
{
    assert(old(down).explainability_decisions@.len() == old(down).explainability_decisions.len());
}

/// Toggling the decision detail opens what was closed and closes what was open.
pub proof fn law_detail_toggles(m: &mut DashboardModel)
    requires
        call_ensures(DashboardModel::explainability_toggle_detail, (m,), ()),
    ensures
        final(m).explainability_detail == !old(m).explainability_detail,
        final(m).explainability_selected == old(m).explainability_selected,
{
}

/// Navigating reports whether the screen changed, ends on the target, and going back from
/// there ends where it began, with the history as it was.
pub proof fn law_going_there_and_back(
    there: &mut DashboardModel,
    back: &mut DashboardModel,
    target: Screen,
    moved: bool,
    returned: bool,
)
    requires
        call_ensures(DashboardModel::navigate_to, (there, target), moved),
        *back == *final(there),
        call_ensures(DashboardModel::navigate_back, (back,), returned),
    ensures
        final(there).screen == target,
        moved <==> target != old(there).screen,
        moved ==> returned,
        moved ==> final(back).screen == old(there).screen,
        moved ==> final(back).screen_history@ == old(there).screen_history@,
        final(there).active_overlay == old(there).active_overlay,
        final(there).daemon_state == old(there).daemon_state,
{
    if moved {
        law_back_undoes_navigation(old(there).place(), target);
    }
}

/// A notification is shown last with its own level and words under an id of its own, and
/// at most three are shown.
pub proof fn law_notification_is_shown_last(
    m: &mut DashboardModel,
    level: NotificationLevel,
    message: String,
    id: u64,
)
    requires
        call_ensures(DashboardModel::push_notification, (m, level, message), id),
        old(m).next_notification_id < u64::MAX,
    ensures
        final(m).notifications@.len() > 0,
        final(m).notifications@.len() <= 3,
        final(m).notifications@.last().id == id,
        final(m).notifications@.last().level == level,
        final(m).notifications@.last().message == message,
        id == old(m).next_notification_id,
        final(m).next_notification_id > id,
        old(m).notifications@.len() < 3 ==> final(m).notifications@.drop_last()
            == old(m).notifications@,
{
}

/// The preference profile that is set is the one that is active.
pub proof fn law_set_profile_is_active(
    m: &mut DashboardModel,
    start: StartScreen,
    density: DensityMode,
    hints: HintVerbosity,
    mode: PreferenceProfileMode,
)
    requires
        call_ensures(
            DashboardModel::set_preference_profile,
            (m, start, density, hints, mode),
            (),
        ),
    ensures
        final(m).preferred_start_screen == start,
        final(m).density == density,
        final(m).hint_verbosity == hints,
        final(m).preference_profile_mode == mode,
        final(m).screen == old(m).screen,
{
}

/// A reading becomes the newest of its own mount's history, and no other history changes.
pub proof fn law_reading_goes_to_its_mount(
    table: &mut RateTable,
    mount: &str,
    capacity: usize,
    value: Double,
    k: int,
)
    requires
        call_ensures(RateTable::record, (table, mount, capacity, value), ()),
        old(table).wf(),
        capacity > 0,
        forall|i: int|
            0 <= i < old(table).entries@.len() ==> (#[trigger] old(table).entries@[i]).history.limit() > 0,
        0 <= k < old(table).entries@.len(),
        old(table).entries@[k].mount@ != mount@,
    ensures
        exists|i: int|
            0 <= i < final(table).entries@.len() && (#[trigger] final(table).entries@[i]).mount@ == mount@ && final(table).entries@[i].history@.len() > 0
                && final(table).entries@[i].history@.last() == value,
        exists|i: int|
            0 <= i < final(table).entries@.len() && (#[trigger] final(table).entries@[i]).mount@ == old(table).entries@[k].mount@ && final(table).entries@[i].history@ == old(table).entries@[k].history@,
        final(table).wf(),
{
    let was = old(table).entries@;
    let now = final(table).entries@;
    if exists|i: int| 0 <= i < was.len() && (#[trigger] was[i]).mount@ == mount@ {
        let i = choose|i: int| 0 <= i < was.len() && (#[trigger] was[i]).mount@ == mount@;
        assert(now[i].mount == was[i].mount);
        assert(now[k].mount == was[k].mount);
    } else {
        let (at, e) = choose|at: int, e: RateEntry|
            0 <= at <= was.len() && now == #[trigger] was.insert(at, e) && e.mount@ == mount@
                && e.history.limit() == capacity && e.history@ == seq![value];
        assert(now[at] == e);
        if k < at {
            assert(now[k] == was[k]);
        } else {
            assert(now[k + 1] == was[k]);
        }
    }
}

/// A history keeps the newest readings: the one pushed is the last, and the ones before it
/// keep their order.
pub proof fn law_history_keeps_the_newest(h: &mut RateHistory, value: Double, i: int)
    requires
        call_ensures(RateHistory::push, (h, value), ()),
        old(h).wf(),
        old(h).limit() > 0,
        0 < i <= old(h)@.len(),
    ensures
        final(h)@.len() > 0,
        final(h)@.last() == value,
        final(h)@.len() <= old(h).limit(),
        i < final(h)@.len() ==> final(h)@[final(h)@.len() - 1 - i] == old(h)@[old(h)@.len() - i],
{
}

/// The latest reading is the last in time, and there is one exactly where there are readings.
pub proof fn law_latest_reading_is_the_last(
    h: RateHistory,
    value: Option<Double>,
    readings: Vec<Double>,
    n: usize,
)
    requires
        h.wf(),
        call_ensures(RateHistory::latest, (&h,), value),
        call_ensures(RateHistory::chronological, (&h,), readings),
        call_ensures(RateHistory::len, (&h,), n),
    ensures
        n == readings@.len(),
        value is Some <==> n > 0,
        value is Some ==> value->0 == readings@.last(),
{
}

/// The next screen is the one with the next number, and the one before it comes back.
pub proof fn law_next_and_previous_screen(s: Screen, next: Screen, back: Screen, n: u8, m: u8)
    requires
        call_ensures(Screen::next, (s,), next),
        call_ensures(Screen::prev, (next,), back),
        call_ensures(Screen::number, (s,), n),
        call_ensures(Screen::number, (next,), m),
    ensures
        back == s,
        1 <= n <= 7,
        m == (if n == 7 { 1int } else { n + 1 }),
{
}

/// A new model shows the overview and has nothing to show on it yet: no state, no rows, no
/// history, no toasts, every cursor at the start, and the arguments kept.
pub proof fn law_new_model_is_empty(
    state_file: String,
    monitor_paths: Vec<String>,
    refresh: u64,
    size: (u16, u16),
    m: DashboardModel,
)
    requires
        call_ensures(DashboardModel::new, (state_file, monitor_paths, refresh, size), m),
    ensures
        m.state_file == state_file && m.monitor_paths == monitor_paths && m.refresh == refresh
            && m.terminal_size == size,
        m.screen == Screen::Overview && m.screen_history@.len() == 0 && m.active_overlay is None,
        m.degraded && m.daemon_state is None && m.last_fetch is None && !m.quit && m.tick == 0,
        m.shown_events().len() == 0 && m.timeline_selected == 0 && m.timeline_filter
            == SeverityFilter::All && m.timeline_follow,
        m.explainability_decisions@.len() == 0 && m.explainability_selected == 0
            && !m.explainability_detail,
        m.candidates_list@.len() == 0 && m.candidates_selected == 0 && !m.candidates_detail
            && m.candidates_sort@ == "score"@,
        m.ballast_volumes@.len() == 0 && m.ballast_selected == 0 && !m.ballast_detail,
        m.notifications@.len() == 0 && m.next_notification_id == 0,
        m.timeline_source == DataSource::Absent && m.explainability_source == DataSource::Absent
            && m.candidates_source == DataSource::Absent && m.ballast_source == DataSource::Absent,
        !m.timeline_partial && !m.explainability_partial && !m.candidates_partial
            && !m.ballast_partial,
        m.palette_query@.len() == 0 && m.palette_selected == 0 && m.incident_playbook_selected == 0,
        m.overview_focus_pane == OverviewPane::PressureSummary && m.overview_hover_pane is None,
        m.adapter_reads == 0 && m.adapter_errors == 0 && m.missed_ticks == 0
            && !m.diagnostics_verbose,
        m.density == DensityMode::Comfortable && m.hint_verbosity == HintVerbosity::Full
            && m.preferred_start_screen == StartScreen::Overview && m.preference_profile_mode
            == PreferenceProfileMode::Defaults,
{
    lemma_shown_events_fit(m);
    let f = m.timeline_filter;
    m.timeline_events@.lemma_filter_len(|e: TimelineEvent| filter_passes(f, e.severity@));
}

/// A severity filter asks for events of any type, and for one severity or for all of them.
pub proof fn law_filter_asks_for_its_severity(f: SeverityFilter, filter: EventFilter, label: &'static str)
    requires
        call_ensures(SeverityFilter::to_event_filter, (f,), filter),
        call_ensures(SeverityFilter::label, (f,), label),
    ensures
        filter.event_types@.len() == 0,
        f == SeverityFilter::All <==> filter.severities@.len() == 0,
        f != SeverityFilter::All ==> filter.severities@.len() == 1 && filter.severities@[0]@
            == label@,
{
}

} // verus!
