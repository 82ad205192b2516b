//! Typed adapter boundary between the state file, live filesystem statistics
//! and the dashboard.
//!
//! A fresh state file is the source of the mount table. While it is stale,
//! missing or unreadable, live filesystem statistics take its place.

use vstd::prelude::*;

use crate::double::Double;
use crate::model::DaemonState;
use crate::model::MountPressure;
use crate::text::law_text_order_total;
use crate::text::law_text_order_transitive;
use crate::text::precedes;
use crate::text::text_before;
use crate::text::text_eq;

verus! {

/// Health summary for runtime data sources.
#[derive(Debug, Clone, Copy, PartialEq, Eq, Structural)]
pub struct AdapterHealth {
    pub state_file_available: bool,
    pub telemetry_available: bool,
}

impl Default for AdapterHealth {
    fn default() -> (h: Self)
        ensures
            h.state_file_available,
            h.telemetry_available,
    {
        AdapterHealth { state_file_available: true, telemetry_available: true }
    }
}

/// Shared state-source contract.
pub trait StateAdapter {
    /// Returns `None` when data is unavailable or malformed.
    fn read_state(&self, state_file: &str) -> Option<DaemonState>;

    /// Provides a coarse health signal for diagnostics.
    fn health(&self) -> AdapterHealth;
}

/// Adapter without a state source.
#[derive(Debug, Default, Clone, Copy, PartialEq, Eq, Structural)]
pub struct NullStateAdapter;

impl StateAdapter for NullStateAdapter {
    fn read_state(&self, _state_file: &str) -> (state: Option<DaemonState>)
        ensures
            state is None,
    {
        None
    }

    fn health(&self) -> (h: AdapterHealth)
        ensures
            !h.state_file_available,
            !h.telemetry_available,
    {
        AdapterHealth { state_file_available: false, telemetry_available: false }
    }
}

/// Freshness classification for state-file ingestion.
#[derive(Debug, Clone, PartialEq, Eq)]
pub enum StateFreshness {
    Fresh,
    /// Older than the threshold, with its age in nanoseconds.
    Stale { age: u64 },
    Missing,
    Malformed,
    ReadError(String),
}

/// Source used for the mount telemetry shown in the dashboard.
#[derive(Debug, Clone, Copy, PartialEq, Eq, Structural)]
pub enum SnapshotSource {
    DaemonState,
    FilesystemFallback,
    Unavailable,
}

/// Typed mount row consumed by the dashboard view layer.
#[derive(Debug, Clone, PartialEq, Eq)]
pub struct MountSnapshot {
    pub path: String,
    pub free_pct: Double,
    pub level: String,
    pub rate_bps: Option<Double>,
    pub source: SnapshotSource,
}

/// Typed data payload consumed by the model.
#[derive(Debug, Clone, PartialEq, Eq)]
pub struct DashboardSnapshot {
    pub daemon_state: Option<DaemonState>,
    pub mounts: Vec<MountSnapshot>,
    pub freshness: StateFreshness,
    pub source: SnapshotSource,
}

/// Why a file operation failed.
#[derive(Debug, Clone, PartialEq, Eq)]
pub enum IoFailure {
    NotFound,
    Other(String),
}

/// What looking at the state file gave: its metadata could be read or not, its
/// content could be read and parsed or not, and its age could be told or not.
#[derive(Debug)]
pub struct StateFileProbe {
    pub metadata: Result<(), IoFailure>,
    /// The parsed state, or `None` where the content is not a daemon state.
    pub content: Result<Option<DaemonState>, IoFailure>,
    /// Nanoseconds since the last modification.
    pub age: Result<u64, String>,
}

/// Outcome of reading the state file.
#[derive(Debug, Clone, PartialEq, Eq)]
pub enum StateReadOutcome {
    Fresh(DaemonState),
    Stale { state: DaemonState, age: u64 },
    Missing,
    Malformed,
    ReadError(String),
}

/// The outcome that a probe stands for: the first obstacle decides, and a
/// state that could be read is stale once it is older than the threshold.
pub open spec fn probe_outcome(probe: StateFileProbe, threshold: u64) -> StateReadOutcome {
    match probe.metadata {
        Err(IoFailure::NotFound) => StateReadOutcome::Missing,
        Err(IoFailure::Other(m)) => StateReadOutcome::ReadError(m),
        Ok(_) => match probe.content {
            Err(IoFailure::NotFound) => StateReadOutcome::Missing,
            Err(IoFailure::Other(m)) => StateReadOutcome::ReadError(m),
            Ok(None) => StateReadOutcome::Malformed,
            Ok(Some(state)) => match probe.age {
                Err(m) => StateReadOutcome::ReadError(m),
                Ok(age) => if age > threshold {
                    StateReadOutcome::Stale { state, age }
                } else {
                    StateReadOutcome::Fresh(state)
                },
            },
        },
    }
}

/// Live statistics of one filesystem.
#[derive(Debug, Clone, PartialEq, Eq)]
pub struct MountStats {
    pub mount_point: String,
    pub free_pct: Double,
}

/// Pressure level of a free-space percentage in fallback mode: red below five,
/// orange below twenty, yellow below thirty-five, else green.
pub open spec fn fallback_level(free_pct: Double) -> Seq<char> {
    if free_pct.lt(Double { bits: 0x4014_0000_0000_0000 }) {
        "red"@
    } else if free_pct.lt(Double { bits: 0x4034_0000_0000_0000 }) {
        "orange"@
    } else if free_pct.lt(Double { bits: 0x4041_8000_0000_0000 }) {
        "yellow"@
    } else {
        "green"@
    }
}

/// Pressure level of a free-space percentage in fallback mode.
pub fn fallback_pressure_level(free_pct: Double) -> (level: &'static str)
    ensures
        level@ == fallback_level(free_pct),
{
    if free_pct.less_than(Double { bits: 0x4014_0000_0000_0000 }) {
        "red"
    } else if free_pct.less_than(Double { bits: 0x4034_0000_0000_0000 }) {
        "orange"
    } else if free_pct.less_than(Double { bits: 0x4041_8000_0000_0000 }) {
        "yellow"
    } else {
        "green"
    }
}

/// Less free space never gives a milder fallback level.
pub proof fn law_fallback_level_monotone(a: Double, b: Double)
    requires
        a.lt(b),
    ensures
        fallback_level(b) == "red"@ ==> fallback_level(a) == "red"@,
        fallback_level(b) == "orange"@ ==> fallback_level(a) == "red"@ || fallback_level(a)
            == "orange"@,
        fallback_level(a) == "green"@ ==> fallback_level(b) == "green"@,
{
    reveal_strlit("red");
    reveal_strlit("orange");
    reveal_strlit("yellow");
    reveal_strlit("green");
    assert("red"@ != "green"@) by {
        assert("red"@.len() != "green"@.len());
    }
    assert("red"@ != "orange"@) by {
        assert("red"@.len() != "orange"@.len());
    }
    assert("red"@ != "yellow"@) by {
        assert("red"@.len() != "yellow"@.len());
    }
    assert("orange"@ != "yellow"@) by {
        assert("orange"@[0] != "yellow"@[0]);
    }
    assert("orange"@ != "green"@) by {
        assert("orange"@[0] != "green"@[0]);
    }
    assert("yellow"@ != "green"@) by {
        assert("yellow"@[0] != "green"@[0]);
    }
}

/// Whether `row` is the fallback row of filesystem statistics.
pub open spec fn fallback_row(stats: MountStats, row: MountSnapshot) -> bool {
    &&& row.path@ == stats.mount_point@
    &&& row.free_pct == stats.free_pct
    &&& row.level@ == fallback_level(stats.free_pct)
    &&& row.rate_bps is None
    &&& row.source == SnapshotSource::FilesystemFallback
}

/// Whether position `k` holds the first statistics for its mount point.
pub open spec fn first_of_mount(stats: Seq<MountStats>, k: int) -> bool {
    &&& 0 <= k < stats.len()
    &&& forall|j: int|
        0 <= j < k ==> (#[trigger] stats[j]).mount_point@ != stats[k].mount_point@
}

/// Whether rows come in ascending path order without repetition.
pub open spec fn ascending_paths(rows: Seq<MountSnapshot>) -> bool {
    forall|i: int, j: int|
        #![trigger rows[i], rows[j]]
        0 <= i < j < rows.len() ==> precedes(rows[i].path@, rows[j].path@)
}

/// Whether `rows` are the fallback rows of `stats`: in path order, one per
/// mount point, each from the first statistics for its mount point.
pub open spec fn fallback_rows(stats: Seq<MountStats>, rows: Seq<MountSnapshot>) -> bool {
    &&& ascending_paths(rows)
    &&& forall|i: int| 0 <= i < rows.len() ==> has_first_stats(stats, #[trigger] rows[i])
    &&& forall|k: int|
        0 <= k < stats.len() ==> lists_mount(rows, (#[trigger] stats[k]).mount_point@)
}

/// Whether a row comes from the first statistics for its mount point.
pub open spec fn has_first_stats(stats: Seq<MountStats>, row: MountSnapshot) -> bool {
    exists|k: int| #[trigger] first_of_mount(stats, k) && fallback_row(stats[k], row)
}

/// Whether some row is about a mount point.
pub open spec fn lists_mount(rows: Seq<MountSnapshot>, mount: Seq<char>) -> bool {
    exists|i: int| 0 <= i < rows.len() && (#[trigger] rows[i]).path@ == mount
}

/// Builds the fallback mount table: sorted by path, one row per mount point.
pub fn fallback_mounts(stats: &Vec<MountStats>) -> (rows: Vec<MountSnapshot>)
    ensures
        fallback_rows(stats@, rows@),
{
    let mut rows: Vec<MountSnapshot> = Vec::new();
    let mut n: usize = 0;
    while n < stats.len()
        invariant
            n <= stats@.len(),
            ascending_paths(rows@),
            forall|i: int| 0 <= i < rows@.len() ==> has_first_stats(stats@, #[trigger] rows@[i]),
            forall|i: int|
                0 <= i < rows@.len() ==> exists|k: int|
                    0 <= k < n && (#[trigger] stats@[k]).mount_point@ == (#[trigger] rows@[i]).path@,
            forall|k: int| 0 <= k < n ==> lists_mount(rows@, (#[trigger] stats@[k]).mount_point@),
        decreases stats.len() - n,
    {
        let mount = stats[n].mount_point.as_str();
        let ghost was = rows@;
        let mut at: usize = 0;
        while at < rows.len() && text_before(rows[at].path.as_str(), mount)
            invariant
                at <= rows@.len(),
                rows@ == was,
                forall|i: int| 0 <= i < at ==> precedes((#[trigger] was[i]).path@, mount@),
            decreases rows.len() - at,
        {
            at += 1;
        }
        if at < rows.len() && text_eq(rows[at].path.as_str(), mount) {
            assert(was[at as int].path@ == mount@);
        } else {
            proof {
                assert forall|i: int| at <= i < was.len() implies precedes(
                    mount@,
                    (#[trigger] was[i]).path@,
                ) by {
                    law_text_order_total(was[at as int].path@, mount@);
                    if i > at {
                        law_text_order_transitive(
                            mount@,
                            was[at as int].path@,
                            was[i].path@,
                        );
                    }
                }
                assert forall|j: int| 0 <= j < n implies (#[trigger] stats@[j]).mount_point@
                    != mount@ by {
                    if stats@[j].mount_point@ == mount@ {
                        let i = choose|i: int|
                            0 <= i < was.len() && (#[trigger] was[i]).path@ == mount@;
                        law_text_order_total(mount@, mount@);
                        assert(i < at ==> precedes(was[i].path@, mount@));
                        assert(i >= at ==> precedes(mount@, was[i].path@));
                    }
                }
                assert(first_of_mount(stats@, n as int));
            }
            let row = MountSnapshot {
                path: mount.to_owned(),
                free_pct: stats[n].free_pct,
                level: fallback_pressure_level(stats[n].free_pct).to_owned(),
                rate_bps: None,
                source: SnapshotSource::FilesystemFallback,
            };
            assert(has_first_stats(stats@, row));
            rows.insert(at, row);
            proof {
                assert(rows@ == was.insert(at as int, row));
                assert forall|i: int| 0 <= i < rows@.len() implies has_first_stats(
                    stats@,
                    #[trigger] rows@[i],
                ) && exists|k: int|
                    0 <= k < n + 1 && (#[trigger] stats@[k]).mount_point@ == rows@[i].path@ by {
                    if i == at {
                        assert(stats@[n as int].mount_point@ == rows@[i].path@);
                    } else {
                        let o = if i < at {
                            i
                        } else {
                            i - 1
                        };
                        assert(rows@[i] == was[o]);
                    }
                }
                assert forall|k: int| 0 <= k < n implies lists_mount(
                    rows@,
                    (#[trigger] stats@[k]).mount_point@,
                ) by {
                    let i = choose|i: int|
                        0 <= i < was.len() && (#[trigger] was[i]).path@ == stats@[k].mount_point@;
                    let m = if i < at {
                        i
                    } else {
                        i + 1
                    };
                    assert(rows@[m] == was[i]);
                }
                assert(rows@[at as int].path@ == mount@);
            }
        }
        n += 1;
    }
    rows
}

/// Whether `row` is the daemon's row of a mount.
pub open spec fn daemon_row(mount: MountPressure, row: MountSnapshot) -> bool {
    &&& row.path == mount.path
    &&& row.free_pct == mount.free_pct
    &&& row.level == mount.level
    &&& row.rate_bps == mount.rate_bps
    &&& row.source == SnapshotSource::DaemonState
}

/// Whether `order` lists every position once, by path and equal paths by position.
pub open spec fn path_order(mounts: Seq<MountPressure>, order: Seq<usize>) -> bool {
    &&& order.len() == mounts.len()
    &&& order.no_duplicates()
    &&& forall|i: int| 0 <= i < order.len() ==> (#[trigger] order[i]) < mounts.len()
    &&& forall|i: int, j: int|
        #![trigger order[i], order[j]]
        0 <= i < j < order.len() ==> earlier(mounts, order[i] as int, order[j] as int)
}

/// Whether position `a` comes before position `b` in path order.
pub open spec fn earlier(mounts: Seq<MountPressure>, a: int, b: int) -> bool {
    precedes(mounts[a].path@, mounts[b].path@) || mounts[a].path@ == mounts[b].path@ && a < b
}

/// Whether `rows` are the rows of the mounts, taken in path order.
pub open spec fn daemon_rows(mounts: Seq<MountPressure>, rows: Seq<MountSnapshot>) -> bool {
    exists|order: Seq<usize>| #[trigger]
        path_order(mounts, order) && rows.len() == mounts.len() && forall|i: int|
            0 <= i < rows.len() ==> daemon_row(mounts[order[i] as int], #[trigger] rows[i])
}

/// Builds the mount table from a daemon state, sorted by path.
pub fn mounts_from_state(state: &DaemonState) -> (rows: Vec<MountSnapshot>)
    ensures
        daemon_rows(state.pressure.mounts@, rows@),
{
    let mounts = &state.pressure.mounts;
    let mut order: Vec<usize> = Vec::new();
    let mut n: usize = 0;
    while n < mounts.len()
        invariant
            n <= mounts@.len(),
            order@.len() == n,
            order@.no_duplicates(),
            forall|i: int| 0 <= i < order@.len() ==> (#[trigger] order@[i]) < n,
            forall|i: int, j: int|
                #![trigger order@[i], order@[j]]
                0 <= i < j < order@.len() ==> earlier(
                    mounts@,
                    order@[i] as int,
                    order@[j] as int,
                ),
        decreases mounts.len() - n,
    {
        let ghost was = order@;
        let mut at: usize = 0;
        while at < order.len() && !text_before(
            mounts[n].path.as_str(),
            mounts[order[at]].path.as_str(),
        )
            invariant
                n < mounts@.len(),
                at <= order@.len(),
                order@ == was,
                forall|i: int| 0 <= i < order@.len() ==> (#[trigger] order@[i]) < n,
                forall|i: int|
                    0 <= i < at ==> earlier(mounts@, (#[trigger] was[i]) as int, n as int),
            decreases order.len() - at,
        {
            proof {
                law_text_order_total(
                    mounts@[n as int].path@,
                    mounts@[order@[at as int] as int].path@,
                );
            }
            at += 1;
        }
        proof {
            assert forall|i: int| at <= i < was.len() implies earlier(
                mounts@,
                n as int,
                (#[trigger] was[i]) as int,
            ) by {
                if i > at {
                    let a = was[at as int] as int;
                    let b = was[i] as int;
                    assert(earlier(mounts@, a, b));
                    if precedes(mounts@[a].path@, mounts@[b].path@) {
                        law_text_order_transitive(
                            mounts@[n as int].path@,
                            mounts@[a].path@,
                            mounts@[b].path@,
                        );
                    }
                }
            }
        }
        order.insert(at, n);
        proof {
            assert(order@ == was.insert(at as int, n));
            assert forall|i: int, j: int|
                0 <= i < order@.len() && 0 <= j < order@.len() && i != j implies order@[i]
                != order@[j] by {
                let oi = if i < at {
                    i
                } else {
                    i - 1
                };
                let oj = if j < at {
                    j
                } else {
                    j - 1
                };
                if i != at {
                    assert(order@[i] == was[oi]);
                }
                if j != at {
                    assert(order@[j] == was[oj]);
                }
            }
            assert forall|i: int, j: int|
                #![trigger order@[i], order@[j]]
                0 <= i < j < order@.len() implies earlier(
                mounts@,
                order@[i] as int,
                order@[j] as int,
            ) by {
                let oi = if i < at {
                    i
                } else {
                    i - 1
                };
                let oj = if j < at {
                    j
                } else {
                    j - 1
                };
                if i != at {
                    assert(order@[i] == was[oi]);
                }
                if j != at {
                    assert(order@[j] == was[oj]);
                }
            }
        }
        n += 1;
    }
    let mut rows: Vec<MountSnapshot> = Vec::new();
    let mut i: usize = 0;
    while i < order.len()
        invariant
            i <= order@.len(),
            order@.len() == mounts@.len(),
            forall|k: int| 0 <= k < order@.len() ==> (#[trigger] order@[k]) < mounts@.len(),
            rows@.len() == i,
            forall|k: int|
                0 <= k < i ==> daemon_row(mounts@[order@[k] as int], #[trigger] rows@[k]),
        decreases order.len() - i,
    {
        let mount = &mounts[order[i]];
        rows.push(
            MountSnapshot {
                path: mount.path.clone(),
                free_pct: mount.free_pct,
                level: mount.level.clone(),
                rate_bps: mount.rate_bps,
                source: SnapshotSource::DaemonState,
            },
        );
        i += 1;
    }
    assert(path_order(mounts@, order@));
    rows
}

/// The source of a fallback mount table.
pub fn fallback_source(mounts: &Vec<MountSnapshot>) -> (source: SnapshotSource)
    ensures
        source == (if mounts@.len() == 0 {
            SnapshotSource::Unavailable
        } else {
            SnapshotSource::FilesystemFallback
        }),
{
    if mounts.is_empty() {
        SnapshotSource::Unavailable
    } else {
        SnapshotSource::FilesystemFallback
    }
}

/// Whether a snapshot shows the fallback rows of what the collector gave.
pub open spec fn shows_fallback(snapshot: DashboardSnapshot, stats: Option<Vec<MountStats>>) -> bool {
    &&& match stats {
        Some(s) => fallback_rows(s@, snapshot.mounts@),
        None => snapshot.mounts@.len() == 0,
    }
    &&& snapshot.source == (if snapshot.mounts@.len() == 0 {
        SnapshotSource::Unavailable
    } else {
        SnapshotSource::FilesystemFallback
    })
}

/// Nanoseconds in a second.
pub const NANOS_PER_SEC: u64 = 1_000_000_000;

/// Whether a snapshot is that of an outcome: a fresh state shows the daemon's
/// own figures, anything else the filesystem's.
pub open spec fn snapshot_of(
    outcome: StateReadOutcome,
    stats: Option<Vec<MountStats>>,
    snapshot: DashboardSnapshot,
) -> bool {
    match outcome {
        StateReadOutcome::Fresh(state) => {
            &&& snapshot.daemon_state == Some(state)
            &&& daemon_rows(state.pressure.mounts@, snapshot.mounts@)
            &&& snapshot.freshness == StateFreshness::Fresh
            &&& snapshot.source == SnapshotSource::DaemonState
        },
        StateReadOutcome::Stale { state, age } => {
            &&& snapshot.daemon_state == Some(state)
            &&& shows_fallback(snapshot, stats)
            &&& snapshot.freshness == (StateFreshness::Stale { age })
        },
        StateReadOutcome::Missing => {
            &&& snapshot.daemon_state is None
            &&& shows_fallback(snapshot, stats)
            &&& snapshot.freshness == StateFreshness::Missing
        },
        StateReadOutcome::Malformed => {
            &&& snapshot.daemon_state is None
            &&& shows_fallback(snapshot, stats)
            &&& snapshot.freshness == StateFreshness::Malformed
        },
        StateReadOutcome::ReadError(m) => {
            &&& snapshot.daemon_state is None
            &&& shows_fallback(snapshot, stats)
            &&& snapshot.freshness == StateFreshness::ReadError(m)
        },
    }
}

/// Whether filesystem statistics have to be collected for an outcome.
pub fn needs_stats(outcome: &StateReadOutcome) -> (b: bool)
    ensures
        b == !(*outcome is Fresh),
{
    match outcome {
        StateReadOutcome::Fresh(_) => false,
        _ => true,
    }
}

/// The snapshot for an outcome. `stats` is absent where collecting failed; it
/// is read only where the state is not fresh.
pub fn finish_snapshot(outcome: StateReadOutcome, stats: Option<Vec<MountStats>>) -> (snapshot:
    DashboardSnapshot)
    ensures
        snapshot_of(outcome, stats, snapshot),
{
    match outcome {
        StateReadOutcome::Fresh(state) => DashboardSnapshot {
            mounts: mounts_from_state(&state),
            daemon_state: Some(state),
            freshness: StateFreshness::Fresh,
            source: SnapshotSource::DaemonState,
        },
        StateReadOutcome::Stale { state, age } => fallback_snapshot(
            Some(state),
            StateFreshness::Stale { age },
            stats,
        ),
        StateReadOutcome::Missing => fallback_snapshot(None, StateFreshness::Missing, stats),
        StateReadOutcome::Malformed => fallback_snapshot(None, StateFreshness::Malformed, stats),
        StateReadOutcome::ReadError(m) => fallback_snapshot(
            None,
            StateFreshness::ReadError(m),
            stats,
        ),
    }
}

/// State-file and fallback policy of the dashboard runtime.
#[derive(Debug, Clone, Copy, PartialEq, Eq, Structural)]
pub struct DashboardStateAdapter {
    /// Age in nanoseconds beyond which a state file is stale.
    pub stale_threshold: u64,
    /// How long collected statistics are reused, in nanoseconds.
    pub cache_ttl: u64,
}

impl DashboardStateAdapter {
    /// Build an adapter with the given limits.
    pub fn new(stale_threshold: u64, cache_ttl: u64) -> (a: Self)
        ensures
            a.stale_threshold == stale_threshold,
            a.cache_ttl == cache_ttl,
    {
        DashboardStateAdapter { stale_threshold, cache_ttl }
    }

    /// Build an adapter for the detected host platform: the daemon's own
    /// staleness limit and a cache of one second.
    ///
    /// Returns the detection error where the platform is not known.
    pub fn from_detected_platform(detected: Result<(), String>, stale_threshold_secs: u64) -> (a:
        Result<Self, String>)
        requires
            NANOS_PER_SEC * stale_threshold_secs <= u64::MAX,
        ensures
            match detected {
                Ok(_) => a == Ok::<Self, String>(
                    DashboardStateAdapter {
                        stale_threshold: (NANOS_PER_SEC * stale_threshold_secs) as u64,
                        cache_ttl: NANOS_PER_SEC,
                    },
                ),
                Err(e) => a == Err::<Self, String>(e),
            },
    {
        match detected {
            Ok(_) => Ok(DashboardStateAdapter::new(stale_threshold_secs * NANOS_PER_SEC, NANOS_PER_SEC)),
            Err(e) => Err(e),
        }
    }

    /// Classify what looking at the state file gave.
    pub fn read_state_outcome(&self, probe: StateFileProbe) -> (outcome: StateReadOutcome)
        ensures
            outcome == probe_outcome(probe, self.stale_threshold),
    {
        match probe.metadata {
            Err(IoFailure::NotFound) => {
                return StateReadOutcome::Missing;
            },
            Err(IoFailure::Other(m)) => {
                return StateReadOutcome::ReadError(m);
            },
            Ok(_) => {},
        }
        let state = match probe.content {
            Err(IoFailure::NotFound) => {
                return StateReadOutcome::Missing;
            },
            Err(IoFailure::Other(m)) => {
                return StateReadOutcome::ReadError(m);
            },
            Ok(None) => {
                return StateReadOutcome::Malformed;
            },
            Ok(Some(state)) => state,
        };
        match probe.age {
            Err(m) => StateReadOutcome::ReadError(m),
            Ok(age) => if age > self.stale_threshold {
                StateReadOutcome::Stale { state, age }
            } else {
                StateReadOutcome::Fresh(state)
            },
        }
    }

    /// The state to act on: only a fresh one is accepted.
    pub fn accepted_state(&self, probe: StateFileProbe) -> (state: Option<DaemonState>)
        ensures
            state == (match probe_outcome(probe, self.stale_threshold) {
                StateReadOutcome::Fresh(s) => Some(s),
                _ => None,
            }),
    {
        match self.read_state_outcome(probe) {
            StateReadOutcome::Fresh(state) => Some(state),
            _ => None,
        }
    }

    /// Health signal of the adapter.
    pub fn health(&self) -> (h: AdapterHealth)
        ensures
            h.state_file_available,
            h.telemetry_available,
    {
        AdapterHealth::default()
    }

    /// State-file data with stale detection and filesystem fallback.
    pub fn load_snapshot(&self, probe: StateFileProbe, stats: Option<Vec<MountStats>>) -> (snapshot:
        DashboardSnapshot)
        ensures
            snapshot_of(probe_outcome(probe, self.stale_threshold), stats, snapshot),
    {
        finish_snapshot(self.read_state_outcome(probe), stats)
    }
}

fn fallback_snapshot(
    daemon_state: Option<DaemonState>,
    freshness: StateFreshness,
    stats: Option<Vec<MountStats>>,
) -> (snapshot: DashboardSnapshot)
    ensures
        snapshot.daemon_state == daemon_state,
        snapshot.freshness == freshness,
        shows_fallback(snapshot, stats),
{
    let mounts = match &stats {
        Some(s) => fallback_mounts(s),
        None => Vec::new(),
    };
    let source = fallback_source(&mounts);
    DashboardSnapshot { daemon_state, mounts, freshness, source }
}

/// Only a state no older than the threshold counts as fresh.
pub proof fn law_fresh_within_threshold(probe: StateFileProbe, threshold: u64)
    ensures
        probe_outcome(probe, threshold) is Fresh <==> probe.metadata is Ok && probe.content is Ok
            && probe.content->Ok_0 is Some && probe.age is Ok && probe.age->Ok_0 <= threshold,
{
}

/// A fresh state needs no filesystem statistics: whatever they are, the same
/// snapshots answer it.
pub proof fn law_fresh_state_ignores_statistics(
    outcome: StateReadOutcome,
    a: Option<Vec<MountStats>>,
    b: Option<Vec<MountStats>>,
    snapshot: DashboardSnapshot,
)
    requires
        outcome is Fresh,
    ensures
        snapshot_of(outcome, a, snapshot) == snapshot_of(outcome, b, snapshot),
{
}

/// Two fallback tables of the same statistics show the same paths and figures.
pub proof fn law_fallback_rows_determined(
    stats: Seq<MountStats>,
    a: Seq<MountSnapshot>,
    b: Seq<MountSnapshot>,
    i: int,
    j: int,
)
    requires
        fallback_rows(stats, a),
        fallback_rows(stats, b),
        0 <= i < a.len(),
        0 <= j < b.len(),
        a[i].path@ == b[j].path@,
    ensures
        a[i].free_pct == b[j].free_pct,
        a[i].level@ == b[j].level@,
{
    assert(has_first_stats(stats, a[i]));
    assert(has_first_stats(stats, b[j]));
    let k = choose|k: int| #[trigger] first_of_mount(stats, k) && fallback_row(stats[k], a[i]);
    let l = choose|l: int| #[trigger] first_of_mount(stats, l) && fallback_row(stats[l], b[j]);
    assert(stats[k].mount_point@ == stats[l].mount_point@);
    assert(k == l);
}

/// Where a snapshot comes from: only a fresh state is shown with the daemon's own rows, a
/// stale one is kept but shown with the filesystem's, and without any rows nothing is
/// available. Every row names the source of the snapshot.
pub proof fn law_snapshot_names_its_source(
    outcome: StateReadOutcome,
    stats: Option<Vec<MountStats>>,
    snapshot: DashboardSnapshot,
)
    requires
        snapshot_of(outcome, stats, snapshot),
    ensures
        snapshot.source == SnapshotSource::DaemonState <==> outcome is Fresh,
        snapshot.daemon_state is Some <==> outcome is Fresh || outcome is Stale,
        snapshot.freshness == StateFreshness::Fresh <==> outcome is Fresh,
        !(outcome is Fresh) ==> (snapshot.source == SnapshotSource::Unavailable
            <==> snapshot.mounts@.len() == 0),
        forall|i: int|
            0 <= i < snapshot.mounts@.len() ==> (#[trigger] snapshot.mounts@[i]).source
                == snapshot.source,
{
    if !(outcome is Fresh) && snapshot.mounts@.len() > 0 {
        let rows = snapshot.mounts@;
        assert forall|i: int| 0 <= i < rows.len() implies (#[trigger] rows[i]).source
            == SnapshotSource::FilesystemFallback by {
            assert(has_first_stats(stats->0@, rows[i]));
        }
    }
}

/// The daemon's mounts are all shown, each with its own figures, and in path order.
pub proof fn law_daemon_mounts_are_all_shown(
    mounts: Seq<MountPressure>,
    rows: Seq<MountSnapshot>,
    k: int,
)
    requires
        daemon_rows(mounts, rows),
        0 <= k < mounts.len(),
    ensures
        rows.len() == mounts.len(),
        exists|i: int|
            0 <= i < rows.len() && (#[trigger] rows[i]).path == mounts[k].path && rows[i].free_pct
                == mounts[k].free_pct && rows[i].level == mounts[k].level && rows[i].rate_bps
                == mounts[k].rate_bps,
        forall|i: int, j: int|
            #![trigger rows[i], rows[j]]
            0 <= i < j < rows.len() ==> !precedes(rows[j].path@, rows[i].path@),
{
    let order = choose|order: Seq<usize>| #[trigger]
        path_order(mounts, order) && rows.len() == mounts.len() && forall|i: int|
            0 <= i < rows.len() ==> daemon_row(mounts[order[i] as int], #[trigger] rows[i]);
    let seen = order.map_values(|p: usize| p as int);
    assert(seen.no_duplicates());
    positions_are_all_listed(seen, mounts.len() as int, k);
    let i = choose|i: int| 0 <= i < seen.len() && seen[i] == k;
    assert(daemon_row(mounts[order[i] as int], rows[i]));
    assert(rows[i].path == mounts[k].path);
    assert forall|i: int, j: int|
        #![trigger rows[i], rows[j]]
        0 <= i < j < rows.len() implies !precedes(rows[j].path@, rows[i].path@) by {
        assert(daemon_row(mounts[order[i] as int], rows[i]));
        assert(daemon_row(mounts[order[j] as int], rows[j]));
        assert(earlier(mounts, order[i] as int, order[j] as int));
        law_text_order_total(rows[i].path@, rows[j].path@);
    }
}

proof fn positions_are_all_listed(seen: Seq<int>, n: int, k: int)
    requires
        seen.no_duplicates(),
        seen.len() == n,
        forall|i: int| 0 <= i < seen.len() ==> 0 <= #[trigger] seen[i] < n,
        0 <= k < n,
    ensures
        seen.contains(k),
{
    vstd::set_lib::lemma_int_range(0, n);
    seen.unique_seq_to_set();
    let all = vstd::set_lib::set_int_range(0, n);
    assert(seen.to_set().subset_of(all)) by {
        assert forall|x: int| seen.to_set().contains(x) implies all.contains(x) by {
            let i = choose|i: int| 0 <= i < seen.len() && seen[i] == x;
        }
    }
    vstd::set_lib::lemma_subset_equality(seen.to_set(), all);
    assert(seen.to_set().contains(k));
}

/// Every filesystem that was looked at is shown once, with the figures of its first
/// statistics and the level that goes with them, in path order.
pub proof fn law_filesystems_are_all_shown(
    stats: Seq<MountStats>,
    rows: Seq<MountSnapshot>,
    k: int,
)
    requires
        fallback_rows(stats, rows),
        0 <= k < stats.len(),
        forall|j: int| 0 <= j < k ==> (#[trigger] stats[j]).mount_point@ != stats[k].mount_point@,
    ensures
        exists|i: int|
            0 <= i < rows.len() && (#[trigger] rows[i]).path@ == stats[k].mount_point@
                && rows[i].free_pct == stats[k].free_pct && rows[i].level@ == fallback_level(
                stats[k].free_pct,
            ) && rows[i].rate_bps is None,
        forall|i: int, j: int|
            #![trigger rows[i], rows[j]]
            0 <= i < j < rows.len() ==> precedes(rows[i].path@, rows[j].path@),
{
    assert(lists_mount(rows, stats[k].mount_point@));
    let i = choose|i: int| 0 <= i < rows.len() && (#[trigger] rows[i]).path@ == stats[k].mount_point@;
    assert(has_first_stats(stats, rows[i]));
    let l = choose|l: int| #[trigger] first_of_mount(stats, l) && fallback_row(stats[l], rows[i]);
    if l < k {
        assert(stats[l].mount_point@ != stats[k].mount_point@);
    }
    if k < l {
        assert(stats[k].mount_point@ != stats[l].mount_point@);
    }
}

/// What looking at the state file gave decides the outcome: a file that is not there is
/// missing, one that does not parse is malformed, one that is too old is stale with its
/// age, and a failure is told in its own words.
pub proof fn law_outcome_tells_the_obstacle(probe: StateFileProbe, threshold: u64)
    ensures
        ({
            let outcome = probe_outcome(probe, threshold);
            &&& probe.metadata == Err::<(), IoFailure>(IoFailure::NotFound) ==> outcome is Missing
            &&& outcome is Missing ==> probe.metadata == Err::<(), IoFailure>(IoFailure::NotFound)
                || probe.content == Err::<Option<DaemonState>, IoFailure>(IoFailure::NotFound)
            &&& outcome is Malformed <==> probe.metadata is Ok && probe.content
                == Ok::<Option<DaemonState>, IoFailure>(None)
            &&& outcome is Stale <==> probe.metadata is Ok && probe.content is Ok
                && probe.content->Ok_0 is Some && probe.age is Ok && probe.age->Ok_0 > threshold
            &&& outcome is Stale ==> outcome->age == probe.age->Ok_0 && Some(outcome->state)
                == probe.content->Ok_0
            &&& outcome is Fresh ==> Some(outcome->Fresh_0) == probe.content->Ok_0
        }),
{
}

/// A level that asks for more attention is never given to more free space, and the four
/// levels have their places: below five, below twenty, below thirty-five and above.
pub proof fn law_fallback_levels(pct: Double)
    ensures
        fallback_level(pct) == "red"@ <==> pct.lt(Double { bits: 0x4014_0000_0000_0000 }),
        fallback_level(pct) == "green"@ <==> !pct.lt(Double { bits: 0x4041_8000_0000_0000 }),
        fallback_level(pct) == "yellow"@ <==> pct.lt(Double { bits: 0x4041_8000_0000_0000 })
            && pct.ge(Double { bits: 0x4034_0000_0000_0000 }),
        fallback_level(pct) == "orange"@ <==> pct.lt(Double { bits: 0x4034_0000_0000_0000 })
            && pct.ge(Double { bits: 0x4014_0000_0000_0000 }),
{
    reveal_strlit("red");
    reveal_strlit("orange");
    reveal_strlit("yellow");
    reveal_strlit("green");
    assert("red"@.len() == 3 && "green"@.len() == 5 && "orange"@.len() == 6 && "yellow"@.len() == 6);
    assert("orange"@[0] != "yellow"@[0]);
}

/// A snapshot is loaded by what the probe of the state file found, judged by the
/// adapter's own threshold.
pub proof fn law_loaded_snapshot_names_its_source(
    adapter: DashboardStateAdapter,
    probe: StateFileProbe,
    stats: Option<Vec<MountStats>>,
    snapshot: DashboardSnapshot,
    accepted: Option<DaemonState>,
)
    requires
        call_ensures(DashboardStateAdapter::load_snapshot, (&adapter, probe, stats), snapshot),
        call_ensures(DashboardStateAdapter::accepted_state, (&adapter, probe), accepted),
    ensures
        accepted is Some <==> snapshot.source == SnapshotSource::DaemonState,
        accepted is Some ==> snapshot.daemon_state == accepted,
        accepted is None && stats is None ==> snapshot.source == SnapshotSource::Unavailable,
        accepted is None ==> (snapshot.mounts@.len() == 0 <==> snapshot.source
            == SnapshotSource::Unavailable),
{
}

/// Statistics are needed exactly where the state file is of no use.
pub proof fn law_statistics_stand_in(outcome: StateReadOutcome, needed: bool)
    requires
        call_ensures(needs_stats, (&outcome,), needed),
    ensures
        !needed <==> outcome is Fresh,
{
}

/// An adapter takes its threshold in seconds, caches for one, and is not made where the
/// platform is not known.
pub proof fn law_adapter_of_a_platform(
    detected: Result<(), String>,
    stale: u64,
    adapter: Result<DashboardStateAdapter, String>,
)
    requires
        NANOS_PER_SEC * stale <= u64::MAX,
        call_ensures(DashboardStateAdapter::from_detected_platform, (detected, stale), adapter),
    ensures
        adapter is Ok <==> detected is Ok,
        adapter is Ok ==> adapter->Ok_0.stale_threshold == stale * 1_000_000_000
            && adapter->Ok_0.cache_ttl == 1_000_000_000,
        adapter is Err ==> adapter->Err_0 == detected->Err_0,
{
}

/// The adapter without a source reads nothing and is not healthy.
pub proof fn law_null_state_is_none(
    a: NullStateAdapter,
    file: &str,
    state: Option<DaemonState>,
    h: AdapterHealth,
)
    requires
        call_ensures(<NullStateAdapter as StateAdapter>::read_state, (&a, file), state),
        call_ensures(<NullStateAdapter as StateAdapter>::health, (&a,), h),
    ensures
        state is None,
        !h.state_file_available && !h.telemetry_available,
{
}

/// Rows of one path stand in the order in which the daemon tells them.
pub proof fn law_equal_paths_keep_their_order(
    state: DaemonState,
    rows: Vec<MountSnapshot>,
    i: int,
    j: int,
)
    requires
        call_ensures(mounts_from_state, (&state,), rows),
        0 <= i < j < rows@.len(),
        rows@[i].path@ == rows@[j].path@,
    ensures
        exists|a: int, b: int|
            #![trigger state.pressure.mounts@[a], state.pressure.mounts@[b]]
            0 <= a < b < state.pressure.mounts@.len() && daemon_row(
                state.pressure.mounts@[a],
                rows@[i],
            ) && daemon_row(state.pressure.mounts@[b], rows@[j]),
{
    let mounts = state.pressure.mounts@;
    let order = choose|order: Seq<usize>| #[trigger]
        path_order(mounts, order) && rows@.len() == mounts.len() && forall|i: int|
            0 <= i < rows@.len() ==> daemon_row(mounts[order[i] as int], #[trigger] rows@[i]);
    let (a, b) = (order[i] as int, order[j] as int);
    assert(daemon_row(mounts[a], rows@[i]) && daemon_row(mounts[b], rows@[j]));
    assert(earlier(mounts, a, b));
    law_text_order_total(rows@[i].path@, rows@[j].path@);
    assert(a < b);
}

} // verus!
