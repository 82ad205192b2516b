//! Telemetry recording and the read-only query side of the dashboard.
//!
//! Two concerns live here. Recording: samples handed to a [`TelemetryHook`].
//! Querying: adapters that surface activity events, decision evidence and
//! pressure history for the timeline and explainability screens. A query
//! never fails; it returns a [`TelemetryResult`] that says which backend
//! answered and whether the answer is known to be incomplete.

use vstd::prelude::*;

use crate::double::Double;
use crate::double::ONE_BITS;
use crate::order::ascending;
use crate::order::law_filter_is_subsequence;
use crate::order::law_stretch_is_subsequence;
use crate::order::picked_at;
use crate::order::subsequence;
use crate::text::decimal_usize;
use crate::text::text_eq;
use crate::text::trim_text;

verus! {



/// A telemetry sample emitted by runtime instrumentation.
#[derive(Debug, Clone, PartialEq, Eq)]
pub struct TelemetrySample {
    pub source: String,
    pub kind: String,
    pub detail: String,
}

impl TelemetrySample {
    pub fn new(source: &str, kind: &str, detail: &str) -> (sample: Self)
        ensures
            sample.source@ == source@,
            sample.kind@ == kind@,
            sample.detail@ == detail@,
    {
        Self { source: source.to_owned(), kind: kind.to_owned(), detail: detail.to_owned() }
    }
}

/// Hook point for ingesting runtime telemetry events.
pub trait TelemetryHook {
    fn record(&mut self, sample: TelemetrySample);
}

/// Hook that drops every sample.
#[derive(Debug, Default, Clone, Copy, PartialEq, Eq, Structural)]
pub struct NullTelemetryHook;

impl TelemetryHook for NullTelemetryHook {
    fn record(&mut self, _sample: TelemetrySample)
        ensures
            *final(self) == *old(self),
    {
    }
}

/// A single event of the timeline screen.
#[derive(Debug, Clone, PartialEq, Eq)]
pub struct TimelineEvent {
    /// ISO 8601 timestamp.
    pub timestamp: String,
    /// Canonical event type (e.g. "artifact_delete", "pressure_change").
    pub event_type: String,
    /// Severity: info, warning, critical.
    pub severity: String,
    /// Affected path, if applicable.
    pub path: Option<String>,
    /// Size in bytes, if applicable.
    pub size_bytes: Option<u64>,
    /// Candidacy score, if applicable.
    pub score: Option<Double>,
    /// Pressure level at event time.
    pub pressure_level: Option<String>,
    /// Free-space percentage at event time.
    pub free_pct: Option<Double>,
    /// Whether the action succeeded (None for non-action events).
    pub success: Option<bool>,
    /// Error code if the action failed.
    pub error_code: Option<String>,
    /// Human-readable error message.
    pub error_message: Option<String>,
    /// Duration of the action in milliseconds.
    pub duration_ms: Option<u64>,
    /// Freeform details.
    pub details: Option<String>,
}

/// Individual factor scores of a decision.
#[derive(Debug, Clone, Copy, PartialEq, Eq, Structural)]
pub struct FactorBreakdown {
    pub location: Double,
    pub name: Double,
    pub age: Double,
    pub size: Double,
    pub structure: Double,
    pub pressure_multiplier: Double,
}

/// Evidence payload of the explainability screen.
#[derive(Debug, Clone, PartialEq, Eq)]
pub struct DecisionEvidence {
    /// Monotonic decision identifier.
    pub decision_id: u64,
    /// ISO 8601 timestamp.
    pub timestamp: String,
    /// Candidate artifact path.
    pub path: String,
    /// Size of the candidate in bytes.
    pub size_bytes: u64,
    /// Age in seconds at decision time.
    pub age_secs: u64,
    /// The selected action (keep, delete, review).
    pub action: String,
    /// The effective action after policy enforcement.
    pub effective_action: Option<String>,
    /// Policy mode (live, shadow, canary, dry-run).
    pub policy_mode: String,
    /// Individual factor scores.
    pub factors: FactorBreakdown,
    /// Total weighted score.
    pub total_score: Double,
    /// Bayesian posterior P(abandoned).
    pub posterior_abandoned: Double,
    /// Expected loss of keeping.
    pub expected_loss_keep: Double,
    /// Expected loss of deleting.
    pub expected_loss_delete: Double,
    /// Calibration quality.
    pub calibration_score: Double,
    /// Whether a hard veto was applied.
    pub vetoed: bool,
    /// Veto reason.
    pub veto_reason: Option<String>,
    /// Guard status summary.
    pub guard_status: Option<String>,
    /// Human-readable summary.
    pub summary: String,
    /// Full serialized record.
    pub raw_json: Option<String>,
}

/// A single pressure sample for time-series rendering.
#[derive(Debug, Clone, PartialEq, Eq)]
pub struct PressurePoint {
    /// ISO 8601 timestamp.
    pub timestamp: String,
    /// Mount point path.
    pub mount_point: String,
    /// Free-space percentage.
    pub free_pct: Double,
    /// Pressure level label.
    pub pressure_level: String,
    /// EWMA consumption rate (bytes/sec).
    pub ewma_rate: Option<Double>,
    /// PID controller output.
    pub pid_output: Option<Double>,
}

/// Filter for timeline event queries.
#[derive(Debug, Clone)]
pub struct EventFilter {
    /// Only return events matching these severity levels.
    pub severities: Vec<String>,
    /// Only return events matching these event types.
    pub event_types: Vec<String>,
}

/// Whether some entry of a list of texts reads as `word`.
pub open spec fn lists(words: Seq<String>, word: Seq<char>) -> bool {
    exists|i: int| 0 <= i < words.len() && (#[trigger] words[i])@ == word
}

fn listed(words: &Vec<String>, word: &str) -> (b: bool)
    ensures
        b == lists(words@, word@),
{
    let mut i: usize = 0;
    while i < words.len()
        invariant
            i <= words.len(),
            forall|k: int| 0 <= k < i ==> (#[trigger] words@[k])@ != word@,
        decreases words.len() - i,
    {
        if text_eq(words[i].as_str(), word) {
            return true;
        }
        i += 1;
    }
    false
}

impl Default for EventFilter {
    fn default() -> (filter: Self)
        ensures
            filter.severities@.len() == 0,
            filter.event_types@.len() == 0,
    {
        EventFilter { severities: Vec::new(), event_types: Vec::new() }
    }
}

impl EventFilter {
    /// Whether the filter restricts nothing.
    pub open spec fn unrestricted(self) -> bool {
        self.severities@.len() == 0 && self.event_types@.len() == 0
    }

    /// Whether an event of this severity and type passes. A list that is empty
    /// restricts nothing; otherwise the event must be listed.
    pub open spec fn accepts(self, severity: Seq<char>, event_type: Seq<char>) -> bool {
        &&& self.severities@.len() == 0 || lists(self.severities@, severity)
        &&& self.event_types@.len() == 0 || lists(self.event_types@, event_type)
    }

    /// Returns `true` when the filter is empty (matches everything).
    pub fn is_empty(&self) -> (b: bool)
        ensures
            b == self.unrestricted(),
    {
        self.severities.is_empty() && self.event_types.is_empty()
    }

    /// Check if an event matches the filter. Empty filter matches everything.
    pub fn matches(&self, severity: &str, event_type: &str) -> (b: bool)
        ensures
            b == self.accepts(severity@, event_type@),
    {
        let severity_ok = self.severities.is_empty() || listed(&self.severities, severity);
        let event_ok = self.event_types.is_empty() || listed(&self.event_types, event_type);
        severity_ok && event_ok
    }
}

/// The lengths of some words added up.
spec fn total_length(words: Seq<String>) -> nat
    decreases words.len(),
{
    if words.len() == 0 {
        0
    } else {
        total_length(words.drop_last()) + words.last()@.len()
    }
}

proof fn words_are_short(words: Seq<String>, i: int)
    requires
        0 <= i < words.len(),
    ensures
        words[i]@.len() <= total_length(words),
    decreases words.len(),
{
    if i < words.len() - 1 {
        words_are_short(words.drop_last(), i);
    }
}

/// A word longer than all of some words together.
spec fn unlisted(words: Seq<String>) -> Seq<char> {
    Seq::new(total_length(words) + 1, |i: int| 'x')
}

proof fn unlisted_is_not_listed(words: Seq<String>)
    ensures
        !lists(words, unlisted(words)),
{
    if lists(words, unlisted(words)) {
        let i = choose|i: int| 0 <= i < words.len() && (#[trigger] words[i])@ == unlisted(words);
        words_are_short(words, i);
    }
}

/// A filter matches every event exactly when it is empty.
pub proof fn law_empty_filter_matches_everything(filter: EventFilter)
    ensures
        filter.unrestricted() <==> forall|severity: Seq<char>, event_type: Seq<char>| #[trigger]
            filter.accepts(severity, event_type),
{
    if forall|severity: Seq<char>, event_type: Seq<char>| #[trigger]
        filter.accepts(severity, event_type) {
        let (severity, event_type) = (
            unlisted(filter.severities@),
            unlisted(filter.event_types@),
        );
        unlisted_is_not_listed(filter.severities@);
        unlisted_is_not_listed(filter.event_types@);
        assert(filter.accepts(severity, event_type));
    }
}

/// Health status of a telemetry backend.
#[derive(Debug, Clone, Copy, PartialEq, Eq, Structural)]
pub enum BackendHealth {
    /// Backend is available and responding.
    Available,
    /// Backend is degraded (responding slowly or with partial data).
    Degraded,
    /// Backend is unavailable.
    Unavailable,
}

/// Aggregate health of the telemetry adapter.
#[derive(Debug, Clone, PartialEq, Eq)]
pub struct TelemetryHealth {
    pub sqlite: BackendHealth,
    pub jsonl: BackendHealth,
    /// Human-readable diagnostics message (empty when healthy).
    pub diagnostics: String,
}

impl TelemetryHealth {
    /// Whether some backend is available.
    pub open spec fn has_backend(self) -> bool {
        self.sqlite == BackendHealth::Available || self.jsonl == BackendHealth::Available
    }

    /// All backends are available.
    pub fn healthy() -> (health: Self)
        ensures
            health.sqlite == BackendHealth::Available,
            health.jsonl == BackendHealth::Available,
            health.diagnostics@ == Seq::<char>::empty(),
    {
        Self {
            sqlite: BackendHealth::Available,
            jsonl: BackendHealth::Available,
            diagnostics: String::new(),
        }
    }

    /// Whether at least one backend is available.
    pub fn any_available(&self) -> (b: bool)
        ensures
            b == self.has_backend(),
    {
        self.sqlite == BackendHealth::Available || self.jsonl == BackendHealth::Available
    }
}

/// Which backend sourced a query result.
#[derive(Debug, Clone, Copy, PartialEq, Eq, Structural)]
pub enum DataSource {
    /// Data came from SQLite.
    Sqlite,
    /// Data came from JSONL fallback.
    Jsonl,
    /// No backend available.
    Absent,
}

/// Result wrapper that includes partial-data indicators alongside the payload.
#[derive(Debug, Clone)]
pub struct TelemetryResult<T> {
    /// The payload (possibly empty or partial).
    pub data: T,
    /// Which backend sourced this data.
    pub source: DataSource,
    /// Whether the result is known to be incomplete.
    pub partial: bool,
    /// Diagnostic message for the UI (empty when fully healthy).
    pub diagnostics: String,
}

impl<T: Default> TelemetryResult<T> {
    /// An empty result indicating no backend was available.
    pub fn unavailable(diagnostics: String) -> (r: Self)
        ensures
            call_ensures(T::default, (), r.data),
            r.source == DataSource::Absent,
            r.partial,
            r.diagnostics == diagnostics,
    {
        Self { data: T::default(), source: DataSource::Absent, partial: true, diagnostics }
    }
}

/// A complete answer of the given backend.
pub fn complete<T>(data: T, source: DataSource) -> (r: TelemetryResult<T>)
    ensures
        r.data == data,
        r.source == source,
        !r.partial,
        r.diagnostics@ == Seq::<char>::empty(),
{
    TelemetryResult { data, source, partial: false, diagnostics: String::new() }
}

/// Read-only query interface for telemetry data.
pub trait TelemetryQueryAdapter {
    /// Query recent activity events for the timeline screen.
    fn recent_events(&self, limit: usize, filter: &EventFilter) -> TelemetryResult<
        Vec<TimelineEvent>,
    >;

    /// Query decision evidence for the explainability screen.
    fn recent_decisions(&self, limit: usize) -> TelemetryResult<Vec<DecisionEvidence>>;

    /// Query pressure history for a mount point.
    fn pressure_history(&self, mount: &str, since: &str, limit: usize) -> TelemetryResult<
        Vec<PressurePoint>,
    >;

    /// Report the health of underlying backends.
    fn health(&self) -> TelemetryHealth;
}

/// Adapter for use when telemetry backends aren't configured.
#[derive(Debug, Default, Clone, Copy, PartialEq, Eq, Structural)]
pub struct NullTelemetryAdapter;

/// Whether a result holds no rows and reports that no backend answered.
pub open spec fn no_backend<T>(r: TelemetryResult<Vec<T>>, message: Seq<char>) -> bool {
    &&& r.data@.len() == 0
    &&& r.source == DataSource::Absent
    &&& r.partial
    &&& r.diagnostics@ == message
}

impl TelemetryQueryAdapter for NullTelemetryAdapter {
    fn recent_events(&self, _limit: usize, _filter: &EventFilter) -> (r: TelemetryResult<
        Vec<TimelineEvent>,
    >)
        ensures
            no_backend(r, "telemetry not configured"@),
    {
        TelemetryResult::unavailable("telemetry not configured".to_owned())
    }

    fn recent_decisions(&self, _limit: usize) -> (r: TelemetryResult<Vec<DecisionEvidence>>)
        ensures
            no_backend(r, "telemetry not configured"@),
    {
        TelemetryResult::unavailable("telemetry not configured".to_owned())
    }

    fn pressure_history(&self, _mount: &str, _since: &str, _limit: usize) -> (r: TelemetryResult<
        Vec<PressurePoint>,
    >)
        ensures
            no_backend(r, "telemetry not configured"@),
    {
        TelemetryResult::unavailable("telemetry not configured".to_owned())
    }

    fn health(&self) -> (h: TelemetryHealth)
        ensures
            h.sqlite == BackendHealth::Unavailable,
            h.jsonl == BackendHealth::Unavailable,
            h.diagnostics@ == "telemetry not configured"@,
    {
        TelemetryHealth {
            sqlite: BackendHealth::Unavailable,
            jsonl: BackendHealth::Unavailable,
            diagnostics: "telemetry not configured".to_owned(),
        }
    }
}

/// A value bound to a placeholder of a query.
#[derive(Debug, Clone, PartialEq, Eq)]
pub enum SqlParam {
    Text(String),
    Int(i64),
}

/// A query with the values for its placeholders, in placeholder order.
#[derive(Debug, Clone, PartialEq, Eq)]
pub struct SqlQuery {
    pub text: String,
    pub params: Vec<SqlParam>,
}

/// `n` numbered placeholders from `?first` on, separated by commas.
pub open spec fn placeholders(first: nat, n: nat) -> Seq<char>
    decreases n,
{
    if n == 0 {
        seq![]
    } else if n == 1 {
        "?"@ + crate::text::dec(first)
    } else {
        placeholders(first, (n - 1) as nat) + ",?"@ + crate::text::dec((first + n - 1) as nat)
    }
}

fn placeholder_list(first: usize, n: usize) -> (s: String)
    requires
        first + n <= usize::MAX,
    ensures
        s@ == placeholders(first as nat, n as nat),
{
    let mut s = String::new();
    let mut i: usize = 0;
    while i < n
        invariant
            i <= n,
            first + n <= usize::MAX,
            s@ == placeholders(first as nat, i as nat),
        decreases n - i,
    {
        if i == 0 {
            s = "?".to_owned();
        } else {
            s.append(",?");
        }
        s.append(decimal_usize(first + i).as_str());
        i += 1;
    }
    s
}

/// The columns and table of an activity query.
pub open spec fn activity_select() -> Seq<char> {
    "SELECT timestamp, event_type, severity, path, size_bytes, score,
                    score_factors, pressure_level, free_pct, duration_ms,
                    success, error_code, error_message, details
             FROM activity_log"@
}

/// The condition part of an activity query for `s` severities and `e` event types.
pub open spec fn activity_where(s: nat, e: nat) -> Seq<char> {
    if s > 0 && e > 0 {
        " WHERE severity IN ("@ + placeholders(1, s) + ") AND event_type IN ("@ + placeholders(
            s + 1,
            e,
        ) + ")"@
    } else if s > 0 {
        " WHERE severity IN ("@ + placeholders(1, s) + ")"@
    } else if e > 0 {
        " WHERE event_type IN ("@ + placeholders(1, e) + ")"@
    } else {
        seq![]
    }
}

/// The activity query for a filter with `s` severities and `e` event types:
/// newest rows first, as many as the last placeholder says.
pub open spec fn activity_sql(s: nat, e: nat) -> Seq<char> {
    activity_select() + activity_where(s, e) + " ORDER BY id DESC LIMIT ?"@ + crate::text::dec(
        s + e + 1,
    )
}

/// The values an activity query binds: the severities, the event types, the limit.
pub open spec fn activity_params(filter: EventFilter, limit: usize) -> Seq<SqlParam> {
    filter.severities@.map_values(|t: String| SqlParam::Text(t)) + filter.event_types@.map_values(
        |t: String| SqlParam::Text(t),
    ) + seq![SqlParam::Int(limit as i64)]
}

fn push_texts(params: &mut Vec<SqlParam>, texts: &Vec<String>)
    ensures
        final(params)@ == old(params)@ + texts@.map_values(|t: String| SqlParam::Text(t)),
{
    let ghost before = params@;
    let mut i: usize = 0;
    while i < texts.len()
        invariant
            i <= texts.len(),
            params@ == before + texts@.take(i as int).map_values(|t: String| SqlParam::Text(t)),
        decreases texts.len() - i,
    {
        let text: String = texts[i].clone();
        params.push(SqlParam::Text(text));
        proof {
            let f = |t: String| SqlParam::Text(t);
            assert(texts@.take(i + 1).map_values(f) == texts@.take(i as int).map_values(f).push(
                SqlParam::Text(texts@[i as int]),
            ));
        }
        i += 1;
    }
    assert(texts@.take(texts@.len() as int) == texts@);
}

/// Builds the query for recent activity under a filter.
pub fn activity_query(limit: usize, filter: &EventFilter) -> (query: SqlQuery)
    requires
        filter.severities@.len() + filter.event_types@.len() + 1 <= usize::MAX,
    ensures
        query.text@ == activity_sql(filter.severities@.len(), filter.event_types@.len()),
        query.params@ == activity_params(*filter, limit),
{
    let s: usize = filter.severities.len();
    let e: usize = filter.event_types.len();
    let mut clause = String::new();
    if s > 0 {
        clause = " WHERE severity IN (".to_owned();
        clause.append(placeholder_list(1, s).as_str());
        if e > 0 {
            clause.append(") AND event_type IN (");
            clause.append(placeholder_list(s + 1, e).as_str());
        }
        clause.append(")");
    } else if e > 0 {
        clause = " WHERE event_type IN (".to_owned();
        clause.append(placeholder_list(1, e).as_str());
        clause.append(")");
    }
    let mut text =
        "SELECT timestamp, event_type, severity, path, size_bytes, score,
                    score_factors, pressure_level, free_pct, duration_ms,
                    success, error_code, error_message, details
             FROM activity_log".to_owned();
    text.append(clause.as_str());
    text.append(" ORDER BY id DESC LIMIT ?");
    text.append(decimal_usize(s + e + 1).as_str());
    let mut params: Vec<SqlParam> = Vec::new();
    push_texts(&mut params, &filter.severities);
    push_texts(&mut params, &filter.event_types);
    params.push(SqlParam::Int(limit as i64));
    SqlQuery { text, params }
}

/// The filter that selects decision records in the activity log.
pub fn decision_filter() -> (filter: EventFilter)
    ensures
        filter.severities@.len() == 0,
        filter.event_types@.len() == 1,
        filter.event_types@[0]@ == "artifact_delete"@,
{
    EventFilter { severities: Vec::new(), event_types: vec!["artifact_delete".to_owned()] }
}

/// Builds the query for the pressure history of a mount point.
pub fn pressure_query(mount: &str, since: &str, limit: usize) -> (query: SqlQuery)
    ensures
        query.text@
            == "SELECT timestamp, mount_point, free_pct, pressure_level, ewma_rate, pid_output
             FROM pressure_history
             WHERE mount_point = ?1 AND timestamp >= ?2
             ORDER BY id DESC LIMIT ?3"@,
        query.params@.len() == 3,
        query.params@[0] is Text && query.params@[0]->Text_0@ == mount@,
        query.params@[1] is Text && query.params@[1]->Text_0@ == since@,
        query.params@[2] == SqlParam::Int(limit as i64),
{
    SqlQuery {
        text:
            "SELECT timestamp, mount_point, free_pct, pressure_level, ewma_rate, pid_output
             FROM pressure_history
             WHERE mount_point = ?1 AND timestamp >= ?2
             ORDER BY id DESC LIMIT ?3".to_owned(),
        params: vec![
            SqlParam::Text(mount.to_owned()),
            SqlParam::Text(since.to_owned()),
            SqlParam::Int(limit as i64),
        ],
    }
}

/// A row of the activity table as the database driver hands it over.
#[derive(Debug, Clone, PartialEq, Eq)]
pub struct ActivityRow {
    pub timestamp: String,
    pub event_type: String,
    pub severity: String,
    pub path: Option<String>,
    pub size_bytes: Option<i64>,
    pub score: Option<Double>,
    pub pressure_level: Option<String>,
    pub free_pct: Option<Double>,
    pub duration_ms: Option<i64>,
    pub success: i32,
    pub error_code: Option<String>,
    pub error_message: Option<String>,
    pub details: Option<String>,
}

/// A signed quantity with negative values replaced by zero.
pub open spec fn clamped(v: Option<i64>) -> Option<u64> {
    match v {
        Some(n) => Some(if n < 0 { 0u64 } else { n as u64 }),
        None => None,
    }
}

fn clamp(v: Option<i64>) -> (r: Option<u64>)
    ensures
        r == clamped(v),
{
    match v {
        Some(n) => Some(if n < 0 { 0 } else { n as u64 }),
        None => None,
    }
}

/// Projects an activity row onto a timeline event.
pub fn activity_row_to_event(row: ActivityRow) -> (event: TimelineEvent)
    ensures
        event == (TimelineEvent {
            timestamp: row.timestamp,
            event_type: row.event_type,
            severity: row.severity,
            path: row.path,
            size_bytes: clamped(row.size_bytes),
            score: row.score,
            pressure_level: row.pressure_level,
            free_pct: row.free_pct,
            success: Some(row.success != 0),
            error_code: row.error_code,
            error_message: row.error_message,
            duration_ms: clamped(row.duration_ms),
            details: row.details,
        }),
{
    TimelineEvent {
        timestamp: row.timestamp,
        event_type: row.event_type,
        severity: row.severity,
        path: row.path,
        size_bytes: clamp(row.size_bytes),
        score: row.score,
        pressure_level: row.pressure_level,
        free_pct: row.free_pct,
        success: Some(row.success != 0),
        error_code: row.error_code,
        error_message: row.error_message,
        duration_ms: clamp(row.duration_ms),
        details: row.details,
    }
}

/// Wraps the outcome of a database query: rows on success, otherwise an empty
/// partial result whose diagnostics name the query and the driver's message.
pub fn sqlite_result<T>(outcome: Result<Vec<T>, String>, failure: &str) -> (r: TelemetryResult<
    Vec<T>,
>)
    ensures
        r.source == DataSource::Sqlite,
        match outcome {
            Ok(rows) => r.data == rows && !r.partial && r.diagnostics@ == Seq::<char>::empty(),
            Err(message) => r.data@.len() == 0 && r.partial && r.diagnostics@ == failure@ + ": "@
                + message@,
        },
{
    match outcome {
        Ok(rows) => complete(rows, DataSource::Sqlite),
        Err(message) => {
            let mut diagnostics = failure.to_owned();
            diagnostics.append(": ");
            diagnostics.append(message.as_str());
            TelemetryResult { data: Vec::new(), source: DataSource::Sqlite, partial: true, diagnostics }
        },
    }
}

/// Health of the database backend, given whether its probe query ran.
pub fn sqlite_health(probe_ok: bool) -> (h: TelemetryHealth)
    ensures
        h.sqlite == (if probe_ok { BackendHealth::Available } else { BackendHealth::Degraded }),
        h.jsonl == BackendHealth::Unavailable,
        h.diagnostics@ == (if probe_ok { Seq::empty() } else { "SQLite read connection unhealthy"@ }),
{
    if probe_ok {
        TelemetryHealth {
            sqlite: BackendHealth::Available,
            jsonl: BackendHealth::Unavailable,
            diagnostics: String::new(),
        }
    } else {
        TelemetryHealth {
            sqlite: BackendHealth::Degraded,
            jsonl: BackendHealth::Unavailable,
            diagnostics: "SQLite read connection unhealthy".to_owned(),
        }
    }
}

/// Severity of a log entry.
#[derive(Debug, Clone, Copy, PartialEq, Eq, Structural)]
pub enum Severity {
    Info,
    Warning,
    Critical,
}

/// The label of a severity in queries and on screen.
pub open spec fn severity_label(s: Severity) -> Seq<char> {
    match s {
        Severity::Info => "info"@,
        Severity::Warning => "warning"@,
        Severity::Critical => "critical"@,
    }
}

impl Severity {
    pub fn label(self) -> (l: &'static str)
        ensures
            l@ == severity_label(self),
    {
        match self {
            Severity::Info => "info",
            Severity::Warning => "warning",
            Severity::Critical => "critical",
        }
    }
}

/// One entry of the JSON-lines activity log. `event` holds the serialized
/// label of the event type.
#[derive(Debug, Clone, PartialEq, Eq)]
pub struct LogEntry {
    pub ts: String,
    pub event: String,
    pub severity: Severity,
    pub path: Option<String>,
    pub size: Option<u64>,
    pub score: Option<Double>,
    pub pressure: Option<String>,
    pub free_pct: Option<Double>,
    pub rate_bps: Option<Double>,
    pub mount_point: Option<String>,
    pub duration_ms: Option<u64>,
    pub ok: Option<bool>,
    pub error_code: Option<String>,
    pub error_message: Option<String>,
    pub details: Option<String>,
}

/// A line of the activity log with what parsing it gave.
#[derive(Debug, Clone, PartialEq, Eq)]
pub struct LogLine {
    pub text: String,
    pub entry: Option<LogEntry>,
}

/// Whether `event` is the timeline projection of `entry`.
pub open spec fn projects(entry: LogEntry, event: TimelineEvent) -> bool {
    &&& event.timestamp == entry.ts
    &&& event.event_type == entry.event
    &&& event.severity@ == severity_label(entry.severity)
    &&& event.path == entry.path
    &&& event.size_bytes == entry.size
    &&& event.score == entry.score
    &&& event.pressure_level == entry.pressure
    &&& event.free_pct == entry.free_pct
    &&& event.success == entry.ok
    &&& event.error_code == entry.error_code
    &&& event.error_message == entry.error_message
    &&& event.duration_ms == entry.duration_ms
    &&& event.details == entry.details
}

/// A copy of an optional text.
pub fn copy_text(t: &Option<String>) -> (r: Option<String>)
    ensures
        r == *t,
{
    match t {
        Some(s) => Some(s.clone()),
        None => None,
    }
}

/// Convert a log entry to a timeline event.
pub fn logentry_to_timeline(entry: &LogEntry) -> (event: TimelineEvent)
    ensures
        projects(*entry, event),
{
    TimelineEvent {
        timestamp: entry.ts.clone(),
        event_type: entry.event.clone(),
        severity: entry.severity.label().to_owned(),
        path: copy_text(&entry.path),
        size_bytes: entry.size,
        score: entry.score,
        pressure_level: copy_text(&entry.pressure),
        free_pct: entry.free_pct,
        success: entry.ok,
        error_code: copy_text(&entry.error_code),
        error_message: copy_text(&entry.error_message),
        duration_ms: entry.duration_ms,
        details: copy_text(&entry.details),
    }
}

/// The text of an optional field, empty where it is absent.
pub open spec fn text_or_empty(t: Option<String>) -> Seq<char> {
    match t {
        Some(s) => s@,
        None => seq![],
    }
}

fn own_or_empty(t: &Option<String>) -> (r: String)
    ensures
        r@ == text_or_empty(*t),
{
    match t {
        Some(s) => s.clone(),
        None => String::new(),
    }
}

/// A factor breakdown with no evidence: every score zero, neutral pressure multiplier.
pub open spec fn neutral_factors() -> FactorBreakdown {
    FactorBreakdown {
        location: Double { bits: 0 },
        name: Double { bits: 0 },
        age: Double { bits: 0 },
        size: Double { bits: 0 },
        structure: Double { bits: 0 },
        pressure_multiplier: Double { bits: ONE_BITS },
    }
}

/// Whether `d` is the best-effort decision record for event `ev`: what the
/// activity log holds is taken over, everything else has its default.
pub open spec fn evidences(id: u64, ev: TimelineEvent, d: DecisionEvidence) -> bool {
    &&& d.decision_id == id
    &&& d.timestamp == ev.timestamp
    &&& d.path@ == text_or_empty(ev.path)
    &&& d.size_bytes == (match ev.size_bytes { Some(n) => n, None => 0 })
    &&& d.age_secs == 0
    &&& d.action@ == (if ev.success == Some(true) { "delete"@ } else { "keep"@ })
    &&& d.effective_action is None
    &&& d.policy_mode@ == "live"@
    &&& d.factors == neutral_factors()
    &&& d.total_score == (match ev.score { Some(s) => s, None => (Double { bits: 0 }) })
    &&& d.posterior_abandoned == (Double { bits: 0 })
    &&& d.expected_loss_keep == (Double { bits: 0 })
    &&& d.expected_loss_delete == (Double { bits: 0 })
    &&& d.calibration_score == (Double { bits: 0 })
    &&& !d.vetoed
    &&& d.veto_reason is None
    &&& d.guard_status is None
    &&& d.summary@ == text_or_empty(ev.details)
    &&& d.raw_json is None
}

/// Whether `d` is the decision record for the timeline projection of `entry`.
pub open spec fn evidences_entry(id: u64, entry: LogEntry, d: DecisionEvidence) -> bool {
    exists|ev: TimelineEvent| projects(entry, ev) && #[trigger] evidences(id, ev, d)
}

/// Synthesize decision evidence from a timeline event.
pub fn timeline_to_evidence(id: u64, ev: &TimelineEvent) -> (d: DecisionEvidence)
    ensures
        evidences(id, *ev, d),
{
    let zero = Double { bits: 0 };
    let deleted = match ev.success {
        Some(b) => b,
        None => false,
    };
    DecisionEvidence {
        decision_id: id,
        timestamp: ev.timestamp.clone(),
        path: own_or_empty(&ev.path),
        size_bytes: match ev.size_bytes {
            Some(n) => n,
            None => 0,
        },
        age_secs: 0,
        action: if deleted {
            "delete".to_owned()
        } else {
            "keep".to_owned()
        },
        effective_action: None,
        policy_mode: "live".to_owned(),
        factors: FactorBreakdown {
            location: zero,
            name: zero,
            age: zero,
            size: zero,
            structure: zero,
            pressure_multiplier: Double { bits: ONE_BITS },
        },
        total_score: match ev.score {
            Some(s) => s,
            None => zero,
        },
        posterior_abandoned: zero,
        expected_loss_keep: zero,
        expected_loss_delete: zero,
        calibration_score: zero,
        vetoed: false,
        veto_reason: None,
        guard_status: None,
        summary: own_or_empty(&ev.details),
        raw_json: None,
    }
}

/// Decision evidence for a list of events, numbered from zero.
pub fn events_to_evidence(events: &Vec<TimelineEvent>) -> (evidence: Vec<DecisionEvidence>)
    ensures
        evidence@.len() == events@.len(),
        forall|i: int|
            0 <= i < events@.len() ==> evidences(i as u64, events@[i], #[trigger] evidence@[i]),
{
    let mut evidence: Vec<DecisionEvidence> = Vec::new();
    let mut i: usize = 0;
    while i < events.len()
        invariant
            i <= events.len(),
            evidence@.len() == i,
            forall|k: int| 0 <= k < i ==> evidences(k as u64, events@[k], #[trigger] evidence@[k]),
        decreases events.len() - i,
    {
        evidence.push(timeline_to_evidence(i as u64, &events[i]));
        i += 1;
    }
    evidence
}

/// The lines of a log that hold anything but white space.
pub open spec fn written_lines(lines: Seq<LogLine>) -> Seq<LogLine> {
    lines.filter(|l: LogLine| crate::text::trimmed(l.text@).len() > 0)
}

/// The last `n` elements of a sequence, or all where there are fewer.
pub open spec fn last_n<T>(s: Seq<T>, n: nat) -> Seq<T> {
    if s.len() > n {
        s.skip(s.len() - n)
    } else {
        s
    }
}

/// The entries of the lines that parsed, in reverse line order.
pub open spec fn parsed_backwards(lines: Seq<LogLine>) -> Seq<LogEntry>
    decreases lines.len(),
{
    if lines.len() == 0 {
        seq![]
    } else {
        (match lines.last().entry {
            Some(entry) => seq![entry],
            None => seq![],
        }) + parsed_backwards(lines.drop_last())
    }
}

/// The newest entries among the last `n` written lines, newest first.
pub open spec fn tail_entries(lines: Seq<LogLine>, n: nat) -> Seq<LogEntry> {
    parsed_backwards(last_n(written_lines(lines), n))
}

/// The first `n` elements of a sequence, or all where there are fewer.
pub open spec fn first_n<T>(s: Seq<T>, n: nat) -> Seq<T> {
    if s.len() > n {
        s.take(n as int)
    } else {
        s
    }
}

/// The entries an event query selects from a log.
pub open spec fn selected_entries(lines: Seq<LogLine>, limit: nat, filter: EventFilter) -> Seq<
    LogEntry,
> {
    let read = if filter.unrestricted() {
        limit
    } else {
        4 * limit
    };
    first_n(
        tail_entries(lines, read).filter(
            |e: LogEntry| filter.accepts(severity_label(e.severity), e.event@),
        ),
        limit,
    )
}

/// The entries a decision query selects from a log.
pub open spec fn deletion_entries(lines: Seq<LogLine>, limit: nat) -> Seq<LogEntry> {
    first_n(
        tail_entries(lines, 4 * limit).filter(|e: LogEntry| e.event@ == "artifact_delete"@),
        limit,
    )
}

/// Whether an entry is a pressure change on the given mount.
pub open spec fn pressure_on(e: LogEntry, mount: Seq<char>) -> bool {
    e.event@ == "pressure_change"@ && e.mount_point is Some && e.mount_point->0@ == mount
}

/// The entries a pressure query selects from a log.
pub open spec fn pressure_entries(lines: Seq<LogLine>, mount: Seq<char>, limit: nat) -> Seq<
    LogEntry,
> {
    first_n(tail_entries(lines, 4 * limit).filter(|e: LogEntry| pressure_on(e, mount)), limit)
}

/// Whether `point` is the pressure sample of `entry`.
pub open spec fn samples(entry: LogEntry, point: PressurePoint) -> bool {
    &&& point.timestamp == entry.ts
    &&& point.mount_point@ == text_or_empty(entry.mount_point)
    &&& point.free_pct == (match entry.free_pct { Some(p) => p, None => (Double { bits: 0 }) })
    &&& point.pressure_level@ == text_or_empty(entry.pressure)
    &&& point.ewma_rate == entry.rate_bps
    &&& point.pid_output is None
}

/// Read-only telemetry adapter over the lines of the JSON-lines activity log.
///
/// Used as a fallback when SQLite is unavailable. `lines` is absent while the
/// log file does not exist.
#[derive(Debug)]
pub struct JsonlTelemetryAdapter {
    pub path: String,
    pub lines: Option<Vec<LogLine>>,
}

impl JsonlTelemetryAdapter {
    /// The lines the adapter reads; none where the file is missing.
    pub open spec fn content(self) -> Seq<LogLine> {
        match self.lines {
            Some(lines) => lines@,
            None => seq![],
        }
    }

    /// Create an adapter for a log file with the given content.
    ///
    /// Returns `None` if the file doesn't exist.
    pub fn open(path: String, lines: Option<Vec<LogLine>>) -> (adapter: Option<Self>)
        ensures
            adapter == (match lines {
                Some(l) => Some(JsonlTelemetryAdapter { path, lines: Some(l) }),
                None => None,
            }),
    {
        match lines {
            Some(l) => Some(JsonlTelemetryAdapter { path, lines: Some(l) }),
            None => None,
        }
    }

    /// Positions of the entries in the last `n` written lines, newest first.
    fn tail_positions(&self, n: usize) -> (positions: Vec<usize>)
        ensures
            positions@.len() == tail_entries(self.content(), n as nat).len(),
            forall|i: int|
                0 <= i < positions@.len() ==> {
                    &&& (#[trigger] positions@[i]) < self.content().len()
                    &&& self.content()[positions@[i] as int].entry == Some(
                        tail_entries(self.content(), n as nat)[i],
                    )
                },
    {
        let mut written: Vec<usize> = Vec::new();
        match &self.lines {
            None => {
                proof {
                    assert(written_lines(self.content()) == Seq::<LogLine>::empty()) by {
                        reveal(Seq::filter);
                    }
                }
                return Vec::new();
            },
            Some(lines) => {
                let ghost keep = |l: LogLine| crate::text::trimmed(l.text@).len() > 0;
                let mut i: usize = 0;
                assert(lines@.take(0).filter(keep) == Seq::<LogLine>::empty()) by {
                    reveal(Seq::filter);
                }
                while i < lines.len()
                    invariant
                        i <= lines.len(),
                        keep == (|l: LogLine| crate::text::trimmed(l.text@).len() > 0),
                        written@.len() == lines@.take(i as int).filter(keep).len(),
                        forall|k: int|
                            0 <= k < written@.len() ==> {
                                &&& (#[trigger] written@[k]) < i
                                &&& lines@[written@[k] as int] == lines@.take(i as int).filter(
                                    keep,
                                )[k]
                            },
                    decreases lines.len() - i,
                {
                    proof {
                        reveal(Seq::filter);
                        assert(lines@.take(i + 1).drop_last() == lines@.take(i as int));
                        assert(lines@.take(i + 1).last() == lines@[i as int]);
                    }
                    if !trim_text(lines[i].text.as_str()).as_str().is_empty() {
                        written.push(i);
                    }
                    i += 1;
                }
                assert(lines@.take(lines@.len() as int) == lines@);
                let ghost all = written_lines(lines@);
                let total: usize = written.len();
                let start: usize = if total > n {
                    total - n
                } else {
                    0
                };
                let ghost tail = last_n(all, n as nat);
                assert(tail == all.skip(start as int));
                let mut positions: Vec<usize> = Vec::new();
                let mut j: usize = total;
                assert(tail.take(total - start) == tail);
                assert(parsed_backwards(tail.take(0)) == Seq::<LogEntry>::empty());
                let ghost done: Seq<LogEntry> = seq![];
                while j > start
                    invariant
                        start <= j <= total,
                        total == written@.len(),
                        total == all.len(),
                        tail == all.skip(start as int),
                        forall|k: int|
                            0 <= k < written@.len() ==> {
                                &&& (#[trigger] written@[k]) < lines@.len()
                                &&& lines@[written@[k] as int] == all[k]
                            },
                        parsed_backwards(tail) == done + parsed_backwards(tail.take(j - start)),
                        positions@.len() == done.len(),
                        forall|k: int|
                            0 <= k < positions@.len() ==> {
                                &&& (#[trigger] positions@[k]) < lines@.len()
                                &&& lines@[positions@[k] as int].entry == Some(done[k])
                            },
                    decreases j,
                {
                    let position: usize = written[j - 1];
                    proof {
                        let part = tail.take(j - start);
                        assert(part.last() == lines@[position as int]);
                        assert(part.drop_last() == tail.take(j - 1 - start));
                        match lines@[position as int].entry {
                            Some(entry) => {
                                assert(done + (seq![entry] + parsed_backwards(part.drop_last()))
                                    == done.push(entry) + parsed_backwards(part.drop_last()));
                                done = done.push(entry);
                            },
                            None => {
                                assert(done + (Seq::<LogEntry>::empty() + parsed_backwards(
                                    part.drop_last(),
                                )) == done + parsed_backwards(part.drop_last()));
                            },
                        }
                    }
                    if lines[position].entry.is_some() {
                        positions.push(position);
                    }
                    j -= 1;
                }
                assert(tail.take(0) == Seq::<LogLine>::empty());
                assert(done + Seq::<LogEntry>::empty() == done);
                positions
            },
        }
    }

    /// How many lines to read for a query that passes over entries: four for
    /// each entry asked for, as far as a log can have that many.
    fn read_ahead(&self, limit: usize) -> (n: usize)
        ensures
            tail_entries(self.content(), n as nat) == tail_entries(
                self.content(),
                (4 * limit) as nat,
            ),
    {
        if limit <= usize::MAX / 4 {
            4 * limit
        } else {
            proof {
                broadcast use vstd::seq_lib::group_filter_ensures;

                if let Some(lines) = &self.lines {
                    assert(lines@.len() == lines.len());
                }
                assert(written_lines(self.content()).len() <= self.content().len());
            }
            usize::MAX
        }
    }

    /// The entry at a position that holds one.
    fn entry_at(&self, position: usize) -> (entry: &LogEntry)
        requires
            position < self.content().len(),
            self.content()[position as int].entry is Some,
        ensures
            self.content()[position as int].entry == Some(*entry),
    {
        match &self.lines {
            Some(lines) => match &lines[position].entry {
                Some(entry) => entry,
                None => vstd::pervasive::unreached(),
            },
            None => vstd::pervasive::unreached(),
        }
    }

    /// Positions of the first `limit` wanted entries in the last `n` written lines.
    fn wanted_positions(&self, n: usize, limit: usize, wanted: &Wanted) -> (positions: Vec<usize>)
        ensures
            positions@.len() == wanted.pick(self.content(), n as nat, limit as nat).len(),
            forall|i: int|
                0 <= i < positions@.len() ==> {
                    &&& (#[trigger] positions@[i]) < self.content().len()
                    &&& self.content()[positions@[i] as int].entry == Some(
                        wanted.pick(self.content(), n as nat, limit as nat)[i],
                    )
                },
    {
        let tail = self.tail_positions(n);
        let ghost entries = tail_entries(self.content(), n as nat);
        let ghost keep = |e: LogEntry| wanted.wants(e);
        let mut positions: Vec<usize> = Vec::new();
        let mut i: usize = 0;
        assert(entries.take(0).filter(keep) == Seq::<LogEntry>::empty()) by {
            reveal(Seq::filter);
        }
        while i < tail.len()
            invariant
                i <= tail.len(),
                tail@.len() == entries.len(),
                keep == (|e: LogEntry| wanted.wants(e)),
                forall|k: int|
                    0 <= k < tail@.len() ==> {
                        &&& (#[trigger] tail@[k]) < self.content().len()
                        &&& self.content()[tail@[k] as int].entry == Some(entries[k])
                    },
                positions@.len() == first_n(entries.take(i as int).filter(keep), limit as nat).len(),
                forall|k: int|
                    0 <= k < positions@.len() ==> {
                        &&& (#[trigger] positions@[k]) < self.content().len()
                        &&& self.content()[positions@[k] as int].entry == Some(
                            entries.take(i as int).filter(keep)[k],
                        )
                    },
            decreases tail.len() - i,
        {
            proof {
                reveal(Seq::filter);
                assert(entries.take(i + 1).drop_last() == entries.take(i as int));
                assert(entries.take(i + 1).last() == entries[i as int]);
            }
            let position: usize = tail[i];
            if wanted.wanted(self.entry_at(position)) && positions.len() < limit {
                positions.push(position);
            }
            i += 1;
        }
        assert(entries.take(entries.len() as int) == entries);
        positions
    }
}

/// What a query looks for in the log.
enum Wanted<'a> {
    Events(&'a EventFilter),
    Deletions,
    PressureOn(&'a str),
}

impl<'a> Wanted<'a> {
    spec fn wants(self, e: LogEntry) -> bool {
        match self {
            Wanted::Events(filter) => filter.accepts(severity_label(e.severity), e.event@),
            Wanted::Deletions => e.event@ == "artifact_delete"@,
            Wanted::PressureOn(mount) => pressure_on(e, mount@),
        }
    }

    spec fn pick(self, lines: Seq<LogLine>, n: nat, limit: nat) -> Seq<LogEntry> {
        first_n(tail_entries(lines, n).filter(|e: LogEntry| self.wants(e)), limit)
    }

    fn wanted(&self, e: &LogEntry) -> (b: bool)
        ensures
            b == self.wants(*e),
    {
        match self {
            Wanted::Events(filter) => filter.matches(e.severity.label(), e.event.as_str()),
            Wanted::Deletions => text_eq(e.event.as_str(), "artifact_delete"),
            Wanted::PressureOn(mount) => text_eq(e.event.as_str(), "pressure_change") && (
            match &e.mount_point {
                Some(m) => text_eq(m.as_str(), mount),
                None => false,
            }),
        }
    }
}

impl TelemetryQueryAdapter for JsonlTelemetryAdapter {
    fn recent_events(&self, limit: usize, filter: &EventFilter) -> (r: TelemetryResult<
        Vec<TimelineEvent>,
    >)
        ensures
            r.source == DataSource::Jsonl,
            !r.partial,
            r.diagnostics@ == Seq::<char>::empty(),
            r.data@.len() == selected_entries(self.content(), limit as nat, *filter).len(),
            forall|i: int|
                0 <= i < r.data@.len() ==> projects(
                    selected_entries(self.content(), limit as nat, *filter)[i],
                    #[trigger] r.data@[i],
                ),
    {
        let read: usize = if filter.is_empty() {
            limit
        } else {
            self.read_ahead(limit)
        };
        let wanted = Wanted::Events(filter);
        let positions = self.wanted_positions(read, limit, &wanted);
        let ghost picked = selected_entries(self.content(), limit as nat, *filter);
        assert(wanted.pick(self.content(), read as nat, limit as nat) == picked) by {
            let f = |e: LogEntry| wanted.wants(e);
            let g = |e: LogEntry| filter.accepts(severity_label(e.severity), e.event@);
            assert(f =~= g);
        }
        let mut data: Vec<TimelineEvent> = Vec::new();
        let mut i: usize = 0;
        while i < positions.len()
            invariant
                i <= positions.len(),
                positions@.len() == picked.len(),
                forall|k: int|
                    0 <= k < positions@.len() ==> {
                        &&& (#[trigger] positions@[k]) < self.content().len()
                        &&& self.content()[positions@[k] as int].entry == Some(picked[k])
                    },
                data@.len() == i,
                forall|k: int| 0 <= k < i ==> projects(picked[k], #[trigger] data@[k]),
            decreases positions.len() - i,
        {
            data.push(logentry_to_timeline(self.entry_at(positions[i])));
            i += 1;
        }
        complete(data, DataSource::Jsonl)
    }

    fn recent_decisions(&self, limit: usize) -> (r: TelemetryResult<Vec<DecisionEvidence>>)
        ensures
            r.source == DataSource::Jsonl,
            !r.partial,
            r.diagnostics@ == Seq::<char>::empty(),
            r.data@.len() == deletion_entries(self.content(), limit as nat).len(),
            forall|i: int|
                0 <= i < r.data@.len() ==> evidences_entry(
                    i as u64,
                    deletion_entries(self.content(), limit as nat)[i],
                    #[trigger] r.data@[i],
                ),
    {
        let wanted = Wanted::Deletions;
        let read: usize = self.read_ahead(limit);
        let positions = self.wanted_positions(read, limit, &wanted);
        let ghost picked = deletion_entries(self.content(), limit as nat);
        assert(wanted.pick(self.content(), read as nat, limit as nat) == picked) by {
            let f = |e: LogEntry| wanted.wants(e);
            let g = |e: LogEntry| e.event@ == "artifact_delete"@;
            assert(f =~= g);
        }
        let mut data: Vec<DecisionEvidence> = Vec::new();
        let mut i: usize = 0;
        while i < positions.len()
            invariant
                i <= positions.len(),
                positions@.len() == picked.len(),
                forall|k: int|
                    0 <= k < positions@.len() ==> {
                        &&& (#[trigger] positions@[k]) < self.content().len()
                        &&& self.content()[positions@[k] as int].entry == Some(picked[k])
                    },
                data@.len() == i,
                forall|k: int|
                    0 <= k < i ==> evidences_entry(k as u64, picked[k], #[trigger] data@[k]),
            decreases positions.len() - i,
        {
            let event = logentry_to_timeline(self.entry_at(positions[i]));
            let evidence = timeline_to_evidence(i as u64, &event);
            assert(evidences_entry(i as u64, picked[i as int], evidence));
            data.push(evidence);
            i += 1;
        }
        complete(data, DataSource::Jsonl)
    }

    fn pressure_history(&self, mount: &str, _since: &str, limit: usize) -> (r: TelemetryResult<
        Vec<PressurePoint>,
    >)
        ensures
            r.source == DataSource::Jsonl,
            !r.partial,
            r.diagnostics@ == Seq::<char>::empty(),
            r.data@.len() == pressure_entries(self.content(), mount@, limit as nat).len(),
            forall|i: int|
                0 <= i < r.data@.len() ==> samples(
                    pressure_entries(self.content(), mount@, limit as nat)[i],
                    #[trigger] r.data@[i],
                ),
    {
        let wanted = Wanted::PressureOn(mount);
        let read: usize = self.read_ahead(limit);
        let positions = self.wanted_positions(read, limit, &wanted);
        let ghost picked = pressure_entries(self.content(), mount@, limit as nat);
        assert(wanted.pick(self.content(), read as nat, limit as nat) == picked) by {
            let f = |e: LogEntry| wanted.wants(e);
            let g = |e: LogEntry| pressure_on(e, mount@);
            assert(f =~= g);
        }
        let mut data: Vec<PressurePoint> = Vec::new();
        let mut i: usize = 0;
        while i < positions.len()
            invariant
                i <= positions.len(),
                positions@.len() == picked.len(),
                forall|k: int|
                    0 <= k < positions@.len() ==> {
                        &&& (#[trigger] positions@[k]) < self.content().len()
                        &&& self.content()[positions@[k] as int].entry == Some(picked[k])
                    },
                data@.len() == i,
                forall|k: int| 0 <= k < i ==> samples(picked[k], #[trigger] data@[k]),
            decreases positions.len() - i,
        {
            let entry = self.entry_at(positions[i]);
            data.push(
                PressurePoint {
                    timestamp: entry.ts.clone(),
                    mount_point: own_or_empty(&entry.mount_point),
                    free_pct: match entry.free_pct {
                        Some(p) => p,
                        None => Double { bits: 0 },
                    },
                    pressure_level: own_or_empty(&entry.pressure),
                    ewma_rate: entry.rate_bps,
                    pid_output: None,
                },
            );
            i += 1;
        }
        complete(data, DataSource::Jsonl)
    }

    fn health(&self) -> (h: TelemetryHealth)
        ensures
            h.sqlite == BackendHealth::Unavailable,
            h.jsonl == (if self.lines is Some {
                BackendHealth::Available
            } else {
                BackendHealth::Unavailable
            }),
            h.diagnostics@ == (if self.lines is Some {
                Seq::empty()
            } else {
                "JSONL file not found: "@ + self.path@
            }),
    {
        if self.lines.is_some() {
            TelemetryHealth {
                sqlite: BackendHealth::Unavailable,
                jsonl: BackendHealth::Available,
                diagnostics: String::new(),
            }
        } else {
            let mut diagnostics = "JSONL file not found: ".to_owned();
            diagnostics.append(self.path.as_str());
            TelemetryHealth {
                sqlite: BackendHealth::Unavailable,
                jsonl: BackendHealth::Unavailable,
                diagnostics,
            }
        }
    }
}

/// Composite adapter that tries SQLite first, falls back to JSONL.
///
/// Generic over the two backends, which are absent where they could not be
/// opened.
#[derive(Debug)]
pub struct CompositeTelemetryAdapter<S, J> {
    pub sqlite: Option<S>,
    pub jsonl: Option<J>,
}

impl<S: TelemetryQueryAdapter, J: TelemetryQueryAdapter> CompositeTelemetryAdapter<S, J> {
    /// Build from the backends that could be opened.
    pub fn new(sqlite: Option<S>, jsonl: Option<J>) -> (adapter: Self)
        ensures
            adapter.sqlite == sqlite,
            adapter.jsonl == jsonl,
    {
        CompositeTelemetryAdapter { sqlite, jsonl }
    }

    /// Whether the SQLite backend was opened.
    pub fn has_sqlite(&self) -> (b: bool)
        ensures
            b == (self.sqlite is Some),
    {
        self.sqlite.is_some()
    }
}

/// What the composite answers, given what its backends answered: the first
/// result where it is there and complete, else the second where it is there,
/// else the report that no backend is available.
pub open spec fn preferred<T>(
    sqlite: Option<TelemetryResult<Vec<T>>>,
    jsonl: Option<TelemetryResult<Vec<T>>>,
    answer: TelemetryResult<Vec<T>>,
) -> bool {
    match (sqlite, jsonl) {
        (Some(r), _) if !r.partial => answer == r,
        (_, Some(r)) => answer == r,
        _ => no_backend(answer, "no telemetry backend available"@),
    }
}

/// Picks the answer of a composite query from what its backends answered.
pub fn prefer_complete<T>(
    sqlite: Option<TelemetryResult<Vec<T>>>,
    jsonl: Option<TelemetryResult<Vec<T>>>,
) -> (answer: TelemetryResult<Vec<T>>)
    ensures
        preferred(sqlite, jsonl, answer),
{
    if let Some(r) = sqlite {
        if !r.partial {
            return r;
        }
    }
    match jsonl {
        Some(r) => r,
        None => TelemetryResult::unavailable("no telemetry backend available".to_owned()),
    }
}

impl<S: TelemetryQueryAdapter, J: TelemetryQueryAdapter> TelemetryQueryAdapter
    for CompositeTelemetryAdapter<S, J> {
    fn recent_events(&self, limit: usize, filter: &EventFilter) -> (r: TelemetryResult<
        Vec<TimelineEvent>,
    >)
        ensures
            exists|a: Option<TelemetryResult<Vec<TimelineEvent>>>,
                b: Option<TelemetryResult<Vec<TimelineEvent>>>| #[trigger] preferred(a, b, r)
                && (a is Some <==> self.sqlite is Some) && (b is Some ==> self.jsonl is Some)
                && (a is Some ==> call_ensures(S::recent_events, (&self.sqlite->0, limit, filter), a->0))
                && (b is Some ==> call_ensures(J::recent_events, (&self.jsonl->0, limit, filter), b->0))
                && (b is None ==> self.jsonl is None || a is Some && !a->0.partial),
    {
        let first = match &self.sqlite {
            Some(sqlite) => Some(sqlite.recent_events(limit, filter)),
            None => None,
        };
        let complete_first = match &first {
            Some(r) => !r.partial,
            None => false,
        };
        let second = if complete_first {
            None
        } else {
            match &self.jsonl {
                Some(jsonl) => Some(jsonl.recent_events(limit, filter)),
                None => None,
            }
        };
        prefer_complete(first, second)
    }

    fn recent_decisions(&self, limit: usize) -> (r: TelemetryResult<Vec<DecisionEvidence>>)
        ensures
            exists|a: Option<TelemetryResult<Vec<DecisionEvidence>>>,
                b: Option<TelemetryResult<Vec<DecisionEvidence>>>| #[trigger] preferred(a, b, r)
                && (a is Some <==> self.sqlite is Some) && (b is Some ==> self.jsonl is Some)
                && (a is Some ==> call_ensures(S::recent_decisions, (&self.sqlite->0, limit), a->0))
                && (b is Some ==> call_ensures(J::recent_decisions, (&self.jsonl->0, limit), b->0))
                && (b is None ==> self.jsonl is None || a is Some && !a->0.partial),
    {
        let first = match &self.sqlite {
            Some(sqlite) => Some(sqlite.recent_decisions(limit)),
            None => None,
        };
        let complete_first = match &first {
            Some(r) => !r.partial,
            None => false,
        };
        let second = if complete_first {
            None
        } else {
            match &self.jsonl {
                Some(jsonl) => Some(jsonl.recent_decisions(limit)),
                None => None,
            }
        };
        prefer_complete(first, second)
    }

    fn pressure_history(&self, mount: &str, since: &str, limit: usize) -> (r: TelemetryResult<
        Vec<PressurePoint>,
    >)
        ensures
            exists|a: Option<TelemetryResult<Vec<PressurePoint>>>,
                b: Option<TelemetryResult<Vec<PressurePoint>>>| #[trigger] preferred(a, b, r)
                && (a is Some <==> self.sqlite is Some) && (b is Some ==> self.jsonl is Some)
                && (a is Some ==> call_ensures(
                S::pressure_history,
                (&self.sqlite->0, mount, since, limit),
                a->0,
            )) && (b is Some ==> call_ensures(
                J::pressure_history,
                (&self.jsonl->0, mount, since, limit),
                b->0,
            )) && (b is None ==> self.jsonl is None || a is Some && !a->0.partial),
    {
        let first = match &self.sqlite {
            Some(sqlite) => Some(sqlite.pressure_history(mount, since, limit)),
            None => None,
        };
        let complete_first = match &first {
            Some(r) => !r.partial,
            None => false,
        };
        let second = if complete_first {
            None
        } else {
            match &self.jsonl {
                Some(jsonl) => Some(jsonl.pressure_history(mount, since, limit)),
                None => None,
            }
        };
        prefer_complete(first, second)
    }

    fn health(&self) -> (h: TelemetryHealth)
        ensures
            self.sqlite is None ==> h.sqlite == BackendHealth::Unavailable,
            self.jsonl is None ==> h.jsonl == BackendHealth::Unavailable,
            self.sqlite is Some ==> exists|b: TelemetryHealth| #[trigger]
                call_ensures(S::health, (&self.sqlite->0,), b) && h.sqlite == b.sqlite,
            self.jsonl is Some ==> exists|b: TelemetryHealth| #[trigger]
                call_ensures(J::health, (&self.jsonl->0,), b) && h.jsonl == b.jsonl,
            h.diagnostics@ == (if h.has_backend() {
                Seq::empty()
            } else {
                "no telemetry backend available"@
            }),
    {
        let sqlite = match &self.sqlite {
            Some(s) => s.health().sqlite,
            None => BackendHealth::Unavailable,
        };
        let jsonl = match &self.jsonl {
            Some(j) => j.health().jsonl,
            None => BackendHealth::Unavailable,
        };
        composite_health(sqlite, jsonl)
    }
}

/// Aggregate health from the health of the two backends.
pub fn composite_health(sqlite: BackendHealth, jsonl: BackendHealth) -> (h: TelemetryHealth)
    ensures
        h.sqlite == sqlite,
        h.jsonl == jsonl,
        h.diagnostics@ == (if sqlite == BackendHealth::Available || jsonl
            == BackendHealth::Available {
            Seq::empty()
        } else {
            "no telemetry backend available"@
        }),
{
    let mut health = TelemetryHealth { sqlite, jsonl, diagnostics: String::new() };
    if !health.any_available() {
        health.diagnostics = "no telemetry backend available".to_owned();
    }
    health
}

/// A complete SQLite answer is handed on as it is, whatever JSONL would say.
pub proof fn law_complete_sqlite_answer_wins<T>(
    sqlite: TelemetryResult<Vec<T>>,
    jsonl: Option<TelemetryResult<Vec<T>>>,
    answer: TelemetryResult<Vec<T>>,
)
    requires
        !sqlite.partial,
        preferred(Some(sqlite), jsonl, answer),
    ensures
        answer == sqlite,
{
}

/// Whether entries stand on lines of a log, each above the one before it.
pub open spec fn newest_first(lines: Seq<LogLine>, entries: Seq<LogEntry>) -> bool {
    exists|at: Seq<int>| #[trigger] read_upwards(lines, entries, at)
}

/// Whether entries stand on the lines at some positions, which only shrink.
pub open spec fn read_upwards(lines: Seq<LogLine>, entries: Seq<LogEntry>, at: Seq<int>) -> bool {
    &&& at.len() == entries.len()
    &&& forall|k: int|
        0 <= k < at.len() ==> 0 <= #[trigger] at[k] < lines.len() && lines[at[k]].entry == Some(
            entries[k],
        )
    &&& forall|i: int, j: int| 0 <= i < j < at.len() ==> at[j] < at[i]
}

proof fn parsed_backwards_upwards(lines: Seq<LogLine>)
    ensures
        newest_first(lines, parsed_backwards(lines)),
    decreases lines.len(),
{
    if lines.len() == 0 {
        assert(read_upwards(lines, parsed_backwards(lines), Seq::<int>::empty()));
    } else {
        let rest = lines.drop_last();
        parsed_backwards_upwards(rest);
        let at = choose|at: Seq<int>| #[trigger] read_upwards(rest, parsed_backwards(rest), at);
        if lines.last().entry is Some {
            assert(read_upwards(lines, parsed_backwards(lines), seq![lines.len() - 1] + at));
        } else {
            assert(parsed_backwards(lines) =~= parsed_backwards(rest));
            assert(read_upwards(lines, parsed_backwards(lines), at));
        }
    }
}

proof fn upwards_in_more_lines(lines: Seq<LogLine>, part: Seq<LogLine>, entries: Seq<LogEntry>)
    requires
        newest_first(part, entries),
        subsequence(part, lines),
    ensures
        newest_first(lines, entries),
{
    let at = choose|at: Seq<int>| #[trigger] read_upwards(part, entries, at);
    let to = choose|to: Seq<int>| ascending(to) && #[trigger] picked_at(part, lines, to);
    let there = Seq::new(at.len(), |k: int| to[at[k]]);
    assert forall|k: int| 0 <= k < there.len() implies 0 <= #[trigger] there[k] < lines.len()
        && lines[there[k]].entry == Some(entries[k]) by {
        assert(0 <= at[k] < part.len());
    }
    assert forall|i: int, j: int| 0 <= i < j < there.len() implies there[j] < there[i] by {
        assert(0 <= at[j] < at[i] < part.len());
    }
    assert(read_upwards(lines, entries, there));
}

proof fn fewer_entries_upwards(lines: Seq<LogLine>, entries: Seq<LogEntry>, part: Seq<LogEntry>)
    requires
        newest_first(lines, entries),
        subsequence(part, entries),
    ensures
        newest_first(lines, part),
{
    let at = choose|at: Seq<int>| #[trigger] read_upwards(lines, entries, at);
    let from = choose|from: Seq<int>| ascending(from) && #[trigger] picked_at(part, entries, from);
    let there = Seq::new(from.len(), |k: int| at[from[k]]);
    assert forall|k: int| 0 <= k < there.len() implies 0 <= #[trigger] there[k] < lines.len()
        && lines[there[k]].entry == Some(part[k]) by {
        assert(0 <= from[k] < entries.len());
    }
    assert forall|i: int, j: int| 0 <= i < j < there.len() implies there[j] < there[i] by {
        assert(0 <= from[i] < from[j] < entries.len());
    }
    assert(read_upwards(lines, part, there));
}

proof fn tail_is_newest_first(
    lines: Seq<LogLine>,
    n: nat,
    keep: spec_fn(LogEntry) -> bool,
    limit: nat,
)
    ensures
        newest_first(lines, first_n(tail_entries(lines, n).filter(keep), limit)),
{
    let written = written_lines(lines);
    let tail = last_n(written, n);
    let entries = tail_entries(lines, n);
    let kept = entries.filter(keep);
    parsed_backwards_upwards(tail);
    let from = if written.len() > n {
        written.len() - n
    } else {
        0
    };
    assert(tail =~= written.subrange(from, written.len() as int));
    law_stretch_is_subsequence(written, from, written.len() as int);
    upwards_in_more_lines(written, tail, entries);
    law_filter_is_subsequence(lines, |l: LogLine| crate::text::trimmed(l.text@).len() > 0);
    upwards_in_more_lines(lines, written, entries);
    law_filter_is_subsequence(entries, keep);
    fewer_entries_upwards(lines, entries, kept);
    let to = if kept.len() > limit {
        limit as int
    } else {
        kept.len() as int
    };
    assert(first_n(kept, limit) =~= kept.subrange(0, to));
    law_stretch_is_subsequence(kept, 0, to);
    fewer_entries_upwards(lines, kept, first_n(kept, limit));
}

/// A JSON-lines query answers newest first: every entry stands further up in
/// the log than the one before it in the answer.
pub proof fn law_log_queries_answer_newest_first(
    lines: Seq<LogLine>,
    limit: nat,
    filter: EventFilter,
    mount: Seq<char>,
)
    ensures
        newest_first(lines, selected_entries(lines, limit, filter)),
        newest_first(lines, deletion_entries(lines, limit)),
        newest_first(lines, pressure_entries(lines, mount, limit)),
{
    let read = if filter.unrestricted() {
        limit
    } else {
        4 * limit
    };
    tail_is_newest_first(
        lines,
        read,
        |e: LogEntry| filter.accepts(severity_label(e.severity), e.event@),
        limit,
    );
    tail_is_newest_first(
        lines,
        4 * limit,
        |e: LogEntry| e.event@ == "artifact_delete"@,
        limit,
    );
    tail_is_newest_first(lines, 4 * limit, |e: LogEntry| pressure_on(e, mount), limit);
}

/// A JSON-lines query returns at most as many entries as were asked for.
pub proof fn law_log_queries_respect_limit(
    lines: Seq<LogLine>,
    limit: nat,
    filter: EventFilter,
    mount: Seq<char>,
)
    ensures
        selected_entries(lines, limit, filter).len() <= limit,
        deletion_entries(lines, limit).len() <= limit,
        pressure_entries(lines, mount, limit).len() <= limit,
{
}

/// Every entry an event query selects passes the filter.
pub proof fn law_selected_entries_pass_filter(
    lines: Seq<LogLine>,
    limit: nat,
    filter: EventFilter,
    i: int,
)
    requires
        0 <= i < selected_entries(lines, limit, filter).len(),
    ensures
        ({
            let e = selected_entries(lines, limit, filter)[i];
            filter.accepts(severity_label(e.severity), e.event@)
        }),
{
    let read = if filter.unrestricted() {
        limit
    } else {
        4 * limit
    };
    let keep = |e: LogEntry| filter.accepts(severity_label(e.severity), e.event@);
    let kept = tail_entries(lines, read).filter(keep);
    tail_entries(lines, read).lemma_filter_pred(keep, i);
    assert(selected_entries(lines, limit, filter)[i] == kept[i]);
    assert(keep(kept[i]));
}

/// A partial SQLite answer is replaced by the JSONL answer where there is one.
pub proof fn law_partial_sqlite_answer_falls_back<T>(
    sqlite: Option<TelemetryResult<Vec<T>>>,
    jsonl: TelemetryResult<Vec<T>>,
    answer: TelemetryResult<Vec<T>>,
)
    requires
        sqlite is Some ==> sqlite->0.partial,
        preferred(sqlite, Some(jsonl), answer),
    ensures
        answer.data == jsonl.data,
        answer.source == jsonl.source,
        answer.partial == jsonl.partial,
        answer.diagnostics == jsonl.diagnostics,
{
}

/// Without a complete SQLite answer and without JSONL there are no rows, and the answer
/// names no backend.
pub proof fn law_no_answer_without_backend<T>(
    sqlite: Option<TelemetryResult<Vec<T>>>,
    answer: TelemetryResult<Vec<T>>,
)
    requires
        sqlite is Some ==> sqlite->0.partial,
        preferred(sqlite, None, answer),
    ensures
        answer.data@.len() == 0,
        answer.source == DataSource::Absent,
        answer.partial,
        answer.diagnostics@ == "no telemetry backend available"@,
{
}

/// Rows come from the backend that the answer names: an answer of the composite is one
/// of its backends' answers, or empty.
pub proof fn law_answer_comes_from_a_backend<T>(
    sqlite: Option<TelemetryResult<Vec<T>>>,
    jsonl: Option<TelemetryResult<Vec<T>>>,
    answer: TelemetryResult<Vec<T>>,
)
    requires
        preferred(sqlite, jsonl, answer),
        answer.data@.len() > 0,
    ensures
        sqlite == Some(answer) && !answer.partial || jsonl == Some(answer),
{
}

proof fn parsed_backwards_is_complete(lines: Seq<LogLine>, i: int)
    requires
        0 <= i < lines.len(),
        lines[i].entry is Some,
    ensures
        parsed_backwards(lines).contains(lines[i].entry->0),
    decreases lines.len(),
{
    let rest = lines.drop_last();
    let more = match lines.last().entry {
        Some(entry) => seq![entry],
        None => seq![],
    };
    if i < lines.len() - 1 {
        parsed_backwards_is_complete(rest, i);
        let k = choose|k: int|
            0 <= k < parsed_backwards(rest).len() && parsed_backwards(rest)[k]
                == lines[i].entry->0;
        assert(parsed_backwards(lines)[more.len() + k] == lines[i].entry->0);
    } else {
        assert(parsed_backwards(lines)[0] == lines[i].entry->0);
    }
}

proof fn written_line_is_near_the_end(lines: Seq<LogLine>, i: int)
    requires
        0 <= i < lines.len(),
        crate::text::trimmed(lines[i].text@).len() > 0,
    ensures
        exists|k: int|
            0 <= k < written_lines(lines).len() && written_lines(lines).len() - k <= lines.len() - i
                && #[trigger] written_lines(lines)[k] == lines[i],
    decreases lines.len(),
{
    reveal(Seq::filter);
    let keep = |l: LogLine| crate::text::trimmed(l.text@).len() > 0;
    let rest = lines.drop_last();
    assert(written_lines(lines) == if keep(lines.last()) {
        written_lines(rest).push(lines.last())
    } else {
        written_lines(rest)
    });
    if i < lines.len() - 1 {
        written_line_is_near_the_end(rest, i);
        let k = choose|k: int|
            0 <= k < written_lines(rest).len() && written_lines(rest).len() - k <= rest.len() - i
                && #[trigger] written_lines(rest)[k] == rest[i];
        assert(written_lines(lines)[k] == lines[i]);
    } else {
        assert(written_lines(lines)[written_lines(lines).len() - 1] == lines[i]);
    }
}

proof fn tail_holds_late_entries(lines: Seq<LogLine>, n: nat, i: int)
    requires
        0 <= i < lines.len(),
        lines.len() - i <= n,
        crate::text::trimmed(lines[i].text@).len() > 0,
        lines[i].entry is Some,
    ensures
        tail_entries(lines, n).contains(lines[i].entry->0),
{
    written_line_is_near_the_end(lines, i);
    let written = written_lines(lines);
    let k = choose|k: int|
        0 <= k < written.len() && written.len() - k <= lines.len() - i && #[trigger] written[k]
            == lines[i];
    let tail = last_n(written, n);
    let from = if written.len() > n {
        written.len() - n
    } else {
        0
    };
    assert(tail[k - from] == lines[i]);
    parsed_backwards_is_complete(tail, k - from);
}

proof fn late_wanted_entry_is_picked(
    lines: Seq<LogLine>,
    n: nat,
    keep: spec_fn(LogEntry) -> bool,
    limit: nat,
    i: int,
)
    requires
        0 <= i < lines.len(),
        lines.len() - i <= n,
        crate::text::trimmed(lines[i].text@).len() > 0,
        lines[i].entry is Some,
        keep(lines[i].entry->0),
    ensures
        ({
            let picked = first_n(tail_entries(lines, n).filter(keep), limit);
            picked.contains(lines[i].entry->0) || picked.len() == limit
        }),
{
    tail_holds_late_entries(lines, n, i);
    let all = tail_entries(lines, n);
    let k = choose|k: int| 0 <= k < all.len() && all[k] == lines[i].entry->0;
    all.lemma_filter_contains(keep, k);
}

/// A JSON-lines event query misses nothing: an entry that passes the filter and stands
/// among the lines read is in the answer, unless the answer is as long as asked for.
/// Without a filter as many lines are read as asked for, else four times as many.
pub proof fn law_event_query_misses_nothing(
    lines: Seq<LogLine>,
    limit: nat,
    filter: EventFilter,
    i: int,
)
    requires
        0 <= i < lines.len(),
        lines.len() - i <= limit || !filter.unrestricted() && lines.len() - i <= 4 * limit,
        crate::text::trimmed(lines[i].text@).len() > 0,
        lines[i].entry is Some,
        filter.severities@.len() == 0 || lists(
            filter.severities@,
            severity_label(lines[i].entry->0.severity),
        ),
        filter.event_types@.len() == 0 || lists(filter.event_types@, lines[i].entry->0.event@),
    ensures
        selected_entries(lines, limit, filter).contains(lines[i].entry->0) || selected_entries(
            lines,
            limit,
            filter,
        ).len() == limit,
{
    let keep = |e: LogEntry| filter.accepts(severity_label(e.severity), e.event@);
    late_wanted_entry_is_picked(
        lines,
        if filter.unrestricted() {
            limit
        } else {
            4 * limit
        },
        keep,
        limit,
        i,
    );
}

/// A JSON-lines decision query answers with deletions and misses none of those among the
/// lines read, unless the answer is as long as asked for.
pub proof fn law_decision_query_answers_deletions(lines: Seq<LogLine>, limit: nat, i: int)
    requires
        0 <= i < lines.len(),
        lines.len() - i <= 4 * limit,
        crate::text::trimmed(lines[i].text@).len() > 0,
        lines[i].entry is Some,
    ensures
        lines[i].entry->0.event@ == "artifact_delete"@ ==> deletion_entries(lines, limit).contains(
            lines[i].entry->0,
        ) || deletion_entries(lines, limit).len() == limit,
        forall|k: int|
            0 <= k < deletion_entries(lines, limit).len() ==> (#[trigger] deletion_entries(
                lines,
                limit,
            )[k]).event@ == "artifact_delete"@,
{
    let keep = |e: LogEntry| e.event@ == "artifact_delete"@;
    if keep(lines[i].entry->0) {
        late_wanted_entry_is_picked(lines, 4 * limit, keep, limit, i);
    }
    assert forall|k: int| 0 <= k < deletion_entries(lines, limit).len() implies (
    #[trigger] deletion_entries(lines, limit)[k]).event@ == "artifact_delete"@ by {
        let kept = tail_entries(lines, 4 * limit).filter(keep);
        tail_entries(lines, 4 * limit).lemma_filter_pred(keep, k);
        assert(keep(kept[k]));
    }
}

/// A JSON-lines pressure query answers with pressure changes of the mount asked for and
/// misses none of those among the lines read, unless the answer is as long as asked for.
pub proof fn law_pressure_query_answers_for_the_mount(
    lines: Seq<LogLine>,
    mount: Seq<char>,
    limit: nat,
    i: int,
)
    requires
        0 <= i < lines.len(),
        lines.len() - i <= 4 * limit,
        crate::text::trimmed(lines[i].text@).len() > 0,
        lines[i].entry is Some,
    ensures
        lines[i].entry->0.event@ == "pressure_change"@ && lines[i].entry->0.mount_point is Some
            && lines[i].entry->0.mount_point->0@ == mount ==> pressure_entries(
            lines,
            mount,
            limit,
        ).contains(lines[i].entry->0) || pressure_entries(lines, mount, limit).len() == limit,
        forall|k: int|
            0 <= k < pressure_entries(lines, mount, limit).len() ==> {
                let e = #[trigger] pressure_entries(lines, mount, limit)[k];
                e.event@ == "pressure_change"@ && e.mount_point is Some && e.mount_point->0@
                    == mount
            },
{
    let keep = |e: LogEntry| pressure_on(e, mount);
    if keep(lines[i].entry->0) {
        late_wanted_entry_is_picked(lines, 4 * limit, keep, limit, i);
    }
    assert forall|k: int| 0 <= k < pressure_entries(lines, mount, limit).len() implies {
        let e = #[trigger] pressure_entries(lines, mount, limit)[k];
        e.event@ == "pressure_change"@ && e.mount_point is Some && e.mount_point->0@ == mount
    } by {
        let kept = tail_entries(lines, 4 * limit).filter(keep);
        tail_entries(lines, 4 * limit).lemma_filter_pred(keep, k);
        assert(keep(kept[k]));
    }
}

/// The newest line comes first: where it is wanted, it heads the answer of an event query.
pub proof fn law_newest_event_heads_the_answer(
    lines: Seq<LogLine>,
    line: LogLine,
    limit: nat,
    filter: EventFilter,
)
    requires
        limit > 0,
        crate::text::trimmed(line.text@).len() > 0,
        line.entry is Some,
        filter.accepts(severity_label(line.entry->0.severity), line.entry->0.event@),
    ensures
        selected_entries(lines.push(line), limit, filter).len() > 0,
        selected_entries(lines.push(line), limit, filter)[0] == line.entry->0,
{
    reveal(Seq::filter);
    let keep = |e: LogEntry| filter.accepts(severity_label(e.severity), e.event@);
    let all = lines.push(line);
    let read: nat = if filter.unrestricted() {
        limit
    } else {
        4 * limit
    };
    assert(all.drop_last() =~= lines);
    assert(written_lines(all) == written_lines(lines).push(line));
    let tail = last_n(written_lines(all), read);
    assert(tail.last() == line);
    let entries = tail_entries(all, read);
    assert(entries[0] == line.entry->0);
    first_kept_stays_first(entries, keep);
}

proof fn first_kept_stays_first(entries: Seq<LogEntry>, keep: spec_fn(LogEntry) -> bool)
    requires
        entries.len() > 0,
        keep(entries[0]),
    ensures
        entries.filter(keep).len() > 0,
        entries.filter(keep)[0] == entries[0],
    decreases entries.len(),
{
    reveal(Seq::filter);
    if entries.len() > 1 {
        first_kept_stays_first(entries.drop_last(), keep);
    } else {
        assert(entries.drop_last().filter(keep) =~= seq![]);
    }
}

/// Different severities have different labels.
pub proof fn law_severity_labels_differ(a: Severity, b: Severity)
    requires
        severity_label(a) == severity_label(b),
    ensures
        a == b,
{
    reveal_strlit("info");
    reveal_strlit("warning");
    reveal_strlit("critical");
    assert("info"@.len() == 4 && "warning"@.len() == 7 && "critical"@.len() == 8);
    assert(severity_label(a).len() == severity_label(b).len());
}

/// A timeline event says what its log entry says, field by field.
pub proof fn law_event_keeps_the_entry(entry: LogEntry, event: TimelineEvent)
    requires
        call_ensures(logentry_to_timeline, (&entry,), event),
    ensures
        event.timestamp == entry.ts,
        event.event_type == entry.event,
        event.severity@ == severity_label(entry.severity),
        event.path == entry.path,
        event.size_bytes == entry.size,
        event.score == entry.score,
        event.pressure_level == entry.pressure,
        event.free_pct == entry.free_pct,
        event.success == entry.ok,
        event.error_code == entry.error_code,
        event.error_message == entry.error_message,
        event.duration_ms == entry.duration_ms,
        event.details == entry.details,
{
}

/// The two backends tell the same activity alike: a database row and a log entry that say
/// the same give the same event.
pub proof fn law_backends_tell_events_alike(
    row: ActivityRow,
    entry: LogEntry,
    a: TimelineEvent,
    b: TimelineEvent,
)
    requires
        call_ensures(activity_row_to_event, (row,), a),
        call_ensures(logentry_to_timeline, (&entry,), b),
        row.timestamp == entry.ts,
        row.event_type == entry.event,
        row.severity@ == severity_label(entry.severity),
        row.path == entry.path,
        row.size_bytes is Some == entry.size is Some,
        row.size_bytes is Some ==> row.size_bytes->0 == entry.size->0,
        row.score == entry.score,
        row.pressure_level == entry.pressure,
        row.free_pct == entry.free_pct,
        row.duration_ms is Some == entry.duration_ms is Some,
        row.duration_ms is Some ==> row.duration_ms->0 == entry.duration_ms->0,
        entry.ok == Some(row.success != 0),
        row.error_code == entry.error_code,
        row.error_message == entry.error_message,
        row.details == entry.details,
    ensures
        a.timestamp == b.timestamp,
        a.event_type == b.event_type,
        a.severity@ == b.severity@,
        a.path == b.path,
        a.size_bytes == b.size_bytes,
        a.score == b.score,
        a.pressure_level == b.pressure_level,
        a.free_pct == b.free_pct,
        a.success == b.success,
        a.error_code == b.error_code,
        a.error_message == b.error_message,
        a.duration_ms == b.duration_ms,
        a.details == b.details,
{
}

/// A negative quantity in the database counts as zero, and every other one as it is.
pub proof fn law_quantities_are_not_negative(v: Option<i64>)
    ensures
        clamped(v) is Some == v is Some,
        v is Some && v->0 >= 0 ==> clamped(v)->0 == v->0,
        v is Some && v->0 < 0 ==> clamped(v)->0 == 0,
{
}

/// A decision record made from an event keeps its time, path, size and score, and calls it
/// a deletion exactly where the event succeeded.
pub proof fn law_evidence_keeps_the_event(id: u64, ev: TimelineEvent, d: DecisionEvidence)
    requires
        call_ensures(timeline_to_evidence, (id, &ev), d),
    ensures
        d.decision_id == id,
        d.timestamp == ev.timestamp,
        ev.path is Some ==> d.path@ == ev.path->0@,
        ev.path is None ==> d.path@.len() == 0,
        ev.size_bytes is Some ==> d.size_bytes == ev.size_bytes->0,
        ev.size_bytes is None ==> d.size_bytes == 0,
        ev.score is Some ==> d.total_score == ev.score->0,
        ev.details is Some ==> d.summary@ == ev.details->0@,
        d.action@ == "delete"@ <==> ev.success == Some(true),
        d.action@ == "keep"@ <==> ev.success != Some(true),
        !d.vetoed,
{
    reveal_strlit("delete");
    reveal_strlit("keep");
    assert("delete"@.len() == 6 && "keep"@.len() == 4);
}

/// Decision records of a list are numbered from zero in the order of the events, each made
/// from its own event.
pub proof fn law_evidence_is_numbered_in_order(
    events: Vec<TimelineEvent>,
    evidence: Vec<DecisionEvidence>,
    i: int,
)
    requires
        call_ensures(events_to_evidence, (&events,), evidence),
        0 <= i < events@.len() <= u64::MAX,
    ensures
        evidence@.len() == events@.len(),
        evidence@[i].decision_id == i,
        evidence@[i].timestamp == events@[i].timestamp,
        evidence@[i].path@ == text_or_empty(events@[i].path),
{
    assert(evidences(i as u64, events@[i], evidence@[i]));
}

/// A pressure sample keeps the time, level, percentage and rate of its entry.
pub proof fn law_sample_keeps_the_entry(entry: LogEntry, point: PressurePoint)
    requires
        samples(entry, point),
    ensures
        point.timestamp == entry.ts,
        entry.mount_point is Some ==> point.mount_point@ == entry.mount_point->0@,
        entry.pressure is Some ==> point.pressure_level@ == entry.pressure->0@,
        entry.free_pct is Some ==> point.free_pct == entry.free_pct->0,
        point.ewma_rate == entry.rate_bps,
        point.pid_output is None,
{
}

/// The outcome of a database query is told truthfully: rows come complete and without
/// diagnostics, a failure comes empty, partial and with the driver's own words at the end.
pub proof fn law_database_outcome_is_told<T>(
    outcome: Result<Vec<T>, String>,
    failure: &str,
    r: TelemetryResult<Vec<T>>,
)
    requires
        call_ensures(sqlite_result::<T>, (outcome, failure), r),
    ensures
        r.source == DataSource::Sqlite,
        outcome is Ok ==> r.data == outcome->Ok_0 && !r.partial && r.diagnostics@.len() == 0,
        outcome is Err ==> r.data@.len() == 0 && r.partial && r.diagnostics@.len()
            > outcome->Err_0@.len() && r.diagnostics@.skip(
            r.diagnostics@.len() - outcome->Err_0@.len(),
        ) == outcome->Err_0@ && r.diagnostics@.take(failure@.len() as int) == failure@,
{
    if outcome is Err {
        reveal_strlit(": ");
        let words = outcome->Err_0@;
        assert(r.diagnostics@.skip(r.diagnostics@.len() - words.len()) =~= words);
        assert(r.diagnostics@.take(failure@.len() as int) =~= failure@);
    }
}

/// A list of placeholders goes on where a shorter one ends.
pub proof fn law_placeholders_go_on(first: nat, n: nat, m: nat)
    requires
        n > 0,
        m > 0,
    ensures
        placeholders(first, n + m) == placeholders(first, n) + ","@ + placeholders(first + n, m),
        placeholders(first, 1) == "?"@ + crate::text::dec(first),
    decreases m,
{
    reveal_strlit(",?");
    reveal_strlit(",");
    reveal_strlit("?");
    assert(",?"@ =~= ","@ + "?"@);
    if m > 1 {
        law_placeholders_go_on(first, n, (m - 1) as nat);
        let last = ",?"@ + crate::text::dec((first + n + m - 1) as nat);
        assert(placeholders(first, n + m) =~= placeholders(first, (n + m - 1) as nat) + last);
        assert(placeholders(first + n, m) =~= placeholders(first + n, (m - 1) as nat) + last);
        assert(placeholders(first, n + m) =~= placeholders(first, n) + ","@ + placeholders(
            first + n,
            m,
        ));
    } else {
        assert(placeholders(first, n + m) =~= placeholders(first, n) + ","@ + placeholders(
            first + n,
            1,
        ));
    }
}

/// An activity query binds the severities, then the event types, then the limit, and its
/// text asks for just these: the severity condition counts its placeholders from one, the
/// event type condition goes on behind them, and the limit comes last, newest rows first.
pub proof fn law_activity_query_binds_its_filter(limit: usize, filter: EventFilter, query: SqlQuery)
    requires
        call_ensures(activity_query, (limit, &filter), query),
        filter.severities@.len() + filter.event_types@.len() + 1 <= usize::MAX,
    ensures
        ({
            let (s, e) = (filter.severities@.len(), filter.event_types@.len());
            &&& query.params@.len() == s + e + 1
            &&& forall|i: int|
                0 <= i < s ==> #[trigger] query.params@[i] == SqlParam::Text(filter.severities@[i])
            &&& forall|i: int|
                0 <= i < e ==> #[trigger] query.params@[s + i] == SqlParam::Text(
                    filter.event_types@[i],
                )
            &&& query.params@[(s + e) as int] == SqlParam::Int(limit as i64)
            &&& s > 0 ==> crate::text::contains_text(
                query.text@,
                "severity IN ("@ + placeholders(1, s) + ")"@,
            )
            &&& e > 0 ==> crate::text::contains_text(
                query.text@,
                "event_type IN ("@ + placeholders(s + 1, e) + ")"@,
            )
            &&& crate::text::contains_text(
                query.text@,
                " ORDER BY id DESC LIMIT ?"@ + crate::text::dec(s + e + 1),
            )
        }),
{
    let (s, e) = (filter.severities@.len(), filter.event_types@.len());
    let f = |t: String| SqlParam::Text(t);
    assert forall|i: int| 0 <= i < e implies #[trigger] query.params@[s + i] == SqlParam::Text(
        filter.event_types@[i],
    ) by {
        assert(filter.event_types@.map_values(f)[i] == SqlParam::Text(filter.event_types@[i]));
    }
    reveal_strlit(" WHERE severity IN (");
    reveal_strlit("severity IN (");
    reveal_strlit(") AND event_type IN (");
    reveal_strlit(" WHERE event_type IN (");
    reveal_strlit("event_type IN (");
    reveal_strlit(")");
    let text = query.text@;
    let head = activity_select().len() as int;
    let clause = activity_where(s, e);
    let tail = " ORDER BY id DESC LIMIT ?"@ + crate::text::dec(s + e + 1);
    let at = head + clause.len();
    assert(text.subrange(at, at + tail.len()) =~= tail);
    assert(crate::text::stands_at(text, tail, at));
    if s > 0 {
        let part = "severity IN ("@ + placeholders(1, s) + ")"@;
        assert(text.subrange(head + 7, head + 7 + part.len()) =~= part);
        assert(crate::text::stands_at(text, part, head + 7));
    }
    if e > 0 {
        let part = "event_type IN ("@ + placeholders(s + 1, e) + ")"@;
        let from = if s > 0 {
            head + 20 + placeholders(1, s).len() + 6
        } else {
            head + 7
        };
        assert(text.subrange(from, from + part.len()) =~= part);
        assert(crate::text::stands_at(text, part, from));
    }
}

/// A pressure query compares the mount with the mount column and the time with the time
/// column, and asks for the newest rows up to the limit.
#[verifier::rlimit(50)]
pub proof fn law_pressure_query_binds_its_columns(
    mount: &str,
    since: &str,
    limit: usize,
    query: SqlQuery,
)
    requires
        call_ensures(pressure_query, (mount, since, limit), query),
    ensures
        query.params@.len() == 3,
        query.params@[0] is Text && query.params@[0]->Text_0@ == mount@,
        query.params@[1] is Text && query.params@[1]->Text_0@ == since@,
        query.params@[2] == SqlParam::Int(limit as i64),
        crate::text::contains_text(query.text@, "mount_point = ?1"@),
        crate::text::contains_text(query.text@, "timestamp >= ?2"@),
        crate::text::contains_text(query.text@, "ORDER BY id DESC"@),
        crate::text::contains_text(query.text@, "LIMIT ?3"@),
{
    reveal_strlit("SELECT timestamp, mount_point, free_pct, pressure_level, ewma_rate, pid_output
             FROM pressure_history
             WHERE mount_point = ?1 AND timestamp >= ?2
             ORDER BY id DESC LIMIT ?3");
    reveal_strlit("mount_point = ?1");
    reveal_strlit("timestamp >= ?2");
    reveal_strlit("ORDER BY id DESC");
    reveal_strlit("LIMIT ?3");
    let text = query.text@;
    assert(text.subrange(133, 149) =~= "mount_point = ?1"@);
    assert(text.subrange(154, 169) =~= "timestamp >= ?2"@);
    assert(text.subrange(183, 199) =~= "ORDER BY id DESC"@);
    assert(text.subrange(200, 208) =~= "LIMIT ?3"@);
    assert(crate::text::stands_at(text, "mount_point = ?1"@, 133));
    assert(crate::text::stands_at(text, "timestamp >= ?2"@, 154));
    assert(crate::text::stands_at(text, "ORDER BY id DESC"@, 183));
    assert(crate::text::stands_at(text, "LIMIT ?3"@, 200));
}

/// The last elements of a sequence are its end, and the first ones its start; nothing is
/// cut where there is room.
pub proof fn law_ends_of_sequences<T>(s: Seq<T>, n: nat, i: int)
    requires
        0 <= i < s.len(),
    ensures
        last_n(s, n).len() == if s.len() < n {
            s.len()
        } else {
            n
        },
        first_n(s, n).len() == last_n(s, n).len(),
        i < first_n(s, n).len() ==> first_n(s, n)[i] == s[i],
        i >= s.len() - last_n(s, n).len() ==> last_n(s, n)[i - s.len() + last_n(s, n).len()]
            == s[i],
{
}

/// The choice between two answers is made as the answers are: a complete one of the
/// database stands, any other gives way to that of the log.
pub proof fn law_choice_between_answers<T>(
    sqlite: Option<TelemetryResult<Vec<T>>>,
    jsonl: Option<TelemetryResult<Vec<T>>>,
    answer: TelemetryResult<Vec<T>>,
)
    requires
        call_ensures(prefer_complete::<T>, (sqlite, jsonl), answer),
    ensures
        sqlite is Some && !sqlite->0.partial ==> answer == sqlite->0,
        jsonl is Some && (sqlite is None || sqlite->0.partial) ==> answer == jsonl->0,
        jsonl is None && (sqlite is None || sqlite->0.partial) ==> answer.data@.len() == 0
            && answer.source == DataSource::Absent && answer.partial,
{
}

/// Where the database answers a query for events in part only or is not there, the answer
/// is one of the log; where it always answers in full, it is one of the database.
pub proof fn law_composite_recent_events_answer<S: TelemetryQueryAdapter, J: TelemetryQueryAdapter>(
    c: CompositeTelemetryAdapter<S, J>,
    limit: usize,
    filter: &EventFilter,
    answer: TelemetryResult<Vec<TimelineEvent>>,
)
    requires
        call_ensures(
            <CompositeTelemetryAdapter<S, J> as TelemetryQueryAdapter>::recent_events,
            (&c, limit, filter),
            answer,
        ),
    ensures
        c.jsonl is Some && (c.sqlite is None || forall|a: TelemetryResult<Vec<TimelineEvent>>| #[trigger]
            call_ensures(S::recent_events, (&c.sqlite->0, limit, filter), a) ==> a.partial) ==> call_ensures(
            J::recent_events,
            (&c.jsonl->0, limit, filter),
            answer,
        ),
        c.sqlite is Some && (forall|a: TelemetryResult<Vec<TimelineEvent>>| #[trigger]
            call_ensures(S::recent_events, (&c.sqlite->0, limit, filter), a) ==> !a.partial) ==> call_ensures(
            S::recent_events,
            (&c.sqlite->0, limit, filter),
            answer,
        ),
        c.sqlite is None && c.jsonl is None ==> answer.data@.len() == 0 && answer.source
            == DataSource::Absent && answer.partial,
{
}

/// Where the database answers a query for decisions in part only or is not there, the answer
/// is one of the log; where it always answers in full, it is one of the database.
pub proof fn law_composite_recent_decisions_answer<S: TelemetryQueryAdapter, J: TelemetryQueryAdapter>(
    c: CompositeTelemetryAdapter<S, J>,
    limit: usize,
    answer: TelemetryResult<Vec<DecisionEvidence>>,
)
    requires
        call_ensures(
            <CompositeTelemetryAdapter<S, J> as TelemetryQueryAdapter>::recent_decisions,
            (&c, limit),
            answer,
        ),
    ensures
        c.jsonl is Some && (c.sqlite is None || forall|a: TelemetryResult<Vec<DecisionEvidence>>| #[trigger]
            call_ensures(S::recent_decisions, (&c.sqlite->0, limit), a) ==> a.partial) ==> call_ensures(
            J::recent_decisions,
            (&c.jsonl->0, limit),
            answer,
        ),
        c.sqlite is Some && (forall|a: TelemetryResult<Vec<DecisionEvidence>>| #[trigger]
            call_ensures(S::recent_decisions, (&c.sqlite->0, limit), a) ==> !a.partial) ==> call_ensures(
            S::recent_decisions,
            (&c.sqlite->0, limit),
            answer,
        ),
        c.sqlite is None && c.jsonl is None ==> answer.data@.len() == 0 && answer.source
            == DataSource::Absent && answer.partial,
{
}

/// Where the database answers a query for pressure in part only or is not there, the answer
/// is one of the log; where it always answers in full, it is one of the database.
pub proof fn law_composite_pressure_history_answer<S: TelemetryQueryAdapter, J: TelemetryQueryAdapter>(
    c: CompositeTelemetryAdapter<S, J>,
    mount: &str,
    since: &str,
    limit: usize,
    answer: TelemetryResult<Vec<PressurePoint>>,
)
    requires
        call_ensures(
            <CompositeTelemetryAdapter<S, J> as TelemetryQueryAdapter>::pressure_history,
            (&c, mount, since, limit),
            answer,
        ),
    ensures
        c.jsonl is Some && (c.sqlite is None || forall|a: TelemetryResult<Vec<PressurePoint>>| #[trigger]
            call_ensures(S::pressure_history, (&c.sqlite->0, mount, since, limit), a) ==> a.partial) ==> call_ensures(
            J::pressure_history,
            (&c.jsonl->0, mount, since, limit),
            answer,
        ),
        c.sqlite is Some && (forall|a: TelemetryResult<Vec<PressurePoint>>| #[trigger]
            call_ensures(S::pressure_history, (&c.sqlite->0, mount, since, limit), a) ==> !a.partial) ==> call_ensures(
            S::pressure_history,
            (&c.sqlite->0, mount, since, limit),
            answer,
        ),
        c.sqlite is None && c.jsonl is None ==> answer.data@.len() == 0 && answer.source
            == DataSource::Absent && answer.partial,
{
}

/// The health of a pair of backends is that of each; without a healthy one it says so.
pub proof fn law_composite_health_is_that_of_its_backends(
    sqlite: BackendHealth,
    jsonl: BackendHealth,
    h: TelemetryHealth,
)
    requires
        call_ensures(composite_health, (sqlite, jsonl), h),
    ensures
        h.sqlite == sqlite,
        h.jsonl == jsonl,
        sqlite == BackendHealth::Available || jsonl == BackendHealth::Available
            <==> h.diagnostics@.len() == 0,
{
    reveal_strlit("no telemetry backend available");
}

/// The database is available where its probe went well and degraded otherwise, which is
/// told; it speaks for no log.
pub proof fn law_database_health_follows_its_probe(probe_ok: bool, h: TelemetryHealth)
    requires
        call_ensures(sqlite_health, (probe_ok,), h),
    ensures
        probe_ok <==> h.sqlite == BackendHealth::Available,
        !probe_ok <==> h.sqlite == BackendHealth::Degraded,
        probe_ok <==> h.diagnostics@.len() == 0,
        h.jsonl == BackendHealth::Unavailable,
{
    reveal_strlit("SQLite read connection unhealthy");
}

/// The log is available exactly where its file was found, and its health names the file
/// that was not.
pub proof fn law_log_health_follows_its_file(adapter: JsonlTelemetryAdapter, h: TelemetryHealth)
    requires
        call_ensures(
            <JsonlTelemetryAdapter as TelemetryQueryAdapter>::health,
            (&adapter,),
            h,
        ),
    ensures
        adapter.lines is Some <==> h.jsonl == BackendHealth::Available,
        adapter.lines is None <==> h.jsonl == BackendHealth::Unavailable,
        adapter.lines is Some ==> h.diagnostics@.len() == 0,
        adapter.lines is None ==> h.diagnostics@.skip(h.diagnostics@.len() - adapter.path@.len())
            == adapter.path@ && h.diagnostics@.len() > adapter.path@.len(),
        h.sqlite == BackendHealth::Unavailable,
{
    reveal_strlit("JSONL file not found: ");
}

/// A log is opened exactly where its file was found, with its lines and path.
pub proof fn law_found_log_is_opened(
    path: String,
    lines: Option<Vec<LogLine>>,
    adapter: Option<JsonlTelemetryAdapter>,
)
    requires
        call_ensures(JsonlTelemetryAdapter::open, (path, lines), adapter),
    ensures
        adapter is Some <==> lines is Some,
        adapter is Some ==> adapter->0.lines == lines && adapter->0.path == path,
{
}

/// Decisions are looked for among deletions of any severity.
pub proof fn law_decisions_are_deletions(filter: EventFilter)
    requires
        call_ensures(decision_filter, (), filter),
    ensures
        filter.severities@.len() == 0,
        filter.event_types@.len() == 1,
        filter.event_types@[0]@ == "artifact_delete"@,
{
}

/// Without telemetry every query is answered with nothing from nowhere, and no backend is
/// healthy.
pub proof fn law_null_adapter_answers_nothing(
    a: NullTelemetryAdapter,
    limit: usize,
    filter: &EventFilter,
    mount: &str,
    since: &str,
    events: TelemetryResult<Vec<TimelineEvent>>,
    decisions: TelemetryResult<Vec<DecisionEvidence>>,
    points: TelemetryResult<Vec<PressurePoint>>,
    h: TelemetryHealth,
)
    requires
        call_ensures(
            <NullTelemetryAdapter as TelemetryQueryAdapter>::recent_events,
            (&a, limit, filter),
            events,
        ),
        call_ensures(
            <NullTelemetryAdapter as TelemetryQueryAdapter>::recent_decisions,
            (&a, limit),
            decisions,
        ),
        call_ensures(
            <NullTelemetryAdapter as TelemetryQueryAdapter>::pressure_history,
            (&a, mount, since, limit),
            points,
        ),
        call_ensures(<NullTelemetryAdapter as TelemetryQueryAdapter>::health, (&a,), h),
    ensures
        events.data@.len() == 0 && events.source == DataSource::Absent && events.partial,
        decisions.data@.len() == 0 && decisions.source == DataSource::Absent && decisions.partial,
        points.data@.len() == 0 && points.source == DataSource::Absent && points.partial,
        events.diagnostics@ == h.diagnostics@ && decisions.diagnostics@ == h.diagnostics@
            && points.diagnostics@ == h.diagnostics@,
        h.diagnostics@ == "telemetry not configured"@,
        h.sqlite == BackendHealth::Unavailable && h.jsonl == BackendHealth::Unavailable,
{
}

/// The answers of the log are complete, come from it, and are the selected entries in
/// order.
pub proof fn law_log_answers_are_complete(
    a: JsonlTelemetryAdapter,
    limit: usize,
    filter: &EventFilter,
    mount: &str,
    since: &str,
    events: TelemetryResult<Vec<TimelineEvent>>,
    decisions: TelemetryResult<Vec<DecisionEvidence>>,
    points: TelemetryResult<Vec<PressurePoint>>,
    i: int,
)
    requires
        call_ensures(
            <JsonlTelemetryAdapter as TelemetryQueryAdapter>::recent_events,
            (&a, limit, filter),
            events,
        ),
        call_ensures(
            <JsonlTelemetryAdapter as TelemetryQueryAdapter>::recent_decisions,
            (&a, limit),
            decisions,
        ),
        call_ensures(
            <JsonlTelemetryAdapter as TelemetryQueryAdapter>::pressure_history,
            (&a, mount, since, limit),
            points,
        ),
    ensures
        events.source == DataSource::Jsonl && !events.partial && events.diagnostics@.len() == 0,
        decisions.source == DataSource::Jsonl && !decisions.partial && decisions.diagnostics@.len()
            == 0,
        points.source == DataSource::Jsonl && !points.partial && points.diagnostics@.len() == 0,
        events.data@.len() <= limit,
        decisions.data@.len() <= limit,
        points.data@.len() <= limit,
        0 <= i < events.data@.len() ==> events.data@[i].timestamp == selected_entries(
            a.content(),
            limit as nat,
            *filter,
        )[i].ts && events.data@[i].event_type == selected_entries(
            a.content(),
            limit as nat,
            *filter,
        )[i].event,
        0 <= i < decisions.data@.len() ==> decisions.data@[i].timestamp == deletion_entries(
            a.content(),
            limit as nat,
        )[i].ts,
{
    law_log_queries_respect_limit(a.content(), limit as nat, *filter, mount@);
}

} // verus!
