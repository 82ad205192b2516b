use sbh_tui::double::Double;
use sbh_tui::telemetry::ActivityRow;
use sbh_tui::telemetry::BackendHealth;
use sbh_tui::telemetry::CompositeTelemetryAdapter;
use sbh_tui::telemetry::DataSource;
use sbh_tui::telemetry::DecisionEvidence;
use sbh_tui::telemetry::EventFilter;
use sbh_tui::telemetry::JsonlTelemetryAdapter;
use sbh_tui::telemetry::LogEntry;
use sbh_tui::telemetry::LogLine;
use sbh_tui::telemetry::NullTelemetryAdapter;
use sbh_tui::telemetry::NullTelemetryHook;
use sbh_tui::telemetry::PressurePoint;
use sbh_tui::telemetry::Severity;
use sbh_tui::telemetry::SqlParam;
use sbh_tui::telemetry::SqlQuery;
use sbh_tui::telemetry::TelemetryHealth;
use sbh_tui::telemetry::TelemetryHook;
use sbh_tui::telemetry::TelemetryQueryAdapter;
use sbh_tui::telemetry::TelemetryResult;
use sbh_tui::telemetry::TelemetrySample;
use sbh_tui::telemetry::TimelineEvent;
use sbh_tui::telemetry::activity_query;
use sbh_tui::telemetry::activity_row_to_event;
use sbh_tui::telemetry::decision_filter;
use sbh_tui::telemetry::events_to_evidence;
use sbh_tui::telemetry::logentry_to_timeline;
use sbh_tui::telemetry::pressure_query;
use sbh_tui::telemetry::sqlite_health;
use sbh_tui::telemetry::sqlite_result;
use sbh_tui::telemetry::timeline_to_evidence;

fn d(value: f64) -> Double {
    Double::from_bits(value.to_bits())
}

fn number(value: Option<f64>) -> Option<Double> {
    value.map(d)
}

fn open_log(entries: Vec<LogEntry>) -> JsonlTelemetryAdapter {
    let lines = entries
        .into_iter()
        .map(|entry| LogLine { text: "{}".to_string(), entry: Some(entry) })
        .collect();
    JsonlTelemetryAdapter::open("/var/log/activity.jsonl".to_string(), Some(lines)).expect("open")
}

/// An activity database in memory, queried with the statements of the library.
struct Database {
    connection: rusqlite::Connection,
}

fn bound(param: &SqlParam) -> rusqlite::types::Value {
    match param {
        SqlParam::Text(text) => rusqlite::types::Value::Text(text.clone()),
        SqlParam::Int(value) => rusqlite::types::Value::Integer(*value),
    }
}

impl Database {
    fn create() -> Self {
        let connection = rusqlite::Connection::open_in_memory().expect("memory database");
        connection
            .execute_batch(
                "CREATE TABLE activity_log (
                     id INTEGER PRIMARY KEY AUTOINCREMENT, timestamp TEXT, event_type TEXT,
                     severity TEXT, path TEXT, size_bytes INTEGER, score REAL, score_factors TEXT,
                     pressure_level TEXT, free_pct REAL, duration_ms INTEGER, success INTEGER,
                     error_code TEXT, error_message TEXT, details TEXT);
                 CREATE TABLE pressure_history (
                     id INTEGER PRIMARY KEY AUTOINCREMENT, timestamp TEXT, mount_point TEXT,
                     total_bytes INTEGER, free_bytes INTEGER, free_pct REAL,
                     rate_bytes_per_sec REAL, pressure_level TEXT, ewma_rate REAL,
                     pid_output REAL);",
            )
            .expect("schema");
        Self { connection }
    }

    fn log_activity(&self, row: ActivityRow) {
        self.connection
            .execute(
                "INSERT INTO activity_log (timestamp, event_type, severity, path, size_bytes,
                     score, pressure_level, free_pct, duration_ms, success, error_code,
                     error_message, details)
                 VALUES (?1, ?2, ?3, ?4, ?5, ?6, ?7, ?8, ?9, ?10, ?11, ?12, ?13)",
                (
                    row.timestamp,
                    row.event_type,
                    row.severity,
                    row.path,
                    row.size_bytes,
                    row.score.map(|v| f64::from_bits(v.bits)),
                    row.pressure_level,
                    row.free_pct.map(|v| f64::from_bits(v.bits)),
                    row.duration_ms,
                    row.success,
                    row.error_code,
                    row.error_message,
                    row.details,
                ),
            )
            .expect("insert");
    }

    fn log_pressure(&self, at: (&str, &str), sizes: (i64, i64, f64, f64), rest: (&str, f64, f64)) {
        self.connection
            .execute(
                "INSERT INTO pressure_history (timestamp, mount_point, total_bytes, free_bytes,
                     free_pct, rate_bytes_per_sec, pressure_level, ewma_rate, pid_output)
                 VALUES (?1, ?2, ?3, ?4, ?5, ?6, ?7, ?8, ?9)",
                (at.0, at.1, sizes.0, sizes.1, sizes.2, sizes.3, rest.0, rest.1, rest.2),
            )
            .expect("insert pressure");
    }

    fn run<T>(
        &self,
        query: SqlQuery,
        read: fn(&rusqlite::Row) -> rusqlite::Result<T>,
    ) -> Result<Vec<T>, String> {
        let mut statement =
            self.connection.prepare(&query.text).map_err(|error| error.to_string())?;
        let params: Vec<rusqlite::types::Value> = query.params.iter().map(bound).collect();
        let rows = statement
            .query_map(rusqlite::params_from_iter(params), read)
            .map_err(|error| error.to_string())?;
        rows.collect::<rusqlite::Result<Vec<T>>>().map_err(|error| error.to_string())
    }
}

fn event_of(row: &rusqlite::Row) -> rusqlite::Result<TimelineEvent> {
    Ok(activity_row_to_event(ActivityRow {
        timestamp: row.get(0)?,
        event_type: row.get(1)?,
        severity: row.get(2)?,
        path: row.get(3)?,
        size_bytes: row.get(4)?,
        score: number(row.get(5)?),
        pressure_level: row.get(7)?,
        free_pct: number(row.get(8)?),
        duration_ms: row.get(9)?,
        success: row.get(10)?,
        error_code: row.get(11)?,
        error_message: row.get(12)?,
        details: row.get(13)?,
    }))
}

fn point_of(row: &rusqlite::Row) -> rusqlite::Result<PressurePoint> {
    Ok(PressurePoint {
        timestamp: row.get(0)?,
        mount_point: row.get(1)?,
        free_pct: d(row.get(2)?),
        pressure_level: row.get(3)?,
        ewma_rate: number(row.get(4)?),
        pid_output: number(row.get(5)?),
    })
}

impl TelemetryQueryAdapter for Database {
    fn recent_events(
        &self,
        limit: usize,
        filter: &EventFilter,
    ) -> TelemetryResult<Vec<TimelineEvent>> {
        sqlite_result(self.run(activity_query(limit, filter), event_of), "SQLite query failed")
    }

    fn recent_decisions(&self, limit: usize) -> TelemetryResult<Vec<DecisionEvidence>> {
        let events = self.run(activity_query(limit, &decision_filter()), event_of);
        let decisions = events.map(|events| events_to_evidence(&events));
        sqlite_result(decisions, "SQLite decision query failed")
    }

    fn pressure_history(
        &self,
        mount: &str,
        since: &str,
        limit: usize,
    ) -> TelemetryResult<Vec<PressurePoint>> {
        let points = self.run(pressure_query(mount, since, limit), point_of);
        sqlite_result(points, "SQLite pressure query failed")
    }

    fn health(&self) -> TelemetryHealth {
        sqlite_health(self.connection.execute_batch("SELECT 1").is_ok())
    }
}

#[test]
fn null_hook_accepts_samples_without_panicking() {
    let mut hook = NullTelemetryHook;
    hook.record(TelemetrySample::new("runtime", "tick", "ok"));
}

#[test]
fn empty_filter_matches_everything() {
    let filter = EventFilter::default();
    assert!(filter.is_empty());
    assert!(filter.matches("info", "artifact_delete"));
    assert!(filter.matches("critical", "pressure_change"));
}

#[test]
fn severity_filter_restricts_correctly() {
    let filter = EventFilter {
        severities: vec!["critical".to_string(), "warning".to_string()],
        event_types: Vec::new(),
    };
    assert!(filter.matches("critical", "anything"));
    assert!(filter.matches("warning", "anything"));
    assert!(!filter.matches("info", "anything"));
}

#[test]
fn event_type_filter_restricts_correctly() {
    let filter = EventFilter {
        severities: Vec::new(),
        event_types: vec!["artifact_delete".to_string()],
    };
    assert!(filter.matches("info", "artifact_delete"));
    assert!(!filter.matches("info", "pressure_change"));
}

#[test]
fn combined_filter_requires_both() {
    let filter = EventFilter {
        severities: vec!["critical".to_string()],
        event_types: vec!["artifact_delete".to_string()],
    };
    assert!(filter.matches("critical", "artifact_delete"));
    assert!(!filter.matches("info", "artifact_delete"));
    assert!(!filter.matches("critical", "pressure_change"));
}

#[test]
fn null_adapter_returns_unavailable() {
    let adapter = NullTelemetryAdapter;
    let result = adapter.recent_events(10, &EventFilter::default());
    assert!(result.data.is_empty());
    assert!(result.partial);
    assert_eq!(result.source, DataSource::Absent);
}

#[test]
fn null_adapter_health_is_unavailable() {
    let adapter = NullTelemetryAdapter;
    let health = adapter.health();
    assert_eq!(health.sqlite, BackendHealth::Unavailable);
    assert_eq!(health.jsonl, BackendHealth::Unavailable);
    assert!(!health.any_available());
}

#[test]
fn healthy_telemetry_has_both_available() {
    let health = TelemetryHealth::healthy();
    assert!(health.any_available());
    assert!(health.diagnostics.is_empty());
}

#[test]
fn any_available_is_true_with_single_backend() {
    let health = TelemetryHealth {
        sqlite: BackendHealth::Unavailable,
        jsonl: BackendHealth::Available,
        diagnostics: String::new(),
    };
    assert!(health.any_available());
}

#[test]
fn unavailable_result_is_partial_with_empty_data() {
    let result: TelemetryResult<Vec<TimelineEvent>> =
        TelemetryResult::unavailable("test".to_string());
    assert!(result.data.is_empty());
    assert!(result.partial);
    assert_eq!(result.source, DataSource::Absent);
    assert_eq!(result.diagnostics, "test");
}

#[test]
fn logentry_to_timeline_preserves_fields() {
    let entry = LogEntry {
        ts: "2026-02-16T00:00:00Z".to_string(),
        event: "artifact_delete".to_string(),
        severity: Severity::Info,
        path: Some("/tmp/target".to_string()),
        size: Some(4096),
        score: Some(d(0.85)),
        pressure: Some("yellow".to_string()),
        free_pct: Some(d(18.5)),
        rate_bps: None,
        duration_ms: Some(42),
        ok: Some(true),
        error_code: None,
        error_message: None,
        mount_point: None,
        details: Some("test deletion".to_string()),
    };

    let timeline = logentry_to_timeline(&entry);
    assert_eq!(timeline.timestamp, "2026-02-16T00:00:00Z");
    assert_eq!(timeline.event_type, "artifact_delete");
    assert_eq!(timeline.severity, "info");
    assert_eq!(timeline.path.as_deref(), Some("/tmp/target"));
    assert_eq!(timeline.size_bytes, Some(4096));
    assert_eq!(timeline.score, Some(d(0.85)));
    assert_eq!(timeline.pressure_level.as_deref(), Some("yellow"));
    assert_eq!(timeline.success, Some(true));
    assert_eq!(timeline.duration_ms, Some(42));
}

#[test]
fn timeline_to_evidence_uses_defaults_for_missing_fields() {
    let ev = TimelineEvent {
        timestamp: "2026-02-16T00:00:00Z".to_string(),
        event_type: "artifact_delete".to_string(),
        severity: "info".to_string(),
        path: Some("/tmp/build".to_string()),
        size_bytes: Some(1024),
        score: Some(d(0.75)),
        pressure_level: None,
        free_pct: None,
        success: Some(true),
        error_code: None,
        error_message: None,
        duration_ms: None,
        details: Some("cleanup".to_string()),
    };

    let evidence = timeline_to_evidence(42, &ev);
    assert_eq!(evidence.decision_id, 42);
    assert_eq!(evidence.path, "/tmp/build");
    assert_eq!(evidence.action, "delete");
    assert_eq!(evidence.total_score, d(0.75));
    assert_eq!(evidence.age_secs, 0);
    assert!(!evidence.vetoed);
    assert_eq!(evidence.summary, "cleanup");
}

#[test]
fn timeline_to_evidence_failed_action_maps_to_keep() {
    let ev = TimelineEvent {
        timestamp: "2026-02-16T00:00:00Z".to_string(),
        event_type: "artifact_delete".to_string(),
        severity: "warning".to_string(),
        path: None,
        size_bytes: None,
        score: None,
        pressure_level: None,
        free_pct: None,
        success: Some(false),
        error_code: Some("SBH-2003".to_string()),
        error_message: Some("veto".to_string()),
        duration_ms: None,
        details: None,
    };

    let evidence = timeline_to_evidence(0, &ev);
    assert_eq!(evidence.action, "keep");
}

#[test]
fn jsonl_adapter_returns_none_for_missing_file() {
    assert!(JsonlTelemetryAdapter::open("/nonexistent/activity.jsonl".to_string(), None).is_none());
}

#[test]
fn jsonl_adapter_reads_entries_from_file() {
    let entries = vec![
        LogEntry {
            ts: "2026-02-16T00:00:01Z".to_string(),
            event: "daemon_start".to_string(),
            severity: Severity::Info,
            path: None,
            size: None,
            score: None,
            pressure: None,
            free_pct: None,
            rate_bps: None,
            duration_ms: None,
            ok: None,
            error_code: None,
            error_message: None,
            mount_point: None,
            details: Some("started".to_string()),
        },
        LogEntry {
            ts: "2026-02-16T00:00:02Z".to_string(),
            event: "artifact_delete".to_string(),
            severity: Severity::Info,
            path: Some("/tmp/target".to_string()),
            size: Some(4096),
            score: Some(d(0.9)),
            pressure: Some("yellow".to_string()),
            free_pct: Some(d(18.0)),
            rate_bps: None,
            duration_ms: Some(10),
            ok: Some(true),
            error_code: None,
            error_message: None,
            mount_point: None,
            details: None,
        },
        LogEntry {
            ts: "2026-02-16T00:00:03Z".to_string(),
            event: "error".to_string(),
            severity: Severity::Critical,
            path: None,
            size: None,
            score: None,
            pressure: None,
            free_pct: None,
            rate_bps: None,
            duration_ms: None,
            ok: Some(false),
            error_code: Some("SBH-3002".to_string()),
            error_message: Some("IO failure".to_string()),
            mount_point: None,
            details: None,
        },
    ];

    let adapter = open_log(entries);

    // Unfiltered: all 3 events, newest first.
    let result = adapter.recent_events(10, &EventFilter::default());
    assert!(!result.partial);
    assert_eq!(result.source, DataSource::Jsonl);
    assert_eq!(result.data.len(), 3);
    assert_eq!(result.data[0].timestamp, "2026-02-16T00:00:03Z");
    assert_eq!(result.data[2].timestamp, "2026-02-16T00:00:01Z");

    // Filtered by severity.
    let critical_filter = EventFilter {
        severities: vec!["critical".to_string()],
        event_types: Vec::new(),
    };
    let result = adapter.recent_events(10, &critical_filter);
    assert_eq!(result.data.len(), 1);
    assert_eq!(result.data[0].severity, "critical");
}

#[test]
fn jsonl_adapter_recent_decisions_filters_deletes() {
    let entries = vec![
        LogEntry {
            ts: "2026-02-16T00:00:01Z".to_string(),
            event: "daemon_start".to_string(),
            severity: Severity::Info,
            path: None,
            size: None,
            score: None,
            pressure: None,
            free_pct: None,
            rate_bps: None,
            duration_ms: None,
            ok: None,
            error_code: None,
            error_message: None,
            mount_point: None,
            details: None,
        },
        LogEntry {
            ts: "2026-02-16T00:00:02Z".to_string(),
            event: "artifact_delete".to_string(),
            severity: Severity::Info,
            path: Some("/tmp/target".to_string()),
            size: Some(4096),
            score: Some(d(0.9)),
            pressure: None,
            free_pct: None,
            rate_bps: None,
            duration_ms: None,
            ok: Some(true),
            error_code: None,
            error_message: None,
            mount_point: None,
            details: None,
        },
    ];

    let adapter = open_log(entries);
    let result = adapter.recent_decisions(10);
    assert_eq!(result.data.len(), 1);
    assert_eq!(result.data[0].path, "/tmp/target");
    assert_eq!(result.data[0].action, "delete");
}

#[test]
fn jsonl_adapter_pressure_history_filters_by_mount() {
    let entries = vec![
        LogEntry {
            ts: "2026-02-16T00:00:01Z".to_string(),
            event: "pressure_change".to_string(),
            severity: Severity::Info,
            path: None,
            size: None,
            score: None,
            pressure: Some("yellow".to_string()),
            free_pct: Some(d(18.0)),
            rate_bps: Some(d(1024.0)),
            duration_ms: None,
            ok: None,
            error_code: None,
            error_message: None,
            mount_point: Some("/".to_string()),
            details: None,
        },
        LogEntry {
            ts: "2026-02-16T00:00:02Z".to_string(),
            event: "pressure_change".to_string(),
            severity: Severity::Info,
            path: None,
            size: None,
            score: None,
            pressure: Some("orange".to_string()),
            free_pct: Some(d(12.0)),
            rate_bps: Some(d(2048.0)),
            duration_ms: None,
            ok: None,
            error_code: None,
            error_message: None,
            mount_point: Some("/data".to_string()),
            details: None,
        },
    ];

    let adapter = open_log(entries);

    // Filter by mount "/".
    let result = adapter.pressure_history("/", "", 10);
    assert_eq!(result.data.len(), 1);
    assert_eq!(result.data[0].mount_point, "/");
    assert_eq!(result.data[0].pressure_level, "yellow");

    // Filter by mount "/data".
    let result = adapter.pressure_history("/data", "", 10);
    assert_eq!(result.data.len(), 1);
    assert_eq!(result.data[0].mount_point, "/data");
}

#[test]
fn jsonl_adapter_health_checks_file_existence() {
    let adapter = open_log(Vec::new());
    let health = adapter.health();
    assert_eq!(health.jsonl, BackendHealth::Available);
    assert_eq!(health.sqlite, BackendHealth::Unavailable);
}

#[test]
fn composite_with_no_backends_returns_unavailable() {
    let adapter = CompositeTelemetryAdapter::<NullTelemetryAdapter, JsonlTelemetryAdapter>::new(None, None);
    let result = adapter.recent_events(10, &EventFilter::default());
    assert!(result.partial);
    assert_eq!(result.source, DataSource::Absent);
}

#[test]
fn composite_falls_back_to_jsonl_when_sqlite_missing() {
    let entry = LogEntry {
        ts: "2026-02-16T00:00:01Z".to_string(),
        event: "daemon_start".to_string(),
        severity: Severity::Info,
        path: None,
        size: None,
        score: None,
        pressure: None,
        free_pct: None,
        rate_bps: None,
        duration_ms: None,
        ok: None,
        error_code: None,
        error_message: None,
        mount_point: None,
        details: Some("started".to_string()),
    };

    let adapter = CompositeTelemetryAdapter::<NullTelemetryAdapter, JsonlTelemetryAdapter>::new(None, Some(open_log(vec![entry])));
    let result = adapter.recent_events(10, &EventFilter::default());
    assert!(!result.partial);
    assert_eq!(result.source, DataSource::Jsonl);
    assert_eq!(result.data.len(), 1);
}

#[test]
fn sqlite_adapter_opens_and_queries_empty_db() {
    let database = Database::create();

    let adapter = database;
    let result = adapter.recent_events(10, &EventFilter::default());
    assert!(!result.partial);
    assert_eq!(result.source, DataSource::Sqlite);
    assert!(result.data.is_empty());
}

#[test]
fn sqlite_adapter_queries_inserted_activity() {
    let database = Database::create();
    database.log_activity(ActivityRow {
        timestamp: "2026-02-16T00:00:01Z".to_string(),
        event_type: "artifact_delete".to_string(),
        severity: "info".to_string(),
        path: Some("/tmp/target".to_string()),
        size_bytes: Some(4096),
        score: Some(d(0.85)),
        pressure_level: Some("yellow".to_string()),
        free_pct: Some(d(18.0)),
        duration_ms: Some(42),
        success: 1,
        error_code: None,
        error_message: None,
        details: Some("test".to_string()),
    });
    database.log_activity(ActivityRow {
        timestamp: "2026-02-16T00:00:02Z".to_string(),
        event_type: "pressure_change".to_string(),
        severity: "warning".to_string(),
        path: None,
        size_bytes: None,
        score: None,
        pressure_level: Some("orange".to_string()),
        free_pct: Some(d(12.0)),
        duration_ms: None,
        success: 1,
        error_code: None,
        error_message: None,
        details: None,
    });

    let adapter = database;

    // Unfiltered.
    let result = adapter.recent_events(10, &EventFilter::default());
    assert!(!result.partial);
    assert_eq!(result.data.len(), 2);
    // Newest first.
    assert_eq!(result.data[0].event_type, "pressure_change");
    assert_eq!(result.data[1].event_type, "artifact_delete");

    // Filtered.
    let filter = EventFilter {
        severities: vec!["warning".to_string()],
        event_types: Vec::new(),
    };
    let result = adapter.recent_events(10, &filter);
    assert_eq!(result.data.len(), 1);
    assert_eq!(result.data[0].severity, "warning");
}

#[test]
fn sqlite_adapter_queries_pressure_history() {
    let database = Database::create();
    database.log_pressure(
        ("2026-02-16T00:00:01Z", "/"),
        (100_000_000, 20_000_000, 20.0, 1024.0),
        ("yellow", 900.0, 0.3),
    );

    let adapter = database;
    let result = adapter.pressure_history("/", "2026-02-15T00:00:00Z", 10);
    assert!(!result.partial);
    assert_eq!(result.data.len(), 1);
    assert_eq!(result.data[0].mount_point, "/");
    assert!((f64::from_bits(result.data[0].free_pct.bits) - 20.0).abs() < 0.01);
    assert_eq!(result.data[0].ewma_rate, Some(d(900.0)));
}

#[test]
fn sqlite_adapter_health_returns_available_for_good_db() {
    let database = Database::create();

    let adapter = database;
    let health = adapter.health();
    assert_eq!(health.sqlite, BackendHealth::Available);
}

#[test]
fn sqlite_adapter_recent_decisions_extracts_delete_events() {
    let database = Database::create();
    database.log_activity(ActivityRow {
        timestamp: "2026-02-16T00:00:01Z".to_string(),
        event_type: "artifact_delete".to_string(),
        severity: "info".to_string(),
        path: Some("/tmp/target".to_string()),
        size_bytes: Some(8192),
        score: Some(d(0.92)),
        pressure_level: Some("orange".to_string()),
        free_pct: Some(d(12.0)),
        duration_ms: Some(15),
        success: 1,
        error_code: None,
        error_message: None,
        details: Some("scored delete".to_string()),
    });
    // Non-delete event should be excluded.
    database.log_activity(ActivityRow {
        timestamp: "2026-02-16T00:00:02Z".to_string(),
        event_type: "daemon_start".to_string(),
        severity: "info".to_string(),
        path: None,
        size_bytes: None,
        score: None,
        pressure_level: None,
        free_pct: None,
        duration_ms: None,
        success: 1,
        error_code: None,
        error_message: None,
        details: None,
    });

    let adapter = database;
    let result = adapter.recent_decisions(10);
    assert_eq!(result.data.len(), 1);
    assert_eq!(result.data[0].path, "/tmp/target");
    assert_eq!(result.data[0].total_score, d(0.92));
    assert_eq!(result.data[0].action, "delete");
}

#[test]
fn composite_prefers_sqlite_over_jsonl() {
    let database = Database::create();
    database.log_activity(ActivityRow {
        timestamp: "2026-02-16T00:00:01Z".to_string(),
        event_type: "daemon_start".to_string(),
        severity: "info".to_string(),
        path: None,
        size_bytes: None,
        score: None,
        pressure_level: None,
        free_pct: None,
        duration_ms: None,
        success: 1,
        error_code: None,
        error_message: None,
        details: Some("sqlite source".to_string()),
    });

    // Set up JSONL with a different event.
    let jsonl_entry = LogEntry {
        ts: "2026-02-16T00:00:02Z".to_string(),
        event: "daemon_stop".to_string(),
        severity: Severity::Info,
        path: None,
        size: None,
        score: None,
        pressure: None,
        free_pct: None,
        rate_bps: None,
        duration_ms: None,
        ok: None,
        error_code: None,
        error_message: None,
        mount_point: None,
        details: Some("jsonl source".to_string()),
    };
    let adapter = CompositeTelemetryAdapter::new(Some(database), Some(open_log(vec![jsonl_entry])));
    let result = adapter.recent_events(10, &EventFilter::default());

    // Should come from SQLite.
    assert_eq!(result.source, DataSource::Sqlite);
    assert_eq!(result.data.len(), 1);
    assert_eq!(result.data[0].details.as_deref(), Some("sqlite source"));
}

#[test]
fn activity_query_numbers_its_parameters() {
    let filter = EventFilter {
        severities: vec!["critical".to_string(), "warning".to_string()],
        event_types: vec!["error".to_string()],
    };
    let query = activity_query(5, &filter);
    assert!(query.text.ends_with(
        " WHERE severity IN (?1,?2) AND event_type IN (?3) ORDER BY id DESC LIMIT ?4"
    ));
    assert_eq!(query.params.len(), 4);
    assert!(matches!(query.params[3], SqlParam::Int(5)));
}

#[test]
fn failed_database_query_is_partial() {
    let database = Database::create();
    database.connection.execute_batch("DROP TABLE activity_log").expect("drop");
    let result = database.recent_events(10, &EventFilter::default());
    assert!(result.partial);
    assert!(result.data.is_empty());
    assert_eq!(result.source, DataSource::Sqlite);
    assert!(result.diagnostics.starts_with("SQLite query failed: "));
}

#[test]
fn negative_quantities_become_zero() {
    let database = Database::create();
    database.log_activity(ActivityRow {
        timestamp: "2026-02-16T00:00:01Z".to_string(),
        event_type: "artifact_delete".to_string(),
        severity: "info".to_string(),
        path: None,
        size_bytes: Some(-5),
        score: None,
        pressure_level: None,
        free_pct: None,
        duration_ms: Some(-1),
        success: 0,
        error_code: None,
        error_message: None,
        details: None,
    });
    let result = database.recent_events(1, &EventFilter::default());
    assert_eq!(result.data[0].size_bytes, Some(0));
    assert_eq!(result.data[0].duration_ms, Some(0));
    assert_eq!(result.data[0].success, Some(false));
}

#[test]
fn unhealthy_database_is_degraded() {
    let health = sqlite_health(false);
    assert_eq!(health.sqlite, BackendHealth::Degraded);
    assert_eq!(health.diagnostics, "SQLite read connection unhealthy");
}

#[test]
fn jsonl_limit_keeps_the_newest_entries() {
    let entries = (1..=5)
        .map(|second| LogEntry {
            ts: format!("2026-02-16T00:00:0{second}Z"),
            event: "daemon_start".to_string(),
            severity: Severity::Info,
            path: None,
            size: None,
            score: None,
            pressure: None,
            free_pct: None,
            rate_bps: None,
            duration_ms: None,
            ok: None,
            error_code: None,
            error_message: None,
            mount_point: None,
            details: None,
        })
        .collect();
    let result = open_log(entries).recent_events(2, &EventFilter::default());
    let times: Vec<&str> = result.data.iter().map(|event| event.timestamp.as_str()).collect();
    assert_eq!(times, ["2026-02-16T00:00:05Z", "2026-02-16T00:00:04Z"]);
}

#[test]
fn jsonl_skips_lines_that_are_no_entries() {
    let lines = vec![
        LogLine { text: "garbage".to_string(), entry: None },
        LogLine { text: "   ".to_string(), entry: None },
    ];
    let adapter = JsonlTelemetryAdapter::open("/log".to_string(), Some(lines)).expect("open");
    let result = adapter.recent_events(10, &EventFilter::default());
    assert!(result.data.is_empty());
}

#[test]
fn huge_limits_read_the_whole_log() {
    let adapter = open_log(Vec::new());
    assert!(adapter.recent_decisions(usize::MAX).data.is_empty());
    let filter = EventFilter { severities: vec!["info".to_string()], event_types: vec![] };
    assert!(adapter.recent_events(usize::MAX, &filter).data.is_empty());
}

#[test]
fn only_an_empty_filter_matches_everything() {
    assert!(EventFilter::default().matches("unheard", "of"));
    let filter = EventFilter { severities: vec!["info".to_string()], event_types: vec![] };
    assert!(!filter.matches("unheard", "of"));
    let filter = EventFilter { severities: vec![], event_types: vec!["error".to_string()] };
    assert!(!filter.matches("unheard", "of"));
}
