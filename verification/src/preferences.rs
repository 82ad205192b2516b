//! Dashboard user preferences.
//!
//! Effective preferences come from three layers: compiled defaults, the
//! persisted file, and session overrides. Overrides win; a lower layer is the
//! fallback where a higher one is absent. A persistence failure never keeps
//! the dashboard from starting: it is reported and the defaults apply.

use vstd::prelude::*;

use crate::model::Screen;
use crate::text::dec;
use crate::text::decimal;
use crate::text::text_of;

verus! {

/// Current schema version of the persisted file.
pub const SCHEMA_VERSION: u32 = 1;

/// Minimum time between persisted writes, in milliseconds.
pub const WRITE_DEBOUNCE_MS: u64 = 2000;

/// Longest accepted notification timeout, in seconds.
pub const MAX_NOTIFICATION_TIMEOUT_SECS: u32 = 300;

/// Start screen preference.
#[derive(Debug, Clone, Copy, PartialEq, Eq, Structural)]
pub enum StartScreen {
    Overview,
    Timeline,
    Explainability,
    Candidates,
    Ballast,
    LogSearch,
    Diagnostics,
    /// Last-used screen from previous session.
    Remember,
}

impl Default for StartScreen {
    fn default() -> (s: Self)
        ensures
            s == StartScreen::Overview,
    {
        StartScreen::Overview
    }
}

/// The screen a start-screen preference stands for.
pub open spec fn resolved_screen(pref: StartScreen, last_screen: Option<Screen>) -> Screen {
    match pref {
        StartScreen::Overview => Screen::Overview,
        StartScreen::Timeline => Screen::Timeline,
        StartScreen::Explainability => Screen::Explainability,
        StartScreen::Candidates => Screen::Candidates,
        StartScreen::Ballast => Screen::Ballast,
        StartScreen::LogSearch => Screen::LogSearch,
        StartScreen::Diagnostics => Screen::Diagnostics,
        StartScreen::Remember => match last_screen {
            Some(s) => s,
            None => Screen::Overview,
        },
    }
}

/// The stable name of a start-screen preference.
pub open spec fn start_screen_name(pref: StartScreen) -> Seq<char> {
    match pref {
        StartScreen::Overview => "overview"@,
        StartScreen::Timeline => "timeline"@,
        StartScreen::Explainability => "explainability"@,
        StartScreen::Candidates => "candidates"@,
        StartScreen::Ballast => "ballast"@,
        StartScreen::LogSearch => "log_search"@,
        StartScreen::Diagnostics => "diagnostics"@,
        StartScreen::Remember => "remember"@,
    }
}

impl StartScreen {
    /// Resolve to a concrete `Screen`, using `last_screen` for the `Remember`
    /// variant.
    pub fn resolve(self, last_screen: Option<Screen>) -> (screen: Screen)
        ensures
            screen == resolved_screen(self, last_screen),
    {
        match self {
            Self::Overview => Screen::Overview,
            Self::Timeline => Screen::Timeline,
            Self::Explainability => Screen::Explainability,
            Self::Candidates => Screen::Candidates,
            Self::Ballast => Screen::Ballast,
            Self::LogSearch => Screen::LogSearch,
            Self::Diagnostics => Screen::Diagnostics,
            Self::Remember => match last_screen {
                Some(s) => s,
                None => Screen::Overview,
            },
        }
    }

    /// The stable name.
    pub fn label(self) -> (l: &'static str)
        ensures
            l@ == start_screen_name(self),
    {
        match self {
            Self::Overview => "overview",
            Self::Timeline => "timeline",
            Self::Explainability => "explainability",
            Self::Candidates => "candidates",
            Self::Ballast => "ballast",
            Self::LogSearch => "log_search",
            Self::Diagnostics => "diagnostics",
            Self::Remember => "remember",
        }
    }
}

/// Visual density.
#[derive(Debug, Clone, Copy, PartialEq, Eq, Structural)]
pub enum DensityMode {
    /// Tighter layout for smaller terminals.
    Compact,
    /// Balanced spacing (default).
    Comfortable,
}

impl Default for DensityMode {
    fn default() -> (d: Self)
        ensures
            d == DensityMode::Comfortable,
    {
        DensityMode::Comfortable
    }
}

/// The display name of a density.
pub open spec fn density_name(d: DensityMode) -> Seq<char> {
    match d {
        DensityMode::Compact => "compact"@,
        DensityMode::Comfortable => "comfortable"@,
    }
}

impl DensityMode {
    /// The display name.
    pub fn label(self) -> (l: &'static str)
        ensures
            l@ == density_name(self),
    {
        match self {
            Self::Compact => "compact",
            Self::Comfortable => "comfortable",
        }
    }
}

/// Contrast of the rendered theme.
#[derive(Debug, Clone, Copy, PartialEq, Eq, Structural)]
pub enum ContrastMode {
    Standard,
    High,
}

/// Motion of the rendered theme.
#[derive(Debug, Clone, Copy, PartialEq, Eq, Structural)]
pub enum MotionMode {
    Full,
    Reduced,
}

/// Contrast preference. `Auto` defers to what the environment reports.
#[derive(Debug, Clone, Copy, PartialEq, Eq, Structural)]
pub enum ContrastPreference {
    Auto,
    ForceStandard,
    ForceHigh,
}

impl Default for ContrastPreference {
    fn default() -> (c: Self)
        ensures
            c == ContrastPreference::Auto,
    {
        ContrastPreference::Auto
    }
}

/// The contrast a preference stands for in an environment.
pub open spec fn resolved_contrast(pref: ContrastPreference, env: ContrastMode) -> ContrastMode {
    match pref {
        ContrastPreference::Auto => env,
        ContrastPreference::ForceStandard => ContrastMode::Standard,
        ContrastPreference::ForceHigh => ContrastMode::High,
    }
}

/// The display name of a contrast preference.
pub open spec fn contrast_name(c: ContrastPreference) -> Seq<char> {
    match c {
        ContrastPreference::Auto => "auto"@,
        ContrastPreference::ForceStandard => "standard"@,
        ContrastPreference::ForceHigh => "high"@,
    }
}

impl ContrastPreference {
    /// Resolve to a concrete `ContrastMode`, using `env_detected` as the
    /// fallback for `Auto`.
    pub fn resolve(self, env_detected: ContrastMode) -> (mode: ContrastMode)
        ensures
            mode == resolved_contrast(self, env_detected),
    {
        match self {
            Self::Auto => env_detected,
            Self::ForceStandard => ContrastMode::Standard,
            Self::ForceHigh => ContrastMode::High,
        }
    }

    /// The display name.
    pub fn label(self) -> (l: &'static str)
        ensures
            l@ == contrast_name(self),
    {
        match self {
            Self::Auto => "auto",
            Self::ForceStandard => "standard",
            Self::ForceHigh => "high",
        }
    }
}

/// Motion preference. `Auto` defers to what the environment reports.
#[derive(Debug, Clone, Copy, PartialEq, Eq, Structural)]
pub enum MotionPreference {
    Auto,
    ForceFull,
    ForceReduced,
}

impl Default for MotionPreference {
    fn default() -> (m: Self)
        ensures
            m == MotionPreference::Auto,
    {
        MotionPreference::Auto
    }
}

/// The motion a preference stands for in an environment.
pub open spec fn resolved_motion(pref: MotionPreference, env: MotionMode) -> MotionMode {
    match pref {
        MotionPreference::Auto => env,
        MotionPreference::ForceFull => MotionMode::Full,
        MotionPreference::ForceReduced => MotionMode::Reduced,
    }
}

/// The display name of a motion preference.
pub open spec fn motion_name(m: MotionPreference) -> Seq<char> {
    match m {
        MotionPreference::Auto => "auto"@,
        MotionPreference::ForceFull => "full"@,
        MotionPreference::ForceReduced => "reduced"@,
    }
}

impl MotionPreference {
    /// Resolve to a concrete `MotionMode`, using `env_detected` as fallback.
    pub fn resolve(self, env_detected: MotionMode) -> (mode: MotionMode)
        ensures
            mode == resolved_motion(self, env_detected),
    {
        match self {
            Self::Auto => env_detected,
            Self::ForceFull => MotionMode::Full,
            Self::ForceReduced => MotionMode::Reduced,
        }
    }

    /// The display name.
    pub fn label(self) -> (l: &'static str)
        ensures
            l@ == motion_name(self),
    {
        match self {
            Self::Auto => "auto",
            Self::ForceFull => "full",
            Self::ForceReduced => "reduced",
        }
    }
}

/// How verbose inline hints should be.
#[derive(Debug, Clone, Copy, PartialEq, Eq, Structural)]
pub enum HintVerbosity {
    /// Show all hints and guidance text.
    Full,
    /// Show abbreviated hints.
    Minimal,
    /// Hide all hints.
    Off,
}

impl Default for HintVerbosity {
    fn default() -> (h: Self)
        ensures
            h == HintVerbosity::Full,
    {
        HintVerbosity::Full
    }
}

/// The display name of a hint verbosity.
pub open spec fn hints_name(h: HintVerbosity) -> Seq<char> {
    match h {
        HintVerbosity::Full => "full"@,
        HintVerbosity::Minimal => "minimal"@,
        HintVerbosity::Off => "off"@,
    }
}

impl HintVerbosity {
    /// The display name.
    pub fn label(self) -> (l: &'static str)
        ensures
            l@ == hints_name(self),
    {
        match self {
            Self::Full => "full",
            Self::Minimal => "minimal",
            Self::Off => "off",
        }
    }
}

/// Persisted dashboard UX preferences.
#[derive(Debug, Clone, Copy, PartialEq, Eq, Structural)]
pub struct UserPreferences {
    /// Schema version for migration detection.
    pub schema_version: u32,
    /// Screen to display on dashboard startup.
    pub start_screen: StartScreen,
    /// Visual density mode.
    pub density: DensityMode,
    /// Contrast preference (overrides environment detection if set).
    pub contrast: ContrastPreference,
    /// Motion preference (overrides environment detection if set).
    pub motion: MotionPreference,
    /// How verbose in-dashboard hints should be.
    pub hint_verbosity: HintVerbosity,
    /// How long notifications stay visible (seconds). 0 = never auto-dismiss.
    pub notification_timeout_secs: u32,
    /// Whether to show the help overlay on first launch.
    pub show_help_on_start: bool,
}

/// The compiled defaults.
pub open spec fn default_preferences() -> UserPreferences {
    UserPreferences {
        schema_version: 1,
        start_screen: StartScreen::Overview,
        density: DensityMode::Comfortable,
        contrast: ContrastPreference::Auto,
        motion: MotionPreference::Auto,
        hint_verbosity: HintVerbosity::Full,
        notification_timeout_secs: 5,
        show_help_on_start: false,
    }
}

impl Default for UserPreferences {
    fn default() -> (p: Self)
        ensures
            p == default_preferences(),
    {
        UserPreferences {
            schema_version: SCHEMA_VERSION,
            start_screen: StartScreen::default(),
            density: DensityMode::default(),
            contrast: ContrastPreference::default(),
            motion: MotionPreference::default(),
            hint_verbosity: HintVerbosity::default(),
            notification_timeout_secs: 5,
            show_help_on_start: false,
        }
    }
}

/// Validation result for loaded preferences.
#[derive(Debug, Clone, PartialEq, Eq)]
pub struct ValidationReport {
    pub warnings: Vec<String>,
    pub applied_defaults: Vec<String>,
}

impl ValidationReport {
    /// Whether nothing was found.
    pub open spec fn clean(self) -> bool {
        self.warnings@.len() == 0 && self.applied_defaults@.len() == 0
    }

    /// A report of nothing.
    pub fn new() -> (r: Self)
        ensures
            r.clean(),
    {
        ValidationReport { warnings: Vec::new(), applied_defaults: Vec::new() }
    }

    /// Whether nothing was found.
    pub fn is_clean(&self) -> (b: bool)
        ensures
            b == self.clean(),
    {
        self.warnings.is_empty() && self.applied_defaults.is_empty()
    }
}

/// The texts of a list.
pub open spec fn texts(list: Seq<String>) -> Seq<Seq<char>> {
    list.map_values(|s: String| s@)
}

/// The warning for a schema newer than the supported one.
pub open spec fn schema_warning(version: u32) -> Seq<char> {
    "preferences schema version "@ + dec(version as nat) + " is newer than supported "@ + dec(1)
        + "; unknown fields will be ignored"@
}

/// The warning for a notification timeout over the maximum.
pub open spec fn timeout_warning(secs: u32) -> Seq<char> {
    "notification_timeout_secs="@ + dec(secs as nat) + " exceeds 300s max; clamped to 300"@
}

/// Preferences with the notification timeout held to its maximum.
pub open spec fn normalized(prefs: UserPreferences) -> UserPreferences {
    UserPreferences {
        notification_timeout_secs: if prefs.notification_timeout_secs > 300 {
            300
        } else {
            prefs.notification_timeout_secs
        },
        ..prefs
    }
}

/// The warnings that validation gives, in order.
pub open spec fn validation_warnings(prefs: UserPreferences) -> Seq<Seq<char>> {
    (if prefs.schema_version > 1 {
        seq![schema_warning(prefs.schema_version)]
    } else {
        seq![]
    }) + (if prefs.notification_timeout_secs > 300 {
        seq![timeout_warning(prefs.notification_timeout_secs)]
    } else {
        seq![]
    })
}

/// Validate and normalize loaded preferences. Returns the (possibly patched)
/// preferences and a report of any issues found.
pub fn validate(prefs: UserPreferences) -> (result: (UserPreferences, ValidationReport))
    ensures
        result.0 == normalized(prefs),
        texts(result.1.warnings@) == validation_warnings(prefs),
        result.1.applied_defaults@.len() == 0,
{
    let mut fixed = prefs;
    let mut report = ValidationReport::new();
    if prefs.schema_version > SCHEMA_VERSION {
        let mut warning = "preferences schema version ".to_owned();
        warning.append(decimal(prefs.schema_version as u64).as_str());
        warning.append(" is newer than supported ");
        warning.append(decimal(SCHEMA_VERSION as u64).as_str());
        warning.append("; unknown fields will be ignored");
        report.warnings.push(warning);
    }
    if prefs.notification_timeout_secs > MAX_NOTIFICATION_TIMEOUT_SECS {
        let mut warning = "notification_timeout_secs=".to_owned();
        warning.append(decimal(prefs.notification_timeout_secs as u64).as_str());
        warning.append(" exceeds 300s max; clamped to 300");
        report.warnings.push(warning);
        fixed.notification_timeout_secs = MAX_NOTIFICATION_TIMEOUT_SECS;
    }
    assert(texts(report.warnings@) =~= validation_warnings(prefs));
    (fixed, report)
}

/// Validating again changes nothing more and never complains of the timeout again.
pub proof fn law_validation_idempotent(prefs: UserPreferences)
    ensures
        normalized(normalized(prefs)) == normalized(prefs),
        validation_warnings(normalized(prefs)) == (if prefs.schema_version > 1 {
            seq![schema_warning(prefs.schema_version)]
        } else {
            seq![]
        }),
{
    assert(validation_warnings(normalized(prefs)) =~= (if prefs.schema_version > 1 {
        seq![schema_warning(prefs.schema_version)]
    } else {
        seq![]
    }));
}

/// The compiled defaults are valid as they are.
pub proof fn law_defaults_are_valid()
    ensures
        normalized(default_preferences()) == default_preferences(),
        validation_warnings(default_preferences()).len() == 0,
{
}

/// Load outcome from the persistence layer.
#[derive(Debug, PartialEq, Eq)]
pub enum LoadOutcome {
    /// Successfully loaded and validated.
    Loaded { prefs: UserPreferences, report: ValidationReport },
    /// File not found, using defaults (normal for first launch).
    Missing,
    /// File exists but is corrupt or unparseable, using defaults.
    Corrupt { details: String, defaults: UserPreferences },
    /// I/O error reading the file, using defaults.
    IoError { details: String, defaults: UserPreferences },
}

/// The preferences to use after a load.
pub open spec fn effective_preferences(outcome: LoadOutcome) -> UserPreferences {
    match outcome {
        LoadOutcome::Loaded { prefs, report } => prefs,
        LoadOutcome::Missing => default_preferences(),
        LoadOutcome::Corrupt { details, defaults } => defaults,
        LoadOutcome::IoError { details, defaults } => defaults,
    }
}

impl LoadOutcome {
    /// Extract the effective preferences regardless of load status.
    pub fn into_prefs(self) -> (prefs: UserPreferences)
        ensures
            prefs == effective_preferences(self),
    {
        match self {
            Self::Loaded { prefs, report: _ } => prefs,
            Self::Missing => UserPreferences::default(),
            Self::Corrupt { details: _, defaults } => defaults,
            Self::IoError { details: _, defaults } => defaults,
        }
    }

    /// Whether the load was successful (loaded or first-launch missing).
    pub fn is_ok(&self) -> (b: bool)
        ensures
            b == (self is Loaded || self is Missing),
    {
        match self {
            Self::Loaded { prefs: _, report: _ } => true,
            Self::Missing => true,
            Self::Corrupt { details: _, defaults: _ } => false,
            Self::IoError { details: _, defaults: _ } => false,
        }
    }
}

/// What reading and parsing the preferences file gave.
#[derive(Debug, PartialEq, Eq)]
pub enum PreferencesRead {
    /// There is no such file.
    NotFound,
    /// The file is not text.
    NotText(String),
    /// The file could not be read.
    Failed(String),
    /// The text is not a preferences object.
    Unparseable(String),
    /// The text is a preferences object.
    Parsed(UserPreferences),
}

/// Turn what was read into a load outcome. Content that is not text or does
/// not parse is corrupt; only a failing read is an I/O error.
pub fn load(read: PreferencesRead) -> (outcome: LoadOutcome)
    ensures
        match read {
            PreferencesRead::NotFound => outcome is Missing,
            PreferencesRead::NotText(m) => outcome == (LoadOutcome::Corrupt {
                details: m,
                defaults: default_preferences(),
            }),
            PreferencesRead::Failed(m) => outcome == (LoadOutcome::IoError {
                details: m,
                defaults: default_preferences(),
            }),
            PreferencesRead::Unparseable(m) => outcome == (LoadOutcome::Corrupt {
                details: m,
                defaults: default_preferences(),
            }),
            PreferencesRead::Parsed(p) => outcome is Loaded && outcome->Loaded_prefs == normalized(p)
                && texts(outcome->report.warnings@) == validation_warnings(p)
                && outcome->report.applied_defaults@.len() == 0,
        },
{
    match read {
        PreferencesRead::NotFound => LoadOutcome::Missing,
        PreferencesRead::NotText(details) => LoadOutcome::Corrupt {
            details,
            defaults: UserPreferences::default(),
        },
        PreferencesRead::Failed(details) => LoadOutcome::IoError {
            details,
            defaults: UserPreferences::default(),
        },
        PreferencesRead::Unparseable(details) => LoadOutcome::Corrupt {
            details,
            defaults: UserPreferences::default(),
        },
        PreferencesRead::Parsed(parsed) => {
            let (prefs, report) = validate(parsed);
            LoadOutcome::Loaded { prefs, report }
        },
    }
}

/// A failed load falls back to the compiled defaults.
pub proof fn law_failed_load_gives_defaults(read: PreferencesRead, outcome: LoadOutcome)
    requires
        call_ensures(load, (read,), outcome),
        !(read is Parsed),
    ensures
        effective_preferences(outcome) == default_preferences(),
{
}

/// A path below a directory: one separator between them, none after an empty
/// directory or one that already ends in a separator.
pub open spec fn path_below(dir: Seq<char>, rest: Seq<char>) -> Seq<char> {
    if dir.len() == 0 || dir.last() == '/' {
        dir + rest
    } else {
        dir.push('/') + rest
    }
}

/// Resolve the preferences file path from the override variable and the home
/// directory. The override wins; without either there is no path.
pub fn default_preferences_path(override_path: Option<String>, home: Option<String>) -> (path:
    Option<String>)
    ensures
        match (override_path, home) {
            (Some(p), _) => path == Some(p),
            (None, Some(h)) => path is Some && path->0@ == path_below(
                h@,
                ".config/sbh/preferences.json"@,
            ),
            (None, None) => path is None,
        },
{
    match override_path {
        Some(p) => Some(p),
        None => match home {
            Some(h) => {
                let chars = crate::text::chars_of(h.as_str());
                let mut path = text_of(&chars);
                if chars.len() > 0 && chars[chars.len() - 1] != '/' {
                    path.push('/');
                }
                path.append(".config/sbh/preferences.json");
                Some(path)
            },
            None => None,
        },
    }
}

/// Debounced writer that limits persistence frequency.
///
/// Call `request_save` whenever preferences change. A flush hands out the path
/// to write to once the debounce interval has elapsed since the last write, so
/// rapid changes are coalesced. Times are milliseconds on a monotonic clock.
#[derive(Debug)]
pub struct DebouncedWriter {
    pub path: String,
    pub debounce: u64,
    pub last_write: Option<u64>,
    pub pending: bool,
}

impl DebouncedWriter {
    /// Whether the debounce interval has elapsed at `now`.
    pub open spec fn due(self, now: u64) -> bool {
        match self.last_write {
            Some(last) => now - last >= self.debounce || now < last && self.debounce == 0,
            None => true,
        }
    }

    /// The writer after a write at `now`.
    pub open spec fn written(self, now: u64) -> Self {
        DebouncedWriter {
            path: self.path,
            debounce: self.debounce,
            last_write: Some(now),
            pending: false,
        }
    }

    /// Create a new writer targeting the given path.
    pub fn new(path: String) -> (w: Self)
        ensures
            w == (DebouncedWriter { path, debounce: 2000, last_write: None, pending: false }),
    {
        DebouncedWriter { path, debounce: WRITE_DEBOUNCE_MS, last_write: None, pending: false }
    }

    /// Override the debounce interval.
    pub fn with_debounce(self, debounce: u64) -> (w: Self)
        ensures
            w == (DebouncedWriter {
                path: self.path,
                debounce,
                last_write: self.last_write,
                pending: self.pending,
            }),
    {
        DebouncedWriter {
            path: self.path,
            debounce,
            last_write: self.last_write,
            pending: self.pending,
        }
    }

    /// Mark that preferences have changed and should be persisted.
    pub fn request_save(&mut self)
        ensures
            *final(self) == (DebouncedWriter {
                path: old(self).path,
                debounce: old(self).debounce,
                last_write: old(self).last_write,
                pending: true,
            }),
    {
        self.pending = true;
    }

    /// Check if a save is pending.
    pub fn is_pending(&self) -> (b: bool)
        ensures
            b == self.pending,
    {
        self.pending
    }

    /// Flush if a save is pending and the debounce interval has elapsed.
    /// Returns the path to write to, or `None` if no write is needed yet.
    pub fn try_flush(&mut self, now: u64) -> (target: Option<String>)
        ensures
            if old(self).pending && old(self).due(now) {
                target == Some(old(self).path) && *final(self) == old(self).written(now)
            } else {
                target is None && *final(self) == *old(self)
            },
    {
        if !self.pending {
            return None;
        }
        if let Some(last) = self.last_write {
            let elapsed: u64 = if now < last {
                0
            } else {
                now - last
            };
            if elapsed < self.debounce {
                return None;
            }
        }
        self.pending = false;
        self.last_write = Some(now);
        Some(self.path.clone())
    }

    /// Force an immediate write, bypassing debounce. Used on shutdown.
    pub fn force_flush(&mut self, now: u64) -> (target: Option<String>)
        ensures
            if old(self).pending {
                target == Some(old(self).path) && *final(self) == old(self).written(now)
            } else {
                target is None && *final(self) == *old(self)
            },
    {
        if !self.pending {
            return None;
        }
        self.pending = false;
        self.last_write = Some(now);
        Some(self.path.clone())
    }
}

/// Two flushes that write are at least the debounce interval apart.
pub proof fn law_writes_are_debounced(w: DebouncedWriter, first: u64, second: u64)
    requires
        first <= second,
        w.written(first).due(second),
    ensures
        second - first >= w.debounce,
{
}

/// Session overrides that take precedence over persisted preferences. `None`
/// means "use persisted value".
#[derive(Debug, Clone, Copy, PartialEq, Eq, Structural)]
pub struct SessionOverrides {
    pub start_screen: Option<StartScreen>,
    pub density: Option<DensityMode>,
    pub contrast: Option<ContrastPreference>,
    pub motion: Option<MotionPreference>,
    pub hint_verbosity: Option<HintVerbosity>,
    pub notification_timeout_secs: Option<u32>,
}

/// Overrides that override nothing.
pub open spec fn no_overrides() -> SessionOverrides {
    SessionOverrides {
        start_screen: None,
        density: None,
        contrast: None,
        motion: None,
        hint_verbosity: None,
        notification_timeout_secs: None,
    }
}

impl Default for SessionOverrides {
    fn default() -> (o: Self)
        ensures
            o == no_overrides(),
    {
        SessionOverrides {
            start_screen: None,
            density: None,
            contrast: None,
            motion: None,
            hint_verbosity: None,
            notification_timeout_secs: None,
        }
    }
}

/// The higher layer's value where it has one.
pub open spec fn or_persisted<T>(over: Option<T>, persisted: T) -> T {
    match over {
        Some(v) => v,
        None => persisted,
    }
}

/// The effective preferences of a session.
pub open spec fn merged(persisted: UserPreferences, o: SessionOverrides) -> UserPreferences {
    UserPreferences {
        schema_version: persisted.schema_version,
        start_screen: or_persisted(o.start_screen, persisted.start_screen),
        density: or_persisted(o.density, persisted.density),
        contrast: or_persisted(o.contrast, persisted.contrast),
        motion: or_persisted(o.motion, persisted.motion),
        hint_verbosity: or_persisted(o.hint_verbosity, persisted.hint_verbosity),
        notification_timeout_secs: or_persisted(
            o.notification_timeout_secs,
            persisted.notification_timeout_secs,
        ),
        show_help_on_start: persisted.show_help_on_start,
    }
}

/// Merge persisted preferences and session overrides.
pub fn merge(persisted: &UserPreferences, overrides: &SessionOverrides) -> (prefs: UserPreferences)
    ensures
        prefs == merged(*persisted, *overrides),
{
    UserPreferences {
        schema_version: persisted.schema_version,
        start_screen: overrides.start_screen.unwrap_or(persisted.start_screen),
        density: overrides.density.unwrap_or(persisted.density),
        contrast: overrides.contrast.unwrap_or(persisted.contrast),
        motion: overrides.motion.unwrap_or(persisted.motion),
        hint_verbosity: overrides.hint_verbosity.unwrap_or(persisted.hint_verbosity),
        notification_timeout_secs: overrides.notification_timeout_secs.unwrap_or(
            persisted.notification_timeout_secs,
        ),
        show_help_on_start: persisted.show_help_on_start,
    }
}

/// Without overrides the persisted preferences apply unchanged.
pub proof fn law_merge_without_overrides(persisted: UserPreferences)
    ensures
        merged(persisted, no_overrides()) == persisted,
{
}

/// An override wins over the persisted value, and merging the same overrides
/// again changes nothing.
pub proof fn law_overrides_win(persisted: UserPreferences, o: SessionOverrides)
    ensures
        o.start_screen is Some ==> Some(merged(persisted, o).start_screen) == o.start_screen,
        o.density is Some ==> Some(merged(persisted, o).density) == o.density,
        o.contrast is Some ==> Some(merged(persisted, o).contrast) == o.contrast,
        o.motion is Some ==> Some(merged(persisted, o).motion) == o.motion,
        o.hint_verbosity is Some ==> Some(merged(persisted, o).hint_verbosity) == o.hint_verbosity,
        o.notification_timeout_secs is Some ==> Some(merged(persisted, o).notification_timeout_secs)
            == o.notification_timeout_secs,
        merged(merged(persisted, o), o) == merged(persisted, o),
{
}

/// Fully resolved preferences ready for consumption by the dashboard model.
#[derive(Debug, Clone, Copy, PartialEq, Eq, Structural)]
pub struct ResolvedPreferences {
    pub start_screen: Screen,
    pub density: DensityMode,
    pub contrast: ContrastMode,
    pub motion: MotionMode,
    pub hint_verbosity: HintVerbosity,
    /// In seconds.
    pub notification_timeout: u64,
    pub show_help_on_start: bool,
}

/// The resolved form of preferences in an environment.
pub open spec fn resolved_preferences(
    prefs: UserPreferences,
    env_contrast: ContrastMode,
    env_motion: MotionMode,
    last_screen: Option<Screen>,
) -> ResolvedPreferences {
    ResolvedPreferences {
        start_screen: resolved_screen(prefs.start_screen, last_screen),
        density: prefs.density,
        contrast: resolved_contrast(prefs.contrast, env_contrast),
        motion: resolved_motion(prefs.motion, env_motion),
        hint_verbosity: prefs.hint_verbosity,
        notification_timeout: prefs.notification_timeout_secs as u64,
        show_help_on_start: prefs.show_help_on_start,
    }
}

impl ResolvedPreferences {
    /// Resolve from merged preferences using environment-detected accessibility
    /// settings and an optional last-used screen.
    pub fn resolve(
        prefs: &UserPreferences,
        env_contrast: ContrastMode,
        env_motion: MotionMode,
        last_screen: Option<Screen>,
    ) -> (r: Self)
        ensures
            r == resolved_preferences(*prefs, env_contrast, env_motion, last_screen),
    {
        ResolvedPreferences {
            start_screen: prefs.start_screen.resolve(last_screen),
            density: prefs.density,
            contrast: prefs.contrast.resolve(env_contrast),
            motion: prefs.motion.resolve(env_motion),
            hint_verbosity: prefs.hint_verbosity,
            notification_timeout: prefs.notification_timeout_secs as u64,
            show_help_on_start: prefs.show_help_on_start,
        }
    }
}

/// A preference that is not automatic holds whatever the environment says, and an
/// automatic one follows it.
pub proof fn law_forced_preferences_ignore_the_environment(
    contrast: ContrastPreference,
    motion: MotionPreference,
    c: ContrastMode,
    d: ContrastMode,
    m: MotionMode,
    n: MotionMode,
)
    ensures
        contrast == ContrastPreference::Auto ==> resolved_contrast(contrast, c) == c,
        contrast != ContrastPreference::Auto ==> resolved_contrast(contrast, c)
            == resolved_contrast(contrast, d),
        resolved_contrast(ContrastPreference::ForceHigh, c) == ContrastMode::High,
        resolved_contrast(ContrastPreference::ForceStandard, c) == ContrastMode::Standard,
        motion == MotionPreference::Auto ==> resolved_motion(motion, m) == m,
        motion != MotionPreference::Auto ==> resolved_motion(motion, m) == resolved_motion(
            motion,
            n,
        ),
        resolved_motion(MotionPreference::ForceReduced, m) == MotionMode::Reduced,
        resolved_motion(MotionPreference::ForceFull, m) == MotionMode::Full,
{
}

/// Remembering starts where the last session was, or at the overview; every other start
/// screen is fixed, and every screen can be chosen.
pub proof fn law_start_screen(pref: StartScreen, last: Option<Screen>, other: Option<Screen>, s: Screen)
    ensures
        last is Some ==> resolved_screen(StartScreen::Remember, last) == last->0,
        resolved_screen(StartScreen::Remember, None) == Screen::Overview,
        pref != StartScreen::Remember ==> resolved_screen(pref, last) == resolved_screen(
            pref,
            other,
        ),
        exists|p: StartScreen|
            p != StartScreen::Remember && #[trigger] resolved_screen(p, last) == s,
{
    let p = match s {
        Screen::Overview => StartScreen::Overview,
        Screen::Timeline => StartScreen::Timeline,
        Screen::Explainability => StartScreen::Explainability,
        Screen::Candidates => StartScreen::Candidates,
        Screen::Ballast => StartScreen::Ballast,
        Screen::LogSearch => StartScreen::LogSearch,
        Screen::Diagnostics => StartScreen::Diagnostics,
    };
    assert(resolved_screen(p, last) == s);
}

/// Validation changes nothing but a timeout over five minutes, which it cuts to that, and
/// it warns exactly of such a timeout and of a schema that is too new.
pub proof fn law_validation_reports_what_it_changes(
    prefs: UserPreferences,
    result: (UserPreferences, ValidationReport),
)
    requires
        call_ensures(validate, (prefs,), result),
    ensures
        result.0.notification_timeout_secs <= 300,
        prefs.notification_timeout_secs <= 300 ==> result.0 == prefs,
        result.0 == (UserPreferences {
            notification_timeout_secs: result.0.notification_timeout_secs,
            ..prefs
        }),
        result.1.warnings@.len() == (if prefs.schema_version > 1 {
            1int
        } else {
            0
        }) + (if prefs.notification_timeout_secs > 300 {
            1int
        } else {
            0
        }),
        prefs.notification_timeout_secs > 300 ==> result.0.notification_timeout_secs == 300,
{
    assert(texts(result.1.warnings@).len() == result.1.warnings@.len());
}

/// Resolving keeps what does not depend on the environment.
pub proof fn law_resolution_keeps_settings(
    prefs: UserPreferences,
    c: ContrastMode,
    m: MotionMode,
    last: Option<Screen>,
)
    ensures
        ({
            let r = resolved_preferences(prefs, c, m, last);
            &&& r.density == prefs.density
            &&& r.hint_verbosity == prefs.hint_verbosity
            &&& r.notification_timeout == prefs.notification_timeout_secs
            &&& r.show_help_on_start == prefs.show_help_on_start
            &&& r.start_screen == resolved_screen(prefs.start_screen, last)
            &&& prefs.contrast == ContrastPreference::Auto ==> r.contrast == c
            &&& prefs.motion == MotionPreference::Auto ==> r.motion == m
        }),
{
}

/// Settings without an override keep their persisted value, and what cannot be overridden
/// is never changed.
pub proof fn law_rest_stays_persisted(persisted: UserPreferences, o: SessionOverrides)
    ensures
        ({
            let m = merged(persisted, o);
            &&& m.schema_version == persisted.schema_version
            &&& m.show_help_on_start == persisted.show_help_on_start
            &&& o.start_screen is None ==> m.start_screen == persisted.start_screen
            &&& o.density is None ==> m.density == persisted.density
            &&& o.contrast is None ==> m.contrast == persisted.contrast
            &&& o.motion is None ==> m.motion == persisted.motion
            &&& o.hint_verbosity is None ==> m.hint_verbosity == persisted.hint_verbosity
            &&& o.notification_timeout_secs is None ==> m.notification_timeout_secs
                == persisted.notification_timeout_secs
        }),
{
}

/// What was read decides the outcome of a load: only a file that parsed is loaded, and only
/// a file that is not there is missing; damage and failure keep their own words.
pub proof fn law_load_tells_what_happened(read: PreferencesRead, outcome: LoadOutcome)
    requires
        call_ensures(load, (read,), outcome),
    ensures
        outcome is Loaded <==> read is Parsed,
        outcome is Missing <==> read is NotFound,
        outcome is IoError <==> read is Failed,
        outcome is Corrupt <==> read is NotText || read is Unparseable,
        read matches PreferencesRead::Failed(m) ==> outcome->IoError_details == m,
        read matches PreferencesRead::NotText(m) ==> outcome->Corrupt_details == m,
        read matches PreferencesRead::Unparseable(m) ==> outcome->Corrupt_details == m,
        read matches PreferencesRead::Parsed(p) ==> p.notification_timeout_secs <= 300
            ==> effective_preferences(outcome) == p,
{
}

/// The override decides where preferences are kept; without it they are kept below the
/// home directory, and without either nowhere.
pub proof fn law_preferences_path(
    override_path: Option<String>,
    home: Option<String>,
    path: Option<String>,
)
    requires
        call_ensures(default_preferences_path, (override_path, home), path),
    ensures
        override_path is Some ==> path == override_path,
        path is Some <==> override_path is Some || home is Some,
        override_path is None && home is Some ==> path->0@.len() >= home->0@.len() && path->0@.take(
            home->0@.len() as int,
        ) == home->0@ && crate::text::contains_text(path->0@, ".config/sbh/preferences.json"@),
{
    if override_path is None && home is Some {
        let p = path->0@;
        let rest = ".config/sbh/preferences.json"@;
        assert(p.take(home->0@.len() as int) =~= home->0@);
        let at = p.len() - rest.len();
        assert(p.subrange(at, at + rest.len()) =~= rest);
        assert(crate::text::stands_at(p, rest, at));
    }
}

/// A writer whose interval is over writes, and one that has never written writes at once.
pub proof fn law_due_writer(w: DebouncedWriter, now: u64)
    ensures
        w.last_write is None ==> w.due(now),
        w.last_write is Some && now >= w.last_write->0 + w.debounce ==> w.due(now),
        w.last_write is Some && w.last_write->0 <= now < w.last_write->0 + w.debounce ==> !w.due(
            now,
        ),
        !w.written(now).pending,
        w.written(now).path == w.path,
{
}

/// A flush writes once: it hands the path out where a save is pending and due, after which
/// nothing is pending; a flush right after it writes nothing.
pub proof fn law_flush_writes_once(
    first: &mut DebouncedWriter,
    second: &mut DebouncedWriter,
    now: u64,
    later: u64,
    a: Option<String>,
    b: Option<String>,
)
    requires
        call_ensures(DebouncedWriter::try_flush, (first, now), a),
        *second == *final(first),
        call_ensures(DebouncedWriter::try_flush, (second, later), b),
    ensures
        a is Some <==> old(first).pending && old(first).due(now),
        a is Some ==> a->0 == old(first).path && !final(first).pending && final(first).last_write
            == Some(now),
        a is None ==> *final(first) == *old(first),
        a is Some ==> b is None,
{
}

/// A forced flush asks only whether a save is pending, and a request makes it so.
pub proof fn law_forced_flush_ignores_the_interval(
    asked: &mut DebouncedWriter,
    forced: &mut DebouncedWriter,
    now: u64,
    target: Option<String>,
)
    requires
        call_ensures(DebouncedWriter::request_save, (asked,), ()),
        *forced == *final(asked),
        call_ensures(DebouncedWriter::force_flush, (forced, now), target),
    ensures
        final(asked).pending,
        final(asked).last_write == old(asked).last_write,
        target == Some(old(asked).path),
        !final(forced).pending,
        final(forced).last_write == Some(now),
{
}

/// The labels tell the settings of a preference apart.
pub proof fn law_setting_labels_differ(
    a: ContrastPreference,
    b: ContrastPreference,
    m: MotionPreference,
    n: MotionPreference,
)
    ensures
        contrast_name(a) == contrast_name(b) <==> a == b,
        motion_name(m) == motion_name(n) <==> m == n,
        contrast_name(ContrastPreference::Auto) == motion_name(MotionPreference::Auto),
        contrast_name(a).len() == 8 <==> a == ContrastPreference::ForceStandard,
        contrast_name(a).first() == 'h' <==> a == ContrastPreference::ForceHigh,
        motion_name(m).len() == 7 <==> m == MotionPreference::ForceReduced,
        motion_name(m).first() == 'f' <==> m == MotionPreference::ForceFull,
{
    reveal_strlit("auto");
    reveal_strlit("standard");
    reveal_strlit("high");
    reveal_strlit("full");
    reveal_strlit("reduced");
    assert(contrast_name(ContrastPreference::Auto)[0] == 'a');
    assert(contrast_name(ContrastPreference::ForceHigh)[0] == 'h');
    assert(contrast_name(ContrastPreference::ForceStandard)[0] == 's');
    assert(motion_name(MotionPreference::Auto)[0] == 'a');
    assert(motion_name(MotionPreference::ForceFull)[0] == 'f');
    assert(motion_name(MotionPreference::ForceReduced)[0] == 'r');
}

/// A new writer waits two seconds between writes and has nothing to write; setting another
/// interval changes nothing else.
pub proof fn law_new_writer_is_idle(
    path: String,
    fresh: DebouncedWriter,
    debounce: u64,
    w: DebouncedWriter,
    pending: bool,
)
    requires
        call_ensures(DebouncedWriter::new, (path,), fresh),
        call_ensures(DebouncedWriter::with_debounce, (fresh, debounce), w),
        call_ensures(DebouncedWriter::is_pending, (&w,), pending),
    ensures
        fresh.path == path,
        fresh.debounce == 2000,
        fresh.last_write is None,
        !pending,
        w.debounce == debounce,
        w.path == path,
        w.last_write is None,
{
}

/// A load is fine where there were preferences to read or none at all.
pub proof fn law_load_without_damage_is_fine(outcome: LoadOutcome, ok: bool)
    requires
        call_ensures(LoadOutcome::is_ok, (&outcome,), ok),
    ensures
        !ok <==> outcome is Corrupt || outcome is IoError,
{
}

/// Merging takes what the session overrides from the session and the rest from the file.
pub proof fn law_merged_preferences(
    persisted: UserPreferences,
    o: SessionOverrides,
    prefs: UserPreferences,
)
    requires
        call_ensures(merge, (&persisted, &o), prefs),
    ensures
        prefs.density == (if o.density is Some { o.density->0 } else { persisted.density }),
        prefs.start_screen == (if o.start_screen is Some {
            o.start_screen->0
        } else {
            persisted.start_screen
        }),
        prefs.contrast == (if o.contrast is Some { o.contrast->0 } else { persisted.contrast }),
        prefs.motion == (if o.motion is Some { o.motion->0 } else { persisted.motion }),
        prefs.hint_verbosity == (if o.hint_verbosity is Some {
            o.hint_verbosity->0
        } else {
            persisted.hint_verbosity
        }),
        prefs.notification_timeout_secs == (if o.notification_timeout_secs is Some {
            o.notification_timeout_secs->0
        } else {
            persisted.notification_timeout_secs
        }),
        prefs.show_help_on_start == persisted.show_help_on_start,
        prefs.schema_version == persisted.schema_version,
{
}

/// The preferences of a load are those that were read, without a file the defaults, and
/// after a failure those that it carries.
pub proof fn law_loaded_preferences(outcome: LoadOutcome, prefs: UserPreferences)
    requires
        call_ensures(LoadOutcome::into_prefs, (outcome,), prefs),
    ensures
        outcome is Loaded ==> prefs == outcome->Loaded_prefs,
        outcome is Missing ==> prefs == default_preferences(),
        outcome is Corrupt ==> prefs == outcome->Corrupt_defaults,
        outcome is IoError ==> prefs == outcome->IoError_defaults,
{
}

} // verus!
