//! Decisions of the dashboard runtime.
//!
//! The runtime reads terminals and files; what it does with a reply is decided
//! here. A preference action begins with a step for the runtime to perform and
//! finishes with the reply to that step.

use sha2::Digest;
use vstd::prelude::*;

use crate::text::stands_at;
use crate::text::contains_text;
use crate::preferences::StartScreen;
use crate::model::law_event_filter_agrees;
use crate::model::filter_passes;
use crate::model::DashboardCmd;
use crate::model::DashboardModel;
use crate::model::NotificationLevel;
use crate::model::Overlay;
use crate::model::PreferenceAction;
use crate::model::PreferenceProfileMode;
use crate::model::Screen;
use crate::model::SeverityFilter;
use crate::preferences::default_preferences;
use crate::preferences::density_name;
use crate::preferences::hints_name;
use crate::preferences::resolved_preferences;
use crate::preferences::start_screen_name;
use crate::preferences::ContrastMode;
use crate::preferences::LoadOutcome;
use crate::preferences::MotionMode;
use crate::preferences::ResolvedPreferences;
use crate::preferences::UserPreferences;
use crate::telemetry::EventFilter;
use crate::telemetry::TelemetrySample;
use crate::text::hex;
use crate::text::hex_text;
use crate::text::join2;

verus! {

/// Which runtime path to execute.
#[derive(Debug, Clone, Copy, PartialEq, Eq, Structural)]
pub enum DashboardRuntimeMode {
    NewCockpit,
    LegacyFallback,
}

impl Default for DashboardRuntimeMode {
    fn default() -> (m: Self)
        ensures
            m == DashboardRuntimeMode::NewCockpit,
    {
        DashboardRuntimeMode::NewCockpit
    }
}

/// Configuration of the fallback dashboard.
#[derive(Debug, Clone, PartialEq, Eq)]
pub struct LegacyDashboardConfig {
    pub state_file: String,
    /// In milliseconds.
    pub refresh: u64,
    pub monitor_paths: Vec<String>,
}

/// Runtime configuration shared by both dashboard executors.
#[derive(Debug, Clone, PartialEq, Eq)]
pub struct DashboardRuntimeConfig {
    pub state_file: String,
    /// In milliseconds.
    pub refresh: u64,
    pub monitor_paths: Vec<String>,
    pub mode: DashboardRuntimeMode,
    pub sqlite_db: Option<String>,
    pub jsonl_log: Option<String>,
}

fn copy_texts(texts: &Vec<String>) -> (copy: Vec<String>)
    ensures
        copy@ == texts@,
{
    let mut copy: Vec<String> = Vec::new();
    let mut k: usize = 0;
    while k < texts.len()
        invariant
            k <= texts@.len(),
            copy@ == texts@.take(k as int),
        decreases texts@.len() - k,
    {
        copy.push(texts[k].clone());
        assert(copy@ =~= texts@.take(k + 1));
        k += 1;
    }
    assert(texts@.take(k as int) =~= texts@);
    copy
}

impl DashboardRuntimeConfig {
    /// The configuration for the fallback dashboard.
    pub fn as_legacy_config(&self) -> (legacy: LegacyDashboardConfig)
        ensures
            legacy.state_file == self.state_file,
            legacy.refresh == self.refresh,
            legacy.monitor_paths@ == self.monitor_paths@,
    {
        LegacyDashboardConfig {
            state_file: self.state_file.clone(),
            refresh: self.refresh,
            monitor_paths: copy_texts(&self.monitor_paths),
        }
    }
}

/// What to run.
#[derive(Debug, Clone, PartialEq, Eq)]
pub enum RuntimePlan {
    Cockpit,
    Legacy(LegacyDashboardConfig),
}

/// Select the dashboard to run: the mode alone decides.
pub fn run_dashboard(config: &DashboardRuntimeConfig) -> (plan: RuntimePlan)
    ensures
        match config.mode {
            DashboardRuntimeMode::NewCockpit => plan is Cockpit,
            DashboardRuntimeMode::LegacyFallback => plan is Legacy && plan->0.state_file
                == config.state_file && plan->0.refresh == config.refresh
                && plan->0.monitor_paths@ == config.monitor_paths@,
        },
{
    match config.mode {
        DashboardRuntimeMode::NewCockpit => RuntimePlan::Cockpit,
        DashboardRuntimeMode::LegacyFallback => RuntimePlan::Legacy(config.as_legacy_config()),
    }
}

/// Stable label of a profile mode in telemetry.
pub open spec fn profile_mode_name(mode: PreferenceProfileMode) -> Seq<char> {
    match mode {
        PreferenceProfileMode::Defaults => "defaults"@,
        PreferenceProfileMode::Persisted => "persisted"@,
        PreferenceProfileMode::SessionOverride => "session_override"@,
    }
}

/// Stable label of a profile mode in telemetry.
pub fn preference_profile_mode_label(mode: PreferenceProfileMode) -> (l: &'static str)
    ensures
        l@ == profile_mode_name(mode),
{
    match mode {
        PreferenceProfileMode::Defaults => "defaults",
        PreferenceProfileMode::Persisted => "persisted",
        PreferenceProfileMode::SessionOverride => "session_override",
    }
}

/// Stable label of a preference action.
pub open spec fn action_kind(action: PreferenceAction) -> Seq<char> {
    match action {
        PreferenceAction::SetStartScreen(_) => "set_start_screen"@,
        PreferenceAction::SetDensity(_) => "set_density"@,
        PreferenceAction::SetHintVerbosity(_) => "set_hint_verbosity"@,
        PreferenceAction::ResetToPersisted => "reset_to_persisted"@,
        PreferenceAction::RevertToDefaults => "revert_to_defaults"@,
    }
}

/// Stable label of a preference action.
pub fn preference_action_kind(action: PreferenceAction) -> (l: &'static str)
    ensures
        l@ == action_kind(action),
{
    match action {
        PreferenceAction::SetStartScreen(_) => "set_start_screen",
        PreferenceAction::SetDensity(_) => "set_density",
        PreferenceAction::SetHintVerbosity(_) => "set_hint_verbosity",
        PreferenceAction::ResetToPersisted => "reset_to_persisted",
        PreferenceAction::RevertToDefaults => "revert_to_defaults",
    }
}

/// What a preference action aims at.
pub open spec fn action_target(action: PreferenceAction) -> Seq<char> {
    match action {
        PreferenceAction::SetStartScreen(s) => "start_screen="@ + start_screen_name(s),
        PreferenceAction::SetDensity(d) => "density="@ + density_name(d),
        PreferenceAction::SetHintVerbosity(h) => "hint_verbosity="@ + hints_name(h),
        PreferenceAction::ResetToPersisted => "profile=persisted"@,
        PreferenceAction::RevertToDefaults => "profile=defaults"@,
    }
}

/// What a preference action aims at.
pub fn preference_action_target(action: PreferenceAction) -> (s: String)
    ensures
        s@ == action_target(action),
{
    match action {
        PreferenceAction::SetStartScreen(s) => join2("start_screen=", s.label()),
        PreferenceAction::SetDensity(d) => join2("density=", d.label()),
        PreferenceAction::SetHintVerbosity(h) => join2("hint_verbosity=", h.label()),
        PreferenceAction::ResetToPersisted => "profile=persisted".to_owned(),
        PreferenceAction::RevertToDefaults => "profile=defaults".to_owned(),
    }
}

/// The SHA-256 digest of a byte string.
pub uninterp spec fn sha256_of(bytes: Seq<u8>) -> Seq<u8>;

/// `sha2::Sha256::digest`: the digest depends on the bytes alone and is 32
/// bytes long. Its value is named, not spelled out.
#[verifier::external_body]
pub(crate) fn sha256(bytes: &Vec<u8>) -> (digest: Vec<u8>)
    ensures
        digest@ == sha256_of(bytes@),
        digest@.len() == 32,
{
    sha2::Sha256::digest(bytes.as_slice()).to_vec()
}

/// Hash of an encoded preference profile: its SHA-256 digest in lower-case
/// hexadecimal digits.
pub fn preference_profile_hash(encoded: &Vec<u8>) -> (hash: String)
    ensures
        hash@ == hex(sha256_of(encoded@)),
        hash@.len() == 64,
{
    hex_text(&sha256(encoded))
}

/// The text of a JSON object with text or null members and number members.
pub uninterp spec fn json_object(
    texts: Seq<(Seq<char>, Option<Seq<char>>)>,
    numbers: Seq<(Seq<char>, u64)>,
) -> Seq<char>;

/// The view of optional text.
pub open spec fn text_view(text: Option<String>) -> Option<Seq<char>> {
    match text {
        Some(s) => Some(s@),
        None => None,
    }
}

/// The view of text members.
pub open spec fn member_texts(members: Seq<(String, Option<String>)>) -> Seq<
    (Seq<char>, Option<Seq<char>>),
> {
    members.map_values(|m: (String, Option<String>)| (m.0@, text_view(m.1)))
}

/// The view of number members.
pub open spec fn member_numbers(members: Seq<(String, u64)>) -> Seq<(Seq<char>, u64)> {
    members.map_values(|m: (String, u64)| (m.0@, m.1))
}

/// `serde_json::Value::to_string` of an object with these members, put in with
/// `serde_json::Map::insert`. The text depends on the members alone; it is
/// named, not spelled out.
#[verifier::external_body]
pub(crate) fn json_text(texts: &Vec<(String, Option<String>)>, numbers: &Vec<(String, u64)>) -> (s:
    String)
    ensures
        s@ == json_object(member_texts(texts@), member_numbers(numbers@)),
{
    let mut object = serde_json::Map::new();
    for (name, text) in texts {
        object.insert(name.clone(), serde_json::Value::from(text.clone()));
    }
    for (name, number) in numbers {
        object.insert(name.clone(), serde_json::Value::from(*number));
    }
    serde_json::Value::Object(object).to_string()
}

/// Hash of a profile, or that it could not be encoded.
pub open spec fn hash_text_of(encoded: Option<Seq<u8>>) -> Seq<char> {
    match encoded {
        Some(bytes) => hex(sha256_of(bytes)),
        None => "unavailable"@,
    }
}

/// Text members of the record on a preference action.
pub open spec fn record_texts(
    action: PreferenceAction,
    mode: PreferenceProfileMode,
    result: Seq<char>,
    hash: Seq<char>,
    error: Option<Seq<char>>,
) -> Seq<(Seq<char>, Option<Seq<char>>)> {
    seq![
        ("actor"@, Some("tui-dashboard"@)),
        ("action"@, Some(action_kind(action))),
        ("target"@, Some(action_target(action))),
        ("result"@, Some(result)),
        ("profile_mode"@, Some(profile_mode_name(mode))),
        ("profile_hash"@, Some(hash)),
        ("error"@, error),
    ]
}

/// Runtime-owned preference profile state.
#[derive(Debug, Clone, PartialEq, Eq)]
pub struct PreferenceRuntimeState {
    /// Where the profile is stored, if anywhere.
    pub path: Option<String>,
    pub prefs: UserPreferences,
    pub profile_mode: PreferenceProfileMode,
    /// Contrast that the environment asks for.
    pub env_contrast: ContrastMode,
    /// Motion that the environment asks for.
    pub env_motion: MotionMode,
}

/// A step that a preference action needs from the runtime.
#[derive(Debug, PartialEq, Eq)]
pub enum ActionStep {
    /// Store the profile; without a path there is nothing to store.
    Persist(Option<String>),
    /// Load the profile from a path.
    Reload(String),
    /// Nothing.
    Nothing,
}

/// The reply to a step.
#[derive(Debug, PartialEq, Eq)]
pub enum ActionReply {
    /// Storing the profile went well or failed with a message.
    Persisted(Option<String>),
    /// What loading gave.
    Reloaded(LoadOutcome),
    /// Nothing was asked for.
    Nothing,
}

/// Warning of a load, if any.
pub open spec fn load_warning(outcome: LoadOutcome) -> Option<Seq<char>> {
    match outcome {
        LoadOutcome::Loaded { prefs, report } => if report.clean() {
            None
        } else {
            Some("preferences loaded with validation warnings"@)
        },
        LoadOutcome::Missing => None,
        LoadOutcome::Corrupt { details, defaults } => Some(
            "preferences corrupted; using defaults: "@ + details@,
        ),
        LoadOutcome::IoError { details, defaults } => Some(
            "preferences read failed; using defaults: "@ + details@,
        ),
    }
}

/// Profile after a load: the loaded one, or the compiled defaults.
pub open spec fn loaded_profile(outcome: LoadOutcome) -> (UserPreferences, PreferenceProfileMode) {
    match outcome {
        LoadOutcome::Loaded { prefs, report } => (prefs, PreferenceProfileMode::Persisted),
        _ => (default_preferences(), PreferenceProfileMode::Defaults),
    }
}

/// Profile after an action that sets or reverts it.
pub open spec fn changed_profile(
    profile: (UserPreferences, PreferenceProfileMode),
    action: PreferenceAction,
) -> (UserPreferences, PreferenceProfileMode) {
    let session = PreferenceProfileMode::SessionOverride;
    match action {
        PreferenceAction::SetStartScreen(s) => (
            UserPreferences { start_screen: s, ..profile.0 },
            session,
        ),
        PreferenceAction::SetDensity(d) => (UserPreferences { density: d, ..profile.0 }, session),
        PreferenceAction::SetHintVerbosity(h) => (
            UserPreferences { hint_verbosity: h, ..profile.0 },
            session,
        ),
        PreferenceAction::ResetToPersisted => profile,
        PreferenceAction::RevertToDefaults => (
            default_preferences(),
            PreferenceProfileMode::Defaults,
        ),
    }
}

/// Whether an action makes the model go to the start screen of the profile.
pub open spec fn moves_to_start(action: PreferenceAction) -> bool {
    !(action is SetDensity || action is SetHintVerbosity)
}

/// Message of an action that succeeded with a reply.
pub open spec fn success_message(action: PreferenceAction, reply: ActionReply) -> Seq<char> {
    match action {
        PreferenceAction::SetStartScreen(s) => "default start screen set to "@ + start_screen_name(
            s,
        ),
        PreferenceAction::SetDensity(d) => "density set to "@ + density_name(d),
        PreferenceAction::SetHintVerbosity(h) => "hint verbosity set to "@ + hints_name(h),
        PreferenceAction::RevertToDefaults => "reverted preferences to defaults"@,
        PreferenceAction::ResetToPersisted => match reply {
            ActionReply::Reloaded(LoadOutcome::Loaded { prefs, report }) => {
                "reloaded persisted preferences"@
            },
            ActionReply::Reloaded(LoadOutcome::Missing) => {
                "no persisted preferences found; defaults applied"@
            },
            ActionReply::Reloaded(LoadOutcome::Corrupt { details, defaults }) => {
                "persisted preferences corrupted; defaults applied: "@ + details@
            },
            ActionReply::Reloaded(LoadOutcome::IoError { details, defaults }) => {
                "preferences read failed; defaults applied: "@ + details@
            },
            _ => "preferences path unavailable; defaults applied"@,
        },
    }
}

fn reset_message(reply: &ActionReply) -> (s: String)
    ensures
        s@ == success_message(PreferenceAction::ResetToPersisted, *reply),
{
    match reply {
        ActionReply::Reloaded(LoadOutcome::Loaded { prefs: _, report: _ }) => {
            "reloaded persisted preferences".to_owned()
        },
        ActionReply::Reloaded(LoadOutcome::Missing) => {
            "no persisted preferences found; defaults applied".to_owned()
        },
        ActionReply::Reloaded(LoadOutcome::Corrupt { details, defaults: _ }) => join2(
            "persisted preferences corrupted; defaults applied: ",
            details.as_str(),
        ),
        ActionReply::Reloaded(LoadOutcome::IoError { details, defaults: _ }) => join2(
            "preferences read failed; defaults applied: ",
            details.as_str(),
        ),
        _ => "preferences path unavailable; defaults applied".to_owned(),
    }
}

/// Whether a reply answers the step of an action.
pub open spec fn answers(reply: ActionReply, action: PreferenceAction) -> bool {
    match action {
        PreferenceAction::ResetToPersisted => !(reply is Persisted),
        _ => reply is Persisted,
    }
}

/// Whether a model is another one with a profile taken over: on request at the
/// start screen of the profile without history, and with the help open where
/// the profile asks for it and no overlay was open.
pub open spec fn took_over(
    before: DashboardModel,
    after: DashboardModel,
    state: PreferenceRuntimeState,
    start: bool,
    help: bool,
) -> bool {
    let r = state.resolution(Some(before.screen));
    &&& after == DashboardModel {
        preferred_start_screen: after.preferred_start_screen,
        density: after.density,
        hint_verbosity: after.hint_verbosity,
        preference_profile_mode: after.preference_profile_mode,
        screen: after.screen,
        screen_history: after.screen_history,
        active_overlay: after.active_overlay,
        ..before
    }
    &&& after.preferred_start_screen == state.prefs.start_screen
    &&& after.density == r.density
    &&& after.hint_verbosity == r.hint_verbosity
    &&& after.preference_profile_mode == state.profile_mode
    &&& after.screen == if start {
        r.start_screen
    } else {
        before.screen
    }
    &&& after.screen_history@ == if start {
        Seq::empty()
    } else {
        before.screen_history@
    }
    &&& after.active_overlay == if help && r.show_help_on_start && before.active_overlay is None {
        Some(Overlay::Help)
    } else {
        before.active_overlay
    }
}

/// The place of a model moved to a screen without history, on request.
fn restart_at(model: &mut DashboardModel, screen: Screen, on: bool)
    ensures
        *final(model) == (DashboardModel {
            screen: final(model).screen,
            screen_history: final(model).screen_history,
            ..*old(model)
        }),
        final(model).screen == if on {
            screen
        } else {
            old(model).screen
        },
        final(model).screen_history@ == if on {
            Seq::empty()
        } else {
            old(model).screen_history@
        },
{
    if on {
        model.screen = screen;
        model.screen_history = Vec::new();
    }
}

/// The help opened over a model without overlay, on request.
fn offer_help(model: &mut DashboardModel, on: bool)
    ensures
        *final(model) == (DashboardModel {
            active_overlay: final(model).active_overlay,
            ..*old(model)
        }),
        final(model).active_overlay == if on && old(model).active_overlay is None {
            Some(Overlay::Help)
        } else {
            old(model).active_overlay
        },
{
    if on && model.active_overlay.is_none() {
        model.active_overlay = Some(Overlay::Help);
    }
}

impl PreferenceRuntimeState {
    /// The profile with its mode.
    pub open spec fn profile(self) -> (UserPreferences, PreferenceProfileMode) {
        (self.prefs, self.profile_mode)
    }

    /// The resolved profile for a last-used screen.
    pub open spec fn resolution(self, last_screen: Option<Screen>) -> ResolvedPreferences {
        resolved_preferences(self.prefs, self.env_contrast, self.env_motion, last_screen)
    }

    /// Start with what loading the profile gave; without a path nothing was
    /// loaded and the defaults hold. A warning says what went wrong.
    pub fn load(
        path: Option<String>,
        loaded: Option<LoadOutcome>,
        env_contrast: ContrastMode,
        env_motion: MotionMode,
    ) -> (started: (Self, Option<String>))
        ensures
            started.0.path == path,
            started.0.env_contrast == env_contrast,
            started.0.env_motion == env_motion,
            match loaded {
                Some(outcome) => started.0.profile() == loaded_profile(outcome) && text_view(
                    started.1,
                ) == load_warning(outcome),
                None => started.0.profile() == (
                    default_preferences(),
                    PreferenceProfileMode::Defaults,
                ) && started.1 is None,
            },
    {
        let mut prefs = UserPreferences::default();
        let mut profile_mode = PreferenceProfileMode::Defaults;
        let mut warning: Option<String> = None;
        if let Some(outcome) = loaded {
            match outcome {
                LoadOutcome::Loaded { prefs: stored, report } => {
                    if !report.is_clean() {
                        warning = Some("preferences loaded with validation warnings".to_owned());
                    }
                    prefs = stored;
                    profile_mode = PreferenceProfileMode::Persisted;
                },
                LoadOutcome::Missing => {},
                LoadOutcome::Corrupt { details, defaults: _ } => {
                    warning = Some(
                        join2("preferences corrupted; using defaults: ", details.as_str()),
                    );
                },
                LoadOutcome::IoError { details, defaults: _ } => {
                    warning = Some(
                        join2("preferences read failed; using defaults: ", details.as_str()),
                    );
                },
            }
        }
        (PreferenceRuntimeState { path, prefs, profile_mode, env_contrast, env_motion }, warning)
    }

    /// The resolved profile for a last-used screen.
    pub fn resolved(&self, last_screen: Option<Screen>) -> (r: ResolvedPreferences)
        ensures
            r == self.resolution(last_screen),
    {
        ResolvedPreferences::resolve(&self.prefs, self.env_contrast, self.env_motion, last_screen)
    }

    /// Take the profile over into the model; on request go to its start screen
    /// without history, and open the help where the profile asks for it and no
    /// overlay is open.
    pub fn apply_to_model(
        &self,
        model: &mut DashboardModel,
        apply_start_screen: bool,
        apply_help_overlay: bool,
    )
        ensures
            took_over(*old(model), *final(model), *self, apply_start_screen, apply_help_overlay),
    {
        let resolved = self.resolved(Some(model.screen));
        model.set_preference_profile(
            self.prefs.start_screen,
            resolved.density,
            resolved.hint_verbosity,
            self.profile_mode,
        );
        restart_at(model, resolved.start_screen, apply_start_screen);
        offer_help(model, apply_help_overlay && resolved.show_help_on_start);
    }

    /// Begin an action: change the profile and say what the runtime has to do.
    pub fn begin_action(&mut self, action: PreferenceAction) -> (step: ActionStep)
        ensures
            final(self).profile() == changed_profile(old(self).profile(), action),
            final(self).path == old(self).path,
            final(self).env_contrast == old(self).env_contrast,
            final(self).env_motion == old(self).env_motion,
            step == (match (action, old(self).path) {
                (PreferenceAction::ResetToPersisted, Some(p)) => ActionStep::Reload(p),
                (PreferenceAction::ResetToPersisted, None) => ActionStep::Nothing,
                (_, p) => ActionStep::Persist(p),
            }),
    {
        match action {
            PreferenceAction::SetStartScreen(start_screen) => {
                self.prefs.start_screen = start_screen;
                self.profile_mode = PreferenceProfileMode::SessionOverride;
            },
            PreferenceAction::SetDensity(density) => {
                self.prefs.density = density;
                self.profile_mode = PreferenceProfileMode::SessionOverride;
            },
            PreferenceAction::SetHintVerbosity(hint_verbosity) => {
                self.prefs.hint_verbosity = hint_verbosity;
                self.profile_mode = PreferenceProfileMode::SessionOverride;
            },
            PreferenceAction::ResetToPersisted => {
                return match &self.path {
                    Some(p) => ActionStep::Reload(p.clone()),
                    None => ActionStep::Nothing,
                };
            },
            PreferenceAction::RevertToDefaults => {
                self.prefs = UserPreferences::default();
                self.profile_mode = PreferenceProfileMode::Defaults;
            },
        }
        match &self.path {
            Some(p) => ActionStep::Persist(Some(p.clone())),
            None => ActionStep::Persist(None),
        }
    }

    /// Finish an action with the reply to its step. Where storing failed, the
    /// model stays as it was and the error comes back; otherwise the profile is
    /// taken over into the model and a message says what was done.
    pub fn execute_action(
        &mut self,
        action: PreferenceAction,
        reply: ActionReply,
        model: &mut DashboardModel,
    ) -> (result: Result<String, String>)
        requires
            answers(reply, action),
        ensures
            final(self).path == old(self).path,
            final(self).env_contrast == old(self).env_contrast,
            final(self).env_motion == old(self).env_motion,
            final(self).profile() == (match reply {
                ActionReply::Persisted(_) => old(self).profile(),
                ActionReply::Reloaded(outcome) => loaded_profile(outcome),
                ActionReply::Nothing => (default_preferences(), PreferenceProfileMode::Defaults),
            }),
            match reply {
                ActionReply::Persisted(Some(error)) => result == Err::<String, String>(error)
                    && *final(model) == *old(model),
                _ => result is Ok && result->Ok_0@ == success_message(action, reply) && took_over(
                    *old(model),
                    *final(model),
                    *final(self),
                    moves_to_start(action),
                    false,
                ),
            },
    {
        let message = match action {
            PreferenceAction::SetStartScreen(s) => join2("default start screen set to ", s.label()),
            PreferenceAction::SetDensity(d) => join2("density set to ", d.label()),
            PreferenceAction::SetHintVerbosity(h) => join2("hint verbosity set to ", h.label()),
            PreferenceAction::RevertToDefaults => "reverted preferences to defaults".to_owned(),
            PreferenceAction::ResetToPersisted => reset_message(&reply),
        };
        match reply {
            ActionReply::Persisted(Some(error)) => {
                return Err(error);
            },
            ActionReply::Persisted(None) => {},
            ActionReply::Reloaded(LoadOutcome::Loaded { prefs, report: _ }) => {
                self.prefs = prefs;
                self.profile_mode = PreferenceProfileMode::Persisted;
            },
            _ => {
                self.prefs = UserPreferences::default();
                self.profile_mode = PreferenceProfileMode::Defaults;
            },
        }
        let start = match action {
            PreferenceAction::SetDensity(_) | PreferenceAction::SetHintVerbosity(_) => false,
            _ => true,
        };
        self.apply_to_model(model, start, false);
        Ok(message)
    }

    /// The telemetry sample on an action: who did what to which profile, with
    /// which result. `encoded` is the encoded profile, where it could be encoded.
    pub fn record_action_outcome(
        &self,
        action: PreferenceAction,
        result: &str,
        error: Option<String>,
        encoded: Option<Vec<u8>>,
    ) -> (sample: TelemetrySample)
        ensures
            sample.source@ == "dashboard.preferences"@,
            sample.kind@ == action_kind(action),
            sample.detail@ == json_object(
                record_texts(
                    action,
                    self.profile_mode,
                    result@,
                    hash_text_of(
                        match encoded {
                            Some(bytes) => Some(bytes@),
                            None => None,
                        },
                    ),
                    text_view(error),
                ),
                seq![("schema_version"@, self.prefs.schema_version as u64)],
            ),
    {
        let hash = match encoded {
            Some(bytes) => preference_profile_hash(&bytes),
            None => "unavailable".to_owned(),
        };
        let ghost hash_view = hash@;
        let mode = preference_profile_mode_label(self.profile_mode);
        let texts: Vec<(String, Option<String>)> = vec![
            ("actor".to_owned(), Some("tui-dashboard".to_owned())),
            ("action".to_owned(), Some(preference_action_kind(action).to_owned())),
            ("target".to_owned(), Some(preference_action_target(action))),
            ("result".to_owned(), Some(result.to_owned())),
            ("profile_mode".to_owned(), Some(mode.to_owned())),
            ("profile_hash".to_owned(), Some(hash)),
            ("error".to_owned(), error),
        ];
        let numbers: Vec<(String, u64)> = vec![
            ("schema_version".to_owned(), self.prefs.schema_version as u64),
        ];
        assert(member_texts(texts@) =~= record_texts(
            action,
            self.profile_mode,
            result@,
            hash_view,
            text_view(error),
        ));
        assert(member_numbers(numbers@) =~= seq![
            ("schema_version"@, self.prefs.schema_version as u64),
        ]);
        let detail = json_text(&texts, &numbers);
        TelemetrySample::new("dashboard.preferences", preference_action_kind(action), detail.as_str())
    }

    /// The telemetry sample that follows an action: "ok" without an error where
    /// it succeeded, "error" with its message where it failed.
    pub fn action_sample(
        &self,
        action: PreferenceAction,
        result: &Result<String, String>,
        encoded: Option<Vec<u8>>,
    ) -> (sample: TelemetrySample)
        ensures
            sample.source@ == "dashboard.preferences"@,
            sample.kind@ == action_kind(action),
            sample.detail@ == json_object(
                record_texts(
                    action,
                    self.profile_mode,
                    match *result {
                        Ok(_) => "ok"@,
                        Err(_) => "error"@,
                    },
                    hash_text_of(
                        match encoded {
                            Some(bytes) => Some(bytes@),
                            None => None,
                        },
                    ),
                    match *result {
                        Ok(_) => None,
                        Err(error) => Some(error@),
                    },
                ),
                seq![("schema_version"@, self.prefs.schema_version as u64)],
            ),
    {
        match result {
            Ok(_) => self.record_action_outcome(action, "ok", None, encoded),
            Err(error) => self.record_action_outcome(
                action,
                "error",
                Some(error.clone()),
                encoded,
            ),
        }
    }
}

/// Whether two actions set the same preference.
pub open spec fn same_setting(a: PreferenceAction, b: PreferenceAction) -> bool {
    ||| a is SetStartScreen && b is SetStartScreen
    ||| a is SetDensity && b is SetDensity
    ||| a is SetHintVerbosity && b is SetHintVerbosity
}

/// Reverting gives the compiled defaults whatever was set before.
pub proof fn law_revert_forgets_changes(
    profile: (UserPreferences, PreferenceProfileMode),
    action: PreferenceAction,
)
    ensures
        changed_profile(changed_profile(profile, action), PreferenceAction::RevertToDefaults) == (
            default_preferences(),
            PreferenceProfileMode::Defaults,
        ),
{
}

/// Setting a preference twice is setting it once, and the later of two
/// settings of one preference wins.
pub proof fn law_last_setting_wins(
    profile: (UserPreferences, PreferenceProfileMode),
    first: PreferenceAction,
    second: PreferenceAction,
)
    requires
        same_setting(first, second),
    ensures
        changed_profile(changed_profile(profile, first), second) == changed_profile(
            profile,
            second,
        ),
{
}

/// How long an Info notice stays, in milliseconds.
pub const NOTICE_MS: u64 = 5_000;

/// How long a notice on a preference action that failed stays, in milliseconds.
pub const FAILURE_NOTICE_MS: u64 = 10_000;

/// A notice for the operator.
#[derive(Debug, Clone, PartialEq, Eq)]
pub struct Notice {
    pub level: NotificationLevel,
    pub message: String,
    /// How long it stays, in milliseconds; `None` until it is dismissed by hand.
    pub stays: Option<u64>,
}

/// The notice on the result of a preference action, with the default times.
pub fn action_notice(result: Result<String, String>) -> (notice: Notice)
    ensures
        match result {
            Ok(message) => notice.level == NotificationLevel::Info && notice.message == message
                && notice.stays == Some(5_000u64),
            Err(error) => notice.level == NotificationLevel::Error && notice.message@
                == "preference update failed: "@ + error@ && notice.stays == Some(10_000u64),
        },
{
    match result {
        Ok(message) => Notice { level: NotificationLevel::Info, message, stays: Some(NOTICE_MS) },
        Err(error) => Notice {
            level: NotificationLevel::Error,
            message: join2("preference update failed: ", error.as_str()),
            stays: Some(FAILURE_NOTICE_MS),
        },
    }
}

/// The notice on a warning of the initial load. It persists.
pub fn load_notice(warning: String) -> (notice: Notice)
    ensures
        notice.level == NotificationLevel::Warning,
        notice.message == warning,
        notice.stays is None,
{
    Notice { level: NotificationLevel::Warning, message: warning, stays: None }
}

/// How long a notice stays under a profile's notification timeout in seconds:
/// an Info notice for that time, and every notice for good where it is zero.
pub open spec fn stay_under(
    level: NotificationLevel,
    stays: Option<u64>,
    timeout_secs: u64,
) -> Option<u64> {
    if timeout_secs == 0 {
        None
    } else if level == NotificationLevel::Info {
        Some((timeout_secs * 1000) as u64)
    } else {
        stays
    }
}

impl PreferenceRuntimeState {
    /// A notice with the time that the profile gives it.
    pub fn profile_notice(&self, notice: Notice) -> (timed: Notice)
        ensures
            timed.level == notice.level,
            timed.message == notice.message,
            timed.stays == stay_under(
                notice.level,
                notice.stays,
                self.resolution(None).notification_timeout,
            ),
    {
        let timeout: u64 = self.resolved(None).notification_timeout;
        let stays = if timeout == 0 {
            None
        } else if notice.level == NotificationLevel::Info {
            Some(timeout * 1000)
        } else {
            notice.stays
        };
        Notice { level: notice.level, message: notice.message, stays }
    }
}

/// The default profile leaves the default times of every notice as they are.
pub proof fn law_default_profile_keeps_times(
    result: Result<String, String>,
    notice: Notice,
    state: PreferenceRuntimeState,
)
    requires
        call_ensures(action_notice, (result,), notice),
        state.prefs == default_preferences(),
    ensures
        stay_under(notice.level, notice.stays, state.resolution(None).notification_timeout)
            == notice.stays,
{
}

/// A step of executing a command.
#[derive(Debug, Clone, Copy, PartialEq, Eq, Structural)]
pub enum CommandStep {
    /// Read the state file and deliver what it holds.
    ReadState,
    /// Query telemetry for the active screen and deliver the results.
    QueryTelemetry,
    /// Leave the event loop.
    Quit,
    /// Dismiss a notification after a number of milliseconds.
    StartTimer { id: u64, after: u64 },
    /// Change the preference profile.
    Prefer(PreferenceAction),
}

/// The steps of a command, in the order in which they are executed.
pub open spec fn steps_of(cmd: DashboardCmd) -> Seq<CommandStep>
    decreases cmd, 0int,
{
    match cmd {
        DashboardCmd::Idle => seq![],
        DashboardCmd::ScheduleTick(_) => seq![],
        DashboardCmd::FetchData => seq![CommandStep::ReadState],
        DashboardCmd::FetchTelemetry => seq![CommandStep::QueryTelemetry],
        DashboardCmd::Quit => seq![CommandStep::Quit],
        DashboardCmd::Batch(cmds) => batch_steps(cmds@, cmds@.len() as int),
        DashboardCmd::ScheduleNotificationExpiry { id, after } => seq![
            CommandStep::StartTimer { id, after },
        ],
        DashboardCmd::ExecutePreferenceAction(action) => seq![CommandStep::Prefer(action)],
    }
}

/// The steps of the first commands of a batch.
pub open spec fn batch_steps(cmds: Seq<DashboardCmd>, n: int) -> Seq<CommandStep>
    decreases cmds, n,
{
    if n <= 0 || n > cmds.len() {
        seq![]
    } else {
        batch_steps(cmds, n - 1) + steps_of(cmds[n - 1])
    }
}

/// The steps of a command, in the order in which they are executed.
pub fn execute_cmd(cmd: &DashboardCmd) -> (steps: Vec<CommandStep>)
    ensures
        steps@ == steps_of(*cmd),
    decreases cmd,
{
    match cmd {
        DashboardCmd::Idle | DashboardCmd::ScheduleTick(_) => Vec::new(),
        DashboardCmd::FetchData => vec![CommandStep::ReadState],
        DashboardCmd::FetchTelemetry => vec![CommandStep::QueryTelemetry],
        DashboardCmd::Quit => vec![CommandStep::Quit],
        DashboardCmd::Batch(cmds) => {
            let mut steps: Vec<CommandStep> = Vec::new();
            let mut k: usize = 0;
            while k < cmds.len()
                invariant
                    k <= cmds@.len(),
                    *cmd == DashboardCmd::Batch(*cmds),
                    steps@ == batch_steps(cmds@, k as int),
                decreases cmds@.len() - k,
            {
                proof {
                    assert(decreases_to!(*cmd => cmd->Batch_0));
                    assert(decreases_to!(*cmds => cmds@));
                    assert(decreases_to!(cmds@ => cmds@[k as int]));
                }
                let mut more = execute_cmd(&cmds[k]);
                steps.append(&mut more);
                k += 1;
            }
            steps
        },
        DashboardCmd::ScheduleNotificationExpiry { id, after } => {
            vec![CommandStep::StartTimer { id: *id, after: *after }]
        },
        DashboardCmd::ExecutePreferenceAction(action) => vec![CommandStep::Prefer(*action)],
    }
}

proof fn batch_steps_split(first: Seq<DashboardCmd>, second: Seq<DashboardCmd>, n: int)
    requires
        0 <= n <= first.len() + second.len(),
    ensures
        n <= first.len() ==> batch_steps(first + second, n) == batch_steps(first, n),
        n >= first.len() ==> batch_steps(first + second, n) == batch_steps(
            first,
            first.len() as int,
        ) + batch_steps(second, n - first.len()),
    decreases n,
{
    let all = first + second;
    if n > 0 {
        batch_steps_split(first, second, n - 1);
        if n <= first.len() {
            assert(all[n - 1] == first[n - 1]);
            if n == first.len() {
                assert(batch_steps(second, 0) =~= Seq::<CommandStep>::empty());
                assert(batch_steps(all, n) =~= batch_steps(first, n) + batch_steps(second, 0));
            }
        } else {
            let m = n - first.len();
            assert(all[n - 1] == second[m - 1]);
            assert(batch_steps(all, n) =~= batch_steps(first, first.len() as int) + batch_steps(
                second,
                m,
            ));
        }
    } else if first.len() == 0 {
        assert(batch_steps(all, 0) =~= batch_steps(first, 0) + batch_steps(second, 0));
    }
}

/// A batch that joins two batches executes the one and then the other.
pub proof fn law_batch_is_sequential(
    first: Vec<DashboardCmd>,
    second: Vec<DashboardCmd>,
    joined: Vec<DashboardCmd>,
)
    requires
        joined@ == first@ + second@,
    ensures
        steps_of(DashboardCmd::Batch(joined)) == steps_of(DashboardCmd::Batch(first)) + steps_of(
            DashboardCmd::Batch(second),
        ),
{
    batch_steps_split(first@, second@, joined@.len() as int);
}

/// A telemetry query and where its result goes.
#[derive(Debug, Clone)]
pub enum TelemetryRequest {
    /// Events for the timeline.
    Timeline { limit: usize, filter: EventFilter },
    /// Decisions for the explainability screen.
    Decisions { limit: usize },
    /// Decisions for the candidate ranking.
    Candidates { limit: usize },
    /// The same decisions for both.
    DecisionsAndCandidates { limit: usize },
}

/// What to query for the active screen.
pub fn telemetry_plan(model: &DashboardModel) -> (plan: Vec<TelemetryRequest>)
    ensures
        match model.screen {
            Screen::Overview => {
                &&& plan@.len() == 2
                &&& plan@[0] matches TelemetryRequest::Timeline { limit, filter } && limit == 80
                    && filter.severities@.len() == 0 && filter.event_types@.len() == 0
                &&& plan@[1] == (TelemetryRequest::DecisionsAndCandidates { limit: 40 })
            },
            Screen::Timeline => {
                &&& plan@.len() == 1
                &&& plan@[0] matches TelemetryRequest::Timeline { limit, filter } && limit == 50
                    && call_ensures(SeverityFilter::to_event_filter, (model.timeline_filter,), filter)
            },
            Screen::Explainability => plan@ == seq![TelemetryRequest::Decisions { limit: 20 }],
            Screen::Candidates => plan@ == seq![TelemetryRequest::Candidates { limit: 40 }],
            Screen::Ballast | Screen::LogSearch | Screen::Diagnostics => plan@.len() == 0,
        },
{
    match model.screen {
        Screen::Overview => vec![
            TelemetryRequest::Timeline { limit: 80, filter: EventFilter::default() },
            TelemetryRequest::DecisionsAndCandidates { limit: 40 },
        ],
        Screen::Timeline => vec![
            TelemetryRequest::Timeline {
                limit: 50,
                filter: model.timeline_filter.to_event_filter(),
            },
        ],
        Screen::Explainability => vec![TelemetryRequest::Decisions { limit: 20 }],
        Screen::Candidates => vec![TelemetryRequest::Candidates { limit: 40 }],
        Screen::Ballast | Screen::LogSearch | Screen::Diagnostics => Vec::new(),
    }
}

/// Setting one preference changes that one, leaves all others and makes the profile one of
/// the session; reloading changes nothing before the reply has come.
pub proof fn law_setting_changes_one_preference(
    profile: (UserPreferences, PreferenceProfileMode),
    action: PreferenceAction,
)
    ensures
        ({
            let (was, now) = (profile.0, changed_profile(profile, action).0);
            let mode = changed_profile(profile, action).1;
            match action {
                PreferenceAction::SetStartScreen(s) => now.start_screen == s && now
                    == (UserPreferences { start_screen: now.start_screen, ..was }) && mode
                    == PreferenceProfileMode::SessionOverride,
                PreferenceAction::SetDensity(d) => now.density == d && now == (UserPreferences {
                    density: now.density,
                    ..was
                }) && mode == PreferenceProfileMode::SessionOverride,
                PreferenceAction::SetHintVerbosity(h) => now.hint_verbosity == h && now
                    == (UserPreferences { hint_verbosity: now.hint_verbosity, ..was }) && mode
                    == PreferenceProfileMode::SessionOverride,
                PreferenceAction::ResetToPersisted => now == was && mode == profile.1,
                PreferenceAction::RevertToDefaults => now == default_preferences() && mode
                    == PreferenceProfileMode::Defaults,
            }
        }),
{
}

/// The message on an action and its record name the value that was set.
pub proof fn law_message_names_the_value(action: PreferenceAction, reply: ActionReply)
    ensures
        ({
            let message = success_message(action, reply);
            let target = action_target(action);
            match action {
                PreferenceAction::SetStartScreen(s) => contains_text(message, start_screen_name(s))
                    && contains_text(target, start_screen_name(s)),
                PreferenceAction::SetDensity(d) => contains_text(message, density_name(d))
                    && contains_text(target, density_name(d)),
                PreferenceAction::SetHintVerbosity(h) => contains_text(message, hints_name(h))
                    && contains_text(target, hints_name(h)),
                _ => true,
            }
        }),
{
    match action {
        PreferenceAction::SetStartScreen(s) => {
            text_ends_in("default start screen set to "@, start_screen_name(s));
            text_ends_in("start_screen="@, start_screen_name(s));
        },
        PreferenceAction::SetDensity(d) => {
            text_ends_in("density set to "@, density_name(d));
            text_ends_in("density="@, density_name(d));
        },
        PreferenceAction::SetHintVerbosity(h) => {
            text_ends_in("hint verbosity set to "@, hints_name(h));
            text_ends_in("hint_verbosity="@, hints_name(h));
        },
        _ => {},
    }
}

proof fn text_ends_in(head: Seq<char>, tail: Seq<char>)
    ensures
        contains_text(head + tail, tail),
{
    let at = head.len() as int;
    assert((head + tail).subrange(at, at + tail.len()) =~= tail);
    assert(stands_at(head + tail, tail, at));
}

/// Different kinds of actions have different labels.
pub proof fn law_action_kinds_differ(a: PreferenceAction, b: PreferenceAction)
    requires
        action_kind(a) == action_kind(b),
    ensures
        a is SetStartScreen == b is SetStartScreen,
        a is SetDensity == b is SetDensity,
        a is SetHintVerbosity == b is SetHintVerbosity,
        a is ResetToPersisted == b is ResetToPersisted,
        a is RevertToDefaults == b is RevertToDefaults,
{
    reveal_strlit("set_start_screen");
    reveal_strlit("set_density");
    reveal_strlit("set_hint_verbosity");
    reveal_strlit("reset_to_persisted");
    reveal_strlit("revert_to_defaults");
    assert("set_start_screen"@.len() == 16 && "set_density"@.len() == 11
        && "set_hint_verbosity"@.len() == 18 && "reset_to_persisted"@.len() == 18
        && "revert_to_defaults"@.len() == 18);
    assert("set_hint_verbosity"@[0] == 's' && "reset_to_persisted"@[2] == 's'
        && "revert_to_defaults"@[2] == 'v' && "reset_to_persisted"@[0] == 'r'
        && "revert_to_defaults"@[0] == 'r');
}

/// The record on an action says under each name what the name says.
pub proof fn law_record_members(
    action: PreferenceAction,
    mode: PreferenceProfileMode,
    result: Seq<char>,
    hash: Seq<char>,
    error: Option<Seq<char>>,
)
    ensures
        ({
            let r = record_texts(action, mode, result, hash, error);
            &&& r.contains(("action"@, Some(action_kind(action))))
            &&& r.contains(("target"@, Some(action_target(action))))
            &&& r.contains(("result"@, Some(result)))
            &&& r.contains(("profile_mode"@, Some(profile_mode_name(mode))))
            &&& r.contains(("profile_hash"@, Some(hash)))
            &&& r.contains(("error"@, error))
            &&& r.contains(("actor"@, Some("tui-dashboard"@)))
        }),
{
    let r = record_texts(action, mode, result, hash, error);
    assert(r[0] == ("actor"@, Some("tui-dashboard"@)));
    assert(r[1] == ("action"@, Some(action_kind(action))));
    assert(r[2] == ("target"@, Some(action_target(action))));
    assert(r[3] == ("result"@, Some(result)));
    assert(r[4] == ("profile_mode"@, Some(profile_mode_name(mode))));
    assert(r[5] == ("profile_hash"@, Some(hash)));
    assert(r[6] == ("error"@, error));
}

/// A load is warned of exactly where something was wrong with the file, and a damaged file
/// in its own words; only a profile that was loaded counts as persisted.
pub proof fn law_load_is_warned_of(outcome: LoadOutcome)
    ensures
        load_warning(outcome) is None <==> outcome is Missing || outcome is Loaded
            && outcome->report.clean(),
        outcome is Corrupt ==> contains_text(load_warning(outcome)->0, outcome->Corrupt_details@),
        outcome is IoError ==> contains_text(load_warning(outcome)->0, outcome->IoError_details@),
        loaded_profile(outcome).1 == PreferenceProfileMode::Persisted <==> outcome is Loaded,
        loaded_profile(outcome).1 == PreferenceProfileMode::Defaults <==> !(outcome is Loaded),
        outcome is Loaded ==> loaded_profile(outcome).0 == outcome->Loaded_prefs,
        !(outcome is Loaded) ==> loaded_profile(outcome).0 == default_preferences(),
{
    match outcome {
        LoadOutcome::Corrupt { details, defaults } => {
            text_ends_in("preferences corrupted; using defaults: "@, details@);
        },
        LoadOutcome::IoError { details, defaults } => {
            text_ends_in("preferences read failed; using defaults: "@, details@);
        },
        _ => {},
    }
}

/// A profile that is taken over on request starts on its start screen without history, and
/// otherwise leaves screen and history; the help opens only over no other overlay, and the
/// data on screen stays.
pub proof fn law_taking_over_a_profile(
    before: DashboardModel,
    after: DashboardModel,
    state: PreferenceRuntimeState,
    start: bool,
    help: bool,
)
    requires
        took_over(before, after, state, start, help),
    ensures
        !start ==> after.screen == before.screen && after.screen_history@ == before.screen_history@,
        start ==> after.screen_history@.len() == 0,
        start && state.prefs.start_screen == StartScreen::Remember ==> after.screen == before.screen,
        before.active_overlay is Some || !help ==> after.active_overlay == before.active_overlay,
        after.density == state.prefs.density,
        after.hint_verbosity == state.prefs.hint_verbosity,
        after.daemon_state == before.daemon_state,
        after.notifications == before.notifications,
        after.timeline_events == before.timeline_events,
        after.candidates_list == before.candidates_list,
{
}

/// A notice is timed by the profile: a profile without a timeout lets every notice stay, a
/// profile with one decides for Info notices alone.
pub proof fn law_profile_times_info_notices(
    level: NotificationLevel,
    stays: Option<u64>,
    timeout_secs: u64,
)
    requires
        timeout_secs * 1000 <= u64::MAX,
    ensures
        timeout_secs == 0 ==> stay_under(level, stays, timeout_secs) is None,
        timeout_secs > 0 && level == NotificationLevel::Info ==> stay_under(
            level,
            stays,
            timeout_secs,
        ) == Some((1000 * timeout_secs) as u64),
        timeout_secs > 0 && level != NotificationLevel::Info ==> stay_under(
            level,
            stays,
            timeout_secs,
        ) == stays,
{
}

/// The notice on an action tells its own message, as an Info notice where the action went
/// well and as an Error that stays longer where it failed; a warning of a load stays.
pub proof fn law_notices_tell_the_result(
    result: Result<String, String>,
    notice: Notice,
    warning: String,
    load: Notice,
)
    requires
        call_ensures(action_notice, (result,), notice),
        call_ensures(load_notice, (warning,), load),
    ensures
        result is Ok ==> notice.level == NotificationLevel::Info && notice.message
            == result->Ok_0,
        result is Err ==> notice.level == NotificationLevel::Error && notice.message@.len()
            >= result->Err_0@.len(),
        notice.stays is Some,
        result is Err ==> notice.stays->0 == 10_000,
        result is Ok ==> notice.stays->0 == 5_000,
        load.level == NotificationLevel::Warning,
        load.message == warning,
        load.stays is None,
{
}

/// A single command does what its name says: only fetching reads the state, only a query
/// for telemetry queries it, only quitting quits, and a timer is started for its own
/// notification and time.
pub proof fn law_commands_do_what_they_say(cmd: DashboardCmd)
    requires
        !(cmd is Batch),
    ensures
        steps_of(cmd).len() <= 1,
        steps_of(cmd).contains(CommandStep::ReadState) <==> cmd is FetchData,
        steps_of(cmd).contains(CommandStep::QueryTelemetry) <==> cmd is FetchTelemetry,
        steps_of(cmd).contains(CommandStep::Quit) <==> cmd is Quit,
        cmd matches DashboardCmd::ScheduleNotificationExpiry { id, after } ==> steps_of(cmd)
            == seq![CommandStep::StartTimer { id, after }],
        cmd matches DashboardCmd::ExecutePreferenceAction(a) ==> steps_of(cmd)
            == seq![CommandStep::Prefer(a)],
        steps_of(cmd).len() == 0 <==> cmd is Idle || cmd is ScheduleTick,
{
    let s = steps_of(cmd);
    if s.len() == 1 {
        assert(s.contains(s[0]));
    }
}

/// What is queried fits the screen: the timeline asks for events under its own filter and
/// the overview for all of them, the explainability screen asks for decisions and the
/// candidates screen for candidates, and screens without telemetry ask for nothing.
pub proof fn law_queries_fit_the_screen(
    model: DashboardModel,
    plan: Vec<TelemetryRequest>,
    severity: Seq<char>,
    event_type: Seq<char>,
)
    requires
        call_ensures(telemetry_plan, (&model,), plan),
    ensures
        model.screen == Screen::Timeline ==> plan@.len() == 1 && (plan@[0] matches
            TelemetryRequest::Timeline { limit, filter } && limit > 0 && filter.accepts(
            severity,
            event_type,
        ) == filter_passes(model.timeline_filter, severity)),
        model.screen == Screen::Overview ==> plan@.len() == 2 && (plan@[0] matches
            TelemetryRequest::Timeline { limit, filter } && limit > 0 && filter.accepts(
            severity,
            event_type,
        )) && plan@[1] is DecisionsAndCandidates,
        model.screen == Screen::Explainability ==> plan@.len() == 1 && plan@[0] is Decisions,
        model.screen == Screen::Candidates ==> plan@.len() == 1 && plan@[0] is Candidates,
        plan@.len() == 0 <==> model.screen == Screen::Ballast || model.screen == Screen::LogSearch
            || model.screen == Screen::Diagnostics,
{
    if model.screen == Screen::Timeline {
        let filter = plan@[0]->filter;
        law_event_filter_agrees(model.timeline_filter, filter, severity, event_type);
    }
}

/// The mode alone decides what is run, and the fallback gets the same file, times and
/// paths.
pub proof fn law_mode_decides_what_runs(config: DashboardRuntimeConfig, plan: RuntimePlan)
    requires
        call_ensures(run_dashboard, (&config,), plan),
    ensures
        plan is Cockpit <==> config.mode == DashboardRuntimeMode::NewCockpit,
        plan matches RuntimePlan::Legacy(l) ==> l.state_file == config.state_file && l.refresh
            == config.refresh && l.monitor_paths@ == config.monitor_paths@,
{
}

/// An action is persisted where there is a path, except that a reset reads the file
/// instead; the path and the environment never change.
pub proof fn law_actions_are_persisted(
    state: &mut PreferenceRuntimeState,
    action: PreferenceAction,
    step: ActionStep,
)
    requires
        call_ensures(PreferenceRuntimeState::begin_action, (state, action), step),
    ensures
        action is ResetToPersisted ==> (step matches ActionStep::Reload(p) ==> old(state).path
            == Some(p)) && (step is Reload <==> old(state).path is Some) && !(step is Persist),
        !(action is ResetToPersisted) ==> step == ActionStep::Persist(old(state).path),
        final(state).path == old(state).path,
        final(state).env_contrast == old(state).env_contrast,
        final(state).env_motion == old(state).env_motion,
        action is RevertToDefaults ==> final(state).prefs == default_preferences(),
        action matches PreferenceAction::SetDensity(d) ==> final(state).prefs.density == d,
        action matches PreferenceAction::SetStartScreen(s) ==> final(state).prefs.start_screen == s,
        action matches PreferenceAction::SetHintVerbosity(h) ==> final(state).prefs.hint_verbosity
            == h,
{
}

/// An action that could not be stored fails with the error of the store and leaves the
/// model as it was; one that could succeeds, and the model shows the profile.
pub proof fn law_failed_actions_leave_the_model(
    state: &mut PreferenceRuntimeState,
    action: PreferenceAction,
    reply: ActionReply,
    model: &mut DashboardModel,
    result: Result<String, String>,
)
    requires
        answers(reply, action),
        call_ensures(
            PreferenceRuntimeState::execute_action,
            (state, action, reply, model),
            result,
        ),
    ensures
        result is Err <==> reply matches ActionReply::Persisted(Some(_)),
        reply matches ActionReply::Persisted(Some(e)) ==> result == Err::<String, String>(e)
            && *final(model) == *old(model),
        result is Ok ==> final(model).density == final(state).prefs.density && final(model).hint_verbosity == final(state).prefs.hint_verbosity && final(model).daemon_state == old(model).daemon_state,
        reply is Persisted ==> final(state).prefs == old(state).prefs,
        reply matches ActionReply::Reloaded(LoadOutcome::Loaded { prefs, report }) ==> final(state).prefs == prefs && final(state).profile_mode == PreferenceProfileMode::Persisted,
        reply is Nothing ==> final(state).prefs == default_preferences(),
{
}

/// A session starts with what was loaded, and without a file with the defaults and no
/// warning.
pub proof fn law_session_starts_with_what_was_loaded(
    path: Option<String>,
    loaded: Option<LoadOutcome>,
    contrast: ContrastMode,
    motion: MotionMode,
    started: (PreferenceRuntimeState, Option<String>),
)
    requires
        call_ensures(PreferenceRuntimeState::load, (path, loaded, contrast, motion), started),
    ensures
        started.0.path == path,
        started.0.env_contrast == contrast,
        started.0.env_motion == motion,
        loaded matches Some(LoadOutcome::Loaded { prefs, report }) ==> started.0.prefs == prefs
            && (started.1 is Some <==> !report.clean()),
        !(loaded is Some && loaded->0 is Loaded) ==> started.0.prefs == default_preferences(),
        loaded is None || loaded->0 is Missing ==> started.1 is None,
        loaded is Some && (loaded->0 is Corrupt || loaded->0 is IoError) ==> started.1 is Some,
{
}

/// The older dashboard gets the same state file, interval and paths.
pub proof fn law_legacy_configuration_keeps_its_values(
    config: DashboardRuntimeConfig,
    legacy: LegacyDashboardConfig,
)
    requires
        call_ensures(DashboardRuntimeConfig::as_legacy_config, (&config,), legacy),
    ensures
        legacy.state_file == config.state_file,
        legacy.refresh == config.refresh,
        legacy.monitor_paths@ == config.monitor_paths@,
{
}

/// The record of an action tells whether it succeeded and why it failed; nothing but the
/// error of a failure is recorded as one.
pub proof fn law_outcome_is_recorded(
    state: PreferenceRuntimeState,
    action: PreferenceAction,
    result: Result<String, String>,
    encoded: Option<Vec<u8>>,
    sample: TelemetrySample,
)
    requires
        call_ensures(PreferenceRuntimeState::action_sample, (&state, action, &result, encoded), sample),
    ensures
        sample.source@ == "dashboard.preferences"@,
        sample.kind@ == action_kind(action),
        exists|texts: Seq<(Seq<char>, Option<Seq<char>>)>|
            {
                &&& sample.detail@ == #[trigger] json_object(
                    texts,
                    seq![("schema_version"@, state.prefs.schema_version as u64)],
                )
                &&& texts.contains(("actor"@, Some("tui-dashboard"@)))
                &&& texts.contains(("action"@, Some(action_kind(action))))
                &&& texts.contains(("target"@, Some(action_target(action))))
                &&& texts.contains(("profile_mode"@, Some(profile_mode_name(state.profile_mode))))
                &&& result is Ok ==> texts.contains(("result"@, Some("ok"@))) && texts.contains(
                    ("error"@, None),
                )
                &&& result is Err ==> texts.contains(("result"@, Some("error"@)))
                    && texts.contains(("error"@, Some(result->Err_0@)))
                &&& encoded is None ==> texts.contains(("profile_hash"@, Some("unavailable"@)))
                &&& encoded is Some ==> texts.contains(
                    ("profile_hash"@, Some(hex(sha256_of(encoded->0@)))),
                )
            },
{
    let hash = hash_text_of(
        match encoded {
            Some(bytes) => Some(bytes@),
            None => None,
        },
    );
    let told = match result {
        Ok(_) => "ok"@,
        Err(_) => "error"@,
    };
    let error = match result {
        Ok(_) => None,
        Err(e) => Some(e@),
    };
    let texts = record_texts(action, state.profile_mode, told, hash, error);
    assert(texts[0] == ("actor"@, Some("tui-dashboard"@)));
    assert(texts[1] == ("action"@, Some(action_kind(action))));
    assert(texts[2] == ("target"@, Some(action_target(action))));
    assert(texts[3] == ("result"@, Some(told)));
    assert(texts[4] == ("profile_mode"@, Some(profile_mode_name(state.profile_mode))));
    assert(texts[5] == ("profile_hash"@, Some(hash)));
    assert(texts[6] == ("error"@, error));
}

/// A recorded outcome carries the result and the error that it was given.
pub proof fn law_record_carries_the_outcome(
    state: PreferenceRuntimeState,
    action: PreferenceAction,
    result: &str,
    error: Option<String>,
    encoded: Option<Vec<u8>>,
    sample: TelemetrySample,
)
    requires
        call_ensures(
            PreferenceRuntimeState::record_action_outcome,
            (&state, action, result, error, encoded),
            sample,
        ),
    ensures
        sample.source@ == "dashboard.preferences"@,
        sample.kind@ == action_kind(action),
        exists|texts: Seq<(Seq<char>, Option<Seq<char>>)>|
            {
                &&& sample.detail@ == #[trigger] json_object(
                    texts,
                    seq![("schema_version"@, state.prefs.schema_version as u64)],
                )
                &&& texts.contains(("result"@, Some(result@)))
                &&& error is None ==> texts.contains(("error"@, None))
                &&& error is Some ==> texts.contains(("error"@, Some(error->0@)))
                &&& encoded is None ==> texts.contains(("profile_hash"@, Some("unavailable"@)))
                &&& encoded is Some ==> texts.contains(
                    ("profile_hash"@, Some(hex(sha256_of(encoded->0@)))),
                )
            },
{
    let hash = hash_text_of(
        match encoded {
            Some(bytes) => Some(bytes@),
            None => None,
        },
    );
    let texts = record_texts(action, state.profile_mode, result@, hash, text_view(error));
    assert(texts[3] == ("result"@, Some(result@)));
    assert(texts[5] == ("profile_hash"@, Some(hash)));
    assert(texts[6] == ("error"@, text_view(error)));
}

/// Failures are told as errors that stay longer than successes, and a warning about the
/// load stays.
pub proof fn law_notices_of_actions(
    result: Result<String, String>,
    notice: Notice,
    warning: String,
    warned: Notice,
)
    requires
        call_ensures(action_notice, (result,), notice),
        call_ensures(load_notice, (warning,), warned),
    ensures
        notice.level == NotificationLevel::Error <==> result is Err,
        notice.level == NotificationLevel::Info <==> result is Ok,
        result is Ok ==> notice.message == result->Ok_0 && notice.stays == Some(5_000u64),
        result is Err ==> notice.stays == Some(10_000u64) && notice.message@.skip(
            notice.message@.len() - result->Err_0@.len(),
        ) == result->Err_0@ && notice.message@.len() > result->Err_0@.len(),
        warned.level == NotificationLevel::Warning && warned.message == warning
            && warned.stays is None,
{
    reveal_strlit("preference update failed: ");
}

/// A profile changes how long a notice stays and nothing else of it.
pub proof fn law_profile_keeps_the_notice(
    state: PreferenceRuntimeState,
    notice: Notice,
    timed: Notice,
)
    requires
        call_ensures(PreferenceRuntimeState::profile_notice, (&state, notice), timed),
    ensures
        timed.level == notice.level,
        timed.message == notice.message,
        notice.stays is None && notice.level != NotificationLevel::Info ==> timed.stays is None,
{
}

/// Taking a profile over sets what the model prefers, keeps what it shows, moves to the
/// start screen only where asked to, and opens help over no other overlay.
pub proof fn law_profile_is_taken_over(
    state: PreferenceRuntimeState,
    model: &mut DashboardModel,
    start: bool,
    help: bool,
)
    requires
        call_ensures(PreferenceRuntimeState::apply_to_model, (&state, model, start, help), ()),
    ensures
        final(model).density == state.prefs.density,
        final(model).hint_verbosity == state.prefs.hint_verbosity,
        final(model).preferred_start_screen == state.prefs.start_screen,
        final(model).preference_profile_mode == state.profile_mode,
        !start ==> final(model).screen == old(model).screen && final(model).screen_history@
            == old(model).screen_history@,
        !help ==> final(model).active_overlay == old(model).active_overlay,
        old(model).active_overlay is Some ==> final(model).active_overlay
            == old(model).active_overlay,
        help && state.prefs.show_help_on_start && old(model).active_overlay is None
            ==> final(model).active_overlay == Some(Overlay::Help),
        !state.prefs.show_help_on_start ==> final(model).active_overlay == old(model).active_overlay,
        final(model).daemon_state == old(model).daemon_state,
        final(model).timeline_events == old(model).timeline_events,
        final(model).notifications == old(model).notifications,
{
}

} // verus!
