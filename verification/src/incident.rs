//! Incident workflow shortcuts for high-pressure scenarios.
//!
//! When disk pressure escalates, operators need short paths to ballast
//! release, decision evidence, critical events and pending candidates. Every
//! shortcut is deterministic and keyboard-first, and all of them can be turned
//! off with [`HintVerbosity::Off`].

use vstd::prelude::*;

use crate::model::screen_number;
use crate::input::KeyEvent;
use crate::input::KeyCode;
use crate::input::InputContext;
use crate::input::InputAction;
use crate::input::reading;
use crate::input::acts;
use crate::model::DaemonState;
use crate::model::Screen;
use crate::order::law_filter_is_subsequence;
use crate::order::subsequence;
use crate::preferences::HintVerbosity;
use crate::text::lowered;
use crate::text::text_eq;
use crate::text::to_lower;

verus! {

/// Incident severity derived from daemon pressure state, in ascending order.
#[derive(Debug, Clone, Copy, PartialEq, Eq, PartialOrd, Ord, Hash, Structural)]
pub enum IncidentSeverity {
    /// No pressure concern, normal operations.
    Normal,
    /// Moderate pressure detected, awareness recommended.
    Elevated,
    /// High pressure, active monitoring and preparation needed.
    High,
    /// Critical pressure, immediate action required.
    Critical,
}

/// The position of a severity in ascending order.
pub open spec fn severity_rank(s: IncidentSeverity) -> int {
    match s {
        IncidentSeverity::Normal => 0,
        IncidentSeverity::Elevated => 1,
        IncidentSeverity::High => 2,
        IncidentSeverity::Critical => 3,
    }
}

/// The severity of a pressure level, read without regard to case. A level
/// that is not known counts as normal.
pub open spec fn level_severity(level: Seq<char>) -> IncidentSeverity {
    let name = lowered(level);
    if name == "critical"@ || name == "red"@ || name == "emergency"@ {
        IncidentSeverity::Critical
    } else if name == "high"@ || name == "orange"@ {
        IncidentSeverity::High
    } else if name == "elevated"@ || name == "yellow"@ || name == "warning"@ {
        IncidentSeverity::Elevated
    } else {
        IncidentSeverity::Normal
    }
}

/// The severity of a daemon snapshot; normal where there is none.
pub open spec fn state_severity(state: Option<DaemonState>) -> IncidentSeverity {
    match state {
        Some(s) => level_severity(s.pressure.overall@),
        None => IncidentSeverity::Normal,
    }
}

/// The label of a severity.
pub open spec fn severity_label(s: IncidentSeverity) -> Seq<char> {
    match s {
        IncidentSeverity::Normal => "NORMAL"@,
        IncidentSeverity::Elevated => "ELEVATED"@,
        IncidentSeverity::High => "HIGH"@,
        IncidentSeverity::Critical => "CRITICAL"@,
    }
}

impl IncidentSeverity {
    /// Classify from the daemon's overall pressure level.
    ///
    /// Unknown strings map to `Normal` (fail-open for display purposes).
    pub fn from_pressure_level(level: &str) -> (s: Self)
        ensures
            s == level_severity(level@),
    {
        let name = to_lower(level);
        let n = name.as_str();
        if text_eq(n, "critical") || text_eq(n, "red") || text_eq(n, "emergency") {
            Self::Critical
        } else if text_eq(n, "high") || text_eq(n, "orange") {
            Self::High
        } else if text_eq(n, "elevated") || text_eq(n, "yellow") || text_eq(n, "warning") {
            Self::Elevated
        } else {
            Self::Normal
        }
    }

    /// Derive severity from a full daemon state snapshot.
    ///
    /// Returns `Normal` when no state is available (degraded mode).
    pub fn from_daemon_state(state: Option<&DaemonState>) -> (s: Self)
        ensures
            s == (match state {
                Some(d) => level_severity(d.pressure.overall@),
                None => IncidentSeverity::Normal,
            }),
    {
        match state {
            Some(d) => Self::from_pressure_level(d.pressure.overall.as_str()),
            None => Self::Normal,
        }
    }

    /// Human-readable label for display.
    pub fn label(self) -> (l: &'static str)
        ensures
            l@ == severity_label(self),
    {
        match self {
            Self::Normal => "NORMAL",
            Self::Elevated => "ELEVATED",
            Self::High => "HIGH",
            Self::Critical => "CRITICAL",
        }
    }

    /// Position in ascending order.
    pub fn rank(self) -> (r: u8)
        ensures
            r == severity_rank(self),
    {
        match self {
            Self::Normal => 0,
            Self::Elevated => 1,
            Self::High => 2,
            Self::Critical => 3,
        }
    }

    /// Whether this severity warrants showing incident hints.
    pub fn shows_hints(self) -> (b: bool)
        ensures
            b == (severity_rank(self) >= 1),
    {
        match self {
            Self::Elevated | Self::High | Self::Critical => true,
            Self::Normal => false,
        }
    }

    /// Whether this severity warrants an alert banner.
    pub fn shows_banner(self) -> (b: bool)
        ensures
            b == (severity_rank(self) >= 2),
    {
        match self {
            Self::High | Self::Critical => true,
            _ => false,
        }
    }
}

/// The severity of a level does not depend on the case of its letters.
pub proof fn law_severity_ignores_case(a: Seq<char>, b: Seq<char>)
    requires
        lowered(a) == lowered(b),
    ensures
        level_severity(a) == level_severity(b),
{
}

/// A single step in the incident triage playbook.
#[derive(Debug, Clone, Copy, PartialEq, Eq)]
pub struct PlaybookEntry {
    /// Short action label (e.g., "Release ballast").
    pub label: &'static str,
    /// Detailed description of what to check and why.
    pub description: &'static str,
    /// Target screen for this triage step.
    pub target: Screen,
    /// Keyboard shortcut hint (e.g., "x", "5", "2").
    pub shortcut_hint: &'static str,
    /// Minimum severity at which this entry is relevant.
    pub min_severity: IncidentSeverity,
}

/// The triage playbook, most urgent step first.
pub open spec fn playbook() -> Seq<PlaybookEntry> {
    seq![
        PlaybookEntry {
            label: "Release ballast",
            description: "Free disk space immediately by releasing pre-allocated ballast files. Check per-volume inventory and release from the most constrained mount.",
            target: Screen::Ballast,
            shortcut_hint: "x or 5",
            min_severity: IncidentSeverity::High,
        },
        PlaybookEntry {
            label: "Check pressure overview",
            description: "Review overall disk pressure, per-mount free percentages, and consumption rates. Identify which mounts are under pressure and trending.",
            target: Screen::Overview,
            shortcut_hint: "1",
            min_severity: IncidentSeverity::Elevated,
        },
        PlaybookEntry {
            label: "Review critical events",
            description: "Check the timeline for recent critical events: deletions, pressure changes, and error spikes. Filter to critical severity for fast triage.",
            target: Screen::Timeline,
            shortcut_hint: "2",
            min_severity: IncidentSeverity::Elevated,
        },
        PlaybookEntry {
            label: "Inspect deletion decisions",
            description: "Review recent deletion decisions and their rationale. Check for vetoes, policy overrides, and scoring factor breakdowns.",
            target: Screen::Explainability,
            shortcut_hint: "3",
            min_severity: IncidentSeverity::High,
        },
        PlaybookEntry {
            label: "Review pending candidates",
            description: "Examine the candidate queue for targets awaiting deletion. Verify scores, sizes, and reclaim potential before the next scan cycle.",
            target: Screen::Candidates,
            shortcut_hint: "4",
            min_severity: IncidentSeverity::High,
        },
        PlaybookEntry {
            label: "Check daemon health",
            description: "Verify daemon process health, thread status, memory usage, and error counters. Look for signs of starvation or degraded performance.",
            target: Screen::Diagnostics,
            shortcut_hint: "7",
            min_severity: IncidentSeverity::Elevated,
        },
        PlaybookEntry {
            label: "Search logs for errors",
            description: "Query JSONL/SQLite event logs for error patterns, failed deletions, or scanner stalls. Useful for post-incident root cause analysis.",
            target: Screen::LogSearch,
            shortcut_hint: "6",
            min_severity: IncidentSeverity::Elevated,
        },
    ]
}

/// The triage playbook, most urgent step first.
pub fn incident_playbook() -> (entries: Vec<PlaybookEntry>)
    ensures
        entries@ == playbook(),
{
    vec![
        PlaybookEntry {
            label: "Release ballast",
            description: "Free disk space immediately by releasing pre-allocated ballast files. Check per-volume inventory and release from the most constrained mount.",
            target: Screen::Ballast,
            shortcut_hint: "x or 5",
            min_severity: IncidentSeverity::High,
        },
        PlaybookEntry {
            label: "Check pressure overview",
            description: "Review overall disk pressure, per-mount free percentages, and consumption rates. Identify which mounts are under pressure and trending.",
            target: Screen::Overview,
            shortcut_hint: "1",
            min_severity: IncidentSeverity::Elevated,
        },
        PlaybookEntry {
            label: "Review critical events",
            description: "Check the timeline for recent critical events: deletions, pressure changes, and error spikes. Filter to critical severity for fast triage.",
            target: Screen::Timeline,
            shortcut_hint: "2",
            min_severity: IncidentSeverity::Elevated,
        },
        PlaybookEntry {
            label: "Inspect deletion decisions",
            description: "Review recent deletion decisions and their rationale. Check for vetoes, policy overrides, and scoring factor breakdowns.",
            target: Screen::Explainability,
            shortcut_hint: "3",
            min_severity: IncidentSeverity::High,
        },
        PlaybookEntry {
            label: "Review pending candidates",
            description: "Examine the candidate queue for targets awaiting deletion. Verify scores, sizes, and reclaim potential before the next scan cycle.",
            target: Screen::Candidates,
            shortcut_hint: "4",
            min_severity: IncidentSeverity::High,
        },
        PlaybookEntry {
            label: "Check daemon health",
            description: "Verify daemon process health, thread status, memory usage, and error counters. Look for signs of starvation or degraded performance.",
            target: Screen::Diagnostics,
            shortcut_hint: "7",
            min_severity: IncidentSeverity::Elevated,
        },
        PlaybookEntry {
            label: "Search logs for errors",
            description: "Query JSONL/SQLite event logs for error patterns, failed deletions, or scanner stalls. Useful for post-incident root cause analysis.",
            target: Screen::LogSearch,
            shortcut_hint: "6",
            min_severity: IncidentSeverity::Elevated,
        },
    ]
}

/// The steps relevant at a severity, in playbook order.
pub open spec fn relevant_steps(severity: IncidentSeverity) -> Seq<PlaybookEntry> {
    playbook().filter(
        |e: PlaybookEntry| severity_rank(e.min_severity) <= severity_rank(severity),
    )
}

/// Filter playbook entries to those relevant at the given severity.
pub fn playbook_for_severity(severity: IncidentSeverity) -> (entries: Vec<PlaybookEntry>)
    ensures
        entries@ == relevant_steps(severity),
{
    let all = incident_playbook();
    let mut entries: Vec<PlaybookEntry> = Vec::new();
    let ghost keep = |e: PlaybookEntry| severity_rank(e.min_severity) <= severity_rank(severity);
    let mut i: usize = 0;
    assert(all@.take(0).filter(keep) == Seq::<PlaybookEntry>::empty()) by {
        reveal(Seq::filter);
    }
    while i < all.len()
        invariant
            i <= all@.len(),
            keep == (|e: PlaybookEntry| severity_rank(e.min_severity) <= severity_rank(severity)),
            entries@ == all@.take(i as int).filter(keep),
        decreases all.len() - i,
    {
        proof {
            reveal(Seq::filter);
            assert(all@.take(i + 1).drop_last() == all@.take(i as int));
        }
        if all[i].min_severity.rank() <= severity.rank() {
            entries.push(all[i]);
        }
        i += 1;
    }
    assert(all@.take(all@.len() as int) == all@);
    entries
}

proof fn filter_by_severity_twice(
    steps: Seq<PlaybookEntry>,
    lower: IncidentSeverity,
    higher: IncidentSeverity,
)
    requires
        severity_rank(lower) <= severity_rank(higher),
    ensures
        ({
            let fewer = |e: PlaybookEntry| severity_rank(e.min_severity) <= severity_rank(lower);
            let more = |e: PlaybookEntry| severity_rank(e.min_severity) <= severity_rank(higher);
            steps.filter(more).filter(fewer) == steps.filter(fewer)
        }),
    decreases steps.len(),
{
    reveal(Seq::filter);
    let fewer = |e: PlaybookEntry| severity_rank(e.min_severity) <= severity_rank(lower);
    let more = |e: PlaybookEntry| severity_rank(e.min_severity) <= severity_rank(higher);
    if steps.len() > 0 {
        let rest = steps.drop_last();
        filter_by_severity_twice(rest, lower, higher);
        if more(steps.last()) {
            let kept = rest.filter(more).push(steps.last());
            assert(steps.filter(more) == kept);
            assert(kept.drop_last() =~= rest.filter(more));
        }
    }
}

/// The playbook of a severity comes from that of any higher one by leaving
/// steps out: no step is lost as pressure grows, and the order stays.
pub proof fn law_playbook_grows_with_severity(lower: IncidentSeverity, higher: IncidentSeverity)
    requires
        severity_rank(lower) <= severity_rank(higher),
    ensures
        subsequence(relevant_steps(lower), relevant_steps(higher)),
{
    filter_by_severity_twice(playbook(), lower, higher);
    law_filter_is_subsequence(
        relevant_steps(higher),
        |e: PlaybookEntry| severity_rank(e.min_severity) <= severity_rank(lower),
    );
}

/// Nothing is relevant in normal operation, and at high pressure the whole
/// playbook is, starting with ballast release.
pub proof fn law_playbook_extremes()
    ensures
        relevant_steps(IncidentSeverity::Normal).len() == 0,
        relevant_steps(IncidentSeverity::High) == playbook(),
        relevant_steps(IncidentSeverity::Critical) == playbook(),
        playbook()[0].target == Screen::Ballast,
{
    let none = |e: PlaybookEntry|
        severity_rank(e.min_severity) <= severity_rank(IncidentSeverity::Normal);
    playbook().lemma_all_neg_filter_empty(none);
    lemma_filter_all(playbook(), IncidentSeverity::High);
    lemma_filter_all(playbook(), IncidentSeverity::Critical);
}

proof fn lemma_filter_all(s: Seq<PlaybookEntry>, severity: IncidentSeverity)
    requires
        forall|i: int|
            0 <= i < s.len() ==> severity_rank((#[trigger] s[i]).min_severity) <= severity_rank(
                severity,
            ),
    ensures
        s.filter(|e: PlaybookEntry| severity_rank(e.min_severity) <= severity_rank(severity)) == s,
    decreases s.len(),
{
    reveal(Seq::filter);
    if s.len() > 0 {
        lemma_filter_all(s.drop_last(), severity);
        assert(s =~= s.drop_last().push(s.last()));
    }
}

/// A context-aware hint shown in the status bar or screen footer during incidents.
#[derive(Debug, Clone, PartialEq, Eq)]
pub struct IncidentHint {
    /// Short hint text (e.g., "Press x to quick-release ballast").
    pub text: String,
    /// Keyboard shortcut referenced in the hint.
    pub shortcut: &'static str,
}

/// Text and shortcut of each hint.
pub open spec fn hint_texts(hints: Seq<IncidentHint>) -> Seq<(Seq<char>, Seq<char>)> {
    hints.map_values(|h: IncidentHint| (h.text@, h.shortcut@))
}

/// The hint that a screen adds during an incident.
pub open spec fn screen_hints(severity: IncidentSeverity, screen: Screen) -> Seq<
    (Seq<char>, Seq<char>),
> {
    match screen {
        Screen::Overview => if severity_rank(severity) >= 2 {
            seq![("[x] Quick-release ballast"@, "x"@)]
        } else {
            seq![]
        },
        Screen::Ballast => seq![("[r] Release selected volume's ballast"@, "r"@)],
        Screen::Timeline => seq![("[f] Filter to critical events only"@, "f"@)],
        _ => seq![],
    }
}

/// The hints for a severity, screen and verbosity: none in normal operation or
/// with hints off, otherwise the playbook hint, and unless hints are minimal
/// the hint of the screen.
pub open spec fn expected_hints(
    severity: IncidentSeverity,
    screen: Screen,
    verbosity: HintVerbosity,
) -> Seq<(Seq<char>, Seq<char>)> {
    if verbosity == HintVerbosity::Off || severity == IncidentSeverity::Normal {
        seq![]
    } else {
        seq![
            ("[!] Incident playbook ("@ + severity_label(severity) + " pressure)"@, "!"@),
        ] + (if verbosity == HintVerbosity::Minimal {
            seq![]
        } else {
            screen_hints(severity, screen)
        })
    }
}

/// Generate incident-aware hints based on current severity and screen.
///
/// Returns an empty vec when severity is `Normal` or hint verbosity is `Off`.
pub fn incident_hints(
    severity: IncidentSeverity,
    screen: Screen,
    hint_verbosity: HintVerbosity,
) -> (hints: Vec<IncidentHint>)
    ensures
        hint_texts(hints@) == expected_hints(severity, screen, hint_verbosity),
{
    let mut hints: Vec<IncidentHint> = Vec::new();
    if hint_verbosity == HintVerbosity::Off || !severity.shows_hints() {
        assert(hint_texts(hints@) =~= seq![]);
        return hints;
    }
    let mut text = "[!] Incident playbook (".to_owned();
    text.append(severity.label());
    text.append(" pressure)");
    hints.push(IncidentHint { text, shortcut: "!" });
    match screen {
        Screen::Overview => {
            if severity.rank() >= 2 {
                hints.push(
                    IncidentHint { text: "[x] Quick-release ballast".to_owned(), shortcut: "x" },
                );
            }
        },
        Screen::Ballast => {
            hints.push(
                IncidentHint {
                    text: "[r] Release selected volume's ballast".to_owned(),
                    shortcut: "r",
                },
            );
        },
        Screen::Timeline => {
            hints.push(
                IncidentHint { text: "[f] Filter to critical events only".to_owned(), shortcut: "f" },
            );
        },
        _ => {},
    }
    if hint_verbosity == HintVerbosity::Minimal {
        hints.truncate(1);
    }
    assert(hint_texts(hints@) =~= expected_hints(severity, screen, hint_verbosity));
    hints
}

/// Hints appear exactly when pressure is up and hints are not off; minimal
/// verbosity leaves a single one.
pub proof fn law_hint_presence(severity: IncidentSeverity, screen: Screen, verbosity: HintVerbosity)
    ensures
        expected_hints(severity, screen, verbosity).len() > 0 <==> severity
            != IncidentSeverity::Normal && verbosity != HintVerbosity::Off,
        verbosity == HintVerbosity::Minimal ==> expected_hints(severity, screen, verbosity).len()
            <= 1,
{
}

/// The alert banner of a severity, where it warrants one.
pub open spec fn banner_text(severity: IncidentSeverity) -> Option<Seq<char>> {
    let tail = " \u{2014} Press [!] for incident playbook, [x] to release ballast"@;
    match severity {
        IncidentSeverity::Critical => Some("!! CRITICAL PRESSURE"@ + tail),
        IncidentSeverity::High => Some("! HIGH PRESSURE"@ + tail),
        _ => None,
    }
}

/// Format an incident alert banner string for high/critical pressure.
///
/// Returns `None` when severity doesn't warrant a banner.
pub fn incident_banner(severity: IncidentSeverity) -> (banner: Option<String>)
    ensures
        match banner {
            Some(text) => banner_text(severity) == Some(text@),
            None => banner_text(severity) is None,
        },
{
    let mut text = match severity {
        IncidentSeverity::Critical => "!! CRITICAL PRESSURE".to_owned(),
        IncidentSeverity::High => "! HIGH PRESSURE".to_owned(),
        _ => {
            return None;
        },
    };
    text.append(" \u{2014} Press [!] for incident playbook, [x] to release ballast");
    Some(text)
}

/// Check whether incident shortcuts should be active: unless the operator has
/// turned hints off.
pub fn shortcuts_enabled(hint_verbosity: HintVerbosity) -> (b: bool)
    ensures
        b == (hint_verbosity != HintVerbosity::Off),
{
    hint_verbosity != HintVerbosity::Off
}

/// Every screen is the target of exactly one step of the playbook, and the last key of
/// the step's hint is the digit of that screen.
pub proof fn law_playbook_leads_to_every_screen(screen: Screen)
    ensures
        exists|i: int|
            0 <= i < playbook().len() && (#[trigger] playbook()[i]).target == screen,
        forall|i: int, j: int|
            #![trigger playbook()[i], playbook()[j]]
            0 <= i < playbook().len() && 0 <= j < playbook().len() && playbook()[i].target
                == playbook()[j].target ==> i == j,
        forall|i: int|
            0 <= i < playbook().len() ==> (#[trigger] playbook()[i]).shortcut_hint@.len() > 0
                && playbook()[i].shortcut_hint@.last() as int == 48 + screen_number(
                playbook()[i].target,
            ),
{
    reveal_strlit("x or 5");
    reveal_strlit("1");
    reveal_strlit("2");
    reveal_strlit("3");
    reveal_strlit("4");
    reveal_strlit("7");
    reveal_strlit("6");
    assert(playbook()[0].target == Screen::Ballast);
    assert(playbook()[1].target == Screen::Overview);
    assert(playbook()[2].target == Screen::Timeline);
    assert(playbook()[3].target == Screen::Explainability);
    assert(playbook()[4].target == Screen::Candidates);
    assert(playbook()[5].target == Screen::Diagnostics);
    assert(playbook()[6].target == Screen::LogSearch);
}

/// Pressing the key that a step hints at last goes to the step's own screen.
pub proof fn law_hinted_key_leads_to_the_target(i: int, from: Screen, key: KeyEvent)
    requires
        0 <= i < playbook().len(),
        key.code == KeyCode::Char(playbook()[i].shortcut_hint@.last()),
    ensures
        reading(key, InputContext { screen: from, active_overlay: None }) == acts(
            InputAction::Navigate(playbook()[i].target),
        ),
{
    law_playbook_leads_to_every_screen(playbook()[i].target);
}

/// Which screens the playbook sends to: none in normal operation, the ones to look at
/// from elevated pressure on, and those about freeing space from high pressure on.
pub proof fn law_playbook_screens_by_severity(severity: IncidentSeverity, screen: Screen)
    ensures
        (exists|i: int|
            0 <= i < relevant_steps(severity).len() && (#[trigger] relevant_steps(
                severity,
            )[i]).target == screen) <==> match screen {
            Screen::Ballast | Screen::Explainability | Screen::Candidates => severity
                == IncidentSeverity::High || severity == IncidentSeverity::Critical,
            _ => severity != IncidentSeverity::Normal,
        },
{
    let keep = |e: PlaybookEntry| severity_rank(e.min_severity) <= severity_rank(severity);
    let steps = relevant_steps(severity);
    law_playbook_leads_to_every_screen(screen);
    let k = choose|k: int| 0 <= k < playbook().len() && (#[trigger] playbook()[k]).target == screen;
    if keep(playbook()[k]) {
        playbook().lemma_filter_contains(keep, k);
        let i = choose|i: int| 0 <= i < steps.len() && steps[i] == playbook()[k];
        assert(steps[i].target == screen);
    }
    if exists|i: int| 0 <= i < steps.len() && (#[trigger] steps[i]).target == screen {
        let i = choose|i: int| 0 <= i < steps.len() && (#[trigger] steps[i]).target == screen;
        playbook().lemma_filter_pred(keep, i);
        playbook().lemma_filter_contains_rev(keep, steps[i]);
        let j = choose|j: int| 0 <= j < playbook().len() && playbook()[j] == steps[i];
        assert(playbook()[j].target == playbook()[k].target);
        assert(j == k);
    }
}

/// Releasing ballast comes first wherever it is offered, and looking at the overview comes
/// before every other step.
pub proof fn law_urgent_steps_come_first(severity: IncidentSeverity, i: int)
    requires
        0 <= i < relevant_steps(severity).len(),
    ensures
        relevant_steps(severity)[i].target == Screen::Ballast ==> i == 0,
        relevant_steps(severity)[i].target == Screen::Overview ==> i <= 1 && (i == 1
            ==> relevant_steps(severity)[0].target == Screen::Ballast),
{
    let steps = relevant_steps(severity);
    let keep = |e: PlaybookEntry| severity_rank(e.min_severity) <= severity_rank(severity);
    law_filter_is_subsequence(playbook(), keep);
    let at = choose|at: Seq<int>|
        crate::order::ascending(at) && #[trigger] crate::order::picked_at(steps, playbook(), at);
    law_playbook_leads_to_every_screen(Screen::Ballast);
    assert(0 <= at[i] < playbook().len());
    if i >= 1 {
        assert(at[i - 1] < at[i]);
        assert(0 <= at[i - 1] < playbook().len());
    }
    if i >= 2 {
        assert(at[i - 2] < at[i - 1]);
        assert(0 <= at[i - 2] < playbook().len());
    }
}

/// A worse level is never less severe: what is called green, yellow, orange and red is in
/// this order, and so are the names of the severities themselves.
pub proof fn law_severity_names(s: IncidentSeverity)
    ensures
        level_severity(severity_label(s)) == s,
        severity_rank(level_severity("green"@)) < severity_rank(level_severity("yellow"@))
            < severity_rank(level_severity("orange"@)) < severity_rank(level_severity("red"@)),
        level_severity("critical"@) == level_severity("red"@),
        level_severity("emergency"@) == level_severity("red"@),
        level_severity("warning"@) == level_severity("yellow"@),
{
    reveal_strlit("NORMAL");
    reveal_strlit("ELEVATED");
    reveal_strlit("HIGH");
    reveal_strlit("CRITICAL");
    reveal_strlit("critical");
    reveal_strlit("red");
    reveal_strlit("emergency");
    reveal_strlit("high");
    reveal_strlit("orange");
    reveal_strlit("elevated");
    reveal_strlit("yellow");
    reveal_strlit("warning");
    reveal_strlit("green");
    assert(lowered("CRITICAL"@) =~= "critical"@);
    assert(lowered("HIGH"@) =~= "high"@);
    assert(lowered("ELEVATED"@) =~= "elevated"@);
    assert(lowered("NORMAL"@).len() == 6 && lowered("NORMAL"@)[0] == 'n');
    assert(lowered("critical"@) =~= "critical"@);
    assert(lowered("red"@) =~= "red"@);
    assert(lowered("emergency"@) =~= "emergency"@);
    assert(lowered("orange"@) =~= "orange"@);
    assert(lowered("yellow"@) =~= "yellow"@);
    assert(lowered("warning"@) =~= "warning"@);
    assert(lowered("green"@) =~= "green"@);
    assert("orange"@[0] == 'o' && "yellow"@[0] == 'y' && "green"@[0] == 'g' && "red"@.len() == 3);
    assert("high"@.len() == 4 && "green"@.len() == 5 && "orange"@.len() == 6 && "warning"@.len()
        == 7 && "elevated"@.len() == 8 && "critical"@.len() == 8 && "emergency"@.len() == 9
        && "yellow"@.len() == 6 && "critical"@[0] == 'c' && "elevated"@[0] == 'e');
}

/// The banner appears exactly under high and critical pressure and tells the two apart,
/// and it appears only where hints do.
pub proof fn law_banner_presence(severity: IncidentSeverity)
    ensures
        banner_text(severity) is Some <==> severity == IncidentSeverity::High || severity
            == IncidentSeverity::Critical,
        banner_text(IncidentSeverity::High) != banner_text(IncidentSeverity::Critical),
        banner_text(severity) is Some ==> crate::text::contains_text(
            banner_text(severity)->0,
            severity_label(severity) + " PRESSURE"@,
        ),
{
    reveal_strlit("!! CRITICAL PRESSURE");
    reveal_strlit("! HIGH PRESSURE");
    reveal_strlit("CRITICAL");
    reveal_strlit("HIGH");
    reveal_strlit(" PRESSURE");
    let high = banner_text(IncidentSeverity::High)->0;
    let critical = banner_text(IncidentSeverity::Critical)->0;
    assert(high[1] != critical[1]);
    assert(high.subrange(2, 15) =~= "HIGH"@ + " PRESSURE"@);
    assert(critical.subrange(3, 20) =~= "CRITICAL"@ + " PRESSURE"@);
    assert(crate::text::stands_at(high, "HIGH"@ + " PRESSURE"@, 2));
    assert(crate::text::stands_at(critical, "CRITICAL"@ + " PRESSURE"@, 3));
}

/// Every hint starts with its shortcut in brackets, the first one opens the playbook, and
/// with hints in full there are never fewer than with minimal ones.
pub proof fn law_hints_name_their_keys(
    severity: IncidentSeverity,
    screen: Screen,
    verbosity: HintVerbosity,
    i: int,
)
    requires
        0 <= i < expected_hints(severity, screen, verbosity).len(),
    ensures
        ({
            let (text, key) = expected_hints(severity, screen, verbosity)[i];
            &&& key.len() == 1
            &&& text.len() > 3
            &&& text[0] == '[' && text[1] == key[0] && text[2] == ']'
            &&& i == 0 <==> key[0] == '!'
            &&& i > 0 ==> verbosity == HintVerbosity::Full
        }),
        expected_hints(severity, screen, verbosity)[0] == expected_hints(
            severity,
            Screen::Overview,
            HintVerbosity::Minimal,
        )[0],
        crate::text::contains_text(
            expected_hints(severity, screen, verbosity)[0].0,
            severity_label(severity),
        ),
{
    reveal_strlit("[!] Incident playbook (");
    reveal_strlit(" pressure)");
    reveal_strlit("!");
    reveal_strlit("[x] Quick-release ballast");
    reveal_strlit("x");
    reveal_strlit("[r] Release selected volume's ballast");
    reveal_strlit("r");
    reveal_strlit("[f] Filter to critical events only");
    reveal_strlit("f");
    let first = expected_hints(severity, screen, verbosity)[0].0;
    let name = severity_label(severity);
    assert(first.subrange(23, 23 + name.len() as int) =~= name);
    assert(crate::text::stands_at(first, name, 23));
}

/// Whatever warrants a banner warrants hints, and only normal operation warrants neither.
pub proof fn law_banner_implies_hints(s: IncidentSeverity, hints: bool, banner: bool)
    requires
        call_ensures(IncidentSeverity::shows_hints, (s,), hints),
        call_ensures(IncidentSeverity::shows_banner, (s,), banner),
    ensures
        banner ==> hints,
        hints <==> s != IncidentSeverity::Normal,
        banner <==> banner_text(s) is Some,
{
}

/// The hints that are handed out are the expected ones, text by text and key by key.
pub proof fn law_hints_are_handed_out_in_order(
    severity: IncidentSeverity,
    screen: Screen,
    verbosity: HintVerbosity,
    hints: Vec<IncidentHint>,
    i: int,
)
    requires
        call_ensures(incident_hints, (severity, screen, verbosity), hints),
        0 <= i < hints@.len(),
    ensures
        hints@.len() == expected_hints(severity, screen, verbosity).len(),
        hints@[i].text@ == expected_hints(severity, screen, verbosity)[i].0,
        hints@[i].shortcut@ == expected_hints(severity, screen, verbosity)[i].1,
{
    assert(hint_texts(hints@)[i] == (hints@[i].text@, hints@[i].shortcut@));
}

/// Shortcuts are offered unless hints are off.
pub proof fn law_shortcuts_follow_the_hints(verbosity: HintVerbosity, on: bool)
    requires
        call_ensures(shortcuts_enabled, (verbosity,), on),
    ensures
        !on <==> verbosity == HintVerbosity::Off,
{
}

/// The playbook that is handed out leads to every screen once, each step by the digit that
/// its hint ends in.
pub proof fn law_handed_out_playbook_leads_to_every_screen(
    entries: Vec<PlaybookEntry>,
    screen: Screen,
    i: int,
    j: int,
)
    requires
        call_ensures(incident_playbook, (), entries),
        0 <= i < entries@.len(),
        0 <= j < entries@.len(),
    ensures
        entries@.len() == 7,
        entries@[i].target == entries@[j].target ==> i == j,
        exists|k: int| 0 <= k < entries@.len() && (#[trigger] entries@[k]).target == screen,
{
    law_playbook_leads_to_every_screen(screen);
    law_playbook_leads_to_every_screen(entries@[i].target);
}

/// A banner is handed out exactly where one is warranted, with the expected words.
pub proof fn law_banner_is_handed_out(severity: IncidentSeverity, banner: Option<String>)
    requires
        call_ensures(incident_banner, (severity,), banner),
    ensures
        banner is Some <==> severity == IncidentSeverity::Critical || severity
            == IncidentSeverity::High,
        banner is Some ==> banner_text(severity) == Some(banner->0@),
{
    law_banner_presence(severity);
}

/// Without a daemon state nothing is wrong; with one it is as its overall level says.
pub proof fn law_severity_of_the_state(
    state: Option<&DaemonState>,
    s: IncidentSeverity,
    level: &str,
    of_level: IncidentSeverity,
)
    requires
        call_ensures(IncidentSeverity::from_daemon_state, (state,), s),
        call_ensures(IncidentSeverity::from_pressure_level, (level,), of_level),
    ensures
        state is None ==> s == IncidentSeverity::Normal,
        state is Some && state->0.pressure.overall@ == level@ ==> s == of_level,
{
}

} // verus!
