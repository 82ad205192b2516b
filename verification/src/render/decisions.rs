//! Explainability and candidates screens.

use vstd::prelude::*;

use crate::markup::alarm;
use crate::double::Double;
use crate::markup::Atom;
use crate::markup::Doc;
use crate::markup::Gauge;
use crate::markup::Ink;
use crate::markup::Pad;
use crate::markup::PieceV;
use crate::markup::Tone;
use crate::markup::badge;
use crate::markup::badge_in;
use crate::markup::bold;
use crate::markup::bold_fg;
use crate::markup::drawn;
use crate::markup::fg;
use crate::markup::fg_on;
use crate::markup::field;
use crate::markup::ground;
use crate::markup::header;
use crate::markup::in_bold;
use crate::markup::in_fg;
use crate::markup::in_fg_on;
use crate::markup::ink;
use crate::markup::labels;
use crate::markup::reads;
use crate::markup::nl;
use crate::markup::no_style;
use crate::markup::plain;
use crate::markup::styled;
use crate::markup::txt;
use crate::markup::unstyled;
use crate::model::DashboardModel;
use crate::preferences::HintVerbosity;
use crate::render::common::action_tone;
use crate::render::common::action_tone_of;
use crate::render::common::action_word;
use crate::render::common::action_word_of;
use crate::render::common::centered_window;
use crate::render::common::clamp;
use crate::render::common::clamped;
use crate::render::common::cursor_mark;
use crate::render::common::cursor_mark_of;
use crate::render::common::data_source_label;
use crate::render::common::dir_part;
use crate::render::common::file_part;
use crate::render::common::health_tone;
use crate::render::common::health_tone_of;
use crate::render::common::health_word;
use crate::render::common::health_word_of;
use crate::render::common::nav_hint_of;
use crate::render::common::page_width;
use crate::render::common::page_width_of;
use crate::render::common::policy_mode_color;
use crate::render::common::policy_tone_of;
use crate::render::common::row_cursor;
use crate::render::common::row_cursor_of;
use crate::render::common::row_ground;
use crate::render::common::row_ground_of;
use crate::render::common::section;
use crate::render::common::shortened;
use crate::render::common::source_label;
use crate::render::common::split_path_dir_file;
use crate::render::common::styled_action_word;
use crate::render::common::styled_action_word_of;
use crate::render::common::truncate_path;
use crate::render::common::window_end;
use crate::render::common::window_start;
use crate::render::common::write_navigation_hint;
use crate::telemetry::DecisionEvidence;
use crate::text::dec;
use crate::text::decimal;
use crate::text::decimal_usize;
use crate::text::pad_right;
use crate::text::padded_right;
use crate::text::text_eq;
use crate::text::to_upper;
use crate::text::uppered;

verus! {

/// Calibration score from which confidence is high (0.85).
pub const HIGH_CALIBRATION: u64 = 0x3FEB_3333_3333_3333;

/// Calibration score from which confidence is moderate (0.60).
pub const MODERATE_CALIBRATION: u64 = 0x3FE3_3333_3333_3333;

/// Confidence label for a calibration score.
pub open spec fn confidence_word_of(score: Double) -> Seq<char> {
    if score.ge(Double { bits: HIGH_CALIBRATION }) {
        "HIGH"@
    } else if score.ge(Double { bits: MODERATE_CALIBRATION }) {
        "MODERATE"@
    } else {
        "LOW"@
    }
}

/// Confidence label for a calibration score.
pub fn confidence_word(score: Double) -> (w: &'static str)
    ensures
        w@ == confidence_word_of(score),
{
    if score.at_least(Double { bits: HIGH_CALIBRATION }) {
        "HIGH"
    } else if score.at_least(Double { bits: MODERATE_CALIBRATION }) {
        "MODERATE"
    } else {
        "LOW"
    }
}

/// Colour role for the confidence in a calibration score.
pub open spec fn confidence_tone_of(score: Double) -> Tone {
    if score.ge(Double { bits: HIGH_CALIBRATION }) {
        Tone::Success
    } else if score.ge(Double { bits: MODERATE_CALIBRATION }) {
        Tone::Warning
    } else {
        Tone::Danger
    }
}

/// Colour role for the confidence in a calibration score.
pub fn confidence_tone(score: Double) -> (t: Tone)
    ensures
        t == confidence_tone_of(score),
{
    if score.at_least(Double { bits: HIGH_CALIBRATION }) {
        Tone::Success
    } else if score.at_least(Double { bits: MODERATE_CALIBRATION }) {
        Tone::Warning
    } else {
        Tone::Danger
    }
}

/// Width of the factor bars on a page of a width.
pub open spec fn bar_width_of(width: usize) -> usize {
    clamped(width as int / 3, 10, 30) as usize
}

fn bar_width(width: usize) -> (w: usize)
    ensures
        w == bar_width_of(width),
{
    clamp(width / 3, 10, 30)
}

/// Bytes that deleting the unvetoed delete candidates would free.
pub open spec fn reclaimable_of(candidates: Seq<DecisionEvidence>) -> int
    decreases candidates.len(),
{
    if candidates.len() == 0 {
        0
    } else {
        let c = candidates.last();
        reclaimable_of(candidates.drop_last()) + if !c.vetoed && c.action@ == "delete"@ {
            c.size_bytes as int
        } else {
            0
        }
    }
}

proof fn reclaimable_grows(candidates: Seq<DecisionEvidence>, n: int)
    requires
        0 <= n <= candidates.len(),
    ensures
        0 <= reclaimable_of(candidates.take(n)) <= reclaimable_of(candidates),
    decreases candidates.len(),
{
    if n == candidates.len() {
        assert(candidates.take(n) =~= candidates);
        if n > 0 {
            reclaimable_grows(candidates.drop_last(), n - 1);
            assert(candidates.drop_last().take(n - 1) =~= candidates.drop_last());
        }
    } else {
        assert(candidates.drop_last().take(n) =~= candidates.take(n));
        reclaimable_grows(candidates.drop_last(), n);
    }
}

/// Bytes that deleting the unvetoed delete candidates would free.
pub fn reclaimable(candidates: &Vec<DecisionEvidence>) -> (bytes: u64)
    requires
        reclaimable_of(candidates@) <= u64::MAX,
    ensures
        bytes == reclaimable_of(candidates@),
{
    let mut bytes: u64 = 0;
    let mut k: usize = 0;
    while k < candidates.len()
        invariant
            k <= candidates@.len(),
            reclaimable_of(candidates@) <= u64::MAX,
            bytes == reclaimable_of(candidates@.take(k as int)),
        decreases candidates@.len() - k,
    {
        let c = &candidates[k];
        proof {
            reclaimable_grows(candidates@, k + 1);
            assert(candidates@.take(k + 1).drop_last() =~= candidates@.take(k as int));
        }
        if !c.vetoed && text_eq(c.action.as_str(), "delete") {
            bytes += c.size_bytes;
        }
        k += 1;
    }
    assert(candidates@.take(k as int) =~= candidates@);
    bytes
}

/// Whether the bytes that deleting candidates would free fit a machine word.
pub fn reclaimable_fits(candidates: &Vec<DecisionEvidence>) -> (b: bool)
    ensures
        b == (reclaimable_of(candidates@) <= u64::MAX),
{
    let mut bytes: u64 = 0;
    let mut k: usize = 0;
    while k < candidates.len()
        invariant
            k <= candidates@.len(),
            bytes == reclaimable_of(candidates@.take(k as int)),
        decreases candidates@.len() - k,
    {
        let c = &candidates[k];
        proof {
            reclaimable_grows(candidates@, k + 1);
            assert(candidates@.take(k + 1).drop_last() =~= candidates@.take(k as int));
        }
        if !c.vetoed && text_eq(c.action.as_str(), "delete") {
            match bytes.checked_add(c.size_bytes) {
                Some(sum) => {
                    bytes = sum;
                },
                None => {
                    return false;
                },
            }
        }
        k += 1;
    }
    assert(candidates@.take(k as int) =~= candidates@);
    true
}

/// Number of vetoed candidates.
pub open spec fn vetoed_of(candidates: Seq<DecisionEvidence>) -> nat
    decreases candidates.len(),
{
    if candidates.len() == 0 {
        0
    } else if candidates.last().vetoed {
        vetoed_of(candidates.drop_last()) + 1
    } else {
        vetoed_of(candidates.drop_last())
    }
}

/// Number of vetoed candidates.
pub fn vetoed(candidates: &Vec<DecisionEvidence>) -> (n: usize)
    ensures
        n == vetoed_of(candidates@),
        n <= candidates@.len(),
{
    let mut n: usize = 0;
    let mut k: usize = 0;
    while k < candidates.len()
        invariant
            n <= k <= candidates@.len(),
            n == vetoed_of(candidates@.take(k as int)),
        decreases candidates@.len() - k,
    {
        proof {
            assert(candidates@.take(k + 1).drop_last() =~= candidates@.take(k as int));
        }
        if candidates[k].vetoed {
            n += 1;
        }
        k += 1;
    }
    assert(candidates@.take(k as int) =~= candidates@);
    n
}

/// Veto column of the candidate ranking.
pub open spec fn veto_word_of(vetoed: bool) -> Seq<char> {
    if vetoed {
        "YES"@
    } else {
        "-"@
    }
}

fn veto_word(vetoed: bool) -> (w: &'static str)
    ensures
        w@ == veto_word_of(vetoed),
{
    if vetoed {
        "YES"
    } else {
        "-"
    }
}

/// A horizontal bar for a single scoring factor.
pub open spec fn factor_bar(label: Seq<char>, value: Double, width: usize) -> Seq<PieceV> {
    seq![
        txt("  "@),
        txt(label),
        txt(" "@),
        txt("["@),
        plain(Atom::FactorBar { value, width }),
        txt(" ]"@),
        txt(" "@),
        plain(Atom::Fixed { value: value, decimals: 2 }),
        nl(),
    ]
}

/// A horizontal bar for a single scoring factor.
pub fn render_factor_bar(label: &str, value: Double, width: usize) -> (doc: Doc)
    ensures
        doc@ == factor_bar(label@, value, width),
{
    let mut d = Doc::new();
    d.text("  ");
    d.text(label);
    d.text(" ");
    d.text("[");
    d.plain(Atom::FactorBar { value, width });
    d.text(" ]");
    d.text(" ");
    d.plain(Atom::Fixed { value: value, decimals: 2 });
    d.newline();
    d
}

/// Identity, action and policy of a decision.
pub open spec fn decision_identity(decision: DecisionEvidence) -> Seq<PieceV> {
    let d = seq![
        txt("  decision-id: #"@),
        txt(dec(decision.decision_id as nat)),
        nl(),
        txt("  timestamp:   "@),
        txt(decision.timestamp@),
        nl(),
        txt("  path:        "@),
        txt(decision.path@),
        nl(),
        txt("  size:        "@),
        plain(Atom::Bytes(decision.size_bytes)),
        txt(" ("@),
        txt(dec(decision.size_bytes as nat)),
        txt(" bytes)"@),
        nl(),
        txt("  age:         "@),
        plain(Atom::Duration(decision.age_secs)),
        nl(),
        txt("  action:      "@),
        badge(action_word_of(decision.action@), action_tone_of(decision.action@)),
        nl(),
    ];
    let d = match decision.effective_action {
        Some(effective) => {
            d + seq![
                txt("  effective:   "@),
                badge(action_word_of(effective@), action_tone_of(effective@)),
                nl(),
            ]
        },
        None => {
            d
        },
    };
    d + seq![
        txt("  policy-mode: "@),
        txt(decision.policy_mode@),
        nl(),
    ]
}

fn decision_identity_doc(decision: &DecisionEvidence) -> (doc: Doc)
    ensures
        doc@ == decision_identity(*decision),
{
    let mut d = Doc::new();
    d.text("  decision-id: #");
    d.text(decimal(decision.decision_id).as_str());
    d.newline();
    d.text("  timestamp:   ");
    d.text(decision.timestamp.as_str());
    d.newline();
    d.text("  path:        ");
    d.text(decision.path.as_str());
    d.newline();
    d.text("  size:        ");
    d.plain(Atom::Bytes(decision.size_bytes));
    d.text(" (");
    d.text(decimal(decision.size_bytes).as_str());
    d.text(" bytes)");
    d.newline();
    d.text("  age:         ");
    d.plain(Atom::Duration(decision.age_secs));
    d.newline();
    d.text("  action:      ");
    d.badge(action_word(decision.action.as_str()).as_str(), action_tone(decision.action.as_str()));
    d.newline();
    if let Some(effective) = &decision.effective_action {
        let mut p = Doc::new();
        p.text("  effective:   ");
        p.badge(action_word(effective.as_str()).as_str(), action_tone(effective.as_str()));
        p.newline();
        d.append(p);
    }
    let mut p = Doc::new();
    p.text("  policy-mode: ");
    p.text(decision.policy_mode.as_str());
    p.newline();
    d.append(p);
    d
}

/// The veto of a decision and its reason.
pub open spec fn decision_veto(decision: DecisionEvidence) -> Seq<PieceV> {
    if decision.vetoed {
        let d = seq![
            txt("  veto:        "@),
            badge("VETOED"@, Tone::Danger),
            nl(),
        ];
        match decision.veto_reason {
            Some(reason) => {
                d + seq![
                    txt("  veto-reason: "@),
                    txt(reason@),
                    nl(),
                ]
            },
            None => {
                d
            },
        }
    } else {
        seq![]
    }
}

fn decision_veto_doc(decision: &DecisionEvidence) -> (doc: Doc)
    ensures
        doc@ == decision_veto(*decision),
{
    if decision.vetoed {
        let mut p = Doc::new();
        p.text("  veto:        ");
        p.badge("VETOED", Tone::Danger);
        p.newline();
        if let Some(reason) = &decision.veto_reason {
            let mut q = Doc::new();
            q.text("  veto-reason: ");
            q.text(reason.as_str());
            q.newline();
            p.append(q);
        }
        p
    } else {
        Doc::new()
    }
}

/// The guard status of a decision.
pub open spec fn decision_guard(decision: DecisionEvidence) -> Seq<PieceV> {
    match decision.guard_status {
        Some(guard) => {
            seq![
                txt("  guard:       "@),
                txt(guard@),
                nl(),
            ]
        },
        None => {
            seq![]
        },
    }
}

fn decision_guard_doc(decision: &DecisionEvidence) -> (doc: Doc)
    ensures
        doc@ == decision_guard(*decision),
{
    if let Some(guard) = &decision.guard_status {
        let mut p = Doc::new();
        p.text("  guard:       ");
        p.text(guard.as_str());
        p.newline();
        p
    } else {
        Doc::new()
    }
}

/// The scoring factors of a decision.
pub open spec fn decision_factors(decision: DecisionEvidence, width: usize) -> Seq<PieceV> {
    let d = factor_bar("location "@, decision.factors.location, bar_width_of(width));
    let d = d + factor_bar("name     "@, decision.factors.name, bar_width_of(width));
    let d = d + factor_bar("age      "@, decision.factors.age, bar_width_of(width));
    let d = d + factor_bar("size     "@, decision.factors.size, bar_width_of(width));
    let d = d + factor_bar("structure"@, decision.factors.structure, bar_width_of(width));
    d + seq![
        txt("  pressure-multiplier: "@),
        plain(Atom::Fixed { value: decision.factors.pressure_multiplier, decimals: 2 }),
        txt("x"@),
        nl(),
        txt("  total-score: "@),
        plain(Atom::Fixed { value: decision.total_score, decimals: 4 }),
        nl(),
    ]
}

fn decision_factors_doc(decision: &DecisionEvidence, width: usize) -> (doc: Doc)
    ensures
        doc@ == decision_factors(*decision, width),
{
    let mut d = render_factor_bar("location ", decision.factors.location, bar_width(width));
    d.append(render_factor_bar("name     ", decision.factors.name, bar_width(width)));
    d.append(render_factor_bar("age      ", decision.factors.age, bar_width(width)));
    d.append(render_factor_bar("size     ", decision.factors.size, bar_width(width)));
    d.append(render_factor_bar("structure", decision.factors.structure, bar_width(width)));
    let mut p = Doc::new();
    p.text("  pressure-multiplier: ");
    p.plain(Atom::Fixed { value: decision.factors.pressure_multiplier, decimals: 2 });
    p.text("x");
    p.newline();
    p.text("  total-score: ");
    p.plain(Atom::Fixed { value: decision.total_score, decimals: 4 });
    p.newline();
    d.append(p);
    d
}

/// The Bayesian statistics of a decision and the confidence in them.
pub open spec fn decision_statistics(decision: DecisionEvidence) -> Seq<PieceV> {
    seq![
        txt("  P(abandoned):     "@),
        plain(Atom::Fixed { value: decision.posterior_abandoned, decimals: 4 }),
        nl(),
        txt("  E[loss|keep]:     "@),
        plain(Atom::Fixed { value: decision.expected_loss_keep, decimals: 2 }),
        nl(),
        txt("  E[loss|delete]:   "@),
        plain(Atom::Fixed { value: decision.expected_loss_delete, decimals: 2 }),
        nl(),
        txt("  calibration:      "@),
        plain(Atom::Fixed { value: decision.calibration_score, decimals: 4 }),
        nl(),
        txt("  confidence:       "@),
        badge(
            confidence_word_of(decision.calibration_score),
            confidence_tone_of(decision.calibration_score),
        ),
        nl(),
    ]
}

fn decision_statistics_doc(decision: &DecisionEvidence) -> (doc: Doc)
    ensures
        doc@ == decision_statistics(*decision),
{
    let mut d = Doc::new();
    d.text("  P(abandoned):     ");
    d.plain(Atom::Fixed { value: decision.posterior_abandoned, decimals: 4 });
    d.newline();
    d.text("  E[loss|keep]:     ");
    d.plain(Atom::Fixed { value: decision.expected_loss_keep, decimals: 2 });
    d.newline();
    d.text("  E[loss|delete]:   ");
    d.plain(Atom::Fixed { value: decision.expected_loss_delete, decimals: 2 });
    d.newline();
    d.text("  calibration:      ");
    d.plain(Atom::Fixed { value: decision.calibration_score, decimals: 4 });
    d.newline();
    d.text("  confidence:       ");
    d.badge(
        confidence_word(decision.calibration_score),
        confidence_tone(decision.calibration_score),
    );
    d.newline();
    d
}

/// The summary of a decision, where it has one.
pub open spec fn decision_summary(decision: DecisionEvidence) -> Seq<PieceV> {
    if decision.summary@.len() > 0 {
        seq![
            nl(),
            txt("  summary: "@),
            txt(decision.summary@),
            nl(),
        ]
    } else {
        seq![]
    }
}

fn decision_summary_doc(decision: &DecisionEvidence) -> (doc: Doc)
    ensures
        doc@ == decision_summary(*decision),
{
    if !decision.summary.as_str().is_empty() {
        let mut p = Doc::new();
        p.newline();
        p.text("  summary: ");
        p.text(decision.summary.as_str());
        p.newline();
        p
    } else {
        Doc::new()
    }
}

/// Every field of a decision.
pub open spec fn decision_detail(decision: DecisionEvidence, width: usize) -> Seq<PieceV> {
    let d = decision_identity(decision);
    let d = d + decision_veto(decision);
    let d = d + decision_guard(decision);
    let d = d + seq![
        nl(),
    ];
    let d = d + header("Factor Breakdown"@, width);
    let d = d + decision_factors(decision, width);
    let d = d + seq![
        nl(),
    ];
    let d = d + header("Bayesian Decision"@, width);
    let d = d + decision_statistics(decision);
    d + decision_summary(decision)
}

/// Every field of a decision.
pub fn render_decision_detail(decision: &DecisionEvidence, width: usize) -> (doc: Doc)
    ensures
        doc@ == decision_detail(*decision, width),
{
    let mut d = decision_identity_doc(decision);
    d.append(decision_veto_doc(decision));
    d.append(decision_guard_doc(decision));
    let mut p = Doc::new();
    p.newline();
    d.append(p);
    d.append(section("Factor Breakdown", width));
    d.append(decision_factors_doc(decision, width));
    let mut p = Doc::new();
    p.newline();
    d.append(p);
    d.append(section("Bayesian Decision", width));
    d.append(decision_statistics_doc(decision));
    d.append(decision_summary_doc(decision));
    d
}

/// The veto of a candidate, or that there is none.
pub open spec fn candidate_safety(decision: DecisionEvidence) -> Seq<PieceV> {
    if decision.vetoed {
        decision_veto(decision)
    } else {
        seq![
            txt("  safety:      "@),
            badge("CLEAR"@, Tone::Success),
            nl(),
        ]
    }
}

fn candidate_safety_doc(decision: &DecisionEvidence) -> (doc: Doc)
    ensures
        doc@ == candidate_safety(*decision),
{
    if decision.vetoed {
        decision_veto_doc(decision)
    } else {
        let mut p = Doc::new();
        p.text("  safety:      ");
        p.badge("CLEAR", Tone::Success);
        p.newline();
        p
    }
}

/// Every field of a candidate.
pub open spec fn candidate_detail(decision: DecisionEvidence, width: usize) -> Seq<PieceV> {
    let d = decision_identity(decision);
    let d = d + candidate_safety(decision);
    let d = d + decision_guard(decision);
    let d = d + seq![
        nl(),
    ];
    let d = d + header("Score Breakdown"@, width);
    let d = d + decision_factors(decision, width);
    let d = d + seq![
        nl(),
    ];
    let d = d + header("Decision Statistics"@, width);
    let d = d + decision_statistics(decision);
    d + decision_summary(decision)
}

/// Every field of a candidate.
pub fn render_candidate_detail(decision: &DecisionEvidence, width: usize) -> (doc: Doc)
    ensures
        doc@ == candidate_detail(*decision, width),
{
    let mut d = decision_identity_doc(decision);
    d.append(candidate_safety_doc(decision));
    d.append(decision_guard_doc(decision));
    let mut p = Doc::new();
    p.newline();
    d.append(p);
    d.append(section("Score Breakdown", width));
    d.append(decision_factors_doc(decision, width));
    let mut p = Doc::new();
    p.newline();
    d.append(p);
    d.append(section("Decision Statistics", width));
    d.append(decision_statistics_doc(decision));
    d.append(decision_summary_doc(decision));
    d
}

/// The pressure level and the counters of the daemon, while it is known.
pub open spec fn pressure_line(model: DashboardModel) -> Seq<PieceV> {
    match model.daemon_state {
        Some(state) => {
            seq![
                txt("pressure="@),
                badge_in(uppered(state.pressure.overall@), Ink::Pressure(state.pressure.overall@)),
                txt(" scans="@),
                txt(dec(state.counters.scans as nat)),
                txt(" deletions="@),
                txt(dec(state.counters.deletions as nat)),
                txt(" errors="@),
                txt(dec(state.counters.errors as nat)),
                nl(),
            ]
        },
        None => {
            seq![]
        },
    }
}

fn pressure_line_doc(model: &DashboardModel) -> (doc: Doc)
    ensures
        doc@ == pressure_line(*model),
{
    if let Some(state) = &model.daemon_state {
        let mut p = Doc::new();
        p.text("pressure=");
        p.badge_in(
            to_upper(state.pressure.overall.as_str()).as_str(),
            Ink::Pressure(state.pressure.overall.clone()),
        );
        p.text(" scans=");
        p.text(decimal(state.counters.scans).as_str());
        p.text(" deletions=");
        p.text(decimal(state.counters.deletions).as_str());
        p.text(" errors=");
        p.text(decimal(state.counters.errors).as_str());
        p.newline();
        p
    } else {
        Doc::new()
    }
}

/// One line of the decision list.
pub open spec fn decision_row(cursor: Seq<char>, decision: DecisionEvidence) -> Seq<PieceV> {
    let d = seq![
        txt(cursor),
        txt(" #"@),
        txt(padded_right(dec(decision.decision_id as nat), 4)),
        txt(" "@),
        plain(Atom::Clock(decision.timestamp@)),
        txt(" "@),
        badge(action_word_of(decision.action@), action_tone_of(decision.action@)),
    ];
    let d = if decision.vetoed {
        d + seq![
            txt(" VETOED"@),
        ]
    } else {
        d
    };
    d + seq![
        txt("  score="@),
        plain(Atom::Fixed { value: decision.total_score, decimals: 2 }),
        txt("  P(abn)="@),
        plain(Atom::Fixed { value: decision.posterior_abandoned, decimals: 2 }),
        txt("  "@),
        plain(Atom::Bytes(decision.size_bytes)),
        txt("  "@),
        txt(shortened(decision.path@, 40 as nat)),
        nl(),
    ]
}

/// One line of the decision list.
pub fn render_decision_row(cursor: &str, decision: &DecisionEvidence) -> (doc: Doc)
    ensures
        doc@ == decision_row(cursor@, *decision),
{
    let mut d = Doc::new();
    d.text(cursor);
    d.text(" #");
    d.text(pad_right(decimal(decision.decision_id).as_str(), 4).as_str());
    d.text(" ");
    d.plain(Atom::Clock(decision.timestamp.clone()));
    d.text(" ");
    d.badge(action_word(decision.action.as_str()).as_str(), action_tone(decision.action.as_str()));
    if decision.vetoed {
        let mut p = Doc::new();
        p.text(" VETOED");
        d.append(p);
    }
    let mut p = Doc::new();
    p.text("  score=");
    p.plain(Atom::Fixed { value: decision.total_score, decimals: 2 });
    p.text("  P(abn)=");
    p.plain(Atom::Fixed { value: decision.posterior_abandoned, decimals: 2 });
    p.text("  ");
    p.plain(Atom::Bytes(decision.size_bytes));
    p.text("  ");
    p.text(truncate_path(decision.path.as_str(), 40).as_str());
    p.newline();
    d.append(p);
    d
}

/// Rows of the decision list.
pub open spec fn decision_rows_of(
    decisions: Seq<DecisionEvidence>,
    selected: int,
    from: int,
    to: int,
) -> Seq<PieceV>
    decreases to - from,
{
    if to <= from {
        seq![]
    } else {
        decision_rows_of(decisions, selected, from, to - 1) + decision_row(
            cursor_mark_of((to - 1) == selected),
            decisions[(to - 1)],
        )
    }
}

fn decision_rows(model: &DashboardModel, from: usize, to: usize) -> (doc: Doc)
    requires
        from <= to,
        to <= model.explainability_decisions@.len(),
    ensures
        doc@ == decision_rows_of(
            model.explainability_decisions@,
            model.explainability_selected as int,
            from as int,
            to as int,
        ),
{
    let mut d = Doc::new();
    let mut k: usize = from;
    while k < to
        invariant
            from <= k <= to,
            to <= model.explainability_decisions@.len(),
            d@ == decision_rows_of(
                model.explainability_decisions@,
                model.explainability_selected as int,
                from as int,
                k as int,
            ),
        decreases to - k,
    {
        d.append(render_decision_row(
            cursor_mark(k == model.explainability_selected),
            &model.explainability_decisions[k],
        ));
        k += 1;
    }
    d
}

/// Data source, counts and pressure.
pub open spec fn explainability_head_of(model: DashboardModel) -> Seq<PieceV> {
    let d = seq![
        txt("data-source="@),
        txt(source_label(model.explainability_source)),
        txt(" "@),
        badge(
            health_word_of(model.explainability_source, model.explainability_partial),
            health_tone_of(model.explainability_source, model.explainability_partial),
        ),
        txt(" decisions="@),
        txt(dec(model.explainability_decisions@.len() as nat)),
        nl(),
    ];
    let d = if model.explainability_diagnostics@.len() > 0 {
        d + seq![
            txt("  diag: "@),
            txt(model.explainability_diagnostics@),
            nl(),
        ]
    } else {
        d
    };
    d + pressure_line(model)
}

fn explainability_head_doc(model: &DashboardModel) -> (doc: Doc)
    ensures
        doc@ == explainability_head_of(*model),
{
    let mut d = Doc::new();
    d.text("data-source=");
    d.text(data_source_label(model.explainability_source));
    d.text(" ");
    d.badge(
        health_word(model.explainability_source, model.explainability_partial),
        health_tone(model.explainability_source, model.explainability_partial),
    );
    d.text(" decisions=");
    d.text(decimal_usize(model.explainability_decisions.len()).as_str());
    d.newline();
    if !model.explainability_diagnostics.as_str().is_empty() {
        let mut p = Doc::new();
        p.text("  diag: ");
        p.text(model.explainability_diagnostics.as_str());
        p.newline();
        d.append(p);
    }
    d.append(pressure_line_doc(model));
    d
}

/// The decisions, or why there are none.
pub open spec fn explainability_list_of(model: DashboardModel) -> Seq<PieceV> {
    if model.explainability_decisions@.len() == 0 {
        seq![
            nl(),
            txt("No decision evidence available. The daemon must be running with"@),
            nl(),
            txt("telemetry enabled to populate this screen."@),
            nl(),
            txt("Press r to force refresh, or check daemon status with key 1."@),
            nl(),
        ]
    } else {
        let d = seq![
            nl(),
        ];
        let d = d + header("Recent Decisions"@, page_width_of(model.terminal_size.0));
        d + decision_rows_of(
            model.explainability_decisions@,
            model.explainability_selected as int,
            0,
            model.explainability_decisions@.len() as int,
        )
    }
}

fn explainability_list_doc(model: &DashboardModel) -> (doc: Doc)
    ensures
        doc@ == explainability_list_of(*model),
{
    if model.explainability_decisions.len() == 0 {
        let mut p = Doc::new();
        p.newline();
        p.text("No decision evidence available. The daemon must be running with");
        p.newline();
        p.text("telemetry enabled to populate this screen.");
        p.newline();
        p.text("Press r to force refresh, or check daemon status with key 1.");
        p.newline();
        p
    } else {
        let mut p = Doc::new();
        p.newline();
        p.append(section("Recent Decisions", page_width(model.terminal_size.0)));
        p.append(decision_rows(model, 0, model.explainability_decisions.len()));
        p
    }
}

/// The selected decision in full, or how to open it.
pub open spec fn explainability_detail_of(model: DashboardModel) -> Seq<PieceV> {
    if model.explainability_decisions@.len() == 0 {
        seq![]
    } else {
        if model.explainability_detail {
            if model.explainability_selected < model.explainability_decisions@.len() {
                let d = seq![
                    nl(),
                ];
                let d = d + header("Decision Detail"@, page_width_of(model.terminal_size.0));
                d + decision_detail(
                model.explainability_decisions@[model.explainability_selected as int],
                page_width_of(model.terminal_size.0),
            )
            } else {
                seq![]
            }
        } else {
            seq![
                nl(),
                txt("Press Enter/Space to expand detail for selected decision"@),
                nl(),
            ]
        }
    }
}

fn explainability_detail_doc(model: &DashboardModel) -> (doc: Doc)
    ensures
        doc@ == explainability_detail_of(*model),
{
    if model.explainability_decisions.len() == 0 {
        Doc::new()
    } else {
        if model.explainability_detail {
            if model.explainability_selected < model.explainability_decisions.len() {
                let mut r = Doc::new();
                r.newline();
                r.append(section("Decision Detail", page_width(model.terminal_size.0)));
                r.append(render_decision_detail(
                &model.explainability_decisions[model.explainability_selected],
                page_width(model.terminal_size.0),
            ));
                r
            } else {
                Doc::new()
            }
        } else {
            let mut q = Doc::new();
            q.newline();
            q.text("Press Enter/Space to expand detail for selected decision");
            q.newline();
            q
        }
    }
}

/// What the explainability screen shows besides its hint line.
pub open spec fn explainability_body(model: DashboardModel) -> Seq<PieceV> {
    let d = explainability_head_of(model);
    let d = d + explainability_list_of(model);
    d + explainability_detail_of(model)
}

fn explainability_body_doc(model: &DashboardModel) -> (doc: Doc)
    ensures
        doc@ == explainability_body(*model),
{
    let mut d = explainability_head_doc(model);
    d.append(explainability_list_doc(model));
    d.append(explainability_detail_doc(model));
    d
}

/// The hint line of the explainability screen.
pub open spec fn explainability_hint(model: DashboardModel) -> Seq<PieceV> {
    nav_hint_of(
        model.hint_verbosity,
        "j/k or \u{2191}/\u{2193} navigate  Enter/Space expand  d close detail  r refresh  ? help  : palette"@,
        "j/k navigate  Enter/Space detail  d close  r refresh"@,
    )
}

fn explainability_hint_doc(model: &DashboardModel) -> (doc: Doc)
    ensures
        doc@ == explainability_hint(*model),
{
    write_navigation_hint(
        model.hint_verbosity,
        "j/k or \u{2191}/\u{2193} navigate  Enter/Space expand  d close detail  r refresh  ? help  : palette",
        "j/k navigate  Enter/Space detail  d close  r refresh",
    )
}

/// The explainability screen: data source, recent decisions and the selected decision.
pub open spec fn explainability_page(model: DashboardModel) -> Seq<PieceV> {
    let d = explainability_body(model);
    d + explainability_hint(model)
}

/// The explainability screen: data source, recent decisions and the selected decision.
pub fn render_explainability(model: &DashboardModel) -> (doc: Doc)
    ensures
        doc@ == explainability_page(*model),
{
    let mut d = explainability_body_doc(model);
    d.append(explainability_hint_doc(model));
    d
}

/// One line of the candidate ranking.
pub open spec fn candidate_row(cursor: Seq<char>, decision: DecisionEvidence) -> Seq<PieceV> {
    seq![
        txt(cursor),
        txt(" "@),
        txt(padded_right(dec(decision.decision_id as nat), 4)),
        txt(" "@),
        badge(action_word_of(decision.action@), action_tone_of(decision.action@)),
        txt(" "@),
        plain(Atom::Fixed { value: decision.total_score, decimals: 2 }),
        txt("  "@),
        field(Atom::Bytes(decision.size_bytes), Pad::Left(10), unstyled()),
        txt(" "@),
        field(Atom::Duration(decision.age_secs), Pad::Left(8), unstyled()),
        txt(" "@),
        txt(padded_right(veto_word_of(decision.vetoed), 6)),
        txt(" "@),
        txt(shortened(decision.path@, 40 as nat)),
        nl(),
    ]
}

/// One line of the candidate ranking.
pub fn render_candidate_row(cursor: &str, decision: &DecisionEvidence) -> (doc: Doc)
    ensures
        doc@ == candidate_row(cursor@, *decision),
{
    let mut d = Doc::new();
    d.text(cursor);
    d.text(" ");
    d.text(pad_right(decimal(decision.decision_id).as_str(), 4).as_str());
    d.text(" ");
    d.badge(action_word(decision.action.as_str()).as_str(), action_tone(decision.action.as_str()));
    d.text(" ");
    d.plain(Atom::Fixed { value: decision.total_score, decimals: 2 });
    d.text("  ");
    d.put(Atom::Bytes(decision.size_bytes), Pad::Left(10), no_style());
    d.text(" ");
    d.put(Atom::Duration(decision.age_secs), Pad::Left(8), no_style());
    d.text(" ");
    d.text(pad_right(veto_word(decision.vetoed), 6).as_str());
    d.text(" ");
    d.text(truncate_path(decision.path.as_str(), 40).as_str());
    d.newline();
    d
}

/// Rows of the candidate ranking.
pub open spec fn candidate_rows_of(
    decisions: Seq<DecisionEvidence>,
    selected: int,
    from: int,
    to: int,
) -> Seq<PieceV>
    decreases to - from,
{
    if to <= from {
        seq![]
    } else {
        candidate_rows_of(decisions, selected, from, to - 1) + candidate_row(
            cursor_mark_of((to - 1) == selected),
            decisions[(to - 1)],
        )
    }
}

fn candidate_rows(model: &DashboardModel, from: usize, to: usize) -> (doc: Doc)
    requires
        from <= to,
        to <= model.candidates_list@.len(),
    ensures
        doc@ == candidate_rows_of(
            model.candidates_list@,
            model.candidates_selected as int,
            from as int,
            to as int,
        ),
{
    let mut d = Doc::new();
    let mut k: usize = from;
    while k < to
        invariant
            from <= k <= to,
            to <= model.candidates_list@.len(),
            d@ == candidate_rows_of(
                model.candidates_list@,
                model.candidates_selected as int,
                from as int,
                k as int,
            ),
        decreases to - k,
    {
        d.append(render_candidate_row(
            cursor_mark(k == model.candidates_selected),
            &model.candidates_list[k],
        ));
        k += 1;
    }
    d
}

/// Data source, counts, sort order and pressure.
pub open spec fn candidates_head_of(model: DashboardModel) -> Seq<PieceV> {
    let d = seq![
        txt("data-source="@),
        txt(source_label(model.candidates_source)),
        txt(" "@),
        badge(
            health_word_of(model.candidates_source, model.candidates_partial),
            health_tone_of(model.candidates_source, model.candidates_partial),
        ),
        txt(" candidates="@),
        txt(dec(model.candidates_list@.len() as nat)),
        nl(),
    ];
    let d = if model.candidates_diagnostics@.len() > 0 {
        d + seq![
            txt("  diag: "@),
            txt(model.candidates_diagnostics@),
            nl(),
        ]
    } else {
        d
    };
    let d = d + seq![
        txt("sort="@),
        txt(model.candidates_sort@),
        nl(),
    ];
    d + pressure_line(model)
}

fn candidates_head_doc(model: &DashboardModel) -> (doc: Doc)
    ensures
        doc@ == candidates_head_of(*model),
{
    let mut d = Doc::new();
    d.text("data-source=");
    d.text(data_source_label(model.candidates_source));
    d.text(" ");
    d.badge(
        health_word(model.candidates_source, model.candidates_partial),
        health_tone(model.candidates_source, model.candidates_partial),
    );
    d.text(" candidates=");
    d.text(decimal_usize(model.candidates_list.len()).as_str());
    d.newline();
    if !model.candidates_diagnostics.as_str().is_empty() {
        let mut p = Doc::new();
        p.text("  diag: ");
        p.text(model.candidates_diagnostics.as_str());
        p.newline();
        d.append(p);
    }
    let mut p = Doc::new();
    p.text("sort=");
    p.text(model.candidates_sort.as_str());
    p.newline();
    d.append(p);
    d.append(pressure_line_doc(model));
    d
}

/// The candidate ranking, or why there is none.
pub open spec fn candidates_list_of(model: DashboardModel) -> Seq<PieceV> {
    if model.candidates_list@.len() == 0 {
        seq![
            nl(),
            txt("No scan candidates available. The daemon must be running with"@),
            nl(),
            txt("telemetry enabled to populate this screen."@),
            nl(),
            txt("Press r to force refresh, or check daemon status with key 1."@),
            nl(),
        ]
    } else {
        let d = seq![
            nl(),
        ];
        let d = d + header("Scan Candidates"@, page_width_of(model.terminal_size.0));
        let d = d + seq![
            txt("  #    ACTION   SCORE  SIZE       AGE      VETO   PATH"@),
            nl(),
        ];
        d + candidate_rows_of(
            model.candidates_list@,
            model.candidates_selected as int,
            0,
            model.candidates_list@.len() as int,
        )
    }
}

fn candidates_list_doc(model: &DashboardModel) -> (doc: Doc)
    ensures
        doc@ == candidates_list_of(*model),
{
    if model.candidates_list.len() == 0 {
        let mut p = Doc::new();
        p.newline();
        p.text("No scan candidates available. The daemon must be running with");
        p.newline();
        p.text("telemetry enabled to populate this screen.");
        p.newline();
        p.text("Press r to force refresh, or check daemon status with key 1.");
        p.newline();
        p
    } else {
        let mut p = Doc::new();
        p.newline();
        p.append(section("Scan Candidates", page_width(model.terminal_size.0)));
        let mut q = Doc::new();
        q.text("  #    ACTION   SCORE  SIZE       AGE      VETO   PATH");
        q.newline();
        p.append(q);
        p.append(candidate_rows(model, 0, model.candidates_list.len()));
        p
    }
}

/// How many candidates are protected from deletion.
pub open spec fn candidates_veto_of(model: DashboardModel) -> Seq<PieceV> {
    if vetoed_of(model.candidates_list@) > 0 {
        seq![
            nl(),
            txt(dec(vetoed_of(model.candidates_list@) as nat)),
            txt(" candidate(s) "@),
            badge("VETOED"@, Tone::Danger),
            txt(" \u{2014} protected from deletion"@),
            nl(),
        ]
    } else {
        seq![]
    }
}

fn candidates_veto_doc(model: &DashboardModel) -> (doc: Doc)
    ensures
        doc@ == candidates_veto_of(*model),
{
    if vetoed(&model.candidates_list) > 0 {
        let mut p = Doc::new();
        p.newline();
        p.text(decimal_usize(vetoed(&model.candidates_list)).as_str());
        p.text(" candidate(s) ");
        p.badge("VETOED", Tone::Danger);
        p.text(" \u{2014} protected from deletion");
        p.newline();
        p
    } else {
        Doc::new()
    }
}

/// The estimate of what deletion would free.
pub open spec fn candidates_estimate_of(model: DashboardModel) -> Seq<PieceV> {
    if reclaimable_of(model.candidates_list@) > 0 {
        seq![
            txt("estimated reclaimable: "@),
            plain(Atom::Bytes(reclaimable_of(model.candidates_list@) as u64)),
            nl(),
        ]
    } else {
        seq![]
    }
}

fn candidates_estimate_doc(model: &DashboardModel) -> (doc: Doc)
    requires
        reclaimable_of(model.candidates_list@) <= u64::MAX,
    ensures
        doc@ == candidates_estimate_of(*model),
{
    if reclaimable(&model.candidates_list) > 0 {
        let mut p = Doc::new();
        p.text("estimated reclaimable: ");
        p.plain(Atom::Bytes(reclaimable(&model.candidates_list)));
        p.newline();
        p
    } else {
        Doc::new()
    }
}

/// The selected candidate in full, or how to open it.
pub open spec fn candidates_detail_of(model: DashboardModel) -> Seq<PieceV> {
    if model.candidates_list@.len() == 0 {
        seq![]
    } else {
        if model.candidates_detail {
            if model.candidates_selected < model.candidates_list@.len() {
                let d = seq![
                    nl(),
                ];
                let d = d + header("Candidate Detail"@, page_width_of(model.terminal_size.0));
                d + candidate_detail(
                model.candidates_list@[model.candidates_selected as int],
                page_width_of(model.terminal_size.0),
            )
            } else {
                seq![]
            }
        } else {
            seq![
                nl(),
                txt("Press Enter/Space to expand detail for selected candidate"@),
                nl(),
            ]
        }
    }
}

fn candidates_detail_doc(model: &DashboardModel) -> (doc: Doc)
    ensures
        doc@ == candidates_detail_of(*model),
{
    if model.candidates_list.len() == 0 {
        Doc::new()
    } else {
        if model.candidates_detail {
            if model.candidates_selected < model.candidates_list.len() {
                let mut r = Doc::new();
                r.newline();
                r.append(section("Candidate Detail", page_width(model.terminal_size.0)));
                r.append(render_candidate_detail(
                &model.candidates_list[model.candidates_selected],
                page_width(model.terminal_size.0),
            ));
                r
            } else {
                Doc::new()
            }
        } else {
            let mut q = Doc::new();
            q.newline();
            q.text("Press Enter/Space to expand detail for selected candidate");
            q.newline();
            q
        }
    }
}

/// What the candidates screen shows besides its hint line.
pub open spec fn candidates_body(model: DashboardModel) -> Seq<PieceV> {
    let d = candidates_head_of(model);
    let d = d + candidates_list_of(model);
    let d = d + candidates_veto_of(model);
    let d = d + candidates_estimate_of(model);
    d + candidates_detail_of(model)
}

fn candidates_body_doc(model: &DashboardModel) -> (doc: Doc)
    requires
        reclaimable_of(model.candidates_list@) <= u64::MAX,
    ensures
        doc@ == candidates_body(*model),
{
    let mut d = candidates_head_doc(model);
    d.append(candidates_list_doc(model));
    d.append(candidates_veto_doc(model));
    d.append(candidates_estimate_doc(model));
    d.append(candidates_detail_doc(model));
    d
}

/// The hint line of the candidates screen.
pub open spec fn candidates_hint(model: DashboardModel) -> Seq<PieceV> {
    nav_hint_of(
        model.hint_verbosity,
        "j/k or \u{2191}/\u{2193} navigate  Enter/Space expand  d close  s sort  r refresh  ? help  : palette"@,
        "j/k navigate  Enter/Space detail  s sort  r refresh"@,
    )
}

fn candidates_hint_doc(model: &DashboardModel) -> (doc: Doc)
    ensures
        doc@ == candidates_hint(*model),
{
    write_navigation_hint(
        model.hint_verbosity,
        "j/k or \u{2191}/\u{2193} navigate  Enter/Space expand  d close  s sort  r refresh  ? help  : palette",
        "j/k navigate  Enter/Space detail  s sort  r refresh",
    )
}

/// The candidates screen: data source, candidate ranking, vetoes, reclaim estimate
/// and the selected candidate.
pub open spec fn candidates_page(model: DashboardModel) -> Seq<PieceV> {
    let d = candidates_body(model);
    d + candidates_hint(model)
}

/// The candidates screen: data source, candidate ranking, vetoes, reclaim estimate
/// and the selected candidate.
pub fn render_candidates(model: &DashboardModel) -> (doc: Doc)
    requires
        reclaimable_of(model.candidates_list@) <= u64::MAX,
    ensures
        doc@ == candidates_page(*model),
{
    let mut d = candidates_body_doc(model);
    d.append(candidates_hint_doc(model));
    d
}

/// Header pane of the explainability screen.
pub open spec fn explainability_header_pane(model: DashboardModel) -> Seq<PieceV> {
    let d = seq![
        ink("source "@, Tone::Secondary),
        badge(source_label(model.explainability_source), Tone::Accent),
        txt("  "@),
    ];
    let d = if model.explainability_partial {
        d + seq![
            badge("PARTIAL"@, Tone::Warning),
            txt("  "@),
        ]
    } else {
        d
    };
    let d = d + seq![
        ink("decisions="@, Tone::Secondary),
        ink(dec(model.explainability_decisions@.len() as nat), Tone::Secondary),
        ink(" "@, Tone::Secondary),
        nl(),
    ];
    match model.daemon_state {
        Some(state) => {
            d + seq![
                ink("pressure "@, Tone::Secondary),
                badge_in(uppered(state.pressure.overall@), Ink::Pressure(state.pressure.overall@)),
                txt("  "@),
                ink("policy "@, Tone::Secondary),
                badge(uppered(state.policy_mode@), policy_tone_of(state.policy_mode@)),
                ink("  scans="@, Tone::Secondary),
                ink(dec(state.counters.scans as nat), Tone::Secondary),
                ink(" deletions="@, Tone::Secondary),
                ink(dec(state.counters.deletions as nat), Tone::Secondary),
                nl(),
            ]
        },
        None => {
            d
        },
    }
}

/// Header pane of the explainability screen.
pub fn frame_explainability_header_styled(model: &DashboardModel) -> (doc: Doc)
    ensures
        doc@ == explainability_header_pane(*model),
{
    let mut d = Doc::new();
    d.ink("source ", Tone::Secondary);
    d.badge(data_source_label(model.explainability_source), Tone::Accent);
    d.text("  ");
    if model.explainability_partial {
        let mut p = Doc::new();
        p.badge("PARTIAL", Tone::Warning);
        p.text("  ");
        d.append(p);
    }
    let mut p = Doc::new();
    p.ink("decisions=", Tone::Secondary);
    p.ink(decimal_usize(model.explainability_decisions.len()).as_str(), Tone::Secondary);
    p.ink(" ", Tone::Secondary);
    p.newline();
    d.append(p);
    if let Some(state) = &model.daemon_state {
        let mut p = Doc::new();
        p.ink("pressure ", Tone::Secondary);
        p.badge_in(
            to_upper(state.pressure.overall.as_str()).as_str(),
            Ink::Pressure(state.pressure.overall.clone()),
        );
        p.text("  ");
        p.ink("policy ", Tone::Secondary);
        p.badge(
            to_upper(state.policy_mode.as_str()).as_str(),
            policy_mode_color(state.policy_mode.as_str()),
        );
        p.ink("  scans=", Tone::Secondary);
        p.ink(decimal(state.counters.scans).as_str(), Tone::Secondary);
        p.ink(" deletions=", Tone::Secondary);
        p.ink(decimal(state.counters.deletions).as_str(), Tone::Secondary);
        p.newline();
        d.append(p);
    }
    d
}

/// One styled line of the decision list.
pub open spec fn styled_decision_row_of(decision: DecisionEvidence, selected: bool) -> Seq<PieceV> {
    let d = seq![row_cursor_of(selected, 3)];
    let d = d + seq![
        styled("#"@, fg_on(Ink::Of(Tone::Muted), Ink::Of(row_ground_of(selected)))),
        styled(
            padded_right(dec(decision.decision_id as nat), 4),
            fg_on(Ink::Of(Tone::Muted), Ink::Of(row_ground_of(selected))),
        ),
        styled(" "@, fg_on(Ink::Of(Tone::Muted), Ink::Of(row_ground_of(selected)))),
        drawn(
            Atom::Clock(decision.timestamp@),
            fg_on(Ink::Of(Tone::Muted), Ink::Of(row_ground_of(selected))),
        ),
        styled(" "@, fg_on(Ink::Of(Tone::Muted), Ink::Of(row_ground_of(selected)))),
        badge(styled_action_word_of(decision.action@), action_tone_of(decision.action@)),
        styled(" "@, fg_on(Ink::Gradient(decision.total_score), Ink::Of(row_ground_of(selected)))),
        drawn(
            Atom::Fixed { value: decision.total_score, decimals: 2 },
            fg_on(Ink::Gradient(decision.total_score), Ink::Of(row_ground_of(selected))),
        ),
        styled(
            " P="@,
            fg_on(Ink::Gradient(decision.posterior_abandoned), Ink::Of(row_ground_of(selected))),
        ),
        drawn(
            Atom::Fixed { value: decision.posterior_abandoned, decimals: 2 },
            fg_on(Ink::Gradient(decision.posterior_abandoned), Ink::Of(row_ground_of(selected))),
        ),
    ];
    let d = if decision.vetoed {
        d + seq![
            txt(" "@),
            badge("VETO"@, Tone::Danger),
        ]
    } else {
        d
    };
    d + seq![
        nl(),
    ]
}

/// One styled line of the decision list.
pub fn styled_decision_row(decision: &DecisionEvidence, selected: bool) -> (doc: Doc)
    ensures
        doc@ == styled_decision_row_of(*decision, selected),
{
    let ground = row_ground(selected);
    let mut d = row_cursor(selected, 3);
    let mut p = Doc::new();
    p.styled("#", in_fg_on(Ink::Of(Tone::Muted), Ink::Of(ground)));
    p.styled(
        pad_right(decimal(decision.decision_id).as_str(), 4).as_str(),
        in_fg_on(Ink::Of(Tone::Muted), Ink::Of(ground)),
    );
    p.styled(" ", in_fg_on(Ink::Of(Tone::Muted), Ink::Of(ground)));
    p.drawn(
        Atom::Clock(decision.timestamp.clone()),
        in_fg_on(Ink::Of(Tone::Muted), Ink::Of(ground)),
    );
    p.styled(" ", in_fg_on(Ink::Of(Tone::Muted), Ink::Of(ground)));
    p.badge(
        styled_action_word(decision.action.as_str()).as_str(),
        action_tone(decision.action.as_str()),
    );
    p.styled(" ", in_fg_on(Ink::Gradient(decision.total_score), Ink::Of(ground)));
    p.drawn(
        Atom::Fixed { value: decision.total_score, decimals: 2 },
        in_fg_on(Ink::Gradient(decision.total_score), Ink::Of(ground)),
    );
    p.styled(" P=", in_fg_on(Ink::Gradient(decision.posterior_abandoned), Ink::Of(ground)));
    p.drawn(
        Atom::Fixed { value: decision.posterior_abandoned, decimals: 2 },
        in_fg_on(Ink::Gradient(decision.posterior_abandoned), Ink::Of(ground)),
    );
    d.append(p);
    if decision.vetoed {
        let mut p = Doc::new();
        p.text(" ");
        p.badge("VETO", Tone::Danger);
        d.append(p);
    }
    let mut p = Doc::new();
    p.newline();
    d.append(p);
    d
}

/// Styled rows of the decision list.
pub open spec fn styled_decision_rows_of(
    decisions: Seq<DecisionEvidence>,
    selected: int,
    from: int,
    to: int,
) -> Seq<PieceV>
    decreases to - from,
{
    if to <= from {
        seq![]
    } else {
        styled_decision_rows_of(decisions, selected, from, to - 1) + styled_decision_row_of(
            decisions[(to - 1)],
            (to - 1) == selected,
        )
    }
}

fn styled_decision_rows(model: &DashboardModel, from: usize, to: usize) -> (doc: Doc)
    requires
        from <= to,
        to <= model.explainability_decisions@.len(),
    ensures
        doc@ == styled_decision_rows_of(
            model.explainability_decisions@,
            model.explainability_selected as int,
            from as int,
            to as int,
        ),
{
    let mut d = Doc::new();
    let mut k: usize = from;
    while k < to
        invariant
            from <= k <= to,
            to <= model.explainability_decisions@.len(),
            d@ == styled_decision_rows_of(
                model.explainability_decisions@,
                model.explainability_selected as int,
                from as int,
                k as int,
            ),
        decreases to - k,
    {
        d.append(styled_decision_row(
            &model.explainability_decisions[k],
            k == model.explainability_selected,
        ));
        k += 1;
    }
    d
}

/// Decision list pane of the explainability screen.
pub open spec fn explainability_list_pane(model: DashboardModel, rows: int) -> Seq<PieceV> {
    if model.explainability_decisions@.len() == 0 {
        seq![
            ink("No decision evidence loaded."@, Tone::Muted),
            nl(),
        ]
    } else {
        let total = model.explainability_decisions@.len() as int;
        let cursor = model.explainability_selected as int;
        styled_decision_rows_of(
            model.explainability_decisions@,
            cursor,
            window_start(cursor, total, rows),
            window_end(cursor, total, rows),
        )
    }
}

/// Decision list pane of the explainability screen.
pub fn frame_explainability_list_styled(model: &DashboardModel, rows: usize) -> (doc: Doc)
    ensures
        doc@ == explainability_list_pane(*model, rows as int),
{
    if model.explainability_decisions.len() == 0 {
        let mut p = Doc::new();
        p.ink("No decision evidence loaded.", Tone::Muted);
        p.newline();
        p
    } else {
        let total: usize = model.explainability_decisions.len();
        let (from, to) = centered_window(model.explainability_selected, total, rows);
        styled_decision_rows(model, from, to)
    }
}

/// The main fields of a decision.
pub open spec fn styled_decision_brief_of(decision: DecisionEvidence) -> Seq<PieceV> {
    let d = seq![
        ink("  path       "@, Tone::Muted),
        ink(dir_part(decision.path@), Tone::Muted),
        ink(file_part(decision.path@), Tone::Accent),
        nl(),
        ink("  action     "@, Tone::Muted),
        badge(styled_action_word_of(decision.action@), action_tone_of(decision.action@)),
        nl(),
        ink("  score      "@, Tone::Muted),
        drawn(
            Atom::Fixed { value: decision.total_score, decimals: 3 },
            fg(Ink::Gradient(decision.total_score)),
        ),
        nl(),
        ink("  posterior  "@, Tone::Muted),
        drawn(
            Atom::Fixed { value: decision.posterior_abandoned, decimals: 3 },
            fg(Ink::Gradient(decision.posterior_abandoned)),
        ),
        nl(),
        ink("  calibrate  "@, Tone::Muted),
        drawn(
            Atom::Fixed { value: decision.calibration_score, decimals: 3 },
            fg(Ink::Of(Tone::Secondary)),
        ),
        nl(),
    ];
    let d = if decision.vetoed && decision.veto_reason is Some {
        d + ({
            let reason = decision.veto_reason->0;
            seq![
                ink("  veto       "@, Tone::Muted),
                badge("VETO"@, Tone::Danger),
                ink(" "@, Tone::Danger),
                ink(reason@, Tone::Danger),
                nl(),
            ]
        })
    } else {
        d
    };
    d + seq![
        ink("  Enter/Space for full detail"@, Tone::Muted),
        nl(),
    ]
}

/// The main fields of a decision.
pub fn styled_decision_brief(decision: &DecisionEvidence) -> (doc: Doc)
    ensures
        doc@ == styled_decision_brief_of(*decision),
{
    let (dir, file) = split_path_dir_file(decision.path.as_str());
    let mut d = Doc::new();
    d.ink("  path       ", Tone::Muted);
    d.ink(dir.as_str(), Tone::Muted);
    d.ink(file.as_str(), Tone::Accent);
    d.newline();
    d.ink("  action     ", Tone::Muted);
    d.badge(
        styled_action_word(decision.action.as_str()).as_str(),
        action_tone(decision.action.as_str()),
    );
    d.newline();
    d.ink("  score      ", Tone::Muted);
    d.drawn(
        Atom::Fixed { value: decision.total_score, decimals: 3 },
        in_fg(Ink::Gradient(decision.total_score)),
    );
    d.newline();
    d.ink("  posterior  ", Tone::Muted);
    d.drawn(
        Atom::Fixed { value: decision.posterior_abandoned, decimals: 3 },
        in_fg(Ink::Gradient(decision.posterior_abandoned)),
    );
    d.newline();
    d.ink("  calibrate  ", Tone::Muted);
    d.drawn(
        Atom::Fixed { value: decision.calibration_score, decimals: 3 },
        in_fg(Ink::Of(Tone::Secondary)),
    );
    d.newline();
    if decision.vetoed && decision.veto_reason.is_some() {
        let reason = decision.veto_reason.as_ref().unwrap();
        let mut p = Doc::new();
        p.ink("  veto       ", Tone::Muted);
        p.badge("VETO", Tone::Danger);
        p.ink(" ", Tone::Danger);
        p.ink(reason.as_str(), Tone::Danger);
        p.newline();
        d.append(p);
    }
    let mut p = Doc::new();
    p.ink("  Enter/Space for full detail", Tone::Muted);
    p.newline();
    d.append(p);
    d
}

/// Styled identity, action and policy of a decision.
pub open spec fn styled_identity_of(decision: DecisionEvidence) -> Seq<PieceV> {
    let d = seq![
        ink("  decision-id "@, Tone::Muted),
        ink("#"@, Tone::Primary),
        ink(dec(decision.decision_id as nat), Tone::Primary),
        nl(),
        ink("  timestamp   "@, Tone::Muted),
        ink(decision.timestamp@, Tone::Primary),
        nl(),
        ink("  path        "@, Tone::Muted),
        ink(dir_part(decision.path@), Tone::Muted),
        ink(file_part(decision.path@), Tone::Accent),
        nl(),
        ink("  size        "@, Tone::Muted),
        drawn(Atom::Bytes(decision.size_bytes), fg(Ink::Of(Tone::Primary))),
        ink(" ("@, Tone::Primary),
        ink(dec(decision.size_bytes as nat), Tone::Primary),
        ink(" bytes)"@, Tone::Primary),
        nl(),
        ink("  age         "@, Tone::Muted),
        drawn(Atom::Duration(decision.age_secs), fg(Ink::Of(Tone::Secondary))),
        nl(),
        ink("  action      "@, Tone::Muted),
        badge(styled_action_word_of(decision.action@), action_tone_of(decision.action@)),
        nl(),
    ];
    let d = match decision.effective_action {
        Some(effective) => {
            d + seq![
                ink("  effective   "@, Tone::Muted),
                badge(styled_action_word_of(effective@), action_tone_of(effective@)),
                nl(),
            ]
        },
        None => {
            d
        },
    };
    d + seq![
        ink("  policy      "@, Tone::Muted),
        ink(decision.policy_mode@, Tone::Secondary),
        nl(),
    ]
}

fn styled_identity_doc(decision: &DecisionEvidence) -> (doc: Doc)
    ensures
        doc@ == styled_identity_of(*decision),
{
    let (dir, file) = split_path_dir_file(decision.path.as_str());
    let mut d = Doc::new();
    d.ink("  decision-id ", Tone::Muted);
    d.ink("#", Tone::Primary);
    d.ink(decimal(decision.decision_id).as_str(), Tone::Primary);
    d.newline();
    d.ink("  timestamp   ", Tone::Muted);
    d.ink(decision.timestamp.as_str(), Tone::Primary);
    d.newline();
    d.ink("  path        ", Tone::Muted);
    d.ink(dir.as_str(), Tone::Muted);
    d.ink(file.as_str(), Tone::Accent);
    d.newline();
    d.ink("  size        ", Tone::Muted);
    d.drawn(Atom::Bytes(decision.size_bytes), in_fg(Ink::Of(Tone::Primary)));
    d.ink(" (", Tone::Primary);
    d.ink(decimal(decision.size_bytes).as_str(), Tone::Primary);
    d.ink(" bytes)", Tone::Primary);
    d.newline();
    d.ink("  age         ", Tone::Muted);
    d.drawn(Atom::Duration(decision.age_secs), in_fg(Ink::Of(Tone::Secondary)));
    d.newline();
    d.ink("  action      ", Tone::Muted);
    d.badge(
        styled_action_word(decision.action.as_str()).as_str(),
        action_tone(decision.action.as_str()),
    );
    d.newline();
    if let Some(effective) = &decision.effective_action {
        let mut p = Doc::new();
        p.ink("  effective   ", Tone::Muted);
        p.badge(styled_action_word(effective.as_str()).as_str(), action_tone(effective.as_str()));
        p.newline();
        d.append(p);
    }
    let mut p = Doc::new();
    p.ink("  policy      ", Tone::Muted);
    p.ink(decision.policy_mode.as_str(), Tone::Secondary);
    p.newline();
    d.append(p);
    d
}

/// Styled veto of a decision and its reason.
pub open spec fn styled_veto_of(decision: DecisionEvidence) -> Seq<PieceV> {
    if decision.vetoed {
        let d = seq![
            ink("  veto        "@, Tone::Muted),
            badge("VETOED"@, Tone::Danger),
            nl(),
        ];
        match decision.veto_reason {
            Some(reason) => {
                d + seq![
                    ink("  veto-reason "@, Tone::Muted),
                    ink(reason@, Tone::Danger),
                    nl(),
                ]
            },
            None => {
                d
            },
        }
    } else {
        seq![]
    }
}

fn styled_veto_doc(decision: &DecisionEvidence) -> (doc: Doc)
    ensures
        doc@ == styled_veto_of(*decision),
{
    if decision.vetoed {
        let mut p = Doc::new();
        p.ink("  veto        ", Tone::Muted);
        p.badge("VETOED", Tone::Danger);
        p.newline();
        if let Some(reason) = &decision.veto_reason {
            let mut q = Doc::new();
            q.ink("  veto-reason ", Tone::Muted);
            q.ink(reason.as_str(), Tone::Danger);
            q.newline();
            p.append(q);
        }
        p
    } else {
        Doc::new()
    }
}

/// Styled guard status of a decision.
pub open spec fn styled_guard_of(decision: DecisionEvidence) -> Seq<PieceV> {
    match decision.guard_status {
        Some(guard) => {
            seq![
                ink("  guard       "@, Tone::Muted),
                ink(guard@, Tone::Secondary),
                nl(),
            ]
        },
        None => {
            seq![]
        },
    }
}

fn styled_guard_doc(decision: &DecisionEvidence) -> (doc: Doc)
    ensures
        doc@ == styled_guard_of(*decision),
{
    if let Some(guard) = &decision.guard_status {
        let mut p = Doc::new();
        p.ink("  guard       ", Tone::Muted);
        p.ink(guard.as_str(), Tone::Secondary);
        p.newline();
        p
    } else {
        Doc::new()
    }
}

/// Styled bars for a single scoring factor.
pub open spec fn styled_factor_of(label: Seq<char>, value: Double, width: usize) -> Seq<PieceV> {
    seq![
        ink("  "@, Tone::Muted),
        ink(label, Tone::Muted),
        ink(" "@, Tone::Muted),
        drawn(Atom::MiniBar(value), fg(Ink::Gradient(value))),
        txt(" "@),
        plain(Atom::Gauge { of: Gauge::Score(value), width, segmented: true }),
        styled(" "@, fg(Ink::Gradient(value))),
        drawn(Atom::Fixed { value: value, decimals: 2 }, fg(Ink::Gradient(value))),
        nl(),
    ]
}

fn styled_factor_doc(label: &str, value: Double, width: usize) -> (doc: Doc)
    ensures
        doc@ == styled_factor_of(label@, value, width),
{
    let mut d = Doc::new();
    d.ink("  ", Tone::Muted);
    d.ink(label, Tone::Muted);
    d.ink(" ", Tone::Muted);
    d.drawn(Atom::MiniBar(value), in_fg(Ink::Gradient(value)));
    d.text(" ");
    d.plain(Atom::Gauge { of: Gauge::Score(value), width, segmented: true });
    d.styled(" ", in_fg(Ink::Gradient(value)));
    d.drawn(Atom::Fixed { value: value, decimals: 2 }, in_fg(Ink::Gradient(value)));
    d.newline();
    d
}

/// Styled scoring factors of a decision.
pub open spec fn styled_factors_of(decision: DecisionEvidence, width: usize) -> Seq<PieceV> {
    let d = seq![
        nl(),
        bold("  Factor Breakdown"@, Tone::Primary),
        nl(),
    ];
    let d = d + styled_factor_of("location "@, decision.factors.location, bar_width_of(width));
    let d = d + styled_factor_of("name     "@, decision.factors.name, bar_width_of(width));
    let d = d + styled_factor_of("age      "@, decision.factors.age, bar_width_of(width));
    let d = d + styled_factor_of("size     "@, decision.factors.size, bar_width_of(width));
    let d = d + styled_factor_of("structure"@, decision.factors.structure, bar_width_of(width));
    d + seq![
        ink("  pressure-x  "@, Tone::Muted),
        drawn(
            Atom::Fixed { value: decision.factors.pressure_multiplier, decimals: 2 },
            fg(Ink::Of(Tone::Secondary)),
        ),
        ink("x"@, Tone::Secondary),
        nl(),
        ink("  total-score "@, Tone::Muted),
        drawn(
            Atom::Fixed { value: decision.total_score, decimals: 4 },
            bold_fg(Ink::Gradient(decision.total_score)),
        ),
        nl(),
    ]
}

fn styled_factors_doc(decision: &DecisionEvidence, width: usize) -> (doc: Doc)
    ensures
        doc@ == styled_factors_of(*decision, width),
{
    let mut d = Doc::new();
    d.newline();
    d.bold("  Factor Breakdown", Tone::Primary);
    d.newline();
    d.append(styled_factor_doc("location ", decision.factors.location, bar_width(width)));
    d.append(styled_factor_doc("name     ", decision.factors.name, bar_width(width)));
    d.append(styled_factor_doc("age      ", decision.factors.age, bar_width(width)));
    d.append(styled_factor_doc("size     ", decision.factors.size, bar_width(width)));
    d.append(styled_factor_doc("structure", decision.factors.structure, bar_width(width)));
    let mut p = Doc::new();
    p.ink("  pressure-x  ", Tone::Muted);
    p.drawn(
        Atom::Fixed { value: decision.factors.pressure_multiplier, decimals: 2 },
        in_fg(Ink::Of(Tone::Secondary)),
    );
    p.ink("x", Tone::Secondary);
    p.newline();
    p.ink("  total-score ", Tone::Muted);
    p.drawn(
        Atom::Fixed { value: decision.total_score, decimals: 4 },
        in_bold(Ink::Gradient(decision.total_score)),
    );
    p.newline();
    d.append(p);
    d
}

/// Styled Bayesian statistics of a decision.
pub open spec fn styled_statistics_of(decision: DecisionEvidence) -> Seq<PieceV> {
    seq![
        nl(),
        bold("  Bayesian Decision"@, Tone::Primary),
        nl(),
        ink("  P(abandoned)  "@, Tone::Muted),
        drawn(
            Atom::Fixed { value: decision.posterior_abandoned, decimals: 4 },
            fg(Ink::Gradient(decision.posterior_abandoned)),
        ),
        nl(),
        ink("  E[loss|keep]  "@, Tone::Muted),
        drawn(
            Atom::Fixed { value: decision.expected_loss_keep, decimals: 2 },
            fg(Ink::Of(Tone::Secondary)),
        ),
        nl(),
        ink("  E[loss|del]   "@, Tone::Muted),
        drawn(
            Atom::Fixed { value: decision.expected_loss_delete, decimals: 2 },
            fg(Ink::Of(Tone::Secondary)),
        ),
        nl(),
        ink("  calibration   "@, Tone::Muted),
        drawn(
            Atom::Fixed { value: decision.calibration_score, decimals: 4 },
            fg(Ink::Of(Tone::Secondary)),
        ),
        nl(),
        ink("  confidence    "@, Tone::Muted),
        badge(
            confidence_word_of(decision.calibration_score),
            confidence_tone_of(decision.calibration_score),
        ),
        nl(),
    ]
}

fn styled_statistics_doc(decision: &DecisionEvidence) -> (doc: Doc)
    ensures
        doc@ == styled_statistics_of(*decision),
{
    let mut d = Doc::new();
    d.newline();
    d.bold("  Bayesian Decision", Tone::Primary);
    d.newline();
    d.ink("  P(abandoned)  ", Tone::Muted);
    d.drawn(
        Atom::Fixed { value: decision.posterior_abandoned, decimals: 4 },
        in_fg(Ink::Gradient(decision.posterior_abandoned)),
    );
    d.newline();
    d.ink("  E[loss|keep]  ", Tone::Muted);
    d.drawn(
        Atom::Fixed { value: decision.expected_loss_keep, decimals: 2 },
        in_fg(Ink::Of(Tone::Secondary)),
    );
    d.newline();
    d.ink("  E[loss|del]   ", Tone::Muted);
    d.drawn(
        Atom::Fixed { value: decision.expected_loss_delete, decimals: 2 },
        in_fg(Ink::Of(Tone::Secondary)),
    );
    d.newline();
    d.ink("  calibration   ", Tone::Muted);
    d.drawn(
        Atom::Fixed { value: decision.calibration_score, decimals: 4 },
        in_fg(Ink::Of(Tone::Secondary)),
    );
    d.newline();
    d.ink("  confidence    ", Tone::Muted);
    d.badge(
        confidence_word(decision.calibration_score),
        confidence_tone(decision.calibration_score),
    );
    d.newline();
    d
}

/// Styled summary of a decision, where it has one.
pub open spec fn styled_summary_of(decision: DecisionEvidence) -> Seq<PieceV> {
    if decision.summary@.len() > 0 {
        seq![
            nl(),
            ink("  summary "@, Tone::Muted),
            ink(decision.summary@, Tone::Primary),
            nl(),
        ]
    } else {
        seq![]
    }
}

fn styled_summary_doc(decision: &DecisionEvidence) -> (doc: Doc)
    ensures
        doc@ == styled_summary_of(*decision),
{
    if !decision.summary.as_str().is_empty() {
        let mut p = Doc::new();
        p.newline();
        p.ink("  summary ", Tone::Muted);
        p.ink(decision.summary.as_str(), Tone::Primary);
        p.newline();
        p
    } else {
        Doc::new()
    }
}

/// Styled detail of a decision.
pub open spec fn styled_decision_detail_of(
    decision: DecisionEvidence,
    width: usize,
) -> Seq<PieceV> {
    let d = styled_identity_of(decision);
    let d = d + styled_veto_of(decision);
    let d = d + styled_guard_of(decision);
    let d = d + styled_factors_of(decision, width);
    let d = d + styled_statistics_of(decision);
    d + styled_summary_of(decision)
}

/// Styled detail of a decision.
pub fn styled_decision_detail(decision: &DecisionEvidence, width: usize) -> (doc: Doc)
    ensures
        doc@ == styled_decision_detail_of(*decision, width),
{
    let mut d = styled_identity_doc(decision);
    d.append(styled_veto_doc(decision));
    d.append(styled_guard_doc(decision));
    d.append(styled_factors_doc(decision, width));
    d.append(styled_statistics_doc(decision));
    d.append(styled_summary_doc(decision));
    d
}

/// Detail pane of the explainability screen.
pub open spec fn explainability_detail_pane(model: DashboardModel, pane_width: u16) -> Seq<PieceV> {
    if model.explainability_selected < model.explainability_decisions@.len() {
        let decision = model.explainability_decisions@[model.explainability_selected as int];
        if model.explainability_detail {
            styled_decision_detail_of(decision, page_width_of(pane_width))
        } else {
            styled_decision_brief_of(decision)
        }
    } else {
        seq![
            ink("No selected decision."@, Tone::Muted),
            nl(),
        ]
    }
}

/// Detail pane of the explainability screen.
pub fn frame_explainability_detail_styled(model: &DashboardModel, pane_width: u16) -> (doc: Doc)
    ensures
        doc@ == explainability_detail_pane(*model, pane_width),
{
    if model.explainability_selected < model.explainability_decisions.len() {
        let decision = &model.explainability_decisions[model.explainability_selected];
        if model.explainability_detail {
            styled_decision_detail(decision, page_width(pane_width))
        } else {
            styled_decision_brief(decision)
        }
    } else {
        let mut p = Doc::new();
        p.ink("No selected decision.", Tone::Muted);
        p.newline();
        p
    }
}

/// Summary pane of the candidates screen.
pub open spec fn candidates_summary_pane(model: DashboardModel) -> Seq<PieceV> {
    let d = seq![
        ink("source "@, Tone::Secondary),
        badge(source_label(model.candidates_source), Tone::Accent),
        txt("  "@),
    ];
    let d = if model.candidates_partial {
        d + seq![
            badge("PARTIAL"@, Tone::Warning),
            txt("  "@),
        ]
    } else {
        d
    };
    d + seq![
        ink("candidates="@, Tone::Secondary),
        ink(dec(model.candidates_list@.len() as nat), Tone::Secondary),
        ink(" "@, Tone::Secondary),
        ink("sort "@, Tone::Secondary),
        badge(model.candidates_sort@, Tone::Accent),
        txt("  "@),
        ink("reclaimable "@, Tone::Secondary),
        drawn(
            Atom::Bytes(reclaimable_of(model.candidates_list@) as u64),
            bold_fg(Ink::Of(Tone::Accent)),
        ),
        nl(),
    ]
}

/// Summary pane of the candidates screen.
pub fn frame_candidates_summary_styled(model: &DashboardModel) -> (doc: Doc)
    requires
        reclaimable_of(model.candidates_list@) <= u64::MAX,
    ensures
        doc@ == candidates_summary_pane(*model),
{
    let mut d = Doc::new();
    d.ink("source ", Tone::Secondary);
    d.badge(data_source_label(model.candidates_source), Tone::Accent);
    d.text("  ");
    if model.candidates_partial {
        let mut p = Doc::new();
        p.badge("PARTIAL", Tone::Warning);
        p.text("  ");
        d.append(p);
    }
    let mut p = Doc::new();
    p.ink("candidates=", Tone::Secondary);
    p.ink(decimal_usize(model.candidates_list.len()).as_str(), Tone::Secondary);
    p.ink(" ", Tone::Secondary);
    p.ink("sort ", Tone::Secondary);
    p.badge(model.candidates_sort.as_str(), Tone::Accent);
    p.text("  ");
    p.ink("reclaimable ", Tone::Secondary);
    p.drawn(Atom::Bytes(reclaimable(&model.candidates_list)), in_bold(Ink::Of(Tone::Accent)));
    p.newline();
    d.append(p);
    d
}

/// One styled line of the candidate ranking.
pub open spec fn styled_candidate_row_of(
    decision: DecisionEvidence,
    selected: bool,
) -> Seq<PieceV> {
    let d = seq![row_cursor_of(selected, 4)];
    let d = d + seq![
        styled("#"@, fg_on(Ink::Of(Tone::Muted), Ink::Of(row_ground_of(selected)))),
        styled(
            padded_right(dec(decision.decision_id as nat), 4),
            fg_on(Ink::Of(Tone::Muted), Ink::Of(row_ground_of(selected))),
        ),
        styled(" "@, fg_on(Ink::Of(Tone::Muted), Ink::Of(row_ground_of(selected)))),
        badge(styled_action_word_of(decision.action@), action_tone_of(decision.action@)),
        styled(" "@, fg_on(Ink::Gradient(decision.total_score), Ink::Of(row_ground_of(selected)))),
        drawn(
            Atom::Fixed { value: decision.total_score, decimals: 2 },
            fg_on(Ink::Gradient(decision.total_score), Ink::Of(row_ground_of(selected))),
        ),
        styled(" "@, fg_on(Ink::Of(Tone::Primary), Ink::Of(row_ground_of(selected)))),
        field(
            Atom::Bytes(decision.size_bytes),
            Pad::Right(8),
            fg_on(Ink::Of(Tone::Primary), Ink::Of(row_ground_of(selected))),
        ),
        styled(" "@, fg_on(Ink::Of(Tone::Muted), Ink::Of(row_ground_of(selected)))),
        field(
            Atom::Duration(decision.age_secs),
            Pad::Right(6),
            fg_on(Ink::Of(Tone::Muted), Ink::Of(row_ground_of(selected))),
        ),
    ];
    let d = if decision.vetoed {
        d + seq![
            txt(" "@),
            badge("VETO"@, Tone::Danger),
        ]
    } else {
        d
    };
    d + seq![
        nl(),
    ]
}

/// One styled line of the candidate ranking.
pub fn styled_candidate_row(decision: &DecisionEvidence, selected: bool) -> (doc: Doc)
    ensures
        doc@ == styled_candidate_row_of(*decision, selected),
{
    let ground = row_ground(selected);
    let mut d = row_cursor(selected, 4);
    let mut p = Doc::new();
    p.styled("#", in_fg_on(Ink::Of(Tone::Muted), Ink::Of(ground)));
    p.styled(
        pad_right(decimal(decision.decision_id).as_str(), 4).as_str(),
        in_fg_on(Ink::Of(Tone::Muted), Ink::Of(ground)),
    );
    p.styled(" ", in_fg_on(Ink::Of(Tone::Muted), Ink::Of(ground)));
    p.badge(
        styled_action_word(decision.action.as_str()).as_str(),
        action_tone(decision.action.as_str()),
    );
    p.styled(" ", in_fg_on(Ink::Gradient(decision.total_score), Ink::Of(ground)));
    p.drawn(
        Atom::Fixed { value: decision.total_score, decimals: 2 },
        in_fg_on(Ink::Gradient(decision.total_score), Ink::Of(ground)),
    );
    p.styled(" ", in_fg_on(Ink::Of(Tone::Primary), Ink::Of(ground)));
    p.put(
        Atom::Bytes(decision.size_bytes),
        Pad::Right(8),
        in_fg_on(Ink::Of(Tone::Primary), Ink::Of(ground)),
    );
    p.styled(" ", in_fg_on(Ink::Of(Tone::Muted), Ink::Of(ground)));
    p.put(
        Atom::Duration(decision.age_secs),
        Pad::Right(6),
        in_fg_on(Ink::Of(Tone::Muted), Ink::Of(ground)),
    );
    d.append(p);
    if decision.vetoed {
        let mut p = Doc::new();
        p.text(" ");
        p.badge("VETO", Tone::Danger);
        d.append(p);
    }
    let mut p = Doc::new();
    p.newline();
    d.append(p);
    d
}

/// Styled rows of the candidate ranking.
pub open spec fn styled_candidate_rows_of(
    decisions: Seq<DecisionEvidence>,
    selected: int,
    from: int,
    to: int,
) -> Seq<PieceV>
    decreases to - from,
{
    if to <= from {
        seq![]
    } else {
        styled_candidate_rows_of(decisions, selected, from, to - 1) + styled_candidate_row_of(
            decisions[(to - 1)],
            (to - 1) == selected,
        )
    }
}

fn styled_candidate_rows(model: &DashboardModel, from: usize, to: usize) -> (doc: Doc)
    requires
        from <= to,
        to <= model.candidates_list@.len(),
    ensures
        doc@ == styled_candidate_rows_of(
            model.candidates_list@,
            model.candidates_selected as int,
            from as int,
            to as int,
        ),
{
    let mut d = Doc::new();
    let mut k: usize = from;
    while k < to
        invariant
            from <= k <= to,
            to <= model.candidates_list@.len(),
            d@ == styled_candidate_rows_of(
                model.candidates_list@,
                model.candidates_selected as int,
                from as int,
                k as int,
            ),
        decreases to - k,
    {
        d.append(styled_candidate_row(&model.candidates_list[k], k == model.candidates_selected));
        k += 1;
    }
    d
}

/// Ranking pane of the candidates screen.
pub open spec fn candidates_list_pane(model: DashboardModel, rows: int) -> Seq<PieceV> {
    if model.candidates_list@.len() == 0 {
        seq![
            ink("No candidates loaded."@, Tone::Muted),
            nl(),
        ]
    } else {
        let total = model.candidates_list@.len() as int;
        let cursor = model.candidates_selected as int;
        styled_candidate_rows_of(
            model.candidates_list@,
            cursor,
            window_start(cursor, total, rows),
            window_end(cursor, total, rows),
        )
    }
}

/// Ranking pane of the candidates screen.
pub fn frame_candidates_list_styled(model: &DashboardModel, rows: usize) -> (doc: Doc)
    ensures
        doc@ == candidates_list_pane(*model, rows as int),
{
    if model.candidates_list.len() == 0 {
        let mut p = Doc::new();
        p.ink("No candidates loaded.", Tone::Muted);
        p.newline();
        p
    } else {
        let total: usize = model.candidates_list.len();
        let (from, to) = centered_window(model.candidates_selected, total, rows);
        styled_candidate_rows(model, from, to)
    }
}

/// The main fields of a candidate.
pub open spec fn styled_candidate_brief_of(decision: DecisionEvidence) -> Seq<PieceV> {
    seq![
        ink("  path    "@, Tone::Muted),
        ink(dir_part(decision.path@), Tone::Muted),
        ink(file_part(decision.path@), Tone::Accent),
        nl(),
        ink("  action  "@, Tone::Muted),
        badge(styled_action_word_of(decision.action@), action_tone_of(decision.action@)),
        nl(),
        ink("  score   "@, Tone::Muted),
        drawn(
            Atom::Fixed { value: decision.total_score, decimals: 3 },
            fg(Ink::Gradient(decision.total_score)),
        ),
        nl(),
        ink("  size    "@, Tone::Muted),
        drawn(Atom::Bytes(decision.size_bytes), fg(Ink::Of(Tone::Primary))),
        nl(),
        ink("  age     "@, Tone::Muted),
        drawn(Atom::Duration(decision.age_secs), fg(Ink::Of(Tone::Secondary))),
        nl(),
        ink("  Enter/Space for full detail"@, Tone::Muted),
        nl(),
    ]
}

/// The main fields of a candidate.
pub fn styled_candidate_brief(decision: &DecisionEvidence) -> (doc: Doc)
    ensures
        doc@ == styled_candidate_brief_of(*decision),
{
    let (dir, file) = split_path_dir_file(decision.path.as_str());
    let mut d = Doc::new();
    d.ink("  path    ", Tone::Muted);
    d.ink(dir.as_str(), Tone::Muted);
    d.ink(file.as_str(), Tone::Accent);
    d.newline();
    d.ink("  action  ", Tone::Muted);
    d.badge(
        styled_action_word(decision.action.as_str()).as_str(),
        action_tone(decision.action.as_str()),
    );
    d.newline();
    d.ink("  score   ", Tone::Muted);
    d.drawn(
        Atom::Fixed { value: decision.total_score, decimals: 3 },
        in_fg(Ink::Gradient(decision.total_score)),
    );
    d.newline();
    d.ink("  size    ", Tone::Muted);
    d.drawn(Atom::Bytes(decision.size_bytes), in_fg(Ink::Of(Tone::Primary)));
    d.newline();
    d.ink("  age     ", Tone::Muted);
    d.drawn(Atom::Duration(decision.age_secs), in_fg(Ink::Of(Tone::Secondary)));
    d.newline();
    d.ink("  Enter/Space for full detail", Tone::Muted);
    d.newline();
    d
}

/// Detail pane of the candidates screen.
pub open spec fn candidates_detail_pane(model: DashboardModel, pane_width: u16) -> Seq<PieceV> {
    if model.candidates_selected < model.candidates_list@.len() {
        let decision = model.candidates_list@[model.candidates_selected as int];
        if model.candidates_detail {
            styled_decision_detail_of(decision, page_width_of(pane_width))
        } else {
            styled_candidate_brief_of(decision)
        }
    } else {
        seq![
            ink("No selected candidate."@, Tone::Muted),
            nl(),
        ]
    }
}

/// Detail pane of the candidates screen.
pub fn frame_candidates_detail_styled(model: &DashboardModel, pane_width: u16) -> (doc: Doc)
    ensures
        doc@ == candidates_detail_pane(*model, pane_width),
{
    if model.candidates_selected < model.candidates_list.len() {
        let decision = &model.candidates_list[model.candidates_selected];
        if model.candidates_detail {
            styled_decision_detail(decision, page_width(pane_width))
        } else {
            styled_candidate_brief(decision)
        }
    } else {
        let mut p = Doc::new();
        p.ink("No selected candidate.", Tone::Muted);
        p.newline();
        p
    }
}

/// What the screen shows besides its hint line does not depend on how verbose
/// hints are.
pub proof fn law_explainability_ignores_hints(model: DashboardModel, other: HintVerbosity)
    ensures
        explainability_body(model) == explainability_body(
            (DashboardModel { hint_verbosity: other, ..model }),
        ),
{
}

/// What the screen shows besides its hint line does not depend on how verbose
/// hints are.
pub proof fn law_candidates_ignore_hints(model: DashboardModel, other: HintVerbosity)
    ensures
        candidates_body(model) == candidates_body(
            (DashboardModel { hint_verbosity: other, ..model }),
        ),
{
}

/// A vetoed candidate never counts towards the reclaim estimate.
pub proof fn law_vetoed_is_not_reclaimable(
    candidates: Seq<DecisionEvidence>,
    candidate: DecisionEvidence,
)
    requires
        candidate.vetoed,
    ensures
        reclaimable_of(candidates.push(candidate)) == reclaimable_of(candidates),
{
    assert(candidates.push(candidate).drop_last() =~= candidates);
}

/// The veto of a decision is announced in its detail whatever else it holds.
pub proof fn law_veto_is_shown(decision: DecisionEvidence, width: usize)
    requires
        decision.vetoed,
    ensures
        decision_detail(decision, width).contains(badge("VETOED"@, Tone::Danger)),
        candidate_detail(decision, width).contains(badge("VETOED"@, Tone::Danger)),
        styled_decision_detail_of(decision, width).contains(badge("VETOED"@, Tone::Danger)),
{
    let mark = badge("VETOED"@, Tone::Danger);
    let n = decision_identity(decision).len() as int;
    assert(decision_veto(decision)[1] == mark);
    assert(decision_detail(decision, width)[n + 1] == mark);
    assert(candidate_detail(decision, width)[n + 1] == mark);
    let m = styled_identity_of(decision).len() as int;
    assert(styled_veto_of(decision)[1] == mark);
    assert(styled_decision_detail_of(decision, width)[m + 1] == mark);
}

/// Behind each label of the styled decision detail stands the figure of the decision
/// that the label names.
pub proof fn law_styled_detail_shows_figures(decision: DecisionEvidence, width: usize)
    ensures
        ({
            let d = styled_decision_detail_of(decision, width);
            &&& labels(d, "#"@, Atom::Text(dec(decision.decision_id as nat)))
            &&& labels(d, "  timestamp   "@, Atom::Text(decision.timestamp@))
            &&& labels(d, "  size        "@, Atom::Bytes(decision.size_bytes))
            &&& labels(d, " ("@, Atom::Text(dec(decision.size_bytes as nat)))
            &&& labels(d, "  age         "@, Atom::Duration(decision.age_secs))
            &&& labels(d, "  policy      "@, Atom::Text(decision.policy_mode@))
            &&& labels(
                d,
                "  pressure-x  "@,
                Atom::Fixed { value: decision.factors.pressure_multiplier, decimals: 2 },
            )
            &&& labels(d, "  total-score "@, Atom::Fixed { value: decision.total_score, decimals: 4 })
            &&& labels(
                d,
                "  P(abandoned)  "@,
                Atom::Fixed { value: decision.posterior_abandoned, decimals: 4 },
            )
            &&& labels(
                d,
                "  E[loss|keep]  "@,
                Atom::Fixed { value: decision.expected_loss_keep, decimals: 2 },
            )
            &&& labels(
                d,
                "  E[loss|del]   "@,
                Atom::Fixed { value: decision.expected_loss_delete, decimals: 2 },
            )
            &&& labels(
                d,
                "  calibration   "@,
                Atom::Fixed { value: decision.calibration_score, decimals: 4 },
            )
        }),
{
    broadcast use crate::markup::group_labels;

}

/// A better calibration never means less confidence, and word and colour agree.
pub proof fn law_better_calibration_is_not_less_sure(a: Double, b: Double)
    requires
        a.ge(b),
    ensures
        alarm(confidence_tone_of(a)) <= alarm(confidence_tone_of(b)),
        confidence_word_of(a) == "HIGH"@ <==> confidence_tone_of(a) == Tone::Success,
        confidence_word_of(a) == "MODERATE"@ <==> confidence_tone_of(a) == Tone::Warning,
        confidence_word_of(a) == "LOW"@ <==> confidence_tone_of(a) == Tone::Danger,
        confidence_tone_of(a) == Tone::Success <==> a.ge(Double { bits: 0x3FEB_3333_3333_3333 }),
        confidence_tone_of(a) == Tone::Danger <==> !a.ge(Double { bits: 0x3FE3_3333_3333_3333 }),
{
    reveal_strlit("HIGH");
    reveal_strlit("MODERATE");
    reveal_strlit("LOW");
    assert("LOW"@.len() == 3 && "HIGH"@.len() == 4 && "MODERATE"@.len() == 8);
}

/// One more candidate adds its size to what can be reclaimed exactly where it is to be
/// deleted and not vetoed, and one to the vetoes exactly where it is vetoed.
pub proof fn law_candidates_are_counted(candidates: Seq<DecisionEvidence>, c: DecisionEvidence)
    ensures
        reclaimable_of(candidates.push(c)) - reclaimable_of(candidates) == if c.action@
            == "delete"@ && !c.vetoed {
            c.size_bytes as int
        } else {
            0
        },
        vetoed_of(candidates.push(c)) - vetoed_of(candidates) == if c.vetoed {
            1int
        } else {
            0
        },
        reclaimable_of(seq![]) == 0,
        vetoed_of(seq![]) == 0,
{
    assert(candidates.push(c).drop_last() =~= candidates);
}

/// The veto column reads "YES" exactly for a vetoed candidate.
pub proof fn law_veto_column(vetoed: bool)
    ensures
        veto_word_of(vetoed) == "YES"@ <==> vetoed,
        veto_word_of(vetoed) == "-"@ <==> !vetoed,
{
    reveal_strlit("YES");
    reveal_strlit("-");
    assert("YES"@.len() == 3 && "-"@.len() == 1);
}

} // verus!
