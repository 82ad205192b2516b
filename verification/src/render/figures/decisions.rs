//! What is shown on the explainability and candidates screens: figures behind
//! their labels, columns in order, and parts in their place.

use vstd::prelude::*;

use crate::double::Double;
use crate::markup::Atom;
use crate::markup::Gauge;
use crate::markup::before;
use crate::markup::before_at;
use crate::markup::labels;
use crate::markup::reads;
use crate::model::DashboardModel;
use crate::render::common::action_word_of;
use crate::render::common::cursor_mark_of;
use crate::render::common::dir_part;
use crate::render::common::file_part;
use crate::render::common::health_word_of;
use crate::render::common::nav_hint_of;
use crate::render::common::page_width_of;
use crate::render::common::shortened;
use crate::render::common::source_label;
use crate::render::common::styled_action_word_of;
use crate::render::common::window_end;
use crate::render::common::window_start;
use crate::render::decisions::bar_width_of;
use crate::render::decisions::candidate_detail;
use crate::render::decisions::candidate_row;
use crate::render::decisions::candidate_rows_of;
use crate::render::decisions::candidate_safety;
use crate::render::decisions::candidates_body;
use crate::render::decisions::candidates_detail_of;
use crate::render::decisions::candidates_detail_pane;
use crate::render::decisions::candidates_estimate_of;
use crate::render::decisions::candidates_head_of;
use crate::render::decisions::candidates_hint;
use crate::render::decisions::candidates_list_of;
use crate::render::decisions::candidates_list_pane;
use crate::render::decisions::candidates_page;
use crate::render::decisions::candidates_summary_pane;
use crate::render::decisions::candidates_veto_of;
use crate::render::decisions::confidence_word_of;
use crate::render::decisions::decision_detail;
use crate::render::decisions::decision_factors;
use crate::render::decisions::decision_guard;
use crate::render::decisions::decision_identity;
use crate::render::decisions::decision_row;
use crate::render::decisions::decision_rows_of;
use crate::render::decisions::decision_statistics;
use crate::render::decisions::decision_summary;
use crate::render::decisions::decision_veto;
use crate::render::decisions::explainability_body;
use crate::render::decisions::explainability_detail_of;
use crate::render::decisions::explainability_detail_pane;
use crate::render::decisions::explainability_head_of;
use crate::render::decisions::explainability_header_pane;
use crate::render::decisions::explainability_hint;
use crate::render::decisions::explainability_list_of;
use crate::render::decisions::explainability_list_pane;
use crate::render::decisions::explainability_page;
use crate::render::decisions::factor_bar;
use crate::render::decisions::pressure_line;
use crate::render::decisions::reclaimable_of;
use crate::render::decisions::styled_candidate_brief_of;
use crate::render::decisions::styled_candidate_row_of;
use crate::render::decisions::styled_candidate_rows_of;
use crate::render::decisions::styled_decision_brief_of;
use crate::render::decisions::styled_decision_detail_of;
use crate::render::decisions::styled_decision_row_of;
use crate::render::decisions::styled_decision_rows_of;
use crate::render::decisions::styled_factor_of;
use crate::render::decisions::styled_factors_of;
use crate::render::decisions::styled_guard_of;
use crate::render::decisions::styled_identity_of;
use crate::render::decisions::styled_statistics_of;
use crate::render::decisions::styled_summary_of;
use crate::render::decisions::styled_veto_of;
use crate::render::decisions::veto_word_of;
use crate::render::decisions::vetoed_of;
use crate::telemetry::DecisionEvidence;
use crate::text::dec;
use crate::text::padded_right;
use crate::text::uppered;

verus! {

/// A horizontal bar for a single scoring factor: each label is followed by the figure
/// that it names.
pub proof fn law_factor_bar_figures(label: Seq<char>, value: Double, width: usize)
    ensures
        ({
            let d = factor_bar(label, value, width);
            &&& labels(d, "["@, Atom::FactorBar { value, width })
        }),
{
    broadcast use crate::markup::group_labels;

}

/// A horizontal bar for a single scoring factor: its figures stand in the order of their columns.
pub proof fn law_factor_bar_order(label: Seq<char>, value: Double, width: usize)
    ensures
        ({
            let d = factor_bar(label, value, width);
            &&& before(d, Atom::Text(label), Atom::FactorBar { value, width })
            &&& before(
                d,
                Atom::FactorBar { value, width },
                Atom::Fixed { value: value, decimals: 2 },
            )
        }),
{
    let d = factor_bar(label, value, width);
    assert(before_at(d, 1, 4, Atom::Text(label), Atom::FactorBar { value, width }));
    assert(before_at(
        d,
        4,
        7,
        Atom::FactorBar { value, width },
        Atom::Fixed { value: value, decimals: 2 },
    ));
}

/// Identity, action and policy of a decision: each label is followed by the figure that it names.
pub proof fn law_decision_identity_figures(decision: DecisionEvidence)
    ensures
        ({
            let d = decision_identity(decision);
            &&& labels(d, "  decision-id: #"@, Atom::Text(dec(decision.decision_id as nat)))
            &&& labels(d, "  timestamp:   "@, Atom::Text(decision.timestamp@))
            &&& labels(d, "  path:        "@, Atom::Text(decision.path@))
            &&& labels(d, "  size:        "@, Atom::Bytes(decision.size_bytes))
            &&& labels(d, " ("@, Atom::Text(dec(decision.size_bytes as nat)))
            &&& labels(d, "  age:         "@, Atom::Duration(decision.age_secs))
            &&& labels(d, "  action:      "@, Atom::Badge(action_word_of(decision.action@)))
            &&& decision.effective_action is Some ==> labels(
                d,
                "  effective:   "@,
                Atom::Badge(action_word_of(decision.effective_action->0@)),
            )
            &&& labels(d, "  policy-mode: "@, Atom::Text(decision.policy_mode@))
        }),
{
    broadcast use crate::markup::group_labels;

}

/// The veto of a decision and its reason: each label is followed by the figure that it names.
pub proof fn law_decision_veto_figures(decision: DecisionEvidence)
    ensures
        ({
            let d = decision_veto(decision);
            &&& decision.vetoed ==> labels(d, "  veto:        "@, Atom::Badge("VETOED"@))
            &&& decision.vetoed && decision.veto_reason is Some ==> labels(
                d,
                "  veto-reason: "@,
                Atom::Text(decision.veto_reason->0@),
            )
        }),
{
    broadcast use crate::markup::group_labels;

}

/// The guard status of a decision: each label is followed by the figure that it names.
pub proof fn law_decision_guard_figures(decision: DecisionEvidence)
    ensures
        ({
            let d = decision_guard(decision);
            &&& decision.guard_status is Some ==> labels(
                d,
                "  guard:       "@,
                Atom::Text(decision.guard_status->0@),
            )
        }),
{
    broadcast use crate::markup::group_labels;

}

/// The scoring factors of a decision: each label is followed by the figure that it names.
pub proof fn law_decision_factors_figures(decision: DecisionEvidence, width: usize)
    ensures
        ({
            let d = decision_factors(decision, width);
            &&& labels(
                d,
                "  pressure-multiplier: "@,
                Atom::Fixed { value: decision.factors.pressure_multiplier, decimals: 2 },
            )
            &&& labels(
                d,
                "  total-score: "@,
                Atom::Fixed { value: decision.total_score, decimals: 4 },
            )
        }),
{
    broadcast use crate::markup::group_labels;

}

/// The scoring factors of a decision: its parts stand in it.
pub proof fn law_decision_factors_parts(decision: DecisionEvidence, width: usize)
    ensures
        ({
            let d = decision_factors(decision, width);
            &&& reads(d, factor_bar("location "@, decision.factors.location, bar_width_of(width)))
            &&& reads(d, factor_bar("name     "@, decision.factors.name, bar_width_of(width)))
            &&& reads(d, factor_bar("age      "@, decision.factors.age, bar_width_of(width)))
            &&& reads(d, factor_bar("size     "@, decision.factors.size, bar_width_of(width)))
            &&& reads(d, factor_bar("structure"@, decision.factors.structure, bar_width_of(width)))
        }),
{
    broadcast use crate::markup::group_reads;

}

/// The Bayesian statistics of a decision and the confidence in them: each label is
/// followed by the figure that it names.
pub proof fn law_decision_statistics_figures(decision: DecisionEvidence)
    ensures
        ({
            let d = decision_statistics(decision);
            &&& labels(
                d,
                "  P(abandoned):     "@,
                Atom::Fixed { value: decision.posterior_abandoned, decimals: 4 },
            )
            &&& labels(
                d,
                "  E[loss|keep]:     "@,
                Atom::Fixed { value: decision.expected_loss_keep, decimals: 2 },
            )
            &&& labels(
                d,
                "  E[loss|delete]:   "@,
                Atom::Fixed { value: decision.expected_loss_delete, decimals: 2 },
            )
            &&& labels(
                d,
                "  calibration:      "@,
                Atom::Fixed { value: decision.calibration_score, decimals: 4 },
            )
            &&& labels(
                d,
                "  confidence:       "@,
                Atom::Badge(confidence_word_of(decision.calibration_score)),
            )
        }),
{
    broadcast use crate::markup::group_labels;

}

/// The summary of a decision, where it has one: each label is followed by the figure that it names.
pub proof fn law_decision_summary_figures(decision: DecisionEvidence)
    ensures
        ({
            let d = decision_summary(decision);
            &&& (decision.summary@.len() > 0) ==> labels(
                d,
                "  summary: "@,
                Atom::Text(decision.summary@),
            )
        }),
{
    broadcast use crate::markup::group_labels;

}

/// Every field of a decision: its parts stand in it.
pub proof fn law_decision_detail_parts(decision: DecisionEvidence, width: usize)
    ensures
        ({
            let d = decision_detail(decision, width);
            &&& reads(d, decision_identity(decision))
            &&& reads(d, decision_veto(decision))
            &&& reads(d, decision_guard(decision))
            &&& reads(d, decision_factors(decision, width))
            &&& reads(d, decision_statistics(decision))
            &&& reads(d, decision_summary(decision))
        }),
{
    broadcast use crate::markup::group_reads;

}

/// The veto of a candidate, or that there is none: each label is followed by the figure
/// that it names.
pub proof fn law_candidate_safety_figures(decision: DecisionEvidence)
    ensures
        ({
            let d = candidate_safety(decision);
            &&& !(decision.vetoed) ==> labels(d, "  safety:      "@, Atom::Badge("CLEAR"@))
        }),
{
    broadcast use crate::markup::group_labels;

}

/// The veto of a candidate, or that there is none: its parts stand in it.
pub proof fn law_candidate_safety_parts(decision: DecisionEvidence)
    ensures
        ({
            let d = candidate_safety(decision);
            &&& decision.vetoed ==> reads(d, decision_veto(decision))
        }),
{
    broadcast use crate::markup::group_reads;

}

/// Every field of a candidate: its parts stand in it.
pub proof fn law_candidate_detail_parts(decision: DecisionEvidence, width: usize)
    ensures
        ({
            let d = candidate_detail(decision, width);
            &&& reads(d, decision_identity(decision))
            &&& reads(d, candidate_safety(decision))
            &&& reads(d, decision_guard(decision))
            &&& reads(d, decision_factors(decision, width))
            &&& reads(d, decision_statistics(decision))
            &&& reads(d, decision_summary(decision))
        }),
{
    broadcast use crate::markup::group_reads;

}

/// The pressure level and the counters of the daemon, while it is known: each label is
/// followed by the figure that it names.
pub proof fn law_pressure_line_figures(model: DashboardModel)
    ensures
        ({
            let d = pressure_line(model);
            &&& model.daemon_state is Some ==> labels(
                d,
                "pressure="@,
                Atom::Badge(uppered(model.daemon_state->0.pressure.overall@)),
            )
            &&& model.daemon_state is Some ==> labels(
                d,
                " scans="@,
                Atom::Text(dec(model.daemon_state->0.counters.scans as nat)),
            )
            &&& model.daemon_state is Some ==> labels(
                d,
                " deletions="@,
                Atom::Text(dec(model.daemon_state->0.counters.deletions as nat)),
            )
            &&& model.daemon_state is Some ==> labels(
                d,
                " errors="@,
                Atom::Text(dec(model.daemon_state->0.counters.errors as nat)),
            )
        }),
{
    broadcast use crate::markup::group_labels;

}

/// One line of the decision list: each label is followed by the figure that it names.
pub proof fn law_decision_row_figures(cursor: Seq<char>, decision: DecisionEvidence)
    ensures
        ({
            let d = decision_row(cursor, decision);
            &&& labels(d, " #"@, Atom::Text(padded_right(dec(decision.decision_id as nat), 4)))
            &&& labels(d, "  score="@, Atom::Fixed { value: decision.total_score, decimals: 2 })
            &&& labels(
                d,
                "  P(abn)="@,
                Atom::Fixed { value: decision.posterior_abandoned, decimals: 2 },
            )
        }),
{
    broadcast use crate::markup::group_labels;

}

/// One line of the decision list: its figures stand in the order of their columns.
pub proof fn law_decision_row_order(cursor: Seq<char>, decision: DecisionEvidence)
    ensures
        ({
            let d = decision_row(cursor, decision);
            &&& before(
                d,
                Atom::Text(cursor),
                Atom::Text(padded_right(dec(decision.decision_id as nat), 4)),
            )
            &&& before(
                d,
                Atom::Text(padded_right(dec(decision.decision_id as nat), 4)),
                Atom::Clock(decision.timestamp@),
            )
            &&& before(
                d,
                Atom::Clock(decision.timestamp@),
                Atom::Badge(action_word_of(decision.action@)),
            )
            &&& before(
                d,
                Atom::Badge(action_word_of(decision.action@)),
                Atom::Fixed { value: decision.total_score, decimals: 2 },
            )
            &&& before(
                d,
                Atom::Fixed { value: decision.posterior_abandoned, decimals: 2 },
                Atom::Bytes(decision.size_bytes),
            )
            &&& before(
                d,
                Atom::Bytes(decision.size_bytes),
                Atom::Text(shortened(decision.path@, 40 as nat)),
            )
        }),
{
    let d = decision_row(cursor, decision);
    if decision.vetoed {
        assert(before_at(
            d,
            0,
            2,
            Atom::Text(cursor),
            Atom::Text(padded_right(dec(decision.decision_id as nat), 4)),
        ));
        assert(before_at(
            d,
            2,
            4,
            Atom::Text(padded_right(dec(decision.decision_id as nat), 4)),
            Atom::Clock(decision.timestamp@),
        ));
        assert(before_at(
            d,
            4,
            6,
            Atom::Clock(decision.timestamp@),
            Atom::Badge(action_word_of(decision.action@)),
        ));
        assert(before_at(
            d,
            6,
            9,
            Atom::Badge(action_word_of(decision.action@)),
            Atom::Fixed { value: decision.total_score, decimals: 2 },
        ));
        assert(before_at(
            d,
            11,
            13,
            Atom::Fixed { value: decision.posterior_abandoned, decimals: 2 },
            Atom::Bytes(decision.size_bytes),
        ));
        assert(before_at(
            d,
            13,
            15,
            Atom::Bytes(decision.size_bytes),
            Atom::Text(shortened(decision.path@, 40 as nat)),
        ));
    }
    if !(decision.vetoed) {
        assert(before_at(
            d,
            0,
            2,
            Atom::Text(cursor),
            Atom::Text(padded_right(dec(decision.decision_id as nat), 4)),
        ));
        assert(before_at(
            d,
            2,
            4,
            Atom::Text(padded_right(dec(decision.decision_id as nat), 4)),
            Atom::Clock(decision.timestamp@),
        ));
        assert(before_at(
            d,
            4,
            6,
            Atom::Clock(decision.timestamp@),
            Atom::Badge(action_word_of(decision.action@)),
        ));
        assert(before_at(
            d,
            6,
            8,
            Atom::Badge(action_word_of(decision.action@)),
            Atom::Fixed { value: decision.total_score, decimals: 2 },
        ));
        assert(before_at(
            d,
            10,
            12,
            Atom::Fixed { value: decision.posterior_abandoned, decimals: 2 },
            Atom::Bytes(decision.size_bytes),
        ));
        assert(before_at(
            d,
            12,
            14,
            Atom::Bytes(decision.size_bytes),
            Atom::Text(shortened(decision.path@, 40 as nat)),
        ));
    }
}

/// Rows of the decision list: one row follows another, and each shows its own item.
pub proof fn law_decision_rows_row_by_row(
    decisions: Seq<DecisionEvidence>,
    selected: int,
    from: int,
    mid: int,
    to: int,
)
    requires
        from <= mid <= to,
    ensures
        decision_rows_of(decisions, selected, from, to)
            == decision_rows_of(decisions, selected, from, mid) + decision_rows_of(decisions, selected, mid, to),
        decision_rows_of(decisions, selected, mid, mid + 1)
            == decision_row(cursor_mark_of(mid == selected), decisions[mid]),
    decreases to - mid,
{
    assert(decision_rows_of(decisions, selected, mid, mid) =~= seq![]);
    assert(decision_rows_of(decisions, selected, mid, mid + 1)
        =~= decision_row(cursor_mark_of(mid == selected), decisions[mid]));
    if mid < to {
        law_decision_rows_row_by_row(decisions, selected, from, mid, to - 1);
        assert(decision_rows_of(decisions, selected, from, to)
            =~= decision_rows_of(decisions, selected, from, mid) + decision_rows_of(decisions, selected, mid, to));
    } else {
        assert(decision_rows_of(decisions, selected, from, to)
            =~= decision_rows_of(decisions, selected, from, mid) + decision_rows_of(decisions, selected, mid, to));
    }
}

/// Data source, counts and pressure: each label is followed by the figure that it names.
pub proof fn law_explainability_head_figures(model: DashboardModel)
    ensures
        ({
            let d = explainability_head_of(model);
            &&& labels(d, "data-source="@, Atom::Text(source_label(model.explainability_source)))
            &&& labels(
                d,
                " decisions="@,
                Atom::Text(dec(model.explainability_decisions@.len() as nat)),
            )
            &&& (model.explainability_diagnostics@.len() > 0) ==> labels(
                d,
                "  diag: "@,
                Atom::Text(model.explainability_diagnostics@),
            )
        }),
{
    broadcast use crate::markup::group_labels;

}

/// Data source, counts and pressure: its figures stand in the order of their columns.
pub proof fn law_explainability_head_order(model: DashboardModel)
    ensures
        ({
            let d = explainability_head_of(model);
            &&& before(
                d,
                Atom::Text(source_label(model.explainability_source)),
                Atom::Badge(health_word_of(model.explainability_source, model.explainability_partial)),
            )
            &&& before(
                d,
                Atom::Badge(health_word_of(model.explainability_source, model.explainability_partial)),
                Atom::Text(dec(model.explainability_decisions@.len() as nat)),
            )
        }),
{
    let d = explainability_head_of(model);
    if (model.explainability_diagnostics@.len() > 0) {
        assert(before_at(
            d,
            1,
            3,
            Atom::Text(source_label(model.explainability_source)),
            Atom::Badge(health_word_of(model.explainability_source, model.explainability_partial)),
        ));
        assert(before_at(
            d,
            3,
            5,
            Atom::Badge(health_word_of(model.explainability_source, model.explainability_partial)),
            Atom::Text(dec(model.explainability_decisions@.len() as nat)),
        ));
    }
    if (!(model.explainability_diagnostics@.len() > 0)) {
        assert(before_at(
            d,
            1,
            3,
            Atom::Text(source_label(model.explainability_source)),
            Atom::Badge(health_word_of(model.explainability_source, model.explainability_partial)),
        ));
        assert(before_at(
            d,
            3,
            5,
            Atom::Badge(health_word_of(model.explainability_source, model.explainability_partial)),
            Atom::Text(dec(model.explainability_decisions@.len() as nat)),
        ));
    }
}

/// Data source, counts and pressure: its parts stand in it.
pub proof fn law_explainability_head_parts(model: DashboardModel)
    ensures
        ({
            let d = explainability_head_of(model);
            &&& reads(d, pressure_line(model))
        }),
{
    broadcast use crate::markup::group_reads;

}

/// The decisions, or why there are none: its parts stand in it.
pub proof fn law_explainability_list_parts(model: DashboardModel)
    ensures
        ({
            let d = explainability_list_of(model);
            &&& (!(model.explainability_decisions@.len() == 0)) ==> reads(
                d,
                decision_rows_of(
                    model.explainability_decisions@,
                    model.explainability_selected as int,
                    0,
                    model.explainability_decisions@.len() as int,
                ),
            )
        }),
{
    broadcast use crate::markup::group_reads;

}

/// The selected decision in full, or how to open it: its parts stand in it.
pub proof fn law_explainability_detail_parts(model: DashboardModel)
    ensures
        ({
            let d = explainability_detail_of(model);
            &&& (!(model.explainability_decisions@.len() == 0)) && model.explainability_detail && (model.explainability_selected < model.explainability_decisions@.len()) ==> reads(
                d,
                decision_detail(
                    model.explainability_decisions@[model.explainability_selected as int],
                    page_width_of(model.terminal_size.0),
                ),
            )
        }),
{
    broadcast use crate::markup::group_reads;

}

/// What the explainability screen shows besides its hint line: its parts stand in it.
pub proof fn law_explainability_body_parts(model: DashboardModel)
    ensures
        ({
            let d = explainability_body(model);
            &&& reads(d, explainability_head_of(model))
            &&& reads(d, explainability_list_of(model))
            &&& reads(d, explainability_detail_of(model))
        }),
{
    broadcast use crate::markup::group_reads;

}

/// The hint line of the explainability screen: its parts stand in it.
pub proof fn law_explainability_hint_parts(model: DashboardModel)
    ensures
        ({
            let d = explainability_hint(model);
            &&& reads(
                d,
                nav_hint_of(
                    model.hint_verbosity,
                    "j/k or \u{2191}/\u{2193} navigate  Enter/Space expand  d close detail  r refresh  ? help  : palette"@,
                    "j/k navigate  Enter/Space detail  d close  r refresh"@,
                ),
            )
        }),
{
    broadcast use crate::markup::group_reads;

}

/// The explainability screen: data source, recent decisions and the selected decision:
/// its parts stand in it.
pub proof fn law_explainability_page_parts(model: DashboardModel)
    ensures
        ({
            let d = explainability_page(model);
            &&& reads(d, explainability_body(model))
            &&& reads(d, explainability_hint(model))
        }),
{
    broadcast use crate::markup::group_reads;

}

/// One line of the candidate ranking: its figures stand in the order of their columns.
pub proof fn law_candidate_row_order(cursor: Seq<char>, decision: DecisionEvidence)
    ensures
        ({
            let d = candidate_row(cursor, decision);
            &&& before(
                d,
                Atom::Text(cursor),
                Atom::Text(padded_right(dec(decision.decision_id as nat), 4)),
            )
            &&& before(
                d,
                Atom::Text(padded_right(dec(decision.decision_id as nat), 4)),
                Atom::Badge(action_word_of(decision.action@)),
            )
            &&& before(
                d,
                Atom::Badge(action_word_of(decision.action@)),
                Atom::Fixed { value: decision.total_score, decimals: 2 },
            )
            &&& before(
                d,
                Atom::Fixed { value: decision.total_score, decimals: 2 },
                Atom::Bytes(decision.size_bytes),
            )
            &&& before(d, Atom::Bytes(decision.size_bytes), Atom::Duration(decision.age_secs))
            &&& before(
                d,
                Atom::Duration(decision.age_secs),
                Atom::Text(padded_right(veto_word_of(decision.vetoed), 6)),
            )
            &&& before(
                d,
                Atom::Text(padded_right(veto_word_of(decision.vetoed), 6)),
                Atom::Text(shortened(decision.path@, 40 as nat)),
            )
        }),
{
    let d = candidate_row(cursor, decision);
    assert(before_at(
        d,
        0,
        2,
        Atom::Text(cursor),
        Atom::Text(padded_right(dec(decision.decision_id as nat), 4)),
    ));
    assert(before_at(
        d,
        2,
        4,
        Atom::Text(padded_right(dec(decision.decision_id as nat), 4)),
        Atom::Badge(action_word_of(decision.action@)),
    ));
    assert(before_at(
        d,
        4,
        6,
        Atom::Badge(action_word_of(decision.action@)),
        Atom::Fixed { value: decision.total_score, decimals: 2 },
    ));
    assert(before_at(
        d,
        6,
        8,
        Atom::Fixed { value: decision.total_score, decimals: 2 },
        Atom::Bytes(decision.size_bytes),
    ));
    assert(before_at(
        d,
        8,
        10,
        Atom::Bytes(decision.size_bytes),
        Atom::Duration(decision.age_secs),
    ));
    assert(before_at(
        d,
        10,
        12,
        Atom::Duration(decision.age_secs),
        Atom::Text(padded_right(veto_word_of(decision.vetoed), 6)),
    ));
    assert(before_at(
        d,
        12,
        14,
        Atom::Text(padded_right(veto_word_of(decision.vetoed), 6)),
        Atom::Text(shortened(decision.path@, 40 as nat)),
    ));
}

/// Rows of the candidate ranking: one row follows another, and each shows its own item.
pub proof fn law_candidate_rows_row_by_row(
    decisions: Seq<DecisionEvidence>,
    selected: int,
    from: int,
    mid: int,
    to: int,
)
    requires
        from <= mid <= to,
    ensures
        candidate_rows_of(decisions, selected, from, to)
            == candidate_rows_of(decisions, selected, from, mid) + candidate_rows_of(decisions, selected, mid, to),
        candidate_rows_of(decisions, selected, mid, mid + 1)
            == candidate_row(cursor_mark_of(mid == selected), decisions[mid]),
    decreases to - mid,
{
    assert(candidate_rows_of(decisions, selected, mid, mid) =~= seq![]);
    assert(candidate_rows_of(decisions, selected, mid, mid + 1)
        =~= candidate_row(cursor_mark_of(mid == selected), decisions[mid]));
    if mid < to {
        law_candidate_rows_row_by_row(decisions, selected, from, mid, to - 1);
        assert(candidate_rows_of(decisions, selected, from, to)
            =~= candidate_rows_of(decisions, selected, from, mid) + candidate_rows_of(decisions, selected, mid, to));
    } else {
        assert(candidate_rows_of(decisions, selected, from, to)
            =~= candidate_rows_of(decisions, selected, from, mid) + candidate_rows_of(decisions, selected, mid, to));
    }
}

/// Data source, counts, sort order and pressure: each label is followed by the figure
/// that it names.
pub proof fn law_candidates_head_figures(model: DashboardModel)
    ensures
        ({
            let d = candidates_head_of(model);
            &&& labels(d, "data-source="@, Atom::Text(source_label(model.candidates_source)))
            &&& labels(d, " candidates="@, Atom::Text(dec(model.candidates_list@.len() as nat)))
            &&& (model.candidates_diagnostics@.len() > 0) ==> labels(
                d,
                "  diag: "@,
                Atom::Text(model.candidates_diagnostics@),
            )
            &&& labels(d, "sort="@, Atom::Text(model.candidates_sort@))
        }),
{
    broadcast use crate::markup::group_labels;

}

/// Data source, counts, sort order and pressure: its figures stand in the order of their columns.
pub proof fn law_candidates_head_order(model: DashboardModel)
    ensures
        ({
            let d = candidates_head_of(model);
            &&& before(
                d,
                Atom::Text(source_label(model.candidates_source)),
                Atom::Badge(health_word_of(model.candidates_source, model.candidates_partial)),
            )
            &&& before(
                d,
                Atom::Badge(health_word_of(model.candidates_source, model.candidates_partial)),
                Atom::Text(dec(model.candidates_list@.len() as nat)),
            )
        }),
{
    let d = candidates_head_of(model);
    if (model.candidates_diagnostics@.len() > 0) {
        assert(before_at(
            d,
            1,
            3,
            Atom::Text(source_label(model.candidates_source)),
            Atom::Badge(health_word_of(model.candidates_source, model.candidates_partial)),
        ));
        assert(before_at(
            d,
            3,
            5,
            Atom::Badge(health_word_of(model.candidates_source, model.candidates_partial)),
            Atom::Text(dec(model.candidates_list@.len() as nat)),
        ));
    }
    if (!(model.candidates_diagnostics@.len() > 0)) {
        assert(before_at(
            d,
            1,
            3,
            Atom::Text(source_label(model.candidates_source)),
            Atom::Badge(health_word_of(model.candidates_source, model.candidates_partial)),
        ));
        assert(before_at(
            d,
            3,
            5,
            Atom::Badge(health_word_of(model.candidates_source, model.candidates_partial)),
            Atom::Text(dec(model.candidates_list@.len() as nat)),
        ));
    }
}

/// Data source, counts, sort order and pressure: its parts stand in it.
pub proof fn law_candidates_head_parts(model: DashboardModel)
    ensures
        ({
            let d = candidates_head_of(model);
            &&& reads(d, pressure_line(model))
        }),
{
    broadcast use crate::markup::group_reads;

}

/// The candidate ranking, or why there is none: its parts stand in it.
pub proof fn law_candidates_list_parts(model: DashboardModel)
    ensures
        ({
            let d = candidates_list_of(model);
            &&& (!(model.candidates_list@.len() == 0)) ==> reads(
                d,
                candidate_rows_of(
                    model.candidates_list@,
                    model.candidates_selected as int,
                    0,
                    model.candidates_list@.len() as int,
                ),
            )
        }),
{
    broadcast use crate::markup::group_reads;

}

/// How many candidates are protected from deletion: each label is followed by the
/// figure that it names.
pub proof fn law_candidates_veto_figures(model: DashboardModel)
    ensures
        ({
            let d = candidates_veto_of(model);
            &&& (vetoed_of(model.candidates_list@) > 0) ==> labels(
                d,
                " candidate(s) "@,
                Atom::Badge("VETOED"@),
            )
        }),
{
    broadcast use crate::markup::group_labels;

}

/// How many candidates are protected from deletion: its figures stand in the order of
/// their columns.
pub proof fn law_candidates_veto_order(model: DashboardModel)
    ensures
        ({
            let d = candidates_veto_of(model);
            &&& (vetoed_of(model.candidates_list@) > 0) ==> before(
                d,
                Atom::Text(dec(vetoed_of(model.candidates_list@) as nat)),
                Atom::Badge("VETOED"@),
            )
        }),
{
    let d = candidates_veto_of(model);
    if (vetoed_of(model.candidates_list@) > 0) {
        assert(before_at(
            d,
            1,
            3,
            Atom::Text(dec(vetoed_of(model.candidates_list@) as nat)),
            Atom::Badge("VETOED"@),
        ));
    }
}

/// The estimate of what deletion would free: each label is followed by the figure that it names.
pub proof fn law_candidates_estimate_figures(model: DashboardModel)
    ensures
        ({
            let d = candidates_estimate_of(model);
            &&& (reclaimable_of(model.candidates_list@) > 0) ==> labels(
                d,
                "estimated reclaimable: "@,
                Atom::Bytes(reclaimable_of(model.candidates_list@) as u64),
            )
        }),
{
    broadcast use crate::markup::group_labels;

}

/// The selected candidate in full, or how to open it: its parts stand in it.
pub proof fn law_candidates_detail_parts(model: DashboardModel)
    ensures
        ({
            let d = candidates_detail_of(model);
            &&& (!(model.candidates_list@.len() == 0)) && model.candidates_detail && (model.candidates_selected < model.candidates_list@.len()) ==> reads(
                d,
                candidate_detail(
                    model.candidates_list@[model.candidates_selected as int],
                    page_width_of(model.terminal_size.0),
                ),
            )
        }),
{
    broadcast use crate::markup::group_reads;

}

/// What the candidates screen shows besides its hint line: its parts stand in it.
pub proof fn law_candidates_body_parts(model: DashboardModel)
    ensures
        ({
            let d = candidates_body(model);
            &&& reads(d, candidates_head_of(model))
            &&& reads(d, candidates_list_of(model))
            &&& reads(d, candidates_veto_of(model))
            &&& reads(d, candidates_estimate_of(model))
            &&& reads(d, candidates_detail_of(model))
        }),
{
    broadcast use crate::markup::group_reads;

}

/// The hint line of the candidates screen: its parts stand in it.
pub proof fn law_candidates_hint_parts(model: DashboardModel)
    ensures
        ({
            let d = candidates_hint(model);
            &&& reads(
                d,
                nav_hint_of(
                    model.hint_verbosity,
                    "j/k or \u{2191}/\u{2193} navigate  Enter/Space expand  d close  s sort  r refresh  ? help  : palette"@,
                    "j/k navigate  Enter/Space detail  s sort  r refresh"@,
                ),
            )
        }),
{
    broadcast use crate::markup::group_reads;

}

/// The candidates screen: data source, candidate ranking, vetoes, reclaim estimate and
/// the selected candidate: its parts stand in it.
pub proof fn law_candidates_page_parts(model: DashboardModel)
    ensures
        ({
            let d = candidates_page(model);
            &&& reads(d, candidates_body(model))
            &&& reads(d, candidates_hint(model))
        }),
{
    broadcast use crate::markup::group_reads;

}

/// Header pane of the explainability screen: each label is followed by the figure that it names.
pub proof fn law_explainability_header_pane_figures(model: DashboardModel)
    ensures
        ({
            let d = explainability_header_pane(model);
            &&& labels(d, "source "@, Atom::Badge(source_label(model.explainability_source)))
            &&& labels(
                d,
                "decisions="@,
                Atom::Text(dec(model.explainability_decisions@.len() as nat)),
            )
            &&& model.daemon_state is Some ==> labels(
                d,
                "pressure "@,
                Atom::Badge(uppered(model.daemon_state->0.pressure.overall@)),
            )
            &&& model.daemon_state is Some ==> labels(
                d,
                "policy "@,
                Atom::Badge(uppered(model.daemon_state->0.policy_mode@)),
            )
            &&& model.daemon_state is Some ==> labels(
                d,
                "  scans="@,
                Atom::Text(dec(model.daemon_state->0.counters.scans as nat)),
            )
            &&& model.daemon_state is Some ==> labels(
                d,
                " deletions="@,
                Atom::Text(dec(model.daemon_state->0.counters.deletions as nat)),
            )
        }),
{
    broadcast use crate::markup::group_labels;

}

/// Header pane of the explainability screen: its figures stand in the order of their columns.
pub proof fn law_explainability_header_pane_order(model: DashboardModel)
    ensures
        ({
            let d = explainability_header_pane(model);
            &&& model.explainability_partial ==> before(
                d,
                Atom::Badge(source_label(model.explainability_source)),
                Atom::Badge("PARTIAL"@),
            )
            &&& model.explainability_partial ==> before(
                d,
                Atom::Badge("PARTIAL"@),
                Atom::Text(dec(model.explainability_decisions@.len() as nat)),
            )
        }),
{
    let d = explainability_header_pane(model);
    if model.daemon_state is Some && model.explainability_partial {
        assert(before_at(
            d,
            1,
            3,
            Atom::Badge(source_label(model.explainability_source)),
            Atom::Badge("PARTIAL"@),
        ));
        assert(before_at(
            d,
            3,
            6,
            Atom::Badge("PARTIAL"@),
            Atom::Text(dec(model.explainability_decisions@.len() as nat)),
        ));
    }
    if model.daemon_state is None && model.explainability_partial {
        assert(before_at(
            d,
            1,
            3,
            Atom::Badge(source_label(model.explainability_source)),
            Atom::Badge("PARTIAL"@),
        ));
        assert(before_at(
            d,
            3,
            6,
            Atom::Badge("PARTIAL"@),
            Atom::Text(dec(model.explainability_decisions@.len() as nat)),
        ));
    }
}

/// One styled line of the decision list: each label is followed by the figure that it names.
pub proof fn law_styled_decision_row_figures(decision: DecisionEvidence, selected: bool)
    ensures
        ({
            let d = styled_decision_row_of(decision, selected);
            &&& labels(d, "#"@, Atom::Text(padded_right(dec(decision.decision_id as nat), 4)))
            &&& labels(d, " P="@, Atom::Fixed { value: decision.posterior_abandoned, decimals: 2 })
        }),
{
    broadcast use crate::markup::group_labels;

}

/// One styled line of the decision list: its figures stand in the order of their columns.
pub proof fn law_styled_decision_row_order(decision: DecisionEvidence, selected: bool)
    ensures
        ({
            let d = styled_decision_row_of(decision, selected);
            &&& before(
                d,
                Atom::Text(padded_right(dec(decision.decision_id as nat), 4)),
                Atom::Clock(decision.timestamp@),
            )
            &&& before(
                d,
                Atom::Clock(decision.timestamp@),
                Atom::Badge(styled_action_word_of(decision.action@)),
            )
            &&& before(
                d,
                Atom::Badge(styled_action_word_of(decision.action@)),
                Atom::Fixed { value: decision.total_score, decimals: 2 },
            )
            &&& before(
                d,
                Atom::Fixed { value: decision.total_score, decimals: 2 },
                Atom::Fixed { value: decision.posterior_abandoned, decimals: 2 },
            )
            &&& decision.vetoed ==> before(
                d,
                Atom::Fixed { value: decision.posterior_abandoned, decimals: 2 },
                Atom::Badge("VETO"@),
            )
        }),
{
    let d = styled_decision_row_of(decision, selected);
    if decision.vetoed {
        assert(before_at(
            d,
            2,
            4,
            Atom::Text(padded_right(dec(decision.decision_id as nat), 4)),
            Atom::Clock(decision.timestamp@),
        ));
        assert(before_at(
            d,
            4,
            6,
            Atom::Clock(decision.timestamp@),
            Atom::Badge(styled_action_word_of(decision.action@)),
        ));
        assert(before_at(
            d,
            6,
            8,
            Atom::Badge(styled_action_word_of(decision.action@)),
            Atom::Fixed { value: decision.total_score, decimals: 2 },
        ));
        assert(before_at(
            d,
            8,
            10,
            Atom::Fixed { value: decision.total_score, decimals: 2 },
            Atom::Fixed { value: decision.posterior_abandoned, decimals: 2 },
        ));
        assert(before_at(
            d,
            10,
            12,
            Atom::Fixed { value: decision.posterior_abandoned, decimals: 2 },
            Atom::Badge("VETO"@),
        ));
    }
    if !(decision.vetoed) {
        assert(before_at(
            d,
            2,
            4,
            Atom::Text(padded_right(dec(decision.decision_id as nat), 4)),
            Atom::Clock(decision.timestamp@),
        ));
        assert(before_at(
            d,
            4,
            6,
            Atom::Clock(decision.timestamp@),
            Atom::Badge(styled_action_word_of(decision.action@)),
        ));
        assert(before_at(
            d,
            6,
            8,
            Atom::Badge(styled_action_word_of(decision.action@)),
            Atom::Fixed { value: decision.total_score, decimals: 2 },
        ));
        assert(before_at(
            d,
            8,
            10,
            Atom::Fixed { value: decision.total_score, decimals: 2 },
            Atom::Fixed { value: decision.posterior_abandoned, decimals: 2 },
        ));
    }
}

/// Styled rows of the decision list: one row follows another, and each shows its own item.
pub proof fn law_styled_decision_rows_row_by_row(
    decisions: Seq<DecisionEvidence>,
    selected: int,
    from: int,
    mid: int,
    to: int,
)
    requires
        from <= mid <= to,
    ensures
        styled_decision_rows_of(decisions, selected, from, to)
            == styled_decision_rows_of(decisions, selected, from, mid) + styled_decision_rows_of(decisions, selected, mid, to),
        styled_decision_rows_of(decisions, selected, mid, mid + 1)
            == styled_decision_row_of(decisions[mid], mid == selected),
    decreases to - mid,
{
    assert(styled_decision_rows_of(decisions, selected, mid, mid) =~= seq![]);
    assert(styled_decision_rows_of(decisions, selected, mid, mid + 1)
        =~= styled_decision_row_of(decisions[mid], mid == selected));
    if mid < to {
        law_styled_decision_rows_row_by_row(decisions, selected, from, mid, to - 1);
        assert(styled_decision_rows_of(decisions, selected, from, to)
            =~= styled_decision_rows_of(decisions, selected, from, mid) + styled_decision_rows_of(decisions, selected, mid, to));
    } else {
        assert(styled_decision_rows_of(decisions, selected, from, to)
            =~= styled_decision_rows_of(decisions, selected, from, mid) + styled_decision_rows_of(decisions, selected, mid, to));
    }
}

/// Decision list pane of the explainability screen: its parts stand in it.
pub proof fn law_explainability_list_pane_parts(model: DashboardModel, rows: int)
    ensures
        ({
            let d = explainability_list_pane(model, rows);
            &&& (!(model.explainability_decisions@.len() == 0)) ==> reads(
                d,
                styled_decision_rows_of(
                    model.explainability_decisions@,
                    model.explainability_selected as int,
                    window_start(
                        model.explainability_selected as int,
                        model.explainability_decisions@.len() as int,
                        rows,
                    ),
                    window_end(
                        model.explainability_selected as int,
                        model.explainability_decisions@.len() as int,
                        rows,
                    ),
                ),
            )
        }),
{
    broadcast use crate::markup::group_reads;

}

/// The main fields of a decision: each label is followed by the figure that it names.
pub proof fn law_styled_decision_brief_figures(decision: DecisionEvidence)
    ensures
        ({
            let d = styled_decision_brief_of(decision);
            &&& labels(d, "  path       "@, Atom::Text(dir_part(decision.path@)))
            &&& labels(d, "  action     "@, Atom::Badge(styled_action_word_of(decision.action@)))
            &&& labels(
                d,
                "  score      "@,
                Atom::Fixed { value: decision.total_score, decimals: 3 },
            )
            &&& labels(
                d,
                "  posterior  "@,
                Atom::Fixed { value: decision.posterior_abandoned, decimals: 3 },
            )
            &&& labels(
                d,
                "  calibrate  "@,
                Atom::Fixed { value: decision.calibration_score, decimals: 3 },
            )
            &&& (decision.vetoed && decision.veto_reason is Some) ==> labels(
                d,
                "  veto       "@,
                Atom::Badge("VETO"@),
            )
        }),
{
    broadcast use crate::markup::group_labels;

}

/// The main fields of a decision: its figures stand in the order of their columns.
pub proof fn law_styled_decision_brief_order(decision: DecisionEvidence)
    ensures
        ({
            let d = styled_decision_brief_of(decision);
            &&& before(
                d,
                Atom::Text(dir_part(decision.path@)),
                Atom::Text(file_part(decision.path@)),
            )
            &&& before(
                d,
                Atom::Text(file_part(decision.path@)),
                Atom::Badge(styled_action_word_of(decision.action@)),
            )
            &&& (decision.vetoed && decision.veto_reason is Some) ==> before(
                d,
                Atom::Badge("VETO"@),
                Atom::Text(decision.veto_reason->0@),
            )
        }),
{
    let d = styled_decision_brief_of(decision);
    if (decision.vetoed && decision.veto_reason is Some) {
        assert(before_at(
            d,
            1,
            2,
            Atom::Text(dir_part(decision.path@)),
            Atom::Text(file_part(decision.path@)),
        ));
        assert(before_at(
            d,
            2,
            5,
            Atom::Text(file_part(decision.path@)),
            Atom::Badge(styled_action_word_of(decision.action@)),
        ));
        assert(before_at(d, 17, 19, Atom::Badge("VETO"@), Atom::Text(decision.veto_reason->0@)));
    }
    if (!(decision.vetoed && decision.veto_reason is Some)) {
        assert(before_at(
            d,
            1,
            2,
            Atom::Text(dir_part(decision.path@)),
            Atom::Text(file_part(decision.path@)),
        ));
        assert(before_at(
            d,
            2,
            5,
            Atom::Text(file_part(decision.path@)),
            Atom::Badge(styled_action_word_of(decision.action@)),
        ));
    }
}

/// Styled identity, action and policy of a decision: each label is followed by the
/// figure that it names.
pub proof fn law_styled_identity_figures(decision: DecisionEvidence)
    ensures
        ({
            let d = styled_identity_of(decision);
            &&& labels(d, "#"@, Atom::Text(dec(decision.decision_id as nat)))
            &&& labels(d, "  timestamp   "@, Atom::Text(decision.timestamp@))
            &&& labels(d, "  path        "@, Atom::Text(dir_part(decision.path@)))
            &&& labels(d, "  size        "@, Atom::Bytes(decision.size_bytes))
            &&& labels(d, " ("@, Atom::Text(dec(decision.size_bytes as nat)))
            &&& labels(d, "  age         "@, Atom::Duration(decision.age_secs))
            &&& labels(d, "  action      "@, Atom::Badge(styled_action_word_of(decision.action@)))
            &&& decision.effective_action is Some ==> labels(
                d,
                "  effective   "@,
                Atom::Badge(styled_action_word_of(decision.effective_action->0@)),
            )
            &&& labels(d, "  policy      "@, Atom::Text(decision.policy_mode@))
        }),
{
    broadcast use crate::markup::group_labels;

}

/// Styled identity, action and policy of a decision: its figures stand in the order of
/// their columns.
pub proof fn law_styled_identity_order(decision: DecisionEvidence)
    ensures
        ({
            let d = styled_identity_of(decision);
            &&& before(
                d,
                Atom::Text(dir_part(decision.path@)),
                Atom::Text(file_part(decision.path@)),
            )
            &&& before(d, Atom::Text(file_part(decision.path@)), Atom::Bytes(decision.size_bytes))
        }),
{
    let d = styled_identity_of(decision);
    if decision.effective_action is Some {
        assert(before_at(
            d,
            8,
            9,
            Atom::Text(dir_part(decision.path@)),
            Atom::Text(file_part(decision.path@)),
        ));
        assert(before_at(
            d,
            9,
            12,
            Atom::Text(file_part(decision.path@)),
            Atom::Bytes(decision.size_bytes),
        ));
    }
    if decision.effective_action is None {
        assert(before_at(
            d,
            8,
            9,
            Atom::Text(dir_part(decision.path@)),
            Atom::Text(file_part(decision.path@)),
        ));
        assert(before_at(
            d,
            9,
            12,
            Atom::Text(file_part(decision.path@)),
            Atom::Bytes(decision.size_bytes),
        ));
    }
}

/// Styled veto of a decision and its reason: each label is followed by the figure that it names.
pub proof fn law_styled_veto_figures(decision: DecisionEvidence)
    ensures
        ({
            let d = styled_veto_of(decision);
            &&& decision.vetoed ==> labels(d, "  veto        "@, Atom::Badge("VETOED"@))
            &&& decision.vetoed && decision.veto_reason is Some ==> labels(
                d,
                "  veto-reason "@,
                Atom::Text(decision.veto_reason->0@),
            )
        }),
{
    broadcast use crate::markup::group_labels;

}

/// Styled guard status of a decision: each label is followed by the figure that it names.
pub proof fn law_styled_guard_figures(decision: DecisionEvidence)
    ensures
        ({
            let d = styled_guard_of(decision);
            &&& decision.guard_status is Some ==> labels(
                d,
                "  guard       "@,
                Atom::Text(decision.guard_status->0@),
            )
        }),
{
    broadcast use crate::markup::group_labels;

}

/// Styled bars for a single scoring factor: its figures stand in the order of their columns.
pub proof fn law_styled_factor_order(label: Seq<char>, value: Double, width: usize)
    ensures
        ({
            let d = styled_factor_of(label, value, width);
            &&& before(d, Atom::Text(label), Atom::MiniBar(value))
            &&& before(
                d,
                Atom::MiniBar(value),
                Atom::Gauge { of: Gauge::Score(value), width, segmented: true },
            )
            &&& before(
                d,
                Atom::Gauge { of: Gauge::Score(value), width, segmented: true },
                Atom::Fixed { value: value, decimals: 2 },
            )
        }),
{
    let d = styled_factor_of(label, value, width);
    assert(before_at(d, 1, 3, Atom::Text(label), Atom::MiniBar(value)));
    assert(before_at(
        d,
        3,
        5,
        Atom::MiniBar(value),
        Atom::Gauge { of: Gauge::Score(value), width, segmented: true },
    ));
    assert(before_at(
        d,
        5,
        7,
        Atom::Gauge { of: Gauge::Score(value), width, segmented: true },
        Atom::Fixed { value: value, decimals: 2 },
    ));
}

/// Styled scoring factors of a decision: each label is followed by the figure that it names.
pub proof fn law_styled_factors_figures(decision: DecisionEvidence, width: usize)
    ensures
        ({
            let d = styled_factors_of(decision, width);
            &&& labels(
                d,
                "  pressure-x  "@,
                Atom::Fixed { value: decision.factors.pressure_multiplier, decimals: 2 },
            )
            &&& labels(
                d,
                "  total-score "@,
                Atom::Fixed { value: decision.total_score, decimals: 4 },
            )
        }),
{
    broadcast use crate::markup::group_labels;

}

/// Styled scoring factors of a decision: its parts stand in it.
pub proof fn law_styled_factors_parts(decision: DecisionEvidence, width: usize)
    ensures
        ({
            let d = styled_factors_of(decision, width);
            &&& reads(
                d,
                styled_factor_of("location "@, decision.factors.location, bar_width_of(width)),
            )
            &&& reads(d, styled_factor_of("name     "@, decision.factors.name, bar_width_of(width)))
            &&& reads(d, styled_factor_of("age      "@, decision.factors.age, bar_width_of(width)))
            &&& reads(d, styled_factor_of("size     "@, decision.factors.size, bar_width_of(width)))
            &&& reads(
                d,
                styled_factor_of("structure"@, decision.factors.structure, bar_width_of(width)),
            )
        }),
{
    broadcast use crate::markup::group_reads;

}

/// Styled Bayesian statistics of a decision: each label is followed by the figure that it names.
pub proof fn law_styled_statistics_figures(decision: DecisionEvidence)
    ensures
        ({
            let d = styled_statistics_of(decision);
            &&& labels(
                d,
                "  P(abandoned)  "@,
                Atom::Fixed { value: decision.posterior_abandoned, decimals: 4 },
            )
            &&& labels(
                d,
                "  E[loss|keep]  "@,
                Atom::Fixed { value: decision.expected_loss_keep, decimals: 2 },
            )
            &&& labels(
                d,
                "  E[loss|del]   "@,
                Atom::Fixed { value: decision.expected_loss_delete, decimals: 2 },
            )
            &&& labels(
                d,
                "  calibration   "@,
                Atom::Fixed { value: decision.calibration_score, decimals: 4 },
            )
            &&& labels(
                d,
                "  confidence    "@,
                Atom::Badge(confidence_word_of(decision.calibration_score)),
            )
        }),
{
    broadcast use crate::markup::group_labels;

}

/// Styled summary of a decision, where it has one: each label is followed by the figure
/// that it names.
pub proof fn law_styled_summary_figures(decision: DecisionEvidence)
    ensures
        ({
            let d = styled_summary_of(decision);
            &&& (decision.summary@.len() > 0) ==> labels(
                d,
                "  summary "@,
                Atom::Text(decision.summary@),
            )
        }),
{
    broadcast use crate::markup::group_labels;

}

/// Styled detail of a decision: its parts stand in it.
pub proof fn law_styled_decision_detail_parts(decision: DecisionEvidence, width: usize)
    ensures
        ({
            let d = styled_decision_detail_of(decision, width);
            &&& reads(d, styled_identity_of(decision))
            &&& reads(d, styled_veto_of(decision))
            &&& reads(d, styled_guard_of(decision))
            &&& reads(d, styled_factors_of(decision, width))
            &&& reads(d, styled_statistics_of(decision))
            &&& reads(d, styled_summary_of(decision))
        }),
{
    broadcast use crate::markup::group_reads;

}

/// Detail pane of the explainability screen: its parts stand in it.
pub proof fn law_explainability_detail_pane_parts(model: DashboardModel, pane_width: u16)
    ensures
        ({
            let d = explainability_detail_pane(model, pane_width);
            &&& (model.explainability_selected < model.explainability_decisions@.len()) && model.explainability_detail ==> reads(
                d,
                styled_decision_detail_of(
                    model.explainability_decisions@[model.explainability_selected as int],
                    page_width_of(pane_width),
                ),
            )
            &&& (model.explainability_selected < model.explainability_decisions@.len()) && !(model.explainability_detail) ==> reads(
                d,
                styled_decision_brief_of(
                    model.explainability_decisions@[model.explainability_selected as int],
                ),
            )
        }),
{
    broadcast use crate::markup::group_reads;

}

/// Summary pane of the candidates screen: each label is followed by the figure that it names.
pub proof fn law_candidates_summary_pane_figures(model: DashboardModel)
    ensures
        ({
            let d = candidates_summary_pane(model);
            &&& labels(d, "source "@, Atom::Badge(source_label(model.candidates_source)))
            &&& labels(d, "candidates="@, Atom::Text(dec(model.candidates_list@.len() as nat)))
            &&& labels(d, "sort "@, Atom::Badge(model.candidates_sort@))
            &&& labels(
                d,
                "reclaimable "@,
                Atom::Bytes(reclaimable_of(model.candidates_list@) as u64),
            )
        }),
{
    broadcast use crate::markup::group_labels;

}

/// Summary pane of the candidates screen: its figures stand in the order of their columns.
pub proof fn law_candidates_summary_pane_order(model: DashboardModel)
    ensures
        ({
            let d = candidates_summary_pane(model);
            &&& model.candidates_partial ==> before(
                d,
                Atom::Badge(source_label(model.candidates_source)),
                Atom::Badge("PARTIAL"@),
            )
            &&& model.candidates_partial ==> before(
                d,
                Atom::Badge("PARTIAL"@),
                Atom::Text(dec(model.candidates_list@.len() as nat)),
            )
        }),
{
    let d = candidates_summary_pane(model);
    if model.candidates_partial {
        assert(before_at(
            d,
            1,
            3,
            Atom::Badge(source_label(model.candidates_source)),
            Atom::Badge("PARTIAL"@),
        ));
        assert(before_at(
            d,
            3,
            6,
            Atom::Badge("PARTIAL"@),
            Atom::Text(dec(model.candidates_list@.len() as nat)),
        ));
    }
}

/// One styled line of the candidate ranking: each label is followed by the figure that it names.
pub proof fn law_styled_candidate_row_figures(decision: DecisionEvidence, selected: bool)
    ensures
        ({
            let d = styled_candidate_row_of(decision, selected);
            &&& labels(d, "#"@, Atom::Text(padded_right(dec(decision.decision_id as nat), 4)))
        }),
{
    broadcast use crate::markup::group_labels;

}

/// One styled line of the candidate ranking: its figures stand in the order of their columns.
pub proof fn law_styled_candidate_row_order(decision: DecisionEvidence, selected: bool)
    ensures
        ({
            let d = styled_candidate_row_of(decision, selected);
            &&& before(
                d,
                Atom::Text(padded_right(dec(decision.decision_id as nat), 4)),
                Atom::Badge(styled_action_word_of(decision.action@)),
            )
            &&& before(
                d,
                Atom::Badge(styled_action_word_of(decision.action@)),
                Atom::Fixed { value: decision.total_score, decimals: 2 },
            )
            &&& before(
                d,
                Atom::Fixed { value: decision.total_score, decimals: 2 },
                Atom::Bytes(decision.size_bytes),
            )
            &&& before(d, Atom::Bytes(decision.size_bytes), Atom::Duration(decision.age_secs))
            &&& decision.vetoed ==> before(
                d,
                Atom::Duration(decision.age_secs),
                Atom::Badge("VETO"@),
            )
        }),
{
    let d = styled_candidate_row_of(decision, selected);
    if decision.vetoed {
        assert(before_at(
            d,
            2,
            4,
            Atom::Text(padded_right(dec(decision.decision_id as nat), 4)),
            Atom::Badge(styled_action_word_of(decision.action@)),
        ));
        assert(before_at(
            d,
            4,
            6,
            Atom::Badge(styled_action_word_of(decision.action@)),
            Atom::Fixed { value: decision.total_score, decimals: 2 },
        ));
        assert(before_at(
            d,
            6,
            8,
            Atom::Fixed { value: decision.total_score, decimals: 2 },
            Atom::Bytes(decision.size_bytes),
        ));
        assert(before_at(
            d,
            8,
            10,
            Atom::Bytes(decision.size_bytes),
            Atom::Duration(decision.age_secs),
        ));
        assert(before_at(d, 10, 12, Atom::Duration(decision.age_secs), Atom::Badge("VETO"@)));
    }
    if !(decision.vetoed) {
        assert(before_at(
            d,
            2,
            4,
            Atom::Text(padded_right(dec(decision.decision_id as nat), 4)),
            Atom::Badge(styled_action_word_of(decision.action@)),
        ));
        assert(before_at(
            d,
            4,
            6,
            Atom::Badge(styled_action_word_of(decision.action@)),
            Atom::Fixed { value: decision.total_score, decimals: 2 },
        ));
        assert(before_at(
            d,
            6,
            8,
            Atom::Fixed { value: decision.total_score, decimals: 2 },
            Atom::Bytes(decision.size_bytes),
        ));
        assert(before_at(
            d,
            8,
            10,
            Atom::Bytes(decision.size_bytes),
            Atom::Duration(decision.age_secs),
        ));
    }
}

/// Styled rows of the candidate ranking: one row follows another, and each shows its own item.
pub proof fn law_styled_candidate_rows_row_by_row(
    decisions: Seq<DecisionEvidence>,
    selected: int,
    from: int,
    mid: int,
    to: int,
)
    requires
        from <= mid <= to,
    ensures
        styled_candidate_rows_of(decisions, selected, from, to)
            == styled_candidate_rows_of(decisions, selected, from, mid) + styled_candidate_rows_of(decisions, selected, mid, to),
        styled_candidate_rows_of(decisions, selected, mid, mid + 1)
            == styled_candidate_row_of(decisions[mid], mid == selected),
    decreases to - mid,
{
    assert(styled_candidate_rows_of(decisions, selected, mid, mid) =~= seq![]);
    assert(styled_candidate_rows_of(decisions, selected, mid, mid + 1)
        =~= styled_candidate_row_of(decisions[mid], mid == selected));
    if mid < to {
        law_styled_candidate_rows_row_by_row(decisions, selected, from, mid, to - 1);
        assert(styled_candidate_rows_of(decisions, selected, from, to)
            =~= styled_candidate_rows_of(decisions, selected, from, mid) + styled_candidate_rows_of(decisions, selected, mid, to));
    } else {
        assert(styled_candidate_rows_of(decisions, selected, from, to)
            =~= styled_candidate_rows_of(decisions, selected, from, mid) + styled_candidate_rows_of(decisions, selected, mid, to));
    }
}

/// Ranking pane of the candidates screen: its parts stand in it.
pub proof fn law_candidates_list_pane_parts(model: DashboardModel, rows: int)
    ensures
        ({
            let d = candidates_list_pane(model, rows);
            &&& (!(model.candidates_list@.len() == 0)) ==> reads(
                d,
                styled_candidate_rows_of(
                    model.candidates_list@,
                    model.candidates_selected as int,
                    window_start(
                        model.candidates_selected as int,
                        model.candidates_list@.len() as int,
                        rows,
                    ),
                    window_end(
                        model.candidates_selected as int,
                        model.candidates_list@.len() as int,
                        rows,
                    ),
                ),
            )
        }),
{
    broadcast use crate::markup::group_reads;

}

/// The main fields of a candidate: each label is followed by the figure that it names.
pub proof fn law_styled_candidate_brief_figures(decision: DecisionEvidence)
    ensures
        ({
            let d = styled_candidate_brief_of(decision);
            &&& labels(d, "  path    "@, Atom::Text(dir_part(decision.path@)))
            &&& labels(d, "  action  "@, Atom::Badge(styled_action_word_of(decision.action@)))
            &&& labels(d, "  score   "@, Atom::Fixed { value: decision.total_score, decimals: 3 })
            &&& labels(d, "  size    "@, Atom::Bytes(decision.size_bytes))
            &&& labels(d, "  age     "@, Atom::Duration(decision.age_secs))
        }),
{
    broadcast use crate::markup::group_labels;

}

/// The main fields of a candidate: its figures stand in the order of their columns.
pub proof fn law_styled_candidate_brief_order(decision: DecisionEvidence)
    ensures
        ({
            let d = styled_candidate_brief_of(decision);
            &&& before(
                d,
                Atom::Text(dir_part(decision.path@)),
                Atom::Text(file_part(decision.path@)),
            )
            &&& before(
                d,
                Atom::Text(file_part(decision.path@)),
                Atom::Badge(styled_action_word_of(decision.action@)),
            )
        }),
{
    let d = styled_candidate_brief_of(decision);
    assert(before_at(
        d,
        1,
        2,
        Atom::Text(dir_part(decision.path@)),
        Atom::Text(file_part(decision.path@)),
    ));
    assert(before_at(
        d,
        2,
        5,
        Atom::Text(file_part(decision.path@)),
        Atom::Badge(styled_action_word_of(decision.action@)),
    ));
}

/// Detail pane of the candidates screen: its parts stand in it.
pub proof fn law_candidates_detail_pane_parts(model: DashboardModel, pane_width: u16)
    ensures
        ({
            let d = candidates_detail_pane(model, pane_width);
            &&& (model.candidates_selected < model.candidates_list@.len()) && model.candidates_detail ==> reads(
                d,
                styled_decision_detail_of(
                    model.candidates_list@[model.candidates_selected as int],
                    page_width_of(pane_width),
                ),
            )
            &&& (model.candidates_selected < model.candidates_list@.len()) && !(model.candidates_detail) ==> reads(
                d,
                styled_candidate_brief_of(model.candidates_list@[model.candidates_selected as int]),
            )
        }),
{
    broadcast use crate::markup::group_reads;

}

/// Identity, action and policy of a decision: each case shows what belongs to it and no more.
pub proof fn law_decision_identity_shows_no_more(decision: DecisionEvidence)
    ensures
        ({
            let d = decision_identity(decision);
            &&& decision.effective_action is Some ==> d.len() == 27
            &&& decision.effective_action is None ==> d.len() == 24
        }),
{
}

/// The veto of a decision and its reason: each case shows what belongs to it and no more.
pub proof fn law_decision_veto_shows_no_more(decision: DecisionEvidence)
    ensures
        ({
            let d = decision_veto(decision);
            &&& decision.vetoed && decision.veto_reason is Some ==> d.len() == 6
            &&& decision.vetoed && decision.veto_reason is None ==> d.len() == 3
            &&& !(decision.vetoed) ==> d.len() == 0
        }),
{
}

/// The guard status of a decision: each case shows what belongs to it and no more.
pub proof fn law_decision_guard_shows_no_more(decision: DecisionEvidence)
    ensures
        ({
            let d = decision_guard(decision);
            &&& decision.guard_status is Some ==> d.len() == 3
            &&& decision.guard_status is None ==> d.len() == 0
        }),
{
}

/// The summary of a decision, where it has one: each case shows what belongs to it and no more.
pub proof fn law_decision_summary_shows_no_more(decision: DecisionEvidence)
    ensures
        ({
            let d = decision_summary(decision);
            &&& (decision.summary@.len() > 0) ==> d.len() == 4
            &&& (!(decision.summary@.len() > 0)) ==> d.len() == 0
        }),
{
}

/// The veto of a candidate, or that there is none: each case shows what belongs to it and no more.
pub proof fn law_candidate_safety_shows_no_more(decision: DecisionEvidence)
    ensures
        ({
            let d = candidate_safety(decision);
            &&& decision.vetoed ==> d.len() == decision_veto(decision).len()
            &&& !(decision.vetoed) ==> d.len() == 3
        }),
{
}

/// The pressure level and the counters of the daemon, while it is known: each case
/// shows what belongs to it and no more.
pub proof fn law_pressure_line_shows_no_more(model: DashboardModel)
    ensures
        ({
            let d = pressure_line(model);
            &&& model.daemon_state is Some ==> d.len() == 9
            &&& model.daemon_state is None ==> d.len() == 0
        }),
{
}

/// One line of the decision list: each case shows what belongs to it and no more.
pub proof fn law_decision_row_shows_no_more(cursor: Seq<char>, decision: DecisionEvidence)
    ensures
        ({
            let d = decision_row(cursor, decision);
            &&& decision.vetoed ==> d.len() == 17
            &&& !(decision.vetoed) ==> d.len() == 16
        }),
{
}

/// Data source, counts and pressure: each case shows what belongs to it and no more.
pub proof fn law_explainability_head_shows_no_more(model: DashboardModel)
    ensures
        ({
            let d = explainability_head_of(model);
            &&& (model.explainability_diagnostics@.len() > 0) ==> d.len()
                == 10 + pressure_line(model).len()
            &&& (!(model.explainability_diagnostics@.len() > 0)) ==> d.len()
                == 7 + pressure_line(model).len()
        }),
{
}

/// The decisions, or why there are none: each case shows what belongs to it and no more.
pub proof fn law_explainability_list_shows_no_more(model: DashboardModel)
    ensures
        ({
            let d = explainability_list_of(model);
            &&& (model.explainability_decisions@.len() == 0) ==> d.len() == 7
            &&& (!(model.explainability_decisions@.len()
                == 0)) ==> d.len() == 3 + decision_rows_of(model.explainability_decisions@, model.explainability_selected as int, 0, model.explainability_decisions@.len() as int).len()
        }),
{
}

/// The selected decision in full, or how to open it: each case shows what belongs to it
/// and no more.
pub proof fn law_explainability_detail_shows_no_more(model: DashboardModel)
    ensures
        ({
            let d = explainability_detail_of(model);
            &&& (model.explainability_decisions@.len() == 0) ==> d.len() == 0
            &&& (!(model.explainability_decisions@.len()
                == 0)) && model.explainability_detail && (model.explainability_selected < model.explainability_decisions@.len()) ==> d.len() == 3 + decision_detail(model.explainability_decisions@[model.explainability_selected as int], page_width_of(model.terminal_size.0)).len()
            &&& (!(model.explainability_decisions@.len()
                == 0)) && model.explainability_detail && (!(model.explainability_selected < model.explainability_decisions@.len())) ==> d.len() == 0
            &&& (!(model.explainability_decisions@.len()
                == 0)) && !(model.explainability_detail) ==> d.len() == 3
        }),
{
}

/// Data source, counts, sort order and pressure: each case shows what belongs to it and no more.
pub proof fn law_candidates_head_shows_no_more(model: DashboardModel)
    ensures
        ({
            let d = candidates_head_of(model);
            &&& (model.candidates_diagnostics@.len() > 0) ==> d.len()
                == 13 + pressure_line(model).len()
            &&& (!(model.candidates_diagnostics@.len() > 0)) ==> d.len()
                == 10 + pressure_line(model).len()
        }),
{
}

/// The candidate ranking, or why there is none: each case shows what belongs to it and no more.
pub proof fn law_candidates_list_shows_no_more(model: DashboardModel)
    ensures
        ({
            let d = candidates_list_of(model);
            &&& (model.candidates_list@.len() == 0) ==> d.len() == 7
            &&& (!(model.candidates_list@.len()
                == 0)) ==> d.len() == 5 + candidate_rows_of(model.candidates_list@, model.candidates_selected as int, 0, model.candidates_list@.len() as int).len()
        }),
{
}

/// How many candidates are protected from deletion: each case shows what belongs to it and no more.
pub proof fn law_candidates_veto_shows_no_more(model: DashboardModel)
    ensures
        ({
            let d = candidates_veto_of(model);
            &&& (vetoed_of(model.candidates_list@) > 0) ==> d.len() == 6
            &&& (!(vetoed_of(model.candidates_list@) > 0)) ==> d.len() == 0
        }),
{
}

/// The estimate of what deletion would free: each case shows what belongs to it and no more.
pub proof fn law_candidates_estimate_shows_no_more(model: DashboardModel)
    ensures
        ({
            let d = candidates_estimate_of(model);
            &&& (reclaimable_of(model.candidates_list@) > 0) ==> d.len() == 3
            &&& (!(reclaimable_of(model.candidates_list@) > 0)) ==> d.len() == 0
        }),
{
}

/// The selected candidate in full, or how to open it: each case shows what belongs to
/// it and no more.
pub proof fn law_candidates_detail_shows_no_more(model: DashboardModel)
    ensures
        ({
            let d = candidates_detail_of(model);
            &&& (model.candidates_list@.len() == 0) ==> d.len() == 0
            &&& (!(model.candidates_list@.len()
                == 0)) && model.candidates_detail && (model.candidates_selected < model.candidates_list@.len()) ==> d.len() == 3 + candidate_detail(model.candidates_list@[model.candidates_selected as int], page_width_of(model.terminal_size.0)).len()
            &&& (!(model.candidates_list@.len()
                == 0)) && model.candidates_detail && (!(model.candidates_selected < model.candidates_list@.len())) ==> d.len() == 0
            &&& (!(model.candidates_list@.len()
                == 0)) && !(model.candidates_detail) ==> d.len() == 3
        }),
{
}

/// Header pane of the explainability screen: each case shows what belongs to it and no more.
pub proof fn law_explainability_header_pane_shows_no_more(model: DashboardModel)
    ensures
        ({
            let d = explainability_header_pane(model);
            &&& model.daemon_state is Some && model.explainability_partial ==> d.len() == 19
            &&& model.daemon_state is Some && !(model.explainability_partial) ==> d.len() == 17
            &&& model.daemon_state is None && model.explainability_partial ==> d.len() == 9
            &&& model.daemon_state is None && !(model.explainability_partial) ==> d.len() == 7
        }),
{
}

/// One styled line of the decision list: each case shows what belongs to it and no more.
pub proof fn law_styled_decision_row_shows_no_more(decision: DecisionEvidence, selected: bool)
    ensures
        ({
            let d = styled_decision_row_of(decision, selected);
            &&& decision.vetoed ==> d.len() == 14
            &&& !(decision.vetoed) ==> d.len() == 12
        }),
{
}

/// Decision list pane of the explainability screen: each case shows what belongs to it and no more.
pub proof fn law_explainability_list_pane_shows_no_more(model: DashboardModel, rows: int)
    ensures
        ({
            let d = explainability_list_pane(model, rows);
            &&& (model.explainability_decisions@.len() == 0) ==> d.len() == 2
            &&& (!(model.explainability_decisions@.len()
                == 0)) ==> d.len() == styled_decision_rows_of(model.explainability_decisions@, model.explainability_selected as int, window_start(model.explainability_selected as int, model.explainability_decisions@.len() as int, rows), window_end(model.explainability_selected as int, model.explainability_decisions@.len() as int, rows)).len()
        }),
{
}

/// The main fields of a decision: each case shows what belongs to it and no more.
pub proof fn law_styled_decision_brief_shows_no_more(decision: DecisionEvidence)
    ensures
        ({
            let d = styled_decision_brief_of(decision);
            &&& (decision.vetoed && decision.veto_reason is Some) ==> d.len() == 23
            &&& (!(decision.vetoed && decision.veto_reason is Some)) ==> d.len() == 18
        }),
{
}

/// Styled identity, action and policy of a decision: each case shows what belongs to it
/// and no more.
pub proof fn law_styled_identity_shows_no_more(decision: DecisionEvidence)
    ensures
        ({
            let d = styled_identity_of(decision);
            &&& decision.effective_action is Some ==> d.len() == 29
            &&& decision.effective_action is None ==> d.len() == 26
        }),
{
}

/// Styled veto of a decision and its reason: each case shows what belongs to it and no more.
pub proof fn law_styled_veto_shows_no_more(decision: DecisionEvidence)
    ensures
        ({
            let d = styled_veto_of(decision);
            &&& decision.vetoed && decision.veto_reason is Some ==> d.len() == 6
            &&& decision.vetoed && decision.veto_reason is None ==> d.len() == 3
            &&& !(decision.vetoed) ==> d.len() == 0
        }),
{
}

/// Styled guard status of a decision: each case shows what belongs to it and no more.
pub proof fn law_styled_guard_shows_no_more(decision: DecisionEvidence)
    ensures
        ({
            let d = styled_guard_of(decision);
            &&& decision.guard_status is Some ==> d.len() == 3
            &&& decision.guard_status is None ==> d.len() == 0
        }),
{
}

/// Styled summary of a decision, where it has one: each case shows what belongs to it and no more.
pub proof fn law_styled_summary_shows_no_more(decision: DecisionEvidence)
    ensures
        ({
            let d = styled_summary_of(decision);
            &&& (decision.summary@.len() > 0) ==> d.len() == 4
            &&& (!(decision.summary@.len() > 0)) ==> d.len() == 0
        }),
{
}

/// Detail pane of the explainability screen: each case shows what belongs to it and no more.
pub proof fn law_explainability_detail_pane_shows_no_more(model: DashboardModel, pane_width: u16)
    ensures
        ({
            let d = explainability_detail_pane(model, pane_width);
            &&& (model.explainability_selected < model.explainability_decisions@.len()) && model.explainability_detail ==> d.len()
                == styled_decision_detail_of(model.explainability_decisions@[model.explainability_selected as int], page_width_of(pane_width)).len()
            &&& (model.explainability_selected < model.explainability_decisions@.len()) && !(model.explainability_detail) ==> d.len()
                == styled_decision_brief_of(model.explainability_decisions@[model.explainability_selected as int]).len()
            &&& (!(model.explainability_selected < model.explainability_decisions@.len())) ==> d.len()
                == 2
        }),
{
}

/// Summary pane of the candidates screen: each case shows what belongs to it and no more.
pub proof fn law_candidates_summary_pane_shows_no_more(model: DashboardModel)
    ensures
        ({
            let d = candidates_summary_pane(model);
            &&& model.candidates_partial ==> d.len() == 14
            &&& !(model.candidates_partial) ==> d.len() == 12
        }),
{
}

/// One styled line of the candidate ranking: each case shows what belongs to it and no more.
pub proof fn law_styled_candidate_row_shows_no_more(decision: DecisionEvidence, selected: bool)
    ensures
        ({
            let d = styled_candidate_row_of(decision, selected);
            &&& decision.vetoed ==> d.len() == 14
            &&& !(decision.vetoed) ==> d.len() == 12
        }),
{
}

/// Ranking pane of the candidates screen: each case shows what belongs to it and no more.
pub proof fn law_candidates_list_pane_shows_no_more(model: DashboardModel, rows: int)
    ensures
        ({
            let d = candidates_list_pane(model, rows);
            &&& (model.candidates_list@.len() == 0) ==> d.len() == 2
            &&& (!(model.candidates_list@.len()
                == 0)) ==> d.len() == styled_candidate_rows_of(model.candidates_list@, model.candidates_selected as int, window_start(model.candidates_selected as int, model.candidates_list@.len() as int, rows), window_end(model.candidates_selected as int, model.candidates_list@.len() as int, rows)).len()
        }),
{
}

/// Detail pane of the candidates screen: each case shows what belongs to it and no more.
pub proof fn law_candidates_detail_pane_shows_no_more(model: DashboardModel, pane_width: u16)
    ensures
        ({
            let d = candidates_detail_pane(model, pane_width);
            &&& (model.candidates_selected < model.candidates_list@.len()) && model.candidates_detail ==> d.len()
                == styled_decision_detail_of(model.candidates_list@[model.candidates_selected as int], page_width_of(pane_width)).len()
            &&& (model.candidates_selected < model.candidates_list@.len()) && !(model.candidates_detail) ==> d.len()
                == styled_candidate_brief_of(model.candidates_list@[model.candidates_selected as int]).len()
            &&& (!(model.candidates_selected < model.candidates_list@.len())) ==> d.len() == 2
        }),
{
}

} // verus!
