//! Properties of the evaluation engine, stated and proved once for all
//! inputs: purity, monotonicity in the upfront cash, the tie-breaking at both
//! classification boundaries, absence of a payback estimate without a rate,
//! the unit conversion of the payback, agreement of quadrant and verdict with
//! the labels, and well-formedness of every fraction in the result.

use vstd::prelude::*;
use crate::engine::clamped_num;
use crate::engine::spec_days_per_unit;
use crate::engine::spec_evaluate;
use crate::model::CacLabel;
use crate::model::CfaLabel;
use crate::model::EvaluationInput;
use crate::model::Quadrant;
use crate::model::Ratio;
use crate::model::Verdict;

verus! {

/// Evaluation is a pure function: identical inputs yield identical results.
pub proof fn lemma_evaluate_pure(i1: EvaluationInput, i2: EvaluationInput)
    requires
        i1 == i2,
    ensures
        spec_evaluate(i1) == spec_evaluate(i2),
{
}

/// With every other input fixed, raising the upfront cash never moves the
/// CFA label from High back to Low and never increases the net outlay.
pub proof fn lemma_monotone_in_cfa(i1: EvaluationInput, i2: EvaluationInput)
    requires
        i1.cac == i2.cac,
        i1.ltgp == i2.ltgp,
        i1.early_gp_rate == i2.early_gp_rate,
        i1.period_unit == i2.period_unit,
        i1.low_cac_fraction == i2.low_cac_fraction,
        i1.cfa <= i2.cfa,
    ensures
        spec_evaluate(i1).cfa_label == CfaLabel::High ==> spec_evaluate(i2).cfa_label
            == CfaLabel::High,
        spec_evaluate(i2).net_outlay <= spec_evaluate(i1).net_outlay,
{
}

/// Both boundary ties resolve to the favourable label: an acquisition cost
/// exactly at the low-CAC threshold is Low, and upfront cash of exactly half
/// the acquisition cost is High.
pub proof fn lemma_boundary_ties(i: EvaluationInput)
    requires
        i.wf(),
    ensures
        spec_evaluate(i).low_cac_threshold.spec_eq_int(i.cac) ==> spec_evaluate(i).cac_label
            == CacLabel::Low,
        2 * i.cfa == i.cac ==> spec_evaluate(i).cfa_label == CfaLabel::High,
{
}

/// When the early profit rate is 0 (unknown), no payback is estimated, in
/// either unit, whatever the other inputs are.
pub proof fn lemma_no_rate_no_payback(i: EvaluationInput)
    requires
        i.early_gp_rate == 0,
    ensures
        spec_evaluate(i).payback is None,
        spec_evaluate(i).payback_days_equivalent is None,
{
}

/// Whenever a payback is estimated, its day equivalent is present and is the
/// payback scaled by the unit's day count, over the same denominator.
pub proof fn lemma_days_equivalent(i: EvaluationInput)
    ensures
        spec_evaluate(i).payback matches Some(p) ==> spec_evaluate(i).payback_days_equivalent
            matches Some(d) && d.den == p.den && d.num == p.num * spec_days_per_unit(
            i.period_unit,
        ),
{
}

/// The quadrant is exactly the 2x2 table over the two reported labels, so the
/// quadrant and the labels can never drift apart.
pub proof fn lemma_quadrant_agrees_with_labels(i: EvaluationInput)
    ensures
        (spec_evaluate(i).quadrant == Quadrant::SelfFundingGrowth) == (spec_evaluate(i).cac_label
            == CacLabel::Low && spec_evaluate(i).cfa_label == CfaLabel::High),
        (spec_evaluate(i).quadrant == Quadrant::CashLightEfficiency) == (spec_evaluate(i).cac_label
            == CacLabel::Low && spec_evaluate(i).cfa_label == CfaLabel::Low),
        (spec_evaluate(i).quadrant == Quadrant::DeferredCashRisk) == (spec_evaluate(i).cac_label
            == CacLabel::High && spec_evaluate(i).cfa_label == CfaLabel::High),
        (spec_evaluate(i).quadrant == Quadrant::CapitalIntensiveTrap) == (spec_evaluate(i).cac_label
            == CacLabel::High && spec_evaluate(i).cfa_label == CfaLabel::Low),
{
}

/// The verdict's internal tests agree with the reported labels: one shared
/// pair of predicates decides both, so label and verdict cannot contradict
/// each other.
pub proof fn lemma_verdict_agrees_with_labels(i: EvaluationInput)
    ensures
        spec_evaluate(i).verdict == Verdict::Good ==> spec_evaluate(i).cac_label == CacLabel::Low,
        spec_evaluate(i).verdict == Verdict::Caution ==> spec_evaluate(i).cac_label
            == CacLabel::High && spec_evaluate(i).cfa_label == CfaLabel::High,
        spec_evaluate(i).verdict == Verdict::Fragile ==> spec_evaluate(i).cac_label
            == CacLabel::High && spec_evaluate(i).cfa_label == CfaLabel::Low,
{
}

/// A well-formed input yields a result whose fractions are all well-formed:
/// the threshold, the finite ratio, and both payback estimates.
pub proof fn lemma_result_well_formed(i: EvaluationInput)
    requires
        i.wf(),
    ensures
        spec_evaluate(i).low_cac_threshold.wf(),
        spec_evaluate(i).ratio matches Ratio::Finite(f) ==> f.wf(),
        spec_evaluate(i).payback matches Some(p) ==> p.wf(),
        spec_evaluate(i).payback_days_equivalent matches Some(d) ==> d.wf(),
{
}

/// A zero acquisition cost always lands in the favourable column: the ratio
/// is infinite, nothing is laid out, and the cost counts as Low.
pub proof fn lemma_zero_cac(i: EvaluationInput)
    requires
        i.cac == 0,
    ensures
        spec_evaluate(i).ratio == Ratio::Infinite,
        spec_evaluate(i).net_outlay == 0,
        spec_evaluate(i).cac_label == CacLabel::Low,
{
    assert(clamped_num(i.low_cac_fraction) * i.ltgp >= 0) by (nonlinear_arith)
        requires
            clamped_num(i.low_cac_fraction) >= 0,
            i.ltgp >= 0,
    ;
}

} // verus!
