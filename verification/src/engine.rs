//! The evaluation engine: a pure, total function from an input record to the
//! derived metrics, labels, quadrant, verdict and payback estimate.
//!
//! Every comparison the original formulas make on real numbers is stated here
//! on integers without division, so it is exact:
//! `cac <= clamp(frac) * ltgp` becomes `cac * den <= min(num, den) * ltgp`,
//! `cfa >= cac * 0.5` becomes `2 * cfa >= cac`, and `ltgp / cac <= 3`
//! (with `cac > 0`) becomes `ltgp <= 3 * cac`.

use vstd::prelude::*;
use crate::fraction::Fraction;
use crate::fraction::lemma_mul_u64_fits_u128;
use crate::model::CacLabel;
use crate::model::CfaLabel;
use crate::model::EvaluationInput;
use crate::model::EvaluationResult;
use crate::model::PeriodUnit;
use crate::model::Quadrant;
use crate::model::Ratio;
use crate::model::Verdict;

verus! {

/// Numerator of the threshold fraction once clamped to `[0, 1]`:
/// `clamp(num/den, 0, 1) == min(num, den) / den` (the lower clamp is a no-op
/// on a non-negative fraction).
pub open spec fn clamped_num(f: Fraction) -> int {
    if f.num > f.den { f.den as int } else { f.num as int }
}

/// The acquisition cost is low: `cac <= clamp(frac, 0, 1) * ltgp`.
pub open spec fn is_low_cac(cac: u64, ltgp: u64, frac: Fraction) -> bool {
    cac * frac.den <= clamped_num(frac) * ltgp
}

/// The upfront cash is high: `cfa >= cac / 2`.
pub open spec fn is_high_cfa(cac: u64, cfa: u64) -> bool {
    2 * cfa >= cac
}

/// The lifetime return ratio `ltgp / cac` is at most 3. When `cac == 0` the
/// ratio is infinite and this is false.
pub open spec fn ratio_at_most_3(cac: u64, ltgp: u64) -> bool {
    cac > 0 && ltgp <= 3 * cac
}

/// `max(cac - cfa, 0)`: the cash actually laid out to acquire the customer.
pub open spec fn spec_net_outlay(cac: u64, cfa: u64) -> u64 {
    if cac >= cfa {
        (cac - cfa) as u64
    } else {
        0u64
    }
}

/// The 2x2 quadrant table keyed by the two predicates.
pub open spec fn spec_quadrant(low_cac: bool, high_cfa: bool) -> Quadrant {
    if low_cac {
        if high_cfa {
            Quadrant::SelfFundingGrowth
        } else {
            Quadrant::CashLightEfficiency
        }
    } else {
        if high_cfa {
            Quadrant::DeferredCashRisk
        } else {
            Quadrant::CapitalIntensiveTrap
        }
    }
}

/// The verdict table: first split on the return ratio, then refine by the net
/// outlay and the same two predicates that decide the labels.
pub open spec fn spec_verdict(i: EvaluationInput) -> Verdict {
    let net = spec_net_outlay(i.cac, i.cfa);
    if ratio_at_most_3(i.cac, i.ltgp) {
        if net == 0 {
            Verdict::WarningSmallProfit
        } else {
            Verdict::Unsustainable
        }
    } else {
        if net == 0 {
            Verdict::Excellent
        } else if is_low_cac(i.cac, i.ltgp, i.low_cac_fraction) {
            Verdict::Good
        } else if is_high_cfa(i.cac, i.cfa) {
            Verdict::Caution
        } else {
            Verdict::Fragile
        }
    }
}

/// Days per period unit, the fixed conversion table for the day-equivalent
/// payback.
pub open spec fn spec_days_per_unit(u: PeriodUnit) -> u64 {
    match u {
        PeriodUnit::Days => 1u64,
        PeriodUnit::Weeks => 7u64,
        PeriodUnit::Months => 30u64,
        PeriodUnit::Years => 365u64,
    }
}

/// The whole result record as a mathematical function of the input.
pub open spec fn spec_evaluate(i: EvaluationInput) -> EvaluationResult {
    let net = spec_net_outlay(i.cac, i.cfa);
    let low = is_low_cac(i.cac, i.ltgp, i.low_cac_fraction);
    let high = is_high_cfa(i.cac, i.cfa);
    EvaluationResult {
        net_outlay: net,
        ratio: if i.cac > 0 {
            Ratio::Finite(Fraction { num: i.ltgp as u128, den: i.cac })
        } else {
            Ratio::Infinite
        },
        low_cac_threshold: Fraction {
            num: (clamped_num(i.low_cac_fraction) * i.ltgp) as u128,
            den: i.low_cac_fraction.den,
        },
        cac_label: if low {
            CacLabel::Low
        } else {
            CacLabel::High
        },
        cfa_label: if high {
            CfaLabel::High
        } else {
            CfaLabel::Low
        },
        quadrant: spec_quadrant(low, high),
        verdict: spec_verdict(i),
        payback: if i.early_gp_rate > 0 {
            Some(Fraction { num: net as u128, den: i.early_gp_rate })
        } else {
            None
        },
        payback_days_equivalent: if i.early_gp_rate > 0 {
            Some(Fraction {
                num: (net * spec_days_per_unit(i.period_unit)) as u128,
                den: i.early_gp_rate,
            })
        } else {
            None
        },
    }
}

/// Days per period unit, executable form of the conversion table.
pub fn days_per_unit(u: PeriodUnit) -> (d: u64)
    ensures
        d == spec_days_per_unit(u),
{
    match u {
        PeriodUnit::Days => 1,
        PeriodUnit::Weeks => 7,
        PeriodUnit::Months => 30,
        PeriodUnit::Years => 365,
    }
}

/// Evaluate one cohort: derive every metric, label and estimate of the result
/// record from the five financial inputs and the threshold fraction.
///
/// Total and deterministic: the result is exactly `spec_evaluate(*input)`.
pub fn evaluate(input: &EvaluationInput) -> (r: EvaluationResult)
    requires
        input.wf(),
    ensures
        r == spec_evaluate(*input),
{
    let f = input.low_cac_fraction;
    let cnum: u128 = if f.num > f.den as u128 {
        f.den as u128
    } else {
        f.num
    };
    proof {
        lemma_mul_u64_fits_u128(input.cac as int, f.den as int);
        lemma_mul_u64_fits_u128(cnum as int, input.ltgp as int);
    }
    let low = (input.cac as u128) * (f.den as u128) <= cnum * (input.ltgp as u128);
    let high = 2 * (input.cfa as u128) >= input.cac as u128;
    let ratio_small = input.cac > 0 && (input.ltgp as u128) <= 3 * (input.cac as u128);
    let net: u64 = if input.cac >= input.cfa {
        input.cac - input.cfa
    } else {
        0
    };
    let days = days_per_unit(input.period_unit);
    proof {
        lemma_mul_u64_fits_u128(net as int, days as int);
    }
    EvaluationResult {
        net_outlay: net,
        ratio: if input.cac > 0 {
            Ratio::Finite(Fraction { num: input.ltgp as u128, den: input.cac })
        } else {
            Ratio::Infinite
        },
        low_cac_threshold: Fraction { num: cnum * (input.ltgp as u128), den: f.den },
        cac_label: if low {
            CacLabel::Low
        } else {
            CacLabel::High
        },
        cfa_label: if high {
            CfaLabel::High
        } else {
            CfaLabel::Low
        },
        quadrant: if low {
            if high {
                Quadrant::SelfFundingGrowth
            } else {
                Quadrant::CashLightEfficiency
            }
        } else {
            if high {
                Quadrant::DeferredCashRisk
            } else {
                Quadrant::CapitalIntensiveTrap
            }
        },
        verdict: if ratio_small {
            if net == 0 {
                Verdict::WarningSmallProfit
            } else {
                Verdict::Unsustainable
            }
        } else {
            if net == 0 {
                Verdict::Excellent
            } else if low {
                Verdict::Good
            } else if high {
                Verdict::Caution
            } else {
                Verdict::Fragile
            }
        },
        payback: if input.early_gp_rate > 0 {
            Some(Fraction { num: net as u128, den: input.early_gp_rate })
        } else {
            None
        },
        payback_days_equivalent: if input.early_gp_rate > 0 {
            Some(Fraction { num: (net as u128) * (days as u128), den: input.early_gp_rate })
        } else {
            None
        },
    }
}

} // verus!
