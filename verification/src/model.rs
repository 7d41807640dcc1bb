//! Input and output records of the evaluation engine, and the closed sets of
//! labels it assigns.

use vstd::prelude::*;
use crate::fraction::Fraction;

verus! {

/// Time unit in which the early gross-profit rate is measured and in which
/// the payback period is reported.
#[derive(Clone, Copy, Debug, PartialEq, Eq, Structural)]
pub enum PeriodUnit {
    Days,
    Weeks,
    Months,
    Years,
}

/// Whether the acquisition cost is at or below the low-CAC threshold.
#[derive(Clone, Copy, Debug, PartialEq, Eq, Structural)]
pub enum CacLabel {
    Low,
    High,
}

/// Whether the customer covers at least half the acquisition cost upfront.
#[derive(Clone, Copy, Debug, PartialEq, Eq, Structural)]
pub enum CfaLabel {
    High,
    Low,
}

/// Quadrant of the 2x2 table keyed by (CAC low?, CFA high?).
#[derive(Clone, Copy, Debug, PartialEq, Eq, Structural)]
pub enum Quadrant {
    SelfFundingGrowth,
    CashLightEfficiency,
    DeferredCashRisk,
    CapitalIntensiveTrap,
}

/// Overall judgement of the cohort's unit economics.
#[derive(Clone, Copy, Debug, PartialEq, Eq, Structural)]
pub enum Verdict {
    WarningSmallProfit,
    Unsustainable,
    Excellent,
    Good,
    Caution,
    Fragile,
}

/// Lifetime return ratio `ltgp / cac`; infinite when `cac == 0`.
#[derive(Clone, Copy, Debug, PartialEq, Eq, Structural)]
pub enum Ratio {
    Infinite,
    Finite(Fraction),
}

/// The five financial inputs plus the low-CAC threshold fraction.
///
/// Money amounts (`cac`, `cfa`, `ltgp`, `early_gp_rate`) are integers in a
/// fixed minor currency unit chosen by the caller; the engine's behaviour
/// depends only on their relative sizes. `early_gp_rate == 0` means the rate
/// is unknown and disables the payback estimate.
#[derive(Clone, Copy, Debug, PartialEq, Eq, Structural)]
pub struct EvaluationInput {
    /// Cost to acquire one customer.
    pub cac: u64,
    /// Cash received from the customer upfront.
    pub cfa: u64,
    /// Lifetime gross profit expected from the customer.
    pub ltgp: u64,
    /// Gross profit earned per period early in the lifecycle; 0 = unknown.
    pub early_gp_rate: u64,
    /// Unit of `early_gp_rate` and of the reported payback.
    pub period_unit: PeriodUnit,
    /// Fraction of `ltgp` below which the acquisition cost counts as low;
    /// values above 1 are clamped to 1 at evaluation time.
    pub low_cac_fraction: Fraction,
}

impl EvaluationInput {
    /// The threshold fraction must denote a rational.
    pub open spec fn wf(self) -> bool {
        self.low_cac_fraction.wf()
    }
}

/// Everything the engine derives from one input record.
#[derive(Clone, Copy, Debug, PartialEq, Eq)]
pub struct EvaluationResult {
    /// `max(cac - cfa, 0)`: cash actually laid out upfront.
    pub net_outlay: u64,
    /// Lifetime return ratio `ltgp / cac`, infinite when `cac == 0`.
    pub ratio: Ratio,
    /// `clamp(low_cac_fraction, 0, 1) * ltgp`, as an exact rational.
    pub low_cac_threshold: Fraction,
    pub cac_label: CacLabel,
    pub cfa_label: CfaLabel,
    pub quadrant: Quadrant,
    pub verdict: Verdict,
    /// Periods to recover `net_outlay` at `early_gp_rate`; absent when the
    /// rate is unknown.
    pub payback: Option<Fraction>,
    /// `payback` converted to days, for cross-unit comparison.
    pub payback_days_equivalent: Option<Fraction>,
}

} // verus!
