use ltgp_cac::engine::days_per_unit;
use ltgp_cac::engine::evaluate;
use ltgp_cac::fraction::Fraction;
use ltgp_cac::model::CacLabel;
use ltgp_cac::model::CfaLabel;
use ltgp_cac::model::EvaluationInput;
use ltgp_cac::model::PeriodUnit;
use ltgp_cac::model::Quadrant;
use ltgp_cac::model::Ratio;
use ltgp_cac::model::Verdict;

fn input(
    cac: u64,
    cfa: u64,
    ltgp: u64,
    early_gp_rate: u64,
    period_unit: PeriodUnit,
    frac_num: u128,
    frac_den: u64,
) -> EvaluationInput {
    EvaluationInput {
        cac,
        cfa,
        ltgp,
        early_gp_rate,
        period_unit,
        low_cac_fraction: Fraction { num: frac_num, den: frac_den },
    }
}

fn assert_ratio_is(r: Ratio, n: u64) {
    match r {
        Ratio::Finite(f) => assert!(f.eq_int(n)),
        Ratio::Infinite => panic!("ratio should be finite"),
    }
}

#[test]
fn scenario_costly_low_upfront() {
    let r = evaluate(&input(500, 200, 2500, 50, PeriodUnit::Days, 1, 10));
    assert!(r.low_cac_threshold.eq_int(250));
    assert_eq!(r.net_outlay, 300);
    assert_ratio_is(r.ratio, 5);
    assert_eq!(r.cac_label, CacLabel::High);
    assert_eq!(r.cfa_label, CfaLabel::Low);
    assert_eq!(r.quadrant, Quadrant::CapitalIntensiveTrap);
    assert_eq!(r.verdict, Verdict::Fragile);
    assert!(r.payback.unwrap().eq_int(6));
    assert!(r.payback_days_equivalent.unwrap().eq_int(6));
}

#[test]
fn scenario_self_funding() {
    let r = evaluate(&input(100, 100, 1000, 0, PeriodUnit::Days, 1, 10));
    assert!(r.low_cac_threshold.eq_int(100));
    assert_eq!(r.net_outlay, 0);
    assert_ratio_is(r.ratio, 10);
    assert_eq!(r.cac_label, CacLabel::Low);
    assert_eq!(r.cfa_label, CfaLabel::High);
    assert_eq!(r.quadrant, Quadrant::SelfFundingGrowth);
    assert_eq!(r.verdict, Verdict::Excellent);
    assert!(r.payback.is_none());
    assert!(r.payback_days_equivalent.is_none());
}

#[test]
fn scenario_zero_cac() {
    let r = evaluate(&input(0, 0, 500, 0, PeriodUnit::Days, 1, 10));
    assert_eq!(r.ratio, Ratio::Infinite);
    assert_eq!(r.net_outlay, 0);
    assert_eq!(r.cac_label, CacLabel::Low);
    assert_eq!(r.cfa_label, CfaLabel::High);
    assert_eq!(r.quadrant, Quadrant::SelfFundingGrowth);
    assert_eq!(r.verdict, Verdict::Excellent);
}

#[test]
fn scenario_unsustainable_spend() {
    let r = evaluate(&input(1000, 0, 2000, 0, PeriodUnit::Days, 1, 10));
    assert_ratio_is(r.ratio, 2);
    assert_eq!(r.net_outlay, 1000);
    assert!(r.low_cac_threshold.eq_int(200));
    assert_eq!(r.cac_label, CacLabel::High);
    assert_eq!(r.cfa_label, CfaLabel::Low);
    assert_eq!(r.quadrant, Quadrant::CapitalIntensiveTrap);
    assert_eq!(r.verdict, Verdict::Unsustainable);
}

#[test]
fn payback_unit_conversion_weeks() {
    let r = evaluate(&input(150, 50, 1000, 50, PeriodUnit::Weeks, 1, 10));
    assert!(r.payback.unwrap().eq_int(2));
    assert!(r.payback_days_equivalent.unwrap().eq_int(14));
}

#[test]
fn days_per_unit_table() {
    assert_eq!(days_per_unit(PeriodUnit::Days), 1);
    assert_eq!(days_per_unit(PeriodUnit::Weeks), 7);
    assert_eq!(days_per_unit(PeriodUnit::Months), 30);
    assert_eq!(days_per_unit(PeriodUnit::Years), 365);
}

#[test]
fn cac_exactly_at_threshold_is_low() {
    let r = evaluate(&input(200, 0, 2000, 0, PeriodUnit::Days, 1, 10));
    assert!(r.low_cac_threshold.eq_int(200));
    assert_eq!(r.cac_label, CacLabel::Low);
}

#[test]
fn cfa_exactly_half_cac_is_high() {
    let r = evaluate(&input(200, 100, 2000, 0, PeriodUnit::Days, 1, 10));
    assert_eq!(r.cfa_label, CfaLabel::High);
}

#[test]
fn no_rate_means_no_payback() {
    let r = evaluate(&input(500, 0, 5000, 0, PeriodUnit::Years, 1, 10));
    assert!(r.payback.is_none());
    assert!(r.payback_days_equivalent.is_none());
}

#[test]
fn evaluate_is_pure() {
    let i = input(500, 200, 2500, 50, PeriodUnit::Months, 3, 20);
    let r1 = evaluate(&i);
    let r2 = evaluate(&i);
    assert_eq!(r1, r2);
}

#[test]
fn more_upfront_cash_never_hurts() {
    let little = evaluate(&input(400, 100, 4000, 0, PeriodUnit::Days, 1, 10));
    let much = evaluate(&input(400, 300, 4000, 0, PeriodUnit::Days, 1, 10));
    assert_eq!(little.cfa_label, CfaLabel::Low);
    assert_eq!(much.cfa_label, CfaLabel::High);
    assert!(much.net_outlay <= little.net_outlay);
    assert_eq!(little.net_outlay, 300);
    assert_eq!(much.net_outlay, 100);
}

#[test]
fn fraction_above_one_is_clamped() {
    let r = evaluate(&input(999, 0, 1000, 0, PeriodUnit::Days, 3, 2));
    assert!(r.low_cac_threshold.eq_int(1000));
    assert_eq!(r.cac_label, CacLabel::Low);
}

#[test]
fn zero_ltgp_with_spend() {
    let r = evaluate(&input(10, 0, 0, 0, PeriodUnit::Days, 1, 10));
    assert_ratio_is(r.ratio, 0);
    assert!(r.low_cac_threshold.eq_int(0));
    assert_eq!(r.cac_label, CacLabel::High);
    assert_eq!(r.verdict, Verdict::Unsustainable);
}

#[test]
fn fraction_integer_equality() {
    let f = Fraction { num: 6, den: 3 };
    assert!(f.eq_int(2));
    assert!(!f.eq_int(3));
    let zero = Fraction { num: 0, den: 7 };
    assert!(zero.eq_int(0));
}
