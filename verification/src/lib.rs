//! Unit-economics decision engine: classifies a customer cohort from five
//! financial inputs (acquisition cost, upfront cash, lifetime gross profit,
//! early profit rate, a period unit) and a low-CAC threshold fraction, and
//! estimates the cash-payback period.
//!
//! All quantities are exact: money amounts are integers in a fixed minor
//! currency unit, and derived quantities (return ratio, threshold, payback)
//! are exact rationals, so every classification is reproducible bit for bit.

pub mod engine;
pub mod fraction;
pub mod laws;
pub mod model;
