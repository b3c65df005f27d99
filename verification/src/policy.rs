//! Risk-tiered loan-to-value policy.
//!
//! A lower risk score permits higher leverage. The tier table is fixed and
//! non-overlapping; the loan ceiling is computed with integer arithmetic,
//! rounding down.

use vstd::prelude::*;
use vstd::arithmetic::mul::lemma_mul_inequality;
use vstd::arithmetic::div_mod::{lemma_div_is_ordered, lemma_div_multiples_vanish};

verus! {

/// Loan-to-value ceiling in percent for a risk score, by the fixed tier
/// table. Scores above 100 never occur in a stored record; the table is
/// total anyway and maps them to 0.
pub open spec fn spec_max_ltv(risk_score: u8) -> u64 {
    if risk_score <= 20 {
        70
    } else if risk_score <= 40 {
        60
    } else if risk_score <= 60 {
        50
    } else if risk_score <= 80 {
        35
    } else if risk_score <= 100 {
        20
    } else {
        0
    }
}

/// Greatest principal that may be borrowed against `valuation` at
/// `risk_score`: `floor(valuation * ltv_percent / 100)`.
pub open spec fn spec_max_loan(valuation: u64, risk_score: u8) -> int {
    (valuation * spec_max_ltv(risk_score)) / 100
}

/// The loan-to-value ceiling of the tier that `risk_score` falls in.
pub fn max_ltv(risk_score: u8) -> (r: u64)
    ensures
        r == spec_max_ltv(risk_score),
{
    if risk_score <= 20 {
        70
    } else if risk_score <= 40 {
        60
    } else if risk_score <= 60 {
        50
    } else if risk_score <= 80 {
        35
    } else if risk_score <= 100 {
        20
    } else {
        0
    }
}

/// The ceiling never exceeds the valuation itself, so it fits in a `u64`.
pub proof fn lemma_max_loan_fits(valuation: u64, risk_score: u8)
    ensures
        0 <= spec_max_loan(valuation, risk_score) <= valuation,
{
    let ltv = spec_max_ltv(risk_score) as int;
    lemma_mul_inequality(ltv, 100, valuation as int);
    lemma_div_is_ordered(valuation * ltv, valuation * 100, 100);
    lemma_div_multiples_vanish(valuation as int, 100);
    assert(valuation * 100 == 100 * valuation as int) by (nonlinear_arith);
    assert(valuation * ltv >= 0) by (nonlinear_arith)
        requires
            ltv >= 0,
            valuation >= 0,
    ;
    lemma_div_is_ordered(0, valuation * ltv, 100);
}

/// The greatest loan amount allowed against `valuation` at `risk_score`.
pub fn max_loan(valuation: u64, risk_score: u8) -> (r: u64)
    ensures
        r == spec_max_loan(valuation, risk_score),
{
    let ltv = max_ltv(risk_score);
    proof {
        lemma_max_loan_fits(valuation, risk_score);
        assert(valuation * ltv <= valuation * 100) by {
            lemma_mul_inequality(ltv as int, 100, valuation as int);
            assert(ltv * valuation == valuation * ltv as int) by (nonlinear_arith);
            assert(100 * valuation == valuation * 100 as int) by (nonlinear_arith);
        };
        assert(valuation * 100 < 0x1_0000_0000_0000_0000_0000_0000_0000_0000) by (nonlinear_arith)
            requires
                valuation <= 0xffff_ffff_ffff_ffff,
        ;
    }
    let wide: u128 = (valuation as u128) * (ltv as u128);
    (wide / 100) as u64
}

/// Monotonicity of the loan ceiling: at equal valuation, a higher (or equal)
/// risk score never allows a larger loan.
pub proof fn lemma_max_loan_monotonic(valuation: u64, a: u8, b: u8)
    requires
        a <= b,
    ensures
        spec_max_loan(valuation, a) >= spec_max_loan(valuation, b),
{
    let la = spec_max_ltv(a) as int;
    let lb = spec_max_ltv(b) as int;
    assert(lb <= la);
    lemma_mul_inequality(lb, la, valuation as int);
    assert(lb * valuation == valuation * lb) by (nonlinear_arith);
    assert(la * valuation == valuation * la) by (nonlinear_arith);
    lemma_div_is_ordered(valuation * lb, valuation * la, 100);
}

} // verus!
