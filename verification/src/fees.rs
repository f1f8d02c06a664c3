use vstd::arithmetic::div_mod::lemma_div_is_ordered;
use vstd::arithmetic::div_mod::lemma_fundamental_div_mod;
use vstd::arithmetic::div_mod::lemma_hoist_over_denominator;
use vstd::arithmetic::div_mod::lemma_mod_bound;
use vstd::arithmetic::mul::lemma_mul_inequality;
use vstd::arithmetic::mul::lemma_mul_nonnegative;
use vstd::arithmetic::mul::lemma_mul_upper_bound;
use vstd::prelude::*;

use crate::types::ProtocolConfig;
use crate::types::MAX_FEE_RATE_BPS;

verus! {

/// The protocol fee skimmed from a gross deposit:
/// `floor(amount * fee_rate_bps / 10000)`. The floor favors the depositor.
pub open spec fn spec_fee(amount: int, fee_rate_bps: int) -> int {
    amount * fee_rate_bps / 10000
}

/// The net amount credited to a stream out of a gross deposit. The fee is
/// deducted only when a protocol configuration exists and its fee rate is
/// non-zero; otherwise the net amount equals the gross amount.
pub open spec fn spec_net_amount(config: Option<ProtocolConfig>, amount: int) -> int {
    match config {
        Some(c) => if c.fee_rate_bps > 0 {
            amount - spec_fee(amount, c.fee_rate_bps as int)
        } else {
            amount
        },
        None => amount,
    }
}

/// The fee on a positive deposit is non-negative and strictly below the
/// deposit, for every fee rate within the allowed bound. In particular the
/// net amount of a valid deposit is always strictly positive.
pub proof fn lemma_fee_bounds(amount: int, fee_rate_bps: int)
    requires
        1 <= amount,
        0 <= fee_rate_bps <= MAX_FEE_RATE_BPS,
    ensures
        0 <= spec_fee(amount, fee_rate_bps) < amount,
{
    lemma_mul_nonnegative(amount, fee_rate_bps);
    lemma_div_is_ordered(0, amount * fee_rate_bps, 10000);
    lemma_mul_inequality(fee_rate_bps, 1000, amount);
    assert(amount * fee_rate_bps <= 10000 * amount - 1);
    lemma_div_is_ordered(amount * fee_rate_bps, 10000 * amount - 1, 10000);
    lemma_hoist_over_denominator(-1, amount, 10000);
    assert((10000 * amount - 1) / 10000 == amount - 1);
}

/// Computes the protocol fee `floor(amount * fee_rate_bps / 10000)` without
/// intermediate overflow, by splitting the amount at the 10000 radix:
/// `floor(a*b/c) == (a/c)*b + floor((a%c)*b/c)` when `a == (a/c)*c + a%c`.
pub fn compute_fee(amount: i128, fee_rate_bps: u32) -> (fee: i128)
    requires
        1 <= amount,
        fee_rate_bps <= MAX_FEE_RATE_BPS,
    ensures
        fee == spec_fee(amount as int, fee_rate_bps as int),
        0 <= fee < amount,
{
    let bps: i128 = fee_rate_bps as i128;
    let quot: i128 = amount / 10000;
    let rem: i128 = amount % 10000;
    proof {
        let a = amount as int;
        let b = bps as int;
        lemma_fundamental_div_mod(a, 10000);
        lemma_mod_bound(a, 10000);
        lemma_div_is_ordered(0, a, 10000);
        lemma_div_is_ordered(a, i128::MAX as int, 10000);
        lemma_mul_nonnegative(quot as int, b);
        lemma_mul_nonnegative(rem as int, b);
        lemma_mul_upper_bound(rem as int, 9999, b, 1000);
        lemma_mul_inequality(b, 1000, quot as int);
        lemma_mul_inequality(quot as int, i128::MAX as int / 10000, 1000);
        assert((quot as int) * b <= (i128::MAX as int / 10000) * 1000);
        assert(a * b == (quot as int * b) * 10000 + rem as int * b) by (nonlinear_arith)
            requires
                a == 10000 * (quot as int) + rem as int,
        ;
        lemma_hoist_over_denominator(rem as int * b, quot as int * b, 10000);
        lemma_fee_bounds(a, b);
    }
    quot * bps + (rem * bps) / 10000
}

} // verus!
