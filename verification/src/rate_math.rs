//! Fixed-point conversion arithmetic between the two assets of a pool.
//!
//! A pool's exchange ratio is the integer pair `(in_token_rate,
//! out_token_rate)`: converting `amount` of the in-token yields
//! `amount * out_token_rate / in_token_rate` of the out-token, rounded
//! down. Rounding down is policy: a conversion rounds in favor of the
//! pool, never in favor of the caller.
//!
//! The multiplication is carried out in split 64-bit limbs so that the
//! full 160-bit intermediate product is computed exactly; the quotient is
//! narrowed back to 128 bits, and a quotient that does not fit is reported
//! as an overflow.
use vstd::arithmetic::div_mod::{
    lemma_div_is_ordered, lemma_div_multiples_vanish, lemma_fundamental_div_mod,
    lemma_fundamental_div_mod_converse_div, lemma_mod_division_less_than_divisor,
    lemma_div_pos_is_pos,
};
use vstd::arithmetic::mul::{lemma_mul_is_commutative, lemma_mul_nonnegative};
use vstd::prelude::*;

use crate::types::{Balance, ConvertorError};

verus! {

/// One more than the largest 64-bit value: the base of the limb split.
pub const LIMB_BASE: u128 = 0x1_0000_0000_0000_0000;

/// What a conversion returns: the exact rounded-down rational product.
pub open spec fn spec_convert_amount(amount: int, numerator: int, denominator: int) -> int {
    (amount * numerator) / denominator
}

/// The ring identity behind the limb-wise long division: gluing the limb
/// quotients back together reconstructs a quotient-remainder decomposition
/// of the full product.
proof fn lemma_limb_recombination(
    m: int,
    d: int,
    hi: int,
    lo: int,
    q1: int,
    r1: int,
    q2: int,
    r2: int,
)
    by (nonlinear_arith)
    requires
        hi * m == q1 * d + r1,
        r1 * 0x1_0000_0000_0000_0000 + lo * m == q2 * d + r2,
    ensures
        (hi * 0x1_0000_0000_0000_0000 + lo) * m == (q1 * 0x1_0000_0000_0000_0000 + q2) * d + r2,
{
}

/// Computes `amount * numerator / denominator` exactly, using an
/// intermediate product wider than 128 bits, and fails with `Overflow` if
/// and only if the rounded-down quotient does not fit in 128 bits.
pub fn mul_div(amount: Balance, numerator: u32, denominator: u32) -> (r: Result<
    Balance,
    ConvertorError,
>)
    requires
        denominator > 0,
    ensures
        match r {
            Ok(v) => v == spec_convert_amount(amount as int, numerator as int, denominator as int),
            Err(e) => e == ConvertorError::Overflow && spec_convert_amount(
                amount as int,
                numerator as int,
                denominator as int,
            ) > u128::MAX,
        },
{
    let m: u128 = numerator as u128;
    let d: u128 = denominator as u128;
    let hi: u128 = amount / LIMB_BASE;
    let lo: u128 = amount % LIMB_BASE;
    proof {
        lemma_fundamental_div_mod(amount as int, LIMB_BASE as int);
        lemma_div_is_ordered(amount as int, u128::MAX as int, LIMB_BASE as int);
        lemma_mod_division_less_than_divisor(amount as int, LIMB_BASE as int);
        assert(hi < LIMB_BASE);
        assert(lo < LIMB_BASE);
        assert(amount == hi * (LIMB_BASE as int) + lo) by {
            lemma_mul_is_commutative(LIMB_BASE as int, hi as int);
        }
        assert(hi * m < 0x1_0000_0000_0000_0000_0000_0000 && lo * m
            < 0x1_0000_0000_0000_0000_0000_0000) by (nonlinear_arith)
            requires
                hi < 0x1_0000_0000_0000_0000u128,
                lo < 0x1_0000_0000_0000_0000u128,
                m < 0x1_0000_0000u128,
        ;
    }
    let hi_product: u128 = hi * m;
    let lo_product: u128 = lo * m;
    let q1: u128 = hi_product / d;
    let r1: u128 = hi_product % d;
    proof {
        lemma_fundamental_div_mod(hi_product as int, d as int);
        lemma_mod_division_less_than_divisor(hi_product as int, d as int);
        assert(r1 * LIMB_BASE < 0x1_0000_0000_0000_0000_0000_0000) by (nonlinear_arith)
            requires
                r1 < 0x1_0000_0000u128,
        ;
    }
    let carry: u128 = r1 * LIMB_BASE + lo_product;
    let q2: u128 = carry / d;
    let ghost r2: int = carry as int % d as int;
    proof {
        lemma_fundamental_div_mod(carry as int, d as int);
        lemma_mod_division_less_than_divisor(carry as int, d as int);
        lemma_limb_recombination(
            m as int,
            d as int,
            hi as int,
            lo as int,
            q1 as int,
            r1 as int,
            q2 as int,
            r2,
        );
        assert((amount as int) * m == ((q1 as int) * (LIMB_BASE as int) + q2) * d + r2);
        lemma_fundamental_div_mod_converse_div(
            (amount as int) * m,
            d as int,
            (q1 as int) * (LIMB_BASE as int) + q2,
            r2,
        );
        assert((q1 as int) * (LIMB_BASE as int) + q2 == spec_convert_amount(
            amount as int,
            m as int,
            d as int,
        ));
    }
    if q1 >= LIMB_BASE {
        proof {
            assert((q1 as int) * (LIMB_BASE as int) + q2 > u128::MAX) by (nonlinear_arith)
                requires
                    q1 >= 0x1_0000_0000_0000_0000u128,
                    q2 >= 0u128,
            ;
        }
        return Err(ConvertorError::Overflow);
    }
    proof {
        assert(q1 * LIMB_BASE <= 0xFFFF_FFFF_FFFF_FFFF_0000_0000_0000_0000) by (nonlinear_arith)
            requires
                q1 < 0x1_0000_0000_0000_0000u128,
        ;
    }
    let shifted: u128 = q1 * LIMB_BASE;
    match shifted.checked_add(q2) {
        Some(v) => Ok(v),
        None => Err(ConvertorError::Overflow),
    }
}

/// Converts an in-token amount to the out-token side of a rate pair.
pub fn forward(amount: Balance, in_rate: u32, out_rate: u32) -> (r: Result<
    Balance,
    ConvertorError,
>)
    requires
        in_rate > 0,
    ensures
        match r {
            Ok(v) => v == spec_convert_amount(amount as int, out_rate as int, in_rate as int),
            Err(e) => e == ConvertorError::Overflow && spec_convert_amount(
                amount as int,
                out_rate as int,
                in_rate as int,
            ) > u128::MAX,
        },
{
    mul_div(amount, out_rate, in_rate)
}

/// Converts an out-token amount back to the in-token side: the same rate
/// pair with the operands swapped.
pub fn reverse(amount: Balance, in_rate: u32, out_rate: u32) -> (r: Result<
    Balance,
    ConvertorError,
>)
    requires
        out_rate > 0,
    ensures
        match r {
            Ok(v) => v == spec_convert_amount(amount as int, in_rate as int, out_rate as int),
            Err(e) => e == ConvertorError::Overflow && spec_convert_amount(
                amount as int,
                in_rate as int,
                out_rate as int,
            ) > u128::MAX,
        },
{
    mul_div(amount, in_rate, out_rate)
}

/// Rounding down never creates value: converting an amount forward and
/// then converting the proceeds back never yields more than the original
/// amount.
pub proof fn lemma_round_trip_never_gains(amount: int, in_rate: int, out_rate: int)
    requires
        amount >= 0,
        in_rate > 0,
        out_rate > 0,
    ensures
        spec_convert_amount(
            spec_convert_amount(amount, out_rate, in_rate),
            in_rate,
            out_rate,
        ) <= amount,
{
    let f = (amount * out_rate) / in_rate;
    lemma_mul_nonnegative(amount, out_rate);
    lemma_div_pos_is_pos(amount * out_rate, in_rate);
    lemma_fundamental_div_mod(amount * out_rate, in_rate);
    lemma_mod_division_less_than_divisor(amount * out_rate, in_rate);
    assert(f * in_rate <= amount * out_rate) by {
        lemma_mul_is_commutative(in_rate, f);
    }
    lemma_div_is_ordered(f * in_rate, amount * out_rate, out_rate);
    assert((amount * out_rate) / out_rate == amount) by {
        lemma_mul_is_commutative(amount, out_rate);
        lemma_div_multiples_vanish(amount, out_rate);
    }
}

} // verus!
