use vstd::prelude::*;
use vstd::arithmetic::div_mod::{
    lemma_div_is_ordered, lemma_div_multiples_vanish, lemma_div_multiples_vanish_quotient,
    lemma_fundamental_div_mod, lemma_mod_bound,
};
use vstd::arithmetic::mul::{lemma_mul_inequality, lemma_mul_nonnegative, lemma_mul_upper_bound};

use crate::constants::MAX_FEE_BASIS_POINTS;
use crate::error::ArithmeticError;

verus! {

/// The input of a swap after the fee has been taken from it, scaled by
/// `MAX_FEE_BASIS_POINTS` so that no division is needed.
pub open spec fn effective_amount_in(amount_in: int, fee_basis_points: int) -> int {
    amount_in * (MAX_FEE_BASIS_POINTS as int - fee_basis_points)
}

/// Numerator of the constant-product formula.
pub open spec fn swap_numerator(amount_in: int, reserve_out: int, fee_basis_points: int) -> int {
    effective_amount_in(amount_in, fee_basis_points) * reserve_out
}

/// Denominator of the constant-product formula.
pub open spec fn swap_denominator(amount_in: int, reserve_in: int, fee_basis_points: int) -> int {
    reserve_in * (MAX_FEE_BASIS_POINTS as int) + effective_amount_in(amount_in, fee_basis_points)
}

/// What a swap of `amount_in` pays out against the given reserves: the
/// constant-product quotient, rounded down.
pub open spec fn amount_out(
    amount_in: int,
    reserve_in: int,
    reserve_out: int,
    fee_basis_points: int,
) -> int {
    swap_numerator(amount_in, reserve_out, fee_basis_points) / swap_denominator(
        amount_in,
        reserve_in,
        fee_basis_points,
    )
}

/// The share of `amount` that a rate in basis points stands for, rounded down.
pub open spec fn fee_on(amount: int, rate_basis_points: int) -> int {
    amount * rate_basis_points / (MAX_FEE_BASIS_POINTS as int)
}

/// The answer of the pricing function on every input: which error it gives
/// and when, and the amount otherwise.
pub open spec fn swap_outcome(
    amount_in: u64,
    reserve_in: u64,
    reserve_out: u64,
    fee_basis_points: u64,
) -> Result<u64, ArithmeticError> {
    if fee_basis_points > MAX_FEE_BASIS_POINTS {
        Err(ArithmeticError::InvalidFeeRate)
    } else if swap_numerator(amount_in as int, reserve_out as int, fee_basis_points as int)
        > u128::MAX {
        Err(ArithmeticError::Overflow)
    } else if swap_denominator(amount_in as int, reserve_in as int, fee_basis_points as int) == 0 {
        Err(ArithmeticError::DivisionByZero)
    } else {
        Ok(
            amount_out(
                amount_in as int,
                reserve_in as int,
                reserve_out as int,
                fee_basis_points as int,
            ) as u64,
        )
    }
}

/// The fee that is shown beside a quote, or the error where it does not fit
/// in 64 bits.
pub open spec fn fee_outcome(amount: u64, rate_basis_points: u64) -> Result<u64, ArithmeticError> {
    if fee_on(amount as int, rate_basis_points as int) > u64::MAX {
        Err(ArithmeticError::Overflow)
    } else {
        Ok(fee_on(amount as int, rate_basis_points as int) as u64)
    }
}

/// With a fee rate in range and a denominator that is not zero, the amount
/// paid out is never negative and never above the output reserve.
pub proof fn lemma_amount_out_bounds(
    amount_in: int,
    reserve_in: int,
    reserve_out: int,
    fee_basis_points: int,
)
    requires
        0 <= amount_in,
        0 <= reserve_in,
        0 <= reserve_out,
        0 <= fee_basis_points <= MAX_FEE_BASIS_POINTS,
        swap_denominator(amount_in, reserve_in, fee_basis_points) != 0,
    ensures
        0 <= amount_out(amount_in, reserve_in, reserve_out, fee_basis_points) <= reserve_out,
        reserve_in > 0 && reserve_out > 0 ==> amount_out(
            amount_in,
            reserve_in,
            reserve_out,
            fee_basis_points,
        ) < reserve_out,
{
    let keep = MAX_FEE_BASIS_POINTS as int - fee_basis_points;
    let e = effective_amount_in(amount_in, fee_basis_points);
    let n = swap_numerator(amount_in, reserve_out, fee_basis_points);
    let d = swap_denominator(amount_in, reserve_in, fee_basis_points);
    let q = n / d;
    lemma_mul_nonnegative(amount_in, keep);
    lemma_mul_nonnegative(e, reserve_out);
    assert(d > 0);
    lemma_fundamental_div_mod(n, d);
    lemma_mod_bound(n, d);
    assert(d * q <= n);
    assert(0 <= q) by (nonlinear_arith)
        requires
            d > 0,
            n >= 0,
            q == n / d,
    ;
    assert(q <= reserve_out) by (nonlinear_arith)
        requires
            d * q <= e * reserve_out,
            d >= e,
            d > 0,
            e >= 0,
            q >= 0,
            reserve_out >= 0,
    ;
    if reserve_in > 0 && reserve_out > 0 {
        assert(q < reserve_out) by (nonlinear_arith)
            requires
                d * q <= e * reserve_out,
                d > e,
                e >= 0,
                q >= 0,
                reserve_out > 0,
        ;
    }
}

/// Paying in more never pays out less: the formula is monotone in the amount
/// paid in, for a fee rate in range and an input reserve that is not empty.
pub proof fn lemma_amount_out_monotonic(
    smaller_in: int,
    larger_in: int,
    reserve_in: int,
    reserve_out: int,
    fee_basis_points: int,
)
    requires
        0 <= smaller_in <= larger_in,
        0 < reserve_in,
        0 <= reserve_out,
        0 <= fee_basis_points <= MAX_FEE_BASIS_POINTS,
    ensures
        amount_out(smaller_in, reserve_in, reserve_out, fee_basis_points) <= amount_out(
            larger_in,
            reserve_in,
            reserve_out,
            fee_basis_points,
        ),
{
    let keep = MAX_FEE_BASIS_POINTS as int - fee_basis_points;
    let scaled = reserve_in * (MAX_FEE_BASIS_POINTS as int);
    let e1 = effective_amount_in(smaller_in, fee_basis_points);
    let e2 = effective_amount_in(larger_in, fee_basis_points);
    let n1 = swap_numerator(smaller_in, reserve_out, fee_basis_points);
    let n2 = swap_numerator(larger_in, reserve_out, fee_basis_points);
    let d1 = swap_denominator(smaller_in, reserve_in, fee_basis_points);
    let d2 = swap_denominator(larger_in, reserve_in, fee_basis_points);
    let q1 = n1 / d1;
    lemma_mul_nonnegative(smaller_in, keep);
    lemma_mul_inequality(smaller_in, larger_in, keep);
    assert(0 <= e1 <= e2);
    assert(d1 > 0 && d2 > 0);
    lemma_amount_out_bounds(smaller_in, reserve_in, reserve_out, fee_basis_points);
    lemma_fundamental_div_mod(n1, d1);
    lemma_mod_bound(n1, d1);
    assert(d1 * q1 <= n1);
    // q1 fits under the larger quotient because q1 * d2 does not exceed n2.
    assert(q1 * d2 <= n2) by (nonlinear_arith)
        requires
            d1 * q1 <= e1 * reserve_out,
            n2 == e2 * reserve_out,
            d1 == scaled + e1,
            d2 == scaled + e2,
            0 <= e1 <= e2,
            0 <= q1 <= reserve_out,
    ;
    lemma_div_is_ordered(q1 * d2, n2, d2);
    lemma_div_multiples_vanish(q1, d2);
}

/// Without a fee the formula is the plain constant-product one:
/// `amount_in * reserve_out / (reserve_in + amount_in)`.
pub proof fn lemma_amount_out_without_fee(amount_in: int, reserve_in: int, reserve_out: int)
    requires
        0 <= amount_in,
        0 <= reserve_in,
        0 <= reserve_out,
        0 < reserve_in + amount_in,
    ensures
        amount_out(amount_in, reserve_in, reserve_out, 0) == (amount_in * reserve_out) / (reserve_in
            + amount_in),
{
    let max = MAX_FEE_BASIS_POINTS as int;
    let n = swap_numerator(amount_in, reserve_out, 0);
    let d = swap_denominator(amount_in, reserve_in, 0);
    assert(n == max * (amount_in * reserve_out)) by (nonlinear_arith)
        requires
            n == (amount_in * (max - 0)) * reserve_out,
    ;
    assert(d == max * (reserve_in + amount_in)) by (nonlinear_arith)
        requires
            d == reserve_in * max + amount_in * (max - 0),
    ;
    lemma_mul_nonnegative(amount_in, reserve_out);
    lemma_div_multiples_vanish_quotient(max, amount_in * reserve_out, reserve_in + amount_in);
}

/// Swapping one way and then swapping the proceeds back, against the same
/// reserves, never returns more than was paid in at first.
pub proof fn lemma_round_trip_never_gains(
    amount_in: int,
    reserve_a: int,
    reserve_b: int,
    fee_basis_points: int,
)
    requires
        0 <= amount_in,
        0 <= reserve_a,
        0 <= reserve_b,
        0 <= fee_basis_points <= MAX_FEE_BASIS_POINTS,
        swap_denominator(amount_in, reserve_a, fee_basis_points) != 0,
        swap_denominator(
            amount_out(amount_in, reserve_a, reserve_b, fee_basis_points),
            reserve_b,
            fee_basis_points,
        ) != 0,
    ensures
        amount_out(
            amount_out(amount_in, reserve_a, reserve_b, fee_basis_points),
            reserve_b,
            reserve_a,
            fee_basis_points,
        ) <= amount_in,
{
    let max = MAX_FEE_BASIS_POINTS as int;
    let keep = max - fee_basis_points;
    let middle = amount_out(amount_in, reserve_a, reserve_b, fee_basis_points);
    let n1 = swap_numerator(amount_in, reserve_b, fee_basis_points);
    let d1 = swap_denominator(amount_in, reserve_a, fee_basis_points);
    let n2 = swap_numerator(middle, reserve_a, fee_basis_points);
    let d2 = swap_denominator(middle, reserve_b, fee_basis_points);
    lemma_amount_out_bounds(amount_in, reserve_a, reserve_b, fee_basis_points);
    lemma_mul_nonnegative(amount_in, keep);
    lemma_mul_nonnegative(middle, keep);
    assert(d1 > 0 && d2 > 0);
    lemma_fundamental_div_mod(n1, d1);
    lemma_mod_bound(n1, d1);
    assert(d1 * middle <= n1);
    assert(n2 <= amount_in * d2) by (nonlinear_arith)
        requires
            d1 * middle <= (amount_in * keep) * reserve_b,
            d1 == reserve_a * max + amount_in * keep,
            n2 == (middle * keep) * reserve_a,
            d2 == reserve_b * max + middle * keep,
            0 <= keep <= max,
            0 <= amount_in,
            0 <= middle,
            0 <= reserve_a,
            0 <= reserve_b,
    ;
    lemma_div_is_ordered(n2, amount_in * d2, d2);
    lemma_div_multiples_vanish(amount_in, d2);
}

/// Against a pool with reserves on both sides and with a fee rate in range,
/// the price never reaches the output reserve, and paying in more never pays
/// out less: where the larger amount has a price, the smaller one has a
/// price too, and it is no higher.
pub proof fn lemma_swap_outcome_monotonic(
    smaller_in: u64,
    larger_in: u64,
    reserve_in: u64,
    reserve_out: u64,
    fee_basis_points: u64,
)
    requires
        smaller_in <= larger_in,
        reserve_in > 0,
        reserve_out > 0,
        fee_basis_points <= MAX_FEE_BASIS_POINTS,
    ensures
        swap_outcome(smaller_in, reserve_in, reserve_out, fee_basis_points) matches Ok(out)
            ==> out < reserve_out,
        swap_outcome(larger_in, reserve_in, reserve_out, fee_basis_points) matches Ok(larger_out)
            ==> {
            &&& swap_outcome(smaller_in, reserve_in, reserve_out, fee_basis_points) matches Ok(
                smaller_out,
            )
            &&& smaller_out <= larger_out
        },
{
    let keep = MAX_FEE_BASIS_POINTS as int - fee_basis_points as int;
    lemma_mul_nonnegative(smaller_in as int, keep);
    lemma_mul_nonnegative(larger_in as int, keep);
    lemma_mul_inequality(smaller_in as int, larger_in as int, keep);
    lemma_mul_inequality(
        effective_amount_in(smaller_in as int, fee_basis_points as int),
        effective_amount_in(larger_in as int, fee_basis_points as int),
        reserve_out as int,
    );
    lemma_amount_out_bounds(
        smaller_in as int,
        reserve_in as int,
        reserve_out as int,
        fee_basis_points as int,
    );
    lemma_amount_out_bounds(
        larger_in as int,
        reserve_in as int,
        reserve_out as int,
        fee_basis_points as int,
    );
    lemma_amount_out_monotonic(
        smaller_in as int,
        larger_in as int,
        reserve_in as int,
        reserve_out as int,
        fee_basis_points as int,
    );
}

/// A rate in range takes no more than the whole amount.
pub proof fn lemma_fee_within_amount(amount: int, rate_basis_points: int)
    requires
        0 <= amount,
        0 <= rate_basis_points <= MAX_FEE_BASIS_POINTS,
    ensures
        0 <= fee_on(amount, rate_basis_points) <= amount,
{
    let max = MAX_FEE_BASIS_POINTS as int;
    lemma_mul_nonnegative(amount, rate_basis_points);
    lemma_mul_inequality(rate_basis_points, max, amount);
    assert(amount * rate_basis_points <= max * amount) by (nonlinear_arith)
        requires
            rate_basis_points * amount <= max * amount,
    ;
    lemma_div_is_ordered(amount * rate_basis_points, max * amount, max);
    lemma_div_multiples_vanish(amount, max);
    lemma_div_is_ordered(0, amount * rate_basis_points, max);
}

/// The share of `amount` that the rate stands for, rounded down and computed
/// in 128 bits.
pub fn fee_amount(amount: u64, rate_basis_points: u64) -> (fee: Result<u64, ArithmeticError>)
    ensures
        fee == fee_outcome(amount, rate_basis_points),
{
    proof {
        lemma_mul_upper_bound(
            amount as int,
            u64::MAX as int,
            rate_basis_points as int,
            u64::MAX as int,
        );
    }
    let product: u128 = match (amount as u128).checked_mul(rate_basis_points as u128) {
        Some(product) => product,
        None => {
            return Err(ArithmeticError::Overflow);
        },
    };
    let share: u128 = match product.checked_div(MAX_FEE_BASIS_POINTS as u128) {
        Some(share) => share,
        None => {
            return Err(ArithmeticError::DivisionByZero);
        },
    };
    if share > u64::MAX as u128 {
        return Err(ArithmeticError::Overflow);
    }
    Ok(share as u64)
}

/// Prices a swap of `amount_in` against a pool that holds `reserve_in` of the
/// asset paid in and `reserve_out` of the asset paid out.
///
/// The fee is taken from the input before the constant-product formula is
/// applied. All intermediate values are kept in 128 bits, and every step that
/// could leave that range is checked.
pub fn constant_product_out(
    amount_in: u64,
    reserve_in: u64,
    reserve_out: u64,
    fee_basis_points: u64,
) -> (result: Result<u64, ArithmeticError>)
    ensures
        result == swap_outcome(amount_in, reserve_in, reserve_out, fee_basis_points),
{
    let kept_basis_points: u64 = match MAX_FEE_BASIS_POINTS.checked_sub(fee_basis_points) {
        Some(kept) => kept,
        None => {
            return Err(ArithmeticError::InvalidFeeRate);
        },
    };
    proof {
        lemma_mul_upper_bound(
            amount_in as int,
            u64::MAX as int,
            kept_basis_points as int,
            MAX_FEE_BASIS_POINTS as int,
        );
        lemma_mul_upper_bound(
            reserve_in as int,
            u64::MAX as int,
            MAX_FEE_BASIS_POINTS as int,
            MAX_FEE_BASIS_POINTS as int,
        );
    }
    let amount_in_with_fee: u128 = match (amount_in as u128).checked_mul(kept_basis_points as u128) {
        Some(product) => product,
        None => {
            return Err(ArithmeticError::Overflow);
        },
    };
    let numerator: u128 = match amount_in_with_fee.checked_mul(reserve_out as u128) {
        Some(product) => product,
        None => {
            return Err(ArithmeticError::Overflow);
        },
    };
    let scaled_reserve: u128 = match (reserve_in as u128).checked_mul(MAX_FEE_BASIS_POINTS as u128) {
        Some(product) => product,
        None => {
            return Err(ArithmeticError::Overflow);
        },
    };
    let denominator: u128 = match scaled_reserve.checked_add(amount_in_with_fee) {
        Some(sum) => sum,
        None => {
            return Err(ArithmeticError::Overflow);
        },
    };
    let quotient: u128 = match numerator.checked_div(denominator) {
        Some(quotient) => quotient,
        None => {
            return Err(ArithmeticError::DivisionByZero);
        },
    };
    proof {
        lemma_amount_out_bounds(
            amount_in as int,
            reserve_in as int,
            reserve_out as int,
            fee_basis_points as int,
        );
    }
    if quotient > u64::MAX as u128 {
        return Err(ArithmeticError::Overflow);
    }
    Ok(quotient as u64)
}

} // verus!
