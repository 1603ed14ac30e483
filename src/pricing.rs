use vstd::prelude::*;

use crate::consts::{FEE_DENOMINATOR, V_SOL_AMOUNT, V_TOKEN_AMOUNT, VIRTUAL_MODE_THRESHOLD};
use crate::errors::CustomError;

verus! {

/// Which of the two curves prices a trade.
#[derive(Clone, Copy, Debug, PartialEq, Eq, Structural)]
pub enum PricingMode {
    /// Plain constant product over the real reserves.
    Simple,
    /// Constant product over the real reserves plus fixed virtual offsets.
    Virtual,
}

/// The curve that prices a trade against a pool holding `reserve_token` tokens.
pub open spec fn mode_of(reserve_token: int) -> PricingMode {
    if reserve_token < VIRTUAL_MODE_THRESHOLD {
        PricingMode::Simple
    } else {
        PricingMode::Virtual
    }
}

/// `n / d` rounded to the nearest integer, halves away from zero (for `n >= 0`, `d > 0`).
pub open spec fn round_half_up(n: int, d: int) -> int {
    (2 * n + d) / (2 * d)
}

/// Selects the curve from the token reserve alone.
pub fn pricing_mode(reserve_token: u64) -> (r: PricingMode)
    ensures
        r == mode_of(reserve_token as int),
{
    if reserve_token < VIRTUAL_MODE_THRESHOLD {
        PricingMode::Simple
    } else {
        PricingMode::Virtual
    }
}

/// Rounding half up is the floor quotient, plus one when the remainder is at
/// least half the divisor.
proof fn lemma_round_half_up_split(n: int, d: int)
    requires
        n >= 0,
        d > 0,
    ensures
        round_half_up(n, d) == n / d + (if 2 * (n % d) >= d { 1int } else { 0int }),
{
    let q = n / d;
    let r = n % d;
    vstd::arithmetic::div_mod::lemma_fundamental_div_mod(n, d);
    assert(0 <= r < d) by {
        vstd::arithmetic::div_mod::lemma_mod_bound(n, d);
    }
    let b: int = if 2 * r >= d { 1 } else { 0 };
    assert(2 * n + d == (q + b) * (2 * d) + (2 * r + d - 2 * d * b)) by (nonlinear_arith)
        requires
            n == d * q + r,
    ;
    assert(0 <= 2 * r + d - 2 * d * b < 2 * d);
    vstd::arithmetic::div_mod::lemma_fundamental_div_mod_converse(2 * n + d, 2 * d, q + b, 2 * r + d - 2 * d * b);
}

/// The quotient `n / d`, rounded half away from zero.
pub fn round_div(n: u128, d: u128) -> (r: u128)
    requires
        d > 0,
    ensures
        r == round_half_up(n as int, d as int),
{
    let q = n / d;
    let rem = n % d;
    proof {
        lemma_round_half_up_split(n as int, d as int);
    }
    if rem >= d - rem {
        proof {
            vstd::arithmetic::div_mod::lemma_div_is_ordered_by_denominator(n as int, 2, d as int);
        }
        q + 1
    } else {
        q
    }
}

/// The token side of the curve: the real reserve, plus the virtual offset in
/// virtual-AMM mode.
pub open spec fn effective_token(mode: PricingMode, reserve_token: int) -> int {
    match mode {
        PricingMode::Simple => reserve_token,
        PricingMode::Virtual => reserve_token + V_TOKEN_AMOUNT,
    }
}

/// The base-currency side of the curve: the real reserve, plus the virtual
/// offset in virtual-AMM mode.
pub open spec fn effective_sol(mode: PricingMode, reserve_sol: int) -> int {
    match mode {
        PricingMode::Simple => reserve_sol,
        PricingMode::Virtual => reserve_sol + V_SOL_AMOUNT,
    }
}

/// The input of a buy after the fee, scaled by `FEE_DENOMINATOR`.
pub open spec fn kept_after_fee(amount: int, fee_bps: int) -> int {
    amount * (FEE_DENOMINATOR - fee_bps)
}

/// Numerator of the tokens a buy yields: `(amount - fee) * token_side`,
/// scaled by `FEE_DENOMINATOR`.
pub open spec fn buy_numerator(
    mode: PricingMode,
    fee_bps: int,
    reserve_token: int,
    amount: int,
) -> int {
    kept_after_fee(amount, fee_bps) * effective_token(mode, reserve_token)
}

/// Denominator of the tokens a buy yields: `sol_side + (amount - fee)`,
/// scaled by `FEE_DENOMINATOR`.
pub open spec fn buy_denominator(
    mode: PricingMode,
    fee_bps: int,
    reserve_sol: int,
    amount: int,
) -> int {
    effective_sol(mode, reserve_sol) * FEE_DENOMINATOR + kept_after_fee(amount, fee_bps)
}

/// Numerator of the base currency a sell yields: `amount * sol_side`.
pub open spec fn sell_numerator(mode: PricingMode, reserve_sol: int, amount: int) -> int {
    amount * effective_sol(mode, reserve_sol)
}

/// Denominator of the base currency a sell yields: `token_side + amount`.
pub open spec fn sell_denominator(mode: PricingMode, reserve_token: int, amount: int) -> int {
    effective_token(mode, reserve_token) + amount
}

/// Tokens paid out for `amount` base currency on the given curve, before any
/// check against the reserves.
pub open spec fn buy_quote(
    mode: PricingMode,
    fee_bps: int,
    reserve_token: int,
    reserve_sol: int,
    amount: int,
) -> Result<int, CustomError> {
    if amount == 0 {
        Err(CustomError::InvalidAmount)
    } else {
        Ok(
            round_half_up(
                buy_numerator(mode, fee_bps, reserve_token, amount),
                buy_denominator(mode, fee_bps, reserve_sol, amount),
            ),
        )
    }
}

/// Base currency (fee included) paid out for `amount` tokens on the given
/// curve, before any check against the reserves.
pub open spec fn sell_quote(
    mode: PricingMode,
    reserve_token: int,
    reserve_sol: int,
    amount: int,
) -> Result<int, CustomError> {
    if amount == 0 {
        Err(CustomError::InvalidAmount)
    } else {
        Ok(
            round_half_up(
                sell_numerator(mode, reserve_sol, amount),
                sell_denominator(mode, reserve_token, amount),
            ),
        )
    }
}

/// The protocol fee on `amount` at `fee_bps` parts of `FEE_DENOMINATOR`, rounded.
pub open spec fn fee_on(amount: int, fee_bps: int) -> int {
    round_half_up(amount * fee_bps, FEE_DENOMINATOR as int)
}

/// A rounded quotient never exceeds an integer bound on the exact quotient.
pub proof fn lemma_round_half_up_le(n: int, d: int, k: int)
    requires
        n >= 0,
        d > 0,
        n <= k * d,
    ensures
        round_half_up(n, d) <= k,
{
    let q = (2 * n + d) / (2 * d);
    let r = (2 * n + d) % (2 * d);
    vstd::arithmetic::div_mod::lemma_fundamental_div_mod(2 * n + d, 2 * d);
    vstd::arithmetic::div_mod::lemma_mod_bound(2 * n + d, 2 * d);
    assert(q <= k) by (nonlinear_arith)
        requires
            2 * n + d == 2 * d * q + r,
            0 <= r,
            n <= k * d,
            d > 0,
    ;
}

/// A rounded quotient of non-negative values is non-negative.
pub proof fn lemma_round_half_up_nonneg(n: int, d: int)
    requires
        n >= 0,
        d > 0,
    ensures
        round_half_up(n, d) >= 0,
{
    vstd::arithmetic::div_mod::lemma_div_pos_is_pos(2 * n + d, 2 * d);
}

/// The fee on `amount`, rounded; never more than `amount`.
pub fn fee_of(amount: u64, fee_bps: u64) -> (r: u64)
    requires
        fee_bps < FEE_DENOMINATOR,
    ensures
        r == fee_on(amount as int, fee_bps as int),
        r <= amount,
{
    assert(amount * fee_bps <= amount * FEE_DENOMINATOR) by (nonlinear_arith)
        requires
            fee_bps < FEE_DENOMINATOR,
    ;
    let n: u128 = (amount as u128) * (fee_bps as u128);
    proof {
        assert(n <= amount * FEE_DENOMINATOR) by (nonlinear_arith)
            requires
                n == amount * fee_bps,
                fee_bps < FEE_DENOMINATOR,
                amount >= 0,
        ;
        lemma_round_half_up_le(n as int, FEE_DENOMINATOR as int, amount as int);
        lemma_round_half_up_nonneg(n as int, FEE_DENOMINATOR as int);
    }
    let r = round_div(n, FEE_DENOMINATOR as u128);
    r as u64
}

/// `k * v / d` rounded half away from zero, where the product `k * v` may
/// need more than 128 bits. The product is divided in two 32-bit steps of `v`,
/// carrying the remainder, so no intermediate value leaves `u128`.
pub fn mul_div_round(k: u128, v: u128, d: u128) -> (r: u128)
    requires
        0 < k <= d,
        d < 0x8000_0000_0000_0000_0000_0000,
        v < 0x2_0000_0000_0000_0000,
    ensures
        r == round_half_up(k * v, d as int),
        r <= v,
{
    let base: u128 = 0x1_0000_0000;
    let v_hi = v / base;
    let v_lo = v % base;
    assert(v_hi < 0x2_0000_0000);
    assert(k * v_hi < 0x8000_0000_0000_0000_0000_0000 * 0x2_0000_0000) by (nonlinear_arith)
        requires
            k < 0x8000_0000_0000_0000_0000_0000,
            v_hi < 0x2_0000_0000,
    ;
    assert(k * v_lo < 0x8000_0000_0000_0000_0000_0000 * 0x1_0000_0000) by (nonlinear_arith)
        requires
            k < 0x8000_0000_0000_0000_0000_0000,
            v_lo < 0x1_0000_0000,
    ;
    let hi = k * v_hi;
    let q1 = hi / d;
    let r1 = hi % d;
    assert(r1 * base < 0x8000_0000_0000_0000_0000_0000 * 0x1_0000_0000) by (nonlinear_arith)
        requires
            r1 < d,
            d < 0x8000_0000_0000_0000_0000_0000,
            base == 0x1_0000_0000,
    ;
    let lo = r1 * base + k * v_lo;
    let q2 = lo / d;
    let r2 = lo % d;
    proof {
        vstd::arithmetic::div_mod::lemma_fundamental_div_mod(hi as int, d as int);
        vstd::arithmetic::div_mod::lemma_fundamental_div_mod(lo as int, d as int);
        vstd::arithmetic::div_mod::lemma_mod_bound(lo as int, d as int);
        assert(k * v == (q1 * base + q2) * d + r2) by (nonlinear_arith)
            requires
                v == v_hi * base + v_lo,
                hi == k * v_hi,
                hi == d * q1 + r1,
                lo == r1 * base + k * v_lo,
                lo == d * q2 + r2,
        ;
        assert(q1 * base + q2 <= v) by (nonlinear_arith)
            requires
                k * v == (q1 * base + q2) * d + r2,
                0 <= r2,
                0 < k <= d,
                q1 >= 0,
                q2 >= 0,
        ;
        vstd::arithmetic::div_mod::lemma_fundamental_div_mod_converse(
            k * v,
            d as int,
            q1 * base + q2,
            r2 as int,
        );
        lemma_round_half_up_split(k * v, d as int);
        assert(k * v >= 0) by (nonlinear_arith)
            requires
                k > 0,
                v >= 0,
        ;
        assert(k * v <= v * d) by (nonlinear_arith)
            requires
                0 < k <= d,
                v >= 0,
        ;
        lemma_round_half_up_le(k * v, d as int, v as int);
    }
    let q = q1 * base + q2;
    if r2 >= d - r2 {
        q + 1
    } else {
        q
    }
}

/// Tokens paid out for `amount` base currency on the curve `mode`, computed
/// exactly and rounded once. Does not compare the result with the reserve.
pub fn quote_buy(
    mode: PricingMode,
    fee_bps: u64,
    reserve_token: u64,
    reserve_sol: u64,
    amount: u64,
) -> (r: Result<u128, CustomError>)
    requires
        fee_bps < FEE_DENOMINATOR,
    ensures
        match r {
            Ok(v) => buy_quote(mode, fee_bps as int, reserve_token as int, reserve_sol as int, amount as int) == Ok::<int, CustomError>(v as int),
            Err(e) => buy_quote(mode, fee_bps as int, reserve_token as int, reserve_sol as int, amount as int) == Err::<int, CustomError>(e),
        },
{
    if amount == 0 {
        return Err(CustomError::InvalidAmount);
    }
    assert(amount * (FEE_DENOMINATOR - fee_bps) <= amount * FEE_DENOMINATOR) by (nonlinear_arith)
        requires
            fee_bps < FEE_DENOMINATOR,
    ;
    let kept: u128 = (amount as u128) * ((FEE_DENOMINATOR - fee_bps) as u128);
    proof {
        assert(0 < kept <= amount * FEE_DENOMINATOR) by (nonlinear_arith)
            requires
                kept == amount * (FEE_DENOMINATOR - fee_bps),
                fee_bps < FEE_DENOMINATOR,
                amount > 0,
        ;
    }
    let (token_side, sol_side) = match mode {
        PricingMode::Simple => (reserve_token as u128, reserve_sol as u128),
        PricingMode::Virtual => (
            reserve_token as u128 + V_TOKEN_AMOUNT as u128,
            reserve_sol as u128 + V_SOL_AMOUNT as u128,
        ),
    };
    let den = sol_side * (FEE_DENOMINATOR as u128) + kept;
    Ok(mul_div_round(kept, token_side, den))
}

/// Base currency (fee included) paid out for `amount` tokens on the curve
/// `mode`, computed exactly and rounded once. Does not compare the result
/// with the reserve.
pub fn quote_sell(
    mode: PricingMode,
    reserve_token: u64,
    reserve_sol: u64,
    amount: u64,
) -> (r: Result<u128, CustomError>)
    ensures
        match r {
            Ok(v) => sell_quote(mode, reserve_token as int, reserve_sol as int, amount as int) == Ok::<int, CustomError>(v as int),
            Err(e) => sell_quote(mode, reserve_token as int, reserve_sol as int, amount as int) == Err::<int, CustomError>(e),
        },
{
    if amount == 0 {
        return Err(CustomError::InvalidAmount);
    }
    let (token_side, sol_side) = match mode {
        PricingMode::Simple => (reserve_token as u128, reserve_sol as u128),
        PricingMode::Virtual => (
            reserve_token as u128 + V_TOKEN_AMOUNT as u128,
            reserve_sol as u128 + V_SOL_AMOUNT as u128,
        ),
    };
    let den = token_side + amount as u128;
    Ok(mul_div_round(amount as u128, sol_side, den))
}

} // verus!
