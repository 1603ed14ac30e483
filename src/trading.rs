use vstd::prelude::*;

use crate::errors::CustomError;
use crate::pricing::{
    buy_denominator, buy_numerator, buy_quote, effective_sol, effective_token, fee_of, fee_on,
    kept_after_fee, lemma_round_half_up_le, lemma_round_half_up_nonneg, mode_of, pricing_mode,
    quote_buy, quote_sell, sell_denominator, sell_numerator, sell_quote, PricingMode,
};
use crate::consts::FEE_DENOMINATOR;
use crate::state::{CurveConfiguration, LiquidityPool};

verus! {

/// What a buy moves once it is committed.
#[derive(Clone, Copy, Debug, PartialEq, Eq)]
pub struct BuyReceipt {
    /// Tokens moved from the pool to the buyer.
    pub tokens_out: u64,
    /// Base currency moved from the buyer to the treasury.
    pub fee: u64,
    /// Base currency moved from the buyer to the pool's vault.
    pub sol_to_vault: u64,
}

/// What a sell moves once it is committed.
#[derive(Clone, Copy, Debug, PartialEq, Eq)]
pub struct SellReceipt {
    /// Base currency taken off the pool's reserve, fee included.
    pub sol_out: u64,
    /// Base currency moved from the pool's vault to the treasury.
    pub fee: u64,
    /// Base currency moved from the pool's vault to the seller.
    pub sol_to_seller: u64,
}

/// The result of buying with `amount` base currency: the new pool, the new
/// configuration and the receipt, or the reason for refusal.
///
/// The whole `amount` is added to the base-currency reserve; the fee is
/// carved out of what reaches the vault and credited to the treasury.
pub open spec fn buy_outcome(pool: LiquidityPool, config: CurveConfiguration, amount: u64) -> Result<
    (LiquidityPool, CurveConfiguration, BuyReceipt),
    CustomError,
> {
    buy_outcome_on(mode_of(pool.reserve_token as int), pool, config, amount)
}

/// `buy_outcome` with the curve given rather than selected.
pub open spec fn buy_outcome_on(
    mode: PricingMode,
    pool: LiquidityPool,
    config: CurveConfiguration,
    amount: u64,
) -> Result<(LiquidityPool, CurveConfiguration, BuyReceipt), CustomError> {
    match buy_quote(
        mode,
        config.fees as int,
        pool.reserve_token as int,
        pool.reserve_sol as int,
        amount as int,
    ) {
        Err(e) => Err(e),
        Ok(out) => {
            let fee = fee_on(amount as int, config.fees as int);
            if out > pool.reserve_token {
                Err(CustomError::InsufficientReserve)
            } else if pool.reserve_sol + amount > u64::MAX {
                Err(CustomError::ArithmeticOverflow)
            } else if config.shares + fee > u64::MAX {
                Err(CustomError::ArithmeticOverflow)
            } else {
                Ok(
                    (
                        LiquidityPool {
                            reserve_token: (pool.reserve_token - out) as u64,
                            reserve_sol: (pool.reserve_sol + amount) as u64,
                            ..pool
                        },
                        CurveConfiguration { shares: (config.shares + fee) as u64, ..config },
                        BuyReceipt {
                            tokens_out: out as u64,
                            fee: fee as u64,
                            sol_to_vault: (amount - fee) as u64,
                        },
                    ),
                )
            }
        },
    }
}

/// The result of selling `amount` tokens: the new pool, the new
/// configuration and the receipt, or the reason for refusal.
///
/// The fee is taken from the base currency paid out, not from the tokens.
pub open spec fn sell_outcome(pool: LiquidityPool, config: CurveConfiguration, amount: u64) -> Result<
    (LiquidityPool, CurveConfiguration, SellReceipt),
    CustomError,
> {
    sell_outcome_on(mode_of(pool.reserve_token as int), pool, config, amount)
}

/// `sell_outcome` with the curve given rather than selected.
pub open spec fn sell_outcome_on(
    mode: PricingMode,
    pool: LiquidityPool,
    config: CurveConfiguration,
    amount: u64,
) -> Result<(LiquidityPool, CurveConfiguration, SellReceipt), CustomError> {
    if amount == 0 {
        Err(CustomError::InvalidAmount)
    } else if pool.reserve_token < amount {
        Err(CustomError::InsufficientReserve)
    } else {
        match sell_quote(mode, pool.reserve_token as int, pool.reserve_sol as int, amount as int) {
            Err(e) => Err(e),
            Ok(out) => {
                let fee = fee_on(out, config.fees as int);
                if out > pool.reserve_sol {
                    Err(CustomError::InsufficientReserve)
                } else if pool.reserve_token + amount > u64::MAX {
                    Err(CustomError::ArithmeticOverflow)
                } else if config.shares + fee > u64::MAX {
                    Err(CustomError::ArithmeticOverflow)
                } else {
                    Ok(
                        (
                            LiquidityPool {
                                reserve_token: (pool.reserve_token + amount) as u64,
                                reserve_sol: (pool.reserve_sol - out) as u64,
                                ..pool
                            },
                            CurveConfiguration { shares: (config.shares + fee) as u64, ..config },
                            SellReceipt {
                                sol_out: out as u64,
                                fee: fee as u64,
                                sol_to_seller: (out - fee) as u64,
                            },
                        ),
                    )
                }
            },
        }
    }
}

impl LiquidityPool {
    /// Buys tokens with `amount` base currency, priced on the curve that the
    /// current token reserve selects. On refusal nothing changes.
    pub fn buy(&mut self, config: &mut CurveConfiguration, amount: u64) -> (r: Result<
        BuyReceipt,
        CustomError,
    >)
        requires
            old(config).wf(),
        ensures
            match buy_outcome(*old(self), *old(config), amount) {
                Ok((p, c, receipt)) => r == Ok::<BuyReceipt, CustomError>(receipt) && *final(self)
                    == p && *final(config) == c,
                Err(e) => r == Err::<BuyReceipt, CustomError>(e) && *final(self) == *old(self)
                    && *final(config) == *old(config),
            },
    {
        let mode = pricing_mode(self.reserve_token);
        let out = quote_buy(mode, config.fees, self.reserve_token, self.reserve_sol, amount)?;
        let fee = fee_of(amount, config.fees);
        if out > self.reserve_token as u128 {
            return Err(CustomError::InsufficientReserve);
        }
        let new_sol = match self.reserve_sol.checked_add(amount) {
            Some(v) => v,
            None => {
                return Err(CustomError::ArithmeticOverflow);
            },
        };
        let new_shares = match config.shares.checked_add(fee) {
            Some(v) => v,
            None => {
                return Err(CustomError::ArithmeticOverflow);
            },
        };
        let tokens_out = out as u64;
        let new_token = self.reserve_token - tokens_out;
        self.update_reserves(new_token, new_sol);
        config.shares = new_shares;
        Ok(BuyReceipt { tokens_out, fee, sol_to_vault: amount - fee })
    }

    /// Sells `amount` tokens for base currency, priced on the curve that the
    /// current token reserve selects. On refusal nothing changes.
    pub fn sell(&mut self, config: &mut CurveConfiguration, amount: u64) -> (r: Result<
        SellReceipt,
        CustomError,
    >)
        requires
            old(config).wf(),
        ensures
            match sell_outcome(*old(self), *old(config), amount) {
                Ok((p, c, receipt)) => r == Ok::<SellReceipt, CustomError>(receipt) && *final(self)
                    == p && *final(config) == c,
                Err(e) => r == Err::<SellReceipt, CustomError>(e) && *final(self) == *old(self)
                    && *final(config) == *old(config),
            },
    {
        if amount == 0 {
            return Err(CustomError::InvalidAmount);
        }
        if self.reserve_token < amount {
            return Err(CustomError::InsufficientReserve);
        }
        let mode = pricing_mode(self.reserve_token);
        let out = quote_sell(mode, self.reserve_token, self.reserve_sol, amount)?;
        if out > self.reserve_sol as u128 {
            return Err(CustomError::InsufficientReserve);
        }
        let sol_out = out as u64;
        let fee = fee_of(sol_out, config.fees);
        let new_token = match self.reserve_token.checked_add(amount) {
            Some(v) => v,
            None => {
                return Err(CustomError::ArithmeticOverflow);
            },
        };
        let new_shares = match config.shares.checked_add(fee) {
            Some(v) => v,
            None => {
                return Err(CustomError::ArithmeticOverflow);
            },
        };
        self.update_reserves(new_token, self.reserve_sol - sol_out);
        config.shares = new_shares;
        Ok(SellReceipt { sol_out, fee, sol_to_seller: sol_out - fee })
    }
}

/// Commits a staged trade once custody has reported on the asset movements
/// of its receipt: if custody moved them, the staged pool and configuration
/// replace the current ones; if it refused, both stay as they were.
pub fn settle(
    pool: &mut LiquidityPool,
    config: &mut CurveConfiguration,
    staged_pool: LiquidityPool,
    staged_config: CurveConfiguration,
    custody_moved: bool,
) -> (r: Result<(), CustomError>)
    ensures
        custody_moved ==> r == Ok::<(), CustomError>(()) && *final(pool) == staged_pool
            && *final(config) == staged_config,
        !custody_moved ==> r == Err::<(), CustomError>(CustomError::CustodyFailure) && *final(pool)
            == *old(pool) && *final(config) == *old(config),
{
    if !custody_moved {
        return Err(CustomError::CustodyFailure);
    }
    *pool = staged_pool;
    *config = staged_config;
    Ok(())
}

/// A trade of zero units is refused as an invalid amount, both ways.
pub proof fn lemma_zero_amount_is_invalid(pool: LiquidityPool, config: CurveConfiguration)
    ensures
        buy_outcome(pool, config, 0) == Err::<(LiquidityPool, CurveConfiguration, BuyReceipt), CustomError>(
            CustomError::InvalidAmount,
        ),
        sell_outcome(pool, config, 0) == Err::<(LiquidityPool, CurveConfiguration, SellReceipt), CustomError>(
            CustomError::InvalidAmount,
        ),
{
}

/// A committed trade never takes from a reserve more than it holds: the
/// reserves afterwards are the old ones moved by exactly the traded amounts,
/// and both stay non-negative.
pub proof fn lemma_trades_keep_reserves_non_negative(
    pool: LiquidityPool,
    config: CurveConfiguration,
    amount: u64,
)
    requires
        config.wf(),
    ensures
        buy_outcome(pool, config, amount) is Ok ==> {
            let (p, c, receipt) = buy_outcome(pool, config, amount)->Ok_0;
            &&& receipt.tokens_out <= pool.reserve_token
            &&& p.reserve_token == pool.reserve_token - receipt.tokens_out
            &&& p.reserve_sol == pool.reserve_sol + amount
            &&& p.reserve_token >= 0 && p.reserve_sol >= 0
        },
        sell_outcome(pool, config, amount) is Ok ==> {
            let (p, c, receipt) = sell_outcome(pool, config, amount)->Ok_0;
            &&& receipt.sol_out <= pool.reserve_sol
            &&& p.reserve_sol == pool.reserve_sol - receipt.sol_out
            &&& p.reserve_token == pool.reserve_token + amount
            &&& p.reserve_token >= 0 && p.reserve_sol >= 0
        },
{
    let mode = mode_of(pool.reserve_token as int);
    let f = config.fees as int;
    if amount > 0 {
        let kept = kept_after_fee(amount as int, f);
        assert(kept > 0) by (nonlinear_arith)
            requires
                kept == amount * (FEE_DENOMINATOR - f),
                amount > 0,
                f < FEE_DENOMINATOR,
        ;
        let bn = buy_numerator(mode, f, pool.reserve_token as int, amount as int);
        assert(bn >= 0) by (nonlinear_arith)
            requires
                bn == kept * effective_token(mode, pool.reserve_token as int),
                kept > 0,
                effective_token(mode, pool.reserve_token as int) >= 0,
        ;
        lemma_round_half_up_nonneg(bn, buy_denominator(mode, f, pool.reserve_sol as int, amount as int));
        let sn = sell_numerator(mode, pool.reserve_sol as int, amount as int);
        assert(sn >= 0) by (nonlinear_arith)
            requires
                sn == amount * effective_sol(mode, pool.reserve_sol as int),
                amount > 0,
                effective_sol(mode, pool.reserve_sol as int) >= 0,
        ;
        lemma_round_half_up_nonneg(sn, sell_denominator(mode, pool.reserve_token as int, amount as int));
    }
}

/// Each trade is priced on the curve that the token reserve selects at the
/// moment of that trade: after a buy has moved the reserve across the
/// threshold, the very next trade uses the other curve, and the earlier trade
/// keeps the curve it had.
pub proof fn lemma_mode_follows_current_reserve(
    pool: LiquidityPool,
    config: CurveConfiguration,
    first: u64,
    second: u64,
)
    requires
        config.wf(),
        buy_outcome(pool, config, first) is Ok,
    ensures
        buy_outcome(pool, config, first) == buy_outcome_on(
            mode_of(pool.reserve_token as int),
            pool,
            config,
            first,
        ),
        ({
            let (p, c, receipt) = buy_outcome(pool, config, first)->Ok_0;
            &&& buy_outcome(p, c, second) == buy_outcome_on(mode_of(p.reserve_token as int), p, c, second)
            &&& sell_outcome(p, c, second) == sell_outcome_on(mode_of(p.reserve_token as int), p, c, second)
        }),
{
}

/// The rounded fee on `amount` lies between zero and `amount`.
pub proof fn lemma_fee_on_bounded(amount: int, fee_bps: int)
    requires
        amount >= 0,
        0 <= fee_bps < FEE_DENOMINATOR,
    ensures
        0 <= fee_on(amount, fee_bps) <= amount,
{
    assert(0 <= amount * fee_bps <= amount * FEE_DENOMINATOR) by (nonlinear_arith)
        requires
            amount >= 0,
            0 <= fee_bps < FEE_DENOMINATOR,
    ;
    lemma_round_half_up_le(amount * fee_bps, FEE_DENOMINATOR as int, amount);
    lemma_round_half_up_nonneg(amount * fee_bps, FEE_DENOMINATOR as int);
}

/// A buy's result is decided by the two reserves and the fee rate alone, on
/// the curve that the token reserve selects: two pools with equal reserves and
/// configurations with equal rates give the same refusal, or the same receipt
/// and the same new reserves, whatever their identities, supplies or history.
/// This needs each accrued-fee counter to have room for the whole `amount`;
/// a counter at `u64::MAX` refuses any buy that pays a fee.
pub proof fn lemma_buy_depends_on_reserves_and_rate(
    p1: LiquidityPool,
    c1: CurveConfiguration,
    p2: LiquidityPool,
    c2: CurveConfiguration,
    amount: u64,
)
    requires
        c1.wf(),
        c2.wf(),
        p1.reserve_token == p2.reserve_token,
        p1.reserve_sol == p2.reserve_sol,
        c1.fees == c2.fees,
        c1.shares + amount <= u64::MAX,
        c2.shares + amount <= u64::MAX,
    ensures
        match (buy_outcome(p1, c1, amount), buy_outcome(p2, c2, amount)) {
            (Ok((q1, d1, r1)), Ok((q2, d2, r2))) => r1 == r2 && q1.reserve_token == q2.reserve_token
                && q1.reserve_sol == q2.reserve_sol,
            (Err(e1), Err(e2)) => e1 == e2,
            _ => false,
        },
{
    lemma_fee_on_bounded(amount as int, c1.fees as int);
}

/// A sell's result is decided by the two reserves and the fee rate alone, on
/// the curve that the token reserve selects: two pools with equal reserves and
/// configurations with equal rates give the same refusal, or the same receipt
/// and the same new reserves. This needs each accrued-fee counter to have room
/// for the whole base-currency reserve; a counter at `u64::MAX` refuses any
/// sell that pays a fee.
pub proof fn lemma_sell_depends_on_reserves_and_rate(
    p1: LiquidityPool,
    c1: CurveConfiguration,
    p2: LiquidityPool,
    c2: CurveConfiguration,
    amount: u64,
)
    requires
        c1.wf(),
        c2.wf(),
        p1.reserve_token == p2.reserve_token,
        p1.reserve_sol == p2.reserve_sol,
        c1.fees == c2.fees,
        c1.shares + p1.reserve_sol <= u64::MAX,
        c2.shares + p2.reserve_sol <= u64::MAX,
    ensures
        match (sell_outcome(p1, c1, amount), sell_outcome(p2, c2, amount)) {
            (Ok((q1, d1, r1)), Ok((q2, d2, r2))) => r1 == r2 && q1.reserve_token == q2.reserve_token
                && q1.reserve_sol == q2.reserve_sol,
            (Err(e1), Err(e2)) => e1 == e2,
            _ => false,
        },
{
    let mode = mode_of(p1.reserve_token as int);
    if amount > 0 && p1.reserve_token >= amount {
        let q = sell_quote(mode, p1.reserve_token as int, p1.reserve_sol as int, amount as int);
        if q is Ok {
            let out = q->Ok_0;
            assert(out >= 0) by {
                let n = sell_numerator(mode, p1.reserve_sol as int, amount as int);
                assert(n >= 0) by (nonlinear_arith)
                    requires
                        n == amount * effective_sol(mode, p1.reserve_sol as int),
                        amount > 0,
                        effective_sol(mode, p1.reserve_sol as int) >= 0,
                ;
                lemma_round_half_up_nonneg(n, sell_denominator(mode, p1.reserve_token as int, amount as int));
            }
            lemma_fee_on_bounded(out, c1.fees as int);
        }
    }
}

/// No free lunch: selling back the tokens that a buy returned pays out no more
/// base currency than the buy took in, fees or no fees, on either curve.
///
/// This holds where both trades run on the same curve and the buy did not
/// round the tokens up. Otherwise it can fail: a buy that tips the pool from
/// the virtual curve to the simple one is sold back at the simple curve's
/// price, and on a pool of two tokens and two units a buy of one unit rounds
/// two thirds of a token up to one, which sells back for two units.
pub proof fn lemma_buy_then_sell_no_free_lunch(
    pool: LiquidityPool,
    config: CurveConfiguration,
    amount: u64,
)
    requires
        config.wf(),
        buy_outcome(pool, config, amount) is Ok,
        ({
            let mode = mode_of(pool.reserve_token as int);
            let (p, c, receipt) = buy_outcome(pool, config, amount)->Ok_0;
            &&& mode_of(p.reserve_token as int) == mode
            &&& receipt.tokens_out * buy_denominator(mode, config.fees as int, pool.reserve_sol as int, amount as int)
                <= buy_numerator(mode, config.fees as int, pool.reserve_token as int, amount as int)
            &&& sell_outcome(p, c, receipt.tokens_out) is Ok
        }),
    ensures
        ({
            let (p, c, bought) = buy_outcome(pool, config, amount)->Ok_0;
            let (q, d, sold) = sell_outcome(p, c, bought.tokens_out)->Ok_0;
            &&& sold.sol_to_seller <= sold.sol_out
            &&& sold.sol_out <= amount
        }),
{
    let mode = mode_of(pool.reserve_token as int);
    let f = config.fees as int;
    let (p, c, bought) = buy_outcome(pool, config, amount)->Ok_0;
    let t = bought.tokens_out as int;
    let x = amount as int;
    let s = effective_sol(mode, pool.reserve_sol as int);
    let tk = effective_token(mode, pool.reserve_token as int);
    let k = FEE_DENOMINATOR - f;
    lemma_trades_keep_reserves_non_negative(pool, config, amount);
    assert(effective_sol(mode, p.reserve_sol as int) == s + x);
    assert(sell_denominator(mode, p.reserve_token as int, t) == tk);
    assert(t * (s + x) <= x * tk) by (nonlinear_arith)
        requires
            t * (s * FEE_DENOMINATOR + x * k) <= (x * k) * tk,
            0 < k <= FEE_DENOMINATOR,
            t >= 0,
            s >= 0,
            x >= 0,
    ;
    assert(sell_numerator(mode, p.reserve_sol as int, t) == t * (s + x));
    lemma_round_half_up_le(t * (s + x), tk, x);
    let (q, d, sold) = sell_outcome(p, c, bought.tokens_out)->Ok_0;
    let out = sell_quote(mode, p.reserve_token as int, p.reserve_sol as int, t)->Ok_0;
    assert(out <= x);
    assert(out >= 0) by {
        assert(t * (s + x) >= 0) by (nonlinear_arith)
            requires
                t >= 0,
                s >= 0,
                x >= 0,
        ;
        lemma_round_half_up_nonneg(t * (s + x), tk);
    }
    assert(sold.sol_out == out);
    assert(out * f <= out * FEE_DENOMINATOR) by (nonlinear_arith)
        requires
            out >= 0,
            0 <= f < FEE_DENOMINATOR,
    ;
    assert(out * f >= 0) by (nonlinear_arith)
        requires
            out >= 0,
            0 <= f,
    ;
    lemma_round_half_up_le(out * f, FEE_DENOMINATOR as int, out);
    lemma_round_half_up_nonneg(out * f, FEE_DENOMINATOR as int);
}

} // verus!
