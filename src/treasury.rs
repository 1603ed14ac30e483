use vstd::prelude::*;

use crate::errors::CustomError;
use crate::state::{CurveConfiguration, Identity, LiquidityPool};
use crate::trading::{buy_outcome, sell_outcome};

verus! {

/// The result of a withdrawal of the accrued fees by `caller` from a
/// treasury account holding `treasury_balance`: the new configuration and the
/// amount paid to the administrator, or the reason for refusal.
pub open spec fn withdraw_outcome(
    config: CurveConfiguration,
    caller: Identity,
    treasury_balance: u64,
) -> Result<(CurveConfiguration, u64), CustomError> {
    if caller.bytes@ != config.admin.bytes@ {
        Err(CustomError::Unauthorized)
    } else if treasury_balance < config.shares {
        Err(CustomError::InsufficientFunds)
    } else {
        Ok((CurveConfiguration { shares: 0, ..config }, config.shares))
    }
}

/// Pays the accrued fees out to the administrator and resets the counter.
/// Only the administrator may withdraw, and only while the treasury account
/// holds at least the accrued amount; on refusal nothing changes.
pub fn withdraw(config: &mut CurveConfiguration, caller: &Identity, treasury_balance: u64) -> (r:
    Result<u64, CustomError>)
    ensures
        match withdraw_outcome(*old(config), *caller, treasury_balance) {
            Ok((c, paid)) => r == Ok::<u64, CustomError>(paid) && *final(config) == c,
            Err(e) => r == Err::<u64, CustomError>(e) && *final(config) == *old(config),
        },
{
    if !caller.same_as(&config.admin) {
        return Err(CustomError::Unauthorized);
    }
    let amount = config.shares;
    if treasury_balance < amount {
        return Err(CustomError::InsufficientFunds);
    }
    config.shares = 0;
    Ok(amount)
}

/// One trade against a pool, by its input amount.
#[derive(Clone, Copy, Debug, PartialEq, Eq)]
pub enum Trade {
    /// Spend this much base currency on tokens.
    Buy(u64),
    /// Sell this many tokens for base currency.
    Sell(u64),
}

/// The new pool, the new configuration and the fee of one trade, or the
/// reason for refusal.
pub open spec fn trade_outcome(pool: LiquidityPool, config: CurveConfiguration, trade: Trade) -> Result<
    (LiquidityPool, CurveConfiguration, u64),
    CustomError,
> {
    match trade {
        Trade::Buy(amount) => match buy_outcome(pool, config, amount) {
            Ok((p, c, receipt)) => Ok((p, c, receipt.fee)),
            Err(e) => Err(e),
        },
        Trade::Sell(amount) => match sell_outcome(pool, config, amount) {
            Ok((p, c, receipt)) => Ok((p, c, receipt.fee)),
            Err(e) => Err(e),
        },
    }
}

/// The pool and configuration after trying each trade in turn, and the sum of
/// the fees of the trades that were committed. A refused trade changes nothing.
pub open spec fn run_trades(pool: LiquidityPool, config: CurveConfiguration, trades: Seq<Trade>) -> (
    LiquidityPool,
    CurveConfiguration,
    int,
)
    decreases trades.len(),
{
    if trades.len() == 0 {
        (pool, config, 0)
    } else {
        let (p, c, fees) = run_trades(pool, config, trades.drop_last());
        match trade_outcome(p, c, trades.last()) {
            Ok((p2, c2, fee)) => (p2, c2, fees + fee),
            Err(_) => (p, c, fees),
        }
    }
}

/// Trades touch the configuration only by adding their fees to the accrued
/// counter.
pub proof fn lemma_trades_accrue_their_fees(
    pool: LiquidityPool,
    config: CurveConfiguration,
    trades: Seq<Trade>,
)
    requires
        config.wf(),
    ensures
        ({
            let (p, c, fees) = run_trades(pool, config, trades);
            &&& fees >= 0
            &&& c.shares == config.shares + fees
            &&& c == (CurveConfiguration { shares: c.shares, ..config })
        }),
    decreases trades.len(),
{
    if trades.len() > 0 {
        lemma_trades_accrue_their_fees(pool, config, trades.drop_last());
    }
}

/// What a withdrawal pays is exactly the sum of the fees of the trades
/// committed since the previous withdrawal; each withdrawal resets the
/// counter to zero, and the administrator's next withdrawal succeeds whenever
/// the treasury holds that sum.
pub proof fn lemma_withdraw_pays_fees_since_last(
    config: CurveConfiguration,
    admin: Identity,
    balance_before: u64,
    pool: LiquidityPool,
    trades: Seq<Trade>,
    balance_after: u64,
)
    requires
        config.wf(),
        withdraw_outcome(config, admin, balance_before) is Ok,
    ensures
        ({
            let (reset, paid) = withdraw_outcome(config, admin, balance_before)->Ok_0;
            let (p, c, fees) = run_trades(pool, reset, trades);
            &&& paid == config.shares
            &&& reset.shares == 0
            &&& c.shares == fees
            &&& (balance_after >= fees ==> withdraw_outcome(c, admin, balance_after) == Ok::<
                (CurveConfiguration, u64),
                CustomError,
            >((CurveConfiguration { shares: 0, ..c }, fees as u64)))
            &&& (balance_after < fees ==> withdraw_outcome(c, admin, balance_after) == Err::<
                (CurveConfiguration, u64),
                CustomError,
            >(CustomError::InsufficientFunds))
        }),
{
    let (reset, paid) = withdraw_outcome(config, admin, balance_before)->Ok_0;
    lemma_trades_accrue_their_fees(pool, reset, trades);
}

/// A withdrawal by anyone but the administrator is refused and changes nothing.
pub proof fn lemma_withdraw_by_stranger_is_refused(
    config: CurveConfiguration,
    caller: Identity,
    balance: u64,
)
    requires
        caller.bytes@ != config.admin.bytes@,
    ensures
        withdraw_outcome(config, caller, balance) == Err::<(CurveConfiguration, u64), CustomError>(
            CustomError::Unauthorized,
        ),
{
}

} // verus!
