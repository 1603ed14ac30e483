use vstd::prelude::*;

use crate::consts::{FEE_DENOMINATOR, INITIAL_LAMPORTS_FOR_POOL, MIN_MIGRATION_SOL, POOL_TOTAL_SUPPLY};
use crate::errors::CustomError;

verus! {

/// A 32-byte account identity (a public key).
#[derive(Clone, Copy, Debug, PartialEq, Eq)]
pub struct Identity {
    pub bytes: [u8; 32],
}

impl Identity {
    /// Whether two identities hold the same bytes.
    pub fn same_as(&self, other: &Identity) -> (r: bool)
        ensures
            r == (self.bytes@ == other.bytes@),
    {
        let mut i: usize = 0;
        while i < 32
            invariant
                0 <= i <= 32,
                self.bytes@.len() == 32,
                other.bytes@.len() == 32,
                forall|j: int| 0 <= j < i ==> self.bytes@[j] == other.bytes@[j],
            decreases 32 - i,
        {
            if self.bytes[i] != other.bytes[i] {
                return false;
            }
            i += 1;
        }
        assert(self.bytes@ =~= other.bytes@);
        true
    }
}

/// Process-wide settings: the fee rate, the administrator, and the fees
/// accrued since the last withdrawal.
#[derive(Clone, Copy, Debug, PartialEq, Eq)]
pub struct CurveConfiguration {
    /// Fee rate in parts of `FEE_DENOMINATOR`.
    pub fees: u64,
    pub admin: Identity,
    /// Accrued fees, in base-currency units.
    pub shares: u64,
}

impl CurveConfiguration {
    /// The fee rate is a fraction in `[0, 1)`.
    pub open spec fn wf(&self) -> bool {
        self.fees < FEE_DENOMINATOR
    }

    pub fn new(fees: u64, admin: Identity, shares: u64) -> (r: CurveConfiguration)
        requires
            fees < FEE_DENOMINATOR,
        ensures
            r.wf(),
            r == (CurveConfiguration { fees, admin, shares }),
    {
        CurveConfiguration { fees, admin, shares }
    }

    /// Whether the stored fee rate is a fraction in `[0, 1)`.
    pub fn has_valid_fee(&self) -> (r: bool)
        ensures
            r == self.wf(),
    {
        self.fees < FEE_DENOMINATOR
    }
}

/// The configuration set up once per deployment: a fee rate of `fee_bps`
/// parts of `FEE_DENOMINATOR`, the administrator, and no accrued fees.
/// Refused unless the rate is below one.
pub fn initialize(fee_bps: u64, admin: Identity) -> (r: Result<CurveConfiguration, CustomError>)
    ensures
        fee_bps < FEE_DENOMINATOR ==> r == Ok::<CurveConfiguration, CustomError>(
            CurveConfiguration { fees: fee_bps, admin, shares: 0 },
        ),
        fee_bps >= FEE_DENOMINATOR ==> r == Err::<CurveConfiguration, CustomError>(
            CustomError::InvalidFee,
        ),
{
    if fee_bps >= FEE_DENOMINATOR {
        return Err(CustomError::InvalidFee);
    }
    Ok(CurveConfiguration::new(fee_bps, admin, 0))
}

/// A liquidity provider's share counter; stored, not used by any formula.
#[derive(Clone, Copy, Debug, PartialEq, Eq)]
pub struct LiquidityProvider {
    pub shares: u64,
}

/// The reserve ledger of one pool.
#[derive(Clone, Copy, Debug, PartialEq, Eq)]
pub struct LiquidityPool {
    pub creator: Identity,
    pub token: Identity,
    pub total_supply: u64,
    pub reserve_token: u64,
    pub reserve_sol: u64,
    /// Derivation nonce, used only by the custody layer.
    pub bump: u8,
}

/// What the one-time seeding moves into custody.
#[derive(Clone, Copy, Debug, PartialEq, Eq)]
pub struct SeedDeposit {
    /// Tokens moved from the caller into the pool's token account.
    pub tokens: u64,
    /// Base currency moved from the caller into the pool's vault.
    pub sol: u64,
}

/// What `add_liquidity` did.
#[derive(Clone, Copy, Debug, PartialEq, Eq)]
pub enum LiquidityAction {
    /// The pool already held both assets: the ledger was set to the custody balances.
    Resynced,
    /// The pool was seeded: the deposit is to be moved into custody.
    Seeded(SeedDeposit),
}

/// What a full withdrawal moves out of custody to the caller.
#[derive(Clone, Copy, Debug, PartialEq, Eq)]
pub struct LiquidityWithdrawal {
    pub tokens: u64,
    pub sol: u64,
}

/// What a migration hands to the external AMM venue.
#[derive(Clone, Copy, Debug, PartialEq, Eq)]
pub struct MigrationAmounts {
    pub sol: u64,
    pub tokens: u64,
}

impl LiquidityPool {
    /// A pool with no reserves and no supply.
    pub fn new(creator: Identity, token: Identity, bump: u8) -> (r: LiquidityPool)
        ensures
            r == (LiquidityPool {
                creator,
                token,
                total_supply: 0,
                reserve_token: 0,
                reserve_sol: 0,
                bump,
            }),
    {
        LiquidityPool { creator, token, total_supply: 0, reserve_token: 0, reserve_sol: 0, bump }
    }

    /// Overwrites both reserves.
    pub fn update_reserves(&mut self, reserve_token: u64, reserve_sol: u64)
        ensures
            *final(self) == (LiquidityPool { reserve_token, reserve_sol, ..*old(self) }),
    {
        self.reserve_token = reserve_token;
        self.reserve_sol = reserve_sol;
    }

    /// Sets the ledger to the balances that custody holds for the pool, and
    /// re-stamps the supply. Nothing is deposited.
    pub fn resync_reserves(&mut self, pool_tokens: u64, pool_sol: u64)
        ensures
            *final(self) == (LiquidityPool {
                total_supply: POOL_TOTAL_SUPPLY,
                reserve_token: pool_tokens,
                reserve_sol: pool_sol,
                ..*old(self)
            }),
    {
        self.update_reserves(pool_tokens, pool_sol);
        self.total_supply = POOL_TOTAL_SUPPLY;
    }

    /// Seeds the pool with the whole minted supply of its token and the fixed
    /// initial base-currency amount, and returns what is to be deposited.
    pub fn seed_liquidity(&mut self, mint_supply: u64) -> (r: SeedDeposit)
        ensures
            r == (SeedDeposit { tokens: mint_supply, sol: INITIAL_LAMPORTS_FOR_POOL }),
            *final(self) == (LiquidityPool {
                total_supply: POOL_TOTAL_SUPPLY,
                reserve_token: mint_supply,
                reserve_sol: INITIAL_LAMPORTS_FOR_POOL,
                ..*old(self)
            }),
    {
        self.total_supply = POOL_TOTAL_SUPPLY;
        self.update_reserves(mint_supply, INITIAL_LAMPORTS_FOR_POOL);
        SeedDeposit { tokens: mint_supply, sol: INITIAL_LAMPORTS_FOR_POOL }
    }

    /// Resynchronises a pool whose custody already holds both assets;
    /// otherwise seeds it.
    pub fn add_liquidity(&mut self, pool_tokens: u64, pool_sol: u64, mint_supply: u64) -> (r:
        LiquidityAction)
        ensures
            pool_tokens > 0 && pool_sol > 0 ==> r == LiquidityAction::Resynced && *final(self) == (
            LiquidityPool {
                total_supply: POOL_TOTAL_SUPPLY,
                reserve_token: pool_tokens,
                reserve_sol: pool_sol,
                ..*old(self)
            }),
            !(pool_tokens > 0 && pool_sol > 0) ==> r == LiquidityAction::Seeded(
                SeedDeposit { tokens: mint_supply, sol: INITIAL_LAMPORTS_FOR_POOL },
            ) && *final(self) == (LiquidityPool {
                total_supply: POOL_TOTAL_SUPPLY,
                reserve_token: mint_supply,
                reserve_sol: INITIAL_LAMPORTS_FOR_POOL,
                ..*old(self)
            }),
    {
        if pool_tokens > 0 && pool_sol > 0 {
            self.resync_reserves(pool_tokens, pool_sol);
            LiquidityAction::Resynced
        } else {
            LiquidityAction::Seeded(self.seed_liquidity(mint_supply))
        }
    }

    /// Withdraws everything: the whole token reserve and the whole balance of
    /// the base-currency vault, `vault_sol`, go to the caller, whatever the
    /// stored supply. The ledger itself is left as it is; custody is emptied.
    /// (Buy fees go to the treasury, not the vault, so the vault may hold less
    /// than `reserve_sol`.)
    pub fn remove_liquidity(&self, vault_sol: u64) -> (r: LiquidityWithdrawal)
        ensures
            r == (LiquidityWithdrawal { tokens: self.reserve_token, sol: vault_sol }),
    {
        LiquidityWithdrawal { tokens: self.reserve_token, sol: vault_sol }
    }

    /// Retires the pool to an external AMM venue: hands over both reserves and
    /// zeroes them. Refused unless the base-currency reserve exceeds
    /// `MIN_MIGRATION_SOL`.
    pub fn migrate_reserves(&mut self) -> (r: Result<MigrationAmounts, CustomError>)
        ensures
            old(self).reserve_sol <= MIN_MIGRATION_SOL ==> r == Err::<MigrationAmounts, CustomError>(
                CustomError::InsufficientReserve,
            ) && *final(self) == *old(self),
            old(self).reserve_sol > MIN_MIGRATION_SOL ==> r == Ok::<MigrationAmounts, CustomError>(
                MigrationAmounts { sol: old(self).reserve_sol, tokens: old(self).reserve_token },
            ) && *final(self) == (LiquidityPool { reserve_token: 0, reserve_sol: 0, ..*old(self) }),
    {
        if self.reserve_sol <= MIN_MIGRATION_SOL {
            return Err(CustomError::InsufficientReserve);
        }
        let amounts = MigrationAmounts { sol: self.reserve_sol, tokens: self.reserve_token };
        self.update_reserves(0, 0);
        Ok(amounts)
    }
}

} // verus!
