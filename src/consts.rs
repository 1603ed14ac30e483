use vstd::prelude::*;

verus! {

/// Lamports per whole token at the curve's initial price.
pub const INITIAL_PRICE_DIVIDER: u64 = 800_000;

/// Share of the supply, in basis points (80%), that may be sold on the curve.
pub const TOKEN_SELL_LIMIT_PERCENT: u64 = 8000;

/// Proportion constant of the linear curve: 800M tokens sell for 500 whole
/// units of base currency, so 500 * 2 / 800 = 1.25, 800 / 1.25 = 640, and
/// 640 * 2 = 1280.
pub const PROPORTION: u64 = 1280;

/// Base currency moved into a fresh pool's vault when it is first seeded.
pub const INITIAL_LAMPORTS_FOR_POOL: u64 = 10_000_000;

/// Fixed-point scale between whole units and the smallest accounting unit.
pub const ONE_BILLION: u64 = 1_000_000_000;

/// Virtual base-currency offset (30 whole units) added to the real reserve in
/// virtual-AMM mode, in smallest units.
pub const V_SOL_AMOUNT: u64 = 30_000_000_000;

/// Virtual token offset (279,900,000 whole tokens) added to the real reserve
/// in virtual-AMM mode, in smallest units.
pub const V_TOKEN_AMOUNT: u64 = 279_900_000_000_000_000;

/// Token reserves at or above this size are priced on the virtual curve.
pub const VIRTUAL_MODE_THRESHOLD: u64 = 1_000_000_000_000_000;

/// Fee rates are expressed in parts of this denominator (basis points).
pub const FEE_DENOMINATOR: u64 = 10_000;

/// The fixed accounting supply stamped on a pool when liquidity is added.
pub const POOL_TOTAL_SUPPLY: u64 = 1_000_000_000_000_000_000;

/// A pool may be migrated to an external AMM venue only with a base-currency
/// reserve above this amount.
pub const MIN_MIGRATION_SOL: u64 = 80_000_000_000;

} // verus!
