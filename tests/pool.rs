use pumpdotfun::consts::{FEE_DENOMINATOR, INITIAL_LAMPORTS_FOR_POOL, MIN_MIGRATION_SOL, POOL_TOTAL_SUPPLY, VIRTUAL_MODE_THRESHOLD};
use pumpdotfun::errors::CustomError;
use pumpdotfun::pricing::{quote_buy, PricingMode};
use pumpdotfun::state::{
    initialize, CurveConfiguration, Identity, LiquidityAction, LiquidityPool, LiquidityWithdrawal, MigrationAmounts,
    SeedDeposit,
};
use pumpdotfun::trading::{settle, BuyReceipt, SellReceipt};

fn id(b: u8) -> Identity {
    Identity { bytes: [b; 32] }
}

fn pool_with(reserve_token: u64, reserve_sol: u64) -> LiquidityPool {
    let mut pool = LiquidityPool::new(id(1), id(2), 254);
    pool.update_reserves(reserve_token, reserve_sol);
    pool
}

fn config() -> CurveConfiguration {
    CurveConfiguration::new(100, id(9), 0)
}

#[test]
fn initialize_accepts_rates_below_one() {
    assert_eq!(initialize(100, id(9)), Ok(CurveConfiguration { fees: 100, admin: id(9), shares: 0 }));
    assert_eq!(initialize(0, id(9)), Ok(CurveConfiguration { fees: 0, admin: id(9), shares: 0 }));
    assert_eq!(initialize(FEE_DENOMINATOR - 1, id(9)).unwrap().fees, FEE_DENOMINATOR - 1);
    assert_eq!(initialize(FEE_DENOMINATOR, id(9)), Err(CustomError::InvalidFee));
    assert_eq!(initialize(u64::MAX, id(9)), Err(CustomError::InvalidFee));
    assert!(config().has_valid_fee());
    assert!(!CurveConfiguration { fees: FEE_DENOMINATOR, admin: id(9), shares: 0 }.has_valid_fee());
}

#[test]
fn new_pool_is_empty() {
    let pool = LiquidityPool::new(id(1), id(2), 7);
    assert_eq!(pool.total_supply, 0);
    assert_eq!(pool.reserve_token, 0);
    assert_eq!(pool.reserve_sol, 0);
    assert_eq!(pool.bump, 7);
    assert_eq!(pool.creator, id(1));
    assert_eq!(pool.token, id(2));
}

#[test]
fn identities_compare_by_bytes() {
    assert!(id(3).same_as(&id(3)));
    assert!(!id(3).same_as(&id(4)));
    let mut other = [3u8; 32];
    other[31] = 0;
    assert!(!id(3).same_as(&Identity { bytes: other }));
}

#[test]
fn simple_mode_buy_example() {
    let mut pool = pool_with(500_000_000, 10_000_000);
    let mut cfg = config();
    let receipt = pool.buy(&mut cfg, 1_000_000).unwrap();
    assert_eq!(receipt, BuyReceipt { tokens_out: 45_040_946, fee: 10_000, sol_to_vault: 990_000 });
    assert_eq!(pool.reserve_sol, 11_000_000);
    assert_eq!(pool.reserve_token, 500_000_000 - 45_040_946);
    assert_eq!(cfg.shares, 10_000);
}

#[test]
fn virtual_mode_buy_moves_reserves() {
    let mut pool = pool_with(800_000_000_000_000_000, 5_000_000_000);
    let mut cfg = config();
    let receipt = pool.buy(&mut cfg, 1_000_000_000).unwrap();
    assert_eq!(receipt.tokens_out, 29_705_501_528_202_278);
    assert_eq!(receipt.fee, 10_000_000);
    assert_eq!(receipt.sol_to_vault, 990_000_000);
    assert_eq!(pool.reserve_token, 800_000_000_000_000_000 - 29_705_501_528_202_278);
    assert_eq!(pool.reserve_sol, 6_000_000_000);
}

#[test]
fn simple_mode_sell_deducts_fee_from_payout() {
    let mut pool = pool_with(500_000_000, 10_000_000);
    let mut cfg = config();
    let receipt = pool.sell(&mut cfg, 50_000_000).unwrap();
    assert_eq!(receipt, SellReceipt { sol_out: 909_091, fee: 9_091, sol_to_seller: 900_000 });
    assert_eq!(pool.reserve_token, 550_000_000);
    assert_eq!(pool.reserve_sol, 10_000_000 - 909_091);
    assert_eq!(cfg.shares, 9_091);
}

#[test]
fn virtual_mode_sell_example() {
    let mut pool = pool_with(2_000_000_000_000_000, 50_000_000_000);
    let mut cfg = config();
    let receipt = pool.sell(&mut cfg, 1_000_000_000_000).unwrap();
    assert_eq!(receipt, SellReceipt { sol_out: 283_788, fee: 2_838, sol_to_seller: 280_950 });
    assert_eq!(pool.reserve_token, 2_000_000_000_000_000 + 1_000_000_000_000);
}

#[test]
fn zero_amount_trades_are_invalid_and_change_nothing() {
    let mut pool = pool_with(500_000_000, 10_000_000);
    let mut cfg = config();
    let before = (pool, cfg);
    assert_eq!(pool.buy(&mut cfg, 0), Err(CustomError::InvalidAmount));
    assert_eq!((pool, cfg), before);
    assert_eq!(pool.sell(&mut cfg, 0), Err(CustomError::InvalidAmount));
    assert_eq!((pool, cfg), before);
    let mut big = pool_with(VIRTUAL_MODE_THRESHOLD, 0);
    assert_eq!(big.buy(&mut cfg, 0), Err(CustomError::InvalidAmount));
    assert_eq!(big.sell(&mut cfg, 0), Err(CustomError::InvalidAmount));
}

#[test]
fn buy_beyond_token_reserve_is_refused() {
    let mut pool = pool_with(VIRTUAL_MODE_THRESHOLD, 0);
    let mut cfg = config();
    let before = (pool, cfg);
    assert_eq!(pool.buy(&mut cfg, 10_000_000_000_000_000), Err(CustomError::InsufficientReserve));
    assert_eq!((pool, cfg), before);
}

#[test]
fn huge_virtual_buy_is_refused_for_reserve_not_overflow() {
    let mut pool = pool_with(VIRTUAL_MODE_THRESHOLD, 0);
    let mut cfg = CurveConfiguration::new(0, id(9), 0);
    assert_eq!(pool.buy(&mut cfg, u64::MAX), Err(CustomError::InsufficientReserve));
    assert_eq!(pool, pool_with(VIRTUAL_MODE_THRESHOLD, 0));
    assert_eq!(cfg.shares, 0);
}

#[test]
fn huge_virtual_buy_on_deep_pool_succeeds() {
    let mut pool = pool_with(u64::MAX, u64::MAX - 1_000_000_000_000_000_000);
    let mut cfg = config();
    let receipt = pool.buy(&mut cfg, 1_000_000_000_000_000_000).unwrap();
    assert_eq!(receipt.tokens_out, 1_005_566_792_525_056_210);
    assert_eq!(receipt.fee, 10_000_000_000_000_000);
    assert_eq!(pool.reserve_sol, u64::MAX);
    assert_eq!(pool.reserve_token, u64::MAX - 1_005_566_792_525_056_210);
}

#[test]
fn equal_reserves_and_rate_give_equal_trades() {
    let mut a = pool_with(500_000_000, 10_000_000);
    let mut b = LiquidityPool::new(id(5), id(6), 1);
    b.update_reserves(500_000_000, 10_000_000);
    b.total_supply = POOL_TOTAL_SUPPLY;
    let mut ca = config();
    let mut cb = CurveConfiguration::new(100, id(4), 123_456);
    assert_eq!(a.sell(&mut ca, 7_000_000), b.sell(&mut cb, 7_000_000));
    assert_eq!((a.reserve_token, a.reserve_sol), (b.reserve_token, b.reserve_sol));
    assert_eq!(a.buy(&mut ca, 2_000_000), b.buy(&mut cb, 2_000_000));
    assert_eq!((a.reserve_token, a.reserve_sol), (b.reserve_token, b.reserve_sol));
    assert_eq!(a.sell(&mut ca, u64::MAX), b.sell(&mut cb, u64::MAX));
}

#[test]
fn sell_beyond_token_reserve_is_refused() {
    let mut pool = pool_with(100, 1_000);
    let mut cfg = config();
    assert_eq!(pool.sell(&mut cfg, 101), Err(CustomError::InsufficientReserve));
    assert_eq!(pool, pool_with(100, 1_000));
}

#[test]
fn sell_beyond_sol_reserve_is_refused() {
    let mut pool = pool_with(VIRTUAL_MODE_THRESHOLD, 0);
    let mut cfg = config();
    assert_eq!(pool.sell(&mut cfg, VIRTUAL_MODE_THRESHOLD), Err(CustomError::InsufficientReserve));
    assert_eq!(pool, pool_with(VIRTUAL_MODE_THRESHOLD, 0));
    assert_eq!(cfg.shares, 0);
}

#[test]
fn sell_overflowing_token_reserve_is_refused() {
    let mut pool = pool_with(u64::MAX, u64::MAX);
    let mut cfg = config();
    assert_eq!(pool.sell(&mut cfg, u64::MAX), Err(CustomError::ArithmeticOverflow));
    assert_eq!(pool, pool_with(u64::MAX, u64::MAX));
}

#[test]
fn buy_overflowing_sol_reserve_is_refused() {
    let mut pool = pool_with(100, u64::MAX - 5);
    let mut cfg = config();
    assert_eq!(pool.buy(&mut cfg, 10), Err(CustomError::ArithmeticOverflow));
    assert_eq!(pool, pool_with(100, u64::MAX - 5));
}

#[test]
fn fee_counter_overflow_is_refused() {
    let mut pool = pool_with(500_000_000, 10_000_000);
    let mut cfg = CurveConfiguration::new(100, id(9), u64::MAX);
    assert_eq!(pool.buy(&mut cfg, 1_000_000), Err(CustomError::ArithmeticOverflow));
    assert_eq!(pool.sell(&mut cfg, 50_000_000), Err(CustomError::ArithmeticOverflow));
    assert_eq!(pool, pool_with(500_000_000, 10_000_000));
    assert_eq!(cfg.shares, u64::MAX);
}

#[test]
fn crossing_threshold_switches_formula_on_next_call() {
    let mut pool = pool_with(VIRTUAL_MODE_THRESHOLD, 0);
    let mut cfg = config();
    let first = pool.buy(&mut cfg, 1_000).unwrap();
    assert_eq!(first.tokens_out, 9_269_699_694);
    assert!(pool.reserve_token < VIRTUAL_MODE_THRESHOLD);
    let expected = quote_buy(PricingMode::Simple, 100, pool.reserve_token, pool.reserve_sol, 1_000).unwrap();
    assert_eq!(expected, 497_482_825_626_785);
    let second = pool.buy(&mut cfg, 1_000).unwrap();
    assert_eq!(second.tokens_out as u128, expected);
}

#[test]
fn buy_then_sell_returns_no_more_than_paid() {
    for &(reserve_token, reserve_sol, amount) in &[
        (500_000_000u64, 10_000_000u64, 1_000_000u64),
        (500_000_000, 10_000_000, 3_333_333),
        (900_000_000_000_000_000, 80_000_000_000, 7_000_000_000),
        (800_000_000_000_000_000, 5_000_000_000, 1_000_000_000),
    ] {
        let mut pool = pool_with(reserve_token, reserve_sol);
        let mut cfg = config();
        let bought = pool.buy(&mut cfg, amount).unwrap();
        let sold = pool.sell(&mut cfg, bought.tokens_out).unwrap();
        assert!(sold.sol_out <= amount);
        assert!(sold.sol_to_seller < amount);
        assert_eq!(cfg.shares, bought.fee + sold.fee);
    }
}

#[test]
fn reserves_stay_consistent_over_many_trades() {
    let mut pool = pool_with(500_000_000, 10_000_000);
    let mut cfg = config();
    for i in 1..50u64 {
        let token_before = pool.reserve_token;
        let sol_before = pool.reserve_sol;
        if i % 2 == 0 {
            let r = pool.buy(&mut cfg, i * 10_000).unwrap();
            assert!(r.tokens_out <= token_before);
            assert_eq!(pool.reserve_token, token_before - r.tokens_out);
            assert_eq!(pool.reserve_sol, sol_before + i * 10_000);
        } else {
            let r = pool.sell(&mut cfg, i * 100_000).unwrap();
            assert!(r.sol_out <= sol_before);
            assert_eq!(pool.reserve_sol, sol_before - r.sol_out);
            assert_eq!(pool.reserve_token, token_before + i * 100_000);
        }
    }
}

#[test]
fn add_liquidity_seeds_an_empty_pool() {
    let mut pool = LiquidityPool::new(id(1), id(2), 3);
    let action = pool.add_liquidity(0, 0, 1_000_000_000_000_000);
    assert_eq!(action, LiquidityAction::Seeded(SeedDeposit { tokens: 1_000_000_000_000_000, sol: INITIAL_LAMPORTS_FOR_POOL }));
    assert_eq!(pool.reserve_token, 1_000_000_000_000_000);
    assert_eq!(pool.reserve_sol, INITIAL_LAMPORTS_FOR_POOL);
    assert_eq!(pool.total_supply, POOL_TOTAL_SUPPLY);
}

#[test]
fn add_liquidity_seeds_when_one_side_is_empty() {
    let mut pool = LiquidityPool::new(id(1), id(2), 3);
    let action = pool.add_liquidity(500, 0, 42);
    assert_eq!(action, LiquidityAction::Seeded(SeedDeposit { tokens: 42, sol: INITIAL_LAMPORTS_FOR_POOL }));
    assert_eq!(pool.reserve_token, 42);
}

#[test]
fn add_liquidity_resyncs_a_seeded_pool() {
    let mut pool = pool_with(7, 8);
    let action = pool.add_liquidity(600, 700, 1_000);
    assert_eq!(action, LiquidityAction::Resynced);
    assert_eq!(pool.reserve_token, 600);
    assert_eq!(pool.reserve_sol, 700);
    assert_eq!(pool.total_supply, POOL_TOTAL_SUPPLY);
}

#[test]
fn seed_and_resync_are_separate_operations() {
    let mut a = pool_with(600, 700);
    assert_eq!(a.seed_liquidity(5), SeedDeposit { tokens: 5, sol: INITIAL_LAMPORTS_FOR_POOL });
    assert_eq!((a.reserve_token, a.reserve_sol), (5, INITIAL_LAMPORTS_FOR_POOL));
    let mut b = LiquidityPool::new(id(1), id(2), 3);
    b.resync_reserves(11, 12);
    assert_eq!((b.reserve_token, b.reserve_sol, b.total_supply), (11, 12, POOL_TOTAL_SUPPLY));
}

#[test]
fn remove_liquidity_moves_both_reserves() {
    let mut pool = pool_with(123_456, 789_000);
    pool.total_supply = 5;
    assert_eq!(pool.remove_liquidity(789_000), LiquidityWithdrawal { tokens: 123_456, sol: 789_000 });
    pool.total_supply = POOL_TOTAL_SUPPLY;
    assert_eq!(pool.remove_liquidity(789_000), LiquidityWithdrawal { tokens: 123_456, sol: 789_000 });
    assert_eq!((pool.reserve_token, pool.reserve_sol, pool.total_supply), (123_456, 789_000, POOL_TOTAL_SUPPLY));
}

#[test]
fn remove_liquidity_empties_the_vault_after_fees() {
    let mut pool = pool_with(500_000_000, 10_000_000);
    let mut cfg = config();
    let receipt = pool.buy(&mut cfg, 1_000_000).unwrap();
    let vault = 10_000_000 + receipt.sol_to_vault;
    assert_eq!(vault, 10_990_000);
    assert_eq!(pool.remove_liquidity(vault), LiquidityWithdrawal { tokens: pool.reserve_token, sol: 10_990_000 });
}

#[test]
fn migration_needs_minimum_sol_reserve() {
    let mut pool = pool_with(1_000, MIN_MIGRATION_SOL - 1);
    assert_eq!(pool.migrate_reserves(), Err(CustomError::InsufficientReserve));
    assert_eq!(pool, pool_with(1_000, MIN_MIGRATION_SOL - 1));
    let mut at_minimum = pool_with(1_000, MIN_MIGRATION_SOL);
    assert_eq!(at_minimum.migrate_reserves(), Err(CustomError::InsufficientReserve));
    assert_eq!(at_minimum, pool_with(1_000, MIN_MIGRATION_SOL));
    let mut ready = pool_with(1_000, MIN_MIGRATION_SOL + 1);
    assert_eq!(ready.migrate_reserves(), Ok(MigrationAmounts { sol: MIN_MIGRATION_SOL + 1, tokens: 1_000 }));
    assert_eq!((ready.reserve_token, ready.reserve_sol), (0, 0));
}

#[test]
fn settle_commits_only_after_custody_moved() {
    let mut pool = pool_with(500_000_000, 10_000_000);
    let mut cfg = config();
    let mut staged_pool = pool;
    let mut staged_cfg = cfg;
    staged_pool.buy(&mut staged_cfg, 1_000_000).unwrap();
    assert_eq!(settle(&mut pool, &mut cfg, staged_pool, staged_cfg, false), Err(CustomError::CustodyFailure));
    assert_eq!(pool, pool_with(500_000_000, 10_000_000));
    assert_eq!(cfg.shares, 0);
    assert_eq!(settle(&mut pool, &mut cfg, staged_pool, staged_cfg, true), Ok(()));
    assert_eq!(pool, staged_pool);
    assert_eq!(cfg.shares, 10_000);
}

#[test]
fn round_trip_across_threshold_is_priced_on_two_curves() {
    let mut pool = pool_with(VIRTUAL_MODE_THRESHOLD, 1_000_000_000_000);
    let mut cfg = config();
    let bought = pool.buy(&mut cfg, 1_000_000).unwrap();
    assert_eq!(bought.tokens_out, 269_991_002_630);
    assert!(pool.reserve_token < VIRTUAL_MODE_THRESHOLD);
    let sold = pool.sell(&mut cfg, bought.tokens_out).unwrap();
    assert_eq!(sold.sol_out, 269_991_273);
    assert_eq!(sold.fee, 2_699_913);
}

#[test]
fn round_trip_after_rounding_up_on_tiny_pool() {
    let mut pool = pool_with(2, 2);
    let mut cfg = CurveConfiguration::new(0, id(9), 0);
    let bought = pool.buy(&mut cfg, 1).unwrap();
    assert_eq!(bought.tokens_out, 1);
    let sold = pool.sell(&mut cfg, 1).unwrap();
    assert_eq!(sold.sol_out, 2);
}
