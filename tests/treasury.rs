use pumpdotfun::errors::CustomError;
use pumpdotfun::state::{CurveConfiguration, Identity, LiquidityPool};
use pumpdotfun::treasury::withdraw;

fn id(b: u8) -> Identity {
    Identity { bytes: [b; 32] }
}

#[test]
fn withdraw_by_stranger_is_unauthorized() {
    let mut cfg = CurveConfiguration::new(100, id(9), 5_000);
    assert_eq!(withdraw(&mut cfg, &id(8), 1_000_000), Err(CustomError::Unauthorized));
    assert_eq!(cfg.shares, 5_000);
    assert_eq!(withdraw(&mut cfg, &id(8), 0), Err(CustomError::Unauthorized));
    assert_eq!(cfg.shares, 5_000);
}

#[test]
fn withdraw_needs_funds_in_treasury() {
    let mut cfg = CurveConfiguration::new(100, id(9), 5_000);
    assert_eq!(withdraw(&mut cfg, &id(9), 4_999), Err(CustomError::InsufficientFunds));
    assert_eq!(cfg.shares, 5_000);
}

#[test]
fn withdraw_pays_accrued_and_resets() {
    let mut cfg = CurveConfiguration::new(100, id(9), 5_000);
    assert_eq!(withdraw(&mut cfg, &id(9), 5_000), Ok(5_000));
    assert_eq!(cfg.shares, 0);
    assert_eq!(withdraw(&mut cfg, &id(9), 0), Ok(0));
    assert_eq!(cfg.shares, 0);
}

#[test]
fn withdraw_pays_exactly_fees_since_last() {
    let mut cfg = CurveConfiguration::new(100, id(9), 777);
    assert_eq!(withdraw(&mut cfg, &id(9), 777), Ok(777));
    let mut pool = LiquidityPool::new(id(1), id(2), 0);
    pool.update_reserves(500_000_000, 10_000_000);
    let mut fees: u64 = 0;
    fees += pool.buy(&mut cfg, 1_000_000).unwrap().fee;
    fees += pool.sell(&mut cfg, 20_000_000).unwrap().fee;
    assert_eq!(pool.buy(&mut cfg, 0), Err(CustomError::InvalidAmount));
    fees += pool.buy(&mut cfg, 250_000).unwrap().fee;
    assert_eq!(fees, 10_000 + 4_632 + 2_500);
    assert_eq!(cfg.shares, fees);
    assert_eq!(withdraw(&mut cfg, &id(9), fees), Ok(fees));
    assert_eq!(cfg.shares, 0);
}
