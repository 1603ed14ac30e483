//! A bonding-curve exchange engine: pricing, reserve accounting, fee accrual
//! and liquidity provisioning for token/base-currency pools.
//!
//! All amounts are integral fixed-point units. Prices are computed as exact
//! rationals and rounded once, half away from zero, at the final division.
pub mod consts;
pub mod errors;
pub mod pricing;
pub mod state;
pub mod trading;
pub mod treasury;
