use vstd::prelude::*;

verus! {

/// Why an operation of the engine was rejected. A rejected operation leaves
/// every piece of state as it was.
#[derive(Clone, Copy, Debug, PartialEq, Eq, Structural)]
pub enum CustomError {
    /// A trade of zero units.
    InvalidAmount,
    /// The trade would take more than the pool holds on the other side, or the
    /// pool holds too little for the requested operation.
    InsufficientReserve,
    /// The treasury holds less than the accrued fees.
    InsufficientFunds,
    /// The caller is not the configured administrator.
    Unauthorized,
    /// The custody layer refused to move the assets.
    CustodyFailure,
    /// An intermediate or resulting quantity does not fit its integer type.
    ArithmeticOverflow,
    /// A fee rate of `FEE_DENOMINATOR` parts or more.
    InvalidFee,
}

} // verus!
