//! The error taxonomy shared by the swap pool and the bonding ledger.
//!
//! Every handler aborts its whole request with one of these values; no
//! partial state change survives an error.

use vstd::prelude::*;

verus! {

/// Why a request was rejected.
///
/// `Overflow`, `DivideByZero` and `NotFound` stand for the host's arithmetic
/// and storage faults, which always abort the request; `NoLiquidity` is the
/// pricing failure on an empty reserve.
#[derive(Debug)]
pub enum ContractError {
    Unauthorized {},
    Disabled {},
    InvalidInput {},
    NothingToUnbond {},
    UnacceptableToken {},
    NotEnoughFund {},
    WrongLength {},
    InsufficientFury {},
    MaxBondingExceed {},
    InsufficientFee {},
    AlreadyStarted {},
    NotAllowedBondingType {},
    TooHigh {},
    Map2ListFailed {},
    CannotMigrate { previous_contract: String },
    Count { count: u64 },
    NativeInputZero {},
    Cw20InputZero {},
    TokenTypeMismatch {},
    MsgExpirationError {},
    MinLiquidityError { min_liquidity: u128, liquidity_available: u128 },
    MaxTokenError { max_token: u128, tokens_required: u128 },
    InsufficientFunds {},
    IncorrectNativeDenom { provided: String, required: String },
    InsufficientLiquidityError { requested: u128, available: u128 },
    MinToken1Error { requested: u128, available: u128 },
    MinToken2Error { requested: u128, available: u128 },
    SwapMinError { min: u128, available: u128 },
    UnknownReplyId { id: u64 },
    InstantiateLpTokenError {},
    Overflow {},
    DivideByZero {},
    NotFound {},
    NoLiquidity {},
}

} // verus!
