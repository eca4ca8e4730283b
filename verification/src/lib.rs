//! A constant-product automated market maker (the swap pool) paired with a
//! bonding/vesting ledger that converts deposits into time-locked token
//! grants subject to a daily issuance cap.
//!
//! Every state-changing operation is a verified transition function: it takes
//! the persisted state, the request, and any values the host must read for it
//! (token balances, the paired pool's quote), and returns the new state
//! together with the outbound settlement instructions, or an error and the
//! state unchanged.

#![verifier::loop_isolation(false)]

use vstd::prelude::*;

pub mod bonding;
pub mod error;
pub mod ledger;
pub mod swap;
pub mod util;

verus! {

/// Denominator of the parts-per-thousand fee, discount and rate fields.
pub const THOUSAND: u64 = 1000;

/// Fixed-point scale of the exchange rate used when settling an unbonding.
pub const NORMAL_DECIMAL: u128 = 1000000;

/// Length of one day bucket of the vesting cap, in seconds.
pub const SECONDS_PER_DAY: u64 = 86400;

} // verus!
