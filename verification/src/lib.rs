//! Verified core of a pool-based perpetual futures exchange.
//!
//! Liquidity providers deposit USDC into a vault that is the counterparty of
//! every trade. Traders open leveraged long or short positions priced by an
//! oracle; a liquidation engine force-closes positions whose margin falls
//! below maintenance, and a funding mechanism charges the dominant side of
//! open interest.
//!
//! Each contract is modelled as a value holding its storage. An entry point
//! is a method that either fails with a [`types::PerpsError`] and leaves every
//! contract it touched unchanged, or updates the storage and appends the
//! token transfers it makes to a list that the host executes. Calls that one
//! contract makes into another are calls of the other contract's methods.
//! All monetary values are `i128` with seven decimal places.

pub mod types;
pub mod arith;
pub mod sums;
pub mod shares;
pub mod math;
pub mod vault;
pub mod oracle;
pub mod position_manager;
pub mod funding;
pub mod liquidation;

use vstd::prelude::*;

verus! {

/// Fixed-point scale of monetary values: seven decimal places.
pub const DECIMALS: i128 = 10_000_000;

/// Basis points in one whole.
pub const BPS_DENOMINATOR: u32 = 10_000;

} // verus!
