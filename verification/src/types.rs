//! Values shared by all contracts.

use vstd::prelude::*;

verus! {

/// An account or a contract on the ledger, identified by a number.
#[derive(Clone, Copy, PartialEq, Eq, Structural, Debug, Hash)]
pub struct Address(pub u64);

/// Side of a leveraged position.
#[derive(Clone, Copy, PartialEq, Eq, Structural, Debug)]
pub enum Direction {
    Long,
    Short,
}

/// An open leveraged position.
#[derive(Clone, Copy, PartialEq, Eq, Structural, Debug)]
pub struct Position {
    pub id: u64,
    pub trader: Address,
    pub asset: u32,
    pub direction: Direction,
    /// Notional size: collateral times leverage.
    pub size: i128,
    pub collateral: i128,
    pub entry_price: i128,
    pub leverage: u32,
    pub funding_index: i128,
    pub opened_at: u64,
}

/// A price as last published for an asset, with the ledger time it was set.
#[derive(Clone, Copy, PartialEq, Eq, Structural, Debug)]
pub struct CachedPrice {
    pub price: i128,
    pub timestamp: u64,
}

/// Errors of every contract of the exchange.
#[derive(Clone, Copy, PartialEq, Eq, Structural, Debug)]
pub enum PerpsError {
    NotInitialized,
    AlreadyInitialized,
    InsufficientBalance,
    InsufficientLiquidity,
    InvalidAmount,
    InvalidLeverage,
    PositionNotFound,
    StalePrice,
    MaxUtilizationExceeded,
    NotLiquidatable,
    Unauthorized,
    InvalidConfig,
    OverflowError,
    ZeroShares,
    MinCollateralNotMet,
    FundingTooEarly,
    AssetMismatch,
}

/// The numeric code under which the host reports an error.
pub open spec fn error_code(e: PerpsError) -> u32 {
    match e {
        PerpsError::NotInitialized => 1,
        PerpsError::AlreadyInitialized => 2,
        PerpsError::InsufficientBalance => 3,
        PerpsError::InsufficientLiquidity => 4,
        PerpsError::InvalidAmount => 5,
        PerpsError::InvalidLeverage => 6,
        PerpsError::PositionNotFound => 7,
        PerpsError::StalePrice => 8,
        PerpsError::MaxUtilizationExceeded => 9,
        PerpsError::NotLiquidatable => 10,
        PerpsError::Unauthorized => 11,
        PerpsError::InvalidConfig => 12,
        PerpsError::OverflowError => 13,
        PerpsError::ZeroShares => 14,
        PerpsError::MinCollateralNotMet => 15,
        PerpsError::FundingTooEarly => 16,
        PerpsError::AssetMismatch => 17,
    }
}

impl PerpsError {
    /// The numeric code of this error.
    pub fn code(&self) -> (c: u32)
        ensures
            c == error_code(*self),
    {
        match self {
            PerpsError::NotInitialized => 1,
            PerpsError::AlreadyInitialized => 2,
            PerpsError::InsufficientBalance => 3,
            PerpsError::InsufficientLiquidity => 4,
            PerpsError::InvalidAmount => 5,
            PerpsError::InvalidLeverage => 6,
            PerpsError::PositionNotFound => 7,
            PerpsError::StalePrice => 8,
            PerpsError::MaxUtilizationExceeded => 9,
            PerpsError::NotLiquidatable => 10,
            PerpsError::Unauthorized => 11,
            PerpsError::InvalidConfig => 12,
            PerpsError::OverflowError => 13,
            PerpsError::ZeroShares => 14,
            PerpsError::MinCollateralNotMet => 15,
            PerpsError::FundingTooEarly => 16,
            PerpsError::AssetMismatch => 17,
        }
    }
}

/// A movement of `amount` units of `token` from `from` to `to`, carried out
/// by the host after the entry point that asked for it has returned.
#[derive(Clone, Copy, PartialEq, Eq, Structural, Debug)]
pub struct Transfer {
    pub token: Address,
    pub from: Address,
    pub to: Address,
    pub amount: i128,
}

/// What transfer `t` moves of `token` into `account`; negative when it
/// moves out.
pub open spec fn inflow(t: Transfer, token: Address, account: Address) -> int {
    if t.token == token {
        (if t.to == account { t.amount as int } else { 0 }) - (if t.from == account {
            t.amount as int
        } else {
            0
        })
    } else {
        0
    }
}

/// Net amount of `token` that the transfers `ts` move into `account`.
pub open spec fn net_inflow(ts: Seq<Transfer>, token: Address, account: Address) -> int
    decreases ts.len(),
{
    if ts.len() == 0 {
        0
    } else {
        net_inflow(ts.drop_last(), token, account) + inflow(ts.last(), token, account)
    }
}

/// What the transfers appended from `before` to `after` move of `token`
/// into `account`.
pub open spec fn cash_in(before: Seq<Transfer>, after: Seq<Transfer>, token: Address, account: Address) -> int {
    net_inflow(after, token, account) - net_inflow(before, token, account)
}

/// Appending a transfer adds what it moves.
pub proof fn lemma_net_inflow_push(ts: Seq<Transfer>, t: Transfer, token: Address, account: Address)
    ensures
        net_inflow(ts.push(t), token, account) == net_inflow(ts, token, account) + inflow(t, token, account),
{
    assert(ts.push(t).drop_last() =~= ts);
}

} // verus!
