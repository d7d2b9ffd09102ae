//! The liquidity vault: LPs deposit USDC for shares; the vault is the
//! counterparty of every position and holds its locked liquidity.

use std::collections::HashMap;
use vstd::prelude::*;
use crate::arith::{div_ok, fits_i128, tdiv};
use crate::shares::{
    calc_share_price, calc_shares_to_mint, calc_utilization_bps, calc_withdrawal_amount,
    share_price, shares_to_mint, utilization_bps, withdrawal_amount,
};
use crate::sums::{map_sum, lemma_map_sum_empty, lemma_map_sum_insert};
use crate::types::{cash_in, lemma_net_inflow_push, Address, PerpsError, Transfer};
use crate::BPS_DENOMINATOR;

verus! {

broadcast use vstd::std_specs::hash::group_hash_axioms;

/// Storage of the vault contract.
pub struct VaultContract {
    /// The vault's own address; it holds the pooled USDC.
    pub address: Address,
    pub admin: Option<Address>,
    pub usdc_token: Option<Address>,
    pub total_shares: i128,
    pub total_deposits: i128,
    pub locked_liquidity: i128,
    /// Highest utilization allowed, in basis points.
    pub max_utilization: u32,
    /// The only contract allowed to lock, unlock and settle.
    pub position_manager: Option<Address>,
    /// Share balance of each LP, by address number; a missing entry is zero.
    pub share_balances: HashMap<u64, i128>,
}

impl VaultContract {
    /// The vault has been initialized.
    pub open spec fn initialized(self) -> bool {
        self.admin is Some
    }

    /// Share balance of `account`.
    pub open spec fn balance(self, account: Address) -> int {
        if self.share_balances@.contains_key(account.0) {
            self.share_balances@[account.0] as int
        } else {
            0
        }
    }

    /// Sum of all LP share balances.
    pub open spec fn balances_total(self) -> int {
        map_sum(self.share_balances@, |b: i128| b as int)
    }

    /// Share accounting: no LP balance is negative, and the shares in
    /// circulation are exactly the sum of the LP balances.
    pub open spec fn shares_balanced(self) -> bool {
        &&& forall|k: u64| #[trigger] self.share_balances@.contains_key(k) ==> self.share_balances@[k] >= 0
        &&& self.total_shares == self.balances_total()
    }

    /// The error with which a restricted entry point rejects `caller`, if any.
    pub open spec fn caller_error(self, caller: Address) -> Option<PerpsError> {
        match self.position_manager {
            None => Some(PerpsError::NotInitialized),
            Some(pm) => if caller == pm {
                None
            } else {
                Some(PerpsError::Unauthorized)
            },
        }
    }

    /// Everything but the pool's numbers and the share balances agrees.
    pub open spec fn same_settings(self, other: Self) -> bool {
        &&& self.address == other.address
        &&& self.admin == other.admin
        &&& self.usdc_token == other.usdc_token
        &&& self.max_utilization == other.max_utilization
        &&& self.position_manager == other.position_manager
    }

    /// Only the numbers of the pool may differ from `other`.
    pub open spec fn same_except_totals(self, other: Self) -> bool {
        &&& self.same_settings(other)
        &&& self.share_balances == other.share_balances
    }

    /// The token transfer that pays `amount` out of the vault to `to`.
    pub open spec fn payout(self, to: Address, amount: int) -> Transfer {
        Transfer { token: self.usdc_token->0, from: self.address, to: to, amount: amount as i128 }
    }

    /// A freshly deployed, uninitialized vault at `address`.
    pub fn new(address: Address) -> (v: Self)
        ensures
            v.address == address,
            v.admin is None,
            v.usdc_token is None,
            v.total_shares == 0,
            v.total_deposits == 0,
            v.locked_liquidity == 0,
            v.max_utilization == 8000,
            v.position_manager is None,
            v.share_balances@ == Map::<u64, i128>::empty(),
            v.shares_balanced(),
    {
        proof {
            lemma_map_sum_empty(|b: i128| b as int);
        }
        VaultContract {
            address,
            admin: None,
            usdc_token: None,
            total_shares: 0,
            total_deposits: 0,
            locked_liquidity: 0,
            max_utilization: 8000,
            position_manager: None,
            share_balances: HashMap::new(),
        }
    }

    fn balance_of(&self, account: Address) -> (b: i128)
        ensures
            b == self.balance(account),
    {
        match self.share_balances.get(&account.0) {
            Some(b) => *b,
            None => 0,
        }
    }

    /// The error with which `initialize` fails, if any.
    pub open spec fn initialize_error(self, max_utilization_bps: u32) -> Option<PerpsError> {
        if self.initialized() {
            Some(PerpsError::AlreadyInitialized)
        } else if max_utilization_bps == 0 || max_utilization_bps > 10_000 {
            Some(PerpsError::InvalidConfig)
        } else {
            None
        }
    }

    /// Initialize the vault. Can only be called once.
    pub fn initialize(&mut self, admin: Address, usdc_token: Address, max_utilization_bps: u32) -> (r: Result<(), PerpsError>)
        ensures
            (match old(self).initialize_error(max_utilization_bps) {
                Some(e) => r == Err::<(), PerpsError>(e) && *final(self) == *old(self),
                None => {
                    &&& r is Ok
                    &&& final(self).admin == Some(admin)
                    &&& final(self).usdc_token == Some(usdc_token)
                    &&& final(self).max_utilization == max_utilization_bps
                    &&& final(self).total_shares == 0
                    &&& final(self).total_deposits == 0
                    &&& final(self).locked_liquidity == 0
                    &&& final(self).address == old(self).address
                    &&& final(self).position_manager == old(self).position_manager
                    &&& final(self).share_balances@ == old(self).share_balances@
                },
            }),
            old(self).shares_balanced() && old(self).total_shares == 0 ==> final(self).shares_balanced(),
    {
        if self.admin.is_some() {
            return Err(PerpsError::AlreadyInitialized);
        }
        if max_utilization_bps == 0 || max_utilization_bps > BPS_DENOMINATOR {
            return Err(PerpsError::InvalidConfig);
        }
        self.admin = Some(admin);
        self.usdc_token = Some(usdc_token);
        self.max_utilization = max_utilization_bps;
        self.total_shares = 0;
        self.total_deposits = 0;
        self.locked_liquidity = 0;
        Ok(())
    }

    // -----------------------------------------------------------------------
    // LP operations
    // -----------------------------------------------------------------------

    /// Shares that a deposit of `amount` mints now.
    pub open spec fn minted(self, amount: int) -> int {
        shares_to_mint(amount, self.total_shares as int, self.total_deposits as int)
    }

    /// The error with which `deposit` fails, if any.
    pub open spec fn deposit_error(self, amount: int) -> Option<PerpsError> {
        if amount <= 0 {
            Some(PerpsError::InvalidAmount)
        } else if self.minted(amount) <= 0 {
            Some(PerpsError::ZeroShares)
        } else {
            None
        }
    }

    /// A deposit of `amount` by `depositor` neither overflows nor meets an
    /// uninitialized vault.
    pub open spec fn deposit_defined(self, depositor: Address, amount: int) -> bool {
        amount > 0 ==> {
            &&& (self.total_shares != 0 && self.total_deposits != 0 ==> div_ok(
                amount * self.total_shares,
                self.total_deposits as int,
            ))
            &&& (self.minted(amount) > 0 ==> {
                &&& self.usdc_token is Some
                &&& fits_i128(self.total_deposits + amount)
                &&& fits_i128(self.total_shares + self.minted(amount))
                &&& fits_i128(self.balance(depositor) + self.minted(amount))
            })
        }
    }

    /// LP deposits USDC, receives shares proportional to pool value.
    pub fn deposit(&mut self, depositor: Address, amount: i128, transfers: &mut Vec<Transfer>) -> (r: Result<i128, PerpsError>)
        requires
            old(self).deposit_defined(depositor, amount as int),
        ensures
            (match old(self).deposit_error(amount as int) {
                Some(e) => {
                    &&& r == Err::<i128, PerpsError>(e)
                    &&& *final(self) == *old(self)
                    &&& final(transfers)@ == old(transfers)@
                },
                None => {
                    let minted = old(self).minted(amount as int);
                    &&& r == Ok::<i128, PerpsError>(minted as i128)
                    &&& final(self).same_settings(*old(self))
                    &&& final(self).total_deposits == old(self).total_deposits + amount
                    &&& final(self).total_shares == old(self).total_shares + minted
                    &&& final(self).locked_liquidity == old(self).locked_liquidity
                    &&& final(self).share_balances@ == old(self).share_balances@.insert(
                        depositor.0,
                        (old(self).balance(depositor) + minted) as i128,
                    )
                    &&& final(transfers)@ == old(transfers)@.push(
                        Transfer {
                            token: old(self).usdc_token->0,
                            from: depositor,
                            to: old(self).address,
                            amount: amount,
                        },
                    )
                },
            }),
            old(self).shares_balanced() ==> final(self).shares_balanced(),
            r is Ok && depositor != old(self).address ==> cash_in(
                old(transfers)@,
                final(transfers)@,
                old(self).usdc_token->0,
                old(self).address,
            ) == final(self).total_deposits - old(self).total_deposits,
            r matches Ok(m) ==> m == (if old(self).total_shares == 0 || old(self).total_deposits == 0 {
                amount as int
            } else {
                tdiv(amount * old(self).total_shares, old(self).total_deposits as int)
            }),
    {
        if amount <= 0 {
            return Err(PerpsError::InvalidAmount);
        }
        let total_shares = self.total_shares;
        let total_deposits = self.total_deposits;
        let shares_to_mint = calc_shares_to_mint(amount, total_shares, total_deposits);
        if shares_to_mint <= 0 {
            return Err(PerpsError::ZeroShares);
        }
        let usdc = self.usdc_token.unwrap();
        let t = Transfer { token: usdc, from: depositor, to: self.address, amount };
        proof {
            lemma_net_inflow_push(transfers@, t, usdc, self.address);
        }
        transfers.push(t);
        self.total_deposits = total_deposits + amount;
        self.total_shares = total_shares + shares_to_mint;
        let current_balance = self.balance_of(depositor);
        proof {
            lemma_map_sum_insert(
                self.share_balances@,
                |b: i128| b as int,
                depositor.0,
                (current_balance + shares_to_mint) as i128,
            );
        }
        self.share_balances.insert(depositor.0, current_balance + shares_to_mint);
        Ok(shares_to_mint)
    }

    /// USDC that burning `shares` pays out now.
    pub open spec fn redeemed(self, shares: int) -> int {
        withdrawal_amount(shares, self.total_shares as int, self.total_deposits as int)
    }

    /// The error with which `withdraw` fails, if any.
    pub open spec fn withdraw_error(self, depositor: Address, share_amount: int) -> Option<PerpsError> {
        let usdc = self.redeemed(share_amount);
        let new_total = self.total_deposits - usdc;
        if share_amount <= 0 {
            Some(PerpsError::InvalidAmount)
        } else if share_amount > self.balance(depositor) {
            Some(PerpsError::InsufficientBalance)
        } else if usdc <= 0 {
            Some(PerpsError::ZeroShares)
        } else if new_total > 0 {
            if utilization_bps(self.locked_liquidity as int, new_total) as u32 > self.max_utilization {
                Some(PerpsError::MaxUtilizationExceeded)
            } else {
                None
            }
        } else if self.locked_liquidity > 0 {
            Some(PerpsError::InsufficientLiquidity)
        } else {
            None
        }
    }

    /// A withdrawal of `share_amount` by `depositor` neither overflows nor
    /// meets an uninitialized vault.
    pub open spec fn withdraw_defined(self, depositor: Address, share_amount: int) -> bool {
        let usdc = self.redeemed(share_amount);
        let new_total = self.total_deposits - usdc;
        0 < share_amount <= self.balance(depositor) ==> {
            &&& (self.total_shares != 0 ==> div_ok(
                share_amount * self.total_deposits,
                self.total_shares as int,
            ))
            &&& (usdc > 0 ==> {
                &&& fits_i128(new_total)
                &&& (new_total > 0 ==> div_ok(self.locked_liquidity * 10_000, new_total))
                &&& (self.withdraw_error(depositor, share_amount) is None ==> {
                    &&& fits_i128(self.total_shares - share_amount)
                    &&& self.usdc_token is Some
                })
            })
        }
    }

    /// LP burns shares, receives USDC proportional to pool value.
    pub fn withdraw(&mut self, depositor: Address, share_amount: i128, transfers: &mut Vec<Transfer>) -> (r: Result<i128, PerpsError>)
        requires
            old(self).withdraw_defined(depositor, share_amount as int),
        ensures
            (match old(self).withdraw_error(depositor, share_amount as int) {
                Some(e) => {
                    &&& r == Err::<i128, PerpsError>(e)
                    &&& *final(self) == *old(self)
                    &&& final(transfers)@ == old(transfers)@
                },
                None => {
                    let usdc = old(self).redeemed(share_amount as int);
                    &&& r == Ok::<i128, PerpsError>(usdc as i128)
                    &&& final(self).same_settings(*old(self))
                    &&& final(self).total_deposits == old(self).total_deposits - usdc
                    &&& final(self).total_shares == old(self).total_shares - share_amount
                    &&& final(self).locked_liquidity == old(self).locked_liquidity
                    &&& final(self).share_balances@ == old(self).share_balances@.insert(
                        depositor.0,
                        (old(self).balance(depositor) - share_amount) as i128,
                    )
                    &&& final(transfers)@ == old(transfers)@.push(old(self).payout(depositor, usdc))
                },
            }),
            old(self).shares_balanced() ==> final(self).shares_balanced(),
            r is Ok && depositor != old(self).address ==> cash_in(
                old(transfers)@,
                final(transfers)@,
                old(self).usdc_token->0,
                old(self).address,
            ) == final(self).total_deposits - old(self).total_deposits,
    {
        if share_amount <= 0 {
            return Err(PerpsError::InvalidAmount);
        }
        let current_balance = self.balance_of(depositor);
        if share_amount > current_balance {
            return Err(PerpsError::InsufficientBalance);
        }
        let total_shares = self.total_shares;
        let total_deposits = self.total_deposits;
        let locked = self.locked_liquidity;
        let usdc_to_return = calc_withdrawal_amount(share_amount, total_shares, total_deposits);
        if usdc_to_return <= 0 {
            return Err(PerpsError::ZeroShares);
        }
        let new_total_deposits = total_deposits - usdc_to_return;
        if new_total_deposits > 0 {
            let new_util = calc_utilization_bps(locked, new_total_deposits);
            if new_util > self.max_utilization {
                return Err(PerpsError::MaxUtilizationExceeded);
            }
        } else if locked > 0 {
            return Err(PerpsError::InsufficientLiquidity);
        }
        self.total_shares = total_shares - share_amount;
        self.total_deposits = new_total_deposits;
        proof {
            lemma_map_sum_insert(
                self.share_balances@,
                |b: i128| b as int,
                depositor.0,
                (current_balance - share_amount) as i128,
            );
        }
        self.share_balances.insert(depositor.0, current_balance - share_amount);
        let usdc = self.usdc_token.unwrap();
        let t = Transfer { token: usdc, from: self.address, to: depositor, amount: usdc_to_return };
        proof {
            lemma_net_inflow_push(transfers@, t, usdc, self.address);
        }
        transfers.push(t);
        Ok(usdc_to_return)
    }

    // -----------------------------------------------------------------------
    // Position manager operations (restricted)
    // -----------------------------------------------------------------------

    fn require_position_manager(&self, caller: Address) -> (r: Result<(), PerpsError>)
        ensures
            (match self.caller_error(caller) {
                Some(e) => r == Err::<(), PerpsError>(e),
                None => r is Ok,
            }),
    {
        match self.position_manager {
            None => Err(PerpsError::NotInitialized),
            Some(pm) => {
                if caller != pm {
                    Err(PerpsError::Unauthorized)
                } else {
                    Ok(())
                }
            },
        }
    }

    /// The error with which `lock_liquidity` fails, if any.
    pub open spec fn lock_error(self, caller: Address, amount: int) -> Option<PerpsError> {
        if self.caller_error(caller) is Some {
            self.caller_error(caller)
        } else if amount <= 0 {
            Some(PerpsError::InvalidAmount)
        } else if utilization_bps(self.locked_liquidity + amount, self.total_deposits as int) as u32
            > self.max_utilization {
            Some(PerpsError::MaxUtilizationExceeded)
        } else {
            None
        }
    }

    /// Locking `amount` does not overflow.
    pub open spec fn lock_defined(self, caller: Address, amount: int) -> bool {
        self.caller_error(caller) is None && amount > 0 ==> {
            &&& fits_i128(self.locked_liquidity + amount)
            &&& (self.total_deposits != 0 ==> div_ok(
                (self.locked_liquidity + amount) * 10_000,
                self.total_deposits as int,
            ))
        }
    }

    /// Lock liquidity for a new position. Only callable by position manager.
    pub fn lock_liquidity(&mut self, caller: Address, amount: i128) -> (r: Result<(), PerpsError>)
        requires
            old(self).lock_defined(caller, amount as int),
        ensures
            (match old(self).lock_error(caller, amount as int) {
                Some(e) => r == Err::<(), PerpsError>(e) && *final(self) == *old(self),
                None => {
                    &&& r is Ok
                    &&& final(self).same_except_totals(*old(self))
                    &&& final(self).locked_liquidity == old(self).locked_liquidity + amount
                    &&& final(self).total_deposits == old(self).total_deposits
                    &&& final(self).total_shares == old(self).total_shares
                },
            }),
            old(self).shares_balanced() ==> final(self).shares_balanced(),
    {
        self.require_position_manager(caller)?;
        if amount <= 0 {
            return Err(PerpsError::InvalidAmount);
        }
        let total_deposits = self.total_deposits;
        let new_locked = self.locked_liquidity + amount;
        let new_util = calc_utilization_bps(new_locked, total_deposits);
        if new_util > self.max_utilization {
            return Err(PerpsError::MaxUtilizationExceeded);
        }
        self.locked_liquidity = new_locked;
        Ok(())
    }

    /// The error with which `unlock_liquidity` fails, if any.
    pub open spec fn unlock_error(self, caller: Address, amount: int) -> Option<PerpsError> {
        if self.caller_error(caller) is Some {
            self.caller_error(caller)
        } else if amount <= 0 {
            Some(PerpsError::InvalidAmount)
        } else if self.locked_liquidity - amount < 0 {
            Some(PerpsError::OverflowError)
        } else {
            None
        }
    }

    /// Unlock liquidity when a position closes. Only callable by position manager.
    pub fn unlock_liquidity(&mut self, caller: Address, amount: i128) -> (r: Result<(), PerpsError>)
        requires
            old(self).caller_error(caller) is None && amount > 0 ==> fits_i128(
                old(self).locked_liquidity - amount,
            ),
        ensures
            (match old(self).unlock_error(caller, amount as int) {
                Some(e) => r == Err::<(), PerpsError>(e) && *final(self) == *old(self),
                None => {
                    &&& r is Ok
                    &&& final(self).same_except_totals(*old(self))
                    &&& final(self).locked_liquidity == old(self).locked_liquidity - amount
                    &&& final(self).total_deposits == old(self).total_deposits
                    &&& final(self).total_shares == old(self).total_shares
                },
            }),
            old(self).shares_balanced() ==> final(self).shares_balanced(),
    {
        self.require_position_manager(caller)?;
        if amount <= 0 {
            return Err(PerpsError::InvalidAmount);
        }
        let new_locked = self.locked_liquidity - amount;
        if new_locked < 0 {
            return Err(PerpsError::OverflowError);
        }
        self.locked_liquidity = new_locked;
        Ok(())
    }

    /// The error with which `settle_pnl` fails, if any.
    pub open spec fn settle_error(self, caller: Address, pnl: int) -> Option<PerpsError> {
        if self.caller_error(caller) is Some {
            self.caller_error(caller)
        } else if pnl > 0 && pnl > self.total_deposits {
            Some(PerpsError::InsufficientLiquidity)
        } else {
            None
        }
    }

    /// Settling `pnl` neither overflows nor meets an uninitialized vault.
    pub open spec fn settle_defined(self, caller: Address, pnl: int) -> bool {
        self.settle_error(caller, pnl) is None ==> {
            &&& (pnl > 0 ==> self.usdc_token is Some)
            &&& (pnl < 0 ==> pnl != i128::MIN && fits_i128(self.total_deposits - pnl))
        }
    }

    /// Settle PnL for a closed position. Only callable by position manager.
    ///
    /// - pnl > 0: trader won → vault pays trader
    /// - pnl < 0: trader lost → vault received USDC, increase deposits
    pub fn settle_pnl(&mut self, caller: Address, trader: Address, pnl: i128, transfers: &mut Vec<Transfer>) -> (r: Result<(), PerpsError>)
        requires
            old(self).settle_defined(caller, pnl as int),
        ensures
            (match old(self).settle_error(caller, pnl as int) {
                Some(e) => {
                    &&& r == Err::<(), PerpsError>(e)
                    &&& *final(self) == *old(self)
                    &&& final(transfers)@ == old(transfers)@
                },
                None => {
                    &&& r is Ok
                    &&& final(self).same_except_totals(*old(self))
                    &&& final(self).total_deposits == old(self).total_deposits - pnl
                    &&& final(self).locked_liquidity == old(self).locked_liquidity
                    &&& final(self).total_shares == old(self).total_shares
                    &&& final(transfers)@ == if pnl > 0 {
                        old(transfers)@.push(old(self).payout(trader, pnl as int))
                    } else {
                        old(transfers)@
                    }
                },
            }),
            old(self).shares_balanced() ==> final(self).shares_balanced(),
    {
        self.require_position_manager(caller)?;
        let total_deposits = self.total_deposits;
        if pnl > 0 {
            if pnl > total_deposits {
                return Err(PerpsError::InsufficientLiquidity);
            }
            let usdc = self.usdc_token.unwrap();
            transfers.push(Transfer { token: usdc, from: self.address, to: trader, amount: pnl });
            self.total_deposits = total_deposits - pnl;
        } else if pnl < 0 {
            let loss = -pnl;
            self.total_deposits = total_deposits + loss;
        }
        Ok(())
    }

    /// The error with which `collect_fee` fails, if any.
    pub open spec fn fee_error(self, caller: Address, amount: int) -> Option<PerpsError> {
        if self.caller_error(caller) is Some {
            self.caller_error(caller)
        } else if amount <= 0 {
            Some(PerpsError::InvalidAmount)
        } else {
            None
        }
    }

    /// Collect trading fee. Only callable by position manager.
    /// Fee USDC has already been transferred to the vault.
    pub fn collect_fee(&mut self, caller: Address, amount: i128) -> (r: Result<(), PerpsError>)
        requires
            old(self).fee_error(caller, amount as int) is None ==> fits_i128(
                old(self).total_deposits + amount,
            ),
        ensures
            (match old(self).fee_error(caller, amount as int) {
                Some(e) => r == Err::<(), PerpsError>(e) && *final(self) == *old(self),
                None => {
                    &&& r is Ok
                    &&& final(self).same_except_totals(*old(self))
                    &&& final(self).total_deposits == old(self).total_deposits + amount
                    &&& final(self).locked_liquidity == old(self).locked_liquidity
                    &&& final(self).total_shares == old(self).total_shares
                },
            }),
            old(self).shares_balanced() ==> final(self).shares_balanced(),
    {
        self.require_position_manager(caller)?;
        if amount <= 0 {
            return Err(PerpsError::InvalidAmount);
        }
        self.total_deposits = self.total_deposits + amount;
        Ok(())
    }

    /// What a settled position pays its trader: collateral plus (capped)
    /// profit minus the closing fee.
    pub open spec fn settlement_payout(collateral: int, pnl: int, fee: int) -> int {
        collateral + pnl - fee
    }

    /// The error with which `close_position_settlement` fails, if any.
    pub open spec fn settlement_error(self, caller: Address, size: int, pnl: int) -> Option<PerpsError> {
        if self.caller_error(caller) is Some {
            self.caller_error(caller)
        } else if size <= 0 {
            Some(PerpsError::InvalidAmount)
        } else if self.locked_liquidity - size < 0 {
            Some(PerpsError::OverflowError)
        } else if pnl > 0 && pnl > self.total_deposits {
            Some(PerpsError::InsufficientLiquidity)
        } else {
            None
        }
    }

    /// Settling a closed position neither overflows nor meets an
    /// uninitialized vault.
    pub open spec fn settlement_defined(self, caller: Address, size: int, collateral: int, pnl: int, fee: int) -> bool {
        &&& (self.caller_error(caller) is None && size > 0 ==> fits_i128(self.locked_liquidity - size))
        &&& (self.settlement_error(caller, size, pnl) is None ==> {
            &&& fits_i128(self.total_deposits - pnl)
            &&& fits_i128(self.total_deposits - pnl + fee)
            &&& fits_i128(collateral + pnl)
            &&& fits_i128(collateral + pnl - fee)
            &&& (Self::settlement_payout(collateral, pnl, fee) > 0 ==> self.usdc_token is Some)
        })
    }

    /// Settle a closing position in one call: unlock its liquidity, book
    /// the trader's profit or loss and the closing fee into the pool, and
    /// pay the trader `collateral + pnl - fee` when that is positive.
    /// Only callable by position manager.
    pub fn close_position_settlement(
        &mut self,
        caller: Address,
        trader: Address,
        size: i128,
        collateral: i128,
        pnl: i128,
        fee: i128,
        transfers: &mut Vec<Transfer>,
    ) -> (r: Result<(), PerpsError>)
        requires
            old(self).settlement_defined(caller, size as int, collateral as int, pnl as int, fee as int),
        ensures
            (match old(self).settlement_error(caller, size as int, pnl as int) {
                Some(e) => {
                    &&& r == Err::<(), PerpsError>(e)
                    &&& *final(self) == *old(self)
                    &&& final(transfers)@ == old(transfers)@
                },
                None => {
                    let payout = Self::settlement_payout(collateral as int, pnl as int, fee as int);
                    &&& r is Ok
                    &&& final(self).same_except_totals(*old(self))
                    &&& final(self).locked_liquidity == old(self).locked_liquidity - size
                    &&& final(self).total_deposits == old(self).total_deposits - pnl + fee
                    &&& final(self).total_shares == old(self).total_shares
                    &&& final(transfers)@ == if payout > 0 {
                        old(transfers)@.push(old(self).payout(trader, payout))
                    } else {
                        old(transfers)@
                    }
                },
            }),
            old(self).shares_balanced() ==> final(self).shares_balanced(),
            r is Ok && trader != old(self).address ==> cash_in(
                old(transfers)@,
                final(transfers)@,
                old(self).usdc_token->0,
                old(self).address,
            ) == if Self::settlement_payout(collateral as int, pnl as int, fee as int) > 0 {
                -Self::settlement_payout(collateral as int, pnl as int, fee as int)
            } else {
                0
            },
    {
        self.require_position_manager(caller)?;
        if size <= 0 {
            return Err(PerpsError::InvalidAmount);
        }
        let new_locked = self.locked_liquidity - size;
        if new_locked < 0 {
            return Err(PerpsError::OverflowError);
        }
        let total_deposits = self.total_deposits;
        if pnl > 0 && pnl > total_deposits {
            return Err(PerpsError::InsufficientLiquidity);
        }
        self.locked_liquidity = new_locked;
        self.total_deposits = total_deposits - pnl + fee;
        let payout = collateral + pnl - fee;
        if payout > 0 {
            let usdc = self.usdc_token.unwrap();
            let t = Transfer { token: usdc, from: self.address, to: trader, amount: payout };
            proof {
                lemma_net_inflow_push(transfers@, t, usdc, self.address);
            }
            transfers.push(t);
        }
        Ok(())
    }

    /// Settling a liquidated position neither overflows nor meets an
    /// uninitialized vault.
    pub open spec fn liquidation_settlement_defined(
        self,
        caller: Address,
        size: int,
        collateral: int,
        pnl: int,
        penalty: int,
        reward: int,
    ) -> bool {
        &&& (self.caller_error(caller) is None && size > 0 ==> fits_i128(self.locked_liquidity - size))
        &&& (self.settlement_error(caller, size, pnl) is None ==> {
            &&& fits_i128(self.total_deposits - pnl)
            &&& fits_i128(self.total_deposits - pnl + penalty)
            &&& fits_i128(collateral + pnl)
            &&& fits_i128(collateral + pnl - penalty)
            &&& fits_i128(collateral + pnl - penalty - reward)
            &&& (collateral + pnl - penalty - reward > 0 || reward > 0 ==> self.usdc_token is Some)
        })
    }

    /// Settle a liquidated position in one call: unlock its liquidity, book
    /// the trader's profit or loss and the liquidation penalty into the
    /// pool, pay the keeper its reward, and pay the trader what is left of
    /// `collateral + pnl` after penalty and reward, when that is positive.
    /// Only callable by position manager.
    pub fn liquidation_settlement(
        &mut self,
        caller: Address,
        trader: Address,
        keeper: Address,
        size: i128,
        collateral: i128,
        pnl: i128,
        penalty: i128,
        reward: i128,
        transfers: &mut Vec<Transfer>,
    ) -> (r: Result<(), PerpsError>)
        requires
            old(self).liquidation_settlement_defined(
                caller,
                size as int,
                collateral as int,
                pnl as int,
                penalty as int,
                reward as int,
            ),
        ensures
            (match old(self).settlement_error(caller, size as int, pnl as int) {
                Some(e) => {
                    &&& r == Err::<(), PerpsError>(e)
                    &&& *final(self) == *old(self)
                    &&& final(transfers)@ == old(transfers)@
                },
                None => {
                    let payout = collateral + pnl - penalty - reward;
                    let paid = if payout > 0 {
                        old(transfers)@.push(old(self).payout(trader, payout))
                    } else {
                        old(transfers)@
                    };
                    &&& r is Ok
                    &&& final(self).same_except_totals(*old(self))
                    &&& final(self).locked_liquidity == old(self).locked_liquidity - size
                    &&& final(self).total_deposits == old(self).total_deposits - pnl + penalty
                    &&& final(self).total_shares == old(self).total_shares
                    &&& final(transfers)@ == if reward > 0 {
                        paid.push(old(self).payout(keeper, reward as int))
                    } else {
                        paid
                    }
                },
            }),
            old(self).shares_balanced() ==> final(self).shares_balanced(),
            r is Ok && trader != old(self).address && keeper != old(self).address ==> cash_in(
                old(transfers)@,
                final(transfers)@,
                old(self).usdc_token->0,
                old(self).address,
            ) == (if collateral + pnl - penalty - reward > 0 {
                -(collateral + pnl - penalty - reward)
            } else {
                0
            }) - (if reward > 0 {
                reward as int
            } else {
                0
            }),
    {
        self.require_position_manager(caller)?;
        if size <= 0 {
            return Err(PerpsError::InvalidAmount);
        }
        let new_locked = self.locked_liquidity - size;
        if new_locked < 0 {
            return Err(PerpsError::OverflowError);
        }
        let total_deposits = self.total_deposits;
        if pnl > 0 && pnl > total_deposits {
            return Err(PerpsError::InsufficientLiquidity);
        }
        self.locked_liquidity = new_locked;
        self.total_deposits = total_deposits - pnl + penalty;
        let payout = collateral + pnl - penalty - reward;
        if payout > 0 {
            let usdc = self.usdc_token.unwrap();
            let t = Transfer { token: usdc, from: self.address, to: trader, amount: payout };
            proof {
                lemma_net_inflow_push(transfers@, t, usdc, self.address);
            }
            transfers.push(t);
        }
        if reward > 0 {
            let usdc = self.usdc_token.unwrap();
            let t = Transfer { token: usdc, from: self.address, to: keeper, amount: reward };
            proof {
                lemma_net_inflow_push(transfers@, t, usdc, self.address);
            }
            transfers.push(t);
        }
        Ok(())
    }

    // -----------------------------------------------------------------------
    // View functions
    // -----------------------------------------------------------------------

    pub fn get_share_balance(&self, account: Address) -> (b: i128)
        ensures
            b == self.balance(account),
    {
        self.balance_of(account)
    }

    pub fn get_total_shares(&self) -> (s: i128)
        ensures
            s == self.total_shares,
    {
        self.total_shares
    }

    pub fn get_total_deposits(&self) -> (d: i128)
        ensures
            d == self.total_deposits,
    {
        self.total_deposits
    }

    pub fn get_locked_liquidity(&self) -> (l: i128)
        ensures
            l == self.locked_liquidity,
    {
        self.locked_liquidity
    }

    pub fn get_available_liquidity(&self) -> (a: i128)
        requires
            fits_i128(self.total_deposits - self.locked_liquidity),
        ensures
            a == self.total_deposits - self.locked_liquidity,
    {
        self.total_deposits - self.locked_liquidity
    }

    pub fn get_share_price(&self) -> (p: i128)
        requires
            self.total_shares != 0 ==> div_ok(
                self.total_deposits * crate::DECIMALS,
                self.total_shares as int,
            ),
        ensures
            p == share_price(self.total_shares as int, self.total_deposits as int),
    {
        calc_share_price(self.total_shares, self.total_deposits)
    }

    pub fn get_utilization(&self) -> (u: u32)
        requires
            self.total_deposits != 0 ==> div_ok(
                self.locked_liquidity * 10_000,
                self.total_deposits as int,
            ),
        ensures
            u == utilization_bps(self.locked_liquidity as int, self.total_deposits as int) as u32,
    {
        calc_utilization_bps(self.locked_liquidity, self.total_deposits)
    }

    // -----------------------------------------------------------------------
    // Admin functions
    // -----------------------------------------------------------------------

    pub fn set_position_manager(&mut self, admin: Address, pm_address: Address) -> (r: Result<(), PerpsError>)
        requires
            old(self).initialized(),
        ensures
            old(self).admin != Some(admin) ==> r == Err::<(), PerpsError>(PerpsError::Unauthorized)
                && *final(self) == *old(self),
            old(self).admin == Some(admin) ==> {
                &&& r is Ok
                &&& final(self).position_manager == Some(pm_address)
                &&& final(self).address == old(self).address
                &&& final(self).admin == old(self).admin
                &&& final(self).usdc_token == old(self).usdc_token
                &&& final(self).max_utilization == old(self).max_utilization
                &&& final(self).total_shares == old(self).total_shares
                &&& final(self).total_deposits == old(self).total_deposits
                &&& final(self).locked_liquidity == old(self).locked_liquidity
                &&& final(self).share_balances@ == old(self).share_balances@
            },
            old(self).shares_balanced() ==> final(self).shares_balanced(),
    {
        let stored_admin = self.admin.unwrap();
        if admin != stored_admin {
            return Err(PerpsError::Unauthorized);
        }
        self.position_manager = Some(pm_address);
        Ok(())
    }

    pub fn set_max_utilization(&mut self, admin: Address, max_bps: u32) -> (r: Result<(), PerpsError>)
        requires
            old(self).initialized(),
        ensures
            old(self).admin != Some(admin) ==> r == Err::<(), PerpsError>(PerpsError::Unauthorized)
                && *final(self) == *old(self),
            old(self).admin == Some(admin) && (max_bps == 0 || max_bps > 10_000) ==> r == Err::<
                (),
                PerpsError,
            >(PerpsError::InvalidConfig) && *final(self) == *old(self),
            old(self).admin == Some(admin) && 0 < max_bps <= 10_000 ==> {
                &&& r is Ok
                &&& final(self).max_utilization == max_bps
                &&& final(self).address == old(self).address
                &&& final(self).admin == old(self).admin
                &&& final(self).usdc_token == old(self).usdc_token
                &&& final(self).position_manager == old(self).position_manager
                &&& final(self).total_shares == old(self).total_shares
                &&& final(self).total_deposits == old(self).total_deposits
                &&& final(self).locked_liquidity == old(self).locked_liquidity
                &&& final(self).share_balances@ == old(self).share_balances@
            },
            old(self).shares_balanced() ==> final(self).shares_balanced(),
    {
        let stored_admin = self.admin.unwrap();
        if admin != stored_admin {
            return Err(PerpsError::Unauthorized);
        }
        if max_bps == 0 || max_bps > BPS_DENOMINATOR {
            return Err(PerpsError::InvalidConfig);
        }
        self.max_utilization = max_bps;
        Ok(())
    }

}

/// Locking never leaves the vault above its maximum utilization.
pub proof fn lemma_lock_within_max_utilization(v: VaultContract, caller: Address, amount: int)
    requires
        v.lock_error(caller, amount) is None,
    ensures
        utilization_bps(v.locked_liquidity + amount, v.total_deposits as int) as u32 <= v.max_utilization,
{
}

/// A withdrawal leaves either deposits at or under the maximum
/// utilization, or no deposits and nothing locked.
pub proof fn lemma_withdraw_within_max_utilization(v: VaultContract, depositor: Address, share_amount: int)
    requires
        v.withdraw_error(depositor, share_amount) is None,
    ensures
        ({
            let new_total = v.total_deposits - v.redeemed(share_amount);
            ||| new_total > 0 && utilization_bps(v.locked_liquidity as int, new_total) as u32 <= v.max_utilization
            ||| new_total <= 0 && v.locked_liquidity <= 0
        }),
{
}

/// A deposit mints shares in proportion to the pool's value, the LPs'
/// deposits: one per unit into an empty pool, otherwise
/// `amount * total_shares / total_deposits` (truncated). Liquidity locked
/// for open positions does not enter it.
pub proof fn lemma_minted_by_pool_value(v: VaultContract, amount: int)
    ensures
        v.minted(amount) == (if v.total_shares == 0 || v.total_deposits == 0 {
            amount
        } else {
            tdiv(amount * v.total_shares, v.total_deposits as int)
        }),
        forall|locked: i128| #[trigger] (VaultContract { locked_liquidity: locked, ..v }).minted(amount)
            == v.minted(amount),
{
}

/// A withdrawal of shares that the LP holds, which pays something out and
/// leaves deposits behind, succeeds whenever the remaining deposits stay
/// within the maximum utilization: locked liquidity refuses it only through
/// that bound. It pays `share_amount * total_deposits / total_shares`.
pub proof fn lemma_withdraw_succeeds_within_utilization(v: VaultContract, depositor: Address, share_amount: int)
    requires
        0 < share_amount <= v.balance(depositor),
        v.total_shares != 0,
        tdiv(share_amount * v.total_deposits, v.total_shares as int) > 0,
        v.total_deposits - tdiv(share_amount * v.total_deposits, v.total_shares as int) > 0,
        0 <= tdiv(
            v.locked_liquidity * 10_000,
            v.total_deposits - tdiv(share_amount * v.total_deposits, v.total_shares as int),
        ) <= v.max_utilization,
    ensures
        v.withdraw_error(depositor, share_amount) is None,
        v.redeemed(share_amount) == tdiv(share_amount * v.total_deposits, v.total_shares as int),
{
}

/// A withdrawal of shares that the LP holds, which pays something out and
/// leaves deposits behind but would push utilization above the maximum, is
/// refused with `MaxUtilizationExceeded`.
pub proof fn lemma_withdraw_refused_above_utilization(v: VaultContract, depositor: Address, share_amount: int)
    requires
        0 < share_amount <= v.balance(depositor),
        v.total_shares != 0,
        tdiv(share_amount * v.total_deposits, v.total_shares as int) > 0,
        v.total_deposits - tdiv(share_amount * v.total_deposits, v.total_shares as int) > 0,
        v.max_utilization < tdiv(
            v.locked_liquidity * 10_000,
            v.total_deposits - tdiv(share_amount * v.total_deposits, v.total_shares as int),
        ) <= u32::MAX,
    ensures
        v.withdraw_error(depositor, share_amount) == Some(PerpsError::MaxUtilizationExceeded),
{
}

/// For the position manager and a size within the locked liquidity, the
/// vault refuses to settle a closing or liquidated position only for a
/// profit above all its deposits; any other profit or loss settles.
pub proof fn lemma_settlement_refuses_only_excess_profit(v: VaultContract, caller: Address, size: int, pnl: int)
    requires
        v.position_manager == Some(caller),
        0 < size <= v.locked_liquidity,
    ensures
        v.settlement_error(caller, size, pnl) == if pnl > 0 && pnl > v.total_deposits {
            Some(PerpsError::InsufficientLiquidity)
        } else {
            None::<PerpsError>
        },
{
}

} // verus!
