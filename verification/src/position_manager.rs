//! The position manager: opens and closes leveraged positions against the
//! vault at oracle prices, and keeps open interest per side.

use std::collections::HashMap;
use vstd::prelude::*;
use crate::arith::fits_i128;
use crate::math::{
    calculate_fee, calculate_pnl, fee, fee_ok, lemma_liquidation_split, liquidation_split, pnl, pnl_ok,
    split_liquidation,
};
use crate::oracle::OracleAdapterContract;
use crate::sums::{map_sum, lemma_map_sum_empty, lemma_map_sum_insert, lemma_map_sum_nonneg, lemma_map_sum_remove};
use crate::types::{cash_in, lemma_net_inflow_push, Address, Direction, PerpsError, Position, Transfer};
use crate::vault::VaultContract;

verus! {

broadcast use vstd::std_specs::hash::group_hash_axioms;

/// Storage of the position manager contract.
pub struct PositionManagerContract {
    pub address: Address,
    pub admin: Option<Address>,
    pub vault: Option<Address>,
    pub oracle: Option<Address>,
    pub usdc_token: Option<Address>,
    pub funding: Option<Address>,
    /// The only contract allowed to force-close positions.
    pub liquidation_engine: Option<Address>,
    /// Identifier that the next opened position receives.
    pub next_position_id: u64,
    pub open_fee_rate: u32,
    pub close_fee_rate: u32,
    pub max_leverage: u32,
    pub min_collateral: i128,
    pub open_interest_long: i128,
    pub open_interest_short: i128,
    /// Open positions by identifier. Identifiers are never reused, so a
    /// position is found by its trader and identifier.
    pub positions: HashMap<u64, Position>,
    /// Number of open positions of each trader, by address number.
    pub position_counts: HashMap<u64, u64>,
}

/// Loss is capped at the collateral: profit of a closing position as
/// booked against the vault.
pub open spec fn capped_pnl(p: Position, price: int) -> int {
    let raw = pnl(p.direction, p.size as int, p.entry_price as int, price);
    if raw < -p.collateral {
        -p.collateral
    } else {
        raw
    }
}

/// USDC that the vault answers for: the LPs' pool and the collateral that
/// the open positions have posted.
pub open spec fn backing(vault: VaultContract, pm: PositionManagerContract) -> int {
    vault.total_deposits + pm.total_collateral()
}

/// The part of a closing fee that the equity left to a position after its
/// (capped) PnL cannot pay.
pub open spec fn fee_shortfall(collateral: int, capped: int, close_fee: int) -> int {
    if close_fee > collateral + capped {
        close_fee - (collateral + capped)
    } else {
        0
    }
}

impl PositionManagerContract {
    pub open spec fn initialized(self) -> bool {
        self.admin is Some
    }

    /// The position `id` of `trader`, if it is open.
    pub open spec fn position(self, trader: Address, id: u64) -> Option<Position> {
        if self.positions@.contains_key(id) && self.positions@[id].trader == trader {
            Some(self.positions@[id])
        } else {
            None
        }
    }

    /// Number of open positions recorded for `trader`.
    pub open spec fn count(self, trader: Address) -> int {
        if self.position_counts@.contains_key(trader.0) {
            self.position_counts@[trader.0] as int
        } else {
            0
        }
    }

    /// Open interest on one side.
    pub open spec fn open_interest(self, direction: Direction) -> int {
        match direction {
            Direction::Long => self.open_interest_long as int,
            Direction::Short => self.open_interest_short as int,
        }
    }

    /// Total notional size of the open positions on `direction`'s side.
    pub open spec fn side_total(self, direction: Direction) -> int {
        map_sum(self.positions@, |p: Position| if p.direction == direction { p.size as int } else { 0 })
    }

    /// Total notional size of all open positions.
    pub open spec fn total_size(self) -> int {
        map_sum(self.positions@, |p: Position| p.size as int)
    }

    /// Collateral posted by all open positions.
    pub open spec fn total_collateral(self) -> int {
        map_sum(self.positions@, |p: Position| p.collateral as int)
    }

    /// Number of open positions of `trader`.
    pub open spec fn positions_of(self, trader: Address) -> int {
        map_sum(self.positions@, |p: Position| if p.trader == trader { 1int } else { 0int })
    }

    /// Every open position is stored under its own identifier, below the
    /// next identifier, with positive collateral, size and entry price.
    pub open spec fn positions_wf(self) -> bool {
        forall|id: u64| #[trigger] self.positions@.contains_key(id) ==> {
            let p = self.positions@[id];
            &&& p.id == id
            &&& id < self.next_position_id
            &&& p.collateral > 0
            &&& p.size > 0
            &&& p.entry_price > 0
        }
    }

    /// Open interest of each side is the total size of its open positions,
    /// and each trader's count is the number of their open positions.
    pub open spec fn books_balance(self) -> bool {
        &&& self.open_interest_long == self.side_total(Direction::Long)
        &&& self.open_interest_short == self.side_total(Direction::Short)
        &&& forall|t: Address| #[trigger] self.count(t) == self.positions_of(t)
    }

    /// The position manager is initialized and wired to its vault, oracle
    /// and token; its positions are well formed and its books balance.
    pub open spec fn wf(self) -> bool {
        &&& self.admin is Some
        &&& self.vault is Some
        &&& self.oracle is Some
        &&& self.usdc_token is Some
        &&& self.positions_wf()
        &&& self.books_balance()
    }

    /// `vault` and `oracle` are the contracts at this manager's addresses.
    pub open spec fn wired(self, vault: VaultContract, oracle: OracleAdapterContract) -> bool {
        &&& self.vault == Some(vault.address)
        &&& self.oracle == Some(oracle.address)
    }

    /// Everything but positions, counters, open interest and the
    /// position identifier counter agrees.
    pub open spec fn same_settings(self, other: Self) -> bool {
        &&& self.address == other.address
        &&& self.admin == other.admin
        &&& self.vault == other.vault
        &&& self.oracle == other.oracle
        &&& self.usdc_token == other.usdc_token
        &&& self.funding == other.funding
        &&& self.liquidation_engine == other.liquidation_engine
        &&& self.open_fee_rate == other.open_fee_rate
        &&& self.close_fee_rate == other.close_fee_rate
        &&& self.max_leverage == other.max_leverage
        &&& self.min_collateral == other.min_collateral
    }

    /// Open interest after `delta` is added on `direction`'s side.
    pub open spec fn interest_moved(self, other: Self, direction: Direction, delta: int) -> bool {
        match direction {
            Direction::Long => {
                &&& self.open_interest_long == other.open_interest_long + delta
                &&& self.open_interest_short == other.open_interest_short
            },
            Direction::Short => {
                &&& self.open_interest_short == other.open_interest_short + delta
                &&& self.open_interest_long == other.open_interest_long
            },
        }
    }

    /// A freshly deployed, uninitialized position manager at `address`.
    pub fn new(address: Address) -> (pm: Self)
        ensures
            pm.address == address,
            pm.admin is None,
            pm.vault is None,
            pm.oracle is None,
            pm.usdc_token is None,
            pm.funding is None,
            pm.liquidation_engine is None,
            pm.next_position_id == 1,
            pm.open_fee_rate == 10,
            pm.close_fee_rate == 10,
            pm.max_leverage == 30,
            pm.min_collateral == 10_0000000,
            pm.open_interest_long == 0,
            pm.open_interest_short == 0,
            pm.positions@ == Map::<u64, Position>::empty(),
            pm.position_counts@ == Map::<u64, u64>::empty(),
    {
        PositionManagerContract {
            address,
            admin: None,
            vault: None,
            oracle: None,
            usdc_token: None,
            funding: None,
            liquidation_engine: None,
            next_position_id: 1,
            open_fee_rate: 10,
            close_fee_rate: 10,
            max_leverage: 30,
            min_collateral: 10_0000000,
            open_interest_long: 0,
            open_interest_short: 0,
            positions: HashMap::new(),
            position_counts: HashMap::new(),
        }
    }

    /// The error with which `initialize` fails, if any.
    pub open spec fn initialize_error(self, open_fee_bps: u32, close_fee_bps: u32, max_leverage: u32) -> Option<PerpsError> {
        if self.initialized() {
            Some(PerpsError::AlreadyInitialized)
        } else if max_leverage == 0 || open_fee_bps > 1000 || close_fee_bps > 1000 {
            Some(PerpsError::InvalidConfig)
        } else {
            None
        }
    }

    /// Initialize the position manager.
    pub fn initialize(
        &mut self,
        admin: Address,
        vault: Address,
        oracle: Address,
        usdc_token: Address,
        open_fee_bps: u32,
        close_fee_bps: u32,
        max_leverage: u32,
        min_collateral: i128,
    ) -> (r: Result<(), PerpsError>)
        ensures
            (match old(self).initialize_error(open_fee_bps, close_fee_bps, max_leverage) {
                Some(e) => r == Err::<(), PerpsError>(e) && *final(self) == *old(self),
                None => {
                    &&& r is Ok
                    &&& final(self).admin == Some(admin)
                    &&& final(self).vault == Some(vault)
                    &&& final(self).oracle == Some(oracle)
                    &&& final(self).usdc_token == Some(usdc_token)
                    &&& final(self).open_fee_rate == open_fee_bps
                    &&& final(self).close_fee_rate == close_fee_bps
                    &&& final(self).max_leverage == max_leverage
                    &&& final(self).min_collateral == min_collateral
                    &&& final(self).open_interest_long == 0
                    &&& final(self).open_interest_short == 0
                    &&& final(self).address == old(self).address
                    &&& final(self).funding == old(self).funding
                    &&& final(self).liquidation_engine == old(self).liquidation_engine
                    &&& final(self).next_position_id == old(self).next_position_id
                    &&& final(self).positions == old(self).positions
                    &&& final(self).position_counts == old(self).position_counts
                    &&& (old(self).positions@ == Map::<u64, Position>::empty()
                        && old(self).position_counts@ == Map::<u64, u64>::empty() ==> final(self).wf())
                },
            }),
    {
        if self.admin.is_some() {
            return Err(PerpsError::AlreadyInitialized);
        }
        if max_leverage == 0 || open_fee_bps > 1000 || close_fee_bps > 1000 {
            return Err(PerpsError::InvalidConfig);
        }
        self.admin = Some(admin);
        self.vault = Some(vault);
        self.oracle = Some(oracle);
        self.usdc_token = Some(usdc_token);
        self.open_fee_rate = open_fee_bps;
        self.close_fee_rate = close_fee_bps;
        self.max_leverage = max_leverage;
        self.min_collateral = min_collateral;
        self.open_interest_long = 0;
        self.open_interest_short = 0;
        proof {
            if old(self).positions@ == Map::<u64, Position>::empty()
                && old(self).position_counts@ == Map::<u64, u64>::empty() {
                lemma_map_sum_empty(|q: Position| if q.direction == Direction::Long { q.size as int } else { 0 });
                lemma_map_sum_empty(|q: Position| if q.direction == Direction::Short { q.size as int } else { 0 });
                assert forall|t: Address| #[trigger] self.count(t) == self.positions_of(t) by {
                    lemma_map_sum_empty(|q: Position| if q.trader == t { 1int } else { 0int });
                }
            }
        }
        Ok(())
    }

    fn count_of(&self, trader: Address) -> (c: u64)
        ensures
            c == self.count(trader),
    {
        match self.position_counts.get(&trader.0) {
            Some(c) => *c,
            None => 0,
        }
    }

    fn find_position(&self, trader: Address, id: u64) -> (p: Option<Position>)
        ensures
            p == self.position(trader, id),
    {
        match self.positions.get(&id) {
            Some(p) => {
                if p.trader == trader {
                    Some(*p)
                } else {
                    None
                }
            },
            None => None,
        }
    }

    /// The error with which `open_position` fails, if any.
    pub open spec fn open_error(
        self,
        vault: VaultContract,
        oracle: OracleAdapterContract,
        now: u64,
        asset: u32,
        collateral: int,
        leverage: u32,
    ) -> Option<PerpsError> {
        let size = collateral * leverage;
        let open_fee = fee(size, self.open_fee_rate as int);
        if collateral < self.min_collateral {
            Some(PerpsError::MinCollateralNotMet)
        } else if leverage == 0 || leverage > self.max_leverage {
            Some(PerpsError::InvalidLeverage)
        } else {
            match oracle.price_value_at(asset, now) {
                Err(e) => Some(e),
                Ok(_) => if vault.lock_error(self.address, size) is Some {
                    vault.lock_error(self.address, size)
                } else {
                    vault.fee_error(self.address, open_fee)
                },
            }
        }
    }

    /// Opening this position neither overflows nor reads a price from the
    /// future.
    pub open spec fn open_defined(
        self,
        vault: VaultContract,
        oracle: OracleAdapterContract,
        now: u64,
        trader: Address,
        asset: u32,
        direction: Direction,
        collateral: int,
        leverage: u32,
    ) -> bool {
        let size = collateral * leverage;
        let open_fee = fee(size, self.open_fee_rate as int);
        collateral >= self.min_collateral && 0 < leverage <= self.max_leverage ==> {
            &&& oracle.read_defined(asset, now)
            &&& (oracle.price_value_at(asset, now) is Ok ==> {
                &&& fits_i128(size)
                &&& fee_ok(size, self.open_fee_rate as int)
                &&& fits_i128(collateral + open_fee)
                &&& vault.lock_defined(self.address, size)
                &&& (self.open_error(vault, oracle, now, asset, collateral, leverage) is None ==> {
                    &&& fits_i128(vault.total_deposits + open_fee)
                    &&& self.next_position_id < u64::MAX
                    &&& fits_i128(self.open_interest(direction) + size)
                    &&& self.count(trader) < u64::MAX
                })
            })
        }
    }

    /// Open a new leveraged position at ledger time `now`: the trader pays
    /// collateral plus opening fee into the vault, the vault locks the
    /// notional size and books the fee.
    pub fn open_position(
        &mut self,
        vault: &mut VaultContract,
        oracle: &OracleAdapterContract,
        now: u64,
        trader: Address,
        asset: u32,
        direction: Direction,
        collateral: i128,
        leverage: u32,
        transfers: &mut Vec<Transfer>,
    ) -> (r: Result<u64, PerpsError>)
        requires
            old(self).wf(),
            old(self).wired(*old(vault), *oracle),
            old(self).open_defined(*old(vault), *oracle, now, trader, asset, direction, collateral as int, leverage),
        ensures
            old(vault).locked_liquidity == old(self).total_size() ==> final(vault).locked_liquidity
                == final(self).total_size(),
            (match old(self).open_error(*old(vault), *oracle, now, asset, collateral as int, leverage) {
                Some(e) => {
                    &&& r == Err::<u64, PerpsError>(e)
                    &&& *final(self) == *old(self)
                    &&& *final(vault) == *old(vault)
                    &&& final(transfers)@ == old(transfers)@
                },
                None => {
                    let size = collateral * leverage;
                    let open_fee = fee(size, old(self).open_fee_rate as int);
                    let id = old(self).next_position_id;
                    let price = oracle.price_value_at(asset, now)->Ok_0;
                    &&& r == Ok::<u64, PerpsError>(id)
                    &&& final(self).same_settings(*old(self))
                    &&& final(self).next_position_id == id + 1
                    &&& final(self).positions@ == old(self).positions@.insert(
                        id,
                        Position {
                            id: id,
                            trader: trader,
                            asset: asset,
                            direction: direction,
                            size: size as i128,
                            collateral: collateral,
                            entry_price: price,
                            leverage: leverage,
                            funding_index: 0,
                            opened_at: now,
                        },
                    )
                    &&& final(self).interest_moved(*old(self), direction, size)
                    &&& final(self).position_counts@ == old(self).position_counts@.insert(
                        trader.0,
                        (old(self).count(trader) + 1) as u64,
                    )
                    &&& final(vault).same_except_totals(*old(vault))
                    &&& final(vault).locked_liquidity == old(vault).locked_liquidity + size
                    &&& final(vault).total_deposits == old(vault).total_deposits + open_fee
                    &&& final(vault).total_shares == old(vault).total_shares
                    &&& final(transfers)@ == old(transfers)@.push(
                        Transfer {
                            token: old(self).usdc_token->0,
                            from: trader,
                            to: old(vault).address,
                            amount: (collateral + open_fee) as i128,
                        },
                    )
                    &&& (oracle.wf() ==> final(self).wf())
                },
            }),
            r is Ok && trader != old(vault).address && old(self).usdc_token == old(vault).usdc_token
                ==> cash_in(old(transfers)@, final(transfers)@, old(vault).usdc_token->0, old(vault).address)
                == backing(*final(vault), *final(self)) - backing(*old(vault), *old(self)),
    {
        if collateral < self.min_collateral {
            return Err(PerpsError::MinCollateralNotMet);
        }
        if leverage == 0 || leverage > self.max_leverage {
            return Err(PerpsError::InvalidLeverage);
        }
        let entry_price = oracle.get_price_value(asset, now)?;
        let size = collateral * (leverage as i128);
        let open_fee = calculate_fee(size, self.open_fee_rate);
        let total_cost = collateral + open_fee;
        let usdc = self.usdc_token.unwrap();
        let vault_address = self.vault.unwrap();
        let locked_before = vault.locked_liquidity;
        vault.lock_liquidity(self.address, size)?;
        assert(collateral > 0) by (nonlinear_arith)
            requires
                size == collateral * leverage,
                size > 0,
                leverage > 0,
        ;
        match vault.collect_fee(self.address, open_fee) {
            Ok(()) => {},
            Err(e) => {
                vault.locked_liquidity = locked_before;
                return Err(e);
            },
        }
        let t = Transfer { token: usdc, from: trader, to: vault_address, amount: total_cost };
        proof {
            lemma_net_inflow_push(transfers@, t, usdc, vault_address);
        }
        transfers.push(t);
        let position_id = self.next_position_id;
        self.next_position_id = position_id + 1;
        let position = Position {
            id: position_id,
            trader,
            asset,
            direction,
            size,
            collateral,
            entry_price,
            leverage,
            funding_index: 0,
            opened_at: now,
        };
        self.positions.insert(position_id, position);
        match direction {
            Direction::Long => {
                self.open_interest_long = self.open_interest_long + size;
            },
            Direction::Short => {
                self.open_interest_short = self.open_interest_short + size;
            },
        }
        let count = self.count_of(trader);
        self.position_counts.insert(trader.0, count + 1);
        proof {
            Self::lemma_open_keeps_books(*old(self), *self, position);
            lemma_map_sum_insert(old(self).positions@, |q: Position| q.size as int, position_id, position);
            lemma_map_sum_insert(old(self).positions@, |q: Position| q.collateral as int, position_id, position);
        }
        Ok(position_id)
    }

    /// The state after position `p` has left: it is removed, its size
    /// leaves open interest, and its trader's count drops by one if
    /// positive.
    pub open spec fn retired(self, before: Self, p: Position) -> bool {
        &&& self.same_settings(before)
        &&& self.next_position_id == before.next_position_id
        &&& self.positions@ == before.positions@.remove(p.id)
        &&& self.interest_moved(before, p.direction, -p.size)
        &&& self.position_counts@ == if before.count(p.trader) > 0 {
            before.position_counts@.insert(p.trader.0, (before.count(p.trader) - 1) as u64)
        } else {
            before.position_counts@
        }
    }


    /// Adding a new position keeps the books balanced.
    proof fn lemma_open_keeps_books(before: Self, after: Self, p: Position)
        requires
            before.books_balance(),
            !before.positions@.contains_key(p.id),
            after.positions@ == before.positions@.insert(p.id, p),
            after.interest_moved(before, p.direction, p.size as int),
            after.position_counts@ == before.position_counts@.insert(
                p.trader.0,
                (before.count(p.trader) + 1) as u64,
            ),
            before.count(p.trader) + 1 <= u64::MAX,
        ensures
            after.books_balance(),
    {
        let m = before.positions@;
        lemma_map_sum_insert(m, |q: Position| if q.direction == Direction::Long { q.size as int } else { 0 }, p.id, p);
        lemma_map_sum_insert(m, |q: Position| if q.direction == Direction::Short { q.size as int } else { 0 }, p.id, p);
        assert forall|t: Address| #[trigger] after.count(t) == after.positions_of(t) by {
            lemma_map_sum_insert(m, |q: Position| if q.trader == t { 1int } else { 0int }, p.id, p);
            assert(before.count(t) == before.positions_of(t));
        }
    }

    /// Removing a position keeps the books balanced.
    proof fn lemma_retire_keeps_books(before: Self, after: Self, p: Position)
        requires
            before.books_balance(),
            before.positions@.contains_key(p.id),
            before.positions@[p.id] == p,
            after.retired(before, p),
        ensures
            after.books_balance(),
    {
        let m = before.positions@;
        lemma_map_sum_remove(m, |q: Position| if q.direction == Direction::Long { q.size as int } else { 0 }, p.id);
        lemma_map_sum_remove(m, |q: Position| if q.direction == Direction::Short { q.size as int } else { 0 }, p.id);
        let own = |q: Position| if q.trader == p.trader { 1int } else { 0int };
        lemma_map_sum_remove(m, own, p.id);
        lemma_map_sum_nonneg(m.remove(p.id), own);
        assert(before.count(p.trader) == before.positions_of(p.trader));
        assert forall|t: Address| #[trigger] after.count(t) == after.positions_of(t) by {
            lemma_map_sum_remove(m, |q: Position| if q.trader == t { 1int } else { 0int }, p.id);
            assert(before.count(t) == before.positions_of(t));
        }
    }

    fn retire_position(&mut self, p: Position)
        requires
            old(self).positions@.contains_key(p.id),
            old(self).positions@[p.id] == p,
            fits_i128(old(self).open_interest(p.direction) - p.size),
        ensures
            final(self).retired(*old(self), p),
            old(self).wf() ==> final(self).wf(),
            final(self).total_size() == old(self).total_size() - p.size,
            final(self).total_collateral() == old(self).total_collateral() - p.collateral,
    {
        self.positions.remove(&p.id);
        match p.direction {
            Direction::Long => {
                self.open_interest_long = self.open_interest_long - p.size;
            },
            Direction::Short => {
                self.open_interest_short = self.open_interest_short - p.size;
            },
        }
        let count = self.count_of(p.trader);
        if count > 0 {
            self.position_counts.insert(p.trader.0, count - 1);
        }
        proof {
            if old(self).wf() {
                Self::lemma_retire_keeps_books(*old(self), *self, p);
            }
            lemma_map_sum_remove(old(self).positions@, |q: Position| q.size as int, p.id);
            lemma_map_sum_remove(old(self).positions@, |q: Position| q.collateral as int, p.id);
        }
    }

    /// The error with which settling position `id` of `trader` at the
    /// price of `asset` fails, if any, once the caller is allowed: a
    /// missing position, a position on another asset, a stale price, or a
    /// refusal of the vault.
    pub open spec fn settle_position_error(
        self,
        vault: VaultContract,
        oracle: OracleAdapterContract,
        now: u64,
        trader: Address,
        id: u64,
        asset: u32,
    ) -> Option<PerpsError> {
        match self.position(trader, id) {
            None => Some(PerpsError::PositionNotFound),
            Some(p) => if p.trader != trader {
                Some(PerpsError::Unauthorized)
            } else if p.asset != asset {
                Some(PerpsError::AssetMismatch)
            } else {
                match oracle.price_value_at(asset, now) {
                    Err(e) => Some(e),
                    Ok(price) => vault.settlement_error(self.address, p.size as int, capped_pnl(p, price as int)),
                }
            },
        }
    }

    /// Settling position `id` of `trader` with closing fee rate `fee_bps`
    /// neither overflows nor reads a price from the future.
    pub open spec fn settle_position_defined(
        self,
        vault: VaultContract,
        oracle: OracleAdapterContract,
        now: u64,
        trader: Address,
        id: u64,
        asset: u32,
        fee_bps: u32,
    ) -> bool {
        match self.position(trader, id) {
            None => true,
            Some(p) => p.asset == asset ==> {
                &&& oracle.read_defined(asset, now)
                &&& (oracle.price_value_at(asset, now) matches Ok(price) ==> {
                    let capped = capped_pnl(p, price as int);
                    let close_fee = fee(p.size as int, fee_bps as int);
                    &&& pnl_ok(p.direction, p.size as int, p.entry_price as int, price as int)
                    &&& fee_ok(p.size as int, fee_bps as int)
                    &&& fits_i128(capped - close_fee)
                    &&& vault.settlement_defined(self.address, p.size as int, p.collateral as int, capped, close_fee)
                    &&& (vault.settlement_error(self.address, p.size as int, capped) is None ==> fits_i128(
                        self.open_interest(p.direction) - p.size,
                    ))
                })
            },
        }
    }

    /// Close a position at ledger time `now` and settle its PnL; returns
    /// the net PnL after the closing fee. Loss is capped at the collateral.
    pub fn close_position(
        &mut self,
        vault: &mut VaultContract,
        oracle: &OracleAdapterContract,
        now: u64,
        trader: Address,
        position_id: u64,
        asset: u32,
        transfers: &mut Vec<Transfer>,
    ) -> (r: Result<i128, PerpsError>)
        requires
            old(self).wf(),
            old(self).wired(*old(vault), *oracle),
            old(self).settle_position_defined(*old(vault), *oracle, now, trader, position_id, asset, old(self).close_fee_rate),
        ensures
            old(vault).locked_liquidity == old(self).total_size() ==> final(vault).locked_liquidity
                == final(self).total_size(),
            (match old(self).settle_position_error(*old(vault), *oracle, now, trader, position_id, asset) {
                Some(e) => {
                    &&& r == Err::<i128, PerpsError>(e)
                    &&& *final(self) == *old(self)
                    &&& *final(vault) == *old(vault)
                    &&& final(transfers)@ == old(transfers)@
                },
                None => {
                    let p = old(self).position(trader, position_id)->0;
                    let capped = capped_pnl(p, oracle.price_value_at(asset, now)->Ok_0 as int);
                    let close_fee = fee(p.size as int, old(self).close_fee_rate as int);
                    let payout = VaultContract::settlement_payout(p.collateral as int, capped, close_fee);
                    &&& r == Ok::<i128, PerpsError>((capped - close_fee) as i128)
                    &&& (trader != old(vault).address ==> backing(*final(vault), *final(self)) - backing(
                        *old(vault),
                        *old(self),
                    ) == cash_in(old(transfers)@, final(transfers)@, old(vault).usdc_token->0, old(vault).address)
                        + fee_shortfall(p.collateral as int, capped, close_fee))
                    &&& final(self).retired(*old(self), p)
                    &&& final(self).wf()
                    &&& final(vault).same_except_totals(*old(vault))
                    &&& final(vault).locked_liquidity == old(vault).locked_liquidity - p.size
                    &&& final(vault).total_deposits == old(vault).total_deposits - capped + close_fee
                    &&& final(vault).total_shares == old(vault).total_shares
                    &&& final(transfers)@ == if payout > 0 {
                        old(transfers)@.push(old(vault).payout(trader, payout))
                    } else {
                        old(transfers)@
                    }
                },
            }),
    {
        let position = match self.find_position(trader, position_id) {
            Some(p) => p,
            None => {
                return Err(PerpsError::PositionNotFound);
            },
        };
        if position.trader != trader {
            return Err(PerpsError::Unauthorized);
        }
        if position.asset != asset {
            return Err(PerpsError::AssetMismatch);
        }
        let current_price = oracle.get_price_value(asset, now)?;
        let price_pnl = calculate_pnl(&position.direction, position.size, position.entry_price, current_price);
        let floor = -position.collateral;
        let capped = if price_pnl < floor {
            floor
        } else {
            price_pnl
        };
        let close_fee = calculate_fee(position.size, self.close_fee_rate);
        let net_pnl = capped - close_fee;
        vault.close_position_settlement(
            self.address,
            trader,
            position.size,
            position.collateral,
            capped,
            close_fee,
            transfers,
        )?;
        self.retire_position(position);
        Ok(net_pnl)
    }

    /// Get a position's details.
    pub fn get_position(&self, trader: Address, position_id: u64) -> (r: Result<Position, PerpsError>)
        ensures
            r == (match self.position(trader, position_id) {
                Some(p) => Ok::<Position, PerpsError>(p),
                None => Err::<Position, PerpsError>(PerpsError::PositionNotFound),
            }),
    {
        match self.find_position(trader, position_id) {
            Some(p) => Ok(p),
            None => Err(PerpsError::PositionNotFound),
        }
    }

    /// What `get_unrealized_pnl` answers: the position's PnL at the current
    /// price of its asset, uncapped.
    pub open spec fn unrealized_pnl_at(
        self,
        oracle: OracleAdapterContract,
        now: u64,
        trader: Address,
        id: u64,
        asset: u32,
    ) -> Result<i128, PerpsError> {
        match self.position(trader, id) {
            None => Err(PerpsError::PositionNotFound),
            Some(p) => if p.asset != asset {
                Err(PerpsError::AssetMismatch)
            } else {
                match oracle.price_value_at(asset, now) {
                    Err(e) => Err(e),
                    Ok(price) => Ok(pnl(p.direction, p.size as int, p.entry_price as int, price as int) as i128),
                }
            },
        }
    }

    /// Computing the unrealized PnL neither overflows nor reads a price
    /// from the future.
    pub open spec fn unrealized_defined(
        self,
        oracle: OracleAdapterContract,
        now: u64,
        trader: Address,
        id: u64,
        asset: u32,
    ) -> bool {
        match self.position(trader, id) {
            None => true,
            Some(p) => p.asset == asset ==> {
                &&& oracle.read_defined(asset, now)
                &&& (oracle.price_value_at(asset, now) matches Ok(price) ==> pnl_ok(
                    p.direction,
                    p.size as int,
                    p.entry_price as int,
                    price as int,
                ))
            },
        }
    }

    /// Calculate unrealized PnL for a position at the current oracle price.
    pub fn get_unrealized_pnl(
        &self,
        oracle: &OracleAdapterContract,
        now: u64,
        trader: Address,
        position_id: u64,
        asset: u32,
    ) -> (r: Result<i128, PerpsError>)
        requires
            self.oracle == Some(oracle.address),
            self.unrealized_defined(*oracle, now, trader, position_id, asset),
        ensures
            r == self.unrealized_pnl_at(*oracle, now, trader, position_id, asset),
    {
        let position = match self.find_position(trader, position_id) {
            Some(p) => p,
            None => {
                return Err(PerpsError::PositionNotFound);
            },
        };
        if position.asset != asset {
            return Err(PerpsError::AssetMismatch);
        }
        let current_price = oracle.get_price_value(asset, now)?;
        let pnl = calculate_pnl(&position.direction, position.size, position.entry_price, current_price);
        Ok(pnl)
    }

    /// The error with which `liquidate_position` rejects `caller`, if any.
    pub open spec fn liquidator_error(self, caller: Address) -> Option<PerpsError> {
        match self.liquidation_engine {
            None => Some(PerpsError::NotInitialized),
            Some(le) => if caller != le {
                Some(PerpsError::Unauthorized)
            } else {
                None
            },
        }
    }

    /// The error with which `liquidate_position` fails, if any.
    pub open spec fn liquidate_position_error(
        self,
        vault: VaultContract,
        oracle: OracleAdapterContract,
        now: u64,
        caller: Address,
        trader: Address,
        id: u64,
        asset: u32,
    ) -> Option<PerpsError> {
        if self.liquidator_error(caller) is Some {
            self.liquidator_error(caller)
        } else {
            self.settle_position_error(vault, oracle, now, trader, id, asset)
        }
    }

    /// Liquidating position `id` of `trader` with the engine's penalty and
    /// reward rates neither overflows nor reads a price from the future.
    pub open spec fn liquidation_defined(
        self,
        vault: VaultContract,
        oracle: OracleAdapterContract,
        now: u64,
        trader: Address,
        id: u64,
        asset: u32,
        penalty_bps: u32,
        reward_bps: u32,
    ) -> bool {
        match self.position(trader, id) {
            None => true,
            Some(p) => p.asset == asset ==> {
                &&& oracle.read_defined(asset, now)
                &&& (oracle.price_value_at(asset, now) matches Ok(price) ==> {
                    let capped = capped_pnl(p, price as int);
                    let split = liquidation_split(p.collateral as int, capped, penalty_bps as int, reward_bps as int);
                    &&& pnl_ok(p.direction, p.size as int, p.entry_price as int, price as int)
                    &&& fits_i128(p.collateral + capped)
                    &&& (p.collateral + capped > 0 ==> {
                        &&& fits_i128(p.collateral * penalty_bps)
                        &&& fits_i128(p.collateral * reward_bps)
                    })
                    &&& vault.liquidation_settlement_defined(
                        self.address,
                        p.size as int,
                        p.collateral as int,
                        capped,
                        split.1,
                        split.0,
                    )
                    &&& (vault.settlement_error(self.address, p.size as int, capped) is None ==> fits_i128(
                        self.open_interest(p.direction) - p.size,
                    ))
                })
            },
        }
    }

    /// Force-close a position (called by liquidation engine only), with no
    /// trading fee, charging the engine's keeper reward and penalty on its
    /// collateral (`liquidation_split`): the keeper `keeper` is paid its
    /// reward, the pool keeps the penalty, and the trader receives what is
    /// left of the equity, nothing when the two exceed it. Returns the
    /// position's collateral and its PnL, loss capped at the collateral.
    pub fn liquidate_position(
        &mut self,
        vault: &mut VaultContract,
        oracle: &OracleAdapterContract,
        now: u64,
        caller: Address,
        trader: Address,
        position_id: u64,
        asset: u32,
        keeper: Address,
        penalty_bps: u32,
        reward_bps: u32,
        transfers: &mut Vec<Transfer>,
    ) -> (r: Result<(i128, i128), PerpsError>)
        requires
            old(self).wf(),
            old(self).wired(*old(vault), *oracle),
            old(self).liquidator_error(caller) is None ==> old(self).liquidation_defined(
                *old(vault),
                *oracle,
                now,
                trader,
                position_id,
                asset,
                penalty_bps,
                reward_bps,
            ),
        ensures
            old(vault).locked_liquidity == old(self).total_size() ==> final(vault).locked_liquidity
                == final(self).total_size(),
            (match old(self).liquidate_position_error(*old(vault), *oracle, now, caller, trader, position_id, asset) {
                Some(e) => {
                    &&& r == Err::<(i128, i128), PerpsError>(e)
                    &&& *final(self) == *old(self)
                    &&& *final(vault) == *old(vault)
                    &&& final(transfers)@ == old(transfers)@
                },
                None => {
                    let p = old(self).position(trader, position_id)->0;
                    let capped = capped_pnl(p, oracle.price_value_at(asset, now)->Ok_0 as int);
                    let split = liquidation_split(p.collateral as int, capped, penalty_bps as int, reward_bps as int);
                    let paid = if split.2 > 0 {
                        old(transfers)@.push(old(vault).payout(trader, split.2))
                    } else {
                        old(transfers)@
                    };
                    &&& r == Ok::<(i128, i128), PerpsError>((p.collateral, capped as i128))
                    &&& (trader != old(vault).address && keeper != old(vault).address ==> backing(
                        *final(vault),
                        *final(self),
                    ) - backing(*old(vault), *old(self)) == cash_in(
                        old(transfers)@,
                        final(transfers)@,
                        old(vault).usdc_token->0,
                        old(vault).address,
                    ) + (if split.2 < 0 {
                        -split.2
                    } else {
                        0
                    }))
                    &&& final(self).retired(*old(self), p)
                    &&& final(self).wf()
                    &&& final(vault).same_except_totals(*old(vault))
                    &&& final(vault).locked_liquidity == old(vault).locked_liquidity - p.size
                    &&& final(vault).total_deposits == old(vault).total_deposits - capped + split.1
                    &&& final(vault).total_shares == old(vault).total_shares
                    &&& final(transfers)@ == if split.0 > 0 {
                        paid.push(old(vault).payout(keeper, split.0))
                    } else {
                        paid
                    }
                },
            }),
    {
        match self.liquidation_engine {
            None => {
                return Err(PerpsError::NotInitialized);
            },
            Some(le) => {
                if caller != le {
                    return Err(PerpsError::Unauthorized);
                }
            },
        }
        let position = match self.find_position(trader, position_id) {
            Some(p) => p,
            None => {
                return Err(PerpsError::PositionNotFound);
            },
        };
        if position.trader != trader {
            return Err(PerpsError::Unauthorized);
        }
        if position.asset != asset {
            return Err(PerpsError::AssetMismatch);
        }
        let current_price = oracle.get_price_value(asset, now)?;
        let price_pnl = calculate_pnl(&position.direction, position.size, position.entry_price, current_price);
        let floor = -position.collateral;
        let capped = if price_pnl < floor {
            floor
        } else {
            price_pnl
        };
        let (reward, kept) = split_liquidation(position.collateral, capped, penalty_bps, reward_bps);
        proof {
            lemma_liquidation_split(position.collateral as int, capped as int, penalty_bps as int, reward_bps as int);
        }
        vault.liquidation_settlement(
            self.address,
            trader,
            keeper,
            position.size,
            position.collateral,
            capped,
            kept,
            reward,
            transfers,
        )?;
        self.retire_position(position);
        Ok((position.collateral, capped))
    }

    // -----------------------------------------------------------------------
    // View functions
    // -----------------------------------------------------------------------

    pub fn get_open_interest_long(&self) -> (oi: i128)
        ensures
            oi == self.open_interest_long,
    {
        self.open_interest_long
    }

    pub fn get_open_interest_short(&self) -> (oi: i128)
        ensures
            oi == self.open_interest_short,
    {
        self.open_interest_short
    }

    pub fn get_trader_position_count(&self, trader: Address) -> (c: u64)
        ensures
            c == self.count(trader),
    {
        self.count_of(trader)
    }

    // -----------------------------------------------------------------------
    // Admin functions
    // -----------------------------------------------------------------------

    /// Only the fee rates, the leverage limit and the wiring to the
    /// liquidation engine and funding contract may differ from `other`.
    pub open spec fn same_book(self, other: Self) -> bool {
        &&& self.address == other.address
        &&& self.admin == other.admin
        &&& self.vault == other.vault
        &&& self.oracle == other.oracle
        &&& self.usdc_token == other.usdc_token
        &&& self.min_collateral == other.min_collateral
        &&& self.next_position_id == other.next_position_id
        &&& self.open_interest_long == other.open_interest_long
        &&& self.open_interest_short == other.open_interest_short
        &&& self.positions == other.positions
        &&& self.position_counts == other.position_counts
    }

    /// A state that keeps another's book is well formed with it.
    proof fn lemma_same_book_keeps_wf(after: Self, before: Self)
        requires
            before.wf(),
            after.same_book(before),
        ensures
            after.wf(),
    {
        assert forall|t: Address| #[trigger] after.count(t) == after.positions_of(t) by {
            assert(before.count(t) == before.positions_of(t));
        }
    }

    /// Admin sets the opening and closing fee rates; neither may exceed
    /// 10% (1000 bps).
    pub fn set_fee_rates(&mut self, admin: Address, open_bps: u32, close_bps: u32) -> (r: Result<(), PerpsError>)
        requires
            old(self).initialized(),
        ensures
            old(self).admin != Some(admin) ==> r == Err::<(), PerpsError>(PerpsError::Unauthorized)
                && *final(self) == *old(self),
            old(self).admin == Some(admin) && (open_bps > 1000 || close_bps > 1000) ==> r == Err::<
                (),
                PerpsError,
            >(PerpsError::InvalidConfig) && *final(self) == *old(self),
            old(self).admin == Some(admin) && open_bps <= 1000 && close_bps <= 1000 ==> {
                &&& r is Ok
                &&& final(self).open_fee_rate == open_bps
                &&& final(self).close_fee_rate == close_bps
                &&& final(self).max_leverage == old(self).max_leverage
                &&& final(self).funding == old(self).funding
                &&& final(self).liquidation_engine == old(self).liquidation_engine
                &&& final(self).same_book(*old(self))
            },
            old(self).wf() ==> final(self).wf(),
    {
        let stored_admin = self.admin.unwrap();
        if admin != stored_admin {
            return Err(PerpsError::Unauthorized);
        }
        if open_bps > 1000 || close_bps > 1000 {
            return Err(PerpsError::InvalidConfig);
        }
        self.open_fee_rate = open_bps;
        self.close_fee_rate = close_bps;
        proof {
            if old(self).wf() {
                Self::lemma_same_book_keeps_wf(*self, *old(self));
            }
        }
        Ok(())
    }

    pub fn set_max_leverage(&mut self, admin: Address, max: u32) -> (r: Result<(), PerpsError>)
        requires
            old(self).initialized(),
        ensures
            old(self).admin != Some(admin) ==> r == Err::<(), PerpsError>(PerpsError::Unauthorized)
                && *final(self) == *old(self),
            old(self).admin == Some(admin) && max == 0 ==> r == Err::<(), PerpsError>(
                PerpsError::InvalidConfig,
            ) && *final(self) == *old(self),
            old(self).admin == Some(admin) && max > 0 ==> {
                &&& r is Ok
                &&& final(self).max_leverage == max
                &&& final(self).open_fee_rate == old(self).open_fee_rate
                &&& final(self).close_fee_rate == old(self).close_fee_rate
                &&& final(self).funding == old(self).funding
                &&& final(self).liquidation_engine == old(self).liquidation_engine
                &&& final(self).same_book(*old(self))
            },
            old(self).wf() ==> final(self).wf(),
    {
        let stored_admin = self.admin.unwrap();
        if admin != stored_admin {
            return Err(PerpsError::Unauthorized);
        }
        if max == 0 {
            return Err(PerpsError::InvalidConfig);
        }
        self.max_leverage = max;
        proof {
            if old(self).wf() {
                Self::lemma_same_book_keeps_wf(*self, *old(self));
            }
        }
        Ok(())
    }

    pub fn set_liquidation_engine(&mut self, admin: Address, le_address: Address) -> (r: Result<(), PerpsError>)
        requires
            old(self).initialized(),
        ensures
            old(self).admin != Some(admin) ==> r == Err::<(), PerpsError>(PerpsError::Unauthorized)
                && *final(self) == *old(self),
            old(self).admin == Some(admin) ==> {
                &&& r is Ok
                &&& final(self).liquidation_engine == Some(le_address)
                &&& final(self).open_fee_rate == old(self).open_fee_rate
                &&& final(self).close_fee_rate == old(self).close_fee_rate
                &&& final(self).max_leverage == old(self).max_leverage
                &&& final(self).funding == old(self).funding
                &&& final(self).same_book(*old(self))
            },
            old(self).wf() ==> final(self).wf(),
    {
        let stored_admin = self.admin.unwrap();
        if admin != stored_admin {
            return Err(PerpsError::Unauthorized);
        }
        self.liquidation_engine = Some(le_address);
        proof {
            if old(self).wf() {
                Self::lemma_same_book_keeps_wf(*self, *old(self));
            }
        }
        Ok(())
    }

    pub fn set_funding_address(&mut self, admin: Address, funding: Address) -> (r: Result<(), PerpsError>)
        requires
            old(self).initialized(),
        ensures
            old(self).admin != Some(admin) ==> r == Err::<(), PerpsError>(PerpsError::Unauthorized)
                && *final(self) == *old(self),
            old(self).admin == Some(admin) ==> {
                &&& r is Ok
                &&& final(self).funding == Some(funding)
                &&& final(self).open_fee_rate == old(self).open_fee_rate
                &&& final(self).close_fee_rate == old(self).close_fee_rate
                &&& final(self).max_leverage == old(self).max_leverage
                &&& final(self).liquidation_engine == old(self).liquidation_engine
                &&& final(self).same_book(*old(self))
            },
            old(self).wf() ==> final(self).wf(),
    {
        let stored_admin = self.admin.unwrap();
        if admin != stored_admin {
            return Err(PerpsError::Unauthorized);
        }
        self.funding = Some(funding);
        proof {
            if old(self).wf() {
                Self::lemma_same_book_keeps_wf(*self, *old(self));
            }
        }
        Ok(())
    }

}

/// Position identifiers are never reused: every open position holds an
/// identifier below the next one, so the identifier that the next opening
/// receives is free.
pub proof fn lemma_next_id_is_fresh(pm: PositionManagerContract)
    requires
        pm.wf(),
    ensures
        forall|id: u64| #[trigger] pm.positions@.contains_key(id) ==> id < pm.next_position_id,
        !pm.positions@.contains_key(pm.next_position_id),
{
}

/// Loss is capped at the collateral: a closing position never books a loss
/// larger than its collateral, never books less than its PnL, and books its
/// PnL unchanged when the loss is within the collateral. So the trader's
/// payout, collateral plus booked PnL minus fee, is never below minus the
/// fee.
pub proof fn lemma_loss_capped_at_collateral(p: Position, price: int, close_fee: int)
    ensures
        capped_pnl(p, price) >= -p.collateral,
        capped_pnl(p, price) >= pnl(p.direction, p.size as int, p.entry_price as int, price),
        pnl(p.direction, p.size as int, p.entry_price as int, price) >= -p.collateral ==> capped_pnl(p, price)
            == pnl(p.direction, p.size as int, p.entry_price as int, price),
        VaultContract::settlement_payout(p.collateral as int, capped_pnl(p, price), close_fee) >= -close_fee,
{
}

/// A position closed at its entry price books no PnL: the trader gets back
/// the collateral less the closing fee.
pub proof fn lemma_close_at_entry_price(p: Position, close_fee: int)
    requires
        p.entry_price != 0,
        p.collateral >= 0,
    ensures
        capped_pnl(p, p.entry_price as int) == 0,
        VaultContract::settlement_payout(p.collateral as int, capped_pnl(p, p.entry_price as int), close_fee)
            == p.collateral - close_fee,
{
    crate::math::lemma_pnl_zero_at_entry(p.direction, p.size as int, p.entry_price as int);
}

} // verus!
