//! Scenarios of the exchange: each contract on its own and all five wired
//! together. A small ledger stands in for the USDC token contract and
//! carries out the transfers that entry points ask for; an entry point that
//! fails panics with the host's error message, as a contract client does.

use std::collections::HashMap;

use soroperps::funding::FundingRateContract;
use soroperps::liquidation::LiquidationEngineContract;
use soroperps::oracle::OracleAdapterContract;
use soroperps::position_manager::PositionManagerContract;
use soroperps::types::{Address, CachedPrice, Direction, PerpsError, Position, Transfer};
use soroperps::vault::VaultContract;

fn ok<T>(r: Result<T, PerpsError>) -> T {
    match r {
        Ok(v) => v,
        Err(e) => panic!("Error(Contract, #{})", e.code()),
    }
}

struct Chain {
    now: u64,
    next_address: u64,
    usdc: Address,
    balances: HashMap<Address, i128>,
    admin: Address,
    vault: VaultContract,
    oracle: OracleAdapterContract,
    pm: PositionManagerContract,
    le: LiquidationEngineContract,
    funding: FundingRateContract,
}

impl Chain {
    /// Five freshly deployed, uninitialized contracts, an admin and a token.
    fn deploy() -> Chain {
        let usdc = Address(1);
        let admin = Address(2);
        Chain {
            now: 0,
            next_address: 100,
            usdc,
            balances: HashMap::new(),
            admin,
            vault: VaultContract::new(Address(10)),
            oracle: OracleAdapterContract::new(Address(11)),
            pm: PositionManagerContract::new(Address(12)),
            le: LiquidationEngineContract::new(Address(13)),
            funding: FundingRateContract::new(Address(14)),
        }
    }

    fn generate(&mut self) -> Address {
        self.next_address += 1;
        Address(self.next_address)
    }

    fn mint_usdc(&mut self, to: Address, amount: i128) {
        *self.balances.entry(to).or_insert(0) += amount;
    }

    fn usdc_balance(&self, account: Address) -> i128 {
        *self.balances.get(&account).unwrap_or(&0)
    }

    fn execute(&mut self, transfers: Vec<Transfer>) {
        for t in transfers {
            assert_eq!(t.token, self.usdc);
            assert!(t.amount >= 0, "negative transfer");
            let from = self.usdc_balance(t.from);
            assert!(from >= t.amount, "balance is not sufficient to spend");
            self.balances.insert(t.from, from - t.amount);
            *self.balances.entry(t.to).or_insert(0) += t.amount;
        }
    }

    fn set_timestamp(&mut self, t: u64) {
        self.now = t;
    }

    fn advance_time(&mut self, seconds: u64) {
        self.now += seconds;
    }

    // vault -------------------------------------------------------------

    fn vault_initialize(&mut self, admin: Address, usdc: Address, max_bps: u32) {
        ok(self.vault.initialize(admin, usdc, max_bps))
    }

    fn deposit(&mut self, lp: Address, amount: i128) -> i128 {
        let mut ts = Vec::new();
        let shares = ok(self.vault.deposit(lp, amount, &mut ts));
        self.execute(ts);
        shares
    }

    fn withdraw(&mut self, lp: Address, shares: i128) -> i128 {
        let mut ts = Vec::new();
        let usdc = ok(self.vault.withdraw(lp, shares, &mut ts));
        self.execute(ts);
        usdc
    }

    fn lock_liquidity(&mut self, caller: Address, amount: i128) {
        ok(self.vault.lock_liquidity(caller, amount))
    }

    fn unlock_liquidity(&mut self, caller: Address, amount: i128) {
        ok(self.vault.unlock_liquidity(caller, amount))
    }

    fn settle_pnl(&mut self, caller: Address, trader: Address, pnl: i128) {
        let mut ts = Vec::new();
        ok(self.vault.settle_pnl(caller, trader, pnl, &mut ts));
        self.execute(ts);
    }

    fn collect_fee(&mut self, caller: Address, amount: i128) {
        ok(self.vault.collect_fee(caller, amount))
    }

    fn vault_set_position_manager(&mut self, admin: Address, pm: Address) {
        ok(self.vault.set_position_manager(admin, pm))
    }

    fn add_liquidity(&mut self, amount: i128) -> Address {
        let lp = self.generate();
        self.mint_usdc(lp, amount);
        self.deposit(lp, amount);
        lp
    }

    // oracle ------------------------------------------------------------

    fn oracle_initialize(&mut self, admin: Address, threshold: u64) {
        ok(self.oracle.initialize(admin, threshold))
    }

    fn set_price_as(&mut self, admin: Address, asset: u32, price: i128) {
        let now = self.now;
        ok(self.oracle.set_price(admin, asset, price, now))
    }

    fn set_price(&mut self, asset: u32, price: i128) {
        let admin = self.admin;
        self.set_price_as(admin, asset, price)
    }

    fn get_price(&self, asset: u32) -> CachedPrice {
        ok(self.oracle.get_price(asset, self.now))
    }

    fn get_price_value(&self, asset: u32) -> i128 {
        ok(self.oracle.get_price_value(asset, self.now))
    }

    // position manager ---------------------------------------------------

    fn pm_initialize(&mut self, admin: Address, open_bps: u32, close_bps: u32, max_lev: u32, min_coll: i128) {
        let (v, o, u) = (self.vault.address, self.oracle.address, self.usdc);
        ok(self.pm.initialize(admin, v, o, u, open_bps, close_bps, max_lev, min_coll))
    }

    fn open_position(&mut self, trader: Address, asset: u32, direction: Direction, collateral: i128, leverage: u32) -> u64 {
        let mut ts = Vec::new();
        let now = self.now;
        let id = ok(self.pm.open_position(&mut self.vault, &self.oracle, now, trader, asset, direction, collateral, leverage, &mut ts));
        self.execute(ts);
        id
    }

    fn try_close_position(&mut self, trader: Address, id: u64, asset: u32) -> Result<i128, PerpsError> {
        let mut ts = Vec::new();
        let now = self.now;
        let r = self.pm.close_position(&mut self.vault, &self.oracle, now, trader, id, asset, &mut ts);
        if r.is_ok() {
            self.execute(ts);
        }
        r
    }

    fn close_position(&mut self, trader: Address, id: u64, asset: u32) -> i128 {
        let r = self.try_close_position(trader, id, asset);
        ok(r)
    }

    fn get_position(&self, trader: Address, id: u64) -> Position {
        ok(self.pm.get_position(trader, id))
    }

    fn get_unrealized_pnl(&self, trader: Address, id: u64, asset: u32) -> i128 {
        ok(self.pm.get_unrealized_pnl(&self.oracle, self.now, trader, id, asset))
    }

    fn pm_liquidate_position(&mut self, caller: Address, trader: Address, id: u64, asset: u32) -> (i128, i128) {
        let mut ts = Vec::new();
        let now = self.now;
        let (penalty, reward) = (self.le.liquidation_penalty, self.le.keeper_reward);
        let r = ok(self.pm.liquidate_position(
            &mut self.vault, &self.oracle, now, caller, trader, id, asset, caller, penalty, reward, &mut ts,
        ));
        self.execute(ts);
        r
    }

    // liquidation engine ------------------------------------------------

    fn le_initialize(&mut self, admin: Address, mm: u32, penalty: u32, reward: u32) {
        let (p, o) = (self.pm.address, self.oracle.address);
        ok(self.le.initialize(admin, p, o, mm, penalty, reward))
    }

    fn get_margin_ratio(&self, trader: Address, id: u64, asset: u32) -> i128 {
        ok(self.le.get_margin_ratio(&self.pm, &self.oracle, self.now, trader, id, asset))
    }

    fn is_liquidatable(&self, trader: Address, id: u64, asset: u32) -> bool {
        ok(self.le.is_liquidatable(&self.pm, &self.oracle, self.now, trader, id, asset))
    }

    fn liquidate(&mut self, keeper: Address, trader: Address, id: u64, asset: u32) {
        let mut ts = Vec::new();
        let now = self.now;
        let _ = keeper;
        ok(self.le.liquidate(&mut self.pm, &mut self.vault, &self.oracle, &self.oracle, now, keeper, trader, id, asset, &mut ts));
        self.execute(ts);
    }

    // funding -----------------------------------------------------------

    fn funding_initialize(&mut self, admin: Address, interval: u64, max_bps: u32, spread_bps: u32) {
        let (p, now) = (self.pm.address, self.now);
        ok(self.funding.initialize(admin, p, interval, max_bps, spread_bps, now))
    }

    fn get_current_rate(&self) -> (i128, i128) {
        ok(self.funding.get_current_rate(&self.pm))
    }

    fn try_apply_funding(&mut self, keeper: Address) -> Result<(), PerpsError> {
        let now = self.now;
        self.funding.apply_funding(&self.pm, now, keeper)
    }

    fn apply_funding(&mut self, keeper: Address) {
        let r = self.try_apply_funding(keeper);
        ok(r)
    }
}

// ---------------------------------------------------------------------------
// Set-ups
// ---------------------------------------------------------------------------

/// The vault on its own, at 80% maximum utilization.
fn vault_setup() -> Chain {
    let mut c = Chain::deploy();
    let (admin, usdc) = (c.admin, c.usdc);
    c.vault_initialize(admin, usdc, 8000);
    c
}

/// The oracle adapter on its own, with a 300 s staleness threshold.
fn oracle_setup() -> Chain {
    let mut c = Chain::deploy();
    let admin = c.admin;
    c.oracle_initialize(admin, 300);
    c
}

/// Vault, oracle and position manager wired together, at time 1000.
fn pm_setup() -> Chain {
    let mut c = Chain::deploy();
    let (admin, usdc) = (c.admin, c.usdc);
    c.vault_initialize(admin, usdc, 8000);
    c.oracle_initialize(admin, 300);
    c.pm_initialize(admin, 10, 10, 30, 10_0000000);
    let pm = c.pm.address;
    c.vault_set_position_manager(admin, pm);
    c.set_timestamp(1000);
    c
}

/// The position manager set-up with the liquidation engine and 100k USDC
/// of LP liquidity.
fn le_setup() -> Chain {
    let mut c = pm_setup();
    let admin = c.admin;
    c.le_initialize(admin, 500, 250, 50);
    let le = c.le.address;
    ok(c.pm.set_liquidation_engine(admin, le));
    c.add_liquidity(100_000_0000000);
    c
}

/// The position manager set-up with the funding contract (max 1%, spread
/// 0.05%, hourly), 100k USDC of LP liquidity and a price of 1000 for asset 0.
fn funding_setup() -> Chain {
    let mut c = pm_setup();
    let admin = c.admin;
    c.funding_initialize(admin, 3600, 100, 5);
    c.add_liquidity(100_000_0000000);
    c.set_price(0, 1_000_0000000);
    c
}

/// All five contracts wired together; the funding contract is initialized
/// at time 0 and the clock then set to 1000.
fn harness() -> Chain {
    let mut c = Chain::deploy();
    let (admin, usdc) = (c.admin, c.usdc);
    c.vault_initialize(admin, usdc, 8000);
    c.oracle_initialize(admin, 300);
    c.pm_initialize(admin, 10, 10, 30, 10_0000000);
    c.le_initialize(admin, 500, 250, 50);
    c.funding_initialize(admin, 3600, 10, 5);
    let (pm, le, f) = (c.pm.address, c.le.address, c.funding.address);
    c.vault_set_position_manager(admin, pm);
    ok(c.pm.set_liquidation_engine(admin, le));
    ok(c.pm.set_funding_address(admin, f));
    c.set_timestamp(1000);
    c
}

fn create_trader(c: &mut Chain, amount: i128) -> Address {
    let t = c.generate();
    c.mint_usdc(t, amount);
    t
}

// ---------------------------------------------------------------------------
// Vault
// ---------------------------------------------------------------------------

#[test]
fn test_test_initialize() {
    let c = vault_setup();
    assert_eq!(c.vault.get_total_shares(), 0);
    assert_eq!(c.vault.get_total_deposits(), 0);
    assert_eq!(c.vault.get_locked_liquidity(), 0);
}

#[test]
#[should_panic(expected = "Error(Contract, #2)")]
fn test_test_initialize_twice_fails() {
    let mut c = vault_setup();
    let (admin, usdc) = (c.admin, c.usdc);
    c.vault_initialize(admin, usdc, 8000);
}

#[test]
fn test_deposit_first_lp() {
    let mut c = vault_setup();
    let lp = c.generate();
    c.mint_usdc(lp, 1000_0000000);
    let shares = c.deposit(lp, 1000_0000000);
    assert_eq!(shares, 1000_0000000);
    assert_eq!(c.vault.get_total_shares(), 1000_0000000);
    assert_eq!(c.vault.get_total_deposits(), 1000_0000000);
    assert_eq!(c.vault.get_share_balance(lp), 1000_0000000);
    assert_eq!(c.usdc_balance(lp), 0);
}

#[test]
fn test_deposit_second_lp() {
    let mut c = vault_setup();
    let lp1 = c.generate();
    c.mint_usdc(lp1, 1000_0000000);
    c.deposit(lp1, 1000_0000000);
    let lp2 = c.generate();
    c.mint_usdc(lp2, 500_0000000);
    let shares = c.deposit(lp2, 500_0000000);
    assert_eq!(shares, 500_0000000);
    assert_eq!(c.vault.get_total_shares(), 1500_0000000);
    assert_eq!(c.vault.get_total_deposits(), 1500_0000000);
    assert_eq!(c.vault.get_share_balance(lp2), 500_0000000);
}

#[test]
#[should_panic(expected = "Error(Contract, #5)")]
fn test_deposit_zero_amount() {
    let mut c = vault_setup();
    let lp = c.generate();
    c.deposit(lp, 0);
}

#[test]
fn test_withdraw_full() {
    let mut c = vault_setup();
    let lp = c.generate();
    c.mint_usdc(lp, 1000_0000000);
    c.deposit(lp, 1000_0000000);
    let returned = c.withdraw(lp, 1000_0000000);
    assert_eq!(returned, 1000_0000000);
    assert_eq!(c.vault.get_total_shares(), 0);
    assert_eq!(c.vault.get_total_deposits(), 0);
    assert_eq!(c.vault.get_share_balance(lp), 0);
    assert_eq!(c.usdc_balance(lp), 1000_0000000);
}

#[test]
fn test_withdraw_partial() {
    let mut c = vault_setup();
    let lp = c.generate();
    c.mint_usdc(lp, 1000_0000000);
    c.deposit(lp, 1000_0000000);
    let returned = c.withdraw(lp, 400_0000000);
    assert_eq!(returned, 400_0000000);
    assert_eq!(c.vault.get_total_shares(), 600_0000000);
    assert_eq!(c.vault.get_total_deposits(), 600_0000000);
    assert_eq!(c.vault.get_share_balance(lp), 600_0000000);
}

#[test]
#[should_panic(expected = "Error(Contract, #3)")]
fn test_withdraw_exceeds_balance() {
    let mut c = vault_setup();
    let lp = c.generate();
    c.mint_usdc(lp, 1000_0000000);
    c.deposit(lp, 1000_0000000);
    c.withdraw(lp, 1500_0000000);
}

#[test]
#[should_panic(expected = "Error(Contract, #9)")]
fn test_withdraw_exceeds_utilization() {
    let mut c = vault_setup();
    let admin = c.admin;
    let pm = c.generate();
    c.vault_set_position_manager(admin, pm);
    let lp = c.generate();
    c.mint_usdc(lp, 1000_0000000);
    c.deposit(lp, 1000_0000000);
    // Lock 500 USDC (50% utilization)
    c.lock_liquidity(pm, 500_0000000);
    // Withdrawing 800 would leave 200 deposits with 500 locked = 250% utilization
    c.withdraw(lp, 800_0000000);
}

#[test]
fn test_lock_unlock_liquidity() {
    let mut c = vault_setup();
    let admin = c.admin;
    let pm = c.generate();
    c.vault_set_position_manager(admin, pm);
    let lp = c.generate();
    c.mint_usdc(lp, 1000_0000000);
    c.deposit(lp, 1000_0000000);
    c.lock_liquidity(pm, 300_0000000);
    assert_eq!(c.vault.get_locked_liquidity(), 300_0000000);
    assert_eq!(c.vault.get_available_liquidity(), 700_0000000);
    assert_eq!(c.vault.get_utilization(), 3000);
    c.unlock_liquidity(pm, 300_0000000);
    assert_eq!(c.vault.get_locked_liquidity(), 0);
    assert_eq!(c.vault.get_available_liquidity(), 1000_0000000);
}

#[test]
#[should_panic(expected = "Error(Contract, #9)")]
fn test_lock_exceeds_max_utilization() {
    let mut c = vault_setup();
    let admin = c.admin;
    let pm = c.generate();
    c.vault_set_position_manager(admin, pm);
    let lp = c.generate();
    c.mint_usdc(lp, 1000_0000000);
    c.deposit(lp, 1000_0000000);
    // 90% > 80% max utilization
    c.lock_liquidity(pm, 900_0000000);
}

#[test]
fn test_settle_positive_pnl() {
    let mut c = vault_setup();
    let admin = c.admin;
    let pm = c.generate();
    c.vault_set_position_manager(admin, pm);
    let lp = c.generate();
    c.mint_usdc(lp, 1000_0000000);
    c.deposit(lp, 1000_0000000);
    let trader = c.generate();
    c.settle_pnl(pm, trader, 100_0000000);
    assert_eq!(c.vault.get_total_deposits(), 900_0000000);
    assert_eq!(c.usdc_balance(trader), 100_0000000);
}

#[test]
fn test_settle_negative_pnl() {
    let mut c = vault_setup();
    let admin = c.admin;
    let pm = c.generate();
    c.vault_set_position_manager(admin, pm);
    let lp = c.generate();
    c.mint_usdc(lp, 1000_0000000);
    c.deposit(lp, 1000_0000000);
    let trader = c.generate();
    c.settle_pnl(pm, trader, -100_0000000);
    assert_eq!(c.vault.get_total_deposits(), 1100_0000000);
}

#[test]
#[should_panic(expected = "Error(Contract, #11)")]
fn test_unauthorized_lock() {
    let mut c = vault_setup();
    let admin = c.admin;
    let pm = c.generate();
    c.vault_set_position_manager(admin, pm);
    let lp = c.generate();
    c.mint_usdc(lp, 1000_0000000);
    c.deposit(lp, 1000_0000000);
    let rando = c.generate();
    c.lock_liquidity(rando, 100_0000000);
}

#[test]
fn test_share_price_after_trader_loss() {
    let mut c = vault_setup();
    let admin = c.admin;
    let pm = c.generate();
    c.vault_set_position_manager(admin, pm);
    let lp = c.generate();
    c.mint_usdc(lp, 1000_0000000);
    c.deposit(lp, 1000_0000000);
    assert_eq!(c.vault.get_share_price(), 10_000_000);
    let trader = c.generate();
    c.settle_pnl(pm, trader, -200_0000000);
    assert_eq!(c.vault.get_share_price(), 12_000_000);
}

#[test]
fn test_share_price_after_trader_win() {
    let mut c = vault_setup();
    let admin = c.admin;
    let pm = c.generate();
    c.vault_set_position_manager(admin, pm);
    let lp = c.generate();
    c.mint_usdc(lp, 1000_0000000);
    c.deposit(lp, 1000_0000000);
    let trader = c.generate();
    c.settle_pnl(pm, trader, 200_0000000);
    assert_eq!(c.vault.get_share_price(), 8_000_000);
}

#[test]
fn test_fee_collection() {
    let mut c = vault_setup();
    let admin = c.admin;
    let pm = c.generate();
    c.vault_set_position_manager(admin, pm);
    let lp = c.generate();
    c.mint_usdc(lp, 1000_0000000);
    c.deposit(lp, 1000_0000000);
    c.collect_fee(pm, 10_0000000);
    assert_eq!(c.vault.get_total_deposits(), 1010_0000000);
    assert_eq!(c.vault.get_share_price(), 10_100_000);
}

// ---------------------------------------------------------------------------
// Oracle adapter
// ---------------------------------------------------------------------------

#[test]
fn test_initialize() {
    let c = oracle_setup();
    assert!(c.oracle.admin.is_some());
}

#[test]
#[should_panic(expected = "Error(Contract, #2)")]
fn test_initialize_twice_fails() {
    let mut c = oracle_setup();
    let admin = c.admin;
    c.oracle_initialize(admin, 300);
}

#[test]
fn test_set_and_get_price() {
    let mut c = oracle_setup();
    c.set_timestamp(1000);
    // Asset 0 = XLM at $0.15 (with 7 decimals = 1_500_000)
    c.set_price(0, 1_500_000);
    let cached = c.get_price(0);
    assert_eq!(cached.price, 1_500_000);
    assert_eq!(cached.timestamp, 1000);
}

#[test]
fn test_get_price_value() {
    let mut c = oracle_setup();
    c.set_timestamp(1000);
    c.set_price(1, 500_000_0000000); // BTC at $50,000
    let price = c.get_price_value(1);
    assert_eq!(price, 500_000_0000000);
}

#[test]
#[should_panic(expected = "Error(Contract, #8)")]
fn test_get_price_stale() {
    let mut c = oracle_setup();
    c.set_timestamp(1000);
    c.set_price(0, 1_500_000);
    // 400 s old with a 300 s threshold
    c.set_timestamp(1400);
    c.get_price(0);
}

#[test]
#[should_panic(expected = "Error(Contract, #8)")]
fn test_get_price_missing() {
    let c = oracle_setup();
    c.get_price(5);
}

#[test]
#[should_panic(expected = "Error(Contract, #11)")]
fn test_set_price_unauthorized() {
    let mut c = oracle_setup();
    c.set_timestamp(1000);
    let rando = c.generate();
    c.set_price_as(rando, 0, 1_500_000);
}

#[test]
fn test_update_staleness_threshold() {
    let mut c = oracle_setup();
    c.set_timestamp(1000);
    c.set_price(0, 1_500_000);
    c.set_timestamp(1500);
    let admin = c.admin;
    ok(c.oracle.set_staleness_threshold(admin, 600));
    let cached = c.get_price(0);
    assert_eq!(cached.price, 1_500_000);
}

// ---------------------------------------------------------------------------
// Position manager
// ---------------------------------------------------------------------------

#[test]
fn test_open_position_long() {
    let mut c = pm_setup();
    c.add_liquidity(10_000_0000000);
    c.set_price(0, 1_500_000);
    let trader = create_trader(&mut c, 200_0000000);
    let pos_id = c.open_position(trader, 0, Direction::Long, 100_0000000, 10);
    assert_eq!(pos_id, 1);
    let pos = c.get_position(trader, pos_id);
    assert_eq!(pos.collateral, 100_0000000);
    assert_eq!(pos.size, 1000_0000000);
    assert_eq!(pos.leverage, 10);
    assert_eq!(pos.entry_price, 1_500_000);
    assert_eq!(pos.direction, Direction::Long);
    assert_eq!(c.pm.get_open_interest_long(), 1000_0000000);
    assert_eq!(c.pm.get_open_interest_short(), 0);
    assert_eq!(c.pm.get_trader_position_count(trader), 1);
}

#[test]
fn test_open_position_short() {
    let mut c = pm_setup();
    c.add_liquidity(10_000_0000000);
    c.set_price(0, 1_500_000);
    let trader = create_trader(&mut c, 200_0000000);
    let pos_id = c.open_position(trader, 0, Direction::Short, 100_0000000, 5);
    let pos = c.get_position(trader, pos_id);
    assert_eq!(pos.direction, Direction::Short);
    assert_eq!(pos.size, 500_0000000);
    assert_eq!(c.pm.get_open_interest_short(), 500_0000000);
}

#[test]
#[should_panic(expected = "Error(Contract, #6)")]
fn test_open_leverage_too_high() {
    let mut c = pm_setup();
    c.add_liquidity(10_000_0000000);
    c.set_price(0, 1_500_000);
    let trader = create_trader(&mut c, 200_0000000);
    c.open_position(trader, 0, Direction::Long, 100_0000000, 31);
}

#[test]
#[should_panic(expected = "Error(Contract, #15)")]
fn test_open_insufficient_collateral() {
    let mut c = pm_setup();
    c.add_liquidity(10_000_0000000);
    c.set_price(0, 1_500_000);
    let trader = create_trader(&mut c, 200_0000000);
    c.open_position(trader, 0, Direction::Long, 5_0000000, 10);
}

#[test]
fn test_close_long_profit() {
    let mut c = pm_setup();
    c.add_liquidity(10_000_0000000);
    c.set_price(0, 1_000_0000000);
    let trader = create_trader(&mut c, 200_0000000);
    let pos_id = c.open_position(trader, 0, Direction::Long, 100_0000000, 10);
    c.set_price(0, 1_100_0000000);
    let net_pnl = c.close_position(trader, pos_id, 0);
    // PnL 100, close fee 1
    assert_eq!(net_pnl, 99_0000000);
    assert_eq!(c.pm.get_trader_position_count(trader), 0);
    assert_eq!(c.pm.get_open_interest_long(), 0);
}

#[test]
fn test_close_long_loss() {
    let mut c = pm_setup();
    c.add_liquidity(10_000_0000000);
    c.set_price(0, 1_000_0000000);
    let trader = create_trader(&mut c, 200_0000000);
    let pos_id = c.open_position(trader, 0, Direction::Long, 100_0000000, 10);
    c.set_price(0, 950_0000000);
    let net_pnl = c.close_position(trader, pos_id, 0);
    assert_eq!(net_pnl, -51_0000000);
}

#[test]
fn test_close_short_profit() {
    let mut c = pm_setup();
    c.add_liquidity(10_000_0000000);
    c.set_price(0, 1_000_0000000);
    let trader = create_trader(&mut c, 200_0000000);
    let pos_id = c.open_position(trader, 0, Direction::Short, 100_0000000, 10);
    c.set_price(0, 900_0000000);
    let net_pnl = c.close_position(trader, pos_id, 0);
    assert_eq!(net_pnl, 99_0000000);
}

#[test]
fn test_close_short_loss() {
    let mut c = pm_setup();
    c.add_liquidity(10_000_0000000);
    c.set_price(0, 1_000_0000000);
    let trader = create_trader(&mut c, 200_0000000);
    let pos_id = c.open_position(trader, 0, Direction::Short, 100_0000000, 10);
    c.set_price(0, 1_050_0000000);
    let net_pnl = c.close_position(trader, pos_id, 0);
    assert_eq!(net_pnl, -51_0000000);
}

#[test]
#[should_panic(expected = "Error(Contract, #7)")]
fn test_close_nonexistent_position() {
    let mut c = pm_setup();
    let trader = c.generate();
    c.close_position(trader, 999, 0);
}

#[test]
fn test_fee_calculation() {
    let mut c = pm_setup();
    c.add_liquidity(10_000_0000000);
    c.set_price(0, 1_000_0000000);
    let trader = create_trader(&mut c, 500_0000000);
    // 1000 notional; opening fee 1; 101 transferred
    c.open_position(trader, 0, Direction::Long, 100_0000000, 10);
    assert_eq!(c.usdc_balance(trader), 399_0000000);
}

#[test]
fn test_multiple_positions() {
    let mut c = pm_setup();
    c.add_liquidity(50_000_0000000);
    c.set_price(0, 1_000_0000000);
    let trader = create_trader(&mut c, 1000_0000000);
    let pos1 = c.open_position(trader, 0, Direction::Long, 100_0000000, 10);
    let pos2 = c.open_position(trader, 0, Direction::Short, 100_0000000, 5);
    assert_eq!(pos1, 1);
    assert_eq!(pos2, 2);
    assert_eq!(c.pm.get_trader_position_count(trader), 2);
    assert_eq!(c.pm.get_open_interest_long(), 1000_0000000);
    assert_eq!(c.pm.get_open_interest_short(), 500_0000000);
    c.set_price(0, 1_000_0000000);
    c.close_position(trader, pos1, 0);
    assert_eq!(c.pm.get_trader_position_count(trader), 1);
    assert_eq!(c.pm.get_open_interest_long(), 0);
    assert_eq!(c.pm.get_open_interest_short(), 500_0000000);
}

#[test]
fn test_unrealized_pnl() {
    let mut c = pm_setup();
    c.add_liquidity(10_000_0000000);
    c.set_price(0, 1_000_0000000);
    let trader = create_trader(&mut c, 200_0000000);
    let pos_id = c.open_position(trader, 0, Direction::Long, 100_0000000, 10);
    c.set_price(0, 1_200_0000000);
    let pnl = c.get_unrealized_pnl(trader, pos_id, 0);
    assert_eq!(pnl, 200_0000000);
}

// ---------------------------------------------------------------------------
// Liquidation engine
// ---------------------------------------------------------------------------

#[test]
fn test_healthy_position_not_liquidatable() {
    let mut c = le_setup();
    c.set_price(0, 1_000_0000000);
    let trader = create_trader(&mut c, 500_0000000);
    c.open_position(trader, 0, Direction::Long, 100_0000000, 10);
    // margin ratio 1000 bps > 500 bps
    assert!(!c.is_liquidatable(trader, 1, 0));
}

#[test]
fn test_margin_ratio_calculation() {
    let mut c = le_setup();
    c.set_price(0, 1_000_0000000);
    let trader = create_trader(&mut c, 500_0000000);
    c.open_position(trader, 0, Direction::Long, 100_0000000, 10);
    assert_eq!(c.get_margin_ratio(trader, 1, 0), 1000);
    c.set_price(0, 950_0000000);
    assert_eq!(c.get_margin_ratio(trader, 1, 0), 500);
}

#[test]
fn test_underwater_position_liquidatable() {
    let mut c = le_setup();
    c.set_price(0, 1_000_0000000);
    let trader = create_trader(&mut c, 500_0000000);
    c.open_position(trader, 0, Direction::Long, 100_0000000, 10);
    // 400 bps < 500 bps
    c.set_price(0, 940_0000000);
    assert!(c.is_liquidatable(trader, 1, 0));
}

#[test]
fn test_liquidate_long_position() {
    let mut c = le_setup();
    c.set_price(0, 1_000_0000000);
    let trader = create_trader(&mut c, 500_0000000);
    c.open_position(trader, 0, Direction::Long, 100_0000000, 10);
    c.set_price(0, 920_0000000);
    let keeper = c.generate();
    c.liquidate(keeper, trader, 1, 0);
    assert_eq!(c.pm.get_trader_position_count(trader), 0);
    assert_eq!(c.pm.get_open_interest_long(), 0);
}

#[test]
fn test_liquidate_short_position() {
    let mut c = le_setup();
    c.set_price(0, 1_000_0000000);
    let trader = create_trader(&mut c, 500_0000000);
    c.open_position(trader, 0, Direction::Short, 100_0000000, 10);
    c.set_price(0, 1_080_0000000);
    let keeper = c.generate();
    c.liquidate(keeper, trader, 1, 0);
    assert_eq!(c.pm.get_trader_position_count(trader), 0);
    assert_eq!(c.pm.get_open_interest_short(), 0);
}

#[test]
#[should_panic(expected = "Error(Contract, #10)")]
fn test_liquidate_healthy_position_fails() {
    let mut c = le_setup();
    c.set_price(0, 1_000_0000000);
    let trader = create_trader(&mut c, 500_0000000);
    c.open_position(trader, 0, Direction::Long, 100_0000000, 10);
    let keeper = c.generate();
    c.liquidate(keeper, trader, 1, 0);
}

#[test]
fn test_margin_ratio_with_profit() {
    let mut c = le_setup();
    c.set_price(0, 1_000_0000000);
    let trader = create_trader(&mut c, 500_0000000);
    c.open_position(trader, 0, Direction::Long, 100_0000000, 10);
    c.set_price(0, 1_100_0000000);
    assert_eq!(c.get_margin_ratio(trader, 1, 0), 2000);
    assert!(!c.is_liquidatable(trader, 1, 0));
}

#[test]
fn test_deeply_underwater_position() {
    let mut c = le_setup();
    c.set_price(0, 1_000_0000000);
    let trader = create_trader(&mut c, 500_0000000);
    c.open_position(trader, 0, Direction::Long, 100_0000000, 10);
    c.set_price(0, 850_0000000);
    assert_eq!(c.get_margin_ratio(trader, 1, 0), -500);
    assert!(c.is_liquidatable(trader, 1, 0));
    let keeper = c.generate();
    c.liquidate(keeper, trader, 1, 0);
    assert_eq!(c.pm.get_trader_position_count(trader), 0);
}

#[test]
fn test_boundary_maintenance_margin() {
    let mut c = le_setup();
    c.set_price(0, 1_000_0000000);
    let trader = create_trader(&mut c, 500_0000000);
    c.open_position(trader, 0, Direction::Long, 100_0000000, 10);
    // exactly at maintenance: not liquidatable
    c.set_price(0, 950_0000000);
    assert!(!c.is_liquidatable(trader, 1, 0));
    c.set_price(0, 949_0000000);
    assert!(c.is_liquidatable(trader, 1, 0));
}

// ---------------------------------------------------------------------------
// Funding rate
// ---------------------------------------------------------------------------

#[test]
fn test_zero_oi_zero_rate() {
    let c = funding_setup();
    let (long_rate, short_rate) = c.get_current_rate();
    assert_eq!(long_rate, 0);
    assert_eq!(short_rate, 0);
}

#[test]
fn test_balanced_oi_spread_only() {
    let mut c = funding_setup();
    let t1 = create_trader(&mut c, 500_0000000);
    let t2 = create_trader(&mut c, 500_0000000);
    c.open_position(t1, 0, Direction::Long, 100_0000000, 10);
    c.open_position(t2, 0, Direction::Short, 100_0000000, 10);
    let (long_rate, short_rate) = c.get_current_rate();
    assert_eq!(long_rate, 5);
    assert_eq!(short_rate, 5);
}

#[test]
fn test_long_heavy_positive_rate() {
    let mut c = funding_setup();
    let t1 = create_trader(&mut c, 500_0000000);
    let t2 = create_trader(&mut c, 500_0000000);
    c.open_position(t1, 0, Direction::Long, 200_0000000, 10);
    c.open_position(t2, 0, Direction::Short, 100_0000000, 10);
    let (long_rate, short_rate) = c.get_current_rate();
    assert_eq!(long_rate, 105);
    assert_eq!(short_rate, -95);
}

#[test]
fn test_short_heavy_negative_rate() {
    let mut c = funding_setup();
    let t1 = create_trader(&mut c, 500_0000000);
    let t2 = create_trader(&mut c, 500_0000000);
    c.open_position(t1, 0, Direction::Long, 100_0000000, 10);
    c.open_position(t2, 0, Direction::Short, 200_0000000, 10);
    let (long_rate, short_rate) = c.get_current_rate();
    assert_eq!(long_rate, -95);
    assert_eq!(short_rate, 105);
}

#[test]
fn test_apply_funding_updates_indices() {
    let mut c = funding_setup();
    let t1 = create_trader(&mut c, 500_0000000);
    let t2 = create_trader(&mut c, 500_0000000);
    c.open_position(t1, 0, Direction::Long, 200_0000000, 10);
    c.open_position(t2, 0, Direction::Short, 100_0000000, 10);
    assert_eq!(c.funding.get_cumulative_funding_long(), 0);
    assert_eq!(c.funding.get_cumulative_funding_short(), 0);
    c.set_timestamp(1000 + 3600);
    let keeper = c.generate();
    c.apply_funding(keeper);
    assert_eq!(c.funding.get_cumulative_funding_long(), 105);
    assert_eq!(c.funding.get_cumulative_funding_short(), -95);
    assert_eq!(c.funding.get_last_funding_time(), 4600);
}

#[test]
#[should_panic(expected = "Error(Contract, #16)")]
fn test_apply_too_early() {
    let mut c = funding_setup();
    let t1 = create_trader(&mut c, 500_0000000);
    c.open_position(t1, 0, Direction::Long, 100_0000000, 10);
    c.set_timestamp(1000 + 1800);
    let keeper = c.generate();
    c.apply_funding(keeper);
}

#[test]
fn test_cumulative_indices_accumulate() {
    let mut c = funding_setup();
    let t1 = create_trader(&mut c, 500_0000000);
    let t2 = create_trader(&mut c, 500_0000000);
    c.open_position(t1, 0, Direction::Long, 200_0000000, 10);
    c.open_position(t2, 0, Direction::Short, 100_0000000, 10);
    let keeper = c.generate();
    c.set_timestamp(1000 + 3600);
    c.apply_funding(keeper);
    assert_eq!(c.funding.get_cumulative_funding_long(), 105);
    c.set_timestamp(1000 + 7200);
    c.apply_funding(keeper);
    assert_eq!(c.funding.get_cumulative_funding_long(), 210);
    assert_eq!(c.funding.get_cumulative_funding_short(), -190);
}

#[test]
fn test_max_rate_clamped() {
    let mut c = funding_setup();
    let t1 = create_trader(&mut c, 500_0000000);
    c.open_position(t1, 0, Direction::Long, 100_0000000, 10);
    let (long_rate, _) = c.get_current_rate();
    assert_eq!(long_rate, 105);
}

// ---------------------------------------------------------------------------
// Full lifecycle
// ---------------------------------------------------------------------------

#[test]
fn test_long_position_profit_lifecycle() {
    let mut h = harness();
    let lp = h.add_liquidity(100_000_0000000);
    h.set_price(0, 1_000_0000000);
    let trader = create_trader(&mut h, 500_0000000);
    let pos_id = h.open_position(trader, 0, Direction::Long, 100_0000000, 10);
    assert_eq!(pos_id, 1);
    assert_eq!(h.vault.get_locked_liquidity(), 1000_0000000);
    assert_eq!(h.usdc_balance(trader), 399_0000000);
    h.set_price(0, 1_200_0000000);
    let pnl = h.close_position(trader, pos_id, 0);
    // PnL 200, close fee 1
    assert_eq!(pnl, 199_0000000);
    // payout 100 + 200 - 1 = 299
    assert_eq!(h.usdc_balance(trader), 698_0000000);
    assert_eq!(h.vault.get_locked_liquidity(), 0);
    // 100000 + 1 (open fee) - 200 (pnl) + 1 (close fee)
    let vault_deposits = h.vault.get_total_deposits();
    assert_eq!(vault_deposits, 99_802_0000000);
    let lp_shares = h.vault.get_share_balance(lp);
    let withdrawn = h.withdraw(lp, lp_shares);
    assert_eq!(withdrawn, 99_802_0000000);
}

#[test]
fn test_short_position_profit_lifecycle() {
    let mut h = harness();
    h.add_liquidity(100_000_0000000);
    h.set_price(0, 1_000_0000000);
    let trader = create_trader(&mut h, 500_0000000);
    let pos_id = h.open_position(trader, 0, Direction::Short, 100_0000000, 10);
    h.set_price(0, 850_0000000);
    let pnl = h.close_position(trader, pos_id, 0);
    assert_eq!(pnl, 149_0000000);
    assert_eq!(h.pm.get_trader_position_count(trader), 0);
    assert_eq!(h.pm.get_open_interest_short(), 0);
}

#[test]
fn test_trader_loss_goes_to_vault() {
    let mut h = harness();
    let lp = h.add_liquidity(100_000_0000000);
    h.set_price(0, 1_000_0000000);
    let trader = create_trader(&mut h, 500_0000000);
    let pos_id = h.open_position(trader, 0, Direction::Long, 100_0000000, 10);
    h.set_price(0, 950_0000000);
    let pnl = h.close_position(trader, pos_id, 0);
    assert_eq!(pnl, -51_0000000);
    // payout 100 - 50 - 1 = 49
    assert_eq!(h.usdc_balance(trader), 448_0000000);
    // 100001 - (-50) + 1
    let vault_deposits = h.vault.get_total_deposits();
    assert_eq!(vault_deposits, 100_052_0000000);
    let share_price = h.vault.get_share_price();
    assert!(share_price > 10_000_000);
    let lp_shares = h.vault.get_share_balance(lp);
    let withdrawn = h.withdraw(lp, lp_shares);
    assert_eq!(withdrawn, 100_052_0000000);
}

#[test]
fn test_liquidation_full_flow() {
    let mut h = harness();
    h.add_liquidity(100_000_0000000);
    h.set_price(0, 1_000_0000000);
    let trader = create_trader(&mut h, 500_0000000);
    h.open_position(trader, 0, Direction::Long, 100_0000000, 10);
    h.set_price(0, 920_0000000);
    assert!(h.is_liquidatable(trader, 1, 0));
    let keeper = h.generate();
    h.liquidate(keeper, trader, 1, 0);
    assert_eq!(h.pm.get_trader_position_count(trader), 0);
    assert_eq!(h.pm.get_open_interest_long(), 0);
    assert_eq!(h.vault.get_locked_liquidity(), 0);
}

#[test]
fn test_funding_rate_application() {
    let mut h = harness();
    h.add_liquidity(100_000_0000000);
    h.set_price(0, 1_000_0000000);
    let trader1 = create_trader(&mut h, 500_0000000);
    let trader2 = create_trader(&mut h, 500_0000000);
    h.open_position(trader1, 0, Direction::Long, 100_0000000, 10);
    h.open_position(trader2, 0, Direction::Short, 100_0000000, 5);
    assert_eq!(h.pm.get_open_interest_long(), 1000_0000000);
    assert_eq!(h.pm.get_open_interest_short(), 500_0000000);
    let (long_rate, short_rate) = h.get_current_rate();
    // skew 3333 bps clamped to 10
    assert_eq!(long_rate, 15);
    assert_eq!(short_rate, -5);
    let keeper = h.generate();
    let result = h.try_apply_funding(keeper);
    assert!(result.is_err());
    h.advance_time(3601);
    h.apply_funding(keeper);
    assert_eq!(h.funding.get_cumulative_funding_long(), 15);
    assert_eq!(h.funding.get_cumulative_funding_short(), -5);
}

#[test]
fn test_multiple_traders_concurrent_positions() {
    let mut h = harness();
    h.add_liquidity(500_000_0000000);
    h.set_price(0, 1_000_0000000);
    let trader_a = create_trader(&mut h, 1000_0000000);
    let trader_b = create_trader(&mut h, 1000_0000000);
    let trader_c = create_trader(&mut h, 1000_0000000);
    let pos_a = h.open_position(trader_a, 0, Direction::Long, 200_0000000, 10);
    let pos_b = h.open_position(trader_b, 0, Direction::Short, 300_0000000, 5);
    let pos_c = h.open_position(trader_c, 0, Direction::Long, 100_0000000, 20);
    assert_eq!(h.pm.get_open_interest_long(), 4000_0000000);
    assert_eq!(h.pm.get_open_interest_short(), 1500_0000000);
    h.set_price(0, 1_050_0000000);
    let pnl_a = h.close_position(trader_a, pos_a, 0);
    let pnl_b = h.close_position(trader_b, pos_b, 0);
    let pnl_c = h.close_position(trader_c, pos_c, 0);
    assert_eq!(pnl_a, 98_0000000);
    assert_eq!(pnl_b, -76_5000000);
    assert_eq!(pnl_c, 98_0000000);
    assert_eq!(h.pm.get_open_interest_long(), 0);
    assert_eq!(h.pm.get_open_interest_short(), 0);
    assert_eq!(h.vault.get_locked_liquidity(), 0);
}

#[test]
fn test_lp_utilization_limit() {
    let mut h = harness();
    h.add_liquidity(10_000_0000000);
    h.set_price(0, 1_000_0000000);
    let trader = create_trader(&mut h, 5000_0000000);
    // 800 * 10 = 8000 notional, 80% of the pool
    h.open_position(trader, 0, Direction::Long, 800_0000000, 10);
    let util = h.vault.get_utilization();
    assert!(util <= 8000);
    let lp2 = h.add_liquidity(1000_0000000);
    let lp2_shares = h.vault.get_share_balance(lp2);
    let total_deposits = h.vault.get_total_deposits();
    let locked = h.vault.get_locked_liquidity();
    assert!(locked <= total_deposits);
    assert_eq!(locked, 8000_0000000);
    h.set_price(0, 1_000_0000000);
    h.close_position(trader, 1, 0);
    assert_eq!(h.vault.get_locked_liquidity(), 0);
    h.withdraw(lp2, lp2_shares);
}

// ---------------------------------------------------------------------------
// Access control
// ---------------------------------------------------------------------------

#[test]
#[should_panic(expected = "Error(Contract, #11)")]
fn test_vault_lock_unauthorized() {
    let mut h = harness();
    let attacker = h.generate();
    h.lock_liquidity(attacker, 1000_0000000);
}

#[test]
#[should_panic(expected = "Error(Contract, #11)")]
fn test_vault_unlock_unauthorized() {
    let mut h = harness();
    let attacker = h.generate();
    h.unlock_liquidity(attacker, 1000_0000000);
}

#[test]
#[should_panic(expected = "Error(Contract, #11)")]
fn test_vault_settle_pnl_unauthorized() {
    let mut h = harness();
    let attacker = h.generate();
    let trader = h.generate();
    h.settle_pnl(attacker, trader, 100_0000000);
}

#[test]
#[should_panic(expected = "Error(Contract, #11)")]
fn test_vault_collect_fee_unauthorized() {
    let mut h = harness();
    let attacker = h.generate();
    h.collect_fee(attacker, 100_0000000);
}

#[test]
#[should_panic(expected = "Error(Contract, #11)")]
fn test_vault_set_position_manager_unauthorized() {
    let mut h = harness();
    let attacker = h.generate();
    let fake_pm = h.generate();
    h.vault_set_position_manager(attacker, fake_pm);
}

#[test]
#[should_panic(expected = "Error(Contract, #11)")]
fn test_oracle_set_price_unauthorized() {
    let mut h = harness();
    let attacker = h.generate();
    h.set_price_as(attacker, 0, 1_000_0000000);
}

#[test]
#[should_panic(expected = "Error(Contract, #11)")]
fn test_pm_set_fee_rates_unauthorized() {
    let mut h = harness();
    let attacker = h.generate();
    ok(h.pm.set_fee_rates(attacker, 50, 50));
}

#[test]
#[should_panic(expected = "Error(Contract, #11)")]
fn test_pm_set_max_leverage_unauthorized() {
    let mut h = harness();
    let attacker = h.generate();
    ok(h.pm.set_max_leverage(attacker, 50));
}

#[test]
#[should_panic(expected = "Error(Contract, #11)")]
fn test_le_set_maintenance_margin_unauthorized() {
    let mut h = harness();
    let attacker = h.generate();
    ok(h.le.set_maintenance_margin(attacker, 1000));
}

#[test]
#[should_panic(expected = "Error(Contract, #11)")]
fn test_funding_set_interval_unauthorized() {
    let mut h = harness();
    let attacker = h.generate();
    ok(h.funding.set_funding_interval(attacker, 7200));
}

#[test]
#[should_panic(expected = "Error(Contract, #2)")]
fn test_vault_double_initialize() {
    let mut h = harness();
    let attacker = h.generate();
    let fake_token = h.generate();
    h.vault_initialize(attacker, fake_token, 8000);
}

#[test]
#[should_panic(expected = "Error(Contract, #2)")]
fn test_pm_double_initialize() {
    let mut h = harness();
    let attacker = h.generate();
    let fake = h.generate();
    ok(h.pm.initialize(attacker, fake, fake, fake, 10, 10, 30, 10_0000000));
}

#[test]
fn test_admin_can_update_config() {
    let mut h = harness();
    let admin = h.admin;
    ok(h.pm.set_fee_rates(admin, 20, 20));
    ok(h.pm.set_max_leverage(admin, 50));
    ok(h.vault.set_max_utilization(admin, 9000));
    ok(h.oracle.set_staleness_threshold(admin, 600));
    ok(h.le.set_maintenance_margin(admin, 800));
    ok(h.le.set_liquidation_penalty(admin, 300));
    ok(h.le.set_keeper_reward(admin, 100));
    ok(h.funding.set_funding_interval(admin, 7200));
    ok(h.funding.set_max_rate(admin, 20));
    h.add_liquidity(100_000_0000000);
    h.set_price(0, 1_000_0000000);
    let trader = create_trader(&mut h, 500_0000000);
    // 50x is allowed now
    let pos_id = h.open_position(trader, 0, Direction::Long, 10_0000000, 50);
    let pos = h.get_position(trader, pos_id);
    assert_eq!(pos.size, 500_0000000);
}

#[test]
#[should_panic]
fn test_pm_liquidate_position_unauthorized_caller() {
    let mut h = harness();
    h.add_liquidity(100_000_0000000);
    h.set_price(0, 1_000_0000000);
    let trader = create_trader(&mut h, 500_0000000);
    h.open_position(trader, 0, Direction::Long, 100_0000000, 10);
    let attacker = h.generate();
    h.pm_liquidate_position(attacker, trader, 1, 0);
}

// ---------------------------------------------------------------------------
// Edge cases
// ---------------------------------------------------------------------------

#[test]
fn test_open_position_zero_lp_liquidity() {
    let mut h = harness();
    h.set_price(0, 1_000_0000000);
    let trader = create_trader(&mut h, 500_0000000);
    let pos_id = h.open_position(trader, 0, Direction::Long, 100_0000000, 10);
    assert_eq!(pos_id, 1);
    // only the closing fee is lost
    let pnl = h.close_position(trader, pos_id, 0);
    assert_eq!(pnl, -1_0000000);
}

#[test]
#[should_panic(expected = "Error(Contract, #6)")]
fn test_max_leverage_boundary() {
    let mut h = harness();
    h.add_liquidity(100_000_0000000);
    h.set_price(0, 1_000_0000000);
    let trader = create_trader(&mut h, 500_0000000);
    h.open_position(trader, 0, Direction::Long, 100_0000000, 31);
}

#[test]
fn test_max_leverage_exactly_at_limit() {
    let mut h = harness();
    h.add_liquidity(100_000_0000000);
    h.set_price(0, 1_000_0000000);
    let trader = create_trader(&mut h, 500_0000000);
    let pos_id = h.open_position(trader, 0, Direction::Long, 10_0000000, 30);
    assert_eq!(pos_id, 1);
    let pos = h.get_position(trader, pos_id);
    assert_eq!(pos.size, 300_0000000);
}

#[test]
fn test_near_total_loss() {
    let mut h = harness();
    h.add_liquidity(100_000_0000000);
    h.set_price(0, 1_000_0000000);
    let trader = create_trader(&mut h, 500_0000000);
    h.open_position(trader, 0, Direction::Long, 100_0000000, 10);
    // PnL -95: margin ratio 50 bps
    h.set_price(0, 905_0000000);
    assert!(h.is_liquidatable(trader, 1, 0));
    let keeper = h.generate();
    h.liquidate(keeper, trader, 1, 0);
    assert_eq!(h.pm.get_trader_position_count(trader), 0);
}

#[test]
fn test_deeply_underwater_liquidation() {
    let mut h = harness();
    h.add_liquidity(100_000_0000000);
    h.set_price(0, 1_000_0000000);
    let trader = create_trader(&mut h, 500_0000000);
    h.open_position(trader, 0, Direction::Long, 100_0000000, 10);
    h.set_price(0, 850_0000000);
    let ratio = h.get_margin_ratio(trader, 1, 0);
    assert_eq!(ratio, -500);
    let keeper = h.generate();
    h.liquidate(keeper, trader, 1, 0);
    assert_eq!(h.pm.get_trader_position_count(trader), 0);
}

#[test]
#[should_panic(expected = "Error(Contract, #7)")]
fn test_double_liquidation_fails() {
    let mut h = harness();
    h.add_liquidity(100_000_0000000);
    h.set_price(0, 1_000_0000000);
    let trader = create_trader(&mut h, 500_0000000);
    h.open_position(trader, 0, Direction::Long, 100_0000000, 10);
    h.set_price(0, 900_0000000);
    let keeper = h.generate();
    h.liquidate(keeper, trader, 1, 0);
    h.liquidate(keeper, trader, 1, 0);
}

#[test]
fn test_multiple_assets() {
    let mut h = harness();
    h.add_liquidity(100_000_0000000);
    h.set_price(0, 1_000_0000000);
    h.set_price(1, 50_000_0000000);
    let trader = create_trader(&mut h, 1000_0000000);
    let pos1 = h.open_position(trader, 0, Direction::Long, 100_0000000, 10);
    let pos2 = h.open_position(trader, 1, Direction::Short, 100_0000000, 5);
    h.set_price(0, 1_100_0000000);
    h.set_price(1, 45_000_0000000);
    let pnl1 = h.close_position(trader, pos1, 0);
    let pnl2 = h.close_position(trader, pos2, 1);
    assert!(pnl1 > 0);
    assert!(pnl2 > 0);
}

#[test]
fn test_open_close_same_price() {
    let mut h = harness();
    h.add_liquidity(100_000_0000000);
    h.set_price(0, 1_000_0000000);
    let trader = create_trader(&mut h, 500_0000000);
    let pos_id = h.open_position(trader, 0, Direction::Long, 100_0000000, 10);
    let pnl = h.close_position(trader, pos_id, 0);
    assert_eq!(pnl, -1_0000000);
    // 500 - 101 + 99
    assert_eq!(h.usdc_balance(trader), 498_0000000);
}

#[test]
fn test_small_position_minimum_collateral() {
    let mut h = harness();
    h.add_liquidity(100_000_0000000);
    h.set_price(0, 1_000_0000000);
    let trader = create_trader(&mut h, 500_0000000);
    let pos_id = h.open_position(trader, 0, Direction::Long, 10_0000000, 1);
    let pos = h.get_position(trader, pos_id);
    assert_eq!(pos.size, 10_0000000);
    assert_eq!(pos.collateral, 10_0000000);
}

#[test]
fn test_funding_balanced_oi() {
    let mut h = harness();
    h.add_liquidity(100_000_0000000);
    h.set_price(0, 1_000_0000000);
    let trader1 = create_trader(&mut h, 500_0000000);
    let trader2 = create_trader(&mut h, 500_0000000);
    h.open_position(trader1, 0, Direction::Long, 100_0000000, 10);
    h.open_position(trader2, 0, Direction::Short, 100_0000000, 10);
    let (long_rate, short_rate) = h.get_current_rate();
    assert_eq!(long_rate, 5);
    assert_eq!(short_rate, 5);
}

#[test]
fn test_sequential_open_close_positions() {
    let mut h = harness();
    h.add_liquidity(100_000_0000000);
    h.set_price(0, 1_000_0000000);
    let trader = create_trader(&mut h, 2000_0000000);
    for i in 0..5 {
        let pos_id = h.open_position(trader, 0, Direction::Long, 100_0000000, 5);
        assert_eq!(pos_id, (i + 1) as u64);
        h.close_position(trader, pos_id, 0);
    }
    assert_eq!(h.pm.get_trader_position_count(trader), 0);
    assert_eq!(h.pm.get_open_interest_long(), 0);
    assert_eq!(h.vault.get_locked_liquidity(), 0);
    let next_pos = h.open_position(trader, 0, Direction::Long, 100_0000000, 5);
    assert_eq!(next_pos, 6);
}

#[test]
#[should_panic(expected = "Error(Contract, #17)")]
fn test_close_position_wrong_asset() {
    let mut h = harness();
    h.add_liquidity(100_000_0000000);
    h.set_price(0, 1_000_0000000);
    h.set_price(1, 50_000_0000000);
    let trader = create_trader(&mut h, 500_0000000);
    let pos_id = h.open_position(trader, 0, Direction::Long, 100_0000000, 10);
    h.close_position(trader, pos_id, 1);
}

#[test]
fn test_loss_capped_at_collateral() {
    let mut h = harness();
    h.add_liquidity(100_000_0000000);
    h.set_price(0, 1_000_0000000);
    let trader = create_trader(&mut h, 500_0000000);
    let pos_id = h.open_position(trader, 0, Direction::Long, 100_0000000, 10);
    // raw PnL -500, capped at the collateral of 100
    h.set_price(0, 500_0000000);
    let pnl = h.close_position(trader, pos_id, 0);
    assert_eq!(pnl, -101_0000000);
    let vault_deposits = h.vault.get_total_deposits();
    let vault_locked = h.vault.get_locked_liquidity();
    // 100001 - (-100) + 1
    assert_eq!(vault_deposits, 100_102_0000000);
    assert_eq!(vault_locked, 0);
}

#[test]
#[should_panic(expected = "Error(Contract, #12)")]
fn test_set_fee_rates_too_high() {
    let mut h = harness();
    let admin = h.admin;
    ok(h.pm.set_fee_rates(admin, 10000, 10));
}

#[test]
fn test_high_leverage_immediately_liquidatable() {
    let mut h = harness();
    h.add_liquidity(100_000_0000000);
    h.set_price(0, 1_000_0000000);
    let trader = create_trader(&mut h, 500_0000000);
    h.open_position(trader, 0, Direction::Long, 100_0000000, 30);
    // 100 * 10000 / 3000 = 333 bps < 500 bps
    let ratio = h.get_margin_ratio(trader, 1, 0);
    assert_eq!(ratio, 333);
    let is_liq = h.is_liquidatable(trader, 1, 0);
    assert!(is_liq);
}

#[test]
fn test_share_price_inflation_small_first_deposit() {
    let mut h = harness();
    let _lp1 = h.add_liquidity(100_0000000);
    let initial_shares = h.vault.get_total_shares();
    assert_eq!(initial_shares, 100_0000000);
    h.set_price(0, 1_000_0000000);
    let trader = create_trader(&mut h, 200_0000000);
    h.open_position(trader, 0, Direction::Long, 10_0000000, 5);
    h.set_price(0, 900_0000000);
    h.close_position(trader, 1, 0);
    let share_price = h.vault.get_share_price();
    assert!(share_price > 10_000_000);
    let lp2 = h.add_liquidity(1_0000000);
    let lp2_shares = h.vault.get_share_balance(lp2);
    assert!(lp2_shares > 0);
}

#[test]
fn test_position_stores_asset() {
    let mut h = harness();
    h.add_liquidity(100_000_0000000);
    h.set_price(0, 1_000_0000000);
    h.set_price(1, 50_000_0000000);
    let trader = create_trader(&mut h, 1000_0000000);
    let pos0 = h.open_position(trader, 0, Direction::Long, 100_0000000, 5);
    let pos1 = h.open_position(trader, 1, Direction::Short, 100_0000000, 5);
    let p0 = h.get_position(trader, pos0);
    let p1 = h.get_position(trader, pos1);
    assert_eq!(p0.asset, 0);
    assert_eq!(p1.asset, 1);
    h.close_position(trader, pos0, 0);
    h.close_position(trader, pos1, 1);
}

#[test]
fn test_vault_deposits_stay_consistent_after_trades() {
    let mut h = harness();
    let lp = h.add_liquidity(10_000_0000000);
    h.set_price(0, 1_000_0000000);
    let trader = create_trader(&mut h, 500_0000000);
    for _ in 0..3 {
        h.open_position(trader, 0, Direction::Long, 50_0000000, 5);
    }
    h.set_price(0, 1_010_0000000);
    for i in 1..=3 {
        h.close_position(trader, i as u64, 0);
    }
    let locked = h.vault.get_locked_liquidity();
    let deposits = h.vault.get_total_deposits();
    assert_eq!(locked, 0);
    assert!(deposits > 0);
    let shares = h.vault.get_share_balance(lp);
    let withdrawn = h.withdraw(lp, shares);
    assert!(withdrawn > 0);
}

#[test]
#[should_panic]
fn test_liquidate_wrong_asset() {
    let mut h = harness();
    h.add_liquidity(100_000_0000000);
    h.set_price(0, 1_000_0000000);
    h.set_price(1, 50_000_0000000);
    let trader = create_trader(&mut h, 500_0000000);
    h.open_position(trader, 0, Direction::Long, 100_0000000, 10);
    // asset 1 crashes; the asset 0 position must not be liquidated with it
    h.set_price(1, 1_0000000);
    let keeper = h.generate();
    h.liquidate(keeper, trader, 1, 1);
}
