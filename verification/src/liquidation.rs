//! The liquidation engine: checks margin health and force-closes positions
//! whose margin ratio has fallen below maintenance.

use vstd::prelude::*;
use crate::arith::{div_ok, div_trunc, fits_i128, tdiv};
use crate::math::{liquidation_charge, liquidation_split, split_liquidation};
use crate::oracle::OracleAdapterContract;
use crate::position_manager::{backing, capped_pnl, PositionManagerContract};
use crate::types::{cash_in, Address, PerpsError, Transfer};
use crate::vault::VaultContract;

verus! {

/// Storage of the liquidation engine contract.
pub struct LiquidationEngineContract {
    pub address: Address,
    pub admin: Option<Address>,
    pub position_manager: Option<Address>,
    pub oracle: Option<Address>,
    /// Margin ratio, in basis points, below which a position is liquidatable.
    pub maintenance_margin_rate: u32,
    pub liquidation_penalty: u32,
    pub keeper_reward: u32,
}

/// What a liquidation reports: the mark price, the margin ratio that made
/// the position liquidatable, and the penalty and keeper reward due on it.
#[derive(Clone, Copy, PartialEq, Eq, Structural, Debug)]
pub struct LiquidationReport {
    pub mark_price: i128,
    pub margin_ratio_bps: i128,
    pub penalty: i128,
    pub keeper_reward: i128,
}

/// Margin ratio in basis points: `(collateral + pnl) * 10_000 / size`;
/// negative when the position is underwater.
pub open spec fn margin_ratio(collateral: int, pnl: int, size: int) -> int {
    tdiv((collateral + pnl) * 10_000, size)
}

impl LiquidationEngineContract {
    pub open spec fn initialized(self) -> bool {
        self.admin is Some
    }

    /// What `get_margin_ratio` answers.
    pub open spec fn margin_ratio_at(
        self,
        pm: PositionManagerContract,
        oracle: OracleAdapterContract,
        now: u64,
        trader: Address,
        id: u64,
        asset: u32,
    ) -> Result<i128, PerpsError> {
        match pm.position(trader, id) {
            None => Err(PerpsError::PositionNotFound),
            Some(p) => match pm.unrealized_pnl_at(oracle, now, trader, id, asset) {
                Err(e) => Err(e),
                Ok(u) => if p.size == 0 {
                    Err(PerpsError::PositionNotFound)
                } else {
                    Ok(margin_ratio(p.collateral as int, u as int, p.size as int) as i128)
                },
            },
        }
    }

    /// Computing the margin ratio neither overflows nor reads a price from
    /// the future.
    pub open spec fn ratio_defined(
        self,
        pm: PositionManagerContract,
        oracle: OracleAdapterContract,
        now: u64,
        trader: Address,
        id: u64,
        asset: u32,
    ) -> bool {
        &&& pm.unrealized_defined(oracle, now, trader, id, asset)
        &&& (pm.position(trader, id) matches Some(p) ==> (pm.unrealized_pnl_at(
            oracle,
            now,
            trader,
            id,
            asset,
        ) matches Ok(u) ==> {
            &&& fits_i128(p.collateral + u)
            &&& (p.size != 0 ==> div_ok((p.collateral + u) * 10_000, p.size as int))
        }))
    }

    /// A freshly deployed, uninitialized liquidation engine at `address`.
    pub fn new(address: Address) -> (le: Self)
        ensures
            le == (LiquidationEngineContract {
                address: address,
                admin: None,
                position_manager: None,
                oracle: None,
                maintenance_margin_rate: 500,
                liquidation_penalty: 250,
                keeper_reward: 50,
            }),
    {
        LiquidationEngineContract {
            address,
            admin: None,
            position_manager: None,
            oracle: None,
            maintenance_margin_rate: 500,
            liquidation_penalty: 250,
            keeper_reward: 50,
        }
    }

    /// The error with which `initialize` fails, if any.
    pub open spec fn initialize_error(self, maintenance_margin_bps: u32, liquidation_penalty_bps: u32, keeper_reward_bps: u32) -> Option<PerpsError> {
        if self.initialized() {
            Some(PerpsError::AlreadyInitialized)
        } else if maintenance_margin_bps == 0 || maintenance_margin_bps > 5000 {
            Some(PerpsError::InvalidConfig)
        } else if keeper_reward_bps > liquidation_penalty_bps {
            Some(PerpsError::InvalidConfig)
        } else {
            None
        }
    }

    /// Initialize the liquidation engine.
    pub fn initialize(
        &mut self,
        admin: Address,
        position_manager: Address,
        oracle: Address,
        maintenance_margin_bps: u32,
        liquidation_penalty_bps: u32,
        keeper_reward_bps: u32,
    ) -> (r: Result<(), PerpsError>)
        ensures
            (match old(self).initialize_error(maintenance_margin_bps, liquidation_penalty_bps, keeper_reward_bps) {
                Some(e) => r == Err::<(), PerpsError>(e) && *final(self) == *old(self),
                None => r is Ok && *final(self) == (LiquidationEngineContract {
                    address: old(self).address,
                    admin: Some(admin),
                    position_manager: Some(position_manager),
                    oracle: Some(oracle),
                    maintenance_margin_rate: maintenance_margin_bps,
                    liquidation_penalty: liquidation_penalty_bps,
                    keeper_reward: keeper_reward_bps,
                }),
            }),
    {
        if self.admin.is_some() {
            return Err(PerpsError::AlreadyInitialized);
        }
        if maintenance_margin_bps == 0 || maintenance_margin_bps > 5000 {
            return Err(PerpsError::InvalidConfig);
        }
        if keeper_reward_bps > liquidation_penalty_bps {
            return Err(PerpsError::InvalidConfig);
        }
        self.admin = Some(admin);
        self.position_manager = Some(position_manager);
        self.oracle = Some(oracle);
        self.maintenance_margin_rate = maintenance_margin_bps;
        self.liquidation_penalty = liquidation_penalty_bps;
        self.keeper_reward = keeper_reward_bps;
        Ok(())
    }

    /// Calculate the margin ratio for a position (in basis points).
    ///
    /// margin_ratio = (collateral + unrealized_pnl) * 10000 / notional_size
    ///
    /// Returns negative if position is underwater.
    pub fn get_margin_ratio(
        &self,
        pm: &PositionManagerContract,
        pm_oracle: &OracleAdapterContract,
        now: u64,
        trader: Address,
        position_id: u64,
        asset: u32,
    ) -> (r: Result<i128, PerpsError>)
        requires
            self.position_manager == Some(pm.address),
            pm.oracle == Some(pm_oracle.address),
            self.ratio_defined(*pm, *pm_oracle, now, trader, position_id, asset),
        ensures
            r == self.margin_ratio_at(*pm, *pm_oracle, now, trader, position_id, asset),
    {
        let position = pm.get_position(trader, position_id)?;
        let unrealized_pnl = pm.get_unrealized_pnl(pm_oracle, now, trader, position_id, asset)?;
        let effective_margin = position.collateral + unrealized_pnl;
        if position.size == 0 {
            return Err(PerpsError::PositionNotFound);
        }
        let ratio_bps = div_trunc(effective_margin * 10_000, position.size);
        Ok(ratio_bps)
    }

    /// Check if a position is liquidatable: its margin ratio is below the
    /// maintenance margin rate.
    pub fn is_liquidatable(
        &self,
        pm: &PositionManagerContract,
        pm_oracle: &OracleAdapterContract,
        now: u64,
        trader: Address,
        position_id: u64,
        asset: u32,
    ) -> (r: Result<bool, PerpsError>)
        requires
            self.position_manager == Some(pm.address),
            pm.oracle == Some(pm_oracle.address),
            self.ratio_defined(*pm, *pm_oracle, now, trader, position_id, asset),
        ensures
            r == (match self.margin_ratio_at(*pm, *pm_oracle, now, trader, position_id, asset) {
                Ok(ratio) => Ok::<bool, PerpsError>(ratio < self.maintenance_margin_rate),
                Err(e) => Err::<bool, PerpsError>(e),
            }),
    {
        let maintenance = self.maintenance_margin_rate as i128;
        let margin_ratio = self.get_margin_ratio(pm, pm_oracle, now, trader, position_id, asset)?;
        Ok(margin_ratio < maintenance)
    }

    /// The error with which `liquidate` fails, if any: a missing position,
    /// a stale mark price, a failed PnL reading, a healthy position, or a
    /// refusal of the position manager.
    pub open spec fn liquidate_error(
        self,
        pm: PositionManagerContract,
        vault: VaultContract,
        oracle: OracleAdapterContract,
        pm_oracle: OracleAdapterContract,
        now: u64,
        trader: Address,
        id: u64,
        asset: u32,
    ) -> Option<PerpsError> {
        match pm.position(trader, id) {
            None => Some(PerpsError::PositionNotFound),
            Some(p) => match oracle.price_value_at(asset, now) {
                Err(e) => Some(e),
                Ok(_) => match pm.unrealized_pnl_at(pm_oracle, now, trader, id, asset) {
                    Err(e) => Some(e),
                    Ok(u) => if margin_ratio(p.collateral as int, u as int, p.size as int)
                        >= self.maintenance_margin_rate {
                        Some(PerpsError::NotLiquidatable)
                    } else {
                        pm.liquidate_position_error(vault, pm_oracle, now, self.address, trader, id, asset)
                    },
                },
            },
        }
    }

    /// Liquidating this position neither overflows, divides by zero nor
    /// reads a price from the future.
    pub open spec fn liquidate_defined(
        self,
        pm: PositionManagerContract,
        vault: VaultContract,
        oracle: OracleAdapterContract,
        pm_oracle: OracleAdapterContract,
        now: u64,
        trader: Address,
        id: u64,
        asset: u32,
    ) -> bool {
        pm.position(trader, id) matches Some(p) ==> {
            &&& oracle.read_defined(asset, now)
            &&& (oracle.price_value_at(asset, now) is Ok ==> {
                &&& pm.unrealized_defined(pm_oracle, now, trader, id, asset)
                &&& (pm.unrealized_pnl_at(pm_oracle, now, trader, id, asset) matches Ok(u) ==> {
                    &&& fits_i128(p.collateral + u)
                    &&& div_ok((p.collateral + u) * 10_000, p.size as int)
                    &&& (margin_ratio(p.collateral as int, u as int, p.size as int)
                        < self.maintenance_margin_rate ==> {
                        &&& (pm.liquidator_error(self.address) is None ==> pm.liquidation_defined(
                            vault,
                            pm_oracle,
                            now,
                            trader,
                            id,
                            asset,
                            self.liquidation_penalty,
                            self.keeper_reward,
                        ))
                    })
                })
            })
        }
    }

    /// Execute liquidation at ledger time `now`. Anyone can call this
    /// (keeper incentive): the position must be liquidatable; it is
    /// force-closed through the position manager, the keeper is paid its
    /// reward, the penalty goes to the vault, and the trader receives what
    /// is left of the equity, nothing when reward and penalty exceed it
    /// (`liquidation_split`). The reward and penalty are reported with the
    /// mark price and margin ratio.
    pub fn liquidate(
        &self,
        pm: &mut PositionManagerContract,
        vault: &mut VaultContract,
        oracle: &OracleAdapterContract,
        pm_oracle: &OracleAdapterContract,
        now: u64,
        keeper: Address,
        trader: Address,
        position_id: u64,
        asset: u32,
        transfers: &mut Vec<Transfer>,
    ) -> (r: Result<LiquidationReport, PerpsError>)
        requires
            self.position_manager == Some(old(pm).address),
            self.oracle == Some(oracle.address),
            old(pm).wf(),
            old(pm).wired(*old(vault), *pm_oracle),
            self.liquidate_defined(*old(pm), *old(vault), *oracle, *pm_oracle, now, trader, position_id, asset),
        ensures
            (match self.liquidate_error(*old(pm), *old(vault), *oracle, *pm_oracle, now, trader, position_id, asset) {
                Some(e) => {
                    &&& r == Err::<LiquidationReport, PerpsError>(e)
                    &&& *final(pm) == *old(pm)
                    &&& *final(vault) == *old(vault)
                    &&& final(transfers)@ == old(transfers)@
                },
                None => {
                    let p = old(pm).position(trader, position_id)->0;
                    let u = old(pm).unrealized_pnl_at(*pm_oracle, now, trader, position_id, asset)->Ok_0;
                    let capped = capped_pnl(p, pm_oracle.price_value_at(asset, now)->Ok_0 as int);
                    let split = liquidation_split(
                        p.collateral as int,
                        capped,
                        self.liquidation_penalty as int,
                        self.keeper_reward as int,
                    );
                    let paid = if split.2 > 0 {
                        old(transfers)@.push(old(vault).payout(trader, split.2))
                    } else {
                        old(transfers)@
                    };
                    &&& r == Ok::<LiquidationReport, PerpsError>(
                        LiquidationReport {
                            mark_price: oracle.price_value_at(asset, now)->Ok_0,
                            margin_ratio_bps: margin_ratio(p.collateral as int, u as int, p.size as int) as i128,
                            penalty: split.1 as i128,
                            keeper_reward: split.0 as i128,
                        },
                    )
                    &&& final(pm).retired(*old(pm), p)
                    &&& final(pm).wf()
                    &&& (trader != old(vault).address && keeper != old(vault).address ==> backing(
                        *final(vault),
                        *final(pm),
                    ) - backing(
                        *old(vault),
                        *old(pm),
                    ) == cash_in(old(transfers)@, final(transfers)@, old(vault).usdc_token->0, old(vault).address)
                        + (if split.2 < 0 {
                        -split.2
                    } else {
                        0
                    }))
                    &&& final(vault).same_except_totals(*old(vault))
                    &&& final(vault).locked_liquidity == old(vault).locked_liquidity - p.size
                    &&& final(vault).total_deposits == old(vault).total_deposits - capped + split.1
                    &&& final(vault).total_shares == old(vault).total_shares
                    &&& final(transfers)@ == if split.0 > 0 {
                        paid.push(old(vault).payout(keeper, split.0))
                    } else {
                        paid
                    }
                },
            }),
    {
        let position = pm.get_position(trader, position_id)?;
        let mark_price = oracle.get_price_value(asset, now)?;
        let unrealized_pnl = pm.get_unrealized_pnl(pm_oracle, now, trader, position_id, asset)?;
        let effective_margin = position.collateral + unrealized_pnl;
        let margin_ratio_bps = div_trunc(effective_margin * 10_000, position.size);
        let maintenance = self.maintenance_margin_rate as i128;
        if margin_ratio_bps >= maintenance {
            return Err(PerpsError::NotLiquidatable);
        }
        let (collateral, pnl) = pm.liquidate_position(
            vault,
            pm_oracle,
            now,
            self.address,
            trader,
            position_id,
            asset,
            keeper,
            self.liquidation_penalty,
            self.keeper_reward,
            transfers,
        )?;
        let (keeper_reward, penalty) = split_liquidation(collateral, pnl, self.liquidation_penalty, self.keeper_reward);
        Ok(LiquidationReport { mark_price, margin_ratio_bps, penalty, keeper_reward })
    }

    // -----------------------------------------------------------------------
    // Admin functions
    // -----------------------------------------------------------------------

    pub fn set_maintenance_margin(&mut self, admin: Address, bps: u32) -> (r: Result<(), PerpsError>)
        requires
            old(self).initialized(),
        ensures
            old(self).admin != Some(admin) ==> r == Err::<(), PerpsError>(PerpsError::Unauthorized)
                && *final(self) == *old(self),
            old(self).admin == Some(admin) && (bps == 0 || bps > 5000) ==> r == Err::<(), PerpsError>(
                PerpsError::InvalidConfig,
            ) && *final(self) == *old(self),
            old(self).admin == Some(admin) && 0 < bps <= 5000 ==> r is Ok && *final(self) == (
            LiquidationEngineContract { maintenance_margin_rate: bps, ..*old(self) }),
    {
        let stored_admin = self.admin.unwrap();
        if admin != stored_admin {
            return Err(PerpsError::Unauthorized);
        }
        if bps == 0 || bps > 5000 {
            return Err(PerpsError::InvalidConfig);
        }
        self.maintenance_margin_rate = bps;
        Ok(())
    }

    pub fn set_liquidation_penalty(&mut self, admin: Address, bps: u32) -> (r: Result<(), PerpsError>)
        requires
            old(self).initialized(),
        ensures
            old(self).admin != Some(admin) ==> r == Err::<(), PerpsError>(PerpsError::Unauthorized)
                && *final(self) == *old(self),
            old(self).admin == Some(admin) ==> r is Ok && *final(self) == (LiquidationEngineContract {
                liquidation_penalty: bps,
                ..*old(self)
            }),
    {
        let stored_admin = self.admin.unwrap();
        if admin != stored_admin {
            return Err(PerpsError::Unauthorized);
        }
        self.liquidation_penalty = bps;
        Ok(())
    }

    pub fn set_keeper_reward(&mut self, admin: Address, bps: u32) -> (r: Result<(), PerpsError>)
        requires
            old(self).initialized(),
        ensures
            old(self).admin != Some(admin) ==> r == Err::<(), PerpsError>(PerpsError::Unauthorized)
                && *final(self) == *old(self),
            old(self).admin == Some(admin) ==> r is Ok && *final(self) == (LiquidationEngineContract {
                keeper_reward: bps,
                ..*old(self)
            }),
    {
        let stored_admin = self.admin.unwrap();
        if admin != stored_admin {
            return Err(PerpsError::Unauthorized);
        }
        self.keeper_reward = bps;
        Ok(())
    }

}

/// A liquidation charge is never negative, never more than the equity left
/// after the position's PnL, and never more than the rate applied to the
/// collateral; a smaller rate never charges more.
pub proof fn lemma_charge_bounds(collateral: int, pnl: int, bps1: int, bps2: int)
    requires
        0 < collateral,
        0 <= bps1 <= bps2,
    ensures
        0 <= liquidation_charge(collateral, pnl, bps1),
        liquidation_charge(collateral, pnl, bps1) <= if collateral + pnl > 0 { collateral + pnl } else { 0 },
        liquidation_charge(collateral, pnl, bps1) <= tdiv(collateral * bps1, 10_000),
        liquidation_charge(collateral, pnl, bps1) <= liquidation_charge(collateral, pnl, bps2),
{
    vstd::arithmetic::mul::lemma_mul_nonnegative(collateral, bps1);
    vstd::arithmetic::mul::lemma_mul_inequality(bps1, bps2, collateral);
    vstd::arithmetic::mul::lemma_mul_is_commutative(bps1, collateral);
    vstd::arithmetic::mul::lemma_mul_is_commutative(bps2, collateral);
    crate::arith::lemma_tdiv_nonneg(collateral * bps1, 10_000);
    crate::arith::lemma_tdiv_monotonic(collateral * bps1, collateral * bps2, 10_000);
}

/// A liquidation goes through only for a position that `is_liquidatable`
/// reports as liquidatable, when the engine and the position manager read
/// the same oracle.
pub proof fn lemma_liquidates_only_liquidatable(
    le: LiquidationEngineContract,
    pm: PositionManagerContract,
    vault: VaultContract,
    oracle: OracleAdapterContract,
    now: u64,
    trader: Address,
    id: u64,
    asset: u32,
)
    requires
        pm.wf(),
        le.liquidate_defined(pm, vault, oracle, oracle, now, trader, id, asset),
        le.liquidate_error(pm, vault, oracle, oracle, now, trader, id, asset) is None,
    ensures
        le.margin_ratio_at(pm, oracle, now, trader, id, asset) matches Ok(ratio) && ratio
            < le.maintenance_margin_rate,
        pm.unrealized_pnl_at(oracle, now, trader, id, asset) is Ok,
        tdiv(
            (pm.position(trader, id)->0.collateral + pm.unrealized_pnl_at(oracle, now, trader, id, asset)->Ok_0)
                * 10_000,
            pm.position(trader, id)->0.size as int,
        ) < le.maintenance_margin_rate,
{
    let p = pm.position(trader, id)->0;
    assert(pm.positions@.contains_key(id));
    assert(p.size > 0);
    let u = pm.unrealized_pnl_at(oracle, now, trader, id, asset)->Ok_0;
    crate::arith::lemma_tdiv_fits((p.collateral + u) * 10_000, p.size as int);
}

/// Every liquidatable position can be liquidated: when the position's
/// margin ratio `(collateral + unrealized PnL) * 10_000 / size` (truncated)
/// is below the maintenance margin rate, the prices are fresh and the
/// position manager accepts the force-close, the liquidation goes through.
pub proof fn lemma_liquidates_every_liquidatable(
    le: LiquidationEngineContract,
    pm: PositionManagerContract,
    vault: VaultContract,
    oracle: OracleAdapterContract,
    now: u64,
    trader: Address,
    id: u64,
    asset: u32,
)
    requires
        pm.position(trader, id) is Some,
        oracle.price_value_at(asset, now) is Ok,
        pm.unrealized_pnl_at(oracle, now, trader, id, asset) is Ok,
        tdiv(
            (pm.position(trader, id)->0.collateral + pm.unrealized_pnl_at(oracle, now, trader, id, asset)->Ok_0)
                * 10_000,
            pm.position(trader, id)->0.size as int,
        ) < le.maintenance_margin_rate,
        pm.liquidate_position_error(vault, oracle, now, le.address, trader, id, asset) is None,
    ensures
        le.liquidate_error(pm, vault, oracle, oracle, now, trader, id, asset) is None,
{
}

} // verus!
