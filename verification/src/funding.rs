//! The funding rate mechanism: the side with more open interest pays the
//! other, and a protocol spread is charged to both sides.

use vstd::prelude::*;
use crate::arith::{div_ok, div_trunc, fits_i128, tdiv, lemma_tdiv_sign};
use crate::position_manager::PositionManagerContract;
use crate::types::{Address, PerpsError};

verus! {

/// Storage of the funding rate contract.
pub struct FundingRateContract {
    pub address: Address,
    pub admin: Option<Address>,
    pub position_manager: Option<Address>,
    /// Least time, in seconds, between two funding applications.
    pub funding_interval: u64,
    /// Largest base rate, in basis points per interval.
    pub max_funding_rate: u32,
    /// Protocol spread, in basis points, charged to both sides.
    pub funding_spread: u32,
    pub cumulative_funding_long: i128,
    pub cumulative_funding_short: i128,
    pub last_funding_time: u64,
}

/// `value` limited to the range from `min` to `max`.
pub open spec fn clamped(value: int, min: int, max: int) -> int {
    if value < min {
        min
    } else if value > max {
        max
    } else {
        value
    }
}

fn clamp(value: i128, min: i128, max: i128) -> (r: i128)
    ensures
        r == clamped(value as int, min as int, max as int),
{
    if value < min {
        min
    } else if value > max {
        max
    } else {
        value
    }
}

/// Clamping to a range symmetric about zero commutes with negation, and
/// clamping twice is clamping once.
pub proof fn lemma_clamp_symmetric(value: int, max: int)
    requires
        max >= 0,
    ensures
        clamped(-value, -max, max) == -clamped(value, -max, max),
        clamped(clamped(value, -max, max), -max, max) == clamped(value, -max, max),
{
}

/// Open-interest skew in basis points: positive when longs dominate.
pub open spec fn skew_bps(oi_long: int, oi_short: int) -> int {
    tdiv((oi_long - oi_short) * 10_000, oi_long + oi_short)
}

/// Funding rates `(long_rate, short_rate)` in basis points for the given
/// open interest: none without open interest; otherwise the skew clamped
/// to the maximum rate is the base rate, longs pay `base + spread` and
/// shorts pay `spread - base`.
pub open spec fn funding_rates(oi_long: int, oi_short: int, max_rate: int, spread: int) -> (int, int) {
    if oi_long + oi_short == 0 {
        (0, 0)
    } else {
        let base = clamped(skew_bps(oi_long, oi_short), -max_rate, max_rate);
        (base + spread, -(base - spread))
    }
}

/// Computing the rates for this open interest does not overflow.
pub open spec fn rates_defined(oi_long: int, oi_short: int) -> bool {
    &&& fits_i128(oi_long + oi_short)
    &&& (oi_long + oi_short != 0 ==> {
        &&& fits_i128(oi_long - oi_short)
        &&& div_ok((oi_long - oi_short) * 10_000, oi_long + oi_short)
    })
}

impl FundingRateContract {
    pub open spec fn initialized(self) -> bool {
        self.admin is Some
    }

    /// The rates that the position manager's open interest gives now.
    pub open spec fn rates(self, pm: PositionManagerContract) -> (int, int) {
        funding_rates(
            pm.open_interest_long as int,
            pm.open_interest_short as int,
            self.max_funding_rate as int,
            self.funding_spread as int,
        )
    }

    /// Only the cumulative indices and the last funding time may differ
    /// from `other`.
    pub open spec fn same_settings(self, other: Self) -> bool {
        &&& self.address == other.address
        &&& self.admin == other.admin
        &&& self.position_manager == other.position_manager
        &&& self.funding_interval == other.funding_interval
        &&& self.max_funding_rate == other.max_funding_rate
        &&& self.funding_spread == other.funding_spread
    }

    /// A freshly deployed, uninitialized funding rate contract at `address`.
    pub fn new(address: Address) -> (f: Self)
        ensures
            f.address == address,
            f.admin is None,
            f.position_manager is None,
            f.funding_interval == 3600,
            f.max_funding_rate == 10,
            f.funding_spread == 5,
            f.cumulative_funding_long == 0,
            f.cumulative_funding_short == 0,
            f.last_funding_time == 0,
    {
        FundingRateContract {
            address,
            admin: None,
            position_manager: None,
            funding_interval: 3600,
            max_funding_rate: 10,
            funding_spread: 5,
            cumulative_funding_long: 0,
            cumulative_funding_short: 0,
            last_funding_time: 0,
        }
    }

    /// Initialize the funding rate contract at ledger time `now`.
    pub fn initialize(
        &mut self,
        admin: Address,
        position_manager: Address,
        funding_interval: u64,
        max_funding_rate_bps: u32,
        funding_spread_bps: u32,
        now: u64,
    ) -> (r: Result<(), PerpsError>)
        ensures
            old(self).initialized() ==> r == Err::<(), PerpsError>(PerpsError::AlreadyInitialized)
                && *final(self) == *old(self),
            !old(self).initialized() && (funding_interval == 0 || max_funding_rate_bps == 0) ==> r
                == Err::<(), PerpsError>(PerpsError::InvalidConfig) && *final(self) == *old(self),
            !old(self).initialized() && funding_interval > 0 && max_funding_rate_bps > 0 ==> {
                &&& r is Ok
                &&& *final(self) == (FundingRateContract {
                    address: old(self).address,
                    admin: Some(admin),
                    position_manager: Some(position_manager),
                    funding_interval: funding_interval,
                    max_funding_rate: max_funding_rate_bps,
                    funding_spread: funding_spread_bps,
                    cumulative_funding_long: 0,
                    cumulative_funding_short: 0,
                    last_funding_time: now,
                })
            },
    {
        if self.admin.is_some() {
            return Err(PerpsError::AlreadyInitialized);
        }
        if funding_interval == 0 || max_funding_rate_bps == 0 {
            return Err(PerpsError::InvalidConfig);
        }
        self.admin = Some(admin);
        self.position_manager = Some(position_manager);
        self.funding_interval = funding_interval;
        self.max_funding_rate = max_funding_rate_bps;
        self.funding_spread = funding_spread_bps;
        self.cumulative_funding_long = 0;
        self.cumulative_funding_short = 0;
        self.last_funding_time = now;
        Ok(())
    }

    /// Calculate the current funding rate based on OI skew.
    ///
    /// Returns `(long_rate, short_rate)` in basis points.
    /// - When longs dominate: long_rate > 0 (longs pay), short_rate < 0 (shorts receive)
    /// - When shorts dominate: long_rate < 0 (longs receive), short_rate > 0 (shorts pay)
    /// - Protocol takes a spread from the paying side
    pub fn get_current_rate(&self, pm: &PositionManagerContract) -> (r: Result<(i128, i128), PerpsError>)
        requires
            self.position_manager == Some(pm.address),
            rates_defined(pm.open_interest_long as int, pm.open_interest_short as int),
        ensures
            r == Ok::<(i128, i128), PerpsError>(
                (self.rates(*pm).0 as i128, self.rates(*pm).1 as i128),
            ),
            fits_i128(self.rates(*pm).0) && fits_i128(self.rates(*pm).1),
    {
        let oi_long = pm.get_open_interest_long();
        let oi_short = pm.get_open_interest_short();
        let total_oi = oi_long + oi_short;
        if total_oi == 0 {
            return Ok((0, 0));
        }
        let max_rate = self.max_funding_rate as i128;
        let spread = self.funding_spread as i128;
        let skew = div_trunc((oi_long - oi_short) * 10_000, total_oi);
        let base_rate = clamp(skew, -max_rate, max_rate);
        let long_rate = base_rate + spread;
        let short_rate = -(base_rate - spread);
        Ok((long_rate, short_rate))
    }

    /// The error with which `apply_funding` fails at `now`, if any.
    pub open spec fn apply_error(self, now: u64) -> Option<PerpsError> {
        if now - self.last_funding_time < self.funding_interval {
            Some(PerpsError::FundingTooEarly)
        } else {
            None
        }
    }

    /// Keeper applies funding at ledger time `now`: at least one interval
    /// after the last application, the current rates are added to the
    /// cumulative indices.
    pub fn apply_funding(&mut self, pm: &PositionManagerContract, now: u64, keeper: Address) -> (r: Result<(), PerpsError>)
        requires
            old(self).position_manager == Some(pm.address),
            old(self).last_funding_time <= now,
            old(self).apply_error(now) is None ==> {
                &&& rates_defined(pm.open_interest_long as int, pm.open_interest_short as int)
                &&& fits_i128(old(self).cumulative_funding_long + old(self).rates(*pm).0)
                &&& fits_i128(old(self).cumulative_funding_short + old(self).rates(*pm).1)
            },
        ensures
            (match old(self).apply_error(now) {
                Some(e) => r == Err::<(), PerpsError>(e) && *final(self) == *old(self),
                None => {
                    &&& r is Ok
                    &&& final(self).same_settings(*old(self))
                    &&& final(self).cumulative_funding_long == old(self).cumulative_funding_long
                        + old(self).rates(*pm).0
                    &&& final(self).cumulative_funding_short == old(self).cumulative_funding_short
                        + old(self).rates(*pm).1
                    &&& final(self).last_funding_time == now
                },
            }),
    {
        let last = self.last_funding_time;
        let interval = self.funding_interval;
        if now - last < interval {
            return Err(PerpsError::FundingTooEarly);
        }
        let (long_rate, short_rate) = match self.get_current_rate(pm) {
            Ok(rates) => rates,
            Err(e) => {
                return Err(e);
            },
        };
        self.cumulative_funding_long = self.cumulative_funding_long + long_rate;
        self.cumulative_funding_short = self.cumulative_funding_short + short_rate;
        self.last_funding_time = now;
        Ok(())
    }

    // -----------------------------------------------------------------------
    // View functions
    // -----------------------------------------------------------------------

    pub fn get_cumulative_funding_long(&self) -> (c: i128)
        ensures
            c == self.cumulative_funding_long,
    {
        self.cumulative_funding_long
    }

    pub fn get_cumulative_funding_short(&self) -> (c: i128)
        ensures
            c == self.cumulative_funding_short,
    {
        self.cumulative_funding_short
    }

    pub fn get_last_funding_time(&self) -> (t: u64)
        ensures
            t == self.last_funding_time,
    {
        self.last_funding_time
    }

    // -----------------------------------------------------------------------
    // Admin functions
    // -----------------------------------------------------------------------

    pub fn set_funding_interval(&mut self, admin: Address, interval: u64) -> (r: Result<(), PerpsError>)
        requires
            old(self).initialized(),
        ensures
            old(self).admin != Some(admin) ==> r == Err::<(), PerpsError>(PerpsError::Unauthorized)
                && *final(self) == *old(self),
            old(self).admin == Some(admin) && interval == 0 ==> r == Err::<(), PerpsError>(
                PerpsError::InvalidConfig,
            ) && *final(self) == *old(self),
            old(self).admin == Some(admin) && interval > 0 ==> r is Ok && *final(self) == (
            FundingRateContract { funding_interval: interval, ..*old(self) }),
    {
        let stored_admin = self.admin.unwrap();
        if admin != stored_admin {
            return Err(PerpsError::Unauthorized);
        }
        if interval == 0 {
            return Err(PerpsError::InvalidConfig);
        }
        self.funding_interval = interval;
        Ok(())
    }

    pub fn set_max_rate(&mut self, admin: Address, max_bps: u32) -> (r: Result<(), PerpsError>)
        requires
            old(self).initialized(),
        ensures
            old(self).admin != Some(admin) ==> r == Err::<(), PerpsError>(PerpsError::Unauthorized)
                && *final(self) == *old(self),
            old(self).admin == Some(admin) && max_bps == 0 ==> r == Err::<(), PerpsError>(
                PerpsError::InvalidConfig,
            ) && *final(self) == *old(self),
            old(self).admin == Some(admin) && max_bps > 0 ==> r is Ok && *final(self) == (
            FundingRateContract { max_funding_rate: max_bps, ..*old(self) }),
    {
        let stored_admin = self.admin.unwrap();
        if admin != stored_admin {
            return Err(PerpsError::Unauthorized);
        }
        if max_bps == 0 {
            return Err(PerpsError::InvalidConfig);
        }
        self.max_funding_rate = max_bps;
        Ok(())
    }
}

/// With open interest, the long and short rates always add up to twice the
/// spread: the base rate moves from one side to the other and the protocol
/// takes the spread from both.
pub proof fn lemma_rates_sum_to_twice_spread(oi_long: int, oi_short: int, max_rate: int, spread: int)
    requires
        oi_long + oi_short != 0,
    ensures
        funding_rates(oi_long, oi_short, max_rate, spread).0 + funding_rates(oi_long, oi_short, max_rate, spread).1
            == 2 * spread,
{
}

/// With open interest, each rate stays within the maximum rate of the
/// spread.
pub proof fn lemma_rates_bounded(oi_long: int, oi_short: int, max_rate: int, spread: int)
    requires
        oi_long + oi_short != 0,
        0 <= max_rate,
    ensures
        spread - max_rate <= funding_rates(oi_long, oi_short, max_rate, spread).0 <= spread + max_rate,
        spread - max_rate <= funding_rates(oi_long, oi_short, max_rate, spread).1 <= spread + max_rate,
{
}

/// Balanced open interest charges both sides the spread only.
pub proof fn lemma_balanced_interest_spread_only(oi: int, max_rate: int, spread: int)
    requires
        oi != 0,
        0 <= max_rate,
    ensures
        funding_rates(oi, oi, max_rate, spread) == (spread, spread),
{
    assert((oi - oi) * 10_000 == 0);
    vstd::arithmetic::div_mod::lemma_div_of0(crate::arith::abs(oi + oi));
}

/// The dominant side pays at least the spread and the other side at most
/// the spread: when longs dominate, longs pay and shorts receive, and
/// when shorts dominate, the other way round.
pub proof fn lemma_dominant_side_pays(oi_long: int, oi_short: int, max_rate: int, spread: int)
    requires
        0 <= oi_long,
        0 <= oi_short,
        oi_long + oi_short > 0,
        0 <= max_rate,
    ensures
        oi_long >= oi_short ==> funding_rates(oi_long, oi_short, max_rate, spread).0 >= spread
            >= funding_rates(oi_long, oi_short, max_rate, spread).1,
        oi_short >= oi_long ==> funding_rates(oi_long, oi_short, max_rate, spread).1 >= spread
            >= funding_rates(oi_long, oi_short, max_rate, spread).0,
{
    let d = oi_long - oi_short;
    if d >= 0 {
        vstd::arithmetic::mul::lemma_mul_nonnegative(d, 10_000);
    }
    if d <= 0 {
        vstd::arithmetic::mul::lemma_mul_inequality(d, 0, 10_000);
    }
    lemma_tdiv_sign(d * 10_000, oi_long + oi_short);
}

/// Swapping long and short open interest swaps the two rates.
pub proof fn lemma_rates_mirror(oi_long: int, oi_short: int, max_rate: int, spread: int)
    requires
        max_rate >= 0,
    ensures
        funding_rates(oi_short, oi_long, max_rate, spread) == (
            funding_rates(oi_long, oi_short, max_rate, spread).1,
            funding_rates(oi_long, oi_short, max_rate, spread).0,
        ),
{
    if oi_long + oi_short != 0 {
        assert((oi_short - oi_long) * 10_000 == -((oi_long - oi_short) * 10_000));
        assert(skew_bps(oi_short, oi_long) == -skew_bps(oi_long, oi_short));
        lemma_clamp_symmetric(skew_bps(oi_long, oi_short), max_rate);
    }
}

/// Funding is proportional to the skew: when the open-interest skew
/// `(oi_long - oi_short) * 10_000 / (oi_long + oi_short)` (truncated) is
/// within the maximum rate, longs pay exactly the skew plus the spread and
/// shorts pay the spread minus the skew.
pub proof fn lemma_rates_proportional_to_skew(oi_long: int, oi_short: int, max_rate: int, spread: int)
    requires
        oi_long + oi_short != 0,
        -max_rate <= tdiv((oi_long - oi_short) * 10_000, oi_long + oi_short) <= max_rate,
    ensures
        funding_rates(oi_long, oi_short, max_rate, spread) == (
            tdiv((oi_long - oi_short) * 10_000, oi_long + oi_short) + spread,
            spread - tdiv((oi_long - oi_short) * 10_000, oi_long + oi_short),
        ),
{
}

/// Without open interest nobody pays funding.
pub proof fn lemma_no_interest_no_funding(oi_long: int, oi_short: int, max_rate: int, spread: int)
    requires
        oi_long + oi_short == 0,
    ensures
        funding_rates(oi_long, oi_short, max_rate, spread) == (0int, 0int),
{
}

/// Beyond the maximum rate the base rate is the maximum, with the sign of
/// the skew: the dominant side pays the maximum plus the spread and the
/// other side the spread minus the maximum.
pub proof fn lemma_rates_saturate(oi_long: int, oi_short: int, max_rate: int, spread: int)
    requires
        oi_long + oi_short != 0,
        0 <= max_rate,
    ensures
        tdiv((oi_long - oi_short) * 10_000, oi_long + oi_short) > max_rate ==> funding_rates(
            oi_long,
            oi_short,
            max_rate,
            spread,
        ) == (max_rate + spread, spread - max_rate),
        tdiv((oi_long - oi_short) * 10_000, oi_long + oi_short) < -max_rate ==> funding_rates(
            oi_long,
            oi_short,
            max_rate,
            spread,
        ) == (spread - max_rate, max_rate + spread),
{
}

} // verus!
