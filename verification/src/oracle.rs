//! The oracle adapter: caches the latest price of each asset and refuses
//! prices older than the staleness threshold.

use std::collections::HashMap;
use vstd::prelude::*;
use crate::types::{Address, CachedPrice, PerpsError};

verus! {

broadcast use vstd::std_specs::hash::group_hash_axioms;

/// Storage of the oracle adapter contract.
pub struct OracleAdapterContract {
    pub address: Address,
    pub admin: Option<Address>,
    /// Largest age, in seconds, of a price that is still served.
    pub staleness_threshold: u64,
    /// Latest price of each asset, by asset number.
    pub prices: HashMap<u32, CachedPrice>,
}

impl OracleAdapterContract {
    pub open spec fn initialized(self) -> bool {
        self.admin is Some
    }

    /// The price cached for `asset`, if any.
    pub open spec fn cached(self, asset: u32) -> Option<CachedPrice> {
        if self.prices@.contains_key(asset) {
            Some(self.prices@[asset])
        } else {
            None
        }
    }

    /// What `get_price` answers at ledger time `now`: the cached price if
    /// there is one and it is at most `staleness_threshold` seconds old.
    pub open spec fn price_at(self, asset: u32, now: u64) -> Result<CachedPrice, PerpsError> {
        match self.cached(asset) {
            None => Err(PerpsError::StalePrice),
            Some(c) => if now - c.timestamp > self.staleness_threshold {
                Err(PerpsError::StalePrice)
            } else {
                Ok(c)
            },
        }
    }

    /// What `get_price_value` answers at ledger time `now`.
    pub open spec fn price_value_at(self, asset: u32, now: u64) -> Result<i128, PerpsError> {
        match self.price_at(asset, now) {
            Ok(c) => Ok(c.price),
            Err(e) => Err(e),
        }
    }

    /// Reading the price of `asset` at `now` does not meet a price from the
    /// future (the age would underflow).
    pub open spec fn read_defined(self, asset: u32, now: u64) -> bool {
        self.cached(asset) matches Some(c) ==> c.timestamp <= now
    }

    /// Every cached price is positive.
    pub open spec fn wf(self) -> bool {
        forall|a: u32| #[trigger] self.prices@.contains_key(a) ==> self.prices@[a].price > 0
    }

    /// A freshly deployed, uninitialized oracle adapter at `address`.
    pub fn new(address: Address) -> (o: Self)
        ensures
            o.address == address,
            o.admin is None,
            o.staleness_threshold == 300,
            o.prices@ == Map::<u32, CachedPrice>::empty(),
            o.wf(),
    {
        OracleAdapterContract { address, admin: None, staleness_threshold: 300, prices: HashMap::new() }
    }

    /// Initialize the oracle adapter.
    pub fn initialize(&mut self, admin: Address, staleness_threshold: u64) -> (r: Result<(), PerpsError>)
        ensures
            old(self).initialized() ==> r == Err::<(), PerpsError>(PerpsError::AlreadyInitialized)
                && *final(self) == *old(self),
            !old(self).initialized() && staleness_threshold == 0 ==> r == Err::<(), PerpsError>(
                PerpsError::InvalidConfig,
            ) && *final(self) == *old(self),
            !old(self).initialized() && staleness_threshold > 0 ==> {
                &&& r is Ok
                &&& final(self).admin == Some(admin)
                &&& final(self).staleness_threshold == staleness_threshold
                &&& final(self).address == old(self).address
                &&& final(self).prices@ == old(self).prices@
            },
    {
        if self.admin.is_some() {
            return Err(PerpsError::AlreadyInitialized);
        }
        if staleness_threshold == 0 {
            return Err(PerpsError::InvalidConfig);
        }
        self.admin = Some(admin);
        self.staleness_threshold = staleness_threshold;
        Ok(())
    }

    /// Admin sets the price of an asset at ledger time `now`. The `asset`
    /// is identified by a u32 index (e.g., 0=XLM, 1=BTC, 2=ETH).
    pub fn set_price(&mut self, admin: Address, asset: u32, price: i128, now: u64) -> (r: Result<(), PerpsError>)
        requires
            old(self).initialized(),
        ensures
            old(self).admin != Some(admin) ==> r == Err::<(), PerpsError>(PerpsError::Unauthorized)
                && *final(self) == *old(self),
            old(self).admin == Some(admin) && price <= 0 ==> r == Err::<(), PerpsError>(
                PerpsError::InvalidAmount,
            ) && *final(self) == *old(self),
            old(self).admin == Some(admin) && price > 0 ==> {
                &&& r is Ok
                &&& final(self).prices@ == old(self).prices@.insert(
                    asset,
                    CachedPrice { price: price, timestamp: now },
                )
                &&& final(self).address == old(self).address
                &&& final(self).admin == old(self).admin
                &&& final(self).staleness_threshold == old(self).staleness_threshold
            },
            old(self).wf() ==> final(self).wf(),
    {
        let stored_admin = self.admin.unwrap();
        if admin != stored_admin {
            return Err(PerpsError::Unauthorized);
        }
        if price <= 0 {
            return Err(PerpsError::InvalidAmount);
        }
        let cached = CachedPrice { price, timestamp: now };
        self.prices.insert(asset, cached);
        Ok(())
    }

    /// Get the latest price for an asset at ledger time `now`, checking
    /// staleness. Errors if the price is stale or missing.
    pub fn get_price(&self, asset: u32, now: u64) -> (r: Result<CachedPrice, PerpsError>)
        requires
            self.read_defined(asset, now),
        ensures
            r == self.price_at(asset, now),
    {
        let cached = match self.prices.get(&asset) {
            Some(c) => *c,
            None => {
                return Err(PerpsError::StalePrice);
            },
        };
        let threshold = self.staleness_threshold;
        if now - cached.timestamp > threshold {
            return Err(PerpsError::StalePrice);
        }
        Ok(cached)
    }

    /// Get price value only. Convenience wrapper.
    pub fn get_price_value(&self, asset: u32, now: u64) -> (r: Result<i128, PerpsError>)
        requires
            self.read_defined(asset, now),
        ensures
            r == self.price_value_at(asset, now),
    {
        let cached = self.get_price(asset, now)?;
        Ok(cached.price)
    }

    pub fn set_staleness_threshold(&mut self, admin: Address, threshold: u64) -> (r: Result<(), PerpsError>)
        requires
            old(self).initialized(),
        ensures
            old(self).admin != Some(admin) ==> r == Err::<(), PerpsError>(PerpsError::Unauthorized)
                && *final(self) == *old(self),
            old(self).admin == Some(admin) && threshold == 0 ==> r == Err::<(), PerpsError>(
                PerpsError::InvalidConfig,
            ) && *final(self) == *old(self),
            old(self).admin == Some(admin) && threshold > 0 ==> {
                &&& r is Ok
                &&& final(self).staleness_threshold == threshold
                &&& final(self).address == old(self).address
                &&& final(self).admin == old(self).admin
                &&& final(self).prices@ == old(self).prices@
            },
    {
        let stored_admin = self.admin.unwrap();
        if admin != stored_admin {
            return Err(PerpsError::Unauthorized);
        }
        if threshold == 0 {
            return Err(PerpsError::InvalidConfig);
        }
        self.staleness_threshold = threshold;
        Ok(())
    }
}

/// A price set for an asset is served from the moment it is set until it
/// is more than the staleness threshold old, and then refused as stale; the
/// prices of other assets are served as before.
pub proof fn lemma_read_after_write(
    before: OracleAdapterContract,
    after: OracleAdapterContract,
    asset: u32,
    price: i128,
    set_at: u64,
    other: u32,
    now: u64,
)
    requires
        after.prices@ == before.prices@.insert(asset, CachedPrice { price, timestamp: set_at }),
        after.staleness_threshold == before.staleness_threshold,
        set_at <= now,
    ensures
        now - set_at <= after.staleness_threshold ==> after.price_value_at(asset, now) == Ok::<i128, PerpsError>(price),
        now - set_at > after.staleness_threshold ==> after.price_value_at(asset, now) == Err::<i128, PerpsError>(
            PerpsError::StalePrice,
        ),
        other != asset ==> after.price_value_at(other, now) == before.price_value_at(other, now),
{
}

} // verus!
