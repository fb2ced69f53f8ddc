use vstd::prelude::*;

use crate::key::Key;
use crate::types::StakeError;
use crate::u256::{u256_checked_pow, u256_max, U256};

verus! {

/// The price feed of the stakeable token in the stable coin: it asks the
/// router what one whole token fetches along the path from the token through
/// the synthetic and the wrapped coin to the stable coin, and keeps the last
/// answer.
pub struct StableUsd {
    pub stakeable: Key,
    pub scspr: Key,
    pub wcspr: Key,
    pub stable_usd: Key,
    pub router: Key,
    pub decimals: U256,
    pub yodas_per_wise: U256,
    pub latest_stable_usd: U256,
    pub path: Vec<Key>,
}

/// What the feed asks the router: the amounts out for `amount_in` along `path`.
pub struct AmountsOutRequest {
    pub router: Key,
    pub amount_in: U256,
    pub path: Vec<Key>,
}

/// The price an answer of the router gives: its fourth amount, or the last
/// price when the answer is empty; `None` when it has one to three amounts.
pub open spec fn spec_stable_usd_from(results: Seq<U256>, latest: nat) -> Option<nat> {
    if results.len() == 0 {
        Some(latest)
    } else if results.len() > 3 {
        Some(results[3]@)
    } else {
        None
    }
}

impl StableUsd {
    /// A feed for the stakeable token, with nine decimals and no price yet.
    pub fn new(stakeable: Key, scspr: Key, wcspr: Key, stable_usd: Key, router: Key) -> (r: StableUsd)
        ensures
            r.decimals@ == 9,
            r.yodas_per_wise@ == 1_000_000_000,
            r.latest_stable_usd@ == 0,
            r.path@ == seq![stakeable, scspr, wcspr, stable_usd],
            r.stakeable == stakeable,
            r.scspr == scspr,
            r.wcspr == wcspr,
            r.stable_usd == stable_usd,
            r.router == router,
    {
        let mut path: Vec<Key> = Vec::new();
        path.push(stakeable);
        path.push(scspr);
        path.push(wcspr);
        path.push(stable_usd);
        assert(path@ =~= seq![stakeable, scspr, wcspr, stable_usd]);
        StableUsd {
            stakeable,
            scspr,
            wcspr,
            stable_usd,
            router,
            decimals: U256::from_u64(9),
            yodas_per_wise: U256::from_u64(1_000_000_000),
            latest_stable_usd: U256::zero(),
            path,
        }
    }

    /// Sets the decimals and the units of one whole token, ten to their
    /// power; refused, with no change, when that power passes 2^256 - 1.
    pub fn set_decimals(&mut self, decimals: U256) -> (r: Result<(), StakeError>)
        ensures
            r is Ok <==> vstd::arithmetic::power::pow(10, decimals@) <= u256_max(),
            r is Err ==> *final(self) == *old(self),
            r is Ok ==> final(self).decimals == decimals
                && final(self).yodas_per_wise@ == vstd::arithmetic::power::pow(10, decimals@)
                && *final(self) == (StableUsd { decimals: final(self).decimals, yodas_per_wise: final(self).yodas_per_wise, ..*old(self) }),
    {
        match u256_checked_pow(U256::from_u64(10), decimals) {
            Some(units) => {
                self.decimals = decimals;
                self.yodas_per_wise = units;
                Ok(())
            },
            None => Err(StakeError::Overflow),
        }
    }

    /// What to ask the router: the amounts out for one whole token along the path.
    pub fn amounts_out_request(&self) -> (r: AmountsOutRequest)
        ensures
            r.router == self.router,
            r.amount_in == self.yodas_per_wise,
            r.path@ == self.path@,
    {
        let mut path: Vec<Key> = Vec::new();
        let mut i: usize = 0;
        while i < self.path.len()
            invariant
                0 <= i <= self.path.len(),
                path@ == self.path@.subrange(0, i as int),
            decreases self.path.len() - i,
        {
            path.push(self.path[i]);
            i = i + 1;
            assert(path@ =~= self.path@.subrange(0, i as int));
        }
        assert(self.path@.subrange(0, self.path.len() as int) =~= self.path@);
        AmountsOutRequest { router: self.router, amount_in: self.yodas_per_wise, path }
    }

    /// The price the router's answer `results` gives.
    pub fn get_stable_usd(&self, results: &Vec<U256>) -> (r: Result<U256, StakeError>)
        ensures
            r matches Ok(v) ==> Some(v@) == spec_stable_usd_from(results@, self.latest_stable_usd@),
            r is Err <==> spec_stable_usd_from(results@, self.latest_stable_usd@) is None,
    {
        if results.len() == 0 {
            Ok(self.latest_stable_usd)
        } else if results.len() > 3 {
            Ok(results[3])
        } else {
            Err(StakeError::InvalidArgument)
        }
    }

    /// Keeps the price the router's answer `results` gives; refused, with no
    /// change, when the answer has one to three amounts.
    pub fn update_stable_usd(&mut self, results: &Vec<U256>) -> (r: Result<(), StakeError>)
        ensures
            r is Err <==> spec_stable_usd_from(results@, old(self).latest_stable_usd@) is None,
            r is Err ==> *final(self) == *old(self),
            r is Ok ==> Some(final(self).latest_stable_usd@) == spec_stable_usd_from(results@, old(self).latest_stable_usd@)
                && *final(self) == (StableUsd { latest_stable_usd: final(self).latest_stable_usd, ..*old(self) }),
    {
        let price = self.get_stable_usd(results)?;
        self.latest_stable_usd = price;
        Ok(())
    }
}

} // verus!
