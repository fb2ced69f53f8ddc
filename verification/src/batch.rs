use vstd::prelude::*;

use crate::contract::StakeableToken;
use crate::dict::{Dict, RecordKey};
use crate::interest::values_of;
use crate::key::Key;
use crate::staking::{spec_create_stake_ok, stake_created};
use crate::types::{links_copied, CriticalMass, Globals, ReferrerLink, Stake, StakeError};
use crate::u256::U256;

verus! {

/// Whether `states` runs from one contract to the next by creating the
/// stakes of `caller` in turn, the i-th of `amounts[i]` tokens for `locks[i]`
/// days with `referrers[i]`, each getting the ids and start day in `created`.
pub open spec fn stake_chain(
    states: Seq<StakeableToken>,
    caller: Key,
    amounts: Seq<nat>,
    locks: Seq<u64>,
    referrers: Seq<Key>,
    stable_usd: nat,
    blocktime_ms: u64,
    created: Seq<(Seq<u32>, nat, Seq<u32>)>,
) -> bool {
    &&& states.len() == created.len() + 1
    &&& created.len() <= amounts.len()
    &&& created.len() <= locks.len()
    &&& created.len() <= referrers.len()
    &&& forall|i: int| 0 <= i < created.len() ==> spec_create_stake_ok(#[trigger] states[i], caller, amounts[i], locks[i],
        referrers[i], stable_usd, blocktime_ms)
    &&& forall|i: int| 0 <= i < created.len() ==> stake_created(#[trigger] states[i], states[i + 1], caller, amounts[i],
        locks[i], referrers[i], stable_usd, blocktime_ms, created[i].0, created[i].1, created[i].2)
}

/// The ids and start days, as values, of the stakes a batch created.
pub open spec fn created_of(v: Seq<(Vec<u32>, U256, Vec<u32>)>) -> Seq<(Seq<u32>, nat, Seq<u32>)> {
    v.map_values(|x: (Vec<u32>, U256, Vec<u32>)| (x.0@, x.1@, x.2@))
}

/// The books a stake creation writes, set aside so that a refused batch can
/// leave the contract as it was.
pub(crate) struct StakeBooks {
    pub(crate) stakes: Dict<RecordKey, Stake>,
    pub(crate) balances: Dict<Key, U256>,
    pub(crate) stake_count: Dict<Key, U256>,
    pub(crate) scheduled_to_end: Dict<u64, U256>,
    pub(crate) critical_mass: Dict<Key, CriticalMass>,
    pub(crate) referrer_links: Dict<RecordKey, ReferrerLink>,
    pub(crate) referral_count: Dict<Key, U256>,
    pub(crate) referral_shares_to_end: Dict<u64, U256>,
    pub(crate) globals: Globals,
    pub(crate) total_supply: U256,
}

/// Whether `u` is `t` with the books a stake creation writes held in copies
/// that hold the same records.
pub open spec fn stake_books_copied(t: StakeableToken, u: StakeableToken) -> bool {
    &&& u == (StakeableToken {
        stakes: u.stakes,
        balances: u.balances,
        stake_count: u.stake_count,
        scheduled_to_end: u.scheduled_to_end,
        critical_mass: u.critical_mass,
        referrer_links: u.referrer_links,
        referral_count: u.referral_count,
        referral_shares_to_end: u.referral_shares_to_end,
        ..t
    })
    &&& u.stakes@ == t.stakes@
    &&& u.balances@ == t.balances@
    &&& u.stake_count@ == t.stake_count@
    &&& u.scheduled_to_end@ == t.scheduled_to_end@
    &&& u.critical_mass@ == t.critical_mass@
    &&& links_copied(t.referrer_links@, u.referrer_links@)
    &&& u.referral_count@ == t.referral_count@
    &&& u.referral_shares_to_end@ == t.referral_shares_to_end@
}

impl StakeableToken {
    /// Moves the books a stake creation writes aside, leaving copies in their
    /// place.
    fn set_stake_books_aside(&mut self) -> (b: StakeBooks)
        ensures
            stake_books_copied(*old(self), *final(self)),
            b.stakes == old(self).stakes,
            b.balances == old(self).balances,
            b.stake_count == old(self).stake_count,
            b.scheduled_to_end == old(self).scheduled_to_end,
            b.critical_mass == old(self).critical_mass,
            b.referrer_links == old(self).referrer_links,
            b.referral_count == old(self).referral_count,
            b.referral_shares_to_end == old(self).referral_shares_to_end,
            b.globals == old(self).globals,
            b.total_supply == old(self).total_supply,
    {
        let mut stakes = self.stakes.duplicate();
        std::mem::swap(&mut stakes, &mut self.stakes);
        let mut balances = self.balances.duplicate();
        std::mem::swap(&mut balances, &mut self.balances);
        let mut stake_count = self.stake_count.duplicate();
        std::mem::swap(&mut stake_count, &mut self.stake_count);
        let mut scheduled_to_end = self.scheduled_to_end.duplicate();
        std::mem::swap(&mut scheduled_to_end, &mut self.scheduled_to_end);
        let mut critical_mass = self.critical_mass.duplicate();
        std::mem::swap(&mut critical_mass, &mut self.critical_mass);
        let mut referrer_links = self.referrer_links.duplicate_links();
        std::mem::swap(&mut referrer_links, &mut self.referrer_links);
        let mut referral_count = self.referral_count.duplicate();
        std::mem::swap(&mut referral_count, &mut self.referral_count);
        let mut referral_shares_to_end = self.referral_shares_to_end.duplicate();
        std::mem::swap(&mut referral_shares_to_end, &mut self.referral_shares_to_end);
        StakeBooks {
            stakes,
            balances,
            stake_count,
            scheduled_to_end,
            critical_mass,
            referrer_links,
            referral_count,
            referral_shares_to_end,
            globals: self.globals,
            total_supply: self.total_supply,
        }
    }

    /// Puts back the books set aside.
    fn put_stake_books_back(&mut self, b: StakeBooks)
        ensures
            *final(self) == (StakeableToken {
                stakes: b.stakes,
                balances: b.balances,
                stake_count: b.stake_count,
                scheduled_to_end: b.scheduled_to_end,
                critical_mass: b.critical_mass,
                referrer_links: b.referrer_links,
                referral_count: b.referral_count,
                referral_shares_to_end: b.referral_shares_to_end,
                globals: b.globals,
                total_supply: b.total_supply,
                ..*old(self)
            }),
    {
        self.stakes = b.stakes;
        self.balances = b.balances;
        self.stake_count = b.stake_count;
        self.scheduled_to_end = b.scheduled_to_end;
        self.critical_mass = b.critical_mass;
        self.referrer_links = b.referrer_links;
        self.referral_count = b.referral_count;
        self.referral_shares_to_end = b.referral_shares_to_end;
        self.globals = b.globals;
        self.total_supply = b.total_supply;
    }

    /// Creates several stakes of `caller` one after the other, the i-th of
    /// `staked_amount[i]` tokens for `lock_days[i]` days with `referrer[i]`.
    /// Returns what each creation returned. All or nothing: refused, with no
    /// change, when fewer lock periods or referrers than amounts are given or
    /// when one of the creations is refused.
    pub fn create_stake_bulk(
        &mut self,
        caller: Key,
        staked_amount: &Vec<U256>,
        lock_days: &Vec<u64>,
        referrer: &Vec<Key>,
        stable_usd_equivalent: U256,
        blocktime_ms: u64,
    ) -> (r: Result<Vec<(Vec<u32>, U256, Vec<u32>)>, StakeError>)
        ensures
            r is Err ==> *final(self) == *old(self),
            (lock_days.len() < staked_amount.len() || referrer.len() < staked_amount.len())
                ==> r == Err::<Vec<(Vec<u32>, U256, Vec<u32>)>, StakeError>(StakeError::InvalidArgument),
            r matches Ok(v) ==> v.len() == staked_amount.len(),
            r matches Ok(v) ==> exists|states: Seq<StakeableToken>|
                #[trigger] stake_chain(states, caller, values_of(staked_amount@), lock_days@, referrer@, stable_usd_equivalent@,
                    blocktime_ms, created_of(v@))
                && stake_books_copied(*old(self), states[0]) && states.last() == *final(self),
            (r is Err && lock_days.len() >= staked_amount.len() && referrer.len() >= staked_amount.len())
                ==> exists|states: Seq<StakeableToken>, created: Seq<(Seq<u32>, nat, Seq<u32>)>|
                #[trigger] stake_chain(states, caller, values_of(staked_amount@), lock_days@, referrer@, stable_usd_equivalent@,
                    blocktime_ms, created)
                && stake_books_copied(*old(self), states[0])
                && created.len() < staked_amount.len()
                && !spec_create_stake_ok(states.last(), caller, values_of(staked_amount@)[created.len() as int],
                    lock_days@[created.len() as int], referrer@[created.len() as int], stable_usd_equivalent@, blocktime_ms),
    {
        if lock_days.len() < staked_amount.len() || referrer.len() < staked_amount.len() {
            return Err(StakeError::InvalidArgument);
        }
        let ghost t0 = *self;
        let b = self.set_stake_books_aside();
        let r = self.create_each(caller, staked_amount, lock_days, referrer, stable_usd_equivalent, blocktime_ms);
        match r {
            Ok(out) => Ok(out),
            Err(e) => {
                self.put_stake_books_back(b);
                assert(*self == t0);
                Err(e)
            },
        }
    }

    /// Creates the stakes in turn, as far as they go.
    fn create_each(
        &mut self,
        caller: Key,
        staked_amount: &Vec<U256>,
        lock_days: &Vec<u64>,
        referrer: &Vec<Key>,
        stable_usd_equivalent: U256,
        blocktime_ms: u64,
    ) -> (r: Result<Vec<(Vec<u32>, U256, Vec<u32>)>, StakeError>)
        ensures
            ({
                let amounts = values_of(staked_amount@);
                let short = lock_days.len() < staked_amount.len() || referrer.len() < staked_amount.len();
                &&& short ==> r == Err::<Vec<(Vec<u32>, U256, Vec<u32>)>, StakeError>(StakeError::InvalidArgument)
                    && *final(self) == *old(self)
                &&& r matches Ok(v) ==> v.len() == staked_amount.len() && exists|states: Seq<StakeableToken>|
                    #[trigger] stake_chain(states, caller, amounts, lock_days@, referrer@, stable_usd_equivalent@, blocktime_ms, created_of(v@))
                    && states[0] == *old(self) && states.last() == *final(self)
                &&& (r is Err && !short) ==> exists|states: Seq<StakeableToken>, created: Seq<(Seq<u32>, nat, Seq<u32>)>|
                    #[trigger] stake_chain(states, caller, amounts, lock_days@, referrer@, stable_usd_equivalent@, blocktime_ms, created)
                    && states[0] == *old(self) && states.last() == *final(self)
                    && created.len() < amounts.len()
                    && !spec_create_stake_ok(states.last(), caller, amounts[created.len() as int], lock_days@[created.len() as int],
                        referrer@[created.len() as int], stable_usd_equivalent@, blocktime_ms)
            }),
            *final(self) == (StakeableToken {
                stakes: final(self).stakes,
                balances: final(self).balances,
                total_supply: final(self).total_supply,
                stake_count: final(self).stake_count,
                globals: final(self).globals,
                scheduled_to_end: final(self).scheduled_to_end,
                critical_mass: final(self).critical_mass,
                referrer_links: final(self).referrer_links,
                referral_count: final(self).referral_count,
                referral_shares_to_end: final(self).referral_shares_to_end,
                ..*old(self)
            }),
    {
        if lock_days.len() < staked_amount.len() || referrer.len() < staked_amount.len() {
            return Err(StakeError::InvalidArgument);
        }
        let ghost amounts = values_of(staked_amount@);
        let ghost t0 = *self;
        let ghost mut states: Seq<StakeableToken> = seq![*self];
        let mut out: Vec<(Vec<u32>, U256, Vec<u32>)> = Vec::new();
        let mut i: usize = 0;
        while i < staked_amount.len()
            invariant
                0 <= i <= staked_amount.len(),
                lock_days.len() >= staked_amount.len(),
                referrer.len() >= staked_amount.len(),
                out.len() == i,
                amounts == values_of(staked_amount@),
                stake_chain(states, caller, amounts, lock_days@, referrer@, stable_usd_equivalent@, blocktime_ms, created_of(out@)),
                states[0] == t0,
                t0 == *old(self),
                states.last() == *self,
                *self == (StakeableToken {
                    stakes: self.stakes,
                    balances: self.balances,
                    total_supply: self.total_supply,
                    stake_count: self.stake_count,
                    globals: self.globals,
                    scheduled_to_end: self.scheduled_to_end,
                    critical_mass: self.critical_mass,
                    referrer_links: self.referrer_links,
                    referral_count: self.referral_count,
                    referral_shares_to_end: self.referral_shares_to_end,
                    ..t0
                }),
            decreases staked_amount.len() - i,
        {
            let ghost created = created_of(out@);
            let res = self.create_stake(caller, staked_amount[i], lock_days[i], referrer[i], stable_usd_equivalent, blocktime_ms);
            match res {
                Ok(v) => {
                    proof {
                        let new_states = states.push(*self);
                        let new_created = created_of(out@.push(v));
                        assert forall|j: int| 0 <= j < new_created.len() implies spec_create_stake_ok(#[trigger] new_states[j], caller,
                            amounts[j], lock_days@[j], referrer@[j], stable_usd_equivalent@, blocktime_ms) by {
                            if j < i {
                                assert(new_states[j] == states[j]);
                            }
                        }
                        assert forall|j: int| 0 <= j < new_created.len() implies stake_created(#[trigger] new_states[j], new_states[j + 1],
                            caller, amounts[j], lock_days@[j], referrer@[j], stable_usd_equivalent@, blocktime_ms,
                            new_created[j].0, new_created[j].1, new_created[j].2) by {
                            if j < i {
                                assert(new_states[j] == states[j]);
                                assert(new_states[j + 1] == states[j + 1]);
                                assert(new_created[j] == created[j]);
                            }
                        }
                        states = new_states;
                    }
                    out.push(v);
                },
                Err(e) => {
                    proof {
                        assert(created.len() == i);
                        assert(amounts[i as int] == staked_amount@[i as int]@);
                        assert(states.last() == *self);
                    }
                    return Err(e);
                },
            }
            i = i + 1;
        }
        Ok(out)
    }
}

} // verus!
