use vstd::prelude::*;

use crate::contract::{read_amount, value_or_zero, StakeableToken};
use crate::dict::{copy_id, Dict, RecordKey};
use crate::helper::{
    calculation_day, days_diff, is_mature_stake, spec_calculation_day, spec_days_diff,
    spec_is_mature_stake, spec_stake_ended, stake_ended,
};
use crate::key::Key;
use crate::rewards::{loop_reward_over, spec_loop_reward};
use crate::timing::spec_day_at;
use crate::types::{as_value, links_copied, opt_add, plus, CriticalMass, ReferrerLink, Stake, StakeError};
use crate::u256::{u256_max, U256};

verus! {

/// The first day of a referral's interest not yet counted: the referrer's
/// activation day when it is after the stake's start, else the start day
/// plus the days already processed.
pub open spec fn spec_determine_start_day(cm: CriticalMass, stake: Stake, processed: nat) -> Option<nat> {
    if cm.activation_day@ > stake.start_day {
        Some(cm.activation_day@)
    } else {
        opt_add(Some(stake.start_day as nat), Some(processed))
    }
}

/// The last day of a referral's interest: the stake's close day once it was
/// closed, else its calculation day.
pub open spec fn spec_determine_final_day(t: StakeableToken, stake: Stake) -> nat {
    if stake.close_day > 0 {
        stake.close_day as nat
    } else {
        spec_calculation_day(stake, t.globals.current_stakeable_day@)
    }
}

/// The referral interest of a stake's shares over the days `start` to `fin`
/// (excluded), by the referral snapshots.
pub open spec fn spec_get_referral_interest(t: StakeableToken, stake: Stake, start: nat, fin: nat) -> Option<nat> {
    if start <= u64::MAX && fin <= u64::MAX {
        spec_loop_reward(stake.stakes_shares@, t.params.precision_rate@, t.rsnapshots@, start, fin)
    } else {
        None
    }
}

/// The referral interest, nothing while the referrer has no activation day;
/// `None` without the referrer's record.
pub open spec fn spec_check_referral_interest(t: StakeableToken, stake: Stake, start: nat, fin: nat) -> Option<nat> {
    if !t.critical_mass@.contains_key(stake.referrer) {
        None
    } else if t.critical_mass@[stake.referrer].activation_day@ == 0 {
        Some(0)
    } else {
        spec_get_referral_interest(t, stake, start, fin)
    }
}

/// How collecting on `today` moves an active referral link: the first and the
/// last day counted, the processed days after it and whether it stays active.
/// Once the stake ended, a positive `process_days` short of the remaining
/// days processes that many; otherwise all remaining days are counted and the
/// link ends. While the stake runs, the days up to `today` are counted.
/// `None` when a sum does not fit.
pub open spec fn spec_collect_plan(t: StakeableToken, link: ReferrerLink, stake: Stake, process_days: nat, today: u64) -> Option<(nat, nat, nat, bool)> {
    match spec_determine_start_day(t.critical_mass@[stake.referrer], stake, link.processed_days@) {
        None => None,
        Some(start) => {
            let fin = spec_determine_final_day(t, stake);
            if spec_stake_ended(stake, today) {
                if process_days > 0 && process_days < spec_days_diff(start, fin) {
                    match opt_add(Some(link.processed_days@), Some(process_days)) {
                        Some(p) => Some((start, start + process_days, p, true)),
                        None => None,
                    }
                } else {
                    Some((start, fin, link.processed_days@, false))
                }
            } else {
                let pd = spec_days_diff(start, today as nat);
                match opt_add(Some(link.processed_days@), Some(pd)) {
                    Some(p) => Some((start, start + pd, p, true)),
                    None => None,
                }
            }
        },
    }
}

/// When collecting a referral's interest succeeds: the link exists, and when
/// it is active the contract has launched, the stake and the referrer's record
/// exist, the plan and the interest can be computed, and the link's reward,
/// the referrer's balance and the supply can take the interest.
pub open spec fn spec_collect_ok(t: StakeableToken, referrer: Key, rid: Seq<u32>, process_days: nat, blocktime_ms: u64) -> bool {
    let key = (referrer, rid);
    let link = t.referrer_links@[key];
    let today = spec_day_at(t.launch_time@, blocktime_ms, t.params.seconds_in_day);
    let stake = t.stakes@[(link.staker, link.stake_id@)];
    let plan = spec_collect_plan(t, link, stake, process_days, today.unwrap() as u64);
    let interest = spec_check_referral_interest(t, stake, plan.unwrap().0, plan.unwrap().1);
    &&& t.referrer_links@.contains_key(key)
    &&& link.is_active ==> {
        &&& today is Some
        &&& t.stakes@.contains_key((link.staker, link.stake_id@))
        &&& t.critical_mass@.contains_key(stake.referrer)
        &&& plan is Some
        &&& interest is Some
        &&& link.reward_amount@ + interest.unwrap() <= u256_max()
        &&& value_or_zero(t.balances@, referrer) + interest.unwrap() <= u256_max()
        &&& t.total_supply@ + interest.unwrap() <= u256_max()
    }
}

/// The contract after a referrer collected `interest` on a referral: nothing
/// changes for an inactive link; for an active one the link takes the plan's
/// processed days and activity and the interest into its reward, the interest
/// is minted to the referrer, and all else stays.
pub open spec fn referral_collected(
    t: StakeableToken,
    u: StakeableToken,
    referrer: Key,
    rid: Seq<u32>,
    process_days: nat,
    blocktime_ms: u64,
    interest: nat,
) -> bool {
    let key = (referrer, rid);
    let link = t.referrer_links@[key];
    let today = spec_day_at(t.launch_time@, blocktime_ms, t.params.seconds_in_day).unwrap() as u64;
    let stake = t.stakes@[(link.staker, link.stake_id@)];
    let plan = spec_collect_plan(t, link, stake, process_days, today).unwrap();
    if !link.is_active {
        u == t && interest == 0
    } else {
        &&& Some(interest) == spec_check_referral_interest(t, stake, plan.0, plan.1)
        &&& u.referrer_links@ == t.referrer_links@.insert(key, u.referrer_links@[key])
        &&& u.referrer_links@[key].staker == link.staker
        &&& u.referrer_links@[key].stake_id@ == link.stake_id@
        &&& u.referrer_links@[key].reward_amount@ == link.reward_amount@ + interest
        &&& u.referrer_links@[key].processed_days@ == plan.2
        &&& u.referrer_links@[key].is_active == plan.3
        &&& u.balances@ == t.balances@.insert(referrer, u.balances@[referrer])
        &&& u.balances@[referrer]@ == value_or_zero(t.balances@, referrer) + interest
        &&& u.total_supply@ == t.total_supply@ + interest
        &&& u == (StakeableToken {
            referrer_links: u.referrer_links,
            balances: u.balances,
            total_supply: u.total_supply,
            ..t
        })
    }
}

/// Whether `u` is `t` with its referral links and balances held in copies
/// that hold the same links and amounts.
pub open spec fn copied_books(t: StakeableToken, u: StakeableToken) -> bool {
    &&& u == (StakeableToken { referrer_links: u.referrer_links, balances: u.balances, ..t })
    &&& links_copied(t.referrer_links@, u.referrer_links@)
    &&& u.balances@ == t.balances@
}

/// The values of a sequence of amounts.
pub open spec fn values_of(v: Seq<U256>) -> Seq<nat> {
    v.map_values(|x: U256| x@)
}

/// The ids of a sequence of id vectors.
pub open spec fn ids_of(v: Seq<Vec<u32>>) -> Seq<Seq<u32>> {
    v.map_values(|x: Vec<u32>| x@)
}

/// Whether `states` runs from one contract to the next by collecting the
/// referrals `ids` of `referrer` in turn, the i-th with `days[i]` days to
/// process and collecting `interests[i]`.
pub open spec fn collect_chain(
    states: Seq<StakeableToken>,
    referrer: Key,
    ids: Seq<Seq<u32>>,
    days: Seq<nat>,
    blocktime_ms: u64,
    interests: Seq<nat>,
) -> bool {
    &&& states.len() == interests.len() + 1
    &&& interests.len() <= ids.len()
    &&& interests.len() <= days.len()
    &&& forall|i: int| 0 <= i < interests.len() ==> spec_collect_ok(#[trigger] states[i], referrer, ids[i], days[i], blocktime_ms)
    &&& forall|i: int| 0 <= i < interests.len() ==> referral_collected(#[trigger] states[i], states[i + 1], referrer, ids[i], days[i], blocktime_ms, interests[i])
}

impl StakeableToken {
    /// The first day of a referral's interest not yet counted; refused
    /// without the referrer's record or when the sum overflows.
    pub fn determine_start_day(&self, stake: &Stake, link: &ReferrerLink) -> (r: Result<U256, StakeError>)
        ensures
            r is Ok <==> (self.critical_mass@.contains_key(stake.referrer) && spec_determine_start_day(
                self.critical_mass@[stake.referrer],
                *stake,
                link.processed_days@,
            ) is Some),
            r matches Ok(d) ==> Some(d@) == spec_determine_start_day(
                self.critical_mass@[stake.referrer],
                *stake,
                link.processed_days@,
            ),
    {
        let cm = self.read_critical_mass(&stake.referrer)?;
        let start = U256::from_u64(stake.start_day);
        if cm.activation_day.gt(&start) {
            Ok(cm.activation_day)
        } else {
            plus(start, link.processed_days)
        }
    }

    /// The last day of a referral's interest.
    pub fn determine_final_day(&self, stake: &Stake) -> (r: U256)
        ensures
            r@ == spec_determine_final_day(*self, *stake),
    {
        if stake.close_day > 0 {
            U256::from_u64(stake.close_day)
        } else {
            calculation_day(stake, self.globals.current_stakeable_day)
        }
    }

    /// The referral interest of a stake's shares over the days `start` to `fin`.
    pub fn get_referral_interest(&self, stake: &Stake, start: U256, fin: U256) -> (r: Result<U256, StakeError>)
        ensures
            as_value(r) == spec_get_referral_interest(*self, *stake, start@, fin@),
    {
        loop_reward_over(&self.rsnapshots, self.params.precision_rate, stake.stakes_shares, start, fin)
    }

    /// The referral interest, nothing while the referrer is not active.
    pub fn check_referral_interest(&self, stake: &Stake, start: U256, fin: U256) -> (r: Result<U256, StakeError>)
        ensures
            as_value(r) == spec_check_referral_interest(*self, *stake, start@, fin@),
    {
        if self.not_critical_mass_referrer(&stake.referrer)? {
            Ok(U256::zero())
        } else {
            self.get_referral_interest(stake, start, fin)
        }
    }
    /// A referrer collects the interest of one of its referrals
    /// (`scrape_days` as the days to process once the stake ended): the link
    /// moves on by the plan, the interest is added to its reward and minted to
    /// the referrer. Returns the interest; nothing happens for an inactive
    /// link. All or nothing: refused with no change otherwise.
    pub fn referrer_interest(&mut self, referrer: Key, referral_id: &Vec<u32>, scrape_days: U256, blocktime_ms: u64) -> (r: Result<U256, StakeError>)
        ensures
            r is Ok <==> spec_collect_ok(*old(self), referrer, referral_id@, scrape_days@, blocktime_ms),
            r is Err ==> *final(self) == *old(self),
            r matches Ok(i) ==> referral_collected(*old(self), *final(self), referrer, referral_id@, scrape_days@, blocktime_ms, i@),
    {
        let key = RecordKey::new(referrer, referral_id);
        let link = match self.referrer_links.get(&key) {
            Some(l) => l,
            None => return Err(StakeError::MissingRecord),
        };
        if !link.is_active {
            return Ok(U256::zero());
        }
        let ghost t = *self;
        let ghost l0 = *link;
        let today = self.current_stakeable_day_only(blocktime_ms)?;
        let staker = link.staker;
        let stake_id = copy_id(&link.stake_id);
        let processed = link.processed_days;
        let reward_amount = link.reward_amount;
        let stake = match self.stakes.get(&RecordKey::new(staker, &stake_id)) {
            Some(s) => *s,
            None => return Err(StakeError::MissingRecord),
        };
        if !self.critical_mass.contains(&stake.referrer) {
            return Err(StakeError::MissingRecord);
        }
        let start = self.determine_start_day(&stake, link)?;
        let ghost plan = spec_collect_plan(t, l0, stake, scrape_days@, today);
        let mut fin = self.determine_final_day(&stake);
        let mut new_processed = processed;
        let mut still_active = true;
        if stake_ended(&stake, today) {
            let remaining = days_diff(start, fin);
            if !scrape_days.is_zero() && scrape_days.lt(&remaining) {
                new_processed = plus(processed, scrape_days)?;
                fin = plus(start, scrape_days)?;
            } else {
                still_active = false;
            }
        } else {
            let pd = days_diff(start, U256::from_u64(today));
            new_processed = plus(processed, pd)?;
            fin = plus(start, pd)?;
        }
        assert(plan == Some((start@, fin@, new_processed@, still_active)));
        let interest = self.check_referral_interest(&stake, start, fin)?;
        let new_reward = plus(reward_amount, interest)?;
        let bal = read_amount(&self.balances, &referrer);
        let _ = plus(bal, interest)?;
        let _ = plus(self.total_supply, interest)?;
        self.referrer_links.set(
            key,
            ReferrerLink {
                staker,
                stake_id,
                reward_amount: new_reward,
                processed_days: new_processed,
                is_active: still_active,
            },
        );
        let minted = self.mint(&referrer, interest);
        assert(minted is Ok);
        Ok(interest)
    }

    /// What a referral shows: the staker and the stake id it links to, the
    /// referrer shares, the interest not yet collected, and whether the
    /// referral and the stake are active, the stake mature and ended on the
    /// current day. Refused without the link, the stake or the referrer's
    /// record, before launch, or when the interest cannot be computed.
    pub fn check_referrals_by_id(&self, referrer: Key, referral_id: &Vec<u32>, blocktime_ms: u64) -> (r: Result<(Key, Vec<u32>, U256, U256, bool, bool, bool, bool), StakeError>)
        ensures
            ({
                let key = (referrer, referral_id@);
                let link = self.referrer_links@[key];
                let today = spec_day_at(self.launch_time@, blocktime_ms, self.params.seconds_in_day);
                let stake = self.stakes@[(link.staker, link.stake_id@)];
                let start = spec_determine_start_day(self.critical_mass@[stake.referrer], stake, link.processed_days@);
                let fin = spec_determine_final_day(*self, stake);
                let interest = spec_check_referral_interest(*self, stake, start.unwrap(), fin);
                &&& r is Ok <==> (self.referrer_links@.contains_key(key)
                    && self.stakes@.contains_key((link.staker, link.stake_id@))
                    && today is Some
                    && self.critical_mass@.contains_key(stake.referrer)
                    && start is Some
                    && interest is Some)
                &&& r matches Ok(v) ==> {
                    &&& v.0 == link.staker
                    &&& v.1@ == link.stake_id@
                    &&& v.2 == stake.referrer_shares
                    &&& Some(v.3@) == interest
                    &&& v.4 == link.is_active
                    &&& v.5 == stake.is_active
                    &&& v.6 == spec_is_mature_stake(stake, today.unwrap() as u64)
                    &&& v.7 == spec_stake_ended(stake, today.unwrap() as u64)
                }
            }),
    {
        let key = RecordKey::new(referrer, referral_id);
        let link = match self.referrer_links.get(&key) {
            Some(l) => l,
            None => return Err(StakeError::MissingRecord),
        };
        let stake = match self.stakes.get(&RecordKey::new(link.staker, &link.stake_id)) {
            Some(s) => *s,
            None => return Err(StakeError::MissingRecord),
        };
        let today = self.current_stakeable_day_only(blocktime_ms)?;
        let start = self.determine_start_day(&stake, link)?;
        let fin = self.determine_final_day(&stake);
        let interest = self.check_referral_interest(&stake, start, fin)?;
        let mature = is_mature_stake(&stake, today);
        let ended = stake_ended(&stake, today);
        Ok((
            link.staker,
            copy_id(&link.stake_id),
            stake.referrer_shares,
            interest,
            link.is_active,
            stake.is_active,
            mature,
            ended,
        ))
    }
    /// Moves the referral links and the balances aside, leaving copies in
    /// their place.
    fn set_links_aside(&mut self) -> (r: (Dict<RecordKey, ReferrerLink>, Dict<Key, U256>))
        ensures
            copied_books(*old(self), *final(self)),
            r.0 == old(self).referrer_links,
            r.1 == old(self).balances,
    {
        let mut links = self.referrer_links.duplicate_links();
        std::mem::swap(&mut links, &mut self.referrer_links);
        let mut balances = self.balances.duplicate();
        std::mem::swap(&mut balances, &mut self.balances);
        (links, balances)
    }

    /// Puts back the referral links, the balances and the supply.
    fn put_links_back(&mut self, links: Dict<RecordKey, ReferrerLink>, balances: Dict<Key, U256>, supply: U256)
        ensures
            *final(self) == (StakeableToken { referrer_links: links, balances, total_supply: supply, ..*old(self) }),
    {
        self.referrer_links = links;
        self.balances = balances;
        self.total_supply = supply;
    }

    /// A referrer collects the interest of several referrals, each with its
    /// days to process, one after the other. Returns the interests. All or
    /// nothing: refused, with no change, when fewer days than referrals are
    /// given or when one of the collections is refused.
    pub fn referrer_interest_bulk(&mut self, referrer: Key, referral_ids: &Vec<Vec<u32>>, scrape_days: &Vec<U256>, blocktime_ms: u64) -> (r: Result<Vec<U256>, StakeError>)
        ensures
            r is Err ==> *final(self) == *old(self),
            scrape_days.len() < referral_ids.len() ==> r == Err::<Vec<U256>, StakeError>(StakeError::InvalidArgument),
            r matches Ok(v) ==> v.len() == referral_ids.len(),
            r matches Ok(v) ==> exists|states: Seq<StakeableToken>|
                #[trigger] collect_chain(states, referrer, ids_of(referral_ids@), values_of(scrape_days@), blocktime_ms, values_of(v@))
                && copied_books(*old(self), states[0]) && states.last() == *final(self),
            (r is Err && scrape_days.len() >= referral_ids.len()) ==> exists|states: Seq<StakeableToken>, interests: Seq<nat>|
                #[trigger] collect_chain(states, referrer, ids_of(referral_ids@), values_of(scrape_days@), blocktime_ms, interests)
                && copied_books(*old(self), states[0])
                && interests.len() < referral_ids.len()
                && !spec_collect_ok(states.last(), referrer, ids_of(referral_ids@)[interests.len() as int],
                    values_of(scrape_days@)[interests.len() as int], blocktime_ms),
    {
        if scrape_days.len() < referral_ids.len() {
            return Err(StakeError::InvalidArgument);
        }
        let ghost t0 = *self;
        let (links, balances) = self.set_links_aside();
        let supply = self.total_supply;
        let ghost t1 = *self;
        let r = self.collect_each(referrer, referral_ids, scrape_days, blocktime_ms);
        match r {
            Ok(out) => Ok(out),
            Err(e) => {
                self.put_links_back(links, balances, supply);
                assert(*self == t0);
                Err(e)
            },
        }
    }

    /// Collects the referrals in turn, as far as they go.
    fn collect_each(&mut self, referrer: Key, referral_ids: &Vec<Vec<u32>>, scrape_days: &Vec<U256>, blocktime_ms: u64) -> (r: Result<Vec<U256>, StakeError>)
        ensures
            ({
                let ids = ids_of(referral_ids@);
                let days = values_of(scrape_days@);
                &&& scrape_days.len() < referral_ids.len() ==> r == Err::<Vec<U256>, StakeError>(StakeError::InvalidArgument)
                    && *final(self) == *old(self)
                &&& r matches Ok(v) ==> v.len() == referral_ids.len() && exists|states: Seq<StakeableToken>|
                    #[trigger] collect_chain(states, referrer, ids, days, blocktime_ms, values_of(v@))
                    && states[0] == *old(self) && states.last() == *final(self)
                &&& (r is Err && scrape_days.len() >= referral_ids.len()) ==> exists|states: Seq<StakeableToken>, interests: Seq<nat>|
                    #[trigger] collect_chain(states, referrer, ids, days, blocktime_ms, interests)
                    && states[0] == *old(self) && states.last() == *final(self)
                    && interests.len() < ids.len()
                    && !spec_collect_ok(states.last(), referrer, ids[interests.len() as int], days[interests.len() as int], blocktime_ms)
            }),
            *final(self) == (StakeableToken {
                referrer_links: final(self).referrer_links,
                balances: final(self).balances,
                total_supply: final(self).total_supply,
                ..*old(self)
            }),
    {
        if scrape_days.len() < referral_ids.len() {
            return Err(StakeError::InvalidArgument);
        }
        let ghost ids = ids_of(referral_ids@);
        let ghost days = values_of(scrape_days@);
        let ghost t0 = *self;
        let ghost mut states: Seq<StakeableToken> = seq![*self];
        let mut out: Vec<U256> = Vec::new();
        let mut i: usize = 0;
        while i < referral_ids.len()
            invariant
                0 <= i <= referral_ids.len(),
                scrape_days.len() >= referral_ids.len(),
                out.len() == i,
                ids == ids_of(referral_ids@),
                days == values_of(scrape_days@),
                collect_chain(states, referrer, ids, days, blocktime_ms, values_of(out@)),
                states[0] == t0,
                t0 == *old(self),
                states.last() == *self,
                *self == (StakeableToken {
                    referrer_links: self.referrer_links,
                    balances: self.balances,
                    total_supply: self.total_supply,
                    ..t0
                }),
            decreases referral_ids.len() - i,
        {
            let ghost before = *self;
            let ghost interests = values_of(out@);
            let res = self.referrer_interest(referrer, &referral_ids[i], scrape_days[i], blocktime_ms);
            match res {
                Ok(v) => {
                    proof {
                        let new_states = states.push(*self);
                        let new_interests = values_of(out@.push(v));
                        assert forall|j: int| 0 <= j < new_interests.len() implies spec_collect_ok(#[trigger] new_states[j], referrer, ids[j], days[j], blocktime_ms) by {
                            if j < i {
                                assert(new_states[j] == states[j]);
                            }
                        }
                        assert forall|j: int| 0 <= j < new_interests.len() implies referral_collected(#[trigger] new_states[j], new_states[j + 1], referrer, ids[j], days[j], blocktime_ms, new_interests[j]) by {
                            if j < i {
                                assert(new_states[j] == states[j]);
                                assert(new_states[j + 1] == states[j + 1]);
                                assert(new_interests[j] == interests[j]);
                            }
                        }
                        assert(collect_chain(new_states, referrer, ids, days, blocktime_ms, new_interests));
                        states = new_states;
                    }
                    out.push(v);
                },
                Err(e) => {
                    proof {
                        assert(collect_chain(states, referrer, ids, days, blocktime_ms, interests));
                        assert(interests.len() == i);
                        assert(ids[i as int] == referral_ids@[i as int]@);
                        assert(days[i as int] == scrape_days@[i as int]@);
                        assert(states.last() == *self);
                        assert(!spec_collect_ok(states.last(), referrer, ids[interests.len() as int], days[interests.len() as int], blocktime_ms));
                    }
                    return Err(e);
                },
            }
            i = i + 1;
        }
        proof {
            assert(collect_chain(states, referrer, ids, days, blocktime_ms, values_of(out@)));
        }
        Ok(out)
    }
}

} // verus!
