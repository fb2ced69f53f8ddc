use vstd::prelude::*;

use crate::contract::{read_amount, value_or_zero, StakeableToken};
use crate::dict::{copy_id, DictKey, RecordKey};
use crate::globals::{decreased, increase_fits, increased};
use crate::helper::{
    calculation_day, days_left, is_mature_stake, spec_calculation_day, spec_days_left,
    spec_is_mature_stake, spec_starting_day, starting_day,
};
use crate::guard::LiquidityGuard;
use crate::snapshot::{snapshot_taken, spec_contract_run, PairReserves};
use crate::referral::critical_mass_removed;
use crate::rewards::{
    spec_check_reward_amount, spec_loop_reward, spec_reward_amount, spec_share_price_after,
};
use crate::schedule::{penalty_stored, removed_from_schedule};
use crate::shares::{calculate_penalty_amount, spec_penalty_amount};
use crate::ids::spec_generate_id;
use crate::key::{non_zero_address, spec_zero_address, zero_address, Key, KeyKind};
use crate::referral::spec_determine_activation_day;
use crate::shares::{referrer_shares, spec_referrer_shares, spec_stakes_shares, stakes_shares};
use crate::timing::spec_day_at;
use crate::types::{
    as_value, minus, opt_div, opt_mul, over, plus, sat_sub, saturating_sub, times, CriticalMass,
    ReferrerLink, Stake, StakeError,
};
use crate::u256::{u256_max, U256};

verus! {

/// The value, in the stable coin, of an amount of the token.
pub open spec fn spec_dai_equivalent(t: StakeableToken, stable_usd: nat, staked: nat) -> Option<nat> {
    opt_div(opt_mul(Some(stable_usd), Some(staked)), Some(t.params.yodas_per_wise@))
}

/// The referrer's activation day once the stake's amount is added.
pub open spec fn spec_new_activation(t: StakeableToken, referrer: Key, today: u64) -> nat {
    spec_determine_activation_day(t.params, t.critical_mass@[referrer], today)
}

/// The referrer shares a new stake earns.
pub open spec fn spec_new_referrer_shares(t: StakeableToken, staked: nat, lock: u64, referrer: Key, today: u64) -> Option<nat> {
    if referrer != spec_zero_address() {
        spec_referrer_shares(t.params, staked, lock as nat, spec_new_activation(t, referrer, today) == 0, t.globals.share_price@)
    } else {
        Some(0)
    }
}

/// When a stake can be created, and the values it gets: the referrer must be an
/// account other than the staker, the lock within bounds, the amount at least
/// the minimum and held by the staker; the contract must have launched; every
/// sum must fit.
pub open spec fn spec_create_stake_ok(
    t: StakeableToken,
    caller: Key,
    staked: nat,
    lock: u64,
    referrer: Key,
    stable_usd: nat,
    blocktime_ms: u64,
) -> bool {
    let today = spec_day_at(t.launch_time@, blocktime_ms, t.params.seconds_in_day);
    &&& caller != referrer
    &&& referrer.kind != KeyKind::Hash
    &&& t.params.min_lock_days <= lock <= t.params.max_lock_days
    &&& staked >= t.params.min_stake_amount@
    &&& staked <= value_or_zero(t.balances@, caller)
    &&& staked <= t.total_supply@
    &&& today is Some
    &&& today.unwrap() + 1 + lock <= u64::MAX
    &&& spec_stakes_shares(t.params, staked, lock as nat, referrer, t.globals.share_price@) is Some
    &&& spec_dai_equivalent(t, stable_usd, staked) is Some
    &&& (referrer != spec_zero_address() ==> {
        &&& t.critical_mass@.contains_key(referrer)
        &&& t.critical_mass@[referrer].total_amount@ + spec_dai_equivalent(t, stable_usd, staked).unwrap() <= u256_max()
    })
    &&& spec_new_referrer_shares(t, staked, lock, referrer, today.unwrap() as u64) is Some
    &&& ({
        let shares = spec_stakes_shares(t.params, staked, lock as nat, referrer, t.globals.share_price@).unwrap();
        let rshares = spec_new_referrer_shares(t, staked, lock, referrer, today.unwrap() as u64).unwrap();
        let final_day = (today.unwrap() + 1 + lock) as u64;
        &&& (rshares > 0 ==> value_or_zero(t.referral_count@, referrer) + 1 <= u256_max())
        &&& (rshares > 0 ==> value_or_zero(t.referral_shares_to_end@, final_day) + rshares <= u256_max())
        &&& value_or_zero(t.stake_count@, caller) + 1 <= u256_max()
        &&& increase_fits(t.globals, staked, shares, rshares)
        &&& value_or_zero(t.scheduled_to_end@, final_day) + shares <= u256_max()
    })
}

/// The values a new stake is made of.
pub struct StakePlan {
    pub stake: Stake,
    pub stake_id: Vec<u32>,
    pub referral_id: Vec<u32>,
    pub new_balance: U256,
    pub new_supply: U256,
    pub new_critical_mass: CriticalMass,
    pub new_referral_count: U256,
    pub new_referral_shares_to_end: U256,
    pub new_stake_count: U256,
    pub new_total_staked: U256,
    pub new_total_shares: U256,
    pub new_referral_shares: U256,
    pub new_scheduled: U256,
}

/// Whether a stored stake is the one created with these values.
pub open spec fn new_stake_holds(
    s: Stake,
    shares: nat,
    staked: nat,
    start: nat,
    lock: u64,
    dai: nat,
    rshares: nat,
    referrer: Key,
) -> bool {
    &&& s.stakes_shares@ == shares
    &&& s.staked_amount@ == staked
    &&& s.reward_amount@ == 0
    &&& s.start_day == start
    &&& s.lock_days == lock
    &&& s.final_day == start + lock
    &&& s.close_day == 0
    &&& s.scrape_day@ == 0
    &&& s.dai_equivalent@ == dai
    &&& s.referrer_shares@ == rshares
    &&& s.referrer == referrer
    &&& s.is_active
}

impl StakeableToken {
    fn plan_stake(
        &self,
        caller: &Key,
        staked: U256,
        lock_days: u64,
        referrer: &Key,
        stable_usd: U256,
        today: u64,
    ) -> (r: Result<StakePlan, StakeError>)
        requires
            *caller != *referrer,
            today <= u64::MAX / 1000,
        ensures
            ({
                let ok = {
                    &&& staked@ <= value_or_zero(self.balances@, *caller)
                    &&& staked@ <= self.total_supply@
                    &&& today + 1 + lock_days <= u64::MAX
                    &&& spec_stakes_shares(self.params, staked@, lock_days as nat, *referrer, self.globals.share_price@) is Some
                    &&& spec_dai_equivalent(*self, stable_usd@, staked@) is Some
                    &&& (*referrer != spec_zero_address() ==> {
                        &&& self.critical_mass@.contains_key(*referrer)
                        &&& self.critical_mass@[*referrer].total_amount@ + spec_dai_equivalent(*self, stable_usd@, staked@).unwrap() <= u256_max()
                    })
                    &&& spec_new_referrer_shares(*self, staked@, lock_days, *referrer, today) is Some
                    &&& ({
                        let shares = spec_stakes_shares(self.params, staked@, lock_days as nat, *referrer, self.globals.share_price@).unwrap();
                        let rshares = spec_new_referrer_shares(*self, staked@, lock_days, *referrer, today).unwrap();
                        let final_day = (today + 1 + lock_days) as u64;
                        &&& (rshares > 0 ==> value_or_zero(self.referral_count@, *referrer) + 1 <= u256_max())
                        &&& (rshares > 0 ==> value_or_zero(self.referral_shares_to_end@, final_day) + rshares <= u256_max())
                        &&& value_or_zero(self.stake_count@, *caller) + 1 <= u256_max()
                        &&& increase_fits(self.globals, staked@, shares, rshares)
                        &&& value_or_zero(self.scheduled_to_end@, final_day) + shares <= u256_max()
                    })
                };
                &&& r is Ok <==> ok
                &&& r matches Ok(p) ==> {
                    let shares = spec_stakes_shares(self.params, staked@, lock_days as nat, *referrer, self.globals.share_price@).unwrap();
                    let rshares = spec_new_referrer_shares(*self, staked@, lock_days, *referrer, today).unwrap();
                    let dai = spec_dai_equivalent(*self, stable_usd@, staked@).unwrap();
                    let final_day = (today + 1 + lock_days) as u64;
                    &&& new_stake_holds(p.stake, shares, staked@, (today + 1) as nat, lock_days, dai, rshares,
                        if *referrer != spec_zero_address() { *referrer } else { spec_zero_address() })
                    &&& p.stake_id@ == spec_generate_id(*caller, value_or_zero(self.stake_count@, *caller), 1)
                    &&& (rshares > 0 ==> p.referral_id@ == spec_generate_id(*referrer, value_or_zero(self.referral_count@, *referrer), 2))
                    &&& (rshares == 0 ==> p.referral_id@.len() == 0)
                    &&& p.new_balance@ == value_or_zero(self.balances@, *caller) - staked@
                    &&& p.new_supply@ == self.total_supply@ - staked@
                    &&& (*referrer != spec_zero_address() ==> {
                        &&& p.new_critical_mass.total_amount@ == self.critical_mass@[*referrer].total_amount@ + dai
                        &&& p.new_critical_mass.activation_day@ == spec_new_activation(*self, *referrer, today)
                    })
                    &&& (rshares > 0 ==> p.new_referral_count@ == value_or_zero(self.referral_count@, *referrer) + 1)
                    &&& (rshares > 0 ==> p.new_referral_shares_to_end@ == value_or_zero(self.referral_shares_to_end@, final_day) + rshares)
                    &&& p.new_stake_count@ == value_or_zero(self.stake_count@, *caller) + 1
                    &&& p.new_total_staked@ == self.globals.total_staked@ + staked@
                    &&& p.new_total_shares@ == self.globals.total_shares@ + shares
                    &&& p.new_referral_shares@ == (if rshares > 0 { self.globals.referral_shares@ + rshares } else { self.globals.referral_shares@ })
                    &&& p.new_scheduled@ == value_or_zero(self.scheduled_to_end@, final_day) + shares
                }
            }),
    {
        let bal = read_amount(&self.balances, caller);
        let new_balance = minus(bal, staked)?;
        let new_supply = minus(self.total_supply, staked)?;
        let start_day = today + 1;
        if lock_days > u64::MAX - start_day {
            return Err(StakeError::Overflow);
        }
        let final_day = start_day + lock_days;
        let stake_id = self.generate_stake_id(caller);
        let price = self.globals.share_price;
        let shares = stakes_shares(&self.params, staked, U256::from_u64(lock_days), referrer, price)?;
        let scaled = times(stable_usd, staked)?;
        let dai = over(scaled, self.params.yodas_per_wise)?;
        let nz = non_zero_address(referrer);
        let (new_cm, rshares, stake_referrer) = if nz {
            let cm = self.read_critical_mass(referrer)?;
            let total = plus(cm.total_amount, dai)?;
            let day = self.determine_activation_day(referrer, today)?;
            let rs = referrer_shares(&self.params, staked, U256::from_u64(lock_days), day.is_zero(), price)?;
            (CriticalMass { total_amount: total, activation_day: day }, rs, *referrer)
        } else {
            (CriticalMass { total_amount: U256::zero(), activation_day: U256::zero() }, U256::zero(), zero_address())
        };
        let (referral_id, new_referral_count, new_rste) = if !rshares.is_zero() {
            let rid = self.generate_referral_id(referrer);
            let rc = plus(read_amount(&self.referral_count, referrer), U256::from_u64(1))?;
            let rste = plus(read_amount(&self.referral_shares_to_end, &final_day), rshares)?;
            (rid, rc, rste)
        } else {
            (Vec::new(), U256::zero(), U256::zero())
        };
        let new_stake_count = plus(read_amount(&self.stake_count, caller), U256::from_u64(1))?;
        let new_total_staked = plus(self.globals.total_staked, staked)?;
        let new_total_shares = plus(self.globals.total_shares, shares)?;
        let new_referral_shares = if rshares.is_zero() {
            self.globals.referral_shares
        } else {
            plus(self.globals.referral_shares, rshares)?
        };
        let new_scheduled = plus(read_amount(&self.scheduled_to_end, &final_day), shares)?;
        let stake = Stake {
            stakes_shares: shares,
            staked_amount: staked,
            reward_amount: U256::zero(),
            start_day,
            lock_days,
            final_day,
            close_day: 0,
            scrape_day: U256::zero(),
            dai_equivalent: dai,
            referrer_shares: rshares,
            referrer: stake_referrer,
            is_active: true,
        };
        Ok(StakePlan {
            stake,
            stake_id,
            referral_id,
            new_balance,
            new_supply,
            new_critical_mass: new_cm,
            new_referral_count,
            new_referral_shares_to_end: new_rste,
            new_stake_count,
            new_total_staked,
            new_total_shares,
            new_referral_shares,
            new_scheduled,
        })
    }
}


/// Whether a stored referral link is the one a new stake creates.
pub open spec fn new_link_holds(l: ReferrerLink, staker: Key, stake_id: Seq<u32>) -> bool {
    &&& l.staker == staker
    &&& l.stake_id@ == stake_id
    &&& l.reward_amount@ == 0
    &&& l.processed_days@ == 0
    &&& l.is_active
}

/// The contract after `caller` created a stake of `staked` tokens for
/// `lock` days with `referrer`, at the stable coin price `stable_usd`, which
/// got the id `id`, the start day `start` and the referral id `rid`: the
/// stake stored with its shares, the tokens burnt, the totals, the schedules,
/// the counts and the referrer's record grown, the referral linked when the
/// referrer earns shares, and all else as it was.
pub open spec fn stake_created(
    t: StakeableToken,
    u: StakeableToken,
    caller: Key,
    staked: nat,
    lock_days: u64,
    referrer: Key,
    stable_usd: nat,
    blocktime_ms: u64,
    id: Seq<u32>,
    start: nat,
    rid: Seq<u32>,
) -> bool {
    let today = spec_day_at(t.launch_time@, blocktime_ms, t.params.seconds_in_day).unwrap();
    let shares = spec_stakes_shares(t.params, staked, lock_days as nat, referrer, t.globals.share_price@).unwrap();
    let rshares = spec_new_referrer_shares(t, staked, lock_days, referrer, today as u64).unwrap();
    let dai = spec_dai_equivalent(t, stable_usd, staked).unwrap();
    let final_day = (today + 1 + lock_days) as u64;
    &&& id == spec_generate_id(caller, value_or_zero(t.stake_count@, caller), 1)
    &&& start == today + 1
    &&& u.stakes@ == t.stakes@.insert((caller, id), u.stakes@[(caller, id)])
    &&& new_stake_holds(u.stakes@[(caller, id)], shares, staked, (today + 1) as nat, lock_days, dai, rshares, referrer)
    &&& u.balances@ == t.balances@.insert(caller, u.balances@[caller])
    &&& u.balances@[caller]@ == value_or_zero(t.balances@, caller) - staked
    &&& u.total_supply@ == t.total_supply@ - staked
    &&& u.stake_count@ == t.stake_count@.insert(caller, u.stake_count@[caller])
    &&& u.stake_count@[caller]@ == value_or_zero(t.stake_count@, caller) + 1
    &&& increased(t.globals, u.globals, staked, shares, rshares)
    &&& u.scheduled_to_end@ == t.scheduled_to_end@.insert(final_day, u.scheduled_to_end@[final_day])
    &&& u.scheduled_to_end@[final_day]@ == value_or_zero(t.scheduled_to_end@, final_day) + shares
    &&& u.critical_mass@ == t.critical_mass@.insert(referrer, u.critical_mass@[referrer])
    &&& u.critical_mass@[referrer].total_amount@ == t.critical_mass@[referrer].total_amount@ + dai
    &&& u.critical_mass@[referrer].activation_day@ == spec_new_activation(t, referrer, today as u64)
    &&& (rshares > 0 ==> {
        &&& rid == spec_generate_id(referrer, value_or_zero(t.referral_count@, referrer), 2)
        &&& u.referrer_links@ == t.referrer_links@.insert((referrer, rid), u.referrer_links@[(referrer, rid)])
        &&& new_link_holds(u.referrer_links@[(referrer, rid)], caller, id)
        &&& u.referral_count@ == t.referral_count@.insert(referrer, u.referral_count@[referrer])
        &&& u.referral_count@[referrer]@ == value_or_zero(t.referral_count@, referrer) + 1
        &&& u.referral_shares_to_end@ == t.referral_shares_to_end@.insert(final_day, u.referral_shares_to_end@[final_day])
        &&& u.referral_shares_to_end@[final_day]@ == value_or_zero(t.referral_shares_to_end@, final_day) + rshares
    })
    &&& (rshares == 0 ==> {
        &&& rid.len() == 0
        &&& u.referrer_links@ == t.referrer_links@
        &&& u.referral_count@ == t.referral_count@
        &&& u.referral_shares_to_end@ == t.referral_shares_to_end@
    })
    &&& u.snapshots@ == t.snapshots@
    &&& u.rsnapshots@ == t.rsnapshots@
    &&& u.lsnapshots@ == t.lsnapshots@
    &&& u.scrapes@ == t.scrapes@
    &&& u.total_penalties@ == t.total_penalties@
    &&& u.liquidity_stakes@ == t.liquidity_stakes@
    &&& u.params == t.params
    &&& u.inflation_rate == t.inflation_rate
    &&& u.liquidity_rate == t.liquidity_rate
    &&& u == (StakeableToken {
        stakes: u.stakes,
        balances: u.balances,
        total_supply: u.total_supply,
        stake_count: u.stake_count,
        globals: u.globals,
        scheduled_to_end: u.scheduled_to_end,
        critical_mass: u.critical_mass,
        referrer_links: u.referrer_links,
        referral_count: u.referral_count,
        referral_shares_to_end: u.referral_shares_to_end,
        ..t
    })
}

impl StakeableToken {
    /// Creates a stake for `caller`: burns the staked amount, starts it the day
    /// after the current day, gives it shares by its amount, lock period and
    /// the share price, credits the referrer's critical mass and, when the
    /// referrer earns shares, links the stake to it; the totals, the shares
    /// scheduled to end on its final day and the staker's count grow. Returns
    /// the stake id, the start day and the referral id (empty without
    /// referrer shares). All or nothing: refused with no change otherwise.
    pub fn create_stake(
        &mut self,
        caller: Key,
        staked_amount: U256,
        lock_days: u64,
        referrer: Key,
        stable_usd_equivalent: U256,
        blocktime_ms: u64,
    ) -> (r: Result<(Vec<u32>, U256, Vec<u32>), StakeError>)
        ensures
            r is Ok <==> spec_create_stake_ok(*old(self), caller, staked_amount@, lock_days, referrer, stable_usd_equivalent@, blocktime_ms),
            r is Err ==> *final(self) == *old(self),
            (caller == referrer || referrer.kind == KeyKind::Hash || lock_days < old(self).params.min_lock_days
                || lock_days > old(self).params.max_lock_days || staked_amount@ < old(self).params.min_stake_amount@)
                ==> r == Err::<(Vec<u32>, U256, Vec<u32>), StakeError>(StakeError::UnexpectedKeyVariant),
            r matches Ok((id, start, rid)) ==> stake_created(*old(self), *final(self), caller, staked_amount@, lock_days, referrer,
                stable_usd_equivalent@, blocktime_ms, id@, start@, rid@),
    {
        if caller.same(&referrer) || referrer.is_contract() {
            return Err(StakeError::UnexpectedKeyVariant);
        }
        if lock_days < self.params.min_lock_days || lock_days > self.params.max_lock_days {
            return Err(StakeError::UnexpectedKeyVariant);
        }
        if staked_amount.lt(&self.params.min_stake_amount) {
            return Err(StakeError::UnexpectedKeyVariant);
        }
        let today = self.current_stakeable_day_only(blocktime_ms)?;
        proof {
            assert(referrer != spec_zero_address());
        }
        let plan = self.plan_stake(&caller, staked_amount, lock_days, &referrer, stable_usd_equivalent, today)?;
        let start = U256::from_u64(plan.stake.start_day);
        let final_day = plan.stake.final_day;
        let stake_id = copy_id(&plan.stake_id);
        if !plan.stake.referrer_shares.is_zero() {
            let link = ReferrerLink {
                staker: caller,
                stake_id: copy_id(&plan.stake_id),
                reward_amount: U256::zero(),
                processed_days: U256::zero(),
                is_active: true,
            };
            self.referrer_links.set(RecordKey::new(referrer, &plan.referral_id), link);
            self.referral_count.set(referrer, plan.new_referral_count);
            self.referral_shares_to_end.set(final_day, plan.new_referral_shares_to_end);
        }
        self.critical_mass.set(referrer, plan.new_critical_mass);
        self.balances.set(caller, plan.new_balance);
        self.total_supply = plan.new_supply;
        self.stakes.set(RecordKey::new(caller, &plan.stake_id), plan.stake);
        self.stake_count.set(caller, plan.new_stake_count);
        self.globals.total_staked = plan.new_total_staked;
        self.globals.total_shares = plan.new_total_shares;
        self.globals.referral_shares = plan.new_referral_shares;
        self.scheduled_to_end.set(final_day, plan.new_scheduled);
        Ok((stake_id, start, plan.referral_id))
    }
}

/// A stake as it is closed on `today`.
pub open spec fn spec_closing(stake: Stake, today: u64) -> Stake {
    Stake { close_day: today, ..stake }
}

/// When a stake of `caller` can be ended: the contract has launched, the stake
/// exists and is active, its reward and penalty can be computed, the payout
/// fits, the referrer's record exists where it must be updated, and the
/// penalty, the reward with the scrapes and the new share price fit.
pub open spec fn spec_end_stake_ok(t: StakeableToken, caller: Key, id: Seq<u32>, blocktime_ms: u64) -> bool {
    let today = spec_day_at(t.launch_time@, blocktime_ms, t.params.seconds_in_day);
    &&& today is Some
    &&& t.stakes@.contains_key((caller, id))
    &&& t.stakes@[(caller, id)].is_active
    &&& ({
        let d = today.unwrap() as u64;
        let stake = spec_closing(t.stakes@[(caller, id)], d);
        let reward = spec_reward_amount(t, stake);
        let penalty = spec_penalty_amount(stake, d);
        &&& reward is Some
        &&& penalty is Some
        &&& ({
            let payout = sat_sub(stake.staked_amount@, penalty.unwrap());
            &&& value_or_zero(t.balances@, caller) + payout + reward.unwrap() <= u256_max()
            &&& t.total_supply@ + payout + reward.unwrap() <= u256_max()
            &&& ((stake.start_day > d && stake.referrer != spec_zero_address()) ==> t.critical_mass@.contains_key(stake.referrer))
            &&& (penalty.unwrap() > 0 ==> value_or_zero(t.total_penalties@, d) + penalty.unwrap() <= u256_max())
            &&& reward.unwrap() + value_or_zero(t.scrapes@, (caller, id)) <= u256_max()
            &&& spec_share_price_after(t, payout, reward.unwrap() + value_or_zero(t.scrapes@, (caller, id)),
                stake.referrer, stake.lock_days as nat, stake.stakes_shares@, d) is Some
        })
    })
}

/// The contract after `caller` ended its stake `id` at a block time,
/// paid `reward_value` as its reward: the stake closed with that reward, the
/// staked amount less the penalty and the reward paid out, the totals, the
/// schedules and the referrer's record taken down, the penalty stored and the
/// share price updated.
pub open spec fn stake_closed(t: StakeableToken, u: StakeableToken, caller: Key, id: Seq<u32>, blocktime_ms: u64, reward_value: nat) -> bool {
    let d = spec_day_at(t.launch_time@, blocktime_ms, t.params.seconds_in_day).unwrap() as u64;
    let k = (caller, id);
    let stake = spec_closing(t.stakes@[k], d);
    let penalty = spec_penalty_amount(stake, d).unwrap();
    let payout = sat_sub(stake.staked_amount@, penalty);
    let scraped = value_or_zero(t.scrapes@, k);
    &&& Some(reward_value) == spec_reward_amount(t, stake)
    &&& u.stakes@ == t.stakes@.insert(k, u.stakes@[k])
    &&& u.stakes@[k] == Stake { reward_amount: u.stakes@[k].reward_amount, is_active: false, ..stake }
    &&& u.balances@ == t.balances@.insert(caller, u.balances@[caller])
    &&& u.balances@[caller]@ == value_or_zero(t.balances@, caller) + payout + reward_value
    &&& u.total_supply@ == t.total_supply@ + payout + reward_value
    &&& u.globals.total_staked@ == sat_sub(t.globals.total_staked@, stake.staked_amount@)
    &&& u.globals.total_shares@ == sat_sub(t.globals.total_shares@, stake.stakes_shares@)
    &&& u.globals.referral_shares@ == (if stake.referrer_shares@ > 0 {
        sat_sub(t.globals.referral_shares@, stake.referrer_shares@)
    } else {
        t.globals.referral_shares@
    })
    &&& Some(u.globals.share_price@) == spec_share_price_after(t, payout, reward_value + scraped,
        stake.referrer, stake.lock_days as nat, stake.stakes_shares@, d)
    &&& u.globals.liquidity_shares == t.globals.liquidity_shares
    &&& u.globals.current_stakeable_day == t.globals.current_stakeable_day
    &&& removed_from_schedule(t.scheduled_to_end@, u.scheduled_to_end@, t.snapshots@,
        u.snapshots@, stake.final_day, stake.stakes_shares@, d)
    &&& removed_from_schedule(t.referral_shares_to_end@, u.referral_shares_to_end@,
        t.rsnapshots@, u.rsnapshots@, stake.final_day, stake.referrer_shares@, d)
    &&& critical_mass_removed(t.params, t.critical_mass@, u.critical_mass@, stake.referrer,
        stake.dai_equivalent@, stake.start_day as nat, d)
    &&& penalty_stored(t.total_penalties@, u.total_penalties@, d, penalty)
    &&& u.scrapes == t.scrapes
    &&& u.referrer_links == t.referrer_links
    &&& u.liquidity_stakes == t.liquidity_stakes
    &&& u.lsnapshots == t.lsnapshots
    &&& u.stake_count == t.stake_count
    &&& u.params == t.params
    &&& u.stakes@[k].reward_amount@ == reward_value
    &&& u == (StakeableToken {
        stakes: u.stakes,
        balances: u.balances,
        total_supply: u.total_supply,
        globals: u.globals,
        scheduled_to_end: u.scheduled_to_end,
        snapshots: u.snapshots,
        referral_shares_to_end: u.referral_shares_to_end,
        rsnapshots: u.rsnapshots,
        critical_mass: u.critical_mass,
        total_penalties: u.total_penalties,
        ..t
    })
}

impl StakeableToken {
    /// Ends a stake of `caller` on the current day: pays back the staked
    /// amount less the penalty of ending early, and the reward; closes the
    /// stake; takes its amount and shares off the totals, the schedules and
    /// the referrer's critical mass; stores the penalty for the day; and
    /// updates the share price. Returns the reward. All or nothing: refused
    /// with no change otherwise.
    #[verifier::rlimit(40)]
    #[verifier::spinoff_prover]
    pub fn end_stake(&mut self, caller: Key, stake_id: &Vec<u32>, blocktime_ms: u64) -> (r: Result<U256, StakeError>)
        ensures
            r is Ok <==> spec_end_stake_ok(*old(self), caller, stake_id@, blocktime_ms),
            r is Err ==> *final(self) == *old(self),
            !old(self).stakes@.contains_key((caller, stake_id@)) ==> r == Err::<U256, StakeError>(StakeError::MissingRecord),
            (old(self).stakes@.contains_key((caller, stake_id@)) && !old(self).stakes@[(caller, stake_id@)].is_active)
                ==> r == Err::<U256, StakeError>(StakeError::StakeInactive),
            r matches Ok(reward) ==> stake_closed(*old(self), *final(self), caller, stake_id@, blocktime_ms, reward@),
    {
        let key = RecordKey::new(caller, stake_id);
        let stake0 = match self.stakes.get(&key) {
            Some(s) => *s,
            None => return Err(StakeError::MissingRecord),
        };
        if !stake0.is_active {
            return Err(StakeError::StakeInactive);
        }
        let today = self.current_stakeable_day_only(blocktime_ms)?;
        let mut stake = stake0;
        stake.close_day = today;
        let reward = self.calculate_reward_amount(&stake)?;
        let penalty = calculate_penalty_amount(&stake, today)?;
        let payout = saturating_sub(stake.staked_amount, penalty);
        let bal = read_amount(&self.balances, &caller);
        let b1 = plus(bal, payout)?;
        let b2 = plus(b1, reward)?;
        let s1 = plus(self.total_supply, payout)?;
        let s2 = plus(s1, reward)?;
        let start = U256::from_u64(stake.start_day);
        let applies = !crate::helper::not_future(start, today) && non_zero_address(&stake.referrer);
        if applies && !self.critical_mass.contains(&stake.referrer) {
            return Err(StakeError::MissingRecord);
        }
        if !penalty.is_zero() {
            let _ = plus(read_amount(&self.total_penalties, &today), penalty)?;
        }
        let scraped = read_amount(&self.scrapes, &key);
        let reward_total = plus(reward, scraped)?;
        let new_price = self.share_price_after(
            payout,
            reward_total,
            &stake.referrer,
            U256::from_u64(stake.lock_days),
            stake.stakes_shares,
            today,
        )?;
        stake.reward_amount = reward;
        stake.is_active = false;
        self.balances.set(caller, b2);
        self.total_supply = s2;
        self.stakes.set(key, stake);
        self.globals.decrease_globals(stake.staked_amount, stake.stakes_shares, stake.referrer_shares);
        self.remove_scheduled_shares(stake.final_day, stake.stakes_shares, today);
        self.remove_referrer_shares_to_end(stake.final_day, stake.referrer_shares, today);
        let cm = self.remove_critical_mass(&stake.referrer, stake.dai_equivalent, start, today);
        if cm.is_err() {
            return Err(StakeError::MissingRecord);
        }
        let sp = self.store_penalty(today, penalty);
        if sp.is_err() {
            return Err(StakeError::Overflow);
        }
        self.globals.share_price = new_price;
        Ok(reward)
    }
}

/// The day a scrape reaches: `scrape_days` past the first unpaid day, or the
/// calculation day when none are asked or they would pass the final day.
pub open spec fn spec_scrape_day(t: StakeableToken, stake: Stake, scrape_days: u64) -> Option<nat> {
    let start = spec_starting_day(stake);
    let calc = spec_calculation_day(stake, t.globals.current_stakeable_day@);
    if scrape_days > 0 {
        if start + scrape_days > u256_max() {
            None
        } else if start + scrape_days > stake.final_day {
            Some(calc)
        } else {
            Some((start + scrape_days) as nat)
        }
    } else {
        Some(calc)
    }
}

/// The interest a scrape pays: the reward from the first unpaid day to the
/// scrape day.
pub open spec fn spec_scrape_amount(t: StakeableToken, stake: Stake, scrape_day: nat) -> Option<nat> {
    let start = spec_starting_day(stake);
    if start <= u64::MAX && scrape_day <= u64::MAX {
        spec_loop_reward(stake.stakes_shares@, t.params.precision_rate@, t.snapshots@, start, scrape_day)
    } else {
        None
    }
}

/// The shares an immature stake gives up for a scrape: the shares the scraped
/// amount would buy for the days left, with the staker as referrer.
pub open spec fn spec_stakers_penalty(t: StakeableToken, stake: Stake, caller: Key, amount: nat, today: u64) -> Option<nat> {
    spec_stakes_shares(t.params, amount, spec_days_left(stake, today), caller, t.globals.share_price@)
}

/// The referrer shares an immature stake gives up for a scrape.
pub open spec fn spec_referrer_penalty(t: StakeableToken, stake: Stake, amount: nat, today: u64) -> Option<nat> {
    if stake.referrer_shares@ > 0 {
        spec_stakes_shares(t.params, amount, spec_days_left(stake, today), spec_zero_address(), t.globals.share_price@)
    } else {
        Some(0)
    }
}

/// When interest can be scraped from a stake of `caller` on `today`, and all
/// its sums fit.
#[verifier::opaque]
pub open spec fn spec_scrape_ok(t: StakeableToken, caller: Key, id: Seq<u32>, scrape_days: u64, today: u64) -> bool {
    let k = (caller, id);
    let stake = t.stakes@[k];
    let sd = spec_scrape_day(t, stake, scrape_days);
    &&& t.stakes@.contains_key(k)
    &&& stake.is_active
    &&& sd is Some
    &&& spec_scrape_amount(t, stake, sd.unwrap()) is Some
    &&& ({
        let amount = spec_scrape_amount(t, stake, sd.unwrap()).unwrap();
        let sp = spec_stakers_penalty(t, stake, caller, amount, today);
        let rp = spec_referrer_penalty(t, stake, amount, today);
        &&& value_or_zero(t.balances@, caller) + amount <= u256_max()
        &&& t.total_supply@ + amount <= u256_max()
        &&& (!spec_is_mature_stake(stake, today) ==> {
            &&& sp is Some
            &&& sp.unwrap() <= stake.stakes_shares@
            &&& rp is Some
            &&& rp.unwrap() <= stake.referrer_shares@
            &&& spec_share_price_after(t, stake.staked_amount@, amount, stake.referrer, stake.lock_days as nat,
                (stake.stakes_shares@ - sp.unwrap()) as nat, today) is Some
        })
        &&& (spec_is_mature_stake(stake, today) ==> {
            &&& value_or_zero(t.scrapes@, k) + amount <= u256_max()
            &&& spec_share_price_after(t, stake.staked_amount@, value_or_zero(t.scrapes@, k) + amount,
                stake.referrer, stake.lock_days as nat, stake.stakes_shares@, today) is Some
        })
    })
}

/// The values a scrape is made of.
pub struct ScrapePlan {
    pub stake0: Stake,
    pub mature: bool,
    pub scrape_day: U256,
    pub amount: U256,
    pub remaining: U256,
    pub sp: U256,
    pub rp: U256,
    pub new_balance: U256,
    pub new_supply: U256,
    pub new_shares: U256,
    pub new_rshares: U256,
    pub new_scrapes: U256,
    pub new_price: U256,
}

/// Whether `p` holds the values a scrape of the stake `id` of `caller` on
/// `today` is made of.
#[verifier::opaque]
pub open spec fn scrape_planned(t: StakeableToken, p: ScrapePlan, caller: Key, id: Seq<u32>, scrape_days: u64, today: u64) -> bool {
    let k = (caller, id);
    let stake = t.stakes@[k];
    let sd = spec_scrape_day(t, stake, scrape_days).unwrap();
    let amount = spec_scrape_amount(t, stake, sd).unwrap();
    let mature = spec_is_mature_stake(stake, today);
    let sp = if mature { 0 } else { spec_stakers_penalty(t, stake, caller, amount, today).unwrap() };
    let rp = if mature { 0 } else { spec_referrer_penalty(t, stake, amount, today).unwrap() };
    &&& p.stake0 == stake
    &&& p.mature == mature
    &&& p.scrape_day@ == sd
    &&& p.amount@ == amount
    &&& p.remaining@ == (if mature { 0 } else { spec_days_left(stake, today) })
    &&& p.sp@ == sp
    &&& p.rp@ == rp
    &&& p.new_balance@ == value_or_zero(t.balances@, caller) + amount
    &&& p.new_supply@ == t.total_supply@ + amount
    &&& p.new_shares@ == stake.stakes_shares@ - sp
    &&& p.new_rshares@ == stake.referrer_shares@ - rp
    &&& (mature ==> p.new_scrapes@ == value_or_zero(t.scrapes@, k) + amount)
    &&& (mature ==> Some(p.new_price@) == spec_share_price_after(t, stake.staked_amount@,
        value_or_zero(t.scrapes@, k) + amount, stake.referrer, stake.lock_days as nat, stake.stakes_shares@, today))
    &&& (!mature ==> Some(p.new_price@) == spec_share_price_after(t, stake.staked_amount@, amount,
        stake.referrer, stake.lock_days as nat, (stake.stakes_shares@ - sp) as nat, today))
}

/// The contract after interest was scraped from a stake of `caller` on
/// `today`, with the values returned: the scrape day, the amount, the days
/// left, and the shares and referrer shares given up.
#[verifier::opaque]
pub open spec fn interest_scraped(
    t: StakeableToken,
    u: StakeableToken,
    caller: Key,
    id: Seq<u32>,
    scrape_days: u64,
    today: u64,
    out: (U256, U256, U256, U256, U256),
) -> bool {
    let k = (caller, id);
    let stake = t.stakes@[k];
    let sd = spec_scrape_day(t, stake, scrape_days).unwrap();
    let amount = spec_scrape_amount(t, stake, sd).unwrap();
    let mature = spec_is_mature_stake(stake, today);
    let sp = if mature { 0 } else { spec_stakers_penalty(t, stake, caller, amount, today).unwrap() };
    let rp = if mature { 0 } else { spec_referrer_penalty(t, stake, amount, today).unwrap() };
    &&& out.0@ == sd
    &&& out.1@ == amount
    &&& out.2@ == (if mature { 0 } else { spec_days_left(stake, today) })
    &&& out.3@ == sp
    &&& out.4@ == rp
    &&& u.stakes@ == t.stakes@.insert(k, u.stakes@[k])
    &&& u.stakes@[k].scrape_day@ == sd
    &&& u.stakes@[k].stakes_shares@ == stake.stakes_shares@ - sp
    &&& u.stakes@[k].referrer_shares@ == stake.referrer_shares@ - rp
    &&& u.stakes@[k] == Stake {
        scrape_day: u.stakes@[k].scrape_day,
        stakes_shares: u.stakes@[k].stakes_shares,
        referrer_shares: u.stakes@[k].referrer_shares,
        ..stake
    }
    &&& u.balances@ == t.balances@.insert(caller, u.balances@[caller])
    &&& u.balances@[caller]@ == value_or_zero(t.balances@, caller) + amount
    &&& u.total_supply@ == t.total_supply@ + amount
    &&& (!mature ==> {
        &&& removed_from_schedule(t.scheduled_to_end@, u.scheduled_to_end@, t.snapshots@, u.snapshots@,
            stake.final_day, sp, today)
        &&& (stake.referrer_shares@ > 0 ==> removed_from_schedule(t.referral_shares_to_end@, u.referral_shares_to_end@,
            t.rsnapshots@, u.rsnapshots@, stake.final_day, rp, today))
        &&& (stake.referrer_shares@ == 0 ==> u.referral_shares_to_end == t.referral_shares_to_end && u.rsnapshots == t.rsnapshots)
        &&& u.globals.total_staked == t.globals.total_staked
        &&& u.globals.total_shares@ == sat_sub(t.globals.total_shares@, sp)
        &&& u.globals.referral_shares@ == (if rp > 0 { sat_sub(t.globals.referral_shares@, rp) } else { t.globals.referral_shares@ })
        &&& Some(u.globals.share_price@) == spec_share_price_after(t, stake.staked_amount@, amount, stake.referrer,
            stake.lock_days as nat, (stake.stakes_shares@ - sp) as nat, today)
        &&& u.scrapes == t.scrapes
    })
    &&& (mature ==> {
        &&& u.scrapes@ == t.scrapes@.insert(k, u.scrapes@[k])
        &&& u.scrapes@[k]@ == value_or_zero(t.scrapes@, k) + amount
        &&& Some(u.globals.share_price@) == spec_share_price_after(t, stake.staked_amount@,
            value_or_zero(t.scrapes@, k) + amount, stake.referrer, stake.lock_days as nat, stake.stakes_shares@, today)
        &&& u.globals.total_staked == t.globals.total_staked
        &&& u.globals.total_shares == t.globals.total_shares
        &&& u.globals.referral_shares == t.globals.referral_shares
        &&& u.scheduled_to_end == t.scheduled_to_end
        &&& u.snapshots == t.snapshots
        &&& u.referral_shares_to_end == t.referral_shares_to_end
        &&& u.rsnapshots == t.rsnapshots
    })
    &&& u.globals.liquidity_shares == t.globals.liquidity_shares
    &&& u.globals.current_stakeable_day == t.globals.current_stakeable_day
    &&& u.critical_mass == t.critical_mass
    &&& u.total_penalties == t.total_penalties
    &&& u.referrer_links == t.referrer_links
    &&& u.liquidity_stakes == t.liquidity_stakes
    &&& u.lsnapshots == t.lsnapshots
    &&& u.stake_count == t.stake_count
    &&& u.params == t.params
    &&& u == (StakeableToken {
        stakes: u.stakes,
        balances: u.balances,
        total_supply: u.total_supply,
        globals: u.globals,
        scrapes: u.scrapes,
        scheduled_to_end: u.scheduled_to_end,
        snapshots: u.snapshots,
        referral_shares_to_end: u.referral_shares_to_end,
        rsnapshots: u.rsnapshots,
        ..t
    })
}

/// What `scrape_stake` leaves, for the plan it made, is the interest scraped.
proof fn lemma_interest_scraped(t: StakeableToken, u: StakeableToken, caller: Key, id: Seq<u32>, scrape_days: u64, today: u64, p: ScrapePlan)
    requires
        scrape_planned(t, p, caller, id, scrape_days, today),
        u.stakes@ == t.stakes@.insert((caller, id), Stake {
            scrape_day: p.scrape_day,
            stakes_shares: if p.mature { p.stake0.stakes_shares } else { p.new_shares },
            referrer_shares: if p.mature { p.stake0.referrer_shares } else { p.new_rshares },
            ..p.stake0
        }),
        u.balances@ == t.balances@.insert(caller, p.new_balance),
        u.total_supply == p.new_supply,
        u.globals.share_price == p.new_price,
        u.globals.liquidity_shares == t.globals.liquidity_shares,
        u.globals.current_stakeable_day == t.globals.current_stakeable_day,
        !p.mature ==> {
            &&& removed_from_schedule(t.scheduled_to_end@, u.scheduled_to_end@, t.snapshots@, u.snapshots@,
                p.stake0.final_day, p.sp@, today)
            &&& (p.stake0.referrer_shares@ > 0 ==> removed_from_schedule(t.referral_shares_to_end@,
                u.referral_shares_to_end@, t.rsnapshots@, u.rsnapshots@, p.stake0.final_day, p.rp@, today))
            &&& (p.stake0.referrer_shares@ == 0 ==> u.referral_shares_to_end == t.referral_shares_to_end
                && u.rsnapshots == t.rsnapshots)
            &&& u.globals.total_staked == t.globals.total_staked
            &&& u.globals.total_shares@ == sat_sub(t.globals.total_shares@, p.sp@)
            &&& u.globals.referral_shares@ == (if p.rp@ > 0 { sat_sub(t.globals.referral_shares@, p.rp@) } else { t.globals.referral_shares@ })
            &&& u.scrapes == t.scrapes
        },
        p.mature ==> {
            &&& u.scrapes@ == t.scrapes@.insert((caller, id), p.new_scrapes)
            &&& u.globals.total_staked == t.globals.total_staked
            &&& u.globals.total_shares == t.globals.total_shares
            &&& u.globals.referral_shares == t.globals.referral_shares
            &&& u.scheduled_to_end == t.scheduled_to_end
            &&& u.snapshots == t.snapshots
            &&& u.referral_shares_to_end == t.referral_shares_to_end
            &&& u.rsnapshots == t.rsnapshots
        },
        u.critical_mass == t.critical_mass,
        u.total_penalties == t.total_penalties,
        u.referrer_links == t.referrer_links,
        u.liquidity_stakes == t.liquidity_stakes,
        u.lsnapshots == t.lsnapshots,
        u.stake_count == t.stake_count,
        u.params == t.params,
        u == (StakeableToken {
            stakes: u.stakes,
            balances: u.balances,
            total_supply: u.total_supply,
            globals: u.globals,
            scrapes: u.scrapes,
            scheduled_to_end: u.scheduled_to_end,
            snapshots: u.snapshots,
            referral_shares_to_end: u.referral_shares_to_end,
            rsnapshots: u.rsnapshots,
            ..t
        }),
    ensures
        interest_scraped(t, u, caller, id, scrape_days, today, (p.scrape_day, p.amount, p.remaining, p.sp, p.rp)),
{
    reveal(interest_scraped);
    reveal(scrape_planned);
}

impl StakeableToken {
    /// The values a scrape of a stake on `today` is made of.
    #[verifier::rlimit(60)]
    fn plan_scrape(&self, caller: Key, stake_id: &Vec<u32>, scrape_days: u64, today: u64) -> (r: Result<ScrapePlan, StakeError>)
        ensures
            r is Ok <==> spec_scrape_ok(*self, caller, stake_id@, scrape_days, today),
            r matches Ok(p) ==> scrape_planned(*self, p, caller, stake_id@, scrape_days, today),
    {
        reveal(spec_scrape_ok);
        reveal(scrape_planned);
        let key = RecordKey::new(caller, stake_id);
        let stake0 = match self.stakes.get(&key) {
            Some(s) => *s,
            None => return Err(StakeError::MissingRecord),
        };
        if !stake0.is_active {
            return Err(StakeError::InvalidArgument);
        }
        let starting = starting_day(&stake0);
        let calc = calculation_day(&stake0, self.globals.current_stakeable_day);
        let scrape_day = if scrape_days > 0 {
            let sd = plus(starting, U256::from_u64(scrape_days))?;
            if sd.gt(&U256::from_u64(stake0.final_day)) {
                calc
            } else {
                sd
            }
        } else {
            calc
        };
        let amount = self.loop_reward_amount(stake0.stakes_shares, starting, scrape_day)?;
        let bal = read_amount(&self.balances, &caller);
        let new_balance = plus(bal, amount)?;
        let new_supply = plus(self.total_supply, amount)?;
        let mature = is_mature_stake(&stake0, today);
        if !mature {
            let remaining = days_left(&stake0, today);
            let price = self.globals.share_price;
            let sp = stakes_shares(&self.params, amount, remaining, &caller, price)?;
            let new_shares = minus(stake0.stakes_shares, sp)?;
            let mut new_rshares = stake0.referrer_shares;
            let mut rp = U256::zero();
            if !stake0.referrer_shares.is_zero() {
                let z = zero_address();
                rp = stakes_shares(&self.params, amount, remaining, &z, price)?;
                new_rshares = minus(stake0.referrer_shares, rp)?;
            }
            let new_price = self.share_price_after(
                stake0.staked_amount,
                amount,
                &stake0.referrer,
                U256::from_u64(stake0.lock_days),
                new_shares,
                today,
            )?;
            Ok(ScrapePlan {
                stake0,
                mature,
                scrape_day,
                amount,
                remaining,
                sp,
                rp,
                new_balance,
                new_supply,
                new_shares,
                new_rshares,
                new_scrapes: U256::zero(),
                new_price,
            })
        } else {
            let scraped = read_amount(&self.scrapes, &key);
            let total = plus(scraped, amount)?;
            let new_price = self.share_price_after(
                stake0.staked_amount,
                total,
                &stake0.referrer,
                U256::from_u64(stake0.lock_days),
                stake0.stakes_shares,
                today,
            )?;
            Ok(ScrapePlan {
                stake0,
                mature,
                scrape_day,
                amount,
                remaining: U256::zero(),
                sp: U256::zero(),
                rp: U256::zero(),
                new_balance,
                new_supply,
                new_shares: stake0.stakes_shares,
                new_rshares: stake0.referrer_shares,
                new_scrapes: total,
                new_price,
            })
        }
    }

    /// Takes the shares an immature stake gives up for a scrape off the
    /// schedules and the totals.
    #[verifier::rlimit(100)]
    #[verifier::spinoff_prover]
    fn give_up_shares(&mut self, p: &ScrapePlan, today: u64)
        ensures
            removed_from_schedule(old(self).scheduled_to_end@, final(self).scheduled_to_end@, old(self).snapshots@,
                final(self).snapshots@, p.stake0.final_day, p.sp@, today),
            decreased(old(self).globals, final(self).globals, 0, p.sp@, p.rp@),
            p.stake0.referrer_shares@ > 0 ==> removed_from_schedule(old(self).referral_shares_to_end@,
                final(self).referral_shares_to_end@, old(self).rsnapshots@, final(self).rsnapshots@,
                p.stake0.final_day, p.rp@, today),
            p.stake0.referrer_shares@ == 0 ==> final(self).referral_shares_to_end == old(self).referral_shares_to_end
                && final(self).rsnapshots == old(self).rsnapshots,
            *final(self) == (StakeableToken {
                scheduled_to_end: final(self).scheduled_to_end,
                snapshots: final(self).snapshots,
                referral_shares_to_end: final(self).referral_shares_to_end,
                rsnapshots: final(self).rsnapshots,
                globals: final(self).globals,
                ..*old(self)
            }),
    {
        self.remove_scheduled_shares(p.stake0.final_day, p.sp, today);
        if !p.stake0.referrer_shares.is_zero() {
            self.remove_referrer_shares_to_end(p.stake0.final_day, p.rp, today);
        }
        self.globals.decrease_globals(U256::zero(), p.sp, p.rp);
    }

    /// Scrapes the interest of a stake on `today`, once the snapshots are up
    /// to date. All or nothing.
    #[verifier::rlimit(100)]
    #[verifier::spinoff_prover]
    fn scrape_stake(&mut self, caller: Key, stake_id: &Vec<u32>, scrape_days: u64, today: u64) -> (r: Result<(U256, U256, U256, U256, U256), StakeError>)
        ensures
            r is Ok <==> spec_scrape_ok(*old(self), caller, stake_id@, scrape_days, today),
            r is Err ==> *final(self) == *old(self),
            r matches Ok(out) ==> interest_scraped(*old(self), *final(self), caller, stake_id@, scrape_days, today, out),
    {
        let ghost t = *self;
        let p = self.plan_scrape(caller, stake_id, scrape_days, today)?;
        let key = RecordKey::new(caller, stake_id);
        let mut stake = p.stake0;
        if !p.mature {
            stake.stakes_shares = p.new_shares;
            stake.referrer_shares = p.new_rshares;
            self.give_up_shares(&p, today);
        } else {
            self.scrapes.set(key.copy_key(), p.new_scrapes);
        }
        self.globals.share_price = p.new_price;
        stake.scrape_day = p.scrape_day;
        self.stakes.set(key, stake);
        self.balances.set(caller, p.new_balance);
        self.total_supply = p.new_supply;
        proof {
            lemma_interest_scraped(t, *self, caller, stake_id@, scrape_days, today, p);
        }
        Ok((p.scrape_day, p.amount, p.remaining, p.sp, p.rp))
    }

    /// Scrapes the interest a stake of `caller` has earned so far: first takes
    /// the daily snapshots up to the current day, then pays the reward from
    /// the first unpaid day to the scrape day. An immature stake gives up the
    /// shares the amount would buy for its remaining days; a mature one adds
    /// the amount to its scrapes. The share price updates. Returns the scrape
    /// day, the amount, the days left and the shares given up. All or
    /// nothing: refused with no change before launch, when a snapshot day's
    /// arithmetic fails (with that error), or when the stake cannot be scraped
    /// on the snapshotted state: `MissingRecord` without the stake,
    /// `InvalidArgument` for an inactive one.
    pub fn scrape_interest(
        &mut self,
        caller: Key,
        stake_id: &Vec<u32>,
        scrape_days: u64,
        blocktime_ms: u64,
        pair: &PairReserves,
        guard: &LiquidityGuard,
    ) -> (r: Result<(U256, U256, U256, U256, U256), StakeError>)
        ensures
            ({
                let today = spec_day_at(old(self).launch_time@, blocktime_ms, old(self).params.seconds_in_day);
                &&& r is Err ==> *final(self) == *old(self)
                &&& today is None ==> r is Err
                &&& (today is Some && spec_contract_run(*old(self), *pair, guard.inflations@, today.unwrap() as u64) is None)
                    ==> r is Err
                &&& (today is Some && spec_contract_run(*old(self), *pair, guard.inflations@, today.unwrap() as u64) is Some
                    && !old(self).stakes@.contains_key((caller, stake_id@)))
                    ==> r == Err::<(U256, U256, U256, U256, U256), StakeError>(StakeError::MissingRecord)
                &&& (today is Some && spec_contract_run(*old(self), *pair, guard.inflations@, today.unwrap() as u64) is Some
                    && old(self).stakes@.contains_key((caller, stake_id@)) && !old(self).stakes@[(caller, stake_id@)].is_active)
                    ==> r == Err::<(U256, U256, U256, U256, U256), StakeError>(StakeError::InvalidArgument)
                &&& r matches Ok(out) ==> exists|mid: StakeableToken| #[trigger] snapshot_taken(*old(self), mid, *pair, guard.inflations@, today.unwrap() as u64)
                    && spec_scrape_ok(mid, caller, stake_id@, scrape_days, today.unwrap() as u64)
                    && interest_scraped(mid, *final(self), caller, stake_id@, scrape_days, today.unwrap() as u64, out)
                &&& (r is Err && today is Some && spec_contract_run(*old(self), *pair, guard.inflations@, today.unwrap() as u64) is Some)
                    ==> exists|mid: StakeableToken| #[trigger] snapshot_taken(*old(self), mid, *pair, guard.inflations@, today.unwrap() as u64)
                        && !spec_scrape_ok(mid, caller, stake_id@, scrape_days, today.unwrap() as u64)
            }),
    {
        let today = self.current_stakeable_day_only(blocktime_ms)?;
        let ghost t0 = *self;
        let b = self.snapshot_aside(today, pair, guard)?;
        let ghost mid = *self;
        proof {
            let td = spec_day_at(old(self).launch_time@, blocktime_ms, old(self).params.seconds_in_day);
            assert(td.unwrap() as u64 == today);
            assert(snapshot_taken(t0, mid, *pair, guard.inflations@, today));
            reveal(snapshot_taken);
            assert(mid.stakes == t0.stakes);
        }
        let refusal = match self.stakes.get(&RecordKey::new(caller, stake_id)) {
            None => Some(StakeError::MissingRecord),
            Some(s) => if s.is_active { None } else { Some(StakeError::InvalidArgument) },
        };
        if let Some(e) = refusal {
            proof {
                reveal(spec_scrape_ok);
                assert(!spec_scrape_ok(mid, caller, stake_id@, scrape_days, today));
            }
            self.put_back(b);
            assert(*self == t0);
            return Err(e);
        }
        let r = self.scrape_stake(caller, stake_id, scrape_days, today);
        match r {
            Ok(out) => {
                assert(snapshot_taken(*old(self), mid, *pair, guard.inflations@, today)
                    && spec_scrape_ok(mid, caller, stake_id@, scrape_days, today)
                    && interest_scraped(mid, *self, caller, stake_id@, scrape_days, today, out));
                Ok(out)
            },
            Err(e) => {
                assert(*self == mid);
                assert(!spec_scrape_ok(mid, caller, stake_id@, scrape_days, today));
                self.put_back(b);
                assert(*self == t0);
                Err(e)
            },
        }
    }
}

impl StakeableToken {
    /// Whether a stake of `staker` is mature on the current day; refused when
    /// there is no such stake.
    pub fn check_mature_stake(&self, staker: Key, stake_id: &Vec<u32>, blocktime_ms: u64) -> (r: Result<bool, StakeError>)
        ensures
            ({
                let today = spec_day_at(self.launch_time@, blocktime_ms, self.params.seconds_in_day);
                let k = (staker, stake_id@);
                &&& r is Ok <==> (self.stakes@.contains_key(k) && (self.stakes@[k].close_day == 0 ==> today is Some))
                &&& r matches Ok(b) ==> b == (if self.stakes@[k].close_day > 0 {
                    self.stakes@[k].final_day <= self.stakes@[k].close_day
                } else {
                    self.stakes@[k].final_day <= today.unwrap()
                })
            }),
    {
        let key = RecordKey::new(staker, stake_id);
        let stake = match self.stakes.get(&key) {
            Some(s) => *s,
            None => return Err(StakeError::MissingRecord),
        };
        if stake.close_day > 0 {
            Ok(stake.final_day <= stake.close_day)
        } else {
            let today = self.current_stakeable_day_only(blocktime_ms)?;
            Ok(is_mature_stake(&stake, today))
        }
    }

    /// A stake of `staker` as it stands on the current day: with the reward it
    /// shows, the penalty of ending it now, and whether it is mature.
    pub fn check_stake_by_id(&self, staker: Key, stake_id: &Vec<u32>, blocktime_ms: u64) -> (r: Result<(Stake, U256, bool), StakeError>)
        ensures
            ({
                let today = spec_day_at(self.launch_time@, blocktime_ms, self.params.seconds_in_day);
                let k = (staker, stake_id@);
                let stake = self.stakes@[k];
                let d = today.unwrap() as u64;
                &&& r is Ok <==> (self.stakes@.contains_key(k) && today is Some
                    && spec_check_reward_amount(*self, stake, d) is Some
                    && spec_penalty_amount(Stake { reward_amount: self.stakes@[k].reward_amount, ..stake }, d) is Some)
                &&& r matches Ok((s, penalty, mature)) ==> {
                    &&& Some(s.reward_amount@) == spec_check_reward_amount(*self, stake, d)
                    &&& s == Stake { reward_amount: s.reward_amount, ..stake }
                    &&& Some(penalty@) == spec_penalty_amount(s, d)
                    &&& mature == spec_is_mature_stake(stake, d)
                }
            }),
    {
        let key = RecordKey::new(staker, stake_id);
        let stake0 = match self.stakes.get(&key) {
            Some(s) => *s,
            None => return Err(StakeError::MissingRecord),
        };
        let today = self.current_stakeable_day_only(blocktime_ms)?;
        let mature = is_mature_stake(&stake0, today);
        let mut stake = stake0;
        stake.reward_amount = self.check_reward_amount(&stake0, today)?;
        let penalty = calculate_penalty_amount(&stake, today)?;
        Ok((stake, penalty, mature))
    }
}
} // verus!
