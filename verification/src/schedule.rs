use vstd::prelude::*;

use crate::contract::{read_amount, value_or_zero, StakeableToken};
use crate::snapshot::{read_snapshot, stored_scheduled};
use crate::types::{plus, sat_sub, saturating_sub, Snapshot, StakeError};
use crate::u256::{u256_max, U256};

verus! {

/// A schedule and its snapshots after shares ending on `final_day` are taken
/// off on `today`: from the day's entry while the day is not past, else from
/// yesterday's snapshot; never below zero; nothing else changes.
#[verifier::opaque]
pub open spec fn removed_from_schedule(
    old_s: Map<u64, U256>,
    new_s: Map<u64, U256>,
    old_n: Map<u64, Snapshot>,
    new_n: Map<u64, Snapshot>,
    final_day: u64,
    shares: nat,
    today: u64,
) -> bool {
    &&& final_day >= today ==> {
        &&& new_s == old_s.insert(final_day, new_s[final_day])
        &&& new_s[final_day]@ == sat_sub(value_or_zero(old_s, final_day), shares)
        &&& new_n == old_n
    }
    &&& final_day < today ==> {
        &&& new_n == old_n.insert((today - 1) as u64, new_n[(today - 1) as u64])
        &&& new_n[(today - 1) as u64].scheduled_to_end@ == sat_sub(stored_scheduled(old_n, (today - 1) as u64), shares)
        &&& (old_n.contains_key((today - 1) as u64) ==> {
            &&& new_n[(today - 1) as u64].total_shares == old_n[(today - 1) as u64].total_shares
            &&& new_n[(today - 1) as u64].inflation_amount == old_n[(today - 1) as u64].inflation_amount
        })
        &&& (!old_n.contains_key((today - 1) as u64) ==> {
            &&& new_n[(today - 1) as u64].total_shares@ == 0
            &&& new_n[(today - 1) as u64].inflation_amount@ == 0
        })
        &&& new_s == old_s
    }
}

/// A schedule after `shares` more end on `day`.
pub open spec fn shares_scheduled(old_s: Map<u64, U256>, new_s: Map<u64, U256>, day: u64, shares: nat) -> bool {
    &&& new_s == old_s.insert(day, new_s[day])
    &&& new_s[day]@ == value_or_zero(old_s, day) + shares
}

/// The penalties after one is stored for a day: added when there is one.
pub open spec fn penalty_stored(old_p: Map<u64, U256>, new_p: Map<u64, U256>, day: u64, penalty: nat) -> bool {
    &&& penalty == 0 ==> new_p == old_p
    &&& penalty > 0 ==> {
        &&& new_p == old_p.insert(day, new_p[day])
        &&& new_p[day]@ == value_or_zero(old_p, day) + penalty
    }
}

impl StakeableToken {
    /// Adds shares that end on a day; refused, with no change, on overflow.
    pub fn add_scheduled_shares(&mut self, final_day: u64, shares: U256) -> (r: Result<(), StakeError>)
        ensures
            r is Ok <==> value_or_zero(old(self).scheduled_to_end@, final_day) + shares@ <= u256_max(),
            r is Err ==> *final(self) == *old(self),
            r is Ok ==> shares_scheduled(old(self).scheduled_to_end@, final(self).scheduled_to_end@, final_day, shares@),
            final(self).params == old(self).params,
            final(self).globals == old(self).globals,
            final(self).stakes == old(self).stakes,
            final(self).balances == old(self).balances,
            final(self).total_supply == old(self).total_supply,
            final(self).snapshots == old(self).snapshots,
            final(self).referral_shares_to_end == old(self).referral_shares_to_end,
    {
        let cur = read_amount(&self.scheduled_to_end, &final_day);
        let v = plus(cur, shares)?;
        self.scheduled_to_end.set(final_day, v);
        Ok(())
    }

    /// Takes shares off what ends on a day, not below zero. While the day is
    /// not past, from the day's schedule; once past, from yesterday's snapshot.
    pub fn remove_scheduled_shares(&mut self, final_day: u64, shares: U256, today: u64)
        ensures
            removed_from_schedule(
                old(self).scheduled_to_end@,
                final(self).scheduled_to_end@,
                old(self).snapshots@,
                final(self).snapshots@,
                final_day,
                shares@,
                today,
            ),
            final(self).params == old(self).params,
            final(self).globals == old(self).globals,
            final(self).stakes == old(self).stakes,
            final(self).balances == old(self).balances,
            final(self).total_supply == old(self).total_supply,
            final(self).critical_mass == old(self).critical_mass,
            final(self).rsnapshots == old(self).rsnapshots,
            final(self).referral_shares_to_end == old(self).referral_shares_to_end,
            final(self).total_penalties == old(self).total_penalties,
            final(self).scrapes == old(self).scrapes,
            final(self).referrer_links == old(self).referrer_links,
            final(self).liquidity_stakes == old(self).liquidity_stakes,
            final(self).stake_count == old(self).stake_count,
            final(self).referral_count == old(self).referral_count,
            final(self).liquidity_stake_count == old(self).liquidity_stake_count,
            final(self).lsnapshots == old(self).lsnapshots,
            final(self).launch_time == old(self).launch_time,
            final(self).addresses == old(self).addresses,
            final(self).inflation_rate == old(self).inflation_rate,
            final(self).liquidity_rate == old(self).liquidity_rate,
            final(self).liquidity_guard_status == old(self).liquidity_guard_status,
            *final(self) == (StakeableToken { scheduled_to_end: final(self).scheduled_to_end, snapshots: final(self).snapshots, ..*old(self) }),
    {
        reveal(removed_from_schedule);
        if final_day >= today {
            let cur = read_amount(&self.scheduled_to_end, &final_day);
            self.scheduled_to_end.set(final_day, saturating_sub(cur, shares));
        } else {
            let day = today - 1;
            let mut snap = read_snapshot(&self.snapshots, day);
            snap.scheduled_to_end = saturating_sub(snap.scheduled_to_end, shares);
            self.snapshots.set(day, snap);
        }
    }

    /// Adds a penalty to the penalties of a day, when there is one; refused,
    /// with no change, on overflow.
    pub fn store_penalty(&mut self, day: u64, penalty: U256) -> (r: Result<(), StakeError>)
        ensures
            r is Ok <==> (penalty@ == 0 || value_or_zero(old(self).total_penalties@, day) + penalty@ <= u256_max()),
            r is Err ==> *final(self) == *old(self),
            (r is Ok && penalty@ == 0) ==> *final(self) == *old(self),
            r is Ok ==> penalty_stored(old(self).total_penalties@, final(self).total_penalties@, day, penalty@),
            final(self).params == old(self).params,
            final(self).globals == old(self).globals,
            final(self).stakes == old(self).stakes,
            final(self).balances == old(self).balances,
            final(self).total_supply == old(self).total_supply,
            final(self).scrapes == old(self).scrapes,
            final(self).referrer_links == old(self).referrer_links,
            final(self).liquidity_stakes == old(self).liquidity_stakes,
            final(self).stake_count == old(self).stake_count,
            final(self).referral_count == old(self).referral_count,
            final(self).liquidity_stake_count == old(self).liquidity_stake_count,
            final(self).snapshots == old(self).snapshots,
            final(self).rsnapshots == old(self).rsnapshots,
            final(self).lsnapshots == old(self).lsnapshots,
            final(self).scheduled_to_end == old(self).scheduled_to_end,
            final(self).referral_shares_to_end == old(self).referral_shares_to_end,
            final(self).critical_mass == old(self).critical_mass,
            final(self).launch_time == old(self).launch_time,
            final(self).addresses == old(self).addresses,
            final(self).inflation_rate == old(self).inflation_rate,
            final(self).liquidity_rate == old(self).liquidity_rate,
            final(self).liquidity_guard_status == old(self).liquidity_guard_status,
            *final(self) == (StakeableToken { total_penalties: final(self).total_penalties, ..*old(self) }),
    {
        if !penalty.is_zero() {
            let cur = read_amount(&self.total_penalties, &day);
            let v = plus(cur, penalty)?;
            self.total_penalties.set(day, v);
        }
        Ok(())
    }
}

} // verus!
