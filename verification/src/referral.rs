use vstd::prelude::*;

use crate::contract::{read_amount, value_or_zero, StakeableToken};
use crate::key::{non_zero_address, spec_zero_address, Key};
use crate::snapshot::read_snapshot;
use crate::types::{as_value, opt_add, plus, sat_sub, saturating_sub, CriticalMass, StakeError};
use crate::u256::{u256_max, U256};

verus! {

/// Whether the referrer's amount passed the threshold: above it, the stored
/// activation day is cleared.
pub open spec fn spec_below_threshold(p: crate::types::ConstantParameters, cm: CriticalMass) -> bool {
    cm.total_amount@ > p.threshold_limit@
}

/// The activation day a referrer gets from its stored record on `today`:
/// zero past the threshold, else its activation day, or `today` when it had none.
pub open spec fn spec_determine_activation_day(p: crate::types::ConstantParameters, cm: CriticalMass, today: u64) -> nat {
    if spec_below_threshold(p, cm) {
        0
    } else if cm.activation_day@ > 0 {
        cm.activation_day@
    } else {
        today as nat
    }
}

/// Whether the records of referrers after a removal on `today` are the old
/// ones, with the amount taken off the referrer's record (not below zero) and
/// its activation day set anew, when the stake had not started and the
/// referrer is not the zero address.
pub open spec fn critical_mass_removed(
    p: crate::types::ConstantParameters,
    old_m: Map<Key, CriticalMass>,
    new_m: Map<Key, CriticalMass>,
    referrer: Key,
    dai_equivalent: nat,
    start_day: nat,
    today: u64,
) -> bool {
    let applies = start_day > today && referrer != spec_zero_address();
    &&& !applies ==> new_m == old_m
    &&& applies ==> {
        &&& new_m.contains_key(referrer)
        &&& new_m[referrer].total_amount@ == sat_sub(old_m[referrer].total_amount@, dai_equivalent)
        &&& new_m[referrer].activation_day@ == spec_determine_activation_day(p, old_m[referrer], today)
        &&& new_m == old_m.insert(referrer, new_m[referrer])
    }
}

impl StakeableToken {
    /// The stored record of a referrer; refused when there is none.
    pub fn read_critical_mass(&self, referrer: &Key) -> (r: Result<CriticalMass, StakeError>)
        ensures
            r is Ok <==> self.critical_mass@.contains_key(*referrer),
            r matches Ok(cm) ==> cm == self.critical_mass@[*referrer],
            r matches Err(e) ==> e == StakeError::MissingRecord,
    {
        match self.critical_mass.get(referrer) {
            Some(cm) => Ok(*cm),
            None => Err(StakeError::MissingRecord),
        }
    }

    /// Whether a referrer has no activation day yet.
    pub fn not_critical_mass_referrer(&self, referrer: &Key) -> (r: Result<bool, StakeError>)
        ensures
            r is Ok <==> self.critical_mass@.contains_key(*referrer),
            r matches Ok(b) ==> b == (self.critical_mass@[*referrer].activation_day@ == 0),
    {
        let cm = self.read_critical_mass(referrer)?;
        Ok(cm.activation_day.is_zero())
    }

    /// Whether what a referrer referred is above the threshold limit.
    pub fn below_threshhold_level(&self, referrer: &Key) -> (r: Result<bool, StakeError>)
        ensures
            r is Ok <==> self.critical_mass@.contains_key(*referrer),
            r matches Ok(b) ==> b == spec_below_threshold(self.params, self.critical_mass@[*referrer]),
    {
        let cm = self.read_critical_mass(referrer)?;
        Ok(cm.total_amount.gt(&self.params.threshold_limit))
    }

    /// A referrer's stored activation day, or `today` when it has none.
    pub fn activation_day(&self, referrer: &Key, today: u64) -> (r: Result<U256, StakeError>)
        ensures
            r is Ok <==> self.critical_mass@.contains_key(*referrer),
            r matches Ok(d) ==> d@ == (if self.critical_mass@[*referrer].activation_day@ > 0 {
                self.critical_mass@[*referrer].activation_day@
            } else {
                today as nat
            }),
    {
        let cm = self.read_critical_mass(referrer)?;
        if !cm.activation_day.is_zero() {
            Ok(cm.activation_day)
        } else {
            Ok(U256::from_u64(today))
        }
    }

    /// The activation day a referrer gets on `today`.
    pub fn determine_activation_day(&self, referrer: &Key, today: u64) -> (r: Result<U256, StakeError>)
        ensures
            r is Ok <==> self.critical_mass@.contains_key(*referrer),
            r matches Ok(d) ==> d@ == spec_determine_activation_day(self.params, self.critical_mass@[*referrer], today),
    {
        if self.below_threshhold_level(referrer)? {
            Ok(U256::zero())
        } else {
            self.activation_day(referrer, today)
        }
    }

    /// Adds an amount to what a referrer referred and sets its activation day
    /// from its record as it was. Refused, with no change, without a record or
    /// when the amount overflows.
    pub fn add_critical_mass(&mut self, referrer: &Key, dai_equivalent: U256, today: u64) -> (r: Result<(), StakeError>)
        ensures
            r is Ok <==> (old(self).critical_mass@.contains_key(*referrer)
                && old(self).critical_mass@[*referrer].total_amount@ + dai_equivalent@ <= u256_max()),
            r is Err ==> *final(self) == *old(self),
            r is Ok ==> final(self).critical_mass@.contains_key(*referrer),
            r is Ok ==> final(self).critical_mass@[*referrer].total_amount@
                == old(self).critical_mass@[*referrer].total_amount@ + dai_equivalent@,
            r is Ok ==> final(self).critical_mass@[*referrer].activation_day@
                == spec_determine_activation_day(old(self).params, old(self).critical_mass@[*referrer], today),
            r is Ok ==> final(self).critical_mass@ == old(self).critical_mass@.insert(*referrer, final(self).critical_mass@[*referrer]),
            final(self).params == old(self).params,
            final(self).globals == old(self).globals,
            final(self).stakes == old(self).stakes,
            final(self).balances == old(self).balances,
            final(self).total_supply == old(self).total_supply,
    {
        let cm = self.read_critical_mass(referrer)?;
        let total = plus(cm.total_amount, dai_equivalent)?;
        let day = self.determine_activation_day(referrer, today)?;
        self.critical_mass.set(*referrer, CriticalMass { total_amount: total, activation_day: day });
        Ok(())
    }

    /// Takes an amount off what a referrer referred, not below zero, when the
    /// stake had not started by `today` and the referrer is not the zero
    /// address. Refused, with no change, when that record is missing.
    pub fn remove_critical_mass(&mut self, referrer: &Key, dai_equivalent: U256, start_day: U256, today: u64) -> (r: Result<(), StakeError>)
        ensures
            ({
                let applies = start_day@ > today && *referrer != spec_zero_address();
                &&& r is Err <==> (applies && !old(self).critical_mass@.contains_key(*referrer))
                &&& r is Err ==> *final(self) == *old(self)
                &&& (r is Ok && !applies) ==> *final(self) == *old(self)
                &&& r is Ok ==> critical_mass_removed(
                    old(self).params,
                    old(self).critical_mass@,
                    final(self).critical_mass@,
                    *referrer,
                    dai_equivalent@,
                    start_day@,
                    today,
                )
            }),
            final(self).params == old(self).params,
            final(self).globals == old(self).globals,
            final(self).stakes == old(self).stakes,
            final(self).balances == old(self).balances,
            final(self).total_supply == old(self).total_supply,
            final(self).total_penalties == old(self).total_penalties,
            final(self).scrapes == old(self).scrapes,
            final(self).referrer_links == old(self).referrer_links,
            final(self).liquidity_stakes == old(self).liquidity_stakes,
            final(self).stake_count == old(self).stake_count,
            final(self).referral_count == old(self).referral_count,
            final(self).liquidity_stake_count == old(self).liquidity_stake_count,
            final(self).lsnapshots == old(self).lsnapshots,
            final(self).launch_time == old(self).launch_time,
            final(self).addresses == old(self).addresses,
            final(self).inflation_rate == old(self).inflation_rate,
            final(self).liquidity_rate == old(self).liquidity_rate,
            final(self).liquidity_guard_status == old(self).liquidity_guard_status,
            final(self).snapshots == old(self).snapshots,
            final(self).rsnapshots == old(self).rsnapshots,
            final(self).scheduled_to_end == old(self).scheduled_to_end,
            final(self).referral_shares_to_end == old(self).referral_shares_to_end,
            *final(self) == (StakeableToken { critical_mass: final(self).critical_mass, ..*old(self) }),
    {
        if !crate::helper::not_future(start_day, today) && non_zero_address(referrer) {
            let cm = self.read_critical_mass(referrer)?;
            let total = saturating_sub(cm.total_amount, dai_equivalent);
            let day = self.determine_activation_day(referrer, today)?;
            self.critical_mass.set(*referrer, CriticalMass { total_amount: total, activation_day: day });
        }
        Ok(())
    }

    /// Adds referrer shares that end on a day; refused, with no change, on overflow.
    pub fn add_referrer_shares_to_end(&mut self, final_day: u64, shares: U256) -> (r: Result<(), StakeError>)
        ensures
            r is Ok <==> value_or_zero(old(self).referral_shares_to_end@, final_day) + shares@ <= u256_max(),
            r is Err ==> *final(self) == *old(self),
            r is Ok ==> final(self).referral_shares_to_end@.contains_key(final_day),
            r is Ok ==> crate::schedule::shares_scheduled(old(self).referral_shares_to_end@, final(self).referral_shares_to_end@, final_day, shares@),
            final(self).params == old(self).params,
            final(self).globals == old(self).globals,
            final(self).stakes == old(self).stakes,
            final(self).balances == old(self).balances,
            final(self).total_supply == old(self).total_supply,
            final(self).critical_mass == old(self).critical_mass,
    {
        let cur = read_amount(&self.referral_shares_to_end, &final_day);
        let v = plus(cur, shares)?;
        self.referral_shares_to_end.set(final_day, v);
        Ok(())
    }

    /// Takes referrer shares off what ends on a day, not below zero. While the
    /// day is not past, from the day's schedule; once past, from yesterday's
    /// referral snapshot.
    pub fn remove_referrer_shares_to_end(&mut self, final_day: u64, shares: U256, today: u64)
        ensures
            crate::schedule::removed_from_schedule(
                old(self).referral_shares_to_end@,
                final(self).referral_shares_to_end@,
                old(self).rsnapshots@,
                final(self).rsnapshots@,
                final_day,
                shares@,
                today,
            ),
            final(self).params == old(self).params,
            final(self).globals == old(self).globals,
            final(self).stakes == old(self).stakes,
            final(self).balances == old(self).balances,
            final(self).total_supply == old(self).total_supply,
            final(self).critical_mass == old(self).critical_mass,
            final(self).snapshots == old(self).snapshots,
            final(self).scheduled_to_end == old(self).scheduled_to_end,
            final(self).total_penalties == old(self).total_penalties,
            final(self).scrapes == old(self).scrapes,
            final(self).referrer_links == old(self).referrer_links,
            final(self).liquidity_stakes == old(self).liquidity_stakes,
            final(self).stake_count == old(self).stake_count,
            final(self).referral_count == old(self).referral_count,
            final(self).liquidity_stake_count == old(self).liquidity_stake_count,
            final(self).lsnapshots == old(self).lsnapshots,
            final(self).launch_time == old(self).launch_time,
            final(self).addresses == old(self).addresses,
            final(self).inflation_rate == old(self).inflation_rate,
            final(self).liquidity_rate == old(self).liquidity_rate,
            final(self).liquidity_guard_status == old(self).liquidity_guard_status,
            *final(self) == (StakeableToken { referral_shares_to_end: final(self).referral_shares_to_end, rsnapshots: final(self).rsnapshots, ..*old(self) }),
    {
        reveal(crate::schedule::removed_from_schedule);
        if final_day >= today {
            let cur = read_amount(&self.referral_shares_to_end, &final_day);
            self.referral_shares_to_end.set(final_day, saturating_sub(cur, shares));
        } else {
            let day = today - 1;
            let mut snap = read_snapshot(&self.rsnapshots, day);
            snap.scheduled_to_end = saturating_sub(snap.scheduled_to_end, shares);
            self.rsnapshots.set(day, snap);
        }
    }
}

} // verus!
