use vstd::prelude::*;

use crate::key::Key;
use crate::types::Stake;
use crate::u256::U256;

verus! {

/// The days from `start` to `end`, zero when `start` is later.
pub open spec fn spec_days_diff(start: nat, end: nat) -> nat {
    if start > end {
        0
    } else {
        (end - start) as nat
    }
}

/// Whether the stake has reached its final day: by its close day once closed,
/// else by `today`.
pub open spec fn spec_is_mature_stake(stake: Stake, today: u64) -> bool {
    if stake.close_day > 0 {
        stake.final_day <= stake.close_day
    } else {
        stake.final_day <= today
    }
}

/// Whether the stake's first day is still ahead: of its close day once closed,
/// else of `today`.
pub open spec fn spec_stake_not_started(stake: Stake, today: u64) -> bool {
    if stake.close_day > 0 {
        stake.start_day > stake.close_day
    } else {
        stake.start_day > today
    }
}

/// Whether the stake is over: closed or mature.
pub open spec fn spec_stake_ended(stake: Stake, today: u64) -> bool {
    !stake.is_active || spec_is_mature_stake(stake, today)
}

/// The days until the stake's final day, counted from its close day once
/// closed, else from `today`.
pub open spec fn spec_days_left(stake: Stake, today: u64) -> nat {
    if !stake.is_active {
        spec_days_diff(stake.close_day as nat, stake.final_day as nat)
    } else {
        spec_days_diff(today as nat, stake.final_day as nat)
    }
}

/// The last day rewards are counted for: the stake's final day, or the day
/// the snapshots have reached if that is earlier.
pub open spec fn spec_calculation_day(stake: Stake, snapshot_day: nat) -> nat {
    if stake.final_day > snapshot_day {
        snapshot_day
    } else {
        stake.final_day as nat
    }
}

/// The first day not yet paid out: the start day, or the last scrape day.
pub open spec fn spec_starting_day(stake: Stake) -> nat {
    if stake.scrape_day@ == 0 {
        stake.start_day as nat
    } else {
        stake.scrape_day@
    }
}

/// The lock period that penalties are spread over: one day less than locked,
/// at least one.
pub open spec fn spec_lock_days(stake: Stake) -> nat {
    if stake.lock_days > 1 {
        (stake.lock_days - 1) as nat
    } else {
        1
    }
}

/// The days from `start` to `end`, zero when `start` is later.
pub fn days_diff(start: U256, end: U256) -> (r: U256)
    ensures
        r@ == spec_days_diff(start@, end@),
{
    crate::types::saturating_sub(end, start)
}

/// Whether the stake is mature on `today`.
pub fn is_mature_stake(stake: &Stake, today: u64) -> (r: bool)
    ensures
        r == spec_is_mature_stake(*stake, today),
{
    if stake.close_day > 0 {
        stake.final_day <= stake.close_day
    } else {
        stake.final_day <= today
    }
}

/// Whether the stake has not started on `today`.
pub fn stake_not_started(stake: &Stake, today: u64) -> (r: bool)
    ensures
        r == spec_stake_not_started(*stake, today),
{
    if stake.close_day > 0 {
        stake.start_day > stake.close_day
    } else {
        stake.start_day > today
    }
}

/// Whether the stake has ended on `today`.
pub fn stake_ended(stake: &Stake, today: u64) -> (r: bool)
    ensures
        r == spec_stake_ended(*stake, today),
{
    !stake.is_active || is_mature_stake(stake, today)
}

/// The days the stake still has to run on `today`.
pub fn days_left(stake: &Stake, today: u64) -> (r: U256)
    ensures
        r@ == spec_days_left(*stake, today),
{
    if !stake.is_active {
        days_diff(U256::from_u64(stake.close_day), U256::from_u64(stake.final_day))
    } else {
        days_diff(U256::from_u64(today), U256::from_u64(stake.final_day))
    }
}

/// The last day rewards are counted for, given the day the snapshots reached.
pub fn calculation_day(stake: &Stake, snapshot_day: U256) -> (r: U256)
    ensures
        r@ == spec_calculation_day(*stake, snapshot_day@),
{
    let fin = U256::from_u64(stake.final_day);
    if fin.gt(&snapshot_day) {
        snapshot_day
    } else {
        fin
    }
}

/// The first day not yet paid out.
pub fn starting_day(stake: &Stake) -> (r: U256)
    ensures
        r@ == spec_starting_day(*stake),
{
    if stake.scrape_day.is_zero() {
        U256::from_u64(stake.start_day)
    } else {
        stake.scrape_day
    }
}

/// Whether `day` is not after `today`.
pub fn not_future(day: U256, today: u64) -> (r: bool)
    ensures
        r == (day@ <= today),
{
    day.le(&U256::from_u64(today))
}

/// Whether `day` is not before `today`.
pub fn not_past(day: U256, today: u64) -> (r: bool)
    ensures
        r == (day@ >= today),
{
    day.ge(&U256::from_u64(today))
}

/// The lock period that penalties are spread over.
pub fn get_lock_days(stake: &Stake) -> (r: U256)
    ensures
        r@ == spec_lock_days(*stake),
{
    if stake.lock_days > 1 {
        U256::from_u64(stake.lock_days - 1)
    } else {
        U256::from_u64(1)
    }
}

/// The swap path from a token through the synthetic token to the stakeable token.
pub fn prepare_path(token_address: Key, synthetic_address: Key, wise_address: Key) -> (r: Vec<Key>)
    ensures
        r@ == seq![token_address, synthetic_address, wise_address],
{
    let mut path: Vec<Key> = Vec::new();
    path.push(token_address);
    path.push(synthetic_address);
    path.push(wise_address);
    assert(path@ =~= seq![token_address, synthetic_address, wise_address]);
    path
}

} // verus!
