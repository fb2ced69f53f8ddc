use vstd::prelude::*;

use crate::contract::{read_amount, value_or_zero, StakeableToken};
use crate::dict::Dict;
use crate::helper::{
    calculation_day, not_past, spec_calculation_day, spec_starting_day, stake_not_started,
    spec_stake_not_started, starting_day,
};
use crate::key::Key;
use crate::shares::{get_new_share_price, spec_new_share_price};
use crate::snapshot::read_snapshot;
use crate::types::{
    as_value, opt_add, opt_div, opt_mul, over, plus, sat_sub, saturating_sub, times, Snapshot,
    Stake, StakeError,
};
use crate::u256::{u256_max, U256};

verus! {

/// The inflation of a day's snapshot, zero when none was taken.
pub open spec fn inflation_of(snaps: Map<u64, Snapshot>, day: nat) -> nat {
    if day <= u64::MAX && snaps.contains_key(day as u64) {
        snaps[day as u64].inflation_amount@
    } else {
        0
    }
}

/// The reward of `shares` over the days `start` to `end` (excluded): each
/// day the shares times the precision rate over that day's inflation.
pub open spec fn spec_loop_reward(shares: nat, precision: nat, snaps: Map<u64, Snapshot>, start: nat, end: nat) -> Option<nat>
    decreases end,
{
    if end <= start {
        Some(0)
    } else {
        opt_add(
            spec_loop_reward(shares, precision, snaps, start, (end - 1) as nat),
            opt_div(opt_mul(Some(shares), Some(precision)), Some(inflation_of(snaps, (end - 1) as nat))),
        )
    }
}

/// The reward of a stake up to its calculation day.
pub open spec fn spec_reward_amount(t: StakeableToken, stake: Stake) -> Option<nat> {
    let start = spec_starting_day(stake);
    let end = spec_calculation_day(stake, t.globals.current_stakeable_day@);
    if start <= u64::MAX && end <= u64::MAX {
        spec_loop_reward(stake.stakes_shares@, t.params.precision_rate@, t.snapshots@, start, end)
    } else {
        None
    }
}

/// The reward a stake shows: for an active stake, nothing before it starts and
/// its reward so far after; for a closed one, the reward it was paid.
pub open spec fn spec_check_reward_amount(t: StakeableToken, stake: Stake, today: u64) -> Option<nat> {
    if stake.is_active {
        if spec_stake_not_started(stake, today) {
            Some(0)
        } else {
            spec_reward_amount(t, stake)
        }
    } else {
        Some(stake.reward_amount@)
    }
}

/// The share price after a stake's update on `today`: past the formula day,
/// the price the stake implies when it is higher, capped at 10% above the
/// current price; on the formula day itself, 110 * 10^15.
pub open spec fn spec_share_price_after(
    t: StakeableToken,
    staked: nat,
    reward: nat,
    referrer: Key,
    lock: nat,
    stake_shares: nat,
    today: u64,
) -> Option<nat> {
    let price = t.globals.share_price@;
    if stake_shares > 0 && today > t.params.formula_day {
        match (spec_new_share_price(t.params, staked, reward, stake_shares, lock, referrer), opt_mul(Some(price), Some(110))) {
            (Some(np), Some(p110)) => if np > price {
                if np >= p110 / 100 {
                    Some(p110 / 100)
                } else {
                    Some(np)
                }
            } else {
                Some(price)
            },
            (Some(np), None) => if np > price { None } else { Some(price) },
            _ => None,
        }
    } else if today == t.params.formula_day {
        Some(110_000_000_000_000_000)
    } else {
        Some(price)
    }
}

/// The reward of `shares` over the days `start` to `end`, excluded, by the
/// inflation of the snapshots in `snaps`.
pub fn loop_reward_over(snaps: &Dict<u64, Snapshot>, precision: U256, shares: U256, start: U256, end: U256) -> (r: Result<U256, StakeError>)
    ensures
        as_value(r) == (if start@ <= u64::MAX && end@ <= u64::MAX {
            spec_loop_reward(shares@, precision@, snaps@, start@, end@)
        } else {
            None
        }),
{
    if !start.fits_u64() || !end.fits_u64() {
        return Err(StakeError::Overflow);
    }
    let s = start.as_u64();
    let e = end.as_u64();
    let mut reward = U256::zero();
    let mut day = s;
    let scaled = times(shares, precision);
    while day < e
        invariant
            s <= day,
            day <= e || day == s,
            s == start@,
            e == end@,
            as_value(scaled) == opt_mul(Some(shares@), Some(precision@)),
            spec_loop_reward(shares@, precision@, snaps@, s as nat, day as nat) == Some(reward@),
        decreases e - day,
    {
        let snap = read_snapshot(snaps, day);
        assert(snap.inflation_amount@ == inflation_of(snaps@, day as nat));
        let sc = match scaled {
            Ok(v) => v,
            Err(e) => {
                proof {
                    assert(spec_loop_reward(shares@, precision@, snaps@, s as nat, (day + 1) as nat) is None);
                    lemma_loop_fails_onward_from(shares@, precision@, snaps@, s as nat, (day + 1) as nat, end@);
                }
                return Err(e);
            },
        };
        let res = match over(sc, snap.inflation_amount) {
            Ok(v) => v,
            Err(e) => {
                proof {
                    assert(spec_loop_reward(shares@, precision@, snaps@, s as nat, (day + 1) as nat) is None);
                    lemma_loop_fails_onward_from(shares@, precision@, snaps@, s as nat, (day + 1) as nat, end@);
                }
                return Err(e);
            },
        };
        reward = match plus(reward, res) {
            Ok(v) => v,
            Err(e) => {
                proof {
                    assert(spec_loop_reward(shares@, precision@, snaps@, s as nat, (day + 1) as nat) is None);
                    lemma_loop_fails_onward_from(shares@, precision@, snaps@, s as nat, (day + 1) as nat, end@);
                }
                return Err(e);
            },
        };
        day = day + 1;
    }
    proof {
        if e <= s {
            assert(spec_loop_reward(shares@, precision@, snaps@, s as nat, e as nat) == Some(0nat));
        }
    }
    Ok(reward)
}

impl StakeableToken {
    /// The reward of `shares` over the days `start` to `end`, excluded.
    pub fn loop_reward_amount(&self, shares: U256, start: U256, end: U256) -> (r: Result<U256, StakeError>)
        ensures
            as_value(r) == (if start@ <= u64::MAX && end@ <= u64::MAX {
                spec_loop_reward(shares@, self.params.precision_rate@, self.snapshots@, start@, end@)
            } else {
                None
            }),
    {
        loop_reward_over(&self.snapshots, self.params.precision_rate, shares, start, end)
    }

    /// The reward of a stake up to its calculation day.
    pub fn calculate_reward_amount(&self, stake: &Stake) -> (r: Result<U256, StakeError>)
        ensures
            as_value(r) == spec_reward_amount(*self, *stake),
    {
        let start = starting_day(stake);
        let end = calculation_day(stake, self.globals.current_stakeable_day);
        self.loop_reward_amount(stake.stakes_shares, start, end)
    }

    /// The reward a stake has earned so far: nothing before it starts.
    pub fn detect_reward(&self, stake: &Stake, today: u64) -> (r: Result<U256, StakeError>)
        ensures
            as_value(r) == (if spec_stake_not_started(*stake, today) {
                Some(0nat)
            } else {
                spec_reward_amount(*self, *stake)
            }),
    {
        if stake_not_started(stake, today) {
            Ok(U256::zero())
        } else {
            self.calculate_reward_amount(stake)
        }
    }

    /// The reward a stake shows on `today`.
    pub fn check_reward_amount(&self, stake: &Stake, today: u64) -> (r: Result<U256, StakeError>)
        ensures
            as_value(r) == spec_check_reward_amount(*self, *stake, today),
    {
        if stake.is_active {
            self.detect_reward(stake, today)
        } else {
            Ok(stake.reward_amount)
        }
    }

    /// The share price after a stake's update on `today`.
    pub fn share_price_after(
        &self,
        staked: U256,
        reward: U256,
        referrer: &Key,
        lock: U256,
        stake_shares: U256,
        today: u64,
    ) -> (r: Result<U256, StakeError>)
        ensures
            as_value(r) == spec_share_price_after(*self, staked@, reward@, *referrer, lock@, stake_shares@, today),
    {
        let price = self.globals.share_price;
        if !stake_shares.is_zero() && today > self.params.formula_day {
            let np = get_new_share_price(&self.params, staked, reward, stake_shares, lock, referrer)?;
            if np.gt(&price) {
                let p110 = times(price, U256::from_u64(110))?;
                let cap = over(p110, U256::from_u64(100))?;
                if np.ge(&cap) {
                    Ok(cap)
                } else {
                    Ok(np)
                }
            } else {
                Ok(price)
            }
        } else if today == self.params.formula_day {
            Ok(U256::from_u64(110_000_000_000_000_000))
        } else {
            Ok(price)
        }
    }
}

/// Once a reward sum fails, every longer sum fails.
pub proof fn lemma_loop_fails_onward_from(shares: nat, precision: nat, snaps: Map<u64, Snapshot>, start: nat, k: nat, m: nat)
    requires
        k <= m,
    ensures
        spec_loop_reward(shares, precision, snaps, start, k) is None ==> spec_loop_reward(shares, precision, snaps, start, m) is None,
    decreases m - k,
{
    if k < m {
        lemma_loop_fails_onward_from(shares, precision, snaps, start, k, (m - 1) as nat);
    }
}

/// Law: a share price update past the formula day never lowers the price and
/// raises it by at most a tenth.
pub proof fn law_share_price_bounded(
    t: StakeableToken,
    staked: nat,
    reward: nat,
    referrer: Key,
    lock: nat,
    stake_shares: nat,
    today: u64,
)
    requires
        today > t.params.formula_day,
        spec_share_price_after(t, staked, reward, referrer, lock, stake_shares, today) is Some,
    ensures
        ({
            let np = spec_share_price_after(t, staked, reward, referrer, lock, stake_shares, today).unwrap();
            &&& np >= t.globals.share_price@
            &&& np <= t.globals.share_price@ * 110 / 100
        }),
{
    let price = t.globals.share_price@;
    assert(price <= price * 110 / 100) by (nonlinear_arith);
}

} // verus!
