use vstd::prelude::*;

use crate::helper::{
    days_left, get_lock_days, is_mature_stake, spec_days_left, spec_is_mature_stake,
    spec_lock_days, spec_stake_not_started, stake_not_started,
};
use crate::key::{non_zero_address, spec_zero_address, Key};
use crate::types::{
    as_value, minus, opt_add, opt_div, opt_mul, opt_sub, over, plus, times, ConstantParameters,
    Stake, StakeError,
};
use crate::u256::U256;

verus! {

/// 10^18, the divisor of the daily bonus rates.
pub open spec fn bonus_divisor() -> nat {
    1_000_000_000_000_000_000
}

/// 10^10, the divisor of a bonus when it scales a base amount.
pub open spec fn shares_divisor() -> nat {
    10_000_000_000
}

/// The extra bonus of a stake without a referrer.
pub open spec fn extra_bonus_plain() -> nat {
    10_000_000_000
}

/// The extra bonus of a stake with a referrer.
pub open spec fn extra_bonus_referred() -> nat {
    11_000_000_000
}

/// The extra bonus of referrer shares.
pub open spec fn extra_bonus_referrer() -> nat {
    1_000_000_000_000_000_000
}

/// The bonus of `lock` days at `daily`, counting at most `max_days` days.
pub open spec fn spec_regular_bonus(lock: nat, daily: nat, max_days: nat) -> Option<nat> {
    opt_div(
        opt_mul(Some(if lock > max_days { max_days } else { lock }), Some(daily)),
        Some(bonus_divisor()),
    )
}

/// The bonus of a lock period: the first-tier bonus, the second term, and the
/// extra bonus.
pub open spec fn spec_get_bonus(p: ConstantParameters, lock: nat, extra: nat) -> Option<nat> {
    let second = if lock > p.max_bonus_days_a {
        spec_regular_bonus((lock - p.max_bonus_days_a) as nat, 0, 0)
    } else {
        spec_regular_bonus(0, p.daily_bonus_b@, p.max_bonus_days_b as nat)
    };
    opt_add(
        opt_add(spec_regular_bonus(lock, p.daily_bonus_a@, p.max_bonus_days_a as nat), second),
        Some(extra),
    )
}

/// The staked amount scaled by the precision rate, in units of the share price.
pub open spec fn spec_base_amount(p: ConstantParameters, staked: nat, share_price: nat) -> Option<
    nat,
> {
    opt_div(opt_mul(Some(staked), Some(p.precision_rate@)), Some(share_price))
}

/// The shares bought by a stake: its base amount times its bonus.
pub open spec fn spec_shares_amount(
    p: ConstantParameters,
    staked: nat,
    lock: nat,
    share_price: nat,
    extra: nat,
) -> Option<nat> {
    opt_div(
        opt_mul(spec_base_amount(p, staked, share_price), spec_get_bonus(p, lock, extra)),
        Some(shares_divisor()),
    )
}

/// The extra bonus a referrer gives a stake.
pub open spec fn spec_stake_extra(referrer: Key) -> nat {
    if referrer != spec_zero_address() {
        extra_bonus_referred()
    } else {
        extra_bonus_plain()
    }
}

/// The shares of a stake.
pub open spec fn spec_stakes_shares(
    p: ConstantParameters,
    staked: nat,
    lock: nat,
    referrer: Key,
    share_price: nat,
) -> Option<nat> {
    spec_shares_amount(p, staked, lock, share_price, spec_stake_extra(referrer))
}

/// The shares a referrer earns on a stake: none below the critical mass or
/// for stakes shorter than the referral minimum.
pub open spec fn spec_referrer_shares(
    p: ConstantParameters,
    staked: nat,
    lock: nat,
    not_critical_mass: bool,
    share_price: nat,
) -> Option<nat> {
    if not_critical_mass || lock < p.min_referral_days {
        Some(0)
    } else {
        spec_shares_amount(p, staked, lock, share_price, extra_bonus_referrer())
    }
}

/// The share price a finished stake implies.
pub open spec fn spec_new_share_price(
    p: ConstantParameters,
    staked: nat,
    reward: nat,
    stake_shares: nat,
    lock: nat,
    referrer: Key,
) -> Option<nat> {
    opt_div(
        opt_mul(
            opt_mul(
                opt_add(Some(staked), Some(reward)),
                spec_get_bonus(p, lock, spec_stake_extra(referrer)),
            ),
            Some(100_000_000),
        ),
        Some(stake_shares),
    )
}

/// The penalty of ending a started, immature stake on `today`.
pub open spec fn spec_get_penalties(stake: Stake, today: u64) -> Option<nat> {
    opt_div(
        opt_mul(
            Some(stake.staked_amount@),
            opt_add(
                Some(100),
                opt_div(
                    opt_mul(Some(800), opt_sub(Some(spec_days_left(stake, today)), Some(1))),
                    Some(spec_lock_days(stake)),
                ),
            ),
        ),
        Some(1000),
    )
}

/// The penalty of ending a stake on `today`: none before it starts or once mature.
pub open spec fn spec_penalty_amount(stake: Stake, today: u64) -> Option<nat> {
    if spec_stake_not_started(stake, today) || spec_is_mature_stake(stake, today) {
        Some(0)
    } else {
        spec_get_penalties(stake, today)
    }
}

/// The bonus of `lock` days at `daily`, counting at most `max_days` days.
pub fn regular_bonus(lock: U256, daily: U256, max_days: U256) -> (r: Result<U256, StakeError>)
    ensures
        as_value(r) == spec_regular_bonus(lock@, daily@, max_days@),
{
    let days = if lock.gt(&max_days) {
        max_days
    } else {
        lock
    };
    let product = times(days, daily)?;
    over(product, U256::from_u64(1_000_000_000_000_000_000))
}

/// The bonus of a lock period with an extra bonus.
pub fn get_bonus(p: &ConstantParameters, lock: U256, extra: U256) -> (r: Result<U256, StakeError>)
    ensures
        as_value(r) == spec_get_bonus(*p, lock@, extra@),
{
    let max_a = U256::from_u64(p.max_bonus_days_a);
    let first = regular_bonus(lock, p.daily_bonus_a, max_a);
    let second = if lock.gt(&max_a) {
        let rest = minus(lock, max_a)?;
        regular_bonus(rest, U256::zero(), U256::zero())
    } else {
        regular_bonus(U256::zero(), p.daily_bonus_b, U256::from_u64(p.max_bonus_days_b))
    };
    let first = first?;
    let second = second?;
    let both = plus(first, second)?;
    plus(both, extra)
}

/// The staked amount in units of the share price.
pub fn base_amount(p: &ConstantParameters, staked: U256, share_price: U256) -> (r: Result<
    U256,
    StakeError,
>)
    ensures
        as_value(r) == spec_base_amount(*p, staked@, share_price@),
{
    let scaled = times(staked, p.precision_rate)?;
    over(scaled, share_price)
}

/// The shares bought by a stake.
pub fn shares_amount(
    p: &ConstantParameters,
    staked: U256,
    lock: U256,
    share_price: U256,
    extra: U256,
) -> (r: Result<U256, StakeError>)
    ensures
        as_value(r) == spec_shares_amount(*p, staked@, lock@, share_price@, extra@),
{
    let bonus = get_bonus(p, lock, extra);
    let base = base_amount(p, staked, share_price);
    let bonus = bonus?;
    let base = base?;
    let product = times(base, bonus)?;
    over(product, U256::from_u64(10_000_000_000))
}

/// The extra bonus a referrer gives a stake.
pub fn stake_extra(referrer: &Key) -> (r: U256)
    ensures
        r@ == spec_stake_extra(*referrer),
{
    if non_zero_address(referrer) {
        U256::from_u64(11_000_000_000)
    } else {
        U256::from_u64(10_000_000_000)
    }
}

/// The shares of a stake.
pub fn stakes_shares(
    p: &ConstantParameters,
    staked: U256,
    lock: U256,
    referrer: &Key,
    share_price: U256,
) -> (r: Result<U256, StakeError>)
    ensures
        as_value(r) == spec_stakes_shares(*p, staked@, lock@, *referrer, share_price@),
{
    shares_amount(p, staked, lock, share_price, stake_extra(referrer))
}

/// The shares a referrer earns on a stake.
pub fn referrer_shares(
    p: &ConstantParameters,
    staked: U256,
    lock: U256,
    not_critical_mass: bool,
    share_price: U256,
) -> (r: Result<U256, StakeError>)
    ensures
        as_value(r) == spec_referrer_shares(*p, staked@, lock@, not_critical_mass, share_price@),
{
    if not_critical_mass || lock.lt(&U256::from_u64(p.min_referral_days)) {
        Ok(U256::zero())
    } else {
        shares_amount(p, staked, lock, share_price, U256::from_u64(1_000_000_000_000_000_000))
    }
}

/// The share price a finished stake implies.
pub fn get_new_share_price(
    p: &ConstantParameters,
    staked: U256,
    reward: U256,
    stake_shares: U256,
    lock: U256,
    referrer: &Key,
) -> (r: Result<U256, StakeError>)
    ensures
        as_value(r) == spec_new_share_price(*p, staked@, reward@, stake_shares@, lock@, *referrer),
{
    let bonus = get_bonus(p, lock, stake_extra(referrer));
    let total = plus(staked, reward)?;
    let bonus = bonus?;
    let a = times(total, bonus)?;
    let b = times(a, U256::from_u64(100_000_000))?;
    over(b, stake_shares)
}

/// The penalty of ending a started, immature stake on `today`.
pub fn get_penalties(stake: &Stake, today: u64) -> (r: Result<U256, StakeError>)
    ensures
        as_value(r) == spec_get_penalties(*stake, today),
{
    let left = days_left(stake, today);
    let locked = get_lock_days(stake);
    let d = minus(left, U256::from_u64(1))?;
    let e = times(U256::from_u64(800), d)?;
    let f = over(e, locked)?;
    let g = plus(U256::from_u64(100), f)?;
    let h = times(stake.staked_amount, g)?;
    over(h, U256::from_u64(1000))
}

/// The penalty of ending a stake on `today`.
pub fn calculate_penalty_amount(stake: &Stake, today: u64) -> (r: Result<U256, StakeError>)
    ensures
        as_value(r) == spec_penalty_amount(*stake, today),
{
    if stake_not_started(stake, today) || is_mature_stake(stake, today) {
        Ok(U256::zero())
    } else {
        get_penalties(stake, today)
    }
}

} // verus!
