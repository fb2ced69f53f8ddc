use vstd::prelude::*;

use crate::key::Key;
use crate::u256::{u256_checked_add, u256_checked_div, u256_checked_mul, u256_checked_sub, u256_max, U256};

verus! {

/// Why an operation is refused; the contract reverts with it and keeps no change.
#[derive(Clone, Copy, Debug, PartialEq, Eq, Structural)]
pub enum StakeError {
    Overflow,
    Underflow,
    DivisionByZero,
    InvalidParameter,
    InvalidArgument,
    UnexpectedKeyVariant,
    StakeInactive,
    NotKeeper,
    NotLiquidityTransformer,
    LiquidityGuardDisabled,
    NoAccessRights,
    MissingRecord,
    InflationAlreadyAssigned,
    TransformerDefined,
    TransferFailed(u32),
}

/// The value of an arithmetic result: `None` when it failed.
pub open spec fn as_value(r: Result<U256, StakeError>) -> Option<nat> {
    match r {
        Ok(v) => Some(v@),
        Err(_) => None,
    }
}

/// Checked addition on values.
pub open spec fn opt_add(a: Option<nat>, b: Option<nat>) -> Option<nat> {
    match (a, b) {
        (Some(x), Some(y)) => if x + y <= u256_max() {
            Some(x + y)
        } else {
            None
        },
        _ => None,
    }
}

/// Checked subtraction on values.
pub open spec fn opt_sub(a: Option<nat>, b: Option<nat>) -> Option<nat> {
    match (a, b) {
        (Some(x), Some(y)) => if y <= x {
            Some((x - y) as nat)
        } else {
            None
        },
        _ => None,
    }
}

/// Checked multiplication on values.
pub open spec fn opt_mul(a: Option<nat>, b: Option<nat>) -> Option<nat> {
    match (a, b) {
        (Some(x), Some(y)) => if x * y <= u256_max() {
            Some(x * y)
        } else {
            None
        },
        _ => None,
    }
}

/// Checked floor division on values.
pub open spec fn opt_div(a: Option<nat>, b: Option<nat>) -> Option<nat> {
    match (a, b) {
        (Some(x), Some(y)) => if y != 0 {
            Some(x / y)
        } else {
            None
        },
        _ => None,
    }
}

/// The difference, or zero when it would go below zero.
pub open spec fn sat_sub(x: nat, y: nat) -> nat {
    if x > y {
        (x - y) as nat
    } else {
        0
    }
}

/// Checked addition.
pub fn plus(a: U256, b: U256) -> (r: Result<U256, StakeError>)
    ensures
        as_value(r) == opt_add(Some(a@), Some(b@)),
        r matches Err(e) ==> e == StakeError::Overflow,
{
    match u256_checked_add(a, b) {
        Some(v) => Ok(v),
        None => Err(StakeError::Overflow),
    }
}

/// Checked subtraction.
pub fn minus(a: U256, b: U256) -> (r: Result<U256, StakeError>)
    ensures
        as_value(r) == opt_sub(Some(a@), Some(b@)),
        r matches Err(e) ==> e == StakeError::Underflow,
{
    match u256_checked_sub(a, b) {
        Some(v) => Ok(v),
        None => Err(StakeError::Underflow),
    }
}

/// Checked multiplication.
pub fn times(a: U256, b: U256) -> (r: Result<U256, StakeError>)
    ensures
        as_value(r) == opt_mul(Some(a@), Some(b@)),
        r matches Err(e) ==> e == StakeError::Overflow,
{
    match u256_checked_mul(a, b) {
        Some(v) => Ok(v),
        None => Err(StakeError::Overflow),
    }
}

/// Checked floor division.
pub fn over(a: U256, b: U256) -> (r: Result<U256, StakeError>)
    ensures
        as_value(r) == opt_div(Some(a@), Some(b@)),
        r matches Err(e) ==> e == StakeError::DivisionByZero,
{
    match u256_checked_div(a, b) {
        Some(v) => Ok(v),
        None => Err(StakeError::DivisionByZero),
    }
}

/// The difference, or zero when `b` is not below `a`.
pub fn saturating_sub(a: U256, b: U256) -> (r: U256)
    ensures
        r@ == sat_sub(a@, b@),
{
    if a.gt(&b) {
        match u256_checked_sub(a, b) {
            Some(v) => v,
            None => U256::zero(),
        }
    } else {
        U256::zero()
    }
}

/// The protocol's constants, fixed when the contract is installed.
#[derive(Clone, Copy, Debug)]
pub struct ConstantParameters {
    pub yodas_per_wise: U256,
    pub precision_rate: U256,
    pub threshold_limit: U256,
    pub daily_bonus_a: U256,
    pub daily_bonus_b: U256,
    pub referrals_rate: U256,
    pub inflation_rate_max: U256,
    pub min_stake_amount: U256,
    pub min_lock_days: u64,
    pub max_lock_days: u64,
    pub max_bonus_days_a: u64,
    pub max_bonus_days_b: u64,
    pub min_referral_days: u64,
    pub formula_day: u64,
    pub seconds_in_day: u64,
}

/// A stake of tokens locked for a number of days.
#[derive(Clone, Copy, Debug)]
pub struct Stake {
    pub stakes_shares: U256,
    pub staked_amount: U256,
    pub reward_amount: U256,
    pub start_day: u64,
    pub lock_days: u64,
    pub final_day: u64,
    pub close_day: u64,
    pub scrape_day: U256,
    pub dai_equivalent: U256,
    pub referrer_shares: U256,
    pub referrer: Key,
    pub is_active: bool,
}

/// The link from a referrer to a stake it referred.
#[derive(Debug)]
pub struct ReferrerLink {
    pub staker: Key,
    pub stake_id: Vec<u32>,
    pub reward_amount: U256,
    pub processed_days: U256,
    pub is_active: bool,
}

/// Whether two referral links hold the same fields, the stake ids as
/// sequences.
pub open spec fn same_link(a: ReferrerLink, b: ReferrerLink) -> bool {
    &&& a.staker == b.staker
    &&& a.stake_id@ == b.stake_id@
    &&& a.reward_amount == b.reward_amount
    &&& a.processed_days == b.processed_days
    &&& a.is_active == b.is_active
}

/// Whether two books of referral links hold the same links under the same
/// keys.
pub open spec fn links_copied(a: Map<(Key, Seq<u32>), ReferrerLink>, b: Map<(Key, Seq<u32>), ReferrerLink>) -> bool {
    &&& a.dom() == b.dom()
    &&& forall|k: (Key, Seq<u32>)| #[trigger] a.contains_key(k) ==> same_link(a[k], b[k])
}

/// The amount referred by a referrer, and the day it passed the threshold.
#[derive(Clone, Copy, Debug)]
pub struct CriticalMass {
    pub total_amount: U256,
    pub activation_day: U256,
}

/// A stake of liquidity-pair tokens.
#[derive(Clone, Copy, Debug)]
pub struct LiquidityStake {
    pub staked_amount: U256,
    pub reward_amount: U256,
    pub start_day: u64,
    pub close_day: u64,
    pub is_active: bool,
}

/// The shares and inflation of one day; for liquidity snapshots
/// `scheduled_to_end` stays zero.
#[derive(Clone, Copy, Debug)]
pub struct Snapshot {
    pub total_shares: U256,
    pub inflation_amount: U256,
    pub scheduled_to_end: U256,
}

impl Snapshot {
    /// The snapshot of a day that was never taken: all zero.
    pub fn new() -> (r: Snapshot)
        ensures
            r.total_shares@ == 0,
            r.inflation_amount@ == 0,
            r.scheduled_to_end@ == 0,
    {
        Snapshot {
            total_shares: U256::zero(),
            inflation_amount: U256::zero(),
            scheduled_to_end: U256::zero(),
        }
    }
}

/// The contract-wide totals.
#[derive(Clone, Copy, Debug)]
pub struct Globals {
    pub total_staked: U256,
    pub total_shares: U256,
    pub share_price: U256,
    pub referral_shares: U256,
    pub liquidity_shares: U256,
    pub current_stakeable_day: U256,
}

/// A field of the globals, by name.
#[derive(Clone, Copy, Debug, PartialEq, Eq, Structural)]
pub enum GlobalField {
    TotalStaked,
    TotalShares,
    SharePrice,
    ReferralShares,
    LiquidityShares,
    CurrentStakeableDay,
}

} // verus!
