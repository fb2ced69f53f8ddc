use vstd::prelude::*;

use crate::dict::{Dict, RecordKey};
use crate::key::{Key, Purse};
use crate::types::{
    ConstantParameters, CriticalMass, Globals, LiquidityStake, ReferrerLink, Snapshot, Stake,
};
use crate::u256::U256;

verus! {

/// The addresses the stakeable token works with.
#[derive(Clone, Copy, Debug)]
pub struct Addresses {
    pub self_hash: Key,
    pub router: Key,
    pub factory: Key,
    pub pair: Key,
    pub liquidity_guard: Key,
    pub scspr: Key,
    pub wcspr: Key,
}

/// The whole state of the stakeable token contract.
pub struct StakeableToken {
    pub params: ConstantParameters,
    pub addresses: Addresses,
    pub globals: Globals,
    pub launch_time: U256,
    pub inflation_rate: U256,
    pub liquidity_rate: U256,
    pub liquidity_guard_status: bool,
    pub lt_balance: U256,
    pub stable_usd_equivalent: Option<Key>,
    pub uniswap_pair: Option<Key>,
    pub transformer_gate_keeper: Key,
    pub liquidity_transformer: Option<Key>,
    pub liquidity_transformer_purse: Option<Purse>,
    pub stake_count: Dict<Key, U256>,
    pub referral_count: Dict<Key, U256>,
    pub liquidity_stake_count: Dict<Key, U256>,
    pub scheduled_to_end: Dict<u64, U256>,
    pub referral_shares_to_end: Dict<u64, U256>,
    pub total_penalties: Dict<u64, U256>,
    pub critical_mass: Dict<Key, CriticalMass>,
    pub scrapes: Dict<RecordKey, U256>,
    pub stakes: Dict<RecordKey, Stake>,
    pub referrer_links: Dict<RecordKey, ReferrerLink>,
    pub liquidity_stakes: Dict<RecordKey, LiquidityStake>,
    pub snapshots: Dict<u64, Snapshot>,
    pub rsnapshots: Dict<u64, Snapshot>,
    pub lsnapshots: Dict<u64, Snapshot>,
    pub balances: Dict<Key, U256>,
    pub total_supply: U256,
}

/// A value stored under a key, or zero.
pub open spec fn value_or_zero<K>(m: Map<K, U256>, k: K) -> nat {
    if m.contains_key(k) {
        m[k]@
    } else {
        0
    }
}

/// Reads a stored amount, zero when none was stored.
pub fn read_amount<K: crate::dict::DictKey>(d: &Dict<K, U256>, k: &K) -> (r: U256)
    ensures
        r@ == value_or_zero(d@, k@),
{
    match d.get(k) {
        Some(v) => *v,
        None => U256::zero(),
    }
}

impl StakeableToken {
    /// Installs the contract: the addresses it works with, its launch time,
    /// a 3% inflation rate and a 0.006% liquidity rate, empty books, and the
    /// installer as the keeper.
    pub fn new(
        params: ConstantParameters,
        addresses: Addresses,
        launch_time: U256,
        installer: Key,
    ) -> (r: StakeableToken)
        ensures
            r.params == params,
            r.addresses == addresses,
            r.launch_time == launch_time,
            r.inflation_rate@ == 103000,
            r.liquidity_rate@ == 100006,
            !r.liquidity_guard_status,
            r.globals.total_staked@ == 0,
            r.globals.total_shares@ == 0,
            r.globals.share_price@ == 100_000_000_000_000_000,
            r.globals.referral_shares@ == 0,
            r.globals.liquidity_shares@ == 0,
            r.globals.current_stakeable_day@ == 0,
            r.transformer_gate_keeper == installer,
            r.uniswap_pair is None,
            r.liquidity_transformer is None,
            r.liquidity_transformer_purse is None,
            r.stable_usd_equivalent is None,
            r.lt_balance@ == 0,
            r.total_supply@ == 0,
            r.stakes@ == Map::<(Key, Seq<u32>), Stake>::empty(),
            r.balances@ == Map::<Key, U256>::empty(),
            r.snapshots@ == Map::<u64, Snapshot>::empty(),
            r.rsnapshots@ == Map::<u64, Snapshot>::empty(),
            r.lsnapshots@ == Map::<u64, Snapshot>::empty(),
            r.stake_count@ == Map::<Key, U256>::empty(),
            r.referral_count@ == Map::<Key, U256>::empty(),
            r.liquidity_stake_count@ == Map::<Key, U256>::empty(),
            r.scheduled_to_end@ == Map::<u64, U256>::empty(),
            r.referral_shares_to_end@ == Map::<u64, U256>::empty(),
            r.total_penalties@ == Map::<u64, U256>::empty(),
            r.critical_mass@ == Map::<Key, CriticalMass>::empty(),
            r.scrapes@ == Map::<(Key, Seq<u32>), U256>::empty(),
            r.referrer_links@ == Map::<(Key, Seq<u32>), ReferrerLink>::empty(),
            r.liquidity_stakes@ == Map::<(Key, Seq<u32>), LiquidityStake>::empty(),
    {
        StakeableToken {
            params,
            addresses,
            globals: Globals::init(),
            launch_time,
            inflation_rate: U256::from_u64(103000),
            liquidity_rate: U256::from_u64(100006),
            liquidity_guard_status: false,
            lt_balance: U256::zero(),
            stable_usd_equivalent: None,
            uniswap_pair: None,
            transformer_gate_keeper: installer,
            liquidity_transformer: None,
            liquidity_transformer_purse: None,
            stake_count: Dict::new(),
            referral_count: Dict::new(),
            liquidity_stake_count: Dict::new(),
            scheduled_to_end: Dict::new(),
            referral_shares_to_end: Dict::new(),
            total_penalties: Dict::new(),
            critical_mass: Dict::new(),
            scrapes: Dict::new(),
            stakes: Dict::new(),
            referrer_links: Dict::new(),
            liquidity_stakes: Dict::new(),
            snapshots: Dict::new(),
            rsnapshots: Dict::new(),
            lsnapshots: Dict::new(),
            balances: Dict::new(),
            total_supply: U256::zero(),
        }
    }
}

} // verus!
