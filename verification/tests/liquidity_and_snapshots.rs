use stakeable_token::contract::{Addresses, StakeableToken};
use stakeable_token::guard::LiquidityGuard;
use stakeable_token::key::Key;
use stakeable_token::snapshot::PairReserves;
use stakeable_token::types::{ConstantParameters, GlobalField, LiquidityStake, Snapshot, StakeError};
use stakeable_token::u256::U256;

fn u(x: u64) -> U256 {
    U256::from_u64(x)
}

fn params() -> ConstantParameters {
    ConstantParameters {
        yodas_per_wise: u(1_000_000_000),
        precision_rate: u(1_000_000_000_000_000_000),
        threshold_limit: u(10_000_000_000_000),
        daily_bonus_a: u(13_698_630_136_986_302),
        daily_bonus_b: u(370_233_246_945_575),
        referrals_rate: u(366_816_973_500),
        inflation_rate_max: u(103_000),
        min_stake_amount: u(1_000_000),
        min_lock_days: 1,
        max_lock_days: 7300,
        max_bonus_days_a: 1825,
        max_bonus_days_b: 3650,
        min_referral_days: 365,
        formula_day: 365,
        seconds_in_day: 86400,
    }
}

fn account(b: u8) -> Key {
    Key::account([b; 32])
}

fn contract(b: u8) -> Key {
    Key::hash([b; 32])
}

fn deploy() -> StakeableToken {
    let addresses = Addresses {
        self_hash: contract(1),
        router: contract(2),
        factory: contract(3),
        pair: contract(4),
        liquidity_guard: contract(5),
        scspr: contract(6),
        wcspr: contract(7),
    };
    StakeableToken::new(params(), addresses, u(0), account(9))
}

fn day_ms(day: u64) -> u64 {
    day * 86_400_000 + 1_000
}

const CURRENT_WISE_DAY: u64 = 5;

/// A guard that lists an inflation for the liquidity rates a few days of
/// adjustments reach from 100000.
fn guard() -> LiquidityGuard {
    let mut g = LiquidityGuard::new();
    let mut rates: Vec<u64> = Vec::new();
    let mut values: Vec<U256> = Vec::new();
    for k in 0..20u64 {
        rates.push(100_000 + 6 * k);
        values.push(u(60_835_153_328));
    }
    g.assign_inflation(&rates, &values).unwrap();
    g
}

fn empty_pair(token: &StakeableToken) -> PairReserves {
    PairReserves { reserve_a: 0, reserve_b: 0, token1: token.addresses.scspr }
}

/// The state the snapshot tests start from: current day one, some stake,
/// the guard off and a liquidity rate of 100000.
fn snapshot_setup() -> StakeableToken {
    let mut token = deploy();
    token.liquidity_guard_status = false;
    token.globals.set_globals(GlobalField::CurrentStakeableDay, u(1));
    token.globals.set_globals(GlobalField::TotalStaked, u(608_351_533));
    token.liquidity_rate = u(100_000);
    token
}

#[test]
fn testmanual_daily_snapshot_point() {
    let mut token = snapshot_setup();
    let pair = empty_pair(&token);
    let update_day: u64 = 3;
    let globals_current_wise_day = 1u64;
    token.manual_daily_snapshot_point(update_day, day_ms(CURRENT_WISE_DAY), &pair, &guard()).unwrap();
    assert_eq!(token.globals.current_stakeable_day, u(globals_current_wise_day + update_day - 1));
    assert!(token.snapshots.contains(&1));
    assert!(token.snapshots.contains(&2));
    assert!(!token.snapshots.contains(&3));
}

#[test]
fn test_liquidity_guard_trigger() {
    let mut token = deploy();
    token.liquidity_guard_status = false;
    let pair = empty_pair(&token);
    token.liquidity_guard_trigger(&pair);
    assert_eq!(token.liquidity_guard_status, true);
}

#[test]
fn test_manual_daily_snapshot() {
    let mut token = snapshot_setup();
    let pair = empty_pair(&token);
    token.manual_daily_snapshot(day_ms(CURRENT_WISE_DAY), &pair, &guard()).unwrap();
    assert_eq!(token.globals.current_stakeable_day, u(1 + (CURRENT_WISE_DAY - 1)));
    // with the guard on, six move from inflation to liquidity each day
    assert_eq!(token.liquidity_rate, u(100_000 + 4 * 6));
    assert_eq!(token.inflation_rate, u(103_000 - 4 * 6));
}

#[test]
fn manual_daily_snapshot_point_refuses_days_not_ahead() {
    let mut token = snapshot_setup();
    let pair = empty_pair(&token);
    let r = token.manual_daily_snapshot_point(1, day_ms(CURRENT_WISE_DAY), &pair, &guard());
    assert_eq!(r, Err(StakeError::InvalidArgument));
    let r = token.manual_daily_snapshot_point(5, day_ms(CURRENT_WISE_DAY), &pair, &guard());
    assert_eq!(r, Err(StakeError::InvalidArgument));
    assert_eq!(token.globals.current_stakeable_day, u(1));
}

#[test]
fn snapshot_without_guard_values_is_refused_and_changes_nothing() {
    let mut token = snapshot_setup();
    let pair = empty_pair(&token);
    let r = token.manual_daily_snapshot(day_ms(CURRENT_WISE_DAY), &pair, &LiquidityGuard::new());
    assert_eq!(r, Err(StakeError::DivisionByZero));
    assert_eq!(token.globals.current_stakeable_day, u(1));
    assert_eq!(token.liquidity_guard_status, false);
}

#[test]
fn snapshot_values_of_a_day() {
    let mut token = snapshot_setup();
    let pair = empty_pair(&token);
    token.globals.set_globals(GlobalField::TotalShares, u(1_000));
    token.scheduled_to_end.set(1, u(100));
    token.manual_daily_snapshot_point(2, day_ms(CURRENT_WISE_DAY), &pair, &guard()).unwrap();
    let s = token.snapshots.get(&1).copied().unwrap();
    // the inflation base is (608351533 * 10000) / 60835153328 = 99
    assert_eq!(s.scheduled_to_end, u(100));
    assert_eq!(s.total_shares, u(900));
    assert_eq!(s.inflation_amount, u(9_090_909_090_909_090_909));
}

#[test]
fn test_snapshot_get_struct_from_key() {
    let mut token = deploy();
    let value = Snapshot { total_shares: u(10), inflation_amount: u(10), scheduled_to_end: u(0) };
    token.lsnapshots.set(10, value);
    let ret = token.lsnapshots.get(&10).copied().unwrap();
    assert_eq!(ret.total_shares, u(10));
    assert_eq!(ret.inflation_amount, u(10));
}

#[test]
fn test_snapshot_set_struct_from_key() {
    let mut token = deploy();
    let value = Snapshot { total_shares: u(10), inflation_amount: u(10), scheduled_to_end: u(0) };
    token.lsnapshots.set(10, value);
    token.lsnapshots.set(10, Snapshot { total_shares: u(11), ..value });
    assert_eq!(token.lsnapshots.get(&10).copied().unwrap().total_shares, u(11));
}

fn liquidity_setup() -> (StakeableToken, Key, Vec<u32>) {
    let mut token = snapshot_setup();
    let pair = empty_pair(&token);
    let owner = account(1);
    // the guard is off; the snapshots taken first turn it on for empty reserves
    let id = token.create_liquidity_stake(owner, u(100), Ok(()), day_ms(CURRENT_WISE_DAY), &pair, &guard()).unwrap();
    assert!(token.liquidity_guard_status);
    (token, owner, id)
}

#[test]
fn test_create_liquidity_stake() {
    let (token, owner, id) = liquidity_setup();
    let ls = token.check_liquidity_stake_by_id(owner, &id).unwrap();
    assert_eq!(ls.staked_amount, u(100));
    assert_eq!(ls.start_day, CURRENT_WISE_DAY + 1);
    assert_eq!(token.globals.liquidity_shares, u(100));
    assert_eq!(token.latest_liquidity_stake_id(&owner), id);
}

#[test]
fn test_end_liquidity_stake() {
    let (mut token, owner, id) = liquidity_setup();
    let ls = token.check_liquidity_stake_by_id(owner, &id).unwrap();
    assert_eq!(ls.staked_amount, u(100));
    assert_eq!(ls.is_active, true);
    for i in 0..100u64 {
        token.lsnapshots.set(i, Snapshot { total_shares: u(0), inflation_amount: u(1), scheduled_to_end: u(0) });
    }
    token.end_liquidity_stake(owner, &id, Ok(()), day_ms(CURRENT_WISE_DAY)).unwrap();
    let ls = token.check_liquidity_stake_by_id(owner, &id).unwrap();
    assert_eq!(ls.is_active, false);
    assert_eq!(token.globals.liquidity_shares, u(0));
    let again = token.end_liquidity_stake(owner, &id, Ok(()), day_ms(CURRENT_WISE_DAY));
    assert_eq!(again, Err(StakeError::StakeInactive));
}

#[test]
fn test_check_liquidity_stake_by_id() {
    let (token, owner, id) = liquidity_setup();
    let ls = token.check_liquidity_stake_by_id(owner, &id).unwrap();
    assert_eq!(ls.staked_amount, u(100));
    assert!(matches!(token.check_liquidity_stake_by_id(account(2), &id), Err(StakeError::MissingRecord)));
}

#[test]
fn liquidity_stake_needs_the_guard_and_the_tokens() {
    let mut token = deploy();
    token.liquidity_guard_status = false;
    token.globals.set_globals(GlobalField::CurrentStakeableDay, u(5));
    token.total_supply = u(100);
    // a full pair keeps the guard off
    let full = PairReserves { reserve_a: 100, reserve_b: 0, token1: token.addresses.scspr };
    let r = token.create_liquidity_stake(account(1), u(100), Ok(()), day_ms(5), &full, &guard());
    assert_eq!(r, Err(StakeError::LiquidityGuardDisabled));
    // an empty pair turns it on, but the tokens did not come: nothing changes
    let empty = empty_pair(&token);
    let r = token.create_liquidity_stake(account(1), u(100), Err(7), day_ms(5), &empty, &guard());
    assert_eq!(r, Err(StakeError::TransferFailed(7)));
    assert!(!token.liquidity_guard_status);
    assert_eq!(token.globals.liquidity_shares, u(0));
}

#[test]
fn liquidity_reward_adds_a_share_per_day_at_the_start_day_inflation() {
    let mut token = deploy();
    token.params.precision_rate = u(2);
    token.globals.set_globals(GlobalField::CurrentStakeableDay, u(2));
    token.lsnapshots.set(0, Snapshot { total_shares: u(0), inflation_amount: u(1), scheduled_to_end: u(0) });
    let ls = LiquidityStake { staked_amount: u(10), reward_amount: u(0), start_day: 0, close_day: 0, is_active: true };
    // two days of 10 * 2 / 1 = 20
    assert_eq!(token.calculate_liquidity_reward(&ls), Ok(u(40)));
    token.params.min_referral_days = 1;
    assert_eq!(token.calculate_liquidity_reward(&ls), Ok(u(20)));
}

#[test]
fn inflation_base_adds_the_penalties_after_the_rate() {
    // (100 + 0) * 10000 / 10 + 5
    assert_eq!(stakeable_token::snapshot::inflation_amount(u(100), u(0), u(5), u(10)), Ok(u(100_005)));
    assert_eq!(
        stakeable_token::snapshot::inflation_amount(u(100), u(0), u(5), u(0)),
        Err(StakeError::DivisionByZero)
    );
}
