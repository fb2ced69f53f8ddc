use stakeable_token::contract::{Addresses, StakeableToken};
use stakeable_token::helper::{
    calculation_day, days_diff, days_left, get_lock_days, is_mature_stake, stake_ended,
    stake_not_started, starting_day,
};
use stakeable_token::key::Key;
use stakeable_token::types::{ConstantParameters, GlobalField, Stake};
use stakeable_token::u256::U256;

fn u(x: u64) -> U256 {
    U256::from_u64(x)
}

fn params() -> ConstantParameters {
    ConstantParameters {
        yodas_per_wise: u(1_000_000_000),
        precision_rate: u(1_000_000_000_000_000_000),
        threshold_limit: u(10_000_000_000_000),
        daily_bonus_a: u(13_698_630_136_986_302),
        daily_bonus_b: u(370_233_246_945_575),
        referrals_rate: u(366_816_973_500),
        inflation_rate_max: u(103_000),
        min_stake_amount: u(1_000_000),
        min_lock_days: 1,
        max_lock_days: 7300,
        max_bonus_days_a: 1825,
        max_bonus_days_b: 3650,
        min_referral_days: 365,
        formula_day: 365,
        seconds_in_day: 86400,
    }
}

fn account(b: u8) -> Key {
    Key::account([b; 32])
}

fn contract(b: u8) -> Key {
    Key::hash([b; 32])
}

fn deploy() -> StakeableToken {
    let addresses = Addresses {
        self_hash: contract(1),
        router: contract(2),
        factory: contract(3),
        pair: contract(4),
        liquidity_guard: contract(5),
        scspr: contract(6),
        wcspr: contract(7),
    };
    StakeableToken::new(params(), addresses, u(0), account(9))
}

fn sample_stake(owner: Key) -> Stake {
    Stake {
        stakes_shares: u(10),
        staked_amount: u(10),
        reward_amount: u(10),
        start_day: 45,
        lock_days: 45,
        final_day: 55,
        close_day: 45,
        scrape_day: u(10),
        dai_equivalent: u(10),
        referrer_shares: u(10),
        referrer: owner,
        is_active: false,
    }
}

#[test]
fn tests_test_deploy() {
    let token = deploy();
    assert!(token.uniswap_pair.is_none());
    assert_eq!(token.globals.current_stakeable_day, u(0));
}

#[test]
fn test_increase_globals() {
    let mut token = deploy();
    let r = token.globals.increase_globals(u(10), u(20), u(30));
    assert_eq!(r, Ok(()));
    assert_eq!(token.globals.total_shares, u(20));
    assert_eq!(token.globals.total_staked, u(10));
    assert_eq!(token.globals.referral_shares, u(30));
}

#[test]
fn test_decrease_globals() {
    let mut token = deploy();
    token.globals.decrease_globals(u(10), u(20), u(30));
    assert_eq!(token.globals.total_shares, u(0));
    assert_eq!(token.globals.total_staked, u(0));
    assert_eq!(token.globals.referral_shares, u(0));
}

#[test]
fn test_set_globals() {
    let mut token = deploy();
    token.globals.set_globals(GlobalField::CurrentStakeableDay, u(100));
    assert_eq!(token.globals.get_globals(GlobalField::CurrentStakeableDay), u(100));
    assert_eq!(token.globals.current_stakeable_day, u(100));
}

#[test]
fn test_get_globals() {
    let token = deploy();
    let number = u(100_000_000_000_000_000);
    assert_eq!(token.globals.get_globals(GlobalField::SharePrice), number);
}

#[test]
fn increase_then_decrease_gives_totals_back() {
    let mut token = deploy();
    token.globals.increase_globals(u(7), u(11), u(13)).unwrap();
    token.globals.increase_globals(u(100), u(200), u(300)).unwrap();
    token.globals.decrease_globals(u(100), u(200), u(300));
    assert_eq!(token.globals.total_staked, u(7));
    assert_eq!(token.globals.total_shares, u(11));
    assert_eq!(token.globals.referral_shares, u(13));
}

#[test]
fn increase_globals_refuses_overflow() {
    let mut token = deploy();
    let max = U256 { w0: u64::MAX, w1: u64::MAX, w2: u64::MAX, w3: u64::MAX };
    token.globals.increase_globals(u(1), u(0), u(0)).unwrap();
    let r = token.globals.increase_globals(max, u(0), u(0));
    assert_eq!(r, Err(stakeable_token::types::StakeError::Overflow));
    assert_eq!(token.globals.total_staked, u(1));
}

#[test]
fn test_get_lock_days() {
    let stake = sample_stake(account(1));
    assert_eq!(get_lock_days(&stake), u(stake.lock_days - 1));
}

#[test]
fn test_stake_not_started() {
    let stake = sample_stake(account(1));
    assert_eq!(stake_not_started(&stake, 5), false);
}

#[test]
fn test_stake_ended() {
    let stake = sample_stake(account(1));
    assert_eq!(stake_ended(&stake, 5), true);
}

#[test]
fn test_days_diff() {
    let start_date = u(10);
    let end_date = u(20);
    assert_eq!(days_diff(start_date, end_date), u(10));
    assert_eq!(days_diff(end_date, start_date), u(0));
}

#[test]
fn test_is_mature_stake() {
    let stake = sample_stake(account(1));
    assert_eq!(is_mature_stake(&stake, 5), false);
}

#[test]
fn test_days_left() {
    let stake = sample_stake(account(1));
    assert_eq!(days_left(&stake, 5), u(stake.final_day - stake.close_day));
}

#[test]
fn test_calculation_day() {
    let stake = sample_stake(account(1));
    assert_eq!(calculation_day(&stake, u(0)), u(0));
    assert_eq!(calculation_day(&stake, u(100)), u(55));
}

#[test]
fn test_starting_day() {
    let stake = sample_stake(account(1));
    assert_eq!(starting_day(&stake), stake.scrape_day);
    let mut fresh = stake;
    fresh.scrape_day = u(0);
    assert_eq!(starting_day(&fresh), u(45));
}

#[test]
fn test_generate_liquidity_stake_id() {
    let token = deploy();
    let id = token.generate_liquidity_stake_id(&account(1));
    assert_ne!(id, Vec::<u32>::new());
    assert_eq!(id.len(), 16);
}

#[test]
fn test_increase_liquidity_stake_count() {
    let mut token = deploy();
    let staker = account(1);
    token.liquidity_stake_count.set(staker, u(0));
    token.increase_liquidity_stake_count(&staker).unwrap();
    assert_eq!(token.liquidity_stake_count.get(&staker).copied(), Some(u(1)));
}

#[test]
fn ids_differ_by_count_and_tag() {
    let token = deploy();
    let staker = account(1);
    let first = token.generate_stake_id(&staker);
    assert_eq!(first, token.generate_stake_id(&staker));
    let mut t2 = deploy();
    t2.increase_stake_count(&staker).unwrap();
    let second = t2.generate_stake_id(&staker);
    assert_ne!(first, second);
    assert_eq!(t2.latest_stake_id(&staker), first);
    assert_ne!(first, token.generate_referral_id(&staker));
    assert_eq!(token.latest_stake_id(&staker), Vec::<u32>::new());
}

const CURRENT_WISE_DAY: u64 = 5;

/// A block time on the given day of a contract launched at time zero.
fn day_ms(day: u64) -> u64 {
    day * 86_400_000 + 1_000
}

#[test]
fn test_current_wise_day() {
    let token = deploy();
    assert_eq!(token.current_stakeable_day(day_ms(CURRENT_WISE_DAY)), Ok(CURRENT_WISE_DAY));
}

#[test]
fn test__current_wise_day() {
    let token = deploy();
    assert_eq!(token.current_stakeable_day_only(day_ms(CURRENT_WISE_DAY)), Ok(CURRENT_WISE_DAY));
}

#[test]
fn test__previous_wise_day() {
    let token = deploy();
    assert_eq!(token.previous_stakeable_day(day_ms(CURRENT_WISE_DAY)), Ok(CURRENT_WISE_DAY - 1));
}

#[test]
fn test__next_wise_day() {
    let token = deploy();
    assert_eq!(token.next_stakeable_day(day_ms(CURRENT_WISE_DAY)), Ok(CURRENT_WISE_DAY + 1));
}

#[test]
fn days_before_launch() {
    let mut token = deploy();
    token.launch_time = U256::from_u64(1_000_000);
    assert_eq!(token.current_stakeable_day(5_000), Ok(0));
    assert_eq!(
        token.current_stakeable_day_only(5_000),
        Err(stakeable_token::types::StakeError::Underflow)
    );
    token.launch_time = U256::from_u64(0);
    assert_eq!(
        token.previous_stakeable_day(1_000),
        Err(stakeable_token::types::StakeError::Underflow)
    );
}
