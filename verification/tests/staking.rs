use stakeable_token::shares::calculate_penalty_amount;
use stakeable_token::contract::{Addresses, StakeableToken};
use stakeable_token::dict::RecordKey;
use stakeable_token::key::{zero_address, Key};
use stakeable_token::types::{ConstantParameters, CriticalMass, Stake, StakeError};
use stakeable_token::u256::U256;

fn u(x: u64) -> U256 {
    U256::from_u64(x)
}

fn params() -> ConstantParameters {
    ConstantParameters {
        yodas_per_wise: u(1_000_000_000),
        precision_rate: u(1_000_000_000_000_000_000),
        threshold_limit: u(10_000_000_000_000),
        daily_bonus_a: u(13_698_630_136_986_302),
        daily_bonus_b: u(370_233_246_945_575),
        referrals_rate: u(366_816_973_500),
        inflation_rate_max: u(103_000),
        min_stake_amount: u(1_000_000),
        min_lock_days: 1,
        max_lock_days: 7300,
        max_bonus_days_a: 1825,
        max_bonus_days_b: 3650,
        min_referral_days: 365,
        formula_day: 365,
        seconds_in_day: 86400,
    }
}

fn account(b: u8) -> Key {
    Key::account([b; 32])
}

fn contract(b: u8) -> Key {
    Key::hash([b; 32])
}

fn deploy() -> StakeableToken {
    let addresses = Addresses {
        self_hash: contract(1),
        router: contract(2),
        factory: contract(3),
        pair: contract(4),
        liquidity_guard: contract(5),
        scspr: contract(6),
        wcspr: contract(7),
    };
    StakeableToken::new(params(), addresses, u(0), account(9))
}

fn day_ms(day: u64) -> u64 {
    day * 86_400_000 + 1_000
}

const CURRENT_WISE_DAY: u64 = 5;

fn stored_stake(referrer: Key) -> Stake {
    Stake {
        stakes_shares: u(10),
        staked_amount: u(10),
        reward_amount: u(10),
        start_day: 10,
        lock_days: 11,
        final_day: 12,
        close_day: 13,
        scrape_day: u(10),
        dai_equivalent: u(10),
        referrer_shares: u(10),
        referrer,
        is_active: true,
    }
}

#[test]
fn test_end_stake() {
    let mut token = deploy();
    let staker = account(1);
    let referrer = account(2);
    let stake_id = token.generate_stake_id(&staker);
    token.stakes.set(RecordKey::new(staker, &stake_id), stored_stake(referrer));
    token.critical_mass.set(referrer, CriticalMass { total_amount: u(10), activation_day: u(10) });
    let r = token.end_stake(staker, &stake_id, day_ms(CURRENT_WISE_DAY));
    assert!(r.is_ok());
    let stake = token.stakes.get(&RecordKey::new(staker, &stake_id)).copied().unwrap();
    assert_eq!(stake.is_active, false);
    assert_eq!(stake.close_day, CURRENT_WISE_DAY);
    assert_eq!(token.balance_of(&staker), u(10));
}

#[test]
fn test_check_stake_by_id() {
    let mut token = deploy();
    let staker = account(1);
    let referrer = account(2);
    let stake_id = token.generate_stake_id(&staker);
    token.stakes.set(RecordKey::new(staker, &stake_id), stored_stake(referrer));
    let (stake, penalty_amount, is_mature) = token.check_stake_by_id(staker, &stake_id, day_ms(CURRENT_WISE_DAY)).unwrap();
    assert_eq!(is_mature, true);
    assert_eq!(penalty_amount, u(0));
    assert_eq!(stake.staked_amount, u(10));
    assert_eq!(token.check_mature_stake(staker, &stake_id, day_ms(CURRENT_WISE_DAY)), Ok(true));
}

fn funded(amount: u64) -> (StakeableToken, Key, Key) {
    let mut token = deploy();
    let staker = account(1);
    let referrer = account(2);
    token.mint(&staker, u(amount)).unwrap();
    token.critical_mass.set(referrer, CriticalMass { total_amount: u(0), activation_day: u(0) });
    (token, staker, referrer)
}

#[test]
fn create_stake_burns_and_records() {
    let (mut token, staker, referrer) = funded(1_000_000_000_000);
    let expected_id = token.generate_stake_id(&staker);
    let (id, start, rid) = token
        .create_stake(staker, u(100_000_000_000), 30, referrer, u(1_000_000_000), day_ms(CURRENT_WISE_DAY))
        .unwrap();
    assert_eq!(id, expected_id);
    assert_eq!(start, u(CURRENT_WISE_DAY + 1));
    assert_eq!(rid, Vec::<u32>::new());
    assert_eq!(token.balance_of(&staker), u(900_000_000_000));
    assert_eq!(token.total_supply, u(900_000_000_000));
    assert_eq!(token.globals.total_staked, u(100_000_000_000));
    assert_eq!(token.latest_stake_id(&staker), id);
    let stake = token.stakes.get(&RecordKey::new(staker, &id)).copied().unwrap();
    assert_eq!(stake.final_day, CURRENT_WISE_DAY + 1 + 30);
    assert!(stake.is_active);
    assert_eq!(token.globals.total_shares, stake.stakes_shares);
    assert_eq!(token.scheduled_to_end.get(&stake.final_day).copied(), Some(stake.stakes_shares));
    let cm = token.critical_mass.get(&referrer).copied().unwrap();
    assert_eq!(cm.total_amount, u(100_000_000_000));
    assert_eq!(cm.activation_day, u(CURRENT_WISE_DAY));
}

#[test]
fn create_stake_refuses_bad_referrers_and_locks() {
    let (mut token, staker, referrer) = funded(1_000_000_000_000);
    let r = token.create_stake(staker, u(100_000_000_000), 30, staker, u(1), day_ms(5));
    assert_eq!(r, Err(StakeError::UnexpectedKeyVariant));
    let r = token.create_stake(staker, u(100_000_000_000), 30, zero_address(), u(1), day_ms(5));
    assert_eq!(r, Err(StakeError::UnexpectedKeyVariant));
    let r = token.create_stake(staker, u(100_000_000_000), 0, referrer, u(1), day_ms(5));
    assert_eq!(r, Err(StakeError::UnexpectedKeyVariant));
    let r = token.create_stake(staker, u(100_000_000_000), 7301, referrer, u(1), day_ms(5));
    assert_eq!(r, Err(StakeError::UnexpectedKeyVariant));
    assert_eq!(token.balance_of(&staker), u(1_000_000_000_000));
    assert_eq!(token.globals.total_staked, u(0));
}

#[test]
fn create_stake_refuses_more_than_held() {
    let (mut token, staker, referrer) = funded(1_000_000);
    let r = token.create_stake(staker, u(2_000_000), 30, referrer, u(1), day_ms(5));
    assert!(r.is_err());
    assert_eq!(token.balance_of(&staker), u(1_000_000));
}

#[test]
fn ending_right_after_creating_gives_everything_back() {
    let (mut token, staker, referrer) = funded(1_000_000_000_000);
    let (id, _, _) = token
        .create_stake(staker, u(100_000_000_000), 30, referrer, u(1_000_000_000), day_ms(CURRENT_WISE_DAY))
        .unwrap();
    let reward = token.end_stake(staker, &id, day_ms(CURRENT_WISE_DAY)).unwrap();
    assert_eq!(reward, u(0));
    assert_eq!(token.balance_of(&staker), u(1_000_000_000_000));
    assert_eq!(token.globals.total_staked, u(0));
    assert_eq!(token.globals.total_shares, u(0));
    assert_eq!(token.globals.referral_shares, u(0));
    let again = token.end_stake(staker, &id, day_ms(CURRENT_WISE_DAY + 1));
    assert_eq!(again, Err(StakeError::StakeInactive));
}

#[test]
fn end_stake_needs_the_stake() {
    let mut token = deploy();
    assert_eq!(token.end_stake(account(1), &vec![7], day_ms(5)), Err(StakeError::MissingRecord));
}

#[test]
fn create_stake_bulk_creates_each() {
    let (mut token, staker, referrer) = funded(1_000_000_000_000);
    let out = token
        .create_stake_bulk(
            staker,
            &vec![u(10_000_000_000), u(20_000_000_000)],
            &vec![10, 20],
            &vec![referrer, referrer],
            u(1_000_000_000),
            day_ms(CURRENT_WISE_DAY),
        )
        .unwrap();
    assert_eq!(out.len(), 2);
    assert_ne!(out[0].0, out[1].0);
    assert_eq!(token.globals.total_staked, u(30_000_000_000));
    let short = token.create_stake_bulk(staker, &vec![u(1)], &vec![], &vec![referrer], u(1), day_ms(5));
    assert_eq!(short, Err(StakeError::InvalidArgument));
}

#[test]
fn pages_of_an_empty_book_are_empty() {
    let token = deploy();
    assert_eq!(token.stakes_pagination(account(1), u(0), u(0)), Ok(vec![]));
    assert_eq!(token.referrals_pagination(account(1), u(10), u(20)), Ok(vec![]));
}

#[test]
fn pages_list_stakes_that_hold_tokens_newest_first() {
    let (mut token, staker, referrer) = funded(1_000_000_000_000);
    let mut ids: Vec<Vec<u32>> = Vec::new();
    for _ in 0..3 {
        let (id, _, _) = token
            .create_stake(staker, u(100_000_000_000), 30, referrer, u(1_000_000_000), day_ms(CURRENT_WISE_DAY))
            .unwrap();
        ids.push(id);
    }
    let (a, b, c) = (ids[0].clone(), ids[1].clone(), ids[2].clone());
    assert_eq!(token.stakes_pagination(staker, u(0), u(0)), Ok(vec![c.clone(), b.clone(), a.clone()]));
    assert_eq!(token.stakes_pagination(staker, u(1), u(0)), Ok(vec![b.clone(), a.clone()]));
    assert_eq!(token.stakes_pagination(staker, u(0), u(1)), Ok(vec![c.clone()]));
    assert_eq!(token.stakes_pagination(staker, u(1), u(1)), Ok(vec![b.clone()]));
    // a stake that holds nothing is left out
    let key = RecordKey::new(staker, &b);
    let mut empty = token.stakes.get(&key).copied().unwrap();
    empty.staked_amount = u(0);
    token.stakes.set(key, empty);
    assert_eq!(token.stakes_pagination(staker, u(0), u(0)), Ok(vec![c, a]));
    // a stake counted but not stored is refused
    token.stake_count.set(staker, u(4));
    assert_eq!(token.stakes_pagination(staker, u(0), u(0)), Err(StakeError::MissingRecord));
}

#[test]
fn pages_list_referrals_that_link_a_staker() {
    let mut token = deploy();
    let referrer = account(2);
    let id0 = stakeable_token::ids::generate_id(&referrer, u(0), 2);
    let id1 = stakeable_token::ids::generate_id(&referrer, u(1), 2);
    let link = |staker: Key| stakeable_token::types::ReferrerLink {
        staker,
        stake_id: vec![1, 2],
        reward_amount: u(0),
        processed_days: u(0),
        is_active: true,
    };
    token.referrer_links.set(RecordKey::new(referrer, &id0), link(account(1)));
    token.referrer_links.set(RecordKey::new(referrer, &id1), link(zero_address()));
    token.referral_count.set(referrer, u(2));
    assert_eq!(token.referrals_pagination(referrer, u(0), u(0)), Ok(vec![id0.clone()]));
    token.referrer_links.set(RecordKey::new(referrer, &id1), link(account(3)));
    assert_eq!(token.referrals_pagination(referrer, u(0), u(0)), Ok(vec![id1, id0]));
}

#[test]
fn detect_reward_pays_nothing_before_the_start() {
    let mut token = deploy();
    let mut stake = stored_stake(account(3));
    stake.start_day = 2;
    stake.final_day = 4;
    stake.close_day = 0;
    stake.scrape_day = u(0);
    token.globals.current_stakeable_day = u(3);
    token.snapshots.set(
        2,
        stakeable_token::types::Snapshot {
            total_shares: u(0),
            inflation_amount: u(1_000_000_000_000_000_000),
            scheduled_to_end: u(0),
        },
    );
    assert_eq!(token.detect_reward(&stake, 1), Ok(u(0)));
    assert_eq!(token.detect_reward(&stake, 3), Ok(u(10)));
    assert_eq!(token.check_reward_amount(&stake, 3), Ok(u(10)));
    stake.is_active = false;
    stake.reward_amount = u(77);
    assert_eq!(token.check_reward_amount(&stake, 3), Ok(u(77)));
}

#[test]
fn early_end_penalty_is_between_a_tenth_and_nine_tenths() {
    let mut stake = stored_stake(account(3));
    stake.staked_amount = u(1000);
    stake.start_day = 10;
    stake.lock_days = 11;
    stake.final_day = 21;
    stake.close_day = 0;
    assert_eq!(calculate_penalty_amount(&stake, 10), Ok(u(900)));
    assert_eq!(calculate_penalty_amount(&stake, 15), Ok(u(500)));
    assert_eq!(calculate_penalty_amount(&stake, 20), Ok(u(100)));
    assert_eq!(calculate_penalty_amount(&stake, 21), Ok(u(0)));
    assert_eq!(calculate_penalty_amount(&stake, 9), Ok(u(0)));
}

#[test]
fn ending_an_immature_stake_costs_a_penalty() {
    let (mut token, staker, referrer) = funded(1_000_000_000_000);
    let (id, start, _) = token
        .create_stake(staker, u(100_000_000_000), 20, referrer, u(1_000_000_000), day_ms(CURRENT_WISE_DAY))
        .unwrap();
    assert_eq!(start, u(CURRENT_WISE_DAY + 1));
    // ten days later: 10 days left of 20, 100 + 800 * 9 / 19 = 478 per mille
    let reward = token.end_stake(staker, &id, day_ms(CURRENT_WISE_DAY + 11)).unwrap();
    assert_eq!(reward, u(0));
    assert_eq!(token.balance_of(&staker), u(900_000_000_000 + 52_200_000_000));
    assert_eq!(token.total_penalties.get(&(CURRENT_WISE_DAY + 11)).copied(), Some(u(47_800_000_000)));
    assert_eq!(token.globals.total_staked, u(0));
    assert_eq!(token.globals.total_shares, u(0));
}

fn staking_guard() -> stakeable_token::guard::LiquidityGuard {
    let mut g = stakeable_token::guard::LiquidityGuard::new();
    let mut rates: Vec<u64> = Vec::new();
    let mut values: Vec<U256> = Vec::new();
    for k in 0..40u64 {
        rates.push(99_880 + 6 * k);
        values.push(u(60_835_153_328));
    }
    g.assign_inflation(&rates, &values).unwrap();
    g
}

#[test]
fn a_refused_scrape_leaves_no_snapshot_behind() {
    let (mut token, staker, referrer) = funded(1_000_000_000_000);
    let (id, _, _) = token
        .create_stake(staker, u(100_000_000_000), 20, referrer, u(1_000_000_000), day_ms(CURRENT_WISE_DAY))
        .unwrap();
    token.end_stake(staker, &id, day_ms(CURRENT_WISE_DAY)).unwrap();
    let pair = stakeable_token::snapshot::PairReserves { reserve_a: 0, reserve_b: 0, token1: token.addresses.scspr };
    let guard = staking_guard();
    let day_before = token.globals.current_stakeable_day;
    let status_before = token.liquidity_guard_status;
    let rate_before = token.liquidity_rate;
    let r = token.scrape_interest(staker, &id, 0, day_ms(CURRENT_WISE_DAY + 3), &pair, &guard);
    assert!(r.is_err());
    assert_eq!(token.globals.current_stakeable_day, day_before);
    assert_eq!(token.liquidity_guard_status, status_before);
    assert_eq!(token.liquidity_rate, rate_before);
    assert!(!token.snapshots.contains(&0));
    // the same snapshots can be taken, so the scrape was refused after them
    token.snapshot_trigger(day_ms(CURRENT_WISE_DAY + 3), &pair, &guard).unwrap();
    assert_eq!(token.globals.current_stakeable_day, u(CURRENT_WISE_DAY + 3));
    assert!(token.snapshots.contains(&0));
}

#[test]
fn a_refused_batch_creates_no_stake() {
    let (mut token, staker, referrer) = funded(1_000_000_000_000);
    // the second stake asks for more than is left after the first
    let r = token.create_stake_bulk(
        staker,
        &vec![u(600_000_000_000), u(600_000_000_000)],
        &vec![10, 20],
        &vec![referrer, referrer],
        u(1_000_000_000),
        day_ms(CURRENT_WISE_DAY),
    );
    assert!(r.is_err());
    assert_eq!(token.balance_of(&staker), u(1_000_000_000_000));
    assert_eq!(token.total_supply, u(1_000_000_000_000));
    assert_eq!(token.globals.total_staked, u(0));
    assert!(token.stake_count.get(&staker).is_none());
    assert_eq!(token.critical_mass.get(&referrer).copied().unwrap().total_amount, u(0));
}

/// The staker's starting balance and the 100-coin stake of the scenarios below.
const RESERVED: u64 = 1_000_000_000_000;
const ONEHUNDRED: u64 = 100_000_000_000;

/// A funded staker and the account zero address as referrer, with its record.
fn scenario() -> (StakeableToken, Key, Key) {
    let (mut token, staker, _) = funded(RESERVED);
    let referrer = Key::account([0u8; 32]);
    token.critical_mass.set(referrer, CriticalMass { total_amount: u(0), activation_day: u(0) });
    (token, staker, referrer)
}

#[test]
fn should_be_able_to_create_stake_and_end_stake_immature_no_penalty() {
    let (mut token, staker, referrer) = scenario();
    let price = token.globals.share_price;
    let (id, _, _) = token
        .create_stake(staker, u(ONEHUNDRED), 20, referrer, u(1_000_000_000), day_ms(CURRENT_WISE_DAY))
        .unwrap();
    assert_eq!(token.balance_of(&staker), u(RESERVED - ONEHUNDRED));
    assert_eq!(token.globals.total_staked, u(ONEHUNDRED));
    assert_eq!(token.globals.share_price, price);
    token.end_stake(staker, &id, day_ms(CURRENT_WISE_DAY)).unwrap();
    assert_eq!(token.balance_of(&staker), u(RESERVED));
    assert_eq!(token.globals.total_staked, u(0));
    assert_eq!(token.globals.total_shares, u(0));
    assert_eq!(token.globals.share_price, price);
}

#[test]
fn should_be_able_to_create_stake_and_end_stake_immature_penalty() {
    let (mut token, staker, referrer) = scenario();
    assert_eq!(token.balance_of(&staker), u(RESERVED));
    let (id, _, _) = token
        .create_stake(staker, u(ONEHUNDRED), 20, referrer, u(1_000_000_000), day_ms(CURRENT_WISE_DAY))
        .unwrap();
    assert_eq!(token.balance_of(&staker), u(RESERVED - ONEHUNDRED));
    assert_eq!(token.globals.total_staked, u(ONEHUNDRED));
    token.end_stake(staker, &id, day_ms(CURRENT_WISE_DAY + 10)).unwrap();
    // eleven of twenty days left: 100 + 800 * 10 / 19 = 521 per mille is kept back
    assert_eq!(token.balance_of(&staker), u(RESERVED - 52_100_000_000));
    assert_eq!(token.globals.total_staked, u(0));
    assert_eq!(token.globals.total_shares, u(0));
}

#[test]
fn should_be_able_to_create_stake_and_scrape_interest() {
    let (mut token, staker, referrer) = scenario();
    let (id, _, _) = token
        .create_stake(staker, u(ONEHUNDRED), 20, referrer, u(1_000_000_000), day_ms(CURRENT_WISE_DAY))
        .unwrap();
    assert_eq!(token.balance_of(&staker), u(RESERVED - ONEHUNDRED));
    let pair = stakeable_token::snapshot::PairReserves { reserve_a: 0, reserve_b: 0, token1: token.addresses.scspr };
    let (day, amount, _, _, _) = token
        .scrape_interest(staker, &id, 0, day_ms(CURRENT_WISE_DAY + 3), &pair, &staking_guard())
        .unwrap();
    assert_eq!(token.balance_of(&staker), stakeable_token::types::plus(u(RESERVED - ONEHUNDRED), amount).unwrap());
    assert_eq!(token.globals.total_staked, u(ONEHUNDRED));
    assert_eq!(token.globals.current_stakeable_day, u(CURRENT_WISE_DAY + 3));
    let stake = token.stakes.get(&RecordKey::new(staker, &id)).copied().unwrap();
    assert!(stake.is_active);
    assert_eq!(stake.scrape_day, day);
    assert_eq!(day, u(CURRENT_WISE_DAY + 3));
}
