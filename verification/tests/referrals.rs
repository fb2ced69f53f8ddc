use stakeable_token::contract::{Addresses, StakeableToken};
use stakeable_token::dict::RecordKey;
use stakeable_token::key::Key;
use stakeable_token::types::{ConstantParameters, CriticalMass, ReferrerLink, Snapshot, Stake};
use stakeable_token::u256::U256;

fn u(x: u64) -> U256 {
    U256::from_u64(x)
}

fn params() -> ConstantParameters {
    ConstantParameters {
        yodas_per_wise: u(1_000_000_000),
        precision_rate: u(1_000_000_000_000_000_000),
        threshold_limit: u(10_000_000_000_000),
        daily_bonus_a: u(13_698_630_136_986_302),
        daily_bonus_b: u(370_233_246_945_575),
        referrals_rate: u(366_816_973_500),
        inflation_rate_max: u(103_000),
        min_stake_amount: u(1_000_000),
        min_lock_days: 1,
        max_lock_days: 7300,
        max_bonus_days_a: 1825,
        max_bonus_days_b: 3650,
        min_referral_days: 365,
        formula_day: 365,
        seconds_in_day: 86400,
    }
}

fn account(b: u8) -> Key {
    Key::account([b; 32])
}

fn contract(b: u8) -> Key {
    Key::hash([b; 32])
}

fn deploy() -> StakeableToken {
    let addresses = Addresses {
        self_hash: contract(1),
        router: contract(2),
        factory: contract(3),
        pair: contract(4),
        liquidity_guard: contract(5),
        scspr: contract(6),
        wcspr: contract(7),
    };
    StakeableToken::new(params(), addresses, u(0), account(9))
}

/// A block time on the given day of a contract launched at time zero.
fn day_ms(day: u64) -> u64 {
    day * 86_400_000 + 1_000
}

const CURRENT_WISE_DAY: u64 = 5;

fn referral_setup(token: &mut StakeableToken, staker: Key, referrer: Key) -> (Vec<u32>, Vec<u32>) {
    let stake = Stake {
        stakes_shares: u(10),
        staked_amount: u(10),
        reward_amount: u(10),
        start_day: 10,
        lock_days: 10,
        final_day: 12,
        close_day: 13,
        scrape_day: u(10),
        dai_equivalent: u(10),
        referrer_shares: u(10),
        referrer,
        is_active: true,
    };
    let stake_id = token.generate_stake_id(&staker);
    let link = ReferrerLink {
        staker,
        stake_id: stake_id.clone(),
        reward_amount: u(10),
        processed_days: u(10),
        is_active: true,
    };
    let referral_id = token.generate_referral_id(&referrer);
    token.stakes.set(RecordKey::new(staker, &stake_id), stake);
    token.referrer_links.set(RecordKey::new(referrer, &referral_id), link);
    token.critical_mass.set(referrer, CriticalMass { total_amount: u(10), activation_day: u(0) });
    (stake_id, referral_id)
}

#[test]
fn test_not_critical_mass_referrer() {
    let mut token = deploy();
    let referrer = account(1);
    token.critical_mass.set(referrer, CriticalMass { total_amount: u(5), activation_day: u(5) });
    assert_eq!(token.not_critical_mass_referrer(&referrer), Ok(false));
}

#[test]
fn not_critical_mass_referrer_needs_a_record() {
    let token = deploy();
    assert_eq!(
        token.not_critical_mass_referrer(&account(1)),
        Err(stakeable_token::types::StakeError::MissingRecord)
    );
}

#[test]
fn test_add_referrer_shares_to_end() {
    let mut token = deploy();
    let final_day: u64 = 10;
    let shares = u(20);
    token.referral_shares_to_end.set(final_day, shares);
    token.add_referrer_shares_to_end(final_day, shares).unwrap();
    assert_eq!(token.referral_shares_to_end.get(&final_day).copied(), Some(u(40)));
}

#[test]
fn test_remove_referrer_shares_to_end() {
    let mut token = deploy();
    // case 1: the final day is not past
    let final_day: u64 = 10;
    let shares = u(20);
    token.referral_shares_to_end.set(final_day, u(40));
    token.remove_referrer_shares_to_end(final_day, shares, CURRENT_WISE_DAY);
    assert_eq!(token.referral_shares_to_end.get(&final_day).copied(), Some(shares));
    // case 2: the final day is past, yesterday's snapshot gives them up
    let final_day: u64 = 1;
    token.referral_shares_to_end.set(final_day, u(40));
    let snapshot = Snapshot { total_shares: u(100), inflation_amount: u(100), scheduled_to_end: u(100) };
    let previous_wise_day: u64 = 4;
    token.rsnapshots.set(previous_wise_day, snapshot);
    token.remove_referrer_shares_to_end(final_day, shares, CURRENT_WISE_DAY);
    let r = token.rsnapshots.get(&previous_wise_day).copied().unwrap();
    assert_eq!(r.scheduled_to_end, u(80));
    assert_eq!(r.total_shares, u(100));
    assert_eq!(token.referral_shares_to_end.get(&final_day).copied(), Some(u(40)));
}

#[test]
fn test_add_critical_mass() {
    let mut token = deploy();
    let referrer = account(1);
    let dai_equivalent = u(50);
    let total_amount = u(1000);
    token.critical_mass.set(referrer, CriticalMass { total_amount, activation_day: u(10) });
    token.add_critical_mass(&referrer, dai_equivalent, CURRENT_WISE_DAY).unwrap();
    let cm = token.critical_mass.get(&referrer).copied().unwrap();
    assert_eq!(cm.total_amount, u(1050));
    assert_eq!(cm.activation_day, u(10));
}

#[test]
fn test_remove_critical_mass() {
    let mut token = deploy();
    let referrer = account(1);
    token.critical_mass.set(referrer, CriticalMass { total_amount: u(1000), activation_day: u(2) });
    token.remove_critical_mass(&referrer, u(50), u(30), CURRENT_WISE_DAY).unwrap();
    let cm = token.critical_mass.get(&referrer).copied().unwrap();
    assert_eq!(cm.total_amount, u(950));
    assert_eq!(cm.activation_day, u(2));
}

#[test]
fn remove_critical_mass_of_started_stake_changes_nothing() {
    let mut token = deploy();
    let referrer = account(1);
    token.critical_mass.set(referrer, CriticalMass { total_amount: u(1000), activation_day: u(2) });
    token.remove_critical_mass(&referrer, u(50), u(3), CURRENT_WISE_DAY).unwrap();
    assert_eq!(token.critical_mass.get(&referrer).copied().unwrap().total_amount, u(1000));
}

#[test]
fn critical_mass_above_threshold_clears_activation() {
    let mut token = deploy();
    let referrer = account(1);
    let big = U256 { w0: 0, w1: 1, w2: 0, w3: 0 };
    token.critical_mass.set(referrer, CriticalMass { total_amount: big, activation_day: u(7) });
    token.add_critical_mass(&referrer, u(1), CURRENT_WISE_DAY).unwrap();
    assert_eq!(token.critical_mass.get(&referrer).copied().unwrap().activation_day, u(0));
}

#[test]
fn test_referrer_interest() {
    let mut token = deploy();
    let staker = account(2);
    let referrer = account(1);
    let (_, referral_id) = referral_setup(&mut token, staker, referrer);
    let r = token.referrer_interest(referrer, &referral_id, u(0), day_ms(CURRENT_WISE_DAY));
    assert_eq!(r, Ok(u(0)));
    let link = token.referrer_links.get(&RecordKey::new(referrer, &referral_id)).unwrap();
    assert_eq!(link.is_active, false);
    assert_eq!(link.reward_amount, u(10));
    // an ended link collects nothing again
    let again = token.referrer_interest(referrer, &referral_id, u(0), day_ms(CURRENT_WISE_DAY + 3));
    assert_eq!(again, Ok(u(0)));
}

#[test]
fn referrer_interest_needs_the_link() {
    let mut token = deploy();
    let r = token.referrer_interest(account(1), &vec![1, 2, 3], u(0), day_ms(CURRENT_WISE_DAY));
    assert_eq!(r, Err(stakeable_token::types::StakeError::MissingRecord));
}

#[test]
fn test_check_referrals_by_id() {
    let mut token = deploy();
    let staker = account(2);
    let referrer = account(1);
    let (stake_id, referral_id) = referral_setup(&mut token, staker, referrer);
    let r = token.check_referrals_by_id(referrer, &referral_id, day_ms(CURRENT_WISE_DAY)).unwrap();
    assert_eq!(r.0, staker);
    assert_eq!(r.1, stake_id);
    assert_eq!(r.2, u(10));
    assert_eq!(r.3, u(0));
    assert_eq!(r.4, true);
    assert_eq!(r.5, true);
    assert_eq!(r.6, true);
    assert_eq!(r.7, true);
}

#[test]
fn referral_interest_sums_the_referral_snapshots() {
    let mut token = deploy();
    token.params.precision_rate = u(100);
    let stake = Stake {
        stakes_shares: u(10),
        staked_amount: u(10),
        reward_amount: u(0),
        start_day: 1,
        lock_days: 10,
        final_day: 11,
        close_day: 0,
        scrape_day: u(0),
        dai_equivalent: u(0),
        referrer_shares: u(0),
        referrer: account(1),
        is_active: true,
    };
    token.rsnapshots.set(1, Snapshot { total_shares: u(0), inflation_amount: u(10), scheduled_to_end: u(0) });
    token.rsnapshots.set(2, Snapshot { total_shares: u(0), inflation_amount: u(20), scheduled_to_end: u(0) });
    // 10 * 100 / 10 + 10 * 100 / 20
    assert_eq!(token.get_referral_interest(&stake, u(1), u(3)), Ok(u(150)));
    // a day without a referral snapshot divides by zero
    assert_eq!(
        token.get_referral_interest(&stake, u(1), u(4)),
        Err(stakeable_token::types::StakeError::DivisionByZero)
    );
    token.critical_mass.set(account(1), CriticalMass { total_amount: u(0), activation_day: u(0) });
    assert_eq!(token.check_referral_interest(&stake, u(1), u(3)), Ok(u(0)));
    token.critical_mass.set(account(1), CriticalMass { total_amount: u(0), activation_day: u(1) });
    assert_eq!(token.check_referral_interest(&stake, u(1), u(3)), Ok(u(150)));
}

#[test]
fn referrer_interest_bulk_checks_lengths() {
    let mut token = deploy();
    let r = token.referrer_interest_bulk(account(1), &vec![vec![1u32]], &vec![], day_ms(5));
    assert_eq!(r, Err(stakeable_token::types::StakeError::InvalidArgument));
    let ok = token.referrer_interest_bulk(account(1), &vec![], &vec![], day_ms(5));
    assert_eq!(ok, Ok(vec![]));
}

#[test]
fn threshold_and_activation_day_of_a_referrer() {
    let mut token = deploy();
    let referrer = account(3);
    token.critical_mass.set(referrer, CriticalMass { total_amount: u(5), activation_day: u(0) });
    assert_eq!(token.below_threshhold_level(&referrer), Ok(false));
    assert_eq!(token.activation_day(&referrer, 8), Ok(u(8)));
    assert_eq!(token.determine_activation_day(&referrer, 8), Ok(u(8)));

    token.critical_mass.set(referrer, CriticalMass { total_amount: u(5), activation_day: u(3) });
    assert_eq!(token.activation_day(&referrer, 8), Ok(u(3)));

    token.critical_mass.set(referrer, CriticalMass { total_amount: u(10_000_000_000_001), activation_day: u(3) });
    assert_eq!(token.below_threshhold_level(&referrer), Ok(true));
    assert_eq!(token.determine_activation_day(&referrer, 8), Ok(u(0)));

    assert_eq!(
        token.below_threshhold_level(&account(4)),
        Err(stakeable_token::types::StakeError::MissingRecord)
    );
    assert_eq!(
        token.activation_day(&account(4), 8),
        Err(stakeable_token::types::StakeError::MissingRecord)
    );
}

#[test]
fn a_refused_bulk_collection_changes_nothing() {
    let mut token = deploy();
    let staker = account(2);
    let referrer = account(1);
    let (_, referral_id) = referral_setup(&mut token, staker, referrer);
    let r = token.referrer_interest_bulk(
        referrer,
        &vec![referral_id.clone(), vec![9, 9, 9]],
        &vec![u(0), u(0)],
        day_ms(CURRENT_WISE_DAY),
    );
    assert_eq!(r, Err(stakeable_token::types::StakeError::MissingRecord));
    // the first collection, which would have ended the link, is undone
    let link = token.referrer_links.get(&RecordKey::new(referrer, &referral_id)).unwrap();
    assert!(link.is_active);
    assert_eq!(link.processed_days, u(10));
    // alone it goes through
    let ok = token.referrer_interest_bulk(referrer, &vec![referral_id.clone()], &vec![u(0)], day_ms(CURRENT_WISE_DAY));
    assert_eq!(ok, Ok(vec![u(0)]));
    assert!(!token.referrer_links.get(&RecordKey::new(referrer, &referral_id)).unwrap().is_active);
}
