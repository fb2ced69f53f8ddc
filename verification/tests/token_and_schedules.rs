use stakeable_token::contract::{Addresses, StakeableToken};
use stakeable_token::key::Key;
use stakeable_token::shares::{base_amount, get_bonus, regular_bonus, stakes_shares};
use stakeable_token::snapshot::{adjusted_rates, guard_status};
use stakeable_token::types::{ConstantParameters, StakeError};
use stakeable_token::u256::U256;

fn u(x: u64) -> U256 {
    U256::from_u64(x)
}

fn params() -> ConstantParameters {
    ConstantParameters {
        yodas_per_wise: u(1_000_000_000),
        precision_rate: u(1_000_000_000_000_000_000),
        threshold_limit: u(10_000_000_000_000),
        daily_bonus_a: u(13_698_630_136_986_302),
        daily_bonus_b: u(370_233_246_945_575),
        referrals_rate: u(366_816_973_500),
        inflation_rate_max: u(103_000),
        min_stake_amount: u(1_000_000),
        min_lock_days: 1,
        max_lock_days: 7300,
        max_bonus_days_a: 1825,
        max_bonus_days_b: 3650,
        min_referral_days: 365,
        formula_day: 365,
        seconds_in_day: 86400,
    }
}

fn account(b: u8) -> Key {
    Key::account([b; 32])
}

fn contract(b: u8) -> Key {
    Key::hash([b; 32])
}

fn deploy() -> StakeableToken {
    let addresses = Addresses {
        self_hash: contract(1),
        router: contract(2),
        factory: contract(3),
        pair: contract(4),
        liquidity_guard: contract(5),
        scspr: contract(6),
        wcspr: contract(7),
    };
    StakeableToken::new(params(), addresses, u(0), account(9))
}

#[test]
fn burning_what_was_minted_restores_balances() {
    let mut token = deploy();
    let who = account(1);
    token.mint(&account(2), u(5)).unwrap();
    token.mint(&who, u(70)).unwrap();
    assert_eq!(token.balance_of(&who), u(70));
    assert_eq!(token.total_supply, u(75));
    token.burn(&who, u(70)).unwrap();
    assert_eq!(token.balance_of(&who), u(0));
    assert_eq!(token.balance_of(&account(2)), u(5));
    assert_eq!(token.total_supply, u(5));
}

#[test]
fn burning_more_than_held_is_refused() {
    let mut token = deploy();
    token.mint(&account(1), u(5)).unwrap();
    assert_eq!(token.burn(&account(1), u(6)), Err(StakeError::Underflow));
    assert_eq!(token.balance_of(&account(1)), u(5));
}

#[test]
fn minting_past_the_maximum_is_refused() {
    let mut token = deploy();
    let max = U256 { w0: u64::MAX, w1: u64::MAX, w2: u64::MAX, w3: u64::MAX };
    token.mint(&account(1), max).unwrap();
    assert_eq!(token.mint(&account(2), u(1)), Err(StakeError::Overflow));
    assert_eq!(token.total_supply, max);
}

#[test]
fn scheduled_shares_round_trip() {
    let mut token = deploy();
    token.scheduled_to_end.set(40, u(7));
    token.add_scheduled_shares(40, u(30)).unwrap();
    assert_eq!(token.scheduled_to_end.get(&40).copied(), Some(u(37)));
    token.remove_scheduled_shares(40, u(30), 10);
    assert_eq!(token.scheduled_to_end.get(&40).copied(), Some(u(7)));
    // past the final day, yesterday's snapshot gives them up, not below zero
    token.remove_scheduled_shares(40, u(30), 50);
    assert_eq!(token.snapshots.get(&49).copied().unwrap().scheduled_to_end, u(0));
    assert_eq!(token.scheduled_to_end.get(&40).copied(), Some(u(7)));
}

#[test]
fn penalties_add_up_per_day() {
    let mut token = deploy();
    token.store_penalty(3, u(0)).unwrap();
    assert!(!token.total_penalties.contains(&3));
    token.store_penalty(3, u(4)).unwrap();
    token.store_penalty(3, u(5)).unwrap();
    assert_eq!(token.total_penalties.get(&3).copied(), Some(u(9)));
}

#[test]
fn rates_move_by_six_and_keep_their_sum() {
    let max = u(103_000);
    assert_eq!(adjusted_rates(true, u(103_000), u(100_006), max), Ok((u(102_994), u(100_012))));
    assert_eq!(adjusted_rates(false, u(102_994), u(100_012), max), Ok((u(103_000), u(100_006))));
    assert_eq!(adjusted_rates(false, u(103_000), u(100_006), max), Ok((u(103_000), u(100_006))));
    assert!(adjusted_rates(true, u(5), u(100_006), max).is_err());
}

#[test]
fn guard_switches_by_the_pair_share() {
    // 200 * on_pair / supply below 40 turns it on, above 60 off
    assert_eq!(guard_status(false, 19, u(100)), true);
    assert_eq!(guard_status(false, 25, u(100)), false);
    assert_eq!(guard_status(true, 31, u(100)), false);
    assert_eq!(guard_status(true, 25, u(100)), true);
    assert_eq!(guard_status(false, 0, u(0)), true);
}

#[test]
fn shares_of_a_stake() {
    let p = params();
    // 10^11 * 10^18 / 10^17
    assert_eq!(base_amount(&p, u(100_000_000_000), u(100_000_000_000_000_000)), Ok(u(1_000_000_000_000)));
    // 1000 days at 2 * 10^18 a day, over 10^18
    assert_eq!(regular_bonus(u(1000), u(2_000_000_000_000_000_000), u(1825)), Ok(u(2000)));
    assert_eq!(regular_bonus(u(3000), u(2_000_000_000_000_000_000), u(1825)), Ok(u(3650)));
    // the second tier adds nothing
    let mut q = p;
    q.daily_bonus_a = u(1_000_000_000_000_000_000);
    assert_eq!(get_bonus(&q, u(2000), u(10)), Ok(u(1825 + 10)));
    // a referred stake: base 10^12 times (10^10 + 1.1 * 10^10 bonus... ) over 10^10
    let shares = stakes_shares(&p, u(100_000_000_000), u(30), &account(4), u(100_000_000_000_000_000)).unwrap();
    assert_eq!(shares, u(1_100_000_000_000));
}
