use stakeable_token::bytes::to_bytes16;
use stakeable_token::contract::{Addresses, StakeableToken};
use stakeable_token::key::{zero_address, Key, Purse};
use stakeable_token::stable::StableUsd;
use stakeable_token::types::{ConstantParameters, StakeError};
use stakeable_token::u256::U256;

fn u(x: u64) -> U256 {
    U256::from_u64(x)
}

fn params() -> ConstantParameters {
    ConstantParameters {
        yodas_per_wise: u(1_000_000_000),
        precision_rate: u(1_000_000_000_000_000_000),
        threshold_limit: u(10_000_000_000_000),
        daily_bonus_a: u(13_698_630_136_986_302),
        daily_bonus_b: u(370_233_246_945_575),
        referrals_rate: u(366_816_973_500),
        inflation_rate_max: u(103_000),
        min_stake_amount: u(1_000_000),
        min_lock_days: 1,
        max_lock_days: 7300,
        max_bonus_days_a: 1825,
        max_bonus_days_b: 3650,
        min_referral_days: 365,
        formula_day: 365,
        seconds_in_day: 86400,
    }
}

fn account(b: u8) -> Key {
    Key::account([b; 32])
}

fn contract(b: u8) -> Key {
    Key::hash([b; 32])
}

fn purse() -> Purse {
    Purse { addr: [5u8; 32], access_rights: 7 }
}

fn owner() -> Key {
    account(9)
}

fn deploy_wise() -> StakeableToken {
    let addresses = Addresses {
        self_hash: contract(1),
        router: contract(2),
        factory: contract(3),
        pair: contract(4),
        liquidity_guard: contract(5),
        scspr: contract(6),
        wcspr: contract(7),
    };
    StakeableToken::new(params(), addresses, u(0), owner())
}

fn day_ms(day: u64) -> u64 {
    day * 86_400_000 + 1_000
}

#[test]
fn test_wise_deploy() {
    let token = deploy_wise();
    assert_ne!(token.addresses.self_hash, Key::hash([0u8; 32]));
    assert_eq!(token.transformer_gate_keeper, owner());
}

#[test]
fn test_stable_usd_equivalent_deploy() {
    let feed = StableUsd::new(contract(1), contract(6), contract(7), contract(8), contract(2));
    assert_ne!(feed.stakeable, Key::hash([0u8; 32]));
    assert_eq!(feed.yodas_per_wise, u(1_000_000_000));
    assert_eq!(feed.latest_stable_usd, u(0));
}

#[test]
fn set_liquidity_transfomer() {
    let mut token = deploy_wise();
    token.set_liquidity_transfomer(owner(), owner(), purse()).unwrap();
    assert_eq!(token.get_liquidity_transformer(), Ok(owner()));
    assert_eq!(token.liquidity_transformer_purse.map(|p| p.addr), Some([5u8; 32]));
    // the keeper role is given up: the transformer is set once
    assert_eq!(token.transformer_gate_keeper, zero_address());
    assert_eq!(
        token.set_liquidity_transfomer(owner(), account(4), purse()),
        Err(StakeError::TransformerDefined)
    );
}

#[test]
fn set_stable_usd_equivalent() {
    let mut token = deploy_wise();
    token.set_stable_usd_equivalent(owner(), contract(8)).unwrap();
    assert_eq!(token.stable_usd_equivalent, Some(contract(8)));
}

#[test]
fn renounce_keeper() {
    let mut token = deploy_wise();
    token.renounce_keeper(owner()).unwrap();
    assert_eq!(token.transformer_gate_keeper, zero_address());
    assert_eq!(token.change_keeper(owner(), account(3)), Err(StakeError::NotKeeper));
}

#[test]
fn mint_supply() {
    let mut token = deploy_wise();
    let user = account(3);
    let transformer = contract(10);
    token.set_liquidity_transfomer(owner(), transformer, purse()).unwrap();
    token.mint_supply(transformer, user, u(50)).unwrap();
    assert_eq!(token.balance_of(&user), u(50));
}

#[test]
fn extend_lt_auction() {
    let mut token = deploy_wise();
    let transformer = contract(10);
    token.set_liquidity_transfomer(owner(), transformer, purse()).unwrap();
    token.extend_lt_auction(day_ms(0), 0, u(0)).unwrap();
    assert_eq!(token.launch_time, u(0));
}

#[test]
fn only_the_keeper_acts_as_keeper() {
    let mut token = deploy_wise();
    let stranger = account(3);
    assert_eq!(token.set_liquidity_transfomer(stranger, stranger, purse()), Err(StakeError::TransformerDefined));
    assert_eq!(token.set_stable_usd_equivalent(stranger, stranger), Err(StakeError::NotKeeper));
    assert_eq!(token.renounce_keeper(stranger), Err(StakeError::NotKeeper));
    assert_eq!(token.get_liquidity_transformer(), Err(StakeError::MissingRecord));
    token.change_keeper(owner(), stranger).unwrap();
    assert!(token.only_keeper(&stranger));
    assert!(!token.only_keeper(&owner()));
}

#[test]
fn only_the_transformer_mints() {
    let mut token = deploy_wise();
    assert_eq!(token.mint_supply(owner(), account(3), u(1)), Err(StakeError::NotLiquidityTransformer));
    token.set_liquidity_transfomer(owner(), contract(10), purse()).unwrap();
    assert_eq!(token.mint_supply(owner(), account(3), u(1)), Err(StakeError::NotLiquidityTransformer));
    assert_eq!(token.total_supply, u(0));
}

#[test]
fn create_pair_records_the_pair() {
    let mut token = deploy_wise();
    assert_eq!(token.get_pair_address(), Err(StakeError::MissingRecord));
    let c = token.create_pair();
    assert_eq!(c.factory_hash, [3; 32]);
    assert_eq!(c.token_a, contract(6));
    assert_eq!(c.token_b, contract(1));
    assert_eq!(c.pair, contract(4));
    assert_eq!(token.get_pair_address(), Ok(contract(4)));
    assert_eq!(token.get_synthetic_token_address(), contract(6));
    assert_eq!(token.get_total_staked(), u(0));
}

#[test]
fn extend_lt_auction_on_day_fifteen() {
    let mut token = deploy_wise();
    // launch time 0: within ten minutes of sixteen days in milliseconds
    let blocktime = 15 * 86_400_000 + 1_000;
    token.launch_time = u(0);
    let r = token.extend_lt_auction(blocktime, 5_000_000_000, u(42));
    // 0 + 1382400000 - blocktime is a day, far above ten minutes
    assert_eq!(r, Ok(()));
    assert_eq!(token.launch_time, u(0));
    assert_eq!(token.lt_balance, u(0));
}

#[test]
fn extend_lt_auction_after_day_fifteen_resets_launch() {
    let mut token = deploy_wise();
    token.extend_lt_auction(16 * 86_400_000 + 1_000, 0, u(42)).unwrap();
    assert_eq!(token.launch_time, u(42));
}

#[test]
fn extend_lt_auction_tops_up() {
    let mut token = deploy_wise();
    // the launch time read as milliseconds lands the gap within ten minutes
    token.launch_time = u(0);
    token.params.seconds_in_day = 92_160;
    // day 15 of days of 92160 seconds, and 1382400000 - blocktime = 0 <= 600000
    let blocktime: u64 = 1_382_400_000;
    // a top-up below ten coins does not extend
    token.extend_lt_auction(blocktime, 5_000_000_000, u(0)).unwrap();
    assert_eq!(token.launch_time, u(0));
    assert_eq!(token.lt_balance, u(0));
    token.extend_lt_auction(blocktime, 20_000_000_000, u(0)).unwrap();
    assert_eq!(token.launch_time, u(600_000));
    assert_eq!(token.lt_balance, u(20_000_000_000));
    // a balance below the recorded one is refused
    token.launch_time = u(0);
    assert_eq!(token.extend_lt_auction(blocktime, 1, u(0)), Err(StakeError::Underflow));
}

#[test]
fn swap_requests() {
    let token = deploy_wise();
    let q = token.cspr_swap_request(account(3), u(40), 1_000, contract(2)).unwrap();
    assert_eq!(q.path, vec![contract(7), contract(6), contract(1)]);
    assert_eq!(q.deadline, u(1_000 + 7_200_000));
    assert_eq!(q.amount_out_min, u(1_000_000_000));
    let big = U256 { w0: 0, w1: 0, w2: 1, w3: 0 };
    assert!(token.cspr_swap_request(account(3), big, 1_000, contract(2)).is_err());
    let q = token.token_swap_request(account(3), contract(11), u(40), 1_000, contract(2));
    assert_eq!(q.path, vec![contract(11), contract(7), contract(6), contract(1)]);
}

#[test]
fn create_stake_with_swapped_amounts_needs_enough_amounts() {
    let mut token = deploy_wise();
    let r = token.create_stake_with_cspr(account(3), 30, account(4), &vec![u(1), u(2)], u(1), day_ms(5));
    assert_eq!(r, Err(StakeError::InvalidArgument));
    let r = token.create_stake_with_token(account(3), 30, account(4), &vec![u(1), u(2), u(3)], u(1), day_ms(5));
    assert_eq!(r, Err(StakeError::InvalidArgument));
}

#[test]
fn the_price_feed_reads_the_fourth_amount() {
    let mut feed = StableUsd::new(contract(1), contract(6), contract(7), contract(8), contract(2));
    assert_eq!(feed.get_stable_usd(&vec![]), Ok(u(0)));
    feed.update_stable_usd(&vec![u(1), u(2), u(3), u(4)]).unwrap();
    assert_eq!(feed.latest_stable_usd, u(4));
    assert_eq!(feed.get_stable_usd(&vec![]), Ok(u(4)));
    assert_eq!(feed.update_stable_usd(&vec![u(1)]), Err(StakeError::InvalidArgument));
    assert_eq!(feed.latest_stable_usd, u(4));
    let req = feed.amounts_out_request();
    assert_eq!(req.amount_in, u(1_000_000_000));
    assert_eq!(req.path, vec![contract(1), contract(6), contract(7), contract(8)]);
}

#[test]
fn decimals_set_the_units() {
    let mut feed = StableUsd::new(contract(1), contract(6), contract(7), contract(8), contract(2));
    feed.set_decimals(u(18)).unwrap();
    assert_eq!(feed.yodas_per_wise, u(1_000_000_000_000_000_000));
    assert_eq!(feed.set_decimals(u(78)), Err(StakeError::Overflow));
    assert_eq!(feed.decimals, u(18));
}

#[test]
fn bytes16_of_amounts() {
    // 0x0102 encodes as [2, 0x02, 0x01]: one pair, 2 + 2 * 256
    assert_eq!(to_bytes16(u(0x0102)), vec![514]);
    // zero encodes as [0]: no pair
    assert_eq!(to_bytes16(u(0)), Vec::<u16>::new());
    // 0x030201 encodes as [3, 1, 2, 3]: pairs (3, 1) and (2, 3)
    assert_eq!(to_bytes16(u(0x030201)), vec![3 + 256, 2 + 3 * 256]);
}
