use stakeable_token::guard::LiquidityGuard;
use stakeable_token::key::Key;
use stakeable_token::transfer::TransferHelper;
use stakeable_token::types::StakeError;
use stakeable_token::u256::U256;

fn u(x: u64) -> U256 {
    U256::from_u64(x)
}

/// Part of the inflation table the guard is filled with.
fn table() -> (Vec<u64>, Vec<U256>) {
    (
        vec![100000, 101314, 101320, 103000],
        vec![u(60835153328), u(279593807), u(278331162), u(123477676)],
    )
}

fn filled_guard() -> LiquidityGuard {
    let mut guard = LiquidityGuard::new();
    let (rates, values) = table();
    guard.assign_inflation(&rates, &values).unwrap();
    guard
}

#[test]
fn assign_inflation() {
    let mut guard = LiquidityGuard::new();
    assert_eq!(guard.get_inflation(103000), u(0), "Inflation value already assigned");
    let (rates, values) = table();
    guard.assign_inflation(&rates, &values).unwrap();
    assert_eq!(guard.get_inflation(103000), u(123477676), "Inflation value not assigned");
}

#[test]
fn tests_get_inflation() {
    let guard = filled_guard();
    assert_eq!(guard.get_inflation(101314), u(279593807), "Invalid Inflation value");
}

#[test]
fn liquidity_guard_test_test_deploy() {
    let guard = filled_guard();
    assert_eq!(guard.get_inflation(100000), u(60835153328));
}

#[test]
fn test_assign_inflation() {
    let guard = filled_guard();
    assert_eq!(guard.get_inflation(101320), u(278331162));
}

#[test]
fn liquidity_guard_test_get_inflation() {
    let guard = filled_guard();
    assert_eq!(u(60835153328), guard.get_inflation(100000));
}

#[test]
fn the_guard_is_filled_once() {
    let mut guard = filled_guard();
    let r = guard.assign_inflation(&vec![100000], &vec![u(1)]);
    assert_eq!(r, Err(StakeError::InflationAlreadyAssigned));
    assert_eq!(guard.get_inflation(100000), u(60835153328));
    let mut fresh = LiquidityGuard::new();
    assert_eq!(fresh.assign_inflation(&vec![1, 2], &vec![u(1)]), Err(StakeError::InvalidArgument));
    assert!(!fresh.is_ready);
    fresh.assign_inflation(&vec![1, 1], &vec![u(5), u(6)]).unwrap();
    assert_eq!(fresh.get_inflation(1), u(6));
}

fn owner() -> Key {
    Key::account([1; 32])
}

fn helper() -> TransferHelper {
    TransferHelper::new(Key::hash([2; 32]), owner())
}

#[test]
fn tests_get_transfer_invoker_address() {
    assert_eq!(helper().get_transfer_invoker_address(), owner(), "Owner not set invoker at default");
}

#[test]
fn should_forward_amount_from_transfer_invoker() {
    let token = Key::hash([3; 32]);
    let t = helper().forward_funds(owner(), token, u(100)).unwrap();
    assert_eq!(t.recipient, owner(), "Tokens not transfered");
    assert_eq!(t.amount, u(100), "Tokens not transfered");
    assert_eq!(t.token_hash, [3; 32]);
}

#[test]
#[should_panic]
fn should_not_forward_amount_without_transfer_invoker() {
    let token = Key::hash([3; 32]);
    helper().forward_funds(Key::account([4; 32]), token, u(100)).unwrap();
}

#[test]
fn transfer_helper_tests_test_deploy() {
    let h = helper();
    assert_eq!(h.self_hash, Key::hash([2; 32]));
}

#[test]
fn transfer_helper_tests_get_transfer_invoker_address() {
    let invoker = Key::hash([5; 32]);
    let h = TransferHelper::new(Key::hash([2; 32]), invoker);
    assert_eq!(h.get_transfer_invoker_address(), invoker);
}

#[test]
fn test_forward_amount_with_transfer_invoker() {
    let invoker = Key::hash([5; 32]);
    let h = TransferHelper::new(Key::hash([2; 32]), invoker);
    let t = h.forward_funds(invoker, Key::hash([3; 32]), u(50)).unwrap();
    assert_eq!(t.recipient, invoker);
    assert_eq!(t.amount, u(50));
}

#[test]
#[should_panic]
fn test_forward_amount_without_transfer_invoker() {
    let invoker = Key::hash([5; 32]);
    let h = TransferHelper::new(Key::hash([2; 32]), invoker);
    h.forward_funds(Key::hash([6; 32]), Key::hash([3; 32]), u(50)).unwrap();
}

#[test]
fn forwarding_refusal_names_the_rights() {
    let r = helper().forward_funds(Key::account([4; 32]), Key::hash([3; 32]), u(1));
    assert!(matches!(r, Err(StakeError::NoAccessRights)));
    let t = helper().forward_funds(owner(), Key::account([3; 32]), u(1)).unwrap();
    assert_eq!(t.token_hash, [0; 32]);
}
