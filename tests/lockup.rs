use share_vault::lockup::{LockupError, LockupRegistry, LOCK_PERIOD, MINIMUM_DEPOSIT_AMOUNT};
use share_vault::Payment;

const DENOM: &str = "uawesome";
const NOW: u64 = 1_571_797_419_879_305_533;
const LATER: u64 = NOW + LOCK_PERIOD * 1_000_000_000;

fn coins(amount: u128) -> Vec<Payment> {
    vec![Payment { denom: DENOM.to_string(), amount }]
}

fn addr(s: &str) -> String {
    s.to_string()
}

#[test]
fn deposit_and_withdraw() {
    let mut reg = LockupRegistry::instantiate(DENOM.to_string());
    let alice = addr("alice");
    assert_eq!(reg.deposit(&alice, &coins(10_000), NOW), Ok(1));
    assert_eq!(reg.deposit(&alice, &coins(20_000), NOW), Ok(2));
    let l = reg.get_lockup(2).unwrap();
    assert_eq!(l.owner, alice);
    assert_eq!(l.amount, 20_000);
    assert_eq!(l.release_timestamp, LATER);

    assert_eq!(reg.withdraw(&alice, &vec![1, 2], LATER - 1), Err(LockupError::Unauthorized));
    assert_eq!(reg.withdraw(&alice, &vec![1, 2], LATER), Ok(30_000));
    assert!(reg.get_lockup(1).is_none());
    assert!(reg.get_lockup(2).is_none());
}

#[test]
fn repeated_id_withdraws_once() {
    let mut reg = LockupRegistry::instantiate(DENOM.to_string());
    let alice = addr("alice");
    let bob = addr("bob");
    reg.deposit(&alice, &coins(MINIMUM_DEPOSIT_AMOUNT), NOW).unwrap();
    reg.deposit(&bob, &coins(50_000), NOW).unwrap();
    assert_eq!(reg.withdraw(&alice, &vec![1, 1, 1], LATER), Err(LockupError::LockupNotFound));
    // nothing was removed
    assert!(reg.get_lockup(1).is_some());
    assert_eq!(reg.withdraw(&alice, &vec![2], LATER), Err(LockupError::Unauthorized));
    assert_eq!(reg.withdraw(&alice, &vec![7], LATER), Err(LockupError::LockupNotFound));
    assert_eq!(reg.withdraw(&alice, &vec![1], LATER), Ok(10_000));
}

#[test]
fn deposit_rules() {
    let mut reg = LockupRegistry::instantiate(DENOM.to_string());
    let alice = addr("alice");
    assert_eq!(reg.deposit(&alice, &coins(9_999), NOW), Err(LockupError::Unauthorized));
    assert_eq!(reg.deposit(&alice, &vec![], NOW), Err(LockupError::InvalidDeposit));
    let other = vec![Payment { denom: "uother".to_string(), amount: 10_000 }];
    assert_eq!(reg.deposit(&alice, &other, NOW), Err(LockupError::InvalidDeposit));
    assert_eq!(reg.deposit(&alice, &coins(10_000), u64::MAX), Err(LockupError::ArithmeticOverflow));
    assert!(reg.get_lockup(1).is_none());
}

#[test]
fn withdraw_total_overflow_is_refused() {
    let mut reg = LockupRegistry::instantiate(DENOM.to_string());
    let alice = addr("alice");
    reg.deposit(&alice, &coins(u128::MAX), NOW).unwrap();
    reg.deposit(&alice, &coins(10_000), NOW).unwrap();
    assert_eq!(reg.withdraw(&alice, &vec![1, 2], LATER), Err(LockupError::ArithmeticOverflow));
    assert_eq!(reg.withdraw(&alice, &vec![], LATER), Ok(0));
}
