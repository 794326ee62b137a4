use share_vault::rate::{assets_to_return, shares_to_mint};
use share_vault::{HolderLedger, Payment, SupplyLedger, VaultError, VaultState};

const DENOM: &str = "uawesome";

fn coins(amount: u128) -> Vec<Payment> {
    vec![Payment { denom: DENOM.to_string(), amount }]
}

fn user(name: &str) -> String {
    name.to_string()
}

/// A vault together with the pool's asset total and each party's wallet.
struct Bank {
    vault: VaultState,
    pool: u128,
}

impl Bank {
    fn new() -> Bank {
        Bank { vault: VaultState::instantiate(DENOM.to_string()), pool: 0 }
    }

    fn mint(&mut self, who: &str, amount: u128) -> Result<u128, VaultError> {
        self.pool += amount;
        let r = self.vault.mint(&user(who), &coins(amount), self.pool);
        if r.is_err() {
            self.pool -= amount;
        }
        r
    }

    fn burn(&mut self, who: &str, shares: u128) -> Result<u128, VaultError> {
        let payout = self.vault.burn(&user(who), shares, self.pool)?;
        assert_eq!(payout.to, who);
        assert_eq!(payout.denom, DENOM);
        self.pool -= payout.amount;
        Ok(payout.amount)
    }

    fn donate(&mut self, amount: u128) {
        self.pool += amount;
    }
}

#[test]
fn integration_tests_basic_flow() {
    let mut bank = Bank::new();
    let mut user_wallet: u128 = 10_000;
    let mut user2_wallet: u128 = 10_000;

    user_wallet -= 10_000;
    bank.mint("user", 10_000).unwrap();
    user2_wallet -= 10_000;
    bank.mint("user2", 10_000).unwrap();

    let balance = bank.vault.balance_of(&user("user"));
    user_wallet += bank.burn("user", balance).unwrap();
    user2_wallet += bank.burn("user2", balance).unwrap();

    assert_eq!(user_wallet, 10_000);
    assert_eq!(user2_wallet, 10_000);
    assert_eq!(bank.pool, 0);
}

#[test]
fn integration_tests_test_exploit() {
    let mut bank = Bank::new();
    let d1: u128 = 9;
    let d2: u128 = 10000;
    let t: u128 = 9000;
    let mut user_wallet: u128 = 10000;
    let mut user2_wallet: u128 = 10000;

    user_wallet -= d1;
    assert_eq!(bank.mint("user", d1), Ok(9));

    user_wallet -= t;
    bank.donate(t);
    assert_eq!(bank.pool, 9009);

    // 10000 * 9 / 9009 rounds down to 9 shares
    user2_wallet -= d2;
    assert_eq!(bank.mint("user2", d2), Ok(9));

    // 9 * 19009 / 18 rounds down to 9504
    user_wallet += bank.burn("user", d1).unwrap();
    assert_eq!(user_wallet, 10495);
    assert_eq!(user2_wallet, 0);
    assert!(user_wallet > 10000);
}

#[test]
fn bootstrap_mints_one_to_one() {
    let mut bank = Bank::new();
    assert_eq!(bank.mint("alice", 1234), Ok(1234));
    assert_eq!(bank.vault.total_supply(), 1234);
    assert_eq!(bank.vault.balance_of(&user("alice")), 1234);
}

#[test]
fn proportional_mint_then_burn_creates_no_value() {
    let mut bank = Bank::new();
    bank.mint("alice", 100).unwrap();
    bank.donate(7);
    // pool 107, supply 100: 50 * 100 / 107 = 46
    assert_eq!(bank.mint("bob", 50), Ok(46));
    // pool 157, supply 146: 46 * 157 / 146 = 49
    assert_eq!(bank.burn("bob", 46), Ok(49));
    assert!(49 <= 50);
}

#[test]
fn zero_supply_burn_fails() {
    let mut vault = VaultState::instantiate(DENOM.to_string());
    assert_eq!(vault.burn(&user("alice"), 5, 1000).unwrap_err(), VaultError::ZeroSupply);
    assert_eq!(vault.burn(&user("alice"), 0, 0).unwrap_err(), VaultError::ZeroSupply);
    assert_eq!(vault.total_supply(), 0);
}

#[test]
fn burn_more_than_held_fails_and_keeps_ledgers() {
    let mut bank = Bank::new();
    bank.mint("alice", 100).unwrap();
    bank.mint("bob", 50).unwrap();
    assert_eq!(bank.burn("bob", 51), Err(VaultError::InsufficientShareBalance));
    assert_eq!(bank.burn("carol", 1), Err(VaultError::InsufficientShareBalance));
    assert_eq!(bank.burn("bob", 0), Err(VaultError::InsufficientShareBalance));
    assert_eq!(bank.vault.total_supply(), 150);
    assert_eq!(bank.vault.balance_of(&user("alice")), 100);
    assert_eq!(bank.vault.balance_of(&user("bob")), 50);
}

#[test]
fn mint_at_max_supply_overflows() {
    let mut vault = VaultState::instantiate(DENOM.to_string());
    assert_eq!(vault.mint(&user("alice"), &coins(u128::MAX), u128::MAX), Ok(u128::MAX));
    // pool held u128::MAX - 1 before a deposit of 1: priced at one share
    let r = vault.mint(&user("bob"), &coins(1), u128::MAX);
    assert_eq!(r, Err(VaultError::ArithmeticOverflow));
    assert_eq!(vault.total_supply(), u128::MAX);
    assert_eq!(vault.balance_of(&user("bob")), 0);
}

#[test]
fn burn_at_max_does_not_wrap() {
    let mut vault = VaultState::instantiate(DENOM.to_string());
    vault.mint(&user("alice"), &coins(u128::MAX), u128::MAX).unwrap();
    let p = vault.burn(&user("alice"), u128::MAX, u128::MAX).unwrap();
    assert_eq!(p.amount, u128::MAX);
    assert_eq!(vault.total_supply(), 0);
}

#[test]
fn supply_ledger_reports_overflow_and_underflow() {
    let mut s = SupplyLedger::new();
    assert_eq!(s.increase(u128::MAX), Ok(()));
    assert_eq!(s.increase(1), Err(VaultError::ArithmeticOverflow));
    assert_eq!(s.total(), u128::MAX);
    assert_eq!(s.decrease(u128::MAX), Ok(()));
    assert_eq!(s.decrease(1), Err(VaultError::ArithmeticUnderflow));
    assert_eq!(s.total(), 0);
}

#[test]
fn holder_ledger_credit_and_debit() {
    let mut l = HolderLedger::new();
    let a = user("a");
    let b = user("b");
    assert_eq!(l.credit(&a, 10), Ok(()));
    assert_eq!(l.credit(&b, 3), Ok(()));
    assert_eq!(l.credit(&a, 5), Ok(()));
    assert_eq!(l.balance_of(&a), 15);
    assert_eq!(l.balance_of(&b), 3);
    assert_eq!(l.debit(&b, 4), Err(VaultError::InsufficientShareBalance));
    assert_eq!(l.debit(&a, 15), Ok(()));
    assert_eq!(l.balance_of(&a), 0);
    assert_eq!(l.credit(&b, u128::MAX), Err(VaultError::ArithmeticOverflow));
    assert_eq!(l.balance_of(&b), 3);
}

#[test]
fn deposit_of_wrong_funds_is_invalid() {
    let mut vault = VaultState::instantiate(DENOM.to_string());
    let alice = user("alice");
    assert_eq!(vault.mint(&alice, &vec![], 0), Err(VaultError::InvalidDeposit));
    assert_eq!(vault.mint(&alice, &coins(0), 0), Err(VaultError::InvalidDeposit));
    let other = vec![Payment { denom: "uother".to_string(), amount: 10 }];
    assert_eq!(vault.mint(&alice, &other, 10), Err(VaultError::InvalidDeposit));
    let two = vec![
        Payment { denom: DENOM.to_string(), amount: 10 },
        Payment { denom: "uother".to_string(), amount: 10 },
    ];
    assert_eq!(vault.mint(&alice, &two, 10), Err(VaultError::InvalidDeposit));
    assert_eq!(vault.total_supply(), 0);
}

#[test]
fn pool_below_deposit_underflows() {
    let mut vault = VaultState::instantiate(DENOM.to_string());
    assert_eq!(vault.mint(&user("a"), &coins(10), 9), Err(VaultError::ArithmeticUnderflow));
}

#[test]
fn deposit_rounding_to_zero_is_refused() {
    let mut bank = Bank::new();
    bank.mint("alice", 1).unwrap();
    bank.donate(100);
    assert_eq!(bank.mint("bob", 100), Err(VaultError::ZeroMintResult));
    assert_eq!(bank.vault.total_supply(), 1);
}

#[test]
fn burn_returning_zero_is_refused() {
    let mut vault = VaultState::instantiate(DENOM.to_string());
    vault.mint(&user("a"), &coins(10), 10).unwrap();
    // the pool was drained elsewhere down to 0
    assert_eq!(vault.burn(&user("a"), 5, 0).unwrap_err(), VaultError::ZeroReturnResult);
    assert_eq!(vault.balance_of(&user("a")), 10);
}

#[test]
fn rate_formulas() {
    assert_eq!(shares_to_mint(10_000, 9, 9009), Ok(9));
    assert_eq!(shares_to_mint(7, 0, 500), Ok(7));
    assert_eq!(shares_to_mint(0, 0, 0), Err(VaultError::ZeroMintResult));
    assert_eq!(shares_to_mint(5, 3, 0), Err(VaultError::ArithmeticOverflow));
    assert_eq!(shares_to_mint(u128::MAX, 2, 1), Err(VaultError::ArithmeticOverflow));
    // the product exceeds 128 bits but the quotient does not
    assert_eq!(shares_to_mint(u128::MAX, u128::MAX, u128::MAX), Ok(u128::MAX));
    assert_eq!(assets_to_return(9, 18, 19009), Ok(9504));
    assert_eq!(assets_to_return(1, 0, 5), Err(VaultError::ZeroSupply));
    assert_eq!(assets_to_return(1, 3, 2), Err(VaultError::ZeroReturnResult));
    assert_eq!(assets_to_return(3, 1, u128::MAX), Err(VaultError::ArithmeticOverflow));
}
