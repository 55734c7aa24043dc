use bank::account::{BankAccount, Defaults};
use bank::balance::Balance;
use bank::bank::Bank;
use bank::customer::{Customer, CustomerRegistration};
use bank::decimal::{Decimal, SCALE};
use bank::error::LedgerError;

fn units(n: i64) -> Decimal {
    Decimal::from_int(n)
}

fn verified_customer(bank: &mut Bank, now: u64) -> usize {
    let (id, _) = bank
        .customer_registration("Satoshi".to_string(), "Nakamoto".to_string(), now)
        .unwrap();
    bank.set_customer_known(id, now).unwrap();
    id
}

#[test]
fn customer_registration_receipt_is_ok() {
    let mut bank = Bank::new(units(1000), 0);
    let r = bank.customer_registration("Satoshi".to_string(), "Nakamoto".to_string(), 0);
    assert!(r.is_ok());
}

#[test]
fn registration_then_mark_known_once() {
    let mut bank = Bank::new(units(1000), 1);
    let (id, reg) = bank
        .customer_registration("Satoshi".to_string(), "Nakamoto".to_string(), 1)
        .unwrap();
    assert_eq!(reg.first_name, "Satoshi");
    assert_eq!(reg.last_name, "Nakamoto");
    let c = bank.customer(id).unwrap();
    assert_eq!(c.known_since, None);
    assert_eq!(c.customer_since, 1);
    assert_eq!(bank.set_customer_known(id, 2), Ok(()));
    assert_eq!(bank.customer(id).unwrap().known_since, Some(2));
    assert_eq!(bank.set_customer_known(id, 3), Err(LedgerError::AlreadyKnown));
    assert_eq!(bank.customer(id).unwrap().known_since, Some(2));
}

#[test]
fn registration_trims_names() {
    let reg = CustomerRegistration::new("  Satoshi\t".to_string(), "\nNakamoto ".to_string()).unwrap();
    assert_eq!(reg.first_name, "Satoshi");
    assert_eq!(reg.last_name, "Nakamoto");
}

#[test]
fn registration_rejects_blank_names() {
    let mut bank = Bank::new(units(1000), 0);
    let r = bank.customer_registration("   ".to_string(), "Nakamoto".to_string(), 0);
    assert_eq!(r, Err(LedgerError::InvalidName));
    let r = bank.customer_registration("Satoshi".to_string(), "".to_string(), 0);
    assert_eq!(r, Err(LedgerError::InvalidName));
    assert!(bank.customers.is_empty());
}

#[test]
fn identities_are_never_reused() {
    let mut bank = Bank::new(units(0), 0);
    let (a, _) = bank.customer_registration("A".to_string(), "B".to_string(), 0).unwrap();
    let (b, _) = bank.customer_registration("A".to_string(), "B".to_string(), 0).unwrap();
    assert_ne!(a, b);
}

#[test]
fn deposit_by_unverified_customer_fails() {
    let mut bank = Bank::new(units(1000), 0);
    let (id, _) = bank
        .customer_registration("Satoshi".to_string(), "Nakamoto".to_string(), 0)
        .unwrap();
    let r = bank.deposit(id, units(10), units(1_000_000), 0);
    assert_eq!(r, Err(LedgerError::NotVerified));
    assert_eq!(bank.vault, units(1000));
}

#[test]
fn unverified_deposit_short_of_funds_is_not_verified() {
    let mut bank = Bank::new(units(0), 0);
    let (id, _) = bank.customer_registration("A".to_string(), "B".to_string(), 0).unwrap();
    let before = bank.customer(id).unwrap();
    let r = bank.deposit(id, Decimal::from_attos(10), Decimal::from_attos(5), 0);
    assert_eq!(r, Err(LedgerError::NotVerified));
    assert_eq!(bank.customer(id).unwrap(), before);
    assert_eq!(bank.vault, units(0));
}

#[test]
fn unverified_withdraw_beyond_fund_is_not_verified() {
    let mut bank = Bank::new(units(1), 0);
    let (id, _) = bank.customer_registration("A".to_string(), "B".to_string(), 0).unwrap();
    assert_eq!(bank.withdraw(id, units(50), 0), Err(LedgerError::NotVerified));
    assert_eq!(bank.vault, units(1));
}

#[test]
fn deposit_then_oversized_withdraw() {
    let mut bank = Bank::new(units(0), 0);
    let id = verified_customer(&mut bank, 0);
    let rest = bank.deposit(id, units(100), units(250), 0).unwrap();
    assert_eq!(rest, units(150));
    assert_eq!(bank.vault, units(100));
    let before = bank.customer(id).unwrap();
    assert_eq!(before.account.signed_balance(), units(-100));
    assert_eq!(before.account.credit.balance, units(100));
    assert_eq!(before.account.balance(), units(100));
    assert_eq!(before.account.balance_type(), "CR");
    let r = bank.withdraw(id, units(150), 0);
    assert_eq!(r, Err(LedgerError::InsufficientFunds));
    assert_eq!(bank.customer(id).unwrap(), before);
    assert_eq!(bank.vault, units(100));
}

#[test]
fn deposit_reaching_credit_limit_fails() {
    let mut bank = Bank::new(units(0), 0);
    let id = verified_customer(&mut bank, 0);
    bank.deposit(id, units(10), units(10), 0).unwrap();
    let before = bank.customer(id).unwrap();
    let r = bank.deposit(id, units(999_990), units(2_000_000), 0);
    assert_eq!(r, Err(LedgerError::LimitExceeded));
    assert_eq!(bank.customer(id).unwrap(), before);
    assert_eq!(bank.vault, units(10));
    let r = bank.deposit(id, units(999_989), units(2_000_000), 0);
    assert_eq!(r, Ok(units(2_000_000 - 999_989)));
}

#[test]
fn deposit_error_order() {
    let mut bank = Bank::new(units(0), 0);
    let id = verified_customer(&mut bank, 0);
    assert_eq!(bank.deposit(id + 1, units(1), units(1), 0), Err(LedgerError::UnknownIdentity));
    assert_eq!(bank.deposit(id, units(2), units(1), 0), Err(LedgerError::InsufficientFunds));
    assert_eq!(bank.deposit(id, units(0), units(1), 0), Err(LedgerError::InvalidAmount));
    assert_eq!(bank.deposit(id, units(-1), units(1), 0), Err(LedgerError::InvalidAmount));
}

#[test]
fn withdraw_error_order_and_debit_limit() {
    let mut bank = Bank::new(units(5000), 0);
    let id = verified_customer(&mut bank, 0);
    assert_eq!(bank.withdraw(id + 7, units(1), 0), Err(LedgerError::UnknownIdentity));
    assert_eq!(bank.withdraw(id, units(0), 0), Err(LedgerError::InvalidAmount));
    assert_eq!(bank.withdraw(id, units(1000), 0), Err(LedgerError::LimitExceeded));
    assert_eq!(bank.withdraw(id, units(999), 0), Ok(units(999)));
    assert_eq!(bank.vault, units(4001));
    let c = bank.customer(id).unwrap();
    assert_eq!(c.account.signed_balance(), units(999));
    assert_eq!(c.account.balance_type(), "DR");
}

#[test]
fn withdraw_by_unverified_customer_fails() {
    let mut bank = Bank::new(units(100), 0);
    let (id, _) = bank.customer_registration("A".to_string(), "B".to_string(), 0).unwrap();
    assert_eq!(bank.withdraw(id, units(1), 0), Err(LedgerError::NotVerified));
}

#[test]
fn describe_unknown_customer_fails() {
    let bank = Bank::new(units(100), 0);
    assert_eq!(bank.customer(0), Err(LedgerError::UnknownIdentity));
    let mut bank = bank;
    assert_eq!(bank.set_customer_known(3, 0), Err(LedgerError::UnknownIdentity));
}

fn defaults() -> Defaults {
    Defaults::new(
        Decimal::from_attos(SCALE / 100),
        units(1_000_000),
        Decimal::from_attos(SCALE / 20),
        units(1000),
    )
}

#[test]
fn credit_then_debit_restores_position() {
    let acct = BankAccount::new(&defaults(), 4);
    let acct = acct.debit(units(30), 4).unwrap();
    let mid = acct.credit(units(75), 4).unwrap();
    assert_eq!(mid.signed_balance(), units(-45));
    assert_eq!(mid.debit.balance, units(0));
    assert_eq!(mid.credit.balance, units(45));
    let back = mid.debit(units(75), 4).unwrap();
    assert_eq!(back.signed_balance(), acct.signed_balance());
}

#[test]
fn interest_accrues_on_prior_balance() {
    let b = Balance::new(Decimal::from_attos(SCALE / 20), units(1000), 10);
    let b = b.new_balance(units(100), 10).unwrap();
    assert_eq!(b.balance, units(100));
    assert_eq!(b.elapsed(13), 3);
    let b = b.new_balance(units(100), 13).unwrap();
    assert_eq!(b.balance, units(115));
    assert_eq!(b.last_update, 13);
    assert_eq!(b.interest_rate, Decimal::from_attos(SCALE / 20));
}

#[test]
fn interest_strictly_increases_with_elapsed_epochs() {
    let b = Balance::new(Decimal::from_attos(SCALE / 100), units(1_000_000), 0);
    let b = b.new_balance(units(100), 0).unwrap();
    let one = b.new_balance(units(0), 1).unwrap().balance;
    let two = b.new_balance(units(0), 2).unwrap().balance;
    let five = b.new_balance(units(0), 5).unwrap().balance;
    assert_eq!(one, units(1));
    assert_eq!(two, units(2));
    assert_eq!(five, units(5));
}

#[test]
fn interest_rounds_down_to_an_atto() {
    let b = Balance::new(Decimal::from_attos(SCALE / 100), units(1000), 0);
    let b = b.new_balance(Decimal::from_attos(150), 0).unwrap();
    let b = b.new_balance(Decimal::from_attos(0), 2).unwrap();
    assert_eq!(b.balance, Decimal::from_attos(2));
}

#[test]
fn balance_reaching_limit_fails() {
    let b = Balance::new(Decimal::from_attos(0), units(1000), 0);
    assert_eq!(b.new_balance(units(1000), 0), Err(LedgerError::LimitExceeded));
    assert!(b.new_balance(Decimal::from_attos(1000 * SCALE - 1), 0).is_ok());
}

#[test]
fn both_sides_accrue_on_sign_change() {
    let acct = BankAccount::new(&defaults(), 0);
    let acct = acct.debit(units(100), 0).unwrap();
    let flipped = acct.credit(units(120), 2).unwrap();
    assert_eq!(flipped.debit.balance, units(10));
    assert_eq!(flipped.credit.balance, units(20));
    assert_eq!(flipped.credit.last_update, 2);
}

#[test]
fn huge_amounts_fail_on_limit() {
    let acct = BankAccount::new(&defaults(), 0);
    let r = acct.credit(Decimal::from_attos(i128::MAX), 0);
    let r2 = r.and_then(|a| a.credit(Decimal::from_attos(i128::MAX), 0));
    assert_eq!(r2, Err(LedgerError::LimitExceeded));
    assert_eq!(acct.debit(Decimal::from_attos(i128::MAX), 0), Err(LedgerError::LimitExceeded));
}

#[test]
fn fresh_customer_is_unverified() {
    let c = Customer::new(&defaults(), 9);
    assert_eq!(c.known_since, None);
    assert_eq!(c.customer_since, 9);
    assert_eq!(c.account.signed_balance(), units(0));
    assert_eq!(c.account.balance_type(), "CR");
    let mut c = c;
    assert_eq!(c.mark_known(11), Ok(()));
    assert_eq!(c.mark_known(12), Err(LedgerError::AlreadyKnown));
    assert_eq!(c.known_since, Some(11));
}
