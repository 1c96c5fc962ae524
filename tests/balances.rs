use payment_engine::balances::{Balances, Error};
use payment_engine::checked_decimal::NonNegative;

fn new_balance(available: NonNegative, held: NonNegative) -> Balances {
    Balances::new_with_values(available, held)
}

#[test]
fn balances_deposit() {
    let mut balance = new_balance(100.into(), 200.into());

    assert!(balance.deposit(1.into()).is_ok());
    assert_eq!(balance.available(), 101.into());
}

#[test]
fn balances_withdrawal() {
    let mut balance = new_balance(100.into(), 200.into());

    assert!(balance.withdrawal(1.into()).is_ok());
    assert_eq!(balance.available(), 99.into());
}

#[test]
fn balances_dispute() {
    let mut balance = new_balance(100.into(), 200.into());

    assert!(balance.dispute(1.into()).is_ok());
    assert_eq!(balance.held(), 201.into());
    assert_eq!(balance.available(), 99.into());
}

#[test]
fn balances_resolve() {
    let mut balance = new_balance(100.into(), 200.into());

    assert!(balance.resolve(1.into()).is_ok());
    assert_eq!(balance.held(), 199.into());
    assert_eq!(balance.available(), 101.into());
}

#[test]
fn balances_chargeback() {
    let mut balance = new_balance(100.into(), 200.into());

    assert!(balance.chargeback(1.into()).is_ok());
    assert_eq!(balance.held(), 199.into());
}

#[test]
fn balances_deposit_overflow() {
    let mut balance = new_balance(NonNegative::max_value(), 100.into());
    assert!(matches!(
        balance.deposit(1.into()),
        Err(Error::ArithmeticOverflow)
    ));
}

#[test]
fn balances_withdrawal_overflow() {
    let mut balance = new_balance(NonNegative::min_value(), 100.into());
    assert!(matches!(
        balance.withdrawal(1.into()),
        Err(Error::ArithmeticOverflow)
    ));
}

#[test]
fn balances_dispute_overflow() {
    let mut balance = new_balance(100.into(), NonNegative::max_value());
    assert!(matches!(
        balance.dispute(1.into()),
        Err(Error::ArithmeticOverflow)
    ));

    let mut balance = new_balance(NonNegative::min_value(), 100.into());
    assert!(matches!(
        balance.dispute(1.into()),
        Err(Error::ArithmeticOverflow)
    ));
}

#[test]
fn balances_resolve_overflow() {
    let mut balance = new_balance(100.into(), NonNegative::min_value());
    assert!(matches!(
        balance.resolve(1.into()),
        Err(Error::ArithmeticOverflow)
    ));

    let mut balance = new_balance(NonNegative::max_value(), 100.into());
    assert!(matches!(
        balance.resolve(1.into()),
        Err(Error::ArithmeticOverflow)
    ));
}

#[test]
fn balances_chargeback_overflow() {
    let mut balance = new_balance(100.into(), NonNegative::min_value());
    assert!(matches!(
        balance.chargeback(1.into()),
        Err(Error::ArithmeticOverflow)
    ));
}

#[test]
fn failed_operations_leave_balances_unchanged() {
    let mut balance = new_balance(NonNegative::max_value(), 100.into());
    assert!(balance.deposit(1.into()).is_err());
    assert!(balance.resolve(1.into()).is_err());
    assert_eq!(balance.available(), NonNegative::max_value());
    assert_eq!(balance.held(), 100.into());

    let mut balance = new_balance(5.into(), 3.into());
    assert!(balance.dispute(6.into()).is_err());
    assert!(balance.chargeback(4.into()).is_err());
    assert!(balance.withdrawal(6.into()).is_err());
    assert_eq!(balance.available(), 5.into());
    assert_eq!(balance.held(), 3.into());
}

#[test]
fn new_balances_are_zero() {
    let balance = Balances::new();
    assert_eq!(balance.available(), 0.into());
    assert_eq!(balance.held(), 0.into());
}
