use payment_engine::checked_decimal::MAX_UNITS;
use payment_engine::csv::{Error, InputRecord, Kind};
use payment_engine::stream_processor::{Dispatch, StreamProcessor};
use payment_engine::transaction::Transaction;

fn record(kind: Kind, amount: Option<i128>) -> InputRecord {
    InputRecord { kind, client: 2, tx: 9, amount }
}

fn error_of(r: InputRecord) -> Option<Error> {
    Transaction::try_from(r).err()
}

#[test]
fn deposit_must_have_an_amount() {
    assert_eq!(
        error_of(record(Kind::Deposit, None)),
        Some(Error::DepositMustHaveAmount)
    );
}

#[test]
fn deposit_must_have_a_positive_amount() {
    assert_eq!(
        error_of(record(Kind::Deposit, Some(0))),
        Some(Error::DepositMustHaveNonZeroAmount)
    );
    assert_eq!(
        error_of(record(Kind::Deposit, Some(-1))),
        Some(Error::DepositMustHaveNonZeroAmount)
    );
}

#[test]
fn withdrawal_must_have_an_amount() {
    assert_eq!(
        error_of(record(Kind::Withdrawal, None)),
        Some(Error::WithdrawalMustHaveAmount)
    );
}

#[test]
fn withdrawal_must_have_a_positive_amount() {
    assert_eq!(
        error_of(record(Kind::Withdrawal, Some(-10000))),
        Some(Error::WithdrawalMustHaveNonZeroAmount)
    );
    assert_eq!(
        error_of(record(Kind::Withdrawal, Some(MAX_UNITS as i128 + 1))),
        Some(Error::WithdrawalMustHaveNonZeroAmount)
    );
}

#[test]
fn valid_records_become_events() {
    match Transaction::try_from(record(Kind::Deposit, Some(15000))) {
        Ok(Transaction::Deposit(p)) => {
            assert_eq!((p.client(), p.tx(), p.amount().units()), (2, 9, 15000));
        }
        _ => panic!("expected a deposit"),
    }
    assert!(matches!(
        Transaction::try_from(record(Kind::Withdrawal, Some(1))),
        Ok(Transaction::Withdrawal(_))
    ));
    assert!(matches!(
        Transaction::try_from(record(Kind::Dispute, Some(5))),
        Ok(Transaction::Dispute(_))
    ));
    assert!(matches!(
        Transaction::try_from(record(Kind::Resolve, None)),
        Ok(Transaction::Resolve(_))
    ));
    assert!(matches!(
        Transaction::try_from(record(Kind::Chargeback, None)),
        Ok(Transaction::Chargeback(_))
    ));
}

#[test]
fn kind_names_are_case_insensitive() {
    assert_eq!(Kind::from_name("DePoSiT"), Some(Kind::Deposit));
    assert_eq!(Kind::from_name("WITHDRAWAL"), Some(Kind::Withdrawal));
    assert_eq!(Kind::from_name("Dispute"), Some(Kind::Dispute));
    assert_eq!(Kind::from_name("resolve"), Some(Kind::Resolve));
    assert_eq!(Kind::from_name("ChargeBack"), Some(Kind::Chargeback));
    assert_eq!(Kind::from_name("transfer"), None);
    assert_eq!(Kind::from_name(""), None);
}

#[test]
fn lowercase_names_match_exactly() {
    assert_eq!(
        Kind::from_lowercase_name(&"deposit".to_string()),
        Some(Kind::Deposit)
    );
    assert_eq!(Kind::from_lowercase_name(&"Deposit".to_string()), None);
    assert_eq!(Kind::from_lowercase_name(&" deposit".to_string()), None);
}

#[test]
fn routing_spawns_once_per_client_and_counts_in_flight() {
    let mut fabric = StreamProcessor::new();
    assert!(fabric.is_drained());
    let r1 = fabric.route(InputRecord { kind: Kind::Deposit, client: 1, tx: 1, amount: Some(1) });
    assert!(matches!(r1, Dispatch::Spawn(_)));
    let r2 = fabric.route(InputRecord { kind: Kind::Dispute, client: 1, tx: 1, amount: None });
    assert!(matches!(r2, Dispatch::Send(_)));
    let r3 = fabric.route(InputRecord { kind: Kind::Deposit, client: 2, tx: 2, amount: None });
    assert!(matches!(r3, Dispatch::Skip(Error::DepositMustHaveAmount)));
    assert!(!fabric.has_client(2));
    let r4 = fabric.route(InputRecord { kind: Kind::Resolve, client: 2, tx: 3, amount: None });
    match r4 {
        Dispatch::Spawn(t) => assert_eq!(t.client(), 2),
        _ => panic!("expected a new actor for client 2"),
    }
    assert!(fabric.has_client(1) && fabric.has_client(2));
    assert_eq!(fabric.active_transactions(), 3);
    assert!(!fabric.is_drained());
    fabric.complete();
    fabric.complete();
    fabric.complete();
    assert!(fabric.is_drained());
}
