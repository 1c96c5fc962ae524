//! The boundary records of the engine: an input record as decoded from the
//! tabular input, its validation into an event, and the output record of a
//! final snapshot.

use vstd::prelude::*;

use crate::checked_decimal::{checked_add_spec, NonNegative, NonZero, MAX_UNITS};
use crate::client_processor::ClientState;
use crate::transaction::{
    Chargeback, Deposit, Dispute, Resolve, Transaction, TransactionPayload, TransactionView,
    Withdrawal,
};

verus! {

/// Why an input record is not a valid event.
#[derive(Debug, Clone, Copy, PartialEq, Eq, Structural)]
pub enum Error {
    DepositMustHaveAmount,
    DepositMustHaveNonZeroAmount,
    WithdrawalMustHaveAmount,
    WithdrawalMustHaveNonZeroAmount,
}

/// The kind named in an input record.
#[derive(Debug, Clone, Copy, PartialEq, Eq, Structural)]
pub enum Kind {
    Deposit,
    Withdrawal,
    Dispute,
    Resolve,
    Chargeback,
}

/// The lower-case form of a string, as `str::to_lowercase` gives it.
pub uninterp spec fn lower_of(s: Seq<char>) -> Seq<char>;

/// Relies on `str::to_lowercase`: its result depends on the characters of
/// `s` alone.
#[verifier::external_body]
fn lowercase(s: &str) -> (r: String)
    ensures
        r@ == lower_of(s@),
{
    s.to_lowercase()
}

/// The kind whose lower-case name is `s`, if any.
pub open spec fn kind_named(s: Seq<char>) -> Option<Kind> {
    if s == "deposit"@ {
        Some(Kind::Deposit)
    } else if s == "withdrawal"@ {
        Some(Kind::Withdrawal)
    } else if s == "dispute"@ {
        Some(Kind::Dispute)
    } else if s == "resolve"@ {
        Some(Kind::Resolve)
    } else if s == "chargeback"@ {
        Some(Kind::Chargeback)
    } else {
        None
    }
}

impl Kind {
    /// The kind named exactly by `name`, which is already in lower case.
    pub fn from_lowercase_name(name: &String) -> (r: Option<Kind>)
        ensures
            r == kind_named(name@),
    {
        if *name == "deposit".to_owned() {
            Some(Kind::Deposit)
        } else if *name == "withdrawal".to_owned() {
            Some(Kind::Withdrawal)
        } else if *name == "dispute".to_owned() {
            Some(Kind::Dispute)
        } else if *name == "resolve".to_owned() {
            Some(Kind::Resolve)
        } else if *name == "chargeback".to_owned() {
            Some(Kind::Chargeback)
        } else {
            None
        }
    }

    /// The kind named by `name`, in any case.
    pub fn from_name(name: &str) -> (r: Option<Kind>)
        ensures
            r == kind_named(lower_of(name@)),
    {
        let lower = lowercase(name);
        Self::from_lowercase_name(&lower)
    }
}

/// An input record: a kind, a client, an event id and an optional amount in
/// units of 10^-4.
#[derive(Debug, Clone, Copy, PartialEq, Eq, Structural)]
pub struct InputRecord {
    pub kind: Kind,
    pub client: u16,
    pub tx: u32,
    pub amount: Option<i128>,
}

/// The event that a record stands for, with its client, or why it stands for
/// none. Deposits and withdrawals need an amount that is present, positive
/// and in range; the other kinds ignore any amount.
pub open spec fn convert_spec(value: InputRecord) -> Result<(u16, TransactionView), Error> {
    match value.kind {
        Kind::Deposit => match value.amount {
            None => Err(Error::DepositMustHaveAmount),
            Some(a) => if 0 < a <= MAX_UNITS {
                Ok((value.client, TransactionView::Deposit { tx: value.tx, amount: a as nat }))
            } else {
                Err(Error::DepositMustHaveNonZeroAmount)
            },
        },
        Kind::Withdrawal => match value.amount {
            None => Err(Error::WithdrawalMustHaveAmount),
            Some(a) => if 0 < a <= MAX_UNITS {
                Ok((value.client, TransactionView::Withdrawal { tx: value.tx, amount: a as nat }))
            } else {
                Err(Error::WithdrawalMustHaveNonZeroAmount)
            },
        },
        Kind::Dispute => Ok((value.client, TransactionView::Dispute { tx: value.tx })),
        Kind::Resolve => Ok((value.client, TransactionView::Resolve { tx: value.tx })),
        Kind::Chargeback => Ok((value.client, TransactionView::Chargeback { tx: value.tx })),
    }
}

impl Transaction {
    /// Validates an input record into an event.
    pub fn try_from(value: InputRecord) -> (r: Result<Transaction, Error>)
        ensures
            match r {
                Ok(t) => convert_spec(value) == Ok::<(u16, TransactionView), Error>(
                    (t.client_spec(), t.view()),
                ),
                Err(e) => convert_spec(value) == Err::<(u16, TransactionView), Error>(e),
            },
    {
        match value.kind {
            Kind::Deposit => {
                let amount = match value.amount {
                    Some(a) => a,
                    None => return Err(Error::DepositMustHaveAmount),
                };
                let amount = match NonZero::try_from(amount) {
                    Ok(a) => a,
                    Err(()) => return Err(Error::DepositMustHaveNonZeroAmount),
                };
                Ok(
                    Transaction::Deposit(
                        TransactionPayload::<Deposit>::new(value.client, value.tx, amount),
                    ),
                )
            },
            Kind::Withdrawal => {
                let amount = match value.amount {
                    Some(a) => a,
                    None => return Err(Error::WithdrawalMustHaveAmount),
                };
                let amount = match NonZero::try_from(amount) {
                    Ok(a) => a,
                    Err(()) => return Err(Error::WithdrawalMustHaveNonZeroAmount),
                };
                Ok(
                    Transaction::Withdrawal(
                        TransactionPayload::<Withdrawal>::new(value.client, value.tx, amount),
                    ),
                )
            },
            Kind::Dispute => Ok(
                Transaction::Dispute(TransactionPayload::<Dispute>::new(value.client, value.tx)),
            ),
            Kind::Resolve => Ok(
                Transaction::Resolve(TransactionPayload::<Resolve>::new(value.client, value.tx)),
            ),
            Kind::Chargeback => Ok(
                Transaction::Chargeback(
                    TransactionPayload::<Chargeback>::new(value.client, value.tx),
                ),
            ),
        }
    }
}

/// Why a snapshot yields no output record.
#[derive(Debug, Clone, Copy, PartialEq, Eq, Structural)]
pub enum OutputError {
    /// `available + held` passes the representable maximum.
    TotalOverflow,
}

/// The output record of one account: its balances, their total and the lock.
#[derive(Debug, Clone, Copy, PartialEq, Eq, Structural)]
pub struct OutputRecord {
    pub client: u16,
    pub available: NonNegative,
    pub held: NonNegative,
    pub total: NonNegative,
    pub locked: bool,
}

impl OutputRecord {
    /// The record of a final snapshot, with `total = available + held`;
    /// fails where that sum overflows.
    pub fn try_from(client_state: ClientState) -> (r: Result<OutputRecord, OutputError>)
        ensures
            match checked_add_spec(
                client_state.balances_spec().available,
                client_state.balances_spec().held,
            ) {
                Some(total) => r matches Ok(o) && o.client == client_state.client_spec()
                    && o.available.view() == client_state.balances_spec().available
                    && o.held.view() == client_state.balances_spec().held && o.total.view()
                    == total && o.locked == client_state.locked_spec(),
                None => r == Err::<OutputRecord, OutputError>(OutputError::TotalOverflow),
            },
    {
        let balances = client_state.balances();
        let total = match balances.available().add(balances.held()) {
            Some(t) => t,
            None => return Err(OutputError::TotalOverflow),
        };
        Ok(
            OutputRecord {
                client: client_state.client(),
                available: balances.available(),
                held: balances.held(),
                total,
                locked: client_state.locked(),
            },
        )
    }
}

} // verus!
