//! Events, as a tagged value of five kinds. The kind of a payload is a type
//! parameter, which fixes whether the payload carries an amount.

use vstd::prelude::*;

use crate::checked_decimal::NonZero;

verus! {

/// Marker for a deposit.
pub struct Deposit;

/// Marker for a withdrawal.
pub struct Withdrawal;

/// Marker for a dispute.
pub struct Dispute;

/// Marker for a resolve.
pub struct Resolve;

/// Marker for a chargeback.
pub struct Chargeback;

/// The kinds of event; each says whether its payload carries an amount.
pub trait TransactionKind {
    spec fn carries_amount() -> bool;
}

impl TransactionKind for Deposit {
    open spec fn carries_amount() -> bool {
        true
    }
}

impl TransactionKind for Withdrawal {
    open spec fn carries_amount() -> bool {
        true
    }
}

impl TransactionKind for Dispute {
    open spec fn carries_amount() -> bool {
        false
    }
}

impl TransactionKind for Resolve {
    open spec fn carries_amount() -> bool {
        false
    }
}

impl TransactionKind for Chargeback {
    open spec fn carries_amount() -> bool {
        false
    }
}

/// The mathematical value of a payload; `amount` is 0 where the kind carries none.
pub struct PayloadView {
    pub client: u16,
    pub tx: u32,
    pub amount: nat,
}

/// The data of an event: client, event id and, for deposits and withdrawals,
/// an amount.
pub struct TransactionPayload<Kind: TransactionKind> {
    client: u16,
    tx: u32,
    amount: Option<NonZero>,
    phantom: std::marker::PhantomData<Kind>,
}

impl<Kind: TransactionKind> TransactionPayload<Kind> {
    #[verifier::type_invariant]
    spec fn inv(self) -> bool {
        self.amount is Some == Kind::carries_amount()
    }

    /// The mathematical value of this payload.
    pub closed spec fn view(self) -> PayloadView {
        PayloadView {
            client: self.client,
            tx: self.tx,
            amount: match self.amount {
                Some(a) => a.view(),
                None => 0,
            },
        }
    }

    /// The client this event belongs to.
    pub fn client(&self) -> (r: u16)
        ensures
            r == self.view().client,
    {
        self.client
    }

    /// The event id.
    pub fn tx(&self) -> (r: u32)
        ensures
            r == self.view().tx,
    {
        self.tx
    }
}

impl TransactionPayload<Deposit> {
    /// A deposit of `amount` into the account of `client`.
    pub fn new(client: u16, tx: u32, amount: NonZero) -> (r: Self)
        ensures
            r.view() == (PayloadView { client, tx, amount: amount.view() }),
    {
        TransactionPayload { tx, client, amount: Some(amount), phantom: std::marker::PhantomData }
    }

    /// The deposited amount.
    pub fn amount(&self) -> (r: &NonZero)
        ensures
            r.view() == self.view().amount,
    {
        proof {
            use_type_invariant(self);
        }
        self.amount.as_ref().unwrap()
    }
}

impl TransactionPayload<Withdrawal> {
    /// A withdrawal of `amount` from the account of `client`.
    pub fn new(client: u16, tx: u32, amount: NonZero) -> (r: Self)
        ensures
            r.view() == (PayloadView { client, tx, amount: amount.view() }),
    {
        TransactionPayload { tx, client, amount: Some(amount), phantom: std::marker::PhantomData }
    }

    /// The withdrawn amount.
    pub fn amount(&self) -> (r: &NonZero)
        ensures
            r.view() == self.view().amount,
    {
        proof {
            use_type_invariant(self);
        }
        self.amount.as_ref().unwrap()
    }
}

impl TransactionPayload<Dispute> {
    /// A dispute of the earlier deposit `tx` of `client`.
    pub fn new(client: u16, tx: u32) -> (r: Self)
        ensures
            r.view() == (PayloadView { client, tx, amount: 0 }),
    {
        TransactionPayload { tx, client, amount: None, phantom: std::marker::PhantomData }
    }
}

impl TransactionPayload<Resolve> {
    /// A resolve of the disputed deposit `tx` of `client`.
    pub fn new(client: u16, tx: u32) -> (r: Self)
        ensures
            r.view() == (PayloadView { client, tx, amount: 0 }),
    {
        TransactionPayload { tx, client, amount: None, phantom: std::marker::PhantomData }
    }
}

impl TransactionPayload<Chargeback> {
    /// A chargeback of the disputed deposit `tx` of `client`.
    pub fn new(client: u16, tx: u32) -> (r: Self)
        ensures
            r.view() == (PayloadView { client, tx, amount: 0 }),
    {
        TransactionPayload { tx, client, amount: None, phantom: std::marker::PhantomData }
    }
}

/// The mathematical value of an event, without its client.
pub enum TransactionView {
    Deposit { tx: u32, amount: nat },
    Withdrawal { tx: u32, amount: nat },
    Dispute { tx: u32 },
    Resolve { tx: u32 },
    Chargeback { tx: u32 },
}

/// An event of one of the five kinds.
pub enum Transaction {
    Deposit(TransactionPayload<Deposit>),
    Withdrawal(TransactionPayload<Withdrawal>),
    Dispute(TransactionPayload<Dispute>),
    Resolve(TransactionPayload<Resolve>),
    Chargeback(TransactionPayload<Chargeback>),
}

impl Transaction {
    /// The client that this event names.
    pub open spec fn client_spec(self) -> u16 {
        match self {
            Transaction::Deposit(p) => p.view().client,
            Transaction::Withdrawal(p) => p.view().client,
            Transaction::Dispute(p) => p.view().client,
            Transaction::Resolve(p) => p.view().client,
            Transaction::Chargeback(p) => p.view().client,
        }
    }

    /// The mathematical value of this event.
    pub open spec fn view(self) -> TransactionView {
        match self {
            Transaction::Deposit(p) => TransactionView::Deposit {
                tx: p.view().tx,
                amount: p.view().amount,
            },
            Transaction::Withdrawal(p) => TransactionView::Withdrawal {
                tx: p.view().tx,
                amount: p.view().amount,
            },
            Transaction::Dispute(p) => TransactionView::Dispute { tx: p.view().tx },
            Transaction::Resolve(p) => TransactionView::Resolve { tx: p.view().tx },
            Transaction::Chargeback(p) => TransactionView::Chargeback { tx: p.view().tx },
        }
    }

    /// The client that this event names.
    pub fn client(&self) -> (r: u16)
        ensures
            r == self.client_spec(),
    {
        match self {
            Transaction::Deposit(tx) => tx.client(),
            Transaction::Withdrawal(tx) => tx.client(),
            Transaction::Dispute(tx) => tx.client(),
            Transaction::Resolve(tx) => tx.client(),
            Transaction::Chargeback(tx) => tx.client(),
        }
    }
}

} // verus!
