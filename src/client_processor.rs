//! The state machine of one client: its balances, deposit index, active
//! disputes and lock flag, and the rule by which each event changes them.

use std::collections::HashMap;

use vstd::prelude::*;

use crate::balances::{
    chargeback_spec, deposit_spec, dispute_spec, resolve_spec, withdrawal_spec, Balances,
    BalancesView,
};
use crate::checked_decimal::NonZero;
use crate::db::DepositValueCache;
use crate::error::Error;
use crate::protocol::lemma_step_wf;
use crate::transaction::{
    Chargeback, Deposit, Dispute, Resolve, Transaction, TransactionPayload, TransactionView,
    Withdrawal,
};

verus! {

/// What an applied event asks of the account beyond its balances.
#[derive(Debug, Clone, Copy, PartialEq, Eq, Structural)]
pub enum TransactionProcessingOutcome {
    LockAccount,
    NoAction,
}

/// The mathematical state of one account; amounts in units of 10^-4.
pub struct AccountView {
    pub balances: BalancesView,
    pub locked: bool,
    /// Amount of every deposit applied, by event id.
    pub deposits: Map<u32, nat>,
    /// Amount held for every deposit under an active dispute, by event id.
    pub disputed: Map<u32, nat>,
}

impl AccountView {
    /// Every active dispute refers to an indexed deposit, with its amount.
    pub open spec fn wf(self) -> bool {
        forall|id: u32| #[trigger]
            self.disputed.contains_key(id) ==> self.deposits.contains_key(id)
                && self.deposits[id] == self.disputed[id]
    }
}

/// The account of a fresh client.
pub open spec fn initial_account() -> AccountView {
    AccountView {
        balances: BalancesView { available: 0, held: 0 },
        locked: false,
        deposits: Map::empty(),
        disputed: Map::empty(),
    }
}

/// The effect of one event on an unlocked account, and what it reports.
pub open spec fn process_spec(s: AccountView, t: TransactionView) -> (
    AccountView,
    Result<TransactionProcessingOutcome, Error>,
) {
    match t {
        TransactionView::Deposit { tx, amount } => match deposit_spec(s.balances, amount) {
            None => (s, Err(Error::InvalidTransaction { id: tx })),
            Some(b) => if s.deposits.contains_key(tx) {
                (AccountView { balances: b, ..s }, Err(Error::DuplicatedTransaction { id: tx }))
            } else {
                (
                    AccountView { balances: b, deposits: s.deposits.insert(tx, amount), ..s },
                    Ok(TransactionProcessingOutcome::NoAction),
                )
            },
        },
        TransactionView::Withdrawal { tx, amount } => match withdrawal_spec(s.balances, amount) {
            None => (s, Err(Error::Balances(crate::balances::Error::ArithmeticOverflow))),
            Some(b) => (AccountView { balances: b, ..s }, Ok(TransactionProcessingOutcome::NoAction)),
        },
        TransactionView::Dispute { tx } => if s.disputed.contains_key(tx)
            || !s.deposits.contains_key(tx) {
            (s, Ok(TransactionProcessingOutcome::NoAction))
        } else {
            match dispute_spec(s.balances, s.deposits[tx]) {
                None => (s, Err(Error::Balances(crate::balances::Error::ArithmeticOverflow))),
                Some(b) => (
                    AccountView {
                        balances: b,
                        disputed: s.disputed.insert(tx, s.deposits[tx]),
                        ..s
                    },
                    Ok(TransactionProcessingOutcome::NoAction),
                ),
            }
        },
        TransactionView::Resolve { tx } => if !s.disputed.contains_key(tx) {
            (s, Ok(TransactionProcessingOutcome::NoAction))
        } else {
            match resolve_spec(s.balances, s.disputed[tx]) {
                None => (s, Err(Error::Balances(crate::balances::Error::ArithmeticOverflow))),
                Some(b) => (
                    AccountView { balances: b, disputed: s.disputed.remove(tx), ..s },
                    Ok(TransactionProcessingOutcome::NoAction),
                ),
            }
        },
        TransactionView::Chargeback { tx } => if !s.disputed.contains_key(tx) {
            (s, Ok(TransactionProcessingOutcome::NoAction))
        } else {
            match chargeback_spec(s.balances, s.disputed[tx]) {
                None => (s, Err(Error::Balances(crate::balances::Error::ArithmeticOverflow))),
                Some(b) => (
                    AccountView { balances: b, disputed: s.disputed.remove(tx), ..s },
                    Ok(TransactionProcessingOutcome::LockAccount),
                ),
            }
        },
    }
}

/// One step of the account: a locked account ignores the event; otherwise
/// the event is processed, and a chargeback that succeeds locks the account.
pub open spec fn apply_spec(s: AccountView, t: TransactionView) -> (
    AccountView,
    Result<TransactionProcessingOutcome, Error>,
) {
    if s.locked {
        (s, Ok(TransactionProcessingOutcome::NoAction))
    } else {
        let (n, r) = process_spec(s, t);
        if r == Ok::<TransactionProcessingOutcome, Error>(TransactionProcessingOutcome::LockAccount) {
            (AccountView { locked: true, ..n }, r)
        } else {
            (n, r)
        }
    }
}

/// The state of a client once all of its events are applied.
pub struct ClientState {
    client: u16,
    locked: bool,
    balances: Balances,
}

impl ClientState {
    /// A snapshot with the given fields.
    pub fn new(client: u16, locked: bool, balances: Balances) -> (r: ClientState)
        ensures
            r.client_spec() == client,
            r.locked_spec() == locked,
            r.balances_spec() == balances.view(),
    {
        ClientState { client, locked, balances }
    }

    /// The client of this snapshot.
    pub closed spec fn client_spec(self) -> u16 {
        self.client
    }

    /// Whether the account is locked.
    pub closed spec fn locked_spec(self) -> bool {
        self.locked
    }

    /// The balances of this snapshot.
    pub closed spec fn balances_spec(self) -> BalancesView {
        self.balances.view()
    }

    /// The balances of this snapshot.
    pub fn balances(&self) -> (r: &Balances)
        ensures
            r.view() == self.balances_spec(),
    {
        &self.balances
    }

    /// The client of this snapshot.
    pub fn client(&self) -> (r: u16)
        ensures
            r == self.client_spec(),
    {
        self.client
    }

    /// Whether the account is locked.
    pub fn locked(&self) -> (r: bool)
        ensures
            r == self.locked_spec(),
    {
        self.locked
    }
}

/// The state machine of one client. It owns the client's balances, its
/// deposit index `db`, its active disputes and its lock flag.
pub struct ClientProcessor<Database: DepositValueCache> {
    client: u16,
    balances: Balances,
    locked: bool,
    db: Database,
    disputed: HashMap<u32, NonZero>,
}

impl<Database: DepositValueCache> ClientProcessor<Database> {
    /// The mathematical state of the account.
    pub closed spec fn view(self) -> AccountView {
        AccountView {
            balances: self.balances.view(),
            locked: self.locked,
            deposits: self.db.amounts(),
            disputed: self.disputed@.map_values(|a: NonZero| a.view()),
        }
    }

    /// The client whose events this processor applies.
    pub closed spec fn client_spec(self) -> u16 {
        self.client
    }

    /// A fresh account for `client`, indexing deposits in `db`.
    pub fn new(client: u16, db: Database) -> (r: Self)
        ensures
            r.client_spec() == client,
            r.view() == (AccountView { deposits: db.amounts(), ..initial_account() }),
            r.view().wf(),
    {
        let r = ClientProcessor {
            client,
            balances: Balances::new(),
            locked: false,
            db,
            disputed: HashMap::new(),
        };
        assert(r.view().disputed =~= Map::<u32, nat>::empty());
        r
    }

    /// The client whose events this processor applies.
    pub fn client(&self) -> (r: u16)
        ensures
            r == self.client_spec(),
    {
        self.client
    }

    /// Whether a chargeback has locked the account.
    pub fn locked(&self) -> (r: bool)
        ensures
            r == self.view().locked,
    {
        self.locked
    }

    /// The current balances.
    pub fn balances(&self) -> (r: &Balances)
        ensures
            r.view() == self.view().balances,
    {
        &self.balances
    }

    /// Applies a deposit: credits `available`, then indexes the amount. A
    /// duplicate id keeps the credit and is reported.
    pub fn process_deposit(&mut self, tx: TransactionPayload<Deposit>) -> (r: Result<
        TransactionProcessingOutcome,
        Error,
    >)
        ensures
            (final(self).view(), r) == process_spec(
                old(self).view(),
                TransactionView::Deposit { tx: tx.view().tx, amount: tx.view().amount },
            ),
            final(self).client_spec() == old(self).client_spec(),
    {
        let id = tx.tx();
        let amount = tx.amount().to_non_negative();
        if self.balances.deposit(amount).is_err() {
            return Err(Error::InvalidTransaction { id });
        }
        if self.db.insert(id, tx).is_err() {
            return Err(Error::DuplicatedTransaction { id });
        }
        Ok(TransactionProcessingOutcome::NoAction)
    }

    /// Applies a withdrawal: debits `available` where it suffices.
    pub fn process_withdrawal(&mut self, tx: TransactionPayload<Withdrawal>) -> (r: Result<
        TransactionProcessingOutcome,
        Error,
    >)
        ensures
            (final(self).view(), r) == process_spec(
                old(self).view(),
                TransactionView::Withdrawal { tx: tx.view().tx, amount: tx.view().amount },
            ),
            final(self).client_spec() == old(self).client_spec(),
    {
        let amount = tx.amount().to_non_negative();
        match self.balances.withdrawal(amount) {
            Ok(()) => Ok(TransactionProcessingOutcome::NoAction),
            Err(e) => Err(Error::Balances(e)),
        }
    }

    /// Applies a dispute: holds the amount of an indexed deposit that is not
    /// already disputed. Other disputes change nothing.
    pub fn process_dispute(&mut self, tx: TransactionPayload<Dispute>) -> (r: Result<
        TransactionProcessingOutcome,
        Error,
    >)
        ensures
            (final(self).view(), r) == process_spec(
                old(self).view(),
                TransactionView::Dispute { tx: tx.view().tx },
            ),
            final(self).client_spec() == old(self).client_spec(),
    {
        let id = tx.tx();
        if self.disputed.contains_key(&id) {
            return Ok(TransactionProcessingOutcome::NoAction);
        }
        let found: Option<NonZero> = match self.db.get(&id) {
            Some(a) => Some(*a),
            None => None,
        };
        match found {
            Some(amount) => {
                match self.balances.dispute(amount.to_non_negative()) {
                    Ok(()) => {},
                    Err(e) => return Err(Error::Balances(e)),
                }
                self.disputed.insert(id, amount);
                assert(self.view().disputed =~= old(self).view().disputed.insert(
                    id,
                    old(self).view().deposits[id],
                ));
                Ok(TransactionProcessingOutcome::NoAction)
            },
            None => Ok(TransactionProcessingOutcome::NoAction),
        }
    }

    /// Applies a resolve: releases the held amount of an active dispute.
    pub fn process_resolve(&mut self, tx: TransactionPayload<Resolve>) -> (r: Result<
        TransactionProcessingOutcome,
        Error,
    >)
        ensures
            (final(self).view(), r) == process_spec(
                old(self).view(),
                TransactionView::Resolve { tx: tx.view().tx },
            ),
            final(self).client_spec() == old(self).client_spec(),
    {
        let id = tx.tx();
        let found: Option<NonZero> = match self.disputed.get(&id) {
            Some(a) => Some(*a),
            None => None,
        };
        match found {
            Some(amount) => {
                match self.balances.resolve(amount.to_non_negative()) {
                    Ok(()) => {},
                    Err(e) => return Err(Error::Balances(e)),
                }
                self.disputed.remove(&id);
                assert(self.view().disputed =~= old(self).view().disputed.remove(id));
                Ok(TransactionProcessingOutcome::NoAction)
            },
            None => Ok(TransactionProcessingOutcome::NoAction),
        }
    }

    /// Applies a chargeback: removes the held amount of an active dispute and
    /// asks for the account to be locked.
    pub fn process_chargeback(&mut self, tx: TransactionPayload<Chargeback>) -> (r: Result<
        TransactionProcessingOutcome,
        Error,
    >)
        ensures
            (final(self).view(), r) == process_spec(
                old(self).view(),
                TransactionView::Chargeback { tx: tx.view().tx },
            ),
            final(self).client_spec() == old(self).client_spec(),
    {
        let id = tx.tx();
        let found: Option<NonZero> = match self.disputed.get(&id) {
            Some(a) => Some(*a),
            None => None,
        };
        match found {
            Some(amount) => {
                match self.balances.chargeback(amount.to_non_negative()) {
                    Ok(()) => {},
                    Err(e) => return Err(Error::Balances(e)),
                }
                self.disputed.remove(&id);
                assert(self.view().disputed =~= old(self).view().disputed.remove(id));
                Ok(TransactionProcessingOutcome::LockAccount)
            },
            None => Ok(TransactionProcessingOutcome::NoAction),
        }
    }

    /// Processes one event by its kind, regardless of the lock.
    pub fn process(&mut self, tx: Transaction) -> (r: Result<TransactionProcessingOutcome, Error>)
        ensures
            (final(self).view(), r) == process_spec(old(self).view(), tx.view()),
            final(self).client_spec() == old(self).client_spec(),
    {
        match tx {
            Transaction::Deposit(tx) => self.process_deposit(tx),
            Transaction::Withdrawal(tx) => self.process_withdrawal(tx),
            Transaction::Dispute(tx) => self.process_dispute(tx),
            Transaction::Resolve(tx) => self.process_resolve(tx),
            Transaction::Chargeback(tx) => self.process_chargeback(tx),
        }
    }

    /// Applies one event of this client's stream: a locked account drops it;
    /// otherwise it is processed, and a successful chargeback locks the account.
    pub fn apply(&mut self, tx: Transaction) -> (r: Result<TransactionProcessingOutcome, Error>)
        ensures
            (final(self).view(), r) == apply_spec(old(self).view(), tx.view()),
            final(self).client_spec() == old(self).client_spec(),
            old(self).view().wf() ==> final(self).view().wf(),
    {
        proof {
            if old(self).view().wf() {
                lemma_step_wf(old(self).view(), tx.view());
            }
        }
        if self.locked {
            return Ok(TransactionProcessingOutcome::NoAction);
        }
        let r = self.process(tx);
        if let Ok(TransactionProcessingOutcome::LockAccount) = r {
            self.locked = true;
        }
        r
    }

    /// The final state of the account, as reported once its stream is closed.
    pub fn snapshot(&self) -> (r: ClientState)
        ensures
            r.client_spec() == self.client_spec(),
            r.locked_spec() == self.view().locked,
            r.balances_spec() == self.view().balances,
    {
        ClientState { client: self.client, locked: self.locked, balances: self.balances }
    }
}

} // verus!
