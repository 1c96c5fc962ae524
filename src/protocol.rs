//! Laws of the account protocol, stated over the model of one client's state
//! machine (`apply_spec`) and proved from it.

use vstd::prelude::*;

use crate::balances::BalancesView;
use crate::checked_decimal::MAX_UNITS;
use crate::client_processor::{
    apply_spec, initial_account, AccountView, TransactionProcessingOutcome,
};
use crate::error::Error;
use crate::transaction::TransactionView;

verus! {

/// The account after applying `ts` in order, starting from `s`.
pub open spec fn run(s: AccountView, ts: Seq<TransactionView>) -> AccountView
    decreases ts.len(),
{
    if ts.len() == 0 {
        s
    } else {
        run(apply_spec(s, ts[0]).0, ts.drop_first())
    }
}

/// The number of events of `ts`, applied from `s`, that were successful
/// chargebacks.
pub open spec fn successful_chargebacks(s: AccountView, ts: Seq<TransactionView>) -> nat
    decreases ts.len(),
{
    if ts.len() == 0 {
        0
    } else {
        let (n, r) = apply_spec(s, ts[0]);
        (if r == Ok::<TransactionProcessingOutcome, Error>(
            TransactionProcessingOutcome::LockAccount,
        ) {
            1nat
        } else {
            0nat
        }) + successful_chargebacks(n, ts.drop_first())
    }
}

/// The number of events of `ts`, applied from `s`, that moved the account
/// from unlocked to locked.
pub open spec fn lock_transitions(s: AccountView, ts: Seq<TransactionView>) -> nat
    decreases ts.len(),
{
    if ts.len() == 0 {
        0
    } else {
        let n = apply_spec(s, ts[0]).0;
        (if !s.locked && n.locked {
            1nat
        } else {
            0nat
        }) + lock_transitions(n, ts.drop_first())
    }
}

/// Both balances lie between zero and the representable maximum.
pub open spec fn balances_in_range(b: BalancesView) -> bool {
    0 <= b.available <= MAX_UNITS && 0 <= b.held <= MAX_UNITS
}

/// One event keeps both balances between zero and the maximum.
pub proof fn lemma_step_balances_in_range(s: AccountView, t: TransactionView)
    requires
        balances_in_range(s.balances),
    ensures
        balances_in_range(apply_spec(s, t).0.balances),
{
}

/// Balances stay between zero and the maximum after every event of any
/// stream, from a fresh account or any account in range.
pub proof fn lemma_balances_in_range(s: AccountView, ts: Seq<TransactionView>)
    requires
        balances_in_range(s.balances),
    ensures
        balances_in_range(run(s, ts).balances),
    decreases ts.len(),
{
    if ts.len() > 0 {
        lemma_step_balances_in_range(s, ts[0]);
        lemma_balances_in_range(apply_spec(s, ts[0]).0, ts.drop_first());
    }
}

/// A fresh account is unlocked, its balances are in range, and it has no
/// dispute that lacks its deposit.
pub proof fn lemma_initial_account()
    ensures
        balances_in_range(initial_account().balances),
        initial_account().wf(),
        !initial_account().locked,
{
}

/// The lock is never lifted, and it is set only by a chargeback that
/// succeeds.
pub proof fn lemma_lock_monotone(s: AccountView, t: TransactionView)
    ensures
        s.locked ==> apply_spec(s, t).0.locked,
        !s.locked && apply_spec(s, t).0.locked ==> t is Chargeback && apply_spec(s, t).1
            == Ok::<TransactionProcessingOutcome, Error>(TransactionProcessingOutcome::LockAccount),
{
}

/// A locked account ignores every event: its state stays as it is.
pub proof fn lemma_locked_is_frozen(s: AccountView, ts: Seq<TransactionView>)
    requires
        s.locked,
    ensures
        run(s, ts) == s,
    decreases ts.len(),
{
    if ts.len() > 0 {
        lemma_locked_is_frozen(apply_spec(s, ts[0]).0, ts.drop_first());
    }
}

/// Every active dispute refers to an indexed deposit with the same amount,
/// before and after each event.
pub proof fn lemma_step_wf(s: AccountView, t: TransactionView)
    requires
        s.wf(),
    ensures
        apply_spec(s, t).0.wf(),
{
    let n = apply_spec(s, t).0;
    assert forall|id: u32| #[trigger] n.disputed.contains_key(id) implies n.deposits.contains_key(
        id,
    ) && n.deposits[id] == n.disputed[id] by {
        match t {
            TransactionView::Deposit { tx, amount } => {
                assert(s.disputed.contains_key(id));
            },
            TransactionView::Dispute { tx } => {
                if id != tx {
                    assert(s.disputed.contains_key(id));
                }
            },
            _ => {
                assert(s.disputed.contains_key(id));
            },
        }
    }
}

/// Every active dispute refers to an indexed deposit with the same amount,
/// after any stream of events.
pub proof fn lemma_wf(s: AccountView, ts: Seq<TransactionView>)
    requires
        s.wf(),
    ensures
        run(s, ts).wf(),
    decreases ts.len(),
{
    if ts.len() > 0 {
        lemma_step_wf(s, ts[0]);
        lemma_wf(apply_spec(s, ts[0]).0, ts.drop_first());
    }
}

/// Over any stream, the successful chargebacks are exactly the events that
/// lock the account.
pub proof fn lemma_chargebacks_are_lock_transitions(s: AccountView, ts: Seq<TransactionView>)
    ensures
        successful_chargebacks(s, ts) == lock_transitions(s, ts),
    decreases ts.len(),
{
    if ts.len() > 0 {
        lemma_chargebacks_are_lock_transitions(apply_spec(s, ts[0]).0, ts.drop_first());
    }
}

/// From a fresh account, at most one event of any stream locks it, and only
/// if it is a successful chargeback.
pub proof fn lemma_at_most_one_lock(s: AccountView, ts: Seq<TransactionView>)
    ensures
        lock_transitions(s, ts) <= 1,
        s.locked ==> lock_transitions(s, ts) == 0,
    decreases ts.len(),
{
    if ts.len() > 0 {
        let n = apply_spec(s, ts[0]).0;
        lemma_at_most_one_lock(n, ts.drop_first());
    }
}

/// A dispute immediately followed by a resolve of the same deposit, not
/// already under dispute, restores the account as it was.
pub proof fn lemma_dispute_then_resolve(s: AccountView, id: u32)
    requires
        balances_in_range(s.balances),
        !s.disputed.contains_key(id),
    ensures
        apply_spec(
            apply_spec(s, TransactionView::Dispute { tx: id }).0,
            TransactionView::Resolve { tx: id },
        ).0 == s,
{
    let d = apply_spec(s, TransactionView::Dispute { tx: id }).0;
    if d.disputed.contains_key(id) {
        assert(d.disputed.remove(id) =~= s.disputed);
    }
}

/// A dispute of a deposit that is already under dispute changes nothing.
pub proof fn lemma_second_dispute_is_noop(s: AccountView, id: u32)
    requires
        s.disputed.contains_key(id),
    ensures
        apply_spec(s, TransactionView::Dispute { tx: id }) == (
            s,
            Ok::<TransactionProcessingOutcome, Error>(TransactionProcessingOutcome::NoAction),
        ),
{
}

/// Disputing the same id twice in a row has the effect of disputing it once.
pub proof fn lemma_dispute_twice(s: AccountView, id: u32)
    ensures
        apply_spec(
            apply_spec(s, TransactionView::Dispute { tx: id }).0,
            TransactionView::Dispute { tx: id },
        ).0 == apply_spec(s, TransactionView::Dispute { tx: id }).0,
{
}

/// A resolve or a chargeback of an id that is not under dispute changes
/// nothing.
pub proof fn lemma_settle_undisputed_is_noop(s: AccountView, id: u32)
    requires
        !s.disputed.contains_key(id),
    ensures
        apply_spec(s, TransactionView::Resolve { tx: id }) == (
            s,
            Ok::<TransactionProcessingOutcome, Error>(TransactionProcessingOutcome::NoAction),
        ),
        apply_spec(s, TransactionView::Chargeback { tx: id }) == (
            s,
            Ok::<TransactionProcessingOutcome, Error>(TransactionProcessingOutcome::NoAction),
        ),
{
}

/// An id that no event of `ts` disputes, and that is not under dispute at
/// the start, is not under dispute at the end.
pub proof fn lemma_never_disputed(s: AccountView, ts: Seq<TransactionView>, id: u32)
    requires
        !s.disputed.contains_key(id),
        forall|i: int| 0 <= i < ts.len() ==> ts[i] != (TransactionView::Dispute { tx: id }),
    ensures
        !run(s, ts).disputed.contains_key(id),
    decreases ts.len(),
{
    if ts.len() > 0 {
        let rest = ts.drop_first();
        assert forall|i: int| 0 <= i < rest.len() implies rest[i] != (TransactionView::Dispute {
            tx: id,
        }) by {
            assert(rest[i] == ts[i + 1]);
        }
        assert(ts[0] != (TransactionView::Dispute { tx: id }));
        lemma_never_disputed(apply_spec(s, ts[0]).0, rest, id);
    }
}

/// A withdrawal of exactly the available balance succeeds and leaves zero
/// available; a withdrawal of more fails and leaves the account untouched.
pub proof fn lemma_withdraw_boundary(s: AccountView, id: u32, amount: nat)
    requires
        !s.locked,
    ensures
        amount == s.balances.available ==> apply_spec(
            s,
            TransactionView::Withdrawal { tx: id, amount },
        ) == (
            AccountView { balances: BalancesView { available: 0, held: s.balances.held }, ..s },
            Ok::<TransactionProcessingOutcome, Error>(TransactionProcessingOutcome::NoAction),
        ),
        amount > s.balances.available ==> apply_spec(
            s,
            TransactionView::Withdrawal { tx: id, amount },
        ) == (s, Err::<TransactionProcessingOutcome, Error>(
            Error::Balances(crate::balances::Error::ArithmeticOverflow),
        )),
{
}

/// A deposit that would take the available balance past the maximum fails
/// and leaves the account untouched.
pub proof fn lemma_deposit_overflow(s: AccountView, id: u32, amount: nat)
    requires
        !s.locked,
        s.balances.available + amount > MAX_UNITS,
    ensures
        apply_spec(s, TransactionView::Deposit { tx: id, amount }) == (
            s,
            Err::<TransactionProcessingOutcome, Error>(Error::InvalidTransaction { id }),
        ),
{
}

/// A withdrawal is not indexed: disputing its id right after it changes
/// nothing, where that id is no deposit's.
pub proof fn lemma_dispute_of_withdrawal_is_noop(s: AccountView, id: u32, amount: nat)
    requires
        !s.deposits.contains_key(id),
    ensures
        ({
            let w = apply_spec(s, TransactionView::Withdrawal { tx: id, amount }).0;
            apply_spec(w, TransactionView::Dispute { tx: id }) == (
                w,
                Ok::<TransactionProcessingOutcome, Error>(TransactionProcessingOutcome::NoAction),
            )
        }),
{
}

} // verus!
