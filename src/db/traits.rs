//! The interface of a deposit index.

use vstd::prelude::*;

use crate::checked_decimal::NonZero;
use crate::transaction::{Deposit, TransactionPayload};

verus! {

/// A per-client index from event id to the amount of a completed deposit.
/// Entries are only added: an id that is present keeps its first amount.
pub trait DepositValueCache: Sized {
    type Error;

    /// The amounts held, by event id, in units of 10^-4.
    spec fn amounts(&self) -> Map<u32, nat>;

    /// The amount of deposit `id`, if it is indexed.
    fn get(&self, id: &u32) -> (r: Option<&NonZero>)
        ensures
            match r {
                Some(a) => self.amounts().contains_key(*id) && self.amounts()[*id] == a.view(),
                None => !self.amounts().contains_key(*id),
            },
    ;

    /// Records deposit `tx` under `id`; fails, changing nothing, where `id`
    /// is already present.
    fn insert(&mut self, id: u32, tx: TransactionPayload<Deposit>) -> (r: Result<(), Self::Error>)
        ensures
            old(self).amounts().contains_key(id) ==> r is Err && final(self).amounts() == old(
                self,
            ).amounts(),
            !old(self).amounts().contains_key(id) ==> r is Ok && final(self).amounts() == old(
                self,
            ).amounts().insert(id, tx.view().amount),
    ;

    /// Drops deposit `id` from the index and returns its amount.
    fn remove(&mut self, id: u32) -> (r: Option<NonZero>)
        ensures
            final(self).amounts() == old(self).amounts().remove(id),
            match r {
                Some(a) => old(self).amounts().contains_key(id) && old(self).amounts()[id]
                    == a.view(),
                None => !old(self).amounts().contains_key(id),
            },
    ;
}

} // verus!
