//! An in-memory deposit index on a hash map.

use std::collections::HashMap;

use vstd::prelude::*;

use crate::checked_decimal::NonZero;
use crate::transaction::{Deposit, TransactionPayload};

use super::DepositValueCache;

verus! {

/// Why an insertion into the index failed.
#[derive(Debug, Clone, Copy, PartialEq, Eq, Structural)]
pub enum Error {
    AlreadyExists,
}

/// The deposit amounts of one client, by event id.
pub struct AmountCache {
    txs: HashMap<u32, NonZero>,
}

impl AmountCache {
    /// An empty index.
    pub fn new() -> (r: AmountCache)
        ensures
            r.amounts() == Map::<u32, nat>::empty(),
    {
        let r = AmountCache { txs: HashMap::new() };
        assert(r.amounts() =~= Map::<u32, nat>::empty());
        r
    }
}

impl DepositValueCache for AmountCache {
    type Error = Error;

    closed spec fn amounts(&self) -> Map<u32, nat> {
        self.txs@.map_values(|a: NonZero| a.view())
    }

    fn get(&self, id: &u32) -> (r: Option<&NonZero>) {
        self.txs.get(id)
    }

    fn insert(&mut self, id: u32, tx: TransactionPayload<Deposit>) -> (r: Result<(), Error>) {
        if self.txs.contains_key(&id) {
            return Err(Error::AlreadyExists);
        }
        let amount = *tx.amount();
        self.txs.insert(id, amount);
        assert(self.amounts() =~= old(self).amounts().insert(id, tx.view().amount));
        Ok(())
    }

    fn remove(&mut self, id: u32) -> (r: Option<NonZero>) {
        let r = self.txs.remove(&id);
        assert(self.amounts() =~= old(self).amounts().remove(id));
        r
    }
}

} // verus!
