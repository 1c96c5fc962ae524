//! The decisions of the dispatch fabric, which shards the event stream by
//! client: which records become events, which events need a new client
//! actor, and when every sent event has been applied.
//!
//! The fabric's driver performs what is decided here: it starts the actors,
//! sends them the events, reports each applied event back, and once the
//! input is exhausted and nothing is in flight, closes the actors and gathers
//! their snapshots.

use std::collections::HashSet;

use vstd::prelude::*;

use crate::csv::{convert_spec, Error, InputRecord};
use crate::transaction::{Transaction, TransactionView};

verus! {

/// Largest number of events that may be in flight at once.
pub const MAX_IN_FLIGHT: usize = usize::MAX;

/// What the driver is to do with one input record.
pub enum Dispatch {
    /// The record is not a valid event: it is dropped.
    Skip(Error),
    /// The first event of its client: start that client's actor, then send
    /// it the event.
    Spawn(Transaction),
    /// An event of a client whose actor runs: send it the event.
    Send(Transaction),
}

/// The mathematical state of the fabric.
pub struct StreamView {
    /// The clients that have an actor.
    pub clients: Set<u16>,
    /// The events sent to an actor and not yet applied.
    pub active: nat,
}

/// The routing state of the dispatch fabric.
pub struct StreamProcessor {
    client_processors: HashSet<u16>,
    active_transactions: usize,
}

impl StreamProcessor {
    /// The mathematical state of the fabric.
    pub closed spec fn view(self) -> StreamView {
        StreamView { clients: self.client_processors@, active: self.active_transactions as nat }
    }

    /// A fabric with no actor and nothing in flight.
    pub fn new() -> (r: StreamProcessor)
        ensures
            r.view().clients == Set::<u16>::empty(),
            r.view().active == 0,
    {
        StreamProcessor { client_processors: HashSet::new(), active_transactions: 0 }
    }

    /// Decides the fate of one input record. A valid event goes to exactly
    /// one actor, that of its client, which is started on the client's first
    /// event; it is counted as in flight until `complete` is called for it.
    /// An invalid record changes nothing.
    pub fn route(&mut self, record: InputRecord) -> (r: Dispatch)
        requires
            old(self).view().active < MAX_IN_FLIGHT,
        ensures
            match convert_spec(record) {
                Err(e) => r == Dispatch::Skip(e) && final(self).view() == old(self).view(),
                Ok((client, event)) => {
                    &&& final(self).view().active == old(self).view().active + 1
                    &&& final(self).view().clients == old(self).view().clients.insert(client)
                    &&& match r {
                        Dispatch::Spawn(t) => !old(self).view().clients.contains(client)
                            && t.client_spec() == client && t.view() == event,
                        Dispatch::Send(t) => old(self).view().clients.contains(client)
                            && t.client_spec() == client && t.view() == event,
                        Dispatch::Skip(_) => false,
                    }
                },
            },
    {
        let tx = match Transaction::try_from(record) {
            Ok(tx) => tx,
            Err(e) => return Dispatch::Skip(e),
        };
        self.active_transactions = self.active_transactions + 1;
        let client = tx.client();
        if self.client_processors.contains(&client) {
            Dispatch::Send(tx)
        } else {
            self.client_processors.insert(client);
            Dispatch::Spawn(tx)
        }
    }

    /// Records that an actor has applied one event sent to it.
    pub fn complete(&mut self)
        requires
            old(self).view().active > 0,
        ensures
            final(self).view().active == old(self).view().active - 1,
            final(self).view().clients == old(self).view().clients,
    {
        self.active_transactions = self.active_transactions - 1;
    }

    /// The number of events in flight.
    pub fn active_transactions(&self) -> (r: usize)
        ensures
            r == self.view().active,
    {
        self.active_transactions
    }

    /// Whether every event sent has been applied, so that the actors may be
    /// closed and their snapshots gathered.
    pub fn is_drained(&self) -> (r: bool)
        ensures
            r == (self.view().active == 0),
    {
        self.active_transactions == 0
    }

    /// Whether `client` has an actor.
    pub fn has_client(&self, client: u16) -> (r: bool)
        ensures
            r == self.view().clients.contains(client),
    {
        self.client_processors.contains(&client)
    }
}

} // verus!
