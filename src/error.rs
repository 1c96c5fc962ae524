//! The errors of processing one event in a client's state machine.

use vstd::prelude::*;

use crate::balances;

verus! {

/// Why an event was not applied. Every such error is local to one event.
#[derive(Debug, Clone, Copy, PartialEq, Eq, Structural)]
pub enum Error {
    /// The deposit would overflow the available balance.
    InvalidTransaction { id: u32 },
    /// The deposit's id is already in the deposit index.
    DuplicatedTransaction { id: u32 },
    /// A balance operation failed.
    Balances(balances::Error),
}

} // verus!
