//! The two balances of an account, `available` and `held`, and the five
//! checked operations on them. The total is never stored: it is derived
//! from the two fields when a snapshot is taken.

use vstd::prelude::*;

use crate::checked_decimal::{checked_add_spec, checked_sub_spec, NonNegative};

verus! {

/// The failure of a balance operation: checked arithmetic went out of range.
#[derive(Debug, Clone, Copy, PartialEq, Eq, Structural)]
pub enum Error {
    ArithmeticOverflow,
}

/// The mathematical value of a `Balances`, in units of 10^-4.
pub struct BalancesView {
    pub available: nat,
    pub held: nat,
}

/// Moves `amount` from `from` to `to`; `None` if either step fails.
pub open spec fn transfer_spec(from: nat, to: nat, amount: nat) -> Option<(nat, nat)> {
    match checked_sub_spec(from, amount) {
        Some(new_from) => match checked_add_spec(to, amount) {
            Some(new_to) => Some((new_from, new_to)),
            None => None,
        },
        None => None,
    }
}

/// `available + amount`.
pub open spec fn deposit_spec(b: BalancesView, amount: nat) -> Option<BalancesView> {
    match checked_add_spec(b.available, amount) {
        Some(a) => Some(BalancesView { available: a, held: b.held }),
        None => None,
    }
}

/// `available - amount`, refused where `available < amount`.
pub open spec fn withdrawal_spec(b: BalancesView, amount: nat) -> Option<BalancesView> {
    match checked_sub_spec(b.available, amount) {
        Some(a) => Some(BalancesView { available: a, held: b.held }),
        None => None,
    }
}

/// Moves `amount` from `available` to `held`.
pub open spec fn dispute_spec(b: BalancesView, amount: nat) -> Option<BalancesView> {
    match transfer_spec(b.available, b.held, amount) {
        Some((a, h)) => Some(BalancesView { available: a, held: h }),
        None => None,
    }
}

/// Moves `amount` from `held` back to `available`.
pub open spec fn resolve_spec(b: BalancesView, amount: nat) -> Option<BalancesView> {
    match transfer_spec(b.held, b.available, amount) {
        Some((h, a)) => Some(BalancesView { available: a, held: h }),
        None => None,
    }
}

/// Removes `amount` from `held`.
pub open spec fn chargeback_spec(b: BalancesView, amount: nat) -> Option<BalancesView> {
    match checked_sub_spec(b.held, amount) {
        Some(h) => Some(BalancesView { available: b.available, held: h }),
        None => None,
    }
}

/// The balances of one account.
#[derive(Debug, Clone, Copy)]
pub struct Balances {
    available: NonNegative,
    held: NonNegative,
}

impl Balances {
    /// The mathematical value of these balances.
    pub closed spec fn view(self) -> BalancesView {
        BalancesView { available: self.available.view(), held: self.held.view() }
    }

    /// Both balances at zero.
    pub fn new() -> (r: Balances)
        ensures
            r.view() == (BalancesView { available: 0, held: 0 }),
    {
        Balances { available: NonNegative::new(), held: NonNegative::new() }
    }

    /// Balances with the given fields.
    pub fn new_with_values(available: NonNegative, held: NonNegative) -> (r: Balances)
        ensures
            r.view() == (BalancesView { available: available.view(), held: held.view() }),
    {
        Balances { available, held }
    }

    fn transfer(from: NonNegative, to: NonNegative, amount: NonNegative) -> (r: Option<
        (NonNegative, NonNegative),
    >)
        ensures
            r matches Some((f, t)) ==> transfer_spec(from.view(), to.view(), amount.view()) == Some(
                (f.view(), t.view()),
            ),
            r is None <==> transfer_spec(from.view(), to.view(), amount.view()) is None,
    {
        let new_from = match from.sub(amount) {
            Some(v) => v,
            None => return None,
        };
        let new_to = match to.add(amount) {
            Some(v) => v,
            None => return None,
        };
        Some((new_from, new_to))
    }

    /// Adds `amount` to `available`.
    pub fn deposit(&mut self, amount: NonNegative) -> (r: Result<(), Error>)
        ensures
            match deposit_spec(old(self).view(), amount.view()) {
                Some(b) => r is Ok && final(self).view() == b,
                None => r is Err && final(self).view() == old(self).view(),
            },
    {
        match self.available.add(amount) {
            Some(v) => {
                self.available = v;
                Ok(())
            },
            None => Err(Error::ArithmeticOverflow),
        }
    }

    /// Takes `amount` from `available`; fails where `available < amount`.
    pub fn withdrawal(&mut self, amount: NonNegative) -> (r: Result<(), Error>)
        ensures
            match withdrawal_spec(old(self).view(), amount.view()) {
                Some(b) => r is Ok && final(self).view() == b,
                None => r is Err && final(self).view() == old(self).view(),
            },
    {
        match self.available.sub(amount) {
            Some(v) => {
                self.available = v;
                Ok(())
            },
            None => Err(Error::ArithmeticOverflow),
        }
    }

    /// Moves `amount` from `available` to `held`, both or neither.
    pub fn dispute(&mut self, amount: NonNegative) -> (r: Result<(), Error>)
        ensures
            match dispute_spec(old(self).view(), amount.view()) {
                Some(b) => r is Ok && final(self).view() == b,
                None => r is Err && final(self).view() == old(self).view(),
            },
    {
        match Self::transfer(self.available, self.held, amount) {
            Some((new_available, new_held)) => {
                self.held = new_held;
                self.available = new_available;
                Ok(())
            },
            None => Err(Error::ArithmeticOverflow),
        }
    }

    /// Moves `amount` from `held` back to `available`, both or neither.
    pub fn resolve(&mut self, amount: NonNegative) -> (r: Result<(), Error>)
        ensures
            match resolve_spec(old(self).view(), amount.view()) {
                Some(b) => r is Ok && final(self).view() == b,
                None => r is Err && final(self).view() == old(self).view(),
            },
    {
        match Self::transfer(self.held, self.available, amount) {
            Some((new_held, new_available)) => {
                self.held = new_held;
                self.available = new_available;
                Ok(())
            },
            None => Err(Error::ArithmeticOverflow),
        }
    }

    /// Removes `amount` from `held`.
    pub fn chargeback(&mut self, amount: NonNegative) -> (r: Result<(), Error>)
        ensures
            match chargeback_spec(old(self).view(), amount.view()) {
                Some(b) => r is Ok && final(self).view() == b,
                None => r is Err && final(self).view() == old(self).view(),
            },
    {
        match self.held.sub(amount) {
            Some(v) => {
                self.held = v;
                Ok(())
            },
            None => Err(Error::ArithmeticOverflow),
        }
    }

    /// The available balance.
    pub fn available(&self) -> (r: NonNegative)
        ensures
            r.view() == self.view().available,
    {
        self.available
    }

    /// The held balance.
    pub fn held(&self) -> (r: NonNegative)
        ensures
            r.view() == self.view().held,
    {
        self.held
    }
}

} // verus!
