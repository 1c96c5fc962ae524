//! `NonNegativeCheckedDecimal`: a second name for the balance value type,
//! describing what it is, a non-negative decimal with checked arithmetic.

use vstd::prelude::*;

verus! {

/// A non-negative monetary value with checked arithmetic; the same type as
/// `NonNegative`.
pub type NonNegativeCheckedDecimal = crate::checked_decimal::NonNegative;

} // verus!
