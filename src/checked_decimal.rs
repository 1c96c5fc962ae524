//! Fixed-point monetary values with four fractional digits.
//!
//! A value is held as a count of units of 10^-4. Two refinements exist:
//! `NonZero` for the strictly positive amounts that events carry, and
//! `NonNegative` for balances, whose arithmetic is checked.

use vstd::prelude::*;

verus! {

/// Units in one whole unit of currency: four fractional digits.
pub const UNITS_PER_WHOLE: u128 = 10000;

/// Largest whole value that a monetary value can reach (2^96 - 1).
pub const MAX_WHOLE: u128 = 79228162514264337593543950335;

/// Largest monetary value, in units of 10^-4.
pub const MAX_UNITS: u128 = MAX_WHOLE * UNITS_PER_WHOLE;

/// Sum of two values, or `None` past the representable maximum.
pub open spec fn checked_add_spec(a: nat, b: nat) -> Option<nat> {
    if a + b <= MAX_UNITS {
        Some((a + b) as nat)
    } else {
        None
    }
}

/// Difference of two values, or `None` where it would be negative.
pub open spec fn checked_sub_spec(a: nat, b: nat) -> Option<nat> {
    if b <= a {
        Some((a - b) as nat)
    } else {
        None
    }
}

/// Ten to the power `n`.
pub open spec fn pow10(n: nat) -> nat
    decreases n,
{
    if n == 0 {
        1
    } else {
        10 * pow10((n - 1) as nat)
    }
}

/// The count of units of 10^-4 in the decimal `mantissa * 10^-scale`, where
/// that decimal has at most four fractional digits and lies within the
/// representable range.
pub open spec fn units_from_scaled_spec(mantissa: int, scale: nat) -> Option<int> {
    if scale <= 4 && -MAX_WHOLE <= mantissa <= MAX_WHOLE {
        Some(mantissa * pow10((4 - scale) as nat))
    } else {
        None
    }
}

/// Converts the decimal `mantissa * 10^-scale` into units of 10^-4. Values
/// with more than four fractional digits, or whose mantissa passes
/// `MAX_WHOLE` in magnitude, give `None`.
pub fn units_from_scaled(mantissa: i128, scale: u32) -> (r: Option<i128>)
    ensures
        r matches Some(u) ==> units_from_scaled_spec(mantissa as int, scale as nat) == Some(
            u as int,
        ),
        r is None <==> units_from_scaled_spec(mantissa as int, scale as nat) is None,
{
    if scale > 4 || mantissa < -(MAX_WHOLE as i128) || mantissa > MAX_WHOLE as i128 {
        return None;
    }
    let factor: i128 = if scale == 4 {
        1
    } else if scale == 3 {
        10
    } else if scale == 2 {
        100
    } else if scale == 1 {
        1000
    } else {
        10000
    };
    proof {
        reveal_with_fuel(pow10, 5);
    }
    assert(factor == pow10((4 - scale) as nat));
    assert(-MAX_WHOLE * 10000 <= mantissa * factor <= MAX_WHOLE * 10000) by (nonlinear_arith)
        requires
            -MAX_WHOLE <= mantissa <= MAX_WHOLE,
            0 < factor <= 10000,
    ;
    Some(mantissa * factor)
}

/// A strictly positive monetary value: the amount of a deposit or withdrawal.
#[derive(Debug, Clone, Copy, PartialEq, Eq, Structural)]
pub struct NonZero {
    units: u128,
}

impl NonZero {
    #[verifier::type_invariant]
    spec fn inv(self) -> bool {
        0 < self.units <= MAX_UNITS
    }

    /// The value in units of 10^-4.
    pub closed spec fn view(self) -> nat {
        self.units as nat
    }

    /// Accepts a raw value (in units of 10^-4) that is strictly positive and
    /// within range; rejects zero, negative and out-of-range values.
    pub fn try_from(value: i128) -> (r: Result<NonZero, ()>)
        ensures
            r is Ok <==> 0 < value <= MAX_UNITS,
            r is Ok ==> r->Ok_0.view() == value,
    {
        if 0 < value && value <= MAX_UNITS as i128 {
            Ok(NonZero { units: value as u128 })
        } else {
            Err(())
        }
    }

    /// The value in units of 10^-4.
    pub fn units(&self) -> (r: u128)
        ensures
            r == self.view(),
            0 < r <= MAX_UNITS,
    {
        proof {
            use_type_invariant(self);
        }
        self.units
    }
}

/// A non-negative monetary value: one of the two fields of a balance.
#[derive(Debug, Clone, Copy, PartialEq, Eq, Structural)]
pub struct NonNegative {
    units: u128,
}

impl NonNegative {
    #[verifier::type_invariant]
    spec fn inv(self) -> bool {
        self.units <= MAX_UNITS
    }

    /// The value in units of 10^-4.
    pub closed spec fn view(self) -> nat {
        self.units as nat
    }

    /// Zero.
    pub fn new() -> (r: NonNegative)
        ensures
            r.view() == 0,
    {
        NonNegative { units: 0 }
    }

    /// The smallest value: zero.
    pub fn min_value() -> (r: NonNegative)
        ensures
            r.view() == 0,
    {
        NonNegative { units: 0 }
    }

    /// The largest representable value.
    pub fn max_value() -> (r: NonNegative)
        ensures
            r.view() == MAX_UNITS,
    {
        NonNegative { units: MAX_UNITS }
    }

    /// Builds a value from a count of units of 10^-4, if it is in range.
    pub fn from_units(units: u128) -> (r: Option<NonNegative>)
        ensures
            r is Some <==> units <= MAX_UNITS,
            r is Some ==> r->Some_0.view() == units,
    {
        if units <= MAX_UNITS {
            Some(NonNegative { units })
        } else {
            None
        }
    }

    /// The value in units of 10^-4.
    pub fn units(&self) -> (r: u128)
        ensures
            r == self.view(),
            r <= MAX_UNITS,
    {
        proof {
            use_type_invariant(self);
        }
        self.units
    }

    /// The whole part of the value.
    pub fn whole_part(&self) -> (r: u128)
        ensures
            r == self.view() / (UNITS_PER_WHOLE as nat),
    {
        self.units / UNITS_PER_WHOLE
    }

    /// The four fractional digits of the value, as a number below 10000.
    pub fn fractional_part(&self) -> (r: u128)
        ensures
            r == self.view() % (UNITS_PER_WHOLE as nat),
            r < UNITS_PER_WHOLE,
    {
        self.units % UNITS_PER_WHOLE
    }

    /// Checked addition: `None` where the sum passes the maximum.
    pub fn add(self, other: NonNegative) -> (r: Option<NonNegative>)
        ensures
            r matches Some(v) ==> checked_add_spec(self.view(), other.view()) == Some(v.view()),
            r is None <==> checked_add_spec(self.view(), other.view()) is None,
    {
        proof {
            use_type_invariant(&self);
            use_type_invariant(&other);
        }
        let sum: u128 = self.units + other.units;
        if sum <= MAX_UNITS {
            Some(NonNegative { units: sum })
        } else {
            None
        }
    }

    /// Checked subtraction: `None` where the difference would be negative.
    pub fn sub(self, other: NonNegative) -> (r: Option<NonNegative>)
        ensures
            r matches Some(v) ==> checked_sub_spec(self.view(), other.view()) == Some(v.view()),
            r is None <==> checked_sub_spec(self.view(), other.view()) is None,
    {
        proof {
            use_type_invariant(&self);
            use_type_invariant(&other);
        }
        if other.units <= self.units {
            Some(NonNegative { units: self.units - other.units })
        } else {
            None
        }
    }
}

impl From<NonZero> for NonNegative {
    fn from(value: NonZero) -> (r: NonNegative) {
        proof {
            use_type_invariant(&value);
        }
        NonNegative { units: value.units }
    }
}

impl vstd::std_specs::convert::FromSpecImpl<NonZero> for NonNegative {
    open spec fn obeys_from_spec() -> bool {
        true
    }

    closed spec fn from_spec(v: NonZero) -> NonNegative {
        NonNegative { units: v.units }
    }
}

impl From<u32> for NonNegative {
    /// A whole number of currency units.
    fn from(value: u32) -> (r: NonNegative) {
        NonNegative { units: value as u128 * UNITS_PER_WHOLE }
    }
}

impl vstd::std_specs::convert::FromSpecImpl<u32> for NonNegative {
    open spec fn obeys_from_spec() -> bool {
        true
    }

    closed spec fn from_spec(v: u32) -> NonNegative {
        NonNegative { units: (v as u128 * UNITS_PER_WHOLE) as u128 }
    }
}

impl NonZero {
    /// The same value as a balance amount.
    pub fn to_non_negative(self) -> (r: NonNegative)
        ensures
            r.view() == self.view(),
    {
        NonNegative::from(self)
    }
}

} // verus!
