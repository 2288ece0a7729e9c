//! Fixed-point decimal amounts.
//!
//! An amount is a whole number of units and a count of decimal places: it
//! stands for `units / 10^places`. Two amounts are ordered by the numbers
//! they stand for, whatever their places.

use vstd::prelude::*;

verus! {

/// The largest number of units an amount can hold: 96 bits.
pub const MAX_UNITS: i128 = 0xFFFF_FFFF_FFFF_FFFF_FFFF_FFFF;

/// The largest count of decimal places an amount can hold.
pub const MAX_PLACES: u32 = 28;

/// Ten to the power `n`.
pub open spec fn pow10(n: nat) -> int
    decreases n,
{
    if n == 0 {
        1
    } else {
        10 * pow10((n - 1) as nat)
    }
}

/// Whether units and places are within what an amount can hold.
pub open spec fn fits(units: int, places: nat) -> bool {
    -MAX_UNITS <= units <= MAX_UNITS && places <= MAX_PLACES
}

/// `a_units / 10^a_places <= b_units / 10^b_places`, without division.
pub open spec fn ratio_le(a_units: int, a_places: nat, b_units: int, b_places: nat) -> bool {
    a_units * pow10(b_places) <= b_units * pow10(a_places)
}

/// Every power of ten is positive.
pub proof fn lemma_pow10_positive(n: nat)
    ensures
        pow10(n) > 0,
    decreases n,
{
    if n > 0 {
        lemma_pow10_positive((n - 1) as nat);
    }
}

/// A decimal amount: `units / 10^places`.
#[derive(Clone, Copy, Debug)]
pub struct Amount {
    mantissa: i128,
    scale: u32,
}

/// Compares two decimals with `rust_decimal`'s `<=`, after building each with
/// `Decimal::from_i128_with_scale`. Trusted: the crate orders decimals by the
/// numbers they stand for. The bounds keep the constructor from panicking.
#[verifier::external_body]
fn decimal_le(a_units: i128, a_places: u32, b_units: i128, b_places: u32) -> (r: bool)
    requires
        fits(a_units as int, a_places as nat),
        fits(b_units as int, b_places as nat),
    ensures
        r == ratio_le(a_units as int, a_places as nat, b_units as int, b_places as nat),
{
    rust_decimal::Decimal::from_i128_with_scale(a_units, a_places)
        <= rust_decimal::Decimal::from_i128_with_scale(b_units, b_places)
}

impl Amount {
    #[verifier::type_invariant]
    spec fn within_bounds(self) -> bool {
        fits(self.mantissa as int, self.scale as nat)
    }

    /// The whole number of units.
    pub closed spec fn units(self) -> int {
        self.mantissa as int
    }

    /// The count of decimal places.
    pub closed spec fn places(self) -> nat {
        self.scale as nat
    }

    /// The amount is above zero.
    pub open spec fn positive(self) -> bool {
        self.units() > 0
    }

    /// The amount is below zero.
    pub open spec fn negative(self) -> bool {
        self.units() < 0
    }

    /// `self` stands for a number no larger than `other` does.
    pub open spec fn at_most(self, other: Amount) -> bool {
        ratio_le(self.units(), self.places(), other.units(), other.places())
    }

    /// `self` stands for a smaller number than `other` does.
    pub open spec fn below(self, other: Amount) -> bool {
        !other.at_most(self)
    }

    /// An amount of `units / 10^places`, or `None` where it does not fit.
    pub fn new(units: i128, places: u32) -> (r: Option<Amount>)
        ensures
            r is Some <==> fits(units as int, places as nat),
            r matches Some(a) ==> a.units() == units && a.places() == places,
    {
        if places > MAX_PLACES || units > MAX_UNITS || units < -MAX_UNITS {
            None
        } else {
            Some(Amount { mantissa: units, scale: places })
        }
    }

    /// Zero, with no decimal places.
    pub closed spec fn nil() -> Amount {
        Amount { mantissa: 0, scale: 0 }
    }

    /// Zero, with no decimal places.
    pub fn zero() -> (r: Amount)
        ensures
            r == Amount::nil(),
            r.units() == 0,
            r.places() == 0,
    {
        Amount { mantissa: 0, scale: 0 }
    }

    /// The whole number of units.
    pub fn mantissa(&self) -> (r: i128)
        ensures
            r == self.units(),
            fits(r as int, self.places()),
    {
        proof {
            use_type_invariant(self);
        }
        self.mantissa
    }

    /// The count of decimal places.
    pub fn scale(&self) -> (r: u32)
        ensures
            r == self.places(),
            r <= MAX_PLACES,
    {
        proof {
            use_type_invariant(self);
        }
        self.scale
    }

    /// Tells whether `self` is no larger than `other`.
    pub fn le(&self, other: &Amount) -> (r: bool)
        ensures
            r == self.at_most(*other),
    {
        proof {
            use_type_invariant(self);
            use_type_invariant(other);
        }
        decimal_le(self.mantissa, self.scale, other.mantissa, other.scale)
    }

    /// Tells whether `self` is smaller than `other`.
    pub fn lt(&self, other: &Amount) -> (r: bool)
        ensures
            r == self.below(*other),
    {
        !other.le(self)
    }

    /// Tells whether the amount is above zero.
    pub fn is_positive(&self) -> (r: bool)
        ensures
            r == self.positive(),
    {
        let zero = Amount::zero();
        proof {
            lemma_pow10_positive(self.places());
            lemma_sign_by_zero(self.units(), self.places());
        }
        !self.le(&zero)
    }

    /// Tells whether the amount is below zero.
    pub fn is_negative(&self) -> (r: bool)
        ensures
            r == self.negative(),
    {
        let zero = Amount::zero();
        proof {
            lemma_sign_by_zero(self.units(), self.places());
        }
        self.lt(&zero)
    }
}

/// Against zero, the order of two amounts is the sign of the units.
pub proof fn lemma_sign_by_zero(units: int, places: nat)
    ensures
        ratio_le(units, places, 0, 0) <==> units <= 0,
        ratio_le(0, 0, units, places) <==> 0 <= units,
{
    lemma_pow10_positive(places);
    assert(pow10(0) == 1);
    assert(units * pow10(0) == units) by (nonlinear_arith)
        requires
            pow10(0) == 1,
    ;
    assert(0 * pow10(places) == 0) by (nonlinear_arith);
}

/// The order of amounts is transitive.
pub proof fn lemma_order_transitive(a: Amount, b: Amount, c: Amount)
    requires
        a.at_most(b),
        b.at_most(c),
    ensures
        a.at_most(c),
{
    let pa = pow10(a.places());
    let pb = pow10(b.places());
    let pc = pow10(c.places());
    lemma_pow10_positive(a.places());
    lemma_pow10_positive(b.places());
    lemma_pow10_positive(c.places());
    let x = a.units();
    let y = b.units();
    let z = c.units();
    assert(x * pc <= z * pa) by (nonlinear_arith)
        requires
            x * pb <= y * pa,
            y * pc <= z * pb,
            pa > 0,
            pb > 0,
            pc > 0,
    ;
}

} // verus!
