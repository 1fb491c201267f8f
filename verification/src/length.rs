//! Lengths in points.
use vstd::arithmetic::power2::{lemma_pow2_pos, pow2};
use vstd::prelude::*;

verus! {

/// A length in points, held as the bits of an IEEE 754 double.
///
/// The library orders lengths against zero and hands them on; it does no arithmetic
/// with them.
#[derive(Clone, Copy, Debug, PartialEq, Eq)]
pub struct Length {
    pub bits: u64,
}

impl Length {
    /// The sign bit.
    pub open spec fn negative(self) -> bool {
        self.bits >= 0x8000_0000_0000_0000
    }

    /// The eleven bits of the biased exponent.
    pub open spec fn exponent(self) -> int {
        (self.bits as int / 0x10_0000_0000_0000) % 0x800
    }

    /// The 52 bits of the fraction.
    pub open spec fn fraction(self) -> int {
        self.bits as int % 0x10_0000_0000_0000
    }

    pub open spec fn is_nan(self) -> bool {
        self.exponent() == 0x7ff && self.fraction() != 0
    }

    pub open spec fn is_infinite(self) -> bool {
        self.exponent() == 0x7ff && self.fraction() == 0
    }

    /// The magnitude of a finite length, in units of the smallest positive double.
    pub open spec fn magnitude(self) -> int {
        if self.exponent() == 0 {
            self.fraction()
        } else {
            (0x10_0000_0000_0000 + self.fraction()) * pow2((self.exponent() - 1) as nat)
        }
    }

    /// The number that a finite length stands for, in units of the smallest positive
    /// double.
    pub open spec fn value(self) -> int {
        if self.negative() {
            -self.magnitude()
        } else {
            self.magnitude()
        }
    }

    /// Whether the length is greater than zero. Not a number is not.
    pub open spec fn exceeds_zero(self) -> bool {
        if self.is_nan() {
            false
        } else if self.is_infinite() {
            !self.negative()
        } else {
            self.value() > 0
        }
    }

    /// The length, or zero where it is not greater than zero.
    pub open spec fn at_least_zero(self) -> Length {
        if self.exceeds_zero() {
            self
        } else {
            Length { bits: 0 }
        }
    }

    /// The length zero.
    pub fn zero() -> (r: Length)
        ensures
            r == (Length { bits: 0 }),
            !r.negative(),
            !r.is_nan(),
            !r.is_infinite(),
            r.value() == 0,
    {
        Length { bits: 0 }
    }

    /// The length of one point.
    pub fn one() -> (r: Length)
        ensures
            r == (Length { bits: 0x3ff0_0000_0000_0000 }),
            !r.is_nan(),
            !r.is_infinite(),
            r.value() == 0x10_0000_0000_0000 * pow2(1022),
    {
        Length { bits: 0x3ff0_0000_0000_0000 }
    }

    /// Whether the length is greater than zero.
    pub fn is_positive(self) -> (r: bool)
        ensures
            r == self.exceeds_zero(),
    {
        proof {
            if self.exponent() != 0 {
                let scale = pow2((self.exponent() - 1) as nat) as int;
                lemma_pow2_pos((self.exponent() - 1) as nat);
                assert((0x10_0000_0000_0000 + self.fraction()) * scale > 0) by (nonlinear_arith)
                    requires
                        self.fraction() >= 0,
                        scale > 0,
                ;
            }
        }
        0 < self.bits && self.bits <= 0x7ff0_0000_0000_0000
    }

    /// The greater of the length and zero; zero for not a number.
    pub fn max_zero(self) -> (r: Length)
        ensures
            r == self.at_least_zero(),
    {
        if self.is_positive() {
            self
        } else {
            Length { bits: 0 }
        }
    }
}

} // verus!
