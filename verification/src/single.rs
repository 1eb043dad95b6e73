//! Single-precision numbers as bit patterns: order, equality and the
//! whole-number part, decided on the encoding alone.

use vstd::prelude::*;
use vstd::arithmetic::power2::*;
use vstd::bits::*;

verus! {

/// Encoding of the number 1.
pub const ONE_BITS: u32 = 0x3F80_0000;

/// A single-precision number held by its IEEE-754 bit pattern.
///
/// The library never computes with such a number; it stores it, hands it on,
/// compares it and cuts it to a whole number. Arithmetic on it belongs to
/// the caller.
#[derive(Clone, Copy, Debug, PartialEq, Eq, Structural)]
pub struct Single {
    pub bits: u32,
}

impl Single {
    /// The number with the given encoding.
    pub fn from_bits(bits: u32) -> (number: Single)
        ensures
            number.bits == bits,
    {
        Single { bits }
    }

    /// The encoding of the number.
    pub fn to_bits(self) -> (bits: u32)
        ensures
            bits == self.bits,
    {
        self.bits
    }

    /// The encoding without its sign bit.
    pub open spec fn magnitude(self) -> int {
        self.bits as int % 0x8000_0000
    }

    /// The sign bit is set.
    pub open spec fn negative(self) -> bool {
        self.bits >= 0x8000_0000
    }

    /// The encoding stands for no number.
    pub open spec fn is_nan(self) -> bool {
        self.magnitude() > 0x7F80_0000
    }

    /// An integer that grows exactly as the encoded number does; both zeros
    /// have rank 0.
    pub open spec fn rank(self) -> int {
        if self.negative() {
            -self.magnitude()
        } else {
            self.magnitude()
        }
    }

    /// `self < other` as numbers: false where either is not a number.
    pub open spec fn lt(self, other: Single) -> bool {
        !self.is_nan() && !other.is_nan() && self.rank() < other.rank()
    }

    /// `self == other` as numbers: the two zeros are equal, and what is
    /// not a number equals nothing.
    pub open spec fn same_number(self, other: Single) -> bool {
        !self.is_nan() && !other.is_nan() && self.rank() == other.rank()
    }

    /// The biased exponent field.
    pub open spec fn exponent(self) -> int {
        self.magnitude() / 0x80_0000
    }

    /// The fraction field with the leading one put in front.
    pub open spec fn significand(self) -> int {
        0x80_0000 + self.magnitude() % 0x80_0000
    }

    /// The number cut to a whole number and kept within `u32`: zero for
    /// what is negative, below one or not a number, the largest `u32` for
    /// what is too large.
    pub open spec fn truncated(self) -> int {
        if self.negative() || self.is_nan() || self.exponent() < 127 {
            0
        } else if self.exponent() >= 159 {
            0xFFFF_FFFF
        } else if self.exponent() >= 150 {
            self.significand() * pow2((self.exponent() - 150) as nat)
        } else {
            self.significand() / (pow2((150 - self.exponent()) as nat) as int)
        }
    }

    /// The encoding without its sign bit.
    fn magnitude_of(self) -> (m: u32)
        ensures
            m == self.magnitude(),
    {
        let bits = self.bits;
        if bits >= 0x8000_0000 {
            bits - 0x8000_0000
        } else {
            bits
        }
    }

    /// Whether `self < other` as numbers.
    pub fn less_than(self, other: Single) -> (less: bool)
        ensures
            less == self.lt(other),
    {
        let a = self.magnitude_of();
        let b = other.magnitude_of();
        if a > 0x7F80_0000 || b > 0x7F80_0000 {
            false
        } else if self.bits >= 0x8000_0000 {
            if other.bits >= 0x8000_0000 {
                a > b
            } else {
                a != 0 || b != 0
            }
        } else {
            other.bits < 0x8000_0000 && a < b
        }
    }

    /// Whether `self != other` as numbers.
    pub fn differs(self, other: Single) -> (differ: bool)
        ensures
            differ == !self.same_number(other),
    {
        let a = self.magnitude_of();
        let b = other.magnitude_of();
        if a > 0x7F80_0000 || b > 0x7F80_0000 {
            true
        } else if a == 0 && b == 0 {
            false
        } else {
            self.bits != other.bits
        }
    }

    /// `self`, or `floor` where `self` is below it.
    pub fn at_least(self, floor: Single) -> (raised: Single)
        ensures
            raised == if self.lt(floor) { floor } else { self },
    {
        if self.less_than(floor) {
            floor
        } else {
            self
        }
    }

    /// The whole-number part, kept within `u32`.
    pub fn truncate(self) -> (whole: u32)
        ensures
            whole == self.truncated(),
    {
        let bits = self.bits;
        if bits >= 0x8000_0000 || bits > 0x7F80_0000 {
            return 0;
        }
        let exponent: u32 = bits >> 23;
        let fraction: u32 = bits & 0x7F_FFFF;
        assert(exponent == bits / 0x80_0000) by (bit_vector)
            requires
                exponent == bits >> 23,
        ;
        assert(fraction == bits % 0x80_0000) by (bit_vector)
            requires
                fraction == bits & 0x7F_FFFF,
        ;
        if exponent < 127 {
            0
        } else if exponent >= 159 {
            0xFFFF_FFFF
        } else {
            let significand: u32 = 0x80_0000 + fraction;
            if exponent >= 150 {
                let shift: u32 = exponent - 150;
                proof {
                    lemma2_to64();
                    if shift < 8 {
                        lemma_pow2_strictly_increases(shift as nat, 8);
                    }
                    assert(significand * pow2(shift as nat) <= 0xFF_FFFF * 0x100) by (nonlinear_arith)
                        requires
                            significand <= 0xFF_FFFF,
                            pow2(shift as nat) <= 0x100,
                    ;
                    lemma_u32_shl_is_mul(significand, shift);
                }
                significand << shift
            } else {
                let shift: u32 = 150 - exponent;
                proof {
                    lemma_u32_shr_is_div(significand, shift);
                }
                significand >> shift
            }
        }
    }
}

} // verus!
