//! Single-precision numbers carried by their bit pattern, so that they can be
//! stored and compared without any arithmetic on them.

use vstd::prelude::*;

verus! {

/// The bit that holds the sign.
pub const SIGN_BIT: u32 = 0x8000_0000;

/// The magnitude bits of positive infinity; above it lie the NaN patterns.
pub const INFINITY_BITS: u32 = 0x7f80_0000;

/// An IEEE 754 single-precision number, held as its 32 bits.
///
/// The order of the numbers can be read off the bits: the magnitude bits grow
/// with the magnitude, and the sign bit mirrors them. Both zeros share one
/// place in that order, and a NaN has none.
#[derive(Clone, Copy, Debug, PartialEq, Eq, Structural)]
pub struct Single {
    pub bits: u32,
}

impl Single {
    /// The bits without the sign.
    pub open spec fn magnitude(self) -> int {
        if self.bits >= SIGN_BIT {
            self.bits - SIGN_BIT
        } else {
            self.bits as int
        }
    }

    /// Whether the bits stand for no number.
    pub open spec fn is_nan(self) -> bool {
        self.magnitude() > INFINITY_BITS
    }

    /// The place of the number in the order of all numbers: the magnitude,
    /// below zero for a number with the sign bit set.
    pub open spec fn rank(self) -> int {
        if self.bits >= SIGN_BIT {
            -self.magnitude()
        } else {
            self.magnitude()
        }
    }

    /// The comparison `self < other` of IEEE 754: false as soon as one side
    /// is a NaN.
    pub open spec fn less_than(self, other: Single) -> bool {
        !self.is_nan() && !other.is_nan() && self.rank() < other.rank()
    }

    /// Wraps the bits of a number.
    pub fn from_bits(bits: u32) -> (x: Single)
        ensures
            x.bits == bits,
    {
        Single { bits }
    }

    /// The bits of the number.
    pub fn to_bits(self) -> (bits: u32)
        ensures
            bits == self.bits,
    {
        self.bits
    }

    fn ranked(self) -> (r: Option<i64>)
        ensures
            self.is_nan() ==> r is None,
            !self.is_nan() ==> r == Some(self.rank() as i64),
            r matches Some(v) ==> v == self.rank(),
    {
        let negative = self.bits >= SIGN_BIT;
        let magnitude: u32 = if negative {
            self.bits - SIGN_BIT
        } else {
            self.bits
        };
        if magnitude > INFINITY_BITS {
            None
        } else if negative {
            Some(-(magnitude as i64))
        } else {
            Some(magnitude as i64)
        }
    }

    /// Whether `self < other` holds.
    pub fn lt(self, other: Single) -> (b: bool)
        ensures
            b == self.less_than(other),
    {
        match (self.ranked(), other.ranked()) {
            (Some(a), Some(b)) => a < b,
            _ => false,
        }
    }
}

/// Among numbers, `less_than` is a strict order: nothing lies below itself,
/// and what lies below something that lies below a third lies below the third.
pub proof fn lemma_less_than_is_strict_order(a: Single, b: Single, c: Single)
    ensures
        !a.less_than(a),
        a.less_than(b) ==> !b.less_than(a),
        a.less_than(b) && b.less_than(c) ==> a.less_than(c),
{
}

} // verus!
