//! Coordinates, as the library holds them.
//!
//! World coordinates are single-precision numbers. The library only compares
//! and mirrors them, and both are operations on the bit pattern, so a coordinate
//! is held as its pattern. Sums of coordinates are the host's work.

use vstd::prelude::*;

verus! {

/// The pattern of positive infinity; a larger magnitude is not a number.
pub const INFINITY_BITS: u32 = 0x7f80_0000;

/// The sign bit of a pattern.
pub const SIGN_BIT: u32 = 0x8000_0000;

/// A single-precision number, as its IEEE 754 bit pattern.
#[derive(Debug, Clone, Copy)]
pub struct Scalar {
    /// Sign bit, eight exponent bits, twenty-three fraction bits.
    pub bits: u32,
}

impl Scalar {
    /// The number zero.
    pub open spec fn zero_spec() -> Scalar {
        Scalar { bits: 0 }
    }

    /// The number zero.
    pub fn zero() -> (r: Scalar)
        ensures
            r == Scalar::zero_spec(),
    {
        Scalar { bits: 0 }
    }

    /// Whether the sign bit is set.
    pub open spec fn negative(self) -> bool {
        self.bits >= SIGN_BIT
    }

    /// The pattern without its sign bit.
    pub open spec fn magnitude(self) -> int {
        if self.negative() {
            self.bits - SIGN_BIT
        } else {
            self.bits as int
        }
    }

    /// Whether the pattern stands for no number at all.
    pub open spec fn nan(self) -> bool {
        self.magnitude() > INFINITY_BITS
    }

    /// The rank of a number among all numbers: patterns order as sign and
    /// magnitude, and the two zeros share rank 0.
    pub open spec fn rank(self) -> int {
        if self.negative() {
            -self.magnitude()
        } else {
            self.magnitude()
        }
    }

    /// `self <= other`, which is false whenever either is not a number.
    pub open spec fn at_most(self, other: Scalar) -> bool {
        !self.nan() && !other.nan() && self.rank() <= other.rank()
    }

    /// The same number with the other sign.
    pub open spec fn negated(self) -> Scalar {
        if self.negative() {
            Scalar { bits: (self.bits - SIGN_BIT) as u32 }
        } else {
            Scalar { bits: (self.bits + SIGN_BIT) as u32 }
        }
    }

    /// Whether `self <= other` as numbers.
    pub fn le(self, other: Scalar) -> (r: bool)
        ensures
            r == self.at_most(other),
    {
        let a_negative = self.bits >= SIGN_BIT;
        let b_negative = other.bits >= SIGN_BIT;
        let a: u32 = if a_negative {
            self.bits - SIGN_BIT
        } else {
            self.bits
        };
        let b: u32 = if b_negative {
            other.bits - SIGN_BIT
        } else {
            other.bits
        };
        if a > INFINITY_BITS || b > INFINITY_BITS {
            false
        } else if a_negative {
            if b_negative {
                b <= a
            } else {
                true
            }
        } else if b_negative {
            a == 0 && b == 0
        } else {
            a <= b
        }
    }

    /// The number with its sign flipped.
    pub fn neg(self) -> (r: Scalar)
        ensures
            r == self.negated(),
    {
        if self.bits >= SIGN_BIT {
            Scalar { bits: self.bits - SIGN_BIT }
        } else {
            Scalar { bits: self.bits + SIGN_BIT }
        }
    }
}

impl PartialEq for Scalar {
    fn eq(&self, other: &Scalar) -> (r: bool) {
        self.le(*other) && other.le(*self)
    }
}

impl vstd::std_specs::cmp::PartialEqSpecImpl for Scalar {
    open spec fn obeys_eq_spec() -> bool {
        true
    }

    open spec fn eq_spec(&self, other: &Scalar) -> bool {
        self.at_most(*other) && other.at_most(*self)
    }
}

/// A point or a displacement in world pixels.
#[derive(Debug, Clone, Copy, PartialEq)]
pub struct Vec2 {
    /// Towards screen-right.
    pub x: Scalar,
    /// Downwards.
    pub y: Scalar,
}

impl Vec2 {
    /// The origin.
    pub open spec fn zero_spec() -> Vec2 {
        Vec2 { x: Scalar::zero_spec(), y: Scalar::zero_spec() }
    }

    /// The origin.
    pub fn zero() -> (r: Vec2)
        ensures
            r == Vec2::zero_spec(),
    {
        Vec2 { x: Scalar::zero(), y: Scalar::zero() }
    }
}

/// A whole-pixel displacement, as animation frames carry it.
#[derive(Debug, Clone, Copy, PartialEq, Eq)]
pub struct Offset {
    /// Towards screen-right.
    pub x: i16,
    /// Downwards.
    pub y: i16,
}

/// The point `anchor + shift`, componentwise. The two are kept apart because
/// their sum is taken by whoever draws or moves the thing that stands there.
#[derive(Debug, Clone, Copy, PartialEq)]
pub struct Placement {
    /// What the point is measured from.
    pub anchor: Vec2,
    /// How far from the anchor it lies.
    pub shift: Vec2,
}

/// Flipping the sign twice gives the number back.
pub proof fn negated_twice(a: Scalar)
    ensures
        a.negated().negated() == a,
{
}

/// Numbers are totally ordered: of two that are numbers one is at most the other.
pub proof fn at_most_total(a: Scalar, b: Scalar)
    requires
        !a.nan(),
        !b.nan(),
    ensures
        a.at_most(b) || b.at_most(a),
{
}

/// The order of numbers is transitive.
pub proof fn at_most_transitive(a: Scalar, b: Scalar, c: Scalar)
    requires
        a.at_most(b),
        b.at_most(c),
    ensures
        a.at_most(c),
{
}

/// Flipping both signs turns the order round.
pub proof fn negated_reverses(a: Scalar, b: Scalar)
    ensures
        a.at_most(b) == b.negated().at_most(a.negated()),
{
}

/// Negation flips the sign bit of a pattern and no other.
pub proof fn negation_flips_the_sign(x: Scalar)
    ensures
        x.negated().bits == x.bits ^ 0x8000_0000u32,
{
    let b = x.bits;
    assert(b >= 0x8000_0000u32 ==> (b ^ 0x8000_0000u32) == b - 0x8000_0000u32) by (bit_vector);
    assert(b < 0x8000_0000u32 ==> (b ^ 0x8000_0000u32) == b + 0x8000_0000u32) by (bit_vector);
}

/// Patterns without a sign are ordered as they are, those with a sign the other way
/// round, and each of these is below each of those; only the two zeros meet.
pub proof fn patterns_are_ordered(x: Scalar, y: Scalar)
    requires
        !x.nan(),
        !y.nan(),
    ensures
        x.bits < 0x8000_0000 && y.bits < 0x8000_0000 ==> (x.at_most(y) <==> x.bits <= y.bits),
        x.bits >= 0x8000_0000 && y.bits >= 0x8000_0000 ==> (x.at_most(y) <==> y.bits <= x.bits),
        x.bits >= 0x8000_0000 && y.bits < 0x8000_0000 ==> x.at_most(y),
        x.bits < 0x8000_0000 && y.bits >= 0x8000_0000 ==> (x.at_most(y) <==> x.bits == 0 && y.bits
            == 0x8000_0000),
{
}

/// What is no number is at most nothing, and nothing is at most it.
pub proof fn no_number_is_not_ordered(x: Scalar, y: Scalar)
    requires
        0x7f80_0000 < x.bits < 0x8000_0000 || 0xff80_0000 < x.bits,
    ensures
        x.nan(),
        !x.at_most(y) && !y.at_most(x),
{
}

} // verus!
