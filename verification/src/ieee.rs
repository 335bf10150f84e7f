//! Comparisons of IEEE 754 binary numbers carried as bit patterns.
//!
//! The canvas and the dock measure in binary floating point. The library takes
//! such a measure as its bit pattern and compares it exactly as the hardware
//! does: a pattern is a sign bit above a magnitude, magnitudes order like the
//! unsigned integers that spell them, the two zeros are equal, and a magnitude
//! above the one of infinity is not a number.

use vstd::prelude::*;

verus! {

/// The sign bit of a double.
pub const SIGN_64: u64 = 0x8000_0000_0000_0000;

/// The magnitude of infinity in a double.
pub const INFINITY_64: u64 = 0x7ff0_0000_0000_0000;

/// A double-precision number, by its bit pattern.
#[derive(Clone, Copy, Debug, PartialEq, Eq, Structural)]
pub struct Double {
    pub bits: u64,
}

impl Double {
    /// The magnitude: the pattern without its sign.
    pub open spec fn magnitude(self) -> int {
        if self.bits < SIGN_64 {
            self.bits as int
        } else {
            self.bits - SIGN_64
        }
    }

    /// Whether the sign bit is set.
    pub open spec fn negative(self) -> bool {
        self.bits >= SIGN_64
    }

    /// Whether the pattern spells no number.
    pub open spec fn nan(self) -> bool {
        self.magnitude() > INFINITY_64
    }

    /// Where the number stands on the line: patterns that are numbers compare
    /// as these integers do, and both zeros stand at 0.
    pub open spec fn place(self) -> int {
        if self.negative() {
            -self.magnitude()
        } else {
            self.magnitude()
        }
    }

    /// Where the pattern stands in the total order of all patterns: below every
    /// number come the negative patterns that are none, minus zero comes just
    /// below zero, and above every number come the rest.
    pub open spec fn total(self) -> int {
        if self.negative() {
            -self.magnitude() - 1
        } else {
            self.magnitude()
        }
    }

    /// `a < b`: false as soon as one of them is not a number.
    pub open spec fn lt_spec(self, other: Double) -> bool {
        !self.nan() && !other.nan() && self.place() < other.place()
    }

    /// `a <= b`: false as soon as one of them is not a number.
    pub open spec fn le_spec(self, other: Double) -> bool {
        !self.nan() && !other.nan() && self.place() <= other.place()
    }

    /// The number with this bit pattern.
    pub fn from_bits(bits: u64) -> (d: Double)
        ensures
            d.bits == bits,
    {
        Double { bits }
    }

    /// Whether the pattern spells no number.
    pub fn is_nan(self) -> (r: bool)
        ensures
            r == self.nan(),
    {
        let magnitude: u64 = if self.bits < SIGN_64 {
            self.bits
        } else {
            self.bits - SIGN_64
        };
        magnitude > INFINITY_64
    }

    /// The absolute value: the sign bit cleared, whatever the pattern.
    pub fn abs(self) -> (r: Double)
        ensures
            r.bits == self.magnitude(),
            r.nan() == self.nan(),
            !r.negative(),
    {
        if self.bits < SIGN_64 {
            self
        } else {
            Double { bits: self.bits - SIGN_64 }
        }
    }

    /// Whether this number is less than the other.
    pub fn less(self, other: Double) -> (r: bool)
        ensures
            r == self.lt_spec(other),
    {
        if self.is_nan() || other.is_nan() {
            false
        } else if self.bits < SIGN_64 {
            other.bits < SIGN_64 && self.bits < other.bits
        } else if other.bits < SIGN_64 {
            self.bits != SIGN_64 || other.bits != 0
        } else {
            self.bits > other.bits
        }
    }

    /// Whether this number is at most the other.
    pub fn at_most(self, other: Double) -> (r: bool)
        ensures
            r == self.le_spec(other),
    {
        if self.is_nan() || other.is_nan() {
            false
        } else if self.bits < SIGN_64 {
            if other.bits < SIGN_64 {
                self.bits <= other.bits
            } else {
                self.bits == 0 && other.bits == SIGN_64
            }
        } else if other.bits < SIGN_64 {
            true
        } else {
            self.bits >= other.bits
        }
    }

    /// Whether this pattern comes before the other in the total order.
    pub fn total_less(self, other: Double) -> (r: bool)
        ensures
            r == (self.total() < other.total()),
    {
        if self.bits < SIGN_64 {
            other.bits < SIGN_64 && self.bits < other.bits
        } else if other.bits < SIGN_64 {
            true
        } else {
            self.bits > other.bits
        }
    }
}

/// The total order tells every two different patterns apart.
pub proof fn law_total_order_is_strict(a: Double, b: Double)
    ensures
        a.total() == b.total() <==> a == b,
{
}

/// On numbers the total order refines the usual one: only the two zeros, equal
/// as numbers, stand apart in it.
pub proof fn law_total_order_refines(a: Double, b: Double)
    requires
        !a.nan(),
        !b.nan(),
    ensures
        a.lt_spec(b) ==> a.total() < b.total(),
        a.total() < b.total() ==> a.le_spec(b),
{
}

/// The sign bit of a single.
pub const SIGN_32: u32 = 0x8000_0000;

/// The magnitude of infinity in a single.
pub const INFINITY_32: u32 = 0x7f80_0000;

/// One more than the digits that a single keeps behind the first.
pub const UNIT_32: u32 = 0x80_0000;

/// A single-precision number, by its bit pattern.
#[derive(Clone, Copy, Debug, PartialEq, Eq, Structural)]
pub struct Single {
    pub bits: u32,
}

impl Single {
    /// The magnitude: the pattern without its sign.
    pub open spec fn magnitude(self) -> int {
        if self.bits < SIGN_32 {
            self.bits as int
        } else {
            self.bits - SIGN_32
        }
    }

    /// Whether the sign bit is set.
    pub open spec fn negative(self) -> bool {
        self.bits >= SIGN_32
    }

    /// Whether the pattern spells no number.
    pub open spec fn nan(self) -> bool {
        self.magnitude() > INFINITY_32
    }

    /// Whether the pattern spells an infinity.
    pub open spec fn infinite(self) -> bool {
        self.magnitude() == INFINITY_32
    }

    /// The digits of a finite number, as a whole number.
    pub open spec fn significand(self) -> nat {
        let rest = self.magnitude() % UNIT_32 as int;
        if self.magnitude() < UNIT_32 {
            rest as nat
        } else {
            (rest + UNIT_32) as nat
        }
    }

    /// The power of two that the digits of a finite number are counted in.
    pub open spec fn power(self) -> int {
        let exponent = self.magnitude() / UNIT_32 as int;
        if exponent == 0 {
            -149
        } else {
            exponent - 150
        }
    }

    /// Where the number stands on the line: patterns that are numbers compare
    /// as these integers do, and both zeros stand at 0.
    pub open spec fn place(self) -> int {
        if self.negative() {
            -self.magnitude()
        } else {
            self.magnitude()
        }
    }

    /// Where the pattern stands in the total order of all patterns: below every
    /// number come the negative patterns that are none, minus zero comes just
    /// below zero, and above every number come the rest.
    pub open spec fn total(self) -> int {
        if self.negative() {
            -self.magnitude() - 1
        } else {
            self.magnitude()
        }
    }

    /// `a < b`: false as soon as one of them is not a number.
    pub open spec fn lt_spec(self, other: Single) -> bool {
        !self.nan() && !other.nan() && self.place() < other.place()
    }

    /// `a <= b`: false as soon as one of them is not a number.
    pub open spec fn le_spec(self, other: Single) -> bool {
        !self.nan() && !other.nan() && self.place() <= other.place()
    }

    /// The number with this bit pattern.
    pub fn from_bits(bits: u32) -> (s: Single)
        ensures
            s.bits == bits,
    {
        Single { bits }
    }

    /// Whether the pattern spells no number.
    pub fn is_nan(self) -> (r: bool)
        ensures
            r == self.nan(),
    {
        let magnitude: u32 = if self.bits < SIGN_32 {
            self.bits
        } else {
            self.bits - SIGN_32
        };
        magnitude > INFINITY_32
    }

    /// The digits of a finite number and the power of two they are counted in.
    pub fn parts(self) -> (r: (u32, i32))
        requires
            !self.nan(),
            !self.infinite(),
        ensures
            r.0 == self.significand(),
            r.1 == self.power(),
            r.0 < 0x100_0000,
            -149 <= r.1 <= 104,
    {
        let magnitude: u32 = if self.bits < SIGN_32 {
            self.bits
        } else {
            self.bits - SIGN_32
        };
        let exponent: u32 = magnitude / UNIT_32;
        let rest: u32 = magnitude % UNIT_32;
        if exponent == 0 {
            (rest, -149)
        } else {
            (rest + UNIT_32, exponent as i32 - 150)
        }
    }

    /// The absolute value: the sign bit cleared, whatever the pattern.
    pub fn abs(self) -> (r: Single)
        ensures
            r.bits == self.magnitude(),
            r.nan() == self.nan(),
            !r.negative(),
    {
        if self.bits < SIGN_32 {
            self
        } else {
            Single { bits: self.bits - SIGN_32 }
        }
    }

    /// Whether this number is less than the other.
    pub fn less(self, other: Single) -> (r: bool)
        ensures
            r == self.lt_spec(other),
    {
        if self.is_nan() || other.is_nan() {
            false
        } else if self.bits < SIGN_32 {
            other.bits < SIGN_32 && self.bits < other.bits
        } else if other.bits < SIGN_32 {
            self.bits != SIGN_32 || other.bits != 0
        } else {
            self.bits > other.bits
        }
    }

    /// Whether this number is at most the other.
    pub fn at_most(self, other: Single) -> (r: bool)
        ensures
            r == self.le_spec(other),
    {
        if self.is_nan() || other.is_nan() {
            false
        } else if self.bits < SIGN_32 {
            if other.bits < SIGN_32 {
                self.bits <= other.bits
            } else {
                self.bits == 0 && other.bits == SIGN_32
            }
        } else if other.bits < SIGN_32 {
            true
        } else {
            self.bits >= other.bits
        }
    }

    /// Whether this pattern comes before the other in the total order.
    pub fn total_less(self, other: Single) -> (r: bool)
        ensures
            r == (self.total() < other.total()),
    {
        if self.bits < SIGN_32 {
            other.bits < SIGN_32 && self.bits < other.bits
        } else if other.bits < SIGN_32 {
            true
        } else {
            self.bits > other.bits
        }
    }
}

/// The total order tells every two different patterns apart.
pub proof fn law_single_total_order_is_strict(a: Single, b: Single)
    ensures
        a.total() == b.total() <==> a == b,
{
}

/// On numbers the total order refines the usual one: only the two zeros, equal
/// as numbers, stand apart in it.
pub proof fn law_single_total_order_refines(a: Single, b: Single)
    requires
        !a.nan(),
        !b.nan(),
    ensures
        a.lt_spec(b) ==> a.total() < b.total(),
        a.total() < b.total() ==> a.le_spec(b),
{
}

/// Two numbers are ordered one way or the other or are equal; what is no number is
/// ordered against nothing, itself included.
pub proof fn law_numbers_are_ordered(a: Double, b: Double)
    ensures
        !(a.lt_spec(b) && b.lt_spec(a)),
        a.lt_spec(b) ==> a.le_spec(b) && !b.le_spec(a),
        a.nan() ==> !a.le_spec(b) && !b.le_spec(a) && !a.lt_spec(b) && !b.lt_spec(a),
        !a.nan() && !b.nan() ==> (a.lt_spec(b) || b.le_spec(a)) && a.le_spec(a),
        a.bits < SIGN_64 && b.bits < SIGN_64 && !a.nan() && !b.nan() ==> (a.lt_spec(b) <==> a.bits
            < b.bits),
        a.bits >= SIGN_64 && b.bits >= SIGN_64 && !a.nan() && !b.nan() ==> (a.lt_spec(b) <==> a.bits
            > b.bits),
        a.bits > SIGN_64 && b.bits < SIGN_64 && !a.nan() && !b.nan() ==> a.lt_spec(b),
        a.bits == SIGN_64 && b.bits == 0 ==> a.le_spec(b) && b.le_spec(a),
        a.nan() <==> (a.bits > 0x7ff0_0000_0000_0000 && a.bits < SIGN_64) || a.bits
            > 0xfff0_0000_0000_0000,
{
}

/// Two singles are ordered one way or the other or are equal; what is no number is
/// ordered against nothing, itself included.
pub proof fn law_singles_are_ordered(a: Single, b: Single)
    ensures
        !(a.lt_spec(b) && b.lt_spec(a)),
        a.lt_spec(b) ==> a.le_spec(b) && !b.le_spec(a),
        a.nan() ==> !a.le_spec(b) && !b.le_spec(a) && !a.lt_spec(b) && !b.lt_spec(a),
        !a.nan() && !b.nan() ==> (a.lt_spec(b) || b.le_spec(a)) && a.le_spec(a),
        a.bits < SIGN_32 && b.bits < SIGN_32 && !a.nan() && !b.nan() ==> (a.lt_spec(b) <==> a.bits
            < b.bits),
        a.bits >= SIGN_32 && b.bits >= SIGN_32 && !a.nan() && !b.nan() ==> (a.lt_spec(b) <==> a.bits
            > b.bits),
        a.bits > SIGN_32 && b.bits < SIGN_32 && !a.nan() && !b.nan() ==> a.lt_spec(b),
        a.bits == SIGN_32 && b.bits == 0 ==> a.le_spec(b) && b.le_spec(a),
        a.nan() <==> (a.bits > 0x7f80_0000 && a.bits < SIGN_32) || a.bits > 0xff80_0000,
{
}

/// A number and the one with its sign turned have the same magnitude and stand on
/// opposite sides of nought.
pub proof fn law_turning_the_sign_turns_the_place(a: Single, b: Single)
    requires
        a.bits + SIGN_32 == b.bits,
    ensures
        a.magnitude() == b.magnitude(),
        a.place() == -b.place(),
        !a.negative() && b.negative(),
        a.nan() == b.nan(),
{
}

/// The digits and the power of a finite number spell its pattern: each power up starts
/// where the digits of the one below it end.
pub proof fn law_digits_and_power_spell_the_pattern(a: Single)
    ensures
        a.magnitude() == a.significand() + (a.power() + 149) * 0x80_0000,
        a.power() >= -149,
        a.power() > -149 ==> 0x80_0000 <= a.significand() < 0x100_0000,
        a.power() == -149 ==> a.significand() < 0x100_0000,
{
}

} // verus!
