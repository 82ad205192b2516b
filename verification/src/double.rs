//! Binary floating-point measurements carried as their bit patterns.
//!
//! The daemon reports percentages, rates and scores as IEEE 754 doubles. The
//! dashboard never computes with them here: it stores them, hands them to the
//! presentation layer, and compares them with thresholds. A comparison needs
//! only the order of the values, which the bit patterns carry.

use vstd::prelude::*;

verus! {

/// A double, held as its bit pattern.
#[derive(Debug, Clone, Copy, PartialEq, Eq, Structural)]
pub struct Double {
    pub bits: u64,
}

/// The bit that marks a negative value.
pub const SIGN_BIT: u64 = 0x8000_0000_0000_0000;

/// The bit pattern of positive infinity.
pub const INFINITY_BITS: u64 = 0x7ff0_0000_0000_0000;

impl Double {
    pub fn from_bits(bits: u64) -> (r: Self)
        ensures
            r.bits == bits,
    {
        Double { bits }
    }

    /// The bits that remain when the sign is dropped.
    pub open spec fn magnitude(self) -> int {
        if self.bits >= SIGN_BIT {
            self.bits - SIGN_BIT
        } else {
            self.bits as int
        }
    }

    /// Whether the pattern stands for no number: exponent all ones, fraction not zero.
    pub open spec fn is_nan(self) -> bool {
        self.magnitude() > INFINITY_BITS
    }

    /// An integer that orders patterns as the values they stand for. The two
    /// zeros share the key zero.
    pub open spec fn key(self) -> int {
        if self.bits >= SIGN_BIT {
            -self.magnitude()
        } else {
            self.magnitude()
        }
    }

    /// Whether the value is below the other one. Nothing compares with a NaN.
    pub open spec fn lt(self, other: Self) -> bool {
        !self.is_nan() && !other.is_nan() && self.key() < other.key()
    }

    /// Whether the value is at least the other one.
    pub open spec fn ge(self, other: Self) -> bool {
        !self.is_nan() && !other.is_nan() && self.key() >= other.key()
    }

    /// Whether the value is above the other one.
    pub open spec fn gt(self, other: Self) -> bool {
        other.lt(self)
    }

    /// Whether the two values are equal numbers.
    pub open spec fn same(self, other: Self) -> bool {
        !self.is_nan() && !other.is_nan() && self.key() == other.key()
    }

    fn magnitude_bits(self) -> (m: u64)
        ensures
            m == self.magnitude(),
    {
        if self.bits >= SIGN_BIT {
            self.bits - SIGN_BIT
        } else {
            self.bits
        }
    }

    /// Whether the value is below the other one.
    pub fn less_than(self, other: Self) -> (b: bool)
        ensures
            b == self.lt(other),
    {
        let a: u64 = self.magnitude_bits();
        let b: u64 = other.magnitude_bits();
        if a > INFINITY_BITS || b > INFINITY_BITS {
            return false;
        }
        match (self.bits >= SIGN_BIT, other.bits >= SIGN_BIT) {
            (false, false) => a < b,
            (true, true) => b < a,
            (true, false) => a != 0 || b != 0,
            (false, true) => false,
        }
    }

    /// Whether the value is above the other one.
    pub fn greater_than(self, other: Self) -> (b: bool)
        ensures
            b == self.gt(other),
    {
        other.less_than(self)
    }

    /// Whether the value is at least the other one.
    pub fn at_least(self, other: Self) -> (b: bool)
        ensures
            b == self.ge(other),
    {
        let a: u64 = self.magnitude_bits();
        let b: u64 = other.magnitude_bits();
        if a > INFINITY_BITS || b > INFINITY_BITS {
            return false;
        }
        !self.less_than(other)
    }

    /// An integer that orders all patterns, NaNs and both zeros included:
    /// negative patterns below positive ones, each by magnitude.
    pub open spec fn total_key(self) -> int {
        if self.bits >= SIGN_BIT {
            -1 - self.magnitude()
        } else {
            self.magnitude()
        }
    }

    /// Whether the pattern comes before the other one in the total order.
    pub fn totally_before(self, other: Self) -> (b: bool)
        ensures
            b == (self.total_key() < other.total_key()),
    {
        match (self.bits >= SIGN_BIT, other.bits >= SIGN_BIT) {
            (false, false) => self.bits < other.bits,
            (true, true) => other.bits < self.bits,
            (true, false) => true,
            (false, true) => false,
        }
    }

    /// The lesser of two values; a NaN gives way to a number.
    pub open spec fn lesser(self, other: Self) -> Self {
        if self.is_nan() || other.lt(self) {
            other
        } else {
            self
        }
    }

    /// The lesser of two values; a NaN gives way to a number.
    pub fn lesser_of(self, other: Self) -> (r: Self)
        ensures
            r == self.lesser(other),
    {
        let a: u64 = self.magnitude_bits();
        if a > INFINITY_BITS || other.less_than(self) {
            other
        } else {
            self
        }
    }

    /// Whether the two values are equal numbers.
    pub fn equals(self, other: Self) -> (b: bool)
        ensures
            b == self.same(other),
    {
        self.at_least(other) && other.at_least(self)
    }
}

/// Exactly one of below, equal and above holds of two numbers.
pub proof fn law_double_trichotomy(a: Double, b: Double)
    requires
        !a.is_nan(),
        !b.is_nan(),
    ensures
        (if a.lt(b) { 1int } else { 0 }) + (if a.same(b) { 1int } else { 0 }) + (if a.gt(b) {
            1int
        } else {
            0
        }) == 1,
        a.ge(b) == !a.lt(b),
{
}

/// The order of numbers is transitive.
pub proof fn law_double_order_transitive(a: Double, b: Double, c: Double)
    requires
        a.lt(b),
        b.lt(c),
    ensures
        a.lt(c),
{
}

/// Patterns with the same place in the total order are the same pattern, and
/// the total order agrees with the order of numbers.
pub proof fn law_double_total_order(a: Double, b: Double)
    ensures
        a.total_key() == b.total_key() ==> a == b,
        a.lt(b) ==> a.total_key() < b.total_key(),
{
}

/// The lesser of two numbers is not above either of them.
pub proof fn law_lesser_is_a_lower_bound(a: Double, b: Double)
    requires
        !a.is_nan(),
        !b.is_nan(),
    ensures
        a.ge(a.lesser(b)),
        b.ge(a.lesser(b)),
        a.lesser(b) == a || a.lesser(b) == b,
{
}

/// The bit pattern of one.
pub const ONE_BITS: u64 = 0x3ff0_0000_0000_0000;

/// Numbers are ordered by their patterns: positive ones as the patterns are, negative ones
/// the other way round, and a negative number below a positive one unless both are zero.
pub proof fn law_patterns_order_numbers(a: Double, b: Double, below: bool)
    requires
        call_ensures(Double::less_than, (a, b), below),
        !a.is_nan(),
        !b.is_nan(),
    ensures
        a.bits < SIGN_BIT && b.bits < SIGN_BIT ==> (below <==> a.bits < b.bits),
        a.bits >= SIGN_BIT && b.bits >= SIGN_BIT ==> (below <==> b.bits < a.bits),
        a.bits >= SIGN_BIT && b.bits < SIGN_BIT ==> (below <==> a.bits != SIGN_BIT || b.bits != 0),
        a.bits < SIGN_BIT && b.bits >= SIGN_BIT ==> !below,
{
}

/// What is not a number compares with nothing, and gives way to a number.
pub proof fn law_not_a_number_gives_way(
    a: Double,
    b: Double,
    below: bool,
    above: bool,
    at_least: bool,
    equal: bool,
    least: Double,
)
    requires
        a.is_nan() || b.is_nan(),
        call_ensures(Double::less_than, (a, b), below),
        call_ensures(Double::greater_than, (a, b), above),
        call_ensures(Double::at_least, (a, b), at_least),
        call_ensures(Double::equals, (a, b), equal),
        call_ensures(Double::lesser_of, (a, b), least),
    ensures
        !below && !above && !at_least && !equal,
        !a.is_nan() ==> least == a,
        !b.is_nan() ==> least == b,
        (Double { bits: 0x7ff8_0000_0000_0000 }).is_nan(),
        !(Double { bits: INFINITY_BITS }).is_nan(),
{
}

/// The comparisons of numbers agree with each other, and the lesser is the one below.
pub proof fn law_comparisons_agree(
    a: Double,
    b: Double,
    below: bool,
    above: bool,
    at_least: bool,
    equal: bool,
    least: Double,
)
    requires
        !a.is_nan(),
        !b.is_nan(),
        call_ensures(Double::less_than, (a, b), below),
        call_ensures(Double::greater_than, (a, b), above),
        call_ensures(Double::at_least, (a, b), at_least),
        call_ensures(Double::equals, (a, b), equal),
        call_ensures(Double::lesser_of, (a, b), least),
    ensures
        at_least <==> !below,
        above <==> at_least && !equal,
        below ==> least == a,
        above ==> least == b,
{
}

/// In the total order every negative pattern comes before every positive one, and patterns
/// of one sign are ordered by how far they are from zero.
pub proof fn law_total_order_by_sign(a: Double, b: Double, first: bool)
    requires
        call_ensures(Double::totally_before, (a, b), first),
    ensures
        a.bits >= SIGN_BIT && b.bits < SIGN_BIT ==> first,
        a.bits < SIGN_BIT && b.bits >= SIGN_BIT ==> !first,
        a.bits < SIGN_BIT && b.bits < SIGN_BIT ==> (first <==> a.bits < b.bits),
        a.bits >= SIGN_BIT && b.bits >= SIGN_BIT ==> (first <==> b.bits < a.bits),
{
}

} // verus!
