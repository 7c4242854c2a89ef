//! Amounts of utilization.
use vstd::prelude::*;

verus! {

/// The bit patterns from this one on have the sign bit set.
pub const SIGN_BIT: u64 = 0x8000_0000_0000_0000;

/// The bit pattern of positive infinity. What lies above it, the sign bit aside, is not a number.
pub const INFINITY_BITS: u64 = 0x7FF0_0000_0000_0000;

/// The bit pattern of one.
pub const ONE_BITS: u64 = 0x3FF0_0000_0000_0000;

/// An amount of utilization, a double-precision number that is held as its IEEE 754 bit pattern.
///
/// The library orders amounts by their bits. It does not compute with them: whoever calls an
/// operation that needs a sum, a difference or a quotient hands over the arithmetic.
#[derive(Debug, Clone, Copy, PartialEq, Eq, Structural)]
pub struct Utilization {
    /// The bit pattern.
    pub bits: u64,
}

impl Utilization {
    /// The bit pattern without the sign bit.
    pub open spec fn magnitude(self) -> int {
        if self.bits < SIGN_BIT {
            self.bits as int
        } else {
            self.bits - SIGN_BIT
        }
    }

    /// Whether the bit pattern stands for no number.
    pub open spec fn not_a_number(self) -> bool {
        self.magnitude() > INFINITY_BITS
    }

    /// An integer that is the larger, the larger the number is, and the same for both zeros.
    pub open spec fn rank(self) -> int {
        if self.bits < SIGN_BIT {
            self.magnitude()
        } else {
            -self.magnitude()
        }
    }

    /// Whether this is a number at or below another one.
    pub open spec fn at_most(self, other: Utilization) -> bool {
        !self.not_a_number() && !other.not_a_number() && self.rank() <= other.rank()
    }

    /// The number itself where it is positive, and positive zero otherwise.
    pub open spec fn floored(self) -> Utilization {
        if !self.not_a_number() && self.rank() > 0 {
            self
        } else {
            Utilization { bits: 0 }
        }
    }

    /// Positive zero.
    pub open spec fn spec_zero() -> Utilization {
        Utilization { bits: 0 }
    }

    /// One: the whole cache of one request.
    pub open spec fn spec_one() -> Utilization {
        Utilization { bits: ONE_BITS }
    }

    /// Positive zero.
    #[verifier::when_used_as_spec(spec_zero)]
    pub fn zero() -> (zero: Utilization)
        ensures
            zero == Utilization::spec_zero(),
    {
        Utilization { bits: 0 }
    }

    /// One.
    #[verifier::when_used_as_spec(spec_one)]
    pub fn one() -> (one: Utilization)
        ensures
            one == Utilization::spec_one(),
    {
        Utilization { bits: ONE_BITS }
    }

    /// `self <= other`, which is false where either is not a number.
    pub fn is_at_most(self, other: Utilization) -> (at_most: bool)
        ensures
            at_most == self.at_most(other),
    {
        let self_negative: bool = self.bits >= SIGN_BIT;
        let other_negative: bool = other.bits >= SIGN_BIT;
        let self_magnitude: u64 = if self_negative {
            self.bits - SIGN_BIT
        } else {
            self.bits
        };
        let other_magnitude: u64 = if other_negative {
            other.bits - SIGN_BIT
        } else {
            other.bits
        };
        if self_magnitude > INFINITY_BITS || other_magnitude > INFINITY_BITS {
            return false;
        }
        match (self_negative, other_negative) {
            (false, false) => self_magnitude <= other_magnitude,
            (true, false) => true,
            (false, true) => self_magnitude == 0 && other_magnitude == 0,
            (true, true) => other_magnitude <= self_magnitude,
        }
    }

    /// The larger of the number and zero; zero where the number is none.
    pub fn max_zero(self) -> (floored: Utilization)
        ensures
            floored == self.floored(),
    {
        if 0 < self.bits && self.bits <= INFINITY_BITS {
            self
        } else {
            Utilization { bits: 0 }
        }
    }
}

/// The constants are the bit patterns of zero and of one.
pub proof fn law_constants(zero: Utilization, one: Utilization)
    requires
        call_ensures(Utilization::zero, (), zero),
        call_ensures(Utilization::one, (), one),
    ensures
        zero.bits == 0,
        one.bits == 0x3FF0_0000_0000_0000,
        Utilization::zero() == zero,
        Utilization::one() == one,
{
}

/// The order is that of the numbers. Up to infinity, amounts without the sign bit are ordered as
/// their bits, and amounts with it the other way round. A negative amount is at most every
/// positive one, and conversely only where both are zero. A pattern beyond infinity is at most
/// nothing, and nothing is at most it.
pub proof fn law_order_on_bits(a: Utilization, b: Utilization)
    ensures
        a.bits <= 0x7FF0_0000_0000_0000 && b.bits <= 0x7FF0_0000_0000_0000 ==> (a.at_most(b)
            <==> a.bits <= b.bits),
        0x8000_0000_0000_0000 <= a.bits <= 0xFFF0_0000_0000_0000 && 0x8000_0000_0000_0000 <= b.bits
            <= 0xFFF0_0000_0000_0000 ==> (a.at_most(b) <==> b.bits <= a.bits),
        0x8000_0000_0000_0000 <= a.bits <= 0xFFF0_0000_0000_0000 && b.bits <= 0x7FF0_0000_0000_0000
            ==> a.at_most(b),
        a.bits <= 0x7FF0_0000_0000_0000 && 0x8000_0000_0000_0000 <= b.bits <= 0xFFF0_0000_0000_0000
            ==> (a.at_most(b) <==> a.bits == 0 && b.bits == 0x8000_0000_0000_0000),
        0x7FF0_0000_0000_0000 < a.bits < 0x8000_0000_0000_0000 ==> !a.at_most(b) && !b.at_most(a),
        0xFFF0_0000_0000_0000 < a.bits ==> !a.at_most(b) && !b.at_most(a),
{
}

/// The comparison answers by that order, and by nothing else.
pub proof fn law_comparison_on_bits(a: Utilization, b: Utilization, at_most: bool)
    requires
        call_ensures(Utilization::is_at_most, (a, b), at_most),
    ensures
        a.bits <= 0x7FF0_0000_0000_0000 && b.bits <= 0x7FF0_0000_0000_0000 ==> (at_most <==> a.bits
            <= b.bits),
        0x8000_0000_0000_0000 <= a.bits <= 0xFFF0_0000_0000_0000 && 0x8000_0000_0000_0000 <= b.bits
            <= 0xFFF0_0000_0000_0000 ==> (at_most <==> b.bits <= a.bits),
        0x8000_0000_0000_0000 <= a.bits <= 0xFFF0_0000_0000_0000 && b.bits <= 0x7FF0_0000_0000_0000
            ==> at_most,
        a.bits <= 0x7FF0_0000_0000_0000 && 0x8000_0000_0000_0000 <= b.bits <= 0xFFF0_0000_0000_0000
            ==> (at_most <==> a.bits == 0 && b.bits == 0x8000_0000_0000_0000),
        0x7FF0_0000_0000_0000 < a.bits < 0x8000_0000_0000_0000 ==> !at_most,
        0xFFF0_0000_0000_0000 < a.bits ==> !at_most,
        0x7FF0_0000_0000_0000 < b.bits < 0x8000_0000_0000_0000 ==> !at_most,
        0xFFF0_0000_0000_0000 < b.bits ==> !at_most,
{
}

/// The maximum with zero keeps the positive amounts up to infinity, and turns everything else,
/// negative or not a number, into zero.
pub proof fn law_max_zero_on_bits(amount: Utilization, floored: Utilization)
    requires
        call_ensures(Utilization::max_zero, (amount,), floored),
    ensures
        amount.bits <= 0x7FF0_0000_0000_0000 ==> floored.bits == amount.bits,
        amount.bits > 0x7FF0_0000_0000_0000 ==> floored.bits == 0,
        amount.floored() == floored,
{
}

/// The order of the amounts that are numbers is total, and antisymmetric but for the two zeros.
pub proof fn law_order(a: Utilization, b: Utilization, c: Utilization)
    requires
        !a.not_a_number(),
        !b.not_a_number(),
    ensures
        a.at_most(a),
        a.at_most(b) || b.at_most(a),
        a.at_most(b) && b.at_most(c) ==> a.at_most(c),
        a.at_most(b) && b.at_most(a) ==> a == b || (a.rank() == 0 && b.rank() == 0),
{
}

/// Nothing is comparable to what is not a number.
pub proof fn law_not_a_number_is_incomparable(a: Utilization, b: Utilization)
    requires
        a.not_a_number(),
    ensures
        !a.at_most(b),
        !b.at_most(a),
{
}

/// A floored amount is a number, and at least zero.
pub proof fn law_floored_is_not_negative(amount: Utilization)
    ensures
        Utilization::zero().at_most(amount.floored()),
        !amount.floored().not_a_number(),
{
}

/// Flooring gives the least amount that is neither below zero nor below the floored number.
pub proof fn law_floored_is_least(amount: Utilization, bound: Utilization)
    requires
        amount.at_most(bound),
        Utilization::zero().at_most(bound),
    ensures
        amount.at_most(amount.floored()),
        amount.floored().at_most(bound),
{
}

} // verus!
