//! Order and sign of IEEE 754 binary64 numbers, read off their bit patterns.
//!
//! A pattern is a sign bit followed by 63 bits of magnitude. Among patterns
//! that are numbers, a larger magnitude is a number further from zero, so
//! the number's place in the order is its magnitude with the sign applied.
//! Patterns whose magnitude lies above that of infinity are not numbers and
//! compare false with everything, themselves included.

use vstd::prelude::*;

verus! {

/// The sign bit alone: negative zero.
pub const SIGN: u64 = 0x8000_0000_0000_0000;

/// Positive infinity, the largest magnitude that is still a number.
pub const INFINITY: u64 = 0x7FF0_0000_0000_0000;

/// Positive zero.
pub const ZERO: u64 = 0;

/// One.
pub const ONE: u64 = 0x3FF0_0000_0000_0000;

/// The double nearest to π.
pub const PI: u64 = 0x4009_21FB_5444_2D18;

/// Twice `PI`.
pub const TWO_PI: u64 = 0x4019_21FB_5444_2D18;

/// Half of `PI`.
pub const HALF_PI: u64 = 0x3FF9_21FB_5444_2D18;

/// `HALF_PI` with the sign bit set.
pub const NEG_HALF_PI: u64 = 0xBFF9_21FB_5444_2D18;

/// Whether the sign bit is set.
pub open spec fn sign_bit(b: u64) -> bool {
    b >= SIGN
}

/// The pattern without its sign bit.
pub open spec fn magnitude(b: u64) -> int {
    if b >= SIGN {
        b - SIGN
    } else {
        b as int
    }
}

/// Whether the pattern is not a number.
pub open spec fn nan(b: u64) -> bool {
    magnitude(b) > INFINITY
}

/// The place of the number in the order of all doubles: both zeros at 0,
/// positive numbers above, negative numbers below.
pub open spec fn rank(b: u64) -> int {
    if sign_bit(b) {
        -magnitude(b)
    } else {
        magnitude(b)
    }
}

/// `a < b` as doubles.
pub open spec fn lt(a: u64, b: u64) -> bool {
    !nan(a) && !nan(b) && rank(a) < rank(b)
}

/// `a == b` as doubles: the two zeros are equal, and nothing equals a
/// pattern that is not a number.
pub open spec fn same(a: u64, b: u64) -> bool {
    !nan(a) && !nan(b) && rank(a) == rank(b)
}

/// Whether the pattern is positive or negative zero.
pub open spec fn zero(b: u64) -> bool {
    magnitude(b) == 0
}

fn magnitude_of(b: u64) -> (m: u64)
    ensures
        m == magnitude(b),
        m < SIGN,
{
    if b >= SIGN {
        b - SIGN
    } else {
        b
    }
}

/// Tells whether a pattern is not a number.
pub fn is_nan(b: u64) -> (r: bool)
    ensures
        r == nan(b),
{
    magnitude_of(b) > INFINITY
}

/// Tells whether a pattern is one of the two zeros.
pub fn is_zero(b: u64) -> (r: bool)
    ensures
        r == zero(b),
        r == same(b, ZERO),
{
    magnitude_of(b) == 0
}

/// Compares two patterns as the doubles they stand for: `a < b`.
pub fn less(a: u64, b: u64) -> (r: bool)
    ensures
        r == lt(a, b),
{
    let ma: u64 = magnitude_of(a);
    let mb: u64 = magnitude_of(b);
    if ma > INFINITY || mb > INFINITY {
        false
    } else if a >= SIGN {
        if b >= SIGN {
            mb < ma
        } else {
            ma != 0 || mb != 0
        }
    } else {
        b < SIGN && ma < mb
    }
}

/// Compares two patterns as the doubles they stand for: `a == b`.
pub fn equal(a: u64, b: u64) -> (r: bool)
    ensures
        r == same(a, b),
{
    let ma: u64 = magnitude_of(a);
    let mb: u64 = magnitude_of(b);
    if ma > INFINITY || mb > INFINITY {
        false
    } else if ma == 0 {
        mb == 0
    } else {
        a == b
    }
}

/// Of two numbers exactly one of `a < b`, `a == b`, `b < a` holds; of a
/// pattern that is not a number, none.
pub proof fn lemma_trichotomy(a: u64, b: u64)
    ensures
        !nan(a) && !nan(b) ==> (lt(a, b) && !same(a, b) && !lt(b, a)) || (!lt(a, b) && same(a, b)
            && !lt(b, a)) || (!lt(a, b) && !same(a, b) && lt(b, a)),
        nan(a) || nan(b) ==> !lt(a, b) && !same(a, b) && !lt(b, a),
{
}

/// `<` on doubles is transitive.
pub proof fn lemma_lt_transitive(a: u64, b: u64, c: u64)
    requires
        lt(a, b),
        lt(b, c),
    ensures
        lt(a, c),
{
}

/// The named constants stand in the order of the numbers they hold.
pub proof fn lemma_constants_ordered()
    ensures
        lt(NEG_HALF_PI, ZERO),
        same(SIGN, ZERO),
        lt(ZERO, ONE),
        lt(ONE, HALF_PI),
        lt(HALF_PI, PI),
        lt(PI, TWO_PI),
        lt(TWO_PI, INFINITY),
{
}

} // verus!
