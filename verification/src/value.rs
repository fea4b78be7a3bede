//! The number that a binary64 bit pattern holds, and why comparing patterns
//! by `rank` compares those numbers.
//!
//! Below the sign bit a pattern has eleven bits of exponent and fifty-two of
//! fraction. Every number it can hold is a whole multiple of 2^-1074, the
//! smallest positive double, so a number is given here by that multiple: an
//! integer. Infinity gets the multiple that its exponent would give if it
//! were finite, which is above that of every finite number.

use vstd::prelude::*;
use vstd::arithmetic::power2::{lemma2_to64, lemma2_to64_rest, lemma_pow2_adds, lemma_pow2_pos, lemma_pow2_strictly_increases, pow2};
use crate::binary64::{lt, magnitude, nan, same, sign_bit, HALF_PI, NEG_HALF_PI, ONE, PI, SIGN, TWO_PI, ZERO};

verus! {

/// The number of fractions under one exponent: 2^52.
pub const FRACTIONS: u64 = 0x10_0000_0000_0000;

/// The exponent field.
pub open spec fn exponent(b: u64) -> int {
    magnitude(b) / (FRACTIONS as int)
}

/// The fraction field.
pub open spec fn fraction(b: u64) -> int {
    magnitude(b) % (FRACTIONS as int)
}

/// How many times 2^-1074 the number is away from zero. With exponent zero
/// the fraction counts them; with a larger exponent the fraction has a
/// leading one put before it, and each further exponent doubles the count.
pub open spec fn steps(b: u64) -> int {
    if exponent(b) == 0 {
        fraction(b)
    } else {
        (FRACTIONS + fraction(b)) * pow2((exponent(b) - 1) as nat)
    }
}

/// The number as a multiple of 2^-1074.
pub open spec fn scaled(b: u64) -> int {
    if sign_bit(b) {
        -steps(b)
    } else {
        steps(b)
    }
}

/// A larger magnitude is a number further from zero.
pub proof fn lemma_steps_increase(a: u64, b: u64)
    requires
        magnitude(a) < magnitude(b),
    ensures
        0 <= steps(a) < steps(b),
{
    let span = FRACTIONS as int;
    let (ea, fa) = (exponent(a), fraction(a));
    let (eb, fb) = (exponent(b), fraction(b));
    assert(magnitude(a) == ea * span + fa && 0 <= fa < span && 0 <= ea);
    assert(magnitude(b) == eb * span + fb && 0 <= fb < span && 0 <= eb);
    if ea == eb {
        if ea > 0 {
            let p = pow2((ea - 1) as nat) as int;
            lemma_pow2_pos((ea - 1) as nat);
            assert((span + fa) * p < (span + fb) * p && 0 <= (span + fa) * p) by (nonlinear_arith)
                requires
                    0 <= fa < fb,
                    0 < p,
                    0 < span,
            ;
        }
    } else {
        let q = pow2((eb - 1) as nat) as int;
        lemma_pow2_pos((eb - 1) as nat);
        assert(span * q <= (span + fb) * q && span <= span * q) by (nonlinear_arith)
            requires
                0 <= fb,
                0 < q,
                0 < span,
        ;
        if ea > 0 {
            let p = pow2((ea - 1) as nat) as int;
            lemma_pow2_pos((ea - 1) as nat);
            assert(pow2(ea as nat) == 2 * p) by {
                lemma_pow2_adds(1, (ea - 1) as nat);
                lemma2_to64();
            }
            if ea < eb - 1 {
                lemma_pow2_strictly_increases(ea as nat, (eb - 1) as nat);
            }
            assert((span + fa) * p < span * q && 0 <= (span + fa) * p) by (nonlinear_arith)
                requires
                    0 <= fa < span,
                    0 < p,
                    2 * p <= q,
            ;
        }
    }
}

/// Comparing two numbers by their patterns compares the numbers: `lt` is
/// `<` and `same` is `==` on what the patterns hold, infinities included.
pub proof fn lemma_order_is_numeric(a: u64, b: u64)
    requires
        !nan(a),
        !nan(b),
    ensures
        lt(a, b) <==> scaled(a) < scaled(b),
        same(a, b) <==> scaled(a) == scaled(b),
{
    lemma_steps_from_zero(a);
    lemma_steps_from_zero(b);
    if magnitude(a) < magnitude(b) {
        lemma_steps_increase(a, b);
    } else if magnitude(b) < magnitude(a) {
        lemma_steps_increase(b, a);
    }
}

/// Only the two zeros are no step away from zero.
pub proof fn lemma_steps_from_zero(b: u64)
    ensures
        0 <= steps(b),
        steps(b) == 0 <==> magnitude(b) == 0,
{
    if magnitude(b) > 0 {
        lemma_steps_increase(ZERO, b);
    }
}

/// What the named constants hold: zero, one (2^1074 steps of 2^-1074), and
/// a number between 3.14159265358979 and 3.14159265358980 with its double,
/// its half and the negative of its half.
pub proof fn lemma_constants_hold()
    ensures
        scaled(ZERO) == 0,
        scaled(SIGN) == 0,
        scaled(ONE) == pow2(1074),
        314159265358979 * pow2(1074) < 100000000000000 * scaled(PI),
        100000000000000 * scaled(PI) < 314159265358980 * pow2(1074),
        scaled(TWO_PI) == 2 * scaled(PI),
        2 * scaled(HALF_PI) == scaled(PI),
        scaled(NEG_HALF_PI) == -scaled(HALF_PI),
{
    lemma2_to64();
    lemma2_to64_rest();
    let span = FRACTIONS as int;
    let p = pow2(1022) as int;
    lemma_pow2_pos(1022);
    assert(pow2(1023) == 2 * p) by {
        lemma_pow2_adds(1, 1022);
    }
    assert(pow2(1024) == 4 * p) by {
        lemma_pow2_adds(2, 1022);
    }
    assert(pow2(1074) == span * p) by {
        lemma_pow2_adds(52, 1022);
    }
    assert(exponent(ONE) == 1023 && fraction(ONE) == 0);
    assert(exponent(PI) == 1024 && fraction(PI) == 0x9_21FB_5444_2D18);
    assert(exponent(TWO_PI) == 1025 && fraction(TWO_PI) == 0x9_21FB_5444_2D18);
    assert(exponent(HALF_PI) == 1023 && fraction(HALF_PI) == 0x9_21FB_5444_2D18);
    assert(exponent(NEG_HALF_PI) == 1023 && fraction(NEG_HALF_PI) == 0x9_21FB_5444_2D18);
    let m: int = 0x19_21FB_5444_2D18;
    assert(scaled(HALF_PI) == m * p);
    assert(scaled(PI) == m * (2 * p));
    assert(scaled(TWO_PI) == m * (4 * p));
    assert(m * (2 * p) == 2 * (m * p) && m * (4 * p) == 2 * (m * (2 * p))) by (nonlinear_arith);
    assert(314159265358979 * (span * p) < 100000000000000 * (m * (2 * p)) && 100000000000000 * (m
        * (2 * p)) < 314159265358980 * (span * p)) by (nonlinear_arith)
        requires
            0 < p,
            span == 0x10_0000_0000_0000,
            m == 0x19_21FB_5444_2D18,
    ;
}

} // verus!
