//! The numbers of a renderer, by their bit patterns.
//!
//! A renderer computes in binary64. The library never computes with such a
//! number: it only asks which of two is the smaller. This module says what
//! number a bit pattern stands for, and gives each number a rank: an integer
//! that is made from the pattern alone and orders as the number does.

use vstd::prelude::*;
use vstd::arithmetic::div_mod::{lemma_div_is_ordered, lemma_fundamental_div_mod};
use vstd::arithmetic::mul::{lemma_mul_inequality, lemma_mul_strict_inequality};
use vstd::arithmetic::power2::{lemma_pow2_pos, lemma_pow2_strictly_increases, lemma_pow2_unfold, pow2};

verus! {

/// The sign bit of a binary64 pattern.
pub const SIGN: u64 = 0x8000_0000_0000_0000;

/// The pattern of positive infinity: every exponent bit, no fraction bit.
/// A larger magnitude is not a number.
pub const INFINITY: u64 = 0x7ff0_0000_0000_0000;

/// The weight of the lowest exponent bit, and of the leading one of a normal
/// number's significand.
pub const HIDDEN: u64 = 0x0010_0000_0000_0000;

/// The pattern without its sign bit.
pub open spec fn magnitude(bits: u64) -> int {
    if bits >= SIGN {
        bits - SIGN
    } else {
        bits as int
    }
}

/// The sign bit is set.
pub open spec fn is_negative(bits: u64) -> bool {
    bits >= SIGN
}

/// The pattern stands for a number: zero, a finite number or an infinity.
pub open spec fn is_number(bits: u64) -> bool {
    magnitude(bits) <= INFINITY
}

/// The pattern stands for zero or a finite number.
pub open spec fn is_finite(bits: u64) -> bool {
    magnitude(bits) < INFINITY
}

/// The rank of a pattern: its magnitude, negated under a set sign bit. Both
/// zeros have rank zero.
pub open spec fn rank_of(bits: u64) -> int {
    if is_negative(bits) {
        -magnitude(bits)
    } else {
        magnitude(bits)
    }
}

/// The absolute value of the finite number with magnitude `m`, in units of
/// the smallest positive number: the fraction bits alone where the exponent
/// bits are zero, and else the significand with its leading one, doubled
/// once for each step of the exponent above one.
pub open spec fn weight(m: int) -> int {
    let exponent = m / (HIDDEN as int);
    let fraction = m % (HIDDEN as int);
    if exponent == 0 {
        fraction
    } else {
        (HIDDEN + fraction) * pow2((exponent - 1) as nat)
    }
}

/// The finite number that a pattern stands for, in units of the smallest
/// positive number.
pub open spec fn value(bits: u64) -> int {
    if is_negative(bits) {
        -weight(magnitude(bits))
    } else {
        weight(magnitude(bits))
    }
}

/// A larger magnitude stands for a larger absolute value.
pub proof fn lemma_weight_increases(m1: int, m2: int)
    requires
        0 <= m1 < m2,
    ensures
        0 <= weight(m1) < weight(m2),
{
    let h = HIDDEN as int;
    let e1 = m1 / h;
    let f1 = m1 % h;
    let e2 = m2 / h;
    let f2 = m2 % h;
    lemma_fundamental_div_mod(m1, h);
    lemma_fundamental_div_mod(m2, h);
    lemma_div_is_ordered(m1, m2, h);
    lemma_div_is_ordered(0, m1, h);
    assert(0 <= e1 <= e2);
    if e1 > 0 {
        lemma_pow2_pos((e1 - 1) as nat);
        lemma_mul_strict_inequality(0, h + f1, pow2((e1 - 1) as nat) as int);
    }
    if e1 == e2 {
        assert(f1 < f2) by (nonlinear_arith)
            requires
                m1 == h * e1 + f1,
                m2 == h * e1 + f2,
                m1 < m2,
        ;
        if e1 > 0 {
            lemma_mul_strict_inequality(h + f1, h + f2, pow2((e1 - 1) as nat) as int);
        }
    } else {
        let upper = pow2((e2 - 1) as nat) as int;
        lemma_pow2_pos((e2 - 1) as nat);
        // the least that the larger exponent stands for
        lemma_mul_inequality(h, h + f2, upper);
        assert(h * upper <= weight(m2));
        if e1 == 0 {
            lemma_mul_inequality(1, upper, h);
            assert(weight(m1) < h <= h * upper) by (nonlinear_arith)
                requires
                    weight(m1) == f1,
                    f1 < h,
                    1 * h <= upper * h,
            ;
        } else {
            let lower = pow2((e1 - 1) as nat) as int;
            // less than the next power of two
            lemma_mul_strict_inequality(h + f1, 2 * h, lower);
            lemma_pow2_unfold(e1 as nat);
            assert(pow2(e1 as nat) == 2 * lower);
            if e1 < e2 - 1 {
                lemma_pow2_strictly_increases(e1 as nat, (e2 - 1) as nat);
            }
            assert(2 * lower <= upper);
            lemma_mul_inequality(2 * lower, upper, h);
            assert(weight(m1) < h * upper) by (nonlinear_arith)
                requires
                    weight(m1) == (h + f1) * lower,
                    (h + f1) * lower < (2 * h) * lower,
                    (2 * lower) * h <= upper * h,
            ;
        }
    }
}

/// Ranks keep the order of the numbers: of two finite numbers, one has the
/// smaller rank exactly when it is the smaller number, and the same rank
/// exactly when the two are equal.
pub proof fn lemma_rank_keeps_order(a: u64, b: u64)
    requires
        is_finite(a),
        is_finite(b),
    ensures
        rank_of(a) < rank_of(b) <==> value(a) < value(b),
        rank_of(a) == rank_of(b) <==> value(a) == value(b),
{
    let ma = magnitude(a);
    let mb = magnitude(b);
    assert(weight(0) == 0);
    if ma < mb {
        lemma_weight_increases(ma, mb);
    } else if mb < ma {
        lemma_weight_increases(mb, ma);
    }
    if 0 < ma {
        lemma_weight_increases(0, ma);
    }
    if 0 < mb {
        lemma_weight_increases(0, mb);
    }
}

/// The rank of zero is zero, and a rank has the sign of its number.
pub proof fn lemma_rank_keeps_sign(a: u64)
    requires
        is_finite(a),
    ensures
        rank_of(a) < 0 <==> value(a) < 0,
        rank_of(a) == 0 <==> value(a) == 0,
{
    assert(weight(0) == 0);
    if 0 < magnitude(a) {
        lemma_weight_increases(0, magnitude(a));
    }
}

/// Every finite number lies strictly between the two infinities.
pub proof fn lemma_infinities_bound(a: u64)
    requires
        is_finite(a),
    ensures
        rank_of((SIGN + INFINITY) as u64) < rank_of(a) < rank_of(INFINITY),
{
}

} // verus!
