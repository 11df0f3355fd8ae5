//! The ranges in which the parameters of a scene must lie.
//!
//! A scene is checked when it is built, before any rendering. Each
//! parameter comes as the bit pattern of a binary64 number; a pattern that
//! is not a number, or is an infinity, is in no range.

use vstd::prelude::*;
use vstd::arithmetic::power2::{lemma2_to64_rest, lemma_pow2_adds, pow2};
use crate::binary64::{
    INFINITY,
    is_finite,
    lemma_rank_keeps_order,
    lemma_rank_keeps_sign,
    rank_of,
    value,
    weight,
};
use crate::distance::Distance;

verus! {

/// The pattern of the number one.
pub const ONE: u64 = 0x3ff0_0000_0000_0000;

/// The number one, in units of the smallest positive number.
pub open spec fn one() -> int {
    pow2(1074) as int
}

/// A finite number above zero.
pub open spec fn positive(bits: u64) -> bool {
    is_finite(bits) && value(bits) > 0
}

/// A finite number that is not below zero.
pub open spec fn not_negative(bits: u64) -> bool {
    is_finite(bits) && value(bits) >= 0
}

/// A number from zero to one, both included.
pub open spec fn fraction(bits: u64) -> bool {
    is_finite(bits) && 0 <= value(bits) <= one()
}

/// The pattern `ONE` stands for the number one.
pub proof fn lemma_one()
    ensures
        is_finite(ONE),
        value(ONE) == one(),
{
    lemma2_to64_rest();
    lemma_pow2_adds(52, 1022);
    assert(0x3ff0_0000_0000_0000int / 0x0010_0000_0000_0000int == 1023);
    assert(0x3ff0_0000_0000_0000int % 0x0010_0000_0000_0000int == 0);
    assert(weight(ONE as int) == (0x0010_0000_0000_0000int + 0) * pow2(1022));
}

fn is_positive(bits: u64) -> (ok: bool)
    ensures
        ok == positive(bits),
{
    proof {
        if is_finite(bits) {
            lemma_rank_keeps_sign(bits);
        }
    }
    match Distance::from_bits(bits) {
        Some(t) => 0 < t.rank && t.rank < INFINITY as i64,
        None => false,
    }
}

fn is_fraction(bits: u64) -> (ok: bool)
    ensures
        ok == fraction(bits),
{
    proof {
        lemma_one();
        if is_finite(bits) {
            lemma_rank_keeps_sign(bits);
            lemma_rank_keeps_order(bits, ONE);
        }
    }
    match Distance::from_bits(bits) {
        Some(t) => 0 <= t.rank && t.rank <= ONE as i64,
        None => false,
    }
}

/// A sphere's radius must be positive.
pub fn valid_radius(radius: u64) -> (ok: bool)
    ensures
        ok == positive(radius),
{
    is_positive(radius)
}

/// A colour's channels must each lie from zero to one.
pub fn valid_albedo(r: u64, g: u64, b: u64) -> (ok: bool)
    ensures
        ok == (fraction(r) && fraction(g) && fraction(b)),
{
    is_fraction(r) && is_fraction(g) && is_fraction(b)
}

/// A metal's roughness must lie from zero to one.
pub fn valid_fuzz(fuzz: u64) -> (ok: bool)
    ensures
        ok == fraction(fuzz),
{
    is_fraction(fuzz)
}

/// A refractive index must be positive.
pub fn valid_refractive_index(index: u64) -> (ok: bool)
    ensures
        ok == positive(index),
{
    is_positive(index)
}

/// A lens aperture must be finite and not negative.
pub fn valid_aperture(aperture: u64) -> (ok: bool)
    ensures
        ok == not_negative(aperture),
{
    proof {
        if is_finite(aperture) {
            lemma_rank_keeps_sign(aperture);
        }
    }
    match Distance::from_bits(aperture) {
        Some(t) => 0 <= t.rank && t.rank < INFINITY as i64,
        None => false,
    }
}

} // verus!
