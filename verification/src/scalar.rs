//! Scalar intensity domains and their conversions.
//!
//! An intensity domain is an unsigned integer width (8-bit or 16-bit) read as
//! a linear brightness sample: `0` is darkest, the all-ones value is
//! brightest.  Rescaling between domains multiplies by the ratio of the
//! target maximum to the source maximum and rounds to nearest, ties away
//! from zero, so that both ends of each domain map exactly onto both ends of
//! every other domain.

use vstd::prelude::*;
use vstd::arithmetic::div_mod::lemma_fundamental_div_mod_converse;

verus! {

/// Closes the set of scalar component types: only the types declared here
/// can take part in intensity conversions.
pub trait Sealed {}

impl Sealed for u8 {}

impl Sealed for u16 {}

/// `value * numerator / denominator`, rounded to nearest with ties away from
/// zero.  All uses in this crate have nonnegative arguments, for which ties
/// away from zero round upward.
pub open spec fn round_scaled(value: int, numerator: int, denominator: int) -> int {
    (2 * value * numerator + denominator) / (2 * denominator)
}

/// Types that can be converted to each supported intensity domain.
///
/// Integer scalars are treated as intensities of their own width; converting
/// to another width rescales by the ratio of the two domain maxima with
/// round-half-away-from-zero rounding.
pub trait Scalar: Sealed + Sized + Copy {
    /// The 8-bit intensity that `to_scaled_u8` returns.
    spec fn spec_to_scaled_u8(&self) -> u8;

    /// The 16-bit intensity that `to_scaled_u16` returns.
    spec fn spec_to_scaled_u16(&self) -> u16;

    /// Converts the scalar to an 8-bit intensity.
    fn to_scaled_u8(&self) -> (r: u8)
        ensures
            r == self.spec_to_scaled_u8(),
    ;

    /// Converts the scalar to a 16-bit intensity.
    fn to_scaled_u16(&self) -> (r: u16)
        ensures
            r == self.spec_to_scaled_u16(),
    ;
}

/// Intensity domains: integer widths with a fixed minimum and maximum.
pub trait Intensity: Sealed + Sized + Copy {
    /// The smallest intensity of this domain; always zero.
    spec fn spec_min() -> Self;

    /// The largest intensity of this domain; the all-ones value.
    spec fn spec_max() -> Self;

    /// The smallest intensity of this domain.
    fn min_value() -> (r: Self)
        ensures
            r == Self::spec_min(),
    ;

    /// The largest intensity of this domain.
    fn max_value() -> (r: Self)
        ensures
            r == Self::spec_max(),
    ;
}

impl Scalar for u8 {
    open spec fn spec_to_scaled_u8(&self) -> u8 {
        *self
    }

    open spec fn spec_to_scaled_u16(&self) -> u16 {
        round_scaled(*self as int, 65535, 255) as u16
    }

    fn to_scaled_u8(&self) -> (r: u8) {
        *self
    }

    fn to_scaled_u16(&self) -> (r: u16) {
        proof {
            lemma_widen_u8(*self);
        }
        (*self as u16) * 257
    }
}

impl Scalar for u16 {
    open spec fn spec_to_scaled_u8(&self) -> u8 {
        round_scaled(*self as int, 255, 65535) as u8
    }

    open spec fn spec_to_scaled_u16(&self) -> u16 {
        *self
    }

    fn to_scaled_u8(&self) -> (r: u8) {
        proof {
            lemma_narrow_u16(*self);
        }
        (((*self as u32) * 510 + 65535) / 131070) as u8
    }

    fn to_scaled_u16(&self) -> (r: u16) {
        *self
    }
}

impl Intensity for u8 {
    open spec fn spec_min() -> u8 {
        0
    }

    open spec fn spec_max() -> u8 {
        255
    }

    fn min_value() -> u8 {
        0
    }

    fn max_value() -> u8 {
        255
    }
}

impl Intensity for u16 {
    open spec fn spec_min() -> u16 {
        0
    }

    open spec fn spec_max() -> u16 {
        65535
    }

    fn min_value() -> u16 {
        0
    }

    fn max_value() -> u16 {
        65535
    }
}

/// Widening an 8-bit intensity multiplies it by exactly 257: the rounding in
/// `round_scaled` never has to move the value because `65535 == 255 * 257`.
pub proof fn lemma_widen_u8(v: u8)
    ensures
        round_scaled(v as int, 65535, 255) == 257 * (v as int),
{
    let x = v as int;
    assert(2 * x * 65535 + 255 == (257 * x) * 510 + 255);
    lemma_fundamental_div_mod_converse(2 * x * 65535 + 255, 510, 257 * x, 255);
}

/// Closed form for narrowing a 16-bit intensity: the rounded ratio equals a
/// single integer division, and the result always fits in 8 bits.
pub proof fn lemma_narrow_u16(v: u16)
    ensures
        round_scaled(v as int, 255, 65535) == (510 * (v as int) + 65535) / 131070,
        0 <= round_scaled(v as int, 255, 65535) <= 255,
{
    let x = v as int;
    assert(2 * x * 255 + 65535 == 510 * x + 65535);
    let q = (510 * x + 65535) / 131070;
    lemma_fundamental_div_mod_converse(255int * 131070 + 65535, 131070, 255, 65535);
    vstd::arithmetic::div_mod::lemma_div_is_ordered(0, 510 * x + 65535, 131070);
    vstd::arithmetic::div_mod::lemma_div_is_ordered(510 * x + 65535, 255int * 131070 + 65535, 131070);
    vstd::arithmetic::div_mod::lemma_div_is_ordered(0, 0, 131070);
}

/// Scaling an 8-bit intensity up to 16 bits and back down returns the value
/// unchanged, for every 8-bit value.
pub proof fn lemma_scale_round_trip_u8(v: u8)
    ensures
        v.spec_to_scaled_u16().spec_to_scaled_u8() == v,
{
    lemma_widen_u8(v);
    let x = v as int;
    let w = v.spec_to_scaled_u16();
    assert(w as int == 257 * x);
    assert(2 * (257 * x) * 255 + 65535 == x * 131070 + 65535);
    lemma_fundamental_div_mod_converse(2 * (257 * x) * 255 + 65535, 131070, x, 65535);
}

/// Scaling each end of one intensity domain into the other domain and back
/// returns that end exactly: `0` and the all-ones value round-trip between
/// the 8-bit and 16-bit domains in both directions.
pub proof fn lemma_scale_round_trip_extremes()
    ensures
        (0u8).spec_to_scaled_u16().spec_to_scaled_u8() == 0u8,
        (255u8).spec_to_scaled_u16().spec_to_scaled_u8() == 255u8,
        (0u16).spec_to_scaled_u8().spec_to_scaled_u16() == 0u16,
        (65535u16).spec_to_scaled_u8().spec_to_scaled_u16() == 65535u16,
        (0u8).spec_to_scaled_u8() == 0u8,
        (255u8).spec_to_scaled_u8() == 255u8,
        (0u16).spec_to_scaled_u16() == 0u16,
        (65535u16).spec_to_scaled_u16() == 65535u16,
{
    lemma_scale_round_trip_u8(0);
    lemma_scale_round_trip_u8(255);
    lemma_narrow_u16(0);
    lemma_narrow_u16(65535);
    lemma_fundamental_div_mod_converse(65535, 131070, 0, 65535);
    lemma_fundamental_div_mod_converse(510int * 65535 + 65535, 131070, 255, 65535);
    lemma_widen_u8(0);
    lemma_widen_u8(255);
}

/// Scalars that are already in a normalized representation.
///
/// The crate itself defines no normalized scalar; consumers that supply
/// floating-point normalized forms mark them with this trait.
pub trait Normalized {}

/// Scalar domains that convert into a normalized representation `N`.
///
/// Consumers that define a normalized type implement this for the intensity
/// domains it can be built from: `normalize` refuses out-of-range input,
/// `normalize_clamped` clamps it into range first, and `normalize_unchecked`
/// leaves the range check to the caller.
pub trait Normalize<N: Normalized> {
    /// Converts this scalar to its normalized form, or `None` if the value
    /// cannot be normalized.
    fn normalize(&self) -> Option<N>;

    /// Converts this scalar to its normalized form, clamping it into the
    /// legal range first.
    fn normalize_clamped(&self) -> N;

    /// Converts this scalar to its normalized form without checking that it
    /// lies in the legal range.
    fn normalize_unchecked(&self) -> N;
}

} // verus!
