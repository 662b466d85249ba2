//! Single-precision numbers as plain values.
//!
//! A number is written as its IEEE 754 binary32 bit pattern, a `u32`: one sign bit, eight
//! exponent bits, twenty-three fraction bits. Not-a-number has many patterns, and which of
//! them an operation produces is not fixed by the language. Every contract in this crate
//! therefore reads each NaN as the one pattern [`NAN`]; all other numbers, both zeros and
//! both infinities included, are read as the pattern they have.

use vstd::prelude::*;

verus! {

/// Positive zero.
pub const ZERO: u32 = 0x0000_0000;

/// One half.
pub const HALF: u32 = 0x3f00_0000;

/// One.
pub const ONE: u32 = 0x3f80_0000;

/// Two.
pub const TWO: u32 = 0x4000_0000;

/// Minus one.
pub const NEG_ONE: u32 = 0xbf80_0000;

/// The pattern that stands for every NaN.
pub const NAN: u32 = 0x7fc0_0000;

/// The pattern without its sign bit.
pub open spec fn magnitude(p: u32) -> u32 {
    p % 0x8000_0000
}

/// The sign bit is set. This holds of negative zero too.
pub open spec fn is_negative(p: u32) -> bool {
    p >= 0x8000_0000
}

/// The pattern is a NaN.
pub open spec fn is_nan(p: u32) -> bool {
    magnitude(p) > 0x7f80_0000
}

/// The pattern is neither an infinity nor a NaN.
pub open spec fn is_finite(p: u32) -> bool {
    magnitude(p) < 0x7f80_0000
}

/// The pattern is positive or negative zero.
pub open spec fn is_zero(p: u32) -> bool {
    magnitude(p) == 0
}

/// The number is above zero and not an infinity.
pub open spec fn is_positive_finite(p: u32) -> bool {
    !is_negative(p) && !is_zero(p) && is_finite(p)
}

/// Where the number stands among all numbers: an integer that grows exactly as the number
/// does. Both zeros have rank 0. It says nothing of a NaN.
pub open spec fn rank(p: u32) -> int
    recommends
        !is_nan(p),
{
    if is_negative(p) {
        -(magnitude(p) as int)
    } else {
        magnitude(p) as int
    }
}

/// The comparison `a > b` of the two numbers. It is false as soon as one of them is a NaN.
pub open spec fn exceeds(a: u32, b: u32) -> bool {
    !is_nan(a) && !is_nan(b) && rank(a) > rank(b)
}

/// The larger of two numbers as the comparison `a > b` picks it: `a` where `a` exceeds `b`,
/// and `b` in every other case, also where one of them is a NaN.
pub open spec fn larger(a: u32, b: u32) -> u32 {
    if exceeds(a, b) {
        a
    } else {
        b
    }
}

/// The sum `a + b`, rounded to nearest as IEEE 754 prescribes. The standard fixes it for
/// every pair of numbers but for the pattern of a NaN, which is read as [`NAN`].
pub uninterp spec fn float_sum(a: u32, b: u32) -> u32;

/// The difference `a - b`, rounded to nearest as IEEE 754 prescribes, a NaN read as
/// [`NAN`].
pub uninterp spec fn float_difference(a: u32, b: u32) -> u32;

/// The product `a * b`, rounded to nearest as IEEE 754 prescribes, a NaN read as
/// [`NAN`].
pub uninterp spec fn float_product(a: u32, b: u32) -> u32;

/// Adding `step` to `base` and taking `base` away again gives `step` back. Rounding can
/// break this: where `base` is a hundred million and `step` is one, the sum is `base`
/// again and what comes back is zero.
pub open spec fn comes_back(base: u32, step: u32) -> bool {
    float_difference(float_sum(base, step), base) == step
}

/// Carrying the pair `low`, `high` along until `low` stands at `to` keeps the two as far
/// apart as they were: `(high + (to - low)) - to` is `high - low`. Rounding can break this
/// too.
pub open spec fn keeps_distance(low: u32, high: u32, to: u32) -> bool {
    float_difference(float_sum(high, float_difference(to, low)), to) == float_difference(
        high,
        low,
    )
}

/// The text that the standard library's `Display` writes for the number: the shortest
/// decimal that reads back as the same number, `inf` and `-inf` for the infinities, and
/// `NaN` for every NaN.
pub uninterp spec fn decimal(p: u32) -> Seq<char>;

} // verus!
