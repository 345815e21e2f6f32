//! Truncating signed division, the division semantics of the sensor's
//! reference compensation formulas.
//!
//! Spec-level `/` on `int` is Euclidean division; the fixed-point formulas
//! divide signed machine integers, which rounds toward zero. This module
//! defines round-toward-zero division and executable functions proved
//! against it.

use vstd::prelude::*;
use vstd::arithmetic::div_mod::{
    lemma_div_nonincreasing, lemma_div_pos_is_pos, lemma_mod_add_multiples_vanish,
    lemma_small_mod,
};
use vstd::math::abs;
use vstd::wrapping::i64_specs;

verus! {

/// Integer division rounding toward zero (the semantics of `/` on signed
/// machine integers), defined for any non-zero divisor.
pub open spec fn div_tz(a: int, b: int) -> int {
    let q = abs(a) as int / abs(b) as int;
    if (a < 0) != (b < 0) {
        -q
    } else {
        q
    }
}

/// Truncating division of a 32-bit value by a positive divisor; the result
/// always fits in 32 bits.
pub open spec fn div_tz_i32(a: i32, b: i32) -> i32 {
    div_tz(a as int, b as int) as i32
}

/// Truncating division of a 64-bit value by a non-zero divisor, wrapped to
/// 64 bits (the one overflowing case is `i64::MIN / -1`).
pub open spec fn div_tz_i64(a: i64, b: i64) -> i64 {
    i64_specs::signed_crop(div_tz(a as int, b as int))
}

/// The magnitude of a quotient never exceeds the magnitude of the dividend.
proof fn lemma_div_tz_bound(a: int, b: int)
    requires
        b != 0,
    ensures
        abs(div_tz(a, b)) <= abs(a),
        0 <= abs(a) as int / abs(b) as int <= abs(a),
{
    lemma_div_pos_is_pos(abs(a) as int, abs(b) as int);
    lemma_div_nonincreasing(abs(a) as int, abs(b) as int);
}

/// Divide a 32-bit value by a positive divisor, rounding toward zero.
pub fn div_i32_tz(a: i32, b: i32) -> (r: i32)
    requires
        b > 0,
    ensures
        r == div_tz(a as int, b as int),
        r == div_tz_i32(a, b),
{
    proof {
        lemma_div_tz_bound(a as int, b as int);
    }
    if a >= 0 {
        ((a as u32) / (b as u32)) as i32
    } else {
        let m: u64 = (-(a as i64)) as u64;
        let q: u64 = m / (b as u64);
        (-(q as i64)) as i32
    }
}

/// Divide a 64-bit value by a non-zero divisor, rounding toward zero and
/// wrapping on overflow (the one overflowing case is `i64::MIN / -1`).
pub fn div_i64_tz(a: i64, b: i64) -> (r: i64)
    requires
        b != 0,
    ensures
        r == div_tz_i64(a, b),
{
    proof {
        lemma_div_tz_bound(a as int, b as int);
    }
    let na: u64 = if a >= 0 {
        a as u64
    } else {
        (-(a as i128)) as u64
    };
    let nb: u64 = if b > 0 {
        b as u64
    } else {
        (-(b as i128)) as u64
    };
    let q: u64 = na / nb;
    if (a >= 0) == (b > 0) {
        proof {
            lemma_signed_crop_in_range(q as int);
        }
        if q == 9223372036854775808u64 {
            i64::MIN
        } else {
            q as i64
        }
    } else {
        proof {
            lemma_signed_crop_in_range(-(q as int));
        }
        (-(q as i128)) as i64
    }
}

/// `signed_crop` is the identity on values already in the 64-bit signed
/// range, and sends `2^63` (the quotient `i64::MIN / -1`) to `i64::MIN`.
proof fn lemma_signed_crop_in_range(x: int)
    requires
        i64::MIN <= x <= 0x8000_0000_0000_0000,
    ensures
        x < 0x8000_0000_0000_0000 ==> i64_specs::signed_crop(x) == x,
        x == 0x8000_0000_0000_0000 ==> i64_specs::signed_crop(x) == i64::MIN,
{
    if x >= 0 {
        lemma_small_mod(x as nat, 0x1_0000_0000_0000_0000);
    } else {
        lemma_mod_add_multiples_vanish(x, 0x1_0000_0000_0000_0000);
        lemma_small_mod((x + 0x1_0000_0000_0000_0000) as nat, 0x1_0000_0000_0000_0000);
    }
}

} // verus!
