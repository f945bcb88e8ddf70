//! Saturating and truncating money arithmetic.
//!
//! Player money is a signed 64-bit amount. Rewards and bets are added and
//! subtracted saturating at the ends of the range, and versus scoring
//! multiplies by a power of two: doubling saturates, halving truncates
//! toward zero, as a binary floating-point factor with a truncating cast
//! would.

use vstd::prelude::*;

verus! {

/// Clamp a mathematical integer into the `i64` range.
pub open spec fn i64_sat(x: int) -> int {
    if x > i64::MAX {
        i64::MAX as int
    } else if x < i64::MIN {
        i64::MIN as int
    } else {
        x
    }
}

/// Half of `m`, rounded toward zero.
pub open spec fn trunc_half(m: int) -> int {
    if m >= 0 {
        m / 2
    } else {
        -((-m) / 2)
    }
}

/// `m` doubled `k` times, each step saturating at the `i64` range.
pub open spec fn mul2_sat(m: int, k: nat) -> int
    decreases k,
{
    if k == 0 {
        m
    } else {
        i64_sat(2 * mul2_sat(m, (k - 1) as nat))
    }
}

/// `m` halved `k` times, each step rounding toward zero.
pub open spec fn div2_trunc(m: int, k: nat) -> int
    decreases k,
{
    if k == 0 {
        m
    } else {
        trunc_half(div2_trunc(m, (k - 1) as nat))
    }
}

/// `m` scaled by the factor `2^d / 2^h`: the excess doublings or halvings
/// applied after the two cancel each other out.
pub open spec fn scale_pow2(m: int, d: nat, h: nat) -> int {
    if d >= h {
        mul2_sat(m, (d - h) as nat)
    } else {
        div2_trunc(m, (h - d) as nat)
    }
}

/// Zero money is raised to one so the player can keep playing.
pub open spec fn floor_to_one(m: int) -> int {
    if m == 0 {
        1
    } else {
        m
    }
}

/// `a + b`, saturating at the ends of the `i64` range.
pub fn sat_add(a: i64, b: i64) -> (r: i64)
    ensures
        r == i64_sat(a + b),
{
    match a.checked_add(b) {
        Some(v) => v,
        None => if b > 0 {
            i64::MAX
        } else {
            i64::MIN
        },
    }
}

/// `a - b`, saturating at the ends of the `i64` range.
pub fn sat_sub(a: i64, b: i64) -> (r: i64)
    ensures
        r == i64_sat(a - b),
{
    match a.checked_sub(b) {
        Some(v) => v,
        None => if b < 0 {
            i64::MAX
        } else {
            i64::MIN
        },
    }
}

/// `m` doubled once, saturating.
pub fn double_sat(m: i64) -> (r: i64)
    ensures
        r == i64_sat(2 * m),
{
    match m.checked_mul(2) {
        Some(v) => v,
        None => if m > 0 {
            i64::MAX
        } else {
            i64::MIN
        },
    }
}

/// `m` halved once, rounding toward zero.
pub fn half_trunc(m: i64) -> (r: i64)
    ensures
        r == trunc_half(m as int),
{
    match m.checked_div(2) {
        Some(v) => v,
        None => 0,
    }
}

/// `m` scaled by `2^d / 2^h` (see [`scale_pow2`]).
pub fn scale_by_pow2(m: i64, d: usize, h: usize) -> (r: i64)
    ensures
        r == scale_pow2(m as int, d as nat, h as nat),
{
    let mut r = m;
    if d >= h {
        let k = d - h;
        let mut i: usize = 0;
        while i < k
            invariant
                i <= k,
                r == mul2_sat(m as int, i as nat),
                i64::MIN <= mul2_sat(m as int, i as nat) <= i64::MAX,
            decreases k - i,
        {
            r = double_sat(r);
            i = i + 1;
        }
    } else {
        let k = h - d;
        let mut i: usize = 0;
        while i < k
            invariant
                i <= k,
                r == div2_trunc(m as int, i as nat),
                i64::MIN <= div2_trunc(m as int, i as nat) <= i64::MAX,
            decreases k - i,
        {
            r = half_trunc(r);
            i = i + 1;
        }
    }
    r
}

} // verus!
