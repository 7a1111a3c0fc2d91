//! Fixed-point arithmetic, saturating at the `i64` range.
//!
//! Lengths, times and angles count millionths (`ONE`). Velocities and
//! accelerations count millionths of a millionth (`FINE`), so that the small
//! changes of velocity of a single step are not lost.

use vstd::prelude::*;

verus! {

/// The number one as a length, a time or an angle, which count millionths.
pub const ONE: i64 = 1_000_000;

/// The number one as a velocity or an acceleration, which count millionths
/// of a millionth. Velocities and accelerations therefore reach up to about
/// nine million units per second.
pub const FINE: i64 = 1_000_000_000_000;

/// The nearest value of the `i64` range.
pub open spec fn saturate(v: int) -> int {
    if v < i64::MIN as int {
        i64::MIN as int
    } else if v > i64::MAX as int {
        i64::MAX as int
    } else {
        v
    }
}

/// The quotient of `n` by a positive `d`, rounded toward zero.
pub open spec fn quotient(n: int, d: int) -> int {
    if n >= 0 {
        n / d
    } else {
        -((-n) / d)
    }
}

/// `a * b / c`, rounded toward zero and saturated. With `c == ONE` this is the
/// fixed-point product of `a` and `b`; with `b == ONE` it is the fixed-point
/// quotient of `a` by `c`.
pub open spec fn scaled(a: int, b: int, c: int) -> int {
    saturate(quotient(a * b, c))
}

/// The saturated sum of two fixed-point numbers.
pub open spec fn sum(a: int, b: int) -> int {
    saturate(a + b)
}

/// The saturated difference of two fixed-point numbers.
pub open spec fn difference(a: int, b: int) -> int {
    saturate(a - b)
}

/// `r` is the integer square root of `n`: the largest integer whose square
/// does not exceed `n`.
pub open spec fn is_root(n: int, r: int) -> bool {
    0 <= r && r * r <= n < (r + 1) * (r + 1)
}

/// The integer square root of a non-negative `n`.
pub open spec fn root(n: int) -> int {
    choose|r: int| is_root(n, r)
}

/// A number has at most one integer square root.
pub proof fn lemma_root_unique(n: int, r: int, s: int)
    requires
        is_root(n, r),
        is_root(n, s),
    ensures
        r == s,
{
    if r < s {
        assert((r + 1) * (r + 1) <= s * s) by (nonlinear_arith)
            requires
                0 <= r,
                r + 1 <= s,
        ;
    } else if s < r {
        assert((s + 1) * (s + 1) <= r * r) by (nonlinear_arith)
            requires
                0 <= s,
                s + 1 <= r,
        ;
    }
}

/// Every non-negative number has an integer square root, and `root` names it.
pub proof fn lemma_root_exists(n: int)
    requires
        n >= 0,
    ensures
        is_root(n, root(n)),
    decreases n,
{
    if n == 0 {
        assert(is_root(0, 0));
    } else {
        lemma_root_exists(n - 1);
        let r = root(n - 1);
        if n < (r + 1) * (r + 1) {
            assert(is_root(n, r));
        } else {
            assert((r + 1) * (r + 1) < (r + 2) * (r + 2)) by (nonlinear_arith)
                requires
                    r >= 0,
            ;
            assert(is_root(n, r + 1));
        }
    }
}

/// The root of a positive number is positive, and the root of a square is
/// its side.
pub proof fn lemma_root_facts(n: int, side: int)
    requires
        n >= 0,
    ensures
        n > 0 ==> root(n) > 0,
        side >= 0 && n == side * side ==> root(n) == side,
{
    lemma_root_exists(n);
    if side >= 0 && n == side * side {
        assert(side * side < (side + 1) * (side + 1)) by (nonlinear_arith)
            requires
                side >= 0,
        ;
        lemma_root_unique(n, root(n), side);
    }
}

/// Nothing scaled is nothing, and scaling by nothing gives nothing.
pub proof fn lemma_scaled_zero(a: int, c: int)
    requires
        c > 0,
    ensures
        scaled(0, a, c) == 0,
        scaled(a, 0, c) == 0,
{
    assert(0 * a == 0) by (nonlinear_arith);
    assert(a * 0 == 0) by (nonlinear_arith);
    assert(0int / c == 0) by (nonlinear_arith)
        requires
            c > 0,
    ;
}

/// Adds two fixed-point numbers.
pub fn add_sat(a: i64, b: i64) -> (r: i64)
    ensures
        r == sum(a as int, b as int),
{
    let wide: i128 = a as i128 + b as i128;
    clamp(wide)
}

/// Subtracts `b` from `a`.
pub fn sub_sat(a: i64, b: i64) -> (r: i64)
    ensures
        r == difference(a as int, b as int),
{
    let wide: i128 = a as i128 - b as i128;
    clamp(wide)
}

/// Narrows a wide integer to the `i64` range.
pub fn clamp(v: i128) -> (r: i64)
    ensures
        r == saturate(v as int),
{
    if v < i64::MIN as i128 {
        i64::MIN
    } else if v > i64::MAX as i128 {
        i64::MAX
    } else {
        v as i64
    }
}

/// The absolute value of `a`, which always fits in a `u128`.
pub fn magnitude(a: i64) -> (r: u128)
    ensures
        r == (if a < 0 { -(a as int) } else { a as int }),
{
    if a < 0 {
        (-(a as i128)) as u128
    } else {
        a as u128
    }
}

/// Computes `a * b / c` without intermediate overflow, rounding toward zero
/// and saturating the result.
pub fn mul_div(a: i64, b: i64, c: u128) -> (r: i64)
    requires
        c > 0,
    ensures
        r == scaled(a as int, b as int, c as int),
{
    let ma: u128 = magnitude(a);
    let mb: u128 = magnitude(b);
    assert(ma * mb <= 0x4000_0000_0000_0000_0000_0000_0000_0000) by (nonlinear_arith)
        requires
            ma <= 0x8000_0000_0000_0000,
            mb <= 0x8000_0000_0000_0000,
    ;
    let m: u128 = ma * mb;
    let q: u128 = m / c;
    let negative: bool = (a < 0) != (b < 0);
    proof {
        let ai = a as int;
        let bi = b as int;
        assert(ai * bi == (if negative { -(m as int) } else { m as int })) by (nonlinear_arith)
            requires
                ma == (if ai < 0 { -ai } else { ai }),
                mb == (if bi < 0 { -bi } else { bi }),
                m == ma * mb,
                negative == ((ai < 0) != (bi < 0)),
        ;
        assert(q <= m) by (nonlinear_arith)
            requires
                q == m / c,
                c > 0,
        ;
    }
    if negative {
        if q > 0x8000_0000_0000_0000 {
            i64::MIN
        } else {
            (-(q as i128)) as i64
        }
    } else {
        if q > 0x7fff_ffff_ffff_ffff {
            i64::MAX
        } else {
            q as i64
        }
    }
}

/// Computes the integer square root of `n`.
pub fn isqrt(n: u128) -> (r: u128)
    ensures
        is_root(n as int, r as int),
        r == root(n as int),
        r < 0x1_0000_0000_0000_0000,
{
    let mut lo: u128 = 0;
    let mut hi: u128 = 0x1_0000_0000_0000_0000;
    assert(hi * hi > n) by (nonlinear_arith)
        requires
            hi == 0x1_0000_0000_0000_0000,
            n <= u128::MAX,
    ;
    while hi - lo > 1
        invariant
            lo < hi <= 0x1_0000_0000_0000_0000,
            lo * lo <= n < hi * hi,
        decreases hi - lo,
    {
        let mid: u128 = lo + (hi - lo) / 2;
        assert(mid * mid <= 0xffff_ffff_ffff_ffff * 0xffff_ffff_ffff_ffff) by (nonlinear_arith)
            requires
                mid <= 0xffff_ffff_ffff_ffff,
        ;
        if mid * mid <= n {
            lo = mid;
        } else {
            hi = mid;
        }
    }
    proof {
        assert(hi == lo + 1);
        assert(is_root(n as int, lo as int));
        lemma_root_unique(n as int, lo as int, root(n as int));
    }
    lo
}

} // verus!
