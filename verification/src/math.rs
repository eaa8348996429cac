use vstd::prelude::*;

use crate::scalar::PI;
use crate::scalar::TWO_PI;

verus! {

/// Quotient of `a / b` rounded toward zero, the rounding that the
/// executable divisions in this library perform.  For `a >= 0` it agrees
/// with the Euclidean `/` of specifications.
pub open spec fn div_tz(a: int, b: int) -> int {
    if a >= 0 {
        a / b
    } else {
        -((-a) / b)
    }
}

/// Truncating division of a possibly negative dividend by a positive divisor.
pub(crate) fn div_q(a: i128, b: i128) -> (q: i128)
    requires
        b > 0,
        i128::MIN < a,
    ensures
        q == div_tz(a as int, b as int),
{
    if a >= 0 {
        a / b
    } else {
        -((-a) / b)
    }
}

/// The exact product of two 64-bit values, computed in 128 bits.
pub(crate) fn mul_wide(a: i64, b: i64) -> (r: i128)
    ensures
        r == (a as int) * (b as int),
        i128::MIN < r < i128::MAX,
{
    proof {
        assert(i128::MIN < (a as int) * (b as int) < i128::MAX) by (nonlinear_arith)
            requires
                i64::MIN <= a <= i64::MAX,
                i64::MIN <= b <= i64::MAX,
        ;
    }
    (a as i128) * (b as i128)
}

/// `r` is the integer square root of `n`, rounded down.
pub open spec fn is_sqrt(n: int, r: int) -> bool {
    &&& 0 <= r
    &&& r * r <= n
    &&& n < (r + 1) * (r + 1)
}

/// The integer square root, rounded down.
pub open spec fn sqrt_floor(n: int) -> int {
    choose|r: int| is_sqrt(n, r)
}

/// Two integer square roots of the same number are the same number.
pub proof fn lemma_is_sqrt_unique(n: int, a: int, b: int)
    by (nonlinear_arith)
    requires
        is_sqrt(n, a),
        is_sqrt(n, b),
    ensures
        a == b,
{
}

/// What `is_sqrt` grants is exactly `sqrt_floor`.
pub proof fn lemma_is_sqrt_is_sqrt_floor(n: int, r: int)
    requires
        is_sqrt(n, r),
    ensures
        r == sqrt_floor(n),
{
    assert(is_sqrt(n, sqrt_floor(n)));
    lemma_is_sqrt_unique(n, r, sqrt_floor(n));
}

/// Integer square root by bisection.
pub(crate) fn isqrt(n: i128) -> (r: i128)
    requires
        0 <= n < i128::MAX,
    ensures
        r == sqrt_floor(n as int),
        is_sqrt(n as int, r as int),
{
    let mut lo: i128 = 0;
    let mut hi: i128 = n + 1;
    if hi > 0x1_0000_0000_0000_0000 {
        hi = 0x1_0000_0000_0000_0000;
    }
    proof {
        assert(hi * hi > n) by (nonlinear_arith)
            requires
                hi >= 1,
                n < i128::MAX,
                hi > n || hi == 0x1_0000_0000_0000_0000,
                n < 0x1_0000_0000_0000_0000_0000_0000_0000_0000,
        ;
    }
    while lo + 1 < hi
        invariant
            0 <= lo < hi <= 0x1_0000_0000_0000_0000,
            lo * lo <= n,
            n < hi * hi,
        decreases hi - lo,
    {
        let mid = lo + (hi - lo) / 2;
        assert(lo < mid < hi);
        if mid <= n / mid {
            proof {
                assert(mid * mid <= n) by (nonlinear_arith)
                    requires
                        mid >= 1,
                        n >= 0,
                        mid <= n / mid,
                ;
            }
            lo = mid;
        } else {
            proof {
                assert(n < mid * mid) by (nonlinear_arith)
                    requires
                        mid >= 1,
                        n >= 0,
                        mid > n / mid,
                ;
            }
            hi = mid;
        }
    }
    proof {
        lemma_is_sqrt_is_sqrt_floor(n as int, lo as int);
    }
    lo
}

/// Every nonnegative number has an integer square root.
pub proof fn lemma_sqrt_floor_exists(n: int)
    requires
        0 <= n,
    ensures
        is_sqrt(n, sqrt_floor(n)),
    decreases n,
{
    if n == 0 {
        assert(is_sqrt(0, 0));
        lemma_is_sqrt_is_sqrt_floor(0, 0);
    } else {
        lemma_sqrt_floor_exists(n - 1);
        let r = sqrt_floor(n - 1);
        if n < (r + 1) * (r + 1) {
            assert(is_sqrt(n, r));
            lemma_is_sqrt_is_sqrt_floor(n, r);
        } else {
            assert(n == (r + 1) * (r + 1));
            assert(is_sqrt(n, r + 1)) by (nonlinear_arith)
                requires
                    r >= 0,
                    n == (r + 1) * (r + 1),
            ;
            lemma_is_sqrt_is_sqrt_floor(n, r + 1);
        }
    }
}

/// A component is never longer than the whole vector: from `c * c <= s`
/// and `r` the rounded-down square root of `s`, the magnitude of `c` is
/// at most `r`.
pub proof fn lemma_component_le_sqrt(c: int, s: int, r: int)
    by (nonlinear_arith)
    requires
        c * c <= s,
        is_sqrt(s, r),
    ensures
        -r <= c <= r,
{
}

/// A square is nonnegative and grows with the magnitude of its root.
pub proof fn lemma_square_bound(c: int, m: int)
    by (nonlinear_arith)
    requires
        -m <= c <= m,
    ensures
        0 <= c * c <= m * m,
{
}

/// Bound on a truncating quotient: if `|a| <= c * b` then `|a / b| <= c`.
pub proof fn lemma_div_tz_bound(a: int, b: int, c: int)
    by (nonlinear_arith)
    requires
        b > 0,
        0 <= c,
        -(c * b) <= a <= c * b,
    ensures
        -c <= div_tz(a, b) <= c,
{
}

/// The magnitude of a product is bounded by the product of the bounds.
pub proof fn lemma_mul_magnitude(a: int, b: int, ma: int, mb: int)
    by (nonlinear_arith)
    requires
        -ma <= a <= ma,
        -mb <= b <= mb,
    ensures
        -(ma * mb) <= a * b <= ma * mb,
{
}

/// A rounded-down square root below a square stays below the root: from
/// `q < m * m` it follows that `sqrt_floor(q) < m`.
pub proof fn lemma_sqrt_lt_of_lt_square(q: int, r: int, m: int)
    by (nonlinear_arith)
    requires
        is_sqrt(q, r),
        q < m * m,
        0 <= m,
    ensures
        r < m,
{
}

/// A truncating quotient of nonnegative values is nonnegative and at most
/// the dividend.
pub proof fn lemma_div_tz_nonneg(a: int, b: int)
    by (nonlinear_arith)
    requires
        0 <= a,
        0 < b,
    ensures
        0 <= div_tz(a, b) <= a,
{
}

/// A truncating quotient keeps the sign of its dividend, weakly: it can
/// fall to zero but never crosses it.
pub proof fn lemma_div_tz_sign(a: int, b: int)
    by (nonlinear_arith)
    requires
        0 < b,
    ensures
        a >= 0 ==> div_tz(a, b) >= 0,
        a <= 0 ==> div_tz(a, b) <= 0,
{
}

/// The wrap of `a` into the half-open half turn `(-PI, PI]`: the unique
/// angle in that range that differs from `a` by a whole number of turns.
pub open spec fn wrapped(a: int) -> int {
    let w = a % (TWO_PI as int);
    if w > PI {
        w - TWO_PI
    } else {
        w
    }
}

/// The wrap of any angle lies in `(-PI, PI]`: rotating toward the wrapped
/// difference never takes more than half a turn.
pub proof fn lemma_wrapped_range(a: int)
    ensures
        -PI < wrapped(a) <= PI,
{
    assert(0 <= a % (TWO_PI as int) < TWO_PI as int) by (nonlinear_arith)
        requires
            TWO_PI > 0,
    ;
}

/// Wraps an angle difference into `(-PI, PI]`, so that steering toward the
/// wrapped angle never rotates more than half a turn.
pub fn wrap_angle_around_zero(a: i64) -> (r: i64)
    ensures
        r == wrapped(a as int),
        -PI < r <= PI,
{
    let m = a % TWO_PI;
    let w = if m < 0 {
        m + TWO_PI
    } else {
        m
    };
    assert(w == a as int % (TWO_PI as int));
    if w > PI {
        w - TWO_PI
    } else {
        w
    }
}

} // verus!
