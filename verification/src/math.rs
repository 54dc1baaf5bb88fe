//! Integer arithmetic underlying the follow controller: a truncated square
//! root and a sign-aware scaled division, with the bound lemmas the
//! controller's laws rest on.

use vstd::prelude::*;

verus! {

/// Largest argument `isqrt` accepts; every squared distance the controller
/// forms stays below it.
pub const ISQRT_MAX: u64 = 12_000_000_000_000_000_000;

/// An upper bound on the root of any accepted argument.
pub const ISQRT_ROOT_BOUND: u64 = 3_500_000_000;

/// Truncated square root of a nonnegative integer: the unique `r >= 0` with
/// `r * r <= n < (r + 1) * (r + 1)`.
pub open spec fn sqrt_floor(n: int) -> int
    recommends
        n >= 0,
{
    choose|r: int| 0 <= r && #[trigger] (r * r) <= n && n < (r + 1) * (r + 1)
}

/// Any `r` satisfying the root bracket is the truncated square root.
pub proof fn lemma_sqrt_floor_unique(n: int, r: int)
    requires
        0 <= r,
        r * r <= n,
        n < (r + 1) * (r + 1),
    ensures
        sqrt_floor(n) == r,
{
    assert(exists|q: int| 0 <= q && #[trigger] (q * q) <= n && n < (q + 1) * (q + 1)) by {
        assert(0 <= r && r * r <= n && n < (r + 1) * (r + 1));
    }
    let s = sqrt_floor(n);
    assert(0 <= s && s * s <= n && n < (s + 1) * (s + 1));
    assert(s == r) by (nonlinear_arith)
        requires
            0 <= r,
            r * r <= n,
            n < (r + 1) * (r + 1),
            0 <= s,
            s * s <= n,
            n < (s + 1) * (s + 1),
    ;
}

/// The truncated square root of any nonnegative integer satisfies the root
/// bracket.
pub proof fn lemma_sqrt_floor_bracket(n: int)
    requires
        n >= 0,
    ensures
        0 <= sqrt_floor(n),
        sqrt_floor(n) * sqrt_floor(n) <= n,
        n < (sqrt_floor(n) + 1) * (sqrt_floor(n) + 1),
    decreases n,
{
    if n == 0 {
        lemma_sqrt_floor_unique(0, 0);
    } else {
        lemma_sqrt_floor_bracket(n - 1);
        let r = sqrt_floor(n - 1);
        if (r + 1) * (r + 1) <= n {
            assert(n < ((r + 1) + 1) * ((r + 1) + 1)) by (nonlinear_arith)
                requires
                    n - 1 < (r + 1) * (r + 1),
                    0 <= r,
            ;
            lemma_sqrt_floor_unique(n, r + 1);
        } else {
            lemma_sqrt_floor_unique(n, r);
        }
    }
}

/// Computes the truncated square root by binary search.
pub fn isqrt(n: u64) -> (r: u64)
    requires
        n <= ISQRT_MAX,
    ensures
        r as int == sqrt_floor(n as int),
        (r as int) * (r as int) <= n as int,
        (n as int) < (r as int + 1) * (r as int + 1),
{
    let mut lo: u64 = 0;
    let mut hi: u64 = ISQRT_ROOT_BOUND;
    proof {
        assert((ISQRT_ROOT_BOUND as int) * (ISQRT_ROOT_BOUND as int) > ISQRT_MAX as int)
            by (nonlinear_arith);
    }
    while lo + 1 < hi
        invariant
            n <= ISQRT_MAX,
            lo < hi,
            hi <= ISQRT_ROOT_BOUND,
            (lo as int) * (lo as int) <= n as int,
            (n as int) < (hi as int) * (hi as int),
        decreases hi - lo,
    {
        let mid: u64 = lo + (hi - lo) / 2;
        proof {
            assert((mid as int) * (mid as int) <= (ISQRT_ROOT_BOUND as int) * (ISQRT_ROOT_BOUND
                as int)) by (nonlinear_arith)
                requires
                    0 <= mid as int <= ISQRT_ROOT_BOUND as int,
            ;
        }
        if mid * mid <= n {
            lo = mid;
        } else {
            hi = mid;
        }
    }
    proof {
        lemma_sqrt_floor_unique(n as int, lo as int);
    }
    lo
}

/// `a` scaled by the ratio `s / den`, truncated toward zero, as the
/// controller applies a per-frame speed along a direction component.
pub open spec fn scaled_div(a: int, s: int, den: int) -> int
    recommends
        s >= 0,
        den > 0,
{
    if a >= 0 {
        (a * s) / den
    } else {
        -(((-a) * s) / den)
    }
}

/// Largest magnitude `scale_i64` accepts for the value being scaled.
pub const SCALE_ABS_MAX: i64 = 4_000_000_000;

/// Largest factor `scale_i64` accepts.
pub const SCALE_FACTOR_MAX: u64 = 100_000;

/// Largest magnitude `scale_i64` can return.
pub const SCALE_RESULT_MAX: i64 = 400_000_000_000_000;

/// For nonnegative values, scaling by `s / den` truncates `(a * s) / den`.
proof fn lemma_div_product_bound(a: int, s: int, den: int)
    requires
        0 <= a,
        0 <= s,
        0 < den,
    ensures
        0 <= (a * s) / den,
        s <= den ==> (a * s) / den <= a,
        a <= den ==> (a * s) / den <= s,
{
    assert(0 <= a * s) by (nonlinear_arith)
        requires
            0 <= a,
            0 <= s,
    ;
    assert(0 <= (a * s) / den) by (nonlinear_arith)
        requires
            0 <= a * s,
            0 < den,
    ;
    if s <= den {
        assert(a * s <= a * den) by (nonlinear_arith)
            requires
                0 <= a,
                s <= den,
        ;
        assert((a * s) / den <= (a * den) / den) by (nonlinear_arith)
            requires
                a * s <= a * den,
                0 < den,
        ;
        assert((a * den) / den == a) by (nonlinear_arith)
            requires
                0 < den,
        ;
    }
    if a <= den {
        assert(a * s <= den * s) by (nonlinear_arith)
            requires
                0 <= s,
                a <= den,
        ;
        assert((a * s) / den <= (den * s) / den) by (nonlinear_arith)
            requires
                a * s <= den * s,
                0 < den,
        ;
        assert((den * s) / den == s) by (nonlinear_arith)
            requires
                0 < den,
        ;
    }
}

/// When the factor does not exceed the divisor, the scaled value never passes
/// the value being scaled, and keeps its sign.
pub proof fn lemma_scaled_div_within(a: int, s: int, den: int)
    requires
        0 <= s <= den,
        0 < den,
    ensures
        a >= 0 ==> 0 <= scaled_div(a, s, den) <= a,
        a <= 0 ==> a <= scaled_div(a, s, den) <= 0,
{
    if a >= 0 {
        lemma_div_product_bound(a, s, den);
    }
    if a <= 0 {
        lemma_div_product_bound(-a, s, den);
    }
}

/// Scaling never overshoots the exact ratio: the square of the scaled value
/// times the squared divisor stays below the squared product.
pub proof fn lemma_scaled_div_sq(a: int, s: int, den: int)
    requires
        0 <= s,
        0 < den,
    ensures
        scaled_div(a, s, den) * scaled_div(a, s, den) * (den * den) <= (a * a) * (s * s),
{
    let b = if a >= 0 {
        a
    } else {
        -a
    };
    let q = (b * s) / den;
    assert(0 <= q && q * den <= b * s) by (nonlinear_arith)
        requires
            0 <= b,
            0 <= s,
            0 < den,
            q == (b * s) / den,
    ;
    assert(q * q * (den * den) <= (b * b) * (s * s)) by (nonlinear_arith)
        requires
            0 <= q,
            0 < den,
            0 <= b,
            0 <= s,
            q * den <= b * s,
    ;
    assert(scaled_div(a, s, den) * scaled_div(a, s, den) == q * q && (a * a) == (b * b))
        by (nonlinear_arith)
        requires
            b == if a >= 0 {
                a
            } else {
                -a
            },
            q == (b * s) / den,
            scaled_div(a, s, den) == if a >= 0 {
                q
            } else {
                -q
            },
    ;
}

/// When the value's magnitude does not exceed the divisor, the scaled value's
/// magnitude never exceeds the factor.
pub proof fn lemma_scaled_div_factor(a: int, s: int, den: int)
    requires
        0 <= s,
        0 < den,
        -den <= a <= den,
    ensures
        -s <= scaled_div(a, s, den) <= s,
{
    if a >= 0 {
        lemma_div_product_bound(a, s, den);
    } else {
        lemma_div_product_bound(-a, s, den);
    }
}

/// Computes `scaled_div` on machine integers.
pub fn scale_i64(a: i64, s: u64, den: u64) -> (r: i64)
    requires
        -SCALE_ABS_MAX <= a <= SCALE_ABS_MAX,
        s <= SCALE_FACTOR_MAX,
        den >= 1,
    ensures
        r as int == scaled_div(a as int, s as int, den as int),
        -SCALE_RESULT_MAX <= r <= SCALE_RESULT_MAX,
{
    if a >= 0 {
        proof {
            assert((a as int) * (s as int) <= (SCALE_ABS_MAX as int) * (SCALE_FACTOR_MAX as int))
                by (nonlinear_arith)
                requires
                    0 <= a as int <= SCALE_ABS_MAX as int,
                    0 <= s as int <= SCALE_FACTOR_MAX as int,
            ;
        }
        let num: u64 = (a as u64) * s;
        proof {
            assert((num as int) / (den as int) <= num as int) by (nonlinear_arith)
                requires
                    0 <= num as int,
                    1 <= den as int,
            ;
        }
        let q: u64 = num / den;
        q as i64
    } else {
        let m: u64 = (-a) as u64;
        proof {
            assert((m as int) * (s as int) <= (SCALE_ABS_MAX as int) * (SCALE_FACTOR_MAX as int))
                by (nonlinear_arith)
                requires
                    0 <= m as int <= SCALE_ABS_MAX as int,
                    0 <= s as int <= SCALE_FACTOR_MAX as int,
            ;
        }
        let num: u64 = m * s;
        proof {
            assert((num as int) / (den as int) <= num as int) by (nonlinear_arith)
                requires
                    0 <= num as int,
                    1 <= den as int,
            ;
        }
        let q: u64 = num / den;
        -(q as i64)
    }
}

} // verus!
