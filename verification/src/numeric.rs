//! Integer helpers for the planning code: a verified integer square root
//! (used for an element's diagonal, which fixes the span of a linear
//! gradient) and a fixed-point sine in thousandths (used to aim the gradient
//! axis), together with degree normalization.

use vstd::prelude::*;

verus! {

/// The largest `r` with `r * r <= n`, reached by walking up from `from`.
pub open spec fn isqrt_from(n: int, from: int) -> int
    decreases n - from
        when 0 <= from && from * from <= n
        via isqrt_from_decreases
{
    if (from + 1) * (from + 1) <= n {
        isqrt_from(n, from + 1)
    } else {
        from
    }
}

#[via_fn]
proof fn isqrt_from_decreases(n: int, from: int) {
    if (from + 1) * (from + 1) <= n {
        assert(from + 1 <= n) by (nonlinear_arith)
            requires
                0 <= from,
                (from + 1) * (from + 1) <= n,
        ;
    }
}

/// The integer square root of `n`.
pub open spec fn isqrt_spec(n: int) -> int {
    isqrt_from(n, 0)
}

pub proof fn lemma_isqrt_from(n: int, from: int)
    requires
        0 <= from,
        from * from <= n,
    ensures
        from <= isqrt_from(n, from),
        isqrt_from(n, from) * isqrt_from(n, from) <= n,
        n < (isqrt_from(n, from) + 1) * (isqrt_from(n, from) + 1),
    decreases n - from,
{
    if (from + 1) * (from + 1) <= n {
        assert(from + 1 <= n) by (nonlinear_arith)
            requires
                0 <= from,
                (from + 1) * (from + 1) <= n,
        ;
        lemma_isqrt_from(n, from + 1);
    }
}

/// The defining property of the integer square root.
pub proof fn lemma_isqrt(n: int)
    requires
        0 <= n,
    ensures
        0 <= isqrt_spec(n),
        isqrt_spec(n) * isqrt_spec(n) <= n,
        n < (isqrt_spec(n) + 1) * (isqrt_spec(n) + 1),
{
    lemma_isqrt_from(n, 0);
}

/// The square root is monotone, so a diagonal is never shorter than either
/// side: `isqrt_spec(w * w + h * h) >= h`.
pub proof fn lemma_isqrt_at_least(n: int, k: int)
    requires
        0 <= k,
        k * k <= n,
    ensures
        isqrt_spec(n) >= k,
{
    lemma_isqrt(n);
    let s = isqrt_spec(n);
    if s < k {
        assert((s + 1) * (s + 1) <= k * k) by (nonlinear_arith)
            requires
                0 <= s,
                s + 1 <= k,
        ;
    }
}

/// Binary-search integer square root.
pub fn isqrt64(n: u64) -> (r: u64)
    requires
        n <= 0x10000000000000,
    ensures
        r == isqrt_spec(n as int),
{
    let mut lo: u64 = 0;
    let mut hi: u64 = 0x4000001;
    proof {
        assert((0x4000001u64 as int) * (0x4000001u64 as int) > n) by (nonlinear_arith)
            requires
                n <= 0x10000000000000,
        ;
    }
    while lo + 1 < hi
        invariant
            0 <= lo < hi <= 0x4000001,
            lo * lo <= n,
            n < hi * hi,
        decreases hi - lo,
    {
        let mid: u64 = lo + (hi - lo) / 2;
        proof {
            assert(mid * mid <= 0x4000001u64 * 0x4000001u64) by (nonlinear_arith)
                requires
                    0 <= mid <= 0x4000001u64,
            ;
        }
        if mid * mid <= n {
            lo = mid;
        } else {
            hi = mid;
        }
    }
    proof {
        lemma_isqrt(n as int);
        let s = isqrt_spec(n as int);
        assert(s < hi) by {
            if s >= hi {
                assert(hi * hi <= s * s) by (nonlinear_arith)
                    requires
                        0 <= hi <= s,
                ;
            }
        }
        assert(lo <= s) by {
            if lo > s {
                assert((s + 1) * (s + 1) <= lo * lo) by (nonlinear_arith)
                    requires
                        0 <= s,
                        s + 1 <= lo,
                ;
            }
        }
    }
    lo
}

/// A rational sine approximation on thousandths for half a turn:
/// `sin(x degrees) * 1000` for `0 <= x <= 180`, computed from
/// `4 * x * (180 - x)` scaled against `40500 - x * (180 - x)`.
pub open spec fn sin_milli_half(x: int) -> int {
    4000 * (x * (180 - x)) / (40500 - x * (180 - x))
}

/// Sine in thousandths for a full turn of whole degrees: the second half
/// turn mirrors the first with its sign flipped.
pub open spec fn sin_milli_spec(deg: int) -> int {
    if deg <= 180 {
        sin_milli_half(deg)
    } else {
        -sin_milli_half(deg - 180)
    }
}

/// Cosine in thousandths, as the sine a quarter turn ahead.
pub open spec fn cos_milli_spec(deg: int) -> int {
    sin_milli_spec((deg + 90) % 360)
}

pub proof fn lemma_sin_half_range(x: int)
    requires
        0 <= x <= 180,
    ensures
        0 <= sin_milli_half(x) <= 1000,
        x == 0 ==> sin_milli_half(x) == 0,
        x == 90 ==> sin_milli_half(x) == 1000,
        x == 180 ==> sin_milli_half(x) == 0,
{
    let t = x * (180 - x);
    assert(0 <= t <= 8100) by (nonlinear_arith)
        requires
            0 <= x <= 180,
            t == x * (180 - x),
    ;
    assert(4000 * t / (40500 - t) >= 0) by (nonlinear_arith)
        requires
            0 <= t <= 8100,
    ;
    assert(4000 * t / (40500 - t) <= 1000) by (nonlinear_arith)
        requires
            0 <= t <= 8100,
    ;
    assert(sin_milli_half(0) == 0);
    assert(90 * (180 - 90) == 8100) by (nonlinear_arith);
    assert(sin_milli_half(90) == 1000);
    assert(180 * (180 - 180) == 0) by (nonlinear_arith);
    assert(sin_milli_half(180) == 0);
}

pub proof fn lemma_sin_range(deg: int)
    requires
        0 <= deg < 360,
    ensures
        -1000 <= sin_milli_spec(deg) <= 1000,
{
    if deg <= 180 {
        lemma_sin_half_range(deg);
    } else {
        lemma_sin_half_range(deg - 180);
    }
}

pub proof fn lemma_cos_range(deg: int)
    requires
        0 <= deg < 360,
    ensures
        -1000 <= cos_milli_spec(deg) <= 1000,
{
    lemma_sin_range((deg + 90) % 360);
}

/// Any whole-degree angle reduced to `0..360`.
pub open spec fn normalize_degrees_spec(angle: int) -> int {
    ((angle % 360) + 360) % 360
}

pub fn normalize_degrees(angle: i32) -> (r: i32)
    ensures
        r == normalize_degrees_spec(angle as int),
        0 <= r < 360,
{
    ((angle % 360) + 360) % 360
}

/// Sine in thousandths of a normalized whole-degree angle.
pub fn sin_milli(deg: i32) -> (r: i32)
    requires
        0 <= deg < 360,
    ensures
        r == sin_milli_spec(deg as int),
        -1000 <= r <= 1000,
{
    proof {
        lemma_sin_range(deg as int);
    }
    if deg <= 180 {
        proof {
            assert(0 <= deg * (180 - deg) <= 8100) by (nonlinear_arith)
                requires
                    0 <= deg <= 180,
            ;
        }
        let t: i32 = deg * (180 - deg);
        4000 * t / (40500 - t)
    } else {
        let x: i32 = deg - 180;
        proof {
            assert(0 <= x * (180 - x) <= 8100) by (nonlinear_arith)
                requires
                    0 <= x <= 180,
            ;
        }
        let t: i32 = x * (180 - x);
        -(4000 * t / (40500 - t))
    }
}

/// Cosine in thousandths of a normalized whole-degree angle.
pub fn cos_milli(deg: i32) -> (r: i32)
    requires
        0 <= deg < 360,
    ensures
        r == cos_milli_spec(deg as int),
        -1000 <= r <= 1000,
{
    proof {
        lemma_cos_range(deg as int);
    }
    sin_milli((deg + 90) % 360)
}

} // verus!
