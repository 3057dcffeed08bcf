//! Integer geometry for the sampler: squared distance between two pointer
//! positions, an integer square root, and the speed estimate derived from
//! them. Positions are pixel coordinates and time deltas are milliseconds, so
//! a speed in pixels per second is `sqrt(dist_sq * 1_000_000) / dt_ms`.

use vstd::prelude::*;

verus! {

/// Squared Euclidean distance between two pixel positions.
pub open spec fn dist_sq(p1: (i32, i32), p2: (i32, i32)) -> int {
    (p2.0 - p1.0) * (p2.0 - p1.0) + (p2.1 - p1.1) * (p2.1 - p1.1)
}

/// `r` is the integer square root of `n`, rounded down.
pub open spec fn is_sqrt_floor(n: int, r: int) -> bool {
    0 <= r && r * r <= n && n < (r + 1) * (r + 1)
}

/// The integer square root of `n`, rounded down. Meaningful for `n >= 0`,
/// where `lemma_sqrt_floor_exists` shows it satisfies `is_sqrt_floor`.
pub open spec fn sqrt_floor(n: int) -> int {
    choose|r: int| is_sqrt_floor(n, r)
}

/// Speed in pixels per second of a move from `p1` to `p2` over `dt_ms`
/// milliseconds: the distance in pixels, scaled to a per-second rate, rounded
/// down to a whole number of pixels per second.
pub open spec fn speed_of(p1: (i32, i32), p2: (i32, i32), dt_ms: int) -> int {
    sqrt_floor(dist_sq(p1, p2) * 1000000) / dt_ms
}

/// At most one integer is the rounded-down square root of `n`.
pub proof fn lemma_sqrt_floor_unique(n: int, r1: int, r2: int)
    requires
        is_sqrt_floor(n, r1),
        is_sqrt_floor(n, r2),
    ensures
        r1 == r2,
{
    assert(r1 == r2) by (nonlinear_arith)
        requires
            0 <= r1,
            0 <= r2,
            r1 * r1 <= n,
            n < (r1 + 1) * (r1 + 1),
            r2 * r2 <= n,
            n < (r2 + 1) * (r2 + 1);
}

/// Every nonnegative integer has a rounded-down square root, and `sqrt_floor`
/// denotes it.
pub proof fn lemma_sqrt_floor_exists(n: int)
    requires
        n >= 0,
    ensures
        is_sqrt_floor(n, sqrt_floor(n)),
    decreases n,
{
    if n == 0 {
        assert(is_sqrt_floor(0, 0));
    } else {
        lemma_sqrt_floor_exists(n - 1);
        let r = sqrt_floor(n - 1);
        if (r + 1) * (r + 1) <= n {
            assert(is_sqrt_floor(n, r + 1)) by (nonlinear_arith)
                requires
                    0 <= r,
                    r * r <= n - 1,
                    n - 1 < (r + 1) * (r + 1),
                    (r + 1) * (r + 1) <= n;
        } else {
            assert(is_sqrt_floor(n, r));
        }
    }
}

/// A witness for `is_sqrt_floor` pins down the value of `sqrt_floor`.
pub proof fn lemma_sqrt_floor_is(n: int, r: int)
    requires
        is_sqrt_floor(n, r),
    ensures
        sqrt_floor(n) == r,
{
    assert(is_sqrt_floor(n, sqrt_floor(n)));
    lemma_sqrt_floor_unique(n, sqrt_floor(n), r);
}

/// Integer square root, rounded down, by bisection.
pub fn isqrt_u128(n: u128) -> (r: u128)
    ensures
        is_sqrt_floor(n as int, r as int),
        r < 0x1_0000_0000_0000_0000u128,
{
    let mut lo: u128 = 0;
    let mut hi: u128 = 0x1_0000_0000_0000_0000u128;
    proof {
        assert((0x1_0000_0000_0000_0000 as int) * (0x1_0000_0000_0000_0000 as int) > n as int);
    }
    while hi - lo > 1
        invariant
            lo < hi <= 0x1_0000_0000_0000_0000u128,
            (lo as int) * (lo as int) <= n as int,
            (n as int) < (hi as int) * (hi as int),
        decreases hi - lo,
    {
        let mid: u128 = lo + (hi - lo) / 2;
        proof {
            assert(lo < mid < hi);
            assert((mid as int) * (mid as int) <= u128::MAX as int) by (nonlinear_arith)
                requires
                    0 <= (mid as int) < 0x1_0000_0000_0000_0000;
        }
        if mid * mid <= n {
            lo = mid;
        } else {
            hi = mid;
        }
    }
    proof {
        assert(hi == lo + 1);
    }
    lo
}

/// Speed in pixels per second of a move from `p1` to `p2` over `dt_ms`
/// milliseconds, rounded down: `sqrt(dist_sq * 1_000_000) / dt_ms`, which is
/// `1000 * distance_px / dt_ms` up to rounding.
pub fn compute_speed(p1: (i32, i32), p2: (i32, i32), dt_ms: u64) -> (speed: u64)
    requires
        dt_ms > 0,
    ensures
        speed == speed_of(p1, p2, dt_ms as int),
{
    let dx: i64 = p2.0 as i64 - p1.0 as i64;
    let dy: i64 = p2.1 as i64 - p1.1 as i64;
    proof {
        assert(0 <= (dx as int) * (dx as int) <= 0x1_0000_0000_0000_0000) by (nonlinear_arith)
            requires
                -0x1_0000_0000 <= (dx as int) <= 0x1_0000_0000;
        assert(0 <= (dy as int) * (dy as int) <= 0x1_0000_0000_0000_0000) by (nonlinear_arith)
            requires
                -0x1_0000_0000 <= (dy as int) <= 0x1_0000_0000;
    }
    let dx2: i128 = (dx as i128) * (dx as i128);
    let dy2: i128 = (dy as i128) * (dy as i128);
    let scaled: u128 = ((dx2 + dy2) as u128) * 1000000;
    let root: u128 = isqrt_u128(scaled);
    let speed128: u128 = root / (dt_ms as u128);
    proof {
        vstd::arithmetic::div_mod::lemma_div_pos_is_pos(root as int, dt_ms as int);
        vstd::arithmetic::div_mod::lemma_div_is_ordered_by_denominator(
            root as int,
            1,
            dt_ms as int,
        );
        lemma_sqrt_floor_is(scaled as int, root as int);
        assert(scaled as int == dist_sq(p1, p2) * 1000000);
    }
    speed128 as u64
}

} // verus!
