//! Plane geometry on fixed-point coordinates: vectors, axis-aligned overlap
//! tests, and the integer square root used by the motion integrator.

use vstd::prelude::*;

verus! {

/// Largest magnitude a stored coordinate may take, in milli-units.
pub const POS_LIMIT: i64 = 1_000_000_000_000;

/// Largest magnitude of an entity position that takes part in path motion.
pub const PATH_POS_LIMIT: i64 = 1_000_000_000;

/// Largest extent of a bounding box, in milli-units.
pub const SIZE_LIMIT: i64 = 1_000_000_000;

/// A point or displacement of the plane, in milli-units.
#[derive(Clone, Copy, PartialEq, Eq, Structural, Debug)]
pub struct Vec2 {
    pub x: i64,
    pub y: i64,
}

impl Vec2 {
    /// Both coordinates small enough to store.
    pub open spec fn bounded(self, limit: int) -> bool {
        -limit <= self.x <= limit && -limit <= self.y <= limit
    }
}

/// Truncating division of a possibly negative dividend by a positive divisor,
/// as a spec-level formula (quotient rounded toward zero).
pub open spec fn div_trunc_spec(a: int, b: int) -> int {
    if a >= 0 {
        a / b
    } else {
        -((-a) / b)
    }
}

/// Truncating division by a positive divisor.
pub fn div_trunc(a: i64, b: i64) -> (r: i64)
    requires
        b > 0,
        a > i64::MIN,
    ensures
        r == div_trunc_spec(a as int, b as int),
{
    if a >= 0 {
        (((a as u64) / (b as u64)) as i64)
    } else {
        let m = ((-a) as u64) / (b as u64);
        -(m as i64)
    }
}

/// Absolute difference of two coordinates.
pub open spec fn abs_diff(a: int, b: int) -> int {
    if a >= b {
        a - b
    } else {
        b - a
    }
}

/// Two axis-aligned boxes overlap when, on both axes, twice the distance of
/// their centers is less than the sum of their extents (strict, so boxes that
/// merely touch do not collide).
pub open spec fn boxes_overlap(a_pos: Vec2, a_size: Vec2, b_pos: Vec2, b_size: Vec2) -> bool {
    2 * abs_diff(a_pos.x as int, b_pos.x as int) < a_size.x + b_size.x
        && 2 * abs_diff(a_pos.y as int, b_pos.y as int) < a_size.y + b_size.y
}

/// Axis-aligned overlap test between two centered boxes.
pub fn collide(a_pos: Vec2, a_size: Vec2, b_pos: Vec2, b_size: Vec2) -> (r: bool)
    requires
        a_pos.bounded(POS_LIMIT as int),
        b_pos.bounded(POS_LIMIT as int),
        0 <= a_size.x <= SIZE_LIMIT && 0 <= a_size.y <= SIZE_LIMIT,
        0 <= b_size.x <= SIZE_LIMIT && 0 <= b_size.y <= SIZE_LIMIT,
    ensures
        r == boxes_overlap(a_pos, a_size, b_pos, b_size),
{
    let dx = if a_pos.x >= b_pos.x { a_pos.x - b_pos.x } else { b_pos.x - a_pos.x };
    let dy = if a_pos.y >= b_pos.y { a_pos.y - b_pos.y } else { b_pos.y - a_pos.y };
    2 * dx < a_size.x + b_size.x && 2 * dy < a_size.y + b_size.y
}

/// Floor of the square root, as the unique non-negative `r` with
/// `r * r <= n < (r + 1) * (r + 1)`.
pub open spec fn sqrt_floor(n: int) -> int {
    choose|r: int| r >= 0 && #[trigger] (r * r) <= n && n < (r + 1) * (r + 1)
}

/// There is only one non-negative integer whose square brackets `n`.
pub proof fn lemma_sqrt_floor_unique(n: int, r: int)
    requires
        r >= 0,
        r * r <= n,
        n < (r + 1) * (r + 1),
    ensures
        sqrt_floor(n) == r,
{
    assert(exists|q: int| q >= 0 && #[trigger] (q * q) <= n && n < (q + 1) * (q + 1)) by {
        assert(r >= 0 && r * r <= n && n < (r + 1) * (r + 1));
    }
    let s = sqrt_floor(n);
    assert(s >= 0 && s * s <= n && n < (s + 1) * (s + 1));
    if s < r {
        assert((s + 1) * (s + 1) <= r * r) by (nonlinear_arith)
            requires
                0 <= s < r,
        ;
    }
    if r < s {
        assert((r + 1) * (r + 1) <= s * s) by (nonlinear_arith)
            requires
                0 <= r < s,
        ;
    }
}

/// Floor of the square root by binary search.
pub fn isqrt(n: u64) -> (r: u64)
    requires
        n < 9_000_000_000_000_000_000,
    ensures
        r == sqrt_floor(n as int),
        r * r <= n,
        n < (r + 1) * (r + 1),
        r <= 3_000_000_000,
{
    let mut lo: u64 = 0;
    let mut hi: u64 = 3_000_000_001;
    proof {
        assert((3_000_000_001u64 as int) * (3_000_000_001u64 as int) > n as int) by (nonlinear_arith)
            requires
                n < 9_000_000_000_000_000_000,
        ;
    }
    while lo + 1 < hi
        invariant
            0 <= lo < hi <= 3_000_000_001,
            lo * lo <= n,
            n < hi * hi,
        decreases hi - lo,
    {
        let mid = lo + (hi - lo) / 2;
        proof {
            assert(mid * mid <= 9_000_000_000_000_000_000) by (nonlinear_arith)
                requires
                    0 <= mid <= 3_000_000_000,
            ;
        }
        if mid * mid <= n {
            lo = mid;
        } else {
            hi = mid;
        }
    }
    proof {
        lemma_sqrt_floor_unique(n as int, lo as int);
    }
    lo
}

/// Remainder of a non-negative value by a positive divisor.
pub fn rem_pos(a: i64, b: i64) -> (r: i64)
    requires
        a >= 0,
        b > 0,
    ensures
        r == a as int % b as int,
        0 <= r < b,
{
    (((a as u64) % (b as u64)) as i64)
}

/// Clamp `v` into `[lo, hi]`.
pub open spec fn clamp_spec(v: int, lo: int, hi: int) -> int {
    if v < lo {
        lo
    } else if v > hi {
        hi
    } else {
        v
    }
}

/// Clamp a coordinate into a closed interval.
pub fn clamp_i64(v: i64, lo: i64, hi: i64) -> (r: i64)
    requires
        lo <= hi,
    ensures
        r == clamp_spec(v as int, lo as int, hi as int),
{
    if v < lo {
        lo
    } else if v > hi {
        hi
    } else {
        v
    }
}

} // verus!
