//! Integer geometry of the playfield: positions in whole world units,
//! squared distances, an integer square root for segment lengths, and
//! fixed-point linear interpolation for the echo's position on a segment.

use vstd::prelude::*;
use vstd::arithmetic::div_mod::{lemma_div_is_ordered, lemma_div_by_multiple};
use vstd::arithmetic::mul::lemma_mul_inequality;

verus! {

/// Progress along a path segment is measured in millionths: 0 is the
/// segment's first endpoint, `PROGRESS_ONE` its second.
pub const PROGRESS_ONE: u64 = 1000000;

/// Coordinates are kept well inside the i64 range so that squared
/// distances and interpolation products cannot overflow.
pub const COORD_LIMIT: i64 = 0x10_0000;

/// A point of the 2D playfield, in whole world units.
#[derive(Clone, Copy, Debug, PartialEq, Eq, Structural)]
pub struct Pos {
    pub x: i64,
    pub y: i64,
}

impl Pos {
    /// Both coordinates are within the playfield's coordinate limit.
    pub open spec fn in_bounds(self) -> bool {
        &&& -COORD_LIMIT <= self.x <= COORD_LIMIT
        &&& -COORD_LIMIT <= self.y <= COORD_LIMIT
    }

    pub fn new(x: i64, y: i64) -> (p: Pos)
        ensures
            p == (Pos { x, y }),
    {
        Pos { x, y }
    }
}

/// The square of the Euclidean distance between two points.
pub open spec fn dist_sq_spec(a: Pos, b: Pos) -> int {
    (b.x - a.x) * (b.x - a.x) + (b.y - a.y) * (b.y - a.y)
}

/// Squared distance between two in-bounds points.
pub fn dist_sq(a: Pos, b: Pos) -> (d: u64)
    requires
        a.in_bounds(),
        b.in_bounds(),
    ensures
        d == dist_sq_spec(a, b),
{
    let dx: i64 = b.x - a.x;
    let dy: i64 = b.y - a.y;
    proof {
        assert(0 <= dx * dx <= 0x400_0000_0000) by (nonlinear_arith)
            requires -0x20_0000 <= dx <= 0x20_0000;
        assert(0 <= dy * dy <= 0x400_0000_0000) by (nonlinear_arith)
            requires -0x20_0000 <= dy <= 0x20_0000;
    }
    (dx * dx) as u64 + (dy * dy) as u64
}

/// The integer square root: the largest r with r * r <= n.
pub open spec fn isqrt_spec(n: nat) -> nat
    decreases n,
{
    if n == 0 {
        0
    } else {
        let r = isqrt_spec((n - 1) as nat);
        if (r + 1) * (r + 1) <= n {
            r + 1
        } else {
            r
        }
    }
}

/// `isqrt_spec` is characterized by the two bounds r * r <= n < (r + 1) * (r + 1).
pub proof fn lemma_isqrt_bounds(n: nat)
    ensures
        isqrt_spec(n) * isqrt_spec(n) <= n,
        n < (isqrt_spec(n) + 1) * (isqrt_spec(n) + 1),
    decreases n,
{
    let s = isqrt_spec(n);
    if n > 0 {
        lemma_isqrt_bounds((n - 1) as nat);
        let r = isqrt_spec((n - 1) as nat);
        if (r + 1) * (r + 1) <= n {
            assert(s == r + 1);
            assert(n == (r + 1) * (r + 1));
            assert((r + 1) * (r + 1) < (r + 2) * (r + 2)) by (nonlinear_arith);
        } else {
            assert(s == r);
        }
    } else {
        assert(n == 0);
        assert(s == 0);
        assert(s * s == 0) by (nonlinear_arith)
            requires s == 0;
        assert((s + 1) * (s + 1) == 1) by (nonlinear_arith)
            requires s == 0;
    }
}

/// Any r satisfying the two bounds is the integer square root.
pub proof fn lemma_isqrt_unique(n: nat, r: nat)
    requires
        r * r <= n,
        n < (r + 1) * (r + 1),
    ensures
        r == isqrt_spec(n),
{
    lemma_isqrt_bounds(n);
    let s = isqrt_spec(n);
    if r < s {
        assert((r + 1) * (r + 1) <= s * s) by (nonlinear_arith)
            requires r + 1 <= s;
    }
    if s < r {
        assert((s + 1) * (s + 1) <= r * r) by (nonlinear_arith)
            requires s + 1 <= r;
    }
}

/// Integer square root by binary search.
pub fn isqrt(n: u64) -> (r: u64)
    ensures
        r == isqrt_spec(n as nat),
        r * r <= n < (r + 1) * (r + 1),
{
    let mut lo: u64 = 0;
    let mut hi: u64 = 0x1_0000_0000;
    while lo + 1 < hi
        invariant
            lo < hi <= 0x1_0000_0000,
            lo * lo <= n,
            n < hi * hi,
        decreases hi - lo,
    {
        let mid: u64 = lo + (hi - lo) / 2;
        proof {
            assert((mid as int) * (mid as int) <= 0x1_0000_0000_0000_0000) by (nonlinear_arith)
                requires 0 <= mid <= 0x1_0000_0000;
        }
        if (mid as u128) * (mid as u128) <= n as u128 {
            lo = mid;
        } else {
            hi = mid;
        }
    }
    proof {
        lemma_isqrt_unique(n as nat, lo as nat);
    }
    lo
}

/// One interpolated coordinate: p millionths of the way from a to b,
/// rounded toward a.
pub open spec fn lerp_coord_spec(a: int, b: int, p: int) -> int {
    if b >= a {
        a + (b - a) * p / (PROGRESS_ONE as int)
    } else {
        a - (a - b) * p / (PROGRESS_ONE as int)
    }
}

/// A scaled fraction of a small magnitude: diff * p / PROGRESS_ONE,
/// which never exceeds diff itself.
fn scaled_fraction(diff: u64, p: u64) -> (m: u64)
    requires
        diff <= 0x20_0000,
        p <= PROGRESS_ONE,
    ensures
        m == (diff as int) * (p as int) / (PROGRESS_ONE as int),
        m <= diff,
{
    proof {
        assert(diff * p <= 0x20_0000 * 1000000) by (nonlinear_arith)
            requires 0 <= diff <= 0x20_0000 && 0 <= p <= 1000000;
        lemma_mul_inequality(p as int, PROGRESS_ONE as int, diff as int);
        lemma_div_is_ordered(
            (diff as int) * (p as int),
            (diff as int) * (PROGRESS_ONE as int),
            PROGRESS_ONE as int,
        );
        lemma_div_by_multiple(diff as int, PROGRESS_ONE as int);
    }
    diff * p / PROGRESS_ONE
}

/// Linear interpolation of one coordinate in fixed point.
pub fn lerp_coord(a: i64, b: i64, p: u64) -> (c: i64)
    requires
        -COORD_LIMIT <= a <= COORD_LIMIT,
        -COORD_LIMIT <= b <= COORD_LIMIT,
        p <= PROGRESS_ONE,
    ensures
        c == lerp_coord_spec(a as int, b as int, p as int),
{
    if b >= a {
        let m: u64 = scaled_fraction((b - a) as u64, p);
        a + (m as i64)
    } else {
        let m: u64 = scaled_fraction((a - b) as u64, p);
        a - (m as i64)
    }
}

/// The interpolated point p millionths of the way from a to b.
pub open spec fn lerp_pos_spec(a: Pos, b: Pos, p: int) -> Pos {
    Pos {
        x: lerp_coord_spec(a.x as int, b.x as int, p) as i64,
        y: lerp_coord_spec(a.y as int, b.y as int, p) as i64,
    }
}

/// Linear interpolation between two in-bounds points.
pub fn lerp_pos(a: Pos, b: Pos, p: u64) -> (c: Pos)
    requires
        a.in_bounds(),
        b.in_bounds(),
        p <= PROGRESS_ONE,
    ensures
        c == lerp_pos_spec(a, b, p as int),
{
    Pos { x: lerp_coord(a.x, b.x, p), y: lerp_coord(a.y, b.y, p) }
}

} // verus!
