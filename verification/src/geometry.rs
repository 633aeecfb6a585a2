//! Integer geometry for the simulation: grid cells, world-unit
//! coordinates, squared distances, and the integer square root used to
//! normalize movement vectors.

use vstd::prelude::*;

verus! {

/// Side length of one grid cell, in world units.
pub const BLOCK_SIZE: i64 = 35;

/// Side length of a monster's bounding square, in world units.
pub const MONSTER_SIZE: i64 = 20;

/// Largest magnitude a grid-cell coordinate may have.
pub const CELL_LIMIT: i64 = 1_000_000;

/// Largest magnitude a world-unit coordinate may have.
pub const COORD_LIMIT: i64 = 1_000_000_000;

/// One grid cell of the fixed monster path; the ordered sequence of
/// these defines the route from spawn to base.
#[derive(Clone, Copy, PartialEq, Eq, Structural, Debug)]
pub struct Block {
    pub x: i64,
    pub y: i64,
}

impl Block {
    /// A cell coordinate small enough that every derived world
    /// coordinate stays within `COORD_LIMIT`.
    pub open spec fn in_bounds(self) -> bool {
        -CELL_LIMIT <= self.x <= CELL_LIMIT && -CELL_LIMIT <= self.y <= CELL_LIMIT
    }
}

/// World coordinate of the center of the grid cell with coordinate `c`.
pub open spec fn spec_cell_center(c: int) -> int {
    c * (BLOCK_SIZE as int) + (BLOCK_SIZE as int) / 2
}

/// Center of the grid cell with coordinate `c`, in world units.
pub fn cell_center(c: i64) -> (r: i64)
    requires
        -CELL_LIMIT <= c <= CELL_LIMIT,
    ensures
        r == spec_cell_center(c as int),
        -36_000_000 <= r <= 36_000_000,
{
    c * BLOCK_SIZE + BLOCK_SIZE / 2
}

/// Squared Euclidean distance between `(x1, y1)` and `(x2, y2)`.
pub open spec fn spec_dist2(x1: int, y1: int, x2: int, y2: int) -> int {
    (x1 - x2) * (x1 - x2) + (y1 - y2) * (y1 - y2)
}

/// Squared distance between two points whose coordinates are bounded by
/// `COORD_LIMIT`; the result fits in an `i64` under that bound.
pub fn dist2(x1: i64, y1: i64, x2: i64, y2: i64) -> (r: i64)
    requires
        -1_050_000_000 <= x1 <= 1_050_000_000,
        -1_050_000_000 <= y1 <= 1_050_000_000,
        -1_050_000_000 <= x2 <= 1_050_000_000,
        -1_050_000_000 <= y2 <= 1_050_000_000,
    ensures
        r == spec_dist2(x1 as int, y1 as int, x2 as int, y2 as int),
        0 <= r <= 8_820_000_000_000_000_000,
{
    let dx: i64 = x1 - x2;
    let dy: i64 = y1 - y2;
    proof {
        assert((dx as int) * (dx as int) <= 4_410_000_000_000_000_000 && (dx as int) * (dx as int)
            >= 0) by (nonlinear_arith)
            requires
                -2_100_000_000 <= dx as int <= 2_100_000_000;
        assert((dy as int) * (dy as int) <= 4_410_000_000_000_000_000 && (dy as int) * (dy as int)
            >= 0) by (nonlinear_arith)
            requires
                -2_100_000_000 <= dy as int <= 2_100_000_000;
    }
    dx * dx + dy * dy
}

/// The integer square root: the greatest `r` with `r * r <= n`.
pub open spec fn sqrt_floor(n: int) -> int {
    choose|r: int| 0 <= r && #[trigger] (r * r) <= n && n < (r + 1) * (r + 1)
}

/// Any two values satisfying the square-root characterization agree.
proof fn lemma_sqrt_unique(n: int, a: int, b: int)
    requires
        0 <= a && a * a <= n && n < (a + 1) * (a + 1),
        0 <= b && b * b <= n && n < (b + 1) * (b + 1),
    ensures
        a == b,
{
    assert(a == b) by (nonlinear_arith)
        requires
            0 <= a && a * a <= n && n < (a + 1) * (a + 1),
            0 <= b && b * b <= n && n < (b + 1) * (b + 1);
}

/// Integer square root by binary search.
pub fn isqrt(n: i64) -> (r: i64)
    requires
        0 <= n,
    ensures
        r == sqrt_floor(n as int),
        0 <= r <= 3_037_000_499,
        r * r <= n,
        n < (r + 1) * (r + 1),
{
    let mut lo: i64 = 0;
    let mut hi: i64 = 3_037_000_500;
    proof {
        assert(3_037_000_500int * 3_037_000_500int > 0x7fff_ffff_ffff_ffff) by (nonlinear_arith);
    }
    while lo + 1 < hi
        invariant
            0 <= lo < hi <= 3_037_000_500,
            lo * lo <= n as int,
            (hi as int) * (hi as int) > n as int,
        decreases hi - lo,
    {
        let mid: i64 = lo + (hi - lo) / 2;
        if mid <= n / mid {
            proof {
                assert((mid as int) * (mid as int) <= n as int) by (nonlinear_arith)
                    requires
                        0 < mid as int,
                        0 <= n as int,
                        mid as int <= (n as int) / (mid as int);
            }
            lo = mid;
        } else {
            proof {
                assert((mid as int) * (mid as int) > n as int) by (nonlinear_arith)
                    requires
                        0 < mid as int,
                        0 <= n as int,
                        mid as int > (n as int) / (mid as int);
            }
            hi = mid;
        }
    }
    proof {
        let w = choose|r: int| 0 <= r && #[trigger] (r * r) <= n as int && (n as int) < (r + 1) * (
        r + 1);
        assert(0 <= lo as int && (lo as int) * (lo as int) <= n as int && (n as int) < ((
        lo as int) + 1) * ((lo as int) + 1));
        lemma_sqrt_unique(n as int, w, lo as int);
    }
    lo
}

/// One signed component of a movement of length `step` along the vector
/// whose component is `delta` and whose length is `dist`: the component
/// is scaled by `step / dist`, rounding its magnitude down.
pub open spec fn spec_move_component(delta: int, step: int, dist: int) -> int {
    if delta >= 0 {
        (delta * step) / dist
    } else {
        -((-delta * step) / dist)
    }
}

/// The scaled component never exceeds the original component in
/// magnitude when the step is no longer than the distance.
pub proof fn lemma_move_component_bounded(delta: int, step: int, dist: int)
    requires
        0 < dist,
        0 <= step <= dist,
    ensures
        delta >= 0 ==> 0 <= spec_move_component(delta, step, dist) <= delta,
        delta < 0 ==> delta <= spec_move_component(delta, step, dist) <= 0,
{
    if delta >= 0 {
        assert(0 <= (delta * step) / dist && (delta * step) / dist <= delta) by (nonlinear_arith)
            requires
                0 < dist,
                0 <= step <= dist,
                0 <= delta;
    } else {
        assert(0 <= (-delta * step) / dist && (-delta * step) / dist <= -delta)
            by (nonlinear_arith)
            requires
                0 < dist,
                0 <= step <= dist,
                0 < -delta;
    }
}

/// Computes `spec_move_component(delta, step, dist)` on bounded inputs.
pub fn move_component(delta: i64, step: i64, dist: i64) -> (r: i64)
    requires
        0 < dist <= 3_037_000_499,
        0 <= step <= dist,
        -COORD_LIMIT * 2 <= delta <= COORD_LIMIT * 2,
    ensures
        r == spec_move_component(delta as int, step as int, dist as int),
        delta >= 0 ==> 0 <= r <= delta,
        delta < 0 ==> delta <= r <= 0,
{
    proof {
        lemma_move_component_bounded(delta as int, step as int, dist as int);
        assert((delta as int) >= 0 ==> (delta as int) * (step as int) <= 2_000_000_000i64
            * 3_037_000_499i64) by (nonlinear_arith)
            requires
                0 <= step as int <= 3_037_000_499,
                (delta as int) <= 2_000_000_000;
        assert((delta as int) < 0 ==> (-(delta as int)) * (step as int) <= 2_000_000_000i64
            * 3_037_000_499i64) by (nonlinear_arith)
            requires
                0 <= step as int <= 3_037_000_499,
                -(delta as int) <= 2_000_000_000;
        assert(2_000_000_000int * 3_037_000_499int == 6_074_000_998_000_000_000) by (nonlinear_arith);
    }
    if delta >= 0 {
        (delta * step) / dist
    } else {
        -((-delta * step) / dist)
    }
}

} // verus!
