//! Mapping between game space and a viewport, as an exact rational
//! scale per axis, and small shared direction values.

use vstd::prelude::*;

verus! {

/// The per-axis scale between game space and the viewport, as the
/// ratio `num / den` (for instance the screen width over the default
/// width).  A viewport coordinate is a game coordinate times the
/// ratio, rounded down.
#[derive(Clone, Copy, PartialEq, Eq, Structural, Debug)]
pub struct Scale {
    pub x_num: u32,
    pub x_den: u32,
    pub y_num: u32,
    pub y_den: u32,
}

impl Scale {
    /// Maps a viewport point into game space: each axis is divided by
    /// its scale ratio, rounding down.
    pub fn to_game_point(self, x: i64, y: i64) -> (r: (i64, i64))
        requires
            0 < self.x_num,
            0 < self.y_num,
            self.x_den <= 100_000,
            self.y_den <= 100_000,
            0 <= x <= 1_000_000_000,
            0 <= y <= 1_000_000_000,
        ensures
            r.0 == (x * self.x_den) / (self.x_num as int),
            r.1 == (y * self.y_den) / (self.y_num as int),
    {
        proof {
            lemma_scale_product_bounded(x as int, self.x_den as int);
            lemma_scale_product_bounded(y as int, self.y_den as int);
        }
        ((x * self.x_den as i64) / (self.x_num as i64), (y * self.y_den as i64) / (
        self.y_num as i64))
    }

    /// Maps a game point onto the viewport: each axis is multiplied by
    /// its scale ratio, rounding down.
    pub fn to_viewport_point(self, x: i64, y: i64) -> (r: (i64, i64))
        requires
            0 < self.x_den,
            0 < self.y_den,
            self.x_num <= 100_000,
            self.y_num <= 100_000,
            0 <= x <= 1_000_000_000,
            0 <= y <= 1_000_000_000,
        ensures
            r.0 == (x * self.x_num) / (self.x_den as int),
            r.1 == (y * self.y_num) / (self.y_den as int),
    {
        proof {
            lemma_scale_product_bounded(x as int, self.x_num as int);
            lemma_scale_product_bounded(y as int, self.y_num as int);
        }
        ((x * self.x_num as i64) / (self.x_den as i64), (y * self.y_num as i64) / (
        self.y_den as i64))
    }
}

/// A product of a bounded coordinate and a bounded scale term stays
/// far inside the machine range.
proof fn lemma_scale_product_bounded(a: int, b: int)
    requires
        0 <= a <= 1_000_000_000,
        0 <= b <= 100_000,
    ensures
        0 <= a * b <= 100_000_000_000_000,
{
    assert(0 <= a * b <= 100_000_000_000_000) by (nonlinear_arith)
        requires
            0 <= a <= 1_000_000_000,
            0 <= b <= 100_000;
}

/// A horizontal facing, used by the presentation layer to orient a
/// sprite.
#[derive(Clone, Copy, PartialEq, Eq, Structural, Debug)]
pub enum Direction {
    Left,
    Right,
}

} // verus!
