//! Gold piles: collectible rewards dropped where a monster dies.

use vstd::prelude::*;

verus! {

/// Gold a pile dropped by a killed monster is worth.
pub const GOLD_PILE_VALUE: u64 = 10;

/// A dropped reward lying at a world position, convertible to player
/// gold when collected.
#[derive(Clone, Copy, PartialEq, Eq, Structural, Debug)]
pub struct GoldPile {
    pub x: i64,
    pub y: i64,
    pub value: u64,
}

impl GoldPile {
    pub fn new(x: i64, y: i64, value: u64) -> (p: GoldPile)
        ensures
            p == (GoldPile { x, y, value }),
    {
        GoldPile { x, y, value }
    }
}

} // verus!
