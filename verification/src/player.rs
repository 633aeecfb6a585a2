//! The player's economy and health pool.
//!
//! Gold is an unsigned count: every spend is guarded by an
//! affordability check, so it can never go negative.  Health is drained
//! when a monster reaches the base and is clamped at zero.

use vstd::prelude::*;

verus! {

/// Gold the player starts a session with.
pub const STARTING_GOLD: u64 = 300;

/// Health the player starts a session with.
pub const STARTING_HEALTH: i64 = 100;

/// The player's mutable session state: remaining health and gold.
#[derive(Clone, Copy, PartialEq, Eq, Structural, Debug)]
pub struct Player {
    pub health: i64,
    pub gold: u64,
}

/// Health after taking `amount` damage, clamped at zero so the pool
/// never shows a negative value.
pub open spec fn spec_health_damaged(health: int, amount: int) -> int {
    if health - amount > 0 {
        health - amount
    } else {
        0
    }
}

impl Player {
    pub fn new() -> (p: Player)
        ensures
            p.gold == STARTING_GOLD,
            p.health == STARTING_HEALTH,
    {
        Player { health: STARTING_HEALTH, gold: STARTING_GOLD }
    }

    /// Deducts `cost` from the gold reserve if and only if the player
    /// can afford it; an unaffordable spend changes nothing.
    pub fn spend_gold(&mut self, cost: u64) -> (ok: bool)
        ensures
            ok <==> old(self).gold >= cost,
            ok ==> final(self).gold == old(self).gold - cost,
            !ok ==> final(self).gold == old(self).gold,
            final(self).health == old(self).health,
    {
        if self.gold >= cost {
            self.gold = self.gold - cost;
            true
        } else {
            false
        }
    }

    /// Adds collected gold to the reserve.
    pub fn add_gold(&mut self, amount: u64)
        requires
            old(self).gold + amount <= u64::MAX,
        ensures
            final(self).gold == old(self).gold + amount,
            final(self).health == old(self).health,
    {
        self.gold = self.gold + amount;
    }

    /// Drains `amount` health, stopping at zero.
    pub fn take_damage(&mut self, amount: u32)
        requires
            old(self).health <= STARTING_HEALTH,
        ensures
            final(self).health == spec_health_damaged(old(self).health as int, amount as int),
            final(self).gold == old(self).gold,
    {
        if self.health > amount as i64 {
            self.health = self.health - amount as i64;
        } else {
            self.health = 0;
        }
    }
}

/// One operation on the player's gold reserve: a spend (tower
/// placement) or a collection (a picked-up gold pile).
pub enum GoldOp {
    Spend(u64),
    Collect(u64),
}

/// Gold remaining after applying `ops` in order to a starting reserve:
/// a spend is applied only when affordable, a collection always adds.
pub open spec fn gold_after(start: int, ops: Seq<GoldOp>) -> int
    decreases ops.len(),
{
    if ops.len() == 0 {
        start
    } else {
        let prev = gold_after(start, ops.drop_last());
        match ops.last() {
            GoldOp::Spend(cost) => if prev >= cost {
                prev - cost
            } else {
                prev
            },
            GoldOp::Collect(value) => prev + value,
        }
    }
}

/// Total of the spends in `ops` that were applied (affordable at their
/// point in the sequence).
pub open spec fn spent_total(start: int, ops: Seq<GoldOp>) -> int
    decreases ops.len(),
{
    if ops.len() == 0 {
        0
    } else {
        let prev = gold_after(start, ops.drop_last());
        spent_total(start, ops.drop_last()) + match ops.last() {
            GoldOp::Spend(cost) => if prev >= cost {
                cost as int
            } else {
                0
            },
            GoldOp::Collect(value) => 0,
        }
    }
}

/// Total of the collected pile values in `ops`.
pub open spec fn collected_total(ops: Seq<GoldOp>) -> int
    decreases ops.len(),
{
    if ops.len() == 0 {
        0
    } else {
        collected_total(ops.drop_last()) + match ops.last() {
            GoldOp::Spend(cost) => 0,
            GoldOp::Collect(value) => value as int,
        }
    }
}

/// Gold conservation: after any sequence of spends and collections the
/// reserve equals the starting gold, minus the sum of the applied spend
/// amounts, plus the sum of the collected pile values — and it is never
/// negative.
pub proof fn lemma_gold_conservation(start: int, ops: Seq<GoldOp>)
    requires
        start >= 0,
    ensures
        gold_after(start, ops) == start - spent_total(start, ops) + collected_total(ops),
        gold_after(start, ops) >= 0,
    decreases ops.len(),
{
    if ops.len() > 0 {
        lemma_gold_conservation(start, ops.drop_last());
    }
}

} // verus!
