//! Tower targeting and combat: range queries against live monsters,
//! cooldown timers, damage application, and the ninja tower's
//! randomly-targeted strong attack.

use vstd::prelude::*;

use rand::Rng;

use crate::geometry::{spec_cell_center, spec_dist2, cell_center, dist2, CELL_LIMIT};
use crate::gold_pile::{GoldPile, GOLD_PILE_VALUE};
use crate::monster::{Monster, monsters_wf, spec_apply_damage, spec_damage_kills};
use crate::geometry::MONSTER_SIZE;

verus! {

/// Attack range of every tower variant, in world units from the tower
/// center to the monster center.
pub const ATTACK_RANGE: i64 = 100;

/// Milliseconds between regular attacks of a basic tower.
pub const BASIC_ATTACK_TIMER: u32 = 1000;

/// Damage of a basic tower's regular attack.
pub const BASIC_DAMAGE: u32 = 10;

/// Gold cost of placing a basic tower.
pub const BASIC_COST: u64 = 10;

/// Milliseconds between regular attacks of a ninja tower.
pub const NINJA_ATTACK_TIMER: u32 = 2000;

/// Milliseconds between strong attacks of a ninja tower.
pub const NINJA_STRONG_ATTACK_TIMER: u32 = 10_000;

/// Damage of a ninja tower's regular attack.
pub const NINJA_DAMAGE: u32 = 10;

/// Damage of a ninja tower's strong attack.
pub const NINJA_STRONG_ATTACK_DAMAGE: u32 = 1000;

/// Gold cost of placing a ninja tower.
pub const NINJA_COST: u64 = 20;

/// A ninja tower's regular attack timer starts part-way through.
pub const NINJA_INITIAL_COOLDOWN: u32 = 2000;

/// A ninja tower's strong attack timer starts part-way through.
pub const NINJA_INITIAL_STRONG_COOLDOWN: u32 = 5000;

/// The closed set of tower variants.
#[derive(Clone, Copy, PartialEq, Eq, Structural, Debug)]
pub enum TowerType {
    Basic,
    Ninja,
}

/// An entry of the build bar from which the player selects the tower
/// variant to place next.
#[derive(Clone, Copy, PartialEq, Eq, Structural, Debug)]
pub struct TowerIcon {
    pub tower_type: TowerType,
}

/// A placed tower: a variant tag, the grid cell it occupies, and its
/// cooldown timers in milliseconds (zero means ready).  The strong
/// attack timer only ever fires for the ninja variant.
#[derive(Clone, Copy, PartialEq, Eq, Structural, Debug)]
pub struct Tower {
    pub tower_type: TowerType,
    pub x: i64,
    pub y: i64,
    pub attack_cooldown: u32,
    pub strong_attack_cooldown: u32,
}

/// Regular-attack damage of a variant.
pub open spec fn spec_damage_of(t: TowerType) -> int {
    match t {
        TowerType::Basic => BASIC_DAMAGE as int,
        TowerType::Ninja => NINJA_DAMAGE as int,
    }
}

/// Regular-attack interval of a variant, in milliseconds.
pub open spec fn spec_attack_timer_of(t: TowerType) -> int {
    match t {
        TowerType::Basic => BASIC_ATTACK_TIMER as int,
        TowerType::Ninja => NINJA_ATTACK_TIMER as int,
    }
}

/// A cooldown after `elapsed` milliseconds pass: decremented, clamped
/// at zero.
pub open spec fn spec_cooldown_tick(cooldown: int, elapsed: int) -> int {
    if cooldown > elapsed {
        cooldown - elapsed
    } else {
        0
    }
}

impl Tower {
    /// The tower's grid cell lies within the cell bounds.
    pub open spec fn in_bounds(self) -> bool {
        -CELL_LIMIT <= self.x <= CELL_LIMIT && -CELL_LIMIT <= self.y <= CELL_LIMIT
    }

    /// World x-coordinate of the tower's center.
    pub open spec fn spec_center_x(self) -> int {
        spec_cell_center(self.x as int)
    }

    /// World y-coordinate of the tower's center.
    pub open spec fn spec_center_y(self) -> int {
        spec_cell_center(self.y as int)
    }
}

/// Whether the monster's center is in attack range of the tower: its
/// squared distance to the tower center is strictly below the squared
/// range, so a monster exactly on the range boundary is out of range.
pub open spec fn spec_in_range(t: Tower, m: Monster) -> bool {
    spec_dist2(
        t.spec_center_x(),
        t.spec_center_y(),
        m.x + (MONSTER_SIZE as int) / 2,
        m.y + (MONSTER_SIZE as int) / 2,
    ) < (ATTACK_RANGE as int) * (ATTACK_RANGE as int)
}

/// The monster after one damage hit of `amount`.
pub open spec fn spec_damaged(m: Monster, amount: int) -> Monster {
    Monster {
        x: m.x,
        y: m.y,
        speed: m.speed,
        health: spec_apply_damage(m.health as int, amount) as i64,
        move_goal: m.move_goal,
        state: m.state,
    }
}

/// The monster collection after the tower's regular scan: every
/// monster in range takes one hit, all others are untouched.
pub open spec fn spec_scan_monsters(t: Tower, ms: Seq<Monster>, amount: int) -> Seq<Monster> {
    ms.map_values(
        |m: Monster|
            if spec_in_range(t, m) {
                spec_damaged(m, amount)
            } else {
                m
            },
    )
}

/// The gold piles the scan drops, in collection order: one per
/// in-range monster the hit kills, at that monster's position.
pub open spec fn spec_scan_piles(t: Tower, ms: Seq<Monster>, amount: int) -> Seq<GoldPile>
    decreases ms.len(),
{
    if ms.len() == 0 {
        Seq::empty()
    } else {
        let rest = spec_scan_piles(t, ms.drop_last(), amount);
        let m = ms.last();
        if spec_in_range(t, m) && spec_damage_kills(m.health as int, amount) {
            rest.push(GoldPile { x: m.x, y: m.y, value: GOLD_PILE_VALUE })
        } else {
            rest
        }
    }
}

/// Whether any live monster is in range of the tower.
pub open spec fn spec_any_in_range(t: Tower, ms: Seq<Monster>) -> bool {
    exists|i: int| 0 <= i < ms.len() && spec_in_range(t, ms[i])
}

/// The regular-attack phase of one tower update: the attack timer
/// ticks down (clamped at zero), the strong timer too on the ninja
/// variant that owns one; if the attack timer is ready and a monster
/// is in range, every in-range monster takes one hit and the timer
/// resets to the variant's interval; a ready timer with nothing in
/// range stays ready.
pub open spec fn spec_tower_scan_phase(t: Tower, ms: Seq<Monster>, piles: Seq<GoldPile>, elapsed: int) -> (
    Tower,
    Seq<Monster>,
    Seq<GoldPile>,
) {
    let t1 = Tower {
        tower_type: t.tower_type,
        x: t.x,
        y: t.y,
        attack_cooldown: spec_cooldown_tick(t.attack_cooldown as int, elapsed) as u32,
        strong_attack_cooldown: if t.tower_type == TowerType::Ninja {
            spec_cooldown_tick(t.strong_attack_cooldown as int, elapsed) as u32
        } else {
            t.strong_attack_cooldown
        },
    };
    if t1.attack_cooldown == 0 && spec_any_in_range(t1, ms) {
        (
            Tower {
                tower_type: t1.tower_type,
                x: t1.x,
                y: t1.y,
                attack_cooldown: spec_attack_timer_of(t1.tower_type) as u32,
                strong_attack_cooldown: t1.strong_attack_cooldown,
            },
            spec_scan_monsters(t1, ms, spec_damage_of(t1.tower_type)),
            piles + spec_scan_piles(t1, ms, spec_damage_of(t1.tower_type)),
        )
    } else {
        (t1, ms, piles)
    }
}

/// Whether the strong attack fires after the scan phase: only a ninja
/// tower, only with a ready strong timer, and only against a non-empty
/// monster collection — on an empty one the timer stays ready.
pub open spec fn spec_strong_fires(t1: Tower, ms: Seq<Monster>) -> bool {
    t1.tower_type == TowerType::Ninja && t1.strong_attack_cooldown == 0 && ms.len() > 0
}

/// The strong attack against the monster at index `target`: a single
/// large hit regardless of range, a pile dropped if it kills, and the
/// strong timer reset to its interval.
pub open spec fn spec_strong_attack(t: Tower, ms: Seq<Monster>, piles: Seq<GoldPile>, target: int) -> (
    Tower,
    Seq<Monster>,
    Seq<GoldPile>,
) {
    let m = ms[target];
    (
        Tower {
            tower_type: t.tower_type,
            x: t.x,
            y: t.y,
            attack_cooldown: t.attack_cooldown,
            strong_attack_cooldown: NINJA_STRONG_ATTACK_TIMER,
        },
        ms.update(target, spec_damaged(m, NINJA_STRONG_ATTACK_DAMAGE as int)),
        if spec_damage_kills(m.health as int, NINJA_STRONG_ATTACK_DAMAGE as int) {
            piles.push(GoldPile { x: m.x, y: m.y, value: GOLD_PILE_VALUE })
        } else {
            piles
        },
    )
}

/// One full tower update given the random choice `target` for the
/// strong attack (ignored unless the strong attack fires).
pub open spec fn spec_tower_update(
    t: Tower,
    ms: Seq<Monster>,
    piles: Seq<GoldPile>,
    elapsed: int,
    target: int,
) -> (Tower, Seq<Monster>, Seq<GoldPile>) {
    let scanned = spec_tower_scan_phase(t, ms, piles, elapsed);
    if spec_strong_fires(scanned.0, scanned.1) {
        spec_strong_attack(scanned.0, scanned.1, scanned.2, target)
    } else {
        scanned
    }
}

/// How many valid choices the strong attack has this update: the
/// number of live monsters when it fires, else the one dummy choice.
pub open spec fn spec_choice_bound(t: Tower, ms: Seq<Monster>, elapsed: int) -> int {
    let scanned = spec_tower_scan_phase(t, ms, Seq::empty(), elapsed);
    if spec_strong_fires(scanned.0, scanned.1) {
        scanned.1.len() as int
    } else {
        1
    }
}

/// Relies on rand 0.8's `Rng::gen_range` on `ThreadRng` over the
/// half-open range `0..n`: it samples a value below `n` (and panics on
/// an empty range, which the precondition rules out).
#[verifier::external_body]
fn random_below(n: usize) -> (r: usize)
    requires
        n > 0,
    ensures
        r < n,
{
    rand::thread_rng().gen_range(0..n)
}

impl Tower {
    /// The tower `new` constructs: a basic tower starts with both
    /// timers ready; a ninja tower starts with both timers running.
    pub open spec fn spec_new(tower_type: TowerType, x: int, y: int) -> Tower {
        match tower_type {
            TowerType::Basic => Tower {
                tower_type,
                x: x as i64,
                y: y as i64,
                attack_cooldown: 0u32,
                strong_attack_cooldown: 0u32,
            },
            TowerType::Ninja => Tower {
                tower_type,
                x: x as i64,
                y: y as i64,
                attack_cooldown: NINJA_INITIAL_COOLDOWN,
                strong_attack_cooldown: NINJA_INITIAL_STRONG_COOLDOWN,
            },
        }
    }

    /// A freshly placed tower of the given variant on the given grid
    /// cell.
    pub fn new(tower_type: TowerType, position: (i64, i64)) -> (t: Tower)
        ensures
            t == Tower::spec_new(tower_type, position.0 as int, position.1 as int),
            t.tower_type == tower_type,
            t.x == position.0 && t.y == position.1,
    {
        match tower_type {
            TowerType::Basic => Tower {
                tower_type,
                x: position.0,
                y: position.1,
                attack_cooldown: 0,
                strong_attack_cooldown: 0,
            },
            TowerType::Ninja => Tower {
                tower_type,
                x: position.0,
                y: position.1,
                attack_cooldown: NINJA_INITIAL_COOLDOWN,
                strong_attack_cooldown: NINJA_INITIAL_STRONG_COOLDOWN,
            },
        }
    }

    /// The grid cell this tower occupies.
    pub fn get_block_position(&self) -> (r: (i64, i64))
        ensures
            r.0 == self.x && r.1 == self.y,
    {
        (self.x, self.y)
    }

    /// Center of the tower's cell, in world units.
    pub fn get_center_pos_abs(&self) -> (r: (i64, i64))
        requires
            self.in_bounds(),
        ensures
            r.0 == self.spec_center_x(),
            r.1 == self.spec_center_y(),
    {
        (cell_center(self.x), cell_center(self.y))
    }

    /// Whether a world position is within attack range of this tower:
    /// strictly closer than `ATTACK_RANGE`, so a point at exactly the
    /// range boundary is not in range.
    pub fn position_is_in_attack_range(&self, position_abs: (i64, i64)) -> (r: bool)
        requires
            self.in_bounds(),
            -1_050_000_000 <= position_abs.0 <= 1_050_000_000,
            -1_050_000_000 <= position_abs.1 <= 1_050_000_000,
        ensures
            r <==> spec_dist2(
                self.spec_center_x(),
                self.spec_center_y(),
                position_abs.0 as int,
                position_abs.1 as int,
            ) < (ATTACK_RANGE as int) * (ATTACK_RANGE as int),
    {
        let cx: i64 = cell_center(self.x);
        let cy: i64 = cell_center(self.y);
        let d2: i64 = dist2(cx, cy, position_abs.0, position_abs.1);
        d2 < ATTACK_RANGE * ATTACK_RANGE
    }

    /// The regular scan: every monster in range takes `amount` damage
    /// (dropping piles for kills), and the result says whether any
    /// monster was hit.
    fn scan_and_damage(
        &self,
        monsters: &mut Vec<Monster>,
        gold_piles: &mut Vec<GoldPile>,
        amount: u32,
    ) -> (dealt: bool)
        requires
            self.in_bounds(),
            monsters_wf(old(monsters)@),
        ensures
            final(monsters)@ == spec_scan_monsters(*self, old(monsters)@, amount as int),
            final(gold_piles)@ == old(gold_piles)@ + spec_scan_piles(
                *self,
                old(monsters)@,
                amount as int,
            ),
            dealt == spec_any_in_range(*self, old(monsters)@),
            monsters_wf(final(monsters)@),
    {
        let ghost orig: Seq<Monster> = monsters@;
        let ghost orig_piles: Seq<GoldPile> = gold_piles@;
        let mut dealt: bool = false;
        let mut k: usize = 0;
        proof {
            assert(orig.subrange(0, 0) =~= Seq::<Monster>::empty());
            assert(gold_piles@ =~= orig_piles + spec_scan_piles(*self, orig.subrange(0, 0), amount as int));
        }
        while k < monsters.len()
            invariant
                0 <= k <= monsters@.len(),
                monsters@.len() == orig.len(),
                self.in_bounds(),
                monsters_wf(orig),
                monsters_wf(monsters@),
                forall|j: int|
                    0 <= j < k ==> monsters@[j] == (if spec_in_range(*self, orig[j]) {
                        spec_damaged(orig[j], amount as int)
                    } else {
                        orig[j]
                    }),
                forall|j: int| k <= j < orig.len() ==> monsters@[j] == orig[j],
                gold_piles@ == orig_piles + spec_scan_piles(
                    *self,
                    orig.subrange(0, k as int),
                    amount as int,
                ),
                dealt == spec_any_in_range(*self, orig.subrange(0, k as int)),
            decreases monsters@.len() - k,
        {
            let ghost prefix = orig.subrange(0, k as int);
            let ghost prefix1 = orig.subrange(0, k as int + 1);
            proof {
                assert(prefix1.drop_last() =~= prefix);
                assert(prefix1.last() == orig[k as int]);
            }
            let m: Monster = monsters[k];
            let center = m.get_center_pos_abs();
            if self.position_is_in_attack_range(center) {
                proof {
                    assert(spec_in_range(*self, orig[k as int]));
                }
                dealt = true;
                let mut hit: Monster = m;
                hit.recieve_damage(amount, gold_piles);
                monsters.set(k, hit);
                proof {
                    assert(spec_any_in_range(*self, prefix1)) by {
                        assert(prefix1[k as int] == orig[k as int]);
                    }
                }
            } else {
                proof {
                    assert(!spec_in_range(*self, orig[k as int]));
                    assert(spec_any_in_range(*self, prefix1) == spec_any_in_range(*self, prefix))
                        by {
                        if spec_any_in_range(*self, prefix1) {
                            let i = choose|i: int|
                                0 <= i < prefix1.len() && spec_in_range(*self, prefix1[i]);
                            if i < prefix.len() {
                                assert(prefix[i] == prefix1[i]);
                            }
                        }
                        if spec_any_in_range(*self, prefix) {
                            let i = choose|i: int|
                                0 <= i < prefix.len() && spec_in_range(*self, prefix[i]);
                            assert(prefix1[i] == prefix[i]);
                        }
                    }
                }
            }
            k = k + 1;
        }
        proof {
            assert(orig.subrange(0, orig.len() as int) =~= orig);
            assert(monsters@ =~= spec_scan_monsters(*self, orig, amount as int));
        }
        dealt
    }

    /// The strong attack resolved against a chosen monster index: one
    /// `NINJA_STRONG_ATTACK_DAMAGE` hit on exactly that monster,
    /// regardless of range, a pile dropped if the hit kills, and the
    /// strong timer reset to `NINJA_STRONG_ATTACK_TIMER`.
    pub fn strong_attack_at(
        &mut self,
        target: usize,
        monsters: &mut Vec<Monster>,
        gold_piles: &mut Vec<GoldPile>,
    )
        requires
            target < old(monsters)@.len(),
            monsters_wf(old(monsters)@),
        ensures
            (*final(self), final(monsters)@, final(gold_piles)@) == spec_strong_attack(
                *old(self),
                old(monsters)@,
                old(gold_piles)@,
                target as int,
            ),
            monsters_wf(final(monsters)@),
    {
        let mut m: Monster = monsters[target];
        m.recieve_damage(NINJA_STRONG_ATTACK_DAMAGE, gold_piles);
        monsters.set(target, m);
        self.strong_attack_cooldown = NINJA_STRONG_ATTACK_TIMER;
    }

    /// One tower tick, as `spec_tower_update` states for some monster
    /// choice below `spec_choice_bound`: cooldowns tick down; a ready
    /// regular attack hits every monster in range and resets its timer
    /// only if it hit something; a ready ninja strong attack hits one
    /// monster chosen at random from the whole collection, and on an
    /// empty collection does nothing, leaving its timer ready.
    pub fn update(&mut self, elapsed: u32, monsters: &mut Vec<Monster>, gold_piles: &mut Vec<GoldPile>)
        requires
            old(self).in_bounds(),
            monsters_wf(old(monsters)@),
        ensures
            exists|target: int|
                0 <= target < spec_choice_bound(*old(self), old(monsters)@, elapsed as int) && (
                *final(self),
                final(monsters)@,
                final(gold_piles)@,
                ) == spec_tower_update(
                    *old(self),
                    old(monsters)@,
                    old(gold_piles)@,
                    elapsed as int,
                    target,
                ),
            monsters_wf(final(monsters)@),
            final(self).in_bounds(),
            final(self).tower_type == old(self).tower_type,
            final(self).x == old(self).x && final(self).y == old(self).y,
            final(monsters)@.len() == old(monsters)@.len(),
            forall|j: int|
                0 <= j < old(monsters)@.len() ==> (#[trigger] final(monsters)@[j]).x == old(
                    monsters,
                )@[j].x && final(monsters)@[j].y == old(monsters)@[j].y && final(monsters)@[j].speed
                    == old(monsters)@[j].speed && final(monsters)@[j].move_goal == old(
                    monsters,
                )@[j].move_goal && final(monsters)@[j].state == old(monsters)@[j].state,
    {
        let ghost orig = *old(self);
        let ghost orig_ms = old(monsters)@;
        let ghost orig_piles = old(gold_piles)@;
        self.attack_cooldown = if self.attack_cooldown > elapsed {
            self.attack_cooldown - elapsed
        } else {
            0
        };
        if matches!(self.tower_type, TowerType::Ninja) {
            self.strong_attack_cooldown = if self.strong_attack_cooldown > elapsed {
                self.strong_attack_cooldown - elapsed
            } else {
                0
            };
        }
        let damage: u32 = match self.tower_type {
            TowerType::Basic => BASIC_DAMAGE,
            TowerType::Ninja => NINJA_DAMAGE,
        };
        if self.attack_cooldown == 0 {
            let dealt: bool = self.scan_and_damage(monsters, gold_piles, damage);
            if dealt {
                self.attack_cooldown = match self.tower_type {
                    TowerType::Basic => BASIC_ATTACK_TIMER,
                    TowerType::Ninja => NINJA_ATTACK_TIMER,
                };
            } else {
                proof {
                    assert(monsters@ =~= orig_ms);
                    assert(spec_scan_piles(*self, orig_ms, damage as int) =~= Seq::<
                        GoldPile,
                    >::empty()) by {
                        lemma_scan_piles_empty(*self, orig_ms, damage as int);
                    }
                    assert(gold_piles@ =~= orig_piles);
                }
            }
        }
        proof {
            let scanned = spec_tower_scan_phase(orig, orig_ms, orig_piles, elapsed as int);
            assert((*self, monsters@, gold_piles@) == scanned);
        }
        if matches!(self.tower_type, TowerType::Ninja) && self.strong_attack_cooldown == 0
            && monsters.len() > 0 {
            let target: usize = random_below(monsters.len());
            self.strong_attack_at(target, monsters, gold_piles);
            proof {
                let scanned = spec_tower_scan_phase(orig, orig_ms, orig_piles, elapsed as int);
                assert(spec_strong_fires(scanned.0, scanned.1));
                assert((*self, monsters@, gold_piles@) == spec_tower_update(
                    orig,
                    orig_ms,
                    orig_piles,
                    elapsed as int,
                    target as int,
                ));
            }
        } else {
            proof {
                let scanned = spec_tower_scan_phase(orig, orig_ms, orig_piles, elapsed as int);
                assert(!spec_strong_fires(scanned.0, scanned.1));
                assert((*self, monsters@, gold_piles@) == spec_tower_update(
                    orig,
                    orig_ms,
                    orig_piles,
                    elapsed as int,
                    0,
                ));
            }
        }
    }
}

/// A scan over monsters none of which is in range drops no piles.
proof fn lemma_scan_piles_empty(t: Tower, ms: Seq<Monster>, amount: int)
    requires
        !spec_any_in_range(t, ms),
    ensures
        spec_scan_piles(t, ms, amount) == Seq::<GoldPile>::empty(),
    decreases ms.len(),
{
    if ms.len() > 0 {
        assert(!spec_in_range(t, ms.last()));
        assert(!spec_any_in_range(t, ms.drop_last())) by {
            if spec_any_in_range(t, ms.drop_last()) {
                let i = choose|i: int|
                    0 <= i < ms.drop_last().len() && spec_in_range(t, ms.drop_last()[i]);
                assert(ms[i] == ms.drop_last()[i]);
            }
        }
        lemma_scan_piles_empty(t, ms.drop_last(), amount);
    }
}

/// Cooldown gating of the regular attack: while the ticked-down timer
/// is still positive no monster is damaged; at zero with a monster in
/// range every in-range monster is damaged and the timer resets to the
/// variant's interval; at zero with none in range nothing changes and
/// the timer stays ready for the next tick.  (Being in range does not
/// depend on the timers, so it is stated of the tower as it was.)
pub proof fn lemma_cooldown_gating(t: Tower, ms: Seq<Monster>, piles: Seq<GoldPile>, elapsed: int)
    requires
        0 <= elapsed,
    ensures
        spec_cooldown_tick(t.attack_cooldown as int, elapsed) > 0 ==> spec_tower_scan_phase(
            t,
            ms,
            piles,
            elapsed,
        ).1 == ms && spec_tower_scan_phase(t, ms, piles, elapsed).2 == piles,
        spec_cooldown_tick(t.attack_cooldown as int, elapsed) == 0 && spec_any_in_range(t, ms)
            ==> spec_tower_scan_phase(t, ms, piles, elapsed).0.attack_cooldown
            == spec_attack_timer_of(t.tower_type),
        spec_cooldown_tick(t.attack_cooldown as int, elapsed) == 0 && !spec_any_in_range(t, ms)
            ==> spec_tower_scan_phase(t, ms, piles, elapsed).0.attack_cooldown == 0
            && spec_tower_scan_phase(t, ms, piles, elapsed).1 == ms,
{
    let t1 = Tower {
        tower_type: t.tower_type,
        x: t.x,
        y: t.y,
        attack_cooldown: spec_cooldown_tick(t.attack_cooldown as int, elapsed) as u32,
        strong_attack_cooldown: if t.tower_type == TowerType::Ninja {
            spec_cooldown_tick(t.strong_attack_cooldown as int, elapsed) as u32
        } else {
            t.strong_attack_cooldown
        },
    };
    assert(spec_any_in_range(t1, ms) == spec_any_in_range(t, ms)) by {
        if spec_any_in_range(t1, ms) {
            let i = choose|i: int| 0 <= i < ms.len() && spec_in_range(t1, ms[i]);
            assert(spec_in_range(t, ms[i]));
        }
        if spec_any_in_range(t, ms) {
            let i = choose|i: int| 0 <= i < ms.len() && spec_in_range(t, ms[i]);
            assert(spec_in_range(t1, ms[i]));
        }
    }
}

} // verus!
