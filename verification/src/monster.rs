//! The monster state machine: movement along the path's waypoints,
//! health depletion, and the Walking / Attacking / Dead transitions.

use vstd::prelude::*;

use crate::geometry::{
    Block, spec_cell_center, spec_dist2, spec_move_component, sqrt_floor, cell_center, dist2,
    isqrt, move_component, MONSTER_SIZE, COORD_LIMIT,
};
use crate::gold_pile::{GoldPile, GOLD_PILE_VALUE};
use crate::player::{Player, spec_health_damaged, STARTING_HEALTH};

verus! {

/// Health a freshly spawned monster has.
pub const MONSTER_STARTING_HEALTH: i64 = 100;

/// Speed of a freshly spawned monster, in world units per second.
pub const MONSTER_SPEED: u32 = 100;

/// Damage dealt to the player when a monster reaches the base.  The
/// hit lands once, on the Walking-to-Attacking transition; afterwards
/// the monster halts for good.
pub const BASE_ATTACK_DAMAGE: u32 = 10;

/// Lower clamp for monster health, so that damage piling onto an
/// already dead monster stays within machine bounds.
pub const HEALTH_FLOOR: i64 = -1_000_000_000;

/// Lifecycle states of a monster.
#[derive(Clone, Copy, PartialEq, Eq, Structural, Debug)]
pub enum MonsterState {
    Walking,
    Attacking,
    Dead,
}

/// A monster walking the path toward the base.  `move_goal` is the
/// index of the path cell it currently heads for; reaching the end of
/// the path transitions it to `Attacking`.
#[derive(Clone, Copy, PartialEq, Eq, Structural, Debug)]
pub struct Monster {
    pub x: i64,
    pub y: i64,
    pub speed: u32,
    pub health: i64,
    pub move_goal: usize,
    pub state: MonsterState,
}

/// All monsters of a collection lie within the coordinate bounds.
pub open spec fn monsters_wf(ms: Seq<Monster>) -> bool {
    forall|i: int| 0 <= i < ms.len() ==> (#[trigger] ms[i]).in_bounds()
}

/// All path cells lie within the coordinate bounds.
pub open spec fn path_wf(path: Seq<Block>) -> bool {
    forall|i: int| 0 <= i < path.len() ==> (#[trigger] path[i]).in_bounds()
}

/// World x-coordinate a monster aims for so that its center crosses
/// the center of cell `c`.
pub open spec fn spec_goal_x(c: Block) -> int {
    spec_cell_center(c.x as int) - (MONSTER_SIZE as int) / 2
}

/// World y-coordinate a monster aims for in cell `c`.
pub open spec fn spec_goal_y(c: Block) -> int {
    spec_cell_center(c.y as int) - (MONSTER_SIZE as int) / 2
}

/// Length of one movement step: speed (units per second) scaled by the
/// elapsed milliseconds.
pub open spec fn spec_step_len(speed: int, elapsed: int) -> int {
    (speed * elapsed) / 1000
}

/// Health after `amount` damage, clamped below at `HEALTH_FLOOR`.
pub open spec fn spec_apply_damage(health: int, amount: int) -> int {
    if health - amount >= HEALTH_FLOOR {
        health - amount
    } else {
        HEALTH_FLOOR as int
    }
}

/// Whether a damage hit of `amount` kills: it takes positive health to
/// zero or below.  A monster already at or below zero cannot die again.
pub open spec fn spec_damage_kills(health: int, amount: int) -> bool {
    health > 0 && spec_apply_damage(health, amount) <= 0
}

impl Monster {
    /// Coordinates stay within `COORD_LIMIT` and health above the
    /// clamp, so that every derived quantity fits its machine type.
    pub open spec fn in_bounds(self) -> bool {
        &&& -COORD_LIMIT <= self.x <= COORD_LIMIT
        &&& -COORD_LIMIT <= self.y <= COORD_LIMIT
        &&& self.health >= HEALTH_FLOOR
    }
}

/// The movement relation of one update on a walking monster, after the
/// death check: reaching the path's end transitions to `Attacking`; a
/// monster exactly on its goal advances the goal index; one closer to
/// the goal than a full step snaps onto the goal exactly and advances;
/// any other monster moves one step along the normalized direction.
pub open spec fn spec_try_move(m: Monster, elapsed: int, path: Seq<Block>) -> Monster {
    if m.state != MonsterState::Walking {
        m
    } else if m.move_goal == path.len() {
        Monster {
            x: m.x,
            y: m.y,
            speed: m.speed,
            health: m.health,
            move_goal: m.move_goal,
            state: MonsterState::Attacking,
        }
    } else {
        let gx = spec_goal_x(path[m.move_goal as int]);
        let gy = spec_goal_y(path[m.move_goal as int]);
        let dx = gx - m.x;
        let dy = gy - m.y;
        let d2 = dx * dx + dy * dy;
        let step = spec_step_len(m.speed as int, elapsed);
        if d2 == 0 {
            Monster {
                x: m.x,
                y: m.y,
                speed: m.speed,
                health: m.health,
                move_goal: (m.move_goal + 1) as usize,
                state: m.state,
            }
        } else if d2 < step * step {
            Monster {
                x: gx as i64,
                y: gy as i64,
                speed: m.speed,
                health: m.health,
                move_goal: (m.move_goal + 1) as usize,
                state: m.state,
            }
        } else {
            let dist = sqrt_floor(d2);
            Monster {
                x: (m.x + spec_move_component(dx, step, dist)) as i64,
                y: (m.y + spec_move_component(dy, step, dist)) as i64,
                speed: m.speed,
                health: m.health,
                move_goal: m.move_goal,
                state: m.state,
            }
        }
    }
}

/// One full monster update: the death check first (so a just-killed
/// monster does not move), then the movement relation.
pub open spec fn spec_monster_update(m: Monster, elapsed: int, path: Seq<Block>) -> Monster {
    let m1 = if m.health <= 0 {
        Monster {
            x: m.x,
            y: m.y,
            speed: m.speed,
            health: m.health,
            move_goal: m.move_goal,
            state: MonsterState::Dead,
        }
    } else {
        m
    };
    spec_try_move(m1, elapsed, path)
}

/// Whether this update makes the monster reach the base: it is alive,
/// walking, and has consumed every waypoint.
pub open spec fn spec_hits_base(m: Monster, path: Seq<Block>) -> bool {
    m.health > 0 && m.state == MonsterState::Walking && m.move_goal == path.len()
}

impl Monster {
    /// Center of the monster's bounding square, in world units.
    pub fn get_center_pos_abs(&self) -> (r: (i64, i64))
        requires
            self.in_bounds(),
        ensures
            r.0 == self.x + (MONSTER_SIZE as int) / 2,
            r.1 == self.y + (MONSTER_SIZE as int) / 2,
    {
        (self.x + MONSTER_SIZE / 2, self.y + MONSTER_SIZE / 2)
    }

    /// Subtracts `damage` from health; when this takes positive health
    /// to zero or below — the moment of death — it drops exactly one
    /// gold pile at the monster's position.  Hits on a monster whose
    /// health is already at or below zero never drop another pile.
    pub fn recieve_damage(&mut self, damage: u32, gold_piles: &mut Vec<GoldPile>)
        requires
            old(self).in_bounds(),
        ensures
            final(self).health == spec_apply_damage(old(self).health as int, damage as int),
            final(self).x == old(self).x && final(self).y == old(self).y,
            final(self).speed == old(self).speed,
            final(self).move_goal == old(self).move_goal,
            final(self).state == old(self).state,
            final(self).in_bounds(),
            spec_damage_kills(old(self).health as int, damage as int) ==> final(gold_piles)@
                == old(gold_piles)@.push(
                GoldPile { x: old(self).x, y: old(self).y, value: GOLD_PILE_VALUE },
            ),
            !spec_damage_kills(old(self).health as int, damage as int) ==> final(gold_piles)@
                == old(gold_piles)@,
    {
        let was_alive: bool = self.health > 0;
        if self.health - (damage as i64) >= HEALTH_FLOOR {
            self.health = self.health - (damage as i64);
        } else {
            self.health = HEALTH_FLOOR;
        }
        if was_alive && self.health <= 0 {
            gold_piles.push(GoldPile { x: self.x, y: self.y, value: GOLD_PILE_VALUE });
        }
    }

    /// Moves the monster toward the cell indexed by `move_goal`, as
    /// `spec_try_move` states: never past the goal (a monster closer
    /// than one step lands on the goal exactly), advancing the goal
    /// index by at most one, and transitioning to `Attacking` when the
    /// path is consumed.
    pub fn try_moving(&mut self, elapsed: u32, path_blocks: &Vec<Block>)
        requires
            old(self).in_bounds(),
            old(self).move_goal <= path_blocks@.len(),
            path_wf(path_blocks@),
        ensures
            *final(self) == spec_try_move(*old(self), elapsed as int, path_blocks@),
            final(self).in_bounds(),
            final(self).move_goal <= path_blocks@.len(),
            old(self).move_goal <= final(self).move_goal <= old(self).move_goal + 1,
    {
        if !(matches!(self.state, MonsterState::Walking)) {
            return ;
        }
        if self.move_goal == path_blocks.len() {
            self.state = MonsterState::Attacking;
            return ;
        }
        let goal_cell: Block = path_blocks[self.move_goal];
        let gx: i64 = cell_center(goal_cell.x) - MONSTER_SIZE / 2;
        let gy: i64 = cell_center(goal_cell.y) - MONSTER_SIZE / 2;
        let dx: i64 = gx - self.x;
        let dy: i64 = gy - self.y;
        let d2: i64 = dist2(gx, gy, self.x, self.y);
        let sp64: u64 = self.speed as u64;
        let el64: u64 = elapsed as u64;
        proof {
            assert((sp64 as int) * (el64 as int) <= 0xffff_ffff * 0xffff_ffff) by (nonlinear_arith)
                requires
                    0 <= sp64 as int <= 0xffff_ffff,
                    0 <= el64 as int <= 0xffff_ffff;
            assert(0xffff_ffff * 0xffff_ffff < 0xffff_ffff_ffff_ffff) by (nonlinear_arith);
        }
        let step64: u64 = sp64 * el64 / 1000;
        proof {
            assert(step64 == spec_step_len(old(self).speed as int, elapsed as int));
            assert(d2 == (dx as int) * (dx as int) + (dy as int) * (dy as int));
        }
        if d2 == 0 {
            self.move_goal = self.move_goal + 1;
            return ;
        }
        let snaps: bool = if step64 >= 3_000_000_000 {
            proof {
                assert((d2 as int) < (step64 as int) * (step64 as int)) by (nonlinear_arith)
                    requires
                        step64 as int >= 3_000_000_000,
                        d2 as int <= 8_820_000_000_000_000_000;
            }
            true
        } else {
            let stepc: i64 = step64 as i64;
            proof {
                assert((stepc as int) * (stepc as int) <= 9_000_000_000_000_000_000)
                    by (nonlinear_arith)
                    requires
                        0 <= stepc as int && stepc as int <= 3_000_000_000;
            }
            d2 < stepc * stepc
        };
        if snaps {
            self.x = gx;
            self.y = gy;
            self.move_goal = self.move_goal + 1;
        } else {
            let dist: i64 = isqrt(d2);
            proof {
                let stepi = step64 as int;
                let disti = dist as int;
                assert(stepi * stepi <= d2 as int);
                assert(disti * disti <= d2 as int && (d2 as int) < (disti + 1) * (disti + 1));
                assert(stepi <= disti) by (nonlinear_arith)
                    requires
                        0 <= stepi,
                        0 <= disti,
                        stepi * stepi <= d2 as int,
                        (d2 as int) < (disti + 1) * (disti + 1);
                assert(disti >= 1) by (nonlinear_arith)
                    requires
                        0 <= disti,
                        disti * disti <= d2 as int,
                        (d2 as int) < (disti + 1) * (disti + 1),
                        d2 as int > 0;
            }
            let mx: i64 = move_component(dx, step64 as i64, dist);
            let my: i64 = move_component(dy, step64 as i64, dist);
            self.x = self.x + mx;
            self.y = self.y + my;
        }
    }

    /// One simulation tick for this monster: health at or below zero
    /// turns it `Dead` before any movement; a walking monster then
    /// moves.  The tick a live monster reaches the base it deals
    /// `BASE_ATTACK_DAMAGE` to the player, exactly once.
    pub fn update(&mut self, elapsed: u32, path_blocks: &Vec<Block>, player: &mut Player)
        requires
            old(self).in_bounds(),
            old(self).move_goal <= path_blocks@.len(),
            path_wf(path_blocks@),
            old(player).health <= STARTING_HEALTH,
        ensures
            *final(self) == spec_monster_update(*old(self), elapsed as int, path_blocks@),
            final(self).in_bounds(),
            final(self).move_goal <= path_blocks@.len(),
            old(self).move_goal <= final(self).move_goal <= old(self).move_goal + 1,
            spec_hits_base(*old(self), path_blocks@) ==> *final(player) == (Player {
                health: spec_health_damaged(
                    old(player).health as int,
                    BASE_ATTACK_DAMAGE as int,
                ) as i64,
                gold: old(player).gold,
            }),
            !spec_hits_base(*old(self), path_blocks@) ==> *final(player) == *old(player),
            final(player).health <= STARTING_HEALTH,
    {
        if self.health <= 0 {
            self.state = MonsterState::Dead;
        }
        let hits_base: bool = self.health > 0 && matches!(self.state, MonsterState::Walking)
            && self.move_goal == path_blocks.len();
        self.try_moving(elapsed, path_blocks);
        if hits_base {
            player.take_damage(BASE_ATTACK_DAMAGE);
        }
    }
}

/// The goal index advances by at most one per update and never moves
/// backwards or past the end of the path, so a monster consumes every
/// waypoint index in order, none skipped and none repeated; the
/// transition from `Walking` to `Attacking` happens exactly on the
/// update in which all waypoints have been consumed.
pub proof fn lemma_goal_progress(m: Monster, elapsed: int, path: Seq<Block>)
    requires
        m.move_goal <= path.len(),
        path.len() <= usize::MAX,
    ensures
        m.move_goal <= spec_monster_update(m, elapsed, path).move_goal <= m.move_goal + 1,
        spec_monster_update(m, elapsed, path).move_goal <= path.len(),
        spec_hits_base(m, path) ==> spec_monster_update(m, elapsed, path).state
            == MonsterState::Attacking && spec_monster_update(m, elapsed, path).move_goal
            == m.move_goal,
        m.health > 0 && m.state == MonsterState::Walking && m.move_goal < path.len()
            ==> spec_monster_update(m, elapsed, path).state == MonsterState::Walking,
        m.health > 0 ==> (spec_monster_update(m, elapsed, path).state == MonsterState::Attacking
            <==> (m.state == MonsterState::Attacking || spec_hits_base(m, path))),
{
}

/// No overshoot: a walking monster whose distance to its current
/// waypoint is positive but shorter than one movement step lands on
/// the waypoint's target point exactly, and advances its goal index.
pub proof fn lemma_no_overshoot(m: Monster, elapsed: int, path: Seq<Block>)
    requires
        m.health > 0,
        m.state == MonsterState::Walking,
        m.move_goal < path.len(),
        path.len() <= usize::MAX,
        path[m.move_goal as int].in_bounds(),
        spec_dist2(spec_goal_x(path[m.move_goal as int]), spec_goal_y(path[m.move_goal as int]), m.x as int, m.y as int) > 0,
        spec_dist2(spec_goal_x(path[m.move_goal as int]), spec_goal_y(path[m.move_goal as int]), m.x as int, m.y as int)
            < spec_step_len(m.speed as int, elapsed) * spec_step_len(m.speed as int, elapsed),
    ensures
        spec_monster_update(m, elapsed, path).x == spec_goal_x(path[m.move_goal as int]),
        spec_monster_update(m, elapsed, path).y == spec_goal_y(path[m.move_goal as int]),
        spec_monster_update(m, elapsed, path).move_goal == m.move_goal + 1,
{
}

/// A kill drops exactly one pile: once a hit has taken health to zero
/// or below, no later hit can count as a kill again, so no further
/// pile is ever dropped for the same monster.
pub proof fn lemma_death_drops_once(health: int, first: int, second: int)
    requires
        spec_damage_kills(health, first),
    ensures
        !spec_damage_kills(spec_apply_damage(health, first), second),
{
}

} // verus!
