//! The monster spawner: a periodic emitter that counts down and drops
//! a fresh monster onto the board's first waypoint at a fixed
//! interval.

use vstd::prelude::*;

use crate::board::Board;
use crate::geometry::{cell_center, Block, MONSTER_SIZE};
use crate::monster::{
    Monster, MonsterState, path_wf, spec_goal_x, spec_goal_y, MONSTER_SPEED,
    MONSTER_STARTING_HEALTH,
};

verus! {

/// Milliseconds between two spawn events.
pub const SPAWN_INTERVAL: u32 = 5000;

/// The countdown to the next spawn event, in milliseconds.
#[derive(Clone, Copy, PartialEq, Eq, Structural, Debug)]
pub struct MonsterSpawner {
    pub spawn_timer: u32,
}

/// The monster a spawn event emits: fresh stats, aimed at the first
/// waypoint and standing exactly on it (or at the origin on an empty
/// path, where it immediately reaches the base).
pub open spec fn spec_spawned_monster(path: Seq<Block>) -> Monster {
    Monster {
        x: if path.len() > 0 {
            spec_goal_x(path[0]) as i64
        } else {
            0
        },
        y: if path.len() > 0 {
            spec_goal_y(path[0]) as i64
        } else {
            0
        },
        speed: MONSTER_SPEED,
        health: MONSTER_STARTING_HEALTH,
        move_goal: 0,
        state: MonsterState::Walking,
    }
}

/// The countdown after `elapsed` milliseconds: reaching zero or below
/// resets it to the full interval (that tick spawns), otherwise it
/// just ticks down.
pub open spec fn spec_spawn_timer_after(timer: int, elapsed: int) -> int {
    if timer <= elapsed {
        SPAWN_INTERVAL as int
    } else {
        timer - elapsed
    }
}

/// The monster collection after the spawner runs: one fresh monster
/// appended when the countdown ran out, otherwise unchanged.
pub open spec fn spec_monsters_after_spawn(
    timer: int,
    elapsed: int,
    ms: Seq<Monster>,
    path: Seq<Block>,
) -> Seq<Monster> {
    if timer <= elapsed {
        ms.push(spec_spawned_monster(path))
    } else {
        ms
    }
}

impl MonsterSpawner {
    pub fn new() -> (s: MonsterSpawner)
        ensures
            s.spawn_timer == SPAWN_INTERVAL,
    {
        MonsterSpawner { spawn_timer: SPAWN_INTERVAL }
    }

    /// Ticks the countdown down by `elapsed`; when it runs out, one
    /// fresh monster is appended to the board and the countdown starts
    /// over at the full interval.
    pub fn update(&mut self, elapsed: u32, board: &mut Board)
        requires
            path_wf(old(board).path_blocks@),
        ensures
            final(self).spawn_timer == spec_spawn_timer_after(
                old(self).spawn_timer as int,
                elapsed as int,
            ),
            final(board).monsters@ == spec_monsters_after_spawn(
                old(self).spawn_timer as int,
                elapsed as int,
                old(board).monsters@,
                old(board).path_blocks@,
            ),
            final(board).path_blocks@ == old(board).path_blocks@,
            final(board).towers@ == old(board).towers@,
            final(board).gold_piles@ == old(board).gold_piles@,
            final(board).base == old(board).base,
            old(board).wf() ==> final(board).wf(),
    {
        if self.spawn_timer <= elapsed {
            let spawn_x: i64;
            let spawn_y: i64;
            if board.path_blocks.len() > 0 {
                let first: Block = board.path_blocks[0];
                spawn_x = cell_center(first.x) - MONSTER_SIZE / 2;
                spawn_y = cell_center(first.y) - MONSTER_SIZE / 2;
            } else {
                spawn_x = 0;
                spawn_y = 0;
            }
            board.monsters.push(
                Monster {
                    x: spawn_x,
                    y: spawn_y,
                    speed: MONSTER_SPEED,
                    health: MONSTER_STARTING_HEALTH,
                    move_goal: 0,
                    state: MonsterState::Walking,
                },
            );
            self.spawn_timer = SPAWN_INTERVAL;
        } else {
            self.spawn_timer = self.spawn_timer - elapsed;
        }
    }
}

} // verus!
