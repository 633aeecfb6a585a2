//! The board: the single source of truth for the live entities — the
//! fixed path, the placed towers, the live monsters, the dropped gold
//! piles and the base — with the placement and collection entry points
//! that mutate the player's economy.

use vstd::prelude::*;

use crate::geometry::{Block, CELL_LIMIT};
use crate::gold_pile::GoldPile;
use crate::monster::{
    Monster, MonsterState, monsters_wf, path_wf, MONSTER_STARTING_HEALTH, MONSTER_SPEED,
};
use crate::player::Player;
use crate::tower::{Tower, TowerType, BASIC_COST, NINJA_COST};

verus! {

/// The base the monsters walk toward, on a fixed grid cell.
#[derive(Clone, Copy, PartialEq, Eq, Structural, Debug)]
pub struct Base {
    pub x: i64,
    pub y: i64,
}

/// Why a tower placement was rejected.
#[derive(Clone, Copy, PartialEq, Eq, Structural, Debug)]
pub enum PlacementError {
    /// The player's gold is below the variant's cost; nothing is
    /// deducted and no tower appears.
    InsufficientFunds,
    /// The grid cell already holds a tower, whatever the funds.
    TileOccupied,
}

/// Gold cost of placing a tower of the given variant.
pub open spec fn spec_cost_of(t: TowerType) -> int {
    match t {
        TowerType::Basic => BASIC_COST as int,
        TowerType::Ninja => NINJA_COST as int,
    }
}

/// Whether some tower of the collection stands on exactly the grid
/// cell `(x, y)`.
pub open spec fn spec_occupied(towers: Seq<Tower>, x: int, y: int) -> bool {
    exists|i: int| 0 <= i < towers.len() && (#[trigger] towers[i]).x == x && towers[i].y == y
}

/// All towers of a collection stand on in-bounds grid cells.
pub open spec fn towers_wf(towers: Seq<Tower>) -> bool {
    forall|i: int| 0 <= i < towers.len() ==> (#[trigger] towers[i]).in_bounds()
}

/// The route monsters walk, as the ordered grid cells of the board's
/// fixed layout.
pub open spec fn spec_default_path() -> Seq<Block> {
    seq![
        Block { x: 0, y: 0 },
        Block { x: 0, y: 1 },
        Block { x: 0, y: 2 },
        Block { x: 1, y: 2 },
        Block { x: 2, y: 2 },
        Block { x: 2, y: 3 },
        Block { x: 2, y: 3 },
        Block { x: 2, y: 4 },
        Block { x: 2, y: 5 },
        Block { x: 3, y: 5 },
        Block { x: 4, y: 5 },
        Block { x: 5, y: 5 },
        Block { x: 6, y: 5 },
        Block { x: 7, y: 5 },
        Block { x: 8, y: 5 },
        Block { x: 9, y: 5 },
        Block { x: 10, y: 5 },
        Block { x: 11, y: 5 },
        Block { x: 12, y: 5 },
        Block { x: 13, y: 5 },
        Block { x: 14, y: 5 },
        Block { x: 15, y: 5 },
        Block { x: 16, y: 5 },
        Block { x: 17, y: 5 },
        Block { x: 18, y: 5 },
        Block { x: 19, y: 5 },
        Block { x: 20, y: 5 },
        Block { x: 20, y: 6 },
        Block { x: 20, y: 7 },
        Block { x: 20, y: 8 },
        Block { x: 20, y: 9 },
        Block { x: 19, y: 9 },
        Block { x: 18, y: 9 },
        Block { x: 17, y: 9 },
        Block { x: 16, y: 9 },
        Block { x: 15, y: 9 },
        Block { x: 14, y: 9 },
        Block { x: 13, y: 9 },
        Block { x: 12, y: 9 },
        Block { x: 11, y: 9 },
        Block { x: 10, y: 9 },
        Block { x: 9, y: 9 },
        Block { x: 8, y: 9 },
        Block { x: 7, y: 9 },
        Block { x: 6, y: 9 },
        Block { x: 5, y: 9 },
        Block { x: 4, y: 9 },
        Block { x: 3, y: 9 },
        Block { x: 2, y: 9 }
    ]
}

/// The monster standing at the top-left corner when a board is
/// generated.
pub open spec fn spec_initial_monster() -> Monster {
    Monster {
        x: 0,
        y: 0,
        speed: MONSTER_SPEED,
        health: MONSTER_STARTING_HEALTH,
        move_goal: 0,
        state: MonsterState::Walking,
    }
}

/// Owner of every live entity collection; all creation and removal of
/// entities funnels through it.
pub struct Board {
    pub path_blocks: Vec<Block>,
    pub towers: Vec<Tower>,
    pub monsters: Vec<Monster>,
    pub gold_piles: Vec<GoldPile>,
    pub base: Base,
}

impl Board {
    /// Every collection the board owns is within the model's bounds:
    /// path cells, tower cells and monster coordinates, with every
    /// monster's goal index inside the path.
    pub open spec fn wf(self) -> bool {
        &&& path_wf(self.path_blocks@)
        &&& towers_wf(self.towers@)
        &&& monsters_wf(self.monsters@)
        &&& forall|i: int|
            0 <= i < self.monsters@.len() ==> (#[trigger] self.monsters@[i]).move_goal
                <= self.path_blocks@.len()
    }

    /// A fresh board with the fixed path layout, one monster at the
    /// top-left corner, no towers, no gold piles, and the base at the
    /// path's end.  The parameters are accepted for a future layout
    /// generator; the current layout is fixed.
    pub fn generate(seed: u64, length: u32) -> (board: Board)
        ensures
            board.path_blocks@ == spec_default_path(),
            board.monsters@ == seq![spec_initial_monster()],
            board.towers@.len() == 0,
            board.gold_piles@.len() == 0,
            board.base == (Base { x: 0, y: 8 }),
            board.wf(),
    {
        let mut path_blocks: Vec<Block> = Vec::new();
        path_blocks.push(Block { x: 0, y: 0 });
    path_blocks.push(Block { x: 0, y: 1 });
    path_blocks.push(Block { x: 0, y: 2 });
    path_blocks.push(Block { x: 1, y: 2 });
    path_blocks.push(Block { x: 2, y: 2 });
    path_blocks.push(Block { x: 2, y: 3 });
    path_blocks.push(Block { x: 2, y: 3 });
    path_blocks.push(Block { x: 2, y: 4 });
    path_blocks.push(Block { x: 2, y: 5 });
    path_blocks.push(Block { x: 3, y: 5 });
    path_blocks.push(Block { x: 4, y: 5 });
    path_blocks.push(Block { x: 5, y: 5 });
    path_blocks.push(Block { x: 6, y: 5 });
    path_blocks.push(Block { x: 7, y: 5 });
    path_blocks.push(Block { x: 8, y: 5 });
    path_blocks.push(Block { x: 9, y: 5 });
    path_blocks.push(Block { x: 10, y: 5 });
    path_blocks.push(Block { x: 11, y: 5 });
    path_blocks.push(Block { x: 12, y: 5 });
    path_blocks.push(Block { x: 13, y: 5 });
    path_blocks.push(Block { x: 14, y: 5 });
    path_blocks.push(Block { x: 15, y: 5 });
    path_blocks.push(Block { x: 16, y: 5 });
    path_blocks.push(Block { x: 17, y: 5 });
    path_blocks.push(Block { x: 18, y: 5 });
    path_blocks.push(Block { x: 19, y: 5 });
    path_blocks.push(Block { x: 20, y: 5 });
    path_blocks.push(Block { x: 20, y: 6 });
    path_blocks.push(Block { x: 20, y: 7 });
    path_blocks.push(Block { x: 20, y: 8 });
    path_blocks.push(Block { x: 20, y: 9 });
    path_blocks.push(Block { x: 19, y: 9 });
    path_blocks.push(Block { x: 18, y: 9 });
    path_blocks.push(Block { x: 17, y: 9 });
    path_blocks.push(Block { x: 16, y: 9 });
    path_blocks.push(Block { x: 15, y: 9 });
    path_blocks.push(Block { x: 14, y: 9 });
    path_blocks.push(Block { x: 13, y: 9 });
    path_blocks.push(Block { x: 12, y: 9 });
    path_blocks.push(Block { x: 11, y: 9 });
    path_blocks.push(Block { x: 10, y: 9 });
    path_blocks.push(Block { x: 9, y: 9 });
    path_blocks.push(Block { x: 8, y: 9 });
    path_blocks.push(Block { x: 7, y: 9 });
    path_blocks.push(Block { x: 6, y: 9 });
    path_blocks.push(Block { x: 5, y: 9 });
    path_blocks.push(Block { x: 4, y: 9 });
    path_blocks.push(Block { x: 3, y: 9 });
    path_blocks.push(Block { x: 2, y: 9 });
        let mut monsters: Vec<Monster> = Vec::new();
        monsters.push(
            Monster {
                x: 0,
                y: 0,
                speed: MONSTER_SPEED,
                health: MONSTER_STARTING_HEALTH,
                move_goal: 0,
                state: MonsterState::Walking,
            },
        );
        let board = Board {
            path_blocks,
            towers: Vec::new(),
            monsters,
            gold_piles: Vec::new(),
            base: Base { x: 0, y: 8 },
        };
        proof {
            assert(board.path_blocks@ =~= spec_default_path());
            assert(board.monsters@ =~= seq![spec_initial_monster()]);
        }
        board
    }

    /// Appends a tower; the board puts no cap on the tower count.
    pub fn add_tower(&mut self, tower: Tower)
        requires
            tower.in_bounds(),
        ensures
            final(self).towers@ == old(self).towers@.push(tower),
            final(self).path_blocks@ == old(self).path_blocks@,
            final(self).monsters@ == old(self).monsters@,
            final(self).gold_piles@ == old(self).gold_piles@,
            final(self).base == old(self).base,
            old(self).wf() ==> final(self).wf(),
    {
        self.towers.push(tower);
    }

    /// Whether the grid cell `position` already holds a tower, by
    /// exact cell equality — proximity does not count.
    pub fn position_is_occupied(&self, position: (i64, i64)) -> (r: bool)
        ensures
            r <==> spec_occupied(self.towers@, position.0 as int, position.1 as int),
    {
        let mut k: usize = 0;
        while k < self.towers.len()
            invariant
                0 <= k <= self.towers@.len(),
                forall|i: int|
                    0 <= i < k ==> !((#[trigger] self.towers@[i]).x == position.0
                        && self.towers@[i].y == position.1),
            decreases self.towers@.len() - k,
        {
            let t = &self.towers[k];
            if t.x == position.0 && t.y == position.1 {
                return true;
            }
            k = k + 1;
        }
        false
    }

    /// Places a tower of the chosen variant on a grid cell: rejected
    /// with `TileOccupied` if the cell already holds a tower (whatever
    /// the funds), rejected with `InsufficientFunds` if the player's
    /// gold is below the variant's cost; otherwise the cost is
    /// deducted and the tower appended, atomically.  A rejected
    /// placement changes nothing.
    pub fn place_tower(
        &mut self,
        tower_type: TowerType,
        position: (i64, i64),
        player: &mut Player,
    ) -> (r: Result<(), PlacementError>)
        requires
            -CELL_LIMIT <= position.0 <= CELL_LIMIT,
            -CELL_LIMIT <= position.1 <= CELL_LIMIT,
        ensures
            r == Ok::<(), PlacementError>(()) <==> !spec_occupied(
                old(self).towers@,
                position.0 as int,
                position.1 as int,
            ) && old(player).gold >= spec_cost_of(tower_type),
            r == Err::<(), PlacementError>(PlacementError::TileOccupied) <==> spec_occupied(
                old(self).towers@,
                position.0 as int,
                position.1 as int,
            ),
            r == Err::<(), PlacementError>(PlacementError::InsufficientFunds) <==> !spec_occupied(
                old(self).towers@,
                position.0 as int,
                position.1 as int,
            ) && old(player).gold < spec_cost_of(tower_type),
            r == Ok::<(), PlacementError>(()) ==> final(self).towers@ == old(self).towers@.push(
                Tower::spec_new(tower_type, position.0 as int, position.1 as int),
            ) && final(player).gold == old(player).gold - spec_cost_of(tower_type),
            r is Err ==> final(self).towers@ == old(self).towers@ && final(player).gold == old(
                player,
            ).gold,
            final(player).health == old(player).health,
            final(self).path_blocks@ == old(self).path_blocks@,
            final(self).monsters@ == old(self).monsters@,
            final(self).gold_piles@ == old(self).gold_piles@,
            final(self).base == old(self).base,
            old(self).wf() ==> final(self).wf(),
    {
        if self.position_is_occupied(position) {
            return Err(PlacementError::TileOccupied);
        }
        let cost: u64 = match tower_type {
            TowerType::Basic => BASIC_COST,
            TowerType::Ninja => NINJA_COST,
        };
        if !player.spend_gold(cost) {
            return Err(PlacementError::InsufficientFunds);
        }
        self.towers.push(Tower::new(tower_type, position));
        Ok(())
    }

    /// Removes the gold pile at `index` and transfers its value to the
    /// player's gold, returning the value.
    pub fn collect_gold_pile(&mut self, index: usize, player: &mut Player) -> (value: u64)
        requires
            index < old(self).gold_piles@.len(),
            old(player).gold + old(self).gold_piles@[index as int].value <= u64::MAX,
        ensures
            value == old(self).gold_piles@[index as int].value,
            final(self).gold_piles@ == old(self).gold_piles@.remove(index as int),
            final(player).gold == old(player).gold + value,
            final(player).health == old(player).health,
            final(self).path_blocks@ == old(self).path_blocks@,
            final(self).monsters@ == old(self).monsters@,
            final(self).towers@ == old(self).towers@,
            final(self).base == old(self).base,
            old(self).wf() ==> final(self).wf(),
    {
        let pile: GoldPile = self.gold_piles.remove(index);
        player.add_gold(pile.value);
        pile.value
    }
}

} // verus!
