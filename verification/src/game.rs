//! The simulation driver: one `tick` advances the spawner, every
//! monster, the removal of the dead, and every tower, in the fixed
//! per-frame order, and the placement and collection entry points are
//! re-exported at the session level.

use vstd::prelude::*;

use crate::board::{spec_cost_of, spec_occupied, towers_wf, Board, PlacementError};
use crate::geometry::{Block, CELL_LIMIT};
use crate::gold_pile::GoldPile;
use crate::monster::{
    Monster, MonsterState, monsters_wf, path_wf, spec_hits_base, spec_monster_update,
    BASE_ATTACK_DAMAGE,
};
use crate::player::{Player, spec_health_damaged, STARTING_HEALTH};
use crate::spawner::{MonsterSpawner, spec_monsters_after_spawn, spec_spawn_timer_after};
use crate::tower::{spec_choice_bound, spec_tower_update, Tower, TowerType};

verus! {

/// A whole session: the player, the spawner and the board the
/// presentation layer reads.
pub struct Game {
    pub player: Player,
    pub spawner: MonsterSpawner,
    pub board: Board,
}

/// The monster collection after every monster takes one movement
/// update.
pub open spec fn spec_monsters_moved(ms: Seq<Monster>, elapsed: int, path: Seq<Block>) -> Seq<
    Monster,
> {
    ms.map_values(|m: Monster| spec_monster_update(m, elapsed, path))
}

/// The player's health after the monsters that reach the base this
/// tick have each dealt their one-time hit, in collection order.
pub open spec fn spec_health_after_hits(h: int, ms: Seq<Monster>, path: Seq<Block>) -> int
    decreases ms.len(),
{
    if ms.len() == 0 {
        h
    } else {
        let prev = spec_health_after_hits(h, ms.drop_last(), path);
        if spec_hits_base(ms.last(), path) {
            spec_health_damaged(prev, BASE_ATTACK_DAMAGE as int)
        } else {
            prev
        }
    }
}

/// The live monsters: the collection with the dead removed, order
/// kept.
pub open spec fn spec_live(ms: Seq<Monster>) -> Seq<Monster>
    decreases ms.len(),
{
    if ms.len() == 0 {
        Seq::empty()
    } else {
        let rest = spec_live(ms.drop_last());
        if ms.last().state != MonsterState::Dead {
            rest.push(ms.last())
        } else {
            rest
        }
    }
}

/// The towers processed in creation order, each handing the monsters
/// and piles it left to the next; `choices[k]` is the strong-attack
/// target tower `k` drew.
pub open spec fn spec_towers_fold(
    ts: Seq<Tower>,
    ms: Seq<Monster>,
    piles: Seq<GoldPile>,
    elapsed: int,
    choices: Seq<int>,
) -> (Seq<Tower>, Seq<Monster>, Seq<GoldPile>)
    decreases ts.len(),
{
    if ts.len() == 0 {
        (Seq::empty(), ms, piles)
    } else {
        let first = spec_tower_update(ts[0], ms, piles, elapsed, choices[0]);
        let rest = spec_towers_fold(
            ts.drop_first(),
            first.1,
            first.2,
            elapsed,
            choices.drop_first(),
        );
        (seq![first.0] + rest.0, rest.1, rest.2)
    }
}

/// Whether each choice is a valid strong-attack target for its tower,
/// against the monster collection that tower saw.
pub open spec fn spec_choices_ok(
    ts: Seq<Tower>,
    ms: Seq<Monster>,
    piles: Seq<GoldPile>,
    elapsed: int,
    choices: Seq<int>,
) -> bool
    decreases ts.len(),
{
    if ts.len() == 0 {
        choices.len() == 0
    } else {
        let first = spec_tower_update(ts[0], ms, piles, elapsed, choices[0]);
        &&& choices.len() == ts.len()
        &&& 0 <= choices[0] < spec_choice_bound(ts[0], ms, elapsed)
        &&& spec_choices_ok(ts.drop_first(), first.1, first.2, elapsed, choices.drop_first())
    }
}

/// Extending a fold by one tower applies that tower to the fold's
/// outcome.
proof fn lemma_towers_fold_push(
    ts: Seq<Tower>,
    ms: Seq<Monster>,
    piles: Seq<GoldPile>,
    elapsed: int,
    choices: Seq<int>,
    t: Tower,
    c: int,
)
    requires
        choices.len() == ts.len(),
    ensures
        ({
            let prev = spec_towers_fold(ts, ms, piles, elapsed, choices);
            let last = spec_tower_update(t, prev.1, prev.2, elapsed, c);
            spec_towers_fold(ts.push(t), ms, piles, elapsed, choices.push(c)) == (
                prev.0.push(last.0),
                last.1,
                last.2,
            )
        }),
    decreases ts.len(),
{
    reveal_with_fuel(spec_towers_fold, 3);
    let prev = spec_towers_fold(ts, ms, piles, elapsed, choices);
    let last = spec_tower_update(t, prev.1, prev.2, elapsed, c);
    let folded = spec_towers_fold(ts.push(t), ms, piles, elapsed, choices.push(c));
    if ts.len() == 0 {
        assert(ts.push(t)[0] == t);
        assert(choices.push(c)[0] == c);
        assert(ts.push(t).drop_first() =~= Seq::<Tower>::empty());
        assert(choices.push(c).drop_first() =~= Seq::<int>::empty());
        let first = spec_tower_update(t, ms, piles, elapsed, c);
        let rest = spec_towers_fold(
            ts.push(t).drop_first(),
            first.1,
            first.2,
            elapsed,
            choices.push(c).drop_first(),
        );
        assert(rest.0 == Seq::<Tower>::empty() && rest.1 == first.1 && rest.2 == first.2);
        assert(folded.0 =~= prev.0.push(last.0));
        assert(folded.1 == last.1);
        assert(folded.2 == last.2);
    } else {
        assert(ts.push(t)[0] == ts[0]);
        assert(choices.push(c)[0] == choices[0]);
        assert(ts.push(t).drop_first() =~= ts.drop_first().push(t));
        assert(choices.push(c).drop_first() =~= choices.drop_first().push(c));
        let first = spec_tower_update(ts[0], ms, piles, elapsed, choices[0]);
        lemma_towers_fold_push(
            ts.drop_first(),
            first.1,
            first.2,
            elapsed,
            choices.drop_first(),
            t,
            c,
        );
        let prev_rest = spec_towers_fold(
            ts.drop_first(),
            first.1,
            first.2,
            elapsed,
            choices.drop_first(),
        );
        let last_rest = spec_tower_update(t, prev_rest.1, prev_rest.2, elapsed, c);
        assert(prev.0 =~= seq![first.0] + prev_rest.0);
        assert(prev.1 == prev_rest.1 && prev.2 == prev_rest.2);
        assert(folded.0 =~= seq![first.0] + prev_rest.0.push(last_rest.0));
        assert(folded.0 =~= prev.0.push(last.0));
        assert(folded.1 == last.1);
        assert(folded.2 == last.2);
    }
}

/// Extending a valid choice sequence by a valid choice for one more
/// tower keeps it valid.
proof fn lemma_choices_ok_push(
    ts: Seq<Tower>,
    ms: Seq<Monster>,
    piles: Seq<GoldPile>,
    elapsed: int,
    choices: Seq<int>,
    t: Tower,
    c: int,
)
    requires
        choices.len() == ts.len(),
        spec_choices_ok(ts, ms, piles, elapsed, choices),
        0 <= c < spec_choice_bound(
            t,
            spec_towers_fold(ts, ms, piles, elapsed, choices).1,
            elapsed,
        ),
    ensures
        spec_choices_ok(ts.push(t), ms, piles, elapsed, choices.push(c)),
    decreases ts.len(),
{
    reveal_with_fuel(spec_choices_ok, 3);
    reveal_with_fuel(spec_towers_fold, 3);
    if ts.len() == 0 {
        assert(ts.push(t)[0] == t);
        assert(choices.push(c)[0] == c);
        assert(ts.push(t).drop_first() =~= Seq::<Tower>::empty());
        assert(choices.push(c).drop_first() =~= Seq::<int>::empty());
        assert(spec_towers_fold(ts, ms, piles, elapsed, choices).1 == ms);
    } else {
        assert(ts.push(t)[0] == ts[0]);
        assert(choices.push(c)[0] == choices[0]);
        assert(ts.push(t).drop_first() =~= ts.drop_first().push(t));
        assert(choices.push(c).drop_first() =~= choices.drop_first().push(c));
        let first = spec_tower_update(ts[0], ms, piles, elapsed, choices[0]);
        lemma_towers_fold_push(
            ts.drop_first(),
            first.1,
            first.2,
            elapsed,
            choices.drop_first(),
            t,
            c,
        );
        lemma_choices_ok_push(
            ts.drop_first(),
            first.1,
            first.2,
            elapsed,
            choices.drop_first(),
            t,
            c,
        );
    }
}

/// What one tick leaves behind, given the strong-attack targets the
/// towers drew: the spawner may add a monster, every monster moves
/// (those reaching the base each costing the player one hit of
/// health), the dead are removed, and the towers fire in creation
/// order.  Gold is untouched by a tick.
pub open spec fn spec_tick_post(g0: Game, g1: Game, elapsed: int, choices: Seq<int>) -> bool {
    let path = g0.board.path_blocks@;
    let ms1 = spec_monsters_after_spawn(
        g0.spawner.spawn_timer as int,
        elapsed,
        g0.board.monsters@,
        path,
    );
    let ms2 = spec_monsters_moved(ms1, elapsed, path);
    let ms3 = spec_live(ms2);
    let folded = spec_towers_fold(g0.board.towers@, ms3, g0.board.gold_piles@, elapsed, choices);
    &&& spec_choices_ok(g0.board.towers@, ms3, g0.board.gold_piles@, elapsed, choices)
    &&& g1.board.towers@ == folded.0
    &&& g1.board.monsters@ == folded.1
    &&& g1.board.gold_piles@ == folded.2
    &&& g1.player.health == spec_health_after_hits(g0.player.health as int, ms1, path)
    &&& g1.player.gold == g0.player.gold
    &&& g1.spawner.spawn_timer == spec_spawn_timer_after(g0.spawner.spawn_timer as int, elapsed)
    &&& g1.board.path_blocks@ == path
    &&& g1.board.base == g0.board.base
}

impl Game {
    /// Everything a tick relies on: a well-formed board and a health
    /// pool at or below its starting value.
    pub open spec fn wf(self) -> bool {
        &&& self.board.wf()
        &&& self.player.health <= STARTING_HEALTH
    }

    /// A fresh session: full health and starting gold, the fixed
    /// board layout, and the spawner counting down to its first
    /// monster.
    pub fn new() -> (g: Game)
        ensures
            g.player.health == STARTING_HEALTH,
            g.player.gold == crate::player::STARTING_GOLD,
            g.board.path_blocks@ == crate::board::spec_default_path(),
            g.board.monsters@ == seq![crate::board::spec_initial_monster()],
            g.board.towers@.len() == 0,
            g.board.gold_piles@.len() == 0,
            g.wf(),
    {
        Game { player: Player::new(), spawner: MonsterSpawner::new(), board: Board::generate(1, 2) }
    }

    /// Places a tower, deducting its cost from this session's player;
    /// see `Board::place_tower` for the exact placement rules.
    pub fn place_tower(&mut self, tower_type: TowerType, position: (i64, i64)) -> (r: Result<
        (),
        PlacementError,
    >)
        requires
            -CELL_LIMIT <= position.0 <= CELL_LIMIT,
            -CELL_LIMIT <= position.1 <= CELL_LIMIT,
        ensures
            r == Ok::<(), PlacementError>(()) <==> !spec_occupied(
                old(self).board.towers@,
                position.0 as int,
                position.1 as int,
            ) && old(self).player.gold >= spec_cost_of(tower_type),
            r == Err::<(), PlacementError>(PlacementError::TileOccupied) <==> spec_occupied(
                old(self).board.towers@,
                position.0 as int,
                position.1 as int,
            ),
            r == Ok::<(), PlacementError>(()) ==> final(self).board.towers@ == old(self).board.towers@.push(Tower::spec_new(tower_type, position.0 as int, position.1 as int))
                && final(self).player.gold == old(self).player.gold - spec_cost_of(tower_type),
            r is Err ==> final(self).board.towers@ == old(self).board.towers@ && final(self).player.gold == old(self).player.gold,
            final(self).player.health == old(self).player.health,
            final(self).board.path_blocks@ == old(self).board.path_blocks@,
            final(self).board.monsters@ == old(self).board.monsters@,
            final(self).board.gold_piles@ == old(self).board.gold_piles@,
            final(self).board.base == old(self).board.base,
            final(self).spawner == old(self).spawner,
            old(self).wf() ==> final(self).wf(),
    {
        self.board.place_tower(tower_type, position, &mut self.player)
    }

    /// Collects the gold pile at `index` into the player's gold; see
    /// `Board::collect_gold_pile`.
    pub fn collect_gold_pile(&mut self, index: usize) -> (value: u64)
        requires
            index < old(self).board.gold_piles@.len(),
            old(self).player.gold + old(self).board.gold_piles@[index as int].value <= u64::MAX,
        ensures
            value == old(self).board.gold_piles@[index as int].value,
            final(self).board.gold_piles@ == old(self).board.gold_piles@.remove(index as int),
            final(self).player.gold == old(self).player.gold + value,
            final(self).player.health == old(self).player.health,
            final(self).board.path_blocks@ == old(self).board.path_blocks@,
            final(self).board.monsters@ == old(self).board.monsters@,
            final(self).board.towers@ == old(self).board.towers@,
            final(self).board.base == old(self).board.base,
            final(self).spawner == old(self).spawner,
            old(self).wf() ==> final(self).wf(),
    {
        self.board.collect_gold_pile(index, &mut self.player)
    }

    /// One simulation tick of `elapsed` milliseconds, in the fixed
    /// per-frame order: spawn, move, remove the dead, fire the towers.
    pub fn tick(&mut self, elapsed: u32)
        requires
            old(self).wf(),
        ensures
            final(self).wf(),
            exists|choices: Seq<int>|
                #[trigger] spec_tick_post(*old(self), *final(self), elapsed as int, choices),
    {
        let ghost g0: Game = *old(self);
        let ghost path0: Seq<Block> = self.board.path_blocks@;

        self.spawner.update(elapsed, &mut self.board);

        let ghost ms1: Seq<Monster> = self.board.monsters@;
        let ghost h0: int = self.player.health as int;
        let ghost gold0: u64 = self.player.gold;

        proof {
            assert(ms1.subrange(0, 0) =~= Seq::<Monster>::empty());
        }
        let mut i: usize = 0;
        while i < self.board.monsters.len()
            invariant
                0 <= i <= self.board.monsters@.len(),
                self.board.monsters@.len() == ms1.len(),
                self.board.path_blocks@ == path0,
                path_wf(path0),
                monsters_wf(ms1),
                forall|j: int|
                    0 <= j < ms1.len() ==> (#[trigger] ms1[j]).move_goal <= path0.len(),
                forall|j: int| i <= j < ms1.len() ==> self.board.monsters@[j] == ms1[j],
                forall|j: int|
                    0 <= j < i ==> self.board.monsters@[j] == spec_monster_update(
                        ms1[j],
                        elapsed as int,
                        path0,
                    ),
                monsters_wf(self.board.monsters@),
                forall|j: int|
                    0 <= j < ms1.len() ==> (#[trigger] self.board.monsters@[j]).move_goal
                        <= path0.len(),
                self.player.health == spec_health_after_hits(h0, ms1.subrange(0, i as int), path0),
                self.player.health <= STARTING_HEALTH,
                self.player.gold == gold0,
                self.spawner.spawn_timer == spec_spawn_timer_after(
                    g0.spawner.spawn_timer as int,
                    elapsed as int,
                ),
                self.board.towers@ == g0.board.towers@,
                self.board.gold_piles@ == g0.board.gold_piles@,
                self.board.base == g0.board.base,
            decreases self.board.monsters@.len() - i,
        {
            let ghost prefix = ms1.subrange(0, i as int);
            let ghost prefix1 = ms1.subrange(0, i as int + 1);
            proof {
                assert(prefix1.drop_last() =~= prefix);
                assert(prefix1.last() == ms1[i as int]);
            }
            let mut m: Monster = self.board.monsters[i];
            m.update(elapsed, &self.board.path_blocks, &mut self.player);
            self.board.monsters.set(i, m);
            i = i + 1;
        }
        proof {
            assert(ms1.subrange(0, ms1.len() as int) =~= ms1);
            assert(self.board.monsters@ =~= spec_monsters_moved(ms1, elapsed as int, path0));
        }

        let ghost ms2: Seq<Monster> = self.board.monsters@;
        let mut kept: Vec<Monster> = Vec::new();
        proof {
            assert(ms2.subrange(0, 0) =~= Seq::<Monster>::empty());
        }
        let mut r: usize = 0;
        while r < self.board.monsters.len()
            invariant
                0 <= r <= ms2.len(),
                self.board.monsters@ == ms2,
                kept@ == spec_live(ms2.subrange(0, r as int)),
            decreases ms2.len() - r,
        {
            let ghost prefix = ms2.subrange(0, r as int);
            let ghost prefix1 = ms2.subrange(0, r as int + 1);
            proof {
                assert(prefix1.drop_last() =~= prefix);
                assert(prefix1.last() == ms2[r as int]);
            }
            let m: Monster = self.board.monsters[r];
            if !(matches!(m.state, MonsterState::Dead)) {
                kept.push(m);
            }
            r = r + 1;
        }
        proof {
            assert(ms2.subrange(0, ms2.len() as int) =~= ms2);
        }
        self.board.monsters = kept;

        let ghost ms3: Seq<Monster> = self.board.monsters@;
        let ghost piles0: Seq<GoldPile> = self.board.gold_piles@;
        let ghost ts0: Seq<Tower> = self.board.towers@;
        let ghost mut choices: Seq<int> = Seq::empty();
        proof {
            assert(ts0.subrange(0, 0) =~= Seq::<Tower>::empty());
            lemma_live_wf(ms2, path0);
        }
        let mut k: usize = 0;
        while k < self.board.towers.len()
            invariant
                0 <= k <= ts0.len(),
                self.board.towers@.len() == ts0.len(),
                forall|j: int| k <= j < ts0.len() ==> self.board.towers@[j] == ts0[j],
                towers_wf(ts0),
                choices.len() == k,
                spec_choices_ok(ts0.subrange(0, k as int), ms3, piles0, elapsed as int, choices),
                ({
                    let folded = spec_towers_fold(
                        ts0.subrange(0, k as int),
                        ms3,
                        piles0,
                        elapsed as int,
                        choices,
                    );
                    self.board.towers@.subrange(0, k as int) == folded.0 && self.board.monsters@
                        == folded.1 && self.board.gold_piles@ == folded.2
                }),
                monsters_wf(self.board.monsters@),
                forall|j: int|
                    0 <= j < self.board.towers@.len() ==> (
                    #[trigger] self.board.towers@[j]).in_bounds(),
                self.board.monsters@.len() == ms3.len(),
                forall|j: int|
                    0 <= j < ms3.len() ==> (#[trigger] self.board.monsters@[j]).move_goal
                        == ms3[j].move_goal,
                forall|j: int| 0 <= j < ms3.len() ==> (#[trigger] ms3[j]).move_goal <= path0.len(),
                self.board.path_blocks@ == path0,
                self.board.base == g0.board.base,
                self.player == (Player {
                    health: spec_health_after_hits(h0, ms1, path0) as i64,
                    gold: gold0,
                }),
                self.player.health <= STARTING_HEALTH,
                self.spawner.spawn_timer == spec_spawn_timer_after(
                    g0.spawner.spawn_timer as int,
                    elapsed as int,
                ),
            decreases ts0.len() - k,
        {
            let ghost folded_prev = spec_towers_fold(
                ts0.subrange(0, k as int),
                ms3,
                piles0,
                elapsed as int,
                choices,
            );
            let mut t: Tower = self.board.towers[k];
            t.update(elapsed, &mut self.board.monsters, &mut self.board.gold_piles);
            self.board.towers.set(k, t);
            proof {
                let c = choose|c: int|
                    0 <= c < spec_choice_bound(ts0[k as int], folded_prev.1, elapsed as int) && (
                    t,
                    self.board.monsters@,
                    self.board.gold_piles@,
                    ) == spec_tower_update(
                        ts0[k as int],
                        folded_prev.1,
                        folded_prev.2,
                        elapsed as int,
                        c,
                    );
                lemma_towers_fold_push(
                    ts0.subrange(0, k as int),
                    ms3,
                    piles0,
                    elapsed as int,
                    choices,
                    ts0[k as int],
                    c,
                );
                lemma_choices_ok_push(
                    ts0.subrange(0, k as int),
                    ms3,
                    piles0,
                    elapsed as int,
                    choices,
                    ts0[k as int],
                    c,
                );
                choices = choices.push(c);
                assert(ts0.subrange(0, k as int + 1) =~= ts0.subrange(0, k as int).push(
                    ts0[k as int],
                ));
                assert(self.board.towers@.subrange(0, k as int) =~= folded_prev.0);
                assert(self.board.towers@.subrange(0, k as int + 1) =~= self.board.towers@.subrange(
                    0,
                    k as int,
                ).push(t));
            }
            k = k + 1;
        }
        proof {
            assert(ts0.subrange(0, ts0.len() as int) =~= ts0);
            assert(self.board.towers@.subrange(0, ts0.len() as int) =~= self.board.towers@);
            assert(spec_tick_post(g0, *self, elapsed as int, choices));
        }
    }
}

/// Removing the dead keeps every surviving monster's bounds and goal
/// index.
proof fn lemma_live_wf(ms: Seq<Monster>, path: Seq<Block>)
    requires
        monsters_wf(ms),
        forall|i: int| 0 <= i < ms.len() ==> (#[trigger] ms[i]).move_goal <= path.len(),
    ensures
        monsters_wf(spec_live(ms)),
        forall|i: int|
            0 <= i < spec_live(ms).len() ==> (#[trigger] spec_live(ms)[i]).move_goal <= path.len(),
    decreases ms.len(),
{
    if ms.len() > 0 {
        assert(monsters_wf(ms.drop_last())) by {
            assert(forall|i: int|
                0 <= i < ms.drop_last().len() ==> ms.drop_last()[i] == ms[i] && (
                #[trigger] ms.drop_last()[i]).in_bounds());
        }
        lemma_live_wf(ms.drop_last(), path);
    }
}

} // verus!
