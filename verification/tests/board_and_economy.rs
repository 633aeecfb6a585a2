use tower_defense::board::{Board, PlacementError};
use tower_defense::game::Game;
use tower_defense::player::Player;
use tower_defense::spawner::{MonsterSpawner, SPAWN_INTERVAL};
use tower_defense::tower::TowerType;
use tower_defense::utils::Scale;

#[test]
fn generated_board_has_fixed_layout() {
    let b = Board::generate(1, 2);
    assert_eq!(b.path_blocks.len(), 49);
    assert_eq!((b.path_blocks[0].x, b.path_blocks[0].y), (0, 0));
    assert_eq!((b.path_blocks[48].x, b.path_blocks[48].y), (2, 9));
    assert_eq!(b.towers.len(), 0);
    assert_eq!(b.gold_piles.len(), 0);
    assert_eq!(b.monsters.len(), 1);
    assert_eq!((b.base.x, b.base.y), (0, 8));
}

#[test]
fn placement_rejected_for_insufficient_funds() {
    let mut b = Board::generate(1, 2);
    let mut p = Player { health: 100, gold: 5 };
    let r = b.place_tower(TowerType::Basic, (3, 3), &mut p);
    assert_eq!(r, Err(PlacementError::InsufficientFunds));
    assert_eq!(p.gold, 5);
    assert_eq!(b.towers.len(), 0);
}

#[test]
fn placement_rejected_on_occupied_cell_regardless_of_funds() {
    let mut b = Board::generate(1, 2);
    let mut p = Player { health: 100, gold: 1000 };
    assert_eq!(b.place_tower(TowerType::Basic, (3, 3), &mut p), Ok(()));
    assert_eq!(p.gold, 990);
    let r = b.place_tower(TowerType::Ninja, (3, 3), &mut p);
    assert_eq!(r, Err(PlacementError::TileOccupied));
    assert_eq!(p.gold, 990);
    assert_eq!(b.towers.len(), 1);
    // A poor player on an occupied cell still sees the occupancy error.
    let mut poor = Player { health: 100, gold: 0 };
    assert_eq!(
        b.place_tower(TowerType::Basic, (3, 3), &mut poor),
        Err(PlacementError::TileOccupied)
    );
}

#[test]
fn placement_deducts_variant_cost_atomically() {
    let mut b = Board::generate(1, 2);
    let mut p = Player { health: 100, gold: 30 };
    assert_eq!(b.place_tower(TowerType::Ninja, (4, 4), &mut p), Ok(()));
    assert_eq!(p.gold, 10);
    assert_eq!(b.towers.len(), 1);
    assert_eq!(b.towers[0].tower_type, TowerType::Ninja);
    assert!(b.position_is_occupied((4, 4)));
    assert!(!b.position_is_occupied((4, 5)));
}

#[test]
fn gold_is_conserved_across_spends_and_collections() {
    // Starting with 100: -10 -20 +10 +10 with one unaffordable spend
    // in between leaves exactly 100 - 30 + 20 = 90.
    let mut p = Player { health: 100, gold: 100 };
    assert!(p.spend_gold(10));
    assert!(p.spend_gold(20));
    assert!(!p.spend_gold(1000)); // rejected: no deduction
    p.add_gold(10);
    p.add_gold(10);
    assert_eq!(p.gold, 90);
}

#[test]
fn collecting_a_pile_transfers_its_value() {
    let mut g = Game::new();
    let gold_before = g.player.gold;
    // Drop a monster right next to a ready tower so the kill leaves a
    // pile behind.
    assert_eq!(g.place_tower(TowerType::Basic, (0, 0)), Ok(()));
    g.board.monsters[0].health = 10;
    g.board.monsters[0].x = 7;
    g.board.monsters[0].y = 7;
    g.tick(100);
    assert_eq!(g.board.gold_piles.len(), 1);
    let v = g.collect_gold_pile(0);
    assert_eq!(v, 10);
    assert_eq!(g.board.gold_piles.len(), 0);
    assert_eq!(g.player.gold, gold_before - 10 + 10);
}

#[test]
fn spawner_emits_on_interval_and_resets() {
    let mut s = MonsterSpawner::new();
    let mut b = Board::generate(1, 2);
    let before = b.monsters.len();
    s.update(SPAWN_INTERVAL - 1, &mut b);
    assert_eq!(b.monsters.len(), before);
    assert_eq!(s.spawn_timer, 1);
    s.update(1, &mut b);
    assert_eq!(b.monsters.len(), before + 1);
    assert_eq!(s.spawn_timer, SPAWN_INTERVAL);
    let spawned = b.monsters[before];
    // Standing exactly on the first waypoint's target point.
    assert_eq!((spawned.x, spawned.y), (7, 7));
    assert_eq!(spawned.move_goal, 0);
    assert_eq!(spawned.health, 100);
}

#[test]
fn tick_moves_the_initial_monster() {
    let mut g = Game::new();
    let (x0, y0) = (g.board.monsters[0].x, g.board.monsters[0].y);
    g.tick(50);
    let m = &g.board.monsters[0];
    assert!((m.x, m.y) != (x0, y0));
    assert_eq!(g.player.gold, 300);
    assert_eq!(g.player.health, 100);
}

#[test]
fn tick_removes_dead_monsters() {
    let mut g = Game::new();
    g.board.monsters[0].health = 0;
    g.tick(50);
    assert!(g.board.monsters.is_empty());
}

#[test]
fn scale_maps_points_exactly() {
    // A viewport twice the default size in x and equal in y.
    let s = Scale { x_num: 1600, x_den: 800, y_num: 600, y_den: 600 };
    assert_eq!(s.to_game_point(700, 300), (350, 300));
    assert_eq!(s.to_viewport_point(350, 300), (700, 300));
}

#[test]
fn tick_spawns_a_monster_when_the_interval_elapses() {
    let mut g = Game::new();
    let before = g.board.monsters.len();
    for _ in 0..49 {
        g.tick(100); // 4.9 s: not yet
    }
    assert_eq!(g.board.monsters.len(), before);
    g.tick(100); // 5.0 s: one spawn
    assert_eq!(g.board.monsters.len(), before + 1);
}

#[test]
fn game_placement_spends_session_gold() {
    let mut g = Game::new();
    assert_eq!(g.player.gold, 300);
    assert_eq!(g.place_tower(TowerType::Basic, (2, 2)), Ok(()));
    assert_eq!(g.place_tower(TowerType::Ninja, (2, 3)), Ok(()));
    assert_eq!(g.player.gold, 270);
    assert_eq!(g.board.towers.len(), 2);
}
