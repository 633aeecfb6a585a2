use tower_defense::geometry::Block;
use tower_defense::gold_pile::GoldPile;
use tower_defense::monster::{Monster, MonsterState};
use tower_defense::player::Player;

fn walking_monster(x: i64, y: i64) -> Monster {
    Monster { x, y, speed: 100, health: 100, move_goal: 0, state: MonsterState::Walking }
}

#[test]
fn monster_snaps_onto_close_waypoint() {
    // Target of cell (0, 0) is (7, 7); the step (100 units) is longer
    // than the distance, so the monster lands exactly on the target.
    let path = vec![Block { x: 0, y: 0 }];
    let mut m = walking_monster(0, 0);
    let mut p = Player { health: 100, gold: 300 };
    m.update(1000, &path, &mut p);
    assert_eq!((m.x, m.y), (7, 7));
    assert_eq!(m.move_goal, 1);
    assert_eq!(m.state, MonsterState::Walking);
    assert_eq!(p.health, 100);
}

#[test]
fn monster_moves_one_step_toward_far_waypoint() {
    // Cell (10, 0): target x = 10 * 35 + 17 - 10 = 357.  In 100 ms at
    // speed 100 the step is 10 units, straight along the x axis.
    let path = vec![Block { x: 10, y: 0 }];
    let mut m = walking_monster(0, 7);
    let mut p = Player { health: 100, gold: 300 };
    m.update(100, &path, &mut p);
    assert_eq!((m.x, m.y), (10, 7));
    assert_eq!(m.move_goal, 0);
    assert_eq!(m.state, MonsterState::Walking);
}

#[test]
fn monster_consumes_each_waypoint_in_order() {
    // Three cells in a row; big steps snap one waypoint per tick, so
    // the goal index runs 0, 1, 2, 3 with no skips, and only after the
    // third advancement does the monster turn to attacking.
    let path = vec![Block { x: 0, y: 0 }, Block { x: 1, y: 0 }, Block { x: 2, y: 0 }];
    let mut m = walking_monster(7, 7);
    let mut p = Player { health: 100, gold: 300 };
    let mut goals = vec![m.move_goal];
    for _ in 0..4 {
        m.update(1000, &path, &mut p);
        goals.push(m.move_goal);
    }
    assert_eq!(goals, vec![0, 1, 2, 3, 3]);
    assert_eq!(m.state, MonsterState::Attacking);
    // Reaching the base costs the player one hit of health, once.
    assert_eq!(p.health, 90);
    m.update(1000, &path, &mut p);
    assert_eq!(p.health, 90);
}

#[test]
fn monster_at_end_of_empty_path_attacks_immediately() {
    let path: Vec<Block> = Vec::new();
    let mut m = walking_monster(0, 0);
    let mut p = Player { health: 100, gold: 300 };
    m.update(100, &path, &mut p);
    assert_eq!(m.state, MonsterState::Attacking);
    assert_eq!(p.health, 90);
}

#[test]
fn dead_monster_does_not_move() {
    let path = vec![Block { x: 10, y: 0 }];
    let mut m = walking_monster(0, 7);
    m.health = 0;
    let mut p = Player { health: 100, gold: 300 };
    m.update(1000, &path, &mut p);
    assert_eq!(m.state, MonsterState::Dead);
    assert_eq!((m.x, m.y), (0, 7));
    assert_eq!(p.health, 100);
}

#[test]
fn lethal_damage_drops_exactly_one_pile() {
    let mut m = walking_monster(42, 17);
    let mut piles: Vec<GoldPile> = Vec::new();
    m.recieve_damage(40, &mut piles);
    assert_eq!(m.health, 60);
    assert!(piles.is_empty());
    m.recieve_damage(60, &mut piles);
    assert_eq!(m.health, 0);
    assert_eq!(piles.len(), 1);
    assert_eq!((piles[0].x, piles[0].y, piles[0].value), (42, 17, 10));
    // Further hits on the dead monster never drop another pile.
    m.recieve_damage(1000, &mut piles);
    assert_eq!(m.health, -1000);
    assert_eq!(piles.len(), 1);
}

#[test]
fn monster_snaps_diagonally_without_overshoot() {
    // Cell (2, 2): target (77, 77).  From (74, 73) the distance is
    // sqrt(9 + 16) = 5, below the 10-unit step: the monster must land
    // exactly on the target, not past it.
    let path = vec![Block { x: 2, y: 2 }];
    let mut m = walking_monster(74, 73);
    let mut p = Player { health: 100, gold: 300 };
    m.update(100, &path, &mut p);
    assert_eq!((m.x, m.y), (77, 77));
    assert_eq!(m.move_goal, 1);
}

#[test]
fn monster_exactly_on_goal_advances_without_moving() {
    let path = vec![Block { x: 0, y: 0 }, Block { x: 1, y: 0 }];
    let mut m = walking_monster(7, 7); // exactly on cell (0, 0)'s target
    let mut p = Player { health: 100, gold: 300 };
    m.update(0, &path, &mut p);
    assert_eq!((m.x, m.y), (7, 7));
    assert_eq!(m.move_goal, 1);
}
