use tower_defense::gold_pile::GoldPile;
use tower_defense::monster::{Monster, MonsterState};
use tower_defense::tower::{
    Tower, TowerType, BASIC_ATTACK_TIMER, NINJA_STRONG_ATTACK_TIMER,
};

fn monster_at(x: i64, y: i64) -> Monster {
    Monster { x, y, speed: 100, health: 100, move_goal: 0, state: MonsterState::Walking }
}

// The tower's center sits at (17, 17); a monster's center is its
// position plus (10, 10).
fn tower_with_cooldown(cooldown: u32) -> Tower {
    Tower {
        tower_type: TowerType::Basic,
        x: 0,
        y: 0,
        attack_cooldown: cooldown,
        strong_attack_cooldown: 0,
    }
}

#[test]
fn cooldown_gates_damage_over_scripted_timeline() {
    // A basic tower with a 1000 ms attack timer fully wound up, ticked
    // by 500, 500 and 100 ms against one monster always in range:
    // damage lands only on the tick where the timer runs out.
    assert_eq!(BASIC_ATTACK_TIMER, 1000);
    let mut t = tower_with_cooldown(BASIC_ATTACK_TIMER);
    let mut monsters = vec![monster_at(7, 7)];
    let mut piles: Vec<GoldPile> = Vec::new();

    t.update(500, &mut monsters, &mut piles);
    assert_eq!(monsters[0].health, 100); // still cooling down
    assert_eq!(t.attack_cooldown, 500);

    t.update(500, &mut monsters, &mut piles);
    assert_eq!(monsters[0].health, 90); // timer ran out: one hit
    assert_eq!(t.attack_cooldown, BASIC_ATTACK_TIMER); // and it rewound

    t.update(100, &mut monsters, &mut piles);
    assert_eq!(monsters[0].health, 90); // cooling down again
    assert_eq!(t.attack_cooldown, 900);
}

#[test]
fn ready_timer_persists_when_nothing_in_range() {
    let mut t = tower_with_cooldown(0);
    let mut monsters = vec![monster_at(5000, 5000)];
    let mut piles: Vec<GoldPile> = Vec::new();
    t.update(300, &mut monsters, &mut piles);
    assert_eq!(t.attack_cooldown, 0); // readiness is not consumed
    assert_eq!(monsters[0].health, 100);
    assert!(piles.is_empty());
}

#[test]
fn all_monsters_in_range_hit_simultaneously() {
    let mut t = tower_with_cooldown(0);
    let mut monsters = vec![monster_at(7, 7), monster_at(5000, 0), monster_at(30, 30)];
    let mut piles: Vec<GoldPile> = Vec::new();
    t.update(100, &mut monsters, &mut piles);
    assert_eq!(monsters[0].health, 90);
    assert_eq!(monsters[1].health, 100);
    assert_eq!(monsters[2].health, 90);
}

#[test]
fn range_boundary_is_exclusive() {
    // Tower center (17, 17), range 100.  A monster center exactly 100
    // away is NOT attacked; one unit closer is.
    let t = tower_with_cooldown(0);
    assert!(!t.position_is_in_attack_range((117, 17)));
    assert!(t.position_is_in_attack_range((116, 17)));

    let mut t_on = tower_with_cooldown(0);
    let mut monsters = vec![monster_at(107, 7)]; // center (117, 17)
    let mut piles: Vec<GoldPile> = Vec::new();
    t_on.update(100, &mut monsters, &mut piles);
    assert_eq!(monsters[0].health, 100);
    assert_eq!(t_on.attack_cooldown, 0);

    let mut monsters_close = vec![monster_at(106, 7)]; // center (116, 17)
    t_on.update(100, &mut monsters_close, &mut piles);
    assert_eq!(monsters_close[0].health, 90);
}

#[test]
fn tower_kill_drops_pile_at_monster_position() {
    let mut t = tower_with_cooldown(0);
    let mut weak = monster_at(7, 7);
    weak.health = 10;
    let mut monsters = vec![weak];
    let mut piles: Vec<GoldPile> = Vec::new();
    t.update(100, &mut monsters, &mut piles);
    assert_eq!(monsters[0].health, 0);
    assert_eq!(piles.len(), 1);
    assert_eq!((piles[0].x, piles[0].y, piles[0].value), (7, 7, 10));
}

#[test]
fn strong_attack_at_chosen_index_hits_regardless_of_range() {
    let mut t = Tower {
        tower_type: TowerType::Ninja,
        x: 0,
        y: 0,
        attack_cooldown: 500,
        strong_attack_cooldown: 0,
    };
    let mut monsters = vec![monster_at(7, 7), monster_at(9000, 9000)];
    let mut piles: Vec<GoldPile> = Vec::new();
    t.strong_attack_at(1, &mut monsters, &mut piles);
    assert_eq!(monsters[0].health, 100);
    assert_eq!(monsters[1].health, -900);
    assert_eq!(t.strong_attack_cooldown, NINJA_STRONG_ATTACK_TIMER);
    assert_eq!(piles.len(), 1); // 100 -> -900 crosses zero: a kill
}

#[test]
fn strong_attack_fires_through_update_on_some_monster() {
    // With the strong timer ready and one monster alive, the update
    // must pick an index below the collection length and land the
    // 1000-damage hit; a stub that handed the length back would index
    // out of bounds here.
    let mut t = Tower {
        tower_type: TowerType::Ninja,
        x: 0,
        y: 0,
        attack_cooldown: 5000,
        strong_attack_cooldown: 100,
    };
    let mut monsters = vec![monster_at(9000, 9000)];
    let mut piles: Vec<GoldPile> = Vec::new();
    t.update(100, &mut monsters, &mut piles);
    assert_eq!(monsters[0].health, -900);
    assert_eq!(t.strong_attack_cooldown, NINJA_STRONG_ATTACK_TIMER);
}

#[test]
fn strong_attack_skips_empty_collection_and_stays_ready() {
    let mut t = Tower {
        tower_type: TowerType::Ninja,
        x: 0,
        y: 0,
        attack_cooldown: 5000,
        strong_attack_cooldown: 100,
    };
    let mut monsters: Vec<Monster> = Vec::new();
    let mut piles: Vec<GoldPile> = Vec::new();
    t.update(100, &mut monsters, &mut piles);
    assert_eq!(t.strong_attack_cooldown, 0); // ticked to zero, not reset
    assert!(monsters.is_empty());
    assert!(piles.is_empty());
}

#[test]
fn new_towers_start_with_variant_cooldowns() {
    let b = Tower::new(TowerType::Basic, (3, 4));
    assert_eq!(b.get_block_position(), (3, 4));
    assert_eq!(b.attack_cooldown, 0);
    let n = Tower::new(TowerType::Ninja, (5, 6));
    assert_eq!(n.attack_cooldown, 2000);
    assert_eq!(n.strong_attack_cooldown, 5000);
    assert_eq!(n.get_center_pos_abs(), (5 * 35 + 17, 6 * 35 + 17));
}
