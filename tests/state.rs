use beatgrid::coords::Coords;
use beatgrid::state::{
    GameState, ItemType, Monster, MonsterClass, StoreError, Tile, TileType, Trap, TrapType,
    BOARD_TILES, MONSTER_CAPACITY, NO_MONSTER, TRAP_CAPACITY,
};

fn slime(hp: u8) -> Monster {
    let mut m = Monster::empty();
    m.class = MonsterClass::GreenSlime;
    m.hp = hp;
    m
}

#[test]
fn new_state_is_empty() {
    let g = GameState::new(1).unwrap();
    assert_eq!(g.monsters.len(), MONSTER_CAPACITY);
    assert_eq!(g.board.len(), BOARD_TILES);
    assert_eq!(g.traps.len(), TRAP_CAPACITY);
    assert_eq!(g.inventory, vec![ItemType::NoItem; 10]);
    assert_eq!(g.player, 1);
    assert_eq!(g.monster(5).unwrap().class, MonsterClass::Empty);
    assert_eq!(g.tile(Coords { x: 3, y: 4 }).unwrap().monster, NO_MONSTER);
}

#[test]
fn new_rejects_player_slot_past_roster() {
    assert!(matches!(GameState::new(72), Err(StoreError::OutOfRange)));
    assert!(GameState::new(71).is_ok());
}

#[test]
fn monster_lookup_out_of_range() {
    let g = GameState::new(0).unwrap();
    assert!(g.monster(71).is_ok());
    assert!(matches!(g.monster(72), Err(StoreError::OutOfRange)));
}

#[test]
fn set_monster_then_lookup() {
    let mut g = GameState::new(0).unwrap();
    assert_eq!(g.set_monster(3, slime(2)), Ok(()));
    assert_eq!(*g.monster(3).unwrap(), slime(2));
    assert_eq!(g.set_monster(72, slime(2)), Err(StoreError::OutOfRange));
}

#[test]
fn tile_lookup_bounds() {
    let g = GameState::new(0).unwrap();
    assert!(g.tile(Coords { x: 0, y: 0 }).is_ok());
    assert!(g.tile(Coords { x: 31, y: 31 }).is_ok());
    assert!(matches!(g.tile(Coords { x: 32, y: 0 }), Err(StoreError::OutOfBounds)));
    assert!(matches!(g.tile(Coords { x: 0, y: 32 }), Err(StoreError::OutOfBounds)));
    assert!(matches!(g.tile(Coords { x: -1, y: 5 }), Err(StoreError::OutOfBounds)));
}

#[test]
fn set_tile_is_row_major() {
    let mut g = GameState::new(0).unwrap();
    let mut t = Tile::empty();
    t.class = TileType::Ice;
    assert_eq!(g.set_tile(Coords { x: 2, y: 1 }, t), Ok(()));
    assert_eq!(g.board[34].class, TileType::Ice);
    assert_eq!(g.tile(Coords { x: 2, y: 1 }).unwrap().class, TileType::Ice);
    assert_eq!(g.tile(Coords { x: 1, y: 2 }).unwrap().class, TileType::Floor);
    assert_eq!(g.set_tile(Coords { x: 2, y: -1 }, t), Err(StoreError::OutOfBounds));
}

#[test]
fn trap_lookup_and_set() {
    let mut g = GameState::new(0).unwrap();
    let t = Trap { class: TrapType::Spike, pos: Coords { x: 4, y: 4 }, dir: Coords { x: 0, y: 0 } };
    assert_eq!(g.set_trap(31, t), Ok(()));
    assert_eq!(g.trap(31).unwrap().class, TrapType::Spike);
    assert!(matches!(g.trap(32), Err(StoreError::OutOfRange)));
    assert_eq!(g.set_trap(32, t), Err(StoreError::OutOfRange));
}

#[test]
fn player_alive_follows_player_slot() {
    let mut g = GameState::new(1).unwrap();
    assert!(!g.player_alive());
    g.set_monster(1, slime(3)).unwrap();
    assert!(g.player_alive());
    assert_eq!(g.player().hp, 3);
    g.set_monster(0, slime(0)).unwrap();
    assert!(g.player_alive());
    g.set_monster(1, slime(0)).unwrap();
    assert!(!g.player_alive());
}

#[test]
fn end_beat_rotates_requeue_flags() {
    let mut g = GameState::new(0).unwrap();
    let mut m = slime(1);
    m.requeued = true;
    g.set_monster(2, m).unwrap();
    let mut n = slime(1);
    n.was_requeued = true;
    g.set_monster(3, n).unwrap();
    g.player_moved = true;
    g.end_beat();
    assert!(g.monsters[2].was_requeued);
    assert!(!g.monsters[2].requeued);
    assert!(!g.monsters[3].was_requeued);
    assert!(!g.monsters[3].requeued);
    assert!(!g.player_moved);
}

#[test]
fn delayed_monster_counts_down() {
    let mut m = slime(1);
    m.delay = 2;
    assert!(!m.take_turn());
    assert_eq!(m.delay, 1);
    assert!(!m.take_turn());
    assert_eq!(m.delay, 0);
    assert!(m.take_turn());
    assert_eq!(m.delay, 0);
}

#[test]
fn frozen_monster_never_acts() {
    let mut m = slime(1);
    m.freeze = 1;
    m.delay = 1;
    assert!(!m.take_turn());
    assert_eq!(m.delay, 1);
    assert_eq!(m.freeze, 1);
}

#[test]
fn tile_codes_are_sparse() {
    assert_eq!(TileType::from_code(0), Some(TileType::Floor));
    assert_eq!(TileType::from_code(3), Some(TileType::ShopFloor));
    assert_eq!(TileType::from_code(17), Some(TileType::Ooze));
    assert_eq!(TileType::from_code(20), Some(TileType::Wire));
    assert_eq!(TileType::from_code(1), None);
    assert_eq!(TileType::from_code(21), None);
    assert_eq!(TileType::Stairs.code(), 9);
}

#[test]
fn monster_item_and_trap_codes() {
    assert_eq!(MonsterClass::from_code(2), Some(MonsterClass::BlueSlime));
    assert_eq!(MonsterClass::from_code(4), None);
    assert_eq!(MonsterClass::YellowSlime.code(), 3);
    assert_eq!(ItemType::from_code(9), Some(ItemType::ScrollFreeze));
    assert_eq!(ItemType::from_code(10), None);
    assert_eq!(ItemType::Heart2.code(), 4);
    assert_eq!(TrapType::from_code(9), Some(TrapType::BombTrap));
    assert_eq!(TrapType::from_code(10), None);
    assert_eq!(TrapType::TempoUp.code(), 7);
}
