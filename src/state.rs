use vstd::prelude::*;

use crate::coords::Coords;

verus! {

/// Width and height of the square board.
pub const BOARD_SIZE: usize = 32;

/// Number of tiles on the board.
pub const BOARD_TILES: usize = 1024;

/// Number of slots in the monster roster.
pub const MONSTER_CAPACITY: usize = 72;

/// Number of slots in the trap list.
pub const TRAP_CAPACITY: usize = 32;

/// Number of player inventory slots.
pub const INVENTORY_SIZE: usize = 10;

/// Length of the pending input buffer.
pub const INPUT_BUFFER_SIZE: usize = 32;

/// Tile reference meaning "no monster here"; never a valid roster index.
pub const NO_MONSTER: u8 = 255;

/// A failed lookup in the state store.
#[derive(Clone, Copy, Debug, PartialEq, Eq, Structural)]
pub enum StoreError {
    /// A roster or trap index at or past the capacity.
    OutOfRange,
    /// A coordinate outside the board on either axis.
    OutOfBounds,
}

#[derive(Clone, Copy, Debug, PartialEq, Eq, Structural)]
pub enum MonsterClass {
    Empty,
    GreenSlime,
    BlueSlime,
    YellowSlime,
}

#[derive(Clone, Copy, Debug, PartialEq, Eq, Structural)]
pub enum ItemType {
    NoItem,
    Bombs,
    Bombs3,
    Heart1,
    Heart2,
    Jeweled,
    Lunging,
    MemersCap,
    Pacemaker,
    ScrollFreeze,
}

#[derive(Clone, Copy, Debug, PartialEq, Eq, Structural)]
pub enum TileType {
    Floor,
    ShopFloor,
    Water,
    Tar,
    Stairs,
    Fire,
    Ice,
    Ooze,
    Wire,
}

#[derive(Clone, Copy, Debug, PartialEq, Eq, Structural)]
pub enum TrapType {
    OmniBounce,
    /// Any of the eight directional bounce traps; `Trap::dir` gives the direction.
    Bounce,
    Spike,
    Trapdoor,
    Confuse,
    Teleport,
    TempoDown,
    TempoUp,
    /// Reserved; has no behaviour.
    RandBounce,
    BombTrap,
}

impl MonsterClass {
    /// The value that stands for this variant in the engine's memory layout.
    pub open spec fn spec_code(self) -> u8 {
        match self {
            MonsterClass::Empty => 0,
            MonsterClass::GreenSlime => 1,
            MonsterClass::BlueSlime => 2,
            MonsterClass::YellowSlime => 3,
        }
    }

    pub fn code(&self) -> (r: u8)
        ensures
            r == self.spec_code(),
    {
        match self {
            MonsterClass::Empty => 0,
            MonsterClass::GreenSlime => 1,
            MonsterClass::BlueSlime => 2,
            MonsterClass::YellowSlime => 3,
        }
    }

    /// The variant that `c` stands for, if any.
    pub fn from_code(c: u8) -> (r: Option<MonsterClass>)
        ensures
            r matches Some(v) ==> v.spec_code() == c,
            r is None ==> forall|v: MonsterClass| #[trigger] v.spec_code() != c,
    {
        match c {
            0 => Some(MonsterClass::Empty),
            1 => Some(MonsterClass::GreenSlime),
            2 => Some(MonsterClass::BlueSlime),
            3 => Some(MonsterClass::YellowSlime),
            _ => None,
        }
    }
}

impl ItemType {
    /// The value that stands for this variant in the engine's memory layout.
    pub open spec fn spec_code(self) -> u8 {
        match self {
            ItemType::NoItem => 0,
            ItemType::Bombs => 1,
            ItemType::Bombs3 => 2,
            ItemType::Heart1 => 3,
            ItemType::Heart2 => 4,
            ItemType::Jeweled => 5,
            ItemType::Lunging => 6,
            ItemType::MemersCap => 7,
            ItemType::Pacemaker => 8,
            ItemType::ScrollFreeze => 9,
        }
    }

    pub fn code(&self) -> (r: u8)
        ensures
            r == self.spec_code(),
    {
        match self {
            ItemType::NoItem => 0,
            ItemType::Bombs => 1,
            ItemType::Bombs3 => 2,
            ItemType::Heart1 => 3,
            ItemType::Heart2 => 4,
            ItemType::Jeweled => 5,
            ItemType::Lunging => 6,
            ItemType::MemersCap => 7,
            ItemType::Pacemaker => 8,
            ItemType::ScrollFreeze => 9,
        }
    }

    /// The variant that `c` stands for, if any.
    pub fn from_code(c: u8) -> (r: Option<ItemType>)
        ensures
            r matches Some(v) ==> v.spec_code() == c,
            r is None ==> forall|v: ItemType| #[trigger] v.spec_code() != c,
    {
        match c {
            0 => Some(ItemType::NoItem),
            1 => Some(ItemType::Bombs),
            2 => Some(ItemType::Bombs3),
            3 => Some(ItemType::Heart1),
            4 => Some(ItemType::Heart2),
            5 => Some(ItemType::Jeweled),
            6 => Some(ItemType::Lunging),
            7 => Some(ItemType::MemersCap),
            8 => Some(ItemType::Pacemaker),
            9 => Some(ItemType::ScrollFreeze),
            _ => None,
        }
    }
}

impl TileType {
    /// The value that stands for this variant in the engine's memory layout.
    pub open spec fn spec_code(self) -> u8 {
        match self {
            TileType::Floor => 0,
            TileType::ShopFloor => 3,
            TileType::Water => 4,
            TileType::Tar => 8,
            TileType::Stairs => 9,
            TileType::Fire => 10,
            TileType::Ice => 11,
            TileType::Ooze => 17,
            TileType::Wire => 20,
        }
    }

    pub fn code(&self) -> (r: u8)
        ensures
            r == self.spec_code(),
    {
        match self {
            TileType::Floor => 0,
            TileType::ShopFloor => 3,
            TileType::Water => 4,
            TileType::Tar => 8,
            TileType::Stairs => 9,
            TileType::Fire => 10,
            TileType::Ice => 11,
            TileType::Ooze => 17,
            TileType::Wire => 20,
        }
    }

    /// The variant that `c` stands for, if any.
    pub fn from_code(c: u8) -> (r: Option<TileType>)
        ensures
            r matches Some(v) ==> v.spec_code() == c,
            r is None ==> forall|v: TileType| #[trigger] v.spec_code() != c,
    {
        match c {
            0 => Some(TileType::Floor),
            3 => Some(TileType::ShopFloor),
            4 => Some(TileType::Water),
            8 => Some(TileType::Tar),
            9 => Some(TileType::Stairs),
            10 => Some(TileType::Fire),
            11 => Some(TileType::Ice),
            17 => Some(TileType::Ooze),
            20 => Some(TileType::Wire),
            _ => None,
        }
    }
}

impl TrapType {
    /// The value that stands for this variant in the engine's memory layout.
    pub open spec fn spec_code(self) -> u32 {
        match self {
            TrapType::OmniBounce => 0,
            TrapType::Bounce => 1,
            TrapType::Spike => 2,
            TrapType::Trapdoor => 3,
            TrapType::Confuse => 4,
            TrapType::Teleport => 5,
            TrapType::TempoDown => 6,
            TrapType::TempoUp => 7,
            TrapType::RandBounce => 8,
            TrapType::BombTrap => 9,
        }
    }

    pub fn code(&self) -> (r: u32)
        ensures
            r == self.spec_code(),
    {
        match self {
            TrapType::OmniBounce => 0,
            TrapType::Bounce => 1,
            TrapType::Spike => 2,
            TrapType::Trapdoor => 3,
            TrapType::Confuse => 4,
            TrapType::Teleport => 5,
            TrapType::TempoDown => 6,
            TrapType::TempoUp => 7,
            TrapType::RandBounce => 8,
            TrapType::BombTrap => 9,
        }
    }

    /// The variant that `c` stands for, if any.
    pub fn from_code(c: u32) -> (r: Option<TrapType>)
        ensures
            r matches Some(v) ==> v.spec_code() == c,
            r is None ==> forall|v: TrapType| #[trigger] v.spec_code() != c,
    {
        match c {
            0 => Some(TrapType::OmniBounce),
            1 => Some(TrapType::Bounce),
            2 => Some(TrapType::Spike),
            3 => Some(TrapType::Trapdoor),
            4 => Some(TrapType::Confuse),
            5 => Some(TrapType::Teleport),
            6 => Some(TrapType::TempoDown),
            7 => Some(TrapType::TempoUp),
            8 => Some(TrapType::RandBounce),
            9 => Some(TrapType::BombTrap),
            _ => None,
        }
    }
}

/// An enemy, a bomb or the player: everything that occupies a roster slot.
#[derive(Clone, Copy, Debug, PartialEq, Eq, Structural)]
pub struct Monster {
    pub pos: Coords,
    pub prev_pos: Coords,
    pub dir: Coords,
    pub class: MonsterClass,
    pub hp: u8,
    pub delay: u8,
    pub confusion: u8,
    pub freeze: u8,
    pub state: u8,
    pub exhausted: u8,
    pub item: ItemType,
    pub aggro: bool,
    pub lord: bool,
    pub untrapped: bool,
    pub electrified: bool,
    pub knocked: bool,
    pub requeued: bool,
    pub was_requeued: bool,
}

#[derive(Clone, Copy, Debug, PartialEq, Eq, Structural)]
pub struct Tile {
    pub class: TileType,
    pub hp: i8,
    /// Roster index of the occupant, or `NO_MONSTER`.
    pub monster: u8,
    pub item: ItemType,
    pub light: u16,
    pub revealed: bool,
    pub flags: u8,
}

#[derive(Clone, Copy, Debug, PartialEq, Eq, Structural)]
pub struct Trap {
    pub class: TrapType,
    pub pos: Coords,
    pub dir: Coords,
}

/// Whether a coordinate names a tile of the board.
pub open spec fn on_board(c: Coords) -> bool {
    0 <= c.x < BOARD_SIZE && 0 <= c.y < BOARD_SIZE
}

/// Row-major position of an on-board coordinate in `GameState::board`.
pub open spec fn tile_index(c: Coords) -> int {
    c.y * BOARD_SIZE + c.x
}

impl Monster {
    pub open spec fn empty_spec() -> Monster {
        let origin = Coords { x: 0, y: 0 };
        Monster {
            pos: origin,
            prev_pos: origin,
            dir: origin,
            class: MonsterClass::Empty,
            hp: 0,
            delay: 0,
            confusion: 0,
            freeze: 0,
            state: 0,
            exhausted: 0,
            item: ItemType::NoItem,
            aggro: false,
            lord: false,
            untrapped: false,
            electrified: false,
            knocked: false,
            requeued: false,
            was_requeued: false,
        }
    }

    /// An empty roster slot.
    pub fn empty() -> (r: Monster)
        ensures
            r == Monster::empty_spec(),
    {
        let origin = Coords { x: 0, y: 0 };
        Monster {
            pos: origin,
            prev_pos: origin,
            dir: origin,
            class: MonsterClass::Empty,
            hp: 0,
            delay: 0,
            confusion: 0,
            freeze: 0,
            state: 0,
            exhausted: 0,
            item: ItemType::NoItem,
            aggro: false,
            lord: false,
            untrapped: false,
            electrified: false,
            knocked: false,
            requeued: false,
            was_requeued: false,
        }
    }
}

impl Tile {
    pub open spec fn empty_spec() -> Tile {
        Tile {
            class: TileType::Floor,
            hp: 0,
            monster: NO_MONSTER,
            item: ItemType::NoItem,
            light: 0,
            revealed: false,
            flags: 0,
        }
    }

    /// An unlit, unrevealed, empty floor tile.
    pub fn empty() -> (r: Tile)
        ensures
            r == Tile::empty_spec(),
    {
        Tile {
            class: TileType::Floor,
            hp: 0,
            monster: NO_MONSTER,
            item: ItemType::NoItem,
            light: 0,
            revealed: false,
            flags: 0,
        }
    }
}

impl Trap {
    pub open spec fn empty_spec() -> Trap {
        let origin = Coords { x: 0, y: 0 };
        Trap { class: TrapType::RandBounce, pos: origin, dir: origin }
    }

    /// An unused trap slot.
    pub fn empty() -> (r: Trap)
        ensures
            r == Trap::empty_spec(),
    {
        let origin = Coords { x: 0, y: 0 };
        Trap { class: TrapType::RandBounce, pos: origin, dir: origin }
    }
}

/// The whole simulation state: board, roster, traps, global counters and the player's own fields.
pub struct GameState {
    /// Row-major, `BOARD_TILES` long; see `tile_index`.
    pub board: Vec<Tile>,
    /// `MONSTER_CAPACITY` slots.
    pub monsters: Vec<Monster>,
    /// `TRAP_CAPACITY` slots.
    pub traps: Vec<Trap>,
    /// Roster slot of the player.
    pub player: usize,
    pub seed: u64,
    /// `INPUT_BUFFER_SIZE` pending input bytes.
    pub input: Vec<u8>,
    pub current_beat: u8,
    pub locking_enemies: u8,
    pub nightmare: u8,
    pub monkeyed: u8,
    pub mommy_spawn: u8,
    pub sarco_spawn: u8,
    pub last_monster: u8,
    /// `INVENTORY_SIZE` slots.
    pub inventory: Vec<ItemType>,
    pub player_moved: bool,
    pub sliding_on_ice: bool,
    pub boots_on: bool,
    pub iframes: u8,
}

impl GameState {
    /// Every fixed-capacity store has its capacity and the player slot is in the roster.
    pub open spec fn wf(&self) -> bool {
        &&& self.board@.len() == BOARD_TILES
        &&& self.monsters@.len() == MONSTER_CAPACITY
        &&& self.traps@.len() == TRAP_CAPACITY
        &&& self.input@.len() == INPUT_BUFFER_SIZE
        &&& self.inventory@.len() == INVENTORY_SIZE
        &&& self.player < MONSTER_CAPACITY
    }

    /// The monster in the player's slot.
    pub open spec fn spec_player(&self) -> Monster {
        self.monsters@[self.player as int]
    }

    /// Whether the player still has hit points.
    pub open spec fn spec_player_alive(&self) -> bool {
        self.spec_player().hp > 0
    }

    /// An empty level whose player occupies roster slot `player`.
    pub fn new(player: usize) -> (r: Result<GameState, StoreError>)
        ensures
            player < MONSTER_CAPACITY <==> r is Ok,
            r is Err ==> r == Err::<GameState, StoreError>(StoreError::OutOfRange),
            r matches Ok(g) ==> {
                &&& g.wf()
                &&& g.player == player
                &&& forall|i: int| 0 <= i < MONSTER_CAPACITY ==> #[trigger] g.monsters@[i] == Monster::empty_spec()
                &&& forall|i: int| 0 <= i < BOARD_TILES ==> #[trigger] g.board@[i] == Tile::empty_spec()
                &&& forall|i: int| 0 <= i < TRAP_CAPACITY ==> #[trigger] g.traps@[i] == Trap::empty_spec()
                &&& forall|i: int| 0 <= i < INVENTORY_SIZE ==> #[trigger] g.inventory@[i] == ItemType::NoItem
                &&& forall|i: int| 0 <= i < INPUT_BUFFER_SIZE ==> #[trigger] g.input@[i] == 0
                &&& g.seed == 0 && g.current_beat == 0
            },
    {
        if player >= MONSTER_CAPACITY {
            return Err(StoreError::OutOfRange);
        }
        let mut board: Vec<Tile> = Vec::new();
        while board.len() < BOARD_TILES
            invariant
                board@.len() <= BOARD_TILES,
                forall|i: int| 0 <= i < board@.len() ==> #[trigger] board@[i] == Tile::empty_spec(),
            decreases BOARD_TILES - board@.len(),
        {
            board.push(Tile::empty());
        }
        let mut monsters: Vec<Monster> = Vec::new();
        while monsters.len() < MONSTER_CAPACITY
            invariant
                monsters@.len() <= MONSTER_CAPACITY,
                forall|i: int| 0 <= i < monsters@.len() ==> #[trigger] monsters@[i] == Monster::empty_spec(),
            decreases MONSTER_CAPACITY - monsters@.len(),
        {
            monsters.push(Monster::empty());
        }
        let mut traps: Vec<Trap> = Vec::new();
        while traps.len() < TRAP_CAPACITY
            invariant
                traps@.len() <= TRAP_CAPACITY,
                forall|i: int| 0 <= i < traps@.len() ==> #[trigger] traps@[i] == Trap::empty_spec(),
            decreases TRAP_CAPACITY - traps@.len(),
        {
            traps.push(Trap::empty());
        }
        let mut inventory: Vec<ItemType> = Vec::new();
        while inventory.len() < INVENTORY_SIZE
            invariant
                inventory@.len() <= INVENTORY_SIZE,
                forall|i: int| 0 <= i < inventory@.len() ==> #[trigger] inventory@[i] == ItemType::NoItem,
            decreases INVENTORY_SIZE - inventory@.len(),
        {
            inventory.push(ItemType::NoItem);
        }
        let mut input: Vec<u8> = Vec::new();
        while input.len() < INPUT_BUFFER_SIZE
            invariant
                input@.len() <= INPUT_BUFFER_SIZE,
                forall|i: int| 0 <= i < input@.len() ==> #[trigger] input@[i] == 0,
            decreases INPUT_BUFFER_SIZE - input@.len(),
        {
            input.push(0);
        }
        Ok(
            GameState {
                board,
                monsters,
                traps,
                player,
                seed: 0,
                input,
                current_beat: 0,
                locking_enemies: 0,
                nightmare: 0,
                monkeyed: 0,
                mommy_spawn: 0,
                sarco_spawn: 0,
                last_monster: 0,
                inventory,
                player_moved: false,
                sliding_on_ice: false,
                boots_on: false,
                iframes: 0,
            },
        )
    }

    /// The monster in roster slot `idx`.
    pub fn monster(&self, idx: usize) -> (r: Result<&Monster, StoreError>)
        requires
            self.wf(),
        ensures
            idx < MONSTER_CAPACITY ==> r == Ok::<&Monster, StoreError>(&self.monsters@[idx as int]),
            idx >= MONSTER_CAPACITY ==> r == Err::<&Monster, StoreError>(StoreError::OutOfRange),
    {
        if idx < self.monsters.len() {
            Ok(&self.monsters[idx])
        } else {
            Err(StoreError::OutOfRange)
        }
    }

    /// Replaces the monster in roster slot `idx`; nothing changes on failure.
    pub fn set_monster(&mut self, idx: usize, m: Monster) -> (r: Result<(), StoreError>)
        requires
            old(self).wf(),
        ensures
            final(self).wf(),
            idx < MONSTER_CAPACITY ==> {
                &&& r is Ok
                &&& final(self).monsters@ == old(self).monsters@.update(idx as int, m)
            },
            idx >= MONSTER_CAPACITY ==> {
                &&& r == Err::<(), StoreError>(StoreError::OutOfRange)
                &&& final(self).monsters@ == old(self).monsters@
            },
            final(self).board@ == old(self).board@,
            final(self).traps@ == old(self).traps@,
            final(self).player == old(self).player,
    {
        if idx < self.monsters.len() {
            self.monsters.set(idx, m);
            Ok(())
        } else {
            Err(StoreError::OutOfRange)
        }
    }

    /// The tile at `c`.
    pub fn tile(&self, c: Coords) -> (r: Result<&Tile, StoreError>)
        requires
            self.wf(),
        ensures
            on_board(c) ==> r == Ok::<&Tile, StoreError>(&self.board@[tile_index(c)]),
            !on_board(c) ==> r == Err::<&Tile, StoreError>(StoreError::OutOfBounds),
    {
        if c.x >= 0 && c.y >= 0 && (c.x as usize) < BOARD_SIZE && (c.y as usize) < BOARD_SIZE {
            let i = (c.y as usize) * BOARD_SIZE + (c.x as usize);
            Ok(&self.board[i])
        } else {
            Err(StoreError::OutOfBounds)
        }
    }

    /// Replaces the tile at `c`; nothing changes on failure.
    pub fn set_tile(&mut self, c: Coords, t: Tile) -> (r: Result<(), StoreError>)
        requires
            old(self).wf(),
        ensures
            final(self).wf(),
            on_board(c) ==> {
                &&& r is Ok
                &&& final(self).board@ == old(self).board@.update(tile_index(c), t)
            },
            !on_board(c) ==> {
                &&& r == Err::<(), StoreError>(StoreError::OutOfBounds)
                &&& final(self).board@ == old(self).board@
            },
            final(self).monsters@ == old(self).monsters@,
            final(self).traps@ == old(self).traps@,
            final(self).player == old(self).player,
    {
        if c.x >= 0 && c.y >= 0 && (c.x as usize) < BOARD_SIZE && (c.y as usize) < BOARD_SIZE {
            let i = (c.y as usize) * BOARD_SIZE + (c.x as usize);
            self.board.set(i, t);
            Ok(())
        } else {
            Err(StoreError::OutOfBounds)
        }
    }

    /// The trap in slot `idx`.
    pub fn trap(&self, idx: usize) -> (r: Result<&Trap, StoreError>)
        requires
            self.wf(),
        ensures
            idx < TRAP_CAPACITY ==> r == Ok::<&Trap, StoreError>(&self.traps@[idx as int]),
            idx >= TRAP_CAPACITY ==> r == Err::<&Trap, StoreError>(StoreError::OutOfRange),
    {
        if idx < self.traps.len() {
            Ok(&self.traps[idx])
        } else {
            Err(StoreError::OutOfRange)
        }
    }

    /// Replaces the trap in slot `idx`; nothing changes on failure.
    pub fn set_trap(&mut self, idx: usize, t: Trap) -> (r: Result<(), StoreError>)
        requires
            old(self).wf(),
        ensures
            final(self).wf(),
            idx < TRAP_CAPACITY ==> {
                &&& r is Ok
                &&& final(self).traps@ == old(self).traps@.update(idx as int, t)
            },
            idx >= TRAP_CAPACITY ==> {
                &&& r == Err::<(), StoreError>(StoreError::OutOfRange)
                &&& final(self).traps@ == old(self).traps@
            },
            final(self).board@ == old(self).board@,
            final(self).monsters@ == old(self).monsters@,
            final(self).player == old(self).player,
    {
        if idx < self.traps.len() {
            self.traps.set(idx, t);
            Ok(())
        } else {
            Err(StoreError::OutOfRange)
        }
    }

    /// The monster in the player's slot.
    pub fn player(&self) -> (r: &Monster)
        requires
            self.wf(),
        ensures
            *r == self.spec_player(),
    {
        &self.monsters[self.player]
    }

    /// Whether the player still has hit points.
    pub fn player_alive(&self) -> (r: bool)
        requires
            self.wf(),
        ensures
            r == self.spec_player_alive(),
    {
        self.monsters[self.player].hp > 0
    }

    /// Clears the per-beat flags at the end of a beat: each monster's `requeued`
    /// moves to `was_requeued`, and `player_moved` is reset.
    pub fn end_beat(&mut self)
        requires
            old(self).wf(),
        ensures
            final(self).wf(),
            final(self).monsters@.len() == old(self).monsters@.len(),
            forall|i: int|
                0 <= i < MONSTER_CAPACITY ==> #[trigger] final(self).monsters@[i] == end_of_beat(
                    old(self).monsters@[i],
                ),
            !final(self).player_moved,
            final(self).board@ == old(self).board@,
            final(self).traps@ == old(self).traps@,
            final(self).player == old(self).player,
            final(self).seed == old(self).seed,
            final(self).current_beat == old(self).current_beat,
    {
        let n = self.monsters.len();
        let mut i: usize = 0;
        while i < n
            invariant
                n == MONSTER_CAPACITY,
                self.wf(),
                0 <= i <= n,
                forall|j: int| 0 <= j < i ==> #[trigger] self.monsters@[j] == end_of_beat(
                    old(self).monsters@[j],
                ),
                forall|j: int| i <= j < n ==> #[trigger] self.monsters@[j] == old(self).monsters@[j],
                self.board@ == old(self).board@,
                self.traps@ == old(self).traps@,
                self.player == old(self).player,
                self.seed == old(self).seed,
                self.current_beat == old(self).current_beat,
            decreases n - i,
        {
            let mut m = self.monsters[i];
            m.was_requeued = m.requeued;
            m.requeued = false;
            self.monsters.set(i, m);
            i = i + 1;
        }
        self.player_moved = false;
    }
}

/// A monster after the end-of-beat flag rotation.
pub open spec fn end_of_beat(m: Monster) -> Monster {
    Monster { was_requeued: m.requeued, requeued: false, ..m }
}

/// Whether a monster acts this beat: it is not frozen and its delay has run out.
pub open spec fn acts(m: Monster) -> bool {
    m.freeze == 0 && m.delay == 0
}

impl Monster {
    /// Runs the delay and freeze part of a monster's turn and says whether it acts now.
    /// A frozen monster never acts and is left as it is; otherwise a pending delay
    /// is counted down by one and the turn is skipped.
    pub fn take_turn(&mut self) -> (r: bool)
        ensures
            r == acts(*old(self)),
            old(self).freeze == 0 && old(self).delay > 0 ==> *final(self) == (Monster {
                delay: (old(self).delay - 1) as u8,
                ..*old(self)
            }),
            old(self).freeze > 0 || old(self).delay == 0 ==> *final(self) == *old(self),
    {
        if self.freeze > 0 {
            false
        } else if self.delay > 0 {
            self.delay = self.delay - 1;
            false
        } else {
            true
        }
    }
}

} // verus!
