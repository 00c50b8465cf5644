//! The catalog of levels: which map each level loads, where the player starts
//! and where the ducklings wait.

use vstd::prelude::*;

verus! {

/// A position, or a size, counted in tiles.
#[derive(Debug, Clone, Copy, PartialEq, Eq, Structural)]
pub struct TileCoord {
    pub x: i32,
    pub y: i32,
}

/// The side of a tile of the level's grid, in world units.
pub const TILE_SIZE: i64 = 32;

/// Half the side of a tile of the map, in world units.
pub const MAP_HALF_TILE: i64 = 16;

/// A point of the world, in world units.
#[derive(Debug, Clone, Copy, PartialEq, Eq, Structural)]
pub struct WorldPoint {
    pub x: i64,
    pub y: i64,
}

impl TileCoord {
    pub open spec fn spec_new(x: i32, y: i32) -> TileCoord {
        TileCoord { x, y }
    }

    /// Where the tile lies in the world: [`TILE_SIZE`] units for each tile.
    pub fn world_position(&self) -> (r: WorldPoint)
        ensures
            r.x == TILE_SIZE * self.x,
            r.y == TILE_SIZE * self.y,
    {
        WorldPoint { x: TILE_SIZE * (self.x as i64), y: TILE_SIZE * (self.y as i64) }
    }

    /// The tile at column `x`, row `y`.
    #[verifier::when_used_as_spec(spec_new)]
    pub fn new(x: i32, y: i32) -> (r: TileCoord)
        ensures
            r == TileCoord::spec_new(x, y),
    {
        TileCoord { x, y }
    }
}

/// One level: its map, the map's size, the player's start tile and the tiles
/// where ducklings spawn, in spawn order.
#[derive(Debug, Clone, PartialEq, Eq)]
pub struct Level {
    pub map: String,
    pub size: TileCoord,
    pub start_tile: TileCoord,
    pub duckling_spawn_points: Vec<TileCoord>,
}

/// What a [`Level`] holds, as mathematical values.
pub struct LevelView {
    pub map: Seq<char>,
    pub size: TileCoord,
    pub start_tile: TileCoord,
    pub duckling_spawn_points: Seq<TileCoord>,
}

impl View for Level {
    type V = LevelView;

    open spec fn view(&self) -> LevelView {
        LevelView {
            map: self.map@,
            size: self.size,
            start_tile: self.start_tile,
            duckling_spawn_points: self.duckling_spawn_points@,
        }
    }
}

impl Level {
    /// A level from its parts.
    pub fn new(map: &str, size: TileCoord, start_tile: TileCoord, duckling_spawn_points: Vec<TileCoord>) -> (r: Level)
        ensures
            r@ == (LevelView {
                map: map@,
                size,
                start_tile,
                duckling_spawn_points: duckling_spawn_points@,
            }),
    {
        Level { map: map.to_string(), size, start_tile, duckling_spawn_points }
    }

    /// Where the map's corner is put so that the map is centred on the
    /// world's origin: [`MAP_HALF_TILE`] units back for each tile of the
    /// map's size but one.
    pub fn map_origin(&self) -> (r: WorldPoint)
        ensures
            r.x == MAP_HALF_TILE - MAP_HALF_TILE * self.size.x,
            r.y == MAP_HALF_TILE - MAP_HALF_TILE * self.size.y,
    {
        WorldPoint {
            x: MAP_HALF_TILE - MAP_HALF_TILE * (self.size.x as i64),
            y: MAP_HALF_TILE - MAP_HALF_TILE * (self.size.y as i64),
        }
    }
}

/// The number of the level being played, counted from zero. A number that is
/// not in the catalog means that no level is left.
#[derive(Debug, Clone, Copy, PartialEq, Eq, Structural)]
pub struct CurrentLevel(pub i32);

impl CurrentLevel {
    /// The first level.
    pub fn first() -> (r: CurrentLevel)
        ensures
            r.0 == 0,
    {
        CurrentLevel(0)
    }

    /// The level's number.
    pub fn index(&self) -> (r: i32)
        ensures
            r == self.0,
    {
        self.0
    }

    /// The level after this one.
    pub open spec fn advanced(self) -> CurrentLevel {
        CurrentLevel((self.0 + 1) as i32)
    }

    /// The level reached from this one by advancing `times` times.
    pub open spec fn advanced_by(self, times: nat) -> CurrentLevel
        decreases times,
    {
        if times == 0 {
            self
        } else {
            self.advanced_by((times - 1) as nat).advanced()
        }
    }
}

/// The levels of the game, in the order in which they are played.
#[derive(Debug, Clone, PartialEq, Eq)]
pub struct Levels {
    levels: Vec<Level>,
}

impl View for Levels {
    type V = Seq<LevelView>;

    closed spec fn view(&self) -> Seq<LevelView> {
        Seq::new(self.levels@.len(), |i: int| self.levels@[i]@)
    }
}

impl Levels {
    /// A catalog of the given levels, in the given order.
    pub fn from_levels(levels: Vec<Level>) -> (r: Levels)
        ensures
            r@ == Seq::new(levels@.len(), |i: int| levels@[i]@),
    {
        Levels { levels }
    }

    /// How many levels the catalog holds.
    pub fn len(&self) -> (r: usize)
        ensures
            r == self@.len(),
    {
        self.levels.len()
    }

    /// Whether the catalog holds a level of this number.
    pub open spec fn has(&self, level: CurrentLevel) -> bool {
        0 <= level.0 < self@.len()
    }

    /// Moves `level` to the next level and says whether the catalog holds it.
    pub fn advance(&self, level: &mut CurrentLevel) -> (r: bool)
        requires
            old(level).0 < i32::MAX,
        ensures
            *final(level) == old(level).advanced(),
            r == self.has(*final(level)),
    {
        level.0 = level.0 + 1;
        level.0 >= 0 && (level.0 as usize) < self.levels.len()
    }

    /// The level of this number, or `None` where the catalog has none.
    pub fn current(&self, level: CurrentLevel) -> (r: Option<&Level>)
        ensures
            r is Some <==> self.has(level),
            r matches Some(found) ==> found@ == self@[level.0 as int],
    {
        if level.0 < 0 {
            return None;
        }
        let i = level.0 as usize;
        if i < self.levels.len() {
            Some(&self.levels[i])
        } else {
            None
        }
    }
}

/// The tile at column `x`, row `y`, for integers in the range of `i32`.
pub open spec fn tile(x: int, y: int) -> TileCoord {
    TileCoord { x: x as i32, y: y as i32 }
}

/// The level of number `n` in the built-in catalog.
pub open spec fn default_level(n: int) -> LevelView {
    if n == 0 {
        LevelView {
            map: "level1.tmx"@,
            size: tile(21, 21),
            start_tile: tile(-2, 2),
            duckling_spawn_points: seq![
                tile(0, -6),
                tile(0, 8),
                tile(6, 3),
            ],
        }
    } else if n == 1 {
        LevelView {
            map: "level2.tmx"@,
            size: tile(21, 21),
            start_tile: tile(-8, -8),
            duckling_spawn_points: seq![
                tile(-8, 8),
                tile(8, -5),
                tile(4, 0),
                tile(-6, 1),
            ],
        }
    } else if n == 2 {
        LevelView {
            map: "level3.tmx"@,
            size: tile(21, 21),
            start_tile: tile(-2, -3),
            duckling_spawn_points: seq![
                tile(-8, 0),
                tile(8, 0),
                tile(8, 8),
                tile(-8, -8),
                tile(8, -8),
                tile(-8, 8),
            ],
        }
    } else if n == 3 {
        LevelView {
            map: "level4.tmx"@,
            size: tile(21, 21),
            start_tile: tile(5, 5),
            duckling_spawn_points: seq![
                tile(-7, -7),
                tile(7, -7),
                tile(-7, 0),
                tile(7, 0),
                tile(0, 7),
                tile(-3, 8),
                tile(3, 8),
            ],
        }
    } else if n == 4 {
        LevelView {
            map: "level5.tmx"@,
            size: tile(21, 21),
            start_tile: tile(0, 0),
            duckling_spawn_points: seq![
                tile(-5, -2),
                tile(5, -2),
                tile(-5, 1),
                tile(5, 1),
                tile(-9, 4),
                tile(9, -4),
                tile(1, 8),
                tile(-2, -4),
                tile(2, -4),
                tile(3, 6),
            ],
        }
    } else if n == 5 {
        LevelView {
            map: "level6.tmx"@,
            size: tile(31, 31),
            start_tile: tile(-2, 4),
            duckling_spawn_points: seq![
                tile(-13, -1),
                tile(-13, -3),
                tile(0, -13),
                tile(5, -9),
                tile(-7, -13),
                tile(9, -4),
                tile(-11, 11),
                tile(0, 11),
                tile(13, 1),
                tile(3, 7),
            ],
        }
    } else if n == 6 {
        LevelView {
            map: "level7.tmx"@,
            size: tile(31, 31),
            start_tile: tile(0, 2),
            duckling_spawn_points: seq![
                tile(-3, 0),
                tile(3, 0),
                tile(0, -3),
                tile(-11, 0),
                tile(11, 0),
                tile(0, 11),
                tile(0, -11),
                tile(9, 9),
                tile(9, -9),
                tile(-9, -9),
                tile(-9, 9),
            ],
        }
    } else if n == 7 {
        LevelView {
            map: "level8.tmx"@,
            size: tile(31, 31),
            start_tile: tile(-2, -2),
            duckling_spawn_points: seq![
                tile(-4, 2),
                tile(-8, 0),
                tile(4, 0),
                tile(6, -3),
                tile(4, -8),
                tile(8, 0),
                tile(10, 7),
                tile(-8, 6),
                tile(0, 8),
                tile(13, 7),
                tile(12, -6),
                tile(-10, -6),
                tile(-11, -10),
            ],
        }
    } else if n == 8 {
        LevelView {
            map: "level9.tmx"@,
            size: tile(25, 25),
            start_tile: tile(10, -10),
            duckling_spawn_points: seq![
                tile(3, 3),
                tile(-3, 3),
                tile(-3, -3),
                tile(3, -3),
                tile(-10, 0),
                tile(10, 0),
                tile(3, 10),
                tile(-3, -10),
                tile(10, 10),
                tile(-10, -10),
                tile(-10, 10),
                tile(4, 11),
                tile(4, -11),
            ],
        }
    } else {
        LevelView {
            map: "level11.tmx"@,
            size: tile(25, 25),
            start_tile: tile(7, 1),
            duckling_spawn_points: seq![
                tile(0, 1),
                tile(-1, 1),
                tile(-2, 1),
                tile(-3, 1),
                tile(1, 1),
                tile(2, 1),
                tile(3, 1),
                tile(4, 7),
                tile(5, 7),
                tile(6, 7),
                tile(7, 7),
                tile(8, 7),
                tile(-4, 7),
                tile(-5, 7),
                tile(-6, 7),
                tile(-7, 7),
                tile(-8, 7),
                tile(-4, -5),
                tile(-5, -5),
                tile(-6, -5),
                tile(-7, -5),
                tile(-8, -5),
                tile(4, -5),
                tile(5, -5),
                tile(6, -5),
                tile(7, -5),
                tile(8, -5),
                tile(-11, -11),
                tile(-11, 11),
                tile(11, -11),
            ],
        }
    }
}

/// How many levels the built-in catalog holds.
pub const DEFAULT_LEVEL_COUNT: usize = 10;

/// The built-in catalog.
pub open spec fn default_catalog() -> Seq<LevelView> {
    Seq::new(DEFAULT_LEVEL_COUNT as nat, |n: int| default_level(n))
}

impl Default for Levels {
    /// The built-in catalog.
    fn default() -> (r: Levels)
        ensures
            r@ == default_catalog(),
    {
        let mut levels: Vec<Level> = Vec::new();
        levels.push(Level::new(
            "level1.tmx",
            TileCoord::new(21, 21),
            TileCoord::new(-2, 2),
            vec![
                TileCoord::new(0, -6),
                TileCoord::new(0, 8),
                TileCoord::new(6, 3),
            ],
        ));
        levels.push(Level::new(
            "level2.tmx",
            TileCoord::new(21, 21),
            TileCoord::new(-8, -8),
            vec![
                TileCoord::new(-8, 8),
                TileCoord::new(8, -5),
                TileCoord::new(4, 0),
                TileCoord::new(-6, 1),
            ],
        ));
        levels.push(Level::new(
            "level3.tmx",
            TileCoord::new(21, 21),
            TileCoord::new(-2, -3),
            vec![
                TileCoord::new(-8, 0),
                TileCoord::new(8, 0),
                TileCoord::new(8, 8),
                TileCoord::new(-8, -8),
                TileCoord::new(8, -8),
                TileCoord::new(-8, 8),
            ],
        ));
        levels.push(Level::new(
            "level4.tmx",
            TileCoord::new(21, 21),
            TileCoord::new(5, 5),
            vec![
                TileCoord::new(-7, -7),
                TileCoord::new(7, -7),
                TileCoord::new(-7, 0),
                TileCoord::new(7, 0),
                TileCoord::new(0, 7),
                TileCoord::new(-3, 8),
                TileCoord::new(3, 8),
            ],
        ));
        levels.push(Level::new(
            "level5.tmx",
            TileCoord::new(21, 21),
            TileCoord::new(0, 0),
            vec![
                TileCoord::new(-5, -2),
                TileCoord::new(5, -2),
                TileCoord::new(-5, 1),
                TileCoord::new(5, 1),
                TileCoord::new(-9, 4),
                TileCoord::new(9, -4),
                TileCoord::new(1, 8),
                TileCoord::new(-2, -4),
                TileCoord::new(2, -4),
                TileCoord::new(3, 6),
            ],
        ));
        levels.push(Level::new(
            "level6.tmx",
            TileCoord::new(31, 31),
            TileCoord::new(-2, 4),
            vec![
                TileCoord::new(-13, -1),
                TileCoord::new(-13, -3),
                TileCoord::new(0, -13),
                TileCoord::new(5, -9),
                TileCoord::new(-7, -13),
                TileCoord::new(9, -4),
                TileCoord::new(-11, 11),
                TileCoord::new(0, 11),
                TileCoord::new(13, 1),
                TileCoord::new(3, 7),
            ],
        ));
        levels.push(Level::new(
            "level7.tmx",
            TileCoord::new(31, 31),
            TileCoord::new(0, 2),
            vec![
                TileCoord::new(-3, 0),
                TileCoord::new(3, 0),
                TileCoord::new(0, -3),
                TileCoord::new(-11, 0),
                TileCoord::new(11, 0),
                TileCoord::new(0, 11),
                TileCoord::new(0, -11),
                TileCoord::new(9, 9),
                TileCoord::new(9, -9),
                TileCoord::new(-9, -9),
                TileCoord::new(-9, 9),
            ],
        ));
        levels.push(Level::new(
            "level8.tmx",
            TileCoord::new(31, 31),
            TileCoord::new(-2, -2),
            vec![
                TileCoord::new(-4, 2),
                TileCoord::new(-8, 0),
                TileCoord::new(4, 0),
                TileCoord::new(6, -3),
                TileCoord::new(4, -8),
                TileCoord::new(8, 0),
                TileCoord::new(10, 7),
                TileCoord::new(-8, 6),
                TileCoord::new(0, 8),
                TileCoord::new(13, 7),
                TileCoord::new(12, -6),
                TileCoord::new(-10, -6),
                TileCoord::new(-11, -10),
            ],
        ));
        levels.push(Level::new(
            "level9.tmx",
            TileCoord::new(25, 25),
            TileCoord::new(10, -10),
            vec![
                TileCoord::new(3, 3),
                TileCoord::new(-3, 3),
                TileCoord::new(-3, -3),
                TileCoord::new(3, -3),
                TileCoord::new(-10, 0),
                TileCoord::new(10, 0),
                TileCoord::new(3, 10),
                TileCoord::new(-3, -10),
                TileCoord::new(10, 10),
                TileCoord::new(-10, -10),
                TileCoord::new(-10, 10),
                TileCoord::new(4, 11),
                TileCoord::new(4, -11),
            ],
        ));
        levels.push(Level::new(
            "level11.tmx",
            TileCoord::new(25, 25),
            TileCoord::new(7, 1),
            vec![
                TileCoord::new(0, 1),
                TileCoord::new(-1, 1),
                TileCoord::new(-2, 1),
                TileCoord::new(-3, 1),
                TileCoord::new(1, 1),
                TileCoord::new(2, 1),
                TileCoord::new(3, 1),
                TileCoord::new(4, 7),
                TileCoord::new(5, 7),
                TileCoord::new(6, 7),
                TileCoord::new(7, 7),
                TileCoord::new(8, 7),
                TileCoord::new(-4, 7),
                TileCoord::new(-5, 7),
                TileCoord::new(-6, 7),
                TileCoord::new(-7, 7),
                TileCoord::new(-8, 7),
                TileCoord::new(-4, -5),
                TileCoord::new(-5, -5),
                TileCoord::new(-6, -5),
                TileCoord::new(-7, -5),
                TileCoord::new(-8, -5),
                TileCoord::new(4, -5),
                TileCoord::new(5, -5),
                TileCoord::new(6, -5),
                TileCoord::new(7, -5),
                TileCoord::new(8, -5),
                TileCoord::new(-11, -11),
                TileCoord::new(-11, 11),
                TileCoord::new(11, -11),
            ],
        ));
        assert forall|n: int| 0 <= n < levels@.len() implies #[trigger] levels@[n]@ == default_level(n) by {
            assert(levels@[n]@.duckling_spawn_points =~= default_level(n).duckling_spawn_points);
        }
        Levels { levels }
    }
}

/// Advancing `times` times from the first level leads to level `times`.
pub proof fn lemma_advanced_from_first(times: nat)
    requires
        times <= i32::MAX,
    ensures
        CurrentLevel(0).advanced_by(times) == CurrentLevel(times as i32),
    decreases times,
{
    if times > 0 {
        lemma_advanced_from_first((times - 1) as nat);
    }
}

/// From the first level, advancing as many times as the catalog has levels
/// runs out of levels at the last advance and at none before it.
pub proof fn lemma_advance_runs_out_at_the_end(levels: Levels, times: nat)
    requires
        levels@.len() <= i32::MAX,
        1 <= times <= levels@.len(),
    ensures
        !levels.has(CurrentLevel(0).advanced_by(times)) <==> times == levels@.len(),
{
    lemma_advanced_from_first(times);
}

} // verus!
