//! The level model: tile grid, placed items, start points and settings.

use vstd::prelude::*;
use crate::coords::TileRect;
use crate::table::{find_nearest_spec, get, has_key, keys_unique, lemma_lookup_at, lookup, put, remove_nearest, Pos};
use crate::types::{TextureType, Tile};

verus! {

/// The largest level side, in tiles.
pub const MAX_LEVEL_SIZE: u32 = 1024;

/// The largest reach of a steam emitter.
pub const MAX_STEAM_RANGE: u32 = 6;

/// Weapons, bullet kinds and enemy kinds of the game.
pub const WEAPON_COUNT: usize = 11;

pub const BULLET_COUNT: usize = 9;

pub const ENEMY_KINDS: usize = 8;

/// The longest level comment, in characters.
pub const MAX_COMMENT_LEN: usize = 19;

/// A steam emitter: its direction in degrees and its reach.
#[derive(Clone, Copy, PartialEq, Eq, Structural, Debug)]
pub struct Steam {
    pub angle: u32,
    pub range: u32,
}

/// The game kind a placed crate appears in.
#[derive(Clone, Copy, PartialEq, Eq, Structural, Debug)]
pub enum StaticCrate {
    Normal,
    Deathmatch,
}

/// What a crate holds, in the order the editor steps through them.
#[derive(Clone, Copy, PartialEq, Eq, Structural, Debug)]
pub enum CrateClass {
    Weapon,
    Bullet,
    Energy,
}

pub open spec fn class_index(c: CrateClass) -> int {
    match c {
        CrateClass::Weapon => 0,
        CrateClass::Bullet => 1,
        CrateClass::Energy => 2,
    }
}

/// How many items a crate class offers.
pub open spec fn class_len(c: CrateClass) -> int {
    match c {
        CrateClass::Weapon => WEAPON_COUNT as int,
        CrateClass::Bullet => BULLET_COUNT as int,
        CrateClass::Energy => 1,
    }
}

/// How many items a crate class offers.
pub fn crate_count(c: CrateClass) -> (r: u8)
    ensures
        r == class_len(c),
{
    match c {
        CrateClass::Weapon => 11,
        CrateClass::Bullet => 9,
        CrateClass::Energy => 1,
    }
}

/// The class after `c` in the editor's order.
pub open spec fn next_class(c: CrateClass) -> Option<CrateClass> {
    match c {
        CrateClass::Weapon => Some(CrateClass::Bullet),
        CrateClass::Bullet => Some(CrateClass::Energy),
        CrateClass::Energy => None,
    }
}

/// The class before `c` in the editor's order.
pub open spec fn previous_class(c: CrateClass) -> Option<CrateClass> {
    match c {
        CrateClass::Weapon => None,
        CrateClass::Bullet => Some(CrateClass::Weapon),
        CrateClass::Energy => Some(CrateClass::Bullet),
    }
}

impl CrateClass {
    /// The class that follows this one, if any.
    pub fn next(&self) -> (r: Option<CrateClass>)
        ensures
            r == next_class(*self),
            match r {
                Some(c) => class_index(c) == class_index(*self) + 1,
                None => *self == CrateClass::Energy,
            },
    {
        match self {
            CrateClass::Weapon => Some(CrateClass::Bullet),
            CrateClass::Bullet => Some(CrateClass::Energy),
            CrateClass::Energy => None,
        }
    }

    /// The class before this one, if any.
    pub fn previous(&self) -> (r: Option<CrateClass>)
        ensures
            r == previous_class(*self),
            match r {
                Some(c) => class_index(c) + 1 == class_index(*self),
                None => *self == CrateClass::Weapon,
            },
    {
        match self {
            CrateClass::Weapon => None,
            CrateClass::Bullet => Some(CrateClass::Weapon),
            CrateClass::Energy => Some(CrateClass::Bullet),
        }
    }
}

/// A crate placed in the level.
#[derive(Clone, Copy, PartialEq, Eq, Structural, Debug)]
pub struct StaticCrateType {
    pub crate_variant: StaticCrate,
    pub crate_class: CrateClass,
    pub crate_type: u8,
}

/// How many of each item the random crates of one game kind hold.
#[derive(Clone, Debug)]
pub struct RandomCrate {
    pub weapons: Vec<u32>,
    pub bullets: Vec<u32>,
    pub energy: u32,
}

impl RandomCrate {
    pub open spec fn wf(&self) -> bool {
        self.weapons@.len() == WEAPON_COUNT && self.bullets@.len() == BULLET_COUNT
    }

    pub fn new() -> (r: RandomCrate)
        ensures
            r.wf(),
            forall|i: int| 0 <= i < WEAPON_COUNT ==> r.weapons@[i] == 0,
            forall|i: int| 0 <= i < BULLET_COUNT ==> r.bullets@[i] == 0,
            r.energy == 0,
    {
        RandomCrate { weapons: vec![0u32; WEAPON_COUNT], bullets: vec![0u32; BULLET_COUNT], energy: 0 }
    }
}

#[derive(Clone, Debug)]
pub struct RandomCrates {
    pub normal: RandomCrate,
    pub deathmatch: RandomCrate,
}

#[derive(Debug)]
pub struct Crates {
    pub static_crates: Vec<(Pos, StaticCrateType)>,
    pub random: RandomCrates,
}

/// The level's comment, time limit and number of enemies of each kind.
#[derive(Clone, Debug)]
pub struct GeneralInfo {
    pub comment: Vec<char>,
    pub time_limit: u32,
    pub enemy_table: Vec<u32>,
}

/// One editable level: the tile grid, the placed items, the start points
/// of both players, the general settings and the view's scroll offset.
#[derive(Debug)]
pub struct Level {
    pub tiles: Vec<Vec<Tile>>,
    pub scroll: Pos,
    pub p1_position: Pos,
    pub p2_position: Pos,
    pub spotlights: Vec<(Pos, u32)>,
    pub steams: Vec<(Pos, Steam)>,
    pub crates: Crates,
    pub general_info: GeneralInfo,
}

pub open spec fn steam_ok(s: Steam) -> bool {
    s.angle < 360 && s.range <= MAX_STEAM_RANGE
}

pub open spec fn crate_ok(c: StaticCrateType) -> bool {
    c.crate_type < class_len(c.crate_class)
}

/// The tile the editor fills a new level with.
pub open spec fn default_tile() -> Tile {
    Tile { texture_type: TextureType::Floor, id: 0, shadow: 0 }
}

/// A tile after a paint stroke: a shadow stroke sets its shadow, any other
/// its atlas and id; an absent id is zero.
pub open spec fn painted(t: Tile, id: Option<u32>, texture_type: TextureType) -> Tile {
    let v = match id {
        Some(v) => v,
        None => 0u32,
    };
    if texture_type == TextureType::Shadow {
        Tile { shadow: v, ..t }
    } else {
        Tile { texture_type, id: v, ..t }
    }
}

pub open spec fn is_wall(grid: Seq<Vec<Tile>>, x: int, y: int) -> bool {
    0 <= y < grid.len() && 0 <= x < grid[y]@.len() && grid[y]@[x].texture_type == TextureType::Walls
}

/// The shadow a tile gets from the walls around it: walls cast shadow to
/// their right and downwards. Bit 1 is a wall on the left, bit 2 one above,
/// bit 4 one above on the left; a wall tile itself has none.
pub open spec fn shadow_code(grid: Seq<Vec<Tile>>, x: int, y: int) -> u32 {
    if is_wall(grid, x, y) {
        0
    } else {
        ((if is_wall(grid, x - 1, y) { 1u32 } else { 0u32 }) + (if is_wall(grid, x, y - 1) { 2u32 } else { 0u32 })
            + (if is_wall(grid, x - 1, y - 1) { 4u32 } else { 0u32 })) as u32
    }
}

/// In a well-formed level every steam emitter's reach lies within its
/// bounds and its direction within a turn, and every crate's item lies
/// within its class; every screen keeps the level well formed.
pub proof fn lemma_item_bounds(l: Level, p: Pos)
    requires
        l.wf(),
    ensures
        l.steam(p) matches Some(s) ==> s.range <= MAX_STEAM_RANGE && s.angle < 360,
        l.crate_at(p) matches Some(c) ==> 0 <= class_index(c.crate_class) <= 2 && c.crate_type <= class_len(c.crate_class) - 1,
{
    if has_key(l.steams@, p) {
        let k = choose|i: int| 0 <= i < l.steams@.len() && l.steams@[i].0 == p;
        lemma_lookup_at(l.steams@, k);
    }
    if has_key(l.crates.static_crates@, p) {
        let k = choose|i: int| 0 <= i < l.crates.static_crates@.len() && l.crates.static_crates@[i].0 == p;
        lemma_lookup_at(l.crates.static_crates@, k);
    }
}

/// Two grids of the same shape with walls at the same places give every
/// tile the same shadow.
pub proof fn lemma_same_walls(a: Seq<Vec<Tile>>, b: Seq<Vec<Tile>>, x: int, y: int)
    requires
        a.len() == b.len(),
        forall|j: int| 0 <= j < a.len() ==> #[trigger] a[j]@.len() == b[j]@.len(),
        forall|i: int, j: int| 0 <= j < a.len() && 0 <= i < a[j]@.len() ==>
            (#[trigger] a[j]@[i]).texture_type == b[j]@[i].texture_type,
    ensures
        shadow_code(a, x, y) == shadow_code(b, x, y),
{
    assert(is_wall(a, x, y) == is_wall(b, x, y));
    assert(is_wall(a, x - 1, y) == is_wall(b, x - 1, y));
    assert(is_wall(a, x, y - 1) == is_wall(b, x, y - 1));
    assert(is_wall(a, x - 1, y - 1) == is_wall(b, x - 1, y - 1));
}

impl Level {
    pub open spec fn width(&self) -> int {
        self.tiles@[0]@.len() as int
    }

    pub open spec fn height(&self) -> int {
        self.tiles@.len() as int
    }

    pub open spec fn tile(&self, x: int, y: int) -> Tile {
        self.tiles@[y]@[x]
    }

    pub open spec fn grid_wf(tiles: Seq<Vec<Tile>>) -> bool {
        &&& 1 <= tiles.len() <= MAX_LEVEL_SIZE
        &&& 1 <= tiles[0]@.len() <= MAX_LEVEL_SIZE
        &&& forall|y: int| 0 <= y < tiles.len() ==> #[trigger] tiles[y]@.len() == tiles[0]@.len()
    }

    pub open spec fn items_wf(&self) -> bool {
        &&& keys_unique(self.spotlights@)
        &&& keys_unique(self.steams@)
        &&& keys_unique(self.crates.static_crates@)
        &&& forall|i: int| 0 <= i < self.steams@.len() ==> steam_ok(#[trigger] self.steams@[i].1)
        &&& forall|i: int| 0 <= i < self.crates.static_crates@.len() ==> crate_ok(#[trigger] self.crates.static_crates@[i].1)
    }

    pub open spec fn info_wf(&self) -> bool {
        &&& self.crates.random.normal.wf()
        &&& self.crates.random.deathmatch.wf()
        &&& self.general_info.comment@.len() <= MAX_COMMENT_LEN
        &&& forall|i: int| 0 <= i < self.general_info.comment@.len() ==> (#[trigger] self.general_info.comment@[i] as u32) < 128
        &&& self.general_info.enemy_table@.len() == ENEMY_KINDS
    }

    pub open spec fn wf(&self) -> bool {
        &&& Self::grid_wf(self.tiles@)
        &&& self.scroll.0 < self.width()
        &&& self.scroll.1 < self.height()
        &&& self.items_wf()
        &&& self.info_wf()
    }

    pub open spec fn spotlight(&self, p: Pos) -> Option<u32> {
        lookup(self.spotlights@, p)
    }

    pub open spec fn steam(&self, p: Pos) -> Option<Steam> {
        lookup(self.steams@, p)
    }

    pub open spec fn crate_at(&self, p: Pos) -> Option<StaticCrateType> {
        lookup(self.crates.static_crates@, p)
    }

    /// A fresh level of `w` columns and `h` rows of floor, with nothing
    /// placed, zero settings and the players at their usual start.
    pub open spec fn is_default(&self, w: int, h: int) -> bool {
        &&& self.wf()
        &&& self.width() == w
        &&& self.height() == h
        &&& forall|x: int, y: int| 0 <= x < w && 0 <= y < h ==> #[trigger] self.tile(x, y) == default_tile()
        &&& self.scroll == (0u32, 0u32)
        &&& self.p1_position == (1u32, 1u32)
        &&& self.p2_position == (2u32, 1u32)
        &&& self.spotlights@.len() == 0
        &&& self.steams@.len() == 0
        &&& self.crates.static_crates@.len() == 0
        &&& self.general_info.comment@.len() == 0
        &&& self.general_info.time_limit == 0
        &&& forall|i: int| 0 <= i < ENEMY_KINDS ==> self.general_info.enemy_table@[i] == 0
        &&& forall|i: int| 0 <= i < WEAPON_COUNT ==> self.crates.random.normal.weapons@[i] == 0
        &&& forall|i: int| 0 <= i < BULLET_COUNT ==> self.crates.random.normal.bullets@[i] == 0
        &&& self.crates.random.normal.energy == 0
        &&& forall|i: int| 0 <= i < WEAPON_COUNT ==> self.crates.random.deathmatch.weapons@[i] == 0
        &&& forall|i: int| 0 <= i < BULLET_COUNT ==> self.crates.random.deathmatch.bullets@[i] == 0
        &&& self.crates.random.deathmatch.energy == 0
    }

    /// A fresh level of `size.0` columns and `size.1` rows of floor, with
    /// nothing placed, zero settings and the players at their usual start.
    pub fn get_default_level(size: (u32, u32)) -> (r: Level)
        requires
            1 <= size.0 <= MAX_LEVEL_SIZE,
            1 <= size.1 <= MAX_LEVEL_SIZE,
        ensures
            r.is_default(size.0 as int, size.1 as int),
    {
        let mut tiles: Vec<Vec<Tile>> = Vec::new();
        let mut y: u32 = 0;
        while y < size.1
            invariant
                y <= size.1,
                1 <= size.0 <= MAX_LEVEL_SIZE,
                tiles@.len() == y,
                forall|j: int| 0 <= j < y ==> #[trigger] tiles@[j]@.len() == size.0,
                forall|j: int, x: int| 0 <= j < y && 0 <= x < size.0 ==> #[trigger] tiles@[j]@[x] == default_tile(),
            decreases size.1 - y,
        {
            let mut row: Vec<Tile> = Vec::new();
            let mut x: u32 = 0;
            while x < size.0
                invariant
                    x <= size.0,
                    row@.len() == x,
                    forall|i: int| 0 <= i < x ==> #[trigger] row@[i] == default_tile(),
                decreases size.0 - x,
            {
                row.push(Tile { texture_type: TextureType::Floor, id: 0, shadow: 0 });
                x = x + 1;
            }
            tiles.push(row);
            y = y + 1;
        }
        Level {
            tiles,
            scroll: (0, 0),
            p1_position: (1, 1),
            p2_position: (2, 1),
            spotlights: Vec::new(),
            steams: Vec::new(),
            crates: Crates {
                static_crates: Vec::new(),
                random: RandomCrates { normal: RandomCrate::new(), deathmatch: RandomCrate::new() },
            },
            general_info: GeneralInfo { comment: Vec::new(), time_limit: 0, enemy_table: vec![0u32; ENEMY_KINDS] },
        }
    }

    pub fn get_width(&self) -> (r: u32)
        requires
            self.wf(),
        ensures
            r == self.width(),
    {
        self.tiles[0].len() as u32
    }

    pub fn get_height(&self) -> (r: u32)
        requires
            self.wf(),
        ensures
            r == self.height(),
    {
        self.tiles.len() as u32
    }

    /// Paints every tile of `rect` that lies inside the level.
    pub fn fill_rect(&mut self, rect: &TileRect, id: Option<u32>, texture_type: TextureType)
        requires
            old(self).wf(),
        ensures
            final(self).wf(),
            final(self).width() == old(self).width(),
            final(self).height() == old(self).height(),
            forall|x: int, y: int| 0 <= x < old(self).width() && 0 <= y < old(self).height() ==>
                #[trigger] final(self).tile(x, y) == if rect.contains(x, y) {
                    painted(old(self).tile(x, y), id, texture_type)
                } else {
                    old(self).tile(x, y)
                },
            final(self).same_except_tiles(*old(self)),
    {
        let width = self.get_width();
        let height = self.get_height();
        let v = match id {
            Some(v) => v,
            None => 0,
        };
        let mut tiles: Vec<Vec<Tile>> = Vec::new();
        let mut y: u32 = 0;
        while y < height
            invariant
                self.wf(),
                width == self.width(),
                height == self.height(),
                y <= height,
                v == (match id { Some(v) => v, None => 0u32 }),
                tiles@.len() == y,
                forall|j: int| 0 <= j < y ==> #[trigger] tiles@[j]@.len() == width,
                forall|j: int, x: int| 0 <= j < y && 0 <= x < width ==> #[trigger] tiles@[j]@[x] == if rect.contains(x, j) {
                    painted(self.tile(x, j), id, texture_type)
                } else {
                    self.tile(x, j)
                },
            decreases height - y,
        {
            let mut row: Vec<Tile> = Vec::new();
            let mut x: u32 = 0;
            while x < width
                invariant
                    self.wf(),
                    width == self.width(),
                    height == self.height(),
                    y < height,
                    x <= width,
                    v == (match id { Some(v) => v, None => 0u32 }),
                    row@.len() == x,
                    forall|i: int| 0 <= i < x ==> #[trigger] row@[i] == if rect.contains(i, y as int) {
                        painted(self.tile(i, y as int), id, texture_type)
                    } else {
                        self.tile(i, y as int)
                    },
                decreases width - x,
            {
                assert(self.tiles@[y as int]@.len() == width);
                let t = self.tiles[y as usize][x as usize];
                let inside = rect.x0 <= x && x <= rect.x1 && rect.y0 <= y && y <= rect.y1;
                let n = if !inside {
                    t
                } else if texture_type == TextureType::Shadow {
                    Tile { shadow: v, ..t }
                } else {
                    Tile { texture_type, id: v, ..t }
                };
                row.push(n);
                x = x + 1;
            }
            tiles.push(row);
            y = y + 1;
        }
        self.tiles = tiles;
    }

    /// Recomputes the shadow of every tile from the walls around it.
    pub fn create_shadows(&mut self)
        requires
            old(self).wf(),
        ensures
            final(self).wf(),
            final(self).width() == old(self).width(),
            final(self).height() == old(self).height(),
            forall|x: int, y: int| 0 <= x < old(self).width() && 0 <= y < old(self).height() ==>
                #[trigger] final(self).tile(x, y) == (Tile { shadow: shadow_code(final(self).tiles@, x, y), ..old(self).tile(x, y) }),
            final(self).same_except_tiles(*old(self)),
    {
        let width = self.get_width();
        let height = self.get_height();
        let mut tiles: Vec<Vec<Tile>> = Vec::new();
        let mut y: u32 = 0;
        while y < height
            invariant
                self.wf(),
                width == self.width(),
                height == self.height(),
                y <= height,
                tiles@.len() == y,
                forall|j: int| 0 <= j < y ==> #[trigger] tiles@[j]@.len() == width,
                forall|j: int, x: int| 0 <= j < y && 0 <= x < width ==> #[trigger] tiles@[j]@[x]
                    == (Tile { shadow: shadow_code(self.tiles@, x, j), ..self.tile(x, j) }),
            decreases height - y,
        {
            let mut row: Vec<Tile> = Vec::new();
            let mut x: u32 = 0;
            while x < width
                invariant
                    self.wf(),
                    width == self.width(),
                    height == self.height(),
                    y < height,
                    x <= width,
                    row@.len() == x,
                    forall|i: int| 0 <= i < x ==> #[trigger] row@[i]
                        == (Tile { shadow: shadow_code(self.tiles@, i, y as int), ..self.tile(i, y as int) }),
                decreases width - x,
            {
                let t = self.tiles[y as usize][x as usize];
                let code = self.shadow_code_at(x, y);
                row.push(Tile { shadow: code, ..t });
                x = x + 1;
            }
            tiles.push(row);
            y = y + 1;
        }
        let ghost g0 = self.tiles@;
        self.tiles = tiles;
        proof {
            assert forall|x: int, y: int| 0 <= x < self.width() && 0 <= y < self.height() implies
                shadow_code(g0, x, y) == shadow_code(self.tiles@, x, y) by {
                lemma_same_walls(g0, self.tiles@, x, y);
            }
        }
    }

    fn is_wall_at(&self, x: u32, y: u32) -> (r: bool)
        requires
            self.wf(),
        ensures
            r == is_wall(self.tiles@, x as int, y as int),
    {
        if (y as usize) < self.tiles.len() && (x as usize) < self.tiles[y as usize].len() {
            self.tiles[y as usize][x as usize].texture_type == TextureType::Walls
        } else {
            false
        }
    }

    fn shadow_code_at(&self, x: u32, y: u32) -> (r: u32)
        requires
            self.wf(),
            x < self.width(),
            y < self.height(),
        ensures
            r == shadow_code(self.tiles@, x as int, y as int),
    {
        if self.is_wall_at(x, y) {
            return 0;
        }
        let left: u32 = if x > 0 && self.is_wall_at(x - 1, y) { 1 } else { 0 };
        let up: u32 = if y > 0 && self.is_wall_at(x, y - 1) { 2 } else { 0 };
        let corner: u32 = if x > 0 && y > 0 && self.is_wall_at(x - 1, y - 1) { 4 } else { 0 };
        left + up + corner
    }

    pub fn get_spotlight_from_level(&self, p: &Pos) -> (r: Option<u32>)
        requires
            self.wf(),
        ensures
            r == self.spotlight(*p),
    {
        get(&self.spotlights, *p)
    }

    pub fn put_spotlight_to_level(&mut self, p: &Pos, intensity: u32)
        requires
            old(self).wf(),
        ensures
            final(self).wf(),
            final(self).spotlight(*p) == Some(intensity),
            forall|q: Pos| q != *p ==> final(self).spotlight(q) == old(self).spotlight(q),
            final(self).same_except_spotlights(*old(self)),
    {
        put(&mut self.spotlights, *p, intensity);
    }

    pub fn get_steam_from_level(&self, p: &Pos) -> (r: Option<Steam>)
        requires
            self.wf(),
        ensures
            r == self.steam(*p),
            r matches Some(s) ==> steam_ok(s),
    {
        proof {
            if has_key(self.steams@, *p) {
                let k = choose|i: int| 0 <= i < self.steams@.len() && self.steams@[i].0 == *p;
                lemma_lookup_at(self.steams@, k);
            }
        }
        get(&self.steams, *p)
    }

    pub fn put_steam_to_level(&mut self, p: &Pos, steam: &Steam)
        requires
            old(self).wf(),
            steam_ok(*steam),
        ensures
            final(self).wf(),
            final(self).steam(*p) == Some(*steam),
            forall|q: Pos| q != *p ==> final(self).steam(q) == old(self).steam(q),
            final(self).same_except_steams(*old(self)),
    {
        let ghost s0 = self.steams@;
        put(&mut self.steams, *p, *steam);
        proof {
            assert forall|i: int| 0 <= i < self.steams@.len() implies steam_ok(#[trigger] self.steams@[i].1) by {
                let q = self.steams@[i].0;
                lemma_lookup_at(self.steams@, i);
                if q != *p {
                    let k = choose|k: int| 0 <= k < s0.len() && s0[k].0 == q;
                    lemma_lookup_at(s0, k);
                }
            }
        }
    }

    pub fn get_crate_from_level(&self, p: &Pos) -> (r: Option<StaticCrateType>)
        requires
            self.wf(),
        ensures
            r == self.crate_at(*p),
            r matches Some(c) ==> crate_ok(c),
    {
        proof {
            if has_key(self.crates.static_crates@, *p) {
                let k = choose|i: int| 0 <= i < self.crates.static_crates@.len() && self.crates.static_crates@[i].0 == *p;
                lemma_lookup_at(self.crates.static_crates@, k);
            }
        }
        get(&self.crates.static_crates, *p)
    }

    pub fn put_crate_to_level(&mut self, p: &Pos, c: &StaticCrateType)
        requires
            old(self).wf(),
            crate_ok(*c),
        ensures
            final(self).wf(),
            final(self).crate_at(*p) == Some(*c),
            forall|q: Pos| q != *p ==> final(self).crate_at(q) == old(self).crate_at(q),
            final(self).same_except_crates(*old(self)),
    {
        let ghost s0 = self.crates.static_crates@;
        put(&mut self.crates.static_crates, *p, *c);
        proof {
            let s1 = self.crates.static_crates@;
            assert forall|i: int| 0 <= i < s1.len() implies crate_ok(#[trigger] s1[i].1) by {
                let q = s1[i].0;
                lemma_lookup_at(s1, i);
                if q != *p {
                    let k = choose|k: int| 0 <= k < s0.len() && s0[k].0 == q;
                    lemma_lookup_at(s0, k);
                }
            }
        }
    }

    /// Removes the spotlight nearest to `p` within `radius` tiles, if any.
    pub fn delete_spotlight_if_near(&mut self, p: &Pos, radius: u32)
        requires
            old(self).wf(),
        ensures
            final(self).wf(),
            match find_nearest_spec(old(self).spotlights@, *p, radius) {
                Some(k) => final(self).spotlights@ == old(self).spotlights@.remove(k),
                None => final(self).spotlights@ == old(self).spotlights@,
            },
            final(self).same_except_spotlights(*old(self)),
    {
        remove_nearest(&mut self.spotlights, *p, radius);
    }

    /// Removes the steam emitter nearest to `p` within `radius` tiles, if any.
    pub fn delete_steam_if_near(&mut self, p: &Pos, radius: u32)
        requires
            old(self).wf(),
        ensures
            final(self).wf(),
            match find_nearest_spec(old(self).steams@, *p, radius) {
                Some(k) => final(self).steams@ == old(self).steams@.remove(k),
                None => final(self).steams@ == old(self).steams@,
            },
            final(self).same_except_steams(*old(self)),
    {
        let ghost s0 = self.steams@;
        remove_nearest(&mut self.steams, *p, radius);
        proof {
            let s1 = self.steams@;
            match find_nearest_spec(s0, *p, radius) {
                Some(k) => {
                    assert forall|i: int| 0 <= i < s1.len() implies steam_ok(#[trigger] s1[i].1) by {
                        if i < k { assert(s1[i] == s0[i]); } else { assert(s1[i] == s0[i + 1]); }
                    }
                },
                None => {},
            }
        }
    }

    /// Removes the crate nearest to `p` within `radius` tiles, if any.
    pub fn delete_crate_if_near(&mut self, p: &Pos, radius: u32)
        requires
            old(self).wf(),
        ensures
            final(self).wf(),
            match find_nearest_spec(old(self).crates.static_crates@, *p, radius) {
                Some(k) => final(self).crates.static_crates@ == old(self).crates.static_crates@.remove(k),
                None => final(self).crates.static_crates@ == old(self).crates.static_crates@,
            },
            final(self).same_except_crates(*old(self)),
    {
        let ghost s0 = self.crates.static_crates@;
        remove_nearest(&mut self.crates.static_crates, *p, radius);
        proof {
            let s1 = self.crates.static_crates@;
            match find_nearest_spec(s0, *p, radius) {
                Some(k) => {
                    assert forall|i: int| 0 <= i < s1.len() implies crate_ok(#[trigger] s1[i].1) by {
                        if i < k { assert(s1[i] == s0[i]); } else { assert(s1[i] == s0[i + 1]); }
                    }
                },
                None => {},
            }
        }
    }

    /// Everything but the grid is as in `o`.
    pub open spec fn same_except_tiles(&self, o: Level) -> bool {
        &&& self.scroll == o.scroll
        &&& self.p1_position == o.p1_position
        &&& self.p2_position == o.p2_position
        &&& self.spotlights@ == o.spotlights@
        &&& self.steams@ == o.steams@
        &&& self.crates.static_crates@ == o.crates.static_crates@
        &&& self.crates.random == o.crates.random
        &&& self.general_info == o.general_info
    }

    /// The grid and everything placed but the spotlights are as in `o`.
    pub open spec fn same_except_spotlights(&self, o: Level) -> bool {
        &&& self.tiles@ == o.tiles@
        &&& self.scroll == o.scroll
        &&& self.p1_position == o.p1_position
        &&& self.p2_position == o.p2_position
        &&& self.steams@ == o.steams@
        &&& self.crates.static_crates@ == o.crates.static_crates@
        &&& self.crates.random == o.crates.random
        &&& self.general_info == o.general_info
    }

    pub open spec fn same_except_steams(&self, o: Level) -> bool {
        &&& self.tiles@ == o.tiles@
        &&& self.scroll == o.scroll
        &&& self.p1_position == o.p1_position
        &&& self.p2_position == o.p2_position
        &&& self.spotlights@ == o.spotlights@
        &&& self.crates.static_crates@ == o.crates.static_crates@
        &&& self.crates.random == o.crates.random
        &&& self.general_info == o.general_info
    }

    pub open spec fn same_except_crates(&self, o: Level) -> bool {
        &&& self.tiles@ == o.tiles@
        &&& self.scroll == o.scroll
        &&& self.p1_position == o.p1_position
        &&& self.p2_position == o.p2_position
        &&& self.spotlights@ == o.spotlights@
        &&& self.steams@ == o.steams@
        &&& self.crates.random == o.crates.random
        &&& self.general_info == o.general_info
    }
}

} // verus!
