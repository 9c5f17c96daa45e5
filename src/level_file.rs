//! The level file format, as words and bytes, and the facts that tie a
//! level to its file.

use vstd::prelude::*;
use vstd::arithmetic::div_mod::{lemma_fundamental_div_mod, lemma_fundamental_div_mod_converse};
use crate::level::{
    class_len, CrateClass, Level, RandomCrate, StaticCrate, StaticCrateType, Steam, BULLET_COUNT,
    MAX_COMMENT_LEN, WEAPON_COUNT,
};
use crate::table::Pos;
use crate::types::{texture_type_code, TextureType, Tile};

verus! {

// A level file is a sequence of 32-bit words, each stored as four bytes,
// least significant first. The words are, in order:
//   width, height, player 1 x and y, player 2 x and y, time limit,
//   the eight enemy counts,
//   the normal game's random crates (eleven weapons, nine bullet kinds,
//   energy) and the deathmatch game's in the same order,
//   the comment's length and its characters, padded with zeros to nineteen,
//   the numbers of spotlights, steam emitters and crates,
//   each spotlight as x, y, intensity,
//   each steam emitter as x, y, angle, range,
//   each crate as x, y, game kind, class, item,
//   and the tiles row by row, each as atlas, id, shadow.

/// Where the fixed part of a level file ends.
pub const HEADER_WORDS: usize = 80;

pub open spec fn variant_code(v: StaticCrate) -> u32 {
    match v {
        StaticCrate::Normal => 0,
        StaticCrate::Deathmatch => 1,
    }
}

pub open spec fn class_code(c: CrateClass) -> u32 {
    match c {
        CrateClass::Weapon => 0,
        CrateClass::Bullet => 1,
        CrateClass::Energy => 2,
    }
}

pub open spec fn texture_of_code(c: u32) -> TextureType {
    if c == 0 {
        TextureType::Floor
    } else if c == 1 {
        TextureType::Walls
    } else {
        TextureType::Shadow
    }
}

pub open spec fn variant_of_code(c: u32) -> StaticCrate {
    if c == 0 { StaticCrate::Normal } else { StaticCrate::Deathmatch }
}

pub open spec fn class_of_code(c: u32) -> CrateClass {
    if c == 0 {
        CrateClass::Weapon
    } else if c == 1 {
        CrateClass::Bullet
    } else {
        CrateClass::Energy
    }
}

/// Word `j` of the three that store a tile.
pub open spec fn tile_word(t: Tile, j: int) -> u32 {
    if j == 0 {
        texture_type_code(t.texture_type)
    } else if j == 1 {
        t.id
    } else {
        t.shadow
    }
}

pub open spec fn spot_word(e: (Pos, u32), j: int) -> u32 {
    if j == 0 {
        e.0.0
    } else if j == 1 {
        e.0.1
    } else {
        e.1
    }
}

pub open spec fn steam_word(e: (Pos, Steam), j: int) -> u32 {
    if j == 0 {
        e.0.0
    } else if j == 1 {
        e.0.1
    } else if j == 2 {
        e.1.angle
    } else {
        e.1.range
    }
}

pub open spec fn crate_word(e: (Pos, StaticCrateType), j: int) -> u32 {
    if j == 0 {
        e.0.0
    } else if j == 1 {
        e.0.1
    } else if j == 2 {
        variant_code(e.1.crate_variant)
    } else if j == 3 {
        class_code(e.1.crate_class)
    } else {
        e.1.crate_type as u32
    }
}

/// Word `i` of the 21 that store a random crate table.
pub open spec fn random_word(t: RandomCrate, i: int) -> u32 {
    if i < WEAPON_COUNT {
        t.weapons@[i]
    } else if i < WEAPON_COUNT + BULLET_COUNT {
        t.bullets@[i - WEAPON_COUNT]
    } else {
        t.energy
    }
}

pub open spec fn steams_start(l: Level) -> int {
    HEADER_WORDS + 3 * l.spotlights@.len()
}

pub open spec fn crates_start(l: Level) -> int {
    steams_start(l) + 4 * l.steams@.len()
}

pub open spec fn grid_start(l: Level) -> int {
    crates_start(l) + 5 * l.crates.static_crates@.len()
}

pub open spec fn words_len(l: Level) -> int {
    grid_start(l) + 3 * (l.width() * l.height())
}

/// Word `n` of the file that stores `l`.
pub open spec fn word_at(l: Level, n: int) -> u32 {
    let f = l.general_info;
    if n == 0 {
        l.width() as u32
    } else if n == 1 {
        l.height() as u32
    } else if n == 2 {
        l.p1_position.0
    } else if n == 3 {
        l.p1_position.1
    } else if n == 4 {
        l.p2_position.0
    } else if n == 5 {
        l.p2_position.1
    } else if n == 6 {
        f.time_limit
    } else if n < 15 {
        f.enemy_table@[n - 7]
    } else if n < 36 {
        random_word(l.crates.random.normal, n - 15)
    } else if n < 57 {
        random_word(l.crates.random.deathmatch, n - 36)
    } else if n == 57 {
        f.comment@.len() as u32
    } else if n < 77 {
        if n - 58 < f.comment@.len() { f.comment@[n - 58] as u32 } else { 0 }
    } else if n == 77 {
        l.spotlights@.len() as u32
    } else if n == 78 {
        l.steams@.len() as u32
    } else if n == 79 {
        l.crates.static_crates@.len() as u32
    } else if n < steams_start(l) {
        spot_word(l.spotlights@[(n - HEADER_WORDS) / 3], (n - HEADER_WORDS) % 3)
    } else if n < crates_start(l) {
        steam_word(l.steams@[(n - steams_start(l)) / 4], (n - steams_start(l)) % 4)
    } else if n < grid_start(l) {
        crate_word(l.crates.static_crates@[(n - crates_start(l)) / 5], (n - crates_start(l)) % 5)
    } else {
        let k = (n - grid_start(l)) / 3;
        tile_word(l.tile(k % l.width(), k / l.width()), (n - grid_start(l)) % 3)
    }
}

/// The words of the file that stores `l`.
pub open spec fn level_words(l: Level) -> Seq<u32> {
    Seq::new(words_len(l) as nat, |n: int| word_at(l, n))
}

/// Byte `k` of a word, least significant first.
pub open spec fn word_byte(w: u32, k: int) -> u8 {
    if k == 0 {
        (w & 0xff) as u8
    } else if k == 1 {
        ((w >> 8u32) & 0xff) as u8
    } else if k == 2 {
        ((w >> 16u32) & 0xff) as u8
    } else {
        ((w >> 24u32) & 0xff) as u8
    }
}

pub open spec fn words_bytes(ws: Seq<u32>) -> Seq<u8> {
    Seq::new(4 * ws.len(), |n: int| word_byte(ws[n / 4], n % 4))
}

/// The bytes of the file that stores `l`.
pub open spec fn level_bytes(l: Level) -> Seq<u8> {
    words_bytes(level_words(l))
}

pub open spec fn bytes_word(b: Seq<u8>, i: int) -> u32 {
    (b[4 * i] as u32) | ((b[4 * i + 1] as u32) << 8u32) | ((b[4 * i + 2] as u32) << 16u32) | ((b[4 * i + 3] as u32)
        << 24u32)
}

pub open spec fn bytes_words(b: Seq<u8>) -> Seq<u32> {
    Seq::new(b.len() / 4, |i: int| bytes_word(b, i))
}


pub open spec fn tile_from(w: Seq<u32>, p: int) -> Tile {
    Tile { texture_type: texture_of_code(w[p]), id: w[p + 1], shadow: w[p + 2] }
}

pub open spec fn spots_in(w: Seq<u32>, start: int, n: int) -> Seq<(Pos, u32)> {
    Seq::new(n as nat, |i: int| ((w[start + 3 * i], w[start + 3 * i + 1]), w[start + 3 * i + 2]))
}

pub open spec fn steams_in(w: Seq<u32>, start: int, n: int) -> Seq<(Pos, Steam)> {
    Seq::new(
        n as nat,
        |i: int| ((w[start + 4 * i], w[start + 4 * i + 1]), Steam { angle: w[start + 4 * i + 2], range: w[start + 4 * i + 3] }),
    )
}

pub open spec fn crates_in(w: Seq<u32>, start: int, n: int) -> Seq<(Pos, StaticCrateType)> {
    Seq::new(
        n as nat,
        |i: int|
            (
                (w[start + 5 * i], w[start + 5 * i + 1]),
                StaticCrateType {
                    crate_variant: variant_of_code(w[start + 5 * i + 2]),
                    crate_class: class_of_code(w[start + 5 * i + 3]),
                    crate_type: w[start + 5 * i + 4] as u8,
                },
            ),
    )
}

/// Where the parts of a file of words `w` start, read from its header.
pub open spec fn w_steams_start(w: Seq<u32>) -> int {
    HEADER_WORDS + 3 * w[77]
}

pub open spec fn w_crates_start(w: Seq<u32>) -> int {
    w_steams_start(w) + 4 * w[78]
}

pub open spec fn w_grid_start(w: Seq<u32>) -> int {
    w_crates_start(w) + 5 * w[79]
}

/// Whether the words `w` store a level: sizes and counts in range and
/// matching the length, the comment in ASCII and zero-padded, no
/// coordinate twice in a table, steam emitters and crates within their
/// bounds, and every tile in a known atlas.
pub open spec fn valid_words(w: Seq<u32>) -> bool {
    &&& w.len() >= HEADER_WORDS
    &&& 1 <= w[0] <= crate::level::MAX_LEVEL_SIZE
    &&& 1 <= w[1] <= crate::level::MAX_LEVEL_SIZE
    &&& w[57] <= MAX_COMMENT_LEN
    &&& forall|i: int| 0 <= i < w[57] ==> #[trigger] w[58 + i] < 128
    &&& forall|i: int| w[57] <= i < MAX_COMMENT_LEN ==> #[trigger] w[58 + i] == 0
    &&& w.len() == w_grid_start(w) + 3 * (w[0] * w[1])
    &&& crate::table::keys_unique(spots_in(w, HEADER_WORDS as int, w[77] as int))
    &&& crate::table::keys_unique(steams_in(w, w_steams_start(w), w[78] as int))
    &&& crate::table::keys_unique(crates_in(w, w_crates_start(w), w[79] as int))
    &&& forall|i: int| 0 <= i < w[78] ==> crate::level::steam_ok(#[trigger] steams_in(w, w_steams_start(w), w[78] as int)[i].1)
    &&& forall|i: int| 0 <= i < w[79] ==> crate_code_ok(w, #[trigger] (w_crates_start(w) + 5 * i))
    &&& forall|x: int, y: int| 0 <= x < w[0] && 0 <= y < w[1] ==> #[trigger] w[w_grid_start(w) + 3 * (y * w[0] + x)] <= 2
}

/// The five words of a crate at `p` hold a known game kind, class and item.
pub open spec fn crate_code_ok(w: Seq<u32>, p: int) -> bool {
    w[p + 2] <= 1 && w[p + 3] <= 2 && w[p + 4] < class_len(class_of_code(w[p + 3]))
}

pub open spec fn grid_view(t: Seq<Vec<Tile>>) -> Seq<Seq<Tile>> {
    t.map_values(|r: Vec<Tile>| r@)
}

/// Two levels hold the same grid, items, start points and settings.
pub open spec fn same_content(a: Level, b: Level) -> bool {
    &&& grid_view(a.tiles@) == grid_view(b.tiles@)
    &&& a.p1_position == b.p1_position
    &&& a.p2_position == b.p2_position
    &&& a.spotlights@ == b.spotlights@
    &&& a.steams@ == b.steams@
    &&& a.crates.static_crates@ == b.crates.static_crates@
    &&& a.crates.random.normal.weapons@ == b.crates.random.normal.weapons@
    &&& a.crates.random.normal.bullets@ == b.crates.random.normal.bullets@
    &&& a.crates.random.normal.energy == b.crates.random.normal.energy
    &&& a.crates.random.deathmatch.weapons@ == b.crates.random.deathmatch.weapons@
    &&& a.crates.random.deathmatch.bullets@ == b.crates.random.deathmatch.bullets@
    &&& a.crates.random.deathmatch.energy == b.crates.random.deathmatch.energy
    &&& a.general_info.comment@ == b.general_info.comment@
    &&& a.general_info.time_limit == b.general_info.time_limit
    &&& a.general_info.enemy_table@ == b.general_info.enemy_table@
}

/// Where the words of tile (x, y) sit in a grid of width `width` that starts at `g`.
pub(crate) proof fn lemma_grid_index(n: int, g: int, width: int, height: int)
    requires
        width >= 1,
        g <= n < g + 3 * (width * height),
    ensures
        ({
            let k = (n - g) / 3;
            let x = k % width;
            let y = k / width;
            &&& 0 <= x < width
            &&& 0 <= y < height
            &&& n == g + 3 * (y * width + x) + (n - g) % 3
            &&& 0 <= (n - g) % 3 < 3
        }),
{
    let m = n - g;
    lemma_fundamental_div_mod(m, 3);
    let k = m / 3;
    lemma_fundamental_div_mod(k, width);
    let x = k % width;
    let y = k / width;
    assert(0 <= x < width);
    assert(k < width * height) by (nonlinear_arith)
        requires m == 3 * k + m % 3, 0 <= m % 3 < 3, m < 3 * (width * height);
    assert(0 <= y < height) by (nonlinear_arith)
        requires k == width * y + x, 0 <= x < width, 0 <= k < width * height, width >= 1;
    assert(y * width == width * y) by (nonlinear_arith);
}

/// The inverse of `lemma_grid_index`.
pub(crate) proof fn lemma_grid_index_of(g: int, width: int, height: int, x: int, y: int, j: int)
    requires
        width >= 1,
        0 <= x < width,
        0 <= y < height,
        0 <= j < 3,
    ensures
        ({
            let n = g + 3 * (y * width + x) + j;
            &&& g <= n < g + 3 * (width * height)
            &&& (n - g) / 3 == y * width + x
            &&& (n - g) % 3 == j
            &&& (y * width + x) % width == x
            &&& (y * width + x) / width == y
        }),
{
    let k = y * width + x;
    lemma_fundamental_div_mod_converse(3 * k + j, 3, k, j);
    lemma_fundamental_div_mod_converse(k, width, y, x);
    assert(3 * k + j < 3 * (width * height)) by (nonlinear_arith)
        requires k == y * width + x, 0 <= x < width, 0 <= y < height, 0 <= j < 3;
}

/// Where entry `i`, word `j` of a table with `size` words per entry that
/// starts at `s` sits, and the converse.
pub(crate) proof fn lemma_entry_index(n: int, s: int, size: int)
    requires
        size >= 1,
        n >= s,
    ensures
        n == s + size * ((n - s) / size) + (n - s) % size,
        0 <= (n - s) % size < size,
{
    lemma_fundamental_div_mod(n - s, size);
}

pub(crate) proof fn lemma_entry_index_of(s: int, size: int, i: int, j: int)
    requires
        size >= 1,
        0 <= j < size,
        i >= 0,
    ensures
        (s + size * i + j - s) / size == i,
        (s + size * i + j - s) % size == j,
{
    assert(size * i == i * size) by (nonlinear_arith);
    lemma_fundamental_div_mod_converse(i * size + j, size, i, j);
}


/// The file of `l` fits its word counts and a byte vector.
pub open spec fn fits_file(l: Level) -> bool {
    &&& l.spotlights@.len() <= u32::MAX
    &&& l.steams@.len() <= u32::MAX
    &&& l.crates.static_crates@.len() <= u32::MAX
    &&& 4 * words_len(l) <= usize::MAX
}

/// `l` holds what the words `w` store.
pub open spec fn decoded_from(l: Level, w: Seq<u32>) -> bool {
    let width = w[0] as int;
    let height = w[1] as int;
    let g = w_grid_start(w);
    &&& l.tiles@.len() == height
    &&& forall|y: int| 0 <= y < height ==> (#[trigger] l.tiles@[y])@.len() == width
    &&& forall|x: int, y: int| 0 <= x < width && 0 <= y < height ==> #[trigger] l.tile(x, y) == tile_from(w, g + 3 * (y * width + x))
    &&& l.p1_position == (w[2], w[3])
    &&& l.p2_position == (w[4], w[5])
    &&& l.general_info.time_limit == w[6]
    &&& l.general_info.enemy_table@ == w.subrange(7, 15)
    &&& l.crates.random.normal.weapons@ == w.subrange(15, 26)
    &&& l.crates.random.normal.bullets@ == w.subrange(26, 35)
    &&& l.crates.random.normal.energy == w[35]
    &&& l.crates.random.deathmatch.weapons@ == w.subrange(36, 47)
    &&& l.crates.random.deathmatch.bullets@ == w.subrange(47, 56)
    &&& l.crates.random.deathmatch.energy == w[56]
    &&& l.general_info.comment@.len() == w[57]
    &&& forall|i: int| 0 <= i < w[57] ==> (#[trigger] l.general_info.comment@[i]) as u32 == w[58 + i]
    &&& l.spotlights@ == spots_in(w, HEADER_WORDS as int, w[77] as int)
    &&& l.steams@ == steams_in(w, w_steams_start(w), w[78] as int)
    &&& l.crates.static_crates@ == crates_in(w, w_crates_start(w), w[79] as int)
}

proof fn lemma_own_grid(l: Level)
    requires
        l.wf(),
        fits_file(l),
    ensures
        ({
            let w = level_words(l);
            forall|x: int, y: int| 0 <= x < l.width() && 0 <= y < l.height() ==> #[trigger] l.tile(x, y) == tile_from(
                w,
                grid_start(l) + 3 * (y * l.width() + x),
            ) && w[grid_start(l) + 3 * (y * l.width() + x)] <= 2
        }),
{
    let w = level_words(l);
    let width = l.width();
    let height = l.height();
    let g = grid_start(l);
    assert forall|x: int, y: int| 0 <= x < width && 0 <= y < height implies #[trigger] l.tile(x, y) == tile_from(
        w,
        g + 3 * (y * width + x),
    ) && w[g + 3 * (y * width + x)] <= 2 by {
        let p = g + 3 * (y * width + x);
        lemma_grid_index_of(g, width, height, x, y, 0);
        lemma_grid_index_of(g, width, height, x, y, 1);
        lemma_grid_index_of(g, width, height, x, y, 2);
        assert(w[p] == tile_word(l.tile(x, y), 0));
        assert(w[p + 1] == tile_word(l.tile(x, y), 1));
        assert(w[p + 2] == tile_word(l.tile(x, y), 2));
    }
}

proof fn lemma_own_spots(l: Level)
    requires
        l.wf(),
        fits_file(l),
    ensures
        spots_in(level_words(l), HEADER_WORDS as int, l.spotlights@.len() as int) == l.spotlights@,
{
    let w = level_words(l);
    let spots = spots_in(w, HEADER_WORDS as int, l.spotlights@.len() as int);
    assert forall|i: int| 0 <= i < spots.len() implies spots[i] == l.spotlights@[i] by {
        lemma_entry_index_of(HEADER_WORDS as int, 3, i, 0);
        lemma_entry_index_of(HEADER_WORDS as int, 3, i, 1);
        lemma_entry_index_of(HEADER_WORDS as int, 3, i, 2);
        assert(w[HEADER_WORDS + 3 * i] == spot_word(l.spotlights@[i], 0));
        assert(w[HEADER_WORDS + 3 * i + 1] == spot_word(l.spotlights@[i], 1));
        assert(w[HEADER_WORDS + 3 * i + 2] == spot_word(l.spotlights@[i], 2));
    }
    assert(spots =~= l.spotlights@);
}

proof fn lemma_own_steams(l: Level)
    requires
        l.wf(),
        fits_file(l),
    ensures
        steams_in(level_words(l), steams_start(l), l.steams@.len() as int) == l.steams@,
{
    let w = level_words(l);
    let st = steams_start(l);
    let steams = steams_in(w, st, l.steams@.len() as int);
    assert forall|i: int| 0 <= i < steams.len() implies steams[i] == l.steams@[i] by {
        lemma_entry_index_of(st, 4, i, 0);
        lemma_entry_index_of(st, 4, i, 1);
        lemma_entry_index_of(st, 4, i, 2);
        lemma_entry_index_of(st, 4, i, 3);
        assert(w[st + 4 * i] == steam_word(l.steams@[i], 0));
        assert(w[st + 4 * i + 1] == steam_word(l.steams@[i], 1));
        assert(w[st + 4 * i + 2] == steam_word(l.steams@[i], 2));
        assert(w[st + 4 * i + 3] == steam_word(l.steams@[i], 3));
    }
    assert(steams =~= l.steams@);
}

proof fn lemma_own_crates(l: Level)
    requires
        l.wf(),
        fits_file(l),
    ensures
        crates_in(level_words(l), crates_start(l), l.crates.static_crates@.len() as int) == l.crates.static_crates@,
        forall|i: int| 0 <= i < l.crates.static_crates@.len() ==> crate_code_ok(level_words(l), #[trigger] (crates_start(l) + 5 * i)),
{
    let w = level_words(l);
    let cs = crates_start(l);
    let crates = crates_in(w, cs, l.crates.static_crates@.len() as int);
    assert forall|i: int| 0 <= i < crates.len() implies crates[i] == l.crates.static_crates@[i] && crate_code_ok(w, #[trigger] (cs + 5 * i)) by {
        lemma_entry_index_of(cs, 5, i, 0);
        lemma_entry_index_of(cs, 5, i, 1);
        lemma_entry_index_of(cs, 5, i, 2);
        lemma_entry_index_of(cs, 5, i, 3);
        lemma_entry_index_of(cs, 5, i, 4);
        let e = l.crates.static_crates@[i];
        assert(w[cs + 5 * i] == crate_word(e, 0));
        assert(w[cs + 5 * i + 1] == crate_word(e, 1));
        assert(w[cs + 5 * i + 2] == crate_word(e, 2));
        assert(w[cs + 5 * i + 3] == crate_word(e, 3));
        assert(w[cs + 5 * i + 4] == crate_word(e, 4));
        assert(crate::level::crate_ok(e.1));
    }
    assert(crates =~= l.crates.static_crates@);
}

proof fn lemma_own_header(l: Level)
    requires
        l.wf(),
        fits_file(l),
    ensures
        ({
            let w = level_words(l);
            &&& w.len() >= HEADER_WORDS
            &&& w[0] == l.width() && w[1] == l.height()
            &&& w[77] == l.spotlights@.len() && w[78] == l.steams@.len() && w[79] == l.crates.static_crates@.len()
            &&& w[2] == l.p1_position.0 && w[3] == l.p1_position.1
            &&& w[4] == l.p2_position.0 && w[5] == l.p2_position.1
            &&& w[6] == l.general_info.time_limit
            &&& w.subrange(7, 15) == l.general_info.enemy_table@
            &&& w.subrange(15, 26) == l.crates.random.normal.weapons@
            &&& w.subrange(26, 35) == l.crates.random.normal.bullets@
            &&& w[35] == l.crates.random.normal.energy
            &&& w.subrange(36, 47) == l.crates.random.deathmatch.weapons@
            &&& w.subrange(47, 56) == l.crates.random.deathmatch.bullets@
            &&& w[56] == l.crates.random.deathmatch.energy
            &&& w[57] == l.general_info.comment@.len()
            &&& forall|i: int| 0 <= i < w[57] ==> (#[trigger] l.general_info.comment@[i]) as u32 == w[58 + i]
            &&& forall|i: int| 0 <= i < w[57] ==> #[trigger] w[58 + i] < 128
            &&& forall|i: int| w[57] <= i < MAX_COMMENT_LEN ==> #[trigger] w[58 + i] == 0
        }),
{
    let w = level_words(l);
    assert(w.subrange(7, 15) =~= l.general_info.enemy_table@);
    assert(w.subrange(15, 26) =~= l.crates.random.normal.weapons@);
    assert(w.subrange(26, 35) =~= l.crates.random.normal.bullets@);
    assert(w.subrange(36, 47) =~= l.crates.random.deathmatch.weapons@);
    assert(w.subrange(47, 56) =~= l.crates.random.deathmatch.bullets@);
    assert forall|i: int| 0 <= i < w[57] implies #[trigger] w[58 + i] < 128 by {
        assert(w[58 + i] == l.general_info.comment@[i] as u32);
    }
}

/// What a level stores is what its file holds.
pub proof fn lemma_decoded_from_own_words(l: Level)
    requires
        l.wf(),
        fits_file(l),
    ensures
        decoded_from(l, level_words(l)),
        valid_words(level_words(l)),
{
    let w = level_words(l);
    lemma_own_header(l);
    lemma_own_grid(l);
    lemma_own_spots(l);
    lemma_own_steams(l);
    lemma_own_crates(l);
    assert(w_steams_start(w) == steams_start(l));
    assert(w_crates_start(w) == crates_start(l));
    assert(w_grid_start(w) == grid_start(l));
    assert forall|i: int| 0 <= i < w[78] implies crate::level::steam_ok(#[trigger] steams_in(w, w_steams_start(w), w[78] as int)[i].1) by {
        assert(crate::level::steam_ok(l.steams@[i].1));
    }
    assert forall|x: int, y: int| 0 <= x < w[0] && 0 <= y < w[1] implies #[trigger] w[w_grid_start(w) + 3 * (y * w[0] + x)] <= 2 by {
        assert(l.tile(x, y) == tile_from(w, grid_start(l) + 3 * (y * l.width() + x)));
    }
}

proof fn lemma_header_word(l: Level, w: Seq<u32>, n: int)
    requires
        valid_words(w),
        decoded_from(l, w),
        0 <= n < HEADER_WORDS,
    ensures
        word_at(l, n) == w[n],
{
    if 7 <= n < 15 {
        assert(w.subrange(7, 15)[n - 7] == w[n]);
    } else if 15 <= n < 26 {
        assert(w.subrange(15, 26)[n - 15] == w[n]);
    } else if 26 <= n < 35 {
        assert(w.subrange(26, 35)[n - 26] == w[n]);
    } else if 36 <= n < 47 {
        assert(w.subrange(36, 47)[n - 36] == w[n]);
    } else if 47 <= n < 56 {
        assert(w.subrange(47, 56)[n - 47] == w[n]);
    } else if 58 <= n < 77 {
        if n - 58 < w[57] {
            assert(l.general_info.comment@[n - 58] as u32 == w[58 + (n - 58)]);
        } else {
            assert(w[58 + (n - 58)] == 0);
        }
    }
}

proof fn lemma_table_word(l: Level, w: Seq<u32>, n: int)
    requires
        valid_words(w),
        decoded_from(l, w),
        HEADER_WORDS <= n < w_grid_start(w),
    ensures
        word_at(l, n) == w[n],
{
    assert(steams_start(l) == w_steams_start(w));
    assert(crates_start(l) == w_crates_start(w));
    assert(grid_start(l) == w_grid_start(w));
    if n < w_steams_start(w) {
        let s0 = HEADER_WORDS as int;
        lemma_entry_index(n, s0, 3);
        let i = (n - s0) / 3;
        assert(i < w[77]);
        assert(spot_word(l.spotlights@[i], (n - s0) % 3) == w[s0 + 3 * i + (n - s0) % 3]);
    } else if n < w_crates_start(w) {
        let s0 = w_steams_start(w);
        lemma_entry_index(n, s0, 4);
        let i = (n - s0) / 4;
        assert(i < w[78]);
        assert(steam_word(l.steams@[i], (n - s0) % 4) == w[s0 + 4 * i + (n - s0) % 4]);
    } else {
        let s0 = w_crates_start(w);
        lemma_entry_index(n, s0, 5);
        let i = (n - s0) / 5;
        assert(i < w[79]);
        assert(crate_code_ok(w, s0 + 5 * i));
        assert(crate_word(l.crates.static_crates@[i], (n - s0) % 5) == w[s0 + 5 * i + (n - s0) % 5]);
    }
}

proof fn lemma_grid_word(l: Level, w: Seq<u32>, n: int)
    requires
        valid_words(w),
        decoded_from(l, w),
        w_grid_start(w) <= n < w.len(),
    ensures
        word_at(l, n) == w[n],
{
    assert(steams_start(l) == w_steams_start(w));
    assert(crates_start(l) == w_crates_start(w));
    assert(grid_start(l) == w_grid_start(w));
    let g = w_grid_start(w);
    let width = w[0] as int;
    let height = w[1] as int;
    lemma_grid_index(n, g, width, height);
    let k = (n - g) / 3;
    let x = k % width;
    let y = k / width;
    assert(l.tile(x, y) == tile_from(w, g + 3 * (y * width + x)));
    assert(w[g + 3 * (y * width + x)] <= 2);
}

/// A level that holds what valid words store is well formed and is stored
/// as exactly those words.
pub proof fn lemma_decoded_words(l: Level, w: Seq<u32>)
    requires
        valid_words(w),
        decoded_from(l, w),
        l.scroll == (0u32, 0u32),
        4 * w.len() <= usize::MAX,
    ensures
        l.wf(),
        fits_file(l),
        level_words(l) == w,
{
    assert(l.tiles@[0]@.len() == w[0]);
    assert forall|i: int| 0 <= i < l.steams@.len() implies crate::level::steam_ok(#[trigger] l.steams@[i].1) by {
        assert(l.steams@[i] == steams_in(w, w_steams_start(w), w[78] as int)[i]);
    }
    assert forall|i: int| 0 <= i < l.crates.static_crates@.len() implies crate::level::crate_ok(
        #[trigger] l.crates.static_crates@[i].1,
    ) by {
        assert(crate_code_ok(w, w_crates_start(w) + 5 * i));
    }
    assert forall|i: int| 0 <= i < l.general_info.comment@.len() implies (#[trigger] l.general_info.comment@[i] as u32) < 128 by {
        assert(w[58 + i] < 128);
    }
    assert(l.wf());
    assert(words_len(l) == w.len());
    assert forall|n: int| 0 <= n < w.len() implies #[trigger] level_words(l)[n] == w[n] by {
        if n < HEADER_WORDS {
            lemma_header_word(l, w, n);
        } else if n < w_grid_start(w) {
            lemma_table_word(l, w, n);
        } else {
            lemma_grid_word(l, w, n);
        }
    }
    assert(level_words(l) =~= w);
}

proof fn lemma_word_byte_round(w: u32)
    ensures
        bytes_word(seq![word_byte(w, 0), word_byte(w, 1), word_byte(w, 2), word_byte(w, 3)], 0) == w,
{
    let b = seq![word_byte(w, 0), word_byte(w, 1), word_byte(w, 2), word_byte(w, 3)];
    let b0 = (w & 0xff) as u8;
    let b1 = ((w >> 8u32) & 0xff) as u8;
    let b2 = ((w >> 16u32) & 0xff) as u8;
    let b3 = ((w >> 24u32) & 0xff) as u8;
    assert(b[0] == b0 && b[1] == b1 && b[2] == b2 && b[3] == b3);
    assert((b0 as u32) | ((b1 as u32) << 8u32) | ((b2 as u32) << 16u32) | ((b3 as u32) << 24u32) == w) by (bit_vector)
        requires
            b0 == (w & 0xff) as u8,
            b1 == ((w >> 8u32) & 0xff) as u8,
            b2 == ((w >> 16u32) & 0xff) as u8,
            b3 == ((w >> 24u32) & 0xff) as u8,
    ;
}

proof fn lemma_byte_word_round(b0: u8, b1: u8, b2: u8, b3: u8)
    ensures
        ({
            let w = (b0 as u32) | ((b1 as u32) << 8u32) | ((b2 as u32) << 16u32) | ((b3 as u32) << 24u32);
            word_byte(w, 0) == b0 && word_byte(w, 1) == b1 && word_byte(w, 2) == b2 && word_byte(w, 3) == b3
        }),
{
    let w = (b0 as u32) | ((b1 as u32) << 8u32) | ((b2 as u32) << 16u32) | ((b3 as u32) << 24u32);
    assert((w & 0xff) as u8 == b0 && ((w >> 8u32) & 0xff) as u8 == b1 && ((w >> 16u32) & 0xff) as u8 == b2
        && ((w >> 24u32) & 0xff) as u8 == b3) by (bit_vector)
        requires
            w == (b0 as u32) | ((b1 as u32) << 8u32) | ((b2 as u32) << 16u32) | ((b3 as u32) << 24u32),
    ;
}

/// Reading back the bytes of some words gives those words.
pub proof fn lemma_bytes_of_words(ws: Seq<u32>)
    ensures
        bytes_words(words_bytes(ws)) == ws,
{
    let b = words_bytes(ws);
    assert forall|i: int| 0 <= i < ws.len() implies #[trigger] bytes_words(b)[i] == ws[i] by {
        lemma_entry_index_of(0, 4, i, 0);
        lemma_entry_index_of(0, 4, i, 1);
        lemma_entry_index_of(0, 4, i, 2);
        lemma_entry_index_of(0, 4, i, 3);
        lemma_word_byte_round(ws[i]);
        let q = seq![word_byte(ws[i], 0), word_byte(ws[i], 1), word_byte(ws[i], 2), word_byte(ws[i], 3)];
        assert(b[4 * i] == q[0] && b[4 * i + 1] == q[1] && b[4 * i + 2] == q[2] && b[4 * i + 3] == q[3]);
    }
    assert(bytes_words(b) =~= ws);
}

/// Bytes whose length is a multiple of four are the bytes of the words
/// read from them.
pub proof fn lemma_words_of_bytes(b: Seq<u8>)
    requires
        b.len() % 4 == 0,
    ensures
        words_bytes(bytes_words(b)) == b,
{
    let ws = bytes_words(b);
    assert(4 * ws.len() == b.len());
    assert forall|n: int| 0 <= n < b.len() implies #[trigger] words_bytes(ws)[n] == b[n] by {
        lemma_entry_index(n, 0, 4);
        let i = n / 4;
        lemma_byte_word_round(b[4 * i], b[4 * i + 1], b[4 * i + 2], b[4 * i + 3]);
    }
    assert(words_bytes(ws) =~= b);
}

/// Two levels that hold what the same words store hold the same content.
pub proof fn lemma_decoded_unique(a: Level, b: Level, w: Seq<u32>)
    requires
        decoded_from(a, w),
        decoded_from(b, w),
    ensures
        same_content(a, b),
{
    let width = w[0] as int;
    let height = w[1] as int;
    assert forall|y: int| 0 <= y < height implies grid_view(a.tiles@)[y] == grid_view(b.tiles@)[y] by {
        assert forall|x: int| 0 <= x < width implies a.tiles@[y]@[x] == b.tiles@[y]@[x] by {
            assert(a.tile(x, y) == b.tile(x, y));
        }
        assert(a.tiles@[y]@ =~= b.tiles@[y]@);
    }
    assert(grid_view(a.tiles@) =~= grid_view(b.tiles@));
    assert forall|i: int| 0 <= i < w[57] implies a.general_info.comment@[i] == b.general_info.comment@[i] by {
        let ca = a.general_info.comment@[i];
        let cb = b.general_info.comment@[i];
        assert(ca as u32 == cb as u32);
        vstd::utf8::char_u32_cast(ca, ca as u32);
        vstd::utf8::char_u32_cast(cb, cb as u32);
    }
    assert(a.general_info.comment@ =~= b.general_info.comment@);
}

} // verus!
