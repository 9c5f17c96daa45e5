//! Writing a level to its file and reading it back.

use vstd::prelude::*;
use crate::level::{
    CrateClass, Crates, GeneralInfo, Level, RandomCrate, RandomCrates, StaticCrate, StaticCrateType, Steam,
    MAX_LEVEL_SIZE, MAX_STEAM_RANGE,
};
use crate::level_file::{
    bytes_words, crate_code_ok, decoded_from, fits_file, grid_start, lemma_bytes_of_words,
    lemma_decoded_from_own_words, lemma_decoded_unique, lemma_decoded_words, lemma_entry_index_of,
    lemma_grid_index_of, lemma_words_of_bytes, level_bytes, level_words, same_content, steams_in,
    crates_in, spots_in, tile_from, valid_words, w_crates_start, w_grid_start, w_steams_start,
    word_at, word_byte, words_bytes, words_len, crates_start, steams_start, HEADER_WORDS,
};
use crate::random_item_editor::get_value;
use crate::table::{keys_unique_check, Pos};
use crate::types::{GameType, TextureType, Tile};

verus! {

fn push_word(out: &mut Vec<u32>, v: u32, Ghost(l): Ghost<Level>)
    requires
        forall|i: int| 0 <= i < old(out)@.len() ==> old(out)@[i] == word_at(l, i),
        v == word_at(l, old(out)@.len() as int),
    ensures
        final(out)@ == old(out)@.push(v),
        forall|i: int| 0 <= i < final(out)@.len() ==> final(out)@[i] == word_at(l, i),
{
    out.push(v);
}

fn class_code_of(c: CrateClass) -> (r: u32)
    ensures
        r == crate::level_file::class_code(c),
{
    match c {
        CrateClass::Weapon => 0,
        CrateClass::Bullet => 1,
        CrateClass::Energy => 2,
    }
}

fn variant_code_of(v: StaticCrate) -> (r: u32)
    ensures
        r == crate::level_file::variant_code(v),
{
    match v {
        StaticCrate::Normal => 0,
        StaticCrate::Deathmatch => 1,
    }
}

fn read_range(w: &Vec<u32>, start: usize, n: usize) -> (r: Vec<u32>)
    requires
        start + n <= w@.len(),
    ensures
        r@ == w@.subrange(start as int, start + n),
{
    let len = w.len();
    let mut r: Vec<u32> = Vec::new();
    let mut i: usize = 0;
    while i < n
        invariant
            len == w@.len(),
            start + n <= w@.len(),
            i <= n,
            r@ == w@.subrange(start as int, start + i),
        decreases n - i,
    {
        r.push(w[start + i]);
        i = i + 1;
        assert(r@ =~= w@.subrange(start as int, start + i));
    }
    r
}

fn read_spots(w: &Vec<u32>, start: usize, n: usize) -> (r: Vec<(Pos, u32)>)
    requires
        start + 3 * n <= w@.len(),
    ensures
        r@ == spots_in(w@, start as int, n as int),
{
    let len = w.len();
    let mut r: Vec<(Pos, u32)> = Vec::new();
    let mut i: usize = 0;
    while i < n
        invariant
            len == w@.len(),
            start + 3 * n <= w@.len(),
            i <= n,
            r@ == spots_in(w@, start as int, i as int),
        decreases n - i,
    {
        let p = start + 3 * i;
        r.push(((w[p], w[p + 1]), w[p + 2]));
        i = i + 1;
        assert(r@ =~= spots_in(w@, start as int, i as int));
    }
    r
}

fn read_steams(w: &Vec<u32>, start: usize, n: usize) -> (r: Option<Vec<(Pos, Steam)>>)
    requires
        start + 4 * n <= w@.len(),
    ensures
        r is Some <==> forall|i: int| 0 <= i < n ==> crate::level::steam_ok(#[trigger] steams_in(w@, start as int, n as int)[i].1),
        r matches Some(v) ==> v@ == steams_in(w@, start as int, n as int),
{
    let len = w.len();
    let mut r: Vec<(Pos, Steam)> = Vec::new();
    let mut i: usize = 0;
    while i < n
        invariant
            len == w@.len(),
            start + 4 * n <= w@.len(),
            i <= n,
            r@ == steams_in(w@, start as int, i as int),
            forall|j: int| 0 <= j < i ==> crate::level::steam_ok(#[trigger] steams_in(w@, start as int, n as int)[j].1),
        decreases n - i,
    {
        let p = start + 4 * i;
        let st = Steam { angle: w[p + 2], range: w[p + 3] };
        if !(st.angle < 360 && st.range <= MAX_STEAM_RANGE) {
            assert(!crate::level::steam_ok(steams_in(w@, start as int, n as int)[i as int].1));
            return None;
        }
        r.push(((w[p], w[p + 1]), st));
        i = i + 1;
        assert(r@ =~= steams_in(w@, start as int, i as int));
    }
    assert(r@ =~= steams_in(w@, start as int, n as int));
    Some(r)
}

fn read_crates(w: &Vec<u32>, start: usize, n: usize) -> (r: Option<Vec<(Pos, StaticCrateType)>>)
    requires
        start + 5 * n <= w@.len(),
    ensures
        r is Some <==> forall|i: int| 0 <= i < n ==> crate_code_ok(w@, #[trigger] (start + 5 * i)),
        r matches Some(v) ==> v@ == crates_in(w@, start as int, n as int),
{
    let len = w.len();
    let mut r: Vec<(Pos, StaticCrateType)> = Vec::new();
    let mut i: usize = 0;
    while i < n
        invariant
            len == w@.len(),
            start + 5 * n <= w@.len(),
            i <= n,
            r@ == crates_in(w@, start as int, i as int),
            forall|j: int| 0 <= j < i ==> crate_code_ok(w@, #[trigger] (start + 5 * j)),
        decreases n - i,
    {
        let p = start + 5 * i;
        let (v, c, t) = (w[p + 2], w[p + 3], w[p + 4]);
        if v > 1 || c > 2 {
            assert(!crate_code_ok(w@, start + 5 * i));
            return None;
        }
        let class = if c == 0 {
            CrateClass::Weapon
        } else if c == 1 {
            CrateClass::Bullet
        } else {
            CrateClass::Energy
        };
        if t >= crate::level::crate_count(class) as u32 {
            assert(!crate_code_ok(w@, start + 5 * i));
            return None;
        }
        let variant = if v == 0 { StaticCrate::Normal } else { StaticCrate::Deathmatch };
        r.push(((w[p], w[p + 1]), StaticCrateType { crate_variant: variant, crate_class: class, crate_type: t as u8 }));
        i = i + 1;
        assert(r@ =~= crates_in(w@, start as int, i as int));
    }
    assert(r@ =~= crates_in(w@, start as int, n as int));
    Some(r)
}

fn read_grid(w: &Vec<u32>, g: usize, width: u32, height: u32) -> (r: Option<Vec<Vec<Tile>>>)
    requires
        1 <= width <= MAX_LEVEL_SIZE,
        1 <= height <= MAX_LEVEL_SIZE,
        g + 3 * (width * height) <= w@.len(),
    ensures
        r is Some <==> forall|x: int, y: int| 0 <= x < width && 0 <= y < height ==> #[trigger] w@[g + 3 * (y * width + x)] <= 2,
        r matches Some(t) ==> {
            &&& t@.len() == height
            &&& forall|y: int| 0 <= y < height ==> (#[trigger] t@[y])@.len() == width
            &&& forall|x: int, y: int| 0 <= x < width && 0 <= y < height ==> #[trigger] t@[y]@[x] == tile_from(w@, g + 3 * (y * width + x))
        },
{
    let len = w.len();
    let mut rows: Vec<Vec<Tile>> = Vec::new();
    let mut pos: usize = g;
    let mut y: u32 = 0;
    while y < height
        invariant
            len == w@.len(),
            1 <= width <= MAX_LEVEL_SIZE,
            1 <= height <= MAX_LEVEL_SIZE,
            g + 3 * (width * height) <= w@.len(),
            y <= height,
            pos == g + 3 * (y * width),
            rows@.len() == y,
            forall|j: int| 0 <= j < y ==> (#[trigger] rows@[j])@.len() == width,
            forall|x: int, j: int| 0 <= x < width && 0 <= j < y ==> #[trigger] rows@[j]@[x] == tile_from(w@, g + 3 * (j * width + x)),
            forall|x: int, j: int| 0 <= x < width && 0 <= j < y ==> #[trigger] w@[g + 3 * (j * width + x)] <= 2,
        decreases height - y,
    {
        let mut row: Vec<Tile> = Vec::new();
        let mut x: u32 = 0;
        while x < width
            invariant
                len == w@.len(),
                1 <= width <= MAX_LEVEL_SIZE,
                1 <= height <= MAX_LEVEL_SIZE,
                g + 3 * (width * height) <= w@.len(),
                y < height,
                x <= width,
                pos == g + 3 * (y * width + x),
                row@.len() == x,
                forall|i: int| 0 <= i < x ==> #[trigger] row@[i] == tile_from(w@, g + 3 * (y * width + i)),
                forall|i: int| 0 <= i < x ==> #[trigger] w@[g + 3 * (y * width + i)] <= 2,
            decreases width - x,
        {
            assert(y * width + x < width * height) by (nonlinear_arith)
                requires x < width, y < height;
            let code = w[pos];
            if code > 2 {
                return None;
            }
            let texture_type = TextureType::from_u32(code);
            row.push(Tile { texture_type, id: w[pos + 1], shadow: w[pos + 2] });
            pos = pos + 3;
            x = x + 1;
        }
        assert(g + 3 * (y * width + width) == g + 3 * ((y + 1) * width)) by (nonlinear_arith);
        rows.push(row);
        y = y + 1;
    }
    Some(rows)
}

impl Level {
    /// Whether the level's file fits its word counts and a byte vector.
    pub fn fits_in_file(&self) -> (r: bool)
        requires
            self.wf(),
        ensures
            r == fits_file(*self),
    {
        let ns = self.spotlights.len();
        let nst = self.steams.len();
        let nc = self.crates.static_crates.len();
        if ns > u32::MAX as usize || nst > u32::MAX as usize || nc > u32::MAX as usize {
            return false;
        }
        let w = self.get_width() as u64;
        let h = self.get_height() as u64;
        assert(w * h <= 1024 * 1024) by (nonlinear_arith)
            requires w <= 1024, h <= 1024;
        let grid = 3 * (w * h);
        let total: u64 = 80 + 3 * ns as u64 + 4 * nst as u64 + 5 * nc as u64 + grid;
        assert(total == words_len(*self));
        total <= (usize::MAX / 4) as u64
    }

    /// The words of the file that stores the level.
    pub fn to_words(&self) -> (r: Vec<u32>)
        requires
            self.wf(),
            fits_file(*self),
        ensures
            r@ == level_words(*self),
    {
        let ghost l = *self;
        let mut out: Vec<u32> = Vec::new();
        let width = self.get_width();
        let height = self.get_height();
        push_word(&mut out, width, Ghost(l));
        push_word(&mut out, height, Ghost(l));
        push_word(&mut out, self.p1_position.0, Ghost(l));
        push_word(&mut out, self.p1_position.1, Ghost(l));
        push_word(&mut out, self.p2_position.0, Ghost(l));
        push_word(&mut out, self.p2_position.1, Ghost(l));
        push_word(&mut out, self.general_info.time_limit, Ghost(l));
        let mut i: usize = 0;
        while i < 8
            invariant
                l == *self,
                self.wf(),
                i <= 8,
                out@.len() == 7 + i,
                forall|n: int| 0 <= n < out@.len() ==> out@[n] == word_at(l, n),
            decreases 8 - i,
        {
            push_word(&mut out, self.general_info.enemy_table[i], Ghost(l));
            i = i + 1;
        }
        let mut i: usize = 0;
        while i < 21
            invariant
                l == *self,
                self.wf(),
                i <= 21,
                out@.len() == 15 + i,
                forall|n: int| 0 <= n < out@.len() ==> out@[n] == word_at(l, n),
            decreases 21 - i,
        {
            push_word(&mut out, get_value(self, &GameType::Normal, i), Ghost(l));
            i = i + 1;
        }
        let mut i: usize = 0;
        while i < 21
            invariant
                l == *self,
                self.wf(),
                i <= 21,
                out@.len() == 36 + i,
                forall|n: int| 0 <= n < out@.len() ==> out@[n] == word_at(l, n),
            decreases 21 - i,
        {
            push_word(&mut out, get_value(self, &GameType::Deathmatch, i), Ghost(l));
            i = i + 1;
        }
        let clen = self.general_info.comment.len();
        push_word(&mut out, clen as u32, Ghost(l));
        let mut i: usize = 0;
        while i < 19
            invariant
                l == *self,
                self.wf(),
                clen == self.general_info.comment@.len(),
                i <= 19,
                out@.len() == 58 + i,
                forall|n: int| 0 <= n < out@.len() ==> out@[n] == word_at(l, n),
            decreases 19 - i,
        {
            let v = if i < clen { self.general_info.comment[i] as u32 } else { 0 };
            push_word(&mut out, v, Ghost(l));
            i = i + 1;
        }
        let ns = self.spotlights.len();
        let nst = self.steams.len();
        let nc = self.crates.static_crates.len();
        push_word(&mut out, ns as u32, Ghost(l));
        push_word(&mut out, nst as u32, Ghost(l));
        push_word(&mut out, nc as u32, Ghost(l));
        let mut i: usize = 0;
        while i < ns
            invariant
                l == *self,
                self.wf(),
                fits_file(l),
                ns == self.spotlights@.len(),
                i <= ns,
                out@.len() == HEADER_WORDS + 3 * i,
                forall|n: int| 0 <= n < out@.len() ==> out@[n] == word_at(l, n),
            decreases ns - i,
        {
            let e = self.spotlights[i];
            proof {
                lemma_entry_index_of(HEADER_WORDS as int, 3, i as int, 0);
                lemma_entry_index_of(HEADER_WORDS as int, 3, i as int, 1);
                lemma_entry_index_of(HEADER_WORDS as int, 3, i as int, 2);
            }
            push_word(&mut out, e.0.0, Ghost(l));
            push_word(&mut out, e.0.1, Ghost(l));
            push_word(&mut out, e.1, Ghost(l));
            i = i + 1;
        }
        let mut i: usize = 0;
        while i < nst
            invariant
                l == *self,
                self.wf(),
                fits_file(l),
                nst == self.steams@.len(),
                i <= nst,
                out@.len() == steams_start(l) + 4 * i,
                forall|n: int| 0 <= n < out@.len() ==> out@[n] == word_at(l, n),
            decreases nst - i,
        {
            let e = self.steams[i];
            proof {
                lemma_entry_index_of(steams_start(l), 4, i as int, 0);
                lemma_entry_index_of(steams_start(l), 4, i as int, 1);
                lemma_entry_index_of(steams_start(l), 4, i as int, 2);
                lemma_entry_index_of(steams_start(l), 4, i as int, 3);
            }
            push_word(&mut out, e.0.0, Ghost(l));
            push_word(&mut out, e.0.1, Ghost(l));
            push_word(&mut out, e.1.angle, Ghost(l));
            push_word(&mut out, e.1.range, Ghost(l));
            i = i + 1;
        }
        let mut i: usize = 0;
        while i < nc
            invariant
                l == *self,
                self.wf(),
                fits_file(l),
                nc == self.crates.static_crates@.len(),
                i <= nc,
                out@.len() == crates_start(l) + 5 * i,
                forall|n: int| 0 <= n < out@.len() ==> out@[n] == word_at(l, n),
            decreases nc - i,
        {
            let e = self.crates.static_crates[i];
            proof {
                lemma_entry_index_of(crates_start(l), 5, i as int, 0);
                lemma_entry_index_of(crates_start(l), 5, i as int, 1);
                lemma_entry_index_of(crates_start(l), 5, i as int, 2);
                lemma_entry_index_of(crates_start(l), 5, i as int, 3);
                lemma_entry_index_of(crates_start(l), 5, i as int, 4);
            }
            push_word(&mut out, e.0.0, Ghost(l));
            push_word(&mut out, e.0.1, Ghost(l));
            push_word(&mut out, variant_code_of(e.1.crate_variant), Ghost(l));
            push_word(&mut out, class_code_of(e.1.crate_class), Ghost(l));
            push_word(&mut out, e.1.crate_type as u32, Ghost(l));
            i = i + 1;
        }
        let ghost g = grid_start(l);
        let mut y: u32 = 0;
        while y < height
            invariant
                l == *self,
                self.wf(),
                fits_file(l),
                width == l.width(),
                height == l.height(),
                g == grid_start(l),
                y <= height,
                out@.len() == g + 3 * (y * width),
                forall|n: int| 0 <= n < out@.len() ==> out@[n] == word_at(l, n),
            decreases height - y,
        {
            let mut x: u32 = 0;
            while x < width
                invariant
                    l == *self,
                    self.wf(),
                    fits_file(l),
                    width == l.width(),
                    height == l.height(),
                    g == grid_start(l),
                    y < height,
                    x <= width,
                    out@.len() == g + 3 * (y * width + x),
                    forall|n: int| 0 <= n < out@.len() ==> out@[n] == word_at(l, n),
                decreases width - x,
            {
                let t = self.tiles[y as usize][x as usize];
                proof {
                    lemma_grid_index_of(g, width as int, height as int, x as int, y as int, 0);
                    lemma_grid_index_of(g, width as int, height as int, x as int, y as int, 1);
                    lemma_grid_index_of(g, width as int, height as int, x as int, y as int, 2);
                    assert(t == l.tile(x as int, y as int));
                }
                push_word(&mut out, t.texture_type.to_u32(), Ghost(l));
                push_word(&mut out, t.id, Ghost(l));
                push_word(&mut out, t.shadow, Ghost(l));
                x = x + 1;
            }
            assert(g + 3 * (y * width + width) == g + 3 * ((y + 1) * width)) by (nonlinear_arith);
            y = y + 1;
        }
        assert(height * width == l.width() * l.height()) by (nonlinear_arith)
            requires width == l.width(), height == l.height();
        assert(out@.len() == words_len(l));
        assert(out@ =~= level_words(l));
        out
    }

    /// The level stored in the words `w`, if they store one; its view is
    /// scrolled to the origin.
    pub fn from_words(w: &Vec<u32>) -> (r: Option<Level>)
        requires
            4 * w@.len() <= usize::MAX,
        ensures
            r is Some <==> valid_words(w@),
            r matches Some(l) ==> {
                &&& decoded_from(l, w@)
                &&& l.scroll == (0u32, 0u32)
                &&& l.wf()
                &&& fits_file(l)
                &&& level_words(l) == w@
            },
    {
        let len = w.len();
        if len < HEADER_WORDS {
            return None;
        }
        let width = w[0];
        let height = w[1];
        if width < 1 || width > MAX_LEVEL_SIZE || height < 1 || height > MAX_LEVEL_SIZE {
            return None;
        }
        let clen = w[57];
        if clen > 19 {
            return None;
        }
        let mut comment: Vec<char> = Vec::new();
        let mut i: usize = 0;
        while i < 19
            invariant
                len == w@.len(),
                len >= HEADER_WORDS,
                clen == w@[57],
                clen <= 19,
                i <= 19,
                comment@.len() == if i < clen { i as int } else { clen as int },
                forall|j: int| 0 <= j < comment@.len() ==> (#[trigger] comment@[j]) as u32 == w@[58 + j],
                forall|j: int| 0 <= j < i && j < clen ==> #[trigger] w@[58 + j] < 128,
                forall|j: int| clen <= j < i ==> #[trigger] w@[58 + j] == 0,
            decreases 19 - i,
        {
            let v = w[58 + i];
            if (i as u32) < clen {
                if v >= 128 {
                    return None;
                }
                comment.push((v as u8) as char);
            } else {
                if v != 0 {
                    return None;
                }
            }
            i = i + 1;
        }
        let ns = w[77];
        let nst = w[78];
        let nc = w[79];
        let (wd, ht) = (width as u64, height as u64);
        assert(wd * ht <= 1024 * 1024) by (nonlinear_arith)
            requires wd <= 1024, ht <= 1024;
        let area = wd * ht;
        let total: u64 = 80 + 3 * ns as u64 + 4 * nst as u64 + 5 * nc as u64 + 3 * area;
        if total != len as u64 {
            return None;
        }
        let st: usize = HEADER_WORDS + 3 * ns as usize;
        let cs: usize = st + 4 * nst as usize;
        let g: usize = cs + 5 * nc as usize;
        assert(st == w_steams_start(w@) && cs == w_crates_start(w@) && g == w_grid_start(w@));
        let spotlights = read_spots(w, HEADER_WORDS, ns as usize);
        if !keys_unique_check(&spotlights) {
            return None;
        }
        let steams = match read_steams(w, st, nst as usize) {
            Some(v) => v,
            None => {
                return None;
            },
        };
        if !keys_unique_check(&steams) {
            return None;
        }
        let static_crates = match read_crates(w, cs, nc as usize) {
            Some(v) => v,
            None => {
                return None;
            },
        };
        if !keys_unique_check(&static_crates) {
            return None;
        }
        let tiles = match read_grid(w, g, width, height) {
            Some(t) => t,
            None => {
                return None;
            },
        };
        let l = Level {
            tiles,
            scroll: (0, 0),
            p1_position: (w[2], w[3]),
            p2_position: (w[4], w[5]),
            spotlights,
            steams,
            crates: Crates {
                static_crates,
                random: RandomCrates {
                    normal: RandomCrate { weapons: read_range(w, 15, 11), bullets: read_range(w, 26, 9), energy: w[35] },
                    deathmatch: RandomCrate { weapons: read_range(w, 36, 11), bullets: read_range(w, 47, 9), energy: w[56] },
                },
            },
            general_info: GeneralInfo { comment, time_limit: w[6], enemy_table: read_range(w, 7, 8) },
        };
        proof {
            assert(valid_words(w@));
            assert(decoded_from(l, w@)) by {
                assert forall|x: int, y: int| 0 <= x < width && 0 <= y < height implies #[trigger] l.tile(x, y) == tile_from(
                    w@, g + 3 * (y * width + x)) by {
                    assert(l.tiles@[y]@[x] == tile_from(w@, g + 3 * (y * width + x)));
                }
            }
            lemma_decoded_words(l, w@);
        }
        Some(l)
    }

    /// The bytes of the file that stores the level, where they fit its word
    /// counts and a byte vector.
    pub fn serialize(&self) -> (r: Option<Vec<u8>>)
        requires
            self.wf(),
        ensures
            r is Some <==> fits_file(*self),
            r matches Some(b) ==> b@ == level_bytes(*self),
    {
        if !self.fits_in_file() {
            return None;
        }
        let ws = self.to_words();
        Some(words_to_bytes(&ws))
    }

    /// The level stored in the bytes `b`, if they store one; its view is
    /// scrolled to the origin.
    pub fn deserialize(b: &Vec<u8>) -> (r: Option<Level>)
        ensures
            r is Some <==> (b@.len() % 4 == 0 && valid_words(bytes_words(b@))),
            r matches Some(l) ==> {
                &&& l.wf()
                &&& fits_file(l)
                &&& l.scroll == (0u32, 0u32)
                &&& level_bytes(l) == b@
            },
    {
        if b.len() % 4 != 0 {
            return None;
        }
        let ws = bytes_to_words(b);
        let r = Level::from_words(&ws);
        proof {
            lemma_words_of_bytes(b@);
        }
        r
    }
}

fn words_to_bytes(ws: &Vec<u32>) -> (r: Vec<u8>)
    requires
        4 * ws@.len() <= usize::MAX,
    ensures
        r@ == words_bytes(ws@),
{
    let mut r: Vec<u8> = Vec::new();
    let mut i: usize = 0;
    while i < ws.len()
        invariant
            4 * ws@.len() <= usize::MAX,
            i <= ws@.len(),
            r@.len() == 4 * i,
            forall|n: int| 0 <= n < r@.len() ==> r@[n] == word_byte(ws@[n / 4], n % 4),
        decreases ws@.len() - i,
    {
        let w = ws[i];
        proof {
            lemma_entry_index_of(0, 4, i as int, 0);
            lemma_entry_index_of(0, 4, i as int, 1);
            lemma_entry_index_of(0, 4, i as int, 2);
            lemma_entry_index_of(0, 4, i as int, 3);
        }
        r.push((w & 0xff) as u8);
        r.push(((w >> 8u32) & 0xff) as u8);
        r.push(((w >> 16u32) & 0xff) as u8);
        r.push(((w >> 24u32) & 0xff) as u8);
        i = i + 1;
    }
    assert(r@ =~= words_bytes(ws@));
    r
}

fn bytes_to_words(b: &Vec<u8>) -> (r: Vec<u32>)
    requires
        b@.len() % 4 == 0,
    ensures
        r@ == bytes_words(b@),
        4 * r@.len() <= usize::MAX,
{
    let n = b.len() / 4;
    let mut r: Vec<u32> = Vec::new();
    let mut i: usize = 0;
    while i < n
        invariant
            b@.len() % 4 == 0,
            n == b@.len() / 4,
            4 * n <= b@.len(),
            b@.len() <= usize::MAX,
            i <= n,
            r@ == bytes_words(b@).subrange(0, i as int),
        decreases n - i,
    {
        let p = 4 * i;
        let w = (b[p] as u32) | ((b[p + 1] as u32) << 8u32) | ((b[p + 2] as u32) << 16u32) | ((b[p + 3] as u32) << 24u32);
        r.push(w);
        i = i + 1;
        assert(r@ =~= bytes_words(b@).subrange(0, i as int));
    }
    assert(r@ =~= bytes_words(b@));
    r
}

/// Saving a level and reading the file back gives the same level: the
/// bytes of a level are accepted by the reader, and any level stored as the
/// same bytes holds the same grid, items, start points and settings.
pub proof fn lemma_save_load_round_trip(l: Level, back: Level)
    requires
        l.wf(),
        fits_file(l),
    ensures
        level_bytes(l).len() % 4 == 0,
        valid_words(bytes_words(level_bytes(l))),
        (back.wf() && fits_file(back) && level_bytes(back) == level_bytes(l)) ==> same_content(l, back),
{
    lemma_bytes_of_words(level_words(l));
    lemma_decoded_from_own_words(l);
    if back.wf() && fits_file(back) && level_bytes(back) == level_bytes(l) {
        lemma_bytes_of_words(level_words(back));
        lemma_decoded_from_own_words(back);
        lemma_decoded_unique(l, back, level_words(l));
    }
}

} // verus!
