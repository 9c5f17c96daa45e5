//! Mapping between screen pixels, screen tiles and level tiles.

use vstd::prelude::*;
use crate::graphics::Graphics;
use crate::graphics::MAX_RESOLUTION;
use crate::table::Pos;

verus! {

/// An inclusive rectangle of tiles: columns `x0..=x1`, rows `y0..=y1`.
#[derive(Clone, Copy, PartialEq, Eq, Structural, Debug)]
pub struct TileRect {
    pub x0: u32,
    pub y0: u32,
    pub x1: u32,
    pub y1: u32,
}

impl TileRect {
    pub open spec fn wf(&self) -> bool {
        self.x0 <= self.x1 && self.y0 <= self.y1
    }

    pub open spec fn contains(&self, x: int, y: int) -> bool {
        self.x0 <= x <= self.x1 && self.y0 <= y <= self.y1
    }
}

/// `p` kept below `bound`; a zero bound leaves only zero.
pub open spec fn limit(p: u32, bound: u32) -> u32 {
    if bound == 0 {
        0
    } else if p < bound {
        p
    } else {
        (bound - 1) as u32
    }
}

pub open spec fn min_u32(a: u32, b: u32) -> u32 {
    if a <= b { a } else { b }
}

pub open spec fn max_u32(a: u32, b: u32) -> u32 {
    if a >= b { a } else { b }
}

/// A point kept inside an area of `bounds` pixels, each axis on its own.
pub fn limit_coordinates(coordinates: &Pos, bounds: &Pos) -> (r: Pos)
    ensures
        r == (limit(coordinates.0, bounds.0), limit(coordinates.1, bounds.1)),
{
    let x = if bounds.0 == 0 {
        0
    } else if coordinates.0 < bounds.0 {
        coordinates.0
    } else {
        bounds.0 - 1
    };
    let y = if bounds.1 == 0 {
        0
    } else if coordinates.1 < bounds.1 {
        coordinates.1
    } else {
        bounds.1 - 1
    };
    (x, y)
}

/// The tile under a pixel, in tiles from the top-left of the screen, moved
/// by `scroll` into level coordinates.
pub open spec fn screen_to_tile(graphics: Graphics, point: Pos, scroll: Pos) -> (int, int) {
    (point.0 / graphics.render_size() + scroll.0, point.1 / graphics.render_size() + scroll.1)
}

/// The level tile under a screen pixel.
pub fn get_level_coordinates_from_screen_coordinates(
    graphics: &Graphics,
    point: &Pos,
    scroll: &Pos,
) -> (r: Pos)
    requires
        graphics.wf(),
        point.0 <= MAX_RESOLUTION && point.1 <= MAX_RESOLUTION,
        scroll.0 <= MAX_RESOLUTION && scroll.1 <= MAX_RESOLUTION,
    ensures
        r.0 == screen_to_tile(*graphics, *point, *scroll).0,
        r.1 == screen_to_tile(*graphics, *point, *scroll).1,
{
    let rs = graphics.get_render_size();
    (point.0 / rs + scroll.0, point.1 / rs + scroll.1)
}

/// The row-major index of a tile at column `x`, row `y` in rows of
/// `stride` tiles.
pub open spec fn linear_index(x: int, y: int, stride: int) -> int {
    x + y * stride
}

/// The row-major index, in rows of `stride` tiles, of the tile under a
/// pixel, moved by `scroll` first when it is given.
pub fn get_tile_id_from_coordinates(
    graphics: &Graphics,
    point: &Pos,
    stride: u32,
    scroll: Option<Pos>,
) -> (r: u32)
    requires
        graphics.wf(),
        point.0 <= MAX_RESOLUTION && point.1 <= MAX_RESOLUTION,
        stride <= MAX_RESOLUTION,
        scroll matches Some(s) ==> s.0 <= MAX_RESOLUTION && s.1 <= MAX_RESOLUTION,
    ensures
        ({
            let s = scroll_or_origin(scroll);
            let t = screen_to_tile(*graphics, *point, s);
            r == linear_index(t.0, t.1, stride as int)
        }),
{
    let s = match scroll {
        Some(s) => s,
        None => (0, 0),
    };
    let rs = graphics.get_render_size();
    let x = point.0 / rs + s.0;
    let y = point.1 / rs + s.1;
    assert(y * stride <= 2 * MAX_RESOLUTION * MAX_RESOLUTION) by (nonlinear_arith)
        requires y <= 2 * MAX_RESOLUTION, stride <= MAX_RESOLUTION;
    x + y * stride
}

/// The scroll offset to apply: none is the origin.
pub open spec fn scroll_or_origin(scroll: Option<Pos>) -> Pos {
    match scroll {
        Some(s) => s,
        None => (0u32, 0u32),
    }
}

/// Whether `v` is the row-major index of a tile of `rect` moved by `s`.
pub open spec fn in_rect_image(v: int, rect: TileRect, s: Pos, stride: int) -> bool {
    exists|x: int, y: int| #[trigger] rect.contains(x, y) && v == linear_index(x + s.0, y + s.1, stride)
}

/// Whether `v` is one of the values in `r`.
pub open spec fn holds_index(r: Seq<u32>, v: int) -> bool {
    exists|k: int| 0 <= k < r.len() && r[k] == v
}

/// The screen tiles covered by a drag from `anchor` to `opposite`, each
/// corner first kept inside `bounds`.
pub open spec fn selection_rect(graphics: Graphics, anchor: Pos, opposite: Pos, bounds: Pos) -> TileRect {
    let rs = graphics.render_size();
    let ax = (limit(anchor.0, bounds.0) / rs) as u32;
    let ay = (limit(anchor.1, bounds.1) / rs) as u32;
    let bx = (limit(opposite.0, bounds.0) / rs) as u32;
    let by = (limit(opposite.1, bounds.1) / rs) as u32;
    TileRect { x0: min_u32(ax, bx), y0: min_u32(ay, by), x1: max_u32(ax, bx), y1: max_u32(ay, by) }
}

pub fn get_selection_rect(graphics: &Graphics, anchor: &Pos, opposite: &Pos, bounds: &Pos) -> (r:
    TileRect)
    requires
        graphics.wf(),
    ensures
        r == selection_rect(*graphics, *anchor, *opposite, *bounds),
        r.wf(),
{
    let rs = graphics.get_render_size();
    let a = limit_coordinates(anchor, bounds);
    let b = limit_coordinates(opposite, bounds);
    let (ax, ay) = (a.0 / rs, a.1 / rs);
    let (bx, by) = (b.0 / rs, b.1 / rs);
    TileRect {
        x0: if ax <= bx { ax } else { bx },
        y0: if ay <= by { ay } else { by },
        x1: if ax >= bx { ax } else { bx },
        y1: if ay >= by { ay } else { by },
    }
}

/// The row-major indices, in rows of `stride` tiles, of every tile in
/// `rect` moved by `scroll` when it is given: each tile once, row by row.
pub fn get_selected_level_tiles(rect: &TileRect, stride: u32, scroll: Option<Pos>) -> (r: Vec<u32>)
    requires
        rect.wf(),
        rect.x1 <= MAX_RESOLUTION && rect.y1 <= MAX_RESOLUTION,
        stride <= MAX_RESOLUTION,
        scroll matches Some(s) ==> s.0 <= MAX_RESOLUTION && s.1 <= MAX_RESOLUTION,
    ensures
        ({
            let s = scroll_or_origin(scroll);
            &&& forall|x: int, y: int| #[trigger] rect.contains(x, y) ==> holds_index(r@, linear_index(x + s.0, y + s.1, stride as int))
            &&& forall|k: int| 0 <= k < r@.len() ==> in_rect_image(#[trigger] r@[k] as int, *rect, s, stride as int)
        }),
{
    let s = match scroll {
        Some(s) => s,
        None => (0, 0),
    };
    let mut r: Vec<u32> = Vec::new();
    let ghost mut cells: Seq<(int, int)> = Seq::empty();
    let mut y: u32 = rect.y0;
    while y <= rect.y1
        invariant
            rect.wf(),
            rect.x1 <= MAX_RESOLUTION && rect.y1 <= MAX_RESOLUTION,
            stride <= MAX_RESOLUTION,
            s.0 <= MAX_RESOLUTION && s.1 <= MAX_RESOLUTION,
            rect.y0 <= y <= rect.y1 + 1,
            cells.len() == r@.len(),
            forall|xx: int, yy: int| #[trigger] rect.contains(xx, yy) && yy < y ==> holds_index(r@, linear_index(xx + s.0, yy + s.1, stride as int)),
            forall|k: int| 0 <= k < r@.len() ==> rect.contains(#[trigger] cells[k].0, cells[k].1)
                && r@[k] == linear_index(cells[k].0 + s.0, cells[k].1 + s.1, stride as int),
        decreases rect.y1 + 1 - y,
    {
        let mut x: u32 = rect.x0;
        while x <= rect.x1
            invariant
                rect.wf(),
                rect.x1 <= MAX_RESOLUTION && rect.y1 <= MAX_RESOLUTION,
                stride <= MAX_RESOLUTION,
                s.0 <= MAX_RESOLUTION && s.1 <= MAX_RESOLUTION,
                rect.y0 <= y <= rect.y1,
                rect.x0 <= x <= rect.x1 + 1,
                cells.len() == r@.len(),
                forall|xx: int, yy: int| #[trigger] rect.contains(xx, yy) && (yy < y || (yy == y && xx < x)) ==> holds_index(r@, linear_index(xx + s.0, yy + s.1, stride as int)),
                forall|k: int| 0 <= k < r@.len() ==> rect.contains(#[trigger] cells[k].0, cells[k].1)
                    && r@[k] == linear_index(cells[k].0 + s.0, cells[k].1 + s.1, stride as int),
            decreases rect.x1 + 1 - x,
        {
            let ty = y + s.1;
            assert(ty * stride <= 2 * MAX_RESOLUTION * MAX_RESOLUTION) by (nonlinear_arith)
                requires ty <= 2 * MAX_RESOLUTION, stride <= MAX_RESOLUTION;
            let id = (x + s.0) + ty * stride;
            let ghost r0 = r@;
            r.push(id);
            proof {
                cells = cells.push((x as int, y as int));
                assert(rect.contains(x as int, y as int));
                assert forall|k: int| 0 <= k < r@.len() implies rect.contains(#[trigger] cells[k].0, cells[k].1)
                    && r@[k] == linear_index(cells[k].0 + s.0, cells[k].1 + s.1, stride as int) by {
                    if k < r0.len() {
                        assert(r@[k] == r0[k]);
                    }
                }
                assert forall|xx: int, yy: int| #[trigger] rect.contains(xx, yy) && (yy < y || (yy == y && xx < x + 1)) implies holds_index(r@, linear_index(xx + s.0, yy + s.1, stride as int)) by {
                    if yy == y && xx == x {
                        assert(r@[r0.len() as int] == id);
                        assert(holds_index(r@, linear_index(xx + s.0, yy + s.1, stride as int)));
                    } else {
                        let v = linear_index(xx + s.0, yy + s.1, stride as int);
                        let k = choose|k: int| 0 <= k < r0.len() && r0[k] == v;
                        assert(r@[k] == r0[k]);
                    }
                }
            }
            x = x + 1;
        }
        y = y + 1;
    }
    proof {
        assert(s == scroll_or_origin(scroll));
        assert(y == rect.y1 + 1);
        assert forall|xx: int, yy: int| #[trigger] rect.contains(xx, yy) implies holds_index(
            r@, linear_index(xx + s.0, yy + s.1, stride as int)) by {
            assert(yy < y);
        }
        assert forall|k: int| 0 <= k < r@.len() implies in_rect_image(#[trigger] r@[k] as int, *rect, s, stride as int) by {
            assert(rect.contains(cells[k].0, cells[k].1));
        }
    }
    r
}

} // verus!
