//! The tile atlas screen.

use vstd::prelude::*;
use crate::context::Context;
use crate::coords::{get_tile_id_from_coordinates, limit, limit_coordinates, linear_index, screen_to_tile};
use crate::graphics::Graphics;
use crate::table::Pos;
use crate::types::{Event, Keycode, Mode, MouseButton, TextureType};

verus! {

/// The largest atlas side, in pixels.
pub const MAX_ATLAS_SIZE: u32 = 4096;

/// The tile atlas screen: shows one atlas at a time and takes the tile
/// clicked in it as the tile to paint with.
#[derive(Clone, Copy, Debug)]
pub struct TileSelectState {
    /// The size in pixels of the floor, wall and shadow atlases.
    pub floor_size: Pos,
    pub walls_size: Pos,
    pub shadows_size: Pos,
}

/// The atlas after `t` in Page Down order.
pub open spec fn next_atlas(t: TextureType) -> TextureType {
    match t {
        TextureType::Floor => TextureType::Walls,
        TextureType::Walls => TextureType::Shadow,
        TextureType::Shadow => TextureType::Floor,
    }
}

/// The atlas after `t` in Page Up order.
pub open spec fn previous_atlas(t: TextureType) -> TextureType {
    match t {
        TextureType::Floor => TextureType::Shadow,
        TextureType::Shadow => TextureType::Walls,
        TextureType::Walls => TextureType::Floor,
    }
}

/// How many whole tiles an atlas of `size` pixels holds.
pub open spec fn tiles_in_atlas(size: Pos, tile_size: u32) -> int {
    (size.0 / tile_size) * (size.1 / tile_size)
}

/// The tile of an atlas of `size` pixels under the pointer, the pointer
/// first kept inside the atlas as drawn.
pub open spec fn atlas_tile_at(g: Graphics, size: Pos, mouse: Pos) -> int {
    let tw = (size.0 * g.render_multiplier) as u32;
    let th = (size.1 * g.render_multiplier) as u32;
    let p = (limit(mouse.0, tw), limit(mouse.1, th));
    let t = screen_to_tile(g, p, (0u32, 0u32));
    linear_index(t.0, t.1, (tw / g.render_size()) as int)
}

/// The number of whole tiles an atlas holds.
pub fn get_number_of_tiles_in_texture(size: Pos, tile_size: u32) -> (r: u32)
    requires
        size.0 <= MAX_ATLAS_SIZE,
        size.1 <= MAX_ATLAS_SIZE,
        tile_size >= 1,
    ensures
        r == tiles_in_atlas(size, tile_size),
{
    let w = size.0 / tile_size;
    let h = size.1 / tile_size;
    assert(w * h <= MAX_ATLAS_SIZE * MAX_ATLAS_SIZE) by (nonlinear_arith)
        requires w <= MAX_ATLAS_SIZE, h <= MAX_ATLAS_SIZE;
    w * h
}

/// What one event does on the tile atlas screen.
pub open spec fn tile_select_step(
    ts: TileSelectState,
    c0: Context,
    event: Event,
    c1: Context,
    r: Mode,
) -> bool {
    match event {
        Event::Quit => r == Mode::Editor && c1 == c0,
        Event::Window { .. } => r == Mode::TileSelect && c1 == c0,
        Event::KeyDown { keycode } => if keycode == Keycode::Escape || keycode == Keycode::Space {
            r == Mode::Editor && c1 == c0
        } else if keycode == Keycode::PageDown {
            &&& r == Mode::TileSelect
            &&& c1 == (Context {
                texture_type_scrolled: next_atlas(c0.texture_type_scrolled),
                ..c0
            })
        } else if keycode == Keycode::PageUp {
            &&& r == Mode::TileSelect
            &&& c1 == (Context {
                texture_type_scrolled: previous_atlas(c0.texture_type_scrolled),
                ..c0
            })
        } else {
            r == Mode::TileSelect && c1 == c0
        },
        Event::MouseMotion { x, y } => {
            &&& r == Mode::TileSelect
            &&& c1 == (Context {
                mouse: (limit(x, c0.graphics.resolution_x), limit(y, c0.graphics.resolution_y)),
                ..c0
            })
        },
        Event::MouseButtonDown { button: MouseButton::Left } => {
            let c = c0;
            let size = ts.atlas_size(c.texture_type_scrolled);
            let id = atlas_tile_at(c.graphics, size, c.mouse);
            if id < tiles_in_atlas(size, c.graphics.tile_size) {
                &&& r == Mode::Editor
                &&& c1 == (Context {
                    selected_tile_id: id as u32,
                    texture_type_selected: c.texture_type_scrolled,
                    ..c
                })
            } else {
                r == Mode::TileSelect && c1 == c
            }
        },
        _ => r == Mode::TileSelect && c1 == c0
    }
}

impl TileSelectState {
    pub open spec fn wf(&self) -> bool {
        &&& self.floor_size.0 <= MAX_ATLAS_SIZE && self.floor_size.1 <= MAX_ATLAS_SIZE
        &&& self.walls_size.0 <= MAX_ATLAS_SIZE && self.walls_size.1 <= MAX_ATLAS_SIZE
        &&& self.shadows_size.0 <= MAX_ATLAS_SIZE && self.shadows_size.1 <= MAX_ATLAS_SIZE
    }

    pub open spec fn atlas_size(&self, t: TextureType) -> Pos {
        match t {
            TextureType::Floor => self.floor_size,
            TextureType::Walls => self.walls_size,
            TextureType::Shadow => self.shadows_size,
        }
    }

    pub fn new(floor_size: Pos, walls_size: Pos, shadows_size: Pos) -> (r: TileSelectState)
        ensures
            r == (TileSelectState { floor_size, walls_size, shadows_size }),
    {
        TileSelectState { floor_size, walls_size, shadows_size }
    }

    fn atlas_size_of(&self, t: TextureType) -> (r: Pos)
        ensures
            r == self.atlas_size(t),
    {
        match t {
            TextureType::Floor => self.floor_size,
            TextureType::Walls => self.walls_size,
            TextureType::Shadow => self.shadows_size,
        }
    }

    /// Reacts to one input event; the result is the screen to show next.
    pub fn handle_event(&self, context: &mut Context, event: Event) -> (r: Mode)
        requires
            self.wf(),
            old(context).wf(),
        ensures
            final(context).wf(),
            tile_select_step(*self, *old(context), event, *final(context), r),
    {
        match event {
            Event::Quit => Mode::Editor,
            Event::Window { .. } => Mode::TileSelect,
            Event::KeyDown { keycode } => {
                match keycode {
                    Keycode::Escape | Keycode::Space => {
                        return Mode::Editor;
                    },
                    Keycode::PageDown => {
                        context.texture_type_scrolled = match context.texture_type_scrolled {
                            TextureType::Floor => TextureType::Walls,
                            TextureType::Walls => TextureType::Shadow,
                            TextureType::Shadow => TextureType::Floor,
                        };
                    },
                    Keycode::PageUp => {
                        context.texture_type_scrolled = match context.texture_type_scrolled {
                            TextureType::Floor => TextureType::Shadow,
                            TextureType::Shadow => TextureType::Walls,
                            TextureType::Walls => TextureType::Floor,
                        };
                    },
                    _ => {},
                }
                Mode::TileSelect
            },
            Event::MouseMotion { x, y } => {
                context.mouse = limit_coordinates(
                    &(x, y),
                    &(context.graphics.resolution_x, context.graphics.resolution_y),
                );
                Mode::TileSelect
            },
            Event::MouseButtonDown { button: MouseButton::Left } => {
                let size = self.atlas_size_of(context.texture_type_scrolled);
                let m = context.graphics.render_multiplier;
                let tw = size.0 * m;
                let th = size.1 * m;
                let rs = context.graphics.get_render_size();
                let p = limit_coordinates(&context.mouse, &(tw, th));
                let stride = tw / rs;
                assert(stride <= tw) by (nonlinear_arith)
                    requires stride as int == (tw as int) / (rs as int), rs >= 1;
                let id = get_tile_id_from_coordinates(&context.graphics, &p, stride, None);
                let count = get_number_of_tiles_in_texture(size, context.graphics.tile_size);
                if id < count {
                    context.selected_tile_id = id;
                    context.texture_type_selected = context.texture_type_scrolled;
                    Mode::Editor
                } else {
                    Mode::TileSelect
                }
            },
            _ => Mode::TileSelect,
        }
    }
}

} // verus!
