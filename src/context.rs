//! What the screens share: settings, the level, the pointer and the file
//! work asked of the caller; and the switch for typed-text capture.

use vstd::prelude::*;
use crate::graphics::{Graphics, MAX_RESOLUTION};
use crate::level::Level;
use crate::table::Pos;
use crate::text::{all_alnum, MAX_NAME_LEN};
use crate::types::{TextureType, WindowEvent};

verus! {

/// The smallest window side, in pixels, that the editor works with: one
/// tile at the largest zoom fits.
pub const MIN_RESOLUTION: u32 = 128;

/// Switches the capture of typed text on and off.
pub trait TextInput {
    spec fn is_active(&self) -> bool;

    fn start(&mut self)
        ensures
            final(self).is_active(),
    ;

    fn stop(&mut self)
        ensures
            !final(self).is_active(),
    ;
}

/// Whether typed text is being captured.
#[derive(Clone, Copy, PartialEq, Eq, Structural, Debug)]
pub struct TextCapture {
    pub active: bool,
}

impl TextInput for TextCapture {
    open spec fn is_active(&self) -> bool {
        self.active
    }

    fn start(&mut self) {
        self.active = true;
    }

    fn stop(&mut self) {
        self.active = false;
    }
}

/// What every screen of the editor reads and changes: the settings, the
/// level, the tile chosen for painting, the pointer, the name the level is
/// saved under, and the file work the caller is asked to carry out.
#[derive(Debug)]
pub struct Context {
    pub graphics: Graphics,
    pub level: Level,
    pub selected_tile_id: u32,
    pub texture_type_selected: TextureType,
    pub texture_type_scrolled: TextureType,
    pub mouse: Pos,
    /// The file name typed in the save prompt, without extension.
    pub level_save_name: Vec<char>,
    /// The name shown for the level last saved or loaded.
    pub saved_level_name: Option<Vec<char>>,
    pub automatic_shadows: bool,
    /// A file the level is to be written to.
    pub save_request: Option<Vec<char>>,
    /// A file a level is to be read from.
    pub load_request: Option<Vec<char>>,
}

impl Context {
    pub open spec fn wf(&self) -> bool {
        &&& self.graphics.wf()
        &&& self.graphics.resolution_x >= MIN_RESOLUTION
        &&& self.graphics.resolution_y >= MIN_RESOLUTION
        &&& self.level.wf()
        &&& self.mouse.0 < self.graphics.resolution_x
        &&& self.mouse.1 < self.graphics.resolution_y
        &&& self.level_save_name@.len() <= MAX_NAME_LEN
        &&& all_alnum(self.level_save_name@)
        &&& scroll_in_view(*self)
    }

    /// A context with a fresh level of `size` and default settings.
    pub fn new(size: (u32, u32)) -> (r: Context)
        requires
            1 <= size.0 <= crate::level::MAX_LEVEL_SIZE,
            1 <= size.1 <= crate::level::MAX_LEVEL_SIZE,
        ensures
            r.wf(),
            r.level.width() == size.0,
            r.level.height() == size.1,
            r.graphics == Graphics::default_spec(),
            r.automatic_shadows,
            r.mouse == (0u32, 0u32),
            r.save_request is None,
            r.load_request is None,
            r.saved_level_name is None,
            r.level_save_name@.len() == 0,
    {
        Context {
            graphics: Graphics::new(),
            level: Level::get_default_level(size),
            selected_tile_id: 0,
            texture_type_selected: TextureType::Floor,
            texture_type_scrolled: TextureType::Floor,
            mouse: (0, 0),
            level_save_name: Vec::new(),
            saved_level_name: None,
            automatic_shadows: true,
            save_request: None,
            load_request: None,
        }
    }

    /// Takes a new window size, kept within the sizes the editor works
    /// with; the pointer is kept inside the window.
    pub fn resize(&mut self, win_event: WindowEvent)
        requires
            old(self).wf(),
        ensures
            final(self).wf(),
            *final(self) == resized(*old(self), win_event),
    {
        match win_event {
            WindowEvent::Resized { width, height } => {
                let w = clamp_resolution_of(width);
                let h = clamp_resolution_of(height);
                self.graphics.resolution_x = w;
                self.graphics.resolution_y = h;
                self.mouse = crate::coords::limit_coordinates(&self.mouse, &(w, h));
                let full_x = self.graphics.get_full_x_tiles_per_screen();
                let full_y = self.graphics.get_full_y_tiles_per_screen();
                let width = self.level.get_width();
                let height = self.level.get_height();
                let s = self.level.scroll;
                let x = if s.0 == 0 || s.0 + full_x <= width {
                    s.0
                } else if width > full_x {
                    width - full_x
                } else {
                    0
                };
                let y = if s.1 == 0 || s.1 + full_y <= height {
                    s.1
                } else if height > full_y {
                    height - full_y
                } else {
                    0
                };
                self.level.scroll = (x, y);
            },
            WindowEvent::Maximized => {},
        }
    }
}

/// The viewport never reaches past the end of the level, unless the
/// level is smaller than the window.
pub open spec fn scroll_in_view(c: Context) -> bool {
    &&& (c.level.scroll.0 == 0 || c.level.scroll.0 + c.graphics.full_x_tiles() <= c.level.width())
    &&& (c.level.scroll.1 == 0 || c.level.scroll.1 + c.graphics.full_y_tiles() <= c.level.height())
}

/// A scroll offset moved back so that the viewport ends where the level
/// does, where it reached past that.
pub open spec fn clamp_scroll(s: u32, full: u32, size: int) -> u32 {
    if s == 0 || s + full <= size {
        s
    } else if size > full {
        (size - full) as u32
    } else {
        0
    }
}

/// The context after a window event: a new size is kept within the sizes
/// the editor works with, the pointer is kept inside the window and the
/// scroll is pulled back inside the level.
pub open spec fn resized(c: Context, win_event: WindowEvent) -> Context {
    match win_event {
        WindowEvent::Resized { width, height } => {
            let g = Graphics {
                resolution_x: clamp_resolution(width),
                resolution_y: clamp_resolution(height),
                ..c.graphics
            };
            Context {
                graphics: g,
                mouse: (
                    crate::coords::limit(c.mouse.0, g.resolution_x),
                    crate::coords::limit(c.mouse.1, g.resolution_y),
                ),
                level: Level {
                    scroll: (
                        clamp_scroll(c.level.scroll.0, g.full_x_tiles(), c.level.width()),
                        clamp_scroll(c.level.scroll.1, g.full_y_tiles(), c.level.height()),
                    ),
                    ..c.level
                },
                ..c
            }
        },
        WindowEvent::Maximized => c,
    }
}

pub open spec fn clamp_resolution(v: u32) -> u32 {
    if v < MIN_RESOLUTION {
        MIN_RESOLUTION
    } else if v > MAX_RESOLUTION {
        MAX_RESOLUTION
    } else {
        v
    }
}

fn clamp_resolution_of(v: u32) -> (r: u32)
    ensures
        r == clamp_resolution(v),
{
    if v < MIN_RESOLUTION {
        MIN_RESOLUTION
    } else if v > MAX_RESOLUTION {
        MAX_RESOLUTION
    } else {
        v
    }
}

} // verus!
