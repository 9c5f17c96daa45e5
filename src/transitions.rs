//! The editor screen's state and, for each kind of event, the relation
//! between the state before and after it.

use vstd::prelude::*;
use crate::context::Context;
use crate::coords::{limit, screen_to_tile, selection_rect, TileRect};
use crate::graphics::Graphics;
use crate::level::{
    class_len, next_class, painted, previous_class, shadow_code,
    CrateClass, Level, StaticCrate, StaticCrateType, Steam, MAX_STEAM_RANGE,
};
use crate::table::{find_nearest_spec, Pos};
use crate::text::{all_digits, backspaced, digits_value, lower_char, name_input, numeric_input, upper_char};
use crate::types::{Event, GameType, Keycode, Mode, MouseButton, TextureType};

verus! {

/// The size a new level starts from in the size prompt.
pub const DEFAULT_LEVEL_WIDTH: u32 = 16;

pub const DEFAULT_LEVEL_HEIGHT: u32 = 12;

/// The smallest new level.
pub const MIN_LEVEL_WIDTH: u32 = 16;

pub const MIN_LEVEL_HEIGHT: u32 = 12;

#[derive(Clone, Copy, PartialEq, Eq, Structural, Debug)]
pub enum NewLevelState {
    Prompt,
    XSize,
    YSize,
}

#[derive(Clone, Copy, PartialEq, Eq, Structural, Debug)]
pub enum SaveLevelType {
    Prompt,
    NameInput,
}

/// Whether automatic shadows are on when the prompt opens: confirming
/// turns them the other way.
#[derive(Clone, Copy, PartialEq, Eq, Structural, Debug)]
pub enum ShadowPromptType {
    Enabled,
    Disabled,
}

/// The dialog shown over the editor.
#[derive(Clone, Copy, PartialEq, Eq, Structural, Debug)]
pub enum PromptType {
    NoPrompt,
    NewLevel(NewLevelState),
    Save(SaveLevelType),
    CreateShadows(ShadowPromptType),
    Quit,
    /// Reading or writing a level file failed.
    FileError,
}

/// Where placing an item stands: waiting for a click that places one,
/// waiting for one that deletes one, or adjusting the one just placed at a
/// level coordinate.
#[derive(Clone, Copy, Debug)]
pub enum InsertState {
    Instructions(Pos),
    Place,
    Delete,
}

/// The kind of item being placed or deleted.
#[derive(Clone, Copy, Debug)]
pub enum InsertType {
    NoneInsert,
    Spotlight(InsertState),
    Steam(InsertState),
    NormalCrate(InsertState),
    DMCrate(InsertState),
}

/// The editor screen's own state.
#[derive(Debug)]
pub struct EditorState {
    /// Which player's start point the next click sets: 0 for none.
    pub set_position: u8,
    /// Where the left button went down, while it is held.
    pub mouse_left_click: Option<Pos>,
    pub mouse_right_click: bool,
    pub prompt: PromptType,
    pub insert_item: InsertType,
    pub new_level_size_x: Vec<char>,
    pub new_level_size_y: Vec<char>,
    /// Whether a held left button is selecting tiles to paint.
    pub drag_tiles: bool,
}

impl EditorState {
    pub open spec fn wf(&self) -> bool {
        &&& self.set_position <= 2
        &&& all_digits(self.new_level_size_x@)
        &&& self.new_level_size_x@.len() <= 3
        &&& all_digits(self.new_level_size_y@)
        &&& self.new_level_size_y@.len() <= 3
    }
}

/// The prompts that capture typed text.
pub open spec fn is_text_prompt(p: PromptType) -> bool {
    p == PromptType::NewLevel(NewLevelState::XSize) || p == PromptType::NewLevel(NewLevelState::YSize)
        || p == PromptType::Save(SaveLevelType::NameInput)
}

/// Whether a prompt, an item placement or a start-point placement is under
/// way.
pub open spec fn is_busy(s: EditorState) -> bool {
    s.prompt != PromptType::NoPrompt || s.insert_item != InsertType::NoneInsert || s.set_position > 0
}

/// The keys that start placing or deleting an item.
pub open spec fn is_insert_key(k: Keycode) -> bool {
    k == Keycode::Q || k == Keycode::W || k == Keycode::A || k == Keycode::S || k == Keycode::Z
        || k == Keycode::X || k == Keycode::C
}

/// What placing an item key starts.
pub open spec fn insert_for_key(k: Keycode) -> InsertType {
    match k {
        Keycode::Q => InsertType::Spotlight(InsertState::Place),
        Keycode::W => InsertType::Spotlight(InsertState::Delete),
        Keycode::A => InsertType::Steam(InsertState::Place),
        Keycode::S => InsertType::Steam(InsertState::Delete),
        Keycode::Z => InsertType::NormalCrate(InsertState::Place),
        Keycode::X => InsertType::DMCrate(InsertState::Place),
        _ => InsertType::NormalCrate(InsertState::Delete),
    }
}

/// Whether a size field holds an accepted side of at least `min`.
pub open spec fn size_ok(field: Seq<char>, min: u32) -> bool {
    field.len() > 1 && min <= digits_value(field)
}

pub open spec fn default_x_field() -> Seq<char> {
    seq!['1', '6']
}

pub open spec fn default_y_field() -> Seq<char> {
    seq!['1', '2']
}

pub open spec fn level_extension() -> Seq<char> {
    seq!['.', 'L', 'E', 'V']
}

/// The file a level is saved to: the typed name in upper case with the
/// level extension.
pub open spec fn save_file_name(name: Seq<char>) -> Seq<char> {
    name.map_values(|c: char| upper_char(c)) + level_extension()
}

/// The name shown for a saved file: the file name in lower case.
pub open spec fn display_name(file: Seq<char>) -> Seq<char> {
    file.map_values(|c: char| lower_char(c))
}

/// The level tile under the pointer.
pub open spec fn pointed_level_tile(c: Context) -> Pos {
    let t = screen_to_tile(c.graphics, c.mouse, c.level.scroll);
    (t.0 as u32, t.1 as u32)
}

/// The screen area, in pixels, that shows the level: the window, cut
/// where the level ends.
pub open spec fn view_bounds(c: Context) -> Pos {
    let rs = c.graphics.render_size();
    let lw = ((c.level.width() - c.level.scroll.0) * rs) as u32;
    let lh = ((c.level.height() - c.level.scroll.1) * rs) as u32;
    (
        if lw < c.graphics.resolution_x { lw } else { c.graphics.resolution_x },
        if lh < c.graphics.resolution_y { lh } else { c.graphics.resolution_y },
    )
}

/// A tile rectangle moved by the scroll offset, from screen to level
/// tiles.
pub open spec fn shifted(r: TileRect, s: Pos) -> TileRect {
    TileRect {
        x0: (r.x0 + s.0) as u32,
        y0: (r.y0 + s.1) as u32,
        x1: (r.x1 + s.0) as u32,
        y1: (r.y1 + s.1) as u32,
    }
}

/// Only the level of the context may differ.
pub open spec fn only_level_changed(c0: Context, c1: Context) -> bool {
    c1 == Context { level: c1.level, ..c0 }
}

pub open spec fn with_scroll(c: Context, s: Pos) -> Context {
    Context { level: Level { scroll: s, ..c.level }, ..c }
}

pub open spec fn spotlight_set(c0: Context, c1: Context, p: Pos, v: u32) -> bool {
    &&& only_level_changed(c0, c1)
    &&& c1.level.wf()
    &&& c1.level.spotlight(p) == Some(v)
    &&& forall|q: Pos| q != p ==> c1.level.spotlight(q) == c0.level.spotlight(q)
    &&& c1.level.same_except_spotlights(c0.level)
}

pub open spec fn steam_set(c0: Context, c1: Context, p: Pos, v: Steam) -> bool {
    &&& only_level_changed(c0, c1)
    &&& c1.level.wf()
    &&& c1.level.steam(p) == Some(v)
    &&& forall|q: Pos| q != p ==> c1.level.steam(q) == c0.level.steam(q)
    &&& c1.level.same_except_steams(c0.level)
}

pub open spec fn crate_set(c0: Context, c1: Context, p: Pos, v: StaticCrateType) -> bool {
    &&& only_level_changed(c0, c1)
    &&& c1.level.wf()
    &&& c1.level.crate_at(p) == Some(v)
    &&& forall|q: Pos| q != p ==> c1.level.crate_at(q) == c0.level.crate_at(q)
    &&& c1.level.same_except_crates(c0.level)
}

/// Escape, or a request to close the window: cancels whatever is under
/// way and stops text capture, or, with nothing under way, asks whether to
/// quit.
pub open spec fn escape_step(s0: EditorState, a0: bool, s1: EditorState, a1: bool) -> bool {
    if is_busy(s0) {
        &&& s1 == EditorState {
            insert_item: InsertType::NoneInsert,
            set_position: 0,
            prompt: PromptType::NoPrompt,
            ..s0
        }
        &&& !a1
    } else {
        s1 == EditorState { prompt: PromptType::Quit, ..s0 } && a1 == a0
    }
}

/// Escape pressed twice. With something under way, the first press
/// cancels it and stops text capture, and the second only opens the quit
/// prompt. With nothing under way, the first press only opens the quit
/// prompt and the second closes it again.
pub proof fn lemma_escape_twice(s0: EditorState, a0: bool, s1: EditorState, a1: bool, s2: EditorState, a2: bool)
    requires
        escape_step(s0, a0, s1, a1),
        escape_step(s1, a1, s2, a2),
    ensures
        is_busy(s0) ==> {
            &&& !is_busy(s1) && !a1
            &&& s2 == (EditorState { prompt: PromptType::Quit, ..s1 }) && !a2
        },
        !is_busy(s0) ==> {
            &&& s1 == (EditorState { prompt: PromptType::Quit, ..s0 }) && a1 == a0
            &&& s2 == (EditorState { prompt: PromptType::NoPrompt, ..s0 }) && !a2
        },
{
}

/// Typed text goes to the field of the prompt that captures it.
pub open spec fn text_step(
    s0: EditorState,
    c0: Context,
    text: Seq<char>,
    s1: EditorState,
    c1: Context,
) -> bool {
    match s0.prompt {
        PromptType::NewLevel(NewLevelState::XSize) => {
            &&& c1 == c0
            &&& s1 == EditorState { new_level_size_x: s1.new_level_size_x, ..s0 }
            &&& s1.new_level_size_x@ == numeric_input(s0.new_level_size_x@, text)
        },
        PromptType::NewLevel(NewLevelState::YSize) => {
            &&& c1 == c0
            &&& s1 == EditorState { new_level_size_y: s1.new_level_size_y, ..s0 }
            &&& s1.new_level_size_y@ == numeric_input(s0.new_level_size_y@, text)
        },
        PromptType::Save(SaveLevelType::NameInput) => {
            &&& s1 == s0
            &&& c1 == Context { level_save_name: c1.level_save_name, ..c0 }
            &&& c1.level_save_name@ == name_input(c0.level_save_name@, text)
        },
        _ => s1 == s0 && c1 == c0,
    }
}

/// Backspace takes a character off the field of the prompt that captures
/// text.
pub open spec fn backspace_step(
    s0: EditorState,
    c0: Context,
    s1: EditorState,
    c1: Context,
) -> bool {
    match s0.prompt {
        PromptType::NewLevel(NewLevelState::XSize) => {
            &&& c1 == c0
            &&& s1 == EditorState { new_level_size_x: s1.new_level_size_x, ..s0 }
            &&& s1.new_level_size_x@ == backspaced(s0.new_level_size_x@)
        },
        PromptType::NewLevel(NewLevelState::YSize) => {
            &&& c1 == c0
            &&& s1 == EditorState { new_level_size_y: s1.new_level_size_y, ..s0 }
            &&& s1.new_level_size_y@ == backspaced(s0.new_level_size_y@)
        },
        PromptType::Save(SaveLevelType::NameInput) => {
            &&& s1 == s0
            &&& c1 == Context { level_save_name: c1.level_save_name, ..c0 }
            &&& c1.level_save_name@ == backspaced(c0.level_save_name@)
        },
        _ => s1 == s0 && c1 == c0,
    }
}

/// The keys that only touch the editor's own state and text capture.
pub open spec fn prompt_key_step(
    s0: EditorState,
    auto_shadows: bool,
    a0: bool,
    k: Keycode,
    s1: EditorState,
    a1: bool,
) -> bool {
    if k == Keycode::F2 {
        s1 == EditorState { prompt: PromptType::Save(SaveLevelType::Prompt), ..s0 } && !a1
    } else if k == Keycode::F4 {
        &&& s1 == EditorState {
            prompt: PromptType::NewLevel(NewLevelState::Prompt),
            new_level_size_x: s1.new_level_size_x,
            new_level_size_y: s1.new_level_size_y,
            ..s0
        }
        &&& s1.new_level_size_x@ == default_x_field()
        &&& s1.new_level_size_y@ == default_y_field()
        &&& a1 == a0
    } else if k == Keycode::F6 {
        &&& s1 == EditorState {
            prompt: PromptType::CreateShadows(
                if auto_shadows { ShadowPromptType::Enabled } else { ShadowPromptType::Disabled },
            ),
            ..s0
        }
        &&& !a1
    } else if k == Keycode::Num1 || k == Keycode::Num2 {
        &&& a1 == a0
        &&& if s0.prompt is NewLevel || s0.prompt is Save {
            s1 == s0
        } else {
            s1 == EditorState {
                set_position: if k == Keycode::Num1 { 1u8 } else { 2u8 },
                prompt: PromptType::NoPrompt,
                ..s0
            }
        }
    } else if is_insert_key(k) {
        if s0.prompt is Save {
            s1 == s0 && a1 == a0
        } else {
            s1 == EditorState { insert_item: insert_for_key(k), prompt: PromptType::NoPrompt, ..s0 } && !a1
        }
    } else {
        &&& a1 == a0
        &&& if is_text_prompt(s0.prompt) {
            s1 == s0
        } else {
            s1 == EditorState { prompt: PromptType::NoPrompt, ..s0 }
        }
    }
}

/// Shadows recomputed over the whole grid and automatic shadows on.
pub open spec fn shadows_recomputed(c0: Context, c1: Context) -> bool {
    &&& c1 == Context { level: c1.level, automatic_shadows: true, ..c0 }
    &&& c1.level.wf()
    &&& c1.level.width() == c0.level.width()
    &&& c1.level.height() == c0.level.height()
    &&& forall|x: int, y: int| 0 <= x < c0.level.width() && 0 <= y < c0.level.height() ==>
        #[trigger] c1.level.tile(x, y) == (with_shadow(c0.level.tile(x, y), shadow_code(c1.level.tiles@, x, y)))
    &&& c1.level.same_except_tiles(c0.level)
}

/// A tile with its shadow replaced.
pub open spec fn with_shadow(t: crate::types::Tile, shadow: u32) -> crate::types::Tile {
    crate::types::Tile { shadow, ..t }
}

/// Y confirms the open prompt; on a failed file operation it dismisses it.
pub open spec fn y_step(
    s0: EditorState,
    c0: Context,
    a0: bool,
    s1: EditorState,
    c1: Context,
    a1: bool,
    m: Mode,
) -> bool {
    match s0.prompt {
        PromptType::NewLevel(NewLevelState::Prompt) => {
            &&& s1 == EditorState { prompt: PromptType::NewLevel(NewLevelState::XSize), ..s0 }
            &&& a1 && c1 == c0 && m == Mode::Editor
        },
        PromptType::Save(SaveLevelType::Prompt) => {
            &&& s1 == EditorState { prompt: PromptType::Save(SaveLevelType::NameInput), ..s0 }
            &&& a1 && c1 == c0 && m == Mode::Editor
        },
        PromptType::CreateShadows(ShadowPromptType::Enabled) => {
            &&& s1 == EditorState { prompt: PromptType::NoPrompt, ..s0 }
            &&& c1 == Context { automatic_shadows: false, ..c0 }
            &&& a1 == a0 && m == Mode::Editor
        },
        PromptType::CreateShadows(ShadowPromptType::Disabled) => {
            &&& s1 == EditorState { prompt: PromptType::NoPrompt, ..s0 }
            &&& shadows_recomputed(c0, c1)
            &&& a1 == a0 && m == Mode::Editor
        },
        PromptType::Quit => m == Mode::Quit && s1 == s0 && c1 == c0 && a1 == a0,
        PromptType::FileError => {
            m == Mode::Editor && s1 == (EditorState { prompt: PromptType::NoPrompt, ..s0 }) && c1 == c0 && a1 == a0
        },
        _ => m == Mode::Editor && s1 == s0 && c1 == c0 && a1 == a0,
    }
}

/// Enter accepts the item being adjusted, or the value typed in a prompt.
pub open spec fn enter_step(
    s0: EditorState,
    c0: Context,
    a0: bool,
    s1: EditorState,
    c1: Context,
    a1: bool,
) -> bool {
    match s0.insert_item {
        InsertType::Spotlight(InsertState::Instructions(_)) => {
            s1 == EditorState { insert_item: InsertType::Spotlight(InsertState::Place), ..s0 } && c1 == c0 && a1 == a0
        },
        InsertType::Steam(InsertState::Instructions(_)) => {
            s1 == EditorState { insert_item: InsertType::Steam(InsertState::Place), ..s0 } && c1 == c0 && a1 == a0
        },
        InsertType::NormalCrate(InsertState::Instructions(_)) => {
            s1 == EditorState { insert_item: InsertType::NormalCrate(InsertState::Place), ..s0 } && c1 == c0 && a1 == a0
        },
        InsertType::DMCrate(InsertState::Instructions(_)) => {
            s1 == EditorState { insert_item: InsertType::DMCrate(InsertState::Place), ..s0 } && c1 == c0 && a1 == a0
        },
        _ => match s0.prompt {
            PromptType::NewLevel(NewLevelState::XSize) => {
                &&& c1 == c0 && a1 == a0
                &&& s1 == if size_ok(s0.new_level_size_x@, MIN_LEVEL_WIDTH) {
                    EditorState { prompt: PromptType::NewLevel(NewLevelState::YSize), ..s0 }
                } else {
                    s0
                }
            },
            PromptType::NewLevel(NewLevelState::YSize) => {
                if size_ok(s0.new_level_size_x@, MIN_LEVEL_WIDTH) && size_ok(s0.new_level_size_y@, MIN_LEVEL_HEIGHT) {
                    &&& s1 == EditorState { prompt: PromptType::NoPrompt, ..s0 }
                    &&& !a1
                    &&& c1 == Context {
                        level: c1.level,
                        saved_level_name: None,
                        level_save_name: c1.level_save_name,
                        ..c0
                    }
                    &&& c1.level_save_name@.len() == 0
                    &&& c1.level.is_default(digits_value(s0.new_level_size_x@) as int, digits_value(s0.new_level_size_y@) as int)
                } else {
                    s1 == s0 && c1 == c0 && a1 == a0
                }
            },
            PromptType::Save(SaveLevelType::NameInput) => {
                if c0.level_save_name@.len() > 1 {
                    &&& s1 == EditorState { prompt: PromptType::NoPrompt, ..s0 }
                    &&& !a1
                    &&& c1 == Context {
                        save_request: c1.save_request,
                        saved_level_name: c1.saved_level_name,
                        ..c0
                    }
                    &&& c1.save_request matches Some(f) && f@ == save_file_name(c0.level_save_name@)
                    &&& c1.saved_level_name matches Some(d) && d@ == display_name(save_file_name(c0.level_save_name@))
                } else {
                    s1 == s0 && c1 == c0 && a1 == a0
                }
            },
            _ => s1 == s0 && c1 == c0 && a1 == a0,
        },
    }
}

/// Scrolling by one tile, kept inside the level.
pub open spec fn scroll_step(c0: Context, k: Keycode, c1: Context) -> bool {
    let s = c0.level.scroll;
    if k == Keycode::Up {
        c1 == if s.1 > 0 { with_scroll(c0, (s.0, (s.1 - 1) as u32)) } else { c0 }
    } else if k == Keycode::Down {
        c1 == if s.1 + c0.graphics.full_y_tiles() < c0.level.height() {
            with_scroll(c0, (s.0, (s.1 + 1) as u32))
        } else {
            c0
        }
    } else if k == Keycode::Left {
        c1 == if s.0 > 0 { with_scroll(c0, ((s.0 - 1) as u32, s.1)) } else { c0 }
    } else {
        c1 == if s.0 + c0.graphics.full_x_tiles() < c0.level.width() {
            with_scroll(c0, ((s.0 + 1) as u32, s.1))
        } else {
            c0
        }
    }
}

/// An arrow key adjusts the spotlight just placed: Up brightens it, Down
/// dims it down to zero.
pub open spec fn spotlight_arrow(c0: Context, p: Pos, k: Keycode, c1: Context) -> bool {
    match c0.level.spotlight(p) {
        Some(i) => if k == Keycode::Up && i < u32::MAX {
            spotlight_set(c0, c1, p, (i + 1) as u32)
        } else if k == Keycode::Down && i > 0 {
            spotlight_set(c0, c1, p, (i - 1) as u32)
        } else {
            c1 == c0
        },
        None => c1 == c0,
    }
}

/// An arrow key adjusts the steam emitter just placed: Up and Down its
/// reach within its bounds, Left and Right its direction by five degrees
/// round the circle.
pub open spec fn steam_arrow(c0: Context, p: Pos, k: Keycode, c1: Context) -> bool {
    match c0.level.steam(p) {
        Some(st) => if k == Keycode::Up {
            if st.range < MAX_STEAM_RANGE {
                steam_set(c0, c1, p, Steam { range: (st.range + 1) as u32, ..st })
            } else {
                c1 == c0
            }
        } else if k == Keycode::Down {
            if st.range > 0 {
                steam_set(c0, c1, p, Steam { range: (st.range - 1) as u32, ..st })
            } else {
                c1 == c0
            }
        } else if k == Keycode::Left {
            steam_set(c0, c1, p, Steam { angle: ((st.angle + 355) % 360) as u32, ..st })
        } else {
            steam_set(c0, c1, p, Steam { angle: ((st.angle + 5) % 360) as u32, ..st })
        },
        None => c1 == c0,
    }
}

/// An arrow key adjusts the crate just placed: Up and Down step through
/// the classes, starting the new class at its first item; Left and Right
/// step through the items of the class.
pub open spec fn crate_arrow(c0: Context, p: Pos, k: Keycode, c1: Context) -> bool {
    match c0.level.crate_at(p) {
        Some(c) => if k == Keycode::Up {
            match next_class(c.crate_class) {
                Some(n) => crate_set(c0, c1, p, StaticCrateType { crate_class: n, crate_type: 0, ..c }),
                None => c1 == c0,
            }
        } else if k == Keycode::Down {
            match previous_class(c.crate_class) {
                Some(n) => crate_set(c0, c1, p, StaticCrateType { crate_class: n, crate_type: 0, ..c }),
                None => c1 == c0,
            }
        } else if k == Keycode::Left {
            if c.crate_type > 0 {
                crate_set(c0, c1, p, StaticCrateType { crate_type: (c.crate_type - 1) as u8, ..c })
            } else {
                c1 == c0
            }
        } else {
            if c.crate_type + 1 < class_len(c.crate_class) {
                crate_set(c0, c1, p, StaticCrateType { crate_type: (c.crate_type + 1) as u8, ..c })
            } else {
                c1 == c0
            }
        },
        None => c1 == c0,
    }
}

pub open spec fn is_arrow(k: Keycode) -> bool {
    k == Keycode::Up || k == Keycode::Down || k == Keycode::Left || k == Keycode::Right
}

/// What an arrow key does: adjust the item just placed, or scroll the view
/// (Left and Right scroll during spotlight placement too, as spotlights
/// have no direction).
pub open spec fn arrow_step(ins: InsertType, c0: Context, k: Keycode, c1: Context) -> bool {
    match ins {
        InsertType::Spotlight(InsertState::Instructions(p)) => if k == Keycode::Up || k == Keycode::Down {
            spotlight_arrow(c0, p, k, c1)
        } else {
            scroll_step(c0, k, c1)
        },
        InsertType::Spotlight(_) => if k == Keycode::Up || k == Keycode::Down {
            c1 == c0
        } else {
            scroll_step(c0, k, c1)
        },
        InsertType::Steam(InsertState::Instructions(p)) => steam_arrow(c0, p, k, c1),
        InsertType::NormalCrate(InsertState::Instructions(p)) => crate_arrow(c0, p, k, c1),
        InsertType::DMCrate(InsertState::Instructions(p)) => crate_arrow(c0, p, k, c1),
        InsertType::NoneInsert => scroll_step(c0, k, c1),
        _ => c1 == c0,
    }
}

/// What a key does in the editor. A key that switches to another screen
/// closes any prompt and stops text capture first.
pub open spec fn key_step(
    s0: EditorState,
    c0: Context,
    a0: bool,
    k: Keycode,
    s1: EditorState,
    c1: Context,
    a1: bool,
    m: Mode,
) -> bool {
    let leave = s1 == (EditorState { prompt: PromptType::NoPrompt, ..s0 }) && c1 == c0 && !a1;
    if k == Keycode::Space {
        m == Mode::TileSelect && leave
    } else if k == Keycode::F1 {
        m == Mode::Help && leave
    } else if k == Keycode::F3 {
        m == Mode::LoadLevel && leave
    } else if k == Keycode::F7 {
        m == Mode::GeneralLevelInfo && leave
    } else if k == Keycode::F8 {
        m == Mode::RandomItemEditor(GameType::Normal) && leave
    } else if k == Keycode::F9 {
        m == Mode::RandomItemEditor(GameType::Deathmatch) && leave
    } else if k == Keycode::Y {
        y_step(s0, c0, a0, s1, c1, a1, m)
    } else if is_arrow(k) {
        m == Mode::Editor && s1 == s0 && a1 == a0 && arrow_step(s0.insert_item, c0, k, c1)
    } else if k == Keycode::Return || k == Keycode::KpEnter {
        m == Mode::Editor && enter_step(s0, c0, a0, s1, c1, a1)
    } else if k == Keycode::Backspace {
        m == Mode::Editor && a1 == a0 && backspace_step(s0, c0, s1, c1)
    } else if k == Keycode::Plus || k == Keycode::KpPlus {
        &&& m == Mode::Editor && s1 == s0 && a1 == a0
        &&& c1 == if c0.graphics.render_multiplier == 1 {
            Context { graphics: Graphics { render_multiplier: 2, ..c0.graphics }, ..c0 }
        } else {
            c0
        }
    } else if k == Keycode::Minus || k == Keycode::KpMinus {
        &&& m == Mode::Editor && s1 == s0 && a1 == a0
        &&& c1 == if c0.graphics.render_multiplier == 2 {
            Context {
                graphics: Graphics { render_multiplier: 1, ..c0.graphics },
                level: Level { scroll: (0u32, 0u32), ..c0.level },
                ..c0
            }
        } else {
            c0
        }
    } else {
        m == Mode::Editor && c1 == c0 && prompt_key_step(s0, c0.automatic_shadows, a0, k, s1, a1)
    }
}

/// What one event does on the editor screen.
pub open spec fn editor_event_step(
    s0: EditorState,
    c0: Context,
    a0: bool,
    event: Event,
    s1: EditorState,
    c1: Context,
    a1: bool,
    r: Mode,
) -> bool {
    match event {
        Event::Quit => {
            &&& r == Mode::Editor
            &&& c1 == c0
            &&& escape_step(s0, a0, s1, a1)
        },
        Event::KeyDown { keycode } => if keycode == Keycode::Escape {
            &&& r == Mode::Editor
            &&& c1 == c0
            &&& escape_step(s0, a0, s1, a1)
        } else {
            key_step(s0, c0, a0, keycode, s1, c1, a1, r)
        },
        Event::TextInput { text } => {
            &&& r == Mode::Editor
            &&& a1 == a0
            &&& text_step(s0, c0, text@, s1, c1)
        },
        Event::Window { .. } => {
            &&& r == Mode::Editor
            &&& s1 == s0
            &&& c1 == c0
            &&& a1 == a0
        },
        Event::MouseMotion { x, y } => {
            &&& r == Mode::Editor
            &&& a1 == a0
            &&& motion_step(s0, c0, x, y, s1, c1)
        },
        Event::MouseButtonDown { button: MouseButton::Left } => {
            &&& r == Mode::Editor
            &&& a1 == a0
            &&& left_down_step(
                EditorState { mouse_left_click: Some(c0.mouse), ..s0 },
                c0,
                s1,
                c1,
            )
        },
        Event::MouseButtonDown { button: MouseButton::Right } => {
            &&& r == Mode::Editor
            &&& a1 == a0
            &&& s1 == EditorState { mouse_right_click: true, ..s0 }
            &&& right_down_step(c0, c1)
        },
        Event::MouseButtonUp { button: MouseButton::Left } => {
            &&& r == Mode::Editor
            &&& a1 == a0
            &&& left_up_step(s0, c0, s1, c1)
        },
        Event::MouseButtonUp { button: MouseButton::Right } => {
            &&& r == Mode::Editor
            &&& a1 == a0
            &&& s1 == EditorState { mouse_right_click: false, ..s0 }
            &&& c1 == c0
        }
    }
}

/// A left click, or a drag with the left button held: sets a start point,
/// places or deletes an item, or starts selecting tiles to paint.
pub open spec fn left_down_step(
    s0: EditorState,
    c0: Context,
    s1: EditorState,
    c1: Context,
) -> bool {
    let p = pointed_level_tile(c0);
    let radius = c0.graphics.render_multiplier;
    if s0.drag_tiles {
        s1 == s0 && c1 == c0
    } else if s0.set_position > 0 {
        &&& s1 == EditorState { set_position: 0, ..s0 }
        &&& c1 == if s0.set_position == 1 {
            Context { level: Level { p1_position: p, ..c0.level }, ..c0 }
        } else {
            Context { level: Level { p2_position: p, ..c0.level }, ..c0 }
        }
    } else {
        match s0.insert_item {
            InsertType::Spotlight(InsertState::Place) => {
                &&& s1 == EditorState { insert_item: InsertType::Spotlight(InsertState::Instructions(p)), ..s0 }
                &&& spotlight_set(c0, c1, p, 0)
            },
            InsertType::Spotlight(InsertState::Delete) => {
                &&& s1 == s0
                &&& only_level_changed(c0, c1)
                &&& c1.level.wf()
                &&& c1.level.same_except_spotlights(c0.level)
                &&& c1.level.spotlights@ == match find_nearest_spec(c0.level.spotlights@, p, radius) {
                    Some(k) => c0.level.spotlights@.remove(k),
                    None => c0.level.spotlights@,
                }
            },
            InsertType::Steam(InsertState::Place) => {
                &&& s1 == EditorState { insert_item: InsertType::Steam(InsertState::Instructions(p)), ..s0 }
                &&& steam_set(c0, c1, p, Steam { angle: 0, range: 1 })
            },
            InsertType::Steam(InsertState::Delete) => {
                &&& s1 == s0
                &&& only_level_changed(c0, c1)
                &&& c1.level.wf()
                &&& c1.level.same_except_steams(c0.level)
                &&& c1.level.steams@ == match find_nearest_spec(c0.level.steams@, p, radius) {
                    Some(k) => c0.level.steams@.remove(k),
                    None => c0.level.steams@,
                }
            },
            InsertType::NormalCrate(InsertState::Place) => {
                &&& s1 == EditorState { insert_item: InsertType::NormalCrate(InsertState::Instructions(p)), ..s0 }
                &&& crate_set(c0, c1, p, StaticCrateType {
                    crate_variant: StaticCrate::Normal,
                    crate_class: CrateClass::Weapon,
                    crate_type: 0,
                })
            },
            InsertType::DMCrate(InsertState::Place) => {
                &&& s1 == EditorState { insert_item: InsertType::DMCrate(InsertState::Instructions(p)), ..s0 }
                &&& crate_set(c0, c1, p, StaticCrateType {
                    crate_variant: StaticCrate::Deathmatch,
                    crate_class: CrateClass::Weapon,
                    crate_type: 0,
                })
            },
            InsertType::NormalCrate(InsertState::Delete) => {
                &&& s1 == s0
                &&& only_level_changed(c0, c1)
                &&& c1.level.wf()
                &&& c1.level.same_except_crates(c0.level)
                &&& c1.level.crates.static_crates@ == match find_nearest_spec(c0.level.crates.static_crates@, p, radius) {
                    Some(k) => c0.level.crates.static_crates@.remove(k),
                    None => c0.level.crates.static_crates@,
                }
            },
            InsertType::NoneInsert => s1 == EditorState { drag_tiles: true, ..s0 } && c1 == c0,
            _ => s1 == s0 && c1 == c0,
        }
    }
}

/// The grid painted over `rect` with the selected tile; with automatic
/// shadows on and a non-shadow tile, shadows recomputed after. Painting a
/// shadow turns automatic shadows off.
pub open spec fn paint_step(
    c0: Context,
    rect: TileRect,
    id: Option<u32>,
    tt: TextureType,
    c1: Context,
) -> bool {
    let auto = tt != TextureType::Shadow && c0.automatic_shadows;
    &&& c1 == Context { level: c1.level, automatic_shadows: auto, ..c0 }
    &&& c1.level.wf()
    &&& c1.level.width() == c0.level.width()
    &&& c1.level.height() == c0.level.height()
    &&& c1.level.same_except_tiles(c0.level)
    &&& forall|x: int, y: int| 0 <= x < c0.level.width() && 0 <= y < c0.level.height() ==> {
        let t = if rect.contains(x, y) { painted(c0.level.tile(x, y), id, tt) } else { c0.level.tile(x, y) };
        #[trigger] c1.level.tile(x, y) == if auto {
            with_shadow(t, shadow_code(c1.level.tiles@, x, y))
        } else {
            t
        }
    }
}

/// Releasing the left button after a drag paints the dragged rectangle.
pub open spec fn left_up_step(s0: EditorState, c0: Context, s1: EditorState, c1: Context) -> bool {
    &&& s1 == EditorState { drag_tiles: false, mouse_left_click: None, ..s0 }
    &&& if s0.drag_tiles && s0.mouse_left_click is Some {
        let rect = selection_rect(c0.graphics, s0.mouse_left_click->0, c0.mouse, view_bounds(c0));
        paint_step(c0, shifted(rect, c0.level.scroll), Some(c0.selected_tile_id), c0.texture_type_selected, c1)
    } else {
        c1 == c0
    }
}

/// The right button clears the shadow of the tile under the pointer, and
/// turns automatic shadows off.
pub open spec fn right_down_step(c0: Context, c1: Context) -> bool {
    let p = pointed_level_tile(c0);
    &&& c1 == Context { level: c1.level, automatic_shadows: false, ..c0 }
    &&& c1.level.wf()
    &&& c1.level.width() == c0.level.width()
    &&& c1.level.height() == c0.level.height()
    &&& c1.level.same_except_tiles(c0.level)
    &&& forall|x: int, y: int| 0 <= x < c0.level.width() && 0 <= y < c0.level.height() ==>
        #[trigger] c1.level.tile(x, y) == if x == p.0 && y == p.1 {
            painted(c0.level.tile(x, y), None, TextureType::Shadow)
        } else {
            c0.level.tile(x, y)
        }
}

/// The pointer moved: it is kept inside the window, and a held button goes
/// on doing what it does.
pub open spec fn motion_step(
    s0: EditorState,
    c0: Context,
    x: u32,
    y: u32,
    s1: EditorState,
    c1: Context,
) -> bool {
    let cm = Context {
        mouse: (limit(x, c0.graphics.resolution_x), limit(y, c0.graphics.resolution_y)),
        ..c0
    };
    if s0.mouse_left_click is Some && s0.mouse_right_click {
        exists|sa: EditorState, ca: Context|
            #![trigger left_down_step(s0, cm, sa, ca)]
            left_down_step(s0, cm, sa, ca) && s1 == sa && right_down_step(ca, c1)
    } else if s0.mouse_left_click is Some {
        left_down_step(s0, cm, s1, c1)
    } else if s0.mouse_right_click {
        s1 == s0 && right_down_step(cm, c1)
    } else {
        s1 == s0 && c1 == cm
    }
}

} // verus!
