//! The editor screen's event handling, proved against the transition
//! relations of `transitions`.

use vstd::prelude::*;
use crate::context::{scroll_in_view, Context, TextInput, MIN_RESOLUTION};
use crate::coords::{
    get_level_coordinates_from_screen_coordinates, get_selection_rect, limit, limit_coordinates,
    selection_rect, TileRect,
};
use crate::graphics::Graphics;
use crate::level::{
    crate_count, painted, shadow_code, CrateClass, Level, StaticCrate, StaticCrateType, Steam,
    MAX_STEAM_RANGE,
};
use crate::table::Pos;
use crate::text::{
    append_chars, backspace, parse_digits, sanitize_level_name_input, sanitize_numeric_input,
    to_lower, to_upper,
};
use crate::transitions::{
    arrow_step, crate_arrow, editor_event_step, default_x_field, default_y_field, enter_step, escape_step, is_arrow,
    key_step, left_down_step, left_up_step, level_extension, motion_step, pointed_level_tile,
    prompt_key_step, right_down_step, scroll_step, shifted, size_ok, spotlight_arrow, steam_arrow,
    text_step, view_bounds, with_shadow, y_step, EditorState, InsertState, InsertType,
    NewLevelState, PromptType, SaveLevelType, ShadowPromptType, DEFAULT_LEVEL_HEIGHT,
    DEFAULT_LEVEL_WIDTH, MIN_LEVEL_HEIGHT, MIN_LEVEL_WIDTH,
};
use crate::types::{Event, GameType, Keycode, Mode, MouseButton, TextureType};

verus! {

/// The pointer kept inside the part of the window that shows the level.
pub fn get_limited_screen_level_size(graphics: &Graphics, mouse: &Pos, level: &Level, render_size: u32) -> (r: Pos)
    requires
        level.wf(),
    ensures
        ({
            let c = (level.width() - level.scroll.0) * render_size;
            let d = (level.height() - level.scroll.1) * render_size;
            let bx = if c < graphics.resolution_x { c as u32 } else { graphics.resolution_x };
            let by = if d < graphics.resolution_y { d as u32 } else { graphics.resolution_y };
            r == (limit(mouse.0, bx), limit(mouse.1, by))
        }),
{
    let b = level_view_bounds(graphics, level, render_size);
    limit_coordinates(mouse, &b)
}

/// The part of the window, in pixels, that shows the level.
pub fn level_view_bounds(graphics: &Graphics, level: &Level, render_size: u32) -> (r: Pos)
    requires
        level.wf(),
    ensures
        ({
            let c = (level.width() - level.scroll.0) * render_size;
            let d = (level.height() - level.scroll.1) * render_size;
            r == (
                if c < graphics.resolution_x { c as u32 } else { graphics.resolution_x },
                if d < graphics.resolution_y { d as u32 } else { graphics.resolution_y },
            )
        }),
{
    let w = (level.get_width() - level.scroll.0) as u64;
    let h = (level.get_height() - level.scroll.1) as u64;
    let rs = render_size as u64;
    assert(w * rs <= 1024 * 0xffff_ffff) by (nonlinear_arith)
        requires w <= 1024, rs <= 0xffff_ffff;
    assert(h * rs <= 1024 * 0xffff_ffff) by (nonlinear_arith)
        requires h <= 1024, rs <= 0xffff_ffff;
    let c = w * rs;
    let d = h * rs;
    (
        if c < graphics.resolution_x as u64 { c as u32 } else { graphics.resolution_x },
        if d < graphics.resolution_y as u64 { d as u32 } else { graphics.resolution_y },
    )
}

/// Doubling the zoom leaves no more whole tiles in the window.
proof fn lemma_zoom_in_fewer_tiles(res: u32, tile: u32)
    requires
        tile >= 1,
        tile <= 64,
    ensures
        res / ((tile * 2) as u32) <= res / ((tile * 1) as u32),
{
    assert((res as int) / ((tile * 2) as int) <= (res as int) / (tile as int)) by (nonlinear_arith)
        requires tile >= 1;
}

proof fn lemma_div_le(a: u32, b: u32)
    requires
        b >= 1,
    ensures
        a / b <= a,
{
    assert((a as int) / (b as int) <= a as int) by (nonlinear_arith)
        requires b >= 1, a >= 0;
}

fn pointed_tile(context: &Context) -> (r: Pos)
    requires
        context.wf(),
    ensures
        r == pointed_level_tile(*context),
{
    get_level_coordinates_from_screen_coordinates(&context.graphics, &context.mouse, &context.level.scroll)
}

fn size_field_ok(field: &Vec<char>, min: u32) -> (r: bool)
    requires
        crate::text::all_digits(field@),
        field@.len() <= 3,
    ensures
        r == size_ok(field@, min),
{
    if field.len() <= 1 {
        return false;
    }
    let v = parse_digits(field);
    min <= v
}

fn default_field(v: u32) -> (r: Vec<char>)
    requires
        v == DEFAULT_LEVEL_WIDTH || v == DEFAULT_LEVEL_HEIGHT,
    ensures
        v == DEFAULT_LEVEL_WIDTH ==> r@ == default_x_field(),
        v == DEFAULT_LEVEL_HEIGHT ==> r@ == default_y_field(),
{
    let r = if v == DEFAULT_LEVEL_WIDTH { vec!['1', '6'] } else { vec!['1', '2'] };
    assert(r@ =~= default_x_field() || r@ =~= default_y_field());
    r
}

fn scroll_view(context: &mut Context, k: Keycode)
    requires
        old(context).wf(),
        is_arrow(k),
    ensures
        final(context).wf(),
        scroll_step(*old(context), k, *final(context)),
{
    let s = context.level.scroll;
    let rs = context.graphics.get_render_size();
    proof {
        let g = context.graphics;
        assert((g.resolution_x as int) / (rs as int) >= 1) by (nonlinear_arith)
            requires g.resolution_x >= MIN_RESOLUTION, rs <= MIN_RESOLUTION, rs >= 1;
        assert((g.resolution_y as int) / (rs as int) >= 1) by (nonlinear_arith)
            requires g.resolution_y >= MIN_RESOLUTION, rs <= MIN_RESOLUTION, rs >= 1;
    }
    if k == Keycode::Up {
        if s.1 > 0 {
            context.level.scroll = (s.0, s.1 - 1);
        }
    } else if k == Keycode::Down {
        if s.1 + context.graphics.get_full_y_tiles_per_screen() < context.level.get_height() {
            context.level.scroll = (s.0, s.1 + 1);
        }
    } else if k == Keycode::Left {
        if s.0 > 0 {
            context.level.scroll = (s.0 - 1, s.1);
        }
    } else {
        if s.0 + context.graphics.get_full_x_tiles_per_screen() < context.level.get_width() {
            context.level.scroll = (s.0 + 1, s.1);
        }
    }
}

fn adjust_spotlight(context: &mut Context, p: Pos, k: Keycode)
    requires
        old(context).wf(),
    ensures
        final(context).wf(),
        spotlight_arrow(*old(context), p, k, *final(context)),
{
    match context.level.get_spotlight_from_level(&p) {
        Some(i) => {
            if k == Keycode::Up && i < u32::MAX {
                context.level.put_spotlight_to_level(&p, i + 1);
            } else if k == Keycode::Down && i > 0 {
                context.level.put_spotlight_to_level(&p, i - 1);
            }
        },
        None => {},
    }
}

fn adjust_steam(context: &mut Context, p: Pos, k: Keycode)
    requires
        old(context).wf(),
    ensures
        final(context).wf(),
        steam_arrow(*old(context), p, k, *final(context)),
{
    match context.level.get_steam_from_level(&p) {
        Some(st) => {
            if k == Keycode::Up {
                if st.range < MAX_STEAM_RANGE {
                    context.level.put_steam_to_level(&p, &Steam { range: st.range + 1, ..st });
                }
            } else if k == Keycode::Down {
                if st.range > 0 {
                    context.level.put_steam_to_level(&p, &Steam { range: st.range - 1, ..st });
                }
            } else if k == Keycode::Left {
                context.level.put_steam_to_level(&p, &Steam { angle: (st.angle + 355) % 360, ..st });
            } else {
                context.level.put_steam_to_level(&p, &Steam { angle: (st.angle + 5) % 360, ..st });
            }
        },
        None => {},
    }
}

fn adjust_crate(context: &mut Context, p: Pos, k: Keycode)
    requires
        old(context).wf(),
    ensures
        final(context).wf(),
        crate_arrow(*old(context), p, k, *final(context)),
{
    match context.level.get_crate_from_level(&p) {
        Some(c) => {
            if k == Keycode::Up {
                match c.crate_class.next() {
                    Some(n) => context.level.put_crate_to_level(
                        &p,
                        &StaticCrateType { crate_class: n, crate_type: 0, ..c },
                    ),
                    None => {},
                }
            } else if k == Keycode::Down {
                match c.crate_class.previous() {
                    Some(n) => context.level.put_crate_to_level(
                        &p,
                        &StaticCrateType { crate_class: n, crate_type: 0, ..c },
                    ),
                    None => {},
                }
            } else if k == Keycode::Left {
                if c.crate_type > 0 {
                    context.level.put_crate_to_level(&p, &StaticCrateType { crate_type: c.crate_type - 1, ..c });
                }
            } else {
                if c.crate_type + 1 < crate_count(c.crate_class) {
                    context.level.put_crate_to_level(&p, &StaticCrateType { crate_type: c.crate_type + 1, ..c });
                }
            }
        },
        None => {},
    }
}

impl EditorState {
    pub fn new() -> (r: EditorState)
        ensures
            r.wf(),
            r.set_position == 0,
            r.mouse_left_click is None,
            !r.mouse_right_click,
            r.prompt == PromptType::NoPrompt,
            r.insert_item == InsertType::NoneInsert,
            r.new_level_size_x@ == default_x_field(),
            r.new_level_size_y@ == default_y_field(),
            !r.drag_tiles,
    {
        EditorState {
            set_position: 0,
            mouse_left_click: None,
            mouse_right_click: false,
            prompt: PromptType::NoPrompt,
            insert_item: InsertType::NoneInsert,
            new_level_size_x: default_field(DEFAULT_LEVEL_WIDTH),
            new_level_size_y: default_field(DEFAULT_LEVEL_HEIGHT),
            drag_tiles: false,
        }
    }

    /// Reacts to one input event; the result is the screen to show next.
    pub fn handle_event<T: TextInput>(&mut self, context: &mut Context, text_input: &mut T, event: Event) -> (r: Mode)
        requires
            old(self).wf(),
            old(context).wf(),
        ensures
            final(self).wf(),
            final(context).wf(),
            (event matches Event::KeyDown { keycode } && is_arrow(keycode)
                && old(self).insert_item == InsertType::NoneInsert && scroll_in_view(*old(context)))
                ==> scroll_in_view(*final(context)),
            editor_event_step(
                *old(self),
                *old(context),
                old(text_input).is_active(),
                event,
                *final(self),
                *final(context),
                final(text_input).is_active(),
                r,
            ),
    {
        match event {
            Event::Quit => {
                self.escape(text_input);
                Mode::Editor
            },
            Event::KeyDown { keycode } => {
                if keycode == Keycode::Escape {
                    self.escape(text_input);
                    Mode::Editor
                } else {
                    self.handle_key(context, text_input, keycode)
                }
            },
            Event::TextInput { text } => {
                self.text_typed(context, text.as_str());
                Mode::Editor
            },
            Event::Window { .. } => Mode::Editor,
            Event::MouseMotion { x, y } => {
                let ghost s0 = *self;
                context.mouse = limit_coordinates(
                    &(x, y),
                    &(context.graphics.resolution_x, context.graphics.resolution_y),
                );
                let ghost cm = *context;
                if self.mouse_left_click.is_some() {
                    self.handle_mouse_left_down(context);
                }
                let ghost sa = *self;
                let ghost ca = *context;
                if self.mouse_right_click {
                    self.handle_mouse_right_down(context);
                }
                proof {
                    assert(cm == Context {
                        mouse: (limit(x, cm.graphics.resolution_x), limit(y, cm.graphics.resolution_y)),
                        ..*old(context)
                    });
                    assert(s0.mouse_right_click == sa.mouse_right_click);
                    assert(if s0.mouse_left_click is Some { left_down_step(s0, cm, sa, ca) } else { sa == s0 && ca == cm });
                    assert(if s0.mouse_right_click { *self == sa && right_down_step(ca, *context) } else { *self == sa && *context == ca });
                }
                Mode::Editor
            },
            Event::MouseButtonDown { button } => {
                match button {
                    MouseButton::Left => {
                        self.mouse_left_click = Some(context.mouse);
                        self.handle_mouse_left_down(context);
                    },
                    MouseButton::Right => {
                        self.mouse_right_click = true;
                        self.handle_mouse_right_down(context);
                    },
                }
                Mode::Editor
            },
            Event::MouseButtonUp { button } => {
                match button {
                    MouseButton::Left => {
                        self.mouse_left_up(context);
                    },
                    MouseButton::Right => {
                        self.mouse_right_click = false;
                    },
                }
                Mode::Editor
            },
        }
    }

    fn escape<T: TextInput>(&mut self, text_input: &mut T)
        requires
            old(self).wf(),
        ensures
            final(self).wf(),
            escape_step(
                *old(self),
                old(text_input).is_active(),
                *final(self),
                final(text_input).is_active(),
            ),
    {
        let busy = match self.prompt {
            PromptType::NoPrompt => false,
            _ => true,
        } || match self.insert_item {
            InsertType::NoneInsert => false,
            _ => true,
        } || self.set_position > 0;
        if busy {
            self.insert_item = InsertType::NoneInsert;
            text_input.stop();
            self.set_position = 0;
            self.prompt = PromptType::NoPrompt;
        } else {
            self.prompt = PromptType::Quit;
        }
    }

    fn text_typed(&mut self, context: &mut Context, text: &str)
        requires
            old(self).wf(),
            old(context).wf(),
        ensures
            final(self).wf(),
            final(context).wf(),
            text_step(
                *old(self),
                *old(context),
                text@,
                *final(self),
                *final(context),
            ),
    {
        match self.prompt {
            PromptType::NewLevel(NewLevelState::XSize) => {
                sanitize_numeric_input(text, &mut self.new_level_size_x);
            },
            PromptType::NewLevel(NewLevelState::YSize) => {
                sanitize_numeric_input(text, &mut self.new_level_size_y);
            },
            PromptType::Save(SaveLevelType::NameInput) => {
                sanitize_level_name_input(text, &mut context.level_save_name);
            },
            _ => {},
        }
    }

    fn handle_key<T: TextInput>(&mut self, context: &mut Context, text_input: &mut T, keycode: Keycode) -> (r: Mode)
        requires
            old(self).wf(),
            old(context).wf(),
        ensures
            final(self).wf(),
            final(context).wf(),
            key_step(
                *old(self),
                *old(context),
                old(text_input).is_active(),
                keycode,
                *final(self),
                *final(context),
                final(text_input).is_active(),
                r,
            ),
            (is_arrow(keycode) && old(self).insert_item == InsertType::NoneInsert && scroll_in_view(*old(context)))
                ==> scroll_in_view(*final(context)),
    {
        match keycode {
            Keycode::Space | Keycode::F1 | Keycode::F3 | Keycode::F7 | Keycode::F8 | Keycode::F9 => {
                self.prompt = PromptType::NoPrompt;
                text_input.stop();
                match keycode {
                    Keycode::Space => Mode::TileSelect,
                    Keycode::F1 => Mode::Help,
                    Keycode::F3 => Mode::LoadLevel,
                    Keycode::F7 => Mode::GeneralLevelInfo,
                    Keycode::F8 => Mode::RandomItemEditor(GameType::Normal),
                    _ => Mode::RandomItemEditor(GameType::Deathmatch),
                }
            },
            Keycode::Y => self.confirm(context, text_input),
            Keycode::Up | Keycode::Down | Keycode::Left | Keycode::Right => {
                self.arrow(context, keycode);
                Mode::Editor
            },
            Keycode::Return | Keycode::KpEnter => {
                self.enter(context, text_input);
                Mode::Editor
            },
            Keycode::Backspace => {
                match self.prompt {
                    PromptType::NewLevel(NewLevelState::XSize) => backspace(&mut self.new_level_size_x),
                    PromptType::NewLevel(NewLevelState::YSize) => backspace(&mut self.new_level_size_y),
                    PromptType::Save(SaveLevelType::NameInput) => backspace(&mut context.level_save_name),
                    _ => {},
                }
                Mode::Editor
            },
            Keycode::Plus | Keycode::KpPlus => {
                if context.graphics.render_multiplier == 1 {
                    proof {
                        let g = context.graphics;
                        lemma_zoom_in_fewer_tiles(g.resolution_x, g.tile_size);
                        lemma_zoom_in_fewer_tiles(g.resolution_y, g.tile_size);
                    }
                    context.graphics.render_multiplier = 2;
                }
                Mode::Editor
            },
            Keycode::Minus | Keycode::KpMinus => {
                if context.graphics.render_multiplier == 2 {
                    context.graphics.render_multiplier = 1;
                    context.level.scroll = (0, 0);
                }
                Mode::Editor
            },
            _ => {
                self.prompt_key(context.automatic_shadows, text_input, keycode);
                Mode::Editor
            },
        }
    }

    fn prompt_key<T: TextInput>(&mut self, auto_shadows: bool, text_input: &mut T, k: Keycode)
        requires
            old(self).wf(),
        ensures
            final(self).wf(),
            prompt_key_step(
                *old(self),
                auto_shadows,
                old(text_input).is_active(),
                k,
                *final(self),
                final(text_input).is_active(),
            ),
    {
        let saving = match self.prompt {
            PromptType::Save(_) => true,
            _ => false,
        };
        if k == Keycode::F2 {
            text_input.stop();
            self.prompt = PromptType::Save(SaveLevelType::Prompt);
        } else if k == Keycode::F4 {
            self.prompt = PromptType::NewLevel(NewLevelState::Prompt);
            self.new_level_size_x = default_field(DEFAULT_LEVEL_WIDTH);
            self.new_level_size_y = default_field(DEFAULT_LEVEL_HEIGHT);
        } else if k == Keycode::F6 {
            text_input.stop();
            self.prompt = PromptType::CreateShadows(
                if auto_shadows { ShadowPromptType::Enabled } else { ShadowPromptType::Disabled },
            );
        } else if k == Keycode::Num1 || k == Keycode::Num2 {
            let new_level = match self.prompt {
                PromptType::NewLevel(_) => true,
                _ => false,
            };
            if !(new_level || saving) {
                self.set_position = if k == Keycode::Num1 { 1 } else { 2 };
                self.prompt = PromptType::NoPrompt;
            }
        } else if k == Keycode::Q || k == Keycode::W || k == Keycode::A || k == Keycode::S || k == Keycode::Z
            || k == Keycode::X || k == Keycode::C {
            if !saving {
                self.insert_item = if k == Keycode::Q {
                    InsertType::Spotlight(InsertState::Place)
                } else if k == Keycode::W {
                    InsertType::Spotlight(InsertState::Delete)
                } else if k == Keycode::A {
                    InsertType::Steam(InsertState::Place)
                } else if k == Keycode::S {
                    InsertType::Steam(InsertState::Delete)
                } else if k == Keycode::Z {
                    InsertType::NormalCrate(InsertState::Place)
                } else if k == Keycode::X {
                    InsertType::DMCrate(InsertState::Place)
                } else {
                    InsertType::NormalCrate(InsertState::Delete)
                };
                text_input.stop();
                self.prompt = PromptType::NoPrompt;
            }
        } else {
            let typing = match self.prompt {
                PromptType::NewLevel(NewLevelState::XSize) => true,
                PromptType::NewLevel(NewLevelState::YSize) => true,
                PromptType::Save(SaveLevelType::NameInput) => true,
                _ => false,
            };
            if !typing {
                self.prompt = PromptType::NoPrompt;
            }
        }
    }

    fn confirm<T: TextInput>(&mut self, context: &mut Context, text_input: &mut T) -> (r: Mode)
        requires
            old(self).wf(),
            old(context).wf(),
        ensures
            final(self).wf(),
            final(context).wf(),
            y_step(
                *old(self),
                *old(context),
                old(text_input).is_active(),
                *final(self),
                *final(context),
                final(text_input).is_active(),
                r,
            ),
    {
        match self.prompt {
            PromptType::NewLevel(NewLevelState::Prompt) => {
                self.prompt = PromptType::NewLevel(NewLevelState::XSize);
                text_input.start();
            },
            PromptType::Save(SaveLevelType::Prompt) => {
                self.prompt = PromptType::Save(SaveLevelType::NameInput);
                text_input.start();
            },
            PromptType::CreateShadows(ShadowPromptType::Enabled) => {
                context.automatic_shadows = false;
                self.prompt = PromptType::NoPrompt;
            },
            PromptType::CreateShadows(ShadowPromptType::Disabled) => {
                context.level.create_shadows();
                context.automatic_shadows = true;
                self.prompt = PromptType::NoPrompt;
            },
            PromptType::Quit => {
                return Mode::Quit;
            },
            PromptType::FileError => {
                self.prompt = PromptType::NoPrompt;
            },
            _ => {},
        }
        Mode::Editor
    }

    /// Writing the level to the file asked for failed: no name is shown as
    /// saved, and a prompt reports the failure until a key dismisses it.
    pub fn save_failed(&mut self, context: &mut Context)
        requires
            old(self).wf(),
            old(context).wf(),
        ensures
            final(self).wf(),
            final(context).wf(),
            *final(self) == (EditorState { prompt: PromptType::FileError, ..*old(self) }),
            *final(context) == (Context { saved_level_name: None, ..*old(context) }),
    {
        self.prompt = PromptType::FileError;
        context.saved_level_name = None;
    }

    /// Reading the level file asked for failed: the level stays as it was,
    /// and a prompt reports the failure until a key dismisses it.
    pub fn load_failed(&mut self)
        requires
            old(self).wf(),
        ensures
            final(self).wf(),
            *final(self) == (EditorState { prompt: PromptType::FileError, ..*old(self) }),
    {
        self.prompt = PromptType::FileError;
    }

    fn arrow(&self, context: &mut Context, k: Keycode)
        requires
            old(context).wf(),
            is_arrow(k),
        ensures
            final(context).wf(),
            arrow_step(self.insert_item, *old(context), k, *final(context)),
            (self.insert_item == InsertType::NoneInsert && scroll_in_view(*old(context)))
                ==> scroll_in_view(*final(context)),
    {
        let up_down = k == Keycode::Up || k == Keycode::Down;
        match self.insert_item {
            InsertType::Spotlight(InsertState::Instructions(p)) => {
                if up_down {
                    adjust_spotlight(context, p, k);
                } else {
                    scroll_view(context, k);
                }
            },
            InsertType::Spotlight(_) => {
                if !up_down {
                    scroll_view(context, k);
                }
            },
            InsertType::Steam(InsertState::Instructions(p)) => adjust_steam(context, p, k),
            InsertType::NormalCrate(InsertState::Instructions(p)) => adjust_crate(context, p, k),
            InsertType::DMCrate(InsertState::Instructions(p)) => adjust_crate(context, p, k),
            InsertType::NoneInsert => scroll_view(context, k),
            _ => {},
        }
    }

    fn enter<T: TextInput>(&mut self, context: &mut Context, text_input: &mut T)
        requires
            old(self).wf(),
            old(context).wf(),
        ensures
            final(self).wf(),
            final(context).wf(),
            enter_step(
                *old(self),
                *old(context),
                old(text_input).is_active(),
                *final(self),
                *final(context),
                final(text_input).is_active(),
            ),
    {
        match self.insert_item {
            InsertType::Spotlight(InsertState::Instructions(_)) => {
                self.insert_item = InsertType::Spotlight(InsertState::Place);
            },
            InsertType::Steam(InsertState::Instructions(_)) => {
                self.insert_item = InsertType::Steam(InsertState::Place);
            },
            InsertType::NormalCrate(InsertState::Instructions(_)) => {
                self.insert_item = InsertType::NormalCrate(InsertState::Place);
            },
            InsertType::DMCrate(InsertState::Instructions(_)) => {
                self.insert_item = InsertType::DMCrate(InsertState::Place);
            },
            _ => match self.prompt {
                PromptType::NewLevel(NewLevelState::XSize) => {
                    if size_field_ok(&self.new_level_size_x, MIN_LEVEL_WIDTH) {
                        self.prompt = PromptType::NewLevel(NewLevelState::YSize);
                    }
                },
                PromptType::NewLevel(NewLevelState::YSize) => {
                    if size_field_ok(&self.new_level_size_x, MIN_LEVEL_WIDTH) && size_field_ok(
                        &self.new_level_size_y,
                        MIN_LEVEL_HEIGHT,
                    ) {
                        let w = parse_digits(&self.new_level_size_x);
                        let h = parse_digits(&self.new_level_size_y);
                        context.level = Level::get_default_level((w, h));
                        text_input.stop();
                        context.saved_level_name = None;
                        context.level_save_name = Vec::new();
                        self.prompt = PromptType::NoPrompt;
                    }
                },
                PromptType::Save(SaveLevelType::NameInput) => {
                    if context.level_save_name.len() > 1 {
                        let mut file = to_upper(&context.level_save_name);
                        let ext = vec!['.', 'L', 'E', 'V'];
                        assert(ext@ =~= level_extension());
                        append_chars(&mut file, &ext);
                        let shown = to_lower(&file);
                        context.save_request = Some(file);
                        text_input.stop();
                        context.saved_level_name = Some(shown);
                        self.prompt = PromptType::NoPrompt;
                    }
                },
                _ => {},
            },
        }
    }

    fn handle_mouse_left_down(&mut self, context: &mut Context)
        requires
            old(self).wf(),
            old(context).wf(),
        ensures
            final(self).wf(),
            final(context).wf(),
            left_down_step(
                *old(self),
                *old(context),
                *final(self),
                *final(context),
            ),
    {
        if self.drag_tiles {
            return;
        }
        let p = pointed_tile(context);
        if self.set_position > 0 {
            if self.set_position == 1 {
                context.level.p1_position = p;
            } else {
                context.level.p2_position = p;
            }
            self.set_position = 0;
        } else {
            let radius = context.graphics.render_multiplier;
            match self.insert_item {
                InsertType::Spotlight(InsertState::Place) => {
                    self.insert_item = InsertType::Spotlight(InsertState::Instructions(p));
                    context.level.put_spotlight_to_level(&p, 0);
                },
                InsertType::Spotlight(InsertState::Delete) => {
                    context.level.delete_spotlight_if_near(&p, radius);
                },
                InsertType::Steam(InsertState::Place) => {
                    self.insert_item = InsertType::Steam(InsertState::Instructions(p));
                    context.level.put_steam_to_level(&p, &Steam { angle: 0, range: 1 });
                },
                InsertType::Steam(InsertState::Delete) => {
                    context.level.delete_steam_if_near(&p, radius);
                },
                InsertType::NormalCrate(InsertState::Place) => {
                    self.insert_item = InsertType::NormalCrate(InsertState::Instructions(p));
                    context.level.put_crate_to_level(
                        &p,
                        &StaticCrateType {
                            crate_variant: StaticCrate::Normal,
                            crate_class: CrateClass::Weapon,
                            crate_type: 0,
                        },
                    );
                },
                InsertType::DMCrate(InsertState::Place) => {
                    self.insert_item = InsertType::DMCrate(InsertState::Instructions(p));
                    context.level.put_crate_to_level(
                        &p,
                        &StaticCrateType {
                            crate_variant: StaticCrate::Deathmatch,
                            crate_class: CrateClass::Weapon,
                            crate_type: 0,
                        },
                    );
                },
                InsertType::NormalCrate(InsertState::Delete) => {
                    context.level.delete_crate_if_near(&p, radius);
                },
                InsertType::NoneInsert => {
                    self.drag_tiles = true;
                },
                _ => {},
            }
        }
    }

    fn mouse_left_up(&mut self, context: &mut Context)
        requires
            old(self).wf(),
            old(context).wf(),
        ensures
            final(self).wf(),
            final(context).wf(),
            left_up_step(
                *old(self),
                *old(context),
                *final(self),
                *final(context),
            ),
    {
        if self.drag_tiles {
            self.drag_tiles = false;
            match self.mouse_left_click {
                Some(anchor) => {
                    let rs = context.graphics.get_render_size();
                    let bounds = level_view_bounds(&context.graphics, &context.level, rs);
                    let rect = get_selection_rect(&context.graphics, &anchor, &context.mouse, &bounds);
                    proof {
                        lemma_div_le(limit(anchor.0, bounds.0), rs);
                        lemma_div_le(limit(anchor.1, bounds.1), rs);
                        lemma_div_le(limit(context.mouse.0, bounds.0), rs);
                        lemma_div_le(limit(context.mouse.1, bounds.1), rs);
                    }
                    let s = context.level.scroll;
                    let level_rect = TileRect { x0: rect.x0 + s.0, y0: rect.y0 + s.1, x1: rect.x1 + s.0, y1: rect.y1 + s.1 };
                    let ghost c0 = *context;
                    proof {
                        let w = c0.level.width() - c0.level.scroll.0;
                        let h = c0.level.height() - c0.level.scroll.1;
                        assert(w * (rs as int) <= 1024 * 128) by (nonlinear_arith)
                            requires 0 <= w <= 1024, rs <= 128;
                        assert(h * (rs as int) <= 1024 * 128) by (nonlinear_arith)
                            requires 0 <= h <= 1024, rs <= 128;
                        assert(bounds == view_bounds(c0));
                        assert(level_rect == shifted(selection_rect(c0.graphics, anchor, c0.mouse, view_bounds(c0)), s));
                    }
                    let id = Some(context.selected_tile_id);
                    let tt = context.texture_type_selected;
                    context.level.fill_rect(&level_rect, id, tt);
                    let ghost c1 = *context;
                    if context.texture_type_selected == TextureType::Shadow {
                        context.automatic_shadows = false;
                    } else if context.automatic_shadows {
                        context.level.create_shadows();
                        proof {
                            assert forall|x: int, y: int| 0 <= x < c0.level.width() && 0 <= y < c0.level.height() implies
                                #[trigger] context.level.tile(x, y) == with_shadow(
                                    if level_rect.contains(x, y) { painted(c0.level.tile(x, y), id, tt) } else { c0.level.tile(x, y) },
                                    shadow_code(context.level.tiles@, x, y)) by {
                                assert(c1.level.tile(x, y) == if level_rect.contains(x, y) { painted(c0.level.tile(x, y), id, tt) } else { c0.level.tile(x, y) });
                            }
                        }
                    }
                },
                None => {},
            }
        }
        self.mouse_left_click = None;
    }

    fn handle_mouse_right_down(&self, context: &mut Context)
        requires
            old(context).wf(),
        ensures
            final(context).wf(),
            right_down_step(*old(context), *final(context)),
    {
        let p = pointed_tile(context);
        let rect = TileRect { x0: p.0, y0: p.1, x1: p.0, y1: p.1 };
        context.level.fill_rect(&rect, None, TextureType::Shadow);
        context.automatic_shadows = false;
    }
}

} // verus!
