//! The screen for the level's comment, time limit and enemy counts.

use vstd::prelude::*;
use crate::context::{Context, TextInput};
use crate::level::{GeneralInfo, Level};
use crate::text::{backspace, backspaced, comment_input, sanitize_level_comment_input};
use crate::types::{Event, Keycode, Mode};

verus! {

/// How many settings the screen lists: the comment, the time limit and
/// one count per enemy kind.
pub const OPTION_COUNT: usize = 10;

/// The step by which the time limit changes.
pub const TIME_STEP: u32 = 10;

/// What a line of the settings screen edits.
#[derive(Clone, Copy, PartialEq, Eq, Structural, Debug)]
pub enum Value {
    Comment,
    TimeLimit,
    Number(usize),
}

/// What the line at `index` edits.
pub open spec fn option_value(index: int) -> Value {
    if index == 0 {
        Value::Comment
    } else if index == 1 {
        Value::TimeLimit
    } else {
        Value::Number((index - 2) as usize)
    }
}

pub fn get_option_value(index: usize) -> (r: Value)
    ensures
        r == option_value(index as int),
{
    if index == 0 {
        Value::Comment
    } else if index == 1 {
        Value::TimeLimit
    } else {
        Value::Number(index - 2)
    }
}

/// The level's general settings with `f` changed.
pub open spec fn with_info(c: Context, f: GeneralInfo) -> Context {
    Context { level: Level { general_info: f, ..c.level }, ..c }
}

/// What one event does on the general settings screen.
pub open spec fn general_info_step(
    s0: GeneralLevelInfoState,
    c0: Context,
    a0: bool,
    event: Event,
    s1: GeneralLevelInfoState,
    c1: Context,
    a1: bool,
    r: Mode,
) -> bool {
    ({
        let c = c0;
        let f = c.level.general_info;
        let v = option_value(s0.selected as int);
        match event {
            Event::Quit => {
                r == Mode::Editor && !a1 && c1 == c
                    && s1 == s0
            },
            Event::KeyDown { keycode: Keycode::Escape } => {
                r == Mode::Editor && !a1 && c1 == c
                    && s1 == s0
            },
            Event::TextInput { text } => {
                &&& r == Mode::GeneralLevelInfo
                &&& s1 == s0
                &&& a1 == a0
                &&& if v == Value::Comment {
                    &&& c1 == with_info(c, GeneralInfo { comment: c1.level.general_info.comment, ..f })
                    &&& c1.level.general_info.comment@ == comment_input(f.comment@, text@)
                } else {
                    c1 == c
                }
            },
            Event::KeyDown { keycode: Keycode::Down } => {
                &&& r == Mode::GeneralLevelInfo
                &&& c1 == c
                &&& if s0.selected + 1 < OPTION_COUNT {
                    s1.selected == s0.selected + 1
                        && a1 == (s1.selected == 0)
                } else {
                    s1 == s0 && a1 == a0
                }
            },
            Event::KeyDown { keycode: Keycode::Up } => {
                &&& r == Mode::GeneralLevelInfo
                &&& c1 == c
                &&& if s0.selected > 0 {
                    s1.selected == s0.selected - 1
                        && a1 == (s1.selected == 0)
                } else {
                    s1 == s0 && a1 == a0
                }
            },
            Event::KeyDown { keycode: Keycode::Right } => {
                &&& r == Mode::GeneralLevelInfo
                &&& s1 == s0
                &&& a1 == a0
                &&& match v {
                    Value::Number(i) => {
                        &&& c1 == with_info(c, GeneralInfo { enemy_table: c1.level.general_info.enemy_table, ..f })
                        &&& c1.level.general_info.enemy_table@ == f.enemy_table@.update(
                            i as int,
                            if f.enemy_table@[i as int] < u32::MAX { (f.enemy_table@[i as int] + 1) as u32 } else { u32::MAX },
                        )
                    },
                    Value::TimeLimit => c1 == with_info(c, GeneralInfo {
                        time_limit: if f.time_limit <= u32::MAX - TIME_STEP { (f.time_limit + TIME_STEP) as u32 } else { f.time_limit },
                        ..f
                    }),
                    Value::Comment => c1 == c,
                }
            },
            Event::KeyDown { keycode: Keycode::Left } => {
                &&& r == Mode::GeneralLevelInfo
                &&& s1 == s0
                &&& a1 == a0
                &&& match v {
                    Value::Number(i) => {
                        &&& c1 == with_info(c, GeneralInfo { enemy_table: c1.level.general_info.enemy_table, ..f })
                        &&& c1.level.general_info.enemy_table@ == f.enemy_table@.update(
                            i as int,
                            if f.enemy_table@[i as int] > 0 { (f.enemy_table@[i as int] - 1) as u32 } else { 0u32 },
                        )
                    },
                    Value::TimeLimit => c1 == with_info(c, GeneralInfo {
                        time_limit: if f.time_limit >= TIME_STEP { (f.time_limit - TIME_STEP) as u32 } else { 0u32 },
                        ..f
                    }),
                    Value::Comment => c1 == c,
                }
            },
            Event::KeyDown { keycode: Keycode::Backspace } => {
                &&& r == Mode::GeneralLevelInfo
                &&& s1 == s0
                &&& a1 == a0
                &&& if v == Value::Comment {
                    &&& c1 == with_info(c, GeneralInfo { comment: c1.level.general_info.comment, ..f })
                    &&& c1.level.general_info.comment@ == backspaced(f.comment@)
                } else {
                    c1 == c
                }
            },
            _ => {
                &&& r == Mode::GeneralLevelInfo
                &&& s1 == s0
                &&& c1 == c
                &&& a1 == a0
            },
        }
    })
}

/// The general settings screen: the level comment, the time limit and the
/// number of enemies of each kind.
#[derive(Clone, Copy, PartialEq, Eq, Structural, Debug)]
pub struct GeneralLevelInfoState {
    pub selected: usize,
}

impl GeneralLevelInfoState {
    pub open spec fn wf(&self) -> bool {
        self.selected < OPTION_COUNT
    }

    pub fn new() -> (r: GeneralLevelInfoState)
        ensures
            r.wf(),
            r.selected == 0,
    {
        GeneralLevelInfoState { selected: 0 }
    }

    /// Text is captured while the comment line is selected, and only then.
    pub fn enable_text_editing_if_needed<T: TextInput>(&self, text_input: &mut T)
        ensures
            final(text_input).is_active() == (self.selected == 0),
    {
        if self.selected == 0 {
            text_input.start();
        } else {
            text_input.stop();
        }
    }

    /// Reacts to one input event; the result is the screen to show next.
    pub fn handle_event<T: TextInput>(&mut self, context: &mut Context, text_input: &mut T, event: Event) -> (r: Mode)
        requires
            old(self).wf(),
            old(context).wf(),
        ensures
            final(self).wf(),
            final(context).wf(),
            general_info_step(
                *old(self),
                *old(context),
                old(text_input).is_active(),
                event,
                *final(self),
                *final(context),
                final(text_input).is_active(),
                r,
            ),
    {
        match event {
            Event::Quit => {
                text_input.stop();
                return Mode::Editor;
            },
            Event::TextInput { text } => {
                if self.selected == 0 {
                    sanitize_level_comment_input(text.as_str(), &mut context.level.general_info.comment);
                }
            },
            Event::KeyDown { keycode } => match keycode {
                Keycode::Escape => {
                    text_input.stop();
                    return Mode::Editor;
                },
                Keycode::Down => {
                    if self.selected + 1 < OPTION_COUNT {
                        self.selected = self.selected + 1;
                        self.enable_text_editing_if_needed(text_input);
                    }
                },
                Keycode::Up => {
                    if self.selected > 0 {
                        self.selected = self.selected - 1;
                        self.enable_text_editing_if_needed(text_input);
                    }
                },
                Keycode::Right => match get_option_value(self.selected) {
                    Value::Number(index) => {
                        let v = context.level.general_info.enemy_table[index];
                        let ghost t0 = context.level.general_info.enemy_table@;
                        if v < u32::MAX {
                            context.level.general_info.enemy_table.set(index, v + 1);
                        }
                        assert(context.level.general_info.enemy_table@ =~= t0.update(
                            index as int, if v < u32::MAX { (v + 1) as u32 } else { v }));
                    },
                    Value::TimeLimit => {
                        let v = context.level.general_info.time_limit;
                        if v <= u32::MAX - TIME_STEP {
                            context.level.general_info.time_limit = v + TIME_STEP;
                        }
                    },
                    Value::Comment => {},
                },
                Keycode::Left => match get_option_value(self.selected) {
                    Value::Number(index) => {
                        let v = context.level.general_info.enemy_table[index];
                        let ghost t0 = context.level.general_info.enemy_table@;
                        if v > 0 {
                            context.level.general_info.enemy_table.set(index, v - 1);
                        }
                        assert(context.level.general_info.enemy_table@ =~= t0.update(
                            index as int, if v > 0 { (v - 1) as u32 } else { v }));
                    },
                    Value::TimeLimit => {
                        let v = context.level.general_info.time_limit;
                        context.level.general_info.time_limit = if v >= TIME_STEP { v - TIME_STEP } else { 0 };
                    },
                    Value::Comment => {},
                },
                Keycode::Backspace => {
                    if self.selected == 0 {
                        backspace(&mut context.level.general_info.comment);
                    }
                },
                _ => {},
            },
            _ => {},
        }
        Mode::GeneralLevelInfo
    }
}

} // verus!
