//! The screen for the contents of random crates.

use vstd::prelude::*;
use crate::context::{Context, TextInput};
use crate::level::{Level, RandomCrate, RandomCrates, Crates, BULLET_COUNT, WEAPON_COUNT};
use crate::types::{Event, GameType, Keycode, Mode};

verus! {

/// The lines of the random crate screen: every weapon, every bullet kind,
/// and energy.
pub const ITEM_COUNT: usize = 21;

/// The random crate table of a game kind.
pub open spec fn table_of(level: Level, game_type: GameType) -> RandomCrate {
    match game_type {
        GameType::Normal => level.crates.random.normal,
        GameType::Deathmatch => level.crates.random.deathmatch,
    }
}

/// The count at line `index` of a random crate table: weapons first, then
/// bullets, then energy for every line past them.
pub open spec fn item_count(t: RandomCrate, index: int) -> u32 {
    if index < WEAPON_COUNT {
        t.weapons@[index]
    } else if index - WEAPON_COUNT < BULLET_COUNT {
        t.bullets@[index - WEAPON_COUNT]
    } else {
        t.energy
    }
}

/// `level` with the table of `game_type` replaced by `t`.
pub open spec fn with_table(level: Level, game_type: GameType, t: RandomCrate) -> Level {
    let r = level.crates.random;
    let random = match game_type {
        GameType::Normal => RandomCrates { normal: t, ..r },
        GameType::Deathmatch => RandomCrates { deathmatch: t, ..r },
    };
    Level { crates: Crates { random, ..level.crates }, ..level }
}

/// Whether `l1` is `l0` with the count at `index` of the table of
/// `game_type` set to `value` and nothing else changed.
pub open spec fn count_set(l0: Level, l1: Level, game_type: GameType, index: int, value: u32) -> bool {
    let t0 = table_of(l0, game_type);
    let t1 = table_of(l1, game_type);
    &&& l1 == with_table(l0, game_type, t1)
    &&& t1.weapons@ == if index < WEAPON_COUNT { t0.weapons@.update(index, value) } else { t0.weapons@ }
    &&& t1.bullets@ == if WEAPON_COUNT <= index < WEAPON_COUNT + BULLET_COUNT {
        t0.bullets@.update(index - WEAPON_COUNT, value)
    } else {
        t0.bullets@
    }
    &&& t1.energy == if index >= WEAPON_COUNT + BULLET_COUNT { value } else { t0.energy }
    &&& t1.wf()
    &&& item_count(t1, index) == value
    &&& index < ITEM_COUNT ==> forall|j: int| 0 <= j < ITEM_COUNT && j != index ==> item_count(t1, j) == item_count(t0, j)
}

pub fn get_value(level: &Level, game_type: &GameType, index: usize) -> (r: u32)
    requires
        level.wf(),
    ensures
        r == item_count(table_of(*level, *game_type), index as int),
{
    let crates = match game_type {
        GameType::Normal => &level.crates.random.normal,
        GameType::Deathmatch => &level.crates.random.deathmatch,
    };
    if index < crates.weapons.len() {
        crates.weapons[index]
    } else {
        let index = index - crates.weapons.len();
        if index < crates.bullets.len() {
            crates.bullets[index]
        } else {
            crates.energy
        }
    }
}

pub fn set_value(level: &mut Level, game_type: &GameType, index: usize, value: u32)
    requires
        old(level).wf(),
    ensures
        final(level).wf(),
        count_set(*old(level), *final(level), *game_type, index as int, value),
{
    let crates = match game_type {
        GameType::Normal => &mut level.crates.random.normal,
        GameType::Deathmatch => &mut level.crates.random.deathmatch,
    };
    if index < crates.weapons.len() {
        crates.weapons.set(index, value);
    } else {
        let index = index - crates.weapons.len();
        if index < crates.bullets.len() {
            crates.bullets.set(index, value);
        } else {
            crates.energy = value;
        }
    }
}

/// What one event does on the random crate screen of `game_type`.
pub open spec fn random_items_step(
    s0: RandomItemEditorState,
    c0: Context,
    a0: bool,
    game_type: GameType,
    event: Event,
    s1: RandomItemEditorState,
    c1: Context,
    a1: bool,
    r: Mode,
) -> bool {
    ({
        let c = c0;
        let i = s0.selected as int;
        let v = item_count(table_of(c.level, game_type), i);
        let stay = Mode::RandomItemEditor(game_type);
        match event {
            Event::Quit => r == Mode::Editor && !a1 && c1 == c
                && s1 == s0,
            Event::KeyDown { keycode: Keycode::Escape } => r == Mode::Editor && !a1
                && c1 == c && s1 == s0,
            Event::KeyDown { keycode: Keycode::Down } => r == stay && c1 == c
                && s1.selected == if i + 1 < ITEM_COUNT { i + 1 } else { i },
            Event::KeyDown { keycode: Keycode::Up } => r == stay && c1 == c
                && s1.selected == if i > 0 { i - 1 } else { i },
            Event::KeyDown { keycode: Keycode::Right } => r == stay && s1 == s0 && if v
                < u32::MAX {
                c1.level.wf() && c1 == Context { level: c1.level, ..c }
                    && count_set(c.level, c1.level, game_type, i, (v + 1) as u32)
            } else {
                c1 == c
            },
            Event::KeyDown { keycode: Keycode::Left } => r == stay && s1 == s0 && if v > 0 {
                c1.level.wf() && c1 == Context { level: c1.level, ..c }
                    && count_set(c.level, c1.level, game_type, i, (v - 1) as u32)
            } else {
                c1 == c
            },
            _ => r == stay && s1 == s0 && c1 == c,
        }
    })
}

/// The random crate screen: how many of each item the random crates of a
/// game kind hold.
#[derive(Clone, Copy, PartialEq, Eq, Structural, Debug)]
pub struct RandomItemEditorState {
    pub selected: usize,
}

impl RandomItemEditorState {
    pub open spec fn wf(&self) -> bool {
        self.selected < ITEM_COUNT
    }

    pub fn new() -> (r: RandomItemEditorState)
        ensures
            r.wf(),
            r.selected == 0,
    {
        RandomItemEditorState { selected: 0 }
    }

    /// Reacts to one input event; the result is the screen to show next.
    pub fn handle_event<T: TextInput>(
        &mut self,
        context: &mut Context,
        text_input: &mut T,
        game_type: GameType,
        event: Event,
    ) -> (r: Mode)
        requires
            old(self).wf(),
            old(context).wf(),
        ensures
            final(self).wf(),
            final(context).wf(),
            random_items_step(
                *old(self),
                *old(context),
                old(text_input).is_active(),
                game_type,
                event,
                *final(self),
                *final(context),
                final(text_input).is_active(),
                r,
            ),
    {
        match event {
            Event::Quit => {
                text_input.stop();
                Mode::Editor
            },
            Event::KeyDown { keycode } => match keycode {
                Keycode::Escape => {
                    text_input.stop();
                    Mode::Editor
                },
                Keycode::Down => {
                    if self.selected + 1 < ITEM_COUNT {
                        self.selected = self.selected + 1;
                    }
                    Mode::RandomItemEditor(game_type)
                },
                Keycode::Up => {
                    if self.selected > 0 {
                        self.selected = self.selected - 1;
                    }
                    Mode::RandomItemEditor(game_type)
                },
                Keycode::Right => {
                    let value = get_value(&context.level, &game_type, self.selected);
                    if value < u32::MAX {
                        set_value(&mut context.level, &game_type, self.selected, value + 1);
                    }
                    Mode::RandomItemEditor(game_type)
                },
                Keycode::Left => {
                    let value = get_value(&context.level, &game_type, self.selected);
                    if value > 0 {
                        set_value(&mut context.level, &game_type, self.selected, value - 1);
                    }
                    Mode::RandomItemEditor(game_type)
                },
                _ => Mode::RandomItemEditor(game_type),
            },
            _ => Mode::RandomItemEditor(game_type),
        }
    }
}

} // verus!
