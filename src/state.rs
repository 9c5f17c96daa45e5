//! The screen shown and the dispatch of events to it.

use vstd::prelude::*;
use crate::context::{resized, Context, TextInput};
use crate::general_level_info::{general_info_step, GeneralLevelInfoState};
use crate::help::{help_next, HelpState};
use crate::load_level::{load_level_step, LoadLevelState};
use crate::random_item_editor::{random_items_step, RandomItemEditorState};
use crate::tile_selector::{tile_select_step, TileSelectState};
use crate::transitions::{editor_event_step, EditorState, PromptType};
use crate::types::{Event, Mode};

verus! {

/// Whether the program goes on after an event.
#[derive(Clone, Copy, PartialEq, Eq, Structural, Debug)]
pub enum RunState {
    Run,
    Quit,
}

/// The context the shown screen sees: resized first on a window event,
/// unless the program has quit.
pub open spec fn context_for(mode: Mode, c: Context, event: Event) -> Context {
    match event {
        Event::Window { win_event } => if mode != Mode::Quit { resized(c, win_event) } else { c },
        _ => c,
    }
}

/// What one event does: the shown screen's handler runs on the context
/// after any resize, its result is the next screen, and every other screen
/// keeps its state.
pub open spec fn dispatch_step(s0: State, c0: Context, a0: bool, event: Event, s1: State, c1: Context, a1: bool) -> bool {
    let cm = context_for(s0.mode, c0, event);
    let others = State { mode: s1.mode, ..s0 };
    match s0.mode {
        Mode::Editor => {
            &&& s1 == (State { editor: s1.editor, ..others })
            &&& editor_event_step(s0.editor, cm, a0, event, s1.editor, c1, a1, s1.mode)
        },
        Mode::TileSelect => {
            &&& s1 == others
            &&& a1 == a0
            &&& tile_select_step(s0.tile_select, cm, event, c1, s1.mode)
        },
        Mode::Help => {
            &&& s1 == others
            &&& a1 == a0
            &&& c1 == cm
            &&& s1.mode == help_next(event)
        },
        Mode::GeneralLevelInfo => {
            &&& s1 == (State { general_level_info: s1.general_level_info, ..others })
            &&& general_info_step(s0.general_level_info, cm, a0, event, s1.general_level_info, c1, a1, s1.mode)
        },
        Mode::RandomItemEditor(g) => {
            &&& s1 == (State { random_item_editor: s1.random_item_editor, ..others })
            &&& random_items_step(s0.random_item_editor, cm, a0, g, event, s1.random_item_editor, c1, a1, s1.mode)
        },
        Mode::LoadLevel => {
            &&& s1 == (State { load_level: s1.load_level, ..others })
            &&& a1 == a0
            &&& load_level_step(s0.load_level, cm, event, s1.load_level, c1, s1.mode)
        },
        Mode::Quit => s1 == s0 && c1 == c0 && a1 == a0,
    }
}

/// The screen shown and the state of every screen, kept while others are
/// shown.
#[derive(Debug)]
pub struct State {
    pub mode: Mode,
    pub editor: EditorState,
    pub tile_select: TileSelectState,
    pub help: HelpState,
    pub general_level_info: GeneralLevelInfoState,
    pub random_item_editor: RandomItemEditorState,
    pub load_level: LoadLevelState,
}

impl State {
    pub open spec fn wf(&self) -> bool {
        &&& self.editor.wf()
        &&& self.tile_select.wf()
        &&& self.general_level_info.wf()
        &&& self.random_item_editor.wf()
        &&& self.load_level.wf()
    }

    /// The editor shown first, with a tile screen for atlases of the given
    /// sizes and a load screen over the given level files.
    pub fn new(tile_select: TileSelectState, load_level: LoadLevelState) -> (r: State)
        requires
            tile_select.wf(),
            load_level.wf(),
        ensures
            r.wf(),
            r.mode == Mode::Editor,
            r.editor.prompt == PromptType::NoPrompt,
            r.tile_select == tile_select,
            r.load_level == load_level,
    {
        State {
            mode: Mode::Editor,
            editor: EditorState::new(),
            tile_select,
            help: HelpState::new(),
            general_level_info: GeneralLevelInfoState::new(),
            random_item_editor: RandomItemEditorState::new(),
            load_level,
        }
    }

    /// Hands one event to the screen shown, after taking a new window size
    /// from a window event; what that screen's handler returns is the next
    /// screen shown, and the other screens keep their state. Quitting is
    /// final.
    pub fn handle_event<T: TextInput>(&mut self, context: &mut Context, text_input: &mut T, event: Event) -> (r:
        RunState)
        requires
            old(self).wf(),
            old(context).wf(),
        ensures
            final(self).wf(),
            final(context).wf(),
            r == if final(self).mode == Mode::Quit { RunState::Quit } else { RunState::Run },
            dispatch_step(*old(self), *old(context), old(text_input).is_active(), event, *final(self),
                *final(context), final(text_input).is_active()),
    {
        match event {
            Event::Window { win_event } => if self.mode != Mode::Quit {
                context.resize(win_event);
            },
            _ => {},
        }
        let next = match self.mode {
            Mode::Editor => self.editor.handle_event(context, text_input, event),
            Mode::TileSelect => self.tile_select.handle_event(context, event),
            Mode::Help => self.help.handle_event(&event),
            Mode::GeneralLevelInfo => self.general_level_info.handle_event(context, text_input, event),
            Mode::RandomItemEditor(game_type) => self.random_item_editor.handle_event(
                context,
                text_input,
                game_type,
                event,
            ),
            Mode::LoadLevel => self.load_level.handle_event(context, event),
            Mode::Quit => Mode::Quit,
        };
        self.mode = next;
        match self.mode {
            Mode::Quit => RunState::Quit,
            _ => RunState::Run,
        }
    }
}

} // verus!
