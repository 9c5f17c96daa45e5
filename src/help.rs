//! The help screen.

use vstd::prelude::*;
use crate::types::{Event, Mode};

verus! {

/// The screen after an event on the help screen.
pub open spec fn help_next(event: Event) -> Mode {
    match event {
        Event::Quit => Mode::Editor,
        Event::KeyDown { .. } => Mode::Editor,
        _ => Mode::Help,
    }
}

/// The help screen: any key or a request to close the window goes back to
/// the editor.
#[derive(Clone, Copy, PartialEq, Eq, Structural, Debug)]
pub struct HelpState {}

impl HelpState {
    pub fn new() -> (r: HelpState) {
        HelpState {}
    }

    pub fn handle_event(&self, event: &Event) -> (r: Mode)
        ensures
            r == help_next(*event),
    {
        match event {
            Event::Quit => Mode::Editor,
            Event::KeyDown { .. } => Mode::Editor,
            _ => Mode::Help,
        }
    }
}

} // verus!
