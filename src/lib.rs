//! A level editor for a top-down tile shooter: the level model and its
//! file format, the coordinate mapping between screen and level, and the
//! state machines of the editor's screens.

pub mod context;
pub mod coords;
pub mod editor;
pub mod general_level_info;
pub mod graphics;
pub mod help;
pub mod level;
pub mod level_file;
pub mod level_io;
pub mod load_level;
pub mod random_item_editor;
pub mod state;
pub mod table;
pub mod text;
pub mod tile_selector;
pub mod transitions;
pub mod types;
pub mod web;
