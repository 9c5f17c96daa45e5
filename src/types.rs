//! Input events, screens, tiles and the other small types.

use vstd::prelude::*;

verus! {

/// The three tile atlases a tile can be drawn from.
#[derive(Clone, Copy, PartialEq, Eq, Structural, Debug)]
pub enum TextureType {
    Floor,
    Walls,
    Shadow,
}

/// The number that stands for a texture type in a level file.
pub open spec fn texture_type_code(t: TextureType) -> u32 {
    match t {
        TextureType::Floor => 0,
        TextureType::Walls => 1,
        TextureType::Shadow => 2,
    }
}

impl TextureType {
    /// The texture type whose code is `value`; an unknown code is a
    /// corrupted state and is left out by the precondition.
    pub fn from_u32(value: u32) -> (r: TextureType)
        requires
            value <= 2,
        ensures
            texture_type_code(r) == value,
    {
        match value {
            0 => TextureType::Floor,
            1 => TextureType::Walls,
            _ => TextureType::Shadow,
        }
    }

    /// The code of this texture type.
    pub fn to_u32(&self) -> (r: u32)
        ensures
            r == texture_type_code(*self),
    {
        match self {
            TextureType::Floor => 0,
            TextureType::Walls => 1,
            TextureType::Shadow => 2,
        }
    }
}

/// One cell of the level grid.
#[derive(Clone, Copy, PartialEq, Eq, Structural, Debug)]
pub struct Tile {
    pub texture_type: TextureType,
    pub id: u32,
    pub shadow: u32,
}

/// The kind of game a random crate table applies to.
#[derive(Clone, Copy, PartialEq, Eq, Structural, Debug)]
pub enum GameType {
    Normal,
    Deathmatch,
}

/// The screens of the editor.
#[derive(Clone, Copy, PartialEq, Eq, Structural, Debug)]
pub enum Mode {
    Editor,
    TileSelect,
    Help,
    GeneralLevelInfo,
    RandomItemEditor(GameType),
    LoadLevel,
    Quit,
}

/// The keys the editor reacts to.
#[derive(Clone, Copy, PartialEq, Eq, Structural, Debug)]
pub enum Keycode {
    Escape,
    Backspace,
    Return,
    Space,
    PageDown,
    PageUp,
    Up,
    Down,
    Left,
    Right,
    KpEnter,
    KpMinus,
    KpPlus,
    Minus,
    Plus,
    A,
    C,
    Q,
    S,
    W,
    X,
    Y,
    Z,
    Num1,
    Num2,
    F1,
    F2,
    F3,
    F4,
    F6,
    F7,
    F8,
    F9,
}

#[derive(Clone, Copy, PartialEq, Eq, Structural, Debug)]
pub enum MouseButton {
    Left,
    Right,
}

#[derive(Clone, Copy, PartialEq, Eq, Structural, Debug)]
pub enum WindowEvent {
    Resized { width: u32, height: u32 },
    Maximized,
}

/// An input event, as handed to the editor by the windowing system.
#[derive(Clone, Debug)]
pub enum Event {
    Quit,
    Window { win_event: WindowEvent },
    KeyDown { keycode: Keycode },
    TextInput { text: String },
    MouseMotion { x: u32, y: u32 },
    MouseButtonDown { button: MouseButton },
    MouseButtonUp { button: MouseButton },
}

} // verus!
