use vstd::prelude::*;

verus! {

/// The keys the game reacts to; every other key is `Other`.
#[derive(Clone, Copy, Debug, PartialEq, Eq, Structural)]
pub enum Key {
    Escape,
    PageDown,
    PageUp,
    Minus,
    Plus,
    O,
    P,
    Left,
    Right,
    Up,
    Down,
    Return,
    Space,
    X,
    Back,
    Z,
    B,
    A,
    Other,
}

/// What a key press asks for.
#[derive(Clone, Copy, Debug, PartialEq, Eq, Structural)]
pub enum Command {
    Quit,
    ZoomOut,
    ZoomIn,
    SlowDown,
    SpeedUp,
    MoveLeft,
    MoveRight,
    MoveUp,
    MoveDown,
    NewPiece,
    RotateClockwise,
    RotateCounterClockwise,
    ToggleBackground,
    WidenStroke,
    Nothing,
}

/// The key bindings: Escape quits; Page Down and Page Up zoom out and in; Minus or O
/// slows the game, Plus or P speeds it up; the arrows move the piece; Return takes a new
/// piece; Space or X turns it clockwise, Backspace or Z counter-clockwise; B shows or
/// hides the background; A widens the outlines.
pub open spec fn key_command(key: Key) -> Command {
    match key {
        Key::Escape => Command::Quit,
        Key::PageDown => Command::ZoomOut,
        Key::PageUp => Command::ZoomIn,
        Key::Minus | Key::O => Command::SlowDown,
        Key::Plus | Key::P => Command::SpeedUp,
        Key::Left => Command::MoveLeft,
        Key::Right => Command::MoveRight,
        Key::Up => Command::MoveUp,
        Key::Down => Command::MoveDown,
        Key::Return => Command::NewPiece,
        Key::Space | Key::X => Command::RotateClockwise,
        Key::Back | Key::Z => Command::RotateCounterClockwise,
        Key::B => Command::ToggleBackground,
        Key::A => Command::WidenStroke,
        Key::Other => Command::Nothing,
    }
}

/// The command bound to a pressed key.
pub fn command_for_key(key: Key) -> (c: Command)
    ensures
        c == key_command(key),
{
    match key {
        Key::Escape => Command::Quit,
        Key::PageDown => Command::ZoomOut,
        Key::PageUp => Command::ZoomIn,
        Key::Minus | Key::O => Command::SlowDown,
        Key::Plus | Key::P => Command::SpeedUp,
        Key::Left => Command::MoveLeft,
        Key::Right => Command::MoveRight,
        Key::Up => Command::MoveUp,
        Key::Down => Command::MoveDown,
        Key::Return => Command::NewPiece,
        Key::Space | Key::X => Command::RotateClockwise,
        Key::Back | Key::Z => Command::RotateCounterClockwise,
        Key::B => Command::ToggleBackground,
        Key::A => Command::WidenStroke,
        Key::Other => Command::Nothing,
    }
}

} // verus!
