//! The commands that the editor understands, and the input that gives them.

use crate::terminal::Size;
use vstd::prelude::*;
use vstd::std_specs::convert::TryFromSpecImpl;

verus! {

/// Where a move takes the cursor.
#[derive(Clone, Copy, PartialEq, Eq, Structural, Debug)]
pub enum Direction {
    PageUp,
    PageDown,
    Home,
    End,
    Up,
    Left,
    Right,
    Down,
}

/// What the user asks of the editor.
#[derive(Clone, Copy, PartialEq, Eq, Structural, Debug)]
pub enum EditorCommand {
    Move(Direction),
    Resize(Size),
    Quit,
    Insert(char),
    Delete,
    Backspace,
    Enter,
    Save,
}

/// A key of the keyboard, as far as the editor tells keys apart.
#[derive(Clone, Copy, PartialEq, Eq, Structural, Debug)]
pub enum Key {
    Char(char),
    Up,
    Down,
    Left,
    Right,
    PageUp,
    PageDown,
    Home,
    End,
    Enter,
    Backspace,
    Delete,
    Tab,
    Other,
}

/// The modifier keys held down with a key; `other` stands for any besides
/// shift, control and alt.
#[derive(Clone, Copy, PartialEq, Eq, Structural, Debug)]
pub struct Modifiers {
    pub shift: bool,
    pub control: bool,
    pub alt: bool,
    pub other: bool,
}

impl Modifiers {
    /// Whether no modifier is held.
    pub open spec fn is_none(self) -> bool {
        !self.shift && !self.control && !self.alt && !self.other
    }

    /// Whether shift is held and nothing else.
    pub open spec fn is_shift(self) -> bool {
        self.shift && !self.control && !self.alt && !self.other
    }

    /// Whether control is held and nothing else.
    pub open spec fn is_control(self) -> bool {
        !self.shift && self.control && !self.alt && !self.other
    }
}

/// What happened to a key.
#[derive(Clone, Copy, PartialEq, Eq, Structural, Debug)]
pub enum KeyKind {
    Press,
    Repeat,
    Release,
}

/// What the terminal reports.
#[derive(Clone, Copy, PartialEq, Eq, Structural, Debug)]
pub enum InputEvent {
    /// A key, with the modifiers held and what happened to it.
    Key { code: Key, modifiers: Modifiers, kind: KeyKind },
    /// The terminal has a new size: its columns, then its rows.
    Resize(u16, u16),
    /// Anything else.
    Other,
}

/// Why an input gives no command.
#[derive(Clone, Copy, PartialEq, Eq, Structural, Debug)]
pub enum CommandError {
    /// A key that the editor has no use for.
    UnsupportedKey,
    /// An event that is neither a key nor a new size.
    UnsupportedEvent,
}

/// The command that a key gives: control with D quits and control with S
/// saves; a character typed alone or with shift is inserted, a tab too; the
/// arrow, page, home and end keys move the cursor; backspace, delete and
/// enter edit. No other key gives a command.
pub open spec fn command_of_key(code: Key, modifiers: Modifiers) -> Result<
    EditorCommand,
    CommandError,
> {
    match code {
        Key::Char(c) => if c == 'd' && modifiers.is_control() {
            Ok(EditorCommand::Quit)
        } else if c == 's' && modifiers.is_control() {
            Ok(EditorCommand::Save)
        } else if modifiers.is_none() || modifiers.is_shift() {
            Ok(EditorCommand::Insert(c))
        } else {
            Err(CommandError::UnsupportedKey)
        },
        Key::Up => Ok(EditorCommand::Move(Direction::Up)),
        Key::Down => Ok(EditorCommand::Move(Direction::Down)),
        Key::Left => Ok(EditorCommand::Move(Direction::Left)),
        Key::Right => Ok(EditorCommand::Move(Direction::Right)),
        Key::PageUp => Ok(EditorCommand::Move(Direction::PageUp)),
        Key::PageDown => Ok(EditorCommand::Move(Direction::PageDown)),
        Key::Home => Ok(EditorCommand::Move(Direction::Home)),
        Key::End => Ok(EditorCommand::Move(Direction::End)),
        Key::Enter => Ok(EditorCommand::Enter),
        Key::Backspace => Ok(EditorCommand::Backspace),
        Key::Delete => Ok(EditorCommand::Delete),
        Key::Tab => Ok(EditorCommand::Insert('\t')),
        Key::Other => Err(CommandError::UnsupportedKey),
    }
}

/// The command that an event gives: that of its key, or a resize to the
/// columns and rows that it reports.
pub open spec fn command_of(event: InputEvent) -> Result<EditorCommand, CommandError> {
    match event {
        InputEvent::Key { code, modifiers, .. } => command_of_key(code, modifiers),
        InputEvent::Resize(width, height) => Ok(
            EditorCommand::Resize(Size { width: width as usize, height: height as usize }),
        ),
        InputEvent::Other => Err(CommandError::UnsupportedEvent),
    }
}

impl TryFrom<InputEvent> for EditorCommand {
    type Error = CommandError;

    /// Reads an event as a command.
    fn try_from(event: InputEvent) -> (command: Result<EditorCommand, CommandError>) {
        match event {
            InputEvent::Key { code, modifiers, .. } => {
                let plain = !modifiers.control && !modifiers.alt && !modifiers.other;
                let control = modifiers.control && !modifiers.shift && !modifiers.alt
                    && !modifiers.other;
                match code {
                    Key::Char(c) => {
                        if c == 'd' && control {
                            Ok(EditorCommand::Quit)
                        } else if c == 's' && control {
                            Ok(EditorCommand::Save)
                        } else if plain {
                            Ok(EditorCommand::Insert(c))
                        } else {
                            Err(CommandError::UnsupportedKey)
                        }
                    },
                    Key::Up => Ok(EditorCommand::Move(Direction::Up)),
                    Key::Down => Ok(EditorCommand::Move(Direction::Down)),
                    Key::Left => Ok(EditorCommand::Move(Direction::Left)),
                    Key::Right => Ok(EditorCommand::Move(Direction::Right)),
                    Key::PageUp => Ok(EditorCommand::Move(Direction::PageUp)),
                    Key::PageDown => Ok(EditorCommand::Move(Direction::PageDown)),
                    Key::Home => Ok(EditorCommand::Move(Direction::Home)),
                    Key::End => Ok(EditorCommand::Move(Direction::End)),
                    Key::Enter => Ok(EditorCommand::Enter),
                    Key::Backspace => Ok(EditorCommand::Backspace),
                    Key::Delete => Ok(EditorCommand::Delete),
                    Key::Tab => Ok(EditorCommand::Insert('\t')),
                    Key::Other => Err(CommandError::UnsupportedKey),
                }
            },
            InputEvent::Resize(width_u16, height_u16) => Ok(
                EditorCommand::Resize(
                    Size { width: width_u16 as usize, height: height_u16 as usize },
                ),
            ),
            InputEvent::Other => Err(CommandError::UnsupportedEvent),
        }
    }
}

impl TryFromSpecImpl<InputEvent> for EditorCommand {
    open spec fn obeys_try_from_spec() -> bool {
        true
    }

    open spec fn try_from_spec(event: InputEvent) -> Result<EditorCommand, CommandError> {
        command_of(event)
    }
}

} // verus!
