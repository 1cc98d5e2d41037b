//! Keys and what they ask for: the key bindings of the two input modes.

use crate::models::InputMode;
use vstd::prelude::*;

verus! {

/// A key press, as far as the state machine tells keys apart.
#[derive(Clone, Copy, Debug, PartialEq, Eq)]
pub enum Key {
    Char(char),
    Left,
    Right,
    Up,
    Down,
    Home,
    End,
    Tab,
    Enter,
    Esc,
    Backspace,
    Other,
}

/// What a key press asks for.
#[derive(Clone, Copy, Debug, PartialEq, Eq)]
pub enum Command {
    EnterInsertMode,
    EnterChildMode,
    EnterEditMode,
    Quit,
    DeleteSelected,
    SelectNone,
    SelectNext,
    SelectPrevious,
    SelectFirst,
    SelectLast,
    MoveDown,
    MoveUp,
    SwitchFocus,
    ToggleStatus,
    Cancel,
    Commit,
    Edit(Key),
    Nothing,
}

/// The key bindings. In normal mode letters and arrows drive the list; in
/// insert mode escape cancels, enter commits and every other key goes to the
/// edit buffer.
pub open spec fn key_command(mode: InputMode, key: Key) -> Command {
    match mode {
        InputMode::Normal => match key {
            Key::Char(c) => if c == 'i' {
                Command::EnterInsertMode
            } else if c == 'o' {
                Command::EnterChildMode
            } else if c == 'e' {
                Command::EnterEditMode
            } else if c == 'q' {
                Command::Quit
            } else if c == 'd' {
                Command::DeleteSelected
            } else if c == 'h' {
                Command::SelectNone
            } else if c == 'j' {
                Command::SelectNext
            } else if c == 'k' {
                Command::SelectPrevious
            } else if c == 'g' {
                Command::SelectFirst
            } else if c == 'G' {
                Command::SelectLast
            } else if c == 'J' {
                Command::MoveDown
            } else if c == 'K' {
                Command::MoveUp
            } else if c == 'c' {
                Command::ToggleStatus
            } else {
                Command::Nothing
            },
            Key::Left => Command::SelectNone,
            Key::Down => Command::SelectNext,
            Key::Up => Command::SelectPrevious,
            Key::Home => Command::SelectFirst,
            Key::End => Command::SelectLast,
            Key::Tab => Command::SwitchFocus,
            Key::Right => Command::ToggleStatus,
            Key::Enter => Command::ToggleStatus,
            _ => Command::Nothing,
        },
        InputMode::Insert => match key {
            Key::Esc => Command::Cancel,
            Key::Enter => Command::Commit,
            _ => Command::Edit(key),
        },
    }
}

/// The command that `key` stands for in `mode`.
pub fn command_for(mode: InputMode, key: Key) -> (command: Command)
    ensures
        command == key_command(mode, key),
{
    match mode {
        InputMode::Normal => match key {
            Key::Char(c) => if c == 'i' {
                Command::EnterInsertMode
            } else if c == 'o' {
                Command::EnterChildMode
            } else if c == 'e' {
                Command::EnterEditMode
            } else if c == 'q' {
                Command::Quit
            } else if c == 'd' {
                Command::DeleteSelected
            } else if c == 'h' {
                Command::SelectNone
            } else if c == 'j' {
                Command::SelectNext
            } else if c == 'k' {
                Command::SelectPrevious
            } else if c == 'g' {
                Command::SelectFirst
            } else if c == 'G' {
                Command::SelectLast
            } else if c == 'J' {
                Command::MoveDown
            } else if c == 'K' {
                Command::MoveUp
            } else if c == 'c' {
                Command::ToggleStatus
            } else {
                Command::Nothing
            },
            Key::Left => Command::SelectNone,
            Key::Down => Command::SelectNext,
            Key::Up => Command::SelectPrevious,
            Key::Home => Command::SelectFirst,
            Key::End => Command::SelectLast,
            Key::Tab => Command::SwitchFocus,
            Key::Right => Command::ToggleStatus,
            Key::Enter => Command::ToggleStatus,
            _ => Command::Nothing,
        },
        InputMode::Insert => match key {
            Key::Esc => Command::Cancel,
            Key::Enter => Command::Commit,
            _ => Command::Edit(key),
        },
    }
}

} // verus!
