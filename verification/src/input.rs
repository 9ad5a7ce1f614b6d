//! Keys, and the commands that they stand for.

use vstd::prelude::*;

verus! {

/// A key, as far as the browser tells keys apart.
#[derive(Clone, Copy, Debug, PartialEq, Eq, Structural)]
pub enum Key {
    /// A key that types a character.
    Char(char),
    Esc,
    Down,
    Up,
    Right,
    Left,
    /// Any other key.
    Other,
}

/// What happened to a key.
#[derive(Clone, Copy, Debug, PartialEq, Eq, Structural)]
pub enum KeyKind {
    Press,
    Repeat,
    Release,
}

/// One event from the terminal.
#[derive(Clone, Copy, Debug, PartialEq, Eq, Structural)]
pub enum Input {
    /// Something happened to a key.
    Key { key: Key, kind: KeyKind },
    /// Anything else: the mouse, a resize, a paste.
    Other,
}

/// What the browser can be told to do.
#[derive(Clone, Copy, Debug, PartialEq, Eq, Structural)]
pub enum Command {
    /// Leave the browser.
    Quit,
    /// Take the cursor off its row.
    Deselect,
    /// Move the cursor down.
    Next,
    /// Move the cursor up.
    Previous,
    /// Enter the selected entry.
    Enter,
    /// Go to the parent directory.
    Ret,
    /// Do nothing.
    Nothing,
}

/// The command that the key `key` stands for: `q` quits, escape deselects,
/// the arrows move and enter as they point, and `j`, `k`, `l`, `h` do what
/// down, up, right and left do. Every other key stands for nothing.
pub open spec fn key_command(key: Key) -> Command {
    if key == Key::Char('q') {
        Command::Quit
    } else if key == Key::Esc {
        Command::Deselect
    } else if key == Key::Down || key == Key::Char('j') {
        Command::Next
    } else if key == Key::Up || key == Key::Char('k') {
        Command::Previous
    } else if key == Key::Right || key == Key::Char('l') {
        Command::Enter
    } else if key == Key::Left || key == Key::Char('h') {
        Command::Ret
    } else {
        Command::Nothing
    }
}

/// The command that the event `input` stands for: that of the key where a
/// key was pressed, and nothing for every other event.
pub open spec fn input_command(input: Input) -> Command {
    match input {
        Input::Key { key, kind: KeyKind::Press } => key_command(key),
        _ => Command::Nothing,
    }
}

impl Command {
    /// The command that `key` stands for.
    pub fn for_key(key: Key) -> (command: Command)
        ensures
            command == key_command(key),
    {
        match key {
            Key::Char('q') => Command::Quit,
            Key::Esc => Command::Deselect,
            Key::Down | Key::Char('j') => Command::Next,
            Key::Up | Key::Char('k') => Command::Previous,
            Key::Right | Key::Char('l') => Command::Enter,
            Key::Left | Key::Char('h') => Command::Ret,
            _ => Command::Nothing,
        }
    }

    /// The command that `input` stands for.
    pub fn for_input(input: Input) -> (command: Command)
        ensures
            command == input_command(input),
    {
        match input {
            Input::Key { key, kind: KeyKind::Press } => Command::for_key(key),
            _ => Command::Nothing,
        }
    }
}

} // verus!
