use vstd::prelude::*;

verus! {

/// The key of a key press, as far as the game tells keys apart.
#[derive(Clone, Copy, Debug, PartialEq, Eq, Structural)]
pub enum KeyCode {
    Left,
    Right,
    Up,
    Down,
    Char(char),
    Other,
}

/// A key press: its key, and whether Control was held.
#[derive(Clone, Copy, Debug, PartialEq, Eq, Structural)]
pub struct KeyEvent {
    pub code: KeyCode,
    pub control: bool,
}

/// What a player can ask of the game.
#[derive(Clone, Copy, Debug, PartialEq, Eq, Structural)]
pub enum Command {
    Rotate,
    MoveForward,
    ShiftUp,
    ShiftDown,
    Drop,
    Pause,
    Quit,
}

impl Command {
    /// The commands that move or turn the current piece.
    pub open spec fn moves_piece(self) -> bool {
        self != Command::Pause && self != Command::Quit
    }
}

impl KeyEvent {
    /// The command bound to a key press, if any: Control-c quits; the left
    /// arrow and `a` rotate; the right arrow and `d` move forward; the up
    /// arrow and `w`, the down arrow and `s` shift; the space bar drops; `p`
    /// pauses. Apart from Control-c, Control plays no part.
    pub open spec fn bound(self) -> Option<Command> {
        match self.code {
            KeyCode::Char(c) => if c == 'c' {
                if self.control {
                    Some(Command::Quit)
                } else {
                    None
                }
            } else if c == 'a' {
                Some(Command::Rotate)
            } else if c == 'd' {
                Some(Command::MoveForward)
            } else if c == 'w' {
                Some(Command::ShiftUp)
            } else if c == 's' {
                Some(Command::ShiftDown)
            } else if c == ' ' {
                Some(Command::Drop)
            } else if c == 'p' {
                Some(Command::Pause)
            } else {
                None
            },
            KeyCode::Left => Some(Command::Rotate),
            KeyCode::Right => Some(Command::MoveForward),
            KeyCode::Up => Some(Command::ShiftUp),
            KeyCode::Down => Some(Command::ShiftDown),
            KeyCode::Other => None,
        }
    }

    /// Finds the command bound to a key press.
    pub fn command(&self) -> (command: Option<Command>)
        ensures
            command == self.bound(),
    {
        match self.code {
            KeyCode::Char(c) => {
                if c == 'c' {
                    if self.control {
                        Some(Command::Quit)
                    } else {
                        None
                    }
                } else if c == 'a' {
                    Some(Command::Rotate)
                } else if c == 'd' {
                    Some(Command::MoveForward)
                } else if c == 'w' {
                    Some(Command::ShiftUp)
                } else if c == 's' {
                    Some(Command::ShiftDown)
                } else if c == ' ' {
                    Some(Command::Drop)
                } else if c == 'p' {
                    Some(Command::Pause)
                } else {
                    None
                }
            },
            KeyCode::Left => Some(Command::Rotate),
            KeyCode::Right => Some(Command::MoveForward),
            KeyCode::Up => Some(Command::ShiftUp),
            KeyCode::Down => Some(Command::ShiftDown),
            KeyCode::Other => None,
        }
    }
}

} // verus!
