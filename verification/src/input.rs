//! The keyboard contract: which key does what, and when.

use crate::geometry::Direction;
use vstd::prelude::*;

verus! {

/// A key press, reduced to what the game distinguishes.
#[derive(Debug, Clone, Copy, PartialEq, Eq, Structural)]
pub enum Key {
    Up,
    Down,
    Left,
    Right,
    Char(char),
    Other,
}

/// What the main loop does with a key press.
#[derive(Debug, Clone, Copy, PartialEq, Eq, Structural)]
pub enum Command {
    /// Leave the game.
    Quit,
    /// Start a fresh game.
    Restart,
    /// Hand the key to the running game as steering input.
    Steer,
    /// Do nothing.
    Ignore,
}

impl Key {
    /// The direction an arrow key asks for; `None` for every other key.
    pub open spec fn arrow(self) -> Option<Direction> {
        match self {
            Key::Up => Some(Direction::Up),
            Key::Down => Some(Direction::Down),
            Key::Left => Some(Direction::Left),
            Key::Right => Some(Direction::Right),
            _ => None,
        }
    }

    /// Returns the direction an arrow key asks for, `None` for any other key.
    pub fn direction(self) -> (d: Option<Direction>)
        ensures
            d == self.arrow(),
    {
        match self {
            Key::Up => Some(Direction::Up),
            Key::Down => Some(Direction::Down),
            Key::Left => Some(Direction::Left),
            Key::Right => Some(Direction::Right),
            _ => None,
        }
    }
}

/// The command a key stands for: `q` always quits, `r` restarts a finished
/// game, any other key steers a running game, and the rest is ignored.
pub open spec fn command_for(key: Key, game_over: bool) -> Command {
    if key == Key::Char('q') {
        Command::Quit
    } else if key == Key::Char('r') && game_over {
        Command::Restart
    } else if !game_over {
        Command::Steer
    } else {
        Command::Ignore
    }
}

/// Decides what a key press means, given whether the game has ended.
pub fn dispatch(key: Key, game_over: bool) -> (c: Command)
    ensures
        c == command_for(key, game_over),
{
    match key {
        Key::Char(ch) => {
            if ch == 'q' {
                Command::Quit
            } else if ch == 'r' && game_over {
                Command::Restart
            } else if !game_over {
                Command::Steer
            } else {
                Command::Ignore
            }
        },
        _ => {
            if !game_over {
                Command::Steer
            } else {
                Command::Ignore
            }
        },
    }
}

} // verus!
