//! Key presses and what the game makes of them.

use vstd::prelude::*;

use crate::grid::Direction;

verus! {

/// The key of a key press, as far as the game tells keys apart.
#[derive(Clone, Copy, Debug, PartialEq, Eq, Structural)]
pub enum Key {
    Up,
    Down,
    Left,
    Right,
    /// A key that produces a character.
    Char(char),
    /// Any other key.
    Other,
}

/// The modifier keys held during a key press.
#[derive(Clone, Copy, Debug, PartialEq, Eq, Structural)]
pub struct Modifiers {
    pub shift: bool,
    pub control: bool,
    pub alt: bool,
}

/// One key press: the key and the modifiers held with it.
#[derive(Clone, Copy, Debug, PartialEq, Eq, Structural)]
pub struct KeyPress {
    pub key: Key,
    pub modifiers: Modifiers,
}

/// What a key press asks of the game.
#[derive(Clone, Copy, Debug, PartialEq, Eq, Structural)]
pub enum Command {
    /// Travel in this direction from the next movement tick on.
    SetDirection(Direction),
    /// Leave the game once the current frame is drawn.
    Quit,
    /// The key means nothing to the game.
    Ignored,
}

impl KeyPress {
    /// The command this key press stands for.
    ///
    /// An arrow key sets the direction it points in, whatever modifiers are
    /// held. A lower-case `c` with Control held quits, whatever else is held.
    /// Every other key press is ignored.
    pub open spec fn command(self) -> Command {
        match self.key {
            Key::Up => Command::SetDirection(Direction::Up),
            Key::Down => Command::SetDirection(Direction::Down),
            Key::Left => Command::SetDirection(Direction::Left),
            Key::Right => Command::SetDirection(Direction::Right),
            Key::Char(c) => if c == 'c' && self.modifiers.control {
                Command::Quit
            } else {
                Command::Ignored
            },
            Key::Other => Command::Ignored,
        }
    }
}

/// Maps a key press to the command it stands for. The game's state plays no
/// part in it.
pub fn translate(press: &KeyPress) -> (command: Command)
    ensures
        command == press.command(),
{
    match press.key {
        Key::Up => Command::SetDirection(Direction::Up),
        Key::Down => Command::SetDirection(Direction::Down),
        Key::Left => Command::SetDirection(Direction::Left),
        Key::Right => Command::SetDirection(Direction::Right),
        Key::Char(c) => {
            if c == 'c' && press.modifiers.control {
                Command::Quit
            } else {
                Command::Ignored
            }
        },
        Key::Other => Command::Ignored,
    }
}

/// Of the modifiers only Control matters, and it matters only for character
/// keys: two presses of one key get the same command if they agree on
/// Control or the key produces no character.
pub proof fn lemma_other_modifiers_do_not_matter(key: Key, held: Modifiers, other: Modifiers)
    requires
        held.control == other.control || !(key is Char),
    ensures
        (KeyPress { key, modifiers: held }).command() == (KeyPress {
            key,
            modifiers: other,
        }).command(),
{
}

/// Every direction that a key press can set is a unit step along one axis.
pub proof fn lemma_set_direction_is_cardinal(press: KeyPress)
    ensures
        press.command() matches Command::SetDirection(d) ==> d.delta().is_cardinal(),
{
}

} // verus!
