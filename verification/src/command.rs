//! Keys, the commands they are bound to, and what each command does to a buffer.

use vstd::prelude::*;
use crate::buffer::Buffer;
use crate::display::{display, frame};
use crate::state::State;

verus! {

/// A key press, as far as the bindings tell keys apart.
#[derive(Clone, Copy, Debug, PartialEq, Eq, Structural)]
pub enum Key {
    Right,
    Left,
    Down,
    Up,
    Home,
    End,
    PageUp,
    PageDown,
    /// A key that stands for a character.
    Char(char),
    /// Any other key.
    Other,
}

/// What a key press asks for.
#[derive(Clone, Copy, Debug, PartialEq, Eq, Structural)]
pub enum Command {
    MoveRight,
    MoveLeft,
    MoveDown,
    MoveUp,
    MoveEndOfLine,
    MoveStartOfLine,
    PageDown,
    PageUp,
    MoveEnd,
    MoveStart,
    DeleteLine,
    Quit,
    /// Nothing: the key is not bound.
    Ignore,
}

/// The bindings. Each movement has an arrow or named key and a letter; the
/// capital of a letter does the larger movement of the same direction.
pub open spec fn binding(key: Key) -> Command {
    match key {
        Key::Right | Key::Char('l') => Command::MoveRight,
        Key::Left | Key::Char('j') => Command::MoveLeft,
        Key::Down | Key::Char('k') => Command::MoveDown,
        Key::Up | Key::Char('i') => Command::MoveUp,
        Key::End | Key::Char('L') => Command::MoveEndOfLine,
        Key::Home | Key::Char('J') => Command::MoveStartOfLine,
        Key::PageDown | Key::Char('K') => Command::PageDown,
        Key::PageUp | Key::Char('I') => Command::PageUp,
        Key::Char('>') => Command::MoveEnd,
        Key::Char('<') => Command::MoveStart,
        Key::Char('d') => Command::DeleteLine,
        Key::Char('q') => Command::Quit,
        _ => Command::Ignore,
    }
}

/// The command that `key` is bound to.
pub fn command_for(key: Key) -> (command: Command)
    ensures
        command == binding(key),
{
    match key {
        Key::Right => Command::MoveRight,
        Key::Left => Command::MoveLeft,
        Key::Down => Command::MoveDown,
        Key::Up => Command::MoveUp,
        Key::End => Command::MoveEndOfLine,
        Key::Home => Command::MoveStartOfLine,
        Key::PageDown => Command::PageDown,
        Key::PageUp => Command::PageUp,
        Key::Char(c) => {
            if c == 'l' {
                Command::MoveRight
            } else if c == 'j' {
                Command::MoveLeft
            } else if c == 'k' {
                Command::MoveDown
            } else if c == 'i' {
                Command::MoveUp
            } else if c == 'L' {
                Command::MoveEndOfLine
            } else if c == 'J' {
                Command::MoveStartOfLine
            } else if c == 'K' {
                Command::PageDown
            } else if c == 'I' {
                Command::PageUp
            } else if c == '>' {
                Command::MoveEnd
            } else if c == '<' {
                Command::MoveStart
            } else if c == 'd' {
                Command::DeleteLine
            } else if c == 'q' {
                Command::Quit
            } else {
                Command::Ignore
            }
        },
        Key::Other => Command::Ignore,
    }
}

impl State {
    /// The state after `command`. Quitting and an unbound key change nothing.
    pub open spec fn step(self, command: Command) -> State {
        match command {
            Command::MoveRight => self.move_right(),
            Command::MoveLeft => self.move_left(),
            Command::MoveDown => self.move_down(),
            Command::MoveUp => self.move_up(),
            Command::MoveEndOfLine => self.move_end_of_line(),
            Command::MoveStartOfLine => self.move_start_of_line(),
            Command::PageDown => self.page_down(),
            Command::PageUp => self.page_up(),
            Command::MoveEnd => self.move_end(),
            Command::MoveStart => self.move_start(),
            Command::DeleteLine => self.delete_line(),
            Command::Quit => self,
            Command::Ignore => self,
        }
    }

    /// The state after the commands of `commands`, first to last.
    pub open spec fn run(self, commands: Seq<Command>) -> State
        decreases commands.len(),
    {
        if commands.len() == 0 {
            self
        } else {
            self.step(commands[0]).run(commands.drop_first())
        }
    }
}

impl Buffer {
    /// Carries out `command` and says whether the session goes on: it does
    /// until the command is to quit.
    pub fn execute(&mut self, command: Command) -> (go_on: bool)
        requires
            old(self).wf(),
        ensures
            final(self).wf(),
            final(self)@ == old(self)@.step(command),
            go_on == (command != Command::Quit),
    {
        match command {
            Command::MoveRight => self.move_right(),
            Command::MoveLeft => self.move_left(),
            Command::MoveDown => self.move_down(),
            Command::MoveUp => self.move_up(),
            Command::MoveEndOfLine => self.move_end_of_line(),
            Command::MoveStartOfLine => self.move_start_of_line(),
            Command::PageDown => self.page_down(),
            Command::PageUp => self.page_up(),
            Command::MoveEnd => self.move_end(),
            Command::MoveStart => self.move_start(),
            Command::DeleteLine => self.delete_line(),
            Command::Quit => {
                return false;
            },
            Command::Ignore => {},
        }
        true
    }

    /// Takes one key press: carries out the command that the key is bound
    /// to and gives the picture to draw next, or nothing if the key was the
    /// one to quit.
    pub fn handle(&mut self, key: Key) -> (picture: Option<String>)
        requires
            old(self).wf(),
        ensures
            final(self).wf(),
            final(self)@ == old(self)@.step(binding(key)),
            binding(key) == Command::Quit <==> picture is None,
            picture matches Some(text) ==> text@ == frame(final(self)@),
    {
        if self.execute(command_for(key)) {
            Some(display(self))
        } else {
            None
        }
    }
}

} // verus!
