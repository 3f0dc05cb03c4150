//! The input command mapper: a stateless classifier from one polled raw
//! event to exactly one symbolic command.

use vstd::prelude::*;

use crate::state::InputCommand;

verus! {

/// The key a press carried, reduced to what the mapper distinguishes.
#[derive(PartialEq, Eq, Structural, Clone, Copy, Debug)]
pub enum KeySym {
    Esc,
    Up,
    Down,
    Left,
    Right,
    Char(char),
    Other,
}

/// One polled raw event: a key press with its key, a key event of another
/// kind (release or repeat), a surface resize notification, nothing ready,
/// or anything else.
#[derive(PartialEq, Eq, Structural, Clone, Copy, Debug)]
pub enum PolledEvent {
    KeyPress(KeySym),
    KeyOther,
    Resize,
    NoEvent,
    Other,
}

/// The command each event decodes to: Escape or `q` quit, space toggles
/// pause, the arrows and `w`/`a`/`s`/`d` pan, a resize notification asks for
/// a re-query; everything else, key releases and repeats included, is the
/// no-op.
pub open spec fn classify_spec(e: PolledEvent) -> InputCommand {
    match e {
        PolledEvent::KeyPress(k) => match k {
            KeySym::Esc => InputCommand::Quit,
            KeySym::Up => InputCommand::Up,
            KeySym::Down => InputCommand::Down,
            KeySym::Left => InputCommand::Left,
            KeySym::Right => InputCommand::Right,
            KeySym::Char(c) => if c == 'q' {
                InputCommand::Quit
            } else if c == ' ' {
                InputCommand::Pause
            } else if c == 'w' {
                InputCommand::Up
            } else if c == 'a' {
                InputCommand::Left
            } else if c == 's' {
                InputCommand::Down
            } else if c == 'd' {
                InputCommand::Right
            } else {
                InputCommand::Pass
            },
            KeySym::Other => InputCommand::Pass,
        },
        PolledEvent::Resize => InputCommand::Resize,
        _ => InputCommand::Pass,
    }
}

/// Map one polled raw event to its symbolic command. Total and stateless:
/// every event yields exactly one command, unrecognized input the no-op.
pub fn classify_event(e: &PolledEvent) -> (cmd: InputCommand)
    ensures
        cmd == classify_spec(*e),
{
    match *e {
        PolledEvent::KeyPress(k) => match k {
            KeySym::Esc => InputCommand::Quit,
            KeySym::Up => InputCommand::Up,
            KeySym::Down => InputCommand::Down,
            KeySym::Left => InputCommand::Left,
            KeySym::Right => InputCommand::Right,
            KeySym::Char(c) => {
                if c == 'q' {
                    InputCommand::Quit
                } else if c == ' ' {
                    InputCommand::Pause
                } else if c == 'w' {
                    InputCommand::Up
                } else if c == 'a' {
                    InputCommand::Left
                } else if c == 's' {
                    InputCommand::Down
                } else if c == 'd' {
                    InputCommand::Right
                } else {
                    InputCommand::Pass
                }
            },
            KeySym::Other => InputCommand::Pass,
        },
        PolledEvent::Resize => InputCommand::Resize,
        _ => InputCommand::Pass,
    }
}

} // verus!
