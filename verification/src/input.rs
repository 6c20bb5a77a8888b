//! The input dispatcher: from one key event to at most one command.

use vstd::prelude::*;

verus! {

/// The key that an event is about.
#[derive(Clone, Copy, Debug, PartialEq, Eq, Structural)]
pub enum KeyCode {
    /// A key that produces a character.
    Char(char),
    /// The escape key.
    Esc,
    /// Any other key.
    Other,
}

/// What happened to the key.
#[derive(Clone, Copy, Debug, PartialEq, Eq, Structural)]
pub enum KeyKind {
    /// The key went down.
    Press,
    /// The key is held and repeats.
    Repeat,
    /// The key came up.
    Release,
}

/// One key event, as the terminal reports it.
#[derive(Clone, Copy, Debug, PartialEq, Eq, Structural)]
pub struct KeyEvent {
    pub code: KeyCode,
    pub kind: KeyKind,
}

/// The commands that the reader understands.
#[derive(Clone, Copy, Debug, PartialEq, Eq, Structural)]
pub enum Command {
    Quit,
    TogglePause,
    StepForward,
    StepBackward,
    IncreaseRate,
    DecreaseRate,
}

/// The command bound to a key: `q` and escape quit, the space bar toggles the
/// pause, `n` and `p` step forward and back, `u` and `d` raise and lower the
/// rate. Bindings are lower-case letters; no other key has one.
pub open spec fn binding(code: KeyCode) -> Option<Command> {
    match code {
        KeyCode::Esc => Some(Command::Quit),
        KeyCode::Char(c) => if c == 'q' {
            Some(Command::Quit)
        } else if c == ' ' {
            Some(Command::TogglePause)
        } else if c == 'n' {
            Some(Command::StepForward)
        } else if c == 'p' {
            Some(Command::StepBackward)
        } else if c == 'u' {
            Some(Command::IncreaseRate)
        } else if c == 'd' {
            Some(Command::DecreaseRate)
        } else {
            None
        },
        KeyCode::Other => None,
    }
}

/// The command that an event triggers. A key that comes up triggers nothing:
/// only a press or a repeat acts, so that a terminal which reports both ends
/// of a keystroke does not fire twice.
pub open spec fn command_for(event: KeyEvent) -> Option<Command> {
    if event.kind == KeyKind::Release {
        None
    } else {
        binding(event.code)
    }
}

/// Maps one key event to the command it triggers, or to `None` where it is
/// ignored.
pub fn dispatch(event: KeyEvent) -> (command: Option<Command>)
    ensures
        command == command_for(event),
    no_unwind
{
    match event.kind {
        KeyKind::Release => None,
        _ => match event.code {
            KeyCode::Esc => Some(Command::Quit),
            KeyCode::Char('q') => Some(Command::Quit),
            KeyCode::Char(' ') => Some(Command::TogglePause),
            KeyCode::Char('n') => Some(Command::StepForward),
            KeyCode::Char('p') => Some(Command::StepBackward),
            KeyCode::Char('u') => Some(Command::IncreaseRate),
            KeyCode::Char('d') => Some(Command::DecreaseRate),
            _ => None,
        },
    }
}

} // verus!
