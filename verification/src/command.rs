//! Commands, and the messages from outside that ask for them.

use crate::direction::{direction_of_token, string_to_direction, Direction};
use crate::text::{str_equal, text_view};
use vstd::prelude::*;

verus! {

/// A request to move the focus or to resize the focused pane.
#[derive(Clone, Copy, Debug, PartialEq, Eq, Structural)]
pub enum Command {
    MoveFocus(Direction),
    MoveFocusOrTab(Direction),
    Resize(Direction),
}

impl Command {
    /// The direction that the command names.
    pub open spec fn direction(self) -> Direction {
        match self {
            Command::MoveFocus(d) => d,
            Command::MoveFocusOrTab(d) => d,
            Command::Resize(d) => d,
        }
    }

    /// Whether the command resizes; the others move the focus.
    pub open spec fn resizes(self) -> bool {
        self is Resize
    }
}

/// A message that came in through the host's pipe.
#[derive(Clone, Debug, PartialEq, Eq)]
pub struct PipeMessage {
    /// The verb of the message.
    pub name: String,
    /// What the message carries, if anything.
    pub payload: Option<String>,
}

/// What a `PipeMessage` holds.
pub struct PipeMessageView {
    pub name: Seq<char>,
    pub payload: Option<Seq<char>>,
}

impl View for PipeMessage {
    type V = PipeMessageView;

    open spec fn view(&self) -> PipeMessageView {
        PipeMessageView { name: self.name@, payload: text_view(self.payload) }
    }
}

/// The command that a message asks for: its payload names the direction and
/// its name is one of `move_focus`, `move_focus_or_tab` and `resize`. A
/// message without payload, with another payload or with another name asks
/// for nothing.
pub open spec fn command_of(message: PipeMessageView) -> Option<Command> {
    match message.payload {
        None => None,
        Some(payload) => match direction_of_token(payload) {
            None => None,
            Some(d) => if message.name == "move_focus"@ {
                Some(Command::MoveFocus(d))
            } else if message.name == "move_focus_or_tab"@ {
                Some(Command::MoveFocusOrTab(d))
            } else if message.name == "resize"@ {
                Some(Command::Resize(d))
            } else {
                None
            },
        },
    }
}

/// The command that `pipe_message` asks for, if it asks for one.
pub fn parse_command(pipe_message: PipeMessage) -> (r: Option<Command>)
    ensures
        r == command_of(pipe_message@),
{
    let payload = match &pipe_message.payload {
        Some(payload) => payload,
        None => {
            return None;
        },
    };
    let direction = match string_to_direction(payload.as_str()) {
        Some(direction) => direction,
        None => {
            return None;
        },
    };
    let command = pipe_message.name.as_str();
    if str_equal(command, "move_focus") {
        Some(Command::MoveFocus(direction))
    } else if str_equal(command, "move_focus_or_tab") {
        Some(Command::MoveFocusOrTab(direction))
    } else if str_equal(command, "resize") {
        Some(Command::Resize(direction))
    } else {
        None
    }
}

} // verus!
