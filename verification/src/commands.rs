//! What the player typed, as a command.
use crate::text::{
    chars_of, lowercase, lowercased, owned, parse_usize_chars, parsed_usize, same_text, trim_text,
    trimmed,
};
use vstd::prelude::*;

verus! {

#[derive(Debug, Clone)]
pub enum Command {
    New,
    Load,
    Up,
    Down,
    Delete,
    Enter,
    Back,
    Backspace,
    MoveNorth,
    MoveSouth,
    MoveEast,
    MoveWest,
    SelectOption(usize),
    TextInput(String),
    /// No command at all.
    Nothing,
}

pub enum CommandView {
    New,
    Load,
    Up,
    Down,
    Delete,
    Enter,
    Back,
    Backspace,
    MoveNorth,
    MoveSouth,
    MoveEast,
    MoveWest,
    SelectOption(usize),
    TextInput(Seq<char>),
    Nothing,
}

impl View for Command {
    type V = CommandView;

    open spec fn view(&self) -> CommandView {
        match *self {
            Command::New => CommandView::New,
            Command::Load => CommandView::Load,
            Command::Up => CommandView::Up,
            Command::Down => CommandView::Down,
            Command::Delete => CommandView::Delete,
            Command::Enter => CommandView::Enter,
            Command::Back => CommandView::Back,
            Command::Backspace => CommandView::Backspace,
            Command::MoveNorth => CommandView::MoveNorth,
            Command::MoveSouth => CommandView::MoveSouth,
            Command::MoveEast => CommandView::MoveEast,
            Command::MoveWest => CommandView::MoveWest,
            Command::SelectOption(n) => CommandView::SelectOption(n),
            Command::TextInput(t) => CommandView::TextInput(t@),
            Command::Nothing => CommandView::Nothing,
        }
    }
}

/// The command that a text in lower case, without white space around it,
/// stands for: one of the fixed words, a number that selects an option, or
/// else free text.
pub open spec fn command_of(text: Seq<char>) -> CommandView {
    if text == "new"@ {
        CommandView::New
    } else if text == "load"@ {
        CommandView::Load
    } else if text == "up"@ {
        CommandView::Up
    } else if text == "down"@ {
        CommandView::Down
    } else if text == "delete"@ {
        CommandView::Delete
    } else if text == "enter"@ {
        CommandView::Enter
    } else if text == "back"@ {
        CommandView::Back
    } else if text == "backspace"@ {
        CommandView::Backspace
    } else if text == "go north"@ || text == "north"@ {
        CommandView::MoveNorth
    } else if text == "go south"@ || text == "south"@ {
        CommandView::MoveSouth
    } else if text == "go east"@ || text == "east"@ {
        CommandView::MoveEast
    } else if text == "go west"@ || text == "west"@ {
        CommandView::MoveWest
    } else {
        match parsed_usize(text) {
            Some(n) => CommandView::SelectOption(n),
            None => CommandView::TextInput(text),
        }
    }
}

impl Command {
    /// The command that a text in lower case, without white space around it,
    /// stands for.
    pub fn from_normalized(text: &str) -> (r: Command)
        ensures
            r@ == command_of(text@),
    {
        if same_text(text, "new") {
            Command::New
        } else if same_text(text, "load") {
            Command::Load
        } else if same_text(text, "up") {
            Command::Up
        } else if same_text(text, "down") {
            Command::Down
        } else if same_text(text, "delete") {
            Command::Delete
        } else if same_text(text, "enter") {
            Command::Enter
        } else if same_text(text, "back") {
            Command::Back
        } else if same_text(text, "backspace") {
            Command::Backspace
        } else if same_text(text, "go north") || same_text(text, "north") {
            Command::MoveNorth
        } else if same_text(text, "go south") || same_text(text, "south") {
            Command::MoveSouth
        } else if same_text(text, "go east") || same_text(text, "east") {
            Command::MoveEast
        } else if same_text(text, "go west") || same_text(text, "west") {
            Command::MoveWest
        } else {
            let chars = chars_of(text);
            match parse_usize_chars(&chars) {
                Some(n) => Command::SelectOption(n),
                None => Command::TextInput(owned(text)),
            }
        }
    }

    /// The command that the player's input stands for: the input is taken
    /// without the white space around it and in lower case.
    pub fn from_str(input: &str) -> (r: Command)
        ensures
            r@ == command_of(lowercased(trimmed(input@))),
    {
        let cut = trim_text(input);
        let lower = lowercase(cut.as_str());
        Command::from_normalized(lower.as_str())
    }
}

} // verus!
