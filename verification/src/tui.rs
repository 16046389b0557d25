//! The full-screen front end, as far as it decides anything: what a key
//! means on each screen.
use crate::game::{Game, GameState};
use crate::input::{KeyCode, KeyEvent, KeyEventKind};
use crate::text::{from_chars, join3, owned};
use vstd::prelude::*;

verus! {

/// What the front end does with a key.
#[derive(Debug)]
pub enum TuiStep {
    /// The key means nothing here.
    Nothing,
    /// Leave the front end.
    Quit,
    /// Hand `back` to the game, forget what was typed, and leave.
    BackAndQuit,
    /// Hand this text to the game as the player's input.
    Input(String),
    /// Note the line that was typed in the log, forget it, and hand it to
    /// the game.
    Submit(String),
    /// Add this character to what was typed.
    Push(char),
    /// Take the last character off what was typed.
    Pop,
    /// Step in this direction, if the way is known.
    Arrow(String),
    /// Note this text in the log.
    Log(String),
}

pub enum TuiStepView {
    Nothing,
    Quit,
    BackAndQuit,
    Input(Seq<char>),
    Submit(Seq<char>),
    Push(char),
    Pop,
    Arrow(Seq<char>),
    Log(Seq<char>),
}

impl View for TuiStep {
    type V = TuiStepView;

    open spec fn view(&self) -> TuiStepView {
        match *self {
            TuiStep::Nothing => TuiStepView::Nothing,
            TuiStep::Quit => TuiStepView::Quit,
            TuiStep::BackAndQuit => TuiStepView::BackAndQuit,
            TuiStep::Input(t) => TuiStepView::Input(t@),
            TuiStep::Submit(t) => TuiStepView::Submit(t@),
            TuiStep::Push(c) => TuiStepView::Push(c),
            TuiStep::Pop => TuiStepView::Pop,
            TuiStep::Arrow(d) => TuiStepView::Arrow(d@),
            TuiStep::Log(t) => TuiStepView::Log(t@),
        }
    }
}

/// What a character that was typed means: nothing on the splash screen, a
/// character of the name on the naming screen, a character of the line while
/// the player is asked for input, and a note in the log while the game is
/// busy.
pub open spec fn char_step(state: GameState, c: char) -> TuiStepView {
    match state {
        GameState::SplashScreen => TuiStepView::Nothing,
        GameState::NamingWorld => TuiStepView::Input(seq![c]),
        GameState::WaitingForInput => TuiStepView::Push(c),
        _ => TuiStepView::Log("Ignored char '"@ + seq![c] + "'"@),
    }
}

/// What an arrow key means: on the splash screen the selection moves, where
/// the arrow has a word for that; while the player is asked for input, the
/// player steps.
pub open spec fn arrow_step(
    state: GameState,
    word: Option<Seq<char>>,
    direction: Seq<char>,
) -> TuiStepView {
    match state {
        GameState::SplashScreen => match word {
            Some(w) => TuiStepView::Input(w),
            None => TuiStepView::Nothing,
        },
        GameState::WaitingForInput => TuiStepView::Arrow(direction),
        _ => TuiStepView::Nothing,
    }
}

/// What a key means, by the screen the game is on. Only the press of a key
/// counts. `control` tells whether the control key was held, `typed` what
/// was typed so far, `selected` and `saves` where the selection stands in
/// the list of saves.
pub open spec fn key_step(
    state: GameState,
    selected: nat,
    saves: nat,
    typed: Seq<char>,
    key: KeyEvent,
    control: bool,
) -> TuiStepView {
    if key.kind != KeyEventKind::Press {
        TuiStepView::Nothing
    } else {
        match key.code {
            KeyCode::Esc => if state == GameState::NamingWorld {
                TuiStepView::BackAndQuit
            } else {
                TuiStepView::Quit
            },
            KeyCode::Enter => match state {
                GameState::SplashScreen => if selected < saves {
                    TuiStepView::Input("load"@)
                } else {
                    TuiStepView::Input("new"@)
                },
                GameState::NamingWorld => TuiStepView::Input("enter"@),
                _ => if typed.len() > 0 {
                    TuiStepView::Submit(typed)
                } else {
                    TuiStepView::Nothing
                },
            },
            KeyCode::Char(c) => if c == 'c' && control {
                TuiStepView::Quit
            } else {
                char_step(state, c)
            },
            KeyCode::Backspace => match state {
                GameState::SplashScreen => TuiStepView::Nothing,
                GameState::NamingWorld => TuiStepView::Input("backspace"@),
                GameState::WaitingForInput => TuiStepView::Pop,
                _ => TuiStepView::Log("Ignored backspace"@),
            },
            KeyCode::Up => arrow_step(state, Some("up"@), "north"@),
            KeyCode::Down => arrow_step(state, Some("down"@), "south"@),
            KeyCode::Left => arrow_step(state, None, "west"@),
            KeyCode::Right => arrow_step(state, None, "east"@),
            KeyCode::Delete => if state == GameState::SplashScreen && saves > 0 {
                TuiStepView::Input("delete"@)
            } else {
                TuiStepView::Nothing
            },
            _ => TuiStepView::Nothing,
        }
    }
}

/// What a character that was typed means.
fn interpret_char(state: GameState, c: char) -> (r: TuiStep)
    ensures
        r@ == char_step(state, c),
{
    let mut one: Vec<char> = Vec::new();
    one.push(c);
    let text = from_chars(&one);
    proof {
        assert(one@ =~= seq![c]);
    }
    match state {
        GameState::SplashScreen => TuiStep::Nothing,
        GameState::NamingWorld => TuiStep::Input(text),
        GameState::WaitingForInput => TuiStep::Push(c),
        _ => TuiStep::Log(join3("Ignored char '", text.as_str(), "'")),
    }
}

/// What an arrow key means.
fn interpret_arrow(state: GameState, word: Option<&str>, direction: &str) -> (r: TuiStep)
    ensures
        r@ == arrow_step(
            state,
            match word {
                Some(w) => Some(w@),
                None => None,
            },
            direction@,
        ),
{
    match state {
        GameState::SplashScreen => match word {
            Some(w) => TuiStep::Input(owned(w)),
            None => TuiStep::Nothing,
        },
        GameState::WaitingForInput => TuiStep::Arrow(owned(direction)),
        _ => TuiStep::Nothing,
    }
}

/// What a key means for the game as it stands, with `typed` typed so far.
pub fn interpret_key(game: &Game, typed: &str, key: &KeyEvent, control: bool) -> (r: TuiStep)
    ensures
        r@ == key_step(
            game.state,
            game.selected_save_index as nat,
            game.save_list@.len(),
            typed@,
            *key,
            control,
        ),
{
    match key.kind {
        KeyEventKind::Press => {},
        _ => {
            return TuiStep::Nothing;
        },
    }
    match key.code {
        KeyCode::Esc => match game.state {
            GameState::NamingWorld => TuiStep::BackAndQuit,
            _ => TuiStep::Quit,
        },
        KeyCode::Enter => match game.state {
            GameState::SplashScreen => if game.selected_save_index < game.save_list.len() {
                TuiStep::Input(owned("load"))
            } else {
                TuiStep::Input(owned("new"))
            },
            GameState::NamingWorld => TuiStep::Input(owned("enter")),
            _ => {
                let chars = crate::text::chars_of(typed);
                if chars.len() > 0 {
                    TuiStep::Submit(owned(typed))
                } else {
                    TuiStep::Nothing
                }
            },
        },
        KeyCode::Char(c) => if c == 'c' && control {
            TuiStep::Quit
        } else {
            interpret_char(game.state, c)
        },
        KeyCode::Backspace => match game.state {
            GameState::SplashScreen => TuiStep::Nothing,
            GameState::NamingWorld => TuiStep::Input(owned("backspace")),
            GameState::WaitingForInput => TuiStep::Pop,
            _ => TuiStep::Log(owned("Ignored backspace")),
        },
        KeyCode::Up => interpret_arrow(game.state, Some("up"), "north"),
        KeyCode::Down => interpret_arrow(game.state, Some("down"), "south"),
        KeyCode::Left => interpret_arrow(game.state, None, "west"),
        KeyCode::Right => interpret_arrow(game.state, None, "east"),
        KeyCode::Delete => match game.state {
            GameState::SplashScreen => if game.save_list.len() > 0 {
                TuiStep::Input(owned("delete"))
            } else {
                TuiStep::Nothing
            },
            _ => TuiStep::Nothing,
        },
        _ => TuiStep::Nothing,
    }
}

} // verus!
