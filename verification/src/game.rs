//! The game around the world: the screens the player passes through, what
//! each command does on each of them, and what is asked of the outside
//! (saves, the generation service, the agent) along the way.
use crate::commands::{Command, CommandView};
use crate::keyed::{lemma_position, position};
use crate::model::{Location, LocationView, PlaceView, Place, WorldState, WorldView};
use crate::agent::{answer_view, generated_from, generation_fault, read_generated};
use crate::text::{
    chars_contain, chars_of, decimal, decimal_count, decimal_string, from_chars, has_part, join2,
    join3, lemma_noted_more, logged_entry, note, note_at, noted, noted_all, owned, shorter_than,
    slice_chars, stamped, trim_chars, trimmed, utf8_len, views,
};
use crate::save::SaveInfo;

use crate::tools::ToolError;
use crate::travel::{
    as_pos, generation_prompt, is_direction, opt_location_view, shown_pos, step, target_from,
    target_of, write_pos, GenerationRequest, MovePlan, GENERATOR_ROLE,
};
use crate::turn::AgentResponse;
use vstd::prelude::*;

verus! {

/// The screen the game shows, or what it is busy with.
#[derive(Debug, Clone, Copy, PartialEq, Eq, Structural)]
pub enum GameState {
    SplashScreen,
    NamingWorld,
    WaitingForInput,
    Processing,
    UpdatingWorld,
    Rendering,
}

/// How often the agent is tried for one action.
pub const MAX_ATTEMPTS: u32 = 3;

/// How long to wait before the agent is tried again, in milliseconds.
pub const RETRY_DELAY_MS: u64 = 500;

/// An error text longer than this many bytes is cut.
pub const ERROR_SUMMARY_BYTES: usize = 51;

/// A cut error text keeps this many characters.
pub const ERROR_SUMMARY_CHARS: usize = 47;

/// What the game asks of the outside after a command or an event.
#[derive(Debug)]
pub enum GameEffect {
    /// Nothing is to be done.
    Nothing,
    /// Read the save `filename` and report it with `Game::save_loaded`.
    LoadSave { filename: String },
    /// Delete the save `filename` and report with `Game::save_deleted`.
    DeleteSave { filename: String },
    /// Write the world as the new save `filename` and report with
    /// `Game::save_created`.
    CreateSave { filename: String },
    /// Write the world to the current save, if there is one; a failure is
    /// of no consequence.
    Persist,
    /// Ask the generation service for a location and report the answer with
    /// `Game::location_answered`.
    Generate { direction: String, request: GenerationRequest },
    /// Let the agent process `action` on a copy of the world and report with
    /// `Game::agent_finished` or `Game::agent_failed`.
    RunAgent { action: String },
    /// Wait, then let the agent process `action` once more.
    RetryAgent { action: String, delay_ms: u64 },
}

/// The game.
#[derive(Debug)]
pub struct Game {
    pub world: WorldState,
    pub last_narrative: String,
    pub state: GameState,
    pub current_save_path: Option<String>,
    pub save_list: Vec<SaveInfo>,
    pub selected_save_index: usize,
    pub debug_log: Vec<String>,
    pub current_options: Vec<String>,
    pub status_message: String,
    pub new_world_name: String,
    pub attempts: u32,
}

/// The location in which every new world begins.
pub open spec fn first_location() -> LocationView {
    LocationView {
        name: "The Beginning"@,
        description: "You stand in a void of potential. Anything can happen here."@,
        items: Seq::empty(),
        actors: Seq::empty(),
        exits: Seq::empty(),
        cached_image_path: None,
        image_prompt: "A swirling void of colors and shapes, representing potential."@,
        visited: true,
    }
}

/// The world in which every new game begins: empty but for its first
/// location at the origin.
pub open spec fn first_world() -> WorldView {
    WorldView {
        locations: seq![PlaceView { pos: (0i32, 0i32), location: first_location() }],
        ..WorldView::initial()
    }
}

/// A text without its last character.
pub open spec fn without_last(s: Seq<char>) -> Seq<char> {
    if s.len() == 0 {
        s
    } else {
        s.drop_last()
    }
}

/// The summary of an error text: the text itself, or, where it is long, its
/// first characters and three dots.
pub open spec fn error_summary(e: Seq<char>) -> Seq<char> {
    if utf8_len(e) < ERROR_SUMMARY_BYTES || e.len() <= ERROR_SUMMARY_CHARS {
        e
    } else {
        e.subrange(0, ERROR_SUMMARY_CHARS as int) + "..."@
    }
}

/// Whether the narrative of a response tells that the agent gave up, so that
/// the world it worked on is not to be taken over.
pub open spec fn tells_failure(narrative: Seq<char>) -> bool {
    has_part(narrative, "Failed after"@) || has_part(narrative, "Agent stopped"@) || has_part(
        narrative,
        "Timeout"@,
    )
}

/// Makes the world in which every new game begins.
pub fn make_first_world() -> (r: WorldState)
    ensures
        r@ == first_world(),
{
    let mut world = WorldState::new();
    let start = Location {
        name: owned("The Beginning"),
        description: owned("You stand in a void of potential. Anything can happen here."),
        items: Vec::new(),
        actors: Vec::new(),
        exits: Vec::new(),
        cached_image_path: None,
        image_prompt: owned("A swirling void of colors and shapes, representing potential."),
        visited: true,
    };
    proof {
        assert(start@.items =~= Seq::empty());
        assert(start@.actors =~= Seq::empty());
        assert(start@.exits =~= Seq::empty());
    }
    world.locations.push(Place { pos: (0, 0), location: start });
    proof {
        assert(world@.locations =~= first_world().locations);
    }
    world
}

/// Writes the summary of an error text.
pub fn summarize_error(error: &str) -> (r: String)
    ensures
        r@ == error_summary(error@),
{
    let chars = chars_of(error);
    if shorter_than(&chars, ERROR_SUMMARY_BYTES) || chars.len() <= ERROR_SUMMARY_CHARS {
        owned(error)
    } else {
        let head = slice_chars(&chars, 0, ERROR_SUMMARY_CHARS);
        let mut out = from_chars(&head);
        out.append("...");
        out
    }
}

/// Whether the narrative of a response tells that the agent gave up.
pub fn narrative_tells_failure(narrative: &str) -> (r: bool)
    ensures
        r == tells_failure(narrative@),
{
    let chars = chars_of(narrative);
    chars_contain(&chars, &chars_of("Failed after")) || chars_contain(
        &chars,
        &chars_of("Agent stopped"),
    ) || chars_contain(&chars, &chars_of("Timeout"))
}

impl Game {
    /// Everything but the fields that a step names stays as it was.
    pub open spec fn same_session(self, other: Game) -> bool {
        &&& self.current_save_path == other.current_save_path
        &&& self.save_list == other.save_list
        &&& self.selected_save_index == other.selected_save_index
        &&& self.current_options == other.current_options
        &&& self.new_world_name == other.new_world_name
        &&& self.attempts == other.attempts
    }

    /// Whether `after` and `r` are what `command` comes to on the splash
    /// screen of `before`.
    pub open spec fn splash_step(before: Game, command: CommandView, r: GameEffect, after: Game) -> bool {
        &&& after.world == before.world
        &&& after.last_narrative == before.last_narrative
        &&& after.debug_log == before.debug_log
        &&& after.status_message == before.status_message
        &&& after.current_save_path == before.current_save_path
        &&& after.save_list == before.save_list
        &&& after.current_options == before.current_options
        &&& after.attempts == before.attempts
        &&& after.state == (if command is New {
                GameState::NamingWorld
            } else {
                GameState::SplashScreen
            })
        &&& after.new_world_name@ == (if command is New {
                Seq::empty()
            } else {
                before.new_world_name@
            })
        &&& after.selected_save_index == (match command {
                CommandView::Up => if before.selected_save_index > 0 {
                    (before.selected_save_index - 1) as usize
                } else {
                    0
                },
                CommandView::Down => if before.selected_save_index < before.save_list.len() {
                    (before.selected_save_index + 1) as usize
                } else {
                    before.selected_save_index
                },
                _ => before.selected_save_index,
            })
        &&& match r {
                GameEffect::LoadSave { filename } => command is Load && before.selected_save_index < before.save_list.len() && filename@ == before.save_list@[before.selected_save_index as int].filename@,
                GameEffect::DeleteSave { filename } => command is Delete && before.selected_save_index < before.save_list.len() && filename@ == before.save_list@[before.selected_save_index as int].filename@,
                GameEffect::Nothing => !((command is Load || command is Delete) && before.selected_save_index < before.save_list.len()),
                _ => false,
            }
    }

    /// Whether `after` and `r` are what `command` comes to on the naming
    /// screen of `before`.
    pub open spec fn naming_step(before: Game, command: CommandView, r: GameEffect, after: Game) -> bool {
        &&& after.last_narrative == before.last_narrative
        &&& after.debug_log == before.debug_log
        &&& after.status_message == before.status_message
        &&& after.current_save_path == before.current_save_path
        &&& after.save_list == before.save_list
        &&& after.selected_save_index == before.selected_save_index
        &&& after.current_options == before.current_options
        &&& after.attempts == before.attempts
        &&& after.state == (if command is Back {
                GameState::SplashScreen
            } else {
                GameState::NamingWorld
            })
        &&& after.new_world_name@ == (match command {
                CommandView::Back => Seq::empty(),
                CommandView::Backspace => without_last(before.new_world_name@),
                CommandView::TextInput(text) => before.new_world_name@ + text,
                _ => before.new_world_name@,
            })
        &&& match r {
                GameEffect::CreateSave { filename } => {
                    &&& command is Enter
                    &&& trimmed(before.new_world_name@).len() > 0
                    &&& filename@ == crate::save::save_file_name(trimmed(before.new_world_name@))
                    &&& after.world@ == first_world()
                },
                GameEffect::Nothing => {
                    &&& !(command is Enter && trimmed(before.new_world_name@).len() > 0)
                    &&& after.world == before.world
                },
                _ => false,
            }
    }

    /// Whether `after` and `r` are what a quick step in `direction` comes to
    /// for `before`.
    pub open spec fn quick_moved(before: Game, direction: Seq<char>, r: GameEffect, after: Game) -> bool {
        let target = as_pos(step(before.world@.current_pos, direction));
        &&& after.same_session(before)
        &&& after.state == (if r is Generate {
            GameState::Processing
        } else {
            before.state
        })
        &&& match r {
            GameEffect::Persist => {
                &&& before.world@.move_fault(direction) is None
                &&& position(before.world@.locations, target) is Some
                &&& Game::traveled(before, direction, Game::quick_note(direction, target), after)
            },
            GameEffect::Generate { direction: d, request } => {
                &&& before.world@.move_fault(direction) is None
                &&& position(before.world@.locations, target) is None
                &&& d@ == direction
                &&& request.system_prompt@ == GENERATOR_ROLE@
                &&& request.prompt@ == generation_prompt(
                    before.world@.location(before.world@.current_pos)->0,
                    before.world@.current_pos,
                    direction,
                    target,
                )
                &&& after.world == before.world
                &&& after.status_message@ == "Exploring "@ + direction + "..."@
                &&& after.last_narrative == before.last_narrative
                &&& noted(
                    views(before.debug_log@),
                    "Generating location at "@ + shown_pos(target) + " heading "@ + direction,
                    views(after.debug_log@),
                )
            },
            GameEffect::Nothing => {
                &&& before.world@.move_fault(direction) matches Some(e)
                &&& after.status_message@ == (if is_direction(direction) {
                    crate::tools::error_text(e)
                } else {
                    before.status_message@
                })
                &&& after.world == before.world
                &&& after.last_narrative == before.last_narrative
                &&& after.debug_log == before.debug_log
            },
            _ => false,
        }
    }

    /// What the log says of a quick step to a known location.
    pub open spec fn quick_note(direction: Seq<char>, target: crate::model::Pos) -> Seq<char> {
        "Quick move "@ + direction + " to existing location "@ + shown_pos(target)
    }

    /// Whether `after` is `before` after the player went to the known
    /// location in direction `direction`: the step is made and told, and
    /// `note` is noted in the log.
    pub open spec fn traveled(before: Game, direction: Seq<char>, note: Seq<char>, after: Game) -> bool {
        &&& after.world@ == before.world@.move_to(direction, None)
        &&& after.state == before.state
        &&& after.status_message == before.status_message
        &&& after.same_session(before)
        &&& after.last_narrative@ == Game::arrival_narrative("You move "@, direction, after.world@)
        &&& noted(views(before.debug_log@), note, views(after.debug_log@))
    }

    /// What is noted in the log when an action goes to the agent, after
    /// what `lead` holds: the action, where the player stands, and the first
    /// attempt.
    pub open spec fn agent_notes(before: Game, lead: Seq<Seq<char>>, action: Seq<char>) -> Seq<
        Seq<char>,
    > {
        lead.push("Processing action: '"@ + action + "'"@).push(
            "Current player position: "@ + shown_pos(before.world@.current_pos),
        ).push(Game::attempt_status(1))
    }

    /// Whether `after` and `r` are what handing `action` to the agent comes
    /// to for `before`, with the notes of `lead` made first.
    pub open spec fn agent_asked(
        before: Game,
        lead: Seq<Seq<char>>,
        action: Seq<char>,
        r: GameEffect,
        after: Game,
    ) -> bool {
        &&& r matches GameEffect::RunAgent { action: a } && a@ == action
        &&& after.state == GameState::Processing
        &&& after.attempts == 1
        &&& after.status_message@ == Game::attempt_status(1)
        &&& after.world == before.world
        &&& after.last_narrative == before.last_narrative
        &&& after.current_save_path == before.current_save_path
        &&& after.save_list == before.save_list
        &&& after.selected_save_index == before.selected_save_index
        &&& after.current_options == before.current_options
        &&& after.new_world_name == before.new_world_name
        &&& noted_all(
            views(before.debug_log@),
            Game::agent_notes(before, lead, action),
            views(after.debug_log@),
        )
    }

    /// A new game on the splash screen, with the saves that were found.
    pub fn new(save_list: Vec<SaveInfo>) -> (r: Game)
        ensures
            r.world@ == WorldView::initial(),
            r.last_narrative@ == "Welcome to the Infinite Text Adventure."@,
            r.state == GameState::SplashScreen,
            r.current_save_path is None,
            r.save_list == save_list,
            r.selected_save_index == 0,
            views(r.debug_log@) == seq!["Game initialized."@],
            r.current_options@.len() == 0,
            r.status_message@.len() == 0,
            r.new_world_name@.len() == 0,
            r.attempts == 0,
    {
        let mut debug_log: Vec<String> = Vec::new();
        debug_log.push(owned("Game initialized."));
        proof {
            assert(views(debug_log@) =~= seq!["Game initialized."@]);
        }
        Game {
            world: WorldState::new(),
            last_narrative: owned("Welcome to the Infinite Text Adventure."),
            state: GameState::SplashScreen,
            current_save_path: None,
            save_list,
            selected_save_index: 0,
            debug_log,
            current_options: Vec::new(),
            status_message: String::new(),
            new_world_name: String::new(),
            attempts: 0,
        }
    }

    /// Adds a message to the debug log, which keeps the last hundred, with
    /// the stamp `stamp` in front.
    pub fn log_at(&mut self, stamp: &str, message: &str)
        ensures
            views(final(self).debug_log@) == logged_entry(
                views(old(self).debug_log@),
                stamped(stamp@, message@),
            ),
            final(self).world == old(self).world,
            final(self).last_narrative == old(self).last_narrative,
            final(self).state == old(self).state,
            final(self).status_message == old(self).status_message,
            final(self).same_session(*old(self)),
    {
        note_at(&mut self.debug_log, stamp, message);
    }

    /// Adds a message to the debug log, which keeps the last hundred, with
    /// the time of day in front.
    pub fn log(&mut self, message: &str)
        ensures
            noted(views(old(self).debug_log@), message@, views(final(self).debug_log@)),
            final(self).world == old(self).world,
            final(self).last_narrative == old(self).last_narrative,
            final(self).state == old(self).state,
            final(self).status_message == old(self).status_message,
            final(self).same_session(*old(self)),
    {
        note(&mut self.debug_log, message);
    }

    /// What a command does on the splash screen: `New` opens the naming
    /// screen with an empty name; `Up` and `Down` move the selection within
    /// the list, `Down` as far as one past its end; `Load` and `Delete` ask
    /// for the selected save to be read or deleted, where the selection
    /// points at one. Nothing else has any effect.
    pub fn handle_splash_command(&mut self, command: &Command) -> (r: GameEffect)
        requires
            old(self).state == GameState::SplashScreen,
        ensures
            Game::splash_step(*old(self), command@, r, *final(self)),
    {
        match command {
            Command::New => {
                self.new_world_name = String::new();
                self.state = GameState::NamingWorld;
                GameEffect::Nothing
            },
            Command::Load => {
                if self.selected_save_index < self.save_list.len() {
                    GameEffect::LoadSave {
                        filename: self.save_list[self.selected_save_index].filename.clone(),
                    }
                } else {
                    GameEffect::Nothing
                }
            },
            Command::Up => {
                if self.selected_save_index > 0 {
                    self.selected_save_index -= 1;
                }
                GameEffect::Nothing
            },
            Command::Down => {
                if self.selected_save_index < self.save_list.len() {
                    self.selected_save_index += 1;
                }
                GameEffect::Nothing
            },
            Command::Delete => {
                if self.selected_save_index < self.save_list.len() {
                    GameEffect::DeleteSave {
                        filename: self.save_list[self.selected_save_index].filename.clone(),
                    }
                } else {
                    GameEffect::Nothing
                }
            },
            _ => GameEffect::Nothing,
        }
    }

    /// Takes over a save that was read: its world becomes the game's, the
    /// save the current one, and the player is asked for input.
    pub fn save_loaded(&mut self, filename: &str, world: WorldState)
        ensures
            final(self).world == world,
            final(self).current_save_path matches Some(p) && p@ == filename@,
            final(self).state == GameState::WaitingForInput,
            final(self).last_narrative@ == "Loaded world: "@ + filename@
                + ". What do you want to do?"@,
            final(self).debug_log == old(self).debug_log,
            final(self).status_message == old(self).status_message,
            final(self).save_list == old(self).save_list,
            final(self).selected_save_index == old(self).selected_save_index,
            final(self).current_options == old(self).current_options,
            final(self).new_world_name == old(self).new_world_name,
            final(self).attempts == old(self).attempts,
    {
        self.world = world;
        self.current_save_path = Some(owned(filename));
        self.state = GameState::WaitingForInput;
        self.last_narrative = join3("Loaded world: ", filename, ". What do you want to do?");
    }

    /// Takes note that the save `filename` was deleted, or could not be.
    /// After a deletion `remaining` is the new list of saves, and the
    /// selection is pulled back onto it; after a failure, of which `problem`
    /// tells, the list stays. Either way the log says what happened.
    pub fn save_deleted(&mut self, filename: &str, remaining: Option<Vec<SaveInfo>>, problem: &str)
        ensures
            final(self).world == old(self).world,
            final(self).state == old(self).state,
            final(self).last_narrative == old(self).last_narrative,
            final(self).current_save_path == old(self).current_save_path,
            final(self).status_message == old(self).status_message,
            final(self).current_options == old(self).current_options,
            final(self).new_world_name == old(self).new_world_name,
            final(self).attempts == old(self).attempts,
            match remaining {
                Some(list) => {
                    &&& final(self).save_list == list
                    &&& final(self).selected_save_index == (if old(self).selected_save_index
                        >= list.len() && list.len() > 0 {
                        (list.len() - 1) as usize
                    } else if old(self).selected_save_index >= list.len() {
                        0
                    } else {
                        old(self).selected_save_index
                    })
                    &&& noted(
                        views(old(self).debug_log@),
                        "Deleted save: "@ + filename@,
                        views(final(self).debug_log@),
                    )
                },
                None => {
                    &&& final(self).save_list == old(self).save_list
                    &&& final(self).selected_save_index == old(self).selected_save_index
                    &&& noted(
                        views(old(self).debug_log@),
                        "Failed to delete save: "@ + problem@,
                        views(final(self).debug_log@),
                    )
                },
            },
    {
        match remaining {
            Some(list) => {
                let note = join2("Deleted save: ", filename);
                self.log(note.as_str());
                self.save_list = list;
                if self.selected_save_index >= self.save_list.len() {
                    if self.save_list.len() > 0 {
                        self.selected_save_index = self.save_list.len() - 1;
                    } else {
                        self.selected_save_index = 0;
                    }
                }
            },
            None => {
                let note = join2("Failed to delete save: ", problem);
                self.log(note.as_str());
            },
        }
    }

    /// What a command does on the naming screen: text is added to the name,
    /// `Backspace` takes its last character, `Back` returns to the splash
    /// screen with the name cleared, and `Enter`, where the name is more than
    /// white space, begins a new world and asks for it to be saved under the
    /// name.
    pub fn handle_naming_command(&mut self, command: &Command) -> (r: GameEffect)
        requires
            old(self).state == GameState::NamingWorld,
        ensures
            Game::naming_step(*old(self), command@, r, *final(self)),
    {
        match command {
            Command::Enter => {
                let chars = chars_of(self.new_world_name.as_str());
                let name = trim_chars(&chars);
                if name.len() > 0 {
                    self.world = make_first_world();
                    let save_name = from_chars(&name);
                    let manager = crate::save::SaveManager::new();
                    GameEffect::CreateSave { filename: manager.create_new_save(save_name.as_str()) }
                } else {
                    GameEffect::Nothing
                }
            },
            Command::Back => {
                self.state = GameState::SplashScreen;
                self.new_world_name = String::new();
                GameEffect::Nothing
            },
            Command::Backspace => {
                let chars = chars_of(self.new_world_name.as_str());
                if chars.len() > 0 {
                    let kept = slice_chars(&chars, 0, chars.len() - 1);
                    self.new_world_name = from_chars(&kept);
                    proof {
                        assert(chars@.subrange(0, chars@.len() - 1) =~= chars@.drop_last());
                    }
                }
                GameEffect::Nothing
            },
            Command::TextInput(text) => {
                self.new_world_name.append(text.as_str());
                GameEffect::Nothing
            },
            _ => GameEffect::Nothing,
        }
    }

    /// Takes note that the new world was saved as `filename`: the save
    /// becomes the current one, and the player is asked for input.
    pub fn save_created(&mut self, filename: String)
        ensures
            final(self).world == old(self).world,
            final(self).current_save_path == Some(filename),
            final(self).state == GameState::WaitingForInput,
            final(self).last_narrative@ == "Created new world: '"@ + trimmed(
                old(self).new_world_name@,
            ) + "'. What do you want to do?"@,
            noted(
                views(old(self).debug_log@),
                "Created new world: "@ + trimmed(old(self).new_world_name@),
                views(final(self).debug_log@),
            ),
            final(self).save_list == old(self).save_list,
            final(self).selected_save_index == old(self).selected_save_index,
            final(self).current_options == old(self).current_options,
            final(self).new_world_name == old(self).new_world_name,
            final(self).status_message == old(self).status_message,
            final(self).attempts == old(self).attempts,
    {
        let chars = chars_of(self.new_world_name.as_str());
        let name = from_chars(&trim_chars(&chars));
        self.current_save_path = Some(filename);
        self.state = GameState::WaitingForInput;
        self.last_narrative = join3("Created new world: '", name.as_str(), "'. What do you want to do?");
        let note = join2("Created new world: ", name.as_str());
        self.log(note.as_str());
    }

    /// What is told of an arrival: how the player got there, the name of the
    /// place and its description.
    pub open spec fn arrival_narrative(lead: Seq<char>, d: Seq<char>, w: WorldView) -> Seq<char> {
        let loc = w.location(w.current_pos)->0;
        lead + d + " to "@ + loc.name + ".\n"@ + loc.description
    }

    /// What is told of an arrival at the fallback location.
    pub open spec fn unknown_narrative(d: Seq<char>, w: WorldView) -> Seq<char> {
        "You travel "@ + d + " into the unknown.\n"@ + w.location(w.current_pos)->0.description
    }

    /// The location at which the player stands, once a step was made.
    fn arrived_at(&self) -> (r: Option<usize>)
        ensures
            match r {
                Some(i) => position(self.world@.locations, self.world@.current_pos) == Some(
                    i as int,
                ) && i < self.world.locations.len(),
                None => position(self.world@.locations, self.world@.current_pos) is None,
            },
    {
        self.world.find_location(self.world.current_pos)
    }

    /// Goes to the known location in direction `direction`, tells of it, and
    /// notes `note` in the log.
    fn travel(&mut self, direction: &str, note: &str)
        requires
            old(self).world@.move_fault(direction@) is None,
            position(
                old(self).world@.locations,
                as_pos(step(old(self).world@.current_pos, direction@)),
            ) is Some,
        ensures
            Game::traveled(*old(self), direction@, note@, *final(self)),
    {
        let moved = self.world.move_to(direction, None);
        match self.arrived_at() {
            Some(i) => {
                let loc = &self.world.locations[i].location;
                let mut told = join3("You move ", direction, " to ");
                told.append(loc.name.as_str());
                told.append(".\n");
                told.append(loc.description.as_str());
                self.last_narrative = told;
            },
            None => {
                proof {
                    crate::laws::lemma_arrival(old(self).world@, direction@, None);
                }
            },
        }
        self.log(note);
    }

    /// A quick step in direction `direction`. Into a known location the
    /// player moves at once, which is told, noted and persisted. For an
    /// unexplored coordinate a location is asked of the generation service,
    /// and the game is busy until `location_answered`. What names no
    /// direction changes nothing; a step that cannot be made changes nothing
    /// but the status line, which tells why.
    pub fn handle_quick_movement(&mut self, direction: &str) -> (r: GameEffect)
        ensures
            Game::quick_moved(*old(self), direction@, r, *final(self)),
    {
        match self.world.plan_move(direction) {
            Err(e) => {
                match e {
                    ToolError::InvalidEnumValue(_, _) => {},
                    _ => {
                        self.status_message = e.to_string();
                    },
                }
                GameEffect::Nothing
            },
            Ok(MovePlan::Explore { target, request }) => {
                proof {
                    lemma_position(self.world@.locations, self.world@.current_pos);
                }
                let place = write_pos(target);
                let mut note = join3("Generating location at ", place.as_str(), " heading ");
                note.append(direction);
                self.log(note.as_str());
                self.state = GameState::Processing;
                self.status_message = join3("Exploring ", direction, "...");
                GameEffect::Generate { direction: owned(direction), request }
            },
            Ok(MovePlan::Travel { target }) => {
                let place = write_pos(target);
                let mut note = join3("Quick move ", direction, " to existing location ");
                note.append(place.as_str());
                self.travel(direction, note.as_str());
                GameEffect::Persist
            },
        }
    }

    /// A step in direction `direction` by arrow key: made, told, noted and
    /// persisted where the way leads to a known location; where it does not,
    /// the player is told so, and nothing else changes.
    pub fn arrow_move(&mut self, direction: &str) -> (r: GameEffect)
        ensures
            if old(self).world@.move_fault(direction@) is None && position(
                old(self).world@.locations,
                as_pos(step(old(self).world@.current_pos, direction@)),
            ) is Some {
                r is Persist && Game::traveled(
                    *old(self),
                    direction@,
                    "Quick move "@ + direction@,
                    *final(self),
                )
            } else {
                &&& r is Nothing
                &&& final(self).world == old(self).world
                &&& final(self).state == old(self).state
                &&& final(self).status_message == old(self).status_message
                &&& final(self).same_session(*old(self))
                &&& final(self).last_narrative@ == "The path "@ + direction@
                    + " leads to unexplored territory. Type your action to explore."@
                &&& noted(
                    views(old(self).debug_log@),
                    "Cannot move "@ + direction@ + " - area unexplored"@,
                    views(final(self).debug_log@),
                )
            },
    {
        if self.world.plan_is_travel(direction) {
            let note = join2("Quick move ", direction);
            self.travel(direction, note.as_str());
            GameEffect::Persist
        } else {
            let note = join3("Cannot move ", direction, " - area unexplored");
            self.log(note.as_str());
            self.last_narrative = join3(
                "The path ",
                direction,
                " leads to unexplored territory. Type your action to explore.",
            );
            GameEffect::Nothing
        }
    }

    /// What is noted in the log when a request for a location was answered:
    /// that the location was made, or why it was not and that the fallback
    /// stands in.
    pub open spec fn answer_notes(
        w: WorldView,
        d: Seq<char>,
        answer: Result<Seq<char>, Seq<char>>,
    ) -> Seq<Seq<char>> {
        let place = shown_pos(target_of(w.current_pos, d));
        match generation_fault(answer) {
            None => seq!["Created and moved to "@ + place],
            Some(why) => seq![
                "Failed to generate location: "@ + why,
                "Used fallback location at "@ + place,
            ],
        }
    }

    /// Whether `after` and `r` are what the answer to a request for a location
    /// comes to for `before`: the step is made, into the location read from
    /// the answer or into the fallback location, which is told, noted and
    /// to be persisted, and the player is asked for input again.
    pub open spec fn answered(
        before: Game,
        direction: Seq<char>,
        answer: Result<Seq<char>, Seq<char>>,
        r: GameEffect,
        after: Game,
    ) -> bool {
        &&& r is Persist
        &&& after.same_session(before)
        &&& after.state == GameState::WaitingForInput
        &&& after.status_message@.len() == 0
        &&& noted_all(
            views(before.debug_log@),
            Game::answer_notes(before.world@, direction, answer),
            views(after.debug_log@),
        )
        &&& after.world@ == before.world@.move_to(direction, generated_from(answer))
        &&& after.last_narrative@ == (if generated_from(answer) is Some || position(
            before.world@.locations,
            as_pos(step(before.world@.current_pos, direction)),
        ) is Some {
            Game::arrival_narrative("You travel "@, direction, after.world@)
        } else {
            Game::unknown_narrative(direction, after.world@)
        })
    }

    /// Takes the answer to a request for a location: the text that the
    /// generation service sent, or what is told of its failure. The step in
    /// direction `direction` is made, into the location read from the answer
    /// or into the fallback location, which is told, noted and persisted, and
    /// the player is asked for input again.
    pub fn location_answered(&mut self, direction: &str, answer: Result<&str, &str>) -> (r:
        GameEffect)
        requires
            old(self).world@.move_fault(direction@) is None,
        ensures
            Game::answered(*old(self), direction@, answer_view(answer), r, *final(self)),
    {
        let ghost log0 = views(self.debug_log@);
        let known = self.world.plan_is_travel(direction);
        let place = write_pos(target_from(self.world.current_pos, direction));
        let generated = match read_generated(answer) {
            Ok(loc) => {
                let made = join2("Created and moved to ", place.as_str());
                self.log(made.as_str());
                proof {
                    lemma_noted_more(log0, Seq::empty(), log0, made@, views(self.debug_log@));
                    assert(Seq::<Seq<char>>::empty().push(made@) =~= seq![made@]);
                }
                Some(loc)
            },
            Err(why) => {
                let failed = join2("Failed to generate location: ", why.as_str());
                self.log(failed.as_str());
                let ghost log1 = views(self.debug_log@);
                let used = join2("Used fallback location at ", place.as_str());
                self.log(used.as_str());
                proof {
                    lemma_noted_more(log0, Seq::empty(), log0, failed@, log1);
                    lemma_noted_more(
                        log0,
                        Seq::empty().push(failed@),
                        log1,
                        used@,
                        views(self.debug_log@),
                    );
                    assert(Seq::<Seq<char>>::empty().push(failed@).push(used@) =~= seq![
                        failed@,
                        used@,
                    ]);
                }
                None
            },
        };
        let fresh = generated.is_some() || known;
        let moved = self.world.move_to(direction, generated);
        match self.arrived_at() {
            Some(i) => {
                let loc = &self.world.locations[i].location;
                if fresh {
                    let mut told = join3("You travel ", direction, " to ");
                    told.append(loc.name.as_str());
                    told.append(".\n");
                    told.append(loc.description.as_str());
                    self.last_narrative = told;
                } else {
                    let mut told = join3("You travel ", direction, " into the unknown.\n");
                    told.append(loc.description.as_str());
                    self.last_narrative = told;
                }
            },
            None => {
                proof {
                    crate::laws::lemma_arrival(
                        old(self).world@,
                        direction@,
                        opt_location_view(generated),
                    );
                }
            },
        }
        self.state = GameState::WaitingForInput;
        self.status_message = String::new();
        GameEffect::Persist
    }

    /// The status line while the agent is at its attempt number `attempt`.
    pub open spec fn attempt_status(attempt: u32) -> Seq<char> {
        "Attempt "@ + decimal(attempt as int) + "/"@ + decimal(MAX_ATTEMPTS as int)
            + " - Processing..."@
    }

    fn write_attempt_status(attempt: u32) -> (r: String)
        ensures
            r@ == Game::attempt_status(attempt),
    {
        let n = decimal_string(attempt as i128);
        let m = decimal_string(MAX_ATTEMPTS as i128);
        let mut out = join3("Attempt ", n.as_str(), "/");
        out.append(m.as_str());
        out.append(" - Processing...");
        out
    }

    /// Hands an action to the agent, the notes of `lead` being in the log
    /// already.
    fn ask_agent(
        &mut self,
        action: &str,
        Ghost(before): Ghost<Game>,
        Ghost(lead): Ghost<Seq<Seq<char>>>,
    ) -> (r: GameEffect)
        requires
            noted_all(views(before.debug_log@), lead, views(old(self).debug_log@)),
            old(self).world == before.world,
            old(self).last_narrative == before.last_narrative,
            old(self).same_session(before),
        ensures
            Game::agent_asked(before, lead, action@, r, *final(self)),
    {
        let ghost log0 = views(before.debug_log@);
        let ghost log1 = views(self.debug_log@);
        self.state = GameState::Processing;
        let first = join3("Processing action: '", action, "'");
        self.log(first.as_str());
        let ghost log2 = views(self.debug_log@);
        let place = write_pos(self.world.current_pos);
        let second = join2("Current player position: ", place.as_str());
        self.log(second.as_str());
        let ghost log3 = views(self.debug_log@);
        self.attempts = 1;
        self.status_message = Game::write_attempt_status(1);
        let status = self.status_message.clone();
        self.log(status.as_str());
        proof {
            lemma_noted_more(log0, lead, log1, first@, log2);
            lemma_noted_more(log0, lead.push(first@), log2, second@, log3);
            lemma_noted_more(
                log0,
                lead.push(first@).push(second@),
                log3,
                status@,
                views(self.debug_log@),
            );
        }
        GameEffect::RunAgent { action: owned(action) }
    }

    /// Hands an action of the player to the agent: the game is busy, the
    /// first attempt is counted and shown, all of which is noted, and the
    /// agent is to be run.
    pub fn handle_agent_action(&mut self, action: &str) -> (r: GameEffect)
        ensures
            Game::agent_asked(*old(self), Seq::empty(), action@, r, *final(self)),
    {
        let ghost before = *self;
        let ghost lead = Seq::<Seq<char>>::empty();
        self.ask_agent(action, Ghost(before), Ghost(lead))
    }

    /// Takes the response of the agent and the world it worked on. The world
    /// is taken over and persisted, unless the narrative tells that the agent
    /// gave up; the narrative and the suggestions are shown either way, and
    /// the player is asked for input again.
    pub fn agent_finished(&mut self, response: AgentResponse, world: WorldState) -> (r: GameEffect)
        ensures
            final(self).state == GameState::WaitingForInput,
            final(self).status_message@.len() == 0,
            final(self).last_narrative == response.narrative,
            final(self).current_options == response.suggested_actions,
            final(self).debug_log == old(self).debug_log,
            final(self).current_save_path == old(self).current_save_path,
            final(self).save_list == old(self).save_list,
            final(self).selected_save_index == old(self).selected_save_index,
            final(self).new_world_name == old(self).new_world_name,
            final(self).attempts == old(self).attempts,
            if tells_failure(response.narrative@) {
                r is Nothing && final(self).world == old(self).world
            } else {
                r is Persist && final(self).world == world
            },
    {
        let gave_up = narrative_tells_failure(response.narrative.as_str());
        if !gave_up {
            self.world = world;
        }
        self.last_narrative = response.narrative;
        self.current_options = response.suggested_actions;
        self.state = GameState::WaitingForInput;
        self.status_message = String::new();
        if gave_up {
            GameEffect::Nothing
        } else {
            GameEffect::Persist
        }
    }

    /// What the log says of a failure of the agent at its attempt number
    /// `attempt`.
    pub open spec fn failure_note(attempt: u32, error: Seq<char>) -> Seq<char> {
        "Agent Error (Attempt "@ + decimal(attempt as int) + "): "@ + error_summary(error)
    }

    /// What is told when the agent has failed for the last time.
    pub open spec fn failure_narrative(error: Seq<char>) -> Seq<char> {
        "The spirits are confused. (Failed after "@ + decimal(MAX_ATTEMPTS as int)
            + " attempts)\nError: "@ + error_summary(error)
    }

    /// Takes note that the agent failed on `action`, with the error text
    /// `error`. Up to the last attempt the agent is to be tried again after
    /// a pause; after the last the failure is told, the world being as it
    /// was, and the player is asked for input again.
    pub fn agent_failed(&mut self, action: &str, error: &str) -> (r: GameEffect)
        ensures
            final(self).world == old(self).world,
            final(self).current_save_path == old(self).current_save_path,
            final(self).save_list == old(self).save_list,
            final(self).selected_save_index == old(self).selected_save_index,
            final(self).current_options == old(self).current_options,
            final(self).new_world_name == old(self).new_world_name,
            noted_all(
                views(old(self).debug_log@),
                if old(self).attempts >= MAX_ATTEMPTS {
                    seq![Game::failure_note(old(self).attempts, error@)]
                } else {
                    seq![
                        Game::failure_note(old(self).attempts, error@),
                        Game::attempt_status((old(self).attempts + 1) as u32),
                    ]
                },
                views(final(self).debug_log@),
            ),
            if old(self).attempts >= MAX_ATTEMPTS {
                &&& r is Nothing
                &&& final(self).state == GameState::WaitingForInput
                &&& final(self).status_message@ == "Failed."@
                &&& final(self).last_narrative@ == Game::failure_narrative(error@)
                &&& final(self).attempts == old(self).attempts
            } else {
                &&& r matches GameEffect::RetryAgent { action: a, delay_ms } && a@ == action@
                    && delay_ms == RETRY_DELAY_MS
                &&& final(self).state == GameState::Processing
                &&& final(self).attempts == old(self).attempts + 1
                &&& final(self).status_message@ == Game::attempt_status(
                    (old(self).attempts + 1) as u32,
                )
                &&& final(self).last_narrative == old(self).last_narrative
            },
    {
        let ghost log0 = views(self.debug_log@);
        let summary = summarize_error(error);
        let n = decimal_string(self.attempts as i128);
        let mut note = join3("Agent Error (Attempt ", n.as_str(), "): ");
        note.append(summary.as_str());
        self.log(note.as_str());
        let ghost log1 = views(self.debug_log@);
        proof {
            lemma_noted_more(log0, Seq::empty(), log0, note@, log1);
            assert(Seq::<Seq<char>>::empty().push(note@) =~= seq![note@]);
        }
        if self.attempts >= MAX_ATTEMPTS {
            let n = decimal_string(MAX_ATTEMPTS as i128);
            let mut told = join3("The spirits are confused. (Failed after ", n.as_str(), " attempts)\nError: ");
            told.append(summary.as_str());
            self.last_narrative = told;
            self.status_message = owned("Failed.");
            self.state = GameState::WaitingForInput;
            GameEffect::Nothing
        } else {
            self.state = GameState::Processing;
            self.attempts = self.attempts + 1;
            self.status_message = Game::write_attempt_status(self.attempts);
            let status = self.status_message.clone();
            self.log(status.as_str());
            proof {
                lemma_noted_more(log0, seq![note@], log1, status@, views(self.debug_log@));
                assert(seq![note@].push(status@) =~= seq![note@, status@]);
            }
            GameEffect::RetryAgent { action: owned(action), delay_ms: RETRY_DELAY_MS }
        }
    }

    /// Whether `after` and `r` are what `command` comes to while the player
    /// of `before` is asked for input: the four movements are quick steps; a
    /// number selects one of the suggested actions, counted from 1, and text
    /// is an action of its own, both of which go to the agent; nothing else
    /// has any effect.
    pub open spec fn game_step(before: Game, command: CommandView, r: GameEffect, after: Game) -> bool {
        match command {
            CommandView::MoveNorth => Game::quick_moved(before, "north"@, r, after),
            CommandView::MoveSouth => Game::quick_moved(before, "south"@, r, after),
            CommandView::MoveEast => Game::quick_moved(before, "east"@, r, after),
            CommandView::MoveWest => Game::quick_moved(before, "west"@, r, after),
            CommandView::SelectOption(n) => if 0 < n <= before.current_options.len() {
                Game::agent_asked(
                    before,
                    seq![
                        "User selected option "@ + decimal(n as int) + ": "@
                            + before.current_options@[n - 1]@,
                    ],
                    before.current_options@[n - 1]@,
                    r,
                    after,
                )
            } else {
                r is Nothing && after == before
            },
            CommandView::TextInput(text) => Game::agent_asked(before, Seq::empty(), text, r, after),
            _ => r is Nothing && after == before,
        }
    }

    /// Whether `after` and `r` are what `command` comes to for `before`, by
    /// the screen it is on. While the game is busy no command has any effect.
    pub open spec fn command_step(before: Game, command: CommandView, r: GameEffect, after: Game) -> bool {
        match before.state {
            GameState::SplashScreen => Game::splash_step(before, command, r, after),
            GameState::NamingWorld => Game::naming_step(before, command, r, after),
            GameState::WaitingForInput => Game::game_step(before, command, r, after),
            _ => r is Nothing && after == before,
        }
    }

    /// What a command does while the player is asked for input.
    pub fn handle_game_command(&mut self, command: &Command) -> (r: GameEffect)
        requires
            old(self).state == GameState::WaitingForInput,
        ensures
            Game::game_step(*old(self), command@, r, *final(self)),
    {
        match command {
            Command::MoveNorth => self.handle_quick_movement("north"),
            Command::MoveSouth => self.handle_quick_movement("south"),
            Command::MoveEast => self.handle_quick_movement("east"),
            Command::MoveWest => self.handle_quick_movement("west"),
            Command::SelectOption(n) => {
                if *n > 0 && *n <= self.current_options.len() {
                    let ghost before = *self;
                    let action = self.current_options[*n - 1].clone();
                    let number = decimal_count(*n);
                    let mut note = join3("User selected option ", number.as_str(), ": ");
                    note.append(action.as_str());
                    self.log(note.as_str());
                    proof {
                        lemma_noted_more(
                            views(before.debug_log@),
                            Seq::empty(),
                            views(before.debug_log@),
                            note@,
                            views(self.debug_log@),
                        );
                        assert(Seq::<Seq<char>>::empty().push(note@) =~= seq![note@]);
                    }
                    let ghost lead = seq![note@];
                    self.ask_agent(action.as_str(), Ghost(before), Ghost(lead))
                } else {
                    GameEffect::Nothing
                }
            },
            Command::TextInput(text) => self.handle_agent_action(text.as_str()),
            _ => GameEffect::Nothing,
        }
    }

    /// What a command does, by the screen the game is on.
    pub fn process_command(&mut self, command: &Command) -> (r: GameEffect)
        ensures
            Game::command_step(*old(self), command@, r, *final(self)),
    {
        match self.state {
            GameState::SplashScreen => self.handle_splash_command(command),
            GameState::NamingWorld => self.handle_naming_command(command),
            GameState::WaitingForInput => self.handle_game_command(command),
            _ => GameEffect::Nothing,
        }
    }

    /// What the player's input does: it is read as a command, without the
    /// white space around it and in lower case, and processed.
    pub fn process_input(&mut self, input: &str) -> (r: GameEffect)
        ensures
            Game::command_step(
                *old(self),
                crate::commands::command_of(crate::text::lowercased(trimmed(input@))),
                r,
                *final(self),
            ),
    {
        let command = Command::from_str(input);
        self.process_command(&command)
    }
}

} // verus!
