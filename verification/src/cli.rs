//! The line-mode console: what a line of input means on each screen.
use crate::agent::{format_item_state, item_state_text};
use crate::context::{shown_option, write_option};
use crate::game::{Game, GameState};
use crate::model::{item_type_name, Exit, ExitView, ItemView, WorldState, WorldView};
use crate::text::{
    chars_of, decimal, decimal_string, from_chars, join2, join3, owned, parse_usize_chars,
    parsed_usize, same_text, trim_chars, trimmed, views,
};
use vstd::prelude::*;

verus! {

/// The line-mode console.
#[derive(Debug, Clone, Copy)]
pub struct Cli;

/// What the console does with a line.
#[derive(Debug)]
pub enum CliStep {
    /// The line is empty: ask again.
    Ignore,
    /// Leave the console.
    Exit,
    /// Hand this text to the game as the player's input.
    Input(String),
    /// Select the save with this index, then hand `load` to the game.
    SelectSave(usize),
    /// Take this text as the name of the new world.
    SetName(String),
    /// Tell what can be typed on the splash screen.
    ShowHelp,
    /// Tell that the game is busy.
    Busy,
}

pub enum CliStepView {
    Ignore,
    Exit,
    Input(Seq<char>),
    SelectSave(usize),
    SetName(Seq<char>),
    ShowHelp,
    Busy,
}

impl View for CliStep {
    type V = CliStepView;

    open spec fn view(&self) -> CliStepView {
        match *self {
            CliStep::Ignore => CliStepView::Ignore,
            CliStep::Exit => CliStepView::Exit,
            CliStep::Input(t) => CliStepView::Input(t@),
            CliStep::SelectSave(i) => CliStepView::SelectSave(i),
            CliStep::SetName(t) => CliStepView::SetName(t@),
            CliStep::ShowHelp => CliStepView::ShowHelp,
            CliStep::Busy => CliStepView::Busy,
        }
    }
}

/// What a line, taken without the white space around it, means on the splash
/// screen: the two commands, by their names or initials; the number of a
/// listed save; or nothing, and help is due.
pub open spec fn splash_step(line: Seq<char>, saves: nat) -> CliStepView {
    if line == "new"@ || line == "n"@ {
        CliStepView::Input("new"@)
    } else if line == "load"@ || line == "l"@ {
        CliStepView::Input("load"@)
    } else {
        match parsed_usize(line) {
            Some(i) => if i < saves {
                CliStepView::SelectSave(i)
            } else {
                CliStepView::Ignore
            },
            None => CliStepView::ShowHelp,
        }
    }
}

/// What a line means on the naming screen: to confirm, to go back, or the
/// name itself.
pub open spec fn naming_step(line: Seq<char>) -> CliStepView {
    if line == "enter"@ || line == "done"@ {
        CliStepView::Input("enter"@)
    } else if line == "back"@ || line == "cancel"@ {
        CliStepView::Input("back"@)
    } else {
        CliStepView::SetName(line)
    }
}

/// What a line means while the player is asked for input: a quick step, a
/// suggested action by its number, counted from 1, or the line as it is.
pub open spec fn playing_step(line: Seq<char>, options: Seq<Seq<char>>) -> CliStepView {
    if line == "/north"@ {
        CliStepView::Input("go north"@)
    } else if line == "/south"@ {
        CliStepView::Input("go south"@)
    } else if line == "/east"@ {
        CliStepView::Input("go east"@)
    } else if line == "/west"@ {
        CliStepView::Input("go west"@)
    } else {
        match parsed_usize(line) {
            Some(i) => if 0 < i <= options.len() {
                CliStepView::Input(options[i - 1])
            } else {
                CliStepView::Input(line)
            },
            None => CliStepView::Input(line),
        }
    }
}

/// What a line of input means, by the screen the game is on.
pub open spec fn cli_step(
    state: GameState,
    saves: nat,
    options: Seq<Seq<char>>,
    input: Seq<char>,
) -> CliStepView {
    let line = trimmed(input);
    if line.len() == 0 {
        CliStepView::Ignore
    } else if line == "/exit"@ {
        CliStepView::Exit
    } else {
        match state {
            GameState::SplashScreen => splash_step(line, saves),
            GameState::NamingWorld => naming_step(line),
            GameState::WaitingForInput => playing_step(line, options),
            _ => CliStepView::Busy,
        }
    }
}

impl Cli {
    pub fn new() -> Cli {
        Cli
    }

    /// What a line of input means for the game as it stands.
    pub fn interpret(&self, game: &Game, input: &str) -> (r: CliStep)
        ensures
            r@ == cli_step(
                game.state,
                game.save_list@.len(),
                views(game.current_options@),
                input@,
            ),
    {
        let chars = trim_chars(&chars_of(input));
        if chars.len() == 0 {
            return CliStep::Ignore;
        }
        let text = from_chars(&chars);
        let line = text.as_str();
        if same_text(line, "/exit") {
            return CliStep::Exit;
        }
        match game.state {
            GameState::SplashScreen => {
                if same_text(line, "new") || same_text(line, "n") {
                    CliStep::Input(owned("new"))
                } else if same_text(line, "load") || same_text(line, "l") {
                    CliStep::Input(owned("load"))
                } else {
                    match parse_usize_chars(&chars) {
                        Some(i) => if i < game.save_list.len() {
                            CliStep::SelectSave(i)
                        } else {
                            CliStep::Ignore
                        },
                        None => CliStep::ShowHelp,
                    }
                }
            },
            GameState::NamingWorld => {
                if same_text(line, "enter") || same_text(line, "done") {
                    CliStep::Input(owned("enter"))
                } else if same_text(line, "back") || same_text(line, "cancel") {
                    CliStep::Input(owned("back"))
                } else {
                    CliStep::SetName(text)
                }
            },
            GameState::WaitingForInput => {
                if same_text(line, "/north") {
                    CliStep::Input(owned("go north"))
                } else if same_text(line, "/south") {
                    CliStep::Input(owned("go south"))
                } else if same_text(line, "/east") {
                    CliStep::Input(owned("go east"))
                } else if same_text(line, "/west") {
                    CliStep::Input(owned("go west"))
                } else {
                    match parse_usize_chars(&chars) {
                        Some(i) => if 0 < i && i <= game.current_options.len() {
                            CliStep::Input(game.current_options[i - 1].clone())
                        } else {
                            CliStep::Input(text)
                        },
                        None => CliStep::Input(text),
                    }
                }
            },
            _ => CliStep::Busy,
        }
    }
}

// ---------------------------------------------------------------------------
// The report of the state
// ---------------------------------------------------------------------------
/// The name of a screen.
pub open spec fn state_name(state: GameState) -> Seq<char> {
    match state {
        GameState::SplashScreen => "SplashScreen"@,
        GameState::NamingWorld => "NamingWorld"@,
        GameState::WaitingForInput => "WaitingForInput"@,
        GameState::Processing => "Processing"@,
        GameState::UpdatingWorld => "UpdatingWorld"@,
        GameState::Rendering => "Rendering"@,
    }
}

/// The line that reports an item.
pub open spec fn item_line(item: ItemView) -> Seq<char> {
    "  - "@ + item.name + " ("@ + item_type_name(item.item_type) + ") ["@ + item_state_text(
        item.state,
    ) + "]"@
}

/// The lines that report the registered items among `ids`.
pub open spec fn item_lines(w: WorldView, ids: Seq<Seq<char>>) -> Seq<Seq<char>>
    decreases ids.len(),
{
    if ids.len() == 0 {
        Seq::empty()
    } else {
        let before = item_lines(w, ids.drop_last());
        match w.item(ids.last()) {
            Some(item) => before.push(item_line(item)),
            None => before,
        }
    }
}

/// The lines that report the known actors among `ids`.
pub open spec fn actor_lines(w: WorldView, ids: Seq<Seq<char>>) -> Seq<Seq<char>>
    decreases ids.len(),
{
    if ids.len() == 0 {
        Seq::empty()
    } else {
        let before = actor_lines(w, ids.drop_last());
        match w.actor(ids.last()) {
            Some(actor) => before.push("  - "@ + actor.name),
            None => before,
        }
    }
}

/// The line that reports an exit.
pub open spec fn exit_line(w: WorldView, e: ExitView) -> Seq<char> {
    match e.target {
        Some(t) => "  - "@ + e.direction + ": ("@ + decimal(t.0 as int) + ", "@ + decimal(
            t.1 as int,
        ) + ") - "@ + (match w.location(t) {
            Some(loc) => loc.name,
            None => "Unknown"@,
        }),
        None => "  - "@ + e.direction + ": blocked"@,
    }
}

/// The lines that report exits.
pub open spec fn exit_lines(w: WorldView, exits: Seq<ExitView>) -> Seq<Seq<char>> {
    Seq::new(exits.len(), |i: int| exit_line(w, exits[i]))
}

/// The lines that report the suggested actions, numbered from 1.
pub open spec fn option_lines(options: Seq<Seq<char>>) -> Seq<Seq<char>> {
    Seq::new(options.len(), |i: int| "  "@ + decimal(i + 1) + ". "@ + options[i])
}

/// The lines that report the last entries of the log, at most `count`, the
/// newest first.
pub open spec fn log_lines(log: Seq<Seq<char>>, count: nat) -> Seq<Seq<char>> {
    Seq::new(
        if log.len() < count {
            log.len()
        } else {
            count
        },
        |i: int| "  "@ + log[log.len() - 1 - i],
    )
}

/// A section of the report: its heading and its lines, or nothing where it
/// has no lines.
pub open spec fn section(heading: Seq<char>, lines: Seq<Seq<char>>) -> Seq<Seq<char>> {
    if lines.len() == 0 {
        Seq::empty()
    } else {
        seq![heading] + lines
    }
}

/// The part of the report that tells of the place where the player stands:
/// nothing where the player stands nowhere.
pub open spec fn place_report(w: WorldView) -> Seq<Seq<char>> {
    match w.location(w.current_pos) {
        None => Seq::empty(),
        Some(loc) => seq![
            "\n--- Location ---"@,
            "Name: "@ + loc.name,
            "Position: ("@ + decimal(w.current_pos.0 as int) + ", "@ + decimal(
                w.current_pos.1 as int,
            ) + ")"@,
            "Description: "@ + loc.description,
            "Visited: "@ + (if loc.visited {
                "true"@
            } else {
                "false"@
            }),
        ] + (if loc.items.len() > 0 {
            seq!["\n--- Items Here ---"@] + item_lines(w, loc.items)
        } else {
            Seq::empty()
        }) + (if loc.actors.len() > 0 {
            seq!["\n--- Actors Here ---"@] + actor_lines(w, loc.actors)
        } else {
            Seq::empty()
        }) + section("\n--- Exits ---"@, exit_lines(w, loc.exits)),
    }
}

/// The report of the state of the game, line by line: the place, what the
/// player carries and owns, the narrative, the suggestions, the end of the
/// log, and the screen.
pub open spec fn state_report(
    w: WorldView,
    narrative: Seq<char>,
    options: Seq<Seq<char>>,
    log: Seq<Seq<char>>,
    state: GameState,
    save_path: Option<Seq<char>>,
) -> Seq<Seq<char>> {
    seq![
        "\n========================================"@,
        "WORLD STATE"@,
        "========================================"@,
    ] + place_report(w) + (if w.player.inventory.len() > 0 {
        seq!["\n--- Player Inventory ---"@] + item_lines(w, w.player.inventory)
    } else {
        Seq::empty()
    }) + seq![
        "\n--- Player Stats ---"@,
        "Money: "@ + decimal(w.player.money as int),
        "\n--- Narrative ---"@,
        narrative,
    ] + section("\n--- Suggested Actions ---"@, option_lines(options)) + seq![
        "\n--- Debug Log (Last 5) ---"@,
    ] + log_lines(log, 5) + seq![
        "\n--- Game State ---"@,
        "State: "@ + state_name(state),
        "Save Path: "@ + shown_option(save_path),
    ]
}

/// The name of a screen.
pub fn state_label(state: GameState) -> (r: &'static str)
    ensures
        r@ == state_name(state),
{
    match state {
        GameState::SplashScreen => "SplashScreen",
        GameState::NamingWorld => "NamingWorld",
        GameState::WaitingForInput => "WaitingForInput",
        GameState::Processing => "Processing",
        GameState::UpdatingWorld => "UpdatingWorld",
        GameState::Rendering => "Rendering",
    }
}

/// Appends the lines of `more` to `lines`.
fn add_lines(lines: &mut Vec<String>, more: Vec<String>)
    ensures
        views(final(lines)@) == views(old(lines)@) + views(more@),
{
    let mut more = more;
    let ghost added = views(more@);
    lines.append(&mut more);
    proof {
        assert(views(lines@) =~= views(old(lines)@) + added);
    }
}

/// Appends one line to `lines`.
fn add_line(lines: &mut Vec<String>, line: String)
    ensures
        views(final(lines)@) == views(old(lines)@).push(line@),
{
    lines.push(line);
    proof {
        assert(views(lines@) =~= views(old(lines)@).push(line@));
    }
}

impl Cli {
    fn write_item_lines(world: &WorldState, ids: &Vec<String>) -> (r: Vec<String>)
        ensures
            views(r@) == item_lines(world@, views(ids@)),
    {
        let mut out: Vec<String> = Vec::new();
        let mut i: usize = 0;
        proof {
            assert(views(ids@).take(0) =~= Seq::<Seq<char>>::empty());
            assert(views(out@) =~= Seq::<Seq<char>>::empty());
        }
        while i < ids.len()
            invariant
                i <= ids.len(),
                views(out@) == item_lines(world@, views(ids@).take(i as int)),
            decreases ids.len() - i,
        {
            proof {
                let all = views(ids@);
                assert(all.take(i + 1).drop_last() =~= all.take(i as int));
                assert(all.take(i + 1).last() == ids@[i as int]@);
            }
            if let Some(item) = world.get_item(ids[i].as_str()) {
                let kind = item.item_type.to_string();
                let state = format_item_state(item);
                let mut line = join3("  - ", item.name.as_str(), " (");
                line.append(kind.as_str());
                line.append(") [");
                line.append(state.as_str());
                line.append("]");
                add_line(&mut out, line);
            }
            i += 1;
        }
        proof {
            assert(views(ids@).take(i as int) =~= views(ids@));
        }
        out
    }

    fn write_actor_lines(world: &WorldState, ids: &Vec<String>) -> (r: Vec<String>)
        ensures
            views(r@) == actor_lines(world@, views(ids@)),
    {
        let mut out: Vec<String> = Vec::new();
        let mut i: usize = 0;
        proof {
            assert(views(ids@).take(0) =~= Seq::<Seq<char>>::empty());
            assert(views(out@) =~= Seq::<Seq<char>>::empty());
        }
        while i < ids.len()
            invariant
                i <= ids.len(),
                views(out@) == actor_lines(world@, views(ids@).take(i as int)),
            decreases ids.len() - i,
        {
            proof {
                let all = views(ids@);
                assert(all.take(i + 1).drop_last() =~= all.take(i as int));
                assert(all.take(i + 1).last() == ids@[i as int]@);
            }
            if let Some(actor) = world.get_actor(ids[i].as_str()) {
                add_line(&mut out, join2("  - ", actor.name.as_str()));
            }
            i += 1;
        }
        proof {
            assert(views(ids@).take(i as int) =~= views(ids@));
        }
        out
    }

    fn write_exit_lines(world: &WorldState, exits: &Vec<Exit>) -> (r: Vec<String>)
        ensures
            views(r@) == exit_lines(world@, views(exits@)),
    {
        let mut out: Vec<String> = Vec::new();
        let mut i: usize = 0;
        while i < exits.len()
            invariant
                i <= exits.len(),
                out.len() == i,
                forall|k: int| 0 <= k < i ==> (#[trigger] out@[k])@ == exit_line(world@, exits@[k]@),
            decreases exits.len() - i,
        {
            let e = &exits[i];
            let line = match e.target {
                Some(t) => {
                    let x = decimal_string(t.0 as i128);
                    let y = decimal_string(t.1 as i128);
                    let mut line = join3("  - ", e.direction.as_str(), ": (");
                    line.append(x.as_str());
                    line.append(", ");
                    line.append(y.as_str());
                    line.append(") - ");
                    match world.get_location(t) {
                        Some(loc) => line.append(loc.name.as_str()),
                        None => line.append("Unknown"),
                    }
                    line
                },
                None => join3("  - ", e.direction.as_str(), ": blocked"),
            };
            out.push(line);
            i += 1;
        }
        proof {
            assert(views(out@) =~= exit_lines(world@, views(exits@)));
        }
        out
    }

    fn write_option_lines(options: &Vec<String>) -> (r: Vec<String>)
        ensures
            views(r@) == option_lines(views(options@)),
    {
        let mut out: Vec<String> = Vec::new();
        let mut i: usize = 0;
        while i < options.len()
            invariant
                i <= options.len(),
                out.len() == i,
                forall|k: int|
                    0 <= k < i ==> (#[trigger] out@[k])@ == "  "@ + decimal(k + 1) + ". "@
                        + options@[k]@,
            decreases options.len() - i,
        {
            let n = decimal_string(i as i128 + 1);
            let mut line = join3("  ", n.as_str(), ". ");
            line.append(options[i].as_str());
            out.push(line);
            i += 1;
        }
        proof {
            assert(views(out@) =~= option_lines(views(options@)));
        }
        out
    }

    fn write_log_lines(log: &Vec<String>, count: usize) -> (r: Vec<String>)
        ensures
            views(r@) == log_lines(views(log@), count as nat),
    {
        let shown = if log.len() < count {
            log.len()
        } else {
            count
        };
        let mut out: Vec<String> = Vec::new();
        let mut i: usize = 0;
        while i < shown
            invariant
                i <= shown <= log.len(),
                out.len() == i,
                forall|k: int|
                    0 <= k < i ==> (#[trigger] out@[k])@ == "  "@ + log@[log@.len() - 1 - k]@,
            decreases shown - i,
        {
            out.push(join2("  ", log[log.len() - 1 - i].as_str()));
            i += 1;
        }
        proof {
            assert(views(out@) =~= log_lines(views(log@), count as nat));
        }
        out
    }

    fn write_place_report(world: &WorldState) -> (r: Vec<String>)
        ensures
            views(r@) == place_report(world@),
    {
        let mut out: Vec<String> = Vec::new();
        proof {
            assert(views(out@) =~= Seq::<Seq<char>>::empty());
        }
        if let Some(loc) = world.get_location(world.current_pos) {
            let x = decimal_string(world.current_pos.0 as i128);
            let y = decimal_string(world.current_pos.1 as i128);
            let mut position = join3("Position: (", x.as_str(), ", ");
            position.append(y.as_str());
            position.append(")");
            add_line(&mut out, owned("\n--- Location ---"));
            add_line(&mut out, join2("Name: ", loc.name.as_str()));
            add_line(&mut out, position);
            add_line(&mut out, join2("Description: ", loc.description.as_str()));
            add_line(
                &mut out,
                join2(
                    "Visited: ",
                    if loc.visited {
                        "true"
                    } else {
                        "false"
                    },
                ),
            );
            proof {
                assert(views(loc.items@).len() == loc.items.len());
                assert(views(loc.actors@).len() == loc.actors.len());
            }
            if loc.items.len() > 0 {
                add_line(&mut out, owned("\n--- Items Here ---"));
                add_lines(&mut out, Cli::write_item_lines(world, &loc.items));
            }
            if loc.actors.len() > 0 {
                add_line(&mut out, owned("\n--- Actors Here ---"));
                add_lines(&mut out, Cli::write_actor_lines(world, &loc.actors));
            }
            let exits = Cli::write_exit_lines(world, &loc.exits);
            if exits.len() > 0 {
                add_line(&mut out, owned("\n--- Exits ---"));
                add_lines(&mut out, exits);
            }
            proof {
                assert(views(out@) =~= place_report(world@));
            }
        }
        out
    }

    /// The report of the state of the game, line by line.
    pub fn state_report(&self, game: &Game) -> (r: Vec<String>)
        ensures
            views(r@) == state_report(
                game.world@,
                game.last_narrative@,
                views(game.current_options@),
                views(game.debug_log@),
                game.state,
                crate::model::opt_view(game.current_save_path),
            ),
    {
        let mut out: Vec<String> = Vec::new();
        proof {
            assert(views(out@) =~= Seq::<Seq<char>>::empty());
        }
        add_line(&mut out, owned("\n========================================"));
        add_line(&mut out, owned("WORLD STATE"));
        add_line(&mut out, owned("========================================"));
        add_lines(&mut out, Cli::write_place_report(&game.world));
        proof {
            assert(views(game.world.player.inventory@).len() == game.world.player.inventory.len());
        }
        if game.world.player.inventory.len() > 0 {
            add_line(&mut out, owned("\n--- Player Inventory ---"));
            add_lines(&mut out, Cli::write_item_lines(&game.world, &game.world.player.inventory));
        }
        let money = decimal_string(game.world.player.money as i128);
        add_line(&mut out, owned("\n--- Player Stats ---"));
        add_line(&mut out, join2("Money: ", money.as_str()));
        add_line(&mut out, owned("\n--- Narrative ---"));
        add_line(&mut out, game.last_narrative.clone());
        let options = Cli::write_option_lines(&game.current_options);
        if options.len() > 0 {
            add_line(&mut out, owned("\n--- Suggested Actions ---"));
            add_lines(&mut out, options);
        }
        add_line(&mut out, owned("\n--- Debug Log (Last 5) ---"));
        add_lines(&mut out, Cli::write_log_lines(&game.debug_log, 5));
        let path = write_option(&game.current_save_path);
        add_line(&mut out, owned("\n--- Game State ---"));
        add_line(&mut out, join2("State: ", state_label(game.state)));
        add_line(&mut out, join2("Save Path: ", path.as_str()));
        proof {
            assert(views(out@) =~= state_report(
                game.world@,
                game.last_narrative@,
                views(game.current_options@),
                views(game.debug_log@),
                game.state,
                crate::model::opt_view(game.current_save_path),
            ));
        }
        out
    }
}

} // verus!
