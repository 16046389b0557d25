use llm_text_adventure::cli::{Cli, CliStep};
use llm_text_adventure::commands::Command;
use llm_text_adventure::game::{summarize_error, Game, GameEffect, GameState};
use llm_text_adventure::model::{Location, WorldState};
use llm_text_adventure::save::{read_coord_key, write_coord_key, SaveInfo, SaveManager};
use llm_text_adventure::turn::AgentResponse;

fn save(name: &str) -> SaveInfo {
    SaveInfo { filename: name.to_string(), path: format!("saves/{}", name), modified: 0 }
}

fn start_location() -> Location {
    Location {
        name: "The Beginning".to_string(),
        description: "You stand in a void of potential.".to_string(),
        items: vec![],
        actors: vec![],
        exits: vec![],
        cached_image_path: None,
        image_prompt: "A swirling void of colors and shapes.".to_string(),
        visited: true,
    }
}

fn unstamped(entry: &str) -> &str {
    let bytes = entry.as_bytes();
    assert!(bytes.len() >= 11, "no stamp in {:?}", entry);
    assert_eq!(bytes[0], b'[');
    for i in [1, 2, 4, 5, 7, 8] {
        assert!(bytes[i].is_ascii_digit(), "no stamp in {:?}", entry);
    }
    assert_eq!((bytes[3], bytes[6], bytes[9], bytes[10]), (b':', b':', b']', b' '));
    &entry[11..]
}

fn notes(game: &Game) -> Vec<&str> {
    game.debug_log[1..].iter().map(|e| unstamped(e)).collect()
}

fn playing() -> Game {
    let mut game = Game::new(vec![]);
    game.world.insert_location((0, 0), start_location());
    game.world.current_pos = (0, 0);
    game.state = GameState::WaitingForInput;
    game
}

#[test]
fn test_game_creation() {
    let game = Game::new(vec![]);
    assert_eq!(game.state, GameState::SplashScreen);
    assert_eq!(game.debug_log.len(), 1);
    assert_eq!(game.last_narrative, "Welcome to the Infinite Text Adventure.");
}

#[test]
fn test_log_functionality() {
    let mut game = Game::new(vec![]);
    game.log("Test log message");
    assert_eq!(game.debug_log.len(), 2);
    assert!(game.debug_log[1].contains("Test log message"));
}

#[test]
fn test_log_truncation() {
    let mut game = Game::new(vec![]);
    for i in 0..105 {
        game.log(&format!("Message {}", i));
    }
    assert_eq!(game.debug_log.len(), 100);
    assert!(!game.debug_log.iter().any(|msg| msg.contains("Message 0")));
    assert!(game.debug_log.iter().any(|msg| msg.contains("Message 104")));
}

#[test]
fn test_move_to_new_area() {
    let mut game = playing();
    let effect = game.process_input("go north");
    let direction = match effect {
        GameEffect::Generate { direction, request } => {
            assert!(request.prompt.contains("Current Location: The Beginning at (0, 0)"));
            direction
        }
        other => panic!("expected a request for a location, got {:?}", other),
    };
    assert_eq!(game.state, GameState::Processing);
    assert_eq!(game.status_message, "Exploring north...");
    let effect = game.location_answered(
        &direction,
        Ok(r#"{"name":"Forest Path","description":"A narrow trail through dense woods.","exits":{"south":[0,0]},"image_prompt":"Dense forest with sunlight filtering through leaves"}"#),
    );
    assert!(matches!(effect, GameEffect::Persist));
    assert_eq!(game.world.current_pos, (0, 1));
    let new_location = game.world.get_location((0, 1)).unwrap();
    assert_eq!(new_location.name, "Forest Path");
    assert_eq!(new_location.description, "A narrow trail through dense woods.");
}

#[test]
fn test_movement_to_new_area() {
    let mut game = playing();
    let effect = game.process_input("go north");
    assert!(matches!(effect, GameEffect::Generate { .. }));
    game.location_answered(
        "north",
        Ok(r#"{"name":"Forest Path","description":"A narrow trail through dense woods."}"#),
    );
    assert_eq!(game.world.current_pos, (0, 1));
    let new_location = game.world.get_location((0, 1));
    assert!(new_location.is_some(), "New location should exist");
    assert_eq!(new_location.unwrap().name, "Forest Path");
    assert_eq!(game.state, GameState::WaitingForInput);
    assert_eq!(game.status_message, "");
    assert_eq!(
        game.last_narrative,
        "You travel north to Forest Path.\nA narrow trail through dense woods."
    );
}

#[test]
fn a_failed_generation_leads_into_the_unknown() {
    let mut game = playing();
    game.process_input("east");
    let effect = game.location_answered("east", Err("connection refused"));
    assert!(matches!(effect, GameEffect::Persist));
    assert_eq!(game.state, GameState::WaitingForInput);
    assert_eq!(
        notes(&game),
        [
            "Generating location at (1, 0) heading east",
            "Failed to generate location: connection refused",
            "Used fallback location at (1, 0)",
        ]
    );
    assert_eq!(game.world.get_location((1, 0)).unwrap().exit("west"), Some(Some((0, 0))));
    assert_eq!(game.world.get_location((0, 0)).unwrap().exit("east"), Some(Some((1, 0))));
    assert_eq!(game.world.current_pos, (1, 0));
    assert_eq!(
        game.last_narrative,
        "You travel east into the unknown.\nA mysterious place that appeared suddenly."
    );
    assert_eq!(game.world.get_location((1, 0)).unwrap().name, "Mysterious area (1, 0)");
}

#[test]
fn a_quick_move_to_a_known_location_is_made_at_once() {
    let mut game = playing();
    let mut hill = start_location();
    hill.name = "Hill".to_string();
    hill.description = "Windy.".to_string();
    hill.visited = false;
    game.world.insert_location((-1, 0), hill);
    let effect = game.process_command(&Command::MoveWest);
    assert!(matches!(effect, GameEffect::Persist));
    assert_eq!(game.world.current_pos, (-1, 0));
    assert!(game.world.get_location((-1, 0)).unwrap().visited);
    assert_eq!(game.last_narrative, "You move west to Hill.\nWindy.");
    assert_eq!(notes(&game), ["Quick move west to existing location (-1, 0)"]);
    assert_eq!(game.state, GameState::WaitingForInput);
}

#[test]
fn a_move_that_cannot_be_made_shows_why() {
    let mut game = Game::new(vec![]);
    game.state = GameState::WaitingForInput;
    let effect = game.process_command(&Command::MoveNorth);
    assert!(matches!(effect, GameEffect::Nothing));
    assert_eq!(game.status_message, "Current location not found");
    assert_eq!(game.world.current_pos, (0, 0));
    let mut game = playing();
    assert!(matches!(game.handle_quick_movement("up"), GameEffect::Nothing));
    assert_eq!(game.status_message, "");
    assert_eq!(game.debug_log.len(), 1);
    assert_eq!(game.world.current_pos, (0, 0));
}

#[test]
fn the_splash_screen_selects_loads_and_deletes() {
    let mut game = Game::new(vec![save("a.json"), save("b.json")]);
    assert!(matches!(game.process_command(&Command::Up), GameEffect::Nothing));
    assert_eq!(game.selected_save_index, 0);
    game.process_command(&Command::Down);
    assert_eq!(game.selected_save_index, 1);
    match game.process_command(&Command::Load) {
        GameEffect::LoadSave { filename } => assert_eq!(filename, "b.json"),
        other => panic!("unexpected {:?}", other),
    }
    match game.process_command(&Command::Delete) {
        GameEffect::DeleteSave { filename } => assert_eq!(filename, "b.json"),
        other => panic!("unexpected {:?}", other),
    }
    game.process_command(&Command::Down);
    game.process_command(&Command::Down);
    assert_eq!(game.selected_save_index, 2);
    assert!(matches!(game.process_command(&Command::Load), GameEffect::Nothing));
    assert!(matches!(game.process_command(&Command::Delete), GameEffect::Nothing));
    assert!(matches!(
        game.process_command(&Command::TextInput("x".to_string())),
        GameEffect::Nothing
    ));
    assert_eq!(game.state, GameState::SplashScreen);
    game.save_deleted("b.json", Some(vec![save("a.json")]), "");
    assert_eq!(game.selected_save_index, 0);
    assert_eq!(game.save_list.len(), 1);
    assert_eq!(unstamped(game.debug_log.last().unwrap()), "Deleted save: b.json");
    game.save_deleted("a.json", None, "permission denied");
    assert_eq!(game.save_list.len(), 1);
    assert_eq!(
        unstamped(game.debug_log.last().unwrap()),
        "Failed to delete save: permission denied"
    );
    game.selected_save_index = 1;
    game.save_deleted("a.json", Some(vec![]), "");
    assert_eq!(game.selected_save_index, 0);
}

#[test]
fn a_loaded_save_becomes_the_game() {
    let mut game = Game::new(vec![save("a.json")]);
    let mut world = WorldState::new();
    world.current_pos = (4, 2);
    game.save_loaded("a.json", world);
    assert_eq!(game.world.current_pos, (4, 2));
    assert_eq!(game.current_save_path.as_deref(), Some("a.json"));
    assert_eq!(game.state, GameState::WaitingForInput);
    assert_eq!(game.last_narrative, "Loaded world: a.json. What do you want to do?");
}

#[test]
fn naming_a_world_edits_the_name_and_begins_the_world() {
    let mut game = Game::new(vec![]);
    game.new_world_name = "left over".to_string();
    game.process_command(&Command::New);
    assert_eq!(game.state, GameState::NamingWorld);
    assert_eq!(game.new_world_name, "");
    assert!(matches!(game.process_command(&Command::Enter), GameEffect::Nothing));
    game.process_command(&Command::Backspace);
    game.process_command(&Command::TextInput("  my wor".to_string()));
    game.process_command(&Command::TextInput("ldx ".to_string()));
    game.process_command(&Command::Backspace);
    game.process_command(&Command::Backspace);
    assert_eq!(game.new_world_name, "  my world");
    game.world.current_pos = (9, 9);
    let filename = match game.process_command(&Command::Enter) {
        GameEffect::CreateSave { filename } => filename,
        other => panic!("unexpected {:?}", other),
    };
    assert_eq!(filename, "my world.json");
    assert_eq!(game.state, GameState::NamingWorld);
    assert_eq!(game.world.current_pos, (0, 0));
    let first = game.world.get_location((0, 0)).unwrap();
    assert_eq!(first.name, "The Beginning");
    assert_eq!(
        first.description,
        "You stand in a void of potential. Anything can happen here."
    );
    assert!(first.visited);
    game.save_created(filename);
    assert_eq!(game.state, GameState::WaitingForInput);
    assert_eq!(game.current_save_path.as_deref(), Some("my world.json"));
    assert_eq!(
        game.last_narrative,
        "Created new world: 'my world'. What do you want to do?"
    );
    assert_eq!(unstamped(game.debug_log.last().unwrap()), "Created new world: my world");
}

#[test]
fn going_back_from_naming_clears_the_name() {
    let mut game = Game::new(vec![]);
    game.process_command(&Command::New);
    game.process_command(&Command::TextInput("abc".to_string()));
    game.process_command(&Command::Back);
    assert_eq!(game.state, GameState::SplashScreen);
    assert_eq!(game.new_world_name, "");
}

#[test]
fn text_and_options_go_to_the_agent() {
    let mut game = playing();
    game.current_options = vec!["open the door".to_string(), "wait".to_string()];
    match game.process_command(&Command::SelectOption(2)) {
        GameEffect::RunAgent { action } => assert_eq!(action, "wait"),
        other => panic!("unexpected {:?}", other),
    }
    assert_eq!(game.state, GameState::Processing);
    assert_eq!(game.attempts, 1);
    assert_eq!(game.status_message, "Attempt 1/3 - Processing...");
    assert_eq!(
        notes(&game),
        [
            "User selected option 2: wait",
            "Processing action: 'wait'",
            "Current player position: (0, 0)",
            "Attempt 1/3 - Processing...",
        ]
    );
    assert!(matches!(game.process_command(&Command::SelectOption(1)), GameEffect::Nothing));
    let mut game = playing();
    game.current_options = vec!["wait".to_string()];
    assert!(matches!(game.process_command(&Command::SelectOption(0)), GameEffect::Nothing));
    assert!(matches!(game.process_command(&Command::SelectOption(2)), GameEffect::Nothing));
    assert!(matches!(game.process_command(&Command::Enter), GameEffect::Nothing));
    assert_eq!(game.state, GameState::WaitingForInput);
    match game.process_input("  Look Around ") {
        GameEffect::RunAgent { action } => assert_eq!(action, "look around"),
        other => panic!("unexpected {:?}", other),
    }
    assert_eq!(
        notes(&game),
        [
            "Processing action: 'look around'",
            "Current player position: (0, 0)",
            "Attempt 1/3 - Processing...",
        ]
    );
}

#[test]
fn the_agent_is_tried_three_times() {
    let mut game = playing();
    game.process_input("dance");
    for attempt in 2..=3u32 {
        match game.agent_failed("dance", "connection refused") {
            GameEffect::RetryAgent { action, delay_ms } => {
                assert_eq!(action, "dance");
                assert_eq!(delay_ms, 500);
            }
            other => panic!("unexpected {:?}", other),
        }
        assert_eq!(game.attempts, attempt);
        assert_eq!(game.status_message, format!("Attempt {}/3 - Processing...", attempt));
        assert_eq!(game.state, GameState::Processing);
    }
    assert_eq!(
        notes(&game)[3..],
        [
            "Agent Error (Attempt 1): connection refused",
            "Attempt 2/3 - Processing...",
            "Agent Error (Attempt 2): connection refused",
            "Attempt 3/3 - Processing...",
        ]
    );
    let long = "e".repeat(60);
    assert!(matches!(game.agent_failed("dance", &long), GameEffect::Nothing));
    assert_eq!(
        *notes(&game).last().unwrap(),
        format!("Agent Error (Attempt 3): {}...", "e".repeat(47))
    );
    assert_eq!(game.state, GameState::WaitingForInput);
    assert_eq!(game.status_message, "Failed.");
    assert_eq!(
        game.last_narrative,
        format!(
            "The spirits are confused. (Failed after 3 attempts)\nError: {}...",
            "e".repeat(47)
        )
    );
}

#[test]
fn error_summaries_are_cut_at_fifty_bytes() {
    assert_eq!(summarize_error("short"), "short");
    assert_eq!(summarize_error(&"x".repeat(50)), "x".repeat(50));
    assert_eq!(summarize_error(&"x".repeat(51)), format!("{}...", "x".repeat(47)));
    assert_eq!(summarize_error(&"é".repeat(26)), "é".repeat(26));
    assert_eq!(summarize_error(&"é".repeat(48)), format!("{}...", "é".repeat(47)));
}

#[test]
fn the_agents_world_is_taken_unless_it_gave_up() {
    let mut game = playing();
    game.process_input("dance");
    let mut world = WorldState::new();
    world.current_pos = (7, 7);
    let effect = game.agent_finished(
        AgentResponse {
            narrative: "You dance.".to_string(),
            suggested_actions: vec!["bow".to_string()],
        },
        world,
    );
    assert!(matches!(effect, GameEffect::Persist));
    assert_eq!(game.world.current_pos, (7, 7));
    assert_eq!(game.last_narrative, "You dance.");
    assert_eq!(game.current_options, vec!["bow"]);
    assert_eq!(game.state, GameState::WaitingForInput);
    assert_eq!(game.status_message, "");
    for narrative in ["[Timeout: too slow]", "Agent stopped early", "x Failed after 3 tries"] {
        let effect = game.agent_finished(
            AgentResponse { narrative: narrative.to_string(), suggested_actions: vec![] },
            WorldState::new(),
        );
        assert!(matches!(effect, GameEffect::Nothing));
        assert_eq!(game.world.current_pos, (7, 7));
        assert_eq!(game.last_narrative, narrative);
    }
}

#[test]
fn a_busy_game_takes_no_commands() {
    let mut game = playing();
    game.state = GameState::Processing;
    assert!(matches!(game.process_input("go north"), GameEffect::Nothing));
    assert_eq!(game.world.current_pos, (0, 0));
    assert_eq!(game.state, GameState::Processing);
}

#[test]
fn commands_are_read_from_trimmed_lowercase_text() {
    assert!(matches!(Command::from_str("new"), Command::New));
    assert!(matches!(Command::from_str("  LOAD\n"), Command::Load));
    assert!(matches!(Command::from_str("Up"), Command::Up));
    assert!(matches!(Command::from_str("down"), Command::Down));
    assert!(matches!(Command::from_str("delete"), Command::Delete));
    assert!(matches!(Command::from_str("enter"), Command::Enter));
    assert!(matches!(Command::from_str("back"), Command::Back));
    assert!(matches!(Command::from_str("backspace"), Command::Backspace));
    assert!(matches!(Command::from_str("Go North"), Command::MoveNorth));
    assert!(matches!(Command::from_str("north"), Command::MoveNorth));
    assert!(matches!(Command::from_str("go south"), Command::MoveSouth));
    assert!(matches!(Command::from_str("east"), Command::MoveEast));
    assert!(matches!(Command::from_str("GO WEST"), Command::MoveWest));
    assert!(matches!(Command::from_str(" 3 "), Command::SelectOption(3)));
    assert!(matches!(Command::from_str("+12"), Command::SelectOption(12)));
    assert!(matches!(Command::from_str("007"), Command::SelectOption(7)));
    assert!(matches!(Command::from_str("\u{3000}up\u{2003}"), Command::Up));
    match Command::from_str("-3") {
        Command::TextInput(t) => assert_eq!(t, "-3"),
        other => panic!("unexpected {:?}", other),
    }
    match Command::from_str("99999999999999999999999999") {
        Command::TextInput(t) => assert_eq!(t, "99999999999999999999999999"),
        other => panic!("unexpected {:?}", other),
    }
    match Command::from_str("  Open The DÖOR ") {
        Command::TextInput(t) => assert_eq!(t, "open the döor"),
        other => panic!("unexpected {:?}", other),
    }
    match Command::from_str("") {
        Command::TextInput(t) => assert_eq!(t, ""),
        other => panic!("unexpected {:?}", other),
    }
    match Command::from_normalized("North") {
        Command::TextInput(t) => assert_eq!(t, "North"),
        other => panic!("unexpected {:?}", other),
    }
}

#[test]
fn the_console_reads_lines_by_screen() {
    let cli = Cli::new();
    let mut game = Game::new(vec![save("a.json"), save("b.json")]);
    assert!(matches!(cli.interpret(&game, "   "), CliStep::Ignore));
    assert!(matches!(cli.interpret(&game, " /exit "), CliStep::Exit));
    assert!(matches!(cli.interpret(&game, "n"), CliStep::Input(t) if t == "new"));
    assert!(matches!(cli.interpret(&game, "load"), CliStep::Input(t) if t == "load"));
    assert!(matches!(cli.interpret(&game, "1"), CliStep::SelectSave(1)));
    assert!(matches!(cli.interpret(&game, "2"), CliStep::Ignore));
    assert!(matches!(cli.interpret(&game, "what"), CliStep::ShowHelp));
    game.state = GameState::NamingWorld;
    assert!(matches!(cli.interpret(&game, "done"), CliStep::Input(t) if t == "enter"));
    assert!(matches!(cli.interpret(&game, "cancel"), CliStep::Input(t) if t == "back"));
    assert!(matches!(cli.interpret(&game, " My World "), CliStep::SetName(t) if t == "My World"));
    game.state = GameState::WaitingForInput;
    game.current_options = vec!["Open the door".to_string()];
    assert!(matches!(cli.interpret(&game, "/north"), CliStep::Input(t) if t == "go north"));
    assert!(matches!(cli.interpret(&game, "/west"), CliStep::Input(t) if t == "go west"));
    assert!(matches!(cli.interpret(&game, "1"), CliStep::Input(t) if t == "Open the door"));
    assert!(matches!(cli.interpret(&game, "2"), CliStep::Input(t) if t == "2"));
    assert!(matches!(cli.interpret(&game, "0"), CliStep::Input(t) if t == "0"));
    assert!(matches!(cli.interpret(&game, "Sing"), CliStep::Input(t) if t == "Sing"));
    game.state = GameState::Processing;
    assert!(matches!(cli.interpret(&game, "Sing"), CliStep::Busy));
    assert!(matches!(cli.interpret(&game, "/exit"), CliStep::Exit));
}

#[test]
fn saves_are_named_with_one_suffix() {
    let manager = SaveManager::new();
    assert_eq!(manager.save_dir, "saves");
    assert_eq!(manager.create_new_save("world"), "world.json");
    assert_eq!(manager.create_new_save("world.json"), "world.json");
    assert_eq!(manager.create_new_save("json"), "json.json");
    assert_eq!(manager.create_new_save(""), ".json");
    assert_eq!(manager.create_new_save("a.JSON"), "a.JSON.json");
    assert_eq!(manager.save_path("world.json"), "saves/world.json");
}

#[test]
fn saves_are_listed_newest_first() {
    let entry = |name: &str, modified: i64| SaveInfo {
        filename: name.to_string(),
        path: format!("saves/{}", name),
        modified,
    };
    let listed = SaveManager::new().list_saves(vec![
        entry("old.json", 10),
        entry("notes.txt", 99),
        entry("new.json", 30),
        entry(".json", 50),
        entry("twin_a.json", 20),
        entry("twin_b.json", 20),
        entry("ancient.json", -5),
        entry("json", 70),
    ]);
    let names: Vec<&str> = listed.iter().map(|s| s.filename.as_str()).collect();
    assert_eq!(
        names,
        vec!["new.json", "twin_a.json", "twin_b.json", "old.json", "ancient.json"]
    );
    assert_eq!(listed[0].path, "saves/new.json");
}

#[test]
fn coordinates_are_written_as_keys_and_read_back() {
    assert_eq!(write_coord_key((0, 0)), "0,0");
    assert_eq!(write_coord_key((-12, 345)), "-12,345");
    for pos in [(0, 0), (7, -3), (i32::MAX, i32::MIN), (-1, 1)] {
        assert_eq!(read_coord_key(&write_coord_key(pos)), Some(pos));
    }
    assert_eq!(read_coord_key("+4,-0"), Some((4, 0)));
    assert_eq!(read_coord_key("007,8"), Some((7, 8)));
    for bad in ["", ",", "1", "1,", ",2", "1,2,3", " 1,2", "1, 2", "a,b", "--1,2", "-+1,2",
        "2147483648,0", "0,-2147483649", "-,1", "+,1", "1.5,2"]
    {
        assert_eq!(read_coord_key(bad), None, "{:?}", bad);
        let std_reading = bad.split_once(',').and_then(|(x, y)| {
            match (x.parse::<i32>(), y.parse::<i32>()) {
                (Ok(x), Ok(y)) => Some((x, y)),
                _ => None,
            }
        });
        assert_eq!(std_reading, None, "{:?}", bad);
    }
}

#[test]
fn a_log_entry_carries_the_time_of_day() {
    let mut game = Game::new(vec![]);
    assert_eq!(game.debug_log, ["Game initialized."]);
    game.log("first");
    game.log_at("23:59:59", "second");
    assert_eq!(unstamped(&game.debug_log[1]), "first");
    assert_eq!(game.debug_log[2], "[23:59:59] second");
    let stamp = &game.debug_log[1][1..9];
    let hours: u32 = stamp[0..2].parse().unwrap();
    let minutes: u32 = stamp[3..5].parse().unwrap();
    let seconds: u32 = stamp[6..8].parse().unwrap();
    assert!(hours < 24 && minutes < 60 && seconds < 61);
}

#[test]
fn a_step_is_made_whatever_the_game_is_busy_with() {
    let mut game = playing();
    game.state = GameState::Processing;
    let effect = game.handle_quick_movement("south");
    assert!(matches!(effect, GameEffect::Generate { .. }));
    let effect = game.location_answered("south", Ok("no location in here"));
    assert!(matches!(effect, GameEffect::Persist));
    assert_eq!(game.state, GameState::WaitingForInput);
    assert_eq!(game.world.current_pos, (0, -1));
    assert_eq!(game.world.get_location((0, -1)).unwrap().name, "Mysterious area (0, -1)");
    assert_eq!(
        notes(&game),
        [
            "Generating location at (0, -1) heading south",
            "Failed to generate location: No JSON object found in LLM response.\nFirst 300 chars: no location in here",
            "Used fallback location at (0, -1)",
        ]
    );
    let effect = game.location_answered("north", Ok(r#"{"name":"Unused"}"#));
    assert!(matches!(effect, GameEffect::Persist));
    assert_eq!(game.world.current_pos, (0, 0));
    assert_eq!(*notes(&game).last().unwrap(), "Created and moved to (0, 0)");
}
