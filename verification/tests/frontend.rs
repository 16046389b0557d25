use llm_text_adventure::cli::Cli;
use llm_text_adventure::game::{Game, GameEffect, GameState};
use llm_text_adventure::input::{KeyCode, KeyEvent, KeyEventKind};
use llm_text_adventure::model::{
    Actor, Item, ItemProperties, ItemState, ItemType, Location, WorldState,
};
use llm_text_adventure::save::SaveInfo;
use llm_text_adventure::tui::{interpret_key, TuiStep};

fn spot(name: &str, visited: bool) -> Location {
    Location {
        name: name.to_string(),
        description: format!("{} lies here.", name),
        items: vec![],
        actors: vec![],
        exits: vec![],
        cached_image_path: None,
        image_prompt: String::new(),
        visited,
    }
}

fn press(code: KeyCode) -> KeyEvent {
    KeyEvent { code, kind: KeyEventKind::Press }
}

#[test]
fn the_map_of_an_empty_world_says_so() {
    assert_eq!(WorldState::new().render_map(), "No locations");
    let mut world = WorldState::new();
    world.insert_location((5, 5), spot("Far", false));
    assert_eq!(world.render_map(), "No visible locations");
}

#[test]
fn the_map_shows_what_was_visited_or_lies_near() {
    let mut world = WorldState::new();
    world.insert_location((0, 0), spot("Home", true));
    world.insert_location((1, 1), spot("Seen", false));
    world.insert_location((3, 0), spot("Been", true));
    world.insert_location((3, 3), spot("Hidden", false));
    world.insert_location((-1, -1), spot("Corner", false));
    assert_eq!(world.render_map(), "..?..\n.@..#\n?....");
    world.current_pos = (3, 2);
    assert_eq!(world.render_map(), "...?\n....\n....\n#..#");
    world.current_pos = (3, 3);
    assert_eq!(world.render_map(), "...@\n....\n....\n#..#");
}

#[test]
fn the_map_draws_paths_north_and_east() {
    let mut world = WorldState::new();
    let mut home = spot("Home", true);
    home.set_exit("north", Some((0, 1)));
    home.set_exit("east", Some((1, 0)));
    home.set_exit("south", Some((0, -1)));
    world.insert_location((0, 0), home);
    world.insert_location((0, 1), spot("Hill", true));
    world.insert_location((1, 0), spot("Lake", true));
    world.insert_location((0, -1), spot("Moor", true));
    assert_eq!(world.render_map(), "#.\n-#\n#.");
    let mut world = WorldState::new();
    world.insert_location((0, 1), spot("Hill", true));
    world.insert_location((1, 0), spot("Lake", true));
    let mut home = spot("Home", true);
    home.set_exit("north", Some((0, 1)));
    home.set_exit("east", Some((1, 0)));
    home.set_exit("west", Some((9, 9)));
    world.insert_location((0, 0), home);
    assert_eq!(world.render_map(), "|.\n-#");
    let mut world = WorldState::new();
    let mut home = spot("Home", true);
    home.set_exit("north", Some((0, 4)));
    home.set_exit("east", None);
    world.insert_location((0, 0), home);
    world.insert_location((0, 4), spot("Far", false));
    assert_eq!(world.render_map(), "@");
}

#[test]
fn keys_mean_what_the_screen_makes_of_them() {
    let mut game = Game::new(vec![SaveInfo {
        filename: "a.json".to_string(),
        path: "saves/a.json".to_string(),
        modified: 1,
    }]);
    let key = |game: &Game, typed: &str, code: KeyCode, control: bool| {
        interpret_key(game, typed, &press(code), control)
    };
    assert!(matches!(
        interpret_key(&game, "", &KeyEvent { code: KeyCode::Enter, kind: KeyEventKind::Release }, false),
        TuiStep::Nothing
    ));
    assert!(matches!(key(&game, "", KeyCode::Enter, false), TuiStep::Input(t) if t == "load"));
    assert!(matches!(key(&game, "", KeyCode::Up, false), TuiStep::Input(t) if t == "up"));
    assert!(matches!(key(&game, "", KeyCode::Down, false), TuiStep::Input(t) if t == "down"));
    assert!(matches!(key(&game, "", KeyCode::Left, false), TuiStep::Nothing));
    assert!(matches!(key(&game, "", KeyCode::Delete, false), TuiStep::Input(t) if t == "delete"));
    assert!(matches!(key(&game, "", KeyCode::Char('x'), false), TuiStep::Nothing));
    assert!(matches!(key(&game, "", KeyCode::Backspace, false), TuiStep::Nothing));
    assert!(matches!(key(&game, "", KeyCode::Esc, false), TuiStep::Quit));
    assert!(matches!(key(&game, "", KeyCode::Char('c'), true), TuiStep::Quit));
    game.selected_save_index = 1;
    assert!(matches!(key(&game, "", KeyCode::Enter, false), TuiStep::Input(t) if t == "new"));
    game.save_list.clear();
    assert!(matches!(key(&game, "", KeyCode::Delete, false), TuiStep::Nothing));
    game.state = GameState::NamingWorld;
    assert!(matches!(key(&game, "", KeyCode::Enter, false), TuiStep::Input(t) if t == "enter"));
    assert!(matches!(key(&game, "", KeyCode::Char('é'), false), TuiStep::Input(t) if t == "é"));
    assert!(matches!(key(&game, "", KeyCode::Char('c'), false), TuiStep::Input(t) if t == "c"));
    assert!(
        matches!(key(&game, "", KeyCode::Backspace, false), TuiStep::Input(t) if t == "backspace")
    );
    assert!(matches!(key(&game, "", KeyCode::Esc, false), TuiStep::BackAndQuit));
    assert!(matches!(key(&game, "", KeyCode::Up, false), TuiStep::Nothing));
    game.state = GameState::WaitingForInput;
    assert!(matches!(key(&game, "", KeyCode::Enter, false), TuiStep::Nothing));
    assert!(matches!(key(&game, "look", KeyCode::Enter, false), TuiStep::Submit(t) if t == "look"));
    assert!(matches!(key(&game, "", KeyCode::Char('q'), false), TuiStep::Push('q')));
    assert!(matches!(key(&game, "", KeyCode::Backspace, false), TuiStep::Pop));
    assert!(matches!(key(&game, "", KeyCode::Up, false), TuiStep::Arrow(d) if d == "north"));
    assert!(matches!(key(&game, "", KeyCode::Down, false), TuiStep::Arrow(d) if d == "south"));
    assert!(matches!(key(&game, "", KeyCode::Left, false), TuiStep::Arrow(d) if d == "west"));
    assert!(matches!(key(&game, "", KeyCode::Right, false), TuiStep::Arrow(d) if d == "east"));
    assert!(matches!(key(&game, "", KeyCode::Tab, false), TuiStep::Nothing));
    game.state = GameState::Processing;
    assert!(matches!(key(&game, "", KeyCode::Char('q'), false), TuiStep::Log(t) if t == "Ignored char 'q'"));
    assert!(matches!(key(&game, "", KeyCode::Backspace, false), TuiStep::Log(t) if t == "Ignored backspace"));
    assert!(matches!(key(&game, "x", KeyCode::Enter, false), TuiStep::Submit(t) if t == "x"));
}

#[test]
fn arrow_keys_step_only_into_the_known() {
    let mut game = Game::new(vec![]);
    game.state = GameState::WaitingForInput;
    game.world.insert_location((0, 0), spot("Home", true));
    game.world.insert_location((0, 1), spot("Hill", false));
    assert!(matches!(game.arrow_move("east"), GameEffect::Nothing));
    assert_eq!(game.world.current_pos, (0, 0));
    assert_eq!(
        game.last_narrative,
        "The path east leads to unexplored territory. Type your action to explore."
    );
    let noted = game.debug_log.last().unwrap();
    assert_eq!(&noted[10..], " Cannot move east - area unexplored");
    assert!(noted.starts_with('[') && &noted[9..10] == "]");
    assert!(matches!(game.arrow_move("north"), GameEffect::Persist));
    assert_eq!(game.world.current_pos, (0, 1));
    assert_eq!(game.last_narrative, "You move north to Hill.\nHill lies here.");
    assert_eq!(&game.debug_log.last().unwrap()[10..], " Quick move north");
    assert!(game.world.get_location((0, 1)).unwrap().visited);
}

#[test]
fn the_state_report_lists_everything_line_by_line() {
    let mut game = Game::new(vec![]);
    game.state = GameState::WaitingForInput;
    game.current_save_path = Some("w.json".to_string());
    game.last_narrative = "You wake up.".to_string();
    game.current_options = vec!["stand".to_string(), "sleep".to_string()];
    for i in 0..7 {
        game.log_at("12:00:00", &format!("note {}", i));
    }
    let mut home = spot("Home", true);
    home.items = vec!["lamp".to_string(), "gone".to_string()];
    home.actors = vec!["cat".to_string()];
    home.set_exit("north", Some((0, 1)));
    home.set_exit("down", None);
    home.set_exit("east", Some((1, 0)));
    game.world.insert_location((0, 0), home);
    game.world.insert_location((0, 1), spot("Hill", false));
    game.world.insert_item(Item {
        id: "lamp".to_string(),
        name: "Brass Lamp".to_string(),
        description: String::new(),
        item_type: ItemType::Tool,
        state: ItemState::Consumed { charges: 2, max_charges: 3 },
        properties: ItemProperties::default(),
    });
    game.world.insert_actor(Actor {
        id: "cat".to_string(),
        name: "Tom".to_string(),
        description: String::new(),
        current_pos: (0, 0),
        inventory: vec![],
        money: 0,
    });
    game.world.player.inventory = vec!["lamp".to_string()];
    game.world.player.money = 9;
    let report = Cli::new().state_report(&game);
    let expected = vec![
        "\n========================================",
        "WORLD STATE",
        "========================================",
        "\n--- Location ---",
        "Name: Home",
        "Position: (0, 0)",
        "Description: Home lies here.",
        "Visited: true",
        "\n--- Items Here ---",
        "  - Brass Lamp (Tool) [charges: 2/3]",
        "\n--- Actors Here ---",
        "  - Tom",
        "\n--- Exits ---",
        "  - north: (0, 1) - Hill",
        "  - down: blocked",
        "  - east: (1, 0) - Unknown",
        "\n--- Player Inventory ---",
        "  - Brass Lamp (Tool) [charges: 2/3]",
        "\n--- Player Stats ---",
        "Money: 9",
        "\n--- Narrative ---",
        "You wake up.",
        "\n--- Suggested Actions ---",
        "  1. stand",
        "  2. sleep",
        "\n--- Debug Log (Last 5) ---",
        "  [12:00:00] note 6",
        "  [12:00:00] note 5",
        "  [12:00:00] note 4",
        "  [12:00:00] note 3",
        "  [12:00:00] note 2",
        "\n--- Game State ---",
        "State: WaitingForInput",
        "Save Path: Some(\"w.json\")",
    ];
    assert_eq!(report, expected);
    let bare = Cli::new().state_report(&Game::new(vec![]));
    assert_eq!(
        bare,
        vec![
            "\n========================================",
            "WORLD STATE",
            "========================================",
            "\n--- Player Stats ---",
            "Money: 0",
            "\n--- Narrative ---",
            "Welcome to the Infinite Text Adventure.",
            "\n--- Debug Log (Last 5) ---",
            "  Game initialized.",
            "\n--- Game State ---",
            "State: SplashScreen",
            "Save Path: None",
        ]
    );
}
