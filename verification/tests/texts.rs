use llm_text_adventure::image::{
    FileSystemCache, ImageCache, ImageError, ImageGenerator, ImageManager, InMemoryCache,
    MockImageGenerator,
};
use llm_text_adventure::model::{
    default_image_prompt, default_location_description, default_location_name, CombatState,
    Combatant, Item, ItemProperties, ItemState, ItemType, Location, StatusEffect, StatusType,
    WorldState,
};
use llm_text_adventure::suggest::extract_suggested_actions;
use llm_text_adventure::text::{
    chars_of, decimal_string, from_chars, join_list, same_text, trim_text,
};

#[test]
fn integers_are_written_in_decimal() {
    assert_eq!(decimal_string(0), "0");
    assert_eq!(decimal_string(7), "7");
    assert_eq!(decimal_string(10), "10");
    assert_eq!(decimal_string(-1), "-1");
    assert_eq!(decimal_string(1234567890), "1234567890");
    assert_eq!(decimal_string(i32::MIN as i128), "-2147483648");
    assert_eq!(decimal_string(i128::MAX), i128::MAX.to_string());
    assert_eq!(decimal_string(i128::MIN), i128::MIN.to_string());
}

#[test]
fn texts_are_compared_joined_and_trimmed_by_characters() {
    assert!(same_text("", ""));
    assert!(same_text("äb", "äb"));
    assert!(!same_text("ab", "abc"));
    assert!(!same_text("ab", "aB"));
    assert_eq!(chars_of("a•ß"), vec!['a', '•', 'ß']);
    assert_eq!(from_chars(&vec!['x', 'ÿ', '\n']), "xÿ\n");
    assert_eq!(join_list(&vec![], ", "), "");
    assert_eq!(join_list(&vec!["a".to_string()], ", "), "a");
    assert_eq!(
        join_list(&vec!["a".to_string(), "".to_string(), "c".to_string()], " | "),
        "a |  | c"
    );
    assert_eq!(trim_text(" \t\r\n a b \u{a0}\u{2028}"), "a b");
    assert_eq!(trim_text("\u{200b}x"), "\u{200b}x");
    assert_eq!(trim_text("     "), "");
    for c in (0..=0x3100u32).filter_map(char::from_u32) {
        let padded = format!("{}x{}", c, c);
        assert_eq!(trim_text(&padded), padded.trim(), "U+{:04X}", c as u32);
    }
}

#[test]
fn suggestions_are_taken_from_bulleted_lines() {
    let text = "Intro\n  - First \r\n*Second\n• - * Third\n-\n-   \nnot - a bullet\n- Fourth\n- Fifth\n- Sixth";
    assert_eq!(
        extract_suggested_actions(text),
        vec!["First", "Second", "Third", "Fourth", "Fifth"]
    );
    let long = format!("- {}\n- {}", "x".repeat(100), "y".repeat(99));
    assert_eq!(extract_suggested_actions(&long), vec!["y".repeat(99)]);
    let wide = format!("- {}\n- {}", "é".repeat(50), "é".repeat(49));
    assert_eq!(extract_suggested_actions(&wide), vec!["é".repeat(49)]);
    assert_eq!(extract_suggested_actions(""), vec!["look around", "check inventory"]);
    assert_eq!(extract_suggested_actions("- ok\n"), vec!["ok"]);
    assert_eq!(extract_suggested_actions("-- - deep   dive --"), vec!["deep   dive --"]);
}

#[test]
fn locations_without_fields_have_stock_texts() {
    assert_eq!(default_location_name(), "Unknown Location");
    assert_eq!(default_location_description(), "An unknown place.");
    assert_eq!(default_image_prompt(), "A mysterious location");
}

#[test]
fn the_context_tells_of_place_belongings_neighbours_and_combat() {
    let mut world = WorldState::new();
    world.current_pos = (2, -1);
    world.player.money = 30;
    world.player.inventory = vec!["lamp".to_string(), "ghost".to_string()];
    let thing = |id: &str, name: &str| Item {
        id: id.to_string(),
        name: name.to_string(),
        description: String::new(),
        item_type: ItemType::Tool,
        state: ItemState::Normal,
        properties: ItemProperties::default(),
    };
    world.insert_item(thing("lamp", "Brass Lamp"));
    world.insert_item(thing("rug", "Old Rug"));
    world.insert_actor(llm_text_adventure::model::Actor {
        id: "smith".to_string(),
        name: "The Smith".to_string(),
        description: String::new(),
        current_pos: (2, -1),
        inventory: vec![],
        money: 0,
    });
    let place = |name: &str, items: &[&str], actors: &[&str]| Location {
        name: name.to_string(),
        description: format!("{} it is.", name),
        items: items.iter().map(|s| s.to_string()).collect(),
        actors: actors.iter().map(|s| s.to_string()).collect(),
        exits: vec![],
        cached_image_path: None,
        image_prompt: String::new(),
        visited: true,
    };
    world.insert_location((2, -1), place("Forge", &["rug", "gone", "lamp"], &["smith", "nobody"]));
    world.insert_location((2, 0), place("Yard", &[], &[]));
    world.insert_location((1, -1), place("Lane", &[], &[]));
    assert_eq!(
        world.get_adjacent_info(),
        "north: Yard, south: unexplored, east: unexplored, west: Lane"
    );
    let context = world.system_context();
    assert!(context.starts_with(
        "You are Dungeon Master for a text adventure game.\n Current Location: Forge at (2, -1)\n Description: Forge it is.\n Items here: [\"Old Rug\", \"Brass Lamp\"]\n Actors here: [\"The Smith\"]\n Player Inventory: [\"Brass Lamp\"]\n Player Money: 30\n\n Adjacent Areas: north: Yard, south: unexplored, east: unexplored, west: Lane\n\n RULES:\n 1. You can call MULTIPLE tools in ONE response."
    ));
    assert!(context.ends_with("flee, use_item_in_combat, end_turn"));
    assert!(!context.contains("COMBAT ACTIVE"));
    world.combat = CombatState {
        active: true,
        combatants: vec![
            Combatant {
                id: "player".to_string(),
                is_player: true,
                hp: 90,
                max_hp: 100,
                weapon_id: Some("lamp".to_string()),
                armor_id: None,
                initiative: 12,
                status_effects: vec![
                    StatusEffect { effect_type: StatusType::Poison, duration: 2, severity: 3 },
                    StatusEffect { effect_type: StatusType::Stunned, duration: 1, severity: 0 },
                ],
                temp_defense: 5,
            },
            Combatant {
                id: "rat".to_string(),
                is_player: false,
                hp: 50,
                max_hp: 50,
                weapon_id: None,
                armor_id: None,
                initiative: 3,
                status_effects: vec![],
                temp_defense: 0,
            },
        ],
        current_turn_index: 1,
        round_number: 2,
    };
    assert_eq!(
        world.combat_context(),
        "\n\n COMBAT ACTIVE - Round 2 - Turn: rat\n Combatants:\n - player (PLAYER): HP 90/100 | Weapon: Some(\"lamp\") | Armor: None | Temp Def: 5 | Status: Poison(2t), Stunned(1t)\n- rat (ENEMY): HP 50/50 | Weapon: None | Armor: None | Temp Def: 0 | Status: \n\n Combat Actions: start_combat, attack_actor, defend, flee, use_item_in_combat, end_turn"
    );
    assert!(world.system_context().contains(&world.combat_context()));
    world.combat.current_turn_index = 5;
    assert!(world.combat_context().contains("Turn: none\n"));
    let nowhere = WorldState::new();
    assert!(nowhere.system_context().contains(
        "Current Location: Unknown at (0, 0)\n Description: You are nowhere.\n Items here: []\n Actors here: []\n"
    ));
    let mut edge = WorldState::new();
    edge.current_pos = (i32::MAX, i32::MIN);
    assert_eq!(
        edge.get_adjacent_info(),
        "north: unexplored, south: unexplored, east: unexplored, west: unexplored"
    );
}

#[test]
fn images_come_from_the_cache_before_the_generator() {
    struct Shelf {
        held: Option<String>,
        saved: u32,
    }
    impl ImageCache for Shelf {
        fn get_cached_path(&self, _pos: &(i32, i32)) -> Option<String> {
            self.held.clone()
        }
        fn save_image(&mut self, pos: &(i32, i32), data: &[u8]) -> Result<String, ImageError> {
            self.saved += 1;
            let path = format!("{}_{}_{}.png", pos.0, pos.1, data.len());
            self.held = Some(path.clone());
            Ok(path)
        }
    }
    struct Broken;
    impl ImageGenerator for Broken {
        fn generate_image(&self, _prompt: &str) -> Result<Vec<u8>, ImageError> {
            Err(ImageError::Generation)
        }
    }
    let location = Location {
        name: String::new(),
        description: String::new(),
        items: vec![],
        actors: vec![],
        exits: vec![],
        cached_image_path: None,
        image_prompt: "a hill".to_string(),
        visited: false,
    };
    let mut manager = ImageManager::new(Shelf { held: None, saved: 0 }, MockImageGenerator);
    assert_eq!(
        manager.get_image_for_location(&(1, 2), &location),
        Ok("1_2_10.png".to_string())
    );
    assert_eq!(
        manager.get_image_for_location(&(1, 2), &location),
        Ok("1_2_10.png".to_string())
    );
    assert_eq!(manager.cache.saved, 1);
    let mut manager = ImageManager::new(Shelf { held: None, saved: 0 }, Broken);
    assert_eq!(
        manager.get_image_for_location(&(1, 2), &location),
        Err(ImageError::Generation)
    );
    assert_eq!(manager.cache.saved, 0);
    let mut manager = ImageManager::new(InMemoryCache::new(), MockImageGenerator);
    assert_eq!(
        manager.get_image_for_location(&(0, 0), &location),
        Ok("blob:dummy".to_string())
    );
    assert_eq!(MockImageGenerator.generate_image("x"), Ok(vec![0; 10]));
    let files = FileSystemCache::new("cache".to_string());
    assert_eq!(files.image_file_name(&(-3, 14)), "-3_14.png");
}
