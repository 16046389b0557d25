use llm_text_adventure::agent::{tool_result, Agent, CallOutcome};
use llm_text_adventure::json::parse_json;
use llm_text_adventure::model::{
    Actor, ItemState, ItemType, Location, WorldState,
};
use llm_text_adventure::tools::{
    decode_tool, get_tool_definitions, CombatFault, Entity, Field, ToolCall, ToolCommand,
    ToolError, ToolFunction,
};
use llm_text_adventure::turn::{Turn, TurnAction, TurnPhase};

fn call(name: &str, arguments: &str) -> ToolCall {
    ToolCall {
        id: format!("call_{}", name),
        call_type: "function".to_string(),
        function: ToolFunction { name: name.to_string(), arguments: arguments.to_string() },
    }
}

fn start() -> Location {
    Location {
        name: "Test Location".to_string(),
        description: "Old description".to_string(),
        items: vec![],
        actors: vec![],
        exits: vec![],
        cached_image_path: None,
        image_prompt: "Test".to_string(),
        visited: true,
    }
}

fn agent_at_start() -> Agent {
    let mut world = WorldState::new();
    world.insert_location((0, 0), start());
    Agent::new(world)
}

fn done(outcome: Result<CallOutcome, ToolError>) -> Result<String, ToolError> {
    match outcome {
        Ok(CallOutcome::Answered(answer)) => Ok(answer.content),
        Ok(CallOutcome::NeedsLocation { .. }) => panic!("no location was expected to be needed"),
        Err(e) => Err(e),
    }
}

fn run(agent: &mut Agent, name: &str, arguments: &str) -> Result<String, ToolError> {
    done(agent.execute_tool_call(&call(name, arguments)))
}

#[test]
fn test_agent_creation() {
    let agent = Agent::new(WorldState::new());
    assert_eq!(agent.overall_timeout_seconds, 60);
    assert!(agent.turn_narrative.is_none());
    assert!(agent.get_debug_log().is_empty());
}

#[test]
fn test_extract_suggested_actions() {
    let agent = Agent::new(WorldState::new());
    let narrative = "You see a door.\n- Open the door\n- Look around\n- Check your inventory";
    let actions = agent.extract_suggested_actions(narrative);
    assert_eq!(actions.len(), 3);
    assert!(actions.contains(&"Open the door".to_string()));
    assert!(actions.contains(&"Look around".to_string()));
}

#[test]
fn test_extract_suggested_actions_fallback() {
    let agent = Agent::new(WorldState::new());
    let narrative = "Just some text with no suggestions.";
    let actions = agent.extract_suggested_actions(narrative);
    assert!(!actions.is_empty());
    assert!(actions.len() <= 5);
    assert_eq!(actions, vec!["look around", "check inventory"]);
}

#[test]
fn test_execute_update_location_description() {
    let mut agent = agent_at_start();
    let result =
        run(&mut agent, "update_location_description", r#"{"text":"New description"}"#).unwrap();
    assert!(result.contains("updated"));
    assert_eq!(
        agent.world.get_location((0, 0)).unwrap().description,
        "New description"
    );
}

#[test]
fn test_execute_generate_turn_narrative() {
    let mut agent = Agent::new(WorldState::new());
    let result = run(
        &mut agent,
        "generate_turn_narrative",
        r#"{"text":"You see a treasure chest."}"#,
    )
    .unwrap();
    assert!(result.contains("generated"));
    assert_eq!(agent.turn_narrative, Some("You see a treasure chest.".to_string()));
}

#[test]
fn test_tool_definitions_exist() {
    let tools = get_tool_definitions();
    assert!(!tools.is_empty());
    assert_eq!(tools.len(), 21);
}

#[test]
fn test_create_item_tool_schema() {
    let tools = get_tool_definitions();
    let create_item = tools.iter().find(|t| t.name == "create_item").unwrap();
    assert_eq!(create_item.name, "create_item");
    let params = parse_json(create_item.parameters).unwrap();
    let properties = params.get("properties").unwrap();
    assert!(properties.get("id").unwrap().get("type").is_some());
    assert!(properties
        .get("item_type")
        .unwrap()
        .get("enum")
        .unwrap()
        .as_array()
        .is_some());
}

#[test]
fn every_catalogued_tool_has_a_schema_and_is_dispatched() {
    let mut agent = agent_at_start();
    for tool in get_tool_definitions() {
        let schema = parse_json(tool.parameters).unwrap();
        assert_eq!(schema.str_field("type"), Some("object"));
        assert!(schema.get("required").unwrap().as_array().is_some());
        assert!(!tool.description.is_empty());
        let outcome = agent.execute_tool_call(&call(tool.name, "{}"));
        assert!(
            !matches!(outcome, Err(ToolError::UnknownOperation(_))),
            "{} is not dispatched",
            tool.name
        );
    }
}

#[test]
fn malformed_and_unknown_calls_fail_and_change_nothing() {
    let mut agent = agent_at_start();
    match run(&mut agent, "create_item", r#"{"id": "x""#) {
        Err(ToolError::MalformedArguments(message)) => {
            assert_eq!(message, "EOF while parsing an object at line 1 column 10");
        }
        other => panic!("unexpected {:?}", other),
    }
    assert_eq!(
        run(&mut agent, "teleport", "{}"),
        Err(ToolError::UnknownOperation("teleport".to_string()))
    );
    assert_eq!(
        run(&mut agent, "teleport", "not a document"),
        Err(ToolError::UnknownOperation("teleport".to_string()))
    );
    assert_eq!(
        run(&mut agent, "create_item", r#"{"item_type":"Tool"}"#),
        Err(ToolError::MissingField(Field::Id))
    );
    assert_eq!(
        run(&mut agent, "create_item", r#"{"id":7,"item_type":"Tool"}"#),
        Err(ToolError::MissingField(Field::Id))
    );
    assert_eq!(
        run(&mut agent, "create_item", r#"{"id":"x"}"#),
        Err(ToolError::MissingField(Field::ItemType))
    );
    assert_eq!(
        run(&mut agent, "create_item", r#"{"id":"x","item_type":"Gadget"}"#),
        Err(ToolError::InvalidEnumValue(Field::ItemType, "Gadget".to_string()))
    );
    assert_eq!(
        run(&mut agent, "create_item", r#"{"id":"x","item_type":"Tool","state":"Shiny"}"#),
        Err(ToolError::InvalidEnumValue(Field::State, "Shiny".to_string()))
    );
    assert_eq!(
        run(&mut agent, "create_item", r#"{"id":"x","item_type":"Tool","state":{"Glowing":{}}}"#),
        Err(ToolError::InvalidEnumValue(Field::State, "Glowing".to_string()))
    );
    assert_eq!(
        run(&mut agent, "combine_items", r#"{"item1_id":"a","result_id":"c"}"#),
        Err(ToolError::MissingField(Field::Item2Id))
    );
    assert_eq!(
        run(&mut agent, "start_combat", r#"{"enemy_ids":"rat"}"#),
        Err(ToolError::MissingField(Field::EnemyIds))
    );
    assert_eq!(
        run(&mut agent, "start_combat", r#"{"enemy_ids":["rat", 3]}"#),
        Err(ToolError::InvalidEnemyId)
    );
    assert_eq!(
        run(&mut agent, "move_to", r#"{"direction":"up"}"#),
        Err(ToolError::InvalidEnumValue(Field::Direction, "up".to_string()))
    );
    assert!(agent.world.items.is_empty());
    assert!(!agent.world.combat.active);
    assert_eq!(agent.world.current_pos, (0, 0));
}

#[test]
fn create_item_decodes_state_and_properties() {
    let mut agent = agent_at_start();
    let ack = run(
        &mut agent,
        "create_item",
        r#"{"id":"potion","name":"Red Potion","description":"Fizzes.","item_type":"Consumable",
            "state":{"Consumed":{"charges":3}},
            "properties":{"damage":4294967301,"value":12,"usable":true,"carryable":false,
                          "equip_slot":"belt","status_effects":["Poison","Burning"]}}"#,
    );
    assert_eq!(ack, Ok("Created item: potion".to_string()));
    let item = agent.world.get_item("potion").unwrap();
    assert_eq!(item.name, "Red Potion");
    assert_eq!(item.description, "Fizzes.");
    assert_eq!(item.item_type, ItemType::Consumable);
    assert_eq!(item.state, ItemState::Consumed { charges: 3, max_charges: 1 });
    assert_eq!(item.properties.damage, Some(5));
    assert_eq!(item.properties.defense, None);
    assert_eq!(item.properties.value, Some(12));
    assert!(item.properties.usable && !item.properties.carryable);
    assert_eq!(item.properties.equip_slot.as_deref(), Some("belt"));
    assert_eq!(item.properties.status_effects, vec!["Poison", "Burning"]);
    assert_eq!(
        run(&mut agent, "create_item", r#"{"id":"potion","item_type":"Tool"}"#),
        Err(ToolError::AlreadyExists("potion".to_string()))
    );
}

#[test]
fn create_item_takes_defaults() {
    let mut agent = agent_at_start();
    run(
        &mut agent,
        "create_item",
        r#"{"id":"rock","item_type":"Material","state":{"Damaged":{}},
            "properties":{"status_effects":["a", 1]}}"#,
    )
    .unwrap();
    let item = agent.world.get_item("rock").unwrap();
    assert_eq!(item.name, "rock");
    assert_eq!(item.description, "");
    assert_eq!(item.state, ItemState::Damaged { durability: 10, max_durability: 10 });
    assert!(item.properties.carryable && !item.properties.usable);
    assert!(item.properties.status_effects.is_empty());
    run(&mut agent, "create_item", r#"{"id":"twig","item_type":"Material","properties":null}"#)
        .unwrap();
    assert_eq!(agent.world.get_item("twig").unwrap().state, ItemState::Normal);
}

#[test]
fn calls_reach_the_item_operations() {
    let mut agent = agent_at_start();
    run(&mut agent, "create_item", r#"{"id":"sword","item_type":"Weapon","properties":{"equip_slot":"weapon"}}"#).unwrap();
    assert_eq!(
        run(&mut agent, "add_item_to_inventory", r#"{"item_id":"sword"}"#),
        Ok("Added sword to inventory".to_string())
    );
    assert_eq!(
        run(&mut agent, "add_item_to_location", r#"{"item_id":"sword"}"#),
        Ok("Added sword to current location".to_string())
    );
    assert_eq!(
        run(&mut agent, "equip_item", r#"{"item_id":"sword"}"#),
        Ok("Equipped item: sword".to_string())
    );
    assert_eq!(agent.world.get_item("sword").unwrap().state, ItemState::Equipped);
    assert_eq!(
        run(&mut agent, "unequip_item", r#"{"item_id":"sword"}"#),
        Ok("Unequipped item: sword".to_string())
    );
    assert_eq!(
        run(&mut agent, "use_item", r#"{"item_id":"sword"}"#),
        Ok("Used item: sword".to_string())
    );
    assert_eq!(
        run(&mut agent, "inspect_object", r#"{"object_id":"sword"}"#),
        Ok("Item: sword\nDescription: \nType: Weapon\nState: Normal\nProperties: ItemProperties { damage: None, defense: None, value: None, weight: None, carryable: true, usable: false, equip_slot: Some(\"weapon\"), status_effects: [] }".to_string())
    );
    assert_eq!(
        run(&mut agent, "remove_item_from_location", r#"{"item_id":"sword"}"#),
        Ok("Removed sword from current location".to_string())
    );
    assert_eq!(
        run(&mut agent, "combine_items", r#"{"item1_id":"sword","item2_id":"gem","result_id":"blade"}"#),
        Ok("Combined sword and gem into blade".to_string())
    );
    assert!(agent.world.player.inventory.is_empty());
    assert_eq!(
        run(&mut agent, "break_item", r#"{"item_id":"sword"}"#),
        Ok("Broke item: sword".to_string())
    );
    assert!(agent.world.items.is_empty());
    assert_eq!(
        run(&mut agent, "add_item_to_container", r#"{"container_id":"box","item_id":"gem"}"#),
        Ok("Added gem to container box".to_string())
    );
    assert_eq!(
        run(&mut agent, "remove_item_from_container", r#"{"container_id":"box","item_id":"gem"}"#),
        Ok("Removed gem from container box".to_string())
    );
    assert_eq!(
        run(&mut agent, "remove_item_from_inventory", r#"{"item_id":"gem"}"#),
        Ok("Removed gem from inventory".to_string())
    );
    assert_eq!(
        run(&mut agent, "inspect_object", r#"{"object_id":"sword"}"#),
        Err(ToolError::EntityNotFound(Entity::Object("sword".to_string())))
    );
}

#[test]
fn calls_reach_the_combat_engine() {
    let mut agent = agent_at_start();
    agent.world.insert_actor(Actor {
        id: "rat".to_string(),
        name: "Rat".to_string(),
        description: String::new(),
        current_pos: (0, 0),
        inventory: vec![],
        money: 0,
    });
    assert_eq!(
        run(&mut agent, "end_turn", r#"{"actor_id":"player"}"#),
        Err(ToolError::CombatPrecondition(CombatFault::NotActive))
    );
    assert_eq!(
        run(&mut agent, "start_combat", r#"{"enemy_ids":["rat"]}"#),
        Ok("Started combat with 1 enemies".to_string())
    );
    let combatants = &agent.world.combat.combatants;
    assert_eq!(combatants.len(), 2);
    assert!(combatants.iter().all(|c| (1..=20).contains(&c.initiative)));
    assert!(combatants[0].initiative >= combatants[1].initiative);
    assert_eq!(
        run(&mut agent, "attack_actor", r#"{"attacker_id":"player","target_id":"rat"}"#),
        Ok("player attacked rat for 5 damage".to_string())
    );
    assert_eq!(
        run(&mut agent, "defend", r#"{"actor_id":"rat"}"#),
        Ok("rat is defending (+5 temp defense)".to_string())
    );
    assert_eq!(
        run(&mut agent, "attack_actor", r#"{"attacker_id":"player","target_id":"rat","weapon_id":"none"}"#),
        Ok("player attacked rat for 1 damage".to_string())
    );
    let first = agent.world.combat.combatants[0].id.clone();
    let second = agent.world.combat.combatants[1].id.clone();
    assert_eq!(
        run(&mut agent, "end_turn", &format!(r#"{{"actor_id":"{}"}}"#, second)),
        Err(ToolError::CombatPrecondition(CombatFault::NotYourTurn(second.clone())))
    );
    assert_eq!(
        run(&mut agent, "end_turn", &format!(r#"{{"actor_id":"{}"}}"#, first)),
        Ok(format!("Turn ended. Next: {}", second))
    );
    assert_eq!(
        run(&mut agent, "use_item_in_combat", r#"{"user_id":"player","item_id":"potion"}"#),
        Err(ToolError::EntityNotFound(Entity::InventoryItem("potion".to_string())))
    );
    let fled = run(&mut agent, "flee", r#"{"actor_id":"rat"}"#).unwrap();
    if fled == "rat fled successfully!" {
        assert!(!agent.world.combat.active);
        assert_eq!(agent.world.combat.combatants.len(), 1);
    } else {
        assert_eq!(fled, "rat failed to flee");
        assert!(agent.world.combat.active);
        assert_eq!(agent.world.combat.combatants.len(), 2);
    }
}

#[test]
fn a_move_into_the_unexplored_asks_for_a_location_first() {
    let mut agent = agent_at_start();
    let outcome = agent.execute_tool_call(&call("move_to", r#"{"direction":"north"}"#));
    match outcome {
        Ok(CallOutcome::NeedsLocation { direction, request }) => {
            assert_eq!(direction, "north");
            assert!(request.prompt.contains("heading north toward coordinates (0, 1)"));
        }
        other => panic!("expected a request for a location, got {:?}", other),
    }
    assert_eq!(agent.world.current_pos, (0, 0));
    assert_eq!(agent.world.locations.len(), 1);
    assert_eq!(
        agent.get_debug_log(),
        [
            "[Agent] Executing tool: move_to with args: {\"direction\":\"north\"}",
            "[Agent] Generating new location at (0, 1) heading north",
        ]
    );
    let ack = agent.complete_move(
        "north",
        Ok(r#"Sure! {"name":"Forest Path","description":"A narrow trail through dense woods.","exits":{"south":[0,0]}}"#),
    );
    assert_eq!(agent.get_debug_log()[2], "[Agent] Created location at (0, 1): Forest Path");
    assert_eq!(ack, Ok("Moved north to (0, 1) - Forest Path".to_string()));
    assert_eq!(agent.world.current_pos, (0, 1));
    let back = run(&mut agent, "move_to", r#"{"direction":"south"}"#);
    assert_eq!(back, Ok("Moved south to (0, 0) - Test Location".to_string()));
}

#[test]
fn a_failed_generation_is_absorbed_by_the_fallback() {
    let answers = [
        (Err("connection refused"), "connection refused"),
        (
            Ok("I cannot do that."),
            "No JSON object found in LLM response.\nFirst 300 chars: I cannot do that.",
        ),
        (
            Ok(r#"{"name":"Cut off"#),
            "LLM response JSON appears incomplete (mismatched braces/brackets or unclosed string).\nFirst 300 chars: {\"name\":\"Cut off\nThis usually means the LLM response was truncated. Try reducing max_tokens or the prompt length.",
        ),
        (
            Ok(r#"{"name":5}"#),
            "Missing required fields: description, exits, items, actors. JSON: {\"name\":5}",
        ),
    ];
    for (answer, why) in answers {
        let mut agent = agent_at_start();
        let ack = agent.complete_move("west", answer);
        assert_eq!(
            agent.get_debug_log(),
            [
                format!("[Agent] Failed to generate location: {}", why),
                "[Agent] Used fallback location at (-1, 0)".to_string(),
            ]
        );
        assert_eq!(ack, Ok("Moved west to (-1, 0) - Mysterious area (-1, 0)".to_string()));
        let fresh = agent.world.get_location((-1, 0)).unwrap();
        assert_eq!(fresh.exit("east"), Some(Some((0, 0))));
        assert_eq!(
            agent.world.get_location((0, 0)).unwrap().exit("west"),
            Some(Some((-1, 0)))
        );
    }
}

#[test]
fn tool_results_carry_the_call_id_and_the_text() {
    let c = call("use_item", "{}");
    let ok = tool_result(&c, &Ok("Used item: x".to_string()));
    assert_eq!(ok.tool_call_id, "call_use_item");
    assert_eq!(ok.content, "Used item: x");
    let failed = tool_result(&c, &Err(ToolError::MissingField(Field::ItemId)));
    assert_eq!(failed.content, "Missing item_id");
    assert_eq!(
        ToolError::CombatPrecondition(CombatFault::NotYourTurn("rat".to_string())).to_string(),
        "Not rat's turn"
    );
    assert_eq!(
        ToolError::InvalidEnumValue(Field::State, "Shiny".to_string()).to_string(),
        "Unknown state: Shiny"
    );
    assert_eq!(
        ToolError::InvalidEnumValue(Field::ItemType, "Gadget".to_string()).to_string(),
        "Unknown item_type: Gadget"
    );
    assert_eq!(
        ToolError::InvalidEnumValue(Field::Direction, "up".to_string()).to_string(),
        "Invalid direction"
    );
    assert_eq!(
        ToolError::CombatPrecondition(CombatFault::TooManyCombatants(4)).to_string(),
        "Too many combatants (max 4)"
    );
    assert_eq!(
        ToolError::CombatPrecondition(CombatFault::EnemyElsewhere("owl".to_string())).to_string(),
        "Enemy owl is not at current location"
    );
    assert_eq!(
        ToolError::CombatPrecondition(CombatFault::ItemNotUsable("rock".to_string())).to_string(),
        "Item rock is not usable"
    );
    assert_eq!(ToolError::UnknownOperation("teleport".to_string()).to_string(), "Unknown tool: teleport");
    assert_eq!(ToolError::AlreadyExists("lamp".to_string()).to_string(), "Item lamp already exists");
    assert_eq!(ToolError::MissingField(Field::EnemyIds).to_string(), "Missing enemy_ids array");
    assert_eq!(ToolError::InvalidEnemyId.to_string(), "Invalid enemy_id");
    assert_eq!(ToolError::EntityNotFound(Entity::User).to_string(), "User not in combat");
    assert_eq!(
        ToolError::EntityNotFound(Entity::InventoryItem("potion".to_string())).to_string(),
        "Item potion not in inventory"
    );
    assert_eq!(
        ToolError::EntityNotFound(Entity::Item("mist".to_string())).to_string(),
        "Item mist not found"
    );
    assert_eq!(
        ToolError::EntityNotFound(Entity::Object("door".to_string())).to_string(),
        "Object door not found"
    );
    assert_eq!(
        ToolError::EntityNotFound(Entity::CurrentLocation).to_string(),
        "Current location not found"
    );
}

#[test]
fn decoding_keeps_optional_fields_optional() {
    let args = parse_json(r#"{"attacker_id":"a","target_id":"b","weapon_id":null}"#).unwrap();
    match decode_tool("attack_actor", &args) {
        Ok(ToolCommand::AttackActor { attacker_id, target_id, weapon_id }) => {
            assert_eq!((attacker_id.as_str(), target_id.as_str()), ("a", "b"));
            assert!(weapon_id.is_none());
        }
        other => panic!("unexpected {:?}", other),
    }
    let args = parse_json(r#"[1,2]"#).unwrap();
    assert!(matches!(
        decode_tool("defend", &args),
        Err(ToolError::MissingField(Field::ActorId))
    ));
}

#[test]
fn the_agent_log_keeps_the_last_hundred() {
    let mut agent = Agent::new(WorldState::new());
    for i in 0..105 {
        agent.log(&format!("Message {}", i));
    }
    assert_eq!(agent.get_debug_log().len(), 100);
    assert_eq!(agent.get_debug_log()[0], "[Agent] Message 5");
    assert_eq!(agent.get_debug_log()[99], "[Agent] Message 104");
    let world = agent.take_world();
    assert_eq!(world.current_pos, (0, 0));
}

#[test]
fn a_turn_with_text_only_is_answered_at_once() {
    let mut agent = agent_at_start();
    agent.turn_narrative = Some("stale".to_string());
    let (mut turn, action) = Turn::begin(&mut agent, "look");
    assert!(matches!(action, TurnAction::Request { offer_tools: true, max_tokens: 4096 }));
    assert!(agent.turn_narrative.is_none());
    assert_eq!(turn.messages.len(), 2);
    assert_eq!(turn.messages[0].role, "system");
    assert_eq!(turn.messages[1].role, "user");
    assert_eq!(turn.messages[1].content.as_deref(), Some("Player Action: look"));
    let context = turn.messages[0].content.clone().unwrap();
    assert!(context.starts_with(
        "You are Dungeon Master for a text adventure game.\n Current Location: Test Location at (0, 0)\n Description: Old description\n Items here: []\n Actors here: []\n Player Inventory: []\n Player Money: 0\n\n Adjacent Areas: north: unexplored, south: unexplored, east: unexplored, west: unexplored\n\n RULES:"
    ));
    assert_eq!(agent.get_debug_log(), ["[Agent] Processing user action: look"]);
    let action = turn.on_reply(
        &mut agent,
        Some("A quiet room.\n* Leave\n• Wait".to_string()),
        None,
    );
    match action {
        TurnAction::Respond { response } => {
            assert_eq!(response.narrative, "A quiet room.\n* Leave\n• Wait");
            assert_eq!(response.suggested_actions, vec!["Leave", "Wait"]);
        }
        other => panic!("unexpected {:?}", other),
    }
    assert_eq!(turn.phase, TurnPhase::Finished);
}

#[test]
fn a_turn_runs_its_calls_in_order_and_asks_for_narration() {
    let mut agent = agent_at_start();
    let (mut turn, _) = Turn::begin(&mut agent, "make a lamp");
    let calls = vec![
        call("create_item", r#"{"id":"lamp","item_type":"Tool"}"#),
        call("add_item_to_inventory", r#"{"item_id":"lamp"}"#),
        call("nonsense", "{}"),
        call("create_item", r#"{"id":"lamp","item_type":"Tool"}"#),
        call("remove_item_from_inventory", "not json"),
    ];
    let action = turn.on_reply(&mut agent, None, Some(calls));
    assert!(matches!(action, TurnAction::Request { offer_tools: false, max_tokens: 1000 }));
    assert_eq!(turn.phase, TurnPhase::AwaitingNarration);
    assert_eq!(agent.world.items.len(), 1);
    assert_eq!(agent.world.player.inventory, vec!["lamp"]);
    assert_eq!(turn.messages.len(), 4);
    assert_eq!(turn.messages[2].role, "assistant");
    assert!(turn.messages[2].content.is_none());
    assert_eq!(turn.messages[2].tool_calls.as_ref().unwrap().len(), 5);
    assert_eq!(turn.messages[2].tool_calls.as_ref().unwrap()[1].id, "call_add_item_to_inventory");
    assert_eq!(turn.messages[3].role, "user");
    assert_eq!(
        turn.messages[3].content.as_deref(),
        Some("Describe what just happened in 2-3 sentences. Do not call any tools, just provide narrative.")
    );
    assert_eq!(
        agent.get_debug_log(),
        [
            "[Agent] Processing user action: make a lamp",
            "[Agent] Got 5 tool call(s)",
            "[Agent]   - create_item",
            "[Agent] Executing tool: create_item with args: {\"id\":\"lamp\",\"item_type\":\"Tool\"}",
            "[Agent]   - add_item_to_inventory",
            "[Agent] Executing tool: add_item_to_inventory with args: {\"item_id\":\"lamp\"}",
            "[Agent]   - nonsense",
            "[Agent] Executing tool: nonsense with args: {}",
            "[Agent]   - create_item",
            "[Agent] Executing tool: create_item with args: {\"id\":\"lamp\",\"item_type\":\"Tool\"}",
            "[Agent]   - remove_item_from_inventory",
            "[Agent] Executing tool: remove_item_from_inventory with args: not json",
        ]
    );
    let response = turn.on_narration(&mut agent, Some("You made a lamp.".to_string()));
    assert_eq!(agent.get_debug_log()[12], "[Agent] Narrative length: 16 chars");
    assert_eq!(response.narrative, "You made a lamp.");
    assert_eq!(response.suggested_actions, vec!["look around", "check inventory"]);
    assert_eq!(turn.phase, TurnPhase::Finished);
}

#[test]
fn a_narrative_set_by_a_call_concludes_the_turn() {
    let mut agent = agent_at_start();
    let (mut turn, _) = Turn::begin(&mut agent, "wait");
    let calls = vec![call("generate_turn_narrative", r#"{"text":"Time passes.\n- Wait more"}"#)];
    match turn.on_reply(&mut agent, None, Some(calls)) {
        TurnAction::Respond { response } => {
            assert_eq!(response.narrative, "Time passes.\n- Wait more");
            assert_eq!(response.suggested_actions, vec!["Wait more"]);
        }
        other => panic!("unexpected {:?}", other),
    }
}

#[test]
fn a_turn_with_calls_and_text_answers_with_the_text() {
    let mut agent = agent_at_start();
    let (mut turn, _) = Turn::begin(&mut agent, "take");
    let calls = vec![call("add_item_to_inventory", r#"{"item_id":"coin"}"#)];
    match turn.on_reply(&mut agent, Some("Taken.".to_string()), Some(calls)) {
        TurnAction::Respond { response } => assert_eq!(response.narrative, "Taken."),
        other => panic!("unexpected {:?}", other),
    }
    assert_eq!(agent.world.player.inventory, vec!["coin"]);
}

#[test]
fn a_turn_without_anything_answers_with_nothing() {
    let mut agent = agent_at_start();
    let (mut turn, _) = Turn::begin(&mut agent, "hm");
    match turn.on_reply(&mut agent, None, None) {
        TurnAction::Respond { response } => {
            assert_eq!(response.narrative, "");
            assert_eq!(response.suggested_actions, vec!["look around", "check inventory"]);
        }
        other => panic!("unexpected {:?}", other),
    }
    let mut agent = agent_at_start();
    let (mut turn, _) = Turn::begin(&mut agent, "hm");
    let _ = turn.on_reply(&mut agent, None, Some(vec![call("use_item", r#"{"item_id":"x"}"#)]));
    assert_eq!(turn.on_narration(&mut agent, None).narrative, "");
    assert_eq!(agent.get_debug_log().last().unwrap(), "[Agent] Narrative length: 0 chars");
}

#[test]
fn a_turn_stops_at_a_step_into_the_unexplored_and_goes_on_after_it() {
    let mut agent = agent_at_start();
    let (mut turn, _) = Turn::begin(&mut agent, "go north and drop the coin");
    let calls = vec![
        call("add_item_to_inventory", r#"{"item_id":"coin"}"#),
        call("move_to", r#"{"direction":"north"}"#),
        call("add_item_to_location", r#"{"item_id":"coin"}"#),
        call("move_to", r#"{"direction":"south"}"#),
    ];
    let action = turn.on_reply(&mut agent, Some("Off you go.".to_string()), Some(calls));
    match action {
        TurnAction::Generate { request } => {
            assert!(request.prompt.contains("coordinates (0, 1)"));
        }
        other => panic!("unexpected {:?}", other),
    }
    assert_eq!(turn.phase, TurnPhase::AwaitingLocation);
    assert_eq!(turn.next_call, 2);
    assert_eq!(turn.pending_direction.as_deref(), Some("north"));
    assert_eq!(agent.world.current_pos, (0, 0));
    assert_eq!(agent.world.player.inventory, vec!["coin"]);
    let action = turn.on_location(&mut agent, Err("no answer"));
    match action {
        TurnAction::Respond { response } => assert_eq!(response.narrative, "Off you go."),
        other => panic!("unexpected {:?}", other),
    }
    assert_eq!(
        agent.get_debug_log()[4..],
        [
            "[Agent]   - move_to",
            "[Agent] Executing tool: move_to with args: {\"direction\":\"north\"}",
            "[Agent] Generating new location at (0, 1) heading north",
            "[Agent] Failed to generate location: no answer",
            "[Agent] Used fallback location at (0, 1)",
            "[Agent]   - add_item_to_location",
            "[Agent] Executing tool: add_item_to_location with args: {\"item_id\":\"coin\"}",
            "[Agent]   - move_to",
            "[Agent] Executing tool: move_to with args: {\"direction\":\"south\"}",
            "[Agent] Narrative length: 11 chars",
        ]
    );
    assert_eq!(agent.world.current_pos, (0, 0));
    assert_eq!(agent.world.get_location((0, 1)).unwrap().items, vec!["coin"]);
    assert_eq!(agent.world.get_location((0, 1)).unwrap().name, "Mysterious area (0, 1)");
    assert!(turn.pending_direction.is_none());
}

#[test]
fn a_turn_that_ran_out_of_time_says_so() {
    let mut agent = agent_at_start();
    let response = Turn::timed_out(&mut agent);
    assert_eq!(response.narrative, "[Timeout: The game took too long to respond]");
    assert_eq!(response.suggested_actions, vec!["look around"]);
    assert_eq!(agent.get_debug_log(), ["[Agent] Timeout reached (60s)"]);
}

#[test]
fn a_call_is_answered_under_its_identifier() {
    let mut agent = agent_at_start();
    let c = call("add_item_to_inventory", r#"{"item_id":"coin"}"#);
    match agent.execute_tool_call(&c) {
        Ok(CallOutcome::Answered(answer)) => {
            assert_eq!(answer.tool_call_id, "call_add_item_to_inventory");
            assert_eq!(answer.content, "Added coin to inventory");
        }
        other => panic!("unexpected {:?}", other),
    }
}

#[test]
fn an_unknown_name_fails_before_the_payload_is_read() {
    let mut agent = agent_at_start();
    for payload in ["{}", "not json", r#"{"item_id":"coin"}"#, ""] {
        match agent.execute_tool_call(&call("summon", payload)) {
            Err(e) => {
                assert_eq!(e, ToolError::UnknownOperation("summon".to_string()));
                assert_eq!(e.to_string(), "Unknown tool: summon");
            }
            other => panic!("unexpected {:?}", other),
        }
    }
    assert!(agent.world.player.inventory.is_empty());
    assert!(agent.world.items.is_empty());
}

#[test]
fn a_state_that_carries_no_counters_is_normal() {
    let mut agent = agent_at_start();
    let states = [
        r#"{"Locked":{"key_id":"k"}}"#,
        r#"{"Open":{"contents":[]}}"#,
        "null",
        "7",
        r#""Locked""#,
        r#""Normal""#,
        "{}",
    ];
    for (i, state) in states.iter().enumerate() {
        let id = format!("thing{}", i);
        let payload = format!(r#"{{"id":"{}","item_type":"Tool","state":{}}}"#, id, state);
        assert_eq!(run(&mut agent, "create_item", &payload), Ok(format!("Created item: {}", id)));
        assert_eq!(agent.world.get_item(&id).unwrap().state, ItemState::Normal);
    }
    run(&mut agent, "create_item", r#"{"id":"ring","item_type":"Tool","state":"Equipped"}"#)
        .unwrap();
    assert_eq!(agent.world.get_item("ring").unwrap().state, ItemState::Equipped);
}

#[test]
fn the_catalogue_describes_every_tool() {
    let tools = get_tool_definitions();
    let names: Vec<&str> = tools.iter().map(|t| t.name).collect();
    assert_eq!(
        names,
        vec![
            "move_to",
            "update_location_description",
            "generate_turn_narrative",
            "create_item",
            "add_item_to_inventory",
            "remove_item_from_inventory",
            "add_item_to_location",
            "remove_item_from_location",
            "use_item",
            "equip_item",
            "unequip_item",
            "combine_items",
            "break_item",
            "add_item_to_container",
            "remove_item_from_container",
            "start_combat",
            "attack_actor",
            "defend",
            "flee",
            "use_item_in_combat",
            "end_turn",
        ]
    );
    assert_eq!(
        tools[0].description,
        "Move player in direction (north/south/east/west). Auto-generates new locations if needed."
    );
    let schema = parse_json(tools[0].parameters).unwrap();
    let required = schema.get("required").unwrap().as_array().unwrap();
    assert_eq!(required.len(), 1);
}

#[test]
fn the_start_of_combat_is_tested_in_order() {
    let mut agent = agent_at_start();
    for (id, pos) in [("rat", (0, 0)), ("owl", (5, 5))] {
        agent.world.insert_actor(Actor {
            id: id.to_string(),
            name: id.to_string(),
            description: String::new(),
            current_pos: pos,
            inventory: vec![],
            money: 0,
        });
    }
    assert_eq!(
        run(&mut agent, "start_combat", r#"{"enemy_ids":[1, 2, 3, 4]}"#),
        Err(ToolError::CombatPrecondition(CombatFault::TooManyCombatants(4)))
    );
    assert_eq!(
        run(&mut agent, "start_combat", r#"{"enemy_ids":["owl", 7]}"#),
        Err(ToolError::CombatPrecondition(CombatFault::EnemyElsewhere("owl".to_string())))
    );
    assert_eq!(
        run(&mut agent, "start_combat", r#"{"enemy_ids":["rat", 7, "owl"]}"#),
        Err(ToolError::InvalidEnemyId)
    );
    assert_eq!(
        run(&mut agent, "start_combat", r#"{"enemy_ids":[null]}"#),
        Err(ToolError::InvalidEnemyId)
    );
    assert!(!agent.world.combat.active);
    assert!(agent.world.combat.combatants.is_empty());
    assert_eq!(
        run(&mut agent, "start_combat", r#"{"enemy_ids":["rat"]}"#),
        Ok("Started combat with 1 enemies".to_string())
    );
    assert_eq!(
        run(&mut agent, "start_combat", r#"{"enemy_ids":[7]}"#),
        Err(ToolError::CombatPrecondition(CombatFault::AlreadyActive))
    );
    assert_eq!(
        run(&mut agent, "start_combat", r#"{"enemy_ids":{}}"#),
        Err(ToolError::MissingField(Field::EnemyIds))
    );
    assert_eq!(agent.world.combat.combatants.len(), 2);
}
