use llm_text_adventure::agent::format_item_state;
use llm_text_adventure::model::{
    Actor, Item, ItemProperties, ItemState, ItemType, Location, WorldState,
};
use llm_text_adventure::tools::{Entity, ToolError};

fn item(id: &str, state: ItemState, usable: bool, slot: Option<&str>) -> Item {
    Item {
        id: id.to_string(),
        name: format!("The {}", id),
        description: String::new(),
        item_type: ItemType::Tool,
        state,
        properties: ItemProperties {
            damage: None,
            defense: None,
            value: None,
            weight: None,
            carryable: true,
            usable,
            equip_slot: slot.map(|s| s.to_string()),
            status_effects: vec![],
        },
    }
}

fn room(items: &[&str]) -> Location {
    Location {
        name: "Room".to_string(),
        description: "A room.".to_string(),
        items: items.iter().map(|s| s.to_string()).collect(),
        actors: vec![],
        exits: vec![],
        cached_image_path: None,
        image_prompt: String::new(),
        visited: true,
    }
}

#[test]
fn new_world_is_empty_at_the_origin() {
    let world = WorldState::new();
    assert_eq!(world.current_pos, (0, 0));
    assert!(world.locations.is_empty() && world.items.is_empty() && world.actors.is_empty());
    assert!(world.player.inventory.is_empty());
    assert_eq!(world.player.money, 0);
    assert!(!world.combat.active);
    assert_eq!(world.max_items, 20);
    assert_eq!(world.max_combatants, 4);
}

#[test]
fn default_properties_are_carryable_and_not_usable() {
    let p = ItemProperties::default();
    assert!(p.carryable && !p.usable);
    assert!(p.damage.is_none() && p.defense.is_none() && p.value.is_none());
    assert!(p.weight.is_none() && p.equip_slot.is_none() && p.status_effects.is_empty());
}

#[test]
fn create_item_registers_once() {
    let mut world = WorldState::new();
    let ack = world.create_item(item("lamp", ItemState::Normal, false, None));
    assert_eq!(ack, Ok("Created item: lamp".to_string()));
    assert_eq!(world.items.len(), 1);
    let again = world.create_item(item("lamp", ItemState::Equipped, true, None));
    assert_eq!(again, Err(ToolError::AlreadyExists("lamp".to_string())));
    assert_eq!(world.items.len(), 1);
    assert_eq!(world.get_item("lamp").unwrap().state, ItemState::Normal);
}

#[test]
fn inventory_addition_is_idempotent() {
    let mut world = WorldState::new();
    assert_eq!(world.add_item_to_inventory("key"), "Added key to inventory");
    world.add_item_to_inventory("coin");
    world.add_item_to_inventory("key");
    assert_eq!(world.player.inventory, vec!["key", "coin"]);
    assert_eq!(
        world.remove_item_from_inventory("key"),
        "Removed key from inventory"
    );
    assert_eq!(world.player.inventory, vec!["coin"]);
    world.remove_item_from_inventory("absent");
    assert_eq!(world.player.inventory, vec!["coin"]);
}

#[test]
fn location_items_need_a_current_location() {
    let mut world = WorldState::new();
    assert_eq!(
        world.add_item_to_location("key"),
        Err(ToolError::EntityNotFound(Entity::CurrentLocation))
    );
    assert_eq!(
        world.remove_item_from_location("key"),
        Err(ToolError::EntityNotFound(Entity::CurrentLocation))
    );
    world.insert_location((0, 0), room(&["rug"]));
    assert_eq!(
        world.add_item_to_location("key"),
        Ok("Added key to current location".to_string())
    );
    world.add_item_to_location("key").unwrap();
    assert_eq!(world.get_location((0, 0)).unwrap().items, vec!["rug", "key"]);
    assert_eq!(
        world.remove_item_from_location("rug"),
        Ok("Removed rug from current location".to_string())
    );
    assert_eq!(world.get_location((0, 0)).unwrap().items, vec!["key"]);
}

#[test]
fn using_a_charged_item_spends_one_charge() {
    let mut world = WorldState::new();
    world.insert_item(item(
        "potion",
        ItemState::Consumed { charges: 3, max_charges: 3 },
        true,
        None,
    ));
    world.add_item_to_inventory("potion");
    assert_eq!(world.use_item("potion"), "Used item: potion");
    assert_eq!(
        world.get_item("potion").unwrap().state,
        ItemState::Consumed { charges: 2, max_charges: 3 }
    );
    assert_eq!(world.player.inventory, vec!["potion"]);
}

#[test]
fn using_the_last_charge_removes_the_item_from_the_inventory_only() {
    let mut world = WorldState::new();
    world.insert_item(item(
        "potion",
        ItemState::Consumed { charges: 1, max_charges: 3 },
        true,
        None,
    ));
    world.add_item_to_inventory("potion");
    world.add_item_to_inventory("rope");
    world.use_item("potion");
    assert_eq!(world.player.inventory, vec!["rope"]);
    assert_eq!(
        world.get_item("potion").unwrap().state,
        ItemState::Consumed { charges: 1, max_charges: 3 }
    );
}

#[test]
fn using_an_item_that_is_not_usable_or_not_registered_does_nothing() {
    let mut world = WorldState::new();
    world.insert_item(item(
        "stone",
        ItemState::Consumed { charges: 2, max_charges: 2 },
        false,
        None,
    ));
    world.add_item_to_inventory("stone");
    world.use_item("stone");
    world.use_item("ghost");
    assert_eq!(
        world.get_item("stone").unwrap().state,
        ItemState::Consumed { charges: 2, max_charges: 2 }
    );
    assert_eq!(world.player.inventory, vec!["stone"]);
}

#[test]
fn equipping_an_item_without_a_slot_leaves_its_state() {
    let mut world = WorldState::new();
    world
        .create_item(item("pebble", ItemState::Normal, false, None))
        .unwrap();
    assert_eq!(world.equip_item("pebble"), "Equipped item: pebble");
    assert_eq!(world.get_item("pebble").unwrap().state, ItemState::Normal);
}

#[test]
fn equip_and_unequip_follow_the_slot() {
    let mut world = WorldState::new();
    world.insert_item(item("sword", ItemState::Normal, false, Some("weapon")));
    world.equip_item("sword");
    assert_eq!(world.get_item("sword").unwrap().state, ItemState::Equipped);
    assert_eq!(world.unequip_item("sword"), "Unequipped item: sword");
    assert_eq!(world.get_item("sword").unwrap().state, ItemState::Normal);
    world.insert_item(item(
        "shield",
        ItemState::Damaged { durability: 1, max_durability: 2 },
        false,
        Some("armor"),
    ));
    world.unequip_item("shield");
    assert_eq!(
        world.get_item("shield").unwrap().state,
        ItemState::Damaged { durability: 1, max_durability: 2 }
    );
}

#[test]
fn combining_into_an_unregistered_result_adds_nothing() {
    let mut world = WorldState::new();
    world.insert_location((0, 0), room(&["stick", "leaf"]));
    world.insert_location((0, 1), room(&["stone", "stick"]));
    world.add_item_to_inventory("stick");
    world.add_item_to_inventory("stone");
    world.add_item_to_inventory("map");
    let ack = world.combine_items("stick", "stone", "axe");
    assert_eq!(ack, "Combined stick and stone into axe");
    assert_eq!(world.player.inventory, vec!["map"]);
    assert!(world.get_item("axe").is_none());
    assert_eq!(world.get_location((0, 0)).unwrap().items, vec!["leaf"]);
    assert!(world.get_location((0, 1)).unwrap().items.is_empty());
}

#[test]
fn combining_into_a_registered_result_puts_it_into_the_inventory() {
    let mut world = WorldState::new();
    world.insert_item(item("axe", ItemState::Normal, false, None));
    world.add_item_to_inventory("stick");
    world.add_item_to_inventory("stone");
    world.combine_items("stick", "stone", "axe");
    assert_eq!(world.player.inventory, vec!["axe"]);
    assert_eq!(world.items.len(), 1);
}

#[test]
fn breaking_an_item_deletes_it_everywhere() {
    let mut world = WorldState::new();
    world.insert_location((0, 0), room(&["vase", "rug"]));
    world.insert_item(item("rug", ItemState::Normal, false, None));
    world.insert_item(item("vase", ItemState::Normal, false, None));
    world.add_item_to_inventory("vase");
    assert_eq!(world.break_item("vase"), "Broke item: vase");
    assert!(world.get_item("vase").is_none());
    assert!(world.get_item("rug").is_some());
    assert!(world.player.inventory.is_empty());
    assert_eq!(world.get_location((0, 0)).unwrap().items, vec!["rug"]);
}

#[test]
fn containers_take_items_only_when_open() {
    let mut world = WorldState::new();
    world.insert_item(item(
        "chest",
        ItemState::Open { contents: vec!["coin".to_string()] },
        false,
        None,
    ));
    world.insert_item(item(
        "safe",
        ItemState::Locked { key_id: Some("key".to_string()) },
        false,
        None,
    ));
    assert_eq!(
        world.add_item_to_container("chest", "gem"),
        "Added gem to container chest"
    );
    world.add_item_to_container("chest", "coin");
    world.add_item_to_container("safe", "gem");
    world.add_item_to_container("nowhere", "gem");
    assert_eq!(
        world.get_item("chest").unwrap().state,
        ItemState::Open {
            contents: vec!["coin".to_string(), "gem".to_string(), "coin".to_string()]
        }
    );
    assert_eq!(
        world.get_item("safe").unwrap().state,
        ItemState::Locked { key_id: Some("key".to_string()) }
    );
    assert_eq!(
        world.remove_item_from_container("chest", "coin"),
        "Removed coin from container chest"
    );
    assert_eq!(
        world.get_item("chest").unwrap().state,
        ItemState::Open { contents: vec!["gem".to_string()] }
    );
}

#[test]
fn inspecting_prefers_items_over_actors() {
    let mut world = WorldState::new();
    world.insert_item(item(
        "potion",
        ItemState::Consumed { charges: 2, max_charges: 5 },
        true,
        None,
    ));
    world.insert_actor(Actor {
        id: "potion".to_string(),
        name: "Shadow".to_string(),
        description: "An actor with an item's name.".to_string(),
        current_pos: (0, 0),
        inventory: vec![],
        money: 0,
    });
    world.insert_actor(Actor {
        id: "smith".to_string(),
        name: "Smith".to_string(),
        description: "Strong.".to_string(),
        current_pos: (0, 0),
        inventory: vec!["hammer".to_string(), "tongs".to_string()],
        money: 12,
    });
    assert_eq!(
        world.inspect_object("potion"),
        Ok("Item: The potion\nDescription: \nType: Tool\nState: Consumed { charges: 2, max_charges: 5 }\nProperties: ItemProperties { damage: None, defense: None, value: None, weight: None, carryable: true, usable: true, equip_slot: None, status_effects: [] }".to_string())
    );
    assert_eq!(
        world.inspect_object("smith"),
        Ok("Actor: Smith\nDescription: Strong.\nInventory: [\"hammer\", \"tongs\"]\nMoney: 12".to_string())
    );
    assert_eq!(
        world.inspect_object("nobody"),
        Err(ToolError::EntityNotFound(Entity::Object("nobody".to_string())))
    );
}

#[test]
fn item_states_read_as_text() {
    let texts: Vec<String> = [
        ItemState::Normal,
        ItemState::Equipped,
        ItemState::Damaged { durability: 5, max_durability: 10 },
        ItemState::Consumed { charges: 0, max_charges: 4294967295 },
        ItemState::Locked { key_id: Some("brass_key".to_string()) },
        ItemState::Locked { key_id: None },
        ItemState::Open { contents: vec!["a".to_string(), "b".to_string()] },
    ]
    .into_iter()
    .map(|state| format_item_state(&item("x", state, false, None)))
    .collect();
    assert_eq!(
        texts,
        vec![
            "normal",
            "equipped",
            "damaged: 5/10",
            "charges: 0/4294967295",
            "locked by: Some(\"brass_key\")",
            "locked by: None",
            "open: 2 items",
        ]
    );
}

#[test]
fn item_types_are_named() {
    assert_eq!(ItemType::Weapon.to_string(), "Weapon");
    assert_eq!(ItemType::QuestItem.to_string(), "QuestItem");
    assert_eq!(ItemType::Material.to_string(), "Material");
}

#[test]
fn update_location_description_replaces_the_text() {
    let mut world = WorldState::new();
    assert_eq!(
        world.update_location_description("x"),
        Err(ToolError::EntityNotFound(Entity::CurrentLocation))
    );
    world.insert_location((0, 0), room(&[]));
    assert_eq!(
        world.update_location_description("Dusty now."),
        Ok("Location description updated".to_string())
    );
    assert_eq!(world.get_location((0, 0)).unwrap().description, "Dusty now.");
}

#[test]
fn inserting_replaces_what_has_the_same_key() {
    let mut world = WorldState::new();
    world.insert_location((1, 1), room(&["a"]));
    world.insert_location((1, 1), room(&["b"]));
    assert_eq!(world.locations.len(), 1);
    assert_eq!(world.get_location((1, 1)).unwrap().items, vec!["b"]);
    world.insert_item(item("x", ItemState::Normal, false, None));
    world.insert_item(item("x", ItemState::Equipped, false, None));
    assert_eq!(world.items.len(), 1);
    assert_eq!(world.get_item("x").unwrap().state, ItemState::Equipped);
    assert!(world.get_actor("x").is_none());
}

#[test]
fn inspection_writes_texts_as_the_debug_form_does() {
    let mut world = WorldState::new();
    let mut chest = item("chest", ItemState::Locked { key_id: Some("the \"old\" key".to_string()) }, false, Some("back\\slot"));
    chest.properties.damage = Some(3);
    chest.properties.status_effects = vec!["a\nb".to_string()];
    world.insert_item(chest);
    assert_eq!(
        world.inspect_object("chest"),
        Ok(format!(
            "Item: The chest\nDescription: \nType: Tool\nState: {:?}\nProperties: {:?}",
            ItemState::Locked { key_id: Some("the \"old\" key".to_string()) },
            world.get_item("chest").unwrap().properties
        ))
    );
    assert_eq!(
        format_item_state(world.get_item("chest").unwrap()),
        "locked by: Some(\"the \\\"old\\\" key\")"
    );
    let report = world.inspect_object("chest").unwrap();
    assert!(report.contains(r#"equip_slot: Some("back\\slot")"#));
    assert!(report.contains(r#"status_effects: ["a\nb"]"#));
    assert!(report.contains("damage: Some(3)"));
}
