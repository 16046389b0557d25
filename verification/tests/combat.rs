use llm_text_adventure::combat::sort_combatants;
use llm_text_adventure::model::{
    Actor, CombatState, Combatant, Item, ItemProperties, ItemState, ItemType, StatusEffect,
    StatusType, WorldState,
};
use llm_text_adventure::tools::{CombatFault, Entity, ToolError};

fn actor(id: &str, pos: (i32, i32)) -> Actor {
    Actor {
        id: id.to_string(),
        name: id.to_uppercase(),
        description: String::new(),
        current_pos: pos,
        inventory: vec![],
        money: 0,
    }
}

fn fighter(id: &str, is_player: bool, hp: u32, initiative: u32) -> Combatant {
    Combatant {
        id: id.to_string(),
        is_player,
        hp,
        max_hp: 100,
        weapon_id: None,
        armor_id: None,
        initiative,
        status_effects: vec![],
        temp_defense: 0,
    }
}

fn effect(effect_type: StatusType, duration: u32, severity: u32) -> StatusEffect {
    StatusEffect { effect_type, duration, severity }
}

fn gear(id: &str, damage: Option<u32>, defense: Option<u32>) -> Item {
    Item {
        id: id.to_string(),
        name: id.to_string(),
        description: String::new(),
        item_type: ItemType::Weapon,
        state: ItemState::Normal,
        properties: ItemProperties {
            damage,
            defense,
            value: None,
            weight: None,
            carryable: true,
            usable: true,
            equip_slot: None,
            status_effects: vec![],
        },
    }
}

fn arena(combatants: Vec<Combatant>, turn: usize) -> WorldState {
    let mut world = WorldState::new();
    world.combat = CombatState {
        active: true,
        combatants,
        current_turn_index: turn,
        round_number: 1,
    };
    world
}

fn ids(world: &WorldState) -> Vec<&str> {
    world.combat.combatants.iter().map(|c| c.id.as_str()).collect()
}

fn names(list: &[&str]) -> Vec<String> {
    list.iter().map(|s| s.to_string()).collect()
}

#[test]
fn start_combat_lists_player_and_enemies_by_falling_initiative() {
    let mut world = WorldState::new();
    world.insert_actor(actor("rat", (0, 0)));
    world.insert_actor(actor("bat", (0, 0)));
    world.insert_actor(actor("cat", (0, 0)));
    let ack = world.start_combat_with_rolls(&names(&["rat", "bat", "cat"]), &vec![4, 39, 4, 19]);
    assert_eq!(ack, Ok("Started combat with 3 enemies".to_string()));
    assert!(world.combat.active);
    assert_eq!(world.combat.current_turn_index, 0);
    assert_eq!(world.combat.round_number, 1);
    assert_eq!(ids(&world), vec!["rat", "cat", "player", "bat"]);
    let initiatives: Vec<u32> = world.combat.combatants.iter().map(|c| c.initiative).collect();
    assert_eq!(initiatives, vec![20, 20, 5, 5]);
    let player = &world.combat.combatants[2];
    assert!(player.is_player);
    assert_eq!((player.hp, player.max_hp, player.temp_defense), (100, 100, 0));
    let rat = &world.combat.combatants[0];
    assert!(!rat.is_player);
    assert_eq!((rat.hp, rat.max_hp), (50, 50));
    assert!(rat.weapon_id.is_none() && rat.armor_id.is_none() && rat.status_effects.is_empty());
}

#[test]
fn equal_initiative_keeps_the_listed_order() {
    let sorted = sort_combatants(vec![
        fighter("a", true, 1, 7),
        fighter("b", false, 1, 9),
        fighter("c", false, 1, 7),
        fighter("d", false, 1, 9),
        fighter("e", false, 1, 1),
    ]);
    let order: Vec<&str> = sorted.iter().map(|c| c.id.as_str()).collect();
    assert_eq!(order, vec!["b", "d", "a", "c", "e"]);
}

#[test]
fn start_combat_passes_over_names_without_an_actor() {
    let mut world = WorldState::new();
    world.insert_actor(actor("rat", (0, 0)));
    let ack = world.start_combat_with_rolls(&names(&["ghost", "rat"]), &vec![0, 5, 0]);
    assert_eq!(ack, Ok("Started combat with 2 enemies".to_string()));
    assert_eq!(ids(&world), vec!["player", "rat"]);
}

#[test]
fn start_combat_is_rejected_when_active_over_the_cap_or_elsewhere() {
    let mut world = WorldState::new();
    world.insert_actor(actor("rat", (0, 0)));
    world.insert_actor(actor("owl", (5, 5)));
    assert_eq!(
        world.start_combat_with_rolls(&names(&["a", "b", "c", "d"]), &vec![1, 2, 3, 4, 5]),
        Err(ToolError::CombatPrecondition(CombatFault::TooManyCombatants(4)))
    );
    assert_eq!(
        world.start_combat_with_rolls(&names(&["rat", "owl"]), &vec![1, 2, 3]),
        Err(ToolError::CombatPrecondition(CombatFault::EnemyElsewhere("owl".to_string())))
    );
    assert!(!world.combat.active);
    assert!(world.combat.combatants.is_empty());
    world.start_combat_with_rolls(&names(&["rat"]), &vec![1, 2]).unwrap();
    assert_eq!(
        world.start_combat_with_rolls(&names(&[]), &vec![1]),
        Err(ToolError::CombatPrecondition(CombatFault::AlreadyActive))
    );
    assert_eq!(world.combat.combatants.len(), 2);
}

#[test]
fn start_combat_at_the_cap_is_accepted() {
    let mut world = WorldState::new();
    for id in ["a", "b", "c"] {
        world.insert_actor(actor(id, (0, 0)));
    }
    world
        .start_combat_with_rolls(&names(&["a", "b", "c"]), &vec![0, 0, 0, 0])
        .unwrap();
    assert_eq!(world.combat.combatants.len(), 4);
}

#[test]
fn attack_damage_is_weapon_less_defense_and_at_least_one() {
    let mut world = arena(
        vec![fighter("player", true, 100, 2), fighter("rat", false, 50, 1)],
        0,
    );
    world.insert_item(gear("sword", Some(15), None));
    world.insert_item(gear("plate", None, Some(4)));
    world.insert_item(gear("stick", None, None));
    world.combat.combatants[1].armor_id = Some("plate".to_string());
    world.combat.combatants[1].temp_defense = 5;
    assert_eq!(
        world.attack_actor("player", "rat", Some("sword")),
        Ok("player attacked rat for 6 damage".to_string())
    );
    assert_eq!(world.combat.combatants[1].hp, 44);
    assert_eq!(
        world.attack_actor("player", "rat", None),
        Ok("player attacked rat for 1 damage".to_string())
    );
    assert_eq!(
        world.attack_actor("player", "rat", Some("stick")),
        Ok("player attacked rat for 1 damage".to_string())
    );
    assert_eq!(
        world.attack_actor("player", "rat", Some("unknown")),
        Ok("player attacked rat for 1 damage".to_string())
    );
    assert_eq!(world.combat.combatants[1].hp, 41);
    assert_eq!(
        world.attack_actor("rat", "player", None),
        Ok("rat attacked player for 5 damage".to_string())
    );
    assert_eq!(world.combat.combatants[0].hp, 95);
}

#[test]
fn attack_against_huge_defense_still_does_one_damage() {
    let mut world = arena(
        vec![fighter("player", true, 100, 2), fighter("rat", false, 1, 1)],
        0,
    );
    world.insert_item(gear("wall", None, Some(u32::MAX)));
    world.combat.combatants[1].armor_id = Some("wall".to_string());
    world.combat.combatants[1].temp_defense = u32::MAX;
    assert_eq!(
        world.attack_actor("player", "rat", None),
        Ok("player attacked rat for 1 damage".to_string())
    );
    assert_eq!(world.combat.combatants[1].hp, 0);
    world.attack_actor("player", "rat", None).unwrap();
    assert_eq!(world.combat.combatants[1].hp, 0);
}

#[test]
fn attack_is_rejected_without_combat_or_combatants() {
    let mut world = WorldState::new();
    assert_eq!(
        world.attack_actor("player", "rat", None),
        Err(ToolError::CombatPrecondition(CombatFault::NotActive))
    );
    let mut world = arena(vec![fighter("player", true, 100, 1)], 0);
    assert_eq!(
        world.attack_actor("ghost", "player", None),
        Err(ToolError::EntityNotFound(Entity::Attacker))
    );
    assert_eq!(
        world.attack_actor("player", "ghost", None),
        Err(ToolError::EntityNotFound(Entity::Target))
    );
    assert_eq!(world.combat.combatants[0].hp, 100);
}

#[test]
fn defend_adds_five_and_stops_at_the_top() {
    let mut world = arena(vec![fighter("player", true, 100, 1)], 0);
    assert_eq!(
        world.defend("player"),
        Ok("player is defending (+5 temp defense)".to_string())
    );
    world.defend("player").unwrap();
    assert_eq!(world.combat.combatants[0].temp_defense, 10);
    world.combat.combatants[0].temp_defense = u32::MAX - 2;
    world.defend("player").unwrap();
    assert_eq!(world.combat.combatants[0].temp_defense, u32::MAX);
    assert_eq!(
        world.defend("ghost"),
        Err(ToolError::EntityNotFound(Entity::Actor))
    );
    world.combat.active = false;
    assert_eq!(
        world.defend("player"),
        Err(ToolError::CombatPrecondition(CombatFault::NotActive))
    );
}

#[test]
fn flee_succeeds_from_ten_and_fails_below() {
    for roll in [0u32, 9, 20, 29, 4_000_000_009] {
        let mut world = arena(
            vec![fighter("player", true, 100, 2), fighter("rat", false, 50, 1)],
            0,
        );
        assert_eq!(
            world.flee_with_roll("rat", roll),
            Ok("rat failed to flee".to_string()),
            "roll {}",
            roll
        );
        assert_eq!(world.combat.combatants.len(), 2);
        assert!(world.combat.active);
    }
    for roll in [10u32, 19, 30, 39, 4_000_000_019] {
        let mut world = arena(
            vec![fighter("player", true, 100, 2), fighter("rat", false, 50, 1)],
            0,
        );
        assert_eq!(
            world.flee_with_roll("rat", roll),
            Ok("rat fled successfully!".to_string()),
            "roll {}",
            roll
        );
        assert_eq!(ids(&world), vec!["player"]);
        assert!(!world.combat.active);
    }
}

#[test]
fn flee_keeps_combat_going_while_both_sides_remain() {
    let mut world = arena(
        vec![
            fighter("player", true, 100, 3),
            fighter("rat", false, 50, 2),
            fighter("bat", false, 50, 1),
        ],
        2,
    );
    world.flee_with_roll("bat", 15).unwrap();
    assert!(world.combat.active);
    assert_eq!(ids(&world), vec!["player", "rat"]);
    assert_eq!(world.combat.current_turn_index, 0);
    let mut world = arena(
        vec![
            fighter("player", true, 100, 3),
            fighter("rat", false, 50, 2),
            fighter("bat", false, 50, 1),
        ],
        1,
    );
    world.flee_with_roll("nobody", 15).unwrap();
    assert_eq!(world.combat.combatants.len(), 3);
    assert_eq!(world.combat.current_turn_index, 1);
    world.combat.active = false;
    assert_eq!(
        world.flee_with_roll("rat", 15),
        Err(ToolError::CombatPrecondition(CombatFault::NotActive))
    );
}

#[test]
fn using_an_item_in_combat_heals_up_to_the_maximum() {
    let mut world = arena(
        vec![fighter("player", true, 70, 2), fighter("rat", false, 50, 1)],
        0,
    );
    let mut potion = gear("potion", None, None);
    potion.state = ItemState::Consumed { charges: 2, max_charges: 2 };
    world.insert_item(potion);
    world.add_item_to_inventory("potion");
    assert_eq!(
        world.use_item_in_combat("player", "potion"),
        Ok("player used potion and healed for 20".to_string())
    );
    assert_eq!(world.combat.combatants[0].hp, 90);
    assert_eq!(
        world.get_item("potion").unwrap().state,
        ItemState::Consumed { charges: 1, max_charges: 2 }
    );
    world.use_item_in_combat("player", "potion").unwrap();
    assert_eq!(world.combat.combatants[0].hp, 100);
    assert!(world.player.inventory.is_empty());
    assert!(world.get_item("potion").is_some());
    assert_eq!(
        world.use_item_in_combat("player", "potion"),
        Err(ToolError::EntityNotFound(Entity::InventoryItem("potion".to_string())))
    );
}

#[test]
fn using_an_item_in_combat_names_each_failure() {
    let mut world = arena(vec![fighter("player", true, 70, 2)], 0);
    let mut rock = gear("rock", None, None);
    rock.properties.usable = false;
    world.insert_item(rock);
    world.add_item_to_inventory("rock");
    world.add_item_to_inventory("mist");
    assert_eq!(
        world.use_item_in_combat("ghost", "rock"),
        Err(ToolError::EntityNotFound(Entity::User))
    );
    assert_eq!(
        world.use_item_in_combat("player", "absent"),
        Err(ToolError::EntityNotFound(Entity::InventoryItem("absent".to_string())))
    );
    assert_eq!(
        world.use_item_in_combat("player", "mist"),
        Err(ToolError::EntityNotFound(Entity::Item("mist".to_string())))
    );
    assert_eq!(
        world.use_item_in_combat("player", "rock"),
        Err(ToolError::CombatPrecondition(CombatFault::ItemNotUsable("rock".to_string())))
    );
    assert_eq!(world.combat.combatants[0].hp, 70);
    world.combat.active = false;
    assert_eq!(
        world.use_item_in_combat("player", "rock"),
        Err(ToolError::CombatPrecondition(CombatFault::NotActive))
    );
}

#[test]
fn end_turn_is_only_for_the_combatant_whose_turn_it_is() {
    let mut world = arena(
        vec![fighter("player", true, 100, 2), fighter("rat", false, 50, 1)],
        0,
    );
    world.combat.combatants[1].temp_defense = 5;
    assert_eq!(
        world.end_turn("rat"),
        Err(ToolError::CombatPrecondition(CombatFault::NotYourTurn("rat".to_string())))
    );
    assert_eq!(world.combat.combatants[1].temp_defense, 5);
    assert_eq!(world.end_turn("player"), Ok("Turn ended. Next: rat".to_string()));
    assert_eq!(world.combat.current_turn_index, 1);
    assert_eq!(world.combat.round_number, 1);
    world.combat.active = false;
    assert_eq!(
        world.end_turn("rat"),
        Err(ToolError::CombatPrecondition(CombatFault::NotActive))
    );
}

#[test]
fn end_turn_clears_every_temporary_defense() {
    let mut world = arena(
        vec![
            fighter("player", true, 100, 3),
            fighter("rat", false, 50, 2),
            fighter("bat", false, 50, 1),
        ],
        0,
    );
    for c in world.combat.combatants.iter_mut() {
        c.temp_defense = 15;
    }
    world.end_turn("player").unwrap();
    assert!(world.combat.combatants.iter().all(|c| c.temp_defense == 0));
}

#[test]
fn end_turn_skips_the_stunned_and_wears_their_stun() {
    let mut world = arena(
        vec![
            fighter("player", true, 100, 3),
            fighter("rat", false, 50, 2),
            fighter("bat", false, 50, 1),
        ],
        0,
    );
    world.combat.combatants[1].status_effects = vec![
        effect(StatusType::Poison, 3, 2),
        effect(StatusType::Stunned, 2, 0),
        effect(StatusType::Stunned, 0, 0),
    ];
    assert_eq!(world.end_turn("player"), Ok("Turn ended. Next: bat".to_string()));
    assert_eq!(world.combat.current_turn_index, 2);
    assert_eq!(
        world.combat.combatants[1].status_effects,
        vec![
            effect(StatusType::Poison, 3, 2),
            effect(StatusType::Stunned, 1, 0),
            effect(StatusType::Stunned, 0, 0),
        ]
    );
    assert_eq!(world.combat.round_number, 1);
    assert_eq!(world.combat.combatants[1].hp, 50);
}

#[test]
fn a_round_wrap_counts_ages_and_eliminates() {
    let mut world = arena(
        vec![
            fighter("player", true, 100, 3),
            fighter("rat", false, 7, 2),
            fighter("bat", false, 50, 1),
        ],
        2,
    );
    world.combat.round_number = 4;
    world.combat.combatants[0].status_effects = vec![
        effect(StatusType::Poison, 2, 3),
        effect(StatusType::Burning, 1, 4),
        effect(StatusType::Frozen, 5, 100),
        effect(StatusType::Bleeding, 1, 100),
    ];
    world.combat.combatants[1].status_effects = vec![effect(StatusType::Burning, 9, 7)];
    world.combat.combatants[2].temp_defense = 10;
    assert_eq!(world.end_turn("bat"), Ok("Turn ended. Next: player".to_string()));
    assert_eq!(world.combat.round_number, 5);
    assert_eq!(ids(&world), vec!["player", "bat"]);
    assert_eq!(world.combat.current_turn_index, 0);
    assert!(world.combat.active);
    let player = &world.combat.combatants[0];
    assert_eq!(player.hp, 93);
    assert_eq!(
        player.status_effects,
        vec![effect(StatusType::Poison, 1, 3), effect(StatusType::Frozen, 4, 100)]
    );
    assert_eq!(world.combat.combatants[1].temp_defense, 0);
}

#[test]
fn a_round_wrap_turns_to_the_first_who_is_not_stunned() {
    let mut world = arena(
        vec![fighter("player", true, 100, 2), fighter("rat", false, 50, 1)],
        1,
    );
    world.combat.combatants[0].status_effects = vec![effect(StatusType::Stunned, 3, 0)];
    assert_eq!(world.end_turn("rat"), Ok("Turn ended. Next: rat".to_string()));
    assert_eq!(world.combat.current_turn_index, 1);
    assert_eq!(
        world.combat.combatants[0].status_effects,
        vec![effect(StatusType::Stunned, 2, 0)]
    );
    world.combat.combatants[1].status_effects = vec![effect(StatusType::Stunned, 3, 0)];
    assert_eq!(world.end_turn("rat"), Ok("Turn ended. Next: player".to_string()));
    assert_eq!(world.combat.current_turn_index, 0);
    assert_eq!(world.combat.round_number, 3);
}

#[test]
fn a_round_wrap_that_empties_a_side_ends_combat() {
    let mut world = arena(
        vec![fighter("player", true, 100, 2), fighter("rat", false, 3, 1)],
        1,
    );
    world.combat.combatants[1].status_effects = vec![effect(StatusType::Poison, 4, 3)];
    assert_eq!(world.end_turn("rat"), Ok("Combat ended".to_string()));
    assert!(!world.combat.active);
    assert_eq!(ids(&world), vec!["player"]);
    assert_eq!(world.combat.round_number, 2);
}

#[test]
fn damage_over_time_stops_at_zero() {
    let mut world = arena(
        vec![fighter("player", true, 5, 2), fighter("rat", false, 50, 1)],
        1,
    );
    world.combat.combatants[0].status_effects = vec![
        effect(StatusType::Burning, 2, u32::MAX),
        effect(StatusType::Poison, 2, u32::MAX),
    ];
    assert_eq!(world.end_turn("rat"), Ok("Combat ended".to_string()));
    assert_eq!(ids(&world), vec!["rat"]);
}

#[test]
fn an_effect_that_has_run_out_is_dropped_at_the_round_wrap() {
    let mut world = arena(
        vec![fighter("player", true, 50, 2), fighter("rat", false, 50, 1)],
        1,
    );
    world.combat.combatants[0].status_effects = vec![effect(StatusType::Frozen, 0, 1)];
    world.combat.round_number = u32::MAX;
    world.end_turn("rat").unwrap();
    assert!(world.combat.combatants[0].status_effects.is_empty());
    assert_eq!(world.combat.round_number, u32::MAX);
}
