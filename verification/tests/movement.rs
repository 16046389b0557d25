use llm_text_adventure::model::{Location, WorldState};
use llm_text_adventure::tools::{Entity, Field, ToolError};
use llm_text_adventure::travel::{
    get_opposite_direction, make_fallback_location, step_from, MovePlan,
};

fn place(name: &str) -> Location {
    Location {
        name: name.to_string(),
        description: format!("About {}", name),
        items: vec![],
        actors: vec![],
        exits: vec![],
        cached_image_path: None,
        image_prompt: String::new(),
        visited: false,
    }
}

fn world_with_start() -> WorldState {
    let mut world = WorldState::new();
    world.insert_location((0, 0), place("The Beginning"));
    world
}

#[test]
fn test_get_opposite_direction() {
    assert_eq!(get_opposite_direction("north"), "south");
    assert_eq!(get_opposite_direction("south"), "north");
    assert_eq!(get_opposite_direction("east"), "west");
    assert_eq!(get_opposite_direction("west"), "east");
    assert_eq!(get_opposite_direction("other"), "other");
}

#[test]
fn step_follows_the_axes() {
    assert_eq!(step_from((3, -4), "north"), Ok((3, -3)));
    assert_eq!(step_from((3, -4), "south"), Ok((3, -5)));
    assert_eq!(step_from((3, -4), "east"), Ok((4, -4)));
    assert_eq!(step_from((3, -4), "west"), Ok((2, -4)));
}

#[test]
fn step_rejects_unknown_directions_and_the_edge() {
    assert_eq!(
        step_from((0, 0), "up"),
        Err(ToolError::InvalidEnumValue(Field::Direction, "up".to_string()))
    );
    assert_eq!(step_from((0, i32::MAX), "north"), Err(ToolError::OutOfRange));
    assert_eq!(step_from((i32::MIN, 0), "west"), Err(ToolError::OutOfRange));
    assert_eq!(step_from((0, i32::MAX), "south"), Ok((0, i32::MAX - 1)));
}

#[test]
fn fallback_location_has_the_fixed_shape() {
    let loc = make_fallback_location((3, -4));
    assert_eq!(loc.name, "Mysterious area (3, -4)");
    assert_eq!(loc.description, "A mysterious place that appeared suddenly.");
    assert_eq!(
        loc.image_prompt,
        "A mysterious location with undefined characteristics."
    );
    assert!(loc.visited);
    assert!(loc.items.is_empty() && loc.actors.is_empty() && loc.exits.is_empty());
}

#[test]
fn moving_into_the_unexplored_without_a_location_falls_back() {
    let mut world = world_with_start();
    let ack = world.move_to("north", None).unwrap();
    assert_eq!(ack, "Moved north to (0, 1) - Mysterious area (0, 1)");
    assert_eq!(world.current_pos, (0, 1));
    let fresh = world.get_location((0, 1)).unwrap();
    assert_eq!(fresh.name, "Mysterious area (0, 1)");
    assert!(fresh.visited);
    assert_eq!(fresh.exit("south"), Some(Some((0, 0))));
    assert_eq!(fresh.exit("north"), None);
    let origin = world.get_location((0, 0)).unwrap();
    assert_eq!(origin.exit("north"), Some(Some((0, 1))));
}

#[test]
fn a_generated_location_is_placed_visited_and_without_its_own_exits() {
    let mut world = world_with_start();
    let mut generated = place("Forest Path");
    generated.set_exit("east", Some((9, 9)));
    generated.set_exit("south", None);
    let ack = world.move_to("east", Some(generated)).unwrap();
    assert_eq!(ack, "Moved east to (1, 0) - Forest Path");
    let fresh = world.get_location((1, 0)).unwrap();
    assert_eq!(fresh.name, "Forest Path");
    assert!(fresh.visited);
    assert_eq!(fresh.exits.len(), 1);
    assert_eq!(fresh.exit("west"), Some(Some((0, 0))));
    assert_eq!(
        world.get_location((0, 0)).unwrap().exit("east"),
        Some(Some((1, 0)))
    );
}

#[test]
fn there_and_back_again() {
    for d in ["north", "south", "east", "west"] {
        let mut world = world_with_start();
        world.move_to(d, None).unwrap();
        let target = world.current_pos;
        let back = get_opposite_direction(d);
        let ack = world.move_to(&back, Some(place("never placed"))).unwrap();
        assert!(ack.ends_with("The Beginning"));
        assert_eq!(world.current_pos, (0, 0));
        assert_eq!(world.locations.len(), 2);
        assert_eq!(
            world.get_location((0, 0)).unwrap().exit(d),
            Some(Some(target))
        );
        assert_eq!(
            world.get_location(target).unwrap().exit(&back),
            Some(Some((0, 0)))
        );
        assert!(world.get_location((0, 0)).unwrap().visited);
    }
}

#[test]
fn moving_to_a_known_location_leaves_exits_alone() {
    let mut world = world_with_start();
    world.insert_location((0, 1), place("Hill"));
    let ack = world.move_to("north", Some(place("ignored"))).unwrap();
    assert_eq!(ack, "Moved north to (0, 1) - Hill");
    assert!(world.get_location((0, 1)).unwrap().visited);
    assert!(world.get_location((0, 1)).unwrap().exits.is_empty());
    assert!(world.get_location((0, 0)).unwrap().exits.is_empty());
    assert_eq!(world.locations.len(), 2);
}

#[test]
fn a_move_that_cannot_be_made_changes_nothing() {
    let mut world = world_with_start();
    assert_eq!(
        world.move_to("sideways", None),
        Err(ToolError::InvalidEnumValue(Field::Direction, "sideways".to_string()))
    );
    assert_eq!(world.current_pos, (0, 0));
    let mut nowhere = WorldState::new();
    assert_eq!(
        nowhere.move_to("north", None),
        Err(ToolError::EntityNotFound(Entity::CurrentLocation))
    );
    assert_eq!(nowhere.current_pos, (0, 0));
    assert!(nowhere.locations.is_empty());
    let mut edge = WorldState::new();
    edge.current_pos = (i32::MAX, 0);
    edge.insert_location((i32::MAX, 0), place("Edge"));
    assert_eq!(edge.move_to("east", None), Err(ToolError::OutOfRange));
    assert_eq!(edge.current_pos, (i32::MAX, 0));
}

#[test]
fn planning_a_move_tells_travel_from_exploration() {
    let mut world = world_with_start();
    world.insert_location((1, 0), place("Meadow"));
    match world.plan_move("east").unwrap() {
        MovePlan::Travel { target } => assert_eq!(target, (1, 0)),
        MovePlan::Explore { .. } => panic!("the meadow is known"),
    }
    match world.plan_move("west").unwrap() {
        MovePlan::Explore { target, request } => {
            assert_eq!(target, (-1, 0));
            assert!(request.system_prompt.starts_with("You are a world generator"));
            assert!(request
                .prompt
                .starts_with("Current Location: The Beginning at (0, 0)\nDescription: About The Beginning\n\nThe player is heading west toward coordinates (-1, 0)."));
            assert!(request.prompt.contains("Create a new location at (-1, 0) that fits"));
            assert!(request.prompt.ends_with("Just the JSON. Nothing else."));
        }
        MovePlan::Travel { .. } => panic!("the west is unexplored"),
    }
    assert_eq!(
        world.plan_move("down").err(),
        Some(ToolError::InvalidEnumValue(Field::Direction, "down".to_string()))
    );
}

#[test]
fn set_exit_replaces_in_place() {
    let mut loc = place("Crossing");
    loc.set_exit("north", None);
    loc.set_exit("east", Some((1, 0)));
    loc.set_exit("north", Some((0, 1)));
    assert_eq!(loc.exits.len(), 2);
    assert_eq!(loc.exits[0].direction, "north");
    assert_eq!(loc.exit("north"), Some(Some((0, 1))));
    assert_eq!(loc.exit("east"), Some(Some((1, 0))));
    assert_eq!(loc.exit("west"), None);
}
