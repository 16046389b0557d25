use llm_text_adventure::json::{is_complete_json, parse_json, JsonError, JsonValue};
use llm_text_adventure::llm::{LlmClient, ParseFault};
use llm_text_adventure::model::{ItemState, ItemType};
use llm_text_adventure::parsing::{ActionFault, ActionParser, ItemField, ParsedAction};

fn client() -> LlmClient {
    LlmClient::new("http://localhost:11434".to_string(), "test".to_string())
}

const TEST_ITEM: &str = r#"{"id":"test_item","name":"Test Item","description":"A test item","item_type":"Tool","state":"Normal","properties":{"damage":null,"defense":null,"value":10,"weight":1,"carryable":true,"usable":true,"equip_slot":null,"status_effects":[]}}"#;

#[test]
fn test_parse_location_valid_json() {
    let json = r#"{"name":"Test Location","description":"A test description","image_prompt":"Test prompt","exits":{"north":null,"south":null,"east":null,"west":null},"items":[],"actors":[]}"#;
    let result = client().parse_location_json(json);
    assert!(result.is_ok(), "Failed to parse valid location: {:?}", result);
    let loc = result.unwrap();
    assert_eq!(loc.name, "Test Location");
}

#[test]
fn test_parse_location_with_markdown() {
    let json = r#"Here is the location:

```json
{"name":"Test Location","description":"A test","image_prompt":"Test","exits":{"north":null},"items":[],"actors":[]}
```"#;
    let result = client().parse_location_json(json);
    assert!(result.is_ok(), "Failed to parse location with markdown: {:?}", result);
    assert_eq!(result.unwrap().name, "Test Location");
}

#[test]
fn test_parse_location_incomplete_json() {
    let json = r#"{"name":"Test","description":"A test","image_prompt":"Test","exits":{"#;
    let result = client().parse_location_json(json);
    assert!(result.is_err(), "Should fail on incomplete JSON");

}

#[test]
fn test_parse_location_extra_fields() {
    let json = r#"{"name":"Test","description":"A test","image_prompt":"Test","exits":{"north":null},"items":[],"actors":[],"extra_field":"ignored"}"#;
    let result = client().parse_location_json(json);
    assert!(result.is_ok(), "Should ignore extra fields: {:?}", result);
}

#[test]
fn test_is_complete_json_simple() {
    let client = client();
    assert!(client.is_complete_json(r#"{"name":"test"}"#));
    assert!(!client.is_complete_json(r#"{"name":"test""#));
}

#[test]
fn test_is_complete_json_nested() {
    let json = r#"{"name":"test","nested":{"inner":"value","array":[1,2,3]}}"#;
    assert!(client().is_complete_json(json));
}

#[test]
fn test_is_complete_json_with_strings() {
    let json = r#"{"name":"test with \"quotes\"","desc":"valid"}"#;
    assert!(client().is_complete_json(json));
}

#[test]
fn test_is_complete_json_with_backslash_in_string() {
    let json = r#"{"name":"test","desc":"has a backslash: \\\""}"#;
    assert!(client().is_complete_json(json));
}

#[test]
fn test_parse_location_with_whitespace() {
    let json = r#"
        
        {"name":"Test","description":"A test"}
        
        "#;
    let result = client().parse_location_json(json);
    assert!(result.is_ok(), "Failed to parse location with whitespace: {:?}", result);
    let loc = result.unwrap();
    assert_eq!(loc.image_prompt, "A mysterious location");
    assert!(loc.items.is_empty() && loc.actors.is_empty());
}

#[test]
fn test_parse_world_update_valid() {
    let json = r#"{"narrative":"Test narrative","actions":[],"suggested_actions":["act1","act2"]}"#;
    let result = client().parse_content(json);
    assert!(result.is_ok(), "Failed to parse valid world update: {:?}", result);
    assert_eq!(result.unwrap().suggested_actions, vec!["act1", "act2"]);
}

#[test]
fn test_parse_world_update_with_actions() {
    let json = r#"{"narrative":"You move north","actions":["MoveTo(0,1)"],"suggested_actions":["go south"]}"#;
    let result = client().parse_content(json);
    assert!(result.is_ok(), "Failed to parse world update with actions: {:?}", result);
    let update = result.unwrap();
    assert_eq!(update.actions.len(), 1);
    assert_eq!(update.narrative, "You move north");
}

#[test]
fn completeness_counts_braces_and_brackets_outside_strings() {
    assert!(is_complete_json(""));
    assert!(is_complete_json("no structure at all"));
    assert!(is_complete_json(r#"{"a":"}]{["}"#));
    assert!(!is_complete_json("}{"));
    assert!(!is_complete_json("]["));
    assert!(!is_complete_json("[{]"));
    assert!(is_complete_json("[{]}"));
    assert!(!is_complete_json(r#"{"a":"open}"#));
    assert!(!is_complete_json(r#"{"a":"x\"}"#));
    assert!(is_complete_json(r#"{"a":"x\\"}"#));
}

#[test]
fn answers_fail_with_a_named_error() {
    let c = client();
    let kind = |content: &str| c.parse_location_json(content).err().map(|e| e.kind);
    assert_eq!(kind("just prose"), Some(ParseFault::NoObject));
    assert_eq!(kind(r#""}{""#), Some(ParseFault::NoObject));
    assert_eq!(kind("{name: Test}"), Some(ParseFault::Syntax));
    assert_eq!(kind(r#"{"name": 7}"#), Some(ParseFault::Shape));
    assert_eq!(kind(r#"{"exits":{"north":"forest"}}"#), Some(ParseFault::Shape));
    assert_eq!(
        c.parse_location_json(r#"{"exits":{"north":[0,1],"south":null}}"#)
            .map(|l| l.exits.len()),
        Ok(0)
    );
    assert_eq!(kind(r#"{"exits":{"north":[0,3000000000]}}"#), Some(ParseFault::Shape));
    assert_eq!(kind(r#"{"items":["a",1]}"#), Some(ParseFault::Shape));
    assert_eq!(
        c.parse_content(r#"{"narrative":"x"}"#).err().map(|e| e.kind),
        Some(ParseFault::Shape)
    );
    assert_eq!(c.parse_content("[1, 2").err().map(|e| e.kind), Some(ParseFault::Incomplete));
}

#[test]
fn a_failure_to_read_a_location_tells_what_was_read() {
    let c = client();
    let text = |content: &str| c.parse_location_json(content).err().unwrap().to_string();
    let cut = c.parse_location_json(r#"{"name":"Test","exits":{"#).err().unwrap();
    assert_eq!(cut.kind, ParseFault::Incomplete);
    assert_eq!(
        cut.to_string(),
        "LLM response JSON appears incomplete (mismatched braces/brackets or unclosed string).\nFirst 300 chars: {\"name\":\"Test\",\"exits\":{\nThis usually means the LLM response was truncated. Try reducing max_tokens or the prompt length."
    );
    assert_eq!(
        text("  just prose \n"),
        "No JSON object found in LLM response.\nFirst 300 chars: just prose"
    );
    let long = "é".repeat(200);
    assert_eq!(
        text(&long),
        format!("No JSON object found in LLM response.\nFirst 300 chars: {}", "é".repeat(150))
    );
    assert_eq!(
        text("Here: {name: Test} done"),
        "Missing required fields: name, description, exits, items, actors. JSON: {name: Test}"
    );
    assert_eq!(
        text(r#"{"name": 7, "items": [], "exits": {}}"#),
        r#"Missing required fields: description, actors. JSON: {"name": 7, "items": [], "exits": {}}"#
    );
    assert_eq!(
        text(r#"{"name":1,"description":"","exits":{},"items":[],"actors":null}"#),
        r#"Failed to parse Location JSON. JSON: {"name":1,"description":"","exits":{},"items":[],"actors":null}"#
    );
}

#[test]
fn a_failure_to_read_a_proposal_tells_what_was_read() {
    let c = client();
    let text = |content: &str| c.parse_content(content).err().unwrap().to_string();
    assert_eq!(
        text(" [1, 2 "),
        "LLM response JSON appears incomplete (mismatched braces/brackets or unclosed string). Content: [1, 2..."
    );
    assert_eq!(
        text(&format!("[{}", "x".repeat(300))),
        format!(
            "LLM response JSON appears incomplete (mismatched braces/brackets or unclosed string). Content: [{}...",
            "x".repeat(199)
        )
    );
    assert_eq!(text(" nothing "), "No JSON object found in LLM response. Content: nothing");
    assert_eq!(
        text(r#"so: {"narrative": 5}"#),
        r#"Failed to parse WorldUpdate from LLM content. JSON: {"narrative": 5}"#
    );
    assert_eq!(
        text("{narrative}"),
        "Failed to parse WorldUpdate from LLM content. JSON: {narrative}"
    );
}

#[test]
fn a_location_takes_defaults_for_what_is_absent() {
    let loc = client().parse_location_json("{}").unwrap();
    assert_eq!(loc.name, "Unknown Location");
    assert_eq!(loc.description, "An unknown place.");
    assert_eq!(loc.image_prompt, "A mysterious location");
    assert!(loc.cached_image_path.is_none());
    let loc = client()
        .parse_location_json(
            r#"{"cached_image_path":"a.png","visited":true,"items":["x"],"actors":["y","z"]}"#,
        )
        .unwrap();
    assert_eq!(loc.cached_image_path.as_deref(), Some("a.png"));
    assert!(!loc.visited);
    assert_eq!(loc.items, vec!["x"]);
    assert_eq!(loc.actors, vec!["y", "z"]);
}

#[test]
fn the_completions_address_follows_the_base() {
    assert_eq!(
        client().completions_url(),
        "http://localhost:11434/v1/chat/completions"
    );
}

#[test]
fn documents_are_read_into_trees() {
    let v = parse_json(r#"{"b":[1,-2,2.5,"x",null,true],"a":{"k":18446744073709551615}}"#).unwrap();
    let b = v.get("b").unwrap().as_array().unwrap();
    assert_eq!(b.len(), 6);
    assert_eq!(b[0].as_u64(), Some(1));
    assert_eq!(b[1].as_u64(), None);
    assert!(matches!(&b[1], JsonValue::Number(n) if n.signed == Some(-2)));
    assert!(matches!(&b[2], JsonValue::Number(n) if n.signed.is_none() && n.unsigned.is_none()));
    assert_eq!(b[3].as_str(), Some("x"));
    assert!(matches!(b[4], JsonValue::Null));
    assert_eq!(b[5].as_bool(), Some(true));
    assert_eq!(v.get("a").unwrap().u64_field("k"), Some(u64::MAX));
    assert!(v.get("c").is_none());
    assert!(b[0].get("a").is_none());
    assert_eq!(v.str_field("a"), None);
    assert_eq!(v.bool_field("zzz"), None);
    assert_eq!(parse_json("{").err(), Some(JsonError::Syntax));
    assert_eq!(parse_json("{} {}").err(), Some(JsonError::Syntax));
    assert_eq!(parse_json("").err(), Some(JsonError::Syntax));
    let repeated = parse_json(r#"{"a":1,"a":2}"#).unwrap();
    assert_eq!(repeated.u64_field("a"), Some(2));
}

#[test]
fn test_parse_create_item_success() {
    let mut parser = ActionParser::new();
    let action = format!("CreateItem({})", TEST_ITEM);
    let result = parser.parse_action(&action);
    assert!(result.is_ok());
    match result.unwrap() {
        ParsedAction::CreateItem(parsed_item) => {
            assert_eq!(parsed_item.id, "test_item");
            assert_eq!(parsed_item.name, "Test Item");
            assert_eq!(parsed_item.item_type, ItemType::Tool);
            assert_eq!(parsed_item.properties.value, Some(10));
            assert!(parsed_item.properties.usable);
        }
        _ => panic!("Expected CreateItem action"),
    }
}

#[test]
fn test_parse_create_item_truncated_json() {
    let mut parser = ActionParser::new();
    let truncated_json = r#"{"id": "test_item", "name": "Test""#;
    let action = format!("CreateItem({})", truncated_json);
    let result = parser.parse_action(&action);
    assert!(result.is_err());
    let error_msg = result.unwrap_err().to_string();
    assert!(
        error_msg.contains("Failed to parse CreateItem JSON")
            || error_msg.contains("JSON must be wrapped in braces")
    );
}

#[test]
fn test_parse_create_item_missing_id() {
    let mut parser = ActionParser::new();
    let invalid_json = r#"{"name": "Test Item", "item_type": "Tool"}"#;
    let action = format!("CreateItem({})", invalid_json);
    let result = parser.parse_action(&action);
    assert!(result.is_err());
    assert!(result.unwrap_err().to_string().contains("missing required 'id' field"));
}

#[test]
fn test_parse_create_item_missing_name() {
    let mut parser = ActionParser::new();
    let invalid_json = r#"{"id": "test_item", "item_type": "Tool"}"#;
    let action = format!("CreateItem({})", invalid_json);
    let result = parser.parse_action(&action);
    assert!(result.is_err());
    assert!(result.unwrap_err().to_string().contains("missing required 'name' field"));
}

#[test]
fn test_parse_create_item_missing_item_type() {
    let mut parser = ActionParser::new();
    let invalid_json = r#"{"id": "test_item", "name": "Test Item"}"#;
    let action = format!("CreateItem({})", invalid_json);
    let result = parser.parse_action(&action);
    assert!(result.is_err());
    assert!(result
        .unwrap_err()
        .to_string()
        .contains("missing required 'item_type' field"));
}

#[test]
fn test_parse_create_item_invalid_format() {
    let mut parser = ActionParser::new();
    let result = parser.parse_action("CreateItem(invalid)");
    assert!(result.is_err());
    assert!(result.unwrap_err().to_string().contains("JSON must be wrapped in braces"));
}

#[test]
fn test_parse_action_too_short() {
    let mut parser = ActionParser::new();
    let result = parser.parse_action("CreateIte");
    assert!(result.is_err());
    assert!(result.unwrap_err().to_string().contains("Action too short"));
}

#[test]
fn test_parse_create_item_with_complex_state() {
    let mut parser = ActionParser::new();
    let json = r#"{"id":"damaged_sword","name":"Damaged Sword","description":"A sword that has seen better days","item_type":"Weapon","state":{"Damaged":{"durability":5,"max_durability":10}},"properties":{"damage":15,"defense":null,"value":25,"weight":3,"carryable":true,"usable":true,"equip_slot":"weapon","status_effects":[]}}"#;
    let action = format!("CreateItem({})", json);
    let result = parser.parse_action(&action);
    assert!(result.is_ok());
    match result.unwrap() {
        ParsedAction::CreateItem(parsed_item) => {
            assert_eq!(parsed_item.id, "damaged_sword");
            match parsed_item.state {
                ItemState::Damaged { durability, max_durability } => {
                    assert_eq!(durability, 5);
                    assert_eq!(max_durability, 10);
                }
                _ => panic!("Expected Damaged state"),
            }
            assert_eq!(parsed_item.properties.damage, Some(15));
            assert_eq!(parsed_item.properties.equip_slot.as_deref(), Some("weapon"));
        }
        _ => panic!("Expected CreateItem action"),
    }
}

#[test]
fn test_debug_logging() {
    let mut parser = ActionParser::new();
    let action = format!("CreateItem({})", TEST_ITEM);
    parser.parse_action(&action).unwrap();
    let log = parser.get_debug_log();
    assert!(!log.is_empty());
    assert!(log.iter().any(|entry| entry.contains("Parsing action")));
    assert!(log.iter().any(|entry| entry.contains("Successfully parsed CreateItem")));
}

fn unstamped(entry: &str) -> &str {
    let bytes = entry.as_bytes();
    assert!(bytes.len() >= 11, "no stamp in {:?}", entry);
    assert_eq!(bytes[0], b'[');
    for i in [1, 2, 4, 5, 7, 8] {
        assert!(bytes[i].is_ascii_digit(), "no stamp in {:?}", entry);
    }
    assert_eq!((bytes[3], bytes[6], bytes[9], bytes[10]), (b':', b':', b']', b' '));
    &entry[11..]
}

#[test]
fn the_parser_notes_what_it_reads_with_the_time() {
    let mut parser = ActionParser::new();
    let action = format!("  CreateItem( {} )  ", TEST_ITEM);
    parser.parse_action(&action).unwrap();
    let log: Vec<&str> = parser.get_debug_log().iter().map(|e| unstamped(e)).collect();
    assert_eq!(
        log,
        vec![
            format!("Parsing action: 'CreateItem( {} )'", TEST_ITEM),
            format!("CreateItem JSON string: '{}'", TEST_ITEM),
            "Successfully parsed CreateItem: test_item".to_string(),
        ]
    );
    parser.log_at("12:00:00", "noon");
    assert_eq!(parser.get_debug_log()[3], "[12:00:00] noon");
}

#[test]
fn actions_fail_with_a_named_error() {
    let mut parser = ActionParser::new();
    let error = parser.parse_action("   short   ").err().unwrap();
    assert_eq!(error.kind, ActionFault::TooShort);
    assert_eq!(error.to_string(), "Action too short: 'short'");
    let error = parser.parse_action("MoveTo(0, 1) and more").err().unwrap();
    assert_eq!(error.kind, ActionFault::UnknownFormat);
    assert_eq!(error.to_string(), "Unknown action format: 'MoveTo(0, 1) and more'");
    let error = parser.parse_action("CreateItem( [1, 2, 3] )").err().unwrap();
    assert_eq!(error.kind, ActionFault::MissingBraces);
    assert_eq!(error.to_string(), "CreateItem JSON must be wrapped in braces: [1, 2, 3]");
    let error = parser
        .parse_action(r#"CreateItem({"name":"n","item_type":"Tool"})"#)
        .err()
        .unwrap();
    assert_eq!(error.kind, ActionFault::MissingField(ItemField::Id));
    assert_eq!(
        error.to_string(),
        r#"CreateItem JSON missing required 'id' field: {"name":"n","item_type":"Tool"}"#
    );
    let error = parser
        .parse_action(r#"  CreateItem( {"id":"a","name":"n","item_type":"Gadget","description":"","state":"Normal","properties":{"carryable":true,"usable":false,"status_effects":[]}} )  "#)
        .err()
        .unwrap();
    assert_eq!(error.kind, ActionFault::InvalidItem);
    assert_eq!(
        error.to_string(),
        r#"Failed to parse CreateItem JSON. JSON was: {"id":"a","name":"n","item_type":"Gadget","description":"","state":"Normal","properties":{"carryable":true,"usable":false,"status_effects":[]}}"#
    );
    assert_eq!(
        parser
            .parse_action(r#"CreateItem({"id":"a","name":"n","item_type":"Key","description":"","state":"Normal","properties":{"carryable":true,"status_effects":[]}})"#)
            .err()
            .map(|e| e.kind),
        Some(ActionFault::InvalidItem)
    );
    assert_eq!(
        parser.parse_action(r#"CreateItem({"id":"a","item_type":"Tool"})"#).err().unwrap().to_string(),
        r#"CreateItem JSON missing required 'name' field: {"id":"a","item_type":"Tool"}"#
    );
    assert_eq!(
        parser.parse_action(r#"CreateItem({"id":"a","name":"n"})"#).err().unwrap().to_string(),
        r#"CreateItem JSON missing required 'item_type' field: {"id":"a","name":"n"}"#
    );
    let log: Vec<&str> = parser.get_debug_log().iter().map(|e| unstamped(e)).collect();
    assert_eq!(log.len(), 14);
    assert_eq!(log[0], "Parsing action: 'short'");
    assert_eq!(log[1], "Parsing action: 'MoveTo(0, 1) and more'");
    assert_eq!(log[3], "CreateItem JSON string: '[1, 2, 3]'");
}

#[test]
fn stored_items_carry_every_state() {
    let mut parser = ActionParser::new();
    let body = |state: &str| {
        format!(
            r#"CreateItem({{"id":"a","name":"n","description":"d","item_type":"Container","state":{},"properties":{{"carryable":false,"usable":false,"status_effects":["Poison"]}}}})"#,
            state
        )
    };
    let read = |parser: &mut ActionParser, state: &str| match parser.parse_action(&body(state)) {
        Ok(ParsedAction::CreateItem(item)) => Some(item.state),
        _ => None,
    };
    assert_eq!(read(&mut parser, r#""Equipped""#), Some(ItemState::Equipped));
    assert_eq!(
        read(&mut parser, r#"{"Consumed":{"charges":1,"max_charges":2}}"#),
        Some(ItemState::Consumed { charges: 1, max_charges: 2 })
    );
    assert_eq!(
        read(&mut parser, r#"{"Locked":{"key_id":"k"}}"#),
        Some(ItemState::Locked { key_id: Some("k".to_string()) })
    );
    assert_eq!(
        read(&mut parser, r#"{"Locked":{"key_id":null}}"#),
        Some(ItemState::Locked { key_id: None })
    );
    assert_eq!(
        read(&mut parser, r#"{"Open":{"contents":["x","y"]}}"#),
        Some(ItemState::Open { contents: vec!["x".to_string(), "y".to_string()] })
    );
    assert_eq!(read(&mut parser, r#""Broken""#), None);
    assert_eq!(read(&mut parser, r#"{"Damaged":{"durability":5}}"#), None);
    assert_eq!(
        read(&mut parser, r#"{"Damaged":{"durability":5,"max_durability":4294967296}}"#),
        None
    );
}
