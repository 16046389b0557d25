//! Actions written as text, from the time before tool calls: a name, and in
//! parentheses the document that describes what to do.
use crate::json::{json_document, parse_json, JsonValue};
use crate::llm::optional_text;
use crate::model::{
    opt_view, Item, ItemProperties, ItemPropertiesView, ItemState, ItemStateView, ItemType,
    ItemView, Location, Pos,
};
use crate::text::{
    chars_contain, chars_end_with, chars_of, chars_start_with, ends_with, from_chars, has_part,
    join2, join3, lemma_noted_more, logged_entry, note, note_at, noted, noted_all, owned,
    shorter_than, slice_chars, stamped, starts_with, trim_chars, trimmed, utf8_len, views,
};
use crate::tools::{item_type_of, read_item_type, read_texts, texts_of};
use vstd::prelude::*;

verus! {

/// An action that was read from text.
#[derive(Debug)]
pub enum ParsedAction {
    MoveTo(i32, i32),
    CreateLocation(Pos, Location),
    UpdateLocation(Pos, Location),
    CreateItem(Item),
    AddItemToInventory(String),
    RemoveItemFromInventory(String),
    AddItemToLocation { pos: Pos, item_id: String },
    RemoveItemFromLocation { pos: Pos, item_id: String },
    UseItem(String),
    EquipItem(String),
    UnequipItem(String),
    CombineItems { item1_id: String, item2_id: String, result_id: String },
    SetItemState { item_id: String, state: JsonValue },
    BreakItem(String),
    AddItemToContainer { container_id: String, item_id: String },
    RemoveItemFromContainer { container_id: String, item_id: String },
}

/// A field that the description of an item has to name.
#[derive(Debug, Clone, Copy, PartialEq, Eq, Structural)]
pub enum ItemField {
    Id,
    Name,
    ItemType,
}

/// The kind of failure to read a text as an action.
#[derive(Debug, Clone, Copy, PartialEq, Eq, Structural)]
pub enum ActionFault {
    /// The text is too short to be an action: it was cut off.
    TooShort,
    /// The text has not the form of any action.
    UnknownFormat,
    /// What stands in the parentheses is not wrapped in braces.
    MissingBraces,
    /// The description does not so much as mention a field it has to have.
    MissingField(ItemField),
    /// The description is no well-formed document, or not that of an item.
    InvalidItem,
}

/// Why a text could not be read as an action: the kind of the failure, and
/// the text that tells of it.
#[derive(Debug, Clone, PartialEq, Eq)]
pub struct ActionError {
    pub kind: ActionFault,
    pub message: String,
}

impl ActionError {
    /// The text that describes the failure.
    pub fn to_string(&self) -> (r: String)
        ensures
            r@ == self.message@,
    {
        self.message.clone()
    }
}

/// The key of a field that the description of an item has to mention.
pub open spec fn item_field_key(f: ItemField) -> Seq<char> {
    match f {
        ItemField::Id => "id"@,
        ItemField::Name => "name"@,
        ItemField::ItemType => "item_type"@,
    }
}

/// The text that tells of a failure to read the text `text` as an action:
/// what the failure is, and the action or the description it was found in.
pub open spec fn action_fault_text(kind: ActionFault, text: Seq<char>) -> Seq<char> {
    let action = trimmed(text);
    match kind {
        ActionFault::TooShort => "Action too short: '"@ + action + "'"@,
        ActionFault::UnknownFormat => "Unknown action format: '"@ + action + "'"@,
        ActionFault::MissingBraces => "CreateItem JSON must be wrapped in braces: "@
            + create_item_body(action),
        ActionFault::MissingField(f) => "CreateItem JSON missing required '"@ + item_field_key(f)
            + "' field: "@ + create_item_body(action),
        ActionFault::InvalidItem => "Failed to parse CreateItem JSON. JSON was: "@
            + create_item_body(action),
    }
}

/// Writes what tells of a failure that was found in the description `body`.
fn write_body_fault(kind: ActionFault, body: &str) -> (r: String)
    requires
        kind is MissingBraces || kind is MissingField || kind is InvalidItem,
    ensures
        r@ == (match kind {
            ActionFault::MissingBraces => "CreateItem JSON must be wrapped in braces: "@ + body@,
            ActionFault::MissingField(f) => "CreateItem JSON missing required '"@
                + item_field_key(f) + "' field: "@ + body@,
            _ => "Failed to parse CreateItem JSON. JSON was: "@ + body@,
        }),
{
    match kind {
        ActionFault::MissingBraces => join2("CreateItem JSON must be wrapped in braces: ", body),
        ActionFault::MissingField(f) => {
            let key = match f {
                ItemField::Id => "id",
                ItemField::Name => "name",
                ItemField::ItemType => "item_type",
            };
            let mut out = join3("CreateItem JSON missing required '", key, "' field: ");
            out.append(body);
            out
        },
        _ => join2("Failed to parse CreateItem JSON. JSON was: ", body),
    }
}

// ---------------------------------------------------------------------------
// The stored form of an item
// ---------------------------------------------------------------------------
/// A number that fits 32 bits.
pub open spec fn small_number(v: JsonValue) -> Option<u32> {
    match v.unsigned() {
        Some(n) => if n <= u32::MAX {
            Some(n as u32)
        } else {
            None
        },
        None => None,
    }
}

/// The number under `key`, which has to be there.
pub open spec fn needed_number(v: JsonValue, key: Seq<char>) -> Option<u32> {
    match v.member(key) {
        Some(m) => small_number(m),
        None => None,
    }
}

/// The number under `key`: none where the key is absent or null, and a
/// failure where the value is of another kind.
pub open spec fn optional_number(v: JsonValue, key: Seq<char>) -> Option<Option<u32>> {
    match v.member(key) {
        None => Some(None),
        Some(JsonValue::Null) => Some(None),
        Some(m) => match small_number(m) {
            Some(n) => Some(Some(n)),
            None => None,
        },
    }
}

/// The list of texts under `key`, which has to be there.
pub open spec fn needed_texts(v: JsonValue, key: Seq<char>) -> Option<Seq<Seq<char>>> {
    match v.field(key).elements() {
        Some(elements) => texts_of(elements),
        None => None,
    }
}

/// The state that a stored item declares: the name of a state without
/// counters, or an object with one member named after the state.
pub open spec fn stored_state(v: JsonValue) -> Option<ItemStateView> {
    match v.text() {
        Some(tag) => if tag == "Normal"@ {
            Some(ItemStateView::Normal)
        } else if tag == "Equipped"@ {
            Some(ItemStateView::Equipped)
        } else {
            None
        },
        None => match v.member("Damaged"@) {
            Some(d) => match (needed_number(d, "durability"@), needed_number(d, "max_durability"@)) {
                (Some(durability), Some(max_durability)) => Some(
                    ItemStateView::Damaged { durability, max_durability },
                ),
                _ => None,
            },
            None => match v.member("Consumed"@) {
                Some(c) => match (needed_number(c, "charges"@), needed_number(c, "max_charges"@)) {
                    (Some(charges), Some(max_charges)) => Some(
                        ItemStateView::Consumed { charges, max_charges },
                    ),
                    _ => None,
                },
                None => match v.member("Locked"@) {
                    Some(l) => match optional_text(l, "key_id"@) {
                        Some(key_id) => Some(ItemStateView::Locked { key_id }),
                        None => None,
                    },
                    None => match v.member("Open"@) {
                        Some(o) => match needed_texts(o, "contents"@) {
                            Some(contents) => Some(ItemStateView::Open { contents }),
                            None => None,
                        },
                        None => None,
                    },
                },
            },
        },
    }
}

/// The properties that a stored item declares. The numbers and the slot may
/// be absent; the two flags and the list of effects have to be there.
pub open spec fn stored_properties(p: JsonValue) -> Option<ItemPropertiesView> {
    match (
        optional_number(p, "damage"@),
        optional_number(p, "defense"@),
        optional_number(p, "value"@),
        optional_number(p, "weight"@),
        p.field("carryable"@).boolean(),
        p.field("usable"@).boolean(),
        optional_text(p, "equip_slot"@),
        needed_texts(p, "status_effects"@),
    ) {
        (
            Some(damage),
            Some(defense),
            Some(value),
            Some(weight),
            Some(carryable),
            Some(usable),
            Some(equip_slot),
            Some(status_effects),
        ) => Some(
            ItemPropertiesView {
                damage,
                defense,
                value,
                weight,
                carryable,
                usable,
                equip_slot,
                status_effects,
            },
        ),
        _ => None,
    }
}

/// The item that a document stores, where it stores one: identifier, name,
/// description, type, state and properties all have to be there.
pub open spec fn stored_item(v: JsonValue) -> Option<ItemView> {
    match (
        v.field("id"@).text(),
        v.field("name"@).text(),
        v.field("description"@).text(),
        v.field("item_type"@).text(),
        v.member("state"@),
        v.member("properties"@),
    ) {
        (Some(id), Some(name), Some(description), Some(tag), Some(s), Some(p)) => match (
            item_type_of(tag),
            stored_state(s),
            stored_properties(p),
        ) {
            (Some(item_type), Some(state), Some(properties)) => Some(
                ItemView { id, name, description, item_type, state, properties },
            ),
            _ => None,
        },
        _ => None,
    }
}

fn read_small_number(v: &JsonValue) -> (r: Option<u32>)
    ensures
        r == small_number(*v),
{
    match v.as_u64() {
        Some(n) => if n <= 0xffff_ffff {
            Some(n as u32)
        } else {
            None
        },
        None => None,
    }
}

fn read_needed_number(v: &JsonValue, key: &str) -> (r: Option<u32>)
    ensures
        r == needed_number(*v, key@),
{
    match v.get(key) {
        Some(m) => read_small_number(m),
        None => None,
    }
}

fn read_optional_number(v: &JsonValue, key: &str) -> (r: Option<Option<u32>>)
    ensures
        r == optional_number(*v, key@),
{
    match v.get(key) {
        None => Some(None),
        Some(JsonValue::Null) => Some(None),
        Some(m) => match read_small_number(m) {
            Some(n) => Some(Some(n)),
            None => None,
        },
    }
}

/// The view of an optional optional text.
pub open spec fn opt_opt_view(o: Option<Option<String>>) -> Option<Option<Seq<char>>> {
    match o {
        Some(inner) => Some(opt_view(inner)),
        None => None,
    }
}

fn read_optional_text(v: &JsonValue, key: &str) -> (r: Option<Option<String>>)
    ensures
        opt_opt_view(r) == optional_text(*v, key@),
{
    match v.get(key) {
        None => Some(None),
        Some(JsonValue::Null) => Some(None),
        Some(m) => match m.as_str() {
            Some(t) => Some(Some(owned(t))),
            None => None,
        },
    }
}

fn read_needed_texts(v: &JsonValue, key: &str) -> (r: Option<Vec<String>>)
    ensures
        match r {
            Some(list) => needed_texts(*v, key@) == Some(views(list@)),
            None => needed_texts(*v, key@) is None,
        },
{
    match v.get(key) {
        Some(m) => match m.as_array() {
            Some(elements) => read_texts(elements),
            None => None,
        },
        None => None,
    }
}

fn read_stored_state(v: &JsonValue) -> (r: Option<ItemState>)
    ensures
        match r {
            Some(s) => stored_state(*v) == Some(s@),
            None => stored_state(*v) is None,
        },
{
    if let Some(tag) = v.as_str() {
        if crate::text::same_text(tag, "Normal") {
            Some(ItemState::Normal)
        } else if crate::text::same_text(tag, "Equipped") {
            Some(ItemState::Equipped)
        } else {
            None
        }
    } else if let Some(d) = v.get("Damaged") {
        match (read_needed_number(d, "durability"), read_needed_number(d, "max_durability")) {
            (Some(durability), Some(max_durability)) => Some(
                ItemState::Damaged { durability, max_durability },
            ),
            _ => None,
        }
    } else if let Some(c) = v.get("Consumed") {
        match (read_needed_number(c, "charges"), read_needed_number(c, "max_charges")) {
            (Some(charges), Some(max_charges)) => Some(ItemState::Consumed { charges, max_charges }),
            _ => None,
        }
    } else if let Some(l) = v.get("Locked") {
        match read_optional_text(l, "key_id") {
            Some(key_id) => Some(ItemState::Locked { key_id }),
            None => None,
        }
    } else if let Some(o) = v.get("Open") {
        match read_needed_texts(o, "contents") {
            Some(contents) => Some(ItemState::Open { contents }),
            None => None,
        }
    } else {
        None
    }
}

fn read_stored_properties(p: &JsonValue) -> (r: Option<ItemProperties>)
    ensures
        match r {
            Some(props) => stored_properties(*p) == Some(props@),
            None => stored_properties(*p) is None,
        },
{
    match (
        read_optional_number(p, "damage"),
        read_optional_number(p, "defense"),
        read_optional_number(p, "value"),
        read_optional_number(p, "weight"),
        p.bool_field("carryable"),
        p.bool_field("usable"),
        read_optional_text(p, "equip_slot"),
        read_needed_texts(p, "status_effects"),
    ) {
        (
            Some(damage),
            Some(defense),
            Some(value),
            Some(weight),
            Some(carryable),
            Some(usable),
            Some(equip_slot),
            Some(status_effects),
        ) => Some(
            ItemProperties {
                damage,
                defense,
                value,
                weight,
                carryable,
                usable,
                equip_slot,
                status_effects,
            },
        ),
        _ => None,
    }
}

/// Decodes the item that a document stores.
pub fn item_from_json(v: &JsonValue) -> (r: Option<Item>)
    ensures
        match r {
            Some(item) => stored_item(*v) == Some(item@),
            None => stored_item(*v) is None,
        },
{
    let id = match v.str_field("id") {
        Some(t) => owned(t),
        None => {
            return None;
        },
    };
    let name = match v.str_field("name") {
        Some(t) => owned(t),
        None => {
            return None;
        },
    };
    let description = match v.str_field("description") {
        Some(t) => owned(t),
        None => {
            return None;
        },
    };
    let item_type = match v.str_field("item_type") {
        Some(tag) => read_item_type(tag),
        None => {
            return None;
        },
    };
    let state = match v.get("state") {
        Some(s) => read_stored_state(s),
        None => {
            return None;
        },
    };
    let properties = match v.get("properties") {
        Some(p) => read_stored_properties(p),
        None => {
            return None;
        },
    };
    match (item_type, state, properties) {
        (Some(item_type), Some(state), Some(properties)) => Some(
            Item { id, name, description, item_type, state, properties },
        ),
        _ => None,
    }
}

// ---------------------------------------------------------------------------
// Reading actions
// ---------------------------------------------------------------------------
/// What opens the text of an action that creates an item.
pub const CREATE_ITEM_OPEN: &'static str = "CreateItem(";

/// An action has to take at least this many bytes.
pub const MIN_ACTION_BYTES: usize = 10;

/// The description inside an action that creates an item: what stands
/// between the opening word and the closing parenthesis, without the white
/// space around it.
pub open spec fn create_item_body(action: Seq<char>) -> Seq<char> {
    trimmed(action.subrange(CREATE_ITEM_OPEN@.len() as int, action.len() - 1))
}

/// The item that the description `body` yields, or why it yields none. The
/// description has to be wrapped in braces and to mention the identifier,
/// the name and the type before it is read at all.
pub open spec fn described_item(body: Seq<char>) -> Result<ItemView, ActionFault> {
    if !starts_with(body, "{"@) || !ends_with(body, "}"@) {
        Err(ActionFault::MissingBraces)
    } else if !has_part(body, "\"id\""@) {
        Err(ActionFault::MissingField(ItemField::Id))
    } else if !has_part(body, "\"name\""@) {
        Err(ActionFault::MissingField(ItemField::Name))
    } else if !has_part(body, "\"item_type\""@) {
        Err(ActionFault::MissingField(ItemField::ItemType))
    } else {
        match json_document(body) {
            None => Err(ActionFault::InvalidItem),
            Some(v) => match stored_item(v) {
                Some(item) => Ok(item),
                None => Err(ActionFault::InvalidItem),
            },
        }
    }
}

/// The item that the text of an action creates, or why the text is no such
/// action. The text is read without the white space around it.
pub open spec fn created_item(text: Seq<char>) -> Result<ItemView, ActionFault> {
    let action = trimmed(text);
    if utf8_len(action) < MIN_ACTION_BYTES {
        Err(ActionFault::TooShort)
    } else if starts_with(action, CREATE_ITEM_OPEN@) && ends_with(action, ")"@) && action.len()
        > CREATE_ITEM_OPEN@.len() {
        described_item(create_item_body(action))
    } else {
        Err(ActionFault::UnknownFormat)
    }
}

/// Reads the item that a description yields.
pub fn read_described_item(body: &Vec<char>) -> (r: Result<Item, ActionFault>)
    ensures
        match r {
            Ok(item) => described_item(body@) == Ok::<ItemView, ActionFault>(item@),
            Err(e) => described_item(body@) == Err::<ItemView, ActionFault>(e),
        },
{
    if !chars_start_with(body, &chars_of("{")) || !chars_end_with(body, &chars_of("}")) {
        return Err(ActionFault::MissingBraces);
    }
    if !chars_contain(body, &chars_of("\"id\"")) {
        return Err(ActionFault::MissingField(ItemField::Id));
    }
    if !chars_contain(body, &chars_of("\"name\"")) {
        return Err(ActionFault::MissingField(ItemField::Name));
    }
    if !chars_contain(body, &chars_of("\"item_type\"")) {
        return Err(ActionFault::MissingField(ItemField::ItemType));
    }
    let text = from_chars(body);
    match parse_json(text.as_str()) {
        Err(_) => Err(ActionFault::InvalidItem),
        Ok(v) => match item_from_json(&v) {
            Some(item) => Ok(item),
            None => Err(ActionFault::InvalidItem),
        },
    }
}

/// Reads actions, and keeps a log of what it read.
#[derive(Debug)]
pub struct ActionParser {
    pub debug_log: Vec<String>,
}

impl ActionParser {
    pub fn new() -> (r: ActionParser)
        ensures
            r.debug_log@.len() == 0,
    {
        ActionParser { debug_log: Vec::new() }
    }

    /// Adds `message` to the debug log, with the stamp `stamp` in front.
    pub fn log_at(&mut self, stamp: &str, message: &str)
        ensures
            views(final(self).debug_log@) == logged_entry(
                views(old(self).debug_log@),
                stamped(stamp@, message@),
            ),
    {
        note_at(&mut self.debug_log, stamp, message);
    }

    /// Adds `message` to the debug log, with the time of day in front.
    pub fn log(&mut self, message: &str)
        ensures
            noted(views(old(self).debug_log@), message@, views(final(self).debug_log@)),
    {
        note(&mut self.debug_log, message);
    }

    /// The debug log, oldest entry first.
    pub fn get_debug_log(&self) -> (r: &[String])
        ensures
            r@ == self.debug_log@,
    {
        self.debug_log.as_slice()
    }

    /// What is noted in the log while the text of an action is read: the
    /// action; the description of the item, where the action creates one;
    /// and the identifier of the item, where it was read.
    pub open spec fn parse_notes(text: Seq<char>) -> Seq<Seq<char>> {
        let action = trimmed(text);
        let first = seq!["Parsing action: '"@ + action + "'"@];
        if utf8_len(action) >= MIN_ACTION_BYTES && starts_with(action, CREATE_ITEM_OPEN@)
            && ends_with(action, ")"@) && action.len() > CREATE_ITEM_OPEN@.len() {
            let second = first.push("CreateItem JSON string: '"@ + create_item_body(action) + "'"@);
            match created_item(text) {
                Ok(item) => second.push("Successfully parsed CreateItem: "@ + item.id),
                Err(_) => second,
            }
        } else {
            first
        }
    }

    /// Reads the text of an action. Only the action that creates an item is
    /// known; its item is returned. What was read is noted in the log, each
    /// note with the time of day.
    pub fn parse_action(&mut self, action_str: &str) -> (r: Result<ParsedAction, ActionError>)
        ensures
            match r {
                Ok(ParsedAction::CreateItem(item)) => created_item(action_str@) == Ok::<
                    ItemView,
                    ActionFault,
                >(item@),
                Ok(_) => false,
                Err(e) => created_item(action_str@) == Err::<ItemView, ActionFault>(e.kind)
                    && e.message@ == action_fault_text(e.kind, action_str@),
            },
            noted_all(
                views(old(self).debug_log@),
                ActionParser::parse_notes(action_str@),
                views(final(self).debug_log@),
            ),
    {
        let ghost log0 = views(self.debug_log@);
        let chars = chars_of(action_str);
        let action = trim_chars(&chars);
        let shown = from_chars(&action);
        let first = join3("Parsing action: '", shown.as_str(), "'");
        self.log(first.as_str());
        let ghost log1 = views(self.debug_log@);
        proof {
            lemma_noted_more(log0, Seq::empty(), log0, first@, log1);
            assert(Seq::<Seq<char>>::empty().push(first@) =~= seq![first@]);
        }
        if shorter_than(&action, MIN_ACTION_BYTES) {
            return Err(
                ActionError {
                    kind: ActionFault::TooShort,
                    message: join3("Action too short: '", shown.as_str(), "'"),
                },
            );
        }
        let open = chars_of(CREATE_ITEM_OPEN);
        if chars_start_with(&action, &open) && chars_end_with(&action, &chars_of(")"))
            && action.len() > open.len() {
            let inner = slice_chars(&action, open.len(), action.len() - 1);
            let body = trim_chars(&inner);
            let body_text = from_chars(&body);
            let second = join3("CreateItem JSON string: '", body_text.as_str(), "'");
            self.log(second.as_str());
            let ghost log2 = views(self.debug_log@);
            proof {
                lemma_noted_more(log0, seq![first@], log1, second@, log2);
            }
            match read_described_item(&body) {
                Ok(item) => {
                    let done = join2("Successfully parsed CreateItem: ", item.id.as_str());
                    self.log(done.as_str());
                    proof {
                        lemma_noted_more(
                            log0,
                            seq![first@].push(second@),
                            log2,
                            done@,
                            views(self.debug_log@),
                        );
                    }
                    Ok(ParsedAction::CreateItem(item))
                },
                Err(kind) => Err(
                    ActionError { kind, message: write_body_fault(kind, body_text.as_str()) },
                ),
            }
        } else {
            Err(
                ActionError {
                    kind: ActionFault::UnknownFormat,
                    message: join3("Unknown action format: '", shown.as_str(), "'"),
                },
            )
        }
    }
}

} // verus!
