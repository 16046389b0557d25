//! The tool-call protocol: the calls that arrive, the catalogue of
//! operations, the closed set of commands they decode into, and the typed
//! failures of decoding and applying them.
use crate::json::{JsonValue};
use crate::model::{
    Item, ItemProperties, ItemPropertiesView, ItemState, ItemStateView, ItemType, ItemView,
};
use crate::text::{decimal, decimal_string, join2, join3, owned, same_text, views};
use vstd::prelude::*;

verus! {

/// One call proposed by the generation service.
#[derive(Debug, Clone)]
pub struct ToolCall {
    pub id: String,
    pub call_type: String,
    pub function: ToolFunction,
}

/// The operation a call names, and its argument payload as text.
#[derive(Debug, Clone)]
pub struct ToolFunction {
    pub name: String,
    pub arguments: String,
}

/// What the dispatcher answers to a call.
#[derive(Debug, Clone)]
pub struct ToolResult {
    pub tool_call_id: String,
    pub content: String,
}

/// A field of an argument payload.
#[derive(Debug, Clone, Copy, PartialEq, Eq, Structural)]
pub enum Field {
    Id,
    ItemType,
    State,
    ItemId,
    Item1Id,
    Item2Id,
    ResultId,
    ContainerId,
    Direction,
    Text,
    EnemyIds,
    AttackerId,
    TargetId,
    WeaponId,
    ActorId,
    UserId,
    ObjectId,
}

/// The key under which a field stands in a payload.
pub open spec fn field_key(f: Field) -> Seq<char> {
    match f {
        Field::Id => "id"@,
        Field::ItemType => "item_type"@,
        Field::State => "state"@,
        Field::ItemId => "item_id"@,
        Field::Item1Id => "item1_id"@,
        Field::Item2Id => "item2_id"@,
        Field::ResultId => "result_id"@,
        Field::ContainerId => "container_id"@,
        Field::Direction => "direction"@,
        Field::Text => "text"@,
        Field::EnemyIds => "enemy_ids"@,
        Field::AttackerId => "attacker_id"@,
        Field::TargetId => "target_id"@,
        Field::WeaponId => "weapon_id"@,
        Field::ActorId => "actor_id"@,
        Field::UserId => "user_id"@,
        Field::ObjectId => "object_id"@,
    }
}

impl Field {
    /// The key under which the field stands in a payload.
    pub fn key(&self) -> (r: &'static str)
        ensures
            r@ == field_key(*self),
    {
        match self {
            Field::Id => "id",
            Field::ItemType => "item_type",
            Field::State => "state",
            Field::ItemId => "item_id",
            Field::Item1Id => "item1_id",
            Field::Item2Id => "item2_id",
            Field::ResultId => "result_id",
            Field::ContainerId => "container_id",
            Field::Direction => "direction",
            Field::Text => "text",
            Field::EnemyIds => "enemy_ids",
            Field::AttackerId => "attacker_id",
            Field::TargetId => "target_id",
            Field::WeaponId => "weapon_id",
            Field::ActorId => "actor_id",
            Field::UserId => "user_id",
            Field::ObjectId => "object_id",
        }
    }
}

/// What an operation looked for and did not find.
#[derive(Debug, Clone, PartialEq, Eq)]
pub enum Entity {
    /// The location at the player's position.
    CurrentLocation,
    /// The item of the registry with this identifier.
    Item(String),
    /// The item with this identifier in the player's inventory.
    InventoryItem(String),
    /// The item or actor with this identifier, to inspect.
    Object(String),
    /// The attacking combatant.
    Attacker,
    /// The attacked combatant.
    Target,
    /// The combatant that defends.
    Actor,
    /// The combatant that uses an item.
    User,
}

pub enum EntityView {
    CurrentLocation,
    Item(Seq<char>),
    InventoryItem(Seq<char>),
    Object(Seq<char>),
    Attacker,
    Target,
    Actor,
    User,
}

impl View for Entity {
    type V = EntityView;

    open spec fn view(&self) -> EntityView {
        match *self {
            Entity::CurrentLocation => EntityView::CurrentLocation,
            Entity::Item(id) => EntityView::Item(id@),
            Entity::InventoryItem(id) => EntityView::InventoryItem(id@),
            Entity::Object(id) => EntityView::Object(id@),
            Entity::Attacker => EntityView::Attacker,
            Entity::Target => EntityView::Target,
            Entity::Actor => EntityView::Actor,
            Entity::User => EntityView::User,
        }
    }
}

/// A rule of combat that a call broke.
#[derive(Debug, Clone, PartialEq, Eq)]
pub enum CombatFault {
    AlreadyActive,
    NotActive,
    /// More combatants than this cap allows.
    TooManyCombatants(u32),
    /// The enemy with this identifier stands elsewhere.
    EnemyElsewhere(String),
    /// The turn is not that of the combatant with this identifier.
    NotYourTurn(String),
    /// The item with this identifier is not usable.
    ItemNotUsable(String),
}

pub enum CombatFaultView {
    AlreadyActive,
    NotActive,
    TooManyCombatants(u32),
    EnemyElsewhere(Seq<char>),
    NotYourTurn(Seq<char>),
    ItemNotUsable(Seq<char>),
}

impl View for CombatFault {
    type V = CombatFaultView;

    open spec fn view(&self) -> CombatFaultView {
        match *self {
            CombatFault::AlreadyActive => CombatFaultView::AlreadyActive,
            CombatFault::NotActive => CombatFaultView::NotActive,
            CombatFault::TooManyCombatants(max) => CombatFaultView::TooManyCombatants(max),
            CombatFault::EnemyElsewhere(id) => CombatFaultView::EnemyElsewhere(id@),
            CombatFault::NotYourTurn(id) => CombatFaultView::NotYourTurn(id@),
            CombatFault::ItemNotUsable(id) => CombatFaultView::ItemNotUsable(id@),
        }
    }
}

/// Why a call failed. A failed call leaves the world as it was.
#[derive(Debug, Clone, PartialEq, Eq)]
pub enum ToolError {
    /// The payload is not a document; this is what the reader said of it.
    MalformedArguments(String),
    /// The catalogue has no operation of this name.
    UnknownOperation(String),
    /// A required field is absent or not of its kind.
    MissingField(Field),
    /// A field holds this tag, which is outside its enumeration.
    InvalidEnumValue(Field, String),
    /// The list of enemies holds something that is no identifier.
    InvalidEnemyId,
    /// The item to create, with this identifier, is registered already.
    AlreadyExists(String),
    /// Something the operation refers to is not there.
    EntityNotFound(Entity),
    /// A rule of combat forbids the call.
    CombatPrecondition(CombatFault),
    /// The step would leave the coordinate range.
    OutOfRange,
}

pub enum ToolErrorView {
    MalformedArguments(Seq<char>),
    UnknownOperation(Seq<char>),
    MissingField(Field),
    InvalidEnumValue(Field, Seq<char>),
    InvalidEnemyId,
    AlreadyExists(Seq<char>),
    EntityNotFound(EntityView),
    CombatPrecondition(CombatFaultView),
    OutOfRange,
}

impl View for ToolError {
    type V = ToolErrorView;

    open spec fn view(&self) -> ToolErrorView {
        match *self {
            ToolError::MalformedArguments(m) => ToolErrorView::MalformedArguments(m@),
            ToolError::UnknownOperation(n) => ToolErrorView::UnknownOperation(n@),
            ToolError::MissingField(f) => ToolErrorView::MissingField(f),
            ToolError::InvalidEnumValue(f, tag) => ToolErrorView::InvalidEnumValue(f, tag@),
            ToolError::InvalidEnemyId => ToolErrorView::InvalidEnemyId,
            ToolError::AlreadyExists(id) => ToolErrorView::AlreadyExists(id@),
            ToolError::EntityNotFound(e) => ToolErrorView::EntityNotFound(e@),
            ToolError::CombatPrecondition(c) => ToolErrorView::CombatPrecondition(c@),
            ToolError::OutOfRange => ToolErrorView::OutOfRange,
        }
    }
}

/// The text that tells of something not found.
pub open spec fn entity_text(e: EntityView) -> Seq<char> {
    match e {
        EntityView::CurrentLocation => "Current location not found"@,
        EntityView::Item(id) => "Item "@ + id + " not found"@,
        EntityView::InventoryItem(id) => "Item "@ + id + " not in inventory"@,
        EntityView::Object(id) => "Object "@ + id + " not found"@,
        EntityView::Attacker => "Attacker not in combat"@,
        EntityView::Target => "Target not in combat"@,
        EntityView::Actor => "Actor not in combat"@,
        EntityView::User => "User not in combat"@,
    }
}

/// The text that tells of a broken rule of combat.
pub open spec fn combat_fault_text(c: CombatFaultView) -> Seq<char> {
    match c {
        CombatFaultView::AlreadyActive => "Combat is already active"@,
        CombatFaultView::NotActive => "Combat is not active"@,
        CombatFaultView::TooManyCombatants(max) => "Too many combatants (max "@ + decimal(
            max as int,
        ) + ")"@,
        CombatFaultView::EnemyElsewhere(id) => "Enemy "@ + id + " is not at current location"@,
        CombatFaultView::NotYourTurn(id) => "Not "@ + id + "'s turn"@,
        CombatFaultView::ItemNotUsable(id) => "Item "@ + id + " is not usable"@,
    }
}

/// The text that describes a failure.
pub open spec fn error_text(e: ToolErrorView) -> Seq<char> {
    match e {
        ToolErrorView::MalformedArguments(message) => message,
        ToolErrorView::UnknownOperation(name) => "Unknown tool: "@ + name,
        ToolErrorView::MissingField(Field::EnemyIds) => "Missing enemy_ids array"@,
        ToolErrorView::MissingField(f) => "Missing "@ + field_key(f),
        ToolErrorView::InvalidEnumValue(Field::ItemType, tag) => "Unknown item_type: "@ + tag,
        ToolErrorView::InvalidEnumValue(Field::State, tag) => "Unknown state: "@ + tag,
        ToolErrorView::InvalidEnumValue(f, tag) => "Invalid "@ + field_key(f),
        ToolErrorView::InvalidEnemyId => "Invalid enemy_id"@,
        ToolErrorView::AlreadyExists(id) => "Item "@ + id + " already exists"@,
        ToolErrorView::EntityNotFound(e) => entity_text(e),
        ToolErrorView::CombatPrecondition(c) => combat_fault_text(c),
        ToolErrorView::OutOfRange => "Position out of range"@,
    }
}

impl ToolError {
    /// The text that describes the failure.
    pub fn to_string(&self) -> (r: String)
        ensures
            r@ == error_text(self@),
    {
        match self {
            ToolError::MalformedArguments(message) => message.clone(),
            ToolError::UnknownOperation(name) => join2("Unknown tool: ", name.as_str()),
            ToolError::MissingField(Field::EnemyIds) => owned("Missing enemy_ids array"),
            ToolError::MissingField(f) => join2("Missing ", f.key()),
            ToolError::InvalidEnumValue(Field::ItemType, tag) => join2(
                "Unknown item_type: ",
                tag.as_str(),
            ),
            ToolError::InvalidEnumValue(Field::State, tag) => join2("Unknown state: ", tag.as_str()),
            ToolError::InvalidEnumValue(f, tag) => join2("Invalid ", f.key()),
            ToolError::InvalidEnemyId => owned("Invalid enemy_id"),
            ToolError::AlreadyExists(id) => join3("Item ", id.as_str(), " already exists"),
            ToolError::EntityNotFound(e) => match e {
                Entity::CurrentLocation => owned("Current location not found"),
                Entity::Item(id) => join3("Item ", id.as_str(), " not found"),
                Entity::InventoryItem(id) => join3("Item ", id.as_str(), " not in inventory"),
                Entity::Object(id) => join3("Object ", id.as_str(), " not found"),
                Entity::Attacker => owned("Attacker not in combat"),
                Entity::Target => owned("Target not in combat"),
                Entity::Actor => owned("Actor not in combat"),
                Entity::User => owned("User not in combat"),
            },
            ToolError::CombatPrecondition(c) => match c {
                CombatFault::AlreadyActive => owned("Combat is already active"),
                CombatFault::NotActive => owned("Combat is not active"),
                CombatFault::TooManyCombatants(max) => {
                    let cap = decimal_string(*max as i128);
                    join3("Too many combatants (max ", cap.as_str(), ")")
                },
                CombatFault::EnemyElsewhere(id) => join3(
                    "Enemy ",
                    id.as_str(),
                    " is not at current location",
                ),
                CombatFault::NotYourTurn(id) => join3("Not ", id.as_str(), "'s turn"),
                CombatFault::ItemNotUsable(id) => join3("Item ", id.as_str(), " is not usable"),
            },
            ToolError::OutOfRange => owned("Position out of range"),
        }
    }
}

// ---------------------------------------------------------------------------
// Commands
// ---------------------------------------------------------------------------
/// One operation of the catalogue with its arguments decoded: the only form
/// in which a call reaches the world.
#[derive(Debug, Clone)]
pub enum ToolCommand {
    MoveTo { direction: String },
    UpdateLocationDescription { text: String },
    GenerateTurnNarrative { text: String },
    CreateItem { item: Item },
    AddItemToInventory { item_id: String },
    RemoveItemFromInventory { item_id: String },
    AddItemToLocation { item_id: String },
    RemoveItemFromLocation { item_id: String },
    UseItem { item_id: String },
    EquipItem { item_id: String },
    UnequipItem { item_id: String },
    CombineItems { item1_id: String, item2_id: String, result_id: String },
    BreakItem { item_id: String },
    AddItemToContainer { container_id: String, item_id: String },
    RemoveItemFromContainer { container_id: String, item_id: String },
    /// Start combat against the enemies that are named: the identifiers
    /// that the payload lists before its first element that is none, and
    /// the number of elements it lists.
    StartCombat { enemy_ids: Vec<String>, listed: usize },
    AttackActor { attacker_id: String, target_id: String, weapon_id: Option<String> },
    Defend { actor_id: String },
    Flee { actor_id: String },
    UseItemInCombat { user_id: String, item_id: String },
    EndTurn { actor_id: String },
    InspectObject { object_id: String },
}

pub enum ToolCommandView {
    MoveTo { direction: Seq<char> },
    UpdateLocationDescription { text: Seq<char> },
    GenerateTurnNarrative { text: Seq<char> },
    CreateItem { item: ItemView },
    AddItemToInventory { item_id: Seq<char> },
    RemoveItemFromInventory { item_id: Seq<char> },
    AddItemToLocation { item_id: Seq<char> },
    RemoveItemFromLocation { item_id: Seq<char> },
    UseItem { item_id: Seq<char> },
    EquipItem { item_id: Seq<char> },
    UnequipItem { item_id: Seq<char> },
    CombineItems { item1_id: Seq<char>, item2_id: Seq<char>, result_id: Seq<char> },
    BreakItem { item_id: Seq<char> },
    AddItemToContainer { container_id: Seq<char>, item_id: Seq<char> },
    RemoveItemFromContainer { container_id: Seq<char>, item_id: Seq<char> },
    StartCombat { enemy_ids: Seq<Seq<char>>, listed: nat },
    AttackActor { attacker_id: Seq<char>, target_id: Seq<char>, weapon_id: Option<Seq<char>> },
    Defend { actor_id: Seq<char> },
    Flee { actor_id: Seq<char> },
    UseItemInCombat { user_id: Seq<char>, item_id: Seq<char> },
    EndTurn { actor_id: Seq<char> },
    InspectObject { object_id: Seq<char> },
}

impl View for ToolCommand {
    type V = ToolCommandView;

    open spec fn view(&self) -> ToolCommandView {
        match *self {
            ToolCommand::MoveTo { direction } => ToolCommandView::MoveTo { direction: direction@ },
            ToolCommand::UpdateLocationDescription { text } => ToolCommandView::UpdateLocationDescription {
                text: text@,
            },
            ToolCommand::GenerateTurnNarrative { text } => ToolCommandView::GenerateTurnNarrative {
                text: text@,
            },
            ToolCommand::CreateItem { item } => ToolCommandView::CreateItem { item: item@ },
            ToolCommand::AddItemToInventory { item_id } => ToolCommandView::AddItemToInventory {
                item_id: item_id@,
            },
            ToolCommand::RemoveItemFromInventory { item_id } => ToolCommandView::RemoveItemFromInventory {
                item_id: item_id@,
            },
            ToolCommand::AddItemToLocation { item_id } => ToolCommandView::AddItemToLocation {
                item_id: item_id@,
            },
            ToolCommand::RemoveItemFromLocation { item_id } => ToolCommandView::RemoveItemFromLocation {
                item_id: item_id@,
            },
            ToolCommand::UseItem { item_id } => ToolCommandView::UseItem { item_id: item_id@ },
            ToolCommand::EquipItem { item_id } => ToolCommandView::EquipItem { item_id: item_id@ },
            ToolCommand::UnequipItem { item_id } => ToolCommandView::UnequipItem {
                item_id: item_id@,
            },
            ToolCommand::CombineItems { item1_id, item2_id, result_id } => ToolCommandView::CombineItems {
                item1_id: item1_id@,
                item2_id: item2_id@,
                result_id: result_id@,
            },
            ToolCommand::BreakItem { item_id } => ToolCommandView::BreakItem { item_id: item_id@ },
            ToolCommand::AddItemToContainer { container_id, item_id } => ToolCommandView::AddItemToContainer {
                container_id: container_id@,
                item_id: item_id@,
            },
            ToolCommand::RemoveItemFromContainer {
                container_id,
                item_id,
            } => ToolCommandView::RemoveItemFromContainer {
                container_id: container_id@,
                item_id: item_id@,
            },
            ToolCommand::StartCombat { enemy_ids, listed } => ToolCommandView::StartCombat {
                enemy_ids: views(enemy_ids@),
                listed: listed as nat,
            },
            ToolCommand::AttackActor { attacker_id, target_id, weapon_id } => ToolCommandView::AttackActor {
                attacker_id: attacker_id@,
                target_id: target_id@,
                weapon_id: crate::model::opt_view(weapon_id),
            },
            ToolCommand::Defend { actor_id } => ToolCommandView::Defend { actor_id: actor_id@ },
            ToolCommand::Flee { actor_id } => ToolCommandView::Flee { actor_id: actor_id@ },
            ToolCommand::UseItemInCombat { user_id, item_id } => ToolCommandView::UseItemInCombat {
                user_id: user_id@,
                item_id: item_id@,
            },
            ToolCommand::EndTurn { actor_id } => ToolCommandView::EndTurn { actor_id: actor_id@ },
            ToolCommand::InspectObject { object_id } => ToolCommandView::InspectObject {
                object_id: object_id@,
            },
        }
    }
}

// ---------------------------------------------------------------------------
// Decoding
// ---------------------------------------------------------------------------
/// The text of a required field: a failure naming the field where it is
/// absent or no string.
pub open spec fn required_text(args: JsonValue, f: Field) -> Result<Seq<char>, ToolErrorView> {
    match args.field(field_key(f)).text() {
        Some(t) => Ok(t),
        None => Err(ToolErrorView::MissingField(f)),
    }
}

/// The item type that a tag names.
pub open spec fn item_type_of(tag: Seq<char>) -> Option<ItemType> {
    if tag == "Weapon"@ {
        Some(ItemType::Weapon)
    } else if tag == "Armor"@ {
        Some(ItemType::Armor)
    } else if tag == "Consumable"@ {
        Some(ItemType::Consumable)
    } else if tag == "Tool"@ {
        Some(ItemType::Tool)
    } else if tag == "Key"@ {
        Some(ItemType::Key)
    } else if tag == "Container"@ {
        Some(ItemType::Container)
    } else if tag == "QuestItem"@ {
        Some(ItemType::QuestItem)
    } else if tag == "Material"@ {
        Some(ItemType::Material)
    } else {
        None
    }
}

/// A number of a payload as a 32-bit quantity: its low 32 bits.
pub open spec fn low32(n: u64) -> u32 {
    (n % 0x1_0000_0000) as u32
}

/// A count read from `v` under `key`, or `default` where there is none.
pub open spec fn count_or(v: JsonValue, key: Seq<char>, default: u32) -> u32 {
    match v.field(key).unsigned() {
        Some(n) => low32(n),
        None => default,
    }
}

/// A count read from `v` under `key`, where there is one.
pub open spec fn count_at(v: JsonValue, key: Seq<char>) -> Option<u32> {
    match v.field(key).unsigned() {
        Some(n) => Some(low32(n)),
        None => None,
    }
}

/// Whether a text is the tag of a state.
pub open spec fn is_state_tag(tag: Seq<char>) -> bool {
    tag == "Normal"@ || tag == "Equipped"@ || tag == "Damaged"@ || tag == "Consumed"@ || tag
        == "Locked"@ || tag == "Open"@
}

/// The tag that an object stands for which declares a state and has neither
/// a `Damaged` nor a `Consumed` member: the key of its first member. Nothing
/// but an object with a member has one.
pub open spec fn object_tag(s: JsonValue) -> Option<Seq<char>> {
    match s {
        JsonValue::Object(members) => if members@.len() > 0 {
            Some(members@[0].key@)
        } else {
            None
        },
        _ => None,
    }
}

/// The state that the `state` field of a payload declares.
///
/// An absent field means `Normal`. A string is a tag: `Equipped` means that
/// state, every other tag of a state means `Normal`, and a text that is no
/// tag of a state is outside the enumeration. An object with a `Damaged` or
/// a `Consumed` member carries that state's counters, ten and one where a
/// counter is left out. Any other object is taken by the key of its first
/// member: a tag of a state means `Normal`, any other key is outside the
/// enumeration. What carries no tag at all means `Normal`.
pub open spec fn state_of(args: JsonValue) -> Result<ItemStateView, ToolErrorView> {
    match args.member("state"@) {
        None => Ok(ItemStateView::Normal),
        Some(s) => match s.text() {
            Some(tag) => if tag == "Equipped"@ {
                Ok(ItemStateView::Equipped)
            } else if is_state_tag(tag) {
                Ok(ItemStateView::Normal)
            } else {
                Err(ToolErrorView::InvalidEnumValue(Field::State, tag))
            },
            None => match s.member("Damaged"@) {
                Some(d) => Ok(
                    ItemStateView::Damaged {
                        durability: count_or(d, "durability"@, 10),
                        max_durability: count_or(d, "max_durability"@, 10),
                    },
                ),
                None => match s.member("Consumed"@) {
                    Some(c) => Ok(
                        ItemStateView::Consumed {
                            charges: count_or(c, "charges"@, 1),
                            max_charges: count_or(c, "max_charges"@, 1),
                        },
                    ),
                    None => match object_tag(s) {
                        Some(tag) => if is_state_tag(tag) {
                            Ok(ItemStateView::Normal)
                        } else {
                            Err(ToolErrorView::InvalidEnumValue(Field::State, tag))
                        },
                        None => Ok(ItemStateView::Normal),
                    },
                },
            },
        },
    }
}

/// The texts of a list whose elements are all strings.
pub open spec fn texts_of(elements: Seq<JsonValue>) -> Option<Seq<Seq<char>>> {
    if forall|i: int| 0 <= i < elements.len() ==> (#[trigger] elements[i]).text() is Some {
        Some(Seq::new(elements.len(), |i: int| elements[i].text()->0))
    } else {
        None
    }
}

/// The status effects that a properties object lists: the texts of the list
/// where it is a list of strings, and none otherwise.
pub open spec fn effects_of(p: JsonValue) -> Seq<Seq<char>> {
    match p.field("status_effects"@).elements() {
        Some(elements) => match texts_of(elements) {
            Some(texts) => texts,
            None => Seq::empty(),
        },
        None => Seq::empty(),
    }
}

/// The properties that the `properties` field of a payload declares; what it
/// leaves out, or gives in another kind, takes its default.
pub open spec fn properties_of(args: JsonValue) -> ItemPropertiesView {
    let p = args.field("properties"@);
    ItemPropertiesView {
        damage: count_at(p, "damage"@),
        defense: count_at(p, "defense"@),
        value: count_at(p, "value"@),
        weight: count_at(p, "weight"@),
        carryable: match p.field("carryable"@).boolean() {
            Some(b) => b,
            None => true,
        },
        usable: match p.field("usable"@).boolean() {
            Some(b) => b,
            None => false,
        },
        equip_slot: p.field("equip_slot"@).text(),
        status_effects: effects_of(p),
    }
}

/// The item that a `create_item` payload describes. The identifier and the
/// type are required; the name defaults to the identifier, the description
/// to the empty text.
pub open spec fn item_of(args: JsonValue) -> Result<ItemView, ToolErrorView> {
    match required_text(args, Field::Id) {
        Err(e) => Err(e),
        Ok(id) => match required_text(args, Field::ItemType) {
            Err(e) => Err(e),
            Ok(tag) => match item_type_of(tag) {
                None => Err(ToolErrorView::InvalidEnumValue(Field::ItemType, tag)),
                Some(item_type) => match state_of(args) {
                    Err(e) => Err(e),
                    Ok(state) => Ok(
                        ItemView {
                            id,
                            name: match args.field("name"@).text() {
                                Some(n) => n,
                                None => id,
                            },
                            description: match args.field("description"@).text() {
                                Some(d) => d,
                                None => Seq::empty(),
                            },
                            item_type,
                            state,
                            properties: properties_of(args),
                        },
                    ),
                },
            },
        },
    }
}

/// The texts among the first `n` elements of a list that stand before its
/// first element that is no text.
pub open spec fn leading_texts(elements: Seq<JsonValue>, n: nat) -> Seq<Seq<char>>
    decreases n,
{
    if n == 0 {
        Seq::empty()
    } else {
        let before = leading_texts(elements, (n - 1) as nat);
        match elements[n - 1].text() {
            Some(t) => if before.len() == n - 1 {
                before.push(t)
            } else {
                before
            },
            None => before,
        }
    }
}

/// The enemies that a `start_combat` payload names: the list is required.
/// The identifiers are read as far as the first element that is none; that
/// there is such an element shows in the number of elements listed.
pub open spec fn enemies_of(args: JsonValue) -> Result<(Seq<Seq<char>>, nat), ToolErrorView> {
    match args.field("enemy_ids"@).elements() {
        None => Err(ToolErrorView::MissingField(Field::EnemyIds)),
        Some(elements) => Ok((leading_texts(elements, elements.len()), elements.len())),
    }
}

/// The command that an operation name and its payload decode into, or the
/// failure: an unknown name, a required field that is absent, or a tag
/// outside its enumeration. Fields are looked for in the order in which the
/// operation lists them.
pub open spec fn decode(name: Seq<char>, args: JsonValue) -> Result<ToolCommandView, ToolErrorView> {
    if name == "move_to"@ {
        match required_text(args, Field::Direction) {
            Ok(direction) => Ok(ToolCommandView::MoveTo { direction }),
            Err(e) => Err(e),
        }
    } else if name == "update_location_description"@ {
        match required_text(args, Field::Text) {
            Ok(text) => Ok(ToolCommandView::UpdateLocationDescription { text }),
            Err(e) => Err(e),
        }
    } else if name == "generate_turn_narrative"@ {
        match required_text(args, Field::Text) {
            Ok(text) => Ok(ToolCommandView::GenerateTurnNarrative { text }),
            Err(e) => Err(e),
        }
    } else if name == "create_item"@ {
        match item_of(args) {
            Ok(item) => Ok(ToolCommandView::CreateItem { item }),
            Err(e) => Err(e),
        }
    } else if name == "add_item_to_inventory"@ {
        match required_text(args, Field::ItemId) {
            Ok(item_id) => Ok(ToolCommandView::AddItemToInventory { item_id }),
            Err(e) => Err(e),
        }
    } else if name == "remove_item_from_inventory"@ {
        match required_text(args, Field::ItemId) {
            Ok(item_id) => Ok(ToolCommandView::RemoveItemFromInventory { item_id }),
            Err(e) => Err(e),
        }
    } else if name == "add_item_to_location"@ {
        match required_text(args, Field::ItemId) {
            Ok(item_id) => Ok(ToolCommandView::AddItemToLocation { item_id }),
            Err(e) => Err(e),
        }
    } else if name == "remove_item_from_location"@ {
        match required_text(args, Field::ItemId) {
            Ok(item_id) => Ok(ToolCommandView::RemoveItemFromLocation { item_id }),
            Err(e) => Err(e),
        }
    } else if name == "use_item"@ {
        match required_text(args, Field::ItemId) {
            Ok(item_id) => Ok(ToolCommandView::UseItem { item_id }),
            Err(e) => Err(e),
        }
    } else if name == "equip_item"@ {
        match required_text(args, Field::ItemId) {
            Ok(item_id) => Ok(ToolCommandView::EquipItem { item_id }),
            Err(e) => Err(e),
        }
    } else if name == "unequip_item"@ {
        match required_text(args, Field::ItemId) {
            Ok(item_id) => Ok(ToolCommandView::UnequipItem { item_id }),
            Err(e) => Err(e),
        }
    } else if name == "combine_items"@ {
        match required_text(args, Field::Item1Id) {
            Err(e) => Err(e),
            Ok(item1_id) => match required_text(args, Field::Item2Id) {
                Err(e) => Err(e),
                Ok(item2_id) => match required_text(args, Field::ResultId) {
                    Err(e) => Err(e),
                    Ok(result_id) => Ok(
                        ToolCommandView::CombineItems { item1_id, item2_id, result_id },
                    ),
                },
            },
        }
    } else if name == "break_item"@ {
        match required_text(args, Field::ItemId) {
            Ok(item_id) => Ok(ToolCommandView::BreakItem { item_id }),
            Err(e) => Err(e),
        }
    } else if name == "add_item_to_container"@ {
        match required_text(args, Field::ContainerId) {
            Err(e) => Err(e),
            Ok(container_id) => match required_text(args, Field::ItemId) {
                Err(e) => Err(e),
                Ok(item_id) => Ok(ToolCommandView::AddItemToContainer { container_id, item_id }),
            },
        }
    } else if name == "remove_item_from_container"@ {
        match required_text(args, Field::ContainerId) {
            Err(e) => Err(e),
            Ok(container_id) => match required_text(args, Field::ItemId) {
                Err(e) => Err(e),
                Ok(item_id) => Ok(
                    ToolCommandView::RemoveItemFromContainer { container_id, item_id },
                ),
            },
        }
    } else if name == "start_combat"@ {
        match enemies_of(args) {
            Ok((enemy_ids, listed)) => Ok(ToolCommandView::StartCombat { enemy_ids, listed }),
            Err(e) => Err(e),
        }
    } else if name == "attack_actor"@ {
        match required_text(args, Field::AttackerId) {
            Err(e) => Err(e),
            Ok(attacker_id) => match required_text(args, Field::TargetId) {
                Err(e) => Err(e),
                Ok(target_id) => Ok(
                    ToolCommandView::AttackActor {
                        attacker_id,
                        target_id,
                        weapon_id: args.field("weapon_id"@).text(),
                    },
                ),
            },
        }
    } else if name == "defend"@ {
        match required_text(args, Field::ActorId) {
            Ok(actor_id) => Ok(ToolCommandView::Defend { actor_id }),
            Err(e) => Err(e),
        }
    } else if name == "flee"@ {
        match required_text(args, Field::ActorId) {
            Ok(actor_id) => Ok(ToolCommandView::Flee { actor_id }),
            Err(e) => Err(e),
        }
    } else if name == "use_item_in_combat"@ {
        match required_text(args, Field::UserId) {
            Err(e) => Err(e),
            Ok(user_id) => match required_text(args, Field::ItemId) {
                Err(e) => Err(e),
                Ok(item_id) => Ok(ToolCommandView::UseItemInCombat { user_id, item_id }),
            },
        }
    } else if name == "end_turn"@ {
        match required_text(args, Field::ActorId) {
            Ok(actor_id) => Ok(ToolCommandView::EndTurn { actor_id }),
            Err(e) => Err(e),
        }
    } else if name == "inspect_object"@ {
        match required_text(args, Field::ObjectId) {
            Ok(object_id) => Ok(ToolCommandView::InspectObject { object_id }),
            Err(e) => Err(e),
        }
    } else {
        Err(ToolErrorView::UnknownOperation(name))
    }
}

/// Whether the dispatcher has an operation of the name `name`.
pub open spec fn known_operation(name: Seq<char>) -> bool {
    name == "move_to"@
        || name == "update_location_description"@
        || name == "generate_turn_narrative"@
        || name == "create_item"@
        || name == "add_item_to_inventory"@
        || name == "remove_item_from_inventory"@
        || name == "add_item_to_location"@
        || name == "remove_item_from_location"@
        || name == "use_item"@
        || name == "equip_item"@
        || name == "unequip_item"@
        || name == "combine_items"@
        || name == "break_item"@
        || name == "add_item_to_container"@
        || name == "remove_item_from_container"@
        || name == "start_combat"@
        || name == "attack_actor"@
        || name == "defend"@
        || name == "flee"@
        || name == "use_item_in_combat"@
        || name == "end_turn"@
        || name == "inspect_object"@
}

/// Decoding fails for the want of an operation exactly for the names that the
/// dispatcher does not know.
pub proof fn law_unknown_operation(name: Seq<char>, args: JsonValue)
    ensures
        decode(name, args) == Err::<ToolCommandView, ToolErrorView>(
            ToolErrorView::UnknownOperation(name),
        ) <==> !known_operation(name),
        !known_operation(name) ==> decode(name, args) is Err,
{
}

/// Whether a decoding outcome is the one that the rules give.
pub open spec fn decodes_to(
    r: Result<ToolCommand, ToolError>,
    expected: Result<ToolCommandView, ToolErrorView>,
) -> bool {
    match r {
        Ok(c) => expected == Ok::<ToolCommandView, ToolErrorView>(c@),
        Err(e) => expected == Err::<ToolCommandView, ToolErrorView>(e@),
    }
}

/// Reads a required text field.
fn read_text(args: &JsonValue, f: Field) -> (r: Result<String, ToolError>)
    ensures
        match r {
            Ok(s) => required_text(*args, f) == Ok::<Seq<char>, ToolErrorView>(s@),
            Err(e) => required_text(*args, f) == Err::<Seq<char>, ToolErrorView>(e@),
        },
{
    match args.str_field(f.key()) {
        Some(s) => Ok(owned(s)),
        None => Err(ToolError::MissingField(f)),
    }
}

/// Reads the item type that a tag names.
pub fn read_item_type(tag: &str) -> (r: Option<ItemType>)
    ensures
        r == item_type_of(tag@),
{
    if same_text(tag, "Weapon") {
        Some(ItemType::Weapon)
    } else if same_text(tag, "Armor") {
        Some(ItemType::Armor)
    } else if same_text(tag, "Consumable") {
        Some(ItemType::Consumable)
    } else if same_text(tag, "Tool") {
        Some(ItemType::Tool)
    } else if same_text(tag, "Key") {
        Some(ItemType::Key)
    } else if same_text(tag, "Container") {
        Some(ItemType::Container)
    } else if same_text(tag, "QuestItem") {
        Some(ItemType::QuestItem)
    } else if same_text(tag, "Material") {
        Some(ItemType::Material)
    } else {
        None
    }
}

/// The low 32 bits of a number.
fn narrow(n: u64) -> (r: u32)
    ensures
        r == low32(n),
{
    (n % 0x1_0000_0000) as u32
}

/// Reads a count under `key`, where there is one.
fn read_count(v: &JsonValue, key: &str) -> (r: Option<u32>)
    ensures
        r == count_at(*v, key@),
{
    match v.u64_field(key) {
        Some(n) => Some(narrow(n)),
        None => None,
    }
}

/// Reads a count under `key`, or `default` where there is none.
fn read_count_or(v: &JsonValue, key: &str, default: u32) -> (r: u32)
    ensures
        r == count_or(*v, key@, default),
{
    match v.u64_field(key) {
        Some(n) => narrow(n),
        None => default,
    }
}

/// Whether a text is the tag of a state.
fn tag_is_state(tag: &str) -> (r: bool)
    ensures
        r == is_state_tag(tag@),
{
    same_text(tag, "Normal") || same_text(tag, "Equipped") || same_text(tag, "Damaged")
        || same_text(tag, "Consumed") || same_text(tag, "Locked") || same_text(tag, "Open")
}

/// What a tag that carries no counters means as a state.
fn read_bare_tag(tag: &str) -> (r: Result<ItemState, ToolError>)
    ensures
        match r {
            Ok(s) => is_state_tag(tag@) && s@ == ItemStateView::Normal,
            Err(e) => !is_state_tag(tag@) && e@ == ToolErrorView::InvalidEnumValue(
                Field::State,
                tag@,
            ),
        },
{
    if tag_is_state(tag) {
        Ok(ItemState::Normal)
    } else {
        Err(ToolError::InvalidEnumValue(Field::State, owned(tag)))
    }
}

/// Reads the declared state of an item.
fn read_state(args: &JsonValue) -> (r: Result<ItemState, ToolError>)
    ensures
        match r {
            Ok(s) => state_of(*args) == Ok::<ItemStateView, ToolErrorView>(s@),
            Err(e) => state_of(*args) == Err::<ItemStateView, ToolErrorView>(e@),
        },
{
    let s = match args.get("state") {
        None => {
            return Ok(ItemState::Normal);
        },
        Some(s) => s,
    };
    if let Some(tag) = s.as_str() {
        if same_text(tag, "Equipped") {
            Ok(ItemState::Equipped)
        } else {
            read_bare_tag(tag)
        }
    } else if let Some(d) = s.get("Damaged") {
        Ok(
            ItemState::Damaged {
                durability: read_count_or(d, "durability", 10),
                max_durability: read_count_or(d, "max_durability", 10),
            },
        )
    } else if let Some(c) = s.get("Consumed") {
        Ok(
            ItemState::Consumed {
                charges: read_count_or(c, "charges", 1),
                max_charges: read_count_or(c, "max_charges", 1),
            },
        )
    } else {
        match s {
            JsonValue::Object(members) => if members.len() > 0 {
                read_bare_tag(members[0].key.as_str())
            } else {
                Ok(ItemState::Normal)
            },
            _ => Ok(ItemState::Normal),
        }
    }
}

/// Reads the texts of a list whose elements are all strings.
pub fn read_texts(elements: &Vec<JsonValue>) -> (r: Option<Vec<String>>)
    ensures
        match r {
            Some(v) => texts_of(elements@) == Some(views(v@)),
            None => texts_of(elements@) is None,
        },
{
    let mut out: Vec<String> = Vec::new();
    let mut i: usize = 0;
    while i < elements.len()
        invariant
            i <= elements.len(),
            out.len() == i,
            forall|j: int| 0 <= j < i ==> (#[trigger] elements@[j]).text() == Some(out@[j]@),
        decreases elements.len() - i,
    {
        match elements[i].as_str() {
            Some(s) => {
                out.push(owned(s));
            },
            None => {
                return None;
            },
        }
        i += 1;
    }
    proof {
        assert(views(out@) =~= Seq::new(elements@.len(), |i: int| elements@[i].text()->0));
    }
    Some(out)
}

/// Reads the status effects that a properties object lists.
fn read_effects(p: &JsonValue) -> (r: Vec<String>)
    ensures
        views(r@) == effects_of(*p),
{
    let listed = match p.get("status_effects") {
        Some(v) => match v.as_array() {
            Some(elements) => read_texts(elements),
            None => None,
        },
        None => None,
    };
    match listed {
        Some(v) => v,
        None => {
            let v: Vec<String> = Vec::new();
            proof {
                assert(views(v@) =~= Seq::empty());
            }
            v
        },
    }
}

/// Reads the declared properties of an item.
fn read_properties(args: &JsonValue) -> (r: ItemProperties)
    ensures
        r@ == properties_of(*args),
{
    let null = JsonValue::Null;
    let p = match args.get("properties") {
        Some(p) => p,
        None => &null,
    };
    ItemProperties {
        damage: read_count(p, "damage"),
        defense: read_count(p, "defense"),
        value: read_count(p, "value"),
        weight: read_count(p, "weight"),
        carryable: match p.bool_field("carryable") {
            Some(b) => b,
            None => true,
        },
        usable: match p.bool_field("usable") {
            Some(b) => b,
            None => false,
        },
        equip_slot: match p.str_field("equip_slot") {
            Some(s) => Some(owned(s)),
            None => None,
        },
        status_effects: read_effects(p),
    }
}

/// Reads the item that a `create_item` payload describes.
fn read_item(args: &JsonValue) -> (r: Result<Item, ToolError>)
    ensures
        match r {
            Ok(item) => item_of(*args) == Ok::<ItemView, ToolErrorView>(item@),
            Err(e) => item_of(*args) == Err::<ItemView, ToolErrorView>(e@),
        },
{
    let id = match read_text(args, Field::Id) {
        Ok(id) => id,
        Err(e) => {
            return Err(e);
        },
    };
    let tag = match read_text(args, Field::ItemType) {
        Ok(tag) => tag,
        Err(e) => {
            return Err(e);
        },
    };
    let item_type = match read_item_type(tag.as_str()) {
        Some(t) => t,
        None => {
            return Err(ToolError::InvalidEnumValue(Field::ItemType, tag));
        },
    };
    let state = match read_state(args) {
        Ok(s) => s,
        Err(e) => {
            return Err(e);
        },
    };
    let name = match args.str_field("name") {
        Some(n) => owned(n),
        None => id.clone(),
    };
    let description = match args.str_field("description") {
        Some(d) => owned(d),
        None => String::new(),
    };
    let properties = read_properties(args);
    Ok(Item { id, name, description, item_type, state, properties })
}

/// Reads the enemies that a `start_combat` payload names.
fn read_enemies(args: &JsonValue) -> (r: Result<(Vec<String>, usize), ToolError>)
    ensures
        match r {
            Ok((v, listed)) => enemies_of(*args) == Ok::<(Seq<Seq<char>>, nat), ToolErrorView>(
                (views(v@), listed as nat),
            ),
            Err(e) => enemies_of(*args) == Err::<(Seq<Seq<char>>, nat), ToolErrorView>(e@),
        },
{
    let elements = match args.get("enemy_ids") {
        Some(v) => match v.as_array() {
            Some(elements) => elements,
            None => {
                return Err(ToolError::MissingField(Field::EnemyIds));
            },
        },
        None => {
            return Err(ToolError::MissingField(Field::EnemyIds));
        },
    };
    let mut out: Vec<String> = Vec::new();
    let mut whole = true;
    let mut i: usize = 0;
    proof {
        assert(views(out@) =~= leading_texts(elements@, 0));
    }
    while i < elements.len()
        invariant
            i <= elements.len(),
            views(out@) == leading_texts(elements@, i as nat),
            whole == (out.len() == i),
            out.len() <= i,
        decreases elements.len() - i,
    {
        let ghost before = views(out@);
        if whole {
            match elements[i].as_str() {
                Some(t) => {
                    out.push(owned(t));
                    proof {
                        assert(views(out@) =~= before.push(t@));
                    }
                },
                None => {
                    whole = false;
                },
            }
        }
        i += 1;
    }
    Ok((out, elements.len()))
}

/// Decodes an operation name and its payload into a command. Fails with
/// `UnknownOperation` for a name outside the catalogue, with `MissingField`
/// for the first required field that is absent, and with `InvalidEnumValue`
/// for a tag outside its enumeration.
pub fn decode_tool(name: &str, args: &JsonValue) -> (r: Result<ToolCommand, ToolError>)
    ensures
        decodes_to(r, decode(name@, *args)),
{
    if same_text(name, "move_to") {
        match read_text(args, Field::Direction) {
            Ok(direction) => Ok(ToolCommand::MoveTo { direction }),
            Err(e) => Err(e),
        }
    } else if same_text(name, "update_location_description") {
        match read_text(args, Field::Text) {
            Ok(text) => Ok(ToolCommand::UpdateLocationDescription { text }),
            Err(e) => Err(e),
        }
    } else if same_text(name, "generate_turn_narrative") {
        match read_text(args, Field::Text) {
            Ok(text) => Ok(ToolCommand::GenerateTurnNarrative { text }),
            Err(e) => Err(e),
        }
    } else if same_text(name, "create_item") {
        match read_item(args) {
            Ok(item) => Ok(ToolCommand::CreateItem { item }),
            Err(e) => Err(e),
        }
    } else if same_text(name, "add_item_to_inventory") {
        match read_text(args, Field::ItemId) {
            Ok(item_id) => Ok(ToolCommand::AddItemToInventory { item_id }),
            Err(e) => Err(e),
        }
    } else if same_text(name, "remove_item_from_inventory") {
        match read_text(args, Field::ItemId) {
            Ok(item_id) => Ok(ToolCommand::RemoveItemFromInventory { item_id }),
            Err(e) => Err(e),
        }
    } else if same_text(name, "add_item_to_location") {
        match read_text(args, Field::ItemId) {
            Ok(item_id) => Ok(ToolCommand::AddItemToLocation { item_id }),
            Err(e) => Err(e),
        }
    } else if same_text(name, "remove_item_from_location") {
        match read_text(args, Field::ItemId) {
            Ok(item_id) => Ok(ToolCommand::RemoveItemFromLocation { item_id }),
            Err(e) => Err(e),
        }
    } else if same_text(name, "use_item") {
        match read_text(args, Field::ItemId) {
            Ok(item_id) => Ok(ToolCommand::UseItem { item_id }),
            Err(e) => Err(e),
        }
    } else if same_text(name, "equip_item") {
        match read_text(args, Field::ItemId) {
            Ok(item_id) => Ok(ToolCommand::EquipItem { item_id }),
            Err(e) => Err(e),
        }
    } else if same_text(name, "unequip_item") {
        match read_text(args, Field::ItemId) {
            Ok(item_id) => Ok(ToolCommand::UnequipItem { item_id }),
            Err(e) => Err(e),
        }
    } else if same_text(name, "combine_items") {
        match read_text(args, Field::Item1Id) {
            Err(e) => Err(e),
            Ok(item1_id) => match read_text(args, Field::Item2Id) {
                Err(e) => Err(e),
                Ok(item2_id) => match read_text(args, Field::ResultId) {
                    Err(e) => Err(e),
                    Ok(result_id) => Ok(ToolCommand::CombineItems { item1_id, item2_id, result_id }),
                },
            },
        }
    } else if same_text(name, "break_item") {
        match read_text(args, Field::ItemId) {
            Ok(item_id) => Ok(ToolCommand::BreakItem { item_id }),
            Err(e) => Err(e),
        }
    } else if same_text(name, "add_item_to_container") {
        match read_text(args, Field::ContainerId) {
            Err(e) => Err(e),
            Ok(container_id) => match read_text(args, Field::ItemId) {
                Err(e) => Err(e),
                Ok(item_id) => Ok(ToolCommand::AddItemToContainer { container_id, item_id }),
            },
        }
    } else if same_text(name, "remove_item_from_container") {
        match read_text(args, Field::ContainerId) {
            Err(e) => Err(e),
            Ok(container_id) => match read_text(args, Field::ItemId) {
                Err(e) => Err(e),
                Ok(item_id) => Ok(ToolCommand::RemoveItemFromContainer { container_id, item_id }),
            },
        }
    } else if same_text(name, "start_combat") {
        match read_enemies(args) {
            Ok((enemy_ids, listed)) => Ok(ToolCommand::StartCombat { enemy_ids, listed }),
            Err(e) => Err(e),
        }
    } else if same_text(name, "attack_actor") {
        match read_text(args, Field::AttackerId) {
            Err(e) => Err(e),
            Ok(attacker_id) => match read_text(args, Field::TargetId) {
                Err(e) => Err(e),
                Ok(target_id) => {
                    let weapon_id = match args.str_field("weapon_id") {
                        Some(w) => Some(owned(w)),
                        None => None,
                    };
                    Ok(ToolCommand::AttackActor { attacker_id, target_id, weapon_id })
                },
            },
        }
    } else if same_text(name, "defend") {
        match read_text(args, Field::ActorId) {
            Ok(actor_id) => Ok(ToolCommand::Defend { actor_id }),
            Err(e) => Err(e),
        }
    } else if same_text(name, "flee") {
        match read_text(args, Field::ActorId) {
            Ok(actor_id) => Ok(ToolCommand::Flee { actor_id }),
            Err(e) => Err(e),
        }
    } else if same_text(name, "use_item_in_combat") {
        match read_text(args, Field::UserId) {
            Err(e) => Err(e),
            Ok(user_id) => match read_text(args, Field::ItemId) {
                Err(e) => Err(e),
                Ok(item_id) => Ok(ToolCommand::UseItemInCombat { user_id, item_id }),
            },
        }
    } else if same_text(name, "end_turn") {
        match read_text(args, Field::ActorId) {
            Ok(actor_id) => Ok(ToolCommand::EndTurn { actor_id }),
            Err(e) => Err(e),
        }
    } else if same_text(name, "inspect_object") {
        match read_text(args, Field::ObjectId) {
            Ok(object_id) => Ok(ToolCommand::InspectObject { object_id }),
            Err(e) => Err(e),
        }
    } else {
        Err(ToolError::UnknownOperation(owned(name)))
    }
}

/// Whether the dispatcher has an operation of the name `name`.
pub fn is_known_operation(name: &str) -> (r: bool)
    ensures
        r == known_operation(name@),
{
    same_text(name, "move_to")
        || same_text(name, "update_location_description")
        || same_text(name, "generate_turn_narrative")
        || same_text(name, "create_item")
        || same_text(name, "add_item_to_inventory")
        || same_text(name, "remove_item_from_inventory")
        || same_text(name, "add_item_to_location")
        || same_text(name, "remove_item_from_location")
        || same_text(name, "use_item")
        || same_text(name, "equip_item")
        || same_text(name, "unequip_item")
        || same_text(name, "combine_items")
        || same_text(name, "break_item")
        || same_text(name, "add_item_to_container")
        || same_text(name, "remove_item_from_container")
        || same_text(name, "start_combat")
        || same_text(name, "attack_actor")
        || same_text(name, "defend")
        || same_text(name, "flee")
        || same_text(name, "use_item_in_combat")
        || same_text(name, "end_turn")
        || same_text(name, "inspect_object")
}

// ---------------------------------------------------------------------------
// The catalogue
// ---------------------------------------------------------------------------
/// One operation as it is offered to the generation service: its name, what
/// it does, and the schema of its payload as a JSON document.
#[derive(Debug, Clone)]
pub struct ToolDefinition {
    pub name: &'static str,
    pub description: &'static str,
    pub parameters: &'static str,
}

/// The names of the operations that are offered, in the order of the
/// catalogue.
pub open spec fn catalogue_names() -> Seq<Seq<char>> {
    seq![
        "move_to"@,
        "update_location_description"@,
        "generate_turn_narrative"@,
        "create_item"@,
        "add_item_to_inventory"@,
        "remove_item_from_inventory"@,
        "add_item_to_location"@,
        "remove_item_from_location"@,
        "use_item"@,
        "equip_item"@,
        "unequip_item"@,
        "combine_items"@,
        "break_item"@,
        "add_item_to_container"@,
        "remove_item_from_container"@,
        "start_combat"@,
        "attack_actor"@,
        "defend"@,
        "flee"@,
        "use_item_in_combat"@,
        "end_turn"@,
    ]
}

/// What each operation of the catalogue is said to do, in the order of the
/// catalogue.
pub open spec fn catalogue_descriptions() -> Seq<Seq<char>> {
    seq![
        "Move player in direction (north/south/east/west). Auto-generates new locations if needed."@,
        "Update the current location's description with new text"@,
        "Generate the narrative response for the current turn (transient, not stored per location)"@,
        "Create a new item in the world"@,
        "Add an existing item to the player's inventory"@,
        "Remove an item from the player's inventory"@,
        "Add an item to the current location"@,
        "Remove an item from the current location"@,
        "Use an item (activates consumables or tools)"@,
        "Equip an item to its slot"@,
        "Unequip an item"@,
        "Combine two items into a new item"@,
        "Break and remove an item from the world"@,
        "Add an item to a container"@,
        "Remove an item from a container"@,
        "Start combat with enemies at the current location. Enemies must be actors present at this location."@,
        "Attack another actor in combat. Calculate damage based on weapon - armor."@,
        "Increase temporary defense for one round (adds +5 to defense)"@,
        "Attempt to flee from combat. Success chance based on random check."@,
        "Use an item during combat (consumables, healing potions, etc.)"@,
        "End the current combatant's turn and move to next combatant"@,
    ]
}

/// The schema of each operation's payload, a JSON document as text, in the
/// order of the catalogue.
pub open spec fn catalogue_parameters() -> Seq<Seq<char>> {
    seq![
        "{\"type\":\"object\",\"properties\":{\"direction\":{\"type\":\"string\",\"enum\":[\"north\",\"south\",\"east\",\"west\"]}},\"required\":[\"direction\"]}"@,
        "{\"type\":\"object\",\"properties\":{\"text\":{\"type\":\"string\"}},\"required\":[\"text\"]}"@,
        "{\"type\":\"object\",\"properties\":{\"text\":{\"type\":\"string\"}},\"required\":[\"text\"]}"@,
        "{\"type\":\"object\",\"properties\":{\"id\":{\"type\":\"string\",\"description\":\"Unique identifier for the item\"},\"name\":{\"type\":\"string\"},\"description\":{\"type\":\"string\"},\"item_type\":{\"type\":\"string\",\"enum\":[\"Weapon\",\"Armor\",\"Consumable\",\"Tool\",\"Key\",\"Container\",\"QuestItem\",\"Material\"]},\"state\":{\"oneOf\":[{\"type\":\"string\",\"enum\":[\"Normal\",\"Equipped\"]},{\"type\":\"object\",\"properties\":{\"Damaged\":{\"type\":\"object\",\"properties\":{\"durability\":{\"type\":\"integer\"},\"max_durability\":{\"type\":\"integer\"}},\"required\":[\"durability\",\"max_durability\"]}}},{\"type\":\"object\",\"properties\":{\"Consumed\":{\"type\":\"object\",\"properties\":{\"charges\":{\"type\":\"integer\"},\"max_charges\":{\"type\":\"integer\"}},\"required\":[\"charges\",\"max_charges\"]}}}]},\"properties\":{\"type\":\"object\",\"properties\":{\"damage\":{\"type\":\"integer\"},\"defense\":{\"type\":\"integer\"},\"value\":{\"type\":\"integer\"},\"weight\":{\"type\":\"integer\"},\"carryable\":{\"type\":\"boolean\"},\"usable\":{\"type\":\"boolean\"},\"equip_slot\":{\"type\":\"string\",\"enum\":[\"weapon\",\"armor\",null]},\"status_effects\":{\"type\":\"array\",\"items\":{\"type\":\"string\"}}}}},\"required\":[\"id\",\"name\",\"description\",\"item_type\"]}"@,
        "{\"type\":\"object\",\"properties\":{\"item_id\":{\"type\":\"string\"}},\"required\":[\"item_id\"]}"@,
        "{\"type\":\"object\",\"properties\":{\"item_id\":{\"type\":\"string\"}},\"required\":[\"item_id\"]}"@,
        "{\"type\":\"object\",\"properties\":{\"item_id\":{\"type\":\"string\"}},\"required\":[\"item_id\"]}"@,
        "{\"type\":\"object\",\"properties\":{\"item_id\":{\"type\":\"string\"}},\"required\":[\"item_id\"]}"@,
        "{\"type\":\"object\",\"properties\":{\"item_id\":{\"type\":\"string\"}},\"required\":[\"item_id\"]}"@,
        "{\"type\":\"object\",\"properties\":{\"item_id\":{\"type\":\"string\"}},\"required\":[\"item_id\"]}"@,
        "{\"type\":\"object\",\"properties\":{\"item_id\":{\"type\":\"string\"}},\"required\":[\"item_id\"]}"@,
        "{\"type\":\"object\",\"properties\":{\"item1_id\":{\"type\":\"string\"},\"item2_id\":{\"type\":\"string\"},\"result_id\":{\"type\":\"string\"}},\"required\":[\"item1_id\",\"item2_id\",\"result_id\"]}"@,
        "{\"type\":\"object\",\"properties\":{\"item_id\":{\"type\":\"string\"}},\"required\":[\"item_id\"]}"@,
        "{\"type\":\"object\",\"properties\":{\"container_id\":{\"type\":\"string\"},\"item_id\":{\"type\":\"string\"}},\"required\":[\"container_id\",\"item_id\"]}"@,
        "{\"type\":\"object\",\"properties\":{\"container_id\":{\"type\":\"string\"},\"item_id\":{\"type\":\"string\"}},\"required\":[\"container_id\",\"item_id\"]}"@,
        "{\"type\":\"object\",\"properties\":{\"enemy_ids\":{\"type\":\"array\",\"items\":{\"type\":\"string\"},\"description\":\"IDs of enemy actors to engage in combat (max 4 total including player)\"}},\"required\":[\"enemy_ids\"]}"@,
        "{\"type\":\"object\",\"properties\":{\"attacker_id\":{\"type\":\"string\"},\"target_id\":{\"type\":\"string\"},\"weapon_id\":{\"type\":\"string\",\"description\":\"Optional weapon ID to use, defaults to equipped\"}},\"required\":[\"attacker_id\",\"target_id\"]}"@,
        "{\"type\":\"object\",\"properties\":{\"actor_id\":{\"type\":\"string\"}},\"required\":[\"actor_id\"]}"@,
        "{\"type\":\"object\",\"properties\":{\"actor_id\":{\"type\":\"string\"}},\"required\":[\"actor_id\"]}"@,
        "{\"type\":\"object\",\"properties\":{\"user_id\":{\"type\":\"string\"},\"item_id\":{\"type\":\"string\"},\"target_id\":{\"type\":\"string\",\"description\":\"Optional target actor for the item effect\"}},\"required\":[\"user_id\",\"item_id\"]}"@,
        "{\"type\":\"object\",\"properties\":{\"actor_id\":{\"type\":\"string\"}},\"required\":[\"actor_id\"]}"@,
    ]
}

/// Every operation that is offered is one that decodes: whatever the payload,
/// the failure is never `UnknownOperation`.
pub proof fn law_catalogue_is_known(i: int, args: JsonValue)
    requires
        0 <= i < catalogue_names().len(),
    ensures
        known_operation(catalogue_names()[i]),
        !(decode(catalogue_names()[i], args) matches Err(ToolErrorView::UnknownOperation(_))),
{
}

/// The catalogue of operations that is offered to the generation service.
pub fn get_tool_definitions() -> (r: Vec<ToolDefinition>)
    ensures
        r@.len() == catalogue_names().len(),
        forall|i: int|
            0 <= i < r@.len() ==> {
                &&& (#[trigger] r@[i]).name@ == catalogue_names()[i]
                &&& r@[i].description@ == catalogue_descriptions()[i]
                &&& r@[i].parameters@ == catalogue_parameters()[i]
            },
{
    let mut v: Vec<ToolDefinition> = Vec::new();
    v.push(
        ToolDefinition {
            name: "move_to",
            description: "Move player in direction (north/south/east/west). Auto-generates new locations if needed.",
            parameters: "{\"type\":\"object\",\"properties\":{\"direction\":{\"type\":\"string\",\"enum\":[\"north\",\"south\",\"east\",\"west\"]}},\"required\":[\"direction\"]}",
        },
    );
    v.push(
        ToolDefinition {
            name: "update_location_description",
            description: "Update the current location's description with new text",
            parameters: "{\"type\":\"object\",\"properties\":{\"text\":{\"type\":\"string\"}},\"required\":[\"text\"]}",
        },
    );
    v.push(
        ToolDefinition {
            name: "generate_turn_narrative",
            description: "Generate the narrative response for the current turn (transient, not stored per location)",
            parameters: "{\"type\":\"object\",\"properties\":{\"text\":{\"type\":\"string\"}},\"required\":[\"text\"]}",
        },
    );
    v.push(
        ToolDefinition {
            name: "create_item",
            description: "Create a new item in the world",
            parameters: "{\"type\":\"object\",\"properties\":{\"id\":{\"type\":\"string\",\"description\":\"Unique identifier for the item\"},\"name\":{\"type\":\"string\"},\"description\":{\"type\":\"string\"},\"item_type\":{\"type\":\"string\",\"enum\":[\"Weapon\",\"Armor\",\"Consumable\",\"Tool\",\"Key\",\"Container\",\"QuestItem\",\"Material\"]},\"state\":{\"oneOf\":[{\"type\":\"string\",\"enum\":[\"Normal\",\"Equipped\"]},{\"type\":\"object\",\"properties\":{\"Damaged\":{\"type\":\"object\",\"properties\":{\"durability\":{\"type\":\"integer\"},\"max_durability\":{\"type\":\"integer\"}},\"required\":[\"durability\",\"max_durability\"]}}},{\"type\":\"object\",\"properties\":{\"Consumed\":{\"type\":\"object\",\"properties\":{\"charges\":{\"type\":\"integer\"},\"max_charges\":{\"type\":\"integer\"}},\"required\":[\"charges\",\"max_charges\"]}}}]},\"properties\":{\"type\":\"object\",\"properties\":{\"damage\":{\"type\":\"integer\"},\"defense\":{\"type\":\"integer\"},\"value\":{\"type\":\"integer\"},\"weight\":{\"type\":\"integer\"},\"carryable\":{\"type\":\"boolean\"},\"usable\":{\"type\":\"boolean\"},\"equip_slot\":{\"type\":\"string\",\"enum\":[\"weapon\",\"armor\",null]},\"status_effects\":{\"type\":\"array\",\"items\":{\"type\":\"string\"}}}}},\"required\":[\"id\",\"name\",\"description\",\"item_type\"]}",
        },
    );
    v.push(
        ToolDefinition {
            name: "add_item_to_inventory",
            description: "Add an existing item to the player's inventory",
            parameters: "{\"type\":\"object\",\"properties\":{\"item_id\":{\"type\":\"string\"}},\"required\":[\"item_id\"]}",
        },
    );
    v.push(
        ToolDefinition {
            name: "remove_item_from_inventory",
            description: "Remove an item from the player's inventory",
            parameters: "{\"type\":\"object\",\"properties\":{\"item_id\":{\"type\":\"string\"}},\"required\":[\"item_id\"]}",
        },
    );
    v.push(
        ToolDefinition {
            name: "add_item_to_location",
            description: "Add an item to the current location",
            parameters: "{\"type\":\"object\",\"properties\":{\"item_id\":{\"type\":\"string\"}},\"required\":[\"item_id\"]}",
        },
    );
    v.push(
        ToolDefinition {
            name: "remove_item_from_location",
            description: "Remove an item from the current location",
            parameters: "{\"type\":\"object\",\"properties\":{\"item_id\":{\"type\":\"string\"}},\"required\":[\"item_id\"]}",
        },
    );
    v.push(
        ToolDefinition {
            name: "use_item",
            description: "Use an item (activates consumables or tools)",
            parameters: "{\"type\":\"object\",\"properties\":{\"item_id\":{\"type\":\"string\"}},\"required\":[\"item_id\"]}",
        },
    );
    v.push(
        ToolDefinition {
            name: "equip_item",
            description: "Equip an item to its slot",
            parameters: "{\"type\":\"object\",\"properties\":{\"item_id\":{\"type\":\"string\"}},\"required\":[\"item_id\"]}",
        },
    );
    v.push(
        ToolDefinition {
            name: "unequip_item",
            description: "Unequip an item",
            parameters: "{\"type\":\"object\",\"properties\":{\"item_id\":{\"type\":\"string\"}},\"required\":[\"item_id\"]}",
        },
    );
    v.push(
        ToolDefinition {
            name: "combine_items",
            description: "Combine two items into a new item",
            parameters: "{\"type\":\"object\",\"properties\":{\"item1_id\":{\"type\":\"string\"},\"item2_id\":{\"type\":\"string\"},\"result_id\":{\"type\":\"string\"}},\"required\":[\"item1_id\",\"item2_id\",\"result_id\"]}",
        },
    );
    v.push(
        ToolDefinition {
            name: "break_item",
            description: "Break and remove an item from the world",
            parameters: "{\"type\":\"object\",\"properties\":{\"item_id\":{\"type\":\"string\"}},\"required\":[\"item_id\"]}",
        },
    );
    v.push(
        ToolDefinition {
            name: "add_item_to_container",
            description: "Add an item to a container",
            parameters: "{\"type\":\"object\",\"properties\":{\"container_id\":{\"type\":\"string\"},\"item_id\":{\"type\":\"string\"}},\"required\":[\"container_id\",\"item_id\"]}",
        },
    );
    v.push(
        ToolDefinition {
            name: "remove_item_from_container",
            description: "Remove an item from a container",
            parameters: "{\"type\":\"object\",\"properties\":{\"container_id\":{\"type\":\"string\"},\"item_id\":{\"type\":\"string\"}},\"required\":[\"container_id\",\"item_id\"]}",
        },
    );
    v.push(
        ToolDefinition {
            name: "start_combat",
            description: "Start combat with enemies at the current location. Enemies must be actors present at this location.",
            parameters: "{\"type\":\"object\",\"properties\":{\"enemy_ids\":{\"type\":\"array\",\"items\":{\"type\":\"string\"},\"description\":\"IDs of enemy actors to engage in combat (max 4 total including player)\"}},\"required\":[\"enemy_ids\"]}",
        },
    );
    v.push(
        ToolDefinition {
            name: "attack_actor",
            description: "Attack another actor in combat. Calculate damage based on weapon - armor.",
            parameters: "{\"type\":\"object\",\"properties\":{\"attacker_id\":{\"type\":\"string\"},\"target_id\":{\"type\":\"string\"},\"weapon_id\":{\"type\":\"string\",\"description\":\"Optional weapon ID to use, defaults to equipped\"}},\"required\":[\"attacker_id\",\"target_id\"]}",
        },
    );
    v.push(
        ToolDefinition {
            name: "defend",
            description: "Increase temporary defense for one round (adds +5 to defense)",
            parameters: "{\"type\":\"object\",\"properties\":{\"actor_id\":{\"type\":\"string\"}},\"required\":[\"actor_id\"]}",
        },
    );
    v.push(
        ToolDefinition {
            name: "flee",
            description: "Attempt to flee from combat. Success chance based on random check.",
            parameters: "{\"type\":\"object\",\"properties\":{\"actor_id\":{\"type\":\"string\"}},\"required\":[\"actor_id\"]}",
        },
    );
    v.push(
        ToolDefinition {
            name: "use_item_in_combat",
            description: "Use an item during combat (consumables, healing potions, etc.)",
            parameters: "{\"type\":\"object\",\"properties\":{\"user_id\":{\"type\":\"string\"},\"item_id\":{\"type\":\"string\"},\"target_id\":{\"type\":\"string\",\"description\":\"Optional target actor for the item effect\"}},\"required\":[\"user_id\",\"item_id\"]}",
        },
    );
    v.push(
        ToolDefinition {
            name: "end_turn",
            description: "End the current combatant's turn and move to next combatant",
            parameters: "{\"type\":\"object\",\"properties\":{\"actor_id\":{\"type\":\"string\"}},\"required\":[\"actor_id\"]}",
        },
    );
    v
}

} // verus!
