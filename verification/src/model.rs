//! The world model: plain data, and the mathematical view (`@`) of each type
//! over which the engine's contracts are stated.
use crate::keyed::{distinct_keys, position, Keyed};
use crate::text::{clone_strings, owned, views};
use vstd::prelude::*;

verus! {

/// A grid coordinate.
pub type Pos = (i32, i32);

// ---------------------------------------------------------------------------
// Items
// ---------------------------------------------------------------------------
#[derive(Debug, Clone, Copy, PartialEq, Eq, Structural)]
pub enum ItemType {
    Weapon,
    Armor,
    Consumable,
    Tool,
    Key,
    Container,
    QuestItem,
    Material,
}

/// The name under which an item type is written and read.
pub open spec fn item_type_name(t: ItemType) -> Seq<char> {
    match t {
        ItemType::Weapon => "Weapon"@,
        ItemType::Armor => "Armor"@,
        ItemType::Consumable => "Consumable"@,
        ItemType::Tool => "Tool"@,
        ItemType::Key => "Key"@,
        ItemType::Container => "Container"@,
        ItemType::QuestItem => "QuestItem"@,
        ItemType::Material => "Material"@,
    }
}

impl ItemType {
    /// The type's name as text.
    pub fn to_string(&self) -> (r: String)
        ensures
            r@ == item_type_name(*self),
    {
        match self {
            ItemType::Weapon => owned("Weapon"),
            ItemType::Armor => owned("Armor"),
            ItemType::Consumable => owned("Consumable"),
            ItemType::Tool => owned("Tool"),
            ItemType::Key => owned("Key"),
            ItemType::Container => owned("Container"),
            ItemType::QuestItem => owned("QuestItem"),
            ItemType::Material => owned("Material"),
        }
    }
}

#[derive(Debug, Clone, PartialEq)]
pub enum ItemState {
    Normal,
    Equipped,
    Damaged { durability: u32, max_durability: u32 },
    Consumed { charges: u32, max_charges: u32 },
    Locked { key_id: Option<String> },
    Open { contents: Vec<String> },
}

pub enum ItemStateView {
    Normal,
    Equipped,
    Damaged { durability: u32, max_durability: u32 },
    Consumed { charges: u32, max_charges: u32 },
    Locked { key_id: Option<Seq<char>> },
    Open { contents: Seq<Seq<char>> },
}

/// The view of an optional string.
pub open spec fn opt_view(o: Option<String>) -> Option<Seq<char>> {
    match o {
        Some(s) => Some(s@),
        None => None,
    }
}

impl View for ItemState {
    type V = ItemStateView;

    open spec fn view(&self) -> ItemStateView {
        match *self {
            ItemState::Normal => ItemStateView::Normal,
            ItemState::Equipped => ItemStateView::Equipped,
            ItemState::Damaged { durability, max_durability } => ItemStateView::Damaged {
                durability,
                max_durability,
            },
            ItemState::Consumed { charges, max_charges } => ItemStateView::Consumed {
                charges,
                max_charges,
            },
            ItemState::Locked { key_id } => ItemStateView::Locked { key_id: opt_view(key_id) },
            ItemState::Open { contents } => ItemStateView::Open { contents: views(contents@) },
        }
    }
}

#[derive(Debug, Clone)]
pub struct ItemProperties {
    pub damage: Option<u32>,
    pub defense: Option<u32>,
    pub value: Option<u32>,
    pub weight: Option<u32>,
    pub carryable: bool,
    pub usable: bool,
    pub equip_slot: Option<String>,
    pub status_effects: Vec<String>,
}

pub struct ItemPropertiesView {
    pub damage: Option<u32>,
    pub defense: Option<u32>,
    pub value: Option<u32>,
    pub weight: Option<u32>,
    pub carryable: bool,
    pub usable: bool,
    pub equip_slot: Option<Seq<char>>,
    pub status_effects: Seq<Seq<char>>,
}

impl View for ItemProperties {
    type V = ItemPropertiesView;

    open spec fn view(&self) -> ItemPropertiesView {
        ItemPropertiesView {
            damage: self.damage,
            defense: self.defense,
            value: self.value,
            weight: self.weight,
            carryable: self.carryable,
            usable: self.usable,
            equip_slot: opt_view(self.equip_slot),
            status_effects: views(self.status_effects@),
        }
    }
}

impl ItemPropertiesView {
    /// The properties of an item about which nothing was said: carryable,
    /// not usable, no numbers, no slot, no effects.
    pub open spec fn plain() -> ItemPropertiesView {
        ItemPropertiesView {
            damage: None,
            defense: None,
            value: None,
            weight: None,
            carryable: true,
            usable: false,
            equip_slot: None,
            status_effects: Seq::empty(),
        }
    }
}

impl Default for ItemProperties {
    fn default() -> (r: ItemProperties)
        ensures
            r@ == ItemPropertiesView::plain(),
    {
        let r = ItemProperties {
            damage: None,
            defense: None,
            value: None,
            weight: None,
            carryable: true,
            usable: false,
            equip_slot: None,
            status_effects: Vec::new(),
        };
        assert(r@.status_effects =~= Seq::empty());
        r
    }
}

#[derive(Debug, Clone)]
pub struct Item {
    pub id: String,
    pub name: String,
    pub description: String,
    pub item_type: ItemType,
    pub state: ItemState,
    pub properties: ItemProperties,
}

pub struct ItemView {
    pub id: Seq<char>,
    pub name: Seq<char>,
    pub description: Seq<char>,
    pub item_type: ItemType,
    pub state: ItemStateView,
    pub properties: ItemPropertiesView,
}

impl View for Item {
    type V = ItemView;

    open spec fn view(&self) -> ItemView {
        ItemView {
            id: self.id@,
            name: self.name@,
            description: self.description@,
            item_type: self.item_type,
            state: self.state@,
            properties: self.properties@,
        }
    }
}

impl ItemState {
    /// A copy of the state.
    pub fn clone_state(&self) -> (r: ItemState)
        ensures
            r@ == self@,
    {
        match self {
            ItemState::Normal => ItemState::Normal,
            ItemState::Equipped => ItemState::Equipped,
            ItemState::Damaged { durability, max_durability } => ItemState::Damaged {
                durability: *durability,
                max_durability: *max_durability,
            },
            ItemState::Consumed { charges, max_charges } => ItemState::Consumed {
                charges: *charges,
                max_charges: *max_charges,
            },
            ItemState::Locked { key_id } => ItemState::Locked { key_id: clone_opt_text(key_id) },
            ItemState::Open { contents } => ItemState::Open { contents: clone_strings(contents) },
        }
    }
}

/// A copy of an optional text.
pub fn clone_opt_text(o: &Option<String>) -> (r: Option<String>)
    ensures
        opt_view(r) == opt_view(*o),
{
    match o {
        Some(s) => Some(s.clone()),
        None => None,
    }
}

impl Item {
    /// A copy of the item.
    pub fn clone_item(&self) -> (r: Item)
        ensures
            r@ == self@,
    {
        Item {
            id: self.id.clone(),
            name: self.name.clone(),
            description: self.description.clone(),
            item_type: self.item_type,
            state: self.state.clone_state(),
            properties: ItemProperties {
                damage: self.properties.damage,
                defense: self.properties.defense,
                value: self.properties.value,
                weight: self.properties.weight,
                carryable: self.properties.carryable,
                usable: self.properties.usable,
                equip_slot: clone_opt_text(&self.properties.equip_slot),
                status_effects: clone_strings(&self.properties.status_effects),
            },
        }
    }
}

impl Keyed for ItemView {
    type Key = Seq<char>;

    open spec fn key(&self) -> Seq<char> {
        self.id
    }
}

// ---------------------------------------------------------------------------
// Locations and actors
// ---------------------------------------------------------------------------
/// One exit of a location: a direction name, and where it leads (`None` when
/// the way is blocked).
#[derive(Debug, Clone)]
pub struct Exit {
    pub direction: String,
    pub target: Option<Pos>,
}

pub struct ExitView {
    pub direction: Seq<char>,
    pub target: Option<Pos>,
}

impl View for Exit {
    type V = ExitView;

    open spec fn view(&self) -> ExitView {
        ExitView { direction: self.direction@, target: self.target }
    }
}

impl Keyed for ExitView {
    type Key = Seq<char>;

    open spec fn key(&self) -> Seq<char> {
        self.direction
    }
}

#[derive(Debug, Clone)]
pub struct Location {
    pub name: String,
    pub description: String,
    pub items: Vec<String>,
    pub actors: Vec<String>,
    pub exits: Vec<Exit>,
    pub cached_image_path: Option<String>,
    pub image_prompt: String,
    pub visited: bool,
}

pub struct LocationView {
    pub name: Seq<char>,
    pub description: Seq<char>,
    pub items: Seq<Seq<char>>,
    pub actors: Seq<Seq<char>>,
    pub exits: Seq<ExitView>,
    pub cached_image_path: Option<Seq<char>>,
    pub image_prompt: Seq<char>,
    pub visited: bool,
}

impl View for Location {
    type V = LocationView;

    open spec fn view(&self) -> LocationView {
        LocationView {
            name: self.name@,
            description: self.description@,
            items: views(self.items@),
            actors: views(self.actors@),
            exits: views(self.exits@),
            cached_image_path: opt_view(self.cached_image_path),
            image_prompt: self.image_prompt@,
            visited: self.visited,
        }
    }
}

impl LocationView {
    /// Where the exit named `direction` leads: `None` when the location has no
    /// such exit, `Some(None)` when it is blocked.
    pub open spec fn exit(self, direction: Seq<char>) -> Option<Option<Pos>> {
        match position(self.exits, direction) {
            Some(i) => Some(self.exits[i].target),
            None => None,
        }
    }

    /// The location with its exit `direction` set to lead to `target`:
    /// replaced in place when the exit exists, added at the end otherwise.
    pub open spec fn with_exit(self, direction: Seq<char>, target: Option<Pos>) -> LocationView {
        let e = ExitView { direction, target };
        LocationView {
            exits: match position(self.exits, direction) {
                Some(i) => self.exits.update(i, e),
                None => self.exits.push(e),
            },
            ..self
        }
    }
}

/// The name given to a location that arrives without one.
pub fn default_location_name() -> (r: String)
    ensures
        r@ == "Unknown Location"@,
{
    owned("Unknown Location")
}

/// The description given to a location that arrives without one.
pub fn default_location_description() -> (r: String)
    ensures
        r@ == "An unknown place."@,
{
    owned("An unknown place.")
}

/// The image prompt given to a location that arrives without one.
pub fn default_image_prompt() -> (r: String)
    ensures
        r@ == "A mysterious location"@,
{
    owned("A mysterious location")
}

/// A location together with the coordinate it occupies.
#[derive(Debug)]
pub struct Place {
    pub pos: Pos,
    pub location: Location,
}

impl Clone for Place {
    fn clone(&self) -> (r: Place)
        ensures
            r@ == self@,
    {
        Place { pos: self.pos, location: copy_location(&self.location) }
    }
}

/// A copy of a list, made entry by entry with `copy`.
pub fn copy_all<T: View>(v: &Vec<T>, copy: impl Fn(&T) -> T) -> (r: Vec<T>)
    requires
        forall|x: &T| call_requires(copy, (x,)),
        forall|x: &T, y: T| call_ensures(copy, (x,), y) ==> y@ == x@,
    ensures
        views(r@) == views(v@),
{
    let mut out: Vec<T> = Vec::new();
    let mut i: usize = 0;
    while i < v.len()
        invariant
            i <= v.len(),
            out.len() == i,
            forall|x: &T| call_requires(copy, (x,)),
            forall|x: &T, y: T| call_ensures(copy, (x,), y) ==> y@ == x@,
            forall|k: int| 0 <= k < i ==> (#[trigger] out@[k])@ == v@[k]@,
        decreases v.len() - i,
    {
        out.push(copy(&v[i]));
        i += 1;
    }
    proof {
        assert(views(out@) =~= views(v@));
    }
    out
}

/// A copy of an exit.
pub fn copy_exit(e: &Exit) -> (r: Exit)
    ensures
        r@ == e@,
{
    Exit { direction: e.direction.clone(), target: e.target }
}

/// A copy of a location.
pub fn copy_location(loc: &Location) -> (r: Location)
    ensures
        r@ == loc@,
{
    Location {
        name: loc.name.clone(),
        description: loc.description.clone(),
        items: clone_strings(&loc.items),
        actors: clone_strings(&loc.actors),
        exits: copy_all(&loc.exits, copy_exit),
        cached_image_path: clone_opt_text(&loc.cached_image_path),
        image_prompt: loc.image_prompt.clone(),
        visited: loc.visited,
    }
}

/// A copy of a place.
pub fn copy_place(p: &Place) -> (r: Place)
    ensures
        r@ == p@,
{
    Place { pos: p.pos, location: copy_location(&p.location) }
}

/// A copy of an item.
pub fn copy_item(item: &Item) -> (r: Item)
    ensures
        r@ == item@,
{
    item.clone_item()
}

/// A copy of an actor.
pub fn copy_actor(actor: &Actor) -> (r: Actor)
    ensures
        r@ == actor@,
{
    Actor {
        id: actor.id.clone(),
        name: actor.name.clone(),
        description: actor.description.clone(),
        current_pos: actor.current_pos,
        inventory: clone_strings(&actor.inventory),
        money: actor.money,
    }
}

/// A copy of a list of effects.
pub fn copy_effects(v: &Vec<StatusEffect>) -> (r: Vec<StatusEffect>)
    ensures
        r@ == v@,
{
    let mut out: Vec<StatusEffect> = Vec::new();
    let mut i: usize = 0;
    while i < v.len()
        invariant
            i <= v.len(),
            out@ == v@.take(i as int),
        decreases v.len() - i,
    {
        out.push(v[i]);
        proof {
            assert(out@ =~= v@.take(i + 1));
        }
        i += 1;
    }
    proof {
        assert(v@.take(i as int) =~= v@);
    }
    out
}

/// A copy of a combatant.
pub fn copy_combatant(c: &Combatant) -> (r: Combatant)
    ensures
        r@ == c@,
{
    Combatant {
        id: c.id.clone(),
        is_player: c.is_player,
        hp: c.hp,
        max_hp: c.max_hp,
        weapon_id: clone_opt_text(&c.weapon_id),
        armor_id: clone_opt_text(&c.armor_id),
        initiative: c.initiative,
        status_effects: copy_effects(&c.status_effects),
        temp_defense: c.temp_defense,
    }
}

pub struct PlaceView {
    pub pos: Pos,
    pub location: LocationView,
}

impl View for Place {
    type V = PlaceView;

    open spec fn view(&self) -> PlaceView {
        PlaceView { pos: self.pos, location: self.location@ }
    }
}

impl Keyed for PlaceView {
    type Key = Pos;

    open spec fn key(&self) -> Pos {
        self.pos
    }
}

#[derive(Debug)]
pub struct Actor {
    pub id: String,
    pub name: String,
    pub description: String,
    pub current_pos: Pos,
    pub inventory: Vec<String>,
    pub money: u32,
}

impl Clone for Actor {
    fn clone(&self) -> (r: Actor)
        ensures
            r@ == self@,
    {
        copy_actor(self)
    }
}

pub struct ActorView {
    pub id: Seq<char>,
    pub name: Seq<char>,
    pub description: Seq<char>,
    pub current_pos: Pos,
    pub inventory: Seq<Seq<char>>,
    pub money: u32,
}

impl View for Actor {
    type V = ActorView;

    open spec fn view(&self) -> ActorView {
        ActorView {
            id: self.id@,
            name: self.name@,
            description: self.description@,
            current_pos: self.current_pos,
            inventory: views(self.inventory@),
            money: self.money,
        }
    }
}

impl Keyed for ActorView {
    type Key = Seq<char>;

    open spec fn key(&self) -> Seq<char> {
        self.id
    }
}

#[derive(Debug, Clone)]
pub struct Player {
    pub inventory: Vec<String>,
    pub money: u32,
}

pub struct PlayerView {
    pub inventory: Seq<Seq<char>>,
    pub money: u32,
}

impl View for Player {
    type V = PlayerView;

    open spec fn view(&self) -> PlayerView {
        PlayerView { inventory: views(self.inventory@), money: self.money }
    }
}

impl Default for Player {
    fn default() -> (r: Player)
        ensures
            r@ == (PlayerView { inventory: Seq::empty(), money: 0 }),
    {
        let r = Player { inventory: Vec::new(), money: 0 };
        assert(r@.inventory =~= Seq::empty());
        r
    }
}

// ---------------------------------------------------------------------------
// Combat
// ---------------------------------------------------------------------------
#[derive(Debug, Clone, Copy, PartialEq, Eq, Structural)]
pub enum StatusType {
    Poison,
    Stunned,
    Burning,
    Frozen,
    Bleeding,
}

#[derive(Debug, Clone, Copy, PartialEq, Eq, Structural)]
pub struct StatusEffect {
    pub effect_type: StatusType,
    pub duration: u32,
    pub severity: u32,
}

#[derive(Debug, Clone)]
pub struct Combatant {
    pub id: String,
    pub is_player: bool,
    pub hp: u32,
    pub max_hp: u32,
    pub weapon_id: Option<String>,
    pub armor_id: Option<String>,
    pub initiative: u32,
    pub status_effects: Vec<StatusEffect>,
    pub temp_defense: u32,
}

pub struct CombatantView {
    pub id: Seq<char>,
    pub is_player: bool,
    pub hp: u32,
    pub max_hp: u32,
    pub weapon_id: Option<Seq<char>>,
    pub armor_id: Option<Seq<char>>,
    pub initiative: u32,
    pub status_effects: Seq<StatusEffect>,
    pub temp_defense: u32,
}

impl View for Combatant {
    type V = CombatantView;

    open spec fn view(&self) -> CombatantView {
        CombatantView {
            id: self.id@,
            is_player: self.is_player,
            hp: self.hp,
            max_hp: self.max_hp,
            weapon_id: opt_view(self.weapon_id),
            armor_id: opt_view(self.armor_id),
            initiative: self.initiative,
            status_effects: self.status_effects@,
            temp_defense: self.temp_defense,
        }
    }
}

impl Keyed for CombatantView {
    type Key = Seq<char>;

    open spec fn key(&self) -> Seq<char> {
        self.id
    }
}

#[derive(Debug, Clone)]
pub struct CombatState {
    pub active: bool,
    pub combatants: Vec<Combatant>,
    pub current_turn_index: usize,
    pub round_number: u32,
}

pub struct CombatView {
    pub active: bool,
    pub combatants: Seq<CombatantView>,
    pub current_turn_index: nat,
    pub round_number: u32,
}

impl View for CombatState {
    type V = CombatView;

    open spec fn view(&self) -> CombatView {
        CombatView {
            active: self.active,
            combatants: views(self.combatants@),
            current_turn_index: self.current_turn_index as nat,
            round_number: self.round_number,
        }
    }
}

impl CombatView {
    /// No combat: inactive, nobody listed, counters at zero.
    pub open spec fn idle() -> CombatView {
        CombatView {
            active: false,
            combatants: Seq::empty(),
            current_turn_index: 0,
            round_number: 0,
        }
    }

    /// While combat is active somebody is listed and the turn index points at
    /// one of the combatants.
    pub open spec fn wf(self) -> bool {
        self.active ==> 0 <= self.current_turn_index < self.combatants.len()
    }
}

impl Default for CombatState {
    fn default() -> (r: CombatState)
        ensures
            r@ == CombatView::idle(),
    {
        let r = CombatState {
            active: false,
            combatants: Vec::new(),
            current_turn_index: 0,
            round_number: 0,
        };
        assert(r@.combatants =~= Seq::empty());
        r
    }
}

// ---------------------------------------------------------------------------
// Actions
// ---------------------------------------------------------------------------
/// An atomic change of the world, with everything it needs spelled out.
#[derive(Debug)]
pub enum GameAction {
    CreateLocation(Pos, Location),
    UpdateLocation(Pos, Location),
    CreateItem(Item),
    AddItemToInventory(String),
    RemoveItemFromInventory(String),
    MoveTo(Pos),
    AddItemToLocation { pos: Pos, item_id: String },
    RemoveItemFromLocation { pos: Pos, item_id: String },
    UseItem(String),
    EquipItem(String),
    UnequipItem(String),
    CombineItems { item1_id: String, item2_id: String, result_id: String },
    SetItemState { item_id: String, state: ItemState },
    BreakItem(String),
    AddItemToContainer { container_id: String, item_id: String },
    RemoveItemFromContainer { container_id: String, item_id: String },
    StartCombat { enemy_ids: Vec<String> },
    AttackActor { attacker_id: String, target_id: String, weapon_id: Option<String> },
    Defend { actor_id: String },
    Flee { actor_id: String },
    UseItemInCombat { user_id: String, item_id: String, target_id: Option<String> },
    EndTurn { actor_id: String },
    EndCombat { victor_id: String },
}

// ---------------------------------------------------------------------------
// The world
// ---------------------------------------------------------------------------
#[derive(Debug)]
pub struct WorldState {
    pub current_pos: Pos,
    pub locations: Vec<Place>,
    pub actors: Vec<Actor>,
    pub items: Vec<Item>,
    pub player: Player,
    pub combat: CombatState,
    pub max_items: u32,
    pub max_combatants: u32,
}

impl Clone for WorldState {
    fn clone(&self) -> (r: WorldState)
        ensures
            r@ == self@,
    {
        WorldState {
            current_pos: self.current_pos,
            locations: copy_all(&self.locations, copy_place),
            actors: copy_all(&self.actors, copy_actor),
            items: copy_all(&self.items, copy_item),
            player: Player {
                inventory: clone_strings(&self.player.inventory),
                money: self.player.money,
            },
            combat: CombatState {
                active: self.combat.active,
                combatants: copy_all(&self.combat.combatants, copy_combatant),
                current_turn_index: self.combat.current_turn_index,
                round_number: self.combat.round_number,
            },
            max_items: self.max_items,
            max_combatants: self.max_combatants,
        }
    }
}

pub struct WorldView {
    pub current_pos: Pos,
    pub locations: Seq<PlaceView>,
    pub actors: Seq<ActorView>,
    pub items: Seq<ItemView>,
    pub player: PlayerView,
    pub combat: CombatView,
    pub max_items: u32,
    pub max_combatants: u32,
}

impl View for WorldState {
    type V = WorldView;

    open spec fn view(&self) -> WorldView {
        WorldView {
            current_pos: self.current_pos,
            locations: views(self.locations@),
            actors: views(self.actors@),
            items: views(self.items@),
            player: self.player@,
            combat: self.combat@,
            max_items: self.max_items,
            max_combatants: self.max_combatants,
        }
    }
}

impl WorldView {
    /// The world before anything happened: the player at the origin, nothing
    /// registered, no combat, room for 20 items and 4 combatants.
    pub open spec fn initial() -> WorldView {
        WorldView {
            current_pos: (0i32, 0i32),
            locations: Seq::empty(),
            actors: Seq::empty(),
            items: Seq::empty(),
            player: PlayerView { inventory: Seq::empty(), money: 0 },
            combat: CombatView::idle(),
            max_items: 20,
            max_combatants: 4,
        }
    }

    /// One location per coordinate, one item and one actor per identifier, one
    /// exit per direction within a location, and a valid combat state.
    pub open spec fn wf(self) -> bool {
        &&& distinct_keys(self.locations)
        &&& distinct_keys(self.actors)
        &&& distinct_keys(self.items)
        &&& forall|i: int|
            0 <= i < self.locations.len() ==> distinct_keys(
                (#[trigger] self.locations[i]).location.exits,
            )
        &&& self.combat.wf()
    }

    /// The registered item with identifier `id`.
    pub open spec fn item(self, id: Seq<char>) -> Option<ItemView> {
        match position(self.items, id) {
            Some(i) => Some(self.items[i]),
            None => None,
        }
    }

    /// The actor with identifier `id`.
    pub open spec fn actor(self, id: Seq<char>) -> Option<ActorView> {
        match position(self.actors, id) {
            Some(i) => Some(self.actors[i]),
            None => None,
        }
    }

    /// The location at `pos`.
    pub open spec fn location(self, pos: Pos) -> Option<LocationView> {
        match position(self.locations, pos) {
            Some(i) => Some(self.locations[i].location),
            None => None,
        }
    }

    /// The world with the location at index `i` replaced by `loc`.
    pub open spec fn with_location_at(self, i: int, loc: LocationView) -> WorldView {
        WorldView {
            locations: self.locations.update(i, PlaceView { pos: self.locations[i].pos, location: loc }),
            ..self
        }
    }

    /// The world with the item at index `i` replaced by `item`.
    pub open spec fn with_item_at(self, i: int, item: ItemView) -> WorldView {
        WorldView { items: self.items.update(i, item), ..self }
    }

    /// The world with the player's inventory replaced.
    pub open spec fn with_inventory(self, inventory: Seq<Seq<char>>) -> WorldView {
        WorldView { player: PlayerView { inventory, ..self.player }, ..self }
    }
}

impl WorldState {
    /// A new, empty world with the player at the origin.
    pub fn new() -> (r: WorldState)
        ensures
            r@ == WorldView::initial(),
            r@.wf(),
    {
        let r = WorldState {
            current_pos: (0, 0),
            locations: Vec::new(),
            actors: Vec::new(),
            items: Vec::new(),
            player: Player::default(),
            combat: CombatState::default(),
            max_items: 20,
            max_combatants: 4,
        };
        assert(r@.locations =~= Seq::empty());
        assert(r@.actors =~= Seq::empty());
        assert(r@.items =~= Seq::empty());
        r
    }
}

impl Default for WorldState {
    fn default() -> (r: WorldState)
        ensures
            r@ == WorldView::initial(),
    {
        WorldState::new()
    }
}

} // verus!
