//! The dispatcher: one decoded command applied to the world, as a function on
//! views and as the code that carries it out.
use crate::combat::{escapes, turn_report};
use crate::json::{json_document, parse_json_or_explain, JsonValue};
use crate::keyed::{lemma_position, position};
use crate::context::{quoted_list, shown_option, write_option, write_quoted_list};
use crate::model::{
    item_type_name, ActorView, ItemProperties, ItemPropertiesView, ItemState, ItemStateView,
    ItemView, Item, Location, LocationView, WorldState, WorldView,
};
use crate::text::{
    decimal, decimal_count, decimal_string, join2, join3, join_list, joined, lemma_logged_more,
    logged_all, logged_entry, owned, push_bounded, views,
};
use crate::tools::{
    decode, decode_tool, is_known_operation, known_operation, CombatFault, CombatFaultView, Entity,
    EntityView, ToolCall, ToolCommand, ToolCommandView, ToolError, ToolErrorView,
    ToolResult,
};
use crate::travel::{
    as_pos, generation_prompt, move_report, shown_pos, step, target_from, target_of, write_pos,
    GenerationRequest, MovePlan, GENERATOR_ROLE,
};
use vstd::prelude::*;

verus! {

/// How an item's state reads.
pub open spec fn item_state_text(state: ItemStateView) -> Seq<char> {
    match state {
        ItemStateView::Normal => "normal"@,
        ItemStateView::Equipped => "equipped"@,
        ItemStateView::Damaged { durability, max_durability } => "damaged: "@ + decimal(
            durability as int,
        ) + "/"@ + decimal(max_durability as int),
        ItemStateView::Consumed { charges, max_charges } => "charges: "@ + decimal(charges as int)
            + "/"@ + decimal(max_charges as int),
        ItemStateView::Locked { key_id } => "locked by: "@ + shown_option(key_id),
        ItemStateView::Open { contents } => "open: "@ + decimal(contents.len() as int) + " items"@,
    }
}

/// Writes how an item's state reads.
pub fn format_item_state(item: &Item) -> (r: String)
    ensures
        r@ == item_state_text(item@.state),
{
    match &item.state {
        ItemState::Normal => owned("normal"),
        ItemState::Equipped => owned("equipped"),
        ItemState::Damaged { durability, max_durability } => {
            let a = decimal_string(*durability as i128);
            let b = decimal_string(*max_durability as i128);
            let mut out = join3("damaged: ", a.as_str(), "/");
            out.append(b.as_str());
            out
        },
        ItemState::Consumed { charges, max_charges } => {
            let a = decimal_string(*charges as i128);
            let b = decimal_string(*max_charges as i128);
            let mut out = join3("charges: ", a.as_str(), "/");
            out.append(b.as_str());
            out
        },
        ItemState::Locked { key_id } => {
            let key = write_option(key_id);
            join2("locked by: ", key.as_str())
        },
        ItemState::Open { contents } => {
            let n = decimal_count(contents.len());
            proof {
                assert(views(contents@).len() == contents.len());
            }
            join3("open: ", n.as_str(), " items")
        },
    }
}

/// An optional number in its debug form.
pub open spec fn shown_number(o: Option<u32>) -> Seq<char> {
    match o {
        Some(n) => "Some("@ + decimal(n as int) + ")"@,
        None => "None"@,
    }
}

/// A flag in its debug form.
pub open spec fn shown_flag(b: bool) -> Seq<char> {
    if b {
        "true"@
    } else {
        "false"@
    }
}

/// The state of an item in its debug form: the name of the state, and its
/// fields in braces where it has any.
pub open spec fn state_debug(state: ItemStateView) -> Seq<char> {
    match state {
        ItemStateView::Normal => "Normal"@,
        ItemStateView::Equipped => "Equipped"@,
        ItemStateView::Damaged { durability, max_durability } => "Damaged { durability: "@
            + decimal(durability as int) + ", max_durability: "@ + decimal(max_durability as int)
            + " }"@,
        ItemStateView::Consumed { charges, max_charges } => "Consumed { charges: "@ + decimal(
            charges as int,
        ) + ", max_charges: "@ + decimal(max_charges as int) + " }"@,
        ItemStateView::Locked { key_id } => "Locked { key_id: "@ + shown_option(key_id) + " }"@,
        ItemStateView::Open { contents } => "Open { contents: "@ + quoted_list(contents) + " }"@,
    }
}

/// The properties of an item in their debug form: every field by its name.
pub open spec fn properties_debug(p: ItemPropertiesView) -> Seq<char> {
    "ItemProperties { damage: "@ + shown_number(p.damage) + ", defense: "@ + shown_number(
        p.defense,
    ) + ", value: "@ + shown_number(p.value) + ", weight: "@ + shown_number(p.weight)
        + ", carryable: "@ + shown_flag(p.carryable) + ", usable: "@ + shown_flag(p.usable)
        + ", equip_slot: "@ + shown_option(p.equip_slot) + ", status_effects: "@ + quoted_list(
        p.status_effects,
    ) + " }"@
}

/// What an inspection reports of an item.
pub open spec fn item_report(item: ItemView) -> Seq<char> {
    "Item: "@ + item.name + "\nDescription: "@ + item.description + "\nType: "@ + item_type_name(
        item.item_type,
    ) + "\nState: "@ + state_debug(item.state) + "\nProperties: "@ + properties_debug(
        item.properties,
    )
}

/// What an inspection reports of an actor.
pub open spec fn actor_report(actor: ActorView) -> Seq<char> {
    "Actor: "@ + actor.name + "\nDescription: "@ + actor.description + "\nInventory: "@
        + quoted_list(actor.inventory) + "\nMoney: "@ + decimal(actor.money as int)
}

/// Writes an optional number in its debug form.
pub fn write_number(o: Option<u32>) -> (r: String)
    ensures
        r@ == shown_number(o),
{
    match o {
        Some(n) => {
            let text = decimal_string(n as i128);
            join3("Some(", text.as_str(), ")")
        },
        None => owned("None"),
    }
}

/// Writes a flag in its debug form.
pub fn write_flag(b: bool) -> (r: &'static str)
    ensures
        r@ == shown_flag(b),
{
    if b {
        "true"
    } else {
        "false"
    }
}

/// Writes the state of an item in its debug form.
pub fn write_state_debug(state: &ItemState) -> (r: String)
    ensures
        r@ == state_debug(state@),
{
    match state {
        ItemState::Normal => owned("Normal"),
        ItemState::Equipped => owned("Equipped"),
        ItemState::Damaged { durability, max_durability } => {
            let a = decimal_string(*durability as i128);
            let b = decimal_string(*max_durability as i128);
            let mut out = join3("Damaged { durability: ", a.as_str(), ", max_durability: ");
            out.append(b.as_str());
            out.append(" }");
            out
        },
        ItemState::Consumed { charges, max_charges } => {
            let a = decimal_string(*charges as i128);
            let b = decimal_string(*max_charges as i128);
            let mut out = join3("Consumed { charges: ", a.as_str(), ", max_charges: ");
            out.append(b.as_str());
            out.append(" }");
            out
        },
        ItemState::Locked { key_id } => {
            let key = write_option(key_id);
            join3("Locked { key_id: ", key.as_str(), " }")
        },
        ItemState::Open { contents } => {
            let list = write_quoted_list(contents);
            join3("Open { contents: ", list.as_str(), " }")
        },
    }
}

/// Writes the properties of an item in their debug form.
pub fn write_properties_debug(p: &ItemProperties) -> (r: String)
    ensures
        r@ == properties_debug(p@),
{
    let damage = write_number(p.damage);
    let defense = write_number(p.defense);
    let value = write_number(p.value);
    let weight = write_number(p.weight);
    let slot = write_option(&p.equip_slot);
    let effects = write_quoted_list(&p.status_effects);
    let mut out = join3("ItemProperties { damage: ", damage.as_str(), ", defense: ");
    out.append(defense.as_str());
    out.append(", value: ");
    out.append(value.as_str());
    out.append(", weight: ");
    out.append(weight.as_str());
    out.append(", carryable: ");
    out.append(write_flag(p.carryable));
    out.append(", usable: ");
    out.append(write_flag(p.usable));
    out.append(", equip_slot: ");
    out.append(slot.as_str());
    out.append(", status_effects: ");
    out.append(effects.as_str());
    out.append(" }");
    out
}

impl WorldState {
    /// Reports on the item, or else the actor, with the identifier
    /// `object_id`. Fails when neither exists.
    pub fn inspect_object(&self, object_id: &str) -> (r: Result<String, ToolError>)
        ensures
            match r {
                Ok(text) => match self@.item(object_id@) {
                    Some(item) => text@ == item_report(item),
                    None => self@.actor(object_id@) matches Some(actor) && text@ == actor_report(
                        actor,
                    ),
                },
                Err(e) => {
                    &&& e@ == ToolErrorView::EntityNotFound(EntityView::Object(object_id@))
                    &&& self@.item(object_id@) is None
                    &&& self@.actor(object_id@) is None
                },
            },
    {
        if let Some(i) = self.find_item(object_id) {
            let item = &self.items[i];
            let kind = item.item_type.to_string();
            let state = write_state_debug(&item.state);
            let properties = write_properties_debug(&item.properties);
            let mut out = join3("Item: ", item.name.as_str(), "\nDescription: ");
            out.append(item.description.as_str());
            out.append("\nType: ");
            out.append(kind.as_str());
            out.append("\nState: ");
            out.append(state.as_str());
            out.append("\nProperties: ");
            out.append(properties.as_str());
            return Ok(out);
        }
        if let Some(a) = self.find_actor(object_id) {
            let actor = &self.actors[a];
            let things = write_quoted_list(&actor.inventory);
            let money = decimal_string(actor.money as i128);
            let mut out = join3("Actor: ", actor.name.as_str(), "\nDescription: ");
            out.append(actor.description.as_str());
            out.append("\nInventory: ");
            out.append(things.as_str());
            out.append("\nMoney: ");
            out.append(money.as_str());
            return Ok(out);
        }
        Err(ToolError::EntityNotFound(Entity::Object(owned(object_id))))
    }
}

// ---------------------------------------------------------------------------
// The dispatcher as a function
// ---------------------------------------------------------------------------
/// What one command leaves behind: the world, the narrative set for the turn,
/// and the acknowledgment or the failure.
pub struct Outcome {
    pub world: WorldView,
    pub narrative: Option<Seq<char>>,
    pub result: Result<Seq<char>, ToolErrorView>,
}

/// What executing a call came to.
#[derive(Debug)]
pub enum CallOutcome {
    /// The call was carried out; this is the answer to it.
    Answered(ToolResult),
    /// The call is a step into the unexplored. Nothing has changed yet: the
    /// location is to be asked for with `request`, and the step completed
    /// with `Agent::complete_move`.
    NeedsLocation { direction: String, request: GenerationRequest },
}

/// What was applied, for the outcome of a call: the text of the answer is the
/// acknowledgment.
pub open spec fn applied_of(r: Result<CallOutcome, ToolError>) -> Result<Applied, ToolError> {
    match r {
        Ok(CallOutcome::Answered(answer)) => Ok(Applied::Done(answer.content)),
        Ok(CallOutcome::NeedsLocation { direction, request }) => Ok(
            Applied::NeedsLocation { direction, request },
        ),
        Err(e) => Err(e),
    }
}

/// How many raw random numbers a command consumes.
pub open spec fn rolls_needed(cmd: ToolCommandView) -> nat {
    match cmd {
        ToolCommandView::StartCombat { enemy_ids, listed } => enemy_ids.len() + 1,
        ToolCommandView::Flee { actor_id } => 1,
        _ => 0,
    }
}

/// The outcome of applying `cmd` to `world`, with `narrative` set so far,
/// the raw random numbers `rolls`, and `generated` for the location to place
/// should the command step into the unexplored. A failure leaves world and
/// narrative as they were.
pub open spec fn run(
    world: WorldView,
    narrative: Option<Seq<char>>,
    cmd: ToolCommandView,
    rolls: Seq<u32>,
    generated: Option<LocationView>,
) -> Outcome {
    let failed = |e: ToolErrorView| Outcome { world, narrative, result: Err(e) };
    let done = |w: WorldView, ack: Seq<char>| Outcome { world: w, narrative, result: Ok(ack) };
    match cmd {
        ToolCommandView::MoveTo { direction } => match world.move_fault(direction) {
            Some(e) => failed(e),
            None => done(
                world.move_to(direction, generated),
                move_report(direction, world.move_to(direction, generated)),
            ),
        },
        ToolCommandView::UpdateLocationDescription { text } => match position(
            world.locations,
            world.current_pos,
        ) {
            Some(i) => done(world.describe_location(i, text), "Location description updated"@),
            None => failed(ToolErrorView::EntityNotFound(EntityView::CurrentLocation)),
        },
        ToolCommandView::GenerateTurnNarrative { text } => Outcome {
            world,
            narrative: Some(text),
            result: Ok("Turn narrative generated"@),
        },
        ToolCommandView::CreateItem { item } => if position(world.items, item.id) is None {
            done(world.create_item(item), "Created item: "@ + item.id)
        } else {
            failed(ToolErrorView::AlreadyExists(item.id))
        },
        ToolCommandView::AddItemToInventory { item_id } => done(
            world.add_item_to_inventory(item_id),
            "Added "@ + item_id + " to inventory"@,
        ),
        ToolCommandView::RemoveItemFromInventory { item_id } => done(
            world.remove_item_from_inventory(item_id),
            "Removed "@ + item_id + " from inventory"@,
        ),
        ToolCommandView::AddItemToLocation { item_id } => match position(
            world.locations,
            world.current_pos,
        ) {
            Some(i) => done(
                world.add_item_to_location(i, item_id),
                "Added "@ + item_id + " to current location"@,
            ),
            None => failed(ToolErrorView::EntityNotFound(EntityView::CurrentLocation)),
        },
        ToolCommandView::RemoveItemFromLocation { item_id } => match position(
            world.locations,
            world.current_pos,
        ) {
            Some(i) => done(
                world.remove_item_from_location(i, item_id),
                "Removed "@ + item_id + " from current location"@,
            ),
            None => failed(ToolErrorView::EntityNotFound(EntityView::CurrentLocation)),
        },
        ToolCommandView::UseItem { item_id } => done(
            world.use_item(item_id),
            "Used item: "@ + item_id,
        ),
        ToolCommandView::EquipItem { item_id } => done(
            world.equip_item(item_id),
            "Equipped item: "@ + item_id,
        ),
        ToolCommandView::UnequipItem { item_id } => done(
            world.unequip_item(item_id),
            "Unequipped item: "@ + item_id,
        ),
        ToolCommandView::CombineItems { item1_id, item2_id, result_id } => done(
            world.combine_items(item1_id, item2_id, result_id),
            "Combined "@ + item1_id + " and "@ + item2_id + " into "@ + result_id,
        ),
        ToolCommandView::BreakItem { item_id } => done(
            world.break_item(item_id),
            "Broke item: "@ + item_id,
        ),
        ToolCommandView::AddItemToContainer { container_id, item_id } => done(
            world.add_item_to_container(container_id, item_id),
            "Added "@ + item_id + " to container "@ + container_id,
        ),
        ToolCommandView::RemoveItemFromContainer { container_id, item_id } => done(
            world.remove_item_from_container(container_id, item_id),
            "Removed "@ + item_id + " from container "@ + container_id,
        ),
        ToolCommandView::StartCombat { enemy_ids, listed } => match world.start_combat_fault_of(
            enemy_ids,
            listed,
        ) {
            Some(e) => failed(e),
            None => done(
                world.start_combat(enemy_ids, rolls),
                "Started combat with "@ + decimal(enemy_ids.len() as int) + " enemies"@,
            ),
        },
        ToolCommandView::AttackActor { attacker_id, target_id, weapon_id } => if !world.combat.active {
            failed(ToolErrorView::CombatPrecondition(CombatFaultView::NotActive))
        } else if world.combatant(attacker_id) is None {
            failed(ToolErrorView::EntityNotFound(EntityView::Attacker))
        } else {
            match world.combatant(target_id) {
                None => failed(ToolErrorView::EntityNotFound(EntityView::Target)),
                Some(t) => done(
                    world.attack(t, weapon_id),
                    attacker_id + " attacked "@ + target_id + " for "@ + decimal(
                        world.attack_damage(t, weapon_id) as int,
                    ) + " damage"@,
                ),
            }
        },
        ToolCommandView::Defend { actor_id } => if !world.combat.active {
            failed(ToolErrorView::CombatPrecondition(CombatFaultView::NotActive))
        } else {
            match world.combatant(actor_id) {
                None => failed(ToolErrorView::EntityNotFound(EntityView::Actor)),
                Some(i) => done(world.defend(i), actor_id + " is defending (+5 temp defense)"@),
            }
        },
        ToolCommandView::Flee { actor_id } => if !world.combat.active {
            failed(ToolErrorView::CombatPrecondition(CombatFaultView::NotActive))
        } else {
            done(
                world.flee(actor_id, rolls[0]),
                if escapes(rolls[0]) {
                    actor_id + " fled successfully!"@
                } else {
                    actor_id + " failed to flee"@
                },
            )
        },
        ToolCommandView::UseItemInCombat { user_id, item_id } => match world.use_in_combat_fault(
            user_id,
            item_id,
        ) {
            Some(e) => failed(e),
            None => done(
                world.use_item_in_combat(
                    world.combatant(user_id)->0,
                    position(world.items, item_id)->0,
                ),
                user_id + " used "@ + item_id + " and healed for 20"@,
            ),
        },
        ToolCommandView::EndTurn { actor_id } => match world.combat.end_turn_fault(actor_id) {
            Some(e) => failed(e),
            None => done(
                WorldView { combat: world.combat.end_turn(), ..world },
                turn_report(world.combat.end_turn()),
            ),
        },
        ToolCommandView::InspectObject { object_id } => match world.item(object_id) {
            Some(item) => done(world, item_report(item)),
            None => match world.actor(object_id) {
                Some(actor) => done(world, actor_report(actor)),
                None => failed(ToolErrorView::EntityNotFound(EntityView::Object(object_id))),
            },
        },
    }
}

/// A call either fully succeeds or changes nothing: whenever the outcome is a
/// failure, world and narrative are those from before.
pub proof fn lemma_failure_changes_nothing(
    world: WorldView,
    narrative: Option<Seq<char>>,
    cmd: ToolCommandView,
    rolls: Seq<u32>,
    generated: Option<LocationView>,
)
    requires
        run(world, narrative, cmd, rolls, generated).result is Err,
    ensures
        run(world, narrative, cmd, rolls, generated).world == world,
        run(world, narrative, cmd, rolls, generated).narrative == narrative,
{
}

/// Whether `cmd` steps into a coordinate that has no location yet, so that
/// one has to be asked for before the step can be made.
pub open spec fn needs_location(world: WorldView, cmd: ToolCommandView) -> bool {
    match cmd {
        ToolCommandView::MoveTo { direction } => world.move_fault(direction) is None && position(
            world.locations,
            as_pos(step(world.current_pos, direction)),
        ) is None,
        _ => false,
    }
}

// ---------------------------------------------------------------------------
// The agent
// ---------------------------------------------------------------------------
/// What marks an entry of the debug log as the agent's.
pub const AGENT_TAG: &'static str = "[Agent] ";

/// The owner of the world for the length of a turn.
#[derive(Debug)]
pub struct Agent {
    pub world: WorldState,
    pub overall_timeout_seconds: u64,
    pub turn_narrative: Option<String>,
    pub debug_log: Vec<String>,
}

/// What applying a command came to.
#[derive(Debug)]
pub enum Applied {
    /// The command was carried out; this is its acknowledgment.
    Done(String),
    /// The command is a step into the unexplored. Nothing has changed yet:
    /// the location is to be asked for with `request`, and the step completed
    /// with `Agent::complete_move`.
    NeedsLocation { direction: String, request: GenerationRequest },
}

/// A raw random number.
///
/// Trusted: wraps `rand::random::<u32>()`. Nothing is claimed of the value:
/// every `u32` may come back.
#[verifier::external_body]
fn random_u32() -> u32 {
    rand::random::<u32>()
}

/// Draws `n` raw random numbers.
fn draw_rolls(n: usize) -> (r: Vec<u32>)
    ensures
        r.len() == n,
{
    let mut rolls: Vec<u32> = Vec::new();
    while rolls.len() < n
        invariant
            rolls.len() <= n,
        decreases n - rolls.len(),
    {
        rolls.push(random_u32());
    }
    rolls
}

/// The view of an optional text.
pub open spec fn opt_text(o: Option<String>) -> Option<Seq<char>> {
    match o {
        Some(s) => Some(s@),
        None => None,
    }
}

impl Agent {
    /// An agent for `world`, with the default time budget, no narrative and
    /// an empty log.
    pub fn new(world: WorldState) -> (r: Agent)
        ensures
            r.world == world,
            r.overall_timeout_seconds == 60,
            r.turn_narrative is None,
            r.debug_log@.len() == 0,
    {
        Agent { world, overall_timeout_seconds: 60, turn_narrative: None, debug_log: Vec::new() }
    }

    /// Adds `message`, marked as the agent's, to the debug log.
    pub fn log(&mut self, message: &str)
        ensures
            views(final(self).debug_log@) == logged_entry(
                views(old(self).debug_log@),
                AGENT_TAG@ + message@,
            ),
            final(self).world == old(self).world,
            final(self).turn_narrative == old(self).turn_narrative,
            final(self).overall_timeout_seconds == old(self).overall_timeout_seconds,
    {
        push_bounded(&mut self.debug_log, join2(AGENT_TAG, message));
    }

    /// The debug log, oldest entry first.
    pub fn get_debug_log(&self) -> (r: &[String])
        ensures
            r@ == self.debug_log@,
    {
        self.debug_log.as_slice()
    }

    /// The follow-up actions that a narrative suggests: the first five
    /// suggestions on its bulleted lines, or the two stock actions.
    pub fn extract_suggested_actions(&self, narrative: &str) -> (r: Vec<String>)
        ensures
            views(r@) == crate::suggest::suggested_actions(narrative@),
    {
        crate::suggest::extract_suggested_actions(narrative)
    }

    /// Hands the world back.
    pub fn take_world(self) -> (r: WorldState)
        ensures
            r == self.world,
    {
        self.world
    }

    /// Whether the agent's state after a command, and what the command
    /// returned, are the outcome `o`.
    pub open spec fn reached(self, r: Result<String, ToolError>, o: Outcome) -> bool {
        &&& self.world@ == o.world
        &&& opt_text(self.turn_narrative) == o.narrative
        &&& match r {
            Ok(ack) => o.result == Ok::<Seq<char>, ToolErrorView>(ack@),
            Err(e) => o.result == Err::<Seq<char>, ToolErrorView>(e@),
        }
    }

    /// Applies a command that needs no location, with the given raw random
    /// numbers. State and result are exactly the outcome that `run` gives.
    pub fn apply_with_rolls(&mut self, command: &ToolCommand, rolls: &Vec<u32>) -> (r: Result<
        String,
        ToolError,
    >)
        requires
            rolls.len() == rolls_needed(command@),
            !needs_location(old(self).world@, command@),
        ensures
            final(self).reached(
                r,
                run(old(self).world@, opt_text(old(self).turn_narrative), command@, rolls@, None),
            ),
            final(self).debug_log == old(self).debug_log,
            final(self).overall_timeout_seconds == old(self).overall_timeout_seconds,
    {
        match command {
            ToolCommand::MoveTo { direction } => {
                proof {
                    lemma_position(
                        self.world@.locations,
                        as_pos(step(self.world@.current_pos, direction@)),
                    );
                }
                self.world.move_to(direction.as_str(), None)
            },
            ToolCommand::UpdateLocationDescription { text } => self.world.update_location_description(
                text.as_str(),
            ),
            ToolCommand::GenerateTurnNarrative { text } => {
                self.turn_narrative = Some(text.clone());
                Ok(owned("Turn narrative generated"))
            },
            ToolCommand::CreateItem { item } => self.world.create_item(item.clone_item()),
            ToolCommand::AddItemToInventory { item_id } => Ok(
                self.world.add_item_to_inventory(item_id.as_str()),
            ),
            ToolCommand::RemoveItemFromInventory { item_id } => Ok(
                self.world.remove_item_from_inventory(item_id.as_str()),
            ),
            ToolCommand::AddItemToLocation { item_id } => self.world.add_item_to_location(
                item_id.as_str(),
            ),
            ToolCommand::RemoveItemFromLocation { item_id } => self.world.remove_item_from_location(
                item_id.as_str(),
            ),
            ToolCommand::UseItem { item_id } => Ok(self.world.use_item(item_id.as_str())),
            ToolCommand::EquipItem { item_id } => Ok(self.world.equip_item(item_id.as_str())),
            ToolCommand::UnequipItem { item_id } => Ok(self.world.unequip_item(item_id.as_str())),
            ToolCommand::CombineItems { item1_id, item2_id, result_id } => Ok(
                self.world.combine_items(item1_id.as_str(), item2_id.as_str(), result_id.as_str()),
            ),
            ToolCommand::BreakItem { item_id } => Ok(self.world.break_item(item_id.as_str())),
            ToolCommand::AddItemToContainer { container_id, item_id } => Ok(
                self.world.add_item_to_container(container_id.as_str(), item_id.as_str()),
            ),
            ToolCommand::RemoveItemFromContainer { container_id, item_id } => Ok(
                self.world.remove_item_from_container(container_id.as_str(), item_id.as_str()),
            ),
            ToolCommand::StartCombat { enemy_ids, listed } => {
                match self.world.start_combat_refusal(enemy_ids, *listed) {
                    Some(e) => Err(e),
                    None => self.world.start_combat_with_rolls(enemy_ids, rolls),
                }
            },
            ToolCommand::AttackActor { attacker_id, target_id, weapon_id } => {
                let weapon = match weapon_id {
                    Some(w) => Some(w.as_str()),
                    None => None,
                };
                self.world.attack_actor(attacker_id.as_str(), target_id.as_str(), weapon)
            },
            ToolCommand::Defend { actor_id } => self.world.defend(actor_id.as_str()),
            ToolCommand::Flee { actor_id } => self.world.flee_with_roll(actor_id.as_str(), rolls[0]),
            ToolCommand::UseItemInCombat { user_id, item_id } => self.world.use_item_in_combat(
                user_id.as_str(),
                item_id.as_str(),
            ),
            ToolCommand::EndTurn { actor_id } => self.world.end_turn(actor_id.as_str()),
            ToolCommand::InspectObject { object_id } => self.world.inspect_object(
                object_id.as_str(),
            ),
        }
    }

    /// Whether `after` and `r` are what applying `cmd` to `before` may come to.
    /// A step into the unexplored changes nothing and asks for a location.
    /// Every other command leads to the outcome that `run` gives for some
    /// raw random numbers, as many as the command consumes.
    pub open spec fn applied(
        before: Agent,
        cmd: ToolCommandView,
        r: Result<Applied, ToolError>,
        after: Agent,
    ) -> bool {
        &&& after.debug_log == before.debug_log
        &&& after.overall_timeout_seconds == before.overall_timeout_seconds
        &&& match r {
            Ok(Applied::NeedsLocation { direction, request }) => {
                &&& needs_location(before.world@, cmd)
                &&& after.world@ == before.world@
                &&& after.turn_narrative == before.turn_narrative
                &&& cmd == (ToolCommandView::MoveTo { direction: direction@ })
                &&& request.system_prompt@ == GENERATOR_ROLE@
                &&& request.prompt@ == generation_prompt(
                    before.world@.location(before.world@.current_pos)->0,
                    before.world@.current_pos,
                    direction@,
                    as_pos(step(before.world@.current_pos, direction@)),
                )
            },
            Ok(Applied::Done(ack)) => {
                &&& !needs_location(before.world@, cmd)
                &&& exists|rolls: Seq<u32>|
                    rolls.len() == rolls_needed(cmd) && #[trigger] after.reached(
                        Ok(ack),
                        run(before.world@, opt_text(before.turn_narrative), cmd, rolls, None),
                    )
            },
            Err(e) => {
                &&& !needs_location(before.world@, cmd)
                &&& exists|rolls: Seq<u32>|
                    rolls.len() == rolls_needed(cmd) && #[trigger] after.reached(
                        Err(e),
                        run(before.world@, opt_text(before.turn_narrative), cmd, rolls, None),
                    )
            },
        }
    }

    /// Applies a command, drawing the random numbers it consumes.
    pub fn apply(&mut self, command: &ToolCommand) -> (r: Result<Applied, ToolError>)
        ensures
            Agent::applied(*old(self), command@, r, *final(self)),
    {
        let mut count: usize = 0;
        match command {
            ToolCommand::MoveTo { direction } => {
                match self.world.plan_move(direction.as_str()) {
                    Ok(MovePlan::Explore { target, request }) => {
                        return Ok(Applied::NeedsLocation { direction: direction.clone(), request });
                    },
                    Ok(MovePlan::Travel { target }) => {},
                    Err(_) => {},
                }
            },
            ToolCommand::StartCombat { enemy_ids, listed } => {
                match self.world.start_combat_refusal(enemy_ids, *listed) {
                    Some(e) => {
                        let ghost rolls = Seq::new((enemy_ids.len() + 1) as nat, |i: int| 0u32);
                        proof {
                            assert(views(enemy_ids@).len() == enemy_ids.len());
                            assert(self.reached(
                                Err(e),
                                run(
                                    self.world@,
                                    opt_text(self.turn_narrative),
                                    command@,
                                    rolls,
                                    None,
                                ),
                            ));
                        }
                        return Err(e);
                    },
                    None => {
                        count = enemy_ids.len() + 1;
                        proof {
                            assert(views(enemy_ids@).len() == enemy_ids.len());
                        }
                    },
                }
            },
            ToolCommand::Flee { actor_id } => {
                count = 1;
            },
            _ => {},
        }
        let rolls = draw_rolls(count);
        let r = self.apply_with_rolls(command, &rolls);
        match r {
            Ok(ack) => {
                proof {
                    assert(self.reached(
                        Ok(ack),
                        run(
                            old(self).world@,
                            opt_text(old(self).turn_narrative),
                            command@,
                            rolls@,
                            None,
                        ),
                    ));
                }
                proof {
                    lemma_applied_done(*old(self), command@, ack, *self, rolls@);
                }
                Ok(Applied::Done(ack))
            },
            Err(e) => {
                proof {
                    assert(self.reached(
                        Err(e),
                        run(
                            old(self).world@,
                            opt_text(old(self).turn_narrative),
                            command@,
                            rolls@,
                            None,
                        ),
                    ));
                    assert(Agent::applied(*old(self), command@, Err(e), *self));
                }
                Err(e)
            },
        }
    }

    /// Whether `after` and `r` are what executing the operation `name` with the
    /// payload `args` on `before` may come to: a payload that does not decode
    /// fails and changes nothing; one that decodes is applied.
    pub open spec fn executed(
        before: Agent,
        name: Seq<char>,
        args: JsonValue,
        r: Result<Applied, ToolError>,
        after: Agent,
    ) -> bool {
        match decode(name, args) {
            Err(e) => r matches Err(x) && x@ == e && after == before,
            Ok(cmd) => Agent::applied(before, cmd, r, after),
        }
    }

    /// Decodes an operation and its payload and applies the command.
    pub fn execute_parsed(&mut self, name: &str, args: &JsonValue) -> (r: Result<
        Applied,
        ToolError,
    >)
        ensures
            Agent::executed(*old(self), name@, *args, r, *final(self)),
    {
        match decode_tool(name, args) {
            Err(e) => Err(e),
            Ok(command) => self.apply(&command),
        }
    }

    /// Whether `after` and `r` are what executing `call` on `before` may come
    /// to. The name is looked at first: for a name that the dispatcher does
    /// not know the call fails as unknown, naming it, whatever the payload. A
    /// payload that is no document fails as malformed. Both leave the agent
    /// as it was. Any other call is decoded and applied.
    pub open spec fn called(
        before: Agent,
        call: ToolCall,
        r: Result<Applied, ToolError>,
        after: Agent,
    ) -> bool {
        if !known_operation(call.function.name@) {
            &&& r matches Err(e) && e@ == ToolErrorView::UnknownOperation(call.function.name@)
            &&& after == before
        } else {
            match json_document(call.function.arguments@) {
                None => r matches Err(ToolError::MalformedArguments(_)) && after == before,
                Some(args) => Agent::executed(before, call.function.name@, args, r, after),
            }
        }
    }

    /// The agent with another log.
    pub open spec fn with_log(self, log: Vec<String>) -> Agent {
        Agent { debug_log: log, ..self }
    }

    /// What the log says when a call is executed: its name and its payload.
    pub open spec fn executing_note(call: ToolCall) -> Seq<char> {
        "Executing tool: "@ + call.function.name@ + " with args: "@ + call.function.arguments@
    }

    /// What the log says when a location is asked for.
    pub open spec fn generating_note(world: WorldView, direction: Seq<char>) -> Seq<char> {
        "Generating new location at "@ + shown_pos(target_of(world.current_pos, direction))
            + " heading "@ + direction
    }

    /// What the log says of a call: that it is executed, and, where it is a
    /// step into the unexplored, that a location is asked for.
    pub open spec fn call_notes(world: WorldView, call: ToolCall, r: Result<Applied, ToolError>) -> Seq<
        Seq<char>,
    > {
        match r {
            Ok(Applied::NeedsLocation { direction, request }) => seq![
                Agent::executing_note(call),
                Agent::generating_note(world, direction@),
            ],
            _ => seq![Agent::executing_note(call)],
        }
    }

    /// Whether `after` and `r` are what executing `call` on `before` may come
    /// to, the log included: the log gets the notes of the call, and all
    /// else is as `called` says.
    pub open spec fn called_and_noted(
        before: Agent,
        call: ToolCall,
        r: Result<Applied, ToolError>,
        after: Agent,
    ) -> bool {
        &&& Agent::called(before.with_log(after.debug_log), call, r, after)
        &&& views(after.debug_log@) == logged_all(
            views(before.debug_log@),
            AGENT_TAG@,
            Agent::call_notes(before.world@, call, r),
        )
    }

    /// Executes one call of the generation service and answers it: the
    /// answer carries the identifier of the call and the acknowledgment. What
    /// the call does is what `dispatch` does.
    pub fn execute_tool_call(&mut self, tool_call: &ToolCall) -> (r: Result<
        CallOutcome,
        ToolError,
    >)
        ensures
            Agent::called_and_noted(*old(self), *tool_call, applied_of(r), *final(self)),
            r matches Ok(CallOutcome::Answered(answer)) ==> answer.tool_call_id@
                == tool_call.id@,
    {
        match self.dispatch(tool_call) {
            Ok(Applied::Done(ack)) => Ok(
                CallOutcome::Answered(
                    ToolResult { tool_call_id: tool_call.id.clone(), content: ack },
                ),
            ),
            Ok(Applied::NeedsLocation { direction, request }) => Ok(
                CallOutcome::NeedsLocation { direction, request },
            ),
            Err(e) => Err(e),
        }
    }

    /// Looks up the name of a call, reads its payload as a document, decodes
    /// and applies it.
    fn carry_out(&mut self, tool_call: &ToolCall) -> (r: Result<Applied, ToolError>)
        ensures
            Agent::called(*old(self), *tool_call, r, *final(self)),
            final(self).debug_log == old(self).debug_log,
    {
        let name = tool_call.function.name.as_str();
        if !is_known_operation(name) {
            return Err(ToolError::UnknownOperation(owned(name)));
        }
        match parse_json_or_explain(tool_call.function.arguments.as_str()) {
            Err(message) => Err(ToolError::MalformedArguments(message)),
            Ok(args) => self.execute_parsed(name, &args),
        }
    }

    /// Carries out one call of the generation service and notes it in the
    /// log: the name is looked up, the payload read as a document, decoded
    /// and applied.
    pub fn dispatch(&mut self, tool_call: &ToolCall) -> (r: Result<Applied, ToolError>)
        ensures
            Agent::called_and_noted(*old(self), *tool_call, r, *final(self)),
    {
        let ghost log0 = views(self.debug_log@);
        let mut first = join3("Executing tool: ", tool_call.function.name.as_str(), " with args: ");
        first.append(tool_call.function.arguments.as_str());
        self.log(first.as_str());
        let ghost mid = *self;
        let r = self.carry_out(tool_call);
        proof {
            lemma_logged_more(log0, AGENT_TAG@, Seq::empty(), first@);
            assert(Seq::<Seq<char>>::empty().push(first@) =~= seq![first@]);
            assert(mid == old(self).with_log(mid.debug_log));
        }
        match &r {
            Ok(Applied::NeedsLocation { direction, .. }) => {
                let place = write_pos(target_from(self.world.current_pos, direction.as_str()));
                let mut second = join3("Generating new location at ", place.as_str(), " heading ");
                second.append(direction.as_str());
                self.log(second.as_str());
                proof {
                    lemma_logged_more(log0, AGENT_TAG@, seq![first@], second@);
                    assert(seq![first@].push(second@) =~= seq![first@, second@]);
                }
            },
            _ => {},
        }
        r
    }

    /// What the log says of the completion of a step into the unexplored:
    /// the location that was made, or why none was and that the fallback
    /// stands in.
    pub open spec fn move_notes(
        world: WorldView,
        direction: Seq<char>,
        answer: Result<Seq<char>, Seq<char>>,
    ) -> Seq<Seq<char>> {
        let place = shown_pos(target_of(world.current_pos, direction));
        match generated_from(answer) {
            Some(loc) => seq!["Created location at "@ + place + ": "@ + loc.name],
            None => seq![
                "Failed to generate location: "@ + generation_fault(answer)->0,
                "Used fallback location at "@ + place,
            ],
        }
    }

    /// Completes a step into the unexplored with what the generation service
    /// answered, or with what is told of its failure. A location that cannot
    /// be read out of the answer counts as a failure too, and the fallback
    /// location is placed. The log says which it was.
    pub fn complete_move(&mut self, direction: &str, answer: Result<&str, &str>) -> (r: Result<
        String,
        ToolError,
    >)
        ensures
            final(self).reached(
                r,
                run(
                    old(self).world@,
                    opt_text(old(self).turn_narrative),
                    ToolCommandView::MoveTo { direction: direction@ },
                    Seq::empty(),
                    generated_from(answer_view(answer)),
                ),
            ),
            views(final(self).debug_log@) == logged_all(
                views(old(self).debug_log@),
                AGENT_TAG@,
                Agent::move_notes(old(self).world@, direction@, answer_view(answer)),
            ),
            final(self).overall_timeout_seconds == old(self).overall_timeout_seconds,
    {
        let ghost log0 = views(self.debug_log@);
        let place = write_pos(target_from(self.world.current_pos, direction));
        let generated = match read_generated(answer) {
            Ok(loc) => {
                let mut note = join3("Created location at ", place.as_str(), ": ");
                note.append(loc.name.as_str());
                self.log(note.as_str());
                proof {
                    lemma_logged_more(log0, AGENT_TAG@, Seq::empty(), note@);
                    assert(Seq::<Seq<char>>::empty().push(note@) =~= seq![note@]);
                }
                Some(loc)
            },
            Err(why) => {
                let failed = join2("Failed to generate location: ", why.as_str());
                self.log(failed.as_str());
                let used = join2("Used fallback location at ", place.as_str());
                self.log(used.as_str());
                proof {
                    lemma_logged_more(log0, AGENT_TAG@, Seq::empty(), failed@);
                    lemma_logged_more(log0, AGENT_TAG@, Seq::empty().push(failed@), used@);
                    assert(Seq::<Seq<char>>::empty().push(failed@).push(used@) =~= seq![
                        failed@,
                        used@,
                    ]);
                }
                None
            },
        };
        self.world.move_to(direction, generated)
    }
}

proof fn lemma_applied_done(
    before: Agent,
    cmd: ToolCommandView,
    ack: String,
    after: Agent,
    rolls: Seq<u32>,
)
    requires
        after.debug_log == before.debug_log,
        after.overall_timeout_seconds == before.overall_timeout_seconds,
        !needs_location(before.world@, cmd),
        rolls.len() == rolls_needed(cmd),
        after.reached(Ok(ack), run(before.world@, opt_text(before.turn_narrative), cmd, rolls, None)),
    ensures
        Agent::applied(before, cmd, Ok(Applied::Done(ack)), after),
{
    let r: Result<Applied, ToolError> = Ok(Applied::Done(ack));
    assert(r is Ok);
    assert(r->Ok_0 is Done);
    assert(r->Ok_0->Done_0 == ack);
    assert(exists|rolls: Seq<u32>|
        rolls.len() == rolls_needed(cmd) && #[trigger] after.reached(
            Ok(ack),
            run(before.world@, opt_text(before.turn_narrative), cmd, rolls, None),
        ));
    assert(Agent::applied(before, cmd, r, after));
}

/// An answer of the generation service, or what is told of its failure, as
/// texts.
pub open spec fn answer_view(answer: Result<&str, &str>) -> Result<Seq<char>, Seq<char>> {
    match answer {
        Ok(content) => Ok(content@),
        Err(why) => Err(why@),
    }
}

/// The location that an answer of the generation service yields: none where
/// the service failed or the answer cannot be read as a location.
pub open spec fn generated_from(answer: Result<Seq<char>, Seq<char>>) -> Option<LocationView> {
    match answer {
        Ok(content) => match crate::llm::answer_document(content) {
            Ok(v) => crate::llm::location_of(v),
            Err(_) => None,
        },
        Err(_) => None,
    }
}

/// Why an answer of the generation service yields no location, where it
/// yields none: what was told of the failure of the service, or why the
/// answer cannot be read.
pub open spec fn generation_fault(answer: Result<Seq<char>, Seq<char>>) -> Option<Seq<char>> {
    match answer {
        Ok(content) => match crate::llm::location_fault(content) {
            Some(kind) => Some(crate::llm::location_fault_text(kind, content)),
            None => None,
        },
        Err(why) => Some(why),
    }
}

/// Reads the location out of an answer of the generation service, or tells
/// why there is none.
pub fn read_generated(answer: Result<&str, &str>) -> (r: Result<Location, String>)
    ensures
        match r {
            Ok(loc) => generated_from(answer_view(answer)) == Some(loc@) && generation_fault(
                answer_view(answer),
            ) is None,
            Err(why) => generated_from(answer_view(answer)) is None && generation_fault(
                answer_view(answer),
            ) == Some(why@),
        },
{
    match answer {
        Ok(content) => match crate::llm::parse_location(content) {
            Ok(loc) => Ok(loc),
            Err(e) => Err(e.to_string()),
        },
        Err(why) => Err(owned(why)),
    }
}

/// The answer to a call: its identifier, and the acknowledgment or the text
/// of the failure.
pub fn tool_result(tool_call: &ToolCall, outcome: &Result<String, ToolError>) -> (r: ToolResult)
    ensures
        r.tool_call_id@ == tool_call.id@,
        r.content@ == (match *outcome {
            Ok(ack) => ack@,
            Err(e) => crate::tools::error_text(e@),
        }),
{
    ToolResult {
        tool_call_id: tool_call.id.clone(),
        content: match outcome {
            Ok(ack) => ack.clone(),
            Err(e) => e.to_string(),
        },
    }
}

} // verus!
