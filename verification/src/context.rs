//! The context snapshot: what the generation service is told about the world
//! before it is asked what happens next.

use crate::model::{Combatant, CombatantView, StatusEffect, StatusType, WorldState, WorldView};
use crate::text::{debug_quoted, decimal, decimal_string, join2, join3, owned, quoted, views};
use crate::travel::{as_pos, in_range, step, step_from};
use vstd::prelude::*;

verus! {

/// What opens every snapshot.
pub const CONTEXT_HEAD: &'static str = "You are Dungeon Master for a text adventure game.\n Current Location: ";

/// What closes the combat part of a snapshot.
pub const COMBAT_TAIL: &'static str =
    "\n\n Combat Actions: start_combat, attack_actor, defend, flee, use_item_in_combat, end_turn";

/// What closes every snapshot: the rules of the conversation.
pub const CONTEXT_RULES: &'static str =
    "\n\n RULES:\n 1. You can call MULTIPLE tools in ONE response.\n 2. When calling tools: The narrative you generate should describe what happens AFTER tools execute.\n 3. For movement: Use move_to(direction). New tiles are auto-generated if needed.\n 4. For describing location: Use update_location_description(text) to permanently change location's description.\n 5. For responding to player: Use generate_turn_narrative(text) if you want full control, or let the system generate narrative after your tools execute.\n 6. If you call tools WITHOUT using generate_turn_narrative or adding narrative content, the system will ask you to describe what happened with the updated world state.\n 7. End your response with 3-5 suggested actions (in the LLM content, not as a tool).\n 8. NEVER generate JSON text - use tool calls instead.\n\n Available tools: move_to, update_location_description, generate_turn_narrative, create_item, add_item_to_inventory, remove_item_from_inventory, add_item_to_location, remove_item_from_location, use_item, equip_item, unequip_item, combine_items, break_item, add_item_to_container, remove_item_to_container, start_combat, attack_actor, defend, flee, use_item_in_combat, end_turn";

/// A list of texts as it is shown: in brackets, every text in its debug
/// form, commas between them.
pub open spec fn quoted_list(list: Seq<Seq<char>>) -> Seq<char> {
    "["@ + quoted_items(list) + "]"@
}

/// The texts of a list in their debug form, commas between them.
pub open spec fn quoted_items(list: Seq<Seq<char>>) -> Seq<char>
    decreases list.len(),
{
    if list.len() == 0 {
        Seq::empty()
    } else if list.len() == 1 {
        debug_quoted(list[0])
    } else {
        quoted_items(list.drop_last()) + ", "@ + debug_quoted(list.last())
    }
}

/// An optional text as it is shown.
pub open spec fn shown_option(o: Option<Seq<char>>) -> Seq<char> {
    match o {
        Some(id) => "Some("@ + debug_quoted(id) + ")"@,
        None => "None"@,
    }
}

/// The name of a status type.
pub open spec fn status_name(t: StatusType) -> Seq<char> {
    match t {
        StatusType::Poison => "Poison"@,
        StatusType::Stunned => "Stunned"@,
        StatusType::Burning => "Burning"@,
        StatusType::Frozen => "Frozen"@,
        StatusType::Bleeding => "Bleeding"@,
    }
}

/// An effect as it is shown: its name and the rounds it has left.
pub open spec fn shown_effect(e: StatusEffect) -> Seq<char> {
    status_name(e.effect_type) + "("@ + decimal(e.duration as int) + "t)"@
}

/// The effects of a list as they are shown, commas between them.
pub open spec fn shown_effects(effects: Seq<StatusEffect>) -> Seq<char>
    decreases effects.len(),
{
    if effects.len() == 0 {
        Seq::empty()
    } else if effects.len() == 1 {
        shown_effect(effects[0])
    } else {
        shown_effects(effects.drop_last()) + ", "@ + shown_effect(effects.last())
    }
}

/// One line of the combat summary.
pub open spec fn combatant_line(c: CombatantView) -> Seq<char> {
    "- "@ + c.id + (if c.is_player {
        " (PLAYER): HP "@
    } else {
        " (ENEMY): HP "@
    }) + decimal(c.hp as int) + "/"@ + decimal(c.max_hp as int) + " | Weapon: "@ + shown_option(
        c.weapon_id,
    ) + " | Armor: "@ + shown_option(c.armor_id) + " | Temp Def: "@ + decimal(
        c.temp_defense as int,
    ) + " | Status: "@ + shown_effects(c.status_effects)
}

/// The lines of the combat summary, one combatant to a line.
pub open spec fn combatant_lines(cs: Seq<CombatantView>) -> Seq<char>
    decreases cs.len(),
{
    if cs.len() == 0 {
        Seq::empty()
    } else if cs.len() == 1 {
        combatant_line(cs[0])
    } else {
        combatant_lines(cs.drop_last()) + "\n"@ + combatant_line(cs.last())
    }
}

impl WorldView {
    /// The names of the registered items among `ids`, in the order of `ids`.
    pub open spec fn item_names(self, ids: Seq<Seq<char>>) -> Seq<Seq<char>>
        decreases ids.len(),
    {
        if ids.len() == 0 {
            Seq::empty()
        } else {
            let before = self.item_names(ids.drop_last());
            match self.item(ids.last()) {
                Some(item) => before.push(item.name),
                None => before,
            }
        }
    }

    /// The names of the known actors among `ids`, in the order of `ids`.
    pub open spec fn actor_names(self, ids: Seq<Seq<char>>) -> Seq<Seq<char>>
        decreases ids.len(),
    {
        if ids.len() == 0 {
            Seq::empty()
        } else {
            let before = self.actor_names(ids.drop_last());
            match self.actor(ids.last()) {
                Some(actor) => before.push(actor.name),
                None => before,
            }
        }
    }

    /// What is known of the neighbour in direction `d`: its name, or that it
    /// is unexplored.
    pub open spec fn neighbour(self, d: Seq<char>) -> Seq<char> {
        if in_range(step(self.current_pos, d)) {
            match self.location(as_pos(step(self.current_pos, d))) {
                Some(loc) => loc.name,
                None => "unexplored"@,
            }
        } else {
            "unexplored"@
        }
    }

    /// What is known of the four neighbours.
    pub open spec fn adjacent_info(self) -> Seq<char> {
        "north: "@ + self.neighbour("north"@) + ", south: "@ + self.neighbour("south"@)
            + ", east: "@ + self.neighbour("east"@) + ", west: "@ + self.neighbour("west"@)
    }

    /// Whose turn it is, or `none`.
    pub open spec fn turn_holder(self) -> Seq<char> {
        if self.combat.current_turn_index < self.combat.combatants.len() {
            self.combat.combatants[self.combat.current_turn_index as int].id
        } else {
            "none"@
        }
    }

    /// The combat part of the snapshot: empty while there is no combat.
    pub open spec fn combat_context(self) -> Seq<char> {
        if self.combat.active {
            "\n\n COMBAT ACTIVE - Round "@ + decimal(self.combat.round_number as int) + " - Turn: "@
                + self.turn_holder() + "\n Combatants:\n "@ + combatant_lines(
                self.combat.combatants,
            ) + COMBAT_TAIL@
        } else {
            Seq::empty()
        }
    }

    /// The part of the snapshot that tells where the player is: the current
    /// location, or a stand-in where the player stands nowhere.
    pub open spec fn place_context(self) -> Seq<char> {
        let at = " at ("@ + decimal(self.current_pos.0 as int) + ", "@ + decimal(
            self.current_pos.1 as int,
        ) + ")\n Description: "@;
        match self.location(self.current_pos) {
            Some(loc) => loc.name + at + loc.description + "\n Items here: "@ + quoted_list(
                self.item_names(loc.items),
            ) + "\n Actors here: "@ + quoted_list(self.actor_names(loc.actors)),
            None => "Unknown"@ + at + "You are nowhere."@ + "\n Items here: []\n Actors here: []"@,
        }
    }

    /// The snapshot: the place, what the player carries and owns, the
    /// neighbours, the combat if there is one, and the rules.
    pub open spec fn system_context(self) -> Seq<char> {
        CONTEXT_HEAD@ + self.place_context() + "\n Player Inventory: "@ + quoted_list(
            self.item_names(self.player.inventory),
        ) + "\n Player Money: "@ + decimal(self.player.money as int) + "\n\n Adjacent Areas: "@
            + self.adjacent_info() + self.combat_context() + CONTEXT_RULES@
    }
}

/// Writes a list of texts as it is shown.
pub fn write_quoted_list(list: &Vec<String>) -> (r: String)
    ensures
        r@ == quoted_list(views(list@)),
{
    let mut out = String::new();
    let mut i: usize = 0;
    proof {
        assert(views(list@).take(0) =~= Seq::<Seq<char>>::empty());
    }
    while i < list.len()
        invariant
            i <= list.len(),
            out@ == quoted_items(views(list@).take(i as int)),
        decreases list.len() - i,
    {
        proof {
            let all = views(list@);
            assert(all.take(i + 1).drop_last() =~= all.take(i as int));
            assert(all.take(i + 1).last() == list@[i as int]@);
            if i == 0 {
                assert(all.take(1)[0] == list@[0]@);
            }
        }
        let ghost before = out@;
        let shown = quoted(list[i].as_str());
        if i > 0 {
            out.append(", ");
        }
        out.append(shown.as_str());
        proof {
            if i == 0 {
                assert(before =~= Seq::<char>::empty());
                assert(out@ =~= shown@);
            }
        }
        i += 1;
    }
    proof {
        assert(views(list@).take(i as int) =~= views(list@));
    }
    let mut r = owned("[");
    r.append(out.as_str());
    r.append("]");
    r
}

/// Writes an optional text as it is shown.
pub fn write_option(o: &Option<String>) -> (r: String)
    ensures
        r@ == shown_option(crate::model::opt_view(*o)),
{
    match o {
        Some(id) => {
            let shown = quoted(id.as_str());
            join3("Some(", shown.as_str(), ")")
        },
        None => owned("None"),
    }
}

/// The name of a status type.
pub fn status_label(t: StatusType) -> (r: &'static str)
    ensures
        r@ == status_name(t),
{
    match t {
        StatusType::Poison => "Poison",
        StatusType::Stunned => "Stunned",
        StatusType::Burning => "Burning",
        StatusType::Frozen => "Frozen",
        StatusType::Bleeding => "Bleeding",
    }
}

/// Writes the effects of a list as they are shown.
pub fn write_effects(effects: &Vec<StatusEffect>) -> (r: String)
    ensures
        r@ == shown_effects(effects@),
{
    let mut out = String::new();
    let mut i: usize = 0;
    proof {
        assert(effects@.take(0) =~= Seq::<StatusEffect>::empty());
    }
    while i < effects.len()
        invariant
            i <= effects.len(),
            out@ == shown_effects(effects@.take(i as int)),
        decreases effects.len() - i,
    {
        proof {
            assert(effects@.take(i + 1).drop_last() =~= effects@.take(i as int));
            assert(effects@.take(i + 1).last() == effects@[i as int]);
            if i == 0 {
                assert(effects@.take(1)[0] == effects@[0]);
            }
        }
        let ghost before = out@;
        let e = effects[i];
        let rounds = decimal_string(e.duration as i128);
        if i > 0 {
            out.append(", ");
        }
        let ghost mid = out@;
        out.append(status_label(e.effect_type));
        out.append("(");
        out.append(rounds.as_str());
        out.append("t)");
        proof {
            assert(out@ =~= mid + shown_effect(e));
            if i == 0 {
                assert(before =~= Seq::<char>::empty());
                assert(out@ =~= shown_effect(e));
            }
        }
        i += 1;
    }
    proof {
        assert(effects@.take(i as int) =~= effects@);
    }
    out
}

/// Writes one line of the combat summary.
pub fn write_combatant(c: &Combatant) -> (r: String)
    ensures
        r@ == combatant_line(c@),
{
    let hp = decimal_string(c.hp as i128);
    let max_hp = decimal_string(c.max_hp as i128);
    let weapon = write_option(&c.weapon_id);
    let armor = write_option(&c.armor_id);
    let temp = decimal_string(c.temp_defense as i128);
    let status = write_effects(&c.status_effects);
    let mut out = join2("- ", c.id.as_str());
    if c.is_player {
        out.append(" (PLAYER): HP ");
    } else {
        out.append(" (ENEMY): HP ");
    }
    out.append(hp.as_str());
    out.append("/");
    out.append(max_hp.as_str());
    out.append(" | Weapon: ");
    out.append(weapon.as_str());
    out.append(" | Armor: ");
    out.append(armor.as_str());
    out.append(" | Temp Def: ");
    out.append(temp.as_str());
    out.append(" | Status: ");
    out.append(status.as_str());
    out
}

/// Writes the lines of the combat summary.
pub fn write_combatants(cs: &Vec<Combatant>) -> (r: String)
    ensures
        r@ == combatant_lines(views(cs@)),
{
    let mut out = String::new();
    let mut i: usize = 0;
    proof {
        assert(views(cs@).take(0) =~= Seq::<CombatantView>::empty());
    }
    while i < cs.len()
        invariant
            i <= cs.len(),
            out@ == combatant_lines(views(cs@).take(i as int)),
        decreases cs.len() - i,
    {
        proof {
            let all = views(cs@);
            assert(all.take(i + 1).drop_last() =~= all.take(i as int));
            assert(all.take(i + 1).last() == cs@[i as int]@);
            if i == 0 {
                assert(all.take(1)[0] == cs@[0]@);
            }
        }
        let ghost before = out@;
        let line = write_combatant(&cs[i]);
        if i > 0 {
            out.append("\n");
        }
        out.append(line.as_str());
        proof {
            if i == 0 {
                assert(before =~= Seq::<char>::empty());
                assert(out@ =~= line@);
            }
        }
        i += 1;
    }
    proof {
        assert(views(cs@).take(i as int) =~= views(cs@));
    }
    out
}

impl WorldState {
    /// The names of the registered items among `ids`.
    pub fn item_names(&self, ids: &Vec<String>) -> (r: Vec<String>)
        ensures
            views(r@) == self@.item_names(views(ids@)),
    {
        let mut out: Vec<String> = Vec::new();
        let mut i: usize = 0;
        proof {
            assert(views(ids@).take(0) =~= Seq::<Seq<char>>::empty());
            assert(views(out@) =~= Seq::<Seq<char>>::empty());
        }
        while i < ids.len()
            invariant
                i <= ids.len(),
                views(out@) == self@.item_names(views(ids@).take(i as int)),
            decreases ids.len() - i,
        {
            proof {
                let all = views(ids@);
                assert(all.take(i + 1).drop_last() =~= all.take(i as int));
                assert(all.take(i + 1).last() == ids@[i as int]@);
            }
            let ghost before = views(out@);
            if let Some(k) = self.find_item(ids[i].as_str()) {
                out.push(self.items[k].name.clone());
                proof {
                    assert(views(out@) =~= before.push(self@.items[k as int].name));
                }
            }
            i += 1;
        }
        proof {
            assert(views(ids@).take(i as int) =~= views(ids@));
        }
        out
    }

    /// The names of the known actors among `ids`.
    pub fn actor_names(&self, ids: &Vec<String>) -> (r: Vec<String>)
        ensures
            views(r@) == self@.actor_names(views(ids@)),
    {
        let mut out: Vec<String> = Vec::new();
        let mut i: usize = 0;
        proof {
            assert(views(ids@).take(0) =~= Seq::<Seq<char>>::empty());
            assert(views(out@) =~= Seq::<Seq<char>>::empty());
        }
        while i < ids.len()
            invariant
                i <= ids.len(),
                views(out@) == self@.actor_names(views(ids@).take(i as int)),
            decreases ids.len() - i,
        {
            proof {
                let all = views(ids@);
                assert(all.take(i + 1).drop_last() =~= all.take(i as int));
                assert(all.take(i + 1).last() == ids@[i as int]@);
            }
            let ghost before = views(out@);
            if let Some(k) = self.find_actor(ids[i].as_str()) {
                out.push(self.actors[k].name.clone());
                proof {
                    assert(views(out@) =~= before.push(self@.actors[k as int].name));
                }
            }
            i += 1;
        }
        proof {
            assert(views(ids@).take(i as int) =~= views(ids@));
        }
        out
    }

    /// What is known of the neighbour in direction `direction`.
    pub fn neighbour(&self, direction: &str) -> (r: String)
        requires
            crate::travel::is_direction(direction@),
        ensures
            r@ == self@.neighbour(direction@),
    {
        match step_from(self.current_pos, direction) {
            Ok(target) => match self.find_location(target) {
                Some(i) => self.locations[i].location.name.clone(),
                None => owned("unexplored"),
            },
            Err(_) => owned("unexplored"),
        }
    }

    /// What is known of the four neighbours.
    pub fn get_adjacent_info(&self) -> (r: String)
        ensures
            r@ == self@.adjacent_info(),
    {
        let north = self.neighbour("north");
        let south = self.neighbour("south");
        let east = self.neighbour("east");
        let west = self.neighbour("west");
        let mut out = join3("north: ", north.as_str(), ", south: ");
        out.append(south.as_str());
        out.append(", east: ");
        out.append(east.as_str());
        out.append(", west: ");
        out.append(west.as_str());
        out
    }

    /// The combat part of the snapshot.
    pub fn combat_context(&self) -> (r: String)
        ensures
            r@ == self@.combat_context(),
    {
        if !self.combat.active {
            return String::new();
        }
        let round = decimal_string(self.combat.round_number as i128);
        let lines = write_combatants(&self.combat.combatants);
        let mut out = join3("\n\n COMBAT ACTIVE - Round ", round.as_str(), " - Turn: ");
        if self.combat.current_turn_index < self.combat.combatants.len() {
            out.append(self.combat.combatants[self.combat.current_turn_index].id.as_str());
        } else {
            out.append("none");
        }
        out.append("\n Combatants:\n ");
        out.append(lines.as_str());
        out.append(COMBAT_TAIL);
        out
    }

    /// The snapshot of the world that opens a conversation.
    pub fn system_context(&self) -> (r: String)
        ensures
            r@ == self@.system_context(),
    {
        let x = decimal_string(self.current_pos.0 as i128);
        let y = decimal_string(self.current_pos.1 as i128);
        let mut out = owned(CONTEXT_HEAD);
        let ghost head = out@;
        let mut place = String::new();
        match self.find_location(self.current_pos) {
            Some(i) => {
                let loc = &self.locations[i].location;
                let items = write_quoted_list(&self.item_names(&loc.items));
                let actors = write_quoted_list(&self.actor_names(&loc.actors));
                place.append(loc.name.as_str());
                place.append(" at (");
                place.append(x.as_str());
                place.append(", ");
                place.append(y.as_str());
                place.append(")\n Description: ");
                place.append(loc.description.as_str());
                place.append("\n Items here: ");
                place.append(items.as_str());
                place.append("\n Actors here: ");
                place.append(actors.as_str());
            },
            None => {
                place.append("Unknown");
                place.append(" at (");
                place.append(x.as_str());
                place.append(", ");
                place.append(y.as_str());
                place.append(")\n Description: ");
                place.append("You are nowhere.");
                place.append("\n Items here: []\n Actors here: []");
            },
        }
        proof {
            assert(place@ =~= self@.place_context());
        }
        let carried = write_quoted_list(&self.item_names(&self.player.inventory));
        let money = decimal_string(self.player.money as i128);
        let around = self.get_adjacent_info();
        let combat = self.combat_context();
        out.append(place.as_str());
        out.append("\n Player Inventory: ");
        out.append(carried.as_str());
        out.append("\n Player Money: ");
        out.append(money.as_str());
        out.append("\n\n Adjacent Areas: ");
        out.append(around.as_str());
        out.append(combat.as_str());
        out.append(CONTEXT_RULES);
        out
    }
}

} // verus!
