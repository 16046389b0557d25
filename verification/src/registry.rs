//! The item operations of the dispatcher: what each does to the world, as a
//! function on the world's view, and the code that does it.
use crate::keyed::{lemma_position_at, lemma_position_none, position};
use crate::model::{
    Actor, ActorView, Item, ItemState, ItemStateView, ItemView, Location, LocationView, Place,
    PlaceView, Pos, WorldState, WorldView,
};
use crate::text::{contains_text, join2, join3, owned, remove_text, same_text, views, without};
use crate::tools::{Entity, EntityView, ToolError, ToolErrorView};
use vstd::prelude::*;

verus! {

/// The item list of every place with `id` taken out.
pub open spec fn places_without(places: Seq<PlaceView>, id: Seq<char>) -> Seq<PlaceView> {
    Seq::new(
        places.len(),
        |i: int|
            PlaceView {
                location: LocationView {
                    items: without(places[i].location.items, id),
                    ..places[i].location
                },
                ..places[i]
            },
    )
}

impl ItemView {
    /// The item after one use: a charge less where more than one is left,
    /// otherwise unchanged.
    pub open spec fn used(self) -> ItemView {
        match self.state {
            ItemStateView::Consumed { charges, max_charges } if charges > 1 => ItemView {
                state: ItemStateView::Consumed { charges: (charges - 1) as u32, max_charges },
                ..self
            },
            _ => self,
        }
    }

    /// Whether a use takes the item's last charge.
    pub open spec fn spent_by_use(self) -> bool {
        match self.state {
            ItemStateView::Consumed { charges, max_charges } => charges <= 1,
            _ => false,
        }
    }
}

impl WorldView {
    /// The world with `loc` at `pos`: in place of the location that is there,
    /// or listed last where there is none.
    pub open spec fn with_location(self, pos: Pos, loc: LocationView) -> WorldView {
        match position(self.locations, pos) {
            Some(i) => self.with_location_at(i, loc),
            None => WorldView {
                locations: self.locations.push(PlaceView { pos, location: loc }),
                ..self
            },
        }
    }

    /// The world with `item` registered: in place of the item with its
    /// identifier, or listed last where there is none.
    pub open spec fn with_item(self, item: ItemView) -> WorldView {
        match position(self.items, item.id) {
            Some(i) => self.with_item_at(i, item),
            None => WorldView { items: self.items.push(item), ..self },
        }
    }

    /// The world with `actor` known: in place of the actor with its
    /// identifier, or listed last where there is none.
    pub open spec fn with_actor(self, actor: ActorView) -> WorldView {
        match position(self.actors, actor.id) {
            Some(i) => WorldView { actors: self.actors.update(i, actor), ..self },
            None => WorldView { actors: self.actors.push(actor), ..self },
        }
    }

    /// The world with `item` registered after the items already there.
    pub open spec fn create_item(self, item: ItemView) -> WorldView {
        WorldView { items: self.items.push(item), ..self }
    }

    /// The world with `id` in the inventory: added at the end unless it is
    /// there already.
    pub open spec fn add_item_to_inventory(self, id: Seq<char>) -> WorldView {
        if self.player.inventory.contains(id) {
            self
        } else {
            self.with_inventory(self.player.inventory.push(id))
        }
    }

    /// The world with every occurrence of `id` taken out of the inventory.
    pub open spec fn remove_item_from_inventory(self, id: Seq<char>) -> WorldView {
        self.with_inventory(without(self.player.inventory, id))
    }

    /// The world with `id` among the items of the location at index `i`:
    /// added at the end unless it is there already.
    pub open spec fn add_item_to_location(self, i: int, id: Seq<char>) -> WorldView {
        let loc = self.locations[i].location;
        if loc.items.contains(id) {
            self
        } else {
            self.with_location_at(i, LocationView { items: loc.items.push(id), ..loc })
        }
    }

    /// The world with every occurrence of `id` taken out of the items of the
    /// location at index `i`.
    pub open spec fn remove_item_from_location(self, i: int, id: Seq<char>) -> WorldView {
        let loc = self.locations[i].location;
        self.with_location_at(i, LocationView { items: without(loc.items, id), ..loc })
    }

    /// The world after the player uses the item `id`. Only a registered,
    /// usable item reacts: with more than one charge it loses one; with its
    /// last charge it leaves the inventory and stays registered.
    pub open spec fn use_item(self, id: Seq<char>) -> WorldView {
        match position(self.items, id) {
            Some(i) if self.items[i].properties.usable => if self.items[i].spent_by_use() {
                self.remove_item_from_inventory(id)
            } else {
                self.with_item_at(i, self.items[i].used())
            },
            _ => self,
        }
    }

    /// The world after `id` is equipped: its state becomes `Equipped` where it
    /// is registered and declares an equip slot.
    pub open spec fn equip_item(self, id: Seq<char>) -> WorldView {
        match position(self.items, id) {
            Some(i) if self.items[i].properties.equip_slot is Some => self.with_item_at(
                i,
                ItemView { state: ItemStateView::Equipped, ..self.items[i] },
            ),
            _ => self,
        }
    }

    /// The world after `id` is unequipped: its state becomes `Normal` where it
    /// is registered and equipped.
    pub open spec fn unequip_item(self, id: Seq<char>) -> WorldView {
        match position(self.items, id) {
            Some(i) if self.items[i].state is Equipped => self.with_item_at(
                i,
                ItemView { state: ItemStateView::Normal, ..self.items[i] },
            ),
            _ => self,
        }
    }

    /// The world with `id` gone from the inventory and from every location.
    pub open spec fn scrub(self, id: Seq<char>) -> WorldView {
        WorldView {
            locations: places_without(self.locations, id),
            ..self.remove_item_from_inventory(id)
        }
    }

    /// The world after two items are combined: both leave the inventory and
    /// every location; the result joins the inventory where it is registered,
    /// and appears nowhere where it is not.
    pub open spec fn combine_items(self, a: Seq<char>, b: Seq<char>, result: Seq<char>) -> WorldView {
        let cleared = self.scrub(a).scrub(b);
        if position(self.items, result) is Some {
            cleared.with_inventory(cleared.player.inventory.push(result))
        } else {
            cleared
        }
    }

    /// The world after `id` is broken: gone from the inventory, from every
    /// location and from the registry.
    pub open spec fn break_item(self, id: Seq<char>) -> WorldView {
        let cleared = self.scrub(id);
        match position(self.items, id) {
            Some(i) => WorldView { items: self.items.remove(i), ..cleared },
            None => cleared,
        }
    }

    /// The world after `id` is put into `container`: added to its contents
    /// where the container is registered and open.
    pub open spec fn add_item_to_container(self, container: Seq<char>, id: Seq<char>) -> WorldView {
        match position(self.items, container) {
            Some(i) => match self.items[i].state {
                ItemStateView::Open { contents } => self.with_item_at(
                    i,
                    ItemView {
                        state: ItemStateView::Open { contents: contents.push(id) },
                        ..self.items[i]
                    },
                ),
                _ => self,
            },
            None => self,
        }
    }

    /// The world after `id` is taken out of `container`: gone from its
    /// contents where the container is registered and open.
    pub open spec fn remove_item_from_container(
        self,
        container: Seq<char>,
        id: Seq<char>,
    ) -> WorldView {
        match position(self.items, container) {
            Some(i) => match self.items[i].state {
                ItemStateView::Open { contents } => self.with_item_at(
                    i,
                    ItemView {
                        state: ItemStateView::Open { contents: without(contents, id) },
                        ..self.items[i]
                    },
                ),
                _ => self,
            },
            None => self,
        }
    }

    /// The world with the description of the location at index `i` replaced.
    pub open spec fn describe_location(self, i: int, text: Seq<char>) -> WorldView {
        self.with_location_at(i, LocationView { description: text, ..self.locations[i].location })
    }
}

impl WorldState {
    /// The index of the registered item `id`.
    pub fn find_item(&self, id: &str) -> (r: Option<usize>)
        ensures
            match r {
                Some(i) => position(self@.items, id@) == Some(i as int) && i < self.items.len(),
                None => position(self@.items, id@) is None,
            },
    {
        let mut i: usize = 0;
        while i < self.items.len()
            invariant
                i <= self.items.len(),
                forall|j: int| 0 <= j < i ==> (#[trigger] self@.items[j]).id != id@,
            decreases self.items.len() - i,
        {
            if same_text(self.items[i].id.as_str(), id) {
                proof {
                    lemma_position_at(self@.items, id@, i as int);
                }
                return Some(i);
            }
            i += 1;
        }
        proof {
            lemma_position_none(self@.items, id@);
        }
        None
    }

    /// The index of the location at `pos`.
    pub fn find_location(&self, pos: Pos) -> (r: Option<usize>)
        ensures
            match r {
                Some(i) => position(self@.locations, pos) == Some(i as int) && i
                    < self.locations.len(),
                None => position(self@.locations, pos) is None,
            },
    {
        let mut i: usize = 0;
        while i < self.locations.len()
            invariant
                i <= self.locations.len(),
                forall|j: int| 0 <= j < i ==> (#[trigger] self@.locations[j]).pos != pos,
            decreases self.locations.len() - i,
        {
            if self.locations[i].pos.0 == pos.0 && self.locations[i].pos.1 == pos.1 {
                proof {
                    lemma_position_at(self@.locations, pos, i as int);
                }
                return Some(i);
            }
            i += 1;
        }
        proof {
            lemma_position_none(self@.locations, pos);
        }
        None
    }

    /// The index of the actor `id`.
    pub fn find_actor(&self, id: &str) -> (r: Option<usize>)
        ensures
            match r {
                Some(i) => position(self@.actors, id@) == Some(i as int) && i < self.actors.len(),
                None => position(self@.actors, id@) is None,
            },
    {
        let mut i: usize = 0;
        while i < self.actors.len()
            invariant
                i <= self.actors.len(),
                forall|j: int| 0 <= j < i ==> (#[trigger] self@.actors[j]).id != id@,
            decreases self.actors.len() - i,
        {
            if same_text(self.actors[i].id.as_str(), id) {
                proof {
                    lemma_position_at(self@.actors, id@, i as int);
                }
                return Some(i);
            }
            i += 1;
        }
        proof {
            lemma_position_none(self@.actors, id@);
        }
        None
    }

    /// Registers a new item. Fails, and changes nothing, when an item with
    /// the same identifier is registered already.
    pub fn create_item(&mut self, item: Item) -> (r: Result<String, ToolError>)
        ensures
            match r {
                Ok(ack) => {
                    &&& position(old(self)@.items, item@.id) is None
                    &&& final(self)@ == old(self)@.create_item(item@)
                    &&& ack@ == "Created item: "@ + item@.id
                },
                Err(e) => {
                    &&& position(old(self)@.items, item@.id) is Some
                    &&& e@ == ToolErrorView::AlreadyExists(item@.id)
                    &&& final(self)@ == old(self)@
                },
            },
    {
        if self.find_item(item.id.as_str()).is_some() {
            return Err(ToolError::AlreadyExists(item.id));
        }
        let ack = join2("Created item: ", item.id.as_str());
        self.items.push(item);
        proof {
            assert(self@.items =~= old(self)@.items.push(item@));
        }
        Ok(ack)
    }

    /// Puts an item identifier into the player's inventory, once.
    pub fn add_item_to_inventory(&mut self, item_id: &str) -> (ack: String)
        ensures
            final(self)@ == old(self)@.add_item_to_inventory(item_id@),
            ack@ == "Added "@ + item_id@ + " to inventory"@,
    {
        if !contains_text(&self.player.inventory, item_id) {
            self.player.inventory.push(owned(item_id));
            proof {
                assert(self@.player.inventory =~= old(self)@.player.inventory.push(item_id@));
            }
        }
        join3("Added ", item_id, " to inventory")
    }

    /// Takes an item identifier out of the player's inventory.
    pub fn remove_item_from_inventory(&mut self, item_id: &str) -> (ack: String)
        ensures
            final(self)@ == old(self)@.remove_item_from_inventory(item_id@),
            ack@ == "Removed "@ + item_id@ + " from inventory"@,
    {
        remove_text(&mut self.player.inventory, item_id);
        join3("Removed ", item_id, " from inventory")
    }

    /// Puts an item identifier among the items of the current location, once.
    /// Fails when the player stands where no location is.
    pub fn add_item_to_location(&mut self, item_id: &str) -> (r: Result<String, ToolError>)
        ensures
            match r {
                Ok(ack) => {
                    &&& position(old(self)@.locations, old(self)@.current_pos) matches Some(i)
                    &&& final(self)@ == old(self)@.add_item_to_location(i, item_id@)
                    &&& ack@ == "Added "@ + item_id@ + " to current location"@
                },
                Err(e) => {
                    &&& position(old(self)@.locations, old(self)@.current_pos) is None
                    &&& e@ == ToolErrorView::EntityNotFound(EntityView::CurrentLocation)
                    &&& final(self)@ == old(self)@
                },
            },
    {
        match self.find_location(self.current_pos) {
            Some(i) => {
                if !contains_text(&self.locations[i].location.items, item_id) {
                    self.locations[i].location.items.push(owned(item_id));
                    proof {
                        let loc = old(self)@.locations[i as int].location;
                        assert(self@.locations[i as int].location.items =~= loc.items.push(
                            item_id@,
                        ));
                        assert(self@.locations =~= old(self)@.add_item_to_location(
                            i as int,
                            item_id@,
                        ).locations);
                    }
                }
                Ok(join3("Added ", item_id, " to current location"))
            },
            None => Err(ToolError::EntityNotFound(Entity::CurrentLocation)),
        }
    }

    /// Takes an item identifier out of the items of the current location.
    /// Fails when the player stands where no location is.
    pub fn remove_item_from_location(&mut self, item_id: &str) -> (r: Result<String, ToolError>)
        ensures
            match r {
                Ok(ack) => {
                    &&& position(old(self)@.locations, old(self)@.current_pos) matches Some(i)
                    &&& final(self)@ == old(self)@.remove_item_from_location(i, item_id@)
                    &&& ack@ == "Removed "@ + item_id@ + " from current location"@
                },
                Err(e) => {
                    &&& position(old(self)@.locations, old(self)@.current_pos) is None
                    &&& e@ == ToolErrorView::EntityNotFound(EntityView::CurrentLocation)
                    &&& final(self)@ == old(self)@
                },
            },
    {
        match self.find_location(self.current_pos) {
            Some(i) => {
                remove_text(&mut self.locations[i].location.items, item_id);
                proof {
                    assert(self@.locations =~= old(self)@.remove_item_from_location(
                        i as int,
                        item_id@,
                    ).locations);
                }
                Ok(join3("Removed ", item_id, " from current location"))
            },
            None => Err(ToolError::EntityNotFound(Entity::CurrentLocation)),
        }
    }

    /// Takes `id` out of the items of every location.
    fn scrub_locations(&mut self, id: &str)
        ensures
            final(self)@ == (WorldView {
                locations: places_without(old(self)@.locations, id@),
                ..old(self)@
            }),
    {
        let mut i: usize = 0;
        while i < self.locations.len()
            invariant
                i <= self.locations.len(),
                self.locations.len() == old(self).locations.len(),
                self.current_pos == old(self).current_pos,
                self.actors == old(self).actors,
                self.items == old(self).items,
                self.player == old(self).player,
                self.combat == old(self).combat,
                self.max_items == old(self).max_items,
                self.max_combatants == old(self).max_combatants,
                forall|j: int|
                    0 <= j < i ==> (#[trigger] self@.locations[j]) == places_without(
                        old(self)@.locations,
                        id@,
                    )[j],
                forall|j: int|
                    i <= j < self.locations.len() ==> (#[trigger] self.locations@[j])
                        == old(self).locations@[j],
            decreases self.locations.len() - i,
        {
            let ghost prev = *self;
            remove_text(&mut self.locations[i].location.items, id);
            proof {
                assert forall|j: int| 0 <= j < i + 1 implies (#[trigger] self@.locations[j])
                    == places_without(old(self)@.locations, id@)[j] by {
                    if j < i {
                        assert(self.locations@[j] == prev.locations@[j]);
                        assert(self@.locations[j] == prev@.locations[j]);
                    } else {
                        assert(prev.locations@[j] == old(self).locations@[j]);
                        assert(old(self)@.locations[j] == old(self).locations@[j]@);
                    }
                }
            }
            i += 1;
        }
        proof {
            assert(self@.locations =~= places_without(old(self)@.locations, id@));
        }
    }

    /// Takes `id` out of the inventory and out of every location.
    fn scrub(&mut self, id: &str)
        ensures
            final(self)@ == old(self)@.scrub(id@),
    {
        remove_text(&mut self.player.inventory, id);
        self.scrub_locations(id);
    }

    /// The player uses an item. Only a registered, usable item reacts: with
    /// more than one charge it loses one; with its last charge it leaves the
    /// inventory and stays registered.
    pub fn use_item(&mut self, item_id: &str) -> (ack: String)
        ensures
            final(self)@ == old(self)@.use_item(item_id@),
            ack@ == "Used item: "@ + item_id@,
    {
        if let Some(i) = self.find_item(item_id) {
            if self.items[i].properties.usable {
                match self.items[i].state {
                    ItemState::Consumed { charges, max_charges } => {
                        if charges > 1 {
                            self.items[i].state = ItemState::Consumed {
                                charges: charges - 1,
                                max_charges,
                            };
                            proof {
                                assert(self@.items =~= old(self)@.items.update(
                                    i as int,
                                    old(self)@.items[i as int].used(),
                                ));
                            }
                        } else {
                            remove_text(&mut self.player.inventory, item_id);
                        }
                    },
                    _ => {
                        proof {
                            assert(old(self)@.items.update(i as int, old(self)@.items[i as int])
                                =~= old(self)@.items);
                        }
                    },
                }
            }
        }
        join2("Used item: ", item_id)
    }

    /// Equips an item: its state becomes `Equipped` where it is registered and
    /// declares an equip slot; otherwise nothing changes.
    pub fn equip_item(&mut self, item_id: &str) -> (ack: String)
        ensures
            final(self)@ == old(self)@.equip_item(item_id@),
            ack@ == "Equipped item: "@ + item_id@,
    {
        if let Some(i) = self.find_item(item_id) {
            if self.items[i].properties.equip_slot.is_some() {
                self.items[i].state = ItemState::Equipped;
                proof {
                    assert(self@.items =~= old(self)@.equip_item(item_id@).items);
                }
            }
        }
        join2("Equipped item: ", item_id)
    }

    /// Unequips an item: its state becomes `Normal` where it is registered and
    /// equipped; otherwise nothing changes.
    pub fn unequip_item(&mut self, item_id: &str) -> (ack: String)
        ensures
            final(self)@ == old(self)@.unequip_item(item_id@),
            ack@ == "Unequipped item: "@ + item_id@,
    {
        if let Some(i) = self.find_item(item_id) {
            if matches!(self.items[i].state, ItemState::Equipped) {
                self.items[i].state = ItemState::Normal;
                proof {
                    assert(self@.items =~= old(self)@.unequip_item(item_id@).items);
                }
            }
        }
        join2("Unequipped item: ", item_id)
    }

    /// Combines two items. Both leave the inventory and every location; the
    /// result joins the inventory where it is registered, and appears nowhere
    /// where it is not.
    pub fn combine_items(&mut self, item1_id: &str, item2_id: &str, result_id: &str) -> (ack:
        String)
        ensures
            final(self)@ == old(self)@.combine_items(item1_id@, item2_id@, result_id@),
            ack@ == "Combined "@ + item1_id@ + " and "@ + item2_id@ + " into "@ + result_id@,
    {
        self.scrub(item1_id);
        self.scrub(item2_id);
        if self.find_item(result_id).is_some() {
            self.player.inventory.push(owned(result_id));
            proof {
                let cleared = old(self)@.scrub(item1_id@).scrub(item2_id@);
                assert(self@.player.inventory =~= cleared.player.inventory.push(result_id@));
            }
        }
        let mut ack = join3("Combined ", item1_id, " and ");
        ack.append(item2_id);
        ack.append(" into ");
        ack.append(result_id);
        ack
    }

    /// Breaks an item: it leaves the inventory, every location and the
    /// registry.
    pub fn break_item(&mut self, item_id: &str) -> (ack: String)
        ensures
            final(self)@ == old(self)@.break_item(item_id@),
            ack@ == "Broke item: "@ + item_id@,
    {
        self.scrub(item_id);
        if let Some(i) = self.find_item(item_id) {
            self.items.remove(i);
            proof {
                assert(self@.items =~= old(self)@.items.remove(i as int));
            }
        }
        join2("Broke item: ", item_id)
    }

    /// Puts an item into a container: added to its contents where the
    /// container is registered and open; otherwise nothing changes.
    pub fn add_item_to_container(&mut self, container_id: &str, item_id: &str) -> (ack: String)
        ensures
            final(self)@ == old(self)@.add_item_to_container(container_id@, item_id@),
            ack@ == "Added "@ + item_id@ + " to container "@ + container_id@,
    {
        if let Some(i) = self.find_item(container_id) {
            match &mut self.items[i].state {
                ItemState::Open { contents } => {
                    let ghost prior = views(contents@);
                    contents.push(owned(item_id));
                    proof {
                        assert(views(contents@) =~= prior.push(item_id@));
                    }
                },
                _ => {},
            }
            proof {
                assert(self@.items =~= old(self)@.add_item_to_container(
                    container_id@,
                    item_id@,
                ).items);
            }
        }
        let mut ack = join3("Added ", item_id, " to container ");
        ack.append(container_id);
        ack
    }

    /// Takes an item out of a container: gone from its contents where the
    /// container is registered and open; otherwise nothing changes.
    pub fn remove_item_from_container(&mut self, container_id: &str, item_id: &str) -> (ack:
        String)
        ensures
            final(self)@ == old(self)@.remove_item_from_container(container_id@, item_id@),
            ack@ == "Removed "@ + item_id@ + " from container "@ + container_id@,
    {
        if let Some(i) = self.find_item(container_id) {
            match &mut self.items[i].state {
                ItemState::Open { contents } => {
                    remove_text(contents, item_id);
                },
                _ => {},
            }
            proof {
                assert(self@.items =~= old(self)@.remove_item_from_container(
                    container_id@,
                    item_id@,
                ).items);
            }
        }
        let mut ack = join3("Removed ", item_id, " from container ");
        ack.append(container_id);
        ack
    }

    /// Replaces the description of the current location. Fails when the
    /// player stands where no location is.
    pub fn update_location_description(&mut self, text: &str) -> (r: Result<String, ToolError>)
        ensures
            match r {
                Ok(ack) => {
                    &&& position(old(self)@.locations, old(self)@.current_pos) matches Some(i)
                    &&& final(self)@ == old(self)@.describe_location(i, text@)
                    &&& ack@ == "Location description updated"@
                },
                Err(e) => {
                    &&& position(old(self)@.locations, old(self)@.current_pos) is None
                    &&& e@ == ToolErrorView::EntityNotFound(EntityView::CurrentLocation)
                    &&& final(self)@ == old(self)@
                },
            },
    {
        match self.find_location(self.current_pos) {
            Some(i) => {
                self.locations[i].location.description = owned(text);
                proof {
                    assert(self@.locations =~= old(self)@.describe_location(
                        i as int,
                        text@,
                    ).locations);
                }
                Ok(owned("Location description updated"))
            },
            None => Err(ToolError::EntityNotFound(Entity::CurrentLocation)),
        }
    }

    /// The location at `pos`.
    pub fn get_location(&self, pos: Pos) -> (r: Option<&Location>)
        ensures
            match r {
                Some(loc) => self@.location(pos) == Some(loc@),
                None => self@.location(pos) is None,
            },
    {
        match self.find_location(pos) {
            Some(i) => Some(&self.locations[i].location),
            None => None,
        }
    }

    /// The registered item `id`.
    pub fn get_item(&self, id: &str) -> (r: Option<&Item>)
        ensures
            match r {
                Some(item) => self@.item(id@) == Some(item@),
                None => self@.item(id@) is None,
            },
    {
        match self.find_item(id) {
            Some(i) => Some(&self.items[i]),
            None => None,
        }
    }

    /// The actor `id`.
    pub fn get_actor(&self, id: &str) -> (r: Option<&Actor>)
        ensures
            match r {
                Some(actor) => self@.actor(id@) == Some(actor@),
                None => self@.actor(id@) is None,
            },
    {
        match self.find_actor(id) {
            Some(i) => Some(&self.actors[i]),
            None => None,
        }
    }

    /// Puts a location at `pos`, in place of the one that is there or as a
    /// new one.
    pub fn insert_location(&mut self, pos: Pos, location: Location)
        ensures
            final(self)@ == old(self)@.with_location(pos, location@),
    {
        match self.find_location(pos) {
            Some(i) => {
                proof {
                    crate::keyed::lemma_position(self@.locations, pos);
                }
                self.locations[i].location = location;
                proof {
                    assert(self@.locations =~= old(self)@.with_location(pos, location@).locations);
                }
            },
            None => {
                self.locations.push(Place { pos, location });
                proof {
                    assert(self@.locations =~= old(self)@.with_location(pos, location@).locations);
                }
            },
        }
    }

    /// Registers an item, in place of the one with its identifier or as a
    /// new one.
    pub fn insert_item(&mut self, item: Item)
        ensures
            final(self)@ == old(self)@.with_item(item@),
    {
        match self.find_item(item.id.as_str()) {
            Some(i) => {
                self.items[i] = item;
                proof {
                    assert(self@.items =~= old(self)@.with_item(item@).items);
                }
            },
            None => {
                self.items.push(item);
                proof {
                    assert(self@.items =~= old(self)@.with_item(item@).items);
                }
            },
        }
    }

    /// Makes an actor known, in place of the one with its identifier or as a
    /// new one.
    pub fn insert_actor(&mut self, actor: Actor)
        ensures
            final(self)@ == old(self)@.with_actor(actor@),
    {
        match self.find_actor(actor.id.as_str()) {
            Some(i) => {
                self.actors[i] = actor;
                proof {
                    assert(self@.actors =~= old(self)@.with_actor(actor@).actors);
                }
            },
            None => {
                self.actors.push(actor);
                proof {
                    assert(self@.actors =~= old(self)@.with_actor(actor@).actors);
                }
            },
        }
    }
}

} // verus!
