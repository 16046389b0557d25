//! Movement over the grid and its on-demand expansion: where a step leads,
//! what is asked of the generation service for an unexplored coordinate, and
//! how a new location, generated or fallen back on, is placed and linked.
use crate::keyed::{lemma_position, lemma_position_at, lemma_position_none, position};
use crate::model::{Exit, Location, LocationView, Place, PlaceView, Pos, WorldState, WorldView};
use crate::text::{decimal, decimal_string, join3, owned, same_text};
use crate::tools::{Entity, EntityView, Field, ToolError, ToolErrorView};
use vstd::prelude::*;

verus! {

/// What the generation service is told it is.
pub const GENERATOR_ROLE: &'static str =
    "You are a world generator for a text adventure game. Create interesting, thematically consistent locations. You MUST output valid JSON only.";

/// The fixed part of a generation request: the shape of the answer.
pub const GENERATOR_RULES: &'static str =
    ") that fits thematically with current location.\nIMPORTANT: All exits must be null (blocked). The game will create actual exit connections automatically.\n\nReturn ONLY a valid JSON object:\n{\n  \"name\": \"Location name\",\n  \"description\": \"Description of what the player sees\",\n  \"image_prompt\": \"Visual description for generating an image\",\n  \"exits\": {\"north\": null, \"south\": null, \"east\": null, \"west\": null},\n  \"items\": [],\n  \"actors\": []\n}\n\nCRITICAL:\n- exits MUST be null objects (blocked), NOT strings or booleans\n- items MUST be an empty array []\n- actors MUST be an empty array []\n- NO narrative text, NO extra commentary\n\nJust the JSON. Nothing else.";

/// Whether `d` names one of the four directions of travel.
pub open spec fn is_direction(d: Seq<char>) -> bool {
    d == "north"@ || d == "south"@ || d == "east"@ || d == "west"@
}

/// The direction that leads back: north and south, east and west are
/// opposites; any other name stands for itself.
pub open spec fn opposite(d: Seq<char>) -> Seq<char> {
    if d == "north"@ {
        "south"@
    } else if d == "south"@ {
        "north"@
    } else if d == "east"@ {
        "west"@
    } else if d == "west"@ {
        "east"@
    } else {
        d
    }
}

/// The coordinate one step from `pos` in the direction `d`: north and south
/// along the second axis, east and west along the first.
pub open spec fn step(pos: Pos, d: Seq<char>) -> (int, int) {
    if d == "north"@ {
        (pos.0 as int, pos.1 + 1)
    } else if d == "south"@ {
        (pos.0 as int, pos.1 - 1)
    } else if d == "east"@ {
        (pos.0 + 1, pos.1 as int)
    } else if d == "west"@ {
        (pos.0 - 1, pos.1 as int)
    } else {
        (pos.0 as int, pos.1 as int)
    }
}

/// Whether a coordinate can be held.
pub open spec fn in_range(p: (int, int)) -> bool {
    i32::MIN <= p.0 <= i32::MAX && i32::MIN <= p.1 <= i32::MAX
}

/// A coordinate in range, as a position.
pub open spec fn as_pos(p: (int, int)) -> Pos {
    (p.0 as i32, p.1 as i32)
}

/// The name of the location that stands in when generation fails.
pub open spec fn fallback_name(target: Pos) -> Seq<char> {
    "Mysterious area ("@ + decimal(target.0 as int) + ", "@ + decimal(target.1 as int) + ")"@
}

/// The coordinate that a step from `pos` in the direction `d` leads to:
/// `pos` itself where there is no such step.
pub open spec fn target_of(pos: Pos, d: Seq<char>) -> Pos {
    if in_range(step(pos, d)) {
        as_pos(step(pos, d))
    } else {
        pos
    }
}

/// The coordinate that a step leads to.
pub fn target_from(pos: Pos, direction: &str) -> (r: Pos)
    ensures
        r == target_of(pos, direction@),
{
    match step_from(pos, direction) {
        Ok(target) => target,
        Err(_) => pos,
    }
}

/// A coordinate as it is written: both numbers in brackets.
pub open spec fn shown_pos(p: Pos) -> Seq<char> {
    "("@ + decimal(p.0 as int) + ", "@ + decimal(p.1 as int) + ")"@
}

/// Writes a coordinate.
pub fn write_pos(p: Pos) -> (r: String)
    ensures
        r@ == shown_pos(p),
{
    let x = decimal_string(p.0 as i128);
    let y = decimal_string(p.1 as i128);
    let mut out = join3("(", x.as_str(), ", ");
    out.append(y.as_str());
    out.append(")");
    out
}

/// The location that stands in when generation fails.
pub open spec fn fallback_location(target: Pos) -> LocationView {
    LocationView {
        name: fallback_name(target),
        description: "A mysterious place that appeared suddenly."@,
        items: Seq::empty(),
        actors: Seq::empty(),
        exits: Seq::empty(),
        cached_image_path: None,
        image_prompt: "A mysterious location with undefined characteristics."@,
        visited: true,
    }
}

/// The location that is placed at an unexplored coordinate: the generated
/// one, visited and with whatever exits it claimed discarded, or the
/// fallback where there is none.
pub open spec fn settled(generated: Option<LocationView>, target: Pos) -> LocationView {
    match generated {
        Some(loc) => LocationView { visited: true, exits: Seq::empty(), ..loc },
        None => fallback_location(target),
    }
}

/// What the generation service is asked for a new location at `target`,
/// reached from `origin` at `from` in the direction `d`.
pub open spec fn generation_prompt(origin: LocationView, from: Pos, d: Seq<char>, target: Pos) -> Seq<
    char,
> {
    "Current Location: "@ + origin.name + " at ("@ + decimal(from.0 as int) + ", "@ + decimal(
        from.1 as int,
    ) + ")\nDescription: "@ + origin.description + "\n\nThe player is heading "@ + d
        + " toward coordinates ("@ + decimal(target.0 as int) + ", "@ + decimal(target.1 as int)
        + ").\nThis grid cell is currently EMPTY and needs to be generated.\n\nCreate a new location at ("@
        + decimal(target.0 as int) + ", "@ + decimal(target.1 as int) + GENERATOR_RULES@
}

/// A request to the generation service.
#[derive(Debug, Clone)]
pub struct GenerationRequest {
    pub system_prompt: String,
    pub prompt: String,
}

/// What a step takes: the target is known, or has to be generated first.
#[derive(Debug)]
pub enum MovePlan {
    Travel { target: Pos },
    Explore { target: Pos, request: GenerationRequest },
}

impl WorldView {
    /// Why a step in direction `d` cannot be made, if it cannot: `d` is no
    /// direction, the step leaves the coordinate range, or it leads into the
    /// unexplored from a position that has no location.
    pub open spec fn move_fault(self, d: Seq<char>) -> Option<ToolErrorView> {
        if !is_direction(d) {
            Some(ToolErrorView::InvalidEnumValue(Field::Direction, d))
        } else if !in_range(step(self.current_pos, d)) {
            Some(ToolErrorView::OutOfRange)
        } else if position(self.locations, as_pos(step(self.current_pos, d))) is None && position(
            self.locations,
            self.current_pos,
        ) is None {
            Some(ToolErrorView::EntityNotFound(EntityView::CurrentLocation))
        } else {
            None
        }
    }

    /// The world after the player arrives at the known location at index `t`.
    pub open spec fn arrive(self, t: int) -> WorldView {
        WorldView {
            current_pos: self.locations[t].pos,
            ..self.with_location_at(
                t,
                LocationView { visited: true, ..self.locations[t].location },
            )
        }
    }

    /// The world after the player steps from the location at index `o` in
    /// direction `d` into the unexplored coordinate `target`, where `fresh` is
    /// placed. The origin's exit `d` leads to the target, the new location's
    /// opposite exit leads back, and the new location is listed last.
    pub open spec fn explore(self, o: int, d: Seq<char>, target: Pos, fresh: LocationView) -> WorldView {
        let origin = self.locations[o];
        WorldView {
            current_pos: target,
            locations: self.locations.update(
                o,
                PlaceView { location: origin.location.with_exit(d, Some(target)), ..origin },
            ).push(
                PlaceView {
                    pos: target,
                    location: fresh.with_exit(opposite(d), Some(origin.pos)),
                },
            ),
            ..self
        }
    }

    /// The world after a step in direction `d` that can be made. A known
    /// target is arrived at; an unexplored one is settled with `generated`,
    /// or with the fallback location, and linked.
    pub open spec fn move_to(self, d: Seq<char>, generated: Option<LocationView>) -> WorldView {
        let target = as_pos(step(self.current_pos, d));
        match position(self.locations, target) {
            Some(t) => self.arrive(t),
            None => self.explore(
                position(self.locations, self.current_pos)->0,
                d,
                target,
                settled(generated, target),
            ),
        }
    }
}

/// The direction that leads back.
pub fn get_opposite_direction(direction: &str) -> (r: String)
    ensures
        r@ == opposite(direction@),
{
    if same_text(direction, "north") {
        owned("south")
    } else if same_text(direction, "south") {
        owned("north")
    } else if same_text(direction, "east") {
        owned("west")
    } else if same_text(direction, "west") {
        owned("east")
    } else {
        owned(direction)
    }
}

/// The coordinate one step from `pos` in the direction `direction`.
pub fn step_from(pos: Pos, direction: &str) -> (r: Result<Pos, ToolError>)
    ensures
        match r {
            Ok(target) => is_direction(direction@) && in_range(step(pos, direction@)) && target
                == as_pos(step(pos, direction@)),
            Err(e) => e@ == (if !is_direction(direction@) {
                ToolErrorView::InvalidEnumValue(Field::Direction, direction@)
            } else {
                ToolErrorView::OutOfRange
            }) && !(is_direction(direction@) && in_range(step(pos, direction@))),
        },
{
    let (x, y) = pos;
    let moved = if same_text(direction, "north") {
        (Some(x), y.checked_add(1))
    } else if same_text(direction, "south") {
        (Some(x), y.checked_sub(1))
    } else if same_text(direction, "east") {
        (x.checked_add(1), Some(y))
    } else if same_text(direction, "west") {
        (x.checked_sub(1), Some(y))
    } else {
        return Err(ToolError::InvalidEnumValue(Field::Direction, owned(direction)));
    };
    match moved {
        (Some(tx), Some(ty)) => Ok((tx, ty)),
        _ => Err(ToolError::OutOfRange),
    }
}

/// The location that stands in when generation fails.
pub fn make_fallback_location(target: Pos) -> (r: Location)
    ensures
        r@ == fallback_location(target),
{
    let x = decimal_string(target.0 as i128);
    let y = decimal_string(target.1 as i128);
    let mut name = join3("Mysterious area (", x.as_str(), ", ");
    name.append(y.as_str());
    name.append(")");
    let r = Location {
        name,
        description: owned("A mysterious place that appeared suddenly."),
        items: Vec::new(),
        actors: Vec::new(),
        exits: Vec::new(),
        cached_image_path: None,
        image_prompt: owned("A mysterious location with undefined characteristics."),
        visited: true,
    };
    proof {
        assert(r@.items =~= Seq::empty());
        assert(r@.actors =~= Seq::empty());
        assert(r@.exits =~= Seq::empty());
    }
    r
}

impl Location {
    /// The index of the exit named `direction`.
    pub fn find_exit(&self, direction: &str) -> (r: Option<usize>)
        ensures
            match r {
                Some(i) => position(self@.exits, direction@) == Some(i as int) && i
                    < self.exits.len(),
                None => position(self@.exits, direction@) is None,
            },
    {
        let mut i: usize = 0;
        while i < self.exits.len()
            invariant
                i <= self.exits.len(),
                forall|j: int| 0 <= j < i ==> (#[trigger] self@.exits[j]).direction != direction@,
            decreases self.exits.len() - i,
        {
            if same_text(self.exits[i].direction.as_str(), direction) {
                proof {
                    lemma_position_at(self@.exits, direction@, i as int);
                }
                return Some(i);
            }
            i += 1;
        }
        proof {
            lemma_position_none(self@.exits, direction@);
        }
        None
    }

    /// Where the exit named `direction` leads: `None` when there is no such
    /// exit, `Some(None)` when it is blocked.
    pub fn exit(&self, direction: &str) -> (r: Option<Option<Pos>>)
        ensures
            r == self@.exit(direction@),
    {
        match self.find_exit(direction) {
            Some(i) => Some(self.exits[i].target),
            None => None,
        }
    }

    /// Sets the exit named `direction` to lead to `target`: replaced in place
    /// when the exit exists, added at the end otherwise.
    pub fn set_exit(&mut self, direction: &str, target: Option<Pos>)
        ensures
            final(self)@ == old(self)@.with_exit(direction@, target),
    {
        match self.find_exit(direction) {
            Some(i) => {
                self.exits[i].target = target;
                proof {
                    lemma_position(old(self)@.exits, direction@);
                    assert(self@.exits =~= old(self)@.with_exit(direction@, target).exits);
                }
            },
            None => {
                self.exits.push(Exit { direction: owned(direction), target });
                proof {
                    assert(self@.exits =~= old(self)@.with_exit(direction@, target).exits);
                }
            },
        }
    }
}

/// The view of an optional location.
pub open spec fn opt_location_view(o: Option<Location>) -> Option<LocationView> {
    match o {
        Some(l) => Some(l@),
        None => None,
    }
}

/// What is reported after a step in direction `d`: the direction, the new
/// position and the name of the location there.
pub open spec fn move_report(d: Seq<char>, after: WorldView) -> Seq<char> {
    "Moved "@ + d + " to ("@ + decimal(after.current_pos.0 as int) + ", "@ + decimal(
        after.current_pos.1 as int,
    ) + ") - "@ + after.location(after.current_pos)->0.name
}

impl WorldState {
    /// Plans a step in direction `direction`: to a known location the player
    /// can travel at once; for an unexplored coordinate a location has to be
    /// asked of the generation service first. Fails as `move_to` does.
    pub fn plan_move(&self, direction: &str) -> (r: Result<MovePlan, ToolError>)
        ensures
            match r {
                Ok(MovePlan::Travel { target }) => {
                    &&& self@.move_fault(direction@) is None
                    &&& target == as_pos(step(self@.current_pos, direction@))
                    &&& position(self@.locations, target) is Some
                },
                Ok(MovePlan::Explore { target, request }) => {
                    &&& self@.move_fault(direction@) is None
                    &&& target == as_pos(step(self@.current_pos, direction@))
                    &&& position(self@.locations, target) is None
                    &&& position(self@.locations, self@.current_pos) matches Some(o)
                    &&& request.system_prompt@ == GENERATOR_ROLE@
                    &&& request.prompt@ == generation_prompt(
                        self@.locations[o].location,
                        self@.current_pos,
                        direction@,
                        target,
                    )
                },
                Err(e) => self@.move_fault(direction@) == Some(e@),
            },
    {
        let target = match step_from(self.current_pos, direction) {
            Ok(target) => target,
            Err(e) => {
                return Err(e);
            },
        };
        if self.find_location(target).is_some() {
            return Ok(MovePlan::Travel { target });
        }
        let o = match self.find_location(self.current_pos) {
            Some(o) => o,
            None => {
                return Err(ToolError::EntityNotFound(Entity::CurrentLocation));
            },
        };
        let origin = &self.locations[o].location;
        let x = decimal_string(self.current_pos.0 as i128);
        let y = decimal_string(self.current_pos.1 as i128);
        let tx = decimal_string(target.0 as i128);
        let ty = decimal_string(target.1 as i128);
        let mut prompt = join3("Current Location: ", origin.name.as_str(), " at (");
        prompt.append(x.as_str());
        prompt.append(", ");
        prompt.append(y.as_str());
        prompt.append(")\nDescription: ");
        prompt.append(origin.description.as_str());
        prompt.append("\n\nThe player is heading ");
        prompt.append(direction);
        prompt.append(" toward coordinates (");
        prompt.append(tx.as_str());
        prompt.append(", ");
        prompt.append(ty.as_str());
        prompt.append(
            ").\nThis grid cell is currently EMPTY and needs to be generated.\n\nCreate a new location at (",
        );
        prompt.append(tx.as_str());
        prompt.append(", ");
        prompt.append(ty.as_str());
        prompt.append(GENERATOR_RULES);
        Ok(
            MovePlan::Explore {
                target,
                request: GenerationRequest { system_prompt: owned(GENERATOR_ROLE), prompt },
            },
        )
    }

    /// Whether a step in direction `direction` leads to a known location.
    pub fn plan_is_travel(&self, direction: &str) -> (r: bool)
        ensures
            r == (is_direction(direction@) && in_range(step(self@.current_pos, direction@))
                && position(self@.locations, as_pos(step(self@.current_pos, direction@)))
                is Some),
    {
        match step_from(self.current_pos, direction) {
            Ok(target) => self.find_location(target).is_some(),
            Err(_) => false,
        }
    }

    /// Makes a step in direction `direction`. A known target is arrived at
    /// and marked visited, and `generated` is not looked at. An unexplored
    /// target is settled first: with `generated`, marked visited and stripped
    /// of its exits, or with the fallback location where `generated` is
    /// `None`; then the two locations are linked in both directions. Rejected,
    /// with the world unchanged, when `direction` is no direction, the step
    /// leaves the coordinate range, or it leads into the unexplored from a
    /// position that has no location.
    pub fn move_to(&mut self, direction: &str, generated: Option<Location>) -> (r: Result<
        String,
        ToolError,
    >)
        ensures
            match r {
                Ok(ack) => {
                    &&& old(self)@.move_fault(direction@) is None
                    &&& final(self)@ == old(self)@.move_to(
                        direction@,
                        opt_location_view(generated),
                    )
                    &&& ack@ == move_report(direction@, final(self)@)
                },
                Err(e) => {
                    &&& old(self)@.move_fault(direction@) == Some(e@)
                    &&& final(self)@ == old(self)@
                },
            },
    {
        let target = match step_from(self.current_pos, direction) {
            Ok(target) => target,
            Err(e) => {
                return Err(e);
            },
        };
        let at: usize;
        match self.find_location(target) {
            Some(t) => {
                proof {
                    lemma_position(self@.locations, target);
                }
                self.current_pos = target;
                self.locations[t].location.visited = true;
                at = t;
                proof {
                    assert(self@.locations =~= old(self)@.arrive(t as int).locations);
                    lemma_position_at(self@.locations, target, t as int);
                }
            },
            None => {
                let o = match self.find_location(self.current_pos) {
                    Some(o) => o,
                    None => {
                        return Err(ToolError::EntityNotFound(Entity::CurrentLocation));
                    },
                };
                proof {
                    lemma_position(self@.locations, self@.current_pos);
                    lemma_position(self@.locations, target);
                }
                let mut fresh = match generated {
                    Some(loc) => {
                        let fresh = Location {
                            name: loc.name,
                            description: loc.description,
                            items: loc.items,
                            actors: loc.actors,
                            exits: Vec::new(),
                            cached_image_path: loc.cached_image_path,
                            image_prompt: loc.image_prompt,
                            visited: true,
                        };
                        proof {
                            assert(fresh@.exits =~= Seq::empty());
                        }
                        fresh
                    },
                    None => make_fallback_location(target),
                };
                assert(fresh@ == settled(opt_location_view(generated), target));
                let back = get_opposite_direction(direction);
                fresh.set_exit(back.as_str(), Some(self.current_pos));
                self.locations[o].location.set_exit(direction, Some(target));
                self.locations.push(Place { pos: target, location: fresh });
                self.current_pos = target;
                at = self.locations.len() - 1;
                proof {
                    let expect = old(self)@.explore(
                        o as int,
                        direction@,
                        target,
                        settled(opt_location_view(generated), target),
                    );
                    assert(self@.locations =~= expect.locations);
                    assert forall|j: int| 0 <= j < at implies (#[trigger] self@.locations[j]).pos
                        != target by {
                        assert(self@.locations[j].pos == old(self)@.locations[j].pos);
                    }
                    lemma_position_at(self@.locations, target, at as int);
                }
            },
        }
        let x = decimal_string(target.0 as i128);
        let y = decimal_string(target.1 as i128);
        let mut ack = join3("Moved ", direction, " to (");
        ack.append(x.as_str());
        ack.append(", ");
        ack.append(y.as_str());
        ack.append(") - ");
        ack.append(self.locations[at].location.name.as_str());
        Ok(ack)
    }
}

} // verus!
