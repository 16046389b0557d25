//! Laws of the engine: what holds of every world and every call, proved from
//! the functions on views that the operations' contracts are stated with.
use crate::agent::run;
use crate::combat::{
    after_round, aged, aged_effects, all_rested, both_sides_present, is_stunned, lemma_next_ready,
    resolved_damage, survivors, without_combatant,
};
use crate::keyed::{
    distinct_keys, lemma_distinct_push, lemma_distinct_remove, lemma_distinct_same_keys,
    lemma_distinct_update, lemma_position, lemma_position_push, lemma_position_update, position,
};
use crate::order::{falling_rank, lemma_sort_by_rank};
use crate::model::{
    CombatView, CombatantView, ItemStateView, ItemView, LocationView, PlaceView, Pos, StatusEffect,
    WorldView,
};
use crate::text::{lemma_without, without};
use crate::tools::{CombatFaultView, ToolCommandView, ToolErrorView};
use crate::game::{Game, GameEffect, GameState};
use crate::travel::{as_pos, fallback_name, in_range, is_direction, opposite, settled, step};
use vstd::prelude::*;

verus! {

// ---------------------------------------------------------------------------
// Movement
// ---------------------------------------------------------------------------
/// The four directions are four different names.
pub proof fn lemma_directions_differ()
    ensures
        "north"@ != "south"@,
        "north"@ != "east"@,
        "north"@ != "west"@,
        "south"@ != "east"@,
        "south"@ != "west"@,
        "east"@ != "west"@,
{
    reveal_strlit("north");
    reveal_strlit("south");
    reveal_strlit("east");
    reveal_strlit("west");
    assert("north"@.len() == 5 && "south"@.len() == 5 && "east"@.len() == 4 && "west"@.len() == 4);
    assert("north"@[0] == 'n' && "south"@[0] == 's' && "east"@[0] == 'e' && "west"@[0] == 'w');
}

/// The opposite of a direction is a direction, and the opposite of that is
/// the direction itself; a step and the step back cancel.
pub proof fn lemma_step_back(pos: Pos, d: Seq<char>)
    requires
        is_direction(d),
        in_range(step(pos, d)),
    ensures
        is_direction(opposite(d)),
        opposite(d) != d,
        opposite(opposite(d)) == d,
        step(as_pos(step(pos, d)), opposite(d)) == (pos.0 as int, pos.1 as int),
{
    lemma_directions_differ();
}

/// The exit `d` set on a location is the exit that is found there, and the
/// exits keep distinct directions.
pub proof fn lemma_with_exit(loc: LocationView, d: Seq<char>, target: Option<Pos>)
    ensures
        loc.with_exit(d, target).exit(d) == Some(target),
        distinct_keys(loc.exits) ==> distinct_keys(loc.with_exit(d, target).exits),
        forall|other: Seq<char>| other != d ==> loc.with_exit(d, target).exit(other) == loc.exit(other),
{
    let e = crate::model::ExitView { direction: d, target };
    lemma_position(loc.exits, d);
    match position(loc.exits, d) {
        Some(i) => {
            lemma_position_update(loc.exits, i, e, d);
            if distinct_keys(loc.exits) {
                lemma_distinct_update(loc.exits, i, e);
            }
            assert forall|other: Seq<char>| other != d implies loc.with_exit(d, target).exit(other)
                == loc.exit(other) by {
                lemma_position_update(loc.exits, i, e, other);
                lemma_position(loc.exits, other);
            }
        },
        None => {
            lemma_position_push(loc.exits, e, d);
            if distinct_keys(loc.exits) {
                lemma_distinct_push(loc.exits, e);
            }
            assert forall|other: Seq<char>| other != d implies loc.with_exit(d, target).exit(other)
                == loc.exit(other) by {
                lemma_position_push(loc.exits, e, other);
                lemma_position(loc.exits, other);
            }
        },
    }
}

/// After a step the player stands at a location.
pub proof fn lemma_arrival(w: WorldView, d: Seq<char>, generated: Option<LocationView>)
    requires
        w.move_fault(d) is None,
    ensures
        w.move_to(d, generated).location(w.move_to(d, generated).current_pos) is Some,
        w.move_to(d, generated).current_pos == as_pos(step(w.current_pos, d)),
{
    let target = as_pos(step(w.current_pos, d));
    lemma_position(w.locations, target);
    lemma_position(w.locations, w.current_pos);
    match position(w.locations, target) {
        Some(t) => {
            let seen = LocationView { visited: true, ..w.locations[t].location };
            lemma_position_update(
                w.locations,
                t,
                PlaceView { pos: w.locations[t].pos, location: seen },
                target,
            );
        },
        None => {
            let o = position(w.locations, w.current_pos)->0;
            let here = w.locations[o];
            let marked = PlaceView { location: here.location.with_exit(d, Some(target)), ..here };
            let arrival = PlaceView {
                pos: target,
                location: settled(generated, target).with_exit(opposite(d), Some(here.pos)),
            };
            lemma_position_update(w.locations, o, marked, target);
            lemma_position_push(w.locations.update(o, marked), arrival, target);
        },
    }
}

/// Whether the location at `a` and its neighbour in direction `d` both exist
/// and lead to each other: the exit `d` of the one to the other, the
/// opposite exit of the other back.
pub open spec fn linked(w: WorldView, a: Pos, d: Seq<char>) -> bool {
    let b = as_pos(step(a, d));
    match (w.location(a), w.location(b)) {
        (Some(here), Some(there)) => here.exit(d) == Some(Some(b)) && there.exit(opposite(d))
            == Some(Some(a)),
        _ => false,
    }
}

/// There and back again: from a position that has a location, a step in a
/// direction and a step in the opposite direction lead back to where the
/// player stood, and the two locations lead to each other. Where the
/// neighbour was known before the first step, this holds of worlds in which
/// the two were linked already; a neighbour that the step creates is linked
/// by it.
pub proof fn law_there_and_back(
    w: WorldView,
    d: Seq<char>,
    generated: Option<LocationView>,
    unused: Option<LocationView>,
)
    requires
        w.wf(),
        is_direction(d),
        in_range(step(w.current_pos, d)),
        w.location(w.current_pos) is Some,
        w.location(as_pos(step(w.current_pos, d))) is Some ==> linked(w, w.current_pos, d),
    ensures
        w.move_fault(d) is None,
        w.move_to(d, generated).current_pos == as_pos(step(w.current_pos, d)),
        w.move_to(d, generated).move_fault(opposite(d)) is None,
        w.move_to(d, generated).move_to(opposite(d), unused).current_pos == w.current_pos,
        linked(w.move_to(d, generated), w.current_pos, d),
        linked(w.move_to(d, generated).move_to(opposite(d), unused), w.current_pos, d),
{
    let origin = w.current_pos;
    let target = as_pos(step(origin, d));
    let back = opposite(d);
    lemma_step_back(origin, d);
    lemma_position(w.locations, origin);
    lemma_position(w.locations, target);
    let o = position(w.locations, origin)->0;
    let there = w.move_to(d, generated);
    assert(origin != target);
    // the world after the first step
    match position(w.locations, target) {
        Some(t) => {
            let seen = LocationView { visited: true, ..w.locations[t].location };
            let place = PlaceView { pos: w.locations[t].pos, location: seen };
            lemma_position_update(w.locations, t, place, origin);
            lemma_position_update(w.locations, t, place, target);
            assert(there.locations == w.locations.update(t, place));
            assert(there.location(target) == Some(seen));
            assert(there.location(origin) == w.location(origin));
        },
        None => {
            let fresh = settled(generated, target);
            let here = w.locations[o];
            let marked = PlaceView { location: here.location.with_exit(d, Some(target)), ..here };
            let arrival = PlaceView { pos: target, location: fresh.with_exit(back, Some(origin)) };
            let first = w.locations.update(o, marked);
            lemma_position_update(w.locations, o, marked, origin);
            lemma_position_update(w.locations, o, marked, target);
            lemma_position_push(first, arrival, origin);
            lemma_position_push(first, arrival, target);
            lemma_with_exit(here.location, d, Some(target));
            lemma_with_exit(fresh, back, Some(origin));
            assert(there.locations == first.push(arrival));
            assert(there.location(origin) == Some(marked.location));
            assert(there.location(target) == Some(arrival.location));
        },
    }
    assert(linked(there, origin, d));
    // the step back arrives at a known location
    lemma_position(there.locations, origin);
    lemma_position(there.locations, target);
    let o2 = position(there.locations, origin)->0;
    assert(step(target, back) == (origin.0 as int, origin.1 as int));
    assert(as_pos(step(target, back)) == origin);
    let again = there.move_to(back, unused);
    let seen = LocationView { visited: true, ..there.locations[o2].location };
    let place = PlaceView { pos: there.locations[o2].pos, location: seen };
    lemma_position_update(there.locations, o2, place, origin);
    lemma_position_update(there.locations, o2, place, target);
    assert(again.locations == there.locations.update(o2, place));
    assert(again.location(origin) == Some(seen));
    assert(again.location(target) == there.location(target));
}

/// A step into the unexplored for which no location was generated places
/// the fallback location: the player stands at the neighbour, the location
/// there bears the fallback name of its coordinate, and the two locations
/// lead to each other.
pub proof fn law_fallback_placement(w: WorldView, d: Seq<char>)
    requires
        is_direction(d),
        in_range(step(w.current_pos, d)),
        w.location(w.current_pos) is Some,
        w.location(as_pos(step(w.current_pos, d))) is None,
    ensures
        w.move_fault(d) is None,
        w.move_to(d, None).current_pos == as_pos(step(w.current_pos, d)),
        w.move_to(d, None).location(as_pos(step(w.current_pos, d))) matches Some(there)
            && there.name == fallback_name(as_pos(step(w.current_pos, d))) && there.visited
            && there.exit(opposite(d)) == Some(Some(w.current_pos)),
        w.move_to(d, None).location(w.current_pos) matches Some(here) && here.exit(d) == Some(
            Some(as_pos(step(w.current_pos, d))),
        ),
        linked(w.move_to(d, None), w.current_pos, d),
{
    let origin = w.current_pos;
    let target = as_pos(step(origin, d));
    let back = opposite(d);
    lemma_step_back(origin, d);
    lemma_position(w.locations, origin);
    lemma_position(w.locations, target);
    let o = position(w.locations, origin)->0;
    let there = w.move_to(d, None);
    assert(origin != target);
    let fresh = settled(None, target);
    let here = w.locations[o];
    let marked = PlaceView { location: here.location.with_exit(d, Some(target)), ..here };
    let arrival = PlaceView { pos: target, location: fresh.with_exit(back, Some(origin)) };
    let first = w.locations.update(o, marked);
    lemma_position_update(w.locations, o, marked, origin);
    lemma_position_update(w.locations, o, marked, target);
    lemma_position_push(first, arrival, origin);
    lemma_position_push(first, arrival, target);
    lemma_with_exit(here.location, d, Some(target));
    lemma_with_exit(fresh, back, Some(origin));
    assert(there.locations == first.push(arrival));
    assert(there.location(origin) == Some(marked.location));
    assert(there.location(target) == Some(arrival.location));
}

/// A quick step into the unexplored whose request the generation service
/// fails to answer: a location is asked for; and when the failure is taken
/// note of, the player stands at the neighbour, the location there bears
/// the fallback name of its coordinate, the two locations lead to each
/// other, the world is to be persisted, and the game waits for input.
pub proof fn law_failed_generation_falls_back(
    before: Game,
    d: Seq<char>,
    asked: GameEffect,
    waiting: Game,
    why: Seq<char>,
    done: GameEffect,
    after: Game,
)
    requires
        is_direction(d),
        in_range(step(before.world@.current_pos, d)),
        before.world@.location(before.world@.current_pos) is Some,
        before.world@.location(as_pos(step(before.world@.current_pos, d))) is None,
        Game::quick_moved(before, d, asked, waiting),
        Game::answered(waiting, d, Err(why), done, after),
    ensures
        asked is Generate,
        done is Persist,
        after.state == GameState::WaitingForInput,
        after.world@.current_pos == as_pos(step(before.world@.current_pos, d)),
        after.world@.location(after.world@.current_pos) matches Some(there) && there.name
            == fallback_name(after.world@.current_pos) && there.exit(opposite(d)) == Some(
            Some(before.world@.current_pos),
        ),
        after.world@.location(before.world@.current_pos) matches Some(here) && here.exit(d)
            == Some(Some(after.world@.current_pos)),
{
    let w = before.world@;
    lemma_position(w.locations, w.current_pos);
    lemma_position(w.locations, as_pos(step(w.current_pos, d)));
    law_fallback_placement(w, d);
    assert(waiting.world@ == w);
}

// ---------------------------------------------------------------------------
// Combat
// ---------------------------------------------------------------------------
/// Every enemy that names an actor adds one recruit, and no other does.
pub proof fn lemma_recruits_len(w: WorldView, ids: Seq<Seq<char>>, rolls: Seq<u32>, n: nat)
    requires
        n <= ids.len(),
    ensures
        1 <= w.recruits(ids, rolls, n).len() <= n + 1,
        (forall|k: int| 0 <= k < n ==> position(w.actors, #[trigger] ids[k]) is Some)
            ==> w.recruits(ids, rolls, n).len() == n + 1,
        w.recruits(ids, rolls, n)[0].is_player,
    decreases n,
{
    if n > 0 {
        lemma_recruits_len(w, ids, rolls, (n - 1) as nat);
    }
}

/// What is tested first when combat is to start, whatever the enemies
/// listed are: while combat is active it cannot start again; and where the
/// player and all the enemies listed exceed the cap it cannot start either,
/// the failure naming the cap.
pub proof fn law_start_combat_tests_in_order(w: WorldView, ids: Seq<Seq<char>>, listed: nat)
    requires
        ids.len() <= listed,
    ensures
        w.combat.active ==> w.start_combat_fault_of(ids, listed) == Some(
            ToolErrorView::CombatPrecondition(CombatFaultView::AlreadyActive),
        ),
        !w.combat.active && 1 + listed > w.max_combatants ==> w.start_combat_fault_of(ids, listed)
            == Some(
            ToolErrorView::CombatPrecondition(
                CombatFaultView::TooManyCombatants(w.max_combatants),
            ),
        ),
        w.start_combat_fault_of(ids, listed) is None ==> ids.len() == listed,
{
}

/// Combat that may start lists the player and one combatant for every enemy
/// that names an actor, ordered by falling initiative, the first to move. It
/// lists exactly `1 + ids.len()` combatants when every enemy names an actor.
pub proof fn law_start_combat(w: WorldView, ids: Seq<Seq<char>>, rolls: Seq<u32>)
    requires
        w.start_combat_fault(ids) is None,
    ensures
        w.start_combat(ids, rolls).combat.active,
        w.start_combat(ids, rolls).combat.wf(),
        falling_rank(w.start_combat(ids, rolls).combat.combatants),
        1 <= w.start_combat(ids, rolls).combat.combatants.len() <= 1 + ids.len(),
        (forall|k: int| 0 <= k < ids.len() ==> w.actor(#[trigger] ids[k]) is Some)
            ==> w.start_combat(ids, rolls).combat.combatants.len() == 1 + ids.len(),
        w.start_combat(ids, rolls).combat.combatants.to_multiset() == w.recruits(
            ids,
            rolls,
            ids.len(),
        ).to_multiset(),
{
    lemma_recruits_len(w, ids, rolls, ids.len());
    lemma_sort_by_rank(w.recruits(ids, rolls, ids.len()));
    if forall|k: int| 0 <= k < ids.len() ==> w.actor(#[trigger] ids[k]) is Some {
        assert forall|k: int| 0 <= k < ids.len() implies position(w.actors, #[trigger] ids[k])
            is Some by {
            assert(w.actor(ids[k]) is Some);
        }
    }
}

/// Where none of the first `n` identifiers names an actor that stands
/// elsewhere, none is named as standing elsewhere.
pub proof fn lemma_nobody_elsewhere(w: WorldView, ids: Seq<Seq<char>>, n: nat)
    requires
        n <= ids.len(),
        forall|k: int| 0 <= k < n ==> !w.is_elsewhere(#[trigger] ids[k]),
    ensures
        w.elsewhere_enemy(ids, n) is None,
    decreases n,
{
    if n > 0 {
        lemma_nobody_elsewhere(w, ids, (n - 1) as nat);
    }
}

/// With at most as many combatants as the cap allows, every enemy an actor
/// at the player's position, and no combat going on, combat starts.
pub proof fn law_start_combat_is_owed(w: WorldView, ids: Seq<Seq<char>>)
    requires
        !w.combat.active,
        1 + ids.len() <= w.max_combatants,
        forall|k: int|
            0 <= k < ids.len() ==> ((#[trigger] w.actor(ids[k])) matches Some(a) && a.current_pos
                == w.current_pos),
    ensures
        w.start_combat_fault(ids) is None,
{
    lemma_nobody_elsewhere(w, ids, ids.len());
}

/// An attack always does damage: at least 1, whatever the defense.
pub proof fn law_attack_damage(weapon: u32, armor: u32, temp: u32)
    ensures
        resolved_damage(weapon, armor, temp) >= 1,
        weapon - (armor + temp) >= 1 ==> resolved_damage(weapon, armor, temp) == weapon - (armor
            + temp),
{
}

/// An attack on a listed combatant takes hit points off it, unless it has
/// none left, and touches nobody else.
pub proof fn law_attack_progress(w: WorldView, t: int, weapon: Option<Seq<char>>)
    requires
        0 <= t < w.combat.combatants.len(),
    ensures
        w.attack_damage(t, weapon) >= 1,
        w.combat.combatants[t].hp > 0 ==> w.attack(t, weapon).combat.combatants[t].hp
            < w.combat.combatants[t].hp,
        w.attack(t, weapon).combat.combatants.len() == w.combat.combatants.len(),
        forall|i: int|
            0 <= i < w.combat.combatants.len() && i != t ==> w.attack(
                t,
                weapon,
            ).combat.combatants[i] == w.combat.combatants[i],
{
}

/// Being passed over, and the end of a round, leave the temporary defense
/// alone.
proof fn lemma_moved_on_is_rested(c: CombatView, i: int)
    requires
        0 <= i < c.combatants.len(),
    ensures
        c.moved_on().len() == c.combatants.len(),
        c.moved_on()[i].temp_defense == 0,
        c.moved_on()[i].is_player == c.combatants[i].is_player,
        c.moved_on()[i].id == c.combatants[i].id,
        c.moved_on()[i].hp == c.combatants[i].hp,
{
}

/// Everybody who is left when a round has ended was there before, one round
/// older, and has hit points.
pub proof fn lemma_survivors(cs: Seq<CombatantView>, i: int)
    requires
        0 <= i < survivors(cs).len(),
    ensures
        survivors(cs)[i].hp > 0,
        exists|j: int| 0 <= j < cs.len() && survivors(cs)[i] == after_round(#[trigger] cs[j]),
{
    let later = cs.map_values(|c: CombatantView| after_round(c));
    let alive = |c: CombatantView| c.hp > 0;
    later.lemma_filter_pred(alive, i);
    let who = survivors(cs)[i];
    assert(later.filter(alive).contains(who));
    later.lemma_filter_contains_rev(alive, who);
    let j = choose|j: int| 0 <= j < later.len() && later[j] == who;
    assert(who == after_round(cs[j]));
}

/// After a turn has ended, nobody has any temporary defense.
pub proof fn law_end_turn_clears_defense(c: CombatView, actor: Seq<char>)
    requires
        c.end_turn_fault(actor) is None,
    ensures
        forall|i: int|
            0 <= i < c.end_turn().combatants.len() ==> (#[trigger] c.end_turn().combatants[i]).temp_defense
                == 0,
{
    let r = c.end_turn();
    assert forall|i: int| 0 <= i < r.combatants.len() implies (#[trigger] r.combatants[i]).temp_defense
        == 0 by {
        if !c.round_ends() {
            lemma_moved_on_is_rested(c, i);
        } else {
            lemma_survivors(c.moved_on(), i);
            let j = choose|j: int|
                0 <= j < c.moved_on().len() && survivors(c.moved_on())[i] == after_round(
                    #[trigger] c.moved_on()[j],
                );
            lemma_moved_on_is_rested(c, j);
        }
    }
}

/// Ending a turn keeps combat valid: while it stays active, somebody is
/// listed, both sides are present after a round has ended, and the turn is
/// that of a listed combatant.
pub proof fn law_end_turn_keeps_combat_valid(c: CombatView, actor: Seq<char>)
    requires
        c.end_turn_fault(actor) is None,
    ensures
        c.end_turn().wf(),
        c.end_turn().active && c.round_ends() ==> both_sides_present(c.end_turn().combatants),
        c.end_turn().active && !c.round_ends() ==> !is_stunned(
            c.combatants[c.end_turn().current_turn_index as int],
        ),
{
    lemma_next_ready(all_rested(c.combatants), (c.current_turn_index + 1) as int);
    if c.round_ends() {
        let left = survivors(c.moved_on());
        lemma_next_ready(left, 0);
    } else {
        let next = c.turn_after();
        assert(all_rested(c.combatants)[next].status_effects == c.combatants[next].status_effects);
        assert(is_stunned(all_rested(c.combatants)[next]) == is_stunned(c.combatants[next]));
    }
}

/// What the end of a round does to a list of effects: every effect that is
/// kept is an effect from before with one round less to go and at least one
/// left; every effect that had more than one round to go is kept; and as many
/// are kept as had more than one round to go.
pub proof fn law_effects_age(effects: Seq<StatusEffect>)
    ensures
        forall|k: int|
            0 <= k < aged_effects(effects).len() ==> (#[trigger] aged_effects(effects)[k]).duration
                >= 1,
        forall|k: int|
            #![trigger aged_effects(effects)[k]]
            0 <= k < aged_effects(effects).len() ==> exists|j: int|
                0 <= j < effects.len() && effects[j].duration > 1 && #[trigger] aged(effects[j])
                    == aged_effects(effects)[k],
        forall|j: int|
            0 <= j < effects.len() && effects[j].duration > 1 ==> aged_effects(effects).contains(
                #[trigger] aged(effects[j]),
            ),
        aged_effects(effects).len() == effects.filter(|e: StatusEffect| e.duration > 1).len(),
{
    let lasting = |e: StatusEffect| e.duration > 1;
    let kept = effects.filter(lasting);
    let out = aged_effects(effects);
    assert(out.len() == kept.len());
    assert forall|k: int| 0 <= k < out.len() implies (#[trigger] out[k]).duration >= 1 && exists|
        j: int,
    |
        0 <= j < effects.len() && effects[j].duration > 1 && #[trigger] aged(effects[j])
            == out[k] by {
        effects.lemma_filter_pred(lasting, k);
        assert(kept.contains(kept[k]));
        effects.lemma_filter_contains_rev(lasting, kept[k]);
        let j = choose|j: int| 0 <= j < effects.len() && effects[j] == kept[k];
        assert(aged(effects[j]) == out[k]);
    }
    assert forall|j: int| 0 <= j < effects.len() && effects[j].duration > 1 implies out.contains(
        #[trigger] aged(effects[j]),
    ) by {
        effects.lemma_filter_contains(lasting, j);
        let k = choose|k: int| 0 <= k < kept.len() && kept[k] == effects[j];
        assert(out[k] == aged(effects[j]));
    }
}

/// A round that ends is counted once; the combatants that are left are those
/// from before the end of the round, their effects aged, without the fallen:
/// nobody left has no hit points, and no effect left has run out.
pub proof fn law_round_wrap(c: CombatView, actor: Seq<char>)
    requires
        c.end_turn_fault(actor) is None,
        c.round_ends(),
        c.round_number < u32::MAX,
    ensures
        c.end_turn().round_number == c.round_number + 1,
        c.end_turn().combatants == survivors(c.moved_on()),
        forall|i: int|
            0 <= i < c.end_turn().combatants.len() ==> (#[trigger] c.end_turn().combatants[i]).hp
                > 0,
        forall|i: int|
            #![trigger c.end_turn().combatants[i]]
            0 <= i < c.end_turn().combatants.len() ==> exists|j: int|
                0 <= j < c.combatants.len() && c.end_turn().combatants[i] == after_round(
                    #[trigger] c.moved_on()[j],
                ),
        forall|i: int, k: int|
            0 <= i < c.end_turn().combatants.len() && 0 <= k
                < c.end_turn().combatants[i].status_effects.len()
                ==> (#[trigger] c.end_turn().combatants[i].status_effects[k]).duration >= 1,
        forall|j: int|
            0 <= j < c.combatants.len() && after_round(c.moved_on()[j]).hp > 0
                ==> c.end_turn().combatants.contains(#[trigger] after_round(c.moved_on()[j])),
{
    let before = c.moved_on();
    let left = c.end_turn().combatants;
    assert(left == survivors(before));
    assert forall|i: int| 0 <= i < left.len() implies (#[trigger] left[i]).hp > 0 && (exists|
        j: int,
    |
        0 <= j < c.combatants.len() && left[i] == after_round(#[trigger] before[j])) && (forall|
        k: int,
    |
        0 <= k < left[i].status_effects.len() ==> (#[trigger] left[i].status_effects[k]).duration
            >= 1) by {
        lemma_survivors(before, i);
        let j = choose|j: int|
            0 <= j < before.len() && survivors(before)[i] == after_round(#[trigger] before[j]);
        law_effects_age(before[j].status_effects);
    }
    assert forall|j: int|
        0 <= j < c.combatants.len() && after_round(before[j]).hp > 0 implies left.contains(
        #[trigger] after_round(before[j]),
    ) by {
        let later = before.map_values(|x: CombatantView| after_round(x));
        let alive = |x: CombatantView| x.hp > 0;
        assert(later[j] == after_round(before[j]));
        later.lemma_filter_contains(alive, j);
    }
}

// ---------------------------------------------------------------------------
// Items
// ---------------------------------------------------------------------------
/// Using a usable item that counts charges: with more than one charge left
/// it loses exactly one and stays where it is; with its last charge it
/// leaves the inventory and stays registered as it was.
pub proof fn law_use_item(w: WorldView, id: Seq<char>)
    requires
        w.item(id) matches Some(it) && it.properties.usable && it.state is Consumed,
    ensures
        ({
            let it = w.item(id)->0;
            let charges = it.state->Consumed_charges;
            let max_charges = it.state->Consumed_max_charges;
            if charges > 1 {
                &&& w.use_item(id).player == w.player
                &&& w.use_item(id).item(id) == Some(
                    ItemView {
                        state: ItemStateView::Consumed {
                            charges: (charges - 1) as u32,
                            max_charges,
                        },
                        ..it
                    },
                )
            } else {
                &&& !w.use_item(id).player.inventory.contains(id)
                &&& w.use_item(id).items == w.items
            }
        }),
        w.use_item(id).locations == w.locations,
        w.use_item(id).items.len() == w.items.len(),
{
    lemma_position(w.items, id);
    let i = position(w.items, id)->0;
    let it = w.items[i];
    if it.spent_by_use() {
        lemma_without(w.player.inventory, id);
    } else {
        lemma_position_update(w.items, i, it.used(), id);
    }
}

/// An item that declares no equip slot is not changed by equipping it.
pub proof fn law_equip_needs_slot(w: WorldView, id: Seq<char>)
    requires
        w.item(id) matches Some(it) && it.properties.equip_slot is None,
    ensures
        w.equip_item(id) == w,
{
}

/// Combining into a result that is not registered puts nothing into the
/// inventory that was not there: every inventory entry afterwards was one
/// before, and the registry is untouched.
pub proof fn law_combine_unregistered(w: WorldView, a: Seq<char>, b: Seq<char>, result: Seq<char>)
    requires
        w.item(result) is None,
    ensures
        w.combine_items(a, b, result).items == w.items,
        forall|k: int|
            0 <= k < w.combine_items(a, b, result).player.inventory.len()
                ==> w.player.inventory.contains(
                #[trigger] w.combine_items(a, b, result).player.inventory[k],
            ),
        w.combine_items(a, b, result).player.inventory.len() <= w.player.inventory.len(),
{
    let first = without(w.player.inventory, a);
    let second = without(first, b);
    assert(w.combine_items(a, b, result).player.inventory == second);
    lemma_without(w.player.inventory, a);
    lemma_without(first, b);
    assert forall|k: int| 0 <= k < second.len() implies w.player.inventory.contains(
        #[trigger] second[k],
    ) by {
        assert(first.contains(second[k]));
        let j = choose|j: int| 0 <= j < first.len() && first[j] == second[k];
        assert(w.player.inventory.contains(first[j]));
    }
}

// ---------------------------------------------------------------------------
// The world stays valid
// ---------------------------------------------------------------------------
/// Replacing a location by one with distinct exits keeps the world valid.
pub proof fn lemma_valid_with_location(w: WorldView, i: int, loc: LocationView)
    requires
        w.wf(),
        0 <= i < w.locations.len(),
        distinct_keys(loc.exits),
    ensures
        w.with_location_at(i, loc).wf(),
{
    let place = PlaceView { pos: w.locations[i].pos, location: loc };
    lemma_distinct_update(w.locations, i, place);
    let after = w.with_location_at(i, loc);
    assert forall|j: int| 0 <= j < after.locations.len() implies distinct_keys(
        (#[trigger] after.locations[j]).location.exits,
    ) by {
        if j != i {
            assert(after.locations[j] == w.locations[j]);
        }
    }
}

/// Replacing an item by one with the same identifier keeps the world valid.
pub proof fn lemma_valid_with_item(w: WorldView, i: int, item: ItemView)
    requires
        w.wf(),
        0 <= i < w.items.len(),
        item.id == w.items[i].id,
    ensures
        w.with_item_at(i, item).wf(),
{
    lemma_distinct_update(w.items, i, item);
}

/// Taking an identifier out of the inventory and every location keeps the
/// world valid.
pub proof fn lemma_valid_scrub(w: WorldView, id: Seq<char>)
    requires
        w.wf(),
    ensures
        w.scrub(id).wf(),
        w.scrub(id).items == w.items,
        w.scrub(id).combat == w.combat,
{
    let after = w.scrub(id);
    lemma_distinct_same_keys(w.locations, after.locations);
    assert forall|j: int| 0 <= j < after.locations.len() implies distinct_keys(
        (#[trigger] after.locations[j]).location.exits,
    ) by {
        assert(after.locations[j].location.exits == w.locations[j].location.exits);
    }
}

/// A step keeps the world valid.
pub proof fn lemma_valid_move(w: WorldView, d: Seq<char>, generated: Option<LocationView>)
    requires
        w.wf(),
        w.move_fault(d) is None,
    ensures
        w.move_to(d, generated).wf(),
{
    let target = as_pos(step(w.current_pos, d));
    lemma_position(w.locations, target);
    lemma_position(w.locations, w.current_pos);
    match position(w.locations, target) {
        Some(t) => {
            lemma_valid_with_location(
                w,
                t,
                LocationView { visited: true, ..w.locations[t].location },
            );
        },
        None => {
            let o = position(w.locations, w.current_pos)->0;
            let here = w.locations[o];
            let fresh = settled(generated, target);
            lemma_with_exit(here.location, d, Some(target));
            lemma_with_exit(fresh, opposite(d), Some(here.pos));
            let marked = here.location.with_exit(d, Some(target));
            lemma_valid_with_location(w, o, marked);
            let first = w.with_location_at(o, marked);
            let arrival = PlaceView {
                pos: target,
                location: fresh.with_exit(opposite(d), Some(here.pos)),
            };
            lemma_position_update(
                w.locations,
                o,
                PlaceView { pos: here.pos, location: marked },
                target,
            );
            lemma_distinct_push(first.locations, arrival);
            let after = w.move_to(d, generated);
            assert(after.locations == first.locations.push(arrival));
            assert forall|j: int| 0 <= j < after.locations.len() implies distinct_keys(
                (#[trigger] after.locations[j]).location.exits,
            ) by {
                if j < first.locations.len() {
                    assert(after.locations[j] == first.locations[j]);
                }
            }
        },
    }
}

/// Whatever is called, the world stays valid: one location per coordinate,
/// one item and one actor per identifier, one exit per direction, and, while
/// combat is active, a turn that is a listed combatant's.
pub proof fn law_world_stays_valid(
    world: WorldView,
    narrative: Option<Seq<char>>,
    cmd: ToolCommandView,
    rolls: Seq<u32>,
    generated: Option<LocationView>,
)
    requires
        world.wf(),
    ensures
        run(world, narrative, cmd, rolls, generated).world.wf(),
{
    let out = run(world, narrative, cmd, rolls, generated);
    if out.result is Err {
        crate::agent::lemma_failure_changes_nothing(world, narrative, cmd, rolls, generated);
    } else {
        let here = position(world.locations, world.current_pos);
        lemma_position(world.locations, world.current_pos);
        match cmd {
            ToolCommandView::MoveTo { direction } => {
                lemma_valid_move(world, direction, generated);
            },
            ToolCommandView::UpdateLocationDescription { text } => {
                let i = here->0;
                lemma_valid_with_location(
                    world,
                    i,
                    LocationView { description: text, ..world.locations[i].location },
                );
            },
            ToolCommandView::GenerateTurnNarrative { text } => {},
            ToolCommandView::CreateItem { item } => {
                lemma_distinct_push(world.items, item);
            },
            ToolCommandView::AddItemToInventory { item_id } => {},
            ToolCommandView::RemoveItemFromInventory { item_id } => {},
            ToolCommandView::AddItemToLocation { item_id } => {
                let i = here->0;
                let loc = world.locations[i].location;
                lemma_valid_with_location(
                    world,
                    i,
                    LocationView { items: loc.items.push(item_id), ..loc },
                );
            },
            ToolCommandView::RemoveItemFromLocation { item_id } => {
                let i = here->0;
                let loc = world.locations[i].location;
                lemma_valid_with_location(
                    world,
                    i,
                    LocationView { items: without(loc.items, item_id), ..loc },
                );
            },
            ToolCommandView::UseItem { item_id } => {
                lemma_position(world.items, item_id);
                if position(world.items, item_id) is Some {
                    let i = position(world.items, item_id)->0;
                    lemma_valid_with_item(world, i, world.items[i].used());
                }
            },
            ToolCommandView::EquipItem { item_id } => {
                lemma_position(world.items, item_id);
                if position(world.items, item_id) is Some {
                    let i = position(world.items, item_id)->0;
                    lemma_valid_with_item(
                        world,
                        i,
                        ItemView { state: ItemStateView::Equipped, ..world.items[i] },
                    );
                }
            },
            ToolCommandView::UnequipItem { item_id } => {
                lemma_position(world.items, item_id);
                if position(world.items, item_id) is Some {
                    let i = position(world.items, item_id)->0;
                    lemma_valid_with_item(
                        world,
                        i,
                        ItemView { state: ItemStateView::Normal, ..world.items[i] },
                    );
                }
            },
            ToolCommandView::CombineItems { item1_id, item2_id, result_id } => {
                lemma_valid_scrub(world, item1_id);
                lemma_valid_scrub(world.scrub(item1_id), item2_id);
            },
            ToolCommandView::BreakItem { item_id } => {
                lemma_valid_scrub(world, item_id);
                lemma_position(world.items, item_id);
                if position(world.items, item_id) is Some {
                    lemma_distinct_remove(world.items, position(world.items, item_id)->0);
                }
            },
            ToolCommandView::AddItemToContainer { container_id, item_id } => {
                lemma_position(world.items, container_id);
                if position(world.items, container_id) is Some {
                    let i = position(world.items, container_id)->0;
                    match world.items[i].state {
                        ItemStateView::Open { contents } => {
                            lemma_valid_with_item(
                                world,
                                i,
                                ItemView {
                                    state: ItemStateView::Open { contents: contents.push(item_id) },
                                    ..world.items[i]
                                },
                            );
                        },
                        _ => {},
                    }
                }
            },
            ToolCommandView::RemoveItemFromContainer { container_id, item_id } => {
                lemma_position(world.items, container_id);
                if position(world.items, container_id) is Some {
                    let i = position(world.items, container_id)->0;
                    match world.items[i].state {
                        ItemStateView::Open { contents } => {
                            lemma_valid_with_item(
                                world,
                                i,
                                ItemView {
                                    state: ItemStateView::Open {
                                        contents: without(contents, item_id),
                                    },
                                    ..world.items[i]
                                },
                            );
                        },
                        _ => {},
                    }
                }
            },
            ToolCommandView::StartCombat { enemy_ids, listed } => {
                if world.start_combat_fault_of(enemy_ids, listed) is None {
                    law_start_combat(world, enemy_ids, rolls);
                }
            },
            ToolCommandView::AttackActor { attacker_id, target_id, weapon_id } => {
                lemma_position(world.combat.combatants, target_id);
            },
            ToolCommandView::Defend { actor_id } => {
                lemma_position(world.combat.combatants, actor_id);
            },
            ToolCommandView::Flee { actor_id } => {
                let rest = without_combatant(world.combat.combatants, actor_id);
                if both_sides_present(rest) {
                    assert(rest.len() > 0);
                }
            },
            ToolCommandView::UseItemInCombat { user_id, item_id } => {
                lemma_position(world.combat.combatants, user_id);
                lemma_position(world.items, item_id);
                let i = position(world.items, item_id)->0;
                lemma_valid_with_item(world, i, world.items[i].used());
            },
            ToolCommandView::EndTurn { actor_id } => {
                law_end_turn_keeps_combat_valid(world.combat, actor_id);
            },
            ToolCommandView::InspectObject { object_id } => {},
        }
    }
}

} // verus!
