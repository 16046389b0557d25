//! The combat engine: the turn order, the actions of a turn, and the round
//! wrap with its status effects and eliminations.
use crate::keyed::{lemma_position_at, lemma_position_none, position};
use crate::order::{lemma_insert_at, sort_by_rank, Ranked};
use crate::model::{
    CombatState, CombatView, Combatant, CombatantView, ItemState, StatusEffect, StatusType,
    WorldState, WorldView,
};
use crate::text::{
    contains_text, decimal, decimal_string, join2, join3, owned, remove_text, same_text, views,
};
use crate::tools::{
    CombatFault, CombatFaultView, Entity, EntityView, ToolError, ToolErrorView,
};
use vstd::prelude::*;

verus! {

/// Hit points with which the player enters combat.
pub const PLAYER_HP: u32 = 100;

/// Hit points with which an enemy enters combat.
pub const ENEMY_HP: u32 = 50;

/// Initiative is rolled from 1 to this number.
pub const INITIATIVE_SIDES: u32 = 20;

/// Damage dealt without a weapon, or with one that names no damage.
pub const BASE_DAMAGE: u32 = 5;

/// Temporary defense gained by defending.
pub const DEFEND_BONUS: u32 = 5;

/// Hit points restored by an item used in combat.
pub const HEAL_AMOUNT: u32 = 20;

/// Escape is rolled from 0 below this number.
pub const FLEE_SIDES: u32 = 20;

/// The lowest escape roll that succeeds.
pub const FLEE_THRESHOLD: u32 = 10;

// ---------------------------------------------------------------------------
// Turn order
// ---------------------------------------------------------------------------
/// The initiative that a raw roll stands for: uniform over `1..=20`.
pub open spec fn initiative_of(roll: u32) -> u32 {
    (roll % INITIATIVE_SIDES + 1) as u32
}

/// The player as it enters combat.
pub open spec fn player_combatant(roll: u32) -> CombatantView {
    CombatantView {
        id: "player"@,
        is_player: true,
        hp: PLAYER_HP,
        max_hp: PLAYER_HP,
        weapon_id: None,
        armor_id: None,
        initiative: initiative_of(roll),
        status_effects: Seq::empty(),
        temp_defense: 0,
    }
}

/// An enemy as it enters combat.
pub open spec fn enemy_combatant(id: Seq<char>, roll: u32) -> CombatantView {
    CombatantView {
        id,
        is_player: false,
        hp: ENEMY_HP,
        max_hp: ENEMY_HP,
        weapon_id: None,
        armor_id: None,
        initiative: initiative_of(roll),
        status_effects: Seq::empty(),
        temp_defense: 0,
    }
}

impl Ranked for CombatantView {
    open spec fn rank(&self) -> int {
        self.initiative as int
    }
}

/// Orders combatants by falling initiative, keeping the listed order among
/// equals.
pub fn sort_combatants(v: Vec<Combatant>) -> (r: Vec<Combatant>)
    ensures
        views(r@) == sort_by_rank(views(v@)),
{
    let ghost all = views(v@);
    let mut rest = v;
    let mut out: Vec<Combatant> = Vec::new();
    let ghost mut done: int = 0;
    proof {
        assert(all.take(0) =~= Seq::empty());
        assert(views(out@) =~= Seq::empty());
        assert(all.skip(0) =~= all);
    }
    while rest.len() > 0
        invariant
            0 <= done <= all.len(),
            views(rest@) == all.skip(done),
            views(out@) == sort_by_rank(all.take(done)),
        decreases rest.len(),
    {
        proof {
            assert(views(rest@).len() == rest@.len());
            assert(done < all.len());
            assert(views(rest@)[0] == all[done]);
        }
        let ghost rest_before = rest@;
        let c = rest.remove(0);
        proof {
            assert(c@ == all[done]);
            assert(views(rest@) =~= all.skip(done + 1)) by {
                assert forall|j: int| 0 <= j < rest@.len() implies views(rest@)[j] == all.skip(
                    done + 1,
                )[j] by {
                    assert(rest@[j] == rest_before[j + 1]);
                    assert(views(rest_before)[j + 1] == all.skip(done)[j + 1]);
                }
            }
        }
        let mut k: usize = out.len();
        while k > 0 && out[k - 1].initiative < c.initiative
            invariant
                k <= out.len(),
                forall|j: int| k <= j < out.len() ==> views(out@)[j].initiative < c@.initiative,
            decreases k,
        {
            k -= 1;
        }
        proof {
            let sorted = views(out@);
            assert(k > 0 ==> sorted[k - 1].initiative >= c@.initiative);
            lemma_insert_at(sorted, c@, k as int);
            assert(all.take(done + 1).drop_last() =~= all.take(done));
            assert(all.take(done + 1).last() == all[done]);
        }
        let ghost before = views(out@);
        out.insert(k, c);
        proof {
            assert(views(out@) =~= before.insert(k as int, c@));
            done = done + 1;
        }
    }
    proof {
        assert(all.take(done) =~= all);
    }
    out
}

// ---------------------------------------------------------------------------
// Starting combat
// ---------------------------------------------------------------------------
impl WorldView {
    /// Whether `id` names an actor that stands somewhere else than the player.
    pub open spec fn is_elsewhere(self, id: Seq<char>) -> bool {
        match self.actor(id) {
            Some(a) => a.current_pos != self.current_pos,
            None => false,
        }
    }

    /// The first of the first `n` identifiers that names an actor that stands
    /// somewhere else than the player, if one does.
    pub open spec fn elsewhere_enemy(self, ids: Seq<Seq<char>>, n: nat) -> Option<Seq<char>>
        decreases n,
    {
        if n == 0 {
            None
        } else {
            match self.elsewhere_enemy(ids, (n - 1) as nat) {
                Some(id) => Some(id),
                None => if self.is_elsewhere(ids[n - 1]) {
                    Some(ids[n - 1])
                } else {
                    None
                },
            }
        }
    }

    /// The combatants recruited from the first `n` enemy identifiers, in the
    /// order listed: the player first, then every identifier that names an
    /// actor. The player's initiative comes from `rolls[0]`, that of the
    /// enemy named at index `k` from `rolls[k + 1]`.
    pub open spec fn recruits(self, ids: Seq<Seq<char>>, rolls: Seq<u32>, n: nat) -> Seq<
        CombatantView,
    >
        decreases n,
    {
        if n == 0 {
            seq![player_combatant(rolls[0])]
        } else {
            let before = self.recruits(ids, rolls, (n - 1) as nat);
            if position(self.actors, ids[n - 1]) is Some {
                before.push(enemy_combatant(ids[n - 1], rolls[n as int]))
            } else {
                before
            }
        }
    }

    /// Why combat cannot start, if it cannot: it is active already, the
    /// player and the enemies together exceed the cap, or an enemy stands
    /// somewhere else, of which the first that is listed is named.
    pub open spec fn start_combat_fault(self, ids: Seq<Seq<char>>) -> Option<ToolErrorView> {
        if self.combat.active {
            Some(ToolErrorView::CombatPrecondition(CombatFaultView::AlreadyActive))
        } else if 1 + ids.len() > self.max_combatants {
            Some(
                ToolErrorView::CombatPrecondition(
                    CombatFaultView::TooManyCombatants(self.max_combatants),
                ),
            )
        } else {
            match self.elsewhere_enemy(ids, ids.len()) {
                Some(id) => Some(
                    ToolErrorView::CombatPrecondition(CombatFaultView::EnemyElsewhere(id)),
                ),
                None => None,
            }
        }
    }

    /// Why combat cannot start against enemies of which `listed` were
    /// listed and the identifiers `ids` read, if it cannot. Where every
    /// enemy listed was read this is `start_combat_fault`. Where one was
    /// not, for being no identifier, combat cannot start: for the reasons
    /// of `start_combat_fault`, all the enemies listed counting against
    /// the cap, or else for that enemy.
    pub open spec fn start_combat_fault_of(self, ids: Seq<Seq<char>>, listed: nat) -> Option<
        ToolErrorView,
    > {
        if ids.len() >= listed {
            self.start_combat_fault(ids)
        } else if self.combat.active {
            Some(ToolErrorView::CombatPrecondition(CombatFaultView::AlreadyActive))
        } else if 1 + listed > self.max_combatants {
            Some(
                ToolErrorView::CombatPrecondition(
                    CombatFaultView::TooManyCombatants(self.max_combatants),
                ),
            )
        } else {
            match self.elsewhere_enemy(ids, ids.len()) {
                Some(id) => Some(
                    ToolErrorView::CombatPrecondition(CombatFaultView::EnemyElsewhere(id)),
                ),
                None => Some(ToolErrorView::InvalidEnemyId),
            }
        }
    }

    /// The world with combat started: the recruits in turn order, the first
    /// of them to move, in round 1.
    pub open spec fn start_combat(self, ids: Seq<Seq<char>>, rolls: Seq<u32>) -> WorldView {
        WorldView {
            combat: CombatView {
                active: true,
                combatants: sort_by_rank(self.recruits(ids, rolls, ids.len())),
                current_turn_index: 0,
                round_number: 1,
            },
            ..self
        }
    }

    /// The index of the combatant `id`.
    pub open spec fn combatant(self, id: Seq<char>) -> Option<int> {
        position(self.combat.combatants, id)
    }

    /// The world with the combatant at index `i` replaced by `c`.
    pub open spec fn with_combatant_at(self, i: int, c: CombatantView) -> WorldView {
        WorldView {
            combat: CombatView {
                combatants: self.combat.combatants.update(i, c),
                ..self.combat
            },
            ..self
        }
    }
}

/// Once an enemy that stands elsewhere is found, it stays the one that is
/// named.
pub proof fn lemma_elsewhere_stays(w: WorldView, ids: Seq<Seq<char>>, m: nat, n: nat)
    requires
        m <= n,
        w.elsewhere_enemy(ids, m) is Some,
    ensures
        w.elsewhere_enemy(ids, n) == w.elsewhere_enemy(ids, m),
    decreases n,
{
    if m < n {
        lemma_elsewhere_stays(w, ids, m, (n - 1) as nat);
    }
}

impl WorldState {
    /// The index of the combatant `id`.
    pub fn find_combatant(&self, id: &str) -> (r: Option<usize>)
        ensures
            match r {
                Some(i) => self@.combatant(id@) == Some(i as int) && i
                    < self.combat.combatants.len(),
                None => self@.combatant(id@) is None,
            },
    {
        let mut i: usize = 0;
        while i < self.combat.combatants.len()
            invariant
                i <= self.combat.combatants.len(),
                forall|j: int| 0 <= j < i ==> (#[trigger] self@.combat.combatants[j]).id != id@,
            decreases self.combat.combatants.len() - i,
        {
            if same_text(self.combat.combatants[i].id.as_str(), id) {
                proof {
                    lemma_position_at(self@.combat.combatants, id@, i as int);
                }
                return Some(i);
            }
            i += 1;
        }
        proof {
            lemma_position_none(self@.combat.combatants, id@);
        }
        None
    }

    /// Tells why combat cannot start against enemies of which `listed` were
    /// listed and the identifiers `enemy_ids` read, if it cannot.
    pub fn start_combat_refusal(&self, enemy_ids: &Vec<String>, listed: usize) -> (r: Option<
        ToolError,
    >)
        ensures
            match r {
                Some(e) => self@.start_combat_fault_of(views(enemy_ids@), listed as nat) == Some(
                    e@,
                ),
                None => self@.start_combat_fault_of(views(enemy_ids@), listed as nat) is None,
            },
    {
        let ghost ids = views(enemy_ids@);
        if self.combat.active {
            return Some(ToolError::CombatPrecondition(CombatFault::AlreadyActive));
        }
        if enemy_ids.len() >= self.max_combatants as usize || listed
            >= self.max_combatants as usize {
            return Some(
                ToolError::CombatPrecondition(CombatFault::TooManyCombatants(self.max_combatants)),
            );
        }
        let mut k: usize = 0;
        while k < enemy_ids.len()
            invariant
                k <= enemy_ids.len(),
                ids == views(enemy_ids@),
                !self.combat.active,
                listed < self.max_combatants,
                enemy_ids.len() < self.max_combatants,
                self@.elsewhere_enemy(ids, k as nat) is None,
            decreases enemy_ids.len() - k,
        {
            let enemy_id = enemy_ids[k].as_str();
            assert(ids[k as int] == enemy_id@);
            if let Some(a) = self.find_actor(enemy_id) {
                if self.actors[a].current_pos.0 != self.current_pos.0
                    || self.actors[a].current_pos.1 != self.current_pos.1 {
                    proof {
                        assert(self@.actors[a as int].current_pos != self@.current_pos);
                        assert(self@.is_elsewhere(ids[k as int]));
                        assert(self@.elsewhere_enemy(ids, (k + 1) as nat) == Some(ids[k as int]));
                        lemma_elsewhere_stays(self@, ids, (k + 1) as nat, ids.len());
                    }
                    return Some(
                        ToolError::CombatPrecondition(
                            CombatFault::EnemyElsewhere(owned(enemy_id)),
                        ),
                    );
                }
            }
            proof {
                assert(!self@.is_elsewhere(ids[k as int]));
            }
            k += 1;
        }
        if enemy_ids.len() < listed {
            Some(ToolError::InvalidEnemyId)
        } else {
            None
        }
    }

    /// Starts combat against the named enemies, with the given raw rolls for
    /// initiative: `rolls[0]` for the player, `rolls[k + 1]` for the enemy
    /// named at index `k`. Rejected, with the world unchanged, when combat is
    /// active, when the combatants would exceed the cap, or when a named actor
    /// stands elsewhere. Names that belong to no actor are passed over.
    pub fn start_combat_with_rolls(&mut self, enemy_ids: &Vec<String>, rolls: &Vec<u32>) -> (r:
        Result<String, ToolError>)
        requires
            rolls.len() == enemy_ids.len() + 1,
        ensures
            match r {
                Ok(ack) => {
                    &&& old(self)@.start_combat_fault(views(enemy_ids@)) is None
                    &&& final(self)@ == old(self)@.start_combat(views(enemy_ids@), rolls@)
                    &&& ack@ == "Started combat with "@ + decimal(enemy_ids.len() as int)
                        + " enemies"@
                },
                Err(e) => {
                    &&& old(self)@.start_combat_fault(views(enemy_ids@)) == Some(e@)
                    &&& final(self)@ == old(self)@
                },
            },
    {
        let ghost ids = views(enemy_ids@);
        if self.combat.active {
            return Err(ToolError::CombatPrecondition(CombatFault::AlreadyActive));
        }
        if enemy_ids.len() >= self.max_combatants as usize {
            return Err(
                ToolError::CombatPrecondition(CombatFault::TooManyCombatants(self.max_combatants)),
            );
        }
        let mut combatants: Vec<Combatant> = Vec::new();
        combatants.push(
            Combatant {
                id: owned("player"),
                is_player: true,
                hp: PLAYER_HP,
                max_hp: PLAYER_HP,
                weapon_id: None,
                armor_id: None,
                initiative: rolls[0] % INITIATIVE_SIDES + 1,
                status_effects: Vec::new(),
                temp_defense: 0,
            },
        );
        proof {
            assert(views(combatants@) =~= self@.recruits(ids, rolls@, 0));
        }
        let mut k: usize = 0;
        while k < enemy_ids.len()
            invariant
                k <= enemy_ids.len(),
                rolls.len() == enemy_ids.len() + 1,
                ids == views(enemy_ids@),
                *self == *old(self),
                !self.combat.active,
                enemy_ids.len() < self.max_combatants,
                views(combatants@) == self@.recruits(ids, rolls@, k as nat),
                self@.elsewhere_enemy(ids, k as nat) is None,
            decreases enemy_ids.len() - k,
        {
            let enemy_id = enemy_ids[k].as_str();
            assert(ids[k as int] == enemy_id@);
            if let Some(a) = self.find_actor(enemy_id) {
                if self.actors[a].current_pos.0 != self.current_pos.0
                    || self.actors[a].current_pos.1 != self.current_pos.1 {
                    proof {
                        assert(self@.actors[a as int].current_pos != self@.current_pos);
                        assert(self@.is_elsewhere(ids[k as int]));
                        assert(self@.elsewhere_enemy(ids, (k + 1) as nat) == Some(ids[k as int]));
                        lemma_elsewhere_stays(self@, ids, (k + 1) as nat, ids.len());
                    }
                    return Err(
                        ToolError::CombatPrecondition(
                            CombatFault::EnemyElsewhere(owned(enemy_id)),
                        ),
                    );
                }
                let ghost before = views(combatants@);
                combatants.push(
                    Combatant {
                        id: owned(enemy_id),
                        is_player: false,
                        hp: ENEMY_HP,
                        max_hp: ENEMY_HP,
                        weapon_id: None,
                        armor_id: None,
                        initiative: rolls[k + 1] % INITIATIVE_SIDES + 1,
                        status_effects: Vec::new(),
                        temp_defense: 0,
                    },
                );
                proof {
                    assert(views(combatants@) =~= before.push(
                        enemy_combatant(ids[k as int], rolls@[k + 1]),
                    ));
                }
            }
            proof {
                assert(!self@.is_elsewhere(ids[k as int]));
            }
            k += 1;
        }
        let count = decimal_string(enemy_ids.len() as i128);
        self.combat = CombatState {
            active: true,
            combatants: sort_combatants(combatants),
            current_turn_index: 0,
            round_number: 1,
        };
        Ok(join3("Started combat with ", count.as_str(), " enemies"))
    }
}

// ---------------------------------------------------------------------------
// The actions of a turn
// ---------------------------------------------------------------------------
/// The damage an attack resolves to: the weapon's damage less the armor's and
/// the temporary defense, and never less than 1.
pub open spec fn resolved_damage(weapon: u32, armor: u32, temp: u32) -> u32 {
    if weapon - (armor + temp) >= 1 {
        (weapon - (armor + temp)) as u32
    } else {
        1
    }
}

/// Hit points after a loss of `damage`, never below zero.
pub open spec fn hp_after_loss(hp: u32, damage: int) -> u32 {
    if hp > damage {
        (hp - damage) as u32
    } else {
        0
    }
}

/// Hit points after healing, never above the maximum.
pub open spec fn hp_after_heal(hp: u32, max_hp: u32) -> u32 {
    if hp + HEAL_AMOUNT <= max_hp {
        (hp + HEAL_AMOUNT) as u32
    } else {
        max_hp
    }
}

/// Temporary defense after defending once more.
pub open spec fn raised_defense(temp: u32) -> u32 {
    if temp + DEFEND_BONUS <= u32::MAX {
        (temp + DEFEND_BONUS) as u32
    } else {
        u32::MAX
    }
}

/// Whether an escape roll succeeds: uniform over `0..20`, from 10 up.
pub open spec fn escapes(roll: u32) -> bool {
    roll % FLEE_SIDES >= FLEE_THRESHOLD
}

/// Whether a combatant of the given side is listed.
pub open spec fn side_present(cs: Seq<CombatantView>, player: bool) -> bool {
    exists|k: int| 0 <= k < cs.len() && (#[trigger] cs[k]).is_player == player
}

/// Whether both the player's side and the other side have a combatant.
pub open spec fn both_sides_present(cs: Seq<CombatantView>) -> bool {
    side_present(cs, true) && side_present(cs, false)
}

/// The combatants without those named `id`.
pub open spec fn without_combatant(cs: Seq<CombatantView>, id: Seq<char>) -> Seq<CombatantView>
    decreases cs.len(),
{
    if cs.len() == 0 {
        cs
    } else if cs.last().id == id {
        without_combatant(cs.drop_last(), id)
    } else {
        without_combatant(cs.drop_last(), id).push(cs.last())
    }
}

impl WorldView {
    /// The damage of the weapon `weapon`: what the registered item declares,
    /// and the base damage for no weapon, an unknown one, or one that
    /// declares none.
    pub open spec fn weapon_damage(self, weapon: Option<Seq<char>>) -> u32 {
        match weapon {
            Some(id) => match self.item(id) {
                Some(item) => match item.properties.damage {
                    Some(d) => d,
                    None => BASE_DAMAGE,
                },
                None => BASE_DAMAGE,
            },
            None => BASE_DAMAGE,
        }
    }

    /// The defense of the armor that `c` wears: what the registered item
    /// declares, and zero otherwise.
    pub open spec fn armor_defense(self, c: CombatantView) -> u32 {
        match c.armor_id {
            Some(id) => match self.item(id) {
                Some(item) => match item.properties.defense {
                    Some(d) => d,
                    None => 0,
                },
                None => 0,
            },
            None => 0,
        }
    }

    /// The damage that an attack with `weapon` does to the combatant at
    /// index `t`.
    pub open spec fn attack_damage(self, t: int, weapon: Option<Seq<char>>) -> u32 {
        let target = self.combat.combatants[t];
        resolved_damage(self.weapon_damage(weapon), self.armor_defense(target), target.temp_defense)
    }

    /// The world after the combatant at index `t` is attacked with `weapon`.
    pub open spec fn attack(self, t: int, weapon: Option<Seq<char>>) -> WorldView {
        let target = self.combat.combatants[t];
        self.with_combatant_at(
            t,
            CombatantView {
                hp: hp_after_loss(target.hp, self.attack_damage(t, weapon) as int),
                ..target
            },
        )
    }

    /// The world after the combatant at index `i` defends.
    pub open spec fn defend(self, i: int) -> WorldView {
        let c = self.combat.combatants[i];
        self.with_combatant_at(
            i,
            CombatantView { temp_defense: raised_defense(c.temp_defense), ..c },
        )
    }

    /// The world after `id` tries to escape with the roll `roll`. A failed
    /// roll changes nothing. On success everybody named `id` leaves; combat
    /// ends when a side is left empty; and the turn index goes back to the
    /// first combatant should it point past the end.
    pub open spec fn flee(self, id: Seq<char>, roll: u32) -> WorldView {
        if !escapes(roll) {
            self
        } else {
            let rest = without_combatant(self.combat.combatants, id);
            let active = both_sides_present(rest);
            WorldView {
                combat: CombatView {
                    active,
                    combatants: rest,
                    current_turn_index: if active && self.combat.current_turn_index >= rest.len() {
                        0
                    } else {
                        self.combat.current_turn_index
                    },
                    ..self.combat
                },
                ..self
            }
        }
    }

    /// Why the combatant `user` cannot use `item` in combat, if it cannot.
    pub open spec fn use_in_combat_fault(self, user: Seq<char>, item: Seq<char>) -> Option<
        ToolErrorView,
    > {
        if !self.combat.active {
            Some(ToolErrorView::CombatPrecondition(CombatFaultView::NotActive))
        } else if self.combatant(user) is None {
            Some(ToolErrorView::EntityNotFound(EntityView::User))
        } else if !self.player.inventory.contains(item) {
            Some(ToolErrorView::EntityNotFound(EntityView::InventoryItem(item)))
        } else {
            match self.item(item) {
                None => Some(ToolErrorView::EntityNotFound(EntityView::Item(item))),
                Some(it) => if it.properties.usable {
                    None
                } else {
                    Some(ToolErrorView::CombatPrecondition(CombatFaultView::ItemNotUsable(item)))
                },
            }
        }
    }

    /// The world after the combatant at index `u` uses the item at index `i`:
    /// the item is used as outside combat, and the combatant is healed.
    pub open spec fn use_item_in_combat(self, u: int, i: int) -> WorldView {
        let c = self.combat.combatants[u];
        let item = self.items[i];
        let after_use = if item.spent_by_use() {
            self.remove_item_from_inventory(item.id)
        } else {
            self.with_item_at(i, item.used())
        };
        after_use.with_combatant_at(u, CombatantView { hp: hp_after_heal(c.hp, c.max_hp), ..c })
    }
}

/// Takes everybody named `id` off a list of combatants.
fn remove_combatant(v: Vec<Combatant>, id: &str) -> (r: Vec<Combatant>)
    ensures
        views(r@) == without_combatant(views(v@), id@),
{
    let ghost all = views(v@);
    let mut rest = v;
    let mut out: Vec<Combatant> = Vec::new();
    let ghost mut done: int = 0;
    proof {
        assert(all.take(0) =~= Seq::empty());
        assert(views(out@) =~= Seq::empty());
        assert(all.skip(0) =~= all);
    }
    while rest.len() > 0
        invariant
            0 <= done <= all.len(),
            views(rest@) == all.skip(done),
            views(out@) == without_combatant(all.take(done), id@),
        decreases rest.len(),
    {
        proof {
            assert(views(rest@).len() == rest@.len());
            assert(views(rest@)[0] == all[done]);
        }
        let ghost rest_before = rest@;
        let ghost out_before = views(out@);
        let c = rest.remove(0);
        proof {
            assert(views(rest@) =~= all.skip(done + 1)) by {
                assert forall|j: int| 0 <= j < rest@.len() implies views(rest@)[j] == all.skip(
                    done + 1,
                )[j] by {
                    assert(rest@[j] == rest_before[j + 1]);
                    assert(views(rest_before)[j + 1] == all.skip(done)[j + 1]);
                }
            }
            all.lemma_take_succ_push(done);
            assert(all.take(done + 1).drop_last() =~= all.take(done));
        }
        if !same_text(c.id.as_str(), id) {
            out.push(c);
            proof {
                assert(views(out@) =~= out_before.push(all[done]));
            }
        }
        proof {
            done = done + 1;
        }
    }
    proof {
        assert(all.take(done) =~= all);
    }
    out
}

/// Whether a combatant of the given side is listed.
fn has_side(v: &Vec<Combatant>, player: bool) -> (r: bool)
    ensures
        r == side_present(views(v@), player),
{
    let mut i: usize = 0;
    while i < v.len()
        invariant
            i <= v.len(),
            forall|j: int| 0 <= j < i ==> (#[trigger] views(v@)[j]).is_player != player,
        decreases v.len() - i,
    {
        if v[i].is_player == player {
            assert(views(v@)[i as int].is_player == player);
            return true;
        }
        i += 1;
    }
    false
}

impl WorldState {
    /// The damage of a weapon, by its identifier.
    fn weapon_damage(&self, weapon_id: Option<&str>) -> (r: u32)
        ensures
            r == self@.weapon_damage(
                match weapon_id {
                    Some(w) => Some(w@),
                    None => None,
                },
            ),
    {
        match weapon_id {
            Some(w) => match self.find_item(w) {
                Some(i) => match self.items[i].properties.damage {
                    Some(d) => d,
                    None => BASE_DAMAGE,
                },
                None => BASE_DAMAGE,
            },
            None => BASE_DAMAGE,
        }
    }

    /// The defense of the armor of the combatant at index `t`.
    fn armor_defense(&self, t: usize) -> (r: u32)
        requires
            t < self.combat.combatants.len(),
        ensures
            r == self@.armor_defense(self@.combat.combatants[t as int]),
    {
        match &self.combat.combatants[t].armor_id {
            Some(id) => match self.find_item(id.as_str()) {
                Some(i) => match self.items[i].properties.defense {
                    Some(d) => d,
                    None => 0,
                },
                None => 0,
            },
            None => 0,
        }
    }

    /// One combatant attacks another. The damage is the weapon's less the
    /// target's armor and temporary defense, at least 1, and comes off the
    /// target's hit points, which stop at zero. Rejected, with the world
    /// unchanged, when combat is not active or either combatant is not listed.
    pub fn attack_actor(&mut self, attacker_id: &str, target_id: &str, weapon_id: Option<&str>) -> (r:
        Result<String, ToolError>)
        ensures
            match r {
                Ok(ack) => {
                    &&& old(self)@.combat.active
                    &&& old(self)@.combatant(attacker_id@) is Some
                    &&& old(self)@.combatant(target_id@) matches Some(t)
                    &&& final(self)@ == old(self)@.attack(
                        t,
                        match weapon_id {
                            Some(w) => Some(w@),
                            None => None,
                        },
                    )
                    &&& ack@ == attacker_id@ + " attacked "@ + target_id@ + " for "@ + decimal(
                        old(self)@.attack_damage(
                            t,
                            match weapon_id {
                                Some(w) => Some(w@),
                                None => None,
                            },
                        ) as int,
                    ) + " damage"@
                },
                Err(e) => {
                    &&& final(self)@ == old(self)@
                    &&& e@ == (if !old(self)@.combat.active {
                        ToolErrorView::CombatPrecondition(CombatFaultView::NotActive)
                    } else if old(self)@.combatant(attacker_id@) is None {
                        ToolErrorView::EntityNotFound(EntityView::Attacker)
                    } else {
                        ToolErrorView::EntityNotFound(EntityView::Target)
                    })
                    &&& !old(self)@.combat.active || old(self)@.combatant(attacker_id@) is None
                        || old(self)@.combatant(target_id@) is None
                },
            },
    {
        if !self.combat.active {
            return Err(ToolError::CombatPrecondition(CombatFault::NotActive));
        }
        if self.find_combatant(attacker_id).is_none() {
            return Err(ToolError::EntityNotFound(Entity::Attacker));
        }
        let t = match self.find_combatant(target_id) {
            Some(t) => t,
            None => {
                return Err(ToolError::EntityNotFound(Entity::Target));
            },
        };
        let weapon: u64 = self.weapon_damage(weapon_id) as u64;
        let armor: u64 = self.armor_defense(t) as u64;
        let temp: u64 = self.combat.combatants[t].temp_defense as u64;
        let defense: u64 = armor + temp;
        let damage: u32 = if weapon > defense {
            (weapon - defense) as u32
        } else {
            1
        };
        let hp: u32 = self.combat.combatants[t].hp;
        self.combat.combatants[t].hp = hp.saturating_sub(damage);
        proof {
            assert(self@.combat.combatants =~= old(self)@.attack(
                t as int,
                match weapon_id {
                    Some(w) => Some(w@),
                    None => None,
                },
            ).combat.combatants);
        }
        let amount = decimal_string(damage as i128);
        let mut ack = join3(attacker_id, " attacked ", target_id);
        ack.append(" for ");
        ack.append(amount.as_str());
        ack.append(" damage");
        Ok(ack)
    }

    /// A combatant defends: its temporary defense rises by the defend bonus.
    /// Rejected, with the world unchanged, when combat is not active or the
    /// combatant is not listed.
    pub fn defend(&mut self, actor_id: &str) -> (r: Result<String, ToolError>)
        ensures
            match r {
                Ok(ack) => {
                    &&& old(self)@.combat.active
                    &&& old(self)@.combatant(actor_id@) matches Some(i)
                    &&& final(self)@ == old(self)@.defend(i)
                    &&& ack@ == actor_id@ + " is defending (+5 temp defense)"@
                },
                Err(e) => {
                    &&& final(self)@ == old(self)@
                    &&& e@ == (if !old(self)@.combat.active {
                        ToolErrorView::CombatPrecondition(CombatFaultView::NotActive)
                    } else {
                        ToolErrorView::EntityNotFound(EntityView::Actor)
                    })
                    &&& !old(self)@.combat.active || old(self)@.combatant(actor_id@) is None
                },
            },
    {
        if !self.combat.active {
            return Err(ToolError::CombatPrecondition(CombatFault::NotActive));
        }
        let i = match self.find_combatant(actor_id) {
            Some(i) => i,
            None => {
                return Err(ToolError::EntityNotFound(Entity::Actor));
            },
        };
        let temp: u32 = self.combat.combatants[i].temp_defense;
        self.combat.combatants[i].temp_defense = temp.saturating_add(DEFEND_BONUS);
        proof {
            assert(self@.combat.combatants =~= old(self)@.defend(i as int).combat.combatants);
        }
        Ok(join2(actor_id, " is defending (+5 temp defense)"))
    }

    /// A combatant tries to escape, with the given raw roll. Rejected, with
    /// the world unchanged, when combat is not active.
    pub fn flee_with_roll(&mut self, actor_id: &str, roll: u32) -> (r: Result<String, ToolError>)
        ensures
            match r {
                Ok(ack) => {
                    &&& old(self)@.combat.active
                    &&& final(self)@ == old(self)@.flee(actor_id@, roll)
                    &&& ack@ == (if escapes(roll) {
                        actor_id@ + " fled successfully!"@
                    } else {
                        actor_id@ + " failed to flee"@
                    })
                },
                Err(e) => {
                    &&& !old(self)@.combat.active
                    &&& e@ == ToolErrorView::CombatPrecondition(CombatFaultView::NotActive)
                    &&& final(self)@ == old(self)@
                },
            },
    {
        if !self.combat.active {
            return Err(ToolError::CombatPrecondition(CombatFault::NotActive));
        }
        if roll % FLEE_SIDES >= FLEE_THRESHOLD {
            let mut listed: Vec<Combatant> = Vec::new();
            core::mem::swap(&mut self.combat.combatants, &mut listed);
            let rest = remove_combatant(listed, actor_id);
            let active = has_side(&rest, true) && has_side(&rest, false);
            if active && self.combat.current_turn_index >= rest.len() {
                self.combat.current_turn_index = 0;
            }
            self.combat.active = active;
            self.combat.combatants = rest;
            Ok(join2(actor_id, " fled successfully!"))
        } else {
            Ok(join2(actor_id, " failed to flee"))
        }
    }

    /// A combatant uses an item of the player's inventory. The item is used
    /// as outside combat, and the combatant regains hit points up to its
    /// maximum. Rejected, with the world unchanged, when combat is not active,
    /// the combatant is not listed, or the item is not in the inventory, not
    /// registered or not usable.
    pub fn use_item_in_combat(&mut self, user_id: &str, item_id: &str) -> (r: Result<
        String,
        ToolError,
    >)
        ensures
            match r {
                Ok(ack) => {
                    &&& old(self)@.use_in_combat_fault(user_id@, item_id@) is None
                    &&& old(self)@.combatant(user_id@) matches Some(u)
                    &&& position(old(self)@.items, item_id@) matches Some(i)
                    &&& final(self)@ == old(self)@.use_item_in_combat(u, i)
                    &&& ack@ == user_id@ + " used "@ + item_id@ + " and healed for 20"@
                },
                Err(e) => {
                    &&& old(self)@.use_in_combat_fault(user_id@, item_id@) == Some(e@)
                    &&& final(self)@ == old(self)@
                },
            },
    {
        if !self.combat.active {
            return Err(ToolError::CombatPrecondition(CombatFault::NotActive));
        }
        let u = match self.find_combatant(user_id) {
            Some(u) => u,
            None => {
                return Err(ToolError::EntityNotFound(Entity::User));
            },
        };
        if !contains_text(&self.player.inventory, item_id) {
            return Err(ToolError::EntityNotFound(Entity::InventoryItem(owned(item_id))));
        }
        let i = match self.find_item(item_id) {
            Some(i) => i,
            None => {
                return Err(ToolError::EntityNotFound(Entity::Item(owned(item_id))));
            },
        };
        if !self.items[i].properties.usable {
            return Err(ToolError::CombatPrecondition(CombatFault::ItemNotUsable(owned(item_id))));
        }
        proof {
            crate::keyed::lemma_position(self@.items, item_id@);
            assert(self@.items[i as int].id == item_id@);
        }
        match self.items[i].state {
            ItemState::Consumed { charges, max_charges } => {
                if charges > 1 {
                    self.items[i].state = ItemState::Consumed { charges: charges - 1, max_charges };
                    proof {
                        assert(self@.items =~= old(self)@.items.update(
                            i as int,
                            old(self)@.items[i as int].used(),
                        ));
                    }
                } else {
                    remove_text(&mut self.player.inventory, item_id);
                }
            },
            _ => {
                proof {
                    assert(old(self)@.items.update(i as int, old(self)@.items[i as int])
                        =~= old(self)@.items);
                }
            },
        }
        let hp: u32 = self.combat.combatants[u].hp;
        let max_hp: u32 = self.combat.combatants[u].max_hp;
        let healed: u32 = if hp <= max_hp && max_hp - hp >= HEAL_AMOUNT {
            hp + HEAL_AMOUNT
        } else {
            max_hp
        };
        self.combat.combatants[u].hp = healed;
        proof {
            assert(self@.combat.combatants =~= old(self)@.use_item_in_combat(
                u as int,
                i as int,
            ).combat.combatants);
        }
        let mut ack = join3(user_id, " used ", item_id);
        ack.append(" and healed for 20");
        Ok(ack)
    }
}

// ---------------------------------------------------------------------------
// Ending a turn
// ---------------------------------------------------------------------------
/// Whether a combatant carries a stun.
pub open spec fn is_stunned(c: CombatantView) -> bool {
    exists|k: int|
        0 <= k < c.status_effects.len() && (#[trigger] c.status_effects[k]).effect_type
            == StatusType::Stunned
}

/// A combatant at rest: its temporary defense is gone.
pub open spec fn rested(c: CombatantView) -> CombatantView {
    CombatantView { temp_defense: 0, ..c }
}

/// Everybody at rest.
pub open spec fn all_rested(cs: Seq<CombatantView>) -> Seq<CombatantView> {
    cs.map_values(|c: CombatantView| rested(c))
}

/// An effect after its bearer was passed over: a stun lasts one round less,
/// down to zero; other effects are untouched.
pub open spec fn stun_worn(e: StatusEffect) -> StatusEffect {
    if e.effect_type == StatusType::Stunned && e.duration > 0 {
        StatusEffect { duration: (e.duration - 1) as u32, ..e }
    } else {
        e
    }
}

/// A stunned combatant after the turn passed it over.
pub open spec fn passed_over(c: CombatantView) -> CombatantView {
    CombatantView {
        status_effects: c.status_effects.map_values(|e: StatusEffect| stun_worn(e)),
        ..c
    }
}

/// The first index from `from` on whose combatant is not stunned, or the
/// length of the list where everybody from `from` on is.
pub open spec fn next_ready(cs: Seq<CombatantView>, from: int) -> int
    decreases cs.len() - from,
{
    if 0 <= from < cs.len() && is_stunned(cs[from]) {
        next_ready(cs, from + 1)
    } else {
        from
    }
}

/// The list after the turn passed over the combatants from `from` up to,
/// not including, `to`.
pub open spec fn pass_over(cs: Seq<CombatantView>, from: int, to: int) -> Seq<CombatantView> {
    Seq::new(
        cs.len(),
        |i: int|
            if from <= i < to {
                passed_over(cs[i])
            } else {
                cs[i]
            },
    )
}

/// Whether an effect deals damage when a round ends.
pub open spec fn burns(e: StatusEffect) -> bool {
    e.effect_type == StatusType::Poison || e.effect_type == StatusType::Burning
}

/// The damage that a list of effects deals when a round ends.
pub open spec fn burn_total(effects: Seq<StatusEffect>) -> int
    decreases effects.len(),
{
    if effects.len() == 0 {
        0
    } else {
        burn_total(effects.drop_last()) + if burns(effects.last()) {
            effects.last().severity as int
        } else {
            0
        }
    }
}

/// An effect one round later.
pub open spec fn aged(e: StatusEffect) -> StatusEffect {
    StatusEffect { duration: (e.duration - 1) as u32, ..e }
}

/// The effects that outlast the end of a round, each one round older.
pub open spec fn aged_effects(effects: Seq<StatusEffect>) -> Seq<StatusEffect> {
    effects.filter(|e: StatusEffect| e.duration > 1).map_values(|e: StatusEffect| aged(e))
}

/// A combatant after the end of a round: its damaging effects took their
/// toll, and its effects aged or ran out.
pub open spec fn after_round(c: CombatantView) -> CombatantView {
    CombatantView {
        hp: hp_after_loss(c.hp, burn_total(c.status_effects)),
        status_effects: aged_effects(c.status_effects),
        ..c
    }
}

/// The combatants that are left when a round has ended: everybody after the
/// round, without those whose hit points are gone.
pub open spec fn survivors(cs: Seq<CombatantView>) -> Seq<CombatantView> {
    cs.map_values(|c: CombatantView| after_round(c)).filter(|c: CombatantView| c.hp > 0)
}

/// The round counter one round later.
pub open spec fn next_round(round: u32) -> u32 {
    if round < u32::MAX {
        (round + 1) as u32
    } else {
        round
    }
}

impl CombatView {
    /// Why `actor` cannot end the turn, if it cannot: combat is not active, or
    /// the turn is not the actor's.
    pub open spec fn end_turn_fault(self, actor: Seq<char>) -> Option<ToolErrorView> {
        if !self.active {
            Some(ToolErrorView::CombatPrecondition(CombatFaultView::NotActive))
        } else if !(self.current_turn_index < self.combatants.len()
            && self.combatants[self.current_turn_index as int].id == actor) {
            Some(ToolErrorView::CombatPrecondition(CombatFaultView::NotYourTurn(actor)))
        } else {
            None
        }
    }

    /// The index to which the turn moves within the round, or the length of
    /// the list where the round is over.
    pub open spec fn turn_after(self) -> int {
        next_ready(all_rested(self.combatants), (self.current_turn_index + 1) as int)
    }

    /// Whether ending the turn ends the round.
    pub open spec fn round_ends(self) -> bool {
        self.turn_after() >= self.combatants.len()
    }

    /// The combatants after the turn moved on within the round: everybody at
    /// rest, the stunned ones that were passed over one step nearer to waking.
    pub open spec fn moved_on(self) -> Seq<CombatantView> {
        pass_over(
            all_rested(self.combatants),
            (self.current_turn_index + 1) as int,
            self.turn_after(),
        )
    }

    /// Combat after the current turn ended. Within the round the turn moves to
    /// the next combatant that is not stunned. At the end of the round the
    /// counter goes up, effects take their toll and age, the fallen leave, and
    /// either combat ends, a side being empty, or the turn goes to the first
    /// combatant that is not stunned (to the first of all where all are).
    pub open spec fn end_turn(self) -> CombatView {
        if !self.round_ends() {
            CombatView {
                combatants: self.moved_on(),
                current_turn_index: self.turn_after() as nat,
                ..self
            }
        } else {
            let left = survivors(self.moved_on());
            if both_sides_present(left) {
                CombatView {
                    active: true,
                    combatants: left,
                    current_turn_index: if next_ready(left, 0) < left.len() {
                        next_ready(left, 0) as nat
                    } else {
                        0
                    },
                    round_number: next_round(self.round_number),
                }
            } else {
                CombatView {
                    active: false,
                    combatants: left,
                    current_turn_index: self.current_turn_index,
                    round_number: next_round(self.round_number),
                }
            }
        }
    }
}

/// `next_ready` stays within the list and lands on a combatant that is not
/// stunned, having passed only stunned ones.
pub proof fn lemma_next_ready(cs: Seq<CombatantView>, from: int)
    requires
        0 <= from <= cs.len(),
    ensures
        from <= next_ready(cs, from) <= cs.len(),
        next_ready(cs, from) < cs.len() ==> !is_stunned(cs[next_ready(cs, from)]),
        forall|i: int| from <= i < next_ready(cs, from) ==> is_stunned(#[trigger] cs[i]),
    decreases cs.len() - from,
{
    if from < cs.len() && is_stunned(cs[from]) {
        lemma_next_ready(cs, from + 1);
    }
}

/// Effects never heal: their damage is not negative.
pub proof fn lemma_burn_total_bounds(effects: Seq<StatusEffect>)
    ensures
        burn_total(effects) >= 0,
    decreases effects.len(),
{
    if effects.len() > 0 {
        lemma_burn_total_bounds(effects.drop_last());
    }
}

/// Whether a list of effects holds a stun.
fn has_stun(effects: &Vec<StatusEffect>) -> (r: bool)
    ensures
        r == exists|k: int|
            0 <= k < effects.len() && (#[trigger] effects@[k]).effect_type == StatusType::Stunned,
{
    let mut k: usize = 0;
    while k < effects.len()
        invariant
            k <= effects.len(),
            forall|j: int| 0 <= j < k ==> (#[trigger] effects@[j]).effect_type != StatusType::Stunned,
        decreases effects.len() - k,
    {
        if effects[k].effect_type == StatusType::Stunned {
            return true;
        }
        k += 1;
    }
    false
}

/// Takes the temporary defense off everybody.
fn clear_defense(v: &mut Vec<Combatant>)
    ensures
        views(final(v)@) == all_rested(views(old(v)@)),
{
    let mut i: usize = 0;
    while i < v.len()
        invariant
            i <= v.len(),
            v.len() == old(v).len(),
            forall|j: int| 0 <= j < i ==> (#[trigger] v@[j])@ == rested(old(v)@[j]@),
            forall|j: int| i <= j < v.len() ==> (#[trigger] v@[j]) == old(v)@[j],
        decreases v.len() - i,
    {
        v[i].temp_defense = 0;
        i += 1;
    }
    proof {
        assert(views(v@) =~= all_rested(views(old(v)@)));
    }
}

/// Lets every stun in the list last one round less, down to zero.
fn wear_stuns(effects: &mut Vec<StatusEffect>)
    ensures
        final(effects)@ == old(effects)@.map_values(|e: StatusEffect| stun_worn(e)),
{
    let mut k: usize = 0;
    while k < effects.len()
        invariant
            k <= effects.len(),
            effects.len() == old(effects).len(),
            forall|j: int| 0 <= j < k ==> (#[trigger] effects@[j]) == stun_worn(old(effects)@[j]),
            forall|j: int| k <= j < effects.len() ==> (#[trigger] effects@[j]) == old(effects)@[j],
        decreases effects.len() - k,
    {
        let e = effects[k];
        if e.effect_type == StatusType::Stunned && e.duration > 0 {
            effects[k].duration = e.duration - 1;
        }
        k += 1;
    }
    proof {
        assert(effects@ =~= old(effects)@.map_values(|e: StatusEffect| stun_worn(e)));
    }
}

/// Moves the turn from `from` to the next combatant that is not stunned,
/// wearing the stuns of those it passes. Returns where the turn lands: the
/// length of the list where nobody from `from` on is ready.
fn skip_stunned(v: &mut Vec<Combatant>, from: usize) -> (next: usize)
    requires
        from <= old(v).len(),
    ensures
        next == next_ready(views(old(v)@), from as int),
        from <= next <= old(v).len(),
        views(final(v)@) == pass_over(views(old(v)@), from as int, next as int),
{
    let ghost before = views(v@);
    let mut next: usize = from;
    proof {
        assert(views(v@) =~= pass_over(before, from as int, from as int));
    }
    while next < v.len() && has_stun(&v[next].status_effects)
        invariant
            from <= next <= v.len(),
            v.len() == before.len(),
            before == views(old(v)@),
            next_ready(before, from as int) == next_ready(before, next as int),
            views(v@) == pass_over(before, from as int, next as int),
        decreases v.len() - next,
    {
        proof {
            assert(views(v@)[next as int] == before[next as int]);
            assert(is_stunned(before[next as int]));
        }
        let ghost prev = views(v@);
        wear_stuns(&mut v[next].status_effects);
        proof {
            assert(views(v@) =~= pass_over(before, from as int, next + 1)) by {
                assert forall|j: int| 0 <= j < v@.len() implies views(v@)[j] == pass_over(
                    before,
                    from as int,
                    next + 1,
                )[j] by {
                    if j != next {
                        assert(views(v@)[j] == prev[j]);
                    }
                }
            }
        }
        next += 1;
    }
    proof {
        if next < v.len() {
            assert(views(v@)[next as int] == before[next as int]);
            assert(!is_stunned(before[next as int]));
        }
    }
    next
}

/// The first combatant that is not stunned, or the length of the list.
fn first_ready(v: &Vec<Combatant>) -> (next: usize)
    ensures
        next == next_ready(views(v@), 0),
        next <= v.len(),
{
    let mut next: usize = 0;
    while next < v.len() && has_stun(&v[next].status_effects)
        invariant
            next <= v.len(),
            next_ready(views(v@), 0) == next_ready(views(v@), next as int),
        decreases v.len() - next,
    {
        proof {
            assert(is_stunned(views(v@)[next as int]));
        }
        next += 1;
    }
    proof {
        if next < v.len() {
            assert(!is_stunned(views(v@)[next as int]));
        }
    }
    next
}

/// Applies the end of a round to one combatant.
fn end_round_for(c: &mut Combatant)
    ensures
        final(c)@ == after_round(old(c)@),
{
    let ghost effects = c.status_effects@;
    let ghost lasting = |e: StatusEffect| e.duration > 1;
    let ghost age = |e: StatusEffect| aged(e);
    let mut hp: u32 = c.hp;
    let mut kept: Vec<StatusEffect> = Vec::new();
    let mut k: usize = 0;
    proof {
        assert(effects.take(0) =~= Seq::empty());
        reveal(Seq::filter);
        assert(kept@ =~= effects.take(0).filter(lasting).map_values(age));
    }
    while k < c.status_effects.len()
        invariant
            k <= c.status_effects.len(),
            *c == *old(c),
            effects == c.status_effects@,
            lasting == (|e: StatusEffect| e.duration > 1),
            age == (|e: StatusEffect| aged(e)),
            hp == hp_after_loss(c.hp, burn_total(effects.take(k as int))),
            kept@ == effects.take(k as int).filter(lasting).map_values(age),
        decreases c.status_effects.len() - k,
    {
        let e = c.status_effects[k];
        proof {
            effects.lemma_take_succ_push(k as int);
            assert(effects.take(k + 1).drop_last() =~= effects.take(k as int));
            assert(effects.take(k + 1).last() == e);
            lemma_burn_total_bounds(effects.take(k as int));
            effects.take(k as int).lemma_filter_push(e, lasting);
        }
        if e.effect_type == StatusType::Poison || e.effect_type == StatusType::Burning {
            hp = hp.saturating_sub(e.severity);
        }
        if e.duration > 1 {
            let ghost prior = kept@;
            kept.push(StatusEffect { effect_type: e.effect_type, duration: e.duration - 1, severity: e.severity });
            proof {
                assert(kept@ =~= effects.take(k as int).filter(lasting).push(e).map_values(age));
            }
        }
        k += 1;
    }
    proof {
        assert(effects.take(k as int) =~= effects);
    }
    c.hp = hp;
    c.status_effects = kept;
}

/// Applies the end of a round to everybody and lets the fallen go.
fn end_round(v: Vec<Combatant>) -> (r: Vec<Combatant>)
    ensures
        views(r@) == survivors(views(v@)),
{
    let ghost all = views(v@);
    let ghost later = all.map_values(|c: CombatantView| after_round(c));
    let ghost alive = |c: CombatantView| c.hp > 0;
    let mut rest = v;
    let mut out: Vec<Combatant> = Vec::new();
    let ghost mut done: int = 0;
    proof {
        assert(later.take(0) =~= Seq::empty());
        assert(views(out@) =~= Seq::empty());
        assert(all.skip(0) =~= all);
        reveal(Seq::filter);
    }
    while rest.len() > 0
        invariant
            0 <= done <= all.len(),
            later == all.map_values(|c: CombatantView| after_round(c)),
            alive == (|c: CombatantView| c.hp > 0),
            views(rest@) == all.skip(done),
            views(out@) == later.take(done).filter(alive),
        decreases rest.len(),
    {
        proof {
            assert(views(rest@).len() == rest@.len());
            assert(views(rest@)[0] == all[done]);
        }
        let ghost rest_before = rest@;
        let ghost out_before = views(out@);
        let mut c = rest.remove(0);
        proof {
            assert(views(rest@) =~= all.skip(done + 1)) by {
                assert forall|j: int| 0 <= j < rest@.len() implies views(rest@)[j] == all.skip(
                    done + 1,
                )[j] by {
                    assert(rest@[j] == rest_before[j + 1]);
                    assert(views(rest_before)[j + 1] == all.skip(done)[j + 1]);
                }
            }
            later.lemma_take_succ_push(done);
            later.take(done).lemma_filter_push(later[done], alive);
        }
        end_round_for(&mut c);
        if c.hp > 0 {
            out.push(c);
            proof {
                assert(views(out@) =~= out_before.push(later[done]));
            }
        }
        proof {
            done = done + 1;
        }
    }
    proof {
        assert(later.take(done) =~= later);
    }
    out
}

/// What is reported when a turn has ended: who is next, or that combat is
/// over.
pub open spec fn turn_report(combat: CombatView) -> Seq<char> {
    if combat.active {
        "Turn ended. Next: "@ + combat.combatants[combat.current_turn_index as int].id
    } else {
        "Combat ended"@
    }
}

impl WorldState {
    /// Ends the turn of `actor_id`. Rejected, with the world unchanged, when
    /// combat is not active or the turn is not the actor's. Otherwise combat
    /// goes on as `CombatView::end_turn` says, and nothing else changes.
    pub fn end_turn(&mut self, actor_id: &str) -> (r: Result<String, ToolError>)
        ensures
            match r {
                Ok(ack) => {
                    &&& old(self)@.combat.end_turn_fault(actor_id@) is None
                    &&& final(self)@ == (WorldView {
                        combat: old(self)@.combat.end_turn(),
                        ..old(self)@
                    })
                    &&& ack@ == turn_report(final(self)@.combat)
                },
                Err(e) => {
                    &&& old(self)@.combat.end_turn_fault(actor_id@) == Some(e@)
                    &&& final(self)@ == old(self)@
                },
            },
    {
        if !self.combat.active {
            return Err(ToolError::CombatPrecondition(CombatFault::NotActive));
        }
        let current = self.combat.current_turn_index;
        if current >= self.combat.combatants.len() || !same_text(
            self.combat.combatants[current].id.as_str(),
            actor_id,
        ) {
            return Err(ToolError::CombatPrecondition(CombatFault::NotYourTurn(owned(actor_id))));
        }
        clear_defense(&mut self.combat.combatants);
        proof {
            assert(views(self.combat.combatants@).len() == all_rested(
                old(self)@.combat.combatants,
            ).len());
        }
        let mut next = skip_stunned(&mut self.combat.combatants, current + 1);
        if next >= self.combat.combatants.len() {
            self.combat.round_number = self.combat.round_number.saturating_add(1);
            let mut listed: Vec<Combatant> = Vec::new();
            core::mem::swap(&mut self.combat.combatants, &mut listed);
            let left = end_round(listed);
            if !(has_side(&left, true) && has_side(&left, false)) {
                self.combat.combatants = left;
                self.combat.active = false;
                return Ok(owned("Combat ended"));
            }
            next = first_ready(&left);
            if next >= left.len() {
                next = 0;
            }
            self.combat.combatants = left;
        }
        self.combat.current_turn_index = next;
        proof {
            lemma_next_ready(all_rested(old(self)@.combat.combatants), current + 1);
        }
        Ok(join2("Turn ended. Next: ", self.combat.combatants[next].id.as_str()))
    }
}

} // verus!
