//! The mathematical picture of a combatant and the rules by which it changes.
//!
//! Everything here is specification: the executable combatant in
//! [`crate::model::creature`] is held to these functions by its contracts,
//! and the laws at the end of the file are proved of them.

use crate::model::creature::{ChallengeRating, DamageOutcome};
use crate::model::dice::{initiative_of, INITIATIVE_DIE};
use crate::model::stats::{modifier, Stats};
use crate::model::status::{
    lemma_with_status_idempotent, lemma_with_status_keeps_distinct, lemma_without_status_absent,
    occurrences, with_status, without_status, Status,
};
use vstd::prelude::*;

verus! {

/// What sets a player apart from a monster.
pub enum CreatureKind {
    /// A player character of the given level.
    Player { level: u8 },
    /// A monster of the given challenge rating.
    Monster { cr: ChallengeRating },
}

/// Where a combatant stands between life and death.
pub enum Vitality {
    /// Hit points are left.
    Alive,
    /// No hit points are left, but the combatant is not dead. Healing or a
    /// heavy hit ends this state.
    Downed,
    /// The combatant is dead. Only healing ends this state.
    Dead,
}

/// The record that every kind of combatant shares, as plain mathematics.
pub struct PropertiesModel {
    pub name: Seq<char>,
    pub hp: nat,
    pub max_hp: nat,
    pub ac: nat,
    pub is_dead: bool,
    /// The active conditions, oldest first.
    pub statuses: Seq<Status>,
    /// The initiative, absent until it is rolled or set.
    pub initiative: Option<nat>,
    pub stats: Stats,
}

/// A combatant as plain mathematics: its kind and the shared record.
pub struct CreatureModel {
    pub kind: CreatureKind,
    pub props: PropertiesModel,
}

impl PropertiesModel {
    /// What holds of every combatant that was made by a constructor and
    /// changed by the operations of this crate only: the hit points do not
    /// exceed their maximum, a dead combatant has no hit points left, and no
    /// condition is listed twice.
    pub open spec fn wf(self) -> bool {
        &&& self.hp <= self.max_hp
        &&& self.is_dead ==> self.hp == 0
        &&& self.statuses.no_duplicates()
    }

    /// Where the combatant stands between life and death. A combatant for
    /// which [`PropertiesModel::wf`] holds is dead only without hit points, so
    /// that the three states cover it.
    pub open spec fn vitality(self) -> Vitality {
        if self.is_dead {
            Vitality::Dead
        } else if self.hp == 0 {
            Vitality::Downed
        } else {
            Vitality::Alive
        }
    }

    /// A new combatant: it starts with `current_hp` hit points, or with
    /// `max_hp` where `current_hp` is more than that; it is dead exactly if
    /// it starts with none; it has no conditions and no initiative yet.
    pub open spec fn initial(
        name: Seq<char>,
        current_hp: nat,
        max_hp: nat,
        ac: nat,
        stats: Stats,
    ) -> PropertiesModel {
        let hp = if current_hp <= max_hp {
            current_hp
        } else {
            max_hp
        };
        PropertiesModel {
            name,
            hp,
            max_hp,
            ac,
            is_dead: hp == 0,
            statuses: Seq::empty(),
            initiative: None,
            stats,
        }
    }

    /// The combatant after `amount` hit points are given back: the hit points
    /// rise by `amount` but not above the maximum, and any healing at all
    /// brings a combatant without hit points back from death.
    pub open spec fn healed(self, amount: nat) -> PropertiesModel {
        PropertiesModel {
            hp: if self.hp + amount < self.max_hp {
                self.hp + amount
            } else {
                self.max_hp
            },
            is_dead: self.is_dead && !(self.hp == 0 && amount > 0),
            ..self
        }
    }

    /// How a hit of `amount` ends. With `delta` the hit points less `amount`:
    /// the combatant survives where `delta` is positive, dies where `delta`
    /// is at or below the maximum hit points taken negative, and goes down
    /// in between.
    pub open spec fn damage_outcome(self, amount: nat) -> DamageOutcome {
        let delta = self.hp - amount;
        if delta > 0 {
            DamageOutcome::Survived
        } else if delta <= -self.max_hp {
            DamageOutcome::Died
        } else {
            DamageOutcome::Downed
        }
    }

    /// The combatant after a hit of `amount`: the hit points fall by `amount`
    /// but not below zero, and the combatant is dead afterwards if it was
    /// before or the hit kills it.
    pub open spec fn damaged(self, amount: nat) -> PropertiesModel {
        PropertiesModel {
            hp: if self.hp > amount {
                (self.hp - amount) as nat
            } else {
                0
            },
            is_dead: self.is_dead || self.damage_outcome(amount) == DamageOutcome::Died,
            ..self
        }
    }

    /// The combatant with `status` among its conditions: added at the end,
    /// unless it is there already.
    pub open spec fn afflicted(self, status: Status) -> PropertiesModel {
        PropertiesModel { statuses: with_status(self.statuses, status), ..self }
    }

    /// The combatant without the first of its conditions that equals
    /// `status`.
    pub open spec fn relieved(self, status: Status) -> PropertiesModel {
        PropertiesModel { statuses: without_status(self.statuses, status), ..self }
    }

    /// The combatant without any condition.
    pub open spec fn cleansed(self) -> PropertiesModel {
        PropertiesModel { statuses: Seq::empty(), ..self }
    }

    /// The combatant's dexterity modifier, which is added to every
    /// initiative roll.
    pub open spec fn initiative_bonus(self) -> int {
        modifier(self.stats.dexterity as int)
    }

    /// The initiative that the combatant gets when the die shows `die`: the
    /// die and the dexterity modifier together, but not less than 0.
    pub open spec fn initiative_roll(self, die: int) -> nat {
        initiative_of(die + self.initiative_bonus())
    }

    /// The combatant with the initiative `value`, whatever it had before.
    pub open spec fn with_initiative(self, value: nat) -> PropertiesModel {
        PropertiesModel { initiative: Some(value), ..self }
    }

    /// The combatant without an initiative.
    pub open spec fn without_initiative(self) -> PropertiesModel {
        PropertiesModel { initiative: None, ..self }
    }

    /// The combatant after its initiative is rolled and the die shows `die`.
    pub open spec fn rolled(self, die: int) -> PropertiesModel {
        self.with_initiative(self.initiative_roll(die))
    }

    /// The initiative that is read off the combatant: the stored one, or,
    /// where none is stored, the one that a roll showing `die` gives.
    pub open spec fn initiative_read(self, die: int) -> nat {
        match self.initiative {
            Some(value) => value,
            None => self.initiative_roll(die),
        }
    }

    /// The combatant after its initiative is read: unchanged where one is
    /// stored, else rolled with the die showing `die`.
    pub open spec fn after_initiative_read(self, die: int) -> PropertiesModel {
        match self.initiative {
            Some(_) => self,
            None => self.rolled(die),
        }
    }

    /// Whether `other` differs from `self` at most in the parts that change
    /// in play: the name, the maximum hit points, the armor class and the
    /// ability scores are the same.
    pub open spec fn same_sheet(self, other: PropertiesModel) -> bool {
        &&& other.name == self.name
        &&& other.max_hp == self.max_hp
        &&& other.ac == self.ac
        &&& other.stats == self.stats
    }
}

/// Whether `die` is a face of the initiative die.
pub open spec fn is_die_face(die: int) -> bool {
    1 <= die <= INITIATIVE_DIE as int
}

/// No healing lifts the hit points above their maximum, and none lowers
/// hit points that were within it.
pub proof fn lemma_heal_stays_within_maximum(before: PropertiesModel, amount: nat)
    ensures
        before.healed(amount).hp <= before.max_hp,
        before.hp <= before.max_hp ==> before.hp <= before.healed(amount).hp,
        before.hp + amount <= before.max_hp ==> before.healed(amount).hp == before.hp + amount,
{
}

/// Healing a combatant that has no hit points by any positive amount leaves
/// it not dead.
pub proof fn lemma_heal_revives(before: PropertiesModel, amount: nat)
    requires
        before.hp == 0,
        amount > 0,
    ensures
        !before.healed(amount).is_dead,
{
}

/// A hit of less than the hit points is survived, takes exactly its amount
/// away and leaves the death flag as it was.
pub proof fn lemma_damage_below_hit_points(before: PropertiesModel, amount: nat)
    requires
        amount < before.hp,
    ensures
        before.damage_outcome(amount) == DamageOutcome::Survived,
        before.damaged(amount).hp == before.hp - amount,
        before.damaged(amount).is_dead == before.is_dead,
{
}

/// A hit that takes a combatant that is not dead to zero or below, but not
/// as far below zero as its maximum hit points, downs it: no hit points are
/// left and it is not dead.
pub proof fn lemma_damage_downs(before: PropertiesModel, amount: nat)
    requires
        !before.is_dead,
        -before.max_hp < before.hp - amount <= 0,
    ensures
        before.damage_outcome(amount) == DamageOutcome::Downed,
        before.damaged(amount).hp == 0,
        !before.damaged(amount).is_dead,
{
}

/// A hit that would take a combatant as far below zero as its maximum hit
/// points, or further, kills it: no hit points are left and it is dead.
pub proof fn lemma_damage_kills(before: PropertiesModel, amount: nat)
    requires
        before.hp - amount <= -before.max_hp,
    ensures
        before.damage_outcome(amount) == DamageOutcome::Died,
        before.damaged(amount).hp == 0,
        before.damaged(amount).is_dead,
{
}

/// Death is final under damage: a dead combatant without hit points stays
/// dead and without hit points whatever hits follow, one after another. Only
/// healing ends it, see [`lemma_heal_revives`].
pub proof fn lemma_dead_stays_dead_under_damage(before: PropertiesModel, amount: nat)
    requires
        before.is_dead,
        before.hp == 0,
    ensures
        before.damaged(amount).is_dead,
        before.damaged(amount).hp == 0,
{
}

/// The outcome of a hit names the state it leaves a combatant in that was
/// not dead before: a survivor is alive, one that went down is down, one
/// that died is dead. A combatant that was dead stays dead, whatever the
/// outcome says.
pub proof fn lemma_damage_outcome_names_the_state(before: PropertiesModel, amount: nat)
    requires
        before.wf(),
    ensures
        before.vitality() is Dead ==> before.damaged(amount).vitality() is Dead,
        !(before.vitality() is Dead) ==> match before.damage_outcome(amount) {
            DamageOutcome::Survived => before.damaged(amount).vitality() is Alive,
            DamageOutcome::Downed => before.damaged(amount).vitality() is Downed,
            DamageOutcome::Died => before.damaged(amount).vitality() is Dead,
        },
{
}

/// Healing never kills, and healing by a positive amount leaves a combatant
/// that can have hit points at all alive, whatever state it was in.
pub proof fn lemma_heal_raises_the_state(before: PropertiesModel, amount: nat)
    requires
        before.wf(),
    ensures
        !(before.vitality() is Dead) ==> !(before.healed(amount).vitality() is Dead),
        amount > 0 && before.max_hp > 0 ==> before.healed(amount).vitality() is Alive,
        amount == 0 ==> before.healed(amount) == before,
{
}

/// Adding a condition twice is the same as adding it once, and a combatant
/// that listed no condition twice before then lists the added one exactly
/// once.
pub proof fn lemma_afflicted_twice(before: PropertiesModel, status: Status)
    ensures
        before.afflicted(status).afflicted(status) == before.afflicted(status),
        before.afflicted(status).statuses.contains(status),
        before.statuses.no_duplicates()
            ==> occurrences(before.afflicted(status).afflicted(status).statuses, status) == 1,
{
    lemma_with_status_idempotent(before.statuses, status);
    if before.statuses.no_duplicates() {
        lemma_with_status_keeps_distinct(before.statuses, status);
    }
}

/// A combatant that listed no condition twice does not have a condition
/// after it was removed.
pub proof fn lemma_relieved_is_free(before: PropertiesModel, status: Status)
    requires
        before.statuses.no_duplicates(),
    ensures
        !before.relieved(status).statuses.contains(status),
{
    lemma_without_status_absent(before.statuses, status);
}

/// Clearing the conditions leaves none, whatever was listed before.
pub proof fn lemma_cleansed_is_empty(before: PropertiesModel, status: Status)
    ensures
        before.cleansed().statuses.len() == 0,
        !before.cleansed().statuses.contains(status),
{
}

/// A rolled initiative is the die and the dexterity modifier together where
/// that is not negative, and 0 where it is; it never exceeds 30.
pub proof fn lemma_initiative_roll_range(before: PropertiesModel, die: int)
    requires
        is_die_face(die),
    ensures
        before.initiative_roll(die) <= 30,
        die + before.initiative_bonus() >= 0
            ==> before.initiative_roll(die) == die + before.initiative_bonus(),
        die + before.initiative_bonus() < 0 ==> before.initiative_roll(die) == 0,
        before.initiative_bonus() == 0 ==> before.initiative_roll(die) == die,
{
}

/// After a roll, reading the initiative gives what was rolled and rolls
/// nothing: neither the value read nor the combatant depends on what the die
/// would show now.
pub proof fn lemma_read_after_roll(before: PropertiesModel, die: int, next_die: int)
    ensures
        before.rolled(die).initiative_read(next_die) == before.initiative_roll(die),
        before.rolled(die).after_initiative_read(next_die) == before.rolled(die),
{
}

/// After the initiative is cleared, reading it rolls anew: the value read is
/// what the die gives now, whatever was stored before the clearing.
pub proof fn lemma_read_after_clear(before: PropertiesModel, die: int)
    ensures
        before.without_initiative().initiative_read(die) == before.initiative_roll(die),
        before.without_initiative().after_initiative_read(die) == before.rolled(die),
{
}

/// Every operation keeps [`PropertiesModel::wf`] and leaves the name, the
/// maximum hit points, the armor class and the ability scores alone.
pub proof fn lemma_operations_keep_wf(
    before: PropertiesModel,
    amount: nat,
    status: Status,
    value: nat,
    die: int,
)
    requires
        before.wf(),
    ensures
        before.healed(amount).wf() && before.same_sheet(before.healed(amount)),
        before.damaged(amount).wf() && before.same_sheet(before.damaged(amount)),
        before.afflicted(status).wf() && before.same_sheet(before.afflicted(status)),
        before.relieved(status).wf() && before.same_sheet(before.relieved(status)),
        before.cleansed().wf() && before.same_sheet(before.cleansed()),
        before.with_initiative(value).wf() && before.same_sheet(before.with_initiative(value)),
        before.without_initiative().wf() && before.same_sheet(before.without_initiative()),
        before.rolled(die).wf() && before.same_sheet(before.rolled(die)),
        before.after_initiative_read(die).wf(),
        before.same_sheet(before.after_initiative_read(die)),
{
    lemma_with_status_keeps_distinct(before.statuses, status);
    lemma_without_status_absent(before.statuses, status);
}

/// A new combatant satisfies [`PropertiesModel::wf`].
pub proof fn lemma_initial_is_wf(
    name: Seq<char>,
    current_hp: nat,
    max_hp: nat,
    ac: nat,
    stats: Stats,
)
    ensures
        PropertiesModel::initial(name, current_hp, max_hp, ac, stats).wf(),
        current_hp <= max_hp
            ==> PropertiesModel::initial(name, current_hp, max_hp, ac, stats).hp == current_hp,
        current_hp > max_hp
            ==> PropertiesModel::initial(name, current_hp, max_hp, ac, stats).hp == max_hp,
{
}

} // verus!
