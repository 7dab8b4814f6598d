//! The combatant: a player or a monster, and the operations that change it
//! in play.

use crate::model::dice::{initiative_from_total, roll_total, INITIATIVE_DIE};
use crate::model::state::{
    is_die_face, lemma_initiative_roll_range, CreatureKind, CreatureModel, PropertiesModel,
};
use crate::model::stats::Stats;
use crate::model::status::{
    lemma_with_status_keeps_distinct, lemma_without_status_absent, occurrences, position, Status,
};
use vstd::pervasive::unreached;
use vstd::prelude::*;

verus! {

/// How a hit ended for the combatant that took it.
#[derive(Debug, Clone, Copy, PartialEq, Eq, Structural)]
pub enum DamageOutcome {
    /// Hit points are left.
    Survived,
    /// No hit points are left, but the hit did not kill.
    Downed,
    /// The hit killed.
    Died,
}

/// A monster's challenge rating, kept as the bit pattern of a
/// double-precision number, so that every rating passes through unchanged.
/// The model stores the rating and never computes with it.
#[derive(Debug, Clone, Copy, PartialEq, Eq, Structural)]
pub struct ChallengeRating {
    pub bits: u64,
}

/// The record that every kind of combatant shares.
///
/// * `name`: a player's name, or the name of a monster's stat block
/// * `hp`: current hit points
/// * `max_hp`: maximum hit points
/// * `ac`: armor class
/// * `is_dead`: whether the combatant is dead
/// * `statuses`: the conditions that afflict the combatant, oldest first
/// * `initiative`: the initiative, once it is rolled or set
/// * `stats`: the ability scores
#[derive(Debug)]
pub struct CreatureProperties {
    pub name: String,
    pub hp: u32,
    pub max_hp: u32,
    pub ac: u32,
    pub is_dead: bool,
    pub statuses: Vec<Status>,
    pub initiative: Option<u8>,
    pub stats: Stats,
}

impl View for CreatureProperties {
    type V = PropertiesModel;

    open spec fn view(&self) -> PropertiesModel {
        PropertiesModel {
            name: self.name@,
            hp: self.hp as nat,
            max_hp: self.max_hp as nat,
            ac: self.ac as nat,
            is_dead: self.is_dead,
            statuses: self.statuses@,
            initiative: match self.initiative {
                Some(value) => Some(value as nat),
                None => None,
            },
            stats: self.stats,
        }
    }
}

impl Clone for CreatureProperties {
    /// A copy with the same name, numbers, conditions and initiative.
    fn clone(&self) -> (copy: Self)
        ensures
            copy@ == self@,
    {
        CreatureProperties {
            name: self.name.clone(),
            hp: self.hp,
            max_hp: self.max_hp,
            ac: self.ac,
            is_dead: self.is_dead,
            statuses: self.statuses.clone(),
            initiative: self.initiative,
            stats: self.stats,
        }
    }
}

impl CreatureProperties {
    /// Makes the record of a new combatant. Hit points above the maximum are
    /// cut down to it, and a combatant that starts without hit points starts
    /// dead.
    pub fn new(name: String, cur_hp: u32, max_hp: u32, ac: u32, stats: Stats) -> (props: Self)
        ensures
            props@ == PropertiesModel::initial(
                name@,
                cur_hp as nat,
                max_hp as nat,
                ac as nat,
                stats,
            ),
            props@.wf(),
    {
        let hp: u32 = if cur_hp <= max_hp {
            cur_hp
        } else {
            max_hp
        };
        CreatureProperties {
            name,
            hp,
            max_hp,
            ac,
            is_dead: hp == 0,
            initiative: None,
            statuses: Vec::new(),
            stats,
        }
    }
}

/// A combatant of an encounter.
#[derive(Debug)]
pub enum Creature {
    Player { props: CreatureProperties, level: u8 },
    Monster { props: CreatureProperties, cr: ChallengeRating },
}

impl View for Creature {
    type V = CreatureModel;

    open spec fn view(&self) -> CreatureModel {
        match self {
            Creature::Player { props, level } => CreatureModel {
                kind: CreatureKind::Player { level: *level },
                props: props@,
            },
            Creature::Monster { props, cr } => CreatureModel {
                kind: CreatureKind::Monster { cr: *cr },
                props: props@,
            },
        }
    }
}

impl Clone for Creature {
    /// A copy of the same kind with a copy of the shared record.
    fn clone(&self) -> (copy: Self)
        ensures
            copy@ == self@,
    {
        match self {
            Creature::Player { props, level } => Creature::Player {
                props: props.clone(),
                level: *level,
            },
            Creature::Monster { props, cr } => Creature::Monster { props: props.clone(), cr: *cr },
        }
    }
}

impl Creature {
    /// The shared record of the combatant.
    pub open spec fn record(self) -> CreatureProperties {
        match self {
            Creature::Player { props, .. } => props,
            Creature::Monster { props, .. } => props,
        }
    }

    /// The combatant with `props` in place of its shared record.
    pub open spec fn with_record(self, props: CreatureProperties) -> Creature {
        match self {
            Creature::Player { level, .. } => Creature::Player { props, level },
            Creature::Monster { cr, .. } => Creature::Monster { props, cr },
        }
    }

    /// Makes a player character. Without `current_hp` it starts at `max_hp`,
    /// without `stats` every ability score is ten, without `level` it is of
    /// level 1.
    pub fn new_player(
        name: &str,
        max_hp: u32,
        ac: u32,
        current_hp: Option<u32>,
        stats: Option<Stats>,
        level: Option<u8>,
    ) -> (creature: Self)
        ensures
            creature@.kind == (CreatureKind::Player { level: level.unwrap_or(1) }),
            creature@.props == PropertiesModel::initial(
                name@,
                current_hp.unwrap_or(max_hp) as nat,
                max_hp as nat,
                ac as nat,
                stats.unwrap_or(Stats::baseline()),
            ),
            creature@.props.wf(),
    {
        Creature::Player {
            props: CreatureProperties::new(
                name.to_owned(),
                current_hp.unwrap_or(max_hp),
                max_hp,
                ac,
                stats.unwrap_or(Stats::default()),
            ),
            level: level.unwrap_or(1),
        }
    }

    /// Makes a monster. Without `current_hp` it starts at `max_hp`, without
    /// `stats` every ability score is ten, without `cr` its challenge rating
    /// is zero, whose bit pattern is all zeros.
    pub fn new_monster(
        name: &str,
        max_hp: u32,
        ac: u32,
        current_hp: Option<u32>,
        stats: Option<Stats>,
        cr: Option<ChallengeRating>,
    ) -> (creature: Self)
        ensures
            creature@.kind == (CreatureKind::Monster {
                cr: cr.unwrap_or(ChallengeRating { bits: 0 }),
            }),
            creature@.props == PropertiesModel::initial(
                name@,
                current_hp.unwrap_or(max_hp) as nat,
                max_hp as nat,
                ac as nat,
                stats.unwrap_or(Stats::baseline()),
            ),
            creature@.props.wf(),
    {
        Creature::Monster {
            props: CreatureProperties::new(
                name.to_owned(),
                current_hp.unwrap_or(max_hp),
                max_hp,
                ac,
                stats.unwrap_or(Stats::default()),
            ),
            cr: cr.unwrap_or(ChallengeRating { bits: 0 }),
        }
    }

    /// The shared record of the combatant.
    pub fn props(&self) -> (props: &CreatureProperties)
        ensures
            *props == self.record(),
            props@ == self@.props,
    {
        match self {
            Creature::Player { props: p, level: _ } => p,
            Creature::Monster { props: p, cr: _ } => p,
        }
    }

    fn props_mut(&mut self) -> (props: &mut CreatureProperties)
        ensures
            *props == old(self).record(),
            *final(self) == old(self).with_record(*final(props)),
    {
        match self {
            Creature::Player { props: p_mut, level: _ } => p_mut,
            Creature::Monster { props: p_mut, cr: _ } => p_mut,
        }
    }

    /// The current hit points.
    pub fn hp(&self) -> (hp: u32)
        ensures
            hp == self@.props.hp,
    {
        self.props().hp
    }

    /// The maximum hit points.
    pub fn max_hp(&self) -> (max_hp: u32)
        ensures
            max_hp == self@.props.max_hp,
    {
        self.props().max_hp
    }

    /// The armor class.
    pub fn ac(&self) -> (ac: u32)
        ensures
            ac == self@.props.ac,
    {
        self.props().ac
    }

    /// The name.
    pub fn name(&self) -> (name: &str)
        ensures
            name@ == self@.props.name,
    {
        self.props().name.as_str()
    }

    /// The ability scores.
    pub fn stats(&self) -> (stats: Stats)
        ensures
            stats == self@.props.stats,
    {
        self.props().stats
    }

    /// Whether the combatant is dead.
    pub fn is_dead(&self) -> (dead: bool)
        ensures
            dead == self@.props.is_dead,
    {
        self.props().is_dead
    }

    /// Whether the combatant is alive, that is, not dead. A combatant that
    /// is down without being dead counts as alive.
    pub fn is_alive(&self) -> (alive: bool)
        ensures
            alive == !self@.props.is_dead,
    {
        !self.props().is_dead
    }

    /// Gives `amount` hit points back, up to the maximum. Any healing at all
    /// brings a combatant without hit points back from death.
    pub fn heal(&mut self, amount: u32)
        ensures
            final(self)@.kind == old(self)@.kind,
            final(self)@.props == old(self)@.props.healed(amount as nat),
            final(self)@.props.hp <= final(self)@.props.max_hp,
            old(self)@.props.hp == 0 && amount > 0 ==> !final(self)@.props.is_dead,
            old(self)@.props.wf() ==> final(self)@.props.wf(),
    {
        let props = self.props_mut();
        if props.hp == 0 && amount > 0 {
            props.is_dead = false;
        }
        let raised: u64 = props.hp as u64 + amount as u64;
        props.hp = if raised < props.max_hp as u64 {
            raised as u32
        } else {
            props.max_hp
        };
    }

    /// Takes `amount` hit points away, down to zero, and says how the hit
    /// ended. The rule is the same for players and monsters: the combatant
    /// dies only when the hit would take it as far below zero as its maximum
    /// hit points are above it.
    pub fn damage(&mut self, amount: u32) -> (outcome: DamageOutcome)
        ensures
            outcome == old(self)@.props.damage_outcome(amount as nat),
            final(self)@.kind == old(self)@.kind,
            final(self)@.props == old(self)@.props.damaged(amount as nat),
            outcome == DamageOutcome::Survived
                ==> final(self)@.props.hp == old(self)@.props.hp - amount,
            outcome != DamageOutcome::Survived ==> final(self)@.props.hp == 0,
            outcome == DamageOutcome::Died ==> final(self)@.props.is_dead,
            outcome != DamageOutcome::Died
                ==> final(self)@.props.is_dead == old(self)@.props.is_dead,
            old(self)@.props.wf() ==> final(self)@.props.wf(),
    {
        let props = self.props_mut();
        let delta: i64 = props.hp as i64 - amount as i64;

        // What the hit leaves of the hit points; nothing where it takes them all.
        props.hp = if delta > 0 {
            delta as u32
        } else {
            0
        };

        if delta > 0 {
            DamageOutcome::Survived
        } else if delta <= -(props.max_hp as i64) {
            props.is_dead = true;
            DamageOutcome::Died
        } else {
            DamageOutcome::Downed
        }
    }

    /// The conditions that afflict the combatant, oldest first.
    pub fn get_statuses(&self) -> (statuses: &Vec<Status>)
        ensures
            statuses@ == self@.props.statuses,
    {
        &self.props().statuses
    }

    /// Adds `status` at the end of the conditions, unless an equal one is
    /// there already.
    pub fn add_status(&mut self, status: Status)
        ensures
            final(self)@.kind == old(self)@.kind,
            final(self)@.props == old(self)@.props.afflicted(status),
            final(self)@.props.statuses.contains(status),
            old(self)@.props.statuses.no_duplicates()
                ==> occurrences(final(self)@.props.statuses, status) == 1,
            old(self)@.props.wf() ==> final(self)@.props.wf(),
    {
        proof {
            if self@.props.statuses.no_duplicates() {
                lemma_with_status_keeps_distinct(self@.props.statuses, status);
            }
        }
        let props = self.props_mut();
        if position(&props.statuses, &status).is_none() {
            props.statuses.push(status);
            assert(props.statuses@.last() == status);
        }
    }

    /// Removes the first condition that equals `status`, and answers
    /// `Some(())` if there was one and `None` if the combatant did not have
    /// the condition.
    pub fn remove_status(&mut self, status: Status) -> (removed: Option<()>)
        ensures
            removed is Some <==> old(self)@.props.statuses.contains(status),
            final(self)@.kind == old(self)@.kind,
            final(self)@.props == old(self)@.props.relieved(status),
            old(self)@.props.statuses.no_duplicates()
                ==> !final(self)@.props.statuses.contains(status),
            old(self)@.props.wf() ==> final(self)@.props.wf(),
    {
        proof {
            if self@.props.statuses.no_duplicates() {
                lemma_without_status_absent(self@.props.statuses, status);
            }
        }
        let props = self.props_mut();
        if let Some(i) = position(&props.statuses, &status) {
            props.statuses.remove(i);
            Some(())
        } else {
            None
        }
    }

    /// Removes every condition.
    pub fn clear_status(&mut self)
        ensures
            final(self)@.kind == old(self)@.kind,
            final(self)@.props == old(self)@.props.cleansed(),
            final(self)@.props.statuses.len() == 0,
            old(self)@.props.wf() ==> final(self)@.props.wf(),
    {
        self.props_mut().statuses.clear();
    }

    /// Rolls the initiative anew, one twenty-sided die plus the dexterity
    /// modifier and not less than 0, stores it in place of any earlier one
    /// and returns it.
    pub fn roll_initiative(&mut self) -> (initiative: u8)
        ensures
            exists|die: int|
                is_die_face(die) && initiative == old(self)@.props.initiative_roll(die)
                    && final(self)@.props == old(self)@.props.rolled(die),
            final(self)@.props.initiative == Some(initiative as nat),
            initiative <= 30,
            final(self)@.kind == old(self)@.kind,
            old(self)@.props.wf() ==> final(self)@.props.wf(),
    {
        let bonus: i8 = self.stats().dex_mod();
        let initiative: u8 = match roll_total(1, INITIATIVE_DIE, bonus as i32) {
            Ok(total) => {
                proof {
                    let die = total - bonus;
                    assert(is_die_face(die));
                    lemma_initiative_roll_range(self@.props, die);
                }
                initiative_from_total(total)
            },
            Err(_) => unreached(),
        };
        self.set_initiative(initiative);
        initiative
    }

    /// Sets the initiative as a roll that showed `die` gives it: `die` plus
    /// the dexterity modifier and not less than 0. The die is taken as it is
    /// given, so that whoever draws it decides where it comes from.
    pub fn roll_initiative_with(&mut self, die: u8) -> (initiative: u8)
        ensures
            initiative == old(self)@.props.initiative_roll(die as int),
            final(self)@.props == old(self)@.props.rolled(die as int),
            final(self)@.kind == old(self)@.kind,
            old(self)@.props.wf() ==> final(self)@.props.wf(),
    {
        let bonus: i8 = self.stats().dex_mod();
        let initiative: u8 = initiative_from_total(die as i32 + bonus as i32);
        self.set_initiative(initiative);
        initiative
    }

    /// Stores `value` as the initiative in place of any earlier one. Every
    /// value is taken: an effect may force an initiative that no roll gives.
    pub fn set_initiative(&mut self, value: u8)
        ensures
            final(self)@.kind == old(self)@.kind,
            final(self)@.props == old(self)@.props.with_initiative(value as nat),
            old(self)@.props.wf() ==> final(self)@.props.wf(),
    {
        self.props_mut().initiative = Some(value)
    }

    /// Forgets the initiative, so that the next reading rolls it anew.
    pub fn clear_initative(&mut self)
        ensures
            final(self)@.kind == old(self)@.kind,
            final(self)@.props == old(self)@.props.without_initiative(),
            old(self)@.props.wf() ==> final(self)@.props.wf(),
    {
        self.props_mut().initiative = None;
    }

    /// Reads the initiative. Where one is stored, it is returned and nothing
    /// changes; where none is, it is rolled as [`Creature::roll_initiative`]
    /// does.
    pub fn get_initiative(&mut self) -> (initiative: u8)
        ensures
            exists|die: int|
                is_die_face(die) && initiative == old(self)@.props.initiative_read(die)
                    && final(self)@.props == old(self)@.props.after_initiative_read(die),
            old(self)@.props.initiative matches Some(value) ==> initiative == value,
            old(self)@.props.initiative is Some ==> final(self)@ == old(self)@,
            final(self)@.props.initiative == Some(initiative as nat),
            final(self)@.kind == old(self)@.kind,
            old(self)@.props.wf() ==> final(self)@.props.wf(),
    {
        if let Some(i) = self.props().initiative {
            assert(is_die_face(1));
            i
        } else {
            self.roll_initiative()
        }
    }

    /// Whether an initiative is stored. Asking does not roll one.
    pub fn has_initative(&self) -> (stored: bool)
        ensures
            stored == self@.props.initiative is Some,
    {
        self.props().initiative.is_some()
    }
}

} // verus!
