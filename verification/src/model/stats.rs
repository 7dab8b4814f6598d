//! Ability scores and the modifiers derived from them.

use vstd::prelude::*;

verus! {

/// The highest value an ability score can take.
pub const MAX_SCORE: u8 = 30;

/// The six ability scores of a combatant.
///
/// Scores made by [`Stats::new`] or [`Stats::default`] lie between 0 and
/// [`MAX_SCORE`]; see [`Stats::in_range`].
#[derive(Debug, Clone, Copy, PartialEq, Eq, Structural)]
pub struct Stats {
    pub strength: u8,
    pub dexterity: u8,
    pub constitution: u8,
    pub intelligence: u8,
    pub wisdom: u8,
    pub charisma: u8,
}

/// A score cut down to [`MAX_SCORE`].
pub open spec fn capped(score: int) -> int {
    if score > MAX_SCORE as int {
        MAX_SCORE as int
    } else {
        score
    }
}

/// The modifier that an ability score gives: half of the score's distance
/// from ten, rounded down. A score above [`MAX_SCORE`] counts as
/// [`MAX_SCORE`].
pub open spec fn modifier(score: int) -> int {
    (capped(score) - 10) / 2
}

impl Stats {
    /// Whether every score lies between 0 and [`MAX_SCORE`].
    pub open spec fn in_range(self) -> bool {
        &&& self.strength <= MAX_SCORE
        &&& self.dexterity <= MAX_SCORE
        &&& self.constitution <= MAX_SCORE
        &&& self.intelligence <= MAX_SCORE
        &&& self.wisdom <= MAX_SCORE
        &&& self.charisma <= MAX_SCORE
    }

    /// The scores of a combatant for whom none were given: ten each.
    pub open spec fn baseline() -> Stats {
        Stats {
            strength: 10,
            dexterity: 10,
            constitution: 10,
            intelligence: 10,
            wisdom: 10,
            charisma: 10,
        }
    }

    /// Makes a set of ability scores, each cut down to [`MAX_SCORE`].
    pub fn new(
        strength: u8,
        dexterity: u8,
        constitution: u8,
        intelligence: u8,
        wisdom: u8,
        charisma: u8,
    ) -> (stats: Stats)
        ensures
            stats.strength == capped(strength as int),
            stats.dexterity == capped(dexterity as int),
            stats.constitution == capped(constitution as int),
            stats.intelligence == capped(intelligence as int),
            stats.wisdom == capped(wisdom as int),
            stats.charisma == capped(charisma as int),
            stats.in_range(),
    {
        Stats {
            strength: Stats::cap(strength),
            dexterity: Stats::cap(dexterity),
            constitution: Stats::cap(constitution),
            intelligence: Stats::cap(intelligence),
            wisdom: Stats::cap(wisdom),
            charisma: Stats::cap(charisma),
        }
    }

    fn cap(score: u8) -> (c: u8)
        ensures
            c == capped(score as int),
    {
        if score > MAX_SCORE {
            MAX_SCORE
        } else {
            score
        }
    }

    /// The modifier of one score, read off the step table: two scores to a
    /// step, from -5 for the scores 0 and 1 up to +10 for [`MAX_SCORE`].
    pub fn to_mod(stat: u8) -> (m: i8)
        ensures
            m == modifier(stat as int),
    {
        if stat <= 1 {
            -5
        } else if stat <= 3 {
            -4
        } else if stat <= 5 {
            -3
        } else if stat <= 7 {
            -2
        } else if stat <= 9 {
            -1
        } else if stat <= 11 {
            0
        } else if stat <= 13 {
            1
        } else if stat <= 15 {
            2
        } else if stat <= 17 {
            3
        } else if stat <= 19 {
            4
        } else if stat <= 21 {
            5
        } else if stat <= 23 {
            6
        } else if stat <= 25 {
            7
        } else if stat <= 27 {
            8
        } else if stat <= 29 {
            9
        } else {
            10
        }
    }

    /// The strength modifier.
    pub fn str_mod(&self) -> (m: i8)
        ensures
            m == modifier(self.strength as int),
    {
        Stats::to_mod(self.strength)
    }

    /// The dexterity modifier.
    pub fn dex_mod(&self) -> (m: i8)
        ensures
            m == modifier(self.dexterity as int),
    {
        Stats::to_mod(self.dexterity)
    }

    /// The constitution modifier.
    pub fn con_mod(&self) -> (m: i8)
        ensures
            m == modifier(self.constitution as int),
    {
        Stats::to_mod(self.constitution)
    }

    /// The intelligence modifier.
    pub fn int_mod(&self) -> (m: i8)
        ensures
            m == modifier(self.intelligence as int),
    {
        Stats::to_mod(self.intelligence)
    }

    /// The wisdom modifier.
    pub fn wis_mod(&self) -> (m: i8)
        ensures
            m == modifier(self.wisdom as int),
    {
        Stats::to_mod(self.wisdom)
    }

    /// The charisma modifier.
    pub fn cha_mod(&self) -> (m: i8)
        ensures
            m == modifier(self.charisma as int),
    {
        Stats::to_mod(self.charisma)
    }
}

impl Default for Stats {
    /// Ten in every score, which gives the modifier 0 throughout.
    fn default() -> (stats: Stats)
        ensures
            stats == Stats::baseline(),
    {
        Stats {
            strength: 10,
            dexterity: 10,
            constitution: 10,
            intelligence: 10,
            wisdom: 10,
            charisma: 10,
        }
    }
}

/// A higher score never gives a lower modifier.
pub proof fn lemma_modifier_monotonic(lower: int, higher: int)
    requires
        lower <= higher,
    ensures
        modifier(lower) <= modifier(higher),
{
}

/// The modifier follows the step table: -5 for a score of 1, then one more
/// for every two scores, up to +10 for a score of 30.
pub proof fn lemma_modifier_steps(score: int)
    requires
        0 <= score,
    ensures
        score <= 1 ==> modifier(score) == -5,
        2 <= score <= 3 ==> modifier(score) == -4,
        4 <= score <= 5 ==> modifier(score) == -3,
        6 <= score <= 7 ==> modifier(score) == -2,
        8 <= score <= 9 ==> modifier(score) == -1,
        10 <= score <= 11 ==> modifier(score) == 0,
        12 <= score <= 13 ==> modifier(score) == 1,
        14 <= score <= 15 ==> modifier(score) == 2,
        16 <= score <= 17 ==> modifier(score) == 3,
        18 <= score <= 19 ==> modifier(score) == 4,
        20 <= score <= 21 ==> modifier(score) == 5,
        22 <= score <= 23 ==> modifier(score) == 6,
        24 <= score <= 25 ==> modifier(score) == 7,
        26 <= score <= 27 ==> modifier(score) == 8,
        28 <= score <= 29 ==> modifier(score) == 9,
        30 <= score ==> modifier(score) == 10,
        -5 <= modifier(score) <= 10,
{
}

} // verus!
