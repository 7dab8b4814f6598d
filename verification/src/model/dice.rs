//! Dice rolls, made by the `dice_parser` crate, and the initiative that a
//! roll gives.

use dice_parser::{DiceError, DiceExpr, RollSpec};
use vstd::prelude::*;

verus! {

/// The error type of `dice_parser`, carried through as it comes.
#[verifier::external_type_specification]
#[verifier::external_body]
pub struct ExDiceError(dice_parser::DiceError);

/// The number of sides of the die that initiative is rolled with.
pub const INITIATIVE_DIE: u32 = 20;

/// The largest initiative a combatant can hold.
pub const MAX_INITIATIVE: u8 = 255;

/// The least total that `count` dice and a constant `bonus` can give: every
/// die shows a one.
pub open spec fn lowest_total(count: int, bonus: int) -> int {
    count + bonus
}

/// The greatest total that `count` dice of `sides` sides and a constant
/// `bonus` can give: every die shows its highest face.
pub open spec fn highest_total(count: int, sides: int, bonus: int) -> int {
    count * sides + bonus
}

/// The initiative that a dice total gives: the total itself, but 0 where the
/// total is negative and [`MAX_INITIATIVE`] where it is larger than that.
pub open spec fn initiative_of(total: int) -> nat {
    if total < 0 {
        0
    } else if total > MAX_INITIATIVE as int {
        MAX_INITIATIVE as nat
    } else {
        total as nat
    }
}

/// Rolls `count` dice of `sides` sides each and adds `bonus`.
///
/// Trusted: the body builds the expression "`count`d`sides` + `bonus`" and
/// evaluates it with `dice_parser::DiceExpr::roll`, which draws every die
/// from the thread's random generator. The contract claims what
/// `dice_parser` 0.1.1 does on such an expression with at least one die of at
/// least one side and no keep rule: each die shows a face between 1 and
/// `sides`, the faces and the constant are summed without overflow (which
/// the `requires` rules out), and no failing path is taken, so the result is
/// `Ok` and lies between [`lowest_total`] and [`highest_total`]. Which total
/// in that range comes out is left open.
#[verifier::external_body]
pub(crate) fn roll_total(count: u32, sides: u32, bonus: i32) -> (rolled: Result<i32, DiceError>)
    requires
        1 <= count,
        1 <= sides,
        highest_total(count as int, sides as int, 0) <= i32::MAX,
        highest_total(count as int, sides as int, bonus as int) <= i32::MAX,
    ensures
        rolled is Ok,
        rolled matches Ok(total) ==> lowest_total(count as int, bonus as int) <= total,
        rolled matches Ok(total) ==> total <= highest_total(count as int, sides as int, bonus as int),
{
    let dice = DiceExpr::Roll(RollSpec::new(count, sides, None));
    let sum = DiceExpr::Sum(Box::new(dice), Box::new(DiceExpr::Literal(bonus)));
    sum.roll().map(|outcome| outcome.total)
}

/// Turns a dice total into an initiative: a negative total counts as 0, and
/// nothing counts for more than [`MAX_INITIATIVE`].
pub fn initiative_from_total(total: i32) -> (initiative: u8)
    ensures
        initiative as nat == initiative_of(total as int),
{
    if total < 0 {
        0
    } else if total > MAX_INITIATIVE as i32 {
        MAX_INITIATIVE
    } else {
        total as u8
    }
}

/// A total that is already a valid initiative is kept as it is, and a
/// greater total never gives a lesser initiative.
pub proof fn lemma_initiative_of_monotonic(lower: int, higher: int)
    requires
        lower <= higher,
    ensures
        initiative_of(lower) <= initiative_of(higher),
        0 <= lower <= MAX_INITIATIVE ==> initiative_of(lower) == lower,
{
}

} // verus!
