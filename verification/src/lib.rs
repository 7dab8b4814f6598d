//! Combat-state tracking for tabletop role-playing encounters.
//!
//! The crate keeps the state of each combatant of an encounter (hit points,
//! death flag, status conditions, initiative and ability scores) and the rules
//! by which that state changes. Every rule is stated as a contract over a
//! mathematical picture of the combatant and proved against it.
//!
//! * [`model::stats`]: the six ability scores and their modifiers
//! * [`model::status`]: status conditions and the list a combatant keeps of
//!   them
//! * [`model::dice`]: the dice roll, which comes from the `dice_parser`
//!   crate, and the initiative a roll gives
//! * [`model::state`]: the combatant as plain mathematics, the rules of
//!   damage, healing, conditions and initiative, and the laws that hold of
//!   them
//! * [`model::creature`]: the combatant itself, a player or a monster, with
//!   the operations that a session calls
//! * [`screen`]: the screens of a session and what a terminal event does on
//!   each

pub mod model;
pub mod screen;
