//! The combatant model: ability scores, status conditions, dice and the
//! combatant itself.

pub mod creature;
pub mod dice;
pub mod state;
pub mod stats;
pub mod status;

pub use self::creature::{ChallengeRating, Creature, CreatureProperties, DamageOutcome};
pub use self::stats::Stats;
pub use self::status::{CreatureId, Status};
