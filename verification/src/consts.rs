//! Tuning constants of the decision core. Durations are milliseconds;
//! distances are tenths of a metre; probabilities and fractions are
//! thousandths.

use vstd::prelude::*;

verus! {

/// Damage is only attributed to an attacker this recently.
pub const DAMAGE_MEMORY_MS: u64 = 250;

/// A flee episode gives up after this long on the run.
pub const FLEE_DURATION_MS: u64 = 3_000;

/// Fleeing stops once the threat is this far away.
pub const MAX_FLEE_DIST: i64 = 200;

/// A pet follows its owner once further away than this.
pub const MAX_FOLLOW_DIST: i64 = 120;

/// Loot is picked up from within this range, walked to beyond it.
pub const NPC_PICKUP_RANGE: i64 = 25;

/// The planner is asked to stop this close when walking to loot.
pub const PICKUP_STOP_RANGE: i64 = 15;

/// While engaged, a new target may be chosen only this long after the
/// current one was selected.
pub const RETARGET_COOLDOWN_MS: u64 = 10_000;

/// Self-healing is considered below this health fraction.
pub const HEALING_ITEM_THRESHOLD_PERMILLE: u32 = 500;

/// Interaction timeout while not trading.
pub const DEFAULT_INTERACTION_MS: u64 = 3_000;

/// Interaction timeout while trading.
pub const TRADE_INTERACTION_MS: u64 = 300_000;

/// A pet defends its owner against damage this recent.
pub const OWNER_HURT_WINDOW_MS: u64 = 5_000;

/// Falling faster than this downward counts as dangerous.
pub const DANGEROUS_FALL_SPEED: i64 = 200;

/// How long a character interaction is remembered.
pub const CHARACTER_MEMORY_MS: u64 = 600_000;

/// How long a fight is remembered.
pub const FIGHT_MEMORY_MS: u64 = 600_000;

/// Forget horizon of good and neutral moods.
pub const MOOD_FORGET_MS: u64 = 21_200_000;

/// Forget horizon of bad moods.
pub const MOOD_FORGET_LONG_MS: u64 = 86_400_000;

/// Chance of a hurt utterance on taking damage.
pub const HURT_UTTER_PERMILLE: u32 = 400;

/// Chance of re-selecting a target after an interaction times out.
pub const AMBIENT_RETARGET_PERMILLE: u32 = 100;

/// Chance per idle tick of a pet turning toward its owner.
pub const OWNER_TARGET_PERMILLE: u32 = 100;

/// Scratch-timer mark set when a flee episode has cried out.
pub const FLEE_SPOKE_MARK_MS: u64 = 10;

/// Scratch-timer mark set after consuming a healing item.
pub const HEAL_MARK_MS: u64 = 10;

/// Scratch-timer mark set while an interaction event waits in the inbox.
pub const INTERACTION_WAIT_MARK_MS: u64 = 100;

/// A heard sound louder than this startles the agent.
pub const STARTLE_VOLUME_PERMILLE: u32 = 500;

} // verus!
