//! The fixed game-balance constant table.
//!
//! Every stat is a bounded integer in `[0, MAX_*]`; every increment or
//! decrement below saturates at those bounds. Time is measured in
//! milliseconds on a monotonic clock supplied by the caller.

use vstd::prelude::*;

verus! {

/// Hunger level of a newly created pet (0 = not hungry at all).
pub const INITIAL_HUNGER: u8 = 0;

/// Largest possible hunger level.
pub const MAX_HUNGER: u8 = 100;

/// How much hunger one feeding removes.
pub const HUNGER_DECREASE_BIG: u8 = 10;

/// How much hunger one play session adds (playing costs energy).
pub const HUNGER_INCREASE_BIG: u8 = 5;

/// How much hunger every tick adds.
pub const HUNGER_INCREASE_SMALL: u8 = 1;

/// At or above this hunger level the pet counts as hungry: every tick then
/// costs happiness and health and raises a warning notification.
pub const HUNGER_WARNING: u8 = 80;

/// Happiness level of a newly created pet.
pub const INITIAL_HAPPINESS: u8 = 100;

/// Largest possible happiness level.
pub const MAX_HAPPINESS: u8 = 100;

/// How much happiness one play session adds.
pub const HAPPINESS_INCREASE: u8 = 10;

/// How much happiness a tick removes while the pet is hungry or sick; also
/// how much health a tick removes while the pet is sad.
pub const HAPPINESS_DECREASE: u8 = 5;

/// At or below this happiness level the pet counts as sad: every tick then
/// costs health and raises a warning notification.
pub const HAPPINESS_WARNING: u8 = 20;

/// Health level of a newly created pet.
pub const INITIAL_HEALTH: u8 = 100;

/// Largest possible health level.
pub const MAX_HEALTH: u8 = 100;

/// How much health a tick removes while the pet is hungry.
pub const HEALTH_DECREASE: u8 = 5;

/// How much health a tick regenerates while the pet is neither hungry nor sad.
pub const HEALTH_INCREASE: u8 = 10;

/// At or below this health level the pet counts as sick: every tick then
/// costs happiness and raises a warning notification.
pub const HEALTH_WARNING: u8 = 20;

/// How long a removable notification stays alive without a refresh, in
/// milliseconds of the caller's monotonic clock.
pub const NOTIFICATION_DURATION: u64 = 5000;

} // verus!
