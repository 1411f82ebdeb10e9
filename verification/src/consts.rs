//! Integer tuning constants shared by the gameplay modules.

use vstd::prelude::*;

verus! {

/// Number of GPU foam instance slots. The slot allocator and the renderer share
/// this one value so that the two sides can never disagree on the pool size.
pub const FOAM_INSTANCE_POOL_SIZE: u32 = 1024;

/// Fewest foam blobs a single bubble draws with.
pub const FOAM_CLUSTER_MIN: u32 = 4;

/// Slots reserved per bubble; also the most foam blobs a bubble draws with.
pub const FOAM_CLUSTER_MAX: usize = 7;

/// Health the player starts each round with.
pub const PLAYER_MAX_HEALTH: i32 = 5;

/// Damage dealt by one sprayed bubble.
pub const SPRAY_POWER: i32 = 1;

/// Most bubbles that may exist at the same time.
pub const MAX_LIVE_BUBBLES: usize = 500;

/// Foam puffs added around an enemy per hit.
pub const FOAM_PUFFS_PER_HIT: u8 = 2;

/// Most foam puffs that ever surround one enemy.
pub const FOAM_PUFFS_MAX_PER_ENEMY: u8 = 18;

} // verus!
