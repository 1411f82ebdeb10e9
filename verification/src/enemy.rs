//! Enemy kinds and their integer stats, the foam coat that grows around an
//! enemy, and what happens when an enemy reaches the player.

use vstd::prelude::*;

use crate::bubble::random_in_range;
use crate::consts::{FOAM_PUFFS_MAX_PER_ENEMY, FOAM_PUFFS_PER_HIT};
use crate::state::Health;

verus! {

/// The kinds of dirt that walk in from the edges.
#[derive(Clone, Copy, PartialEq, Eq, Debug)]
pub enum EnemyKind {
    Dust,
    Oil,
    Mud,
}

/// Kind chosen by a percentile roll: 0–44 dust, 45–84 oil, 85–99 mud.
pub open spec fn spec_kind_from_roll(roll: u32) -> EnemyKind {
    if roll <= 44 {
        EnemyKind::Dust
    } else if roll <= 84 {
        EnemyKind::Oil
    } else {
        EnemyKind::Mud
    }
}

pub open spec fn spec_max_health(kind: EnemyKind) -> i32 {
    match kind {
        EnemyKind::Dust => 3,
        EnemyKind::Oil => 6,
        EnemyKind::Mud => 9,
    }
}

pub open spec fn spec_score_value(kind: EnemyKind) -> u32 {
    match kind {
        EnemyKind::Dust => 10,
        EnemyKind::Oil => 15,
        EnemyKind::Mud => 30,
    }
}

pub open spec fn spec_contact_damage(kind: EnemyKind) -> i32 {
    match kind {
        EnemyKind::Mud => 2,
        _ => 1,
    }
}

impl EnemyKind {
    /// The kind that a percentile roll in `0..100` selects.
    pub fn from_roll(roll: u32) -> (r: EnemyKind)
        requires
            roll < 100,
        ensures
            r == spec_kind_from_roll(roll),
    {
        if roll <= 44 {
            EnemyKind::Dust
        } else if roll <= 84 {
            EnemyKind::Oil
        } else {
            EnemyKind::Mud
        }
    }

    /// A kind chosen at random: 45% dust, 40% oil, 15% mud.
    pub fn random() -> (r: EnemyKind)
        ensures
            exists|roll: u32| roll < 100 && r == spec_kind_from_roll(roll),
    {
        let roll = random_in_range(0, 99);
        EnemyKind::from_roll(roll)
    }

    /// Hits of power 1 needed to wrap the enemy in foam completely.
    pub fn max_health(self) -> (r: i32)
        ensures
            r == spec_max_health(self),
    {
        match self {
            EnemyKind::Dust => 3,
            EnemyKind::Oil => 6,
            EnemyKind::Mud => 9,
        }
    }

    /// Points earned for defeating an enemy of this kind.
    pub fn score_value(self) -> (r: u32)
        ensures
            r == spec_score_value(self),
    {
        match self {
            EnemyKind::Dust => 10,
            EnemyKind::Oil => 15,
            EnemyKind::Mud => 30,
        }
    }

    /// Health the player loses when an enemy of this kind reaches the centre.
    pub fn contact_damage(self) -> (r: i32)
        ensures
            r == spec_contact_damage(self),
    {
        match self {
            EnemyKind::Mud => 2,
            _ => 1,
        }
    }
}

/// Number of rolls below `n` that select `kind`.
pub open spec fn rolls_selecting(kind: EnemyKind, n: nat) -> nat
    decreases n,
{
    if n == 0 {
        0
    } else if spec_kind_from_roll((n - 1) as u32) == kind {
        rolls_selecting(kind, (n - 1) as nat) + 1
    } else {
        rolls_selecting(kind, (n - 1) as nat)
    }
}

proof fn lemma_rolls_selecting_prefix(n: nat)
    requires
        n <= 100,
    ensures
        rolls_selecting(EnemyKind::Dust, n) == if n <= 45 {
            n
        } else {
            45
        },
        rolls_selecting(EnemyKind::Oil, n) == if n <= 45 {
            0
        } else if n <= 85 {
            (n - 45) as nat
        } else {
            40
        },
        rolls_selecting(EnemyKind::Mud, n) == if n <= 85 {
            0
        } else {
            (n - 85) as nat
        },
    decreases n,
{
    if n > 0 {
        lemma_rolls_selecting_prefix((n - 1) as nat);
    }
}

/// Of the hundred equally likely rolls, 45 give dust, 40 give oil and 15 give
/// mud.
pub proof fn lemma_kind_shares()
    ensures
        rolls_selecting(EnemyKind::Dust, 100) == 45,
        rolls_selecting(EnemyKind::Oil, 100) == 40,
        rolls_selecting(EnemyKind::Mud, 100) == 15,
{
    lemma_rolls_selecting_prefix(100);
}

/// An enemy: its kind and the hits still needed to wrap it in foam.
#[derive(Clone, Copy, PartialEq, Eq, Debug)]
pub struct Enemy {
    pub kind: EnemyKind,
    pub health: i32,
}

impl Enemy {
    /// A freshly spawned enemy at full health.
    pub fn new(kind: EnemyKind) -> (r: Enemy)
        ensures
            r.kind == kind,
            r.health == spec_max_health(kind),
    {
        Enemy { kind, health: kind.max_health() }
    }
}

/// How many decorative foam puffs already surround an enemy.
#[derive(Clone, Copy, PartialEq, Eq, Debug)]
pub struct FoamCoat {
    puff_count: u8,
}

/// Puffs that one hit adds to a coat that already has `count` puffs.
pub open spec fn spec_puffs_added(count: u8) -> u8 {
    if count >= FOAM_PUFFS_MAX_PER_ENEMY {
        0
    } else if FOAM_PUFFS_MAX_PER_ENEMY - count < FOAM_PUFFS_PER_HIT {
        (FOAM_PUFFS_MAX_PER_ENEMY - count) as u8
    } else {
        FOAM_PUFFS_PER_HIT
    }
}

impl Default for FoamCoat {
    /// A coat without puffs.
    fn default() -> (r: FoamCoat)
        ensures
            r.count() == 0,
    {
        FoamCoat { puff_count: 0 }
    }
}

impl FoamCoat {
    pub closed spec fn count(self) -> u8 {
        self.puff_count
    }

    pub fn puff_count(&self) -> (r: u8)
        ensures
            r == self.count(),
    {
        self.puff_count
    }
}

/// Grows the coat by up to `FOAM_PUFFS_PER_HIT` puffs without going past
/// `FOAM_PUFFS_MAX_PER_ENEMY`, and returns how many puffs were added. The new
/// puffs carry the indices from the old count up to the new count.
pub fn add_foam_puffs(coat: &mut FoamCoat) -> (added: u8)
    ensures
        added == spec_puffs_added(old(coat).count()),
        final(coat).count() == old(coat).count() + added,
        old(coat).count() <= FOAM_PUFFS_MAX_PER_ENEMY ==> final(coat).count()
            <= FOAM_PUFFS_MAX_PER_ENEMY,
        added <= FOAM_PUFFS_PER_HIT,
        old(coat).count() + FOAM_PUFFS_PER_HIT <= FOAM_PUFFS_MAX_PER_ENEMY ==> added
            == FOAM_PUFFS_PER_HIT,
        old(coat).count() < FOAM_PUFFS_MAX_PER_ENEMY ==> added > 0 && final(coat).count()
            == (if old(coat).count() + FOAM_PUFFS_PER_HIT <= FOAM_PUFFS_MAX_PER_ENEMY {
            old(coat).count() + FOAM_PUFFS_PER_HIT
        } else {
            FOAM_PUFFS_MAX_PER_ENEMY as int
        }),
        old(coat).count() >= FOAM_PUFFS_MAX_PER_ENEMY ==> added == 0 && final(coat).count()
            == old(coat).count(),
{
    if coat.puff_count >= FOAM_PUFFS_MAX_PER_ENEMY {
        return 0;
    }
    let room: u8 = FOAM_PUFFS_MAX_PER_ENEMY - coat.puff_count;
    let added: u8 = if room < FOAM_PUFFS_PER_HIT {
        room
    } else {
        FOAM_PUFFS_PER_HIT
    };
    coat.puff_count = coat.puff_count + added;
    added
}

/// An enemy of kind `kind` reached the centre: the player loses its contact
/// damage, health stops at zero, and the round ends when it gets there.
/// Returns whether the round is over.
pub fn enemy_reach_center(health: &mut Health, kind: EnemyKind) -> (game_over: bool)
    requires
        old(health).0 - spec_contact_damage(kind) >= i32::MIN,
    ensures
        game_over <==> old(health).0 - spec_contact_damage(kind) <= 0,
        final(health).0 == (if game_over {
            0
        } else {
            old(health).0 - spec_contact_damage(kind)
        }),
{
    health.0 = health.0 - kind.contact_damage();
    if health.0 <= 0 {
        health.0 = 0;
        true
    } else {
        false
    }
}

/// However much health the player had, contact damage never leaves it
/// negative, and a round that goes on keeps strictly less health than before.
pub proof fn lemma_contact_damage_bounds(before: i32, kind: EnemyKind)
    requires
        before - spec_contact_damage(kind) >= i32::MIN,
    ensures
        ({
            let after = before - spec_contact_damage(kind);
            let kept: int = if after <= 0 {
                0
            } else {
                after
            };
            &&& kept >= 0
            &&& after > 0 ==> kept < before
        }),
{
}

} // verus!
