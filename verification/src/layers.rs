//! Physics collision layers and which bodies may collide.
//!
//! Two bodies collide only when each one's memberships share a layer with the
//! other one's filters. The layer choices below make flying bubbles pass
//! through each other but land on the floor and on settled foam, let settled
//! foam stack on settled foam, and keep enemies out of physical contact with
//! bubbles (bubble/enemy contact is decided by distance instead).

use vstd::prelude::*;

verus! {

#[derive(Clone, Copy, PartialEq, Eq, Debug)]
pub enum GameLayer {
    Default,
    Floor,
    Bubble,
    LandedBubble,
    Enemy,
}

impl Default for GameLayer {
    /// Bodies without a layer of their own belong to `Default`.
    fn default() -> (r: GameLayer)
        ensures
            r == GameLayer::Default,
    {
        GameLayer::Default
    }
}

/// A set of layers.
#[derive(Clone, Copy, PartialEq, Eq, Debug)]
pub struct LayerMask {
    pub default: bool,
    pub floor: bool,
    pub bubble: bool,
    pub landed_bubble: bool,
    pub enemy: bool,
}

/// The layers a body belongs to and the layers it accepts collisions from.
#[derive(Clone, Copy, PartialEq, Eq, Debug)]
pub struct CollisionLayers {
    pub memberships: LayerMask,
    pub filters: LayerMask,
}

/// The kinds of bodies that take part in physics.
#[derive(Clone, Copy, PartialEq, Eq, Debug)]
pub enum BodyKind {
    Floor,
    /// A bubble still in flight.
    Bubble,
    /// A bubble that has settled and now acts as terrain.
    LandedBubble,
    Enemy,
}

pub open spec fn mask_has(m: LayerMask, l: GameLayer) -> bool {
    match l {
        GameLayer::Default => m.default,
        GameLayer::Floor => m.floor,
        GameLayer::Bubble => m.bubble,
        GameLayer::LandedBubble => m.landed_bubble,
        GameLayer::Enemy => m.enemy,
    }
}

pub open spec fn masks_intersect(a: LayerMask, b: LayerMask) -> bool {
    exists|l: GameLayer| mask_has(a, l) && mask_has(b, l)
}

/// Whether two bodies with these layers collide.
pub open spec fn layers_interact(a: CollisionLayers, b: CollisionLayers) -> bool {
    masks_intersect(a.memberships, b.filters) && masks_intersect(b.memberships, a.filters)
}

/// The mask holding exactly the layers whose flags are set.
pub open spec fn mask(floor: bool, bubble: bool, landed_bubble: bool, enemy: bool) -> LayerMask {
    LayerMask { default: false, floor, bubble, landed_bubble, enemy }
}

pub open spec fn spec_body_layers(body: BodyKind) -> CollisionLayers {
    match body {
        BodyKind::Floor => CollisionLayers {
            memberships: mask(true, false, false, false),
            filters: mask(false, true, true, true),
        },
        BodyKind::Bubble => CollisionLayers {
            memberships: mask(false, true, false, false),
            filters: mask(true, false, true, false),
        },
        BodyKind::LandedBubble => CollisionLayers {
            memberships: mask(false, false, true, false),
            filters: mask(true, true, true, false),
        },
        BodyKind::Enemy => CollisionLayers {
            memberships: mask(false, false, false, true),
            filters: mask(true, true, true, false),
        },
    }
}

fn exec_mask(floor: bool, bubble: bool, landed_bubble: bool, enemy: bool) -> (r: LayerMask)
    ensures
        r == mask(floor, bubble, landed_bubble, enemy),
{
    LayerMask { default: false, floor, bubble, landed_bubble, enemy }
}

/// The collision layers of each kind of body: the floor is hit by bubbles,
/// settled foam and enemies; a flying bubble is hit by the floor and settled
/// foam; settled foam by the floor, flying bubbles and other settled foam; an
/// enemy by the floor and by both kinds of bubble.
pub fn body_layers(body: BodyKind) -> (r: CollisionLayers)
    ensures
        r == spec_body_layers(body),
{
    match body {
        BodyKind::Floor => CollisionLayers {
            memberships: exec_mask(true, false, false, false),
            filters: exec_mask(false, true, true, true),
        },
        BodyKind::Bubble => CollisionLayers {
            memberships: exec_mask(false, true, false, false),
            filters: exec_mask(true, false, true, false),
        },
        BodyKind::LandedBubble => CollisionLayers {
            memberships: exec_mask(false, false, true, false),
            filters: exec_mask(true, true, true, false),
        },
        BodyKind::Enemy => CollisionLayers {
            memberships: exec_mask(false, false, false, true),
            filters: exec_mask(true, true, true, false),
        },
    }
}

/// Whether two kinds of body collide.
pub open spec fn bodies_collide(a: BodyKind, b: BodyKind) -> bool {
    layers_interact(spec_body_layers(a), spec_body_layers(b))
}

/// The collision table the layers produce: the floor holds up bubbles,
/// settled foam and enemies; flying bubbles pass through each other but land
/// on settled foam; settled foam stacks on settled foam; bubbles and enemies
/// never touch physically, and enemies pass through each other.
pub proof fn lemma_collision_table()
    ensures
        bodies_collide(BodyKind::Floor, BodyKind::Bubble),
        bodies_collide(BodyKind::Floor, BodyKind::LandedBubble),
        bodies_collide(BodyKind::Floor, BodyKind::Enemy),
        !bodies_collide(BodyKind::Floor, BodyKind::Floor),
        !bodies_collide(BodyKind::Bubble, BodyKind::Bubble),
        bodies_collide(BodyKind::Bubble, BodyKind::LandedBubble),
        bodies_collide(BodyKind::LandedBubble, BodyKind::LandedBubble),
        !bodies_collide(BodyKind::Bubble, BodyKind::Enemy),
        !bodies_collide(BodyKind::LandedBubble, BodyKind::Enemy),
        !bodies_collide(BodyKind::Enemy, BodyKind::Enemy),
{
    assert(mask_has(spec_body_layers(BodyKind::Floor).memberships, GameLayer::Floor));
    assert(mask_has(spec_body_layers(BodyKind::Bubble).memberships, GameLayer::Bubble));
    assert(mask_has(spec_body_layers(BodyKind::LandedBubble).memberships, GameLayer::LandedBubble));
    assert(mask_has(spec_body_layers(BodyKind::Enemy).memberships, GameLayer::Enemy));
}

/// Collision between kinds of body does not depend on the order of the pair.
pub proof fn lemma_collision_symmetric(a: BodyKind, b: BodyKind)
    ensures
        bodies_collide(a, b) == bodies_collide(b, a),
{
}

} // verus!
