//! Kinematic bodies and what surrounds them in the world.

use vstd::prelude::*;

use crate::geometry::{Aabb, Rect, Scalar, Vec2};

verus! {

/// The outline that a body collides with.
#[derive(Clone, Copy, Debug, PartialEq, Eq, Structural)]
pub enum ColliderShape {
    Circle { diameter: Scalar },
    Rectangle { size: Vec2 },
}

/// What a shape touches when it is tested against the tiles of the map.
#[derive(Clone, Copy, Debug, PartialEq, Eq, Structural)]
pub enum TileCollisionKind {
    /// Nothing.
    Empty,
    /// A tile that stops every movement.
    Solid,
    /// A platform that can be jumped and dropped through.
    JumpThrough,
}

/// A kinematic physics body
///
/// Used primarily for players and things that need to walk around, detect what kind of platform
/// they are standing on, etc.
///
/// For now, all kinematic bodies have axis-aligned, rectangular colliders. This may or may not
/// change in the future.
#[derive(Clone, Copy, Debug, PartialEq, Eq, Structural)]
pub struct KinematicBody {
    pub velocity: Vec2,
    pub shape: ColliderShape,
    /// Angular velocity in degrees per second
    pub angular_velocity: Scalar,
    pub gravity: Scalar,
    pub bounciness: Scalar,
    /// Sets a 1 frame override for the body friction. It will be re-set to `None` every frame so if
    /// you wish to apply a continuous friction change, you must re-set it every frame.
    ///
    /// This is useful for things like slippery blocks or other things that want to modify a body's
    /// friction while it is on the block.
    pub frame_friction_override: Option<Scalar>,
    pub is_on_ground: bool,
    pub was_on_ground: bool,
    /// Will be `true` if the body is currently on top of a platform/jumpthrough tile
    pub is_on_platform: bool,
    /// If this is `true` the body will be affected by gravity
    pub has_mass: bool,
    pub has_friction: bool,
    pub can_rotate: bool,
    /// Whether or not physics has been disabled for this body.
    pub is_deactivated: bool,
    /// Whether or not the body should fall through jump_through platforms
    pub fall_through: bool,
    /// Indicates that we should reset the collider like it was just added to the world.
    ///
    /// This is important to make sure that it falls through JumpThrough platforms if it happens to
    /// spawn inside of one.
    pub is_spawning: bool,
    /// If body is controlled by player or some system simulating input.
    /// Allows us to make safe optimizations of non-controlled kinematics that have not moved.
    pub is_controlled: bool,
    /// Position cached from last kinematic body update, used to determine if object is "sleeping"
    /// (is not moving) to avoid collision detection / resolution against static objects.
    pub last_update_position: Vec2,
    /// See comment for `last_update_position`, this tracks previous rotation to detect if object has moved.
    pub last_update_rotation: Scalar,
}

impl KinematicBody {
    /// Whether the body has no settings but its shape: it rests, and nothing acts on it.
    pub open spec fn is_plain(self) -> bool {
        &&& self.velocity.x == Scalar::zero() && self.velocity.y == Scalar::zero()
        &&& self.angular_velocity == Scalar::zero()
        &&& self.gravity == Scalar::zero()
        &&& self.bounciness == Scalar::zero()
        &&& self.frame_friction_override is None
        &&& !self.is_on_ground && !self.was_on_ground && !self.is_on_platform
        &&& !self.has_mass && !self.has_friction && !self.can_rotate
        &&& !self.is_deactivated && !self.fall_through && !self.is_spawning && !self.is_controlled
        &&& self.last_update_position.x == Scalar::zero()
        &&& self.last_update_position.y == Scalar::zero()
        &&& self.last_update_rotation == Scalar::zero()
    }

    /// The default body with the given shape.
    pub fn with_shape(shape: ColliderShape) -> (body: KinematicBody)
        ensures
            body.shape == shape,
            body.is_plain(),
    {
        KinematicBody {
            velocity: Vec2::default(),
            shape,
            angular_velocity: Scalar::zero(),
            gravity: Scalar::zero(),
            bounciness: Scalar::zero(),
            frame_friction_override: None,
            is_on_ground: false,
            was_on_ground: false,
            is_on_platform: false,
            has_mass: false,
            has_friction: false,
            can_rotate: false,
            is_deactivated: false,
            fall_through: false,
            is_spawning: false,
            is_controlled: false,
            last_update_position: Vec2::default(),
            last_update_rotation: Scalar::zero(),
        }
    }

    /// Get the body's axis-aligned-bounding-box ( AABB ).
    ///
    /// An AABB is the smallest non-rotated rectangle that completely contains the the collision
    /// shape.
    ///
    /// `aabb` is the box that the collision engine computes from the body's shape and transform; with
    /// the body's global transform this is the world-space bounding box.
    pub fn bounding_box(&self, aabb: Aabb) -> (rect: Rect)
        ensures
            rect.min == aabb.mins,
            rect.max == aabb.maxs,
    {
        Rect { min: Vec2 { x: aabb.mins.x, y: aabb.mins.y }, max: Vec2 { x: aabb.maxs.x, y: aabb.maxs.y } }
    }
}

/// A body with no settings but its shape does not move, and nothing acts on it: no gravity, no
/// friction, no rotation, no controls. It is not on the ground, not spawning and not deactivated.
pub proof fn law_plain_body_rests(body: KinematicBody)
    requires
        body.is_plain(),
    ensures
        body.velocity.x.bits == 0 && body.velocity.y.bits == 0,
        body.angular_velocity.bits == 0 && body.gravity.bits == 0 && body.bounciness.bits == 0,
        body.frame_friction_override is None,
        !body.has_mass && !body.has_friction && !body.can_rotate && !body.is_controlled,
        !body.is_on_ground && !body.was_on_ground && !body.is_on_platform,
        !body.is_deactivated && !body.is_spawning && !body.fall_through,
        body.last_update_position.x.bits == 0 && body.last_update_position.y.bits == 0,
        body.last_update_rotation.bits == 0,
{
}

} // verus!
