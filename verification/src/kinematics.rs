//! One frame of a kinematic body, as a conversation with the host.
//!
//! The host owns the collision engine, the transforms and the arithmetic. For each body it creates a
//! [`BodyUpdate`], carries out the [`Action`] that each call of [`BodyUpdate::advance`] returns, and
//! hands the outcome back as the next [`Event`], until the action is [`Action::Finish`].

use vstd::prelude::*;

use crate::body::{ColliderShape, KinematicBody, TileCollisionKind};
use crate::geometry::{Aabb, Rect, Scalar, Vec2};

verus! {

/// How far a body is probed beyond its bounding box when it is shoved out of a wall, in tenths of a
/// unit. The collision engine counts a box that lines up with the edge of a tile as touching it,
/// while the point test does not, so the corners are tested a little further out.
pub const CORNER_BORDER_TENTHS: u32 = 1;

/// How far below its feet the ground test of a body looks, in tenths of a unit.
pub const GROUND_PROBE_TENTHS: u32 = 1;

/// How far one shove moves a body, in whole units.
pub const SHOVE_UNITS: u32 = 1;

/// The settings of the physics that all bodies share.
#[derive(Clone, Copy, Debug, PartialEq, Eq, Structural)]
pub struct PhysicsMeta {
    pub gravity: Scalar,
    pub terminal_velocity: Scalar,
    pub friction_lerp: Scalar,
    pub stop_threshold: Scalar,
}

/// Whether there is a solid tile at each corner of a body's bounding box.
#[derive(Clone, Copy, Debug, PartialEq, Eq, Structural)]
pub struct Corners {
    pub top_left: bool,
    pub top_right: bool,
    pub bottom_right: bool,
    pub bottom_left: bool,
}

/// A direction in which a body is shoved.
#[derive(Clone, Copy, Debug, PartialEq, Eq, Structural)]
pub enum Direction {
    Up,
    Right,
    Down,
    Left,
}

/// What to do about a body that is inside of a wall.
#[derive(Clone, Copy, Debug, PartialEq, Eq, Structural)]
pub enum Shove {
    /// The body overlaps a wall although none of its corners does.
    Stuck,
    /// Move the body by [`SHOVE_UNITS`].
    Toward(Direction),
    /// Every side of the body is blocked, so there is no direction to move in.
    GiveUp,
}

/// How a body's angle changes in a frame.
#[derive(Clone, Copy, Debug, PartialEq, Eq, Structural)]
pub enum RotationChange {
    /// The angle stays.
    Keep,
    /// The angle grows by the horizontal speed times the angular velocity.
    Roll,
    /// The angle grows by what the angular velocity covers in the frame.
    Spin,
}

impl Corners {
    /// Whether no corner is in a wall.
    pub open spec fn all_free(self) -> bool {
        !self.top_left && !self.top_right && !self.bottom_right && !self.bottom_left
    }

    /// Whether neither corner on the given side is in a wall.
    pub open spec fn side_free(self, side: Direction) -> bool {
        match side {
            Direction::Up => !self.top_left && !self.top_right,
            Direction::Right => !self.top_right && !self.bottom_right,
            Direction::Down => !self.bottom_right && !self.bottom_left,
            Direction::Left => !self.top_left && !self.bottom_left,
        }
    }

    /// The way out of the wall: toward the first free side, going clockwise from the top.
    pub open spec fn way_out(self) -> Shove {
        if self.all_free() {
            Shove::Stuck
        } else if self.side_free(Direction::Up) {
            Shove::Toward(Direction::Up)
        } else if self.side_free(Direction::Right) {
            Shove::Toward(Direction::Right)
        } else if self.side_free(Direction::Down) {
            Shove::Toward(Direction::Down)
        } else if self.side_free(Direction::Left) {
            Shove::Toward(Direction::Left)
        } else {
            Shove::GiveUp
        }
    }

    /// Decides which way a body with these corners is shoved out of a wall.
    pub fn shove(self) -> (shove: Shove)
        ensures
            shove == self.way_out(),
    {
        match (self.top_left, self.top_right, self.bottom_right, self.bottom_left) {
            (false, false, false, false) => Shove::Stuck,
            (false, false, _, _) => Shove::Toward(Direction::Up),
            (_, false, false, _) => Shove::Toward(Direction::Right),
            (_, _, false, false) => Shove::Toward(Direction::Down),
            (false, _, _, false) => Shove::Toward(Direction::Left),
            _ => Shove::GiveUp,
        }
    }
}

/// The change of angle of a body: a circle on the ground rolls, any other shape on the ground keeps
/// its angle, and a body in the air spins.
pub open spec fn rotation_of(is_on_ground: bool, shape: ColliderShape) -> RotationChange {
    if !is_on_ground {
        RotationChange::Spin
    } else if shape is Circle {
        RotationChange::Roll
    } else {
        RotationChange::Keep
    }
}

/// Decides how rotation applies to a kinematic body.
pub fn apply_rotation(is_on_ground: bool, shape: ColliderShape) -> (change: RotationChange)
    ensures
        change == rotation_of(is_on_ground, shape),
{
    if is_on_ground {
        match shape {
            ColliderShape::Circle { .. } => RotationChange::Roll,
            ColliderShape::Rectangle { .. } => RotationChange::Keep,
        }
    } else {
        RotationChange::Spin
    }
}

/// Whether a tile takes part in a body's ground test. A body that is on its way through a platform
/// has seen its wood, and then only tiles that are known and are no platforms count.
pub open spec fn counts_as_ground(seen_wood: bool, tile: Option<TileCollisionKind>) -> bool {
    seen_wood ==> (tile matches Some(kind) && kind != TileCollisionKind::JumpThrough)
}

/// Decides whether a tile takes part in a body's ground test.
pub fn ground_filter(seen_wood: bool, tile: Option<TileCollisionKind>) -> (counts: bool)
    ensures
        counts == counts_as_ground(seen_wood, tile),
{
    if seen_wood {
        match tile {
            Some(kind) => kind != TileCollisionKind::JumpThrough,
            None => false,
        }
    } else {
        true
    }
}

/// Decides whether a tile takes part in the test for bodies that are caught in a platform: only
/// tiles that are known to be platforms do.
pub fn platform_filter(tile: Option<TileCollisionKind>) -> (counts: bool)
    ensures
        counts == (tile == Some(TileCollisionKind::JumpThrough)),
{
    match tile {
        Some(kind) => kind == TileCollisionKind::JumpThrough,
        None => false,
    }
}

/// What the update of a body asks of the host.
#[derive(Clone, Copy, Debug, PartialEq, Eq, Structural)]
pub enum Action {
    /// Disable or enable the body's collider. Answer with [`Event::Done`].
    SetColliderDisabled { disabled: bool },
    /// Read the body's transform, and compare it with where the body was when it was last updated.
    /// Answer with [`Event::Transform`].
    ReadTransform { last_position: Vec2, last_rotation: Scalar },
    /// Test the shape at the body's transform against all tiles. Answer with [`Event::Tile`].
    TestTile { shape: ColliderShape },
    /// Compute the box around the shape at the body's transform. Answer with [`Event::Bounds`].
    ComputeBounds { shape: ColliderShape },
    /// Test for solid tiles at the corners of the rectangle, each moved outward by
    /// [`CORNER_BORDER_TENTHS`]. Answer with [`Event::Corners`].
    ProbeCorners { rect: Rect },
    /// Move the body's transform by [`SHOVE_UNITS`]. Answer with [`Event::Done`].
    Shove { toward: Direction },
    /// Give the body's collider this shape. Answer with [`Event::Done`].
    SyncShape { shape: ColliderShape },
    /// Reset the body's collider as if the body had just been put where it is. Answer with
    /// [`Event::Done`].
    Teleport,
    /// Let the body's collider pass through the platform it is on. Answer with [`Event::Done`].
    Descend,
    /// Move the body up by what the velocity covers in the frame. Answer with [`Event::Answer`]:
    /// whether it was stopped.
    MoveVertical { velocity: Scalar },
    /// Move the body to the right by what the velocity covers in the frame. Answer with
    /// [`Event::Answer`]: whether it was stopped.
    MoveHorizontal { velocity: Scalar },
    /// Multiply the velocity with the negated bounciness. Answer with [`Event::Value`].
    Bounce { velocity: Scalar, bounciness: Scalar },
    /// Compare both parts of the velocity with zero. Answer with [`Event::Answer`]: whether both
    /// are equal to it.
    CompareStill { both: Vec2 },
    /// Test the shape at the body's transform against the tiles that [`platform_filter`] admits.
    /// Answer with [`Event::Tile`].
    TestPlatform { shape: ColliderShape },
    /// Test the shape [`GROUND_PROBE_TENTHS`] below the body's transform against the tiles that
    /// [`ground_filter`] admits. Answer with [`Event::Tile`].
    TestGround { shape: ColliderShape },
    /// Multiply the velocity with the factor. Answer with [`Event::Value`].
    Slow { velocity: Scalar, factor: Scalar },
    /// Answer with [`Event::Answer`]: whether the absolute velocity is at most the threshold.
    CompareStop { velocity: Scalar, threshold: Scalar },
    /// Answer with [`Event::Answer`]: whether the velocity is at most what gravity adds in the
    /// frame.
    CompareLanded { velocity: Scalar, gravity: Scalar },
    /// Subtract what gravity adds in the frame from the velocity. Answer with [`Event::Value`].
    Fall { velocity: Scalar, gravity: Scalar },
    /// Answer with [`Event::Answer`]: whether the velocity is less than the negated terminal
    /// velocity.
    CompareTerminal { velocity: Scalar, terminal_velocity: Scalar },
    /// Negate the number. Answer with [`Event::Value`].
    Negate { value: Scalar },
    /// Apply the change to the body's angle. Answer with [`Event::Done`].
    Rotate { change: RotationChange, velocity: Scalar, angular_velocity: Scalar },
    /// The body is up to date.
    Finish,
    /// The event does not answer the last action; nothing has changed.
    Unexpected,
}

/// What the host reports back.
#[derive(Clone, Copy, Debug, PartialEq, Eq, Structural)]
pub enum Event {
    /// The action has been carried out.
    Done,
    /// Where the body is, and whether its position and its rotation about the z axis differ from
    /// the ones it had when it was last updated.
    Transform { position: Vec2, rotation: Scalar, position_changed: bool, rotation_changed: bool },
    /// What a shape touches.
    Tile(TileCollisionKind),
    /// The box around a shape.
    Bounds(Aabb),
    /// Which corners are in a wall.
    Corners(Corners),
    /// The outcome of a test.
    Answer(bool),
    /// The outcome of a computation.
    Value(Scalar),
}

/// How far the update of a body has come: each phase waits for the answer to one action.
#[derive(Clone, Copy, Debug, PartialEq, Eq, Structural)]
pub enum Phase {
    /// The collider is being disabled or enabled; `moves` tells whether the update goes on then.
    Toggle { moves: bool },
    Transform,
    ShoveTile,
    ShoveBounds,
    ShoveCorners,
    Shove,
    Shape,
    Teleport,
    Descend,
    MoveVertical,
    BounceVertical,
    MoveHorizontal,
    BounceHorizontal,
    Still,
    Platform,
    Ground,
    SlowHorizontal,
    Stop,
    SlowVertical,
    Landed,
    Fall,
    Terminal,
    Clamp,
    Rotate,
    Finished,
}

/// The update of one kinematic body in one frame.
#[derive(Clone, Copy, Debug, PartialEq, Eq, Structural)]
pub struct BodyUpdate {
    pub phase: Phase,
    pub body: KinematicBody,
    /// Whether the body has moved since it was last updated.
    pub has_moved: bool,
}

/// A body that has not seen the wood of a platform is tested against every tile. One that has is
/// tested against all tiles that are known, except platforms.
pub proof fn law_ground_filter(tile: Option<TileCollisionKind>)
    ensures
        counts_as_ground(false, tile),
        counts_as_ground(true, tile) <==> tile == Some(TileCollisionKind::Empty) || tile == Some(
            TileCollisionKind::Solid,
        ),
{
}

/// How rotation applies: only in the air a body spins, and only circles roll.
pub proof fn law_rotation(is_on_ground: bool, shape: ColliderShape)
    ensures
        rotation_of(is_on_ground, shape) is Spin <==> !is_on_ground,
        rotation_of(is_on_ground, shape) is Roll <==> is_on_ground && shape is Circle,
        rotation_of(is_on_ground, shape) is Keep <==> is_on_ground && !(shape is Circle),
{
}

} // verus!
