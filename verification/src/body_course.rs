//! What each answer of the host comes to for a kinematic body, up to the end of its update.

use vstd::prelude::*;

use crate::body::{KinematicBody, TileCollisionKind};
use crate::geometry::{Aabb, Rect, Scalar, Vec2};
use crate::kinematics::{
    Action, BodyUpdate, Corners, Direction, Event, PhysicsMeta, RotationChange,
};

verus! {

/// What is asked last for a body whose velocity is settled: to rotate it if it can rotate. In the air
/// it spins, on the ground a circle rolls, and any other shape keeps its angle.
pub open spec fn closing(body: KinematicBody) -> Action {
    if !body.can_rotate {
        Action::Finish
    } else {
        Action::Rotate {
            change: if !body.is_on_ground {
                RotationChange::Spin
            } else if body.shape is Circle {
                RotationChange::Roll
            } else {
                RotationChange::Keep
            },
            velocity: body.velocity.x,
            angular_velocity: body.angular_velocity,
        }
    }
}

/// Whether a body that comes to the given state with the given action stays as it is to the end of
/// its update, whatever the host reports.
pub open spec fn settled(update: BodyUpdate, action: Action, meta: PhysicsMeta, body: KinematicBody) -> bool {
    &&& update.body == body
    &&& action == closing(body)
    &&& action is Finish <==> update.phase is Finished
    &&& update.next(meta, Event::Done).1 is Finish || update.phase is Finished
    &&& forall|rest: Seq<Event>| (#[trigger] update.after(meta, rest)).body == body
}

proof fn lemma_rest_keeps(update: BodyUpdate, meta: PhysicsMeta, rest: Seq<Event>)
    requires
        update.phase is Rotate || update.phase is Finished,
    ensures
        update.after(meta, rest).body == update.body,
        update.after(meta, rest).phase is Rotate || update.after(meta, rest).phase is Finished,
    decreases rest.len(),
{
    if rest.len() > 0 {
        lemma_rest_keeps(update, meta, rest.drop_last());
    }
}

proof fn lemma_settled(update: BodyUpdate, action: Action, meta: PhysicsMeta)
    requires
        action == closing(update.body),
        if update.body.can_rotate {
            update.phase is Rotate
        } else {
            update.phase is Finished
        },
    ensures
        settled(update, action, meta, update.body),
{
    assert forall|rest: Seq<Event>| (#[trigger] update.after(meta, rest)).body == update.body by {
        lemma_rest_keeps(update, meta, rest);
    }
}

/// The first thing that is asked for a body is to disable its collider if it is deactivated, and to
/// enable it otherwise. For a deactivated body, or one that is simulated as a dynamic body, that is
/// all; for any other the host is asked where it is, beside where it was last.
pub proof fn law_update_starts(body: KinematicBody, is_dynamic: Option<bool>, meta: PhysicsMeta)
    ensures
        ({
            let (update, action) = BodyUpdate::started(body, is_dynamic);
            let (later, next) = update.next(meta, Event::Done);
            let rests = body.is_deactivated || is_dynamic == Some(true);
            &&& action == (Action::SetColliderDisabled { disabled: body.is_deactivated })
            &&& rests ==> next is Finish && later.phase is Finished && later.body == (KinematicBody {
                frame_friction_override: None,
                ..body
            })
            &&& !rests ==> later.phase is Transform && later.body == body && next
                == (Action::ReadTransform {
                last_position: body.last_update_position,
                last_rotation: body.last_update_rotation,
            })
        }),
{
}

/// A body has moved if its position or its rotation has changed or it is spawning. Where it is now is
/// remembered for the next frame, and nothing else changes. A body with mass that has moved is tested
/// against the walls; for any other the collider takes over the shape at once.
pub proof fn law_place_is_remembered(
    update: BodyUpdate,
    meta: PhysicsMeta,
    position: Vec2,
    rotation: Scalar,
    position_changed: bool,
    rotation_changed: bool,
)
    requires
        update.phase is Transform,
    ensures
        ({
            let body = update.body;
            let moved = position_changed || rotation_changed || body.is_spawning;
            let (later, action) = update.next(
                meta,
                Event::Transform { position, rotation, position_changed, rotation_changed },
            );
            &&& later.has_moved == moved
            &&& later.body == (KinematicBody {
                last_update_position: position,
                last_update_rotation: rotation,
                ..body
            })
            &&& body.has_mass && moved ==> later.phase is ShoveTile && action == (Action::TestTile {
                shape: body.shape,
            })
            &&& !(body.has_mass && moved) ==> later.phase is Shape && action == (Action::SyncShape {
                shape: body.shape,
            })
        }),
{
}

/// Only a body that touches a solid tile is to be shoved. Its corners are probed at the box around
/// its shape, and it is shoved one unit: up if both upper corners are free and a lower one is not;
/// else to the right if both right corners are free; else down if both lower corners are free; else
/// to the left if both left corners are free. If all corners are free, or none of the sides is, it is
/// left where it is. After a shove it is tested again. None of this changes the body.
pub proof fn law_walls_push_bodies_out(
    update: BodyUpdate,
    meta: PhysicsMeta,
    tile: TileCollisionKind,
    aabb: Aabb,
    corners: Corners,
)
    requires
        update.body.has_mass,
        update.has_moved,
    ensures
        update.phase is ShoveTile ==> ({
            let (later, action) = update.next(meta, Event::Tile(tile));
            &&& later.body == update.body && later.has_moved
            &&& tile == TileCollisionKind::Solid ==> later.phase is ShoveBounds && action
                == (Action::ComputeBounds { shape: update.body.shape })
            &&& tile != TileCollisionKind::Solid ==> later.phase is Shape && action
                == (Action::SyncShape { shape: update.body.shape })
        }),
        update.phase is ShoveBounds ==> ({
            let (later, action) = update.next(meta, Event::Bounds(aabb));
            &&& later.body == update.body && later.has_moved
            &&& later.phase is ShoveCorners
            &&& action == (Action::ProbeCorners { rect: Rect { min: aabb.mins, max: aabb.maxs } })
        }),
        update.phase is ShoveCorners ==> ({
            let (later, action) = update.next(meta, Event::Corners(corners));
            let Corners { top_left, top_right, bottom_right, bottom_left } = corners;
            let up = !top_left && !top_right && (bottom_right || bottom_left);
            let right = top_left && !top_right && !bottom_right;
            let down = top_right && !bottom_right && !bottom_left;
            let left = !top_left && top_right && bottom_right && !bottom_left;
            &&& later.body == update.body && later.has_moved
            &&& up <==> action == (Action::Shove { toward: Direction::Up })
            &&& right <==> action == (Action::Shove { toward: Direction::Right })
            &&& down <==> action == (Action::Shove { toward: Direction::Down })
            &&& left <==> action == (Action::Shove { toward: Direction::Left })
            &&& up || right || down || left ==> later.phase is Shove
            &&& !(up || right || down || left) ==> later.phase is Shape && action
                == (Action::SyncShape { shape: update.body.shape })
        }),
        update.phase is Shove ==> ({
            let (later, action) = update.next(meta, Event::Done);
            &&& later.body == update.body && later.has_moved
            &&& later.phase is ShoveTile
            &&& action == (Action::TestTile { shape: update.body.shape })
        }),
{
}

/// Before a body moves, its collider is reset if it is spawning, which it is not any longer then, and
/// is let through platforms if it falls through them. It is then moved by its vertical velocity.
pub proof fn law_collider_is_prepared(update: BodyUpdate, meta: PhysicsMeta)
    requires
        update.phase is Shape || update.phase is Teleport || update.phase is Descend,
    ensures
        ({
            let body = update.body;
            let (later, action) = update.next(meta, Event::Done);
            let teleports = update.phase is Shape && body.is_spawning;
            let descends = !teleports && !(update.phase is Descend) && body.fall_through;
            &&& later.has_moved == update.has_moved
            &&& later.body == (if teleports {
                KinematicBody { is_spawning: false, ..body }
            } else {
                body
            })
            &&& teleports ==> later.phase is Teleport && action is Teleport
            &&& descends ==> later.phase is Descend && action is Descend
            &&& !teleports && !descends ==> later.phase is MoveVertical && action
                == (Action::MoveVertical { velocity: body.velocity.y })
        }),
{
}

/// A body that is stopped on its way up or down bounces with its bounciness: what the host makes of
/// its vertical velocity is its vertical velocity from then on. One that is not stopped keeps it. Its
/// horizontal velocity, by which it is moved next, is not touched.
pub proof fn law_vertical_bounce(update: BodyUpdate, meta: PhysicsMeta, bounced: Scalar)
    requires
        update.phase is MoveVertical,
    ensures
        ({
            let body = update.body;
            let (free, sideways) = update.next(meta, Event::Answer(false));
            let (stopped, bounce) = update.next(meta, Event::Answer(true));
            let (thrown, onward) = stopped.next(meta, Event::Value(bounced));
            &&& free.phase is MoveHorizontal && free.body == body && free.has_moved == update.has_moved
            &&& sideways == (Action::MoveHorizontal { velocity: body.velocity.x })
            &&& stopped.body == body
            &&& bounce == (Action::Bounce { velocity: body.velocity.y, bounciness: body.bounciness })
            &&& thrown.phase is MoveHorizontal && thrown.has_moved == update.has_moved
            &&& thrown.body == (KinematicBody {
                velocity: Vec2 { x: body.velocity.x, y: bounced },
                ..body
            })
            &&& onward == (Action::MoveHorizontal { velocity: body.velocity.x })
        }),
{
}

/// What comes when a body has been moved and has the given state: if it had moved before or is
/// controlled, the host is asked whether it stands still; otherwise the ground below it is tested.
pub open spec fn has_been_moved(moved: bool, body: KinematicBody, later: BodyUpdate, action: Action) -> bool {
    &&& later.has_moved == moved
    &&& if moved || body.is_controlled {
        later.phase is Still && later.body == body && action == (Action::CompareStill {
            both: body.velocity,
        })
    } else {
        tests_ground(body, later, action)
    }
}

/// What comes when the ground below a body is tested: whether it was on the ground is remembered, and
/// nothing else changes.
pub open spec fn tests_ground(body: KinematicBody, later: BodyUpdate, action: Action) -> bool {
    &&& later.phase is Ground
    &&& later.body == (KinematicBody { was_on_ground: body.is_on_ground, ..body })
    &&& action == (Action::TestGround { shape: body.shape })
}

/// A body that is stopped on its way sideways bounces with its bounciness: what the host makes of its
/// horizontal velocity is its horizontal velocity from then on. One that is not stopped keeps it. Its
/// vertical velocity is not touched.
pub proof fn law_horizontal_bounce(update: BodyUpdate, meta: PhysicsMeta, bounced: Scalar)
    requires
        update.phase is MoveHorizontal,
    ensures
        ({
            let body = update.body;
            let (free, onward) = update.next(meta, Event::Answer(false));
            let (stopped, bounce) = update.next(meta, Event::Answer(true));
            let (thrown, further) = stopped.next(meta, Event::Value(bounced));
            &&& has_been_moved(update.has_moved, body, free, onward)
            &&& stopped.body == body
            &&& bounce == (Action::Bounce { velocity: body.velocity.x, bounciness: body.bounciness })
            &&& has_been_moved(
                update.has_moved,
                KinematicBody { velocity: Vec2 { x: bounced, y: body.velocity.y }, ..body },
                thrown,
                further,
            )
        }),
{
}

/// Only a body that stands still is tested for floating in a platform, and only if it does it falls
/// through from then on. Either way the ground below it is tested next.
pub proof fn law_floating_is_noticed(update: BodyUpdate, meta: PhysicsMeta, tile: TileCollisionKind)
    requires
        update.phase is Still,
    ensures
        ({
            let body = update.body;
            let (moving, onward) = update.next(meta, Event::Answer(false));
            let (still, test) = update.next(meta, Event::Answer(true));
            let (tested, further) = still.next(meta, Event::Tile(tile));
            &&& tests_ground(body, moving, onward)
            &&& still.body == body && test == (Action::TestPlatform { shape: body.shape })
            &&& tests_ground(
                KinematicBody {
                    fall_through: body.fall_through || tile == TileCollisionKind::JumpThrough,
                    ..body
                },
                tested,
                further,
            )
        }),
{
}

/// The body once it is known what is below it: it is on the ground on a solid tile, and on a platform
/// unless it falls through; it is on a platform if it stands on one. The friction that was set for the
/// frame is gone.
pub open spec fn put_on(body: KinematicBody, tile: TileCollisionKind) -> KinematicBody {
    KinematicBody {
        is_on_ground: tile == TileCollisionKind::Solid || (tile == TileCollisionKind::JumpThrough
            && !body.fall_through),
        is_on_platform: tile == TileCollisionKind::JumpThrough && !body.fall_through,
        frame_friction_override: None,
        ..body
    }
}

/// When the ground test finds a body with mass in the air, gravity acts on it: at the end of its
/// update its vertical velocity is what the host made of it with gravity, if the host denied that
/// this is beyond terminal velocity, and the negated terminal velocity that the host computed
/// otherwise. Nothing else changes.
pub proof fn law_gravity(
    update: BodyUpdate,
    meta: PhysicsMeta,
    tile: TileCollisionKind,
    fallen: Scalar,
    clamped: Scalar,
)
    requires
        update.phase is Ground,
        update.body.has_mass,
        tile == TileCollisionKind::Empty || (tile == TileCollisionKind::JumpThrough
            && update.body.fall_through),
    ensures
        ({
            let body = put_on(update.body, tile);
            let (falls, fall) = update.next(meta, Event::Tile(tile));
            let (fell, compare) = falls.next(meta, Event::Value(fallen));
            let (slow_enough, onward) = fell.next(meta, Event::Answer(false));
            let (too_fast, negate) = fell.next(meta, Event::Answer(true));
            let (held, further) = too_fast.next(meta, Event::Value(clamped));
            &&& fall == (Action::Fall {
                velocity: update.body.velocity.y,
                gravity: update.body.gravity,
            })
            &&& compare == (Action::CompareTerminal {
                velocity: fallen,
                terminal_velocity: meta.terminal_velocity,
            })
            &&& negate == (Action::Negate { value: meta.terminal_velocity })
            &&& settled(
                slow_enough,
                onward,
                meta,
                KinematicBody { velocity: Vec2 { x: body.velocity.x, y: fallen }, ..body },
            )
            &&& settled(
                held,
                further,
                meta,
                KinematicBody { velocity: Vec2 { x: body.velocity.x, y: clamped }, ..body },
            )
        }),
{
    let falls = update.next(meta, Event::Tile(tile)).0;
    let fell = falls.next(meta, Event::Value(fallen)).0;
    let (slow_enough, onward) = fell.next(meta, Event::Answer(false));
    let too_fast = fell.next(meta, Event::Answer(true)).0;
    let (held, further) = too_fast.next(meta, Event::Value(clamped));
    assert(falls.phase is Fall && fell.phase is Terminal && too_fast.phase is Clamp);
    lemma_settled(slow_enough, onward, meta);
    lemma_settled(held, further, meta);
}

/// A body without mass that the ground test finds in the air keeps its velocity to the end of its
/// update.
pub proof fn law_weightless_body_floats(
    update: BodyUpdate,
    meta: PhysicsMeta,
    tile: TileCollisionKind,
)
    requires
        update.phase is Ground,
        !update.body.has_mass,
        tile == TileCollisionKind::Empty || (tile == TileCollisionKind::JumpThrough
            && update.body.fall_through),
    ensures
        ({
            let (later, action) = update.next(meta, Event::Tile(tile));
            settled(later, action, meta, put_on(update.body, tile))
        }),
{
    let (later, action) = update.next(meta, Event::Tile(tile));
    lemma_settled(later, action, meta);
}

/// When the ground test finds a body on the ground that has no friction, its vertical velocity is
/// zero at the end of its update if the host says that it is no more than what gravity adds, and
/// otherwise as before. Nothing else changes.
pub proof fn law_landing(
    update: BodyUpdate,
    meta: PhysicsMeta,
    tile: TileCollisionKind,
    landed: bool,
)
    requires
        update.phase is Ground,
        !update.body.has_friction,
        tile == TileCollisionKind::Solid || (tile == TileCollisionKind::JumpThrough
            && !update.body.fall_through),
    ensures
        ({
            let body = put_on(update.body, tile);
            let (lands, compare) = update.next(meta, Event::Tile(tile));
            let (later, action) = lands.next(meta, Event::Answer(landed));
            &&& compare == (Action::CompareLanded {
                velocity: update.body.velocity.y,
                gravity: update.body.gravity,
            })
            &&& settled(
                later,
                action,
                meta,
                KinematicBody {
                    velocity: Vec2 {
                        x: body.velocity.x,
                        y: if landed {
                            Scalar { bits: 0 }
                        } else {
                            body.velocity.y
                        },
                    },
                    ..body
                },
            )
        }),
{
    let lands = update.next(meta, Event::Tile(tile)).0;
    assert(lands.phase is Landed);
    let (later, action) = lands.next(meta, Event::Answer(landed));
    lemma_settled(later, action, meta);
}

/// When the ground test finds a body on the ground that has friction, it is slowed down: its
/// horizontal velocity by the friction that was set for this frame, or else by the general one, and
/// its vertical velocity by the general one. At the end of its update its horizontal velocity is what
/// the host made of it, or zero if the host says that this is within the threshold; its vertical
/// velocity is what the host made of it, or zero if the host says that this is no more than what
/// gravity adds. Nothing else changes.
pub proof fn law_friction(
    update: BodyUpdate,
    meta: PhysicsMeta,
    tile: TileCollisionKind,
    slowed: Vec2,
    stopped: bool,
    landed: bool,
)
    requires
        update.phase is Ground,
        update.body.has_friction,
        tile == TileCollisionKind::Solid || (tile == TileCollisionKind::JumpThrough
            && !update.body.fall_through),
    ensures
        ({
            let body = put_on(update.body, tile);
            let (slows, slow_x) = update.next(meta, Event::Tile(tile));
            let (stops, compare_x) = slows.next(meta, Event::Value(slowed.x));
            let (sinks, slow_y) = stops.next(meta, Event::Answer(stopped));
            let (lands, compare_y) = sinks.next(meta, Event::Value(slowed.y));
            let (later, action) = lands.next(meta, Event::Answer(landed));
            &&& slow_x == (Action::Slow {
                velocity: update.body.velocity.x,
                factor: match update.body.frame_friction_override {
                    Some(friction) => friction,
                    None => meta.friction_lerp,
                },
            })
            &&& compare_x == (Action::CompareStop {
                velocity: slowed.x,
                threshold: meta.stop_threshold,
            })
            &&& slow_y == (Action::Slow {
                velocity: update.body.velocity.y,
                factor: meta.friction_lerp,
            })
            &&& compare_y == (Action::CompareLanded {
                velocity: slowed.y,
                gravity: update.body.gravity,
            })
            &&& settled(
                later,
                action,
                meta,
                KinematicBody {
                    velocity: Vec2 {
                        x: if stopped {
                            Scalar { bits: 0 }
                        } else {
                            slowed.x
                        },
                        y: if landed {
                            Scalar { bits: 0 }
                        } else {
                            slowed.y
                        },
                    },
                    ..body
                },
            )
        }),
{
    let slows = update.next(meta, Event::Tile(tile)).0;
    assert(slows.phase is SlowHorizontal);
    let stops = slows.next(meta, Event::Value(slowed.x)).0;
    assert(stops.phase is Stop);
    let sinks = stops.next(meta, Event::Answer(stopped)).0;
    assert(sinks.phase is SlowVertical);
    let lands = sinks.next(meta, Event::Value(slowed.y)).0;
    assert(lands.phase is Landed);
    let (later, action) = lands.next(meta, Event::Answer(landed));
    lemma_settled(later, action, meta);
}

} // verus!
