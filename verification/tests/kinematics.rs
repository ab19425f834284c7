use jumpy::body::{ColliderShape, KinematicBody, TileCollisionKind};
use jumpy::ecs::EntityId;
use jumpy::geometry::{Aabb, Rect, Scalar, Vec2};
use jumpy::kinematic_frame::{update_kinematic_bodies, world_params, FrameAction, FrameBody};
use jumpy::kinematics::{
    apply_rotation, ground_filter, platform_filter, Action, BodyUpdate, Corners, Direction, Event,
    Phase, PhysicsMeta, RotationChange, Shove,
};

fn num(value: f32) -> Scalar {
    Scalar { bits: value.to_bits() }
}

fn entity(index: u32) -> EntityId {
    EntityId { index, generation: 0 }
}

fn vec2(x: f32, y: f32) -> Vec2 {
    Vec2 { x: num(x), y: num(y) }
}

fn value(number: Scalar) -> f32 {
    f32::from_bits(number.bits)
}

fn meta() -> PhysicsMeta {
    PhysicsMeta {
        gravity: num(2.0),
        terminal_velocity: num(10.0),
        friction_lerp: num(0.5),
        stop_threshold: num(0.1),
    }
}

fn shape() -> ColliderShape {
    ColliderShape::Rectangle { size: vec2(4.0, 8.0) }
}

fn body() -> KinematicBody {
    KinematicBody { has_mass: true, gravity: num(2.0), ..KinematicBody::with_shape(shape()) }
}

fn here(changed: bool) -> Event {
    Event::Transform {
        position: vec2(1.0, 2.0),
        rotation: num(0.25),
        position_changed: changed,
        rotation_changed: false,
    }
}

fn corners(bits: [bool; 4]) -> Corners {
    Corners { top_left: bits[0], top_right: bits[1], bottom_right: bits[2], bottom_left: bits[3] }
}

fn start(body: KinematicBody) -> BodyUpdate {
    let (mut update, action) = BodyUpdate::start(body, None);
    assert_eq!(action, Action::SetColliderDisabled { disabled: false });
    assert!(matches!(update.advance(meta(), Event::Done), Action::ReadTransform { .. }));
    update
}

#[test]
fn shove_table() {
    let mut given_up = 0;
    for n in 0..16u8 {
        let [a, b, c, d] = [n & 8 != 0, n & 4 != 0, n & 2 != 0, n & 1 != 0];
        let expected = match (a, b, c, d) {
            (false, false, false, false) => Shove::Stuck,
            (false, false, _, _) => Shove::Toward(Direction::Up),
            (_, false, false, _) => Shove::Toward(Direction::Right),
            (_, _, false, false) => Shove::Toward(Direction::Down),
            (false, _, _, false) => Shove::Toward(Direction::Left),
            _ => Shove::GiveUp,
        };
        let shove = corners([a, b, c, d]).shove();
        assert_eq!(shove, expected);
        if shove == Shove::GiveUp {
            given_up += 1;
        }
    }
    assert_eq!(given_up, 7);
    assert_eq!(corners([false, false, false, true]).shove(), Shove::Toward(Direction::Up));
    assert_eq!(corners([true, false, false, false]).shove(), Shove::Toward(Direction::Right));
}

#[test]
fn rotation_table() {
    let circle = ColliderShape::Circle { diameter: num(3.0) };
    assert_eq!(apply_rotation(true, circle), RotationChange::Roll);
    assert_eq!(apply_rotation(true, shape()), RotationChange::Keep);
    assert_eq!(apply_rotation(false, circle), RotationChange::Spin);
    assert_eq!(apply_rotation(false, shape()), RotationChange::Spin);
}

#[test]
fn tile_filters() {
    assert!(ground_filter(false, None));
    assert!(ground_filter(false, Some(TileCollisionKind::JumpThrough)));
    assert!(!ground_filter(true, None));
    assert!(!ground_filter(true, Some(TileCollisionKind::JumpThrough)));
    assert!(ground_filter(true, Some(TileCollisionKind::Solid)));
    assert!(ground_filter(true, Some(TileCollisionKind::Empty)));
    assert!(platform_filter(Some(TileCollisionKind::JumpThrough)));
    assert!(!platform_filter(Some(TileCollisionKind::Solid)));
    assert!(!platform_filter(None));
}

#[test]
fn bounding_box_is_the_box_around_the_shape() {
    let aabb = Aabb { mins: vec2(-1.0, -2.0), maxs: vec2(3.0, 4.0) };
    assert_eq!(
        body().bounding_box(aabb),
        Rect { min: vec2(-1.0, -2.0), max: vec2(3.0, 4.0) }
    );
}

#[test]
fn default_body_rests() {
    let plain = KinematicBody::with_shape(shape());
    assert_eq!(plain.velocity, vec2(0.0, 0.0));
    assert_eq!(plain.shape, shape());
    assert!(!plain.has_mass && !plain.is_spawning && !plain.is_on_ground);
    assert_eq!(plain.frame_friction_override, None);
}

#[test]
fn deactivated_body_rests() {
    let sleeping = KinematicBody {
        is_deactivated: true,
        frame_friction_override: Some(num(0.3)),
        ..body()
    };
    let (mut update, action) = BodyUpdate::start(sleeping, None);
    assert_eq!(action, Action::SetColliderDisabled { disabled: true });
    assert_eq!(update.advance(meta(), Event::Done), Action::Finish);
    assert_eq!(update.body, KinematicBody { frame_friction_override: None, ..sleeping });
    assert_eq!(update.advance(meta(), Event::Done), Action::Unexpected);
}

#[test]
fn dynamic_body_is_left_to_the_simulation() {
    let (mut update, action) = BodyUpdate::start(body(), Some(true));
    assert_eq!(action, Action::SetColliderDisabled { disabled: false });
    assert_eq!(update.advance(meta(), Event::Done), Action::Finish);
    assert_eq!(update.body, body());
    let (mut update, _) = BodyUpdate::start(body(), Some(false));
    assert!(matches!(update.advance(meta(), Event::Done), Action::ReadTransform { .. }));
}

#[test]
fn body_in_a_wall_is_shoved_until_it_is_free() {
    let mut update = start(body());
    assert_eq!(update.advance(meta(), here(true)), Action::TestTile { shape: shape() });
    for _ in 0..3 {
        let solid = Event::Tile(TileCollisionKind::Solid);
        assert_eq!(update.advance(meta(), solid), Action::ComputeBounds { shape: shape() });
        let aabb = Aabb { mins: vec2(0.0, 1.0), maxs: vec2(2.0, 3.0) };
        let rect = Rect { min: vec2(0.0, 1.0), max: vec2(2.0, 3.0) };
        assert_eq!(update.advance(meta(), Event::Bounds(aabb)), Action::ProbeCorners { rect });
        let event = Event::Corners(corners([true, true, false, false]));
        assert_eq!(update.advance(meta(), event), Action::Shove { toward: Direction::Down });
        assert_eq!(update.advance(meta(), Event::Done), Action::TestTile { shape: shape() });
    }
    let free = Event::Tile(TileCollisionKind::JumpThrough);
    assert_eq!(update.advance(meta(), free), Action::SyncShape { shape: shape() });
}

#[test]
fn enclosed_body_is_given_up() {
    for blocked in [[true, true, true, true], [false, false, false, false], [true, false, true, false]] {
        let mut update = start(body());
        update.advance(meta(), here(true));
        update.advance(meta(), Event::Tile(TileCollisionKind::Solid));
        let aabb = Aabb { mins: vec2(0.0, 0.0), maxs: vec2(1.0, 1.0) };
        update.advance(meta(), Event::Bounds(aabb));
        let action = update.advance(meta(), Event::Corners(corners(blocked)));
        assert_eq!(action, Action::SyncShape { shape: shape() });
    }
}

#[test]
fn sleeping_body_is_not_tested_against_walls() {
    let mut update = start(body());
    assert_eq!(update.advance(meta(), here(false)), Action::SyncShape { shape: shape() });
    assert!(!update.has_moved);
    assert_eq!(update.body.last_update_position, vec2(1.0, 2.0));
    assert_eq!(update.body.last_update_rotation, num(0.25));

    let mut massless = start(KinematicBody { has_mass: false, ..body() });
    assert_eq!(massless.advance(meta(), here(true)), Action::SyncShape { shape: shape() });
}

#[test]
fn spawning_body_counts_as_moved_and_is_teleported() {
    let mut update = start(KinematicBody { is_spawning: true, fall_through: true, ..body() });
    assert_eq!(update.advance(meta(), here(false)), Action::TestTile { shape: shape() });
    update.advance(meta(), Event::Tile(TileCollisionKind::Empty));
    assert_eq!(update.advance(meta(), Event::Done), Action::Teleport);
    assert!(!update.body.is_spawning);
    assert_eq!(update.advance(meta(), Event::Done), Action::Descend);
    assert!(matches!(update.advance(meta(), Event::Done), Action::MoveVertical { .. }));
}

/// Brings an update that starts with a sleeping body to its horizontal movement.
fn moving(body: KinematicBody) -> BodyUpdate {
    let mut update = start(body);
    update.advance(meta(), here(false));
    let action = update.advance(meta(), Event::Done);
    assert_eq!(action, Action::MoveVertical { velocity: body.velocity.y });
    update
}

#[test]
fn stopped_body_bounces() {
    let bouncy = KinematicBody { velocity: vec2(3.0, -4.0), bounciness: num(0.5), ..body() };
    let mut update = moving(bouncy);
    assert_eq!(
        update.advance(meta(), Event::Answer(true)),
        Action::Bounce { velocity: num(-4.0), bounciness: num(0.5) }
    );
    assert_eq!(
        update.advance(meta(), Event::Value(num(2.0))),
        Action::MoveHorizontal { velocity: num(3.0) }
    );
    assert_eq!(
        update.advance(meta(), Event::Answer(true)),
        Action::Bounce { velocity: num(3.0), bounciness: num(0.5) }
    );
    update.advance(meta(), Event::Value(num(-1.5)));
    assert_eq!(update.body.velocity, vec2(-1.5, 2.0));
}

#[test]
fn floating_test_is_for_bodies_that_moved_or_are_controlled() {
    let mut idle = moving(body());
    idle.advance(meta(), Event::Answer(false));
    assert_eq!(idle.advance(meta(), Event::Answer(false)), Action::TestGround { shape: shape() });

    let mut controlled = moving(KinematicBody { is_controlled: true, ..body() });
    controlled.advance(meta(), Event::Answer(false));
    assert_eq!(
        controlled.advance(meta(), Event::Answer(false)),
        Action::CompareStill { both: vec2(0.0, 0.0) }
    );
    assert_eq!(
        controlled.advance(meta(), Event::Answer(true)),
        Action::TestPlatform { shape: shape() }
    );
    let platform = Event::Tile(TileCollisionKind::JumpThrough);
    assert_eq!(controlled.advance(meta(), platform), Action::TestGround { shape: shape() });
    assert!(controlled.body.fall_through);

    let mut moved = start(body());
    moved.advance(meta(), here(true));
    moved.advance(meta(), Event::Tile(TileCollisionKind::Empty));
    moved.advance(meta(), Event::Done);
    moved.advance(meta(), Event::Answer(false));
    assert!(matches!(moved.advance(meta(), Event::Answer(false)), Action::CompareStill { .. }));
    assert_eq!(
        moved.advance(meta(), Event::Answer(false)),
        Action::TestGround { shape: shape() }
    );
    assert!(!moved.body.fall_through);
}

/// Brings an update to its ground test.
fn landing(body: KinematicBody) -> BodyUpdate {
    let mut update = moving(KinematicBody { is_controlled: false, ..body });
    update.advance(meta(), Event::Answer(false));
    assert_eq!(update.advance(meta(), Event::Answer(false)), Action::TestGround { shape: body.shape });
    update
}

#[test]
fn ground_slows_a_body_down() {
    let walker = KinematicBody { velocity: vec2(6.0, -1.0), has_friction: true, ..body() };
    let mut update = landing(walker);
    assert_eq!(
        update.advance(meta(), Event::Tile(TileCollisionKind::Solid)),
        Action::Slow { velocity: num(6.0), factor: num(0.5) }
    );
    assert_eq!(
        update.advance(meta(), Event::Value(num(3.0))),
        Action::CompareStop { velocity: num(3.0), threshold: num(0.1) }
    );
    assert_eq!(
        update.advance(meta(), Event::Answer(false)),
        Action::Slow { velocity: num(-1.0), factor: num(0.5) }
    );
    assert_eq!(
        update.advance(meta(), Event::Value(num(-0.5))),
        Action::CompareLanded { velocity: num(-0.5), gravity: num(2.0) }
    );
    assert_eq!(update.advance(meta(), Event::Answer(true)), Action::Finish);
    assert_eq!(update.body.velocity, vec2(3.0, 0.0));
    assert!(update.body.is_on_ground && !update.body.is_on_platform && !update.body.was_on_ground);
}

#[test]
fn slow_body_stops() {
    let walker = KinematicBody { velocity: vec2(0.1, 0.0), has_friction: true, ..body() };
    let mut update = landing(walker);
    update.advance(meta(), Event::Tile(TileCollisionKind::Solid));
    update.advance(meta(), Event::Value(num(0.05)));
    update.advance(meta(), Event::Answer(true));
    assert_eq!(value(update.body.velocity.x), 0.0);
}

#[test]
fn friction_override_lasts_one_frame() {
    let slippery = KinematicBody {
        has_friction: true,
        frame_friction_override: Some(num(0.99)),
        ..body()
    };
    let mut on_ground = landing(slippery);
    assert_eq!(
        on_ground.advance(meta(), Event::Tile(TileCollisionKind::Solid)),
        Action::Slow { velocity: num(0.0), factor: num(0.99) }
    );
    assert_eq!(on_ground.body.frame_friction_override, None);

    let mut in_air = landing(slippery);
    assert!(matches!(
        in_air.advance(meta(), Event::Tile(TileCollisionKind::Empty)),
        Action::Fall { .. }
    ));
    assert_eq!(in_air.body.frame_friction_override, None);
}

#[test]
fn platforms_carry_bodies_that_do_not_fall_through() {
    let mut update = landing(body());
    update.advance(meta(), Event::Tile(TileCollisionKind::JumpThrough));
    assert!(update.body.is_on_ground && update.body.is_on_platform);

    let mut falling = start(KinematicBody { fall_through: true, is_on_ground: true, ..body() });
    falling.advance(meta(), here(false));
    assert_eq!(falling.advance(meta(), Event::Done), Action::Descend);
    falling.advance(meta(), Event::Done);
    falling.advance(meta(), Event::Answer(false));
    falling.advance(meta(), Event::Answer(false));
    let action = falling.advance(meta(), Event::Tile(TileCollisionKind::JumpThrough));
    assert_eq!(action, Action::Fall { velocity: num(0.0), gravity: num(2.0) });
    assert!(!falling.body.is_on_ground && !falling.body.is_on_platform && falling.body.was_on_ground);
}

#[test]
fn falling_body_reaches_terminal_velocity() {
    let mut update = landing(KinematicBody { velocity: vec2(0.0, -9.5), can_rotate: true, ..body() });
    assert_eq!(
        update.advance(meta(), Event::Tile(TileCollisionKind::Empty)),
        Action::Fall { velocity: num(-9.5), gravity: num(2.0) }
    );
    assert_eq!(
        update.advance(meta(), Event::Value(num(-11.5))),
        Action::CompareTerminal { velocity: num(-11.5), terminal_velocity: num(10.0) }
    );
    assert_eq!(update.advance(meta(), Event::Answer(true)), Action::Negate { value: num(10.0) });
    assert_eq!(
        update.advance(meta(), Event::Value(num(-10.0))),
        Action::Rotate {
            change: RotationChange::Spin,
            velocity: num(0.0),
            angular_velocity: num(0.0),
        }
    );
    assert_eq!(update.body.velocity, vec2(0.0, -10.0));
    assert_eq!(update.advance(meta(), Event::Done), Action::Finish);
    assert_eq!(update.phase, Phase::Finished);
}

#[test]
fn massless_body_does_not_fall() {
    let mut update = landing(KinematicBody { has_mass: false, ..body() });
    assert_eq!(update.advance(meta(), Event::Tile(TileCollisionKind::Empty)), Action::Finish);
}

#[test]
fn wrong_answers_are_refused() {
    let mut update = start(body());
    let before = update;
    assert_eq!(update.advance(meta(), Event::Answer(true)), Action::Unexpected);
    assert_eq!(update, before);
}

#[test]
fn frame_takes_one_body_after_the_other() {
    let sleeping = KinematicBody { is_deactivated: true, ..body() };
    let bodies = vec![
        FrameBody { entity: entity(5), body: sleeping, is_dynamic: None },
        FrameBody { entity: entity(6), body: body(), is_dynamic: Some(true) },
        FrameBody { entity: entity(7), body: KinematicBody { has_mass: false, ..body() }, is_dynamic: None },
    ];
    let (mut frame, action) = update_kinematic_bodies(meta(), bodies);
    let disable = Action::SetColliderDisabled { disabled: true };
    let enable = Action::SetColliderDisabled { disabled: false };
    assert_eq!(action, FrameAction::Body { entity: entity(5), action: disable });
    assert_eq!(frame.advance(Event::Done), FrameAction::Body { entity: entity(6), action: enable });
    assert_eq!(frame.advance(Event::Answer(true)), FrameAction::Unexpected);
    assert_eq!(frame.advance(Event::Done), FrameAction::Body { entity: entity(7), action: enable });
    frame.advance(Event::Done);
    frame.advance(here(true));
    frame.advance(Event::Done);
    frame.advance(Event::Answer(false));
    assert!(matches!(
        frame.advance(Event::Answer(false)),
        FrameAction::Body { action: Action::CompareStill { .. }, .. }
    ));
    frame.advance(Event::Answer(false));
    assert_eq!(frame.advance(Event::Tile(TileCollisionKind::Empty)), FrameAction::Finish);
    assert_eq!(frame.advance(Event::Done), FrameAction::Unexpected);
    let done = frame.into_bodies();
    assert_eq!(done.len(), 3);
    assert_eq!(done[0].body, sleeping);
    assert_eq!(done[1].body, body());
    assert_eq!(done[2].entity, entity(7));
    assert_eq!(done[2].body.last_update_position, vec2(1.0, 2.0));
}

#[test]
fn empty_frame_is_finished() {
    let (mut frame, action) = update_kinematic_bodies(meta(), vec![]);
    assert_eq!(action, FrameAction::Finish);
    assert_eq!(frame.advance(Event::Done), FrameAction::Unexpected);
    assert!(frame.into_bodies().is_empty());
}

#[test]
fn world_is_stepped_with_the_shared_settings() {
    let params = world_params(meta());
    assert_eq!(params.gravity, num(2.0));
    assert_eq!(params.terminal_velocity, Some(num(10.0)));
}

#[test]
fn zero_is_zero() {
    assert_eq!(value(Scalar::zero()), 0.0);
    assert_eq!(Scalar::default(), Scalar::zero());
    assert_eq!(Vec2::default(), vec2(0.0, 0.0));
}
