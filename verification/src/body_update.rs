//! The rules by which a kinematic body is updated.

use vstd::prelude::*;

use crate::body::{KinematicBody, TileCollisionKind};
use crate::geometry::{Rect, Scalar, Vec2};
use crate::kinematics::{apply_rotation, rotation_of, Action, BodyUpdate, Corners, Event, Phase, PhysicsMeta, Shove};

verus! {

impl KinematicBody {
    /// The body with its current place remembered.
    pub open spec fn seen_at(self, position: Vec2, rotation: Scalar) -> KinematicBody {
        KinematicBody { last_update_position: position, last_update_rotation: rotation, ..self }
    }

    /// The body with another vertical velocity.
    pub open spec fn rising_at(self, velocity: Scalar) -> KinematicBody {
        KinematicBody { velocity: Vec2 { y: velocity, ..self.velocity }, ..self }
    }

    /// The body with another horizontal velocity.
    pub open spec fn walking_at(self, velocity: Scalar) -> KinematicBody {
        KinematicBody { velocity: Vec2 { x: velocity, ..self.velocity }, ..self }
    }

    /// Whether the body stands on what its ground test found: on anything but air, except that a
    /// body that falls through platforms does not stand on one.
    pub open spec fn stands_on(self, tile: TileCollisionKind) -> bool {
        match tile {
            TileCollisionKind::Empty => false,
            TileCollisionKind::Solid => true,
            TileCollisionKind::JumpThrough => !self.fall_through,
        }
    }

    /// The body after its ground test.
    pub open spec fn grounded(self, tile: TileCollisionKind) -> KinematicBody {
        KinematicBody {
            is_on_ground: self.stands_on(tile),
            is_on_platform: self.stands_on(tile) && tile == TileCollisionKind::JumpThrough,
            ..self
        }
    }

    /// The body with no friction of its own for the next frame.
    pub open spec fn without_override(self) -> KinematicBody {
        KinematicBody { frame_friction_override: None, ..self }
    }

    /// The factor that slows the body down on the ground this frame.
    pub open spec fn friction(self, meta: PhysicsMeta) -> Scalar {
        match self.frame_friction_override {
            Some(friction) => friction,
            None => meta.friction_lerp,
        }
    }
}

impl BodyUpdate {
    /// The same update in another phase.
    pub open spec fn at(self, phase: Phase) -> BodyUpdate {
        BodyUpdate { phase, ..self }
    }

    /// The same update of a changed body.
    pub open spec fn with_body(self, body: KinematicBody) -> BodyUpdate {
        BodyUpdate { body, ..self }
    }

    /// The start of an update. A deactivated body has its collider disabled and rests; the collider
    /// of any other body is enabled, and unless the body is simulated as a dynamic one, it moves. A
    /// body that rests has no use for the friction that was set for this frame.
    pub open spec fn started(body: KinematicBody, is_dynamic: Option<bool>) -> (BodyUpdate, Action) {
        let moves = !body.is_deactivated && is_dynamic != Some(true);
        (
            BodyUpdate {
                phase: Phase::Toggle { moves },
                body: if moves {
                    body
                } else {
                    body.without_override()
                },
                has_moved: false,
            },
            Action::SetColliderDisabled { disabled: body.is_deactivated },
        )
    }

    /// The collider takes over the body's shape.
    pub open spec fn into_shape(self) -> (BodyUpdate, Action) {
        (self.at(Phase::Shape), Action::SyncShape { shape: self.body.shape })
    }

    /// The test for walls, which only bodies with mass that have moved undergo.
    pub open spec fn into_shove(self) -> (BodyUpdate, Action) {
        if self.body.has_mass && self.has_moved {
            (self.at(Phase::ShoveTile), Action::TestTile { shape: self.body.shape })
        } else {
            self.into_shape()
        }
    }

    /// A body that spawns is teleported, and spawns no more.
    pub open spec fn into_spawn(self) -> (BodyUpdate, Action) {
        if self.body.is_spawning {
            (
                self.with_body(KinematicBody { is_spawning: false, ..self.body }).at(Phase::Teleport),
                Action::Teleport,
            )
        } else {
            self.into_descent()
        }
    }

    /// A body that falls through platforms starts to descend.
    pub open spec fn into_descent(self) -> (BodyUpdate, Action) {
        if self.body.fall_through {
            (self.at(Phase::Descend), Action::Descend)
        } else {
            self.into_vertical()
        }
    }

    /// The vertical movement. It comes before the horizontal one, which would clear the traces of
    /// a descent.
    pub open spec fn into_vertical(self) -> (BodyUpdate, Action) {
        (self.at(Phase::MoveVertical), Action::MoveVertical { velocity: self.body.velocity.y })
    }

    /// The horizontal movement.
    pub open spec fn into_horizontal(self) -> (BodyUpdate, Action) {
        (self.at(Phase::MoveHorizontal), Action::MoveHorizontal { velocity: self.body.velocity.x })
    }

    /// The test for bodies that float in a platform. For a body that is not controlled and has not
    /// moved it would come out as before, so such a body skips it; a controlled one does not, since
    /// its controls may have changed whether it falls through.
    pub open spec fn into_still(self) -> (BodyUpdate, Action) {
        if self.has_moved || self.body.is_controlled {
            (self.at(Phase::Still), Action::CompareStill { both: self.body.velocity })
        } else {
            self.into_ground()
        }
    }

    /// The ground test.
    pub open spec fn into_ground(self) -> (BodyUpdate, Action) {
        (
            self.with_body(KinematicBody { was_on_ground: self.body.is_on_ground, ..self.body }).at(Phase::Ground),
            Action::TestGround { shape: self.body.shape },
        )
    }

    /// What follows from where the body stands: friction on the ground, gravity in the air. The
    /// friction that was set for this frame is gone from here on, whether it was applied or not.
    pub open spec fn into_contact(self, meta: PhysicsMeta) -> (BodyUpdate, Action) {
        let later = self.with_body(self.body.without_override());
        if self.body.is_on_ground && self.body.has_friction {
            (
                later.at(Phase::SlowHorizontal),
                Action::Slow { velocity: self.body.velocity.x, factor: self.body.friction(meta) },
            )
        } else if self.body.is_on_ground {
            later.into_landed()
        } else if self.body.has_mass {
            (
                later.at(Phase::Fall),
                Action::Fall { velocity: self.body.velocity.y, gravity: self.body.gravity },
            )
        } else {
            later.into_rotation()
        }
    }

    /// The test for bodies whose fall has ended.
    pub open spec fn into_landed(self) -> (BodyUpdate, Action) {
        (
            self.at(Phase::Landed),
            Action::CompareLanded { velocity: self.body.velocity.y, gravity: self.body.gravity },
        )
    }

    /// The rotation of bodies that can rotate.
    pub open spec fn into_rotation(self) -> (BodyUpdate, Action) {
        if self.body.can_rotate {
            (
                self.at(Phase::Rotate),
                Action::Rotate {
                    change: rotation_of(self.body.is_on_ground, self.body.shape),
                    velocity: self.body.velocity.x,
                    angular_velocity: self.body.angular_velocity,
                },
            )
        } else {
            self.into_finish()
        }
    }

    /// The end of the update.
    pub open spec fn into_finish(self) -> (BodyUpdate, Action) {
        (self.at(Phase::Finished), Action::Finish)
    }

    /// The part of [`BodyUpdate::next`] in which the body finds its place: up to the end of the shoves.
    pub open spec fn next_place(self, event: Event) -> (BodyUpdate, Action) {
        match (self.phase, event) {
            (Phase::Toggle { moves }, Event::Done) => if moves {
                (
                    self.at(Phase::Transform),
                    Action::ReadTransform {
                        last_position: self.body.last_update_position,
                        last_rotation: self.body.last_update_rotation,
                    },
                )
            } else {
                self.into_finish()
            },
            (
                Phase::Transform,
                Event::Transform { position, rotation, position_changed, rotation_changed },
            ) => BodyUpdate {
                has_moved: position_changed || rotation_changed || self.body.is_spawning,
                body: self.body.seen_at(position, rotation),
                ..self
            }.into_shove(),
            (Phase::ShoveTile, Event::Tile(tile)) => if tile == TileCollisionKind::Solid {
                (self.at(Phase::ShoveBounds), Action::ComputeBounds { shape: self.body.shape })
            } else {
                self.into_shape()
            },
            (Phase::ShoveBounds, Event::Bounds(aabb)) => (
                self.at(Phase::ShoveCorners),
                Action::ProbeCorners { rect: Rect { min: aabb.mins, max: aabb.maxs } },
            ),
            (Phase::ShoveCorners, Event::Corners(corners)) => match corners.way_out() {
                Shove::Toward(toward) => (self.at(Phase::Shove), Action::Shove { toward }),
                _ => self.into_shape(),
            },
            (Phase::Shove, Event::Done) => self.into_shove(),
            _ => (self, Action::Unexpected),
        }
    }

    /// The part of [`BodyUpdate::next`] in which the body moves.
    pub open spec fn next_move(self, event: Event) -> (BodyUpdate, Action) {
        match (self.phase, event) {
            (Phase::Shape, Event::Done) => self.into_spawn(),
            (Phase::Teleport, Event::Done) => self.into_descent(),
            (Phase::Descend, Event::Done) => self.into_vertical(),
            (Phase::MoveVertical, Event::Answer(stopped)) => if stopped {
                (
                    self.at(Phase::BounceVertical),
                    Action::Bounce { velocity: self.body.velocity.y, bounciness: self.body.bounciness },
                )
            } else {
                self.into_horizontal()
            },
            (Phase::BounceVertical, Event::Value(velocity)) => self.with_body(
                self.body.rising_at(velocity),
            ).into_horizontal(),
            (Phase::MoveHorizontal, Event::Answer(stopped)) => if stopped {
                (
                    self.at(Phase::BounceHorizontal),
                    Action::Bounce { velocity: self.body.velocity.x, bounciness: self.body.bounciness },
                )
            } else {
                self.into_still()
            },
            (Phase::BounceHorizontal, Event::Value(velocity)) => self.with_body(
                self.body.walking_at(velocity),
            ).into_still(),
            _ => (self, Action::Unexpected),
        }
    }

    /// The part of [`BodyUpdate::next`] in which the body finds out where it stands.
    pub open spec fn next_stand(self, meta: PhysicsMeta, event: Event) -> (BodyUpdate, Action) {
        match (self.phase, event) {
            (Phase::Still, Event::Answer(still)) => if still {
                (self.at(Phase::Platform), Action::TestPlatform { shape: self.body.shape })
            } else {
                self.into_ground()
            },
            (Phase::Platform, Event::Tile(tile)) => if tile == TileCollisionKind::JumpThrough {
                self.with_body(KinematicBody { fall_through: true, ..self.body }).into_ground()
            } else {
                self.into_ground()
            },
            (Phase::Ground, Event::Tile(tile)) => self.with_body(
                self.body.grounded(tile),
            ).into_contact(meta),
            _ => (self, Action::Unexpected),
        }
    }

    /// The part of [`BodyUpdate::next`] in which the ground slows the body down.
    pub open spec fn next_slow(self, meta: PhysicsMeta, event: Event) -> (BodyUpdate, Action) {
        match (self.phase, event) {
            (Phase::SlowHorizontal, Event::Value(velocity)) => (
                self.with_body(self.body.walking_at(velocity)).at(Phase::Stop),
                Action::CompareStop { velocity, threshold: meta.stop_threshold },
            ),
            (Phase::Stop, Event::Answer(stopped)) => (
                if stopped {
                    self.with_body(self.body.walking_at(Scalar::zero()))
                } else {
                    self
                }.at(Phase::SlowVertical),
                Action::Slow { velocity: self.body.velocity.y, factor: meta.friction_lerp },
            ),
            (Phase::SlowVertical, Event::Value(velocity)) => self.with_body(
                self.body.rising_at(velocity),
            ).into_landed(),
            (Phase::Landed, Event::Answer(landed)) => if landed {
                self.with_body(self.body.rising_at(Scalar::zero())).into_rotation()
            } else {
                self.into_rotation()
            },
            _ => (self, Action::Unexpected),
        }
    }

    /// The part of [`BodyUpdate::next`] in which the body falls and rotates.
    pub open spec fn next_fall(self, meta: PhysicsMeta, event: Event) -> (BodyUpdate, Action) {
        match (self.phase, event) {
            (Phase::Fall, Event::Value(velocity)) => (
                self.with_body(self.body.rising_at(velocity)).at(Phase::Terminal),
                Action::CompareTerminal { velocity, terminal_velocity: meta.terminal_velocity },
            ),
            (Phase::Terminal, Event::Answer(faster)) => if faster {
                (self.at(Phase::Clamp), Action::Negate { value: meta.terminal_velocity })
            } else {
                self.into_rotation()
            },
            (Phase::Clamp, Event::Value(velocity)) => self.with_body(
                self.body.rising_at(velocity),
            ).into_rotation(),
            (Phase::Rotate, Event::Done) => self.into_finish(),
            _ => (self, Action::Unexpected),
        }
    }

    /// The update after an event, and the action that comes next. An event that does not answer the
    /// last action changes nothing.
    pub open spec fn next(self, meta: PhysicsMeta, event: Event) -> (BodyUpdate, Action) {
        match self.phase {
            Phase::Toggle { .. }
            | Phase::Transform
            | Phase::ShoveTile
            | Phase::ShoveBounds
            | Phase::ShoveCorners
            | Phase::Shove => self.next_place(event),
            Phase::Shape
            | Phase::Teleport
            | Phase::Descend
            | Phase::MoveVertical
            | Phase::BounceVertical
            | Phase::MoveHorizontal
            | Phase::BounceHorizontal => self.next_move(event),
            Phase::Still
            | Phase::Platform
            | Phase::Ground => self.next_stand(meta, event),
            Phase::SlowHorizontal
            | Phase::Stop
            | Phase::SlowVertical
            | Phase::Landed => self.next_slow(meta, event),
            Phase::Fall
            | Phase::Terminal
            | Phase::Clamp
            | Phase::Rotate => self.next_fall(meta, event),
            Phase::Finished => (self, Action::Unexpected),
        }
    }

    /// Starts the update of a body. `is_dynamic` tells whether the body is currently simulated as a
    /// dynamic body, if it can be.
    pub fn start(body: KinematicBody, is_dynamic: Option<bool>) -> (started: (BodyUpdate, Action))
        ensures
            started == BodyUpdate::started(body, is_dynamic),
    {
        let dynamic = match is_dynamic {
            Some(dynamic) => dynamic,
            None => false,
        };
        let moves = !body.is_deactivated && !dynamic;
        let mut update = BodyUpdate { phase: Phase::Toggle { moves }, body, has_moved: false };
        if !moves {
            update.body.frame_friction_override = None;
        }
        (update, Action::SetColliderDisabled { disabled: body.is_deactivated })
    }

    fn wait(&mut self, phase: Phase, action: Action) -> (next: Action)
        ensures
            *final(self) == old(self).at(phase),
            next == action,
    {
        self.phase = phase;
        action
    }

    fn rise_at(&mut self, velocity: Scalar)
        ensures
            *final(self) == old(self).with_body(old(self).body.rising_at(velocity)),
    {
        self.body.velocity.y = velocity;
    }

    fn walk_at(&mut self, velocity: Scalar)
        ensures
            *final(self) == old(self).with_body(old(self).body.walking_at(velocity)),
    {
        self.body.velocity.x = velocity;
    }

    fn to_shape(&mut self) -> (action: Action)
        ensures
            (*final(self), action) == old(self).into_shape(),
    {
        let shape = self.body.shape;
        self.wait(Phase::Shape, Action::SyncShape { shape })
    }

    fn to_shove(&mut self) -> (action: Action)
        ensures
            (*final(self), action) == old(self).into_shove(),
    {
        if self.body.has_mass && self.has_moved {
            let shape = self.body.shape;
            self.wait(Phase::ShoveTile, Action::TestTile { shape })
        } else {
            self.to_shape()
        }
    }

    fn to_spawn(&mut self) -> (action: Action)
        ensures
            (*final(self), action) == old(self).into_spawn(),
    {
        if self.body.is_spawning {
            self.body.is_spawning = false;
            self.wait(Phase::Teleport, Action::Teleport)
        } else {
            self.to_descent()
        }
    }

    fn to_descent(&mut self) -> (action: Action)
        ensures
            (*final(self), action) == old(self).into_descent(),
    {
        if self.body.fall_through {
            self.wait(Phase::Descend, Action::Descend)
        } else {
            self.to_vertical()
        }
    }

    fn to_vertical(&mut self) -> (action: Action)
        ensures
            (*final(self), action) == old(self).into_vertical(),
    {
        let velocity = self.body.velocity.y;
        self.wait(Phase::MoveVertical, Action::MoveVertical { velocity })
    }

    fn to_horizontal(&mut self) -> (action: Action)
        ensures
            (*final(self), action) == old(self).into_horizontal(),
    {
        let velocity = self.body.velocity.x;
        self.wait(Phase::MoveHorizontal, Action::MoveHorizontal { velocity })
    }

    fn to_still(&mut self) -> (action: Action)
        ensures
            (*final(self), action) == old(self).into_still(),
    {
        if self.has_moved || self.body.is_controlled {
            let both = self.body.velocity;
            self.wait(Phase::Still, Action::CompareStill { both })
        } else {
            self.to_ground()
        }
    }

    fn to_ground(&mut self) -> (action: Action)
        ensures
            (*final(self), action) == old(self).into_ground(),
    {
        self.body.was_on_ground = self.body.is_on_ground;
        let shape = self.body.shape;
        self.wait(Phase::Ground, Action::TestGround { shape })
    }

    fn to_contact(&mut self, meta: PhysicsMeta) -> (action: Action)
        ensures
            (*final(self), action) == old(self).into_contact(meta),
    {
        let factor = match self.body.frame_friction_override {
            Some(friction) => friction,
            None => meta.friction_lerp,
        };
        self.body.frame_friction_override = None;
        if self.body.is_on_ground {
            if self.body.has_friction {
                let velocity = self.body.velocity.x;
                self.wait(Phase::SlowHorizontal, Action::Slow { velocity, factor })
            } else {
                self.to_landed()
            }
        } else if self.body.has_mass {
            let velocity = self.body.velocity.y;
            let gravity = self.body.gravity;
            self.wait(Phase::Fall, Action::Fall { velocity, gravity })
        } else {
            self.to_rotation()
        }
    }

    fn to_landed(&mut self) -> (action: Action)
        ensures
            (*final(self), action) == old(self).into_landed(),
    {
        let velocity = self.body.velocity.y;
        let gravity = self.body.gravity;
        self.wait(Phase::Landed, Action::CompareLanded { velocity, gravity })
    }

    fn to_rotation(&mut self) -> (action: Action)
        ensures
            (*final(self), action) == old(self).into_rotation(),
    {
        if self.body.can_rotate {
            let change = apply_rotation(self.body.is_on_ground, self.body.shape);
            let velocity = self.body.velocity.x;
            let angular_velocity = self.body.angular_velocity;
            self.wait(Phase::Rotate, Action::Rotate { change, velocity, angular_velocity })
        } else {
            self.to_finish()
        }
    }

    fn to_finish(&mut self) -> (action: Action)
        ensures
            (*final(self), action) == old(self).into_finish(),
    {
        self.wait(Phase::Finished, Action::Finish)
    }

    fn place(&mut self, event: Event) -> (action: Action)
        ensures
            (*final(self), action) == old(self).next_place(event),
    {
        match (self.phase, event) {
            (Phase::Toggle { moves }, Event::Done) => {
                if moves {
                    let last_position = self.body.last_update_position;
                    let last_rotation = self.body.last_update_rotation;
                    self.wait(Phase::Transform, Action::ReadTransform { last_position, last_rotation })
                } else {
                    self.to_finish()
                }
            },
            (
                Phase::Transform,
                Event::Transform { position, rotation, position_changed, rotation_changed },
            ) => {
                self.has_moved = position_changed || rotation_changed || self.body.is_spawning;
                self.body.last_update_position = position;
                self.body.last_update_rotation = rotation;
                self.to_shove()
            },
            (Phase::ShoveTile, Event::Tile(tile)) => {
                if tile != TileCollisionKind::Solid {
                    self.to_shape()
                } else {
                    let shape = self.body.shape;
                    self.wait(Phase::ShoveBounds, Action::ComputeBounds { shape })
                }
            },
            (Phase::ShoveBounds, Event::Bounds(aabb)) => {
                let rect = self.body.bounding_box(aabb);
                self.wait(Phase::ShoveCorners, Action::ProbeCorners { rect })
            },
            (Phase::ShoveCorners, Event::Corners(corners)) => {
                match corners.shove() {
                    Shove::Toward(toward) => self.wait(Phase::Shove, Action::Shove { toward }),
                    _ => self.to_shape(),
                }
            },
            (Phase::Shove, Event::Done) => self.to_shove(),
            _ => Action::Unexpected,
        }
    }

    fn travel(&mut self, event: Event) -> (action: Action)
        ensures
            (*final(self), action) == old(self).next_move(event),
    {
        match (self.phase, event) {
            (Phase::Shape, Event::Done) => self.to_spawn(),
            (Phase::Teleport, Event::Done) => self.to_descent(),
            (Phase::Descend, Event::Done) => self.to_vertical(),
            (Phase::MoveVertical, Event::Answer(stopped)) => {
                if stopped {
                    let velocity = self.body.velocity.y;
                    let bounciness = self.body.bounciness;
                    self.wait(Phase::BounceVertical, Action::Bounce { velocity, bounciness })
                } else {
                    self.to_horizontal()
                }
            },
            (Phase::BounceVertical, Event::Value(velocity)) => {
                self.rise_at(velocity);
                self.to_horizontal()
            },
            (Phase::MoveHorizontal, Event::Answer(stopped)) => {
                if stopped {
                    let velocity = self.body.velocity.x;
                    let bounciness = self.body.bounciness;
                    self.wait(Phase::BounceHorizontal, Action::Bounce { velocity, bounciness })
                } else {
                    self.to_still()
                }
            },
            (Phase::BounceHorizontal, Event::Value(velocity)) => {
                self.walk_at(velocity);
                self.to_still()
            },
            _ => Action::Unexpected,
        }
    }

    fn stand(&mut self, meta: PhysicsMeta, event: Event) -> (action: Action)
        ensures
            (*final(self), action) == old(self).next_stand(meta, event),
    {
        match (self.phase, event) {
            (Phase::Still, Event::Answer(still)) => {
                if still {
                    let shape = self.body.shape;
                    self.wait(Phase::Platform, Action::TestPlatform { shape })
                } else {
                    self.to_ground()
                }
            },
            (Phase::Platform, Event::Tile(tile)) => {
                if tile == TileCollisionKind::JumpThrough {
                    self.body.fall_through = true;
                }
                self.to_ground()
            },
            (Phase::Ground, Event::Tile(tile)) => {
                let on_jump_through_tile = tile == TileCollisionKind::JumpThrough;
                self.body.is_on_ground = tile != TileCollisionKind::Empty && !(on_jump_through_tile
                    && self.body.fall_through);
                self.body.is_on_platform = self.body.is_on_ground && on_jump_through_tile;
                self.to_contact(meta)
            },
            _ => Action::Unexpected,
        }
    }

    fn slow(&mut self, meta: PhysicsMeta, event: Event) -> (action: Action)
        ensures
            (*final(self), action) == old(self).next_slow(meta, event),
    {
        match (self.phase, event) {
            (Phase::SlowHorizontal, Event::Value(velocity)) => {
                self.walk_at(velocity);
                self.wait(Phase::Stop, Action::CompareStop { velocity, threshold: meta.stop_threshold })
            },
            (Phase::Stop, Event::Answer(stopped)) => {
                if stopped {
                    self.walk_at(Scalar::zero());
                }
                let velocity = self.body.velocity.y;
                self.wait(Phase::SlowVertical, Action::Slow { velocity, factor: meta.friction_lerp })
            },
            (Phase::SlowVertical, Event::Value(velocity)) => {
                self.rise_at(velocity);
                self.to_landed()
            },
            (Phase::Landed, Event::Answer(landed)) => {
                if landed {
                    self.rise_at(Scalar::zero());
                }
                self.to_rotation()
            },
            _ => Action::Unexpected,
        }
    }

    fn fall(&mut self, meta: PhysicsMeta, event: Event) -> (action: Action)
        ensures
            (*final(self), action) == old(self).next_fall(meta, event),
    {
        match (self.phase, event) {
            (Phase::Fall, Event::Value(velocity)) => {
                self.rise_at(velocity);
                let terminal_velocity = meta.terminal_velocity;
                self.wait(Phase::Terminal, Action::CompareTerminal { velocity, terminal_velocity })
            },
            (Phase::Terminal, Event::Answer(faster)) => {
                if faster {
                    self.wait(Phase::Clamp, Action::Negate { value: meta.terminal_velocity })
                } else {
                    self.to_rotation()
                }
            },
            (Phase::Clamp, Event::Value(velocity)) => {
                self.rise_at(velocity);
                self.to_rotation()
            },
            (Phase::Rotate, Event::Done) => self.to_finish(),
            _ => Action::Unexpected,
        }
    }

    /// Takes the answer to the last action and gives the next one.
    pub fn advance(&mut self, meta: PhysicsMeta, event: Event) -> (action: Action)
        ensures
            (*final(self), action) == old(self).next(meta, event),
    {
        match self.phase {
            Phase::Toggle { .. }
            | Phase::Transform
            | Phase::ShoveTile
            | Phase::ShoveBounds
            | Phase::ShoveCorners
            | Phase::Shove => self.place(event),
            Phase::Shape
            | Phase::Teleport
            | Phase::Descend
            | Phase::MoveVertical
            | Phase::BounceVertical
            | Phase::MoveHorizontal
            | Phase::BounceHorizontal => self.travel(event),
            Phase::Still
            | Phase::Platform
            | Phase::Ground => self.stand(meta, event),
            Phase::SlowHorizontal
            | Phase::Stop
            | Phase::SlowVertical
            | Phase::Landed => self.slow(meta, event),
            Phase::Fall
            | Phase::Terminal
            | Phase::Clamp
            | Phase::Rotate => self.fall(meta, event),
            Phase::Finished => Action::Unexpected,
        }
    }
}

} // verus!
