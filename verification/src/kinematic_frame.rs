//! One frame of all kinematic bodies.

use vstd::prelude::*;

use crate::body::KinematicBody;
use crate::body_laws::law_finish_ends_the_update;
use crate::ecs::EntityId;
use crate::geometry::Scalar;
use crate::kinematics::{Action, BodyUpdate, Event, PhysicsMeta};

verus! {

/// The parameters with which the collision world is stepped.
#[derive(Clone, Copy, Debug, PartialEq, Eq, Structural)]
pub struct PhysicsParams {
    pub gravity: Scalar,
    pub terminal_velocity: Option<Scalar>,
}

/// A body in the order in which the bodies of a world are updated.
#[derive(Clone, Copy, Debug, PartialEq, Eq, Structural)]
pub struct FrameBody {
    pub entity: EntityId,
    pub body: KinematicBody,
    /// Whether the entity is simulated as a dynamic body, if it can be.
    pub is_dynamic: Option<bool>,
}

/// What the update of a world's bodies asks of the host.
#[derive(Clone, Copy, Debug, PartialEq, Eq, Structural)]
pub enum FrameAction {
    /// Carry out the action for the entity's body.
    Body { entity: EntityId, action: Action },
    /// All bodies are up to date.
    Finish,
    /// The event does not answer the last action; nothing has changed.
    Unexpected,
}

/// The update of all bodies of a world in one frame.
pub struct KinematicFrame {
    meta: PhysicsMeta,
    bodies: Vec<FrameBody>,
    index: usize,
    current: Option<BodyUpdate>,
}

/// What a [`KinematicFrame`] holds.
pub struct FrameView {
    pub meta: PhysicsMeta,
    /// All bodies, in the order in which they are updated.
    pub bodies: Seq<FrameBody>,
    /// How many of the bodies are up to date.
    pub index: int,
    /// The update of the body at `index`, as long as there is one.
    pub current: Option<BodyUpdate>,
}

impl FrameView {
    /// Goes on with the body at `index`, or finishes after the last one.
    pub open spec fn resumed(self) -> (FrameView, FrameAction) {
        if self.index < self.bodies.len() {
            let next = self.bodies[self.index];
            let (update, action) = BodyUpdate::started(next.body, next.is_dynamic);
            (
                FrameView { current: Some(update), ..self },
                FrameAction::Body { entity: next.entity, action },
            )
        } else {
            (FrameView { current: None, ..self }, FrameAction::Finish)
        }
    }

    /// The frame after an event, and the action that comes next. When the update of a body is
    /// finished, the body is put back in its place and the next one has its turn.
    pub open spec fn next(self, event: Event) -> (FrameView, FrameAction) {
        match self.current {
            Some(update) => {
                let (later, action) = update.next(self.meta, event);
                match action {
                    Action::Unexpected => (self, FrameAction::Unexpected),
                    Action::Finish => FrameView {
                        bodies: self.bodies.update(
                            self.index,
                            FrameBody { body: later.body, ..self.bodies[self.index] },
                        ),
                        index: self.index + 1,
                        ..self
                    }.resumed(),
                    _ => (
                        FrameView { current: Some(later), ..self },
                        FrameAction::Body { entity: self.bodies[self.index].entity, action },
                    ),
                }
            },
            None => (self, FrameAction::Unexpected),
        }
    }
}

impl View for KinematicFrame {
    type V = FrameView;

    closed spec fn view(&self) -> FrameView {
        FrameView {
            meta: self.meta,
            bodies: self.bodies@,
            index: self.index as int,
            current: self.current,
        }
    }
}

/// The parameters for stepping the collision world before its bodies are updated.
pub fn world_params(meta: PhysicsMeta) -> (params: PhysicsParams)
    ensures
        params.gravity == meta.gravity,
        params.terminal_velocity == Some(meta.terminal_velocity),
{
    PhysicsParams { gravity: meta.gravity, terminal_velocity: Some(meta.terminal_velocity) }
}

/// Update physics for kinematic bodies: starts with the first of `bodies`.
///
/// The bodies are those of the world after it has been stepped with [`world_params`].
pub fn update_kinematic_bodies(meta: PhysicsMeta, bodies: Vec<FrameBody>) -> (started: (
    KinematicFrame,
    FrameAction,
))
    ensures
        started.0.wf(),
        (started.0@, started.1) == (FrameView {
            meta,
            bodies: bodies@,
            index: 0,
            current: None,
        }).resumed(),
        (started.0@, started.1) == frame_of(meta, bodies@),
{
    let mut frame = KinematicFrame { meta, bodies, index: 0, current: None };
    let action = frame.resume();
    (frame, action)
}

impl KinematicFrame {
    /// A frame has a body in work exactly as long as not all bodies are up to date.
    pub closed spec fn wf(&self) -> bool {
        &&& self.index <= self.bodies@.len()
        &&& self.current is Some <==> self.index < self.bodies@.len()
    }

    fn resume(&mut self) -> (action: FrameAction)
        requires
            old(self).index <= old(self).bodies@.len(),
        ensures
            final(self).wf(),
            (final(self)@, action) == old(self)@.resumed(),
    {
        if self.index < self.bodies.len() {
            let next = self.bodies[self.index];
            let (update, action) = BodyUpdate::start(next.body, next.is_dynamic);
            self.current = Some(update);
            FrameAction::Body { entity: next.entity, action }
        } else {
            self.current = None;
            FrameAction::Finish
        }
    }

    /// Takes the answer to the last action and gives the next one.
    pub fn advance(&mut self, event: Event) -> (action: FrameAction)
        requires
            old(self).wf(),
        ensures
            final(self).wf(),
            (final(self)@, action) == old(self)@.next(event),
    {
        match self.current {
            Some(current) => {
                let mut update = current;
                let action = update.advance(self.meta, event);
                let count: usize = self.bodies.len();
                let FrameBody { entity, is_dynamic, .. } = self.bodies[self.index];
                match action {
                    Action::Unexpected => FrameAction::Unexpected,
                    Action::Finish => {
                        let done = FrameBody { entity, body: update.body, is_dynamic };
                        self.bodies.set(self.index, done);
                        assert(self.index < count);
                        self.index = self.index + 1;
                        self.resume()
                    },
                    _ => {
                        self.current = Some(update);
                        FrameAction::Body { entity, action }
                    },
                }
            },
            None => FrameAction::Unexpected,
        }
    }

    /// The bodies, as far as they are up to date.
    pub fn into_bodies(self) -> (bodies: Vec<FrameBody>)
        ensures
            bodies@ == self@.bodies,
    {
        self.bodies
    }
}

impl FrameView {
    /// The frame after a sequence of events.
    pub open spec fn after(self, events: Seq<Event>) -> FrameView
        decreases events.len(),
    {
        if events.len() == 0 {
            self
        } else {
            self.after(events.drop_last()).next(events.last()).0
        }
    }
}

/// Whether `update` is what the update of `body` comes to after some events.
pub open spec fn comes_to(meta: PhysicsMeta, body: FrameBody, update: BodyUpdate) -> bool {
    exists|events: Seq<Event>|
        update == #[trigger] BodyUpdate::started(body.body, body.is_dynamic).0.after(meta, events)
}

/// Whether `done` is `body` after its update has been finished.
pub open spec fn finished(meta: PhysicsMeta, body: FrameBody, done: FrameBody) -> bool {
    &&& done.entity == body.entity
    &&& done.is_dynamic == body.is_dynamic
    &&& exists|update: BodyUpdate|
        #[trigger] comes_to(meta, body, update) && update.phase is Finished && update.body == done.body
}

/// Whether a frame is on its way through `bodies`: those up to its index are finished, one is in
/// work, and the others wait.
pub open spec fn underway(meta: PhysicsMeta, bodies: Seq<FrameBody>, frame: FrameView) -> bool {
    &&& frame.meta == meta
    &&& frame.bodies.len() == bodies.len()
    &&& 0 <= frame.index <= bodies.len()
    &&& frame.current is Some <==> frame.index < bodies.len()
    &&& frame.current matches Some(update) ==> comes_to(meta, bodies[frame.index], update)
    &&& forall|i: int| 0 <= i < frame.index ==> finished(meta, bodies[i], #[trigger] frame.bodies[i])
    &&& forall|i: int| frame.index <= i < bodies.len() ==> #[trigger] frame.bodies[i] == bodies[i]
}

proof fn lemma_comes_to_start(meta: PhysicsMeta, body: FrameBody)
    ensures
        comes_to(meta, body, BodyUpdate::started(body.body, body.is_dynamic).0),
{
    assert(BodyUpdate::started(body.body, body.is_dynamic).0.after(meta, Seq::<Event>::empty())
        == BodyUpdate::started(body.body, body.is_dynamic).0);
}

proof fn lemma_comes_to_next(meta: PhysicsMeta, body: FrameBody, update: BodyUpdate, event: Event)
    requires
        comes_to(meta, body, update),
    ensures
        comes_to(meta, body, update.next(meta, event).0),
{
    let start = BodyUpdate::started(body.body, body.is_dynamic).0;
    let events = choose|events: Seq<Event>| update == #[trigger] start.after(meta, events);
    let longer = events.push(event);
    assert(longer.drop_last() =~= events);
    assert(start.after(meta, longer) == update.next(meta, event).0);
}

proof fn lemma_underway(meta: PhysicsMeta, bodies: Seq<FrameBody>, frame: FrameView, event: Event)
    requires
        underway(meta, bodies, frame),
    ensures
        underway(meta, bodies, frame.next(event).0),
{
    if let Some(update) = frame.current {
        let body = bodies[frame.index];
        let later = update.next(meta, event).0;
        lemma_comes_to_next(meta, body, update, event);
        if update.next(meta, event).1 is Finish {
            law_finish_ends_the_update(update, meta, event);
            assert(finished(meta, body, FrameBody { body: later.body, ..frame.bodies[frame.index] }));
            if frame.index + 1 < bodies.len() {
                assert(frame.bodies[frame.index + 1] == bodies[frame.index + 1]);
                lemma_comes_to_start(meta, bodies[frame.index + 1]);
            }
        }
    }
}

/// A frame updates its bodies one after the other, each by an update of its own that sees nothing of
/// the others, and keeps their order: at any time the bodies up to the index are finished, the one
/// at the index is in work, and the later ones are as they were. When the frame is finished, all
/// are.
pub proof fn law_frame_updates_each_body(
    meta: PhysicsMeta,
    bodies: Seq<FrameBody>,
    events: Seq<Event>,
)
    ensures
        underway(
            meta,
            bodies,
            (FrameView { meta, bodies, index: 0, current: None }).resumed().0.after(events),
        ),
    decreases events.len(),
{
    let start = (FrameView { meta, bodies, index: 0, current: None }).resumed().0;
    if events.len() == 0 {
        if bodies.len() > 0 {
            lemma_comes_to_start(meta, bodies[0]);
        }
    } else {
        law_frame_updates_each_body(meta, bodies, events.drop_last());
        lemma_underway(meta, bodies, start.after(events.drop_last()), events.last());
    }
}

/// The frame that is started for bodies.
pub open spec fn frame_of(meta: PhysicsMeta, bodies: Seq<FrameBody>) -> (FrameView, FrameAction) {
    (FrameView { meta, bodies, index: 0, current: None }).resumed()
}

/// A frame starts with the first action of the update of its first body, for that body's entity, and
/// is finished at once if there is none.
pub proof fn law_frame_starts_with_the_first_body(meta: PhysicsMeta, bodies: Seq<FrameBody>)
    ensures
        ({
            let (frame, action) = frame_of(meta, bodies);
            &&& frame.index == 0 && frame.bodies == bodies && frame.meta == meta
            &&& bodies.len() == 0 ==> action is Finish
            &&& bodies.len() > 0 ==> {
                let (update, first) = BodyUpdate::started(bodies[0].body, bodies[0].is_dynamic);
                &&& frame.current == Some(update)
                &&& action == (FrameAction::Body { entity: bodies[0].entity, action: first })
            }
        }),
{
}

/// Every action for a body that a frame gives, after whatever events, is addressed to the entity of
/// the body whose update is in work, the one at the frame's index in the list that the frame was
/// started with. It is the next action of that body's own update, or, if the update of the body
/// before has just been finished, the first one. The frame is finished exactly when the update of the
/// last body is, and an event that does not answer the last action changes nothing.
pub proof fn law_actions_are_for_the_body_in_work(
    meta: PhysicsMeta,
    bodies: Seq<FrameBody>,
    events: Seq<Event>,
    event: Event,
)
    ensures
        ({
            let frame = frame_of(meta, bodies).0.after(events);
            let (later, action) = frame.next(event);
            &&& action matches FrameAction::Body { entity, action: asked } ==> {
                &&& 0 <= later.index < bodies.len()
                &&& entity == bodies[later.index].entity
                &&& frame.current is Some
                &&& later.index == frame.index ==> (later.current, asked) == (
                    Some(frame.current->0.next(meta, event).0),
                    frame.current->0.next(meta, event).1,
                ) && later.bodies == frame.bodies
                &&& later.index != frame.index ==> {
                    &&& later.index == frame.index + 1
                    &&& frame.current->0.next(meta, event).1 is Finish
                    &&& (later.current, asked) == (
                        Some(
                            BodyUpdate::started(
                                bodies[later.index].body,
                                bodies[later.index].is_dynamic,
                            ).0,
                        ),
                        BodyUpdate::started(
                            bodies[later.index].body,
                            bodies[later.index].is_dynamic,
                        ).1,
                    )
                }
            }
            &&& action is Finish <==> frame.index + 1 == bodies.len() && (frame.current->0).next(
                meta,
                event,
            ).1 is Finish
            &&& action is Finish ==> later.index == bodies.len()
            &&& action is Unexpected ==> later == frame
            &&& action is Unexpected <==> (frame.current matches Some(update) ==> update.next(
                meta,
                event,
            ).1 is Unexpected)
        }),
{
    let frame = frame_of(meta, bodies).0.after(events);
    law_frame_updates_each_body(meta, bodies, events);
    assert(underway(meta, bodies, frame));
    if frame.index < bodies.len() {
        assert(frame.bodies[frame.index] == bodies[frame.index]);
    }
    if frame.index + 1 < bodies.len() {
        assert(frame.bodies[frame.index + 1] == bodies[frame.index + 1]);
    }
}

/// When the update of a body is finished, the body is put back in its place as the update left it,
/// with its entity, and no other body is touched.
pub proof fn law_finished_body_is_put_back(
    meta: PhysicsMeta,
    bodies: Seq<FrameBody>,
    events: Seq<Event>,
    event: Event,
    i: int,
)
    requires
        0 <= i < bodies.len(),
        frame_of(meta, bodies).0.after(events).index < bodies.len(),
    ensures
        ({
            let frame = frame_of(meta, bodies).0.after(events);
            let later = frame.next(event).0;
            let (update, action) = (frame.current->0).next(meta, event);
            &&& later.bodies.len() == bodies.len()
            &&& later.bodies[i] == (if action is Finish && i == frame.index {
                FrameBody {
                    entity: bodies[i].entity,
                    body: update.body,
                    is_dynamic: bodies[i].is_dynamic,
                }
            } else {
                frame.bodies[i]
            })
        }),
{
    let frame = frame_of(meta, bodies).0.after(events);
    law_frame_updates_each_body(meta, bodies, events);
    assert(underway(meta, bodies, frame));
    assert(frame.bodies[frame.index] == bodies[frame.index]);
}

} // verus!
