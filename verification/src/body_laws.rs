//! What holds of every update of a kinematic body, whatever the host answers.

use vstd::prelude::*;

use crate::body::{KinematicBody, TileCollisionKind};
use crate::kinematics::{Action, BodyUpdate, Corners, Direction, Event, Phase, PhysicsMeta, Shove};

verus! {

impl BodyUpdate {
    /// The update after a sequence of events.
    pub open spec fn after(self, meta: PhysicsMeta, events: Seq<Event>) -> BodyUpdate
        decreases events.len(),
    {
        if events.len() == 0 {
            self
        } else {
            self.after(meta, events.drop_last()).next(meta, events.last()).0
        }
    }

    /// The action that follows the event with the given index.
    pub open spec fn action_after(self, meta: PhysicsMeta, events: Seq<Event>, i: int) -> Action {
        self.after(meta, events.take(i)).next(meta, events[i]).1
    }
}

/// Whether an event is the kind of answer that an action asks for.
pub open spec fn answers(event: Event, action: Action) -> bool {
    match action {
        Action::SetColliderDisabled { .. }
        | Action::Shove { .. }
        | Action::SyncShape { .. }
        | Action::Teleport
        | Action::Descend
        | Action::Rotate { .. } => event is Done,
        Action::ReadTransform { .. } => event is Transform,
        Action::TestTile { .. }
        | Action::TestPlatform { .. }
        | Action::TestGround { .. } => event is Tile,
        Action::ComputeBounds { .. } => event is Bounds,
        Action::ProbeCorners { .. } => event is Corners,
        Action::MoveVertical { .. }
        | Action::MoveHorizontal { .. }
        | Action::CompareStill { .. }
        | Action::CompareStop { .. }
        | Action::CompareLanded { .. }
        | Action::CompareTerminal { .. } => event is Answer,
        Action::Bounce { .. }
        | Action::Slow { .. }
        | Action::Fall { .. }
        | Action::Negate { .. } => event is Value,
        Action::Finish | Action::Unexpected => false,
    }
}

/// The place of a phase in the order in which an update passes through them.
pub open spec fn rank(phase: Phase) -> nat {
    match phase {
        Phase::Toggle { .. } => 0,
        Phase::Transform => 1,
        Phase::ShoveTile => 2,
        Phase::ShoveBounds => 3,
        Phase::ShoveCorners => 4,
        Phase::Shove => 5,
        Phase::Shape => 6,
        Phase::Teleport => 7,
        Phase::Descend => 8,
        Phase::MoveVertical => 9,
        Phase::BounceVertical => 10,
        Phase::MoveHorizontal => 11,
        Phase::BounceHorizontal => 12,
        Phase::Still => 13,
        Phase::Platform => 14,
        Phase::Ground => 15,
        Phase::SlowHorizontal => 16,
        Phase::Stop => 17,
        Phase::SlowVertical => 18,
        Phase::Landed => 19,
        Phase::Fall => 20,
        Phase::Terminal => 21,
        Phase::Clamp => 22,
        Phase::Rotate => 23,
        Phase::Finished => 24,
    }
}

/// Whether two bodies have the same settings: everything that an update of a body reads but never
/// changes.
pub open spec fn same_settings(a: KinematicBody, b: KinematicBody) -> bool {
    &&& a.shape == b.shape
    &&& a.angular_velocity == b.angular_velocity
    &&& a.gravity == b.gravity
    &&& a.bounciness == b.bounciness
    &&& a.has_mass == b.has_mass
    &&& a.has_friction == b.has_friction
    &&& a.can_rotate == b.can_rotate
    &&& a.is_deactivated == b.is_deactivated
    &&& a.is_controlled == b.is_controlled
}

/// The state of an update that started from `body` and moves it.
pub open spec fn on_course(body: KinematicBody, update: BodyUpdate) -> bool {
    let now = update.body;
    let r = rank(update.phase);
    &&& same_settings(body, now)
    &&& update.phase matches Phase::Toggle { moves } ==> moves
    &&& r <= 1 ==> now == body
    &&& r <= 9 ==> now.velocity == body.velocity
    &&& r <= 13 ==> now.fall_through == body.fall_through
    &&& now.is_spawning == (r <= 6 && body.is_spawning)
    &&& body.fall_through ==> now.fall_through
    &&& r <= 15 ==> now.is_on_ground == body.is_on_ground && now.is_on_platform == body.is_on_platform
    &&& r < 15 ==> now.was_on_ground == body.was_on_ground
    &&& r >= 15 ==> now.was_on_ground == body.is_on_ground
    &&& r > 15 ==> (now.is_on_platform ==> now.is_on_ground && !now.fall_through)
    &&& 16 <= r <= 18 ==> now.is_on_ground && now.has_friction
    &&& r == 19 ==> now.is_on_ground
    &&& 20 <= r <= 22 ==> !now.is_on_ground && now.has_mass
    &&& now.frame_friction_override == (if r > 15 {
        None
    } else {
        body.frame_friction_override
    })
}

proof fn lemma_course_kept_place(body: KinematicBody, update: BodyUpdate, event: Event)
    requires
        on_course(body, update),
        0 <= rank(update.phase) <= 5,
    ensures
        on_course(body, update.next_place(event).0),
{
}

proof fn lemma_course_kept_move(body: KinematicBody, update: BodyUpdate, event: Event)
    requires
        on_course(body, update),
        6 <= rank(update.phase) <= 12,
    ensures
        on_course(body, update.next_move(event).0),
{
}

proof fn lemma_course_kept_stand(body: KinematicBody, update: BodyUpdate, meta: PhysicsMeta, event: Event)
    requires
        on_course(body, update),
        13 <= rank(update.phase) <= 15,
    ensures
        on_course(body, update.next_stand(meta, event).0),
{
}

proof fn lemma_course_kept_slow(body: KinematicBody, update: BodyUpdate, meta: PhysicsMeta, event: Event)
    requires
        on_course(body, update),
        16 <= rank(update.phase) <= 19,
    ensures
        on_course(body, update.next_slow(meta, event).0),
{
}

proof fn lemma_course_kept_fall(body: KinematicBody, update: BodyUpdate, meta: PhysicsMeta, event: Event)
    requires
        on_course(body, update),
        20 <= rank(update.phase) <= 23,
    ensures
        on_course(body, update.next_fall(meta, event).0),
{
}

proof fn lemma_course_kept(body: KinematicBody, update: BodyUpdate, meta: PhysicsMeta, event: Event)
    requires
        on_course(body, update),
    ensures
        on_course(body, update.next(meta, event).0),
{
    let r = rank(update.phase);
    if r <= 5 {
        lemma_course_kept_place(body, update, event);
    } else if r <= 12 {
        lemma_course_kept_move(body, update, event);
    } else if r <= 15 {
        lemma_course_kept_stand(body, update, meta, event);
    } else if r <= 19 {
        lemma_course_kept_slow(body, update, meta, event);
    } else if r <= 23 {
        lemma_course_kept_fall(body, update, meta, event);
    }
}

proof fn lemma_on_course(body: KinematicBody, update: BodyUpdate, meta: PhysicsMeta, events: Seq<Event>)
    requires
        on_course(body, update),
    ensures
        on_course(body, update.after(meta, events)),
    decreases events.len(),
{
    if events.len() > 0 {
        lemma_on_course(body, update, meta, events.drop_last());
        lemma_course_kept(body, update.after(meta, events.drop_last()), meta, events.last());
    }
}

/// An update never changes the settings of its body.
pub proof fn law_settings_are_kept(
    body: KinematicBody,
    is_dynamic: Option<bool>,
    meta: PhysicsMeta,
    events: Seq<Event>,
)
    ensures
        same_settings(body, BodyUpdate::started(body, is_dynamic).0.after(meta, events).body),
{
    let update = BodyUpdate::started(body, is_dynamic).0;
    if update.phase == (Phase::Toggle { moves: true }) {
        lemma_on_course(body, update, meta, events);
    } else {
        lemma_resting(update, meta, events);
    }
}

/// Once an update that moves its body is finished, the body remembers whether it was on the ground
/// before, does not spawn any more, and is on a platform only if it is on the ground and does not
/// fall through. An update never makes a body stop falling through platforms.
pub proof fn law_finished_update(
    body: KinematicBody,
    is_dynamic: Option<bool>,
    meta: PhysicsMeta,
    events: Seq<Event>,
)
    requires
        !body.is_deactivated,
        is_dynamic != Some(true),
        BodyUpdate::started(body, is_dynamic).0.after(meta, events).phase is Finished,
    ensures
        ({
            let done = BodyUpdate::started(body, is_dynamic).0.after(meta, events).body;
            &&& done.was_on_ground == body.is_on_ground
            &&& !done.is_spawning
            &&& done.is_on_platform ==> done.is_on_ground && !done.fall_through
            &&& body.fall_through ==> done.fall_through
        }),
{
    lemma_on_course(body, BodyUpdate::started(body, is_dynamic).0, meta, events);
}

/// A friction that is set for a frame lasts for that frame alone: once any update is finished, there
/// is none, whether it was applied or not.
pub proof fn law_override_lasts_one_frame(
    body: KinematicBody,
    is_dynamic: Option<bool>,
    meta: PhysicsMeta,
    events: Seq<Event>,
)
    requires
        BodyUpdate::started(body, is_dynamic).0.after(meta, events).phase is Finished,
    ensures
        BodyUpdate::started(body, is_dynamic).0.after(meta, events).body.frame_friction_override is None,
{
    let update = BodyUpdate::started(body, is_dynamic).0;
    if update.phase == (Phase::Toggle { moves: true }) {
        lemma_on_course(body, update, meta, events);
    } else {
        lemma_resting(update, meta, events);
    }
}

proof fn lemma_resting(update: BodyUpdate, meta: PhysicsMeta, events: Seq<Event>)
    requires
        update.phase == (Phase::Toggle { moves: false }) || update.phase is Finished,
    ensures
        update.after(meta, events).body == update.body,
        update.after(meta, events).phase == (Phase::Toggle { moves: false }) || update.after(
            meta,
            events,
        ).phase is Finished,
    decreases events.len(),
{
    if events.len() > 0 {
        lemma_resting(update, meta, events.drop_last());
    }
}

/// A body that is deactivated, or that is simulated as a dynamic body, is not touched by its update
/// but for the friction that was set for the frame, and apart from its collider being disabled or
/// enabled nothing is asked of the host for it.
pub proof fn law_resting_body(
    body: KinematicBody,
    is_dynamic: Option<bool>,
    meta: PhysicsMeta,
    events: Seq<Event>,
)
    requires
        body.is_deactivated || is_dynamic == Some(true),
    ensures
        BodyUpdate::started(body, is_dynamic).1 == (Action::SetColliderDisabled {
            disabled: body.is_deactivated,
        }),
        BodyUpdate::started(body, is_dynamic).0.after(meta, events).body == body.without_override(),
        forall|i: int|
            0 <= i < events.len() ==> {
                let action = #[trigger] BodyUpdate::started(body, is_dynamic).0.action_after(meta, events, i);
                action is Finish || action is Unexpected
            },
{
    let update = BodyUpdate::started(body, is_dynamic).0;
    lemma_resting(update, meta, events);
    assert forall|i: int| 0 <= i < events.len() implies {
        let action = #[trigger] update.action_after(meta, events, i);
        action is Finish || action is Unexpected
    } by {
        lemma_resting(update, meta, events.take(i));
    }
}

/// A body is only shoved toward a side of which both corners are free, and whenever some corner is
/// in a wall but a side is free, it is shoved.
pub proof fn law_shoves_lead_out(corners: Corners, side: Direction)
    ensures
        corners.way_out() matches Shove::Toward(toward) ==> corners.side_free(toward),
        !corners.all_free() && corners.side_free(side) ==> corners.way_out() is Toward,
        corners.way_out() is Stuck <==> corners.all_free(),
{
}

/// Whether an event is the kind of answer that a phase waits for.
spec fn awaits(phase: Phase, event: Event) -> bool {
    match phase {
        Phase::Toggle { .. }
        | Phase::Shove
        | Phase::Shape
        | Phase::Teleport
        | Phase::Descend
        | Phase::Rotate => event is Done,
        Phase::Transform => event is Transform,
        Phase::ShoveTile | Phase::Platform | Phase::Ground => event is Tile,
        Phase::ShoveBounds => event is Bounds,
        Phase::ShoveCorners => event is Corners,
        Phase::MoveVertical
        | Phase::MoveHorizontal
        | Phase::Still
        | Phase::Stop
        | Phase::Landed
        | Phase::Terminal => event is Answer,
        Phase::BounceVertical
        | Phase::BounceHorizontal
        | Phase::SlowHorizontal
        | Phase::SlowVertical
        | Phase::Fall
        | Phase::Clamp => event is Value,
        Phase::Finished => false,
    }
}

proof fn lemma_awaits_place(update: BodyUpdate, event: Event, answer: Event)
    requires
        0 <= rank(update.phase) <= 5,
    ensures
        update.next_place(event).1 is Unexpected <==> !awaits(update.phase, event),
        awaits(update.phase, event) ==> answers(answer, update.next_place(event).1) == awaits(
            update.next_place(event).0.phase,
            answer,
        ),
{
}

proof fn lemma_awaits_move(update: BodyUpdate, event: Event, answer: Event)
    requires
        6 <= rank(update.phase) <= 12,
    ensures
        update.next_move(event).1 is Unexpected <==> !awaits(update.phase, event),
        awaits(update.phase, event) ==> answers(answer, update.next_move(event).1) == awaits(
            update.next_move(event).0.phase,
            answer,
        ),
{
}

proof fn lemma_awaits_stand(update: BodyUpdate, meta: PhysicsMeta, event: Event, answer: Event)
    requires
        13 <= rank(update.phase) <= 15,
    ensures
        update.next_stand(meta, event).1 is Unexpected <==> !awaits(update.phase, event),
        awaits(update.phase, event) ==> answers(answer, update.next_stand(meta, event).1) == awaits(
            update.next_stand(meta, event).0.phase,
            answer,
        ),
{
}

proof fn lemma_awaits_slow(update: BodyUpdate, meta: PhysicsMeta, event: Event, answer: Event)
    requires
        16 <= rank(update.phase) <= 19,
    ensures
        update.next_slow(meta, event).1 is Unexpected <==> !awaits(update.phase, event),
        awaits(update.phase, event) ==> answers(answer, update.next_slow(meta, event).1) == awaits(
            update.next_slow(meta, event).0.phase,
            answer,
        ),
{
}

proof fn lemma_awaits_fall(update: BodyUpdate, meta: PhysicsMeta, event: Event, answer: Event)
    requires
        20 <= rank(update.phase) <= 23,
    ensures
        update.next_fall(meta, event).1 is Unexpected <==> !awaits(update.phase, event),
        awaits(update.phase, event) ==> answers(answer, update.next_fall(meta, event).1) == awaits(
            update.next_fall(meta, event).0.phase,
            answer,
        ),
{
}

proof fn lemma_awaits(update: BodyUpdate, meta: PhysicsMeta, event: Event, answer: Event)
    ensures
        update.next(meta, event).1 is Unexpected <==> !awaits(update.phase, event),
        awaits(update.phase, event) ==> answers(answer, update.next(meta, event).1) == awaits(
            update.next(meta, event).0.phase,
            answer,
        ),
{
    let r = rank(update.phase);
    if r <= 5 {
        lemma_awaits_place(update, event, answer);
    } else if r <= 12 {
        lemma_awaits_move(update, event, answer);
    } else if r <= 15 {
        lemma_awaits_stand(update, meta, event, answer);
    } else if r <= 19 {
        lemma_awaits_slow(update, meta, event, answer);
    } else if r <= 23 {
        lemma_awaits_fall(update, meta, event, answer);
    }
}

/// The host and the update never get stuck: the event that follows an action is accepted exactly if
/// it is the kind of answer that the action asks for.
pub proof fn law_answers_are_accepted(
    body: KinematicBody,
    is_dynamic: Option<bool>,
    update: BodyUpdate,
    meta: PhysicsMeta,
    event: Event,
    answer: Event,
)
    ensures
        answers(answer, BodyUpdate::started(body, is_dynamic).1) <==> !(BodyUpdate::started(
            body,
            is_dynamic,
        ).0.next(meta, answer).1 is Unexpected),
        !(update.next(meta, event).1 is Unexpected) ==> (answers(answer, update.next(meta, event).1)
            <==> !(update.next(meta, event).0.next(meta, answer).1 is Unexpected)),
{
    lemma_awaits(update, meta, event, answer);
    lemma_awaits(update.next(meta, event).0, meta, answer, answer);
    lemma_awaits(BodyUpdate::started(body, is_dynamic).0, meta, answer, answer);
}

/// How one step of an update relates to the order of the phases.
spec fn in_order(update: BodyUpdate, step: (BodyUpdate, Action)) -> bool {
    let before = rank(update.phase);
    let after = rank(step.0.phase);
    &&& step.1 is Unexpected ==> step.0 == update
    &&& !(step.1 is Unexpected) ==> before < after || (update.phase is Shove && step.0.phase is ShoveTile)
    &&& step.1 is Shove ==> step.0.phase is Shove && !(update.phase is Shove)
    &&& step.0.phase is Shove && !(step.1 is Unexpected) ==> step.1 is Shove
    &&& step.1 is MoveVertical ==> before < 9 && after == 9
    &&& before < 9 && 9 <= after <= 23 ==> step.1 is MoveVertical
    &&& step.1 is MoveHorizontal ==> 9 <= before <= 10 && after == 11
    &&& step.1 is Finish <==> before < 24 && after == 24
    &&& step.1 is TestTile ==> step.0.has_moved && step.0.body.has_mass
    &&& step.1 is CompareStill ==> step.0.has_moved || step.0.body.is_controlled
    &&& 11 <= before <= 12 && after > 12 ==> step.1 is CompareStill || !(step.0.has_moved
        || step.0.body.is_controlled)
    &&& step.1 is Teleport <==> before == 6 && after > 6 && update.body.is_spawning
    &&& step.1 is Descend <==> 6 <= before <= 7 && after > 7 && update.body.fall_through
    &&& 1 <= before <= 5 ==> after <= 6
    &&& step.1 is Fall ==> step.0.body.has_mass && !step.0.body.is_on_ground
    &&& update.phase is Ground && !(step.1 is Unexpected) && step.0.body.has_mass
        && !step.0.body.is_on_ground ==> step.1 is Fall
    &&& step.1 is Rotate ==> step.0.body.can_rotate
    &&& before >= 1 && step.1 is Finish ==> update.phase is Rotate || !step.0.body.can_rotate
}

proof fn lemma_in_order_place(update: BodyUpdate, event: Event)
    requires
        0 <= rank(update.phase) <= 5,
    ensures
        in_order(update, update.next_place(event)),
{
}

proof fn lemma_in_order_move(update: BodyUpdate, event: Event)
    requires
        6 <= rank(update.phase) <= 12,
    ensures
        in_order(update, update.next_move(event)),
{
}

proof fn lemma_in_order_stand(update: BodyUpdate, meta: PhysicsMeta, event: Event)
    requires
        13 <= rank(update.phase) <= 15,
    ensures
        in_order(update, update.next_stand(meta, event)),
{
}

proof fn lemma_in_order_slow(update: BodyUpdate, meta: PhysicsMeta, event: Event)
    requires
        16 <= rank(update.phase) <= 19,
    ensures
        in_order(update, update.next_slow(meta, event)),
{
}

proof fn lemma_in_order_fall(update: BodyUpdate, meta: PhysicsMeta, event: Event)
    requires
        20 <= rank(update.phase) <= 23,
    ensures
        in_order(update, update.next_fall(meta, event)),
{
}

proof fn lemma_in_order(update: BodyUpdate, meta: PhysicsMeta, event: Event)
    ensures
        in_order(update, update.next(meta, event)),
{
    let r = rank(update.phase);
    if r <= 5 {
        lemma_in_order_place(update, event);
    } else if r <= 12 {
        lemma_in_order_move(update, event);
    } else if r <= 15 {
        lemma_in_order_stand(update, meta, event);
    } else if r <= 19 {
        lemma_in_order_slow(update, meta, event);
    } else if r <= 23 {
        lemma_in_order_fall(update, meta, event);
    }
}

/// Every event that is accepted takes the update further along its phases, except that after a shove
/// the body is tested against the walls again.
pub proof fn law_progress(update: BodyUpdate, meta: PhysicsMeta, event: Event)
    requires
        !(update.next(meta, event).1 is Unexpected),
    ensures
        rank(update.next(meta, event).0.phase) > rank(update.phase) || (update.phase is Shove
            && update.next(meta, event).0.phase is ShoveTile),
{
    lemma_in_order(update, meta, event);
}

/// An event that does not answer the last action changes nothing.
pub proof fn law_unexpected_changes_nothing(update: BodyUpdate, meta: PhysicsMeta, event: Event)
    requires
        update.next(meta, event).1 is Unexpected,
    ensures
        update.next(meta, event).0 == update,
{
    lemma_in_order(update, meta, event);
}

proof fn lemma_finish_in_order(update: BodyUpdate, step: (BodyUpdate, Action))
    requires
        in_order(update, step),
    ensures
        step.1 is Finish <==> !(update.phase is Finished) && step.0.phase is Finished,
{
}

/// The host is told to finish exactly when the update becomes finished.
pub proof fn law_finish_ends_the_update(update: BodyUpdate, meta: PhysicsMeta, event: Event)
    ensures
        update.next(meta, event).1 is Finish <==> !(update.phase is Finished) && update.next(
            meta,
            event,
        ).0.phase is Finished,
{
    lemma_in_order(update, meta, event);
    lemma_finish_in_order(update, update.next(meta, event));
}

proof fn lemma_spared_in_order(update: BodyUpdate, step: (BodyUpdate, Action))
    requires
        in_order(update, step),
    ensures
        step.1 is TestTile ==> step.0.has_moved && step.0.body.has_mass,
        step.1 is CompareStill ==> step.0.has_moved || step.0.body.is_controlled,
        (update.phase is MoveHorizontal || update.phase is BounceHorizontal) && !(step.1 is Unexpected)
            && !(step.0.phase is BounceHorizontal) && (step.0.has_moved || step.0.body.is_controlled)
            ==> step.1 is CompareStill,
{
}

/// A body that sleeps, or that has no mass, is not tested against the walls. When a body has been
/// moved, it is tested for floating in a platform, unless it had not moved before and is not
/// controlled.
pub proof fn law_sleeping_body_is_spared(update: BodyUpdate, meta: PhysicsMeta, event: Event)
    ensures
        ({
            let (later, action) = update.next(meta, event);
            let awake = later.has_moved || later.body.is_controlled;
            &&& action is TestTile ==> later.has_moved && later.body.has_mass
            &&& action is CompareStill ==> awake
            &&& (update.phase is MoveHorizontal || update.phase is BounceHorizontal) && !(action
                is Unexpected) && !(later.phase is BounceHorizontal) && awake ==> action is CompareStill
        }),
{
    lemma_in_order(update, meta, event);
    lemma_spared_in_order(update, update.next(meta, event));
}

proof fn lemma_forces_in_order(update: BodyUpdate, step: (BodyUpdate, Action))
    requires
        in_order(update, step),
    ensures
        step.1 is Fall ==> step.0.body.has_mass && !step.0.body.is_on_ground,
        update.phase is Ground && !(step.1 is Unexpected) && step.0.body.has_mass
            && !step.0.body.is_on_ground ==> step.1 is Fall,
        step.1 is Rotate ==> step.0.body.can_rotate,
        !(update.phase is Toggle) && step.1 is Finish ==> update.phase is Rotate
            || !step.0.body.can_rotate,
{
}

/// Gravity acts on a body exactly if the ground test finds that it is in the air and it has mass. A
/// body is rotated exactly if it can rotate.
pub proof fn law_forces_act_on_what_they_should(update: BodyUpdate, meta: PhysicsMeta, event: Event)
    ensures
        ({
            let (later, action) = update.next(meta, event);
            &&& action is Fall ==> later.body.has_mass && !later.body.is_on_ground
            &&& update.phase is Ground && !(action is Unexpected) && later.body.has_mass
                && !later.body.is_on_ground ==> action is Fall
            &&& action is Rotate ==> later.body.can_rotate
            &&& !(update.phase is Toggle) && action is Finish ==> update.phase is Rotate
                || !later.body.can_rotate
        }),
{
    lemma_in_order(update, meta, event);
    lemma_forces_in_order(update, update.next(meta, event));
}

/// A body does not stay caught in a platform: once it is found floating in one, it falls through, and
/// neither that platform nor any other counts as ground in this update.
pub proof fn law_floating_body_drops(
    update: BodyUpdate,
    meta: PhysicsMeta,
    tile: TileCollisionKind,
)
    requires
        update.phase is Platform,
        tile != TileCollisionKind::Solid,
    ensures
        ({
            let found = update.next(meta, Event::Tile(TileCollisionKind::JumpThrough)).0;
            let stood = found.next(meta, Event::Tile(tile)).0;
            &&& found.body.fall_through
            &&& !stood.body.is_on_ground
            &&& !stood.body.is_on_platform
        }),
{
}

/// How many of the actions of an update are shoves.
pub open spec fn shoves(update: BodyUpdate, meta: PhysicsMeta, events: Seq<Event>) -> nat
    decreases events.len(),
{
    if events.len() == 0 {
        0
    } else {
        shoves(update, meta, events.drop_last()) + (if update.action_after(
            meta,
            events,
            events.len() - 1,
        ) is Shove {
            1nat
        } else {
            0nat
        })
    }
}

proof fn lemma_prefix(update: BodyUpdate, meta: PhysicsMeta, events: Seq<Event>, i: int)
    requires
        0 <= i < events.len(),
    ensures
        update.after(meta, events.take(i + 1)) == update.after(meta, events.take(i)).next(meta, events[i]).0,
{
    assert(events.take(i + 1).drop_last() =~= events.take(i));
    assert(events.take(i + 1).last() == events[i]);
}

proof fn lemma_length(update: BodyUpdate, meta: PhysicsMeta, events: Seq<Event>)
    requires
        update.phase is Toggle,
        forall|i: int|
            0 <= i < events.len() ==> !(#[trigger] update.action_after(meta, events, i) is Unexpected),
    ensures
        events.len() <= rank(update.after(meta, events).phase) + 4 * shoves(update, meta, events) - (
        if update.after(meta, events).phase is Shove {
            4int
        } else {
            0int
        }),
    decreases events.len(),
{
    if events.len() > 0 {
        let n = events.len() - 1;
        let front = events.drop_last();
        assert forall|i: int| 0 <= i < front.len() implies !(#[trigger] update.action_after(
            meta,
            front,
            i,
        ) is Unexpected) by {
            assert(front.take(i) =~= events.take(i));
            assert(!(update.action_after(meta, events, i) is Unexpected));
        }
        lemma_length(update, meta, front);
        assert(events.take(n) =~= front);
        assert(!(update.action_after(meta, events, n) is Unexpected));
        lemma_in_order(update.after(meta, front), meta, events.last());
    }
}

/// An update ends: if the host answers every action, an update takes at most twenty-four events,
/// and four more for every shove.
pub proof fn law_updates_end(
    body: KinematicBody,
    is_dynamic: Option<bool>,
    meta: PhysicsMeta,
    events: Seq<Event>,
)
    requires
        forall|i: int|
            0 <= i < events.len() ==> !(#[trigger] BodyUpdate::started(body, is_dynamic).0.action_after(
                meta,
                events,
                i,
            ) is Unexpected),
    ensures
        events.len() <= 24 + 4 * shoves(BodyUpdate::started(body, is_dynamic).0, meta, events),
{
    lemma_length(BodyUpdate::started(body, is_dynamic).0, meta, events);
}

proof fn lemma_vertical_seen(update: BodyUpdate, meta: PhysicsMeta, events: Seq<Event>, n: int) -> (i: int)
    requires
        update.phase is Toggle,
        0 <= n <= events.len(),
        9 <= rank(update.after(meta, events.take(n)).phase) <= 23,
    ensures
        0 <= i < n,
        update.action_after(meta, events, i) is MoveVertical,
    decreases n,
{
    if n == 0 {
        assert(events.take(0).len() == 0);
        0
    } else {
        lemma_prefix(update, meta, events, n - 1);
        let before = update.after(meta, events.take(n - 1));
        lemma_in_order(before, meta, events[n - 1]);
        if 9 <= rank(before.phase) <= 23 {
            lemma_vertical_seen(update, meta, events, n - 1)
        } else {
            n - 1
        }
    }
}

proof fn lemma_stays_past(update: BodyUpdate, meta: PhysicsMeta, events: Seq<Event>, m: int, n: int)
    requires
        0 <= m <= n <= events.len(),
        rank(update.after(meta, events.take(m)).phase) >= 11,
    ensures
        rank(update.after(meta, events.take(n)).phase) >= 11,
    decreases n - m,
{
    if m < n {
        lemma_stays_past(update, meta, events, m, n - 1);
        lemma_prefix(update, meta, events, n - 1);
        lemma_in_order(update.after(meta, events.take(n - 1)), meta, events[n - 1]);
    }
}

/// A body is always moved vertically before it is moved horizontally: a horizontal movement follows
/// a vertical one, and none of the vertical ones follows a horizontal one.
pub proof fn law_vertical_movement_first(
    body: KinematicBody,
    is_dynamic: Option<bool>,
    meta: PhysicsMeta,
    events: Seq<Event>,
    j: int,
)
    requires
        0 <= j < events.len(),
        BodyUpdate::started(body, is_dynamic).0.action_after(meta, events, j) is MoveHorizontal,
    ensures
        exists|i: int|
            0 <= i < j && #[trigger] BodyUpdate::started(body, is_dynamic).0.action_after(
                meta,
                events,
                i,
            ) is MoveVertical,
        forall|k: int|
            j < k < events.len() ==> !(#[trigger] BodyUpdate::started(body, is_dynamic).0.action_after(
                meta,
                events,
                k,
            ) is MoveVertical),
{
    let update = BodyUpdate::started(body, is_dynamic).0;
    lemma_in_order(update.after(meta, events.take(j)), meta, events[j]);
    let i = lemma_vertical_seen(update, meta, events, j);
    assert(update.action_after(meta, events, i) is MoveVertical);
    assert forall|k: int| j < k < events.len() implies !(#[trigger] update.action_after(
        meta,
        events,
        k,
    ) is MoveVertical) by {
        lemma_prefix(update, meta, events, j);
        lemma_stays_past(update, meta, events, j + 1, k);
        lemma_in_order(update.after(meta, events.take(k)), meta, events[k]);
    }
}

proof fn lemma_passes(
    update: BodyUpdate,
    meta: PhysicsMeta,
    events: Seq<Event>,
    n: int,
    limit: nat,
) -> (i: int)
    requires
        rank(update.phase) <= limit,
        0 <= n <= events.len(),
        rank(update.after(meta, events.take(n)).phase) > limit,
    ensures
        0 <= i < n,
        rank(update.after(meta, events.take(i)).phase) <= limit,
        rank(update.after(meta, events.take(i)).next(meta, events[i]).0.phase) > limit,
    decreases n,
{
    if n == 0 {
        assert(events.take(0).len() == 0);
        0
    } else {
        lemma_prefix(update, meta, events, n - 1);
        if rank(update.after(meta, events.take(n - 1)).phase) > limit {
            lemma_passes(update, meta, events, n - 1, limit)
        } else {
            n - 1
        }
    }
}

proof fn lemma_before_the_move(body: KinematicBody, update: BodyUpdate, step: (BodyUpdate, Action))
    requires
        on_course(body, update),
        in_order(update, step),
        rank(update.phase) == 0 ==> rank(step.0.phase) <= 1,
    ensures
        rank(update.phase) <= 6 && rank(step.0.phase) > 6 ==> rank(update.phase) == 6,
        rank(update.phase) <= 7 && rank(step.0.phase) > 7 ==> 6 <= rank(update.phase),
        step.1 is Teleport ==> body.is_spawning,
        step.1 is Descend ==> body.fall_through,
        rank(update.phase) <= 6 && rank(step.0.phase) > 6 && body.is_spawning ==> step.1 is Teleport,
        rank(update.phase) <= 7 && rank(step.0.phase) > 7 && body.fall_through ==> step.1 is Descend,
{
}

proof fn lemma_step_before_the_move(
    body: KinematicBody,
    update: BodyUpdate,
    meta: PhysicsMeta,
    event: Event,
)
    requires
        on_course(body, update),
    ensures
        ({
            let step = update.next(meta, event);
            &&& step.1 is Teleport ==> body.is_spawning
            &&& step.1 is Descend ==> body.fall_through
            &&& rank(update.phase) <= 6 && rank(step.0.phase) > 6 && body.is_spawning ==> step.1
                is Teleport
            &&& rank(update.phase) <= 7 && rank(step.0.phase) > 7 && body.fall_through ==> step.1
                is Descend
        }),
{
    lemma_in_order(update, meta, event);
    lemma_before_the_move(body, update, update.next(meta, event));
}

/// In an update that moves its body and is finished, the body's collider has been reset exactly if
/// the body was spawning, and has been let through platforms exactly if the body fell through them.
pub proof fn law_spawning_and_falling_through(
    body: KinematicBody,
    is_dynamic: Option<bool>,
    meta: PhysicsMeta,
    events: Seq<Event>,
)
    requires
        !body.is_deactivated,
        is_dynamic != Some(true),
        BodyUpdate::started(body, is_dynamic).0.after(meta, events).phase is Finished,
    ensures
        body.is_spawning <==> exists|i: int|
            0 <= i < events.len() && #[trigger] BodyUpdate::started(body, is_dynamic).0.action_after(
                meta,
                events,
                i,
            ) is Teleport,
        body.fall_through <==> exists|i: int|
            0 <= i < events.len() && #[trigger] BodyUpdate::started(body, is_dynamic).0.action_after(
                meta,
                events,
                i,
            ) is Descend,
{
    let update = BodyUpdate::started(body, is_dynamic).0;
    let n = events.len() as int;
    assert(events.take(n) =~= events);
    let i = lemma_passes(update, meta, events, n, 6);
    let j = lemma_passes(update, meta, events, n, 7);
    lemma_on_course(body, update, meta, events.take(i));
    lemma_step_before_the_move(body, update.after(meta, events.take(i)), meta, events[i]);
    lemma_on_course(body, update, meta, events.take(j));
    lemma_step_before_the_move(body, update.after(meta, events.take(j)), meta, events[j]);
    assert(body.is_spawning ==> update.action_after(meta, events, i) is Teleport);
    assert(body.fall_through ==> update.action_after(meta, events, j) is Descend);
    assert forall|k: int| 0 <= k < n implies {
        let action = #[trigger] update.action_after(meta, events, k);
        &&& action is Teleport ==> body.is_spawning
        &&& action is Descend ==> body.fall_through
    } by {
        lemma_on_course(body, update, meta, events.take(k));
        lemma_step_before_the_move(body, update.after(meta, events.take(k)), meta, events[k]);
    }
}

} // verus!
