//! Sproingers: springs that launch whatever touches them.

use vstd::prelude::*;

use bones_ecs::bitset::BitSetVec;
use bones_ecs::entities::Entities;
use bones_lib::{Game, Session};

use crate::body::{ColliderShape, KinematicBody};
use crate::controls::PlayerControl;
use crate::ecs::{alive, find_lacking, lacking, members, pair_of, sets_fit, EntityId};
use crate::geometry::{Scalar, Vec2};
use crate::session::{
    add_system_to_stage, find_stage, has_asset_server, has_stage, init_asset_server, shared_count,
    shares_asset_server, shares_default_asset_server, stage_ids, stages, system_added, SchemaType, Stage, StageSystem,
};

verus! {

/// This is a sproinger
#[derive(Clone, Copy, Debug, PartialEq, Eq, Structural)]
pub struct SproingerMeta {
    /// The handle of the sprite sheet.
    pub atlas: u128,
    /// The handle of the sound.
    pub sound: u128,
    /// The volume of the sound, as the bit pattern of a double-precision number.
    pub sound_volume: u64,
    pub body_size: Vec2,
    pub spring_velocity: Scalar,
}

/// The animation of a sproinger.
#[derive(Clone, Copy, Debug, PartialEq, Eq, Structural)]
pub struct Sproinger {
    pub frame: u32,
    pub sproinging: bool,
}

impl Default for Sproinger {
    fn default() -> (sproinger: Sproinger)
        ensures
            sproinger.frame == 0,
            !sproinger.sproinging,
    {
        Sproinger { frame: 0, sproinging: false }
    }
}

/// An entity that touches a sproinger, as it is before the sproinger acts on it.
#[derive(Clone, Copy, Debug, PartialEq, Eq, Structural)]
pub struct Contact {
    pub entity: EntityId,
    /// Whether the entity has a kinematic body.
    pub has_body: bool,
    /// Whether the entity is simulated as a dynamic body, if it can be.
    pub is_dynamic: Option<bool>,
    /// Whether the entity rises more slowly than the spring launches: its rigid body, if it is
    /// simulated as a dynamic body, and its kinematic body otherwise.
    pub is_slower: bool,
}

/// A launch: the entity rises with the velocity from now on, and the sound is played once.
#[derive(Clone, Copy, Debug, PartialEq, Eq, Structural)]
pub struct Launch {
    pub entity: EntityId,
    /// Whether it is the entity's rigid body that is launched, rather than its kinematic body.
    pub is_dynamic: bool,
    /// How fast the launched body rises.
    pub velocity: Scalar,
    /// The handle of the sound.
    pub sound: u128,
    /// The volume of the sound, as the bit pattern of a double-precision number.
    pub sound_volume: u64,
}

/// The velocity that a rigid body is given.
#[derive(Clone, Copy, Debug, PartialEq, Eq, Structural)]
pub struct RigidVelocity {
    pub linvel: Vec2,
    /// Whether the body is woken up if it sleeps.
    pub wake_up: bool,
}

impl Launch {
    /// What becomes of the entity's kinematic body: it rises with the velocity of the launch and is
    /// otherwise as before, unless it is the rigid body that is launched.
    pub open spec fn launched(self, body: KinematicBody) -> KinematicBody {
        if self.is_dynamic {
            body
        } else {
            KinematicBody { velocity: Vec2 { y: self.velocity, ..body.velocity }, ..body }
        }
    }

    /// Launches the entity's kinematic body.
    pub fn launch_body(self, body: KinematicBody) -> (later: KinematicBody)
        ensures
            later == self.launched(body),
    {
        if self.is_dynamic {
            body
        } else {
            let velocity = Vec2 { x: body.velocity.x, y: self.velocity };
            KinematicBody { velocity, ..body }
        }
    }

    /// What the entity's rigid body is given: if it is launched, it is woken up and rises with the
    /// velocity of the launch, and moves sideways as before.
    pub open spec fn rigid_launched(self, linvel: Vec2) -> Option<RigidVelocity> {
        if self.is_dynamic {
            Some(RigidVelocity { linvel: Vec2 { y: self.velocity, ..linvel }, wake_up: true })
        } else {
            None
        }
    }

    /// Launches the entity's rigid body, which has the given velocity.
    pub fn launch_rigid(self, linvel: Vec2) -> (given: Option<RigidVelocity>)
        ensures
            given == self.rigid_launched(linvel),
    {
        if self.is_dynamic {
            Some(RigidVelocity { linvel: Vec2 { x: linvel.x, y: self.velocity }, wake_up: true })
        } else {
            None
        }
    }
}

/// What becomes of a sproinger and of what touches it in a frame.
pub struct SproingerFrame {
    /// The index of the sprite to show.
    pub sprite_index: u32,
    pub launches: Vec<Launch>,
}

impl Contact {
    /// Whether the contact is simulated as a dynamic body.
    pub open spec fn dynamic(self) -> bool {
        self.is_dynamic == Some(true)
    }

    /// Whether the spring acts on the entity.
    pub open spec fn springs(self) -> bool {
        self.has_body && self.is_slower
    }
}

/// Whether the contact with the given index is launched: the spring acts on it, and has not launched
/// the same entity before.
pub open spec fn launched_at(contacts: Seq<Contact>, i: int) -> bool {
    &&& contacts[i].springs()
    &&& forall|j: int|
        0 <= j < i ==> !(#[trigger] contacts[j].springs() && contacts[j].entity == contacts[i].entity)
}

impl SproingerMeta {
    /// The launch of an entity by a sproinger with these settings.
    pub open spec fn launch(self, contact: Contact) -> Launch {
        Launch {
            entity: contact.entity,
            is_dynamic: contact.dynamic(),
            velocity: self.spring_velocity,
            sound: self.sound,
            sound_volume: self.sound_volume,
        }
    }
}

/// The launches that follow from contacts with a sproinger, in the order of the contacts.
pub open spec fn launches(meta: SproingerMeta, contacts: Seq<Contact>) -> Seq<Launch>
    decreases contacts.len(),
{
    if contacts.len() == 0 {
        Seq::empty()
    } else if launched_at(contacts, contacts.len() - 1) {
        launches(meta, contacts.drop_last()).push(meta.launch(contacts.last()))
    } else {
        launches(meta, contacts.drop_last())
    }
}

/// Whether a kinematic body is launched. Only that sets off the animation of the sproinger.
pub open spec fn sets_off(contacts: Seq<Contact>) -> bool {
    exists|i: int| 0 <= i < contacts.len() && #[trigger] launched_at(contacts, i) && !contacts[i].dynamic()
}

impl Sproinger {
    /// The sprite that a frame of the animation switches to, if it does.
    pub open spec fn sprite_at(frame: u32) -> Option<u32> {
        if frame == 1 {
            Some(2u32)
        } else if frame == 4 {
            Some(3u32)
        } else if frame == 8 {
            Some(4u32)
        } else if frame == 12 {
            Some(5u32)
        } else if frame >= 20 {
            Some(0u32)
        } else {
            None
        }
    }

    /// The sproinger and its sprite after one frame of its animation. The animation is over with the
    /// twentieth frame; the frame is counted on all the same, so it starts over from one.
    pub open spec fn animated(self, sprite_index: u32) -> (Sproinger, u32) {
        if !self.sproinging {
            (self, sprite_index)
        } else {
            (
                if self.frame >= 20 {
                    Sproinger { frame: 1, sproinging: false }
                } else {
                    Sproinger { frame: (self.frame + 1) as u32, sproinging: true }
                },
                match Sproinger::sprite_at(self.frame) {
                    Some(index) => index,
                    None => sprite_index,
                },
            )
        }
    }

    /// Plays one frame of the animation, and returns the index of the sprite to show.
    pub fn animate(&mut self, sprite_index: u32) -> (index: u32)
        ensures
            (*final(self), index) == old(self).animated(sprite_index),
    {
        if !self.sproinging {
            return sprite_index;
        }
        let mut index: u32 = sprite_index;
        match self.frame {
            1 => {
                index = 2;
            },
            4 => {
                index = 3;
            },
            8 => {
                index = 4;
            },
            12 => {
                index = 5;
            },
            _ => {
                if self.frame >= 20 {
                    index = 0;
                    self.sproinging = false;
                    self.frame = 0;
                }
            },
        }
        self.frame = self.frame + 1;
        index
    }
}

fn is_launched(contacts: &Vec<Contact>, i: usize) -> (launched: bool)
    requires
        i < contacts@.len(),
    ensures
        launched == launched_at(contacts@, i as int),
{
    let contact = contacts[i];
    if !(contact.has_body && contact.is_slower) {
        return false;
    }
    let mut j: usize = 0;
    while j < i
        invariant
            j <= i < contacts@.len(),
            contact == contacts@[i as int],
            forall|k: int|
                0 <= k < j ==> !(#[trigger] contacts@[k].springs() && contacts@[k].entity == contact.entity),
        decreases i - j,
    {
        let earlier = contacts[j];
        if earlier.has_body && earlier.is_slower && earlier.entity == contact.entity {
            assert(contacts@[j as int].springs());
            return false;
        }
        j = j + 1;
    }
    true
}

/// One frame of a sproinger: it is animated, and launches what touches it with the velocity of its
/// spring and to its sound.
///
/// An entity is launched only as long as it is slower than the spring, so at most once.
pub fn update(
    sproinger: &mut Sproinger,
    sprite_index: u32,
    meta: SproingerMeta,
    contacts: &Vec<Contact>,
) -> (frame: SproingerFrame)
    ensures
        frame.sprite_index == old(sproinger).animated(sprite_index).1,
        frame.launches@ == launches(meta, contacts@),
        final(sproinger).frame == old(sproinger).animated(sprite_index).0.frame,
        final(sproinger).sproinging == (old(sproinger).animated(sprite_index).0.sproinging || sets_off(
            contacts@,
        )),
{
    let index = sproinger.animate(sprite_index);
    let ghost animated = *sproinger;
    let mut list: Vec<Launch> = Vec::new();
    let mut i: usize = 0;
    while i < contacts.len()
        invariant
            i <= contacts@.len(),
            list@ == launches(meta, contacts@.take(i as int)),
            sproinger.frame == animated.frame,
            sproinger.sproinging == (animated.sproinging || exists|k: int|
                0 <= k < i && #[trigger] launched_at(contacts@, k) && !contacts@[k].dynamic()),
        decreases contacts@.len() - i,
    {
        let contact = contacts[i];
        proof {
            let prefix = contacts@.take(i + 1);
            assert(prefix.drop_last() =~= contacts@.take(i as int));
            assert(launched_at(prefix, i as int) == launched_at(contacts@, i as int)) by {
                assert forall|j: int| 0 <= j < i implies prefix[j] == contacts@[j] by {}
                if launched_at(prefix, i as int) {
                    assert forall|j: int| 0 <= j < i implies !(#[trigger] contacts@[j].springs()
                        && contacts@[j].entity == contacts@[i as int].entity) by {
                        assert(!(prefix[j].springs() && prefix[j].entity == prefix[i as int].entity));
                    }
                }
                if launched_at(contacts@, i as int) {
                    assert forall|j: int| 0 <= j < i implies !(#[trigger] prefix[j].springs()
                        && prefix[j].entity == prefix[i as int].entity) by {
                        assert(!(contacts@[j].springs() && contacts@[j].entity
                            == contacts@[i as int].entity));
                    }
                }
            }
        }
        if is_launched(contacts, i) {
            let is_dynamic = match contact.is_dynamic {
                Some(dynamic) => dynamic,
                None => false,
            };
            if !is_dynamic {
                sproinger.sproinging = true;
            }
            list.push(
                Launch {
                    entity: contact.entity,
                    is_dynamic,
                    velocity: meta.spring_velocity,
                    sound: meta.sound,
                    sound_volume: meta.sound_volume,
                },
            );
        }
        i = i + 1;
    }
    assert(contacts@.take(i as int) =~= contacts@);
    SproingerFrame { sprite_index: index, launches: list }
}

/// A sproinger and its sprite after a number of frames in which nothing sets it off.
pub open spec fn animated_for(sproinger: Sproinger, sprite_index: u32, frames: nat) -> (Sproinger, u32)
    decreases frames,
{
    if frames == 0 {
        (sproinger, sprite_index)
    } else {
        let (earlier, index) = animated_for(sproinger, sprite_index, (frames - 1) as nat);
        earlier.animated(index)
    }
}

proof fn lemma_animation_runs(sproinger: Sproinger, sprite_index: u32, frames: nat)
    requires
        sproinger.sproinging,
        sproinger.frame + frames <= 20,
    ensures
        animated_for(sproinger, sprite_index, frames).0 == (Sproinger {
            frame: (sproinger.frame + frames) as u32,
            sproinging: true,
        }),
    decreases frames,
{
    if frames > 0 {
        lemma_animation_runs(sproinger, sprite_index, (frames - 1) as nat);
    }
}

/// An animation that nothing sets off again runs up to its twentieth frame and no further: it goes
/// on as long as the frames before that last, and with the next one it is over, shows the first
/// sprite, and stands at frame one.
pub proof fn law_animation_ends(sproinger: Sproinger, sprite_index: u32)
    requires
        sproinger.sproinging,
        sproinger.frame <= 20,
    ensures
        forall|frames: nat|
            frames <= 20 - sproinger.frame ==> (#[trigger] animated_for(
                sproinger,
                sprite_index,
                frames,
            )).0.sproinging,
        animated_for(sproinger, sprite_index, (21 - sproinger.frame) as nat) == (
            Sproinger { frame: 1, sproinging: false },
            0u32,
        ),
{
    assert forall|frames: nat| frames <= 20 - sproinger.frame implies (#[trigger] animated_for(
        sproinger,
        sprite_index,
        frames,
    )).0.sproinging by {
        lemma_animation_runs(sproinger, sprite_index, frames);
    }
    lemma_animation_runs(sproinger, sprite_index, (20 - sproinger.frame) as nat);
}

proof fn lemma_launched_at_front(contacts: Seq<Contact>, i: int)
    requires
        0 <= i < contacts.len() - 1,
    ensures
        launched_at(contacts.drop_last(), i) == launched_at(contacts, i),
{
    let front = contacts.drop_last();
    if launched_at(front, i) {
        assert forall|j: int| 0 <= j < i implies !(#[trigger] contacts[j].springs()
            && contacts[j].entity == contacts[i].entity) by {
            assert(!(front[j].springs() && front[j].entity == front[i].entity));
        }
    }
    if launched_at(contacts, i) {
        assert forall|j: int| 0 <= j < i implies !(#[trigger] front[j].springs()
            && front[j].entity == front[i].entity) by {
            assert(!(contacts[j].springs() && contacts[j].entity == contacts[i].entity));
        }
    }
}

proof fn lemma_launch_has_contact(meta: SproingerMeta, contacts: Seq<Contact>, k: int) -> (i: int)
    requires
        0 <= k < launches(meta, contacts).len(),
    ensures
        0 <= i < contacts.len(),
        launched_at(contacts, i),
        launches(meta, contacts)[k] == meta.launch(contacts[i]),
    decreases contacts.len(),
{
    let n = contacts.len() - 1;
    let front = contacts.drop_last();
    if k < launches(meta, front).len() {
        let i = lemma_launch_has_contact(meta, front, k);
        assert(front[i] == contacts[i]);
        lemma_launched_at_front(contacts, i);
        i
    } else {
        n
    }
}

/// A sproinger launches no entity twice in a frame, however often it is touched.
pub proof fn law_launched_once(meta: SproingerMeta, contacts: Seq<Contact>, a: int, b: int)
    requires
        0 <= a < b < launches(meta, contacts).len(),
    ensures
        launches(meta, contacts)[a].entity != launches(meta, contacts)[b].entity,
    decreases contacts.len(),
{
    let n = contacts.len() - 1;
    let front = contacts.drop_last();
    if b < launches(meta, front).len() {
        law_launched_once(meta, front, a, b);
    } else {
        let i = lemma_launch_has_contact(meta, front, a);
        assert(front[i] == contacts[i]);
        assert(!(contacts[i].springs() && contacts[i].entity == contacts[n].entity));
    }
}

proof fn lemma_contact_has_launch(meta: SproingerMeta, contacts: Seq<Contact>, i: int) -> (k: int)
    requires
        0 <= i < contacts.len(),
        launched_at(contacts, i),
    ensures
        0 <= k < launches(meta, contacts).len(),
        launches(meta, contacts)[k] == meta.launch(contacts[i]),
    decreases contacts.len(),
{
    let front = contacts.drop_last();
    if i == contacts.len() - 1 {
        launches(meta, front).len() as int
    } else {
        lemma_launched_at_front(contacts, i);
        assert(front[i] == contacts[i]);
        lemma_contact_has_launch(meta, front, i)
    }
}

proof fn lemma_first_contact(contacts: Seq<Contact>, i: int) -> (j: int)
    requires
        0 <= i < contacts.len(),
        contacts[i].springs(),
    ensures
        0 <= j <= i,
        launched_at(contacts, j),
        contacts[j].entity == contacts[i].entity,
    decreases i,
{
    if launched_at(contacts, i) {
        i
    } else {
        let j = choose|j: int|
            0 <= j < i && #[trigger] contacts[j].springs() && contacts[j].entity == contacts[i].entity;
        lemma_first_contact(contacts, j)
    }
}

/// An entity is launched exactly if it touches the sproinger, has a body and is slower than the
/// spring.
pub proof fn law_launched_exactly_if_slower(
    meta: SproingerMeta,
    contacts: Seq<Contact>,
    entity: EntityId,
)
    ensures
        (exists|k: int|
            0 <= k < launches(meta, contacts).len() && (#[trigger] launches(meta, contacts)[k]).entity
                == entity) <==> (exists|i: int|
            0 <= i < contacts.len() && is_in_reach(#[trigger] contacts[i]) && contacts[i].entity
                == entity),
{
    if exists|k: int|
        0 <= k < launches(meta, contacts).len() && (#[trigger] launches(meta, contacts)[k]).entity
            == entity {
        let k = choose|k: int|
            0 <= k < launches(meta, contacts).len() && (#[trigger] launches(meta, contacts)[k]).entity
                == entity;
        let i = lemma_launch_has_contact(meta, contacts, k);
        assert(is_in_reach(contacts[i]));
    }
    if exists|i: int|
        0 <= i < contacts.len() && is_in_reach(#[trigger] contacts[i]) && contacts[i].entity == entity {
        let i = choose|i: int|
            0 <= i < contacts.len() && is_in_reach(#[trigger] contacts[i]) && contacts[i].entity
                == entity;
        assert(contacts[i].springs());
        let j = lemma_first_contact(contacts, i);
        let k = lemma_contact_has_launch(meta, contacts, j);
        assert(launches(meta, contacts)[k].entity == entity);
    }
}

/// Whether an entity that touches a sproinger has a kinematic body and is slower than the spring.
pub open spec fn is_in_reach(contact: Contact) -> bool {
    contact.has_body && contact.is_slower
}

/// Every launch comes from a contact with a kinematic body that is slower than the spring. It is one
/// of the rigid body exactly if that contact is simulated as a dynamic body; a contact that has no
/// dynamic body, or one that is switched off, has its kinematic body launched.
pub proof fn law_launch_is_of_the_right_body(meta: SproingerMeta, contacts: Seq<Contact>, k: int)
    requires
        0 <= k < launches(meta, contacts).len(),
    ensures
        exists|i: int|
            0 <= i < contacts.len() && is_in_reach(#[trigger] contacts[i]) && contacts[i].entity
                == launches(meta, contacts)[k].entity && (launches(meta, contacts)[k].is_dynamic
                <==> contacts[i].is_dynamic == Some(true)),
{
    let i = lemma_launch_has_contact(meta, contacts, k);
    assert(is_in_reach(contacts[i]));
}

/// The first contact of an entity that is in reach decides on its launch: there is one, of its rigid
/// body exactly if it is simulated as a dynamic body, with the velocity of the spring and to the
/// sound of the sproinger.
pub proof fn law_first_contact_launches(meta: SproingerMeta, contacts: Seq<Contact>, i: int)
    requires
        0 <= i < contacts.len(),
        is_in_reach(contacts[i]),
        forall|j: int|
            0 <= j < i && is_in_reach(#[trigger] contacts[j]) ==> contacts[j].entity
                != contacts[i].entity,
    ensures
        launches(meta, contacts).contains(
            (Launch {
                entity: contacts[i].entity,
                is_dynamic: contacts[i].is_dynamic == Some(true),
                velocity: meta.spring_velocity,
                sound: meta.sound,
                sound_volume: meta.sound_volume,
            }),
        ),
{
    assert forall|j: int| 0 <= j < i implies !(#[trigger] contacts[j].springs()
        && contacts[j].entity == contacts[i].entity) by {
        assert(is_in_reach(contacts[j]) == contacts[j].springs());
    }
    assert(launched_at(contacts, i));
    let k = lemma_contact_has_launch(meta, contacts, i);
}

/// A contact that is not in reach, or whose entity has been launched already, makes no difference to
/// what is launched, and one that makes a difference is launched last.
pub proof fn law_contacts_are_taken_in_order(meta: SproingerMeta, contacts: Seq<Contact>, contact: Contact)
    ensures
        ({
            let before = launches(meta, contacts);
            let after = launches(meta, contacts.push(contact));
            let again = exists|j: int|
                0 <= j < contacts.len() && is_in_reach(#[trigger] contacts[j]) && contacts[j].entity
                    == contact.entity;
            &&& launches(meta, Seq::empty()).len() == 0
            &&& !is_in_reach(contact) || again ==> after == before
            &&& is_in_reach(contact) && !again ==> after.drop_last() == before && after.len()
                == before.len() + 1 && after.last().entity == contact.entity && (
            after.last().is_dynamic <==> contact.is_dynamic == Some(true))
        }),
{
    let all = contacts.push(contact);
    assert(all.drop_last() =~= contacts);
    let n = contacts.len() as int;
    if is_in_reach(contact) {
        if exists|j: int|
            0 <= j < contacts.len() && is_in_reach(#[trigger] contacts[j]) && contacts[j].entity
                == contact.entity {
            let j = choose|j: int|
                0 <= j < contacts.len() && is_in_reach(#[trigger] contacts[j]) && contacts[j].entity
                    == contact.entity;
            assert(all[j].springs() && all[j].entity == all[n].entity);
            assert(!launched_at(all, n));
        } else {
            assert forall|j: int| 0 <= j < n implies !(#[trigger] all[j].springs()
                && all[j].entity == all[n].entity) by {
                assert(all[j] == contacts[j]);
                assert(is_in_reach(contacts[j]) == contacts[j].springs());
            }
            assert(launched_at(all, n));
            assert(launches(meta, all).drop_last() =~= launches(meta, contacts));
        }
    } else {
        assert(!launched_at(all, n));
    }
}

/// A sproinger is set off exactly if one of its launches is that of a kinematic body.
pub proof fn law_kinematic_launch_sets_off(meta: SproingerMeta, contacts: Seq<Contact>)
    ensures
        sets_off(contacts) <==> exists|k: int|
            0 <= k < launches(meta, contacts).len() && !(#[trigger] launches(meta, contacts)[k]).is_dynamic,
{
    if sets_off(contacts) {
        let i = choose|i: int|
            0 <= i < contacts.len() && #[trigger] launched_at(contacts, i) && !contacts[i].dynamic();
        let k = lemma_contact_has_launch(meta, contacts, i);
        assert(!launches(meta, contacts)[k].is_dynamic);
    }
    if exists|k: int|
        0 <= k < launches(meta, contacts).len() && !(#[trigger] launches(meta, contacts)[k]).is_dynamic {
        let k = choose|k: int|
            0 <= k < launches(meta, contacts).len() && !(#[trigger] launches(meta, contacts)[k]).is_dynamic;
        let i = lemma_launch_has_contact(meta, contacts, k);
        assert(launched_at(contacts, i) && !contacts[i].dynamic());
    }
}

/// The animation by its frames: the sprite changes with the frames 1, 4, 8 and 12 to the sprites 2,
/// 3, 4 and 5, and with the frame 20 back to the first; in between it stays. Every frame but the last
/// is followed by the next one, and the last one by a sproinger that rests. A sproinger that rests is
/// not animated.
pub proof fn law_animation(sproinger: Sproinger, sprite_index: u32)
    ensures
        ({
            let (later, index) = sproinger.animated(sprite_index);
            let frame = sproinger.frame;
            &&& !sproinger.sproinging ==> later == sproinger && index == sprite_index
            &&& sproinger.sproinging ==> {
                &&& later.sproinging <==> frame < 20
                &&& frame < 20 ==> later.frame == frame + 1
                &&& frame >= 20 ==> later.frame == 1 && index == 0
                &&& frame == 1 ==> index == 2
                &&& frame == 4 ==> index == 3
                &&& frame == 8 ==> index == 4
                &&& frame == 12 ==> index == 5
                &&& frame < 20 && frame != 1 && frame != 4 && frame != 8 && frame != 12 ==> index
                    == sprite_index
            }
        }),
{
}

/// Every launch gives the velocity of the spring, and plays the sound of the sproinger at its volume.
pub proof fn law_launches_follow_the_settings(meta: SproingerMeta, contacts: Seq<Contact>, k: int)
    requires
        0 <= k < launches(meta, contacts).len(),
    ensures
        launches(meta, contacts)[k].velocity == meta.spring_velocity,
        launches(meta, contacts)[k].sound == meta.sound,
        launches(meta, contacts)[k].sound_volume == meta.sound_volume,
{
    let i = lemma_launch_has_contact(meta, contacts, k);
}

/// A launch changes nothing of an entity but how fast one of its bodies rises: the rigid body of an
/// entity that is simulated as a dynamic body, and the kinematic body of any other.
pub proof fn law_launch_changes_only_the_rise(launch: Launch, body: KinematicBody, linvel: Vec2)
    ensures
        launch.is_dynamic ==> launch.launched(body) == body,
        !launch.is_dynamic ==> launch.rigid_launched(linvel) is None,
        launch.launched(body) == (KinematicBody {
            velocity: launch.launched(body).velocity,
            ..body
        }),
        launch.launched(body).velocity.x == body.velocity.x,
        !launch.is_dynamic ==> launch.launched(body).velocity.y == launch.velocity,
        launch.rigid_launched(linvel) matches Some(given) ==> given.linvel.x == linvel.x
            && given.linvel.y == launch.velocity && given.wake_up,
        launch.is_dynamic ==> launch.rigid_launched(linvel) is Some,
{
}

/// A sproinger that rests and is not touched by anything slower than its spring stays as it is.
pub proof fn law_untouched_rests(
    sproinger: Sproinger,
    sprite_index: u32,
    meta: SproingerMeta,
    contacts: Seq<Contact>,
)
    requires
        !sproinger.sproinging,
        forall|i: int| 0 <= i < contacts.len() ==> !(#[trigger] contacts[i]).springs(),
    ensures
        sproinger.animated(sprite_index) == (sproinger, sprite_index),
        launches(meta, contacts).len() == 0,
        !sets_off(contacts),
    decreases contacts.len(),
{
    if contacts.len() > 0 {
        assert forall|i: int| 0 <= i < contacts.drop_last().len() implies !(
        #[trigger] contacts.drop_last()[i]).springs() by {
            assert(contacts.drop_last()[i] == contacts[i]);
        }
        law_untouched_rests(sproinger, sprite_index, meta, contacts.drop_last());
    }
}

/// A place in the navigation graph, in tiles.
#[derive(Clone, Copy, Debug, PartialEq, Eq, Structural)]
pub struct NavNode {
    pub x: i32,
    pub y: i32,
}

/// A way in the navigation graph. How long it is follows from the two nodes.
#[derive(Clone, Debug)]
pub struct NavEdge {
    pub from: NavNode,
    pub to: NavNode,
    /// The controls that take a player along the way, one after the other.
    pub inputs: Vec<PlayerControl>,
}

impl NavEdge {
    /// Whether this is the way that a sproinger at the node opens: straight up, with nothing to do for
    /// the player.
    pub open spec fn sproings_from(self, node: NavNode) -> bool {
        &&& self.from == node
        &&& self.to.x == node.x
        &&& self.to.y == node.y + SPROING_TILES
        &&& self.inputs@ == seq![PlayerControl::ByDefault]
    }
}

/// How many tiles a sproinger launches upward.
pub const SPROING_TILES: i32 = 6;

impl NavNode {
    /// The node above.
    pub fn above(self) -> (node: NavNode)
        requires
            self.y < i32::MAX,
        ensures
            node.x == self.x,
            node.y == self.y + 1,
    {
        NavNode { x: self.x, y: self.y + 1 }
    }
}

/// The way that a sproinger at the given node opens: straight up.
fn sproing_edge(node: NavNode) -> (edge: NavEdge)
    requires
        node.y <= i32::MAX - SPROING_TILES,
    ensures
        edge.sproings_from(node),
{
    let sproing_to = node.above().above().above().above().above().above();
    let inputs = vec![PlayerControl::ByDefault];
    assert(inputs@ =~= seq![PlayerControl::ByDefault]);
    NavEdge { from: node, to: sproing_to, inputs }
}

/// The way that a sproinger opens leads from its node to the one six tiles above, and a player goes it
/// with one input: the controls as they are by default.
pub proof fn law_way_leads_six_tiles_up(edge: NavEdge, node: NavNode)
    requires
        edge.sproings_from(node),
    ensures
        edge.from == node,
        edge.to.x == node.x,
        edge.to.y - node.y == 6,
        edge.inputs@.len() == 1,
        edge.inputs@[0] == PlayerControl::ByDefault,
{
}

/// The ways that new sproingers add to the navigation graph, one for each of the nodes that they are
/// at, in their order.
pub fn sproing_edges(nodes: &Vec<NavNode>) -> (edges: Vec<NavEdge>)
    requires
        forall|i: int| 0 <= i < nodes@.len() ==> (#[trigger] nodes@[i]).y <= i32::MAX - SPROING_TILES,
    ensures
        edges@.len() == nodes@.len(),
        forall|i: int|
            0 <= i < nodes@.len() ==> (#[trigger] edges@[i]).sproings_from(nodes@[i]),
{
    let mut edges: Vec<NavEdge> = Vec::new();
    let mut i: usize = 0;
    while i < nodes.len()
        invariant
            i <= nodes@.len(),
            edges@.len() == i,
            forall|k: int| 0 <= k < nodes@.len() ==> (#[trigger] nodes@[k]).y <= i32::MAX - SPROING_TILES,
            forall|k: int|
                0 <= k < i ==> (#[trigger] edges@[k]).sproings_from(nodes@[k]),
        decreases nodes@.len() - i,
    {
        edges.push(sproing_edge(nodes[i]));
        i = i + 1;
    }
    edges
}

/// A change to the components of the world.
#[derive(Clone, Copy, Debug, PartialEq, Eq, Structural)]
pub enum HydrateCommand {
    /// Mark the entity as hydrated.
    MarkHydrated(EntityId),
    /// Give the entity a sprite from the sprite sheet.
    InsertSprite(EntityId, u128),
    /// Give the entity a body.
    InsertBody(EntityId, KinematicBody),
    /// Make the entity a sproinger.
    InsertSproinger(EntityId, Sproinger),
}

/// A map element that has not been hydrated, and the settings of the sproinger that it is, if it is
/// one.
pub struct Element {
    pub entity: EntityId,
    pub sproinger: Option<SproingerMeta>,
}

/// What hydrating elements comes to.
pub struct Hydration {
    pub commands: Vec<HydrateCommand>,
    /// The new sproingers, for which the navigation graph gets edges.
    pub new_sproingers: Vec<EntityId>,
}

/// Whether a body is that of a sproinger: a massless rectangle that nothing acts on.
pub open spec fn is_sproinger_body(body: KinematicBody, meta: SproingerMeta) -> bool {
    body.is_plain() && body.shape == (ColliderShape::Rectangle { size: meta.body_size })
}

/// Whether four commands turn an entity into a sproinger.
pub open spec fn makes_sproinger(
    commands: Seq<HydrateCommand>,
    entity: EntityId,
    meta: SproingerMeta,
) -> bool {
    &&& commands.len() == 4
    &&& commands[0] == HydrateCommand::MarkHydrated(entity)
    &&& commands[1] == HydrateCommand::InsertSprite(entity, meta.atlas)
    &&& (commands[2] matches HydrateCommand::InsertBody(owner, body) && owner == entity
        && is_sproinger_body(body, meta))
    &&& commands[3] == HydrateCommand::InsertSproinger(
        entity,
        (Sproinger { frame: 0, sproinging: false }),
    )
}

/// The elements that are sproingers.
pub open spec fn sproingers_of(elements: Seq<Element>) -> Seq<Element> {
    elements.filter(|e: Element| e.sproinger is Some)
}

/// Finds the living map elements that have not been hydrated yet, in the order of their indices.
pub fn find_elements(entities: &Entities, hydrated: &BitSetVec, element_handles: &BitSetVec) -> (found: Vec<
    EntityId,
>)
    requires
        sets_fit(*hydrated, *element_handles),
    ensures
        found@.map_values(|e: EntityId| pair_of(e)) == lacking(
            alive(*entities),
            members(*hydrated),
            members(*element_handles),
        ),
        forall|i: int, j: int|
            0 <= i < j < found@.len() ==> (#[trigger] found@[i]).index < (#[trigger] found@[j]).index,
{
    find_lacking(entities, hydrated, element_handles)
}

/// Hydrates the elements that are sproingers, and no others.
pub fn hydrate(elements: &Vec<Element>) -> (hydration: Hydration)
    ensures
        hydration.new_sproingers@.len() == sproingers_of(elements@).len(),
        hydration.commands@.len() == 4 * sproingers_of(elements@).len(),
        forall|k: int|
            0 <= k < sproingers_of(elements@).len() ==> {
                let element = #[trigger] sproingers_of(elements@)[k];
                &&& hydration.new_sproingers@[k] == element.entity
                &&& makes_sproinger(
                    hydration.commands@.subrange(4 * k, 4 * k + 4),
                    element.entity,
                    element.sproinger->0,
                )
            },
{
    let mut commands: Vec<HydrateCommand> = Vec::new();
    let mut new_sproingers: Vec<EntityId> = Vec::new();
    let mut i: usize = 0;
    while i < elements.len()
        invariant
            i <= elements@.len(),
            new_sproingers@.len() == sproingers_of(elements@.take(i as int)).len(),
            commands@.len() == 4 * sproingers_of(elements@.take(i as int)).len(),
            forall|k: int|
                0 <= k < sproingers_of(elements@.take(i as int)).len() ==> {
                    let element = #[trigger] sproingers_of(elements@.take(i as int))[k];
                    &&& new_sproingers@[k] == element.entity
                    &&& makes_sproinger(
                        commands@.subrange(4 * k, 4 * k + 4),
                        element.entity,
                        element.sproinger->0,
                    )
                },
        decreases elements@.len() - i,
    {
        let entity = elements[i].entity;
        let ghost earlier = commands@;
        let ghost so_far = sproingers_of(elements@.take(i as int));
        proof {
            reveal(Seq::filter);
            assert(elements@.take(i + 1).drop_last() =~= elements@.take(i as int));
        }
        if let Some(meta) = elements[i].sproinger {
            new_sproingers.push(entity);
            commands.push(HydrateCommand::MarkHydrated(entity));
            commands.push(HydrateCommand::InsertSprite(entity, meta.atlas));
            let body = KinematicBody::with_shape(ColliderShape::Rectangle { size: meta.body_size });
            commands.push(HydrateCommand::InsertBody(entity, body));
            commands.push(HydrateCommand::InsertSproinger(entity, Sproinger::default()));
            proof {
                let n = so_far.len() as int;
                assert(sproingers_of(elements@.take(i + 1)) == so_far.push(elements@[i as int]));
                assert(makes_sproinger(commands@.subrange(4 * n, 4 * n + 4), entity, meta));
                assert forall|k: int| 0 <= k < so_far.len() implies {
                    let element = #[trigger] so_far[k];
                    makes_sproinger(
                        commands@.subrange(4 * k, 4 * k + 4),
                        element.entity,
                        element.sproinger->0,
                    )
                } by {
                    assert(commands@.subrange(4 * k, 4 * k + 4) =~= earlier.subrange(4 * k, 4 * k + 4));
                }
            }
        }
        i = i + 1;
    }
    assert(elements@.take(i as int) =~= elements@);
    Hydration { commands, new_sproingers }
}

/// Exactly the elements that are sproingers are made sproingers, in their order.
pub proof fn law_sproingers_are_found(elements: Seq<Element>, element: Element)
    ensures
        sproingers_of(elements).contains(element) <==> elements.contains(element)
            && element.sproinger is Some,
        sproingers_of(elements.push(element)) == (if element.sproinger is Some {
            sproingers_of(elements).push(element)
        } else {
            sproingers_of(elements)
        }),
        sproingers_of(Seq::empty()).len() == 0,
{
    let pred = |e: Element| e.sproinger is Some;
    if elements.contains(element) && element.sproinger is Some {
        let i = choose|i: int| 0 <= i < elements.len() && elements[i] == element;
        assert(pred(elements[i]));
        elements.lemma_filter_contains(pred, i);
    }
    if sproingers_of(elements).contains(element) {
        let k = choose|k: int|
            0 <= k < sproingers_of(elements).len() && sproingers_of(elements)[k] == element;
        elements.lemma_filter_pred(pred, k);
        elements.lemma_filter_contains_rev(pred, element);
    }
    reveal(Seq::filter);
    assert(elements.push(element).drop_last() =~= elements);
}

/// An element that is made a sproinger is marked as hydrated, gets a sprite from its sprite sheet, a
/// body without mass that is a rectangle of its size and rests, and an animation that rests.
pub proof fn law_what_makes_a_sproinger(
    commands: Seq<HydrateCommand>,
    entity: EntityId,
    meta: SproingerMeta,
)
    requires
        makes_sproinger(commands, entity, meta),
    ensures
        commands.len() == 4,
        commands[0] == HydrateCommand::MarkHydrated(entity),
        commands[1] == HydrateCommand::InsertSprite(entity, meta.atlas),
        commands[2] matches HydrateCommand::InsertBody(owner, body) && owner == entity && body.shape
            == (ColliderShape::Rectangle { size: meta.body_size }) && !body.has_mass
            && !body.has_friction && !body.can_rotate && !body.is_deactivated && !body.fall_through
            && !body.is_spawning && !body.is_controlled && !body.is_on_ground && !body.was_on_ground
            && !body.is_on_platform && body.frame_friction_override is None && body.velocity.x.bits
            == 0 && body.velocity.y.bits == 0 && body.gravity.bits == 0 && body.bounciness.bits == 0
            && body.angular_velocity.bits == 0 && body.last_update_position.x.bits == 0
            && body.last_update_position.y.bits == 0 && body.last_update_rotation.bits == 0,
        commands[3] == HydrateCommand::InsertSproinger(
            entity,
            (Sproinger { frame: 0, sproinging: false }),
        ),
{
}

/// Sets a game up for sproingers: it shares an asset server with its sessions, the one that it has
/// already or else a default one. Returns the types whose schemas the host registers.
pub fn game_plugin(game: &mut Game) -> (schemas: Vec<SchemaType>)
    ensures
        schemas@ == seq![SchemaType::SproingerMeta],
        shares_asset_server(*final(game)),
        shares_asset_server(*old(game)) ==> *final(game) == *old(game),
        !shares_asset_server(*old(game)) ==> shares_default_asset_server(*final(game))
            && shared_count(*final(game)) == shared_count(*old(game)) + 1,
{
    if !has_asset_server(game) {
        init_asset_server(game);
    }
    vec![SchemaType::SproingerMeta]
}

/// The stages of a session after sproingers have been added to it.
pub open spec fn plugged(
    stages: Seq<(u128, Seq<StageSystem>)>,
    hydrate: StageSystem,
    update: StageSystem,
) -> Seq<(u128, Seq<StageSystem>)> {
    system_added(system_added(stages, Stage::PreUpdate, hydrate), Stage::PostUpdate, update)
}

/// Adds sproingers to a session: they are hydrated before the main update, and updated after it.
pub fn session_plugin(session: &mut Session, hydrate: StageSystem, update: StageSystem)
    requires
        has_stage(stages(*old(session)), Stage::PreUpdate),
        has_stage(stages(*old(session)), Stage::PostUpdate),
    ensures
        stages(*final(session)) == plugged(stages(*old(session)), hydrate, update),
{
    proof {
        let ids = stage_ids(stages(*session));
        ids.index_of_last_ensures(Stage::PreUpdate.number());
        assert(stage_ids(system_added(stages(*session), Stage::PreUpdate, hydrate)) =~= ids);
    }
    add_system_to_stage(session, Stage::PreUpdate, hydrate);
    add_system_to_stage(session, Stage::PostUpdate, update);
}

/// Adding sproingers to a session changes no stage's place: only the systems of two stages grow.
pub proof fn law_plugged_keeps_stages(
    stages: Seq<(u128, Seq<StageSystem>)>,
    hydrate: StageSystem,
    update: StageSystem,
)
    requires
        has_stage(stages, Stage::PreUpdate),
        has_stage(stages, Stage::PostUpdate),
    ensures
        stage_ids(plugged(stages, hydrate, update)) == stage_ids(stages),
        forall|i: int|
            0 <= i < stages.len() && stages[i].0 != Stage::PreUpdate.number() && stages[i].0
                != Stage::PostUpdate.number() ==> #[trigger] plugged(stages, hydrate, update)[i] == stages[i],
{
    let ids = stage_ids(stages);
    ids.index_of_last_ensures(Stage::PreUpdate.number());
    let first = system_added(stages, Stage::PreUpdate, hydrate);
    assert(stage_ids(first) =~= ids);
    ids.index_of_last_ensures(Stage::PostUpdate.number());
    assert(stage_ids(plugged(stages, hydrate, update)) =~= ids);
}

/// Where a session has each of its stages once, adding sproingers to it puts the system that hydrates
/// behind those of the stage before the main update, and the one that updates behind those of the
/// stage after it.
pub proof fn law_sproingers_run_around_the_main_update(
    stages: Seq<(u128, Seq<StageSystem>)>,
    hydrate: StageSystem,
    update: StageSystem,
    early: int,
    late: int,
)
    requires
        0 <= early < stages.len(),
        0 <= late < stages.len(),
        stages[early].0 == 2021715401330719559452824437611089988u128,
        stages[late].0 == 2021715423103233646561968734173322317u128,
        forall|i: int, j: int|
            0 <= i < j < stages.len() ==> (#[trigger] stages[i]).0 != (#[trigger] stages[j]).0,
    ensures
        plugged(stages, hydrate, update).len() == stages.len(),
        plugged(stages, hydrate, update)[early] == (stages[early].0, stages[early].1.push(hydrate)),
        plugged(stages, hydrate, update)[late] == (stages[late].0, stages[late].1.push(update)),
        forall|i: int|
            0 <= i < stages.len() && i != early && i != late ==> #[trigger] plugged(
                stages,
                hydrate,
                update,
            )[i] == stages[i],
{
    let ids = stage_ids(stages);
    assert(ids[early] == Stage::PreUpdate.number());
    assert(ids[late] == Stage::PostUpdate.number());
    ids.index_of_last_ensures(Stage::PreUpdate.number());
    let k = ids.index_of_last(Stage::PreUpdate.number())->0;
    assert(stages[k].0 == stages[early].0);
    assert(k == early);
    let first = system_added(stages, Stage::PreUpdate, hydrate);
    assert(stage_ids(first) =~= ids);
    ids.index_of_last_ensures(Stage::PostUpdate.number());
    let l = ids.index_of_last(Stage::PostUpdate.number())->0;
    assert(stages[l].0 == stages[late].0);
    assert(l == late);
}

/// Like [`session_plugin`], but leaves a session alone that lacks one of the stages.
pub fn try_session_plugin(session: &mut Session, hydrate: StageSystem, update: StageSystem) -> (added: bool)
    ensures
        added == (has_stage(stages(*old(session)), Stage::PreUpdate) && has_stage(
            stages(*old(session)),
            Stage::PostUpdate,
        )),
        added ==> stages(*final(session)) == plugged(stages(*old(session)), hydrate, update),
        !added ==> *final(session) == *old(session),
{
    if find_stage(session, Stage::PreUpdate) && find_stage(session, Stage::PostUpdate) {
        session_plugin(session, hydrate, update);
        true
    } else {
        false
    }
}

} // verus!
