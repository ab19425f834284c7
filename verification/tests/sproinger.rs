use jumpy::body::{ColliderShape, KinematicBody};
use jumpy::controls::PlayerControl;
use jumpy::ecs::EntityId;
use jumpy::geometry::{Scalar, Vec2};
use jumpy::sproinger::{
    hydrate, sproing_edges, update, Contact, Element, HydrateCommand, Launch, NavNode,
    RigidVelocity, Sproinger, SproingerMeta,
};

fn entity(index: u32) -> EntityId {
    EntityId { index, generation: 0 }
}

fn num(value: f32) -> Scalar {
    Scalar { bits: value.to_bits() }
}

fn touching(index: u32) -> Contact {
    Contact { entity: entity(index), has_body: true, is_dynamic: None, is_slower: true }
}

fn meta(atlas: u128) -> SproingerMeta {
    SproingerMeta {
        atlas,
        sound: 2,
        sound_volume: 0.5f64.to_bits(),
        body_size: Vec2 { x: num(3.0), y: num(4.0) },
        spring_velocity: num(25.0),
    }
}

fn launch(index: u32, is_dynamic: bool) -> Launch {
    Launch {
        entity: entity(index),
        is_dynamic,
        velocity: num(25.0),
        sound: 2,
        sound_volume: 0.5f64.to_bits(),
    }
}

#[test]
fn launches_change_only_the_rise() {
    let body = KinematicBody {
        velocity: Vec2 { x: num(3.0), y: num(-7.0) },
        has_mass: true,
        ..KinematicBody::with_shape(ColliderShape::Circle { diameter: num(1.0) })
    };
    let risen = Vec2 { x: num(3.0), y: num(25.0) };
    assert_eq!(launch(1, false).launch_body(body), KinematicBody { velocity: risen, ..body });
    assert_eq!(launch(1, true).launch_body(body), body);
    assert_eq!(
        launch(1, true).launch_rigid(body.velocity),
        Some(RigidVelocity { linvel: risen, wake_up: true })
    );
    assert_eq!(launch(1, false).launch_rigid(body.velocity), None);
}

#[test]
fn new_sproinger_rests() {
    assert_eq!(Sproinger::default(), Sproinger { frame: 0, sproinging: false });
}

#[test]
fn animation_runs_through_its_sprites_and_ends() {
    let mut sproinger = Sproinger { frame: 0, sproinging: true };
    let mut index = 0;
    let mut shown = Vec::new();
    while sproinger.sproinging {
        index = sproinger.animate(index);
        shown.push(index);
    }
    assert_eq!(shown.len(), 21);
    assert_eq!(shown[0], 0);
    assert_eq!(shown[1..4], [2; 3]);
    assert_eq!(shown[4..8], [3; 4]);
    assert_eq!(shown[8..12], [4; 4]);
    assert_eq!(shown[12..20], [5; 8]);
    assert_eq!(shown[20], 0);
    assert_eq!(sproinger, Sproinger { frame: 1, sproinging: false });
}

#[test]
fn late_frames_end_the_animation() {
    let mut sproinger = Sproinger { frame: u32::MAX, sproinging: true };
    assert_eq!(sproinger.animate(4), 0);
    assert_eq!(sproinger, Sproinger { frame: 1, sproinging: false });
}

#[test]
fn untouched_sproinger_stays() {
    let mut sproinger = Sproinger { frame: 1, sproinging: false };
    let fast = Contact { is_slower: false, ..touching(1) };
    let bodiless = Contact { has_body: false, ..touching(2) };
    let frame = update(&mut sproinger, 3, meta(8), &vec![fast, bodiless]);
    assert_eq!(frame.sprite_index, 3);
    assert!(frame.launches.is_empty());
    assert_eq!(sproinger, Sproinger { frame: 1, sproinging: false });
}

#[test]
fn kinematic_contact_sets_the_sproinger_off() {
    let mut sproinger = Sproinger::default();
    let frame = update(&mut sproinger, 0, meta(8), &vec![touching(1)]);
    assert_eq!(frame.launches, vec![launch(1, false)]);
    assert_eq!(sproinger, Sproinger { frame: 0, sproinging: true });
    let frame = update(&mut sproinger, 0, meta(8), &vec![]);
    assert_eq!(frame.sprite_index, 0);
    assert_eq!(sproinger.frame, 1);
}

#[test]
fn dynamic_contact_is_launched_without_animation() {
    let mut sproinger = Sproinger::default();
    let dynamic = Contact { is_dynamic: Some(true), ..touching(1) };
    let not_dynamic = Contact { is_dynamic: Some(false), ..touching(2) };
    let frame = update(&mut sproinger, 0, meta(8), &vec![dynamic]);
    assert_eq!(frame.launches, vec![launch(1, true)]);
    assert!(!sproinger.sproinging);
    let frame = update(&mut sproinger, 0, meta(8), &vec![dynamic, not_dynamic]);
    assert_eq!(frame.launches.len(), 2);
    assert!(sproinger.sproinging);
}

#[test]
fn nothing_is_launched_twice() {
    let mut sproinger = Sproinger::default();
    let frame = update(&mut sproinger, 0, meta(8), &vec![touching(1), touching(2), touching(1)]);
    let launched: Vec<u32> = frame.launches.iter().map(|launch| launch.entity.index).collect();
    assert_eq!(launched, vec![1, 2]);
}

#[test]
fn contact_in_the_last_frame_keeps_the_sproinger_going() {
    let mut sproinger = Sproinger { frame: 20, sproinging: true };
    let frame = update(&mut sproinger, 5, meta(8), &vec![touching(1)]);
    assert_eq!(frame.sprite_index, 0);
    assert_eq!(sproinger, Sproinger { frame: 1, sproinging: true });
}

#[test]
fn only_sproingers_are_hydrated() {
    let elements = vec![
        Element { entity: entity(1), sproinger: None },
        Element { entity: entity(2), sproinger: Some(meta(8)) },
        Element { entity: entity(3), sproinger: Some(meta(9)) },
    ];
    let hydration = hydrate(&elements);
    assert_eq!(hydration.new_sproingers, vec![entity(2), entity(3)]);
    let body = KinematicBody::with_shape(ColliderShape::Rectangle { size: meta(8).body_size });
    assert!(!body.has_mass);
    assert_eq!(
        hydration.commands[..4],
        [
            HydrateCommand::MarkHydrated(entity(2)),
            HydrateCommand::InsertSprite(entity(2), 8),
            HydrateCommand::InsertBody(entity(2), body),
            HydrateCommand::InsertSproinger(entity(2), Sproinger { frame: 0, sproinging: false }),
        ]
    );
    assert_eq!(hydration.commands.len(), 8);
    assert_eq!(hydration.commands[5], HydrateCommand::InsertSprite(entity(3), 9));
}

#[test]
fn sproingers_lead_six_tiles_up() {
    let nodes = vec![NavNode { x: 3, y: -2 }, NavNode { x: 0, y: 10 }];
    let edges = sproing_edges(&nodes);
    assert_eq!(edges.len(), 2);
    assert_eq!(edges[0].from, nodes[0]);
    assert_eq!(edges[0].to, NavNode { x: 3, y: 4 });
    assert_eq!(edges[1].to, NavNode { x: 0, y: 16 });
    assert_eq!(edges[0].inputs, vec![PlayerControl::ByDefault]);
    assert_eq!(edges[1].inputs, vec![PlayerControl::ByDefault]);
    assert!(sproing_edges(&vec![]).is_empty());
}
