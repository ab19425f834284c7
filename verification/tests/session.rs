use bones_asset::prelude::Version;
use bones_asset::AssetServer;
use bones_ecs::bitset::{BitSet, BitSetVec};
use bones_ecs::entities::Entities;
use bones_ecs::stage::{CoreStage, StageLabel, SystemStages};
use bones_ecs::system::{IntoSystem, StaticSystem};
use bones_ecs::World;
use bones_lib::{Game, Session};
use std::sync::{Arc, Mutex};

use jumpy::body::{ColliderShape, KinematicBody};
use jumpy::ecs::{check_sets, find_lacking, find_lacking_checked, EntityId, BITSET_BITS};
use jumpy::geometry::Scalar;
use jumpy::physics::{
    hydrate_physics_bodies, try_hydrate_physics_bodies, try_install, PhysicsCommand,
};
use jumpy::session::{find_stage, PhysicsStage, SchemaType, Stage};
use jumpy::sproinger::{find_elements, game_plugin, try_session_plugin};

type Log = Arc<Mutex<Vec<&'static str>>>;

fn noting(log: &Log, note: &'static str) -> StaticSystem<(), ()> {
    let log = log.clone();
    (move |_world: &World| log.lock().unwrap().push(note)).system()
}

fn core_session() -> Session {
    let mut session = Session::new();
    session.stages = SystemStages::with_core_stages();
    session
}

fn run(session: &mut Session) {
    let Session { world, stages, .. } = session;
    stages.run(world);
}

fn stage_numbers(session: &Session) -> Vec<u128> {
    session.stages.stages.iter().map(|stage| stage.id().0).collect()
}

#[test]
fn stage_names_and_ids() {
    assert_eq!(PhysicsStage::Update.name(), "Update");
    assert_eq!(PhysicsStage::Update.id(), 2026032502318358068964002697585621138);
    let stage = Stage::Physics(PhysicsStage::Update);
    assert_eq!(StageLabel::name(&stage), "Update");
    assert_eq!(StageLabel::id(&stage).0, 2026032502318358068964002697585621138);
    assert_eq!(StageLabel::name(&Stage::PreUpdate), CoreStage::PreUpdate.name());
    assert_eq!(StageLabel::id(&Stage::PreUpdate), CoreStage::PreUpdate.id());
    assert_eq!(StageLabel::name(&Stage::PostUpdate), CoreStage::PostUpdate.name());
    assert_eq!(StageLabel::id(&Stage::PostUpdate), CoreStage::PostUpdate.id());
}

#[test]
fn physics_runs_right_behind_post_update() {
    let log = Log::default();
    let mut session = core_session();
    let before = stage_numbers(&session);
    session.stages.add_system_to_stage(CoreStage::Last, noting(&log, "last"));
    session.stages.add_system_to_stage(CoreStage::PostUpdate, noting(&log, "post"));
    assert!(!find_stage(&session, Stage::Physics(PhysicsStage::Update)));
    let schemas = try_install(&mut session, noting(&log, "hydrate"), noting(&log, "update"));
    assert_eq!(schemas, Some(vec![SchemaType::KinematicBody, SchemaType::ColliderShape]));
    assert!(find_stage(&session, Stage::Physics(PhysicsStage::Update)));
    let mut expected = before;
    expected.insert(4, PhysicsStage::Update.id());
    assert_eq!(stage_numbers(&session), expected);
    run(&mut session);
    assert_eq!(*log.lock().unwrap(), vec!["post", "hydrate", "update", "last"]);
}

#[test]
fn physics_needs_post_update() {
    let log = Log::default();
    let mut session = Session::new();
    session.stages.stages.clear();
    assert_eq!(try_install(&mut session, noting(&log, "a"), noting(&log, "b")), None);
    assert!(session.stages.stages.is_empty());
}

#[test]
fn sproingers_are_hydrated_early_and_updated_late() {
    let log = Log::default();
    let mut session = core_session();
    let before = stage_numbers(&session);
    session.stages.add_system_to_stage(CoreStage::Update, noting(&log, "main"));
    assert!(try_session_plugin(&mut session, noting(&log, "hydrate"), noting(&log, "update")));
    assert_eq!(stage_numbers(&session), before);
    run(&mut session);
    assert_eq!(*log.lock().unwrap(), vec!["hydrate", "main", "update"]);

    session.stages.stages.truncate(2);
    assert!(!try_session_plugin(&mut session, noting(&log, "c"), noting(&log, "d")));
}

fn version(game: &Game) -> String {
    game.shared_resource::<AssetServer>().unwrap().game_version().to_string()
}

#[test]
fn game_shares_one_asset_server() {
    let mut game = Game::new();
    assert!(game.shared_resource_cell::<AssetServer>().is_none());
    assert_eq!(game_plugin(&mut game), vec![SchemaType::SproingerMeta]);
    assert_eq!(version(&game), AssetServer::default().game_version().to_string());
    game.shared_resource_mut::<AssetServer>().unwrap().set_game_version(Version::new(3, 1, 4));
    assert_eq!(game_plugin(&mut game), vec![SchemaType::SproingerMeta]);
    assert_eq!(version(&game), "3.1.4");
}

fn bits(indices: &[usize]) -> BitSetVec {
    let mut set = BitSetVec::default();
    for index in indices {
        set.0.bit_set(*index);
    }
    set
}

#[test]
fn bitsets_have_the_size_of_the_storages() {
    assert_eq!(BitSetVec::default().0.bit_len(), BITSET_BITS);
    assert!(check_sets(&bits(&[]), &bits(&[3])));
    assert!(!check_sets(&BitSetVec(vec![[0; 8]]), &bits(&[3])));
    assert!(!check_sets(&BitSetVec(vec![[0; 8]]), &BitSetVec(vec![[0; 8]])));
}

#[test]
fn living_entities_that_lack_something() {
    let mut entities = Entities::default();
    let all: Vec<_> = (0..5).map(|_| entities.create()).collect();
    entities.kill(all[2]);
    let found = find_lacking(&entities, &bits(&[1]), &bits(&[0, 1, 2, 4]));
    assert_eq!(
        found,
        vec![EntityId { index: 0, generation: 0 }, EntityId { index: 4, generation: 0 }]
    );
    entities.clear_killed();
    let revived = entities.create();
    assert_eq!((revived.index(), revived.generation()), (2, 1));
    let found = find_lacking(&entities, &bits(&[1]), &bits(&[0, 1, 2, 4]));
    assert_eq!(found[1], EntityId { index: 2, generation: 1 });
    assert!(find_lacking(&entities, &bits(&[0, 1, 2, 4]), &bits(&[0, 1, 2, 4])).is_empty());
    assert!(find_lacking_checked(&entities, &BitSetVec(vec![]), &bits(&[0])).is_none());
    let checked = find_lacking_checked(&entities, &bits(&[]), &bits(&[3]));
    assert_eq!(checked, Some(vec![EntityId { index: 3, generation: 0 }]));
    assert_eq!(find_elements(&entities, &bits(&[]), &bits(&[3])).len(), 1);
}

fn round(diameter: f32) -> KinematicBody {
    let diameter = Scalar { bits: diameter.to_bits() };
    KinematicBody::with_shape(ColliderShape::Circle { diameter })
}

#[test]
fn new_bodies_join_the_collision_world() {
    let mut entities = Entities::default();
    for _ in 0..3 {
        entities.create();
    }
    let bodies = vec![Some(round(1.0)), None, Some(round(2.0))];
    let commands = hydrate_physics_bodies(&entities, &bits(&[0]), &bits(&[0, 2]), &bodies);
    let entity = EntityId { index: 2, generation: 0 };
    assert_eq!(
        commands,
        vec![
            PhysicsCommand::InsertCollider(entity, round(2.0).shape),
            PhysicsCommand::InsertActor(entity),
            PhysicsCommand::Teleport(entity),
        ]
    );
    let all = bits(&[0, 2]);
    assert!(hydrate_physics_bodies(&entities, &all, &all, &bodies).is_empty());
    let checked = try_hydrate_physics_bodies(&entities, &bits(&[0]), &all, &bodies);
    assert_eq!(checked, Some(commands));
    assert_eq!(try_hydrate_physics_bodies(&entities, &bits(&[]), &bits(&[1]), &bodies), None);
    assert_eq!(try_hydrate_physics_bodies(&entities, &bits(&[]), &all, &vec![]), None);
    assert_eq!(try_hydrate_physics_bodies(&entities, &BitSetVec(vec![]), &all, &bodies), None);
}
