//! Games, sessions and the stages in which the systems of a session run.
//!
//! Sessions and games are those of `bones_lib`; this module says what setting them up does to them.

use vstd::prelude::*;

use bones_asset::AssetServer;
use bones_ecs::stage::SimpleSystemStage;
use bones_ecs::system::StaticSystem;
use bones_lib::{Game, Session};
use ulid::Ulid;

use crate::id::{ulid_of, ulid_value};

verus! {

/// A game: its sessions and the resources that they share.
#[verifier::external_type_specification]
#[verifier::external_body]
pub struct ExGame(Game);

/// A session: a world and the stages that run on it.
#[verifier::external_type_specification]
#[verifier::external_body]
pub struct ExSession(Session);

/// A system that is ready to run.
#[verifier::external_type_specification]
#[verifier::external_body]
#[verifier::reject_recursive_types(In)]
#[verifier::reject_recursive_types(Out)]
pub struct ExStaticSystem<In, Out>(StaticSystem<In, Out>);

/// The system type of stages.
pub type StageSystem = StaticSystem<(), ()>;

/// The stages of a session in the order in which they run, each with its identifier and with the
/// systems that were added to it, in the order in which they were added.
pub uninterp spec fn stages(session: Session) -> Seq<(u128, Seq<StageSystem>)>;

/// Whether a game shares an asset server with its sessions.
pub uninterp spec fn shares_asset_server(game: Game) -> bool;

/// Whether the asset server that a game shares was made by `AssetServer::default`.
pub uninterp spec fn shares_default_asset_server(game: Game) -> bool;

/// The number of resources that a game shares with its sessions.
pub uninterp spec fn shared_count(game: Game) -> nat;

/// The physics' own stage.
#[derive(Clone, Copy, Debug, PartialEq, Eq, Structural)]
pub enum PhysicsStage {
    Update,
}

/// A stage of a session that this crate's systems run in.
#[derive(Clone, Copy, Debug, PartialEq, Eq, Structural)]
pub enum Stage {
    /// The core stage before the main update.
    PreUpdate,
    /// The core stage after the main update.
    PostUpdate,
    /// A stage of the physics.
    Physics(PhysicsStage),
}

/// A type whose schema has to be registered before it can be loaded or inspected.
#[derive(Clone, Copy, Debug, PartialEq, Eq, Structural)]
pub enum SchemaType {
    SproingerMeta,
    KinematicBody,
    ColliderShape,
}

impl PhysicsStage {
    /// The identifier of the stage.
    pub open spec fn number(self) -> u128 {
        2026032502318358068964002697585621138u128
    }

    /// The human-readable name of the stage.
    pub fn name(&self) -> (name: String)
        ensures
            name@ == "Update"@,
    {
        match self {
            PhysicsStage::Update => "Update".to_owned(),
        }
    }

    /// The unique identifier of the stage.
    pub fn id(&self) -> (id: u128)
        ensures
            id == self.number(),
    {
        match self {
            PhysicsStage::Update => 2026032502318358068964002697585621138,
        }
    }
}

impl Stage {
    /// The identifier of the stage.
    pub open spec fn number(self) -> u128 {
        match self {
            Stage::PreUpdate => 2021715401330719559452824437611089988u128,
            Stage::PostUpdate => 2021715423103233646561968734173322317u128,
            Stage::Physics(stage) => stage.number(),
        }
    }

    /// The human-readable name of the stage.
    pub open spec fn text(self) -> Seq<char> {
        match self {
            Stage::PreUpdate => "PreUpdate"@,
            Stage::PostUpdate => "PostUpdate"@,
            Stage::Physics(_) => "Update"@,
        }
    }

    /// The human-readable name of the stage.
    pub fn label(&self) -> (name: String)
        ensures
            name@ == self.text(),
    {
        match self {
            Stage::PreUpdate => "PreUpdate".to_owned(),
            Stage::PostUpdate => "PostUpdate".to_owned(),
            Stage::Physics(stage) => stage.name(),
        }
    }

    /// The unique identifier of the stage.
    pub fn value(&self) -> (id: u128)
        ensures
            id == self.number(),
    {
        match self {
            Stage::PreUpdate => 2021715401330719559452824437611089988,
            Stage::PostUpdate => 2021715423103233646561968734173322317,
            Stage::Physics(stage) => stage.id(),
        }
    }
}

impl bones_ecs::stage::StageLabel for Stage {
    fn name(&self) -> (name: String)
        ensures
            name@ == self.text(),
    {
        self.label()
    }

    fn id(&self) -> (id: Ulid)
        ensures
            ulid_value(id) == self.number(),
    {
        ulid_of(self.value())
    }
}

/// The identifiers of stages.
pub open spec fn stage_ids(stages: Seq<(u128, Seq<StageSystem>)>) -> Seq<u128> {
    stages.map_values(|stage: (u128, Seq<StageSystem>)| stage.0)
}

/// Whether there is a stage with the identifier of `stage`.
pub open spec fn has_stage(stages: Seq<(u128, Seq<StageSystem>)>, stage: Stage) -> bool {
    stage_ids(stages).contains(stage.number())
}

/// The stages with a new, empty one put in behind the first that is `after`.
pub open spec fn stage_inserted(
    stages: Seq<(u128, Seq<StageSystem>)>,
    after: Stage,
    stage: Stage,
) -> Seq<(u128, Seq<StageSystem>)> {
    stages.insert(
        stage_ids(stages).index_of_first(after.number())->0 + 1,
        (stage.number(), Seq::empty()),
    )
}

/// The stages with a system added to the last one that is `stage`.
pub open spec fn system_added(
    stages: Seq<(u128, Seq<StageSystem>)>,
    stage: Stage,
    system: StageSystem,
) -> Seq<(u128, Seq<StageSystem>)> {
    let k = stage_ids(stages).index_of_last(stage.number())->0;
    stages.update(k, (stages[k].0, stages[k].1.push(system)))
}

/// `SystemStages::insert_stage_after`, with a new `SimpleSystemStage`: the new stage is empty and
/// comes right behind the first stage with the given identifier, which has to be there.
///
/// A session's stages are taken to keep their identifiers, as `SimpleSystemStage` does.
#[verifier::external_body]
pub(crate) fn insert_stage_after(session: &mut Session, after: Stage, stage: Stage)
    requires
        has_stage(stages(*old(session)), after),
    ensures
        stages(*final(session)) == stage_inserted(stages(*old(session)), after, stage),
{
    session.stages.insert_stage_after(after, SimpleSystemStage::new(stage));
}

/// `SystemStages::add_system_to_stage`: the system is handed to the last stage with the given
/// identifier, which has to be there, and comes behind the systems that the stage was handed before.
#[verifier::external_body]
pub(crate) fn add_system_to_stage(session: &mut Session, stage: Stage, system: StageSystem)
    requires
        has_stage(stages(*old(session)), stage),
    ensures
        stages(*final(session)) == system_added(stages(*old(session)), stage, system),
{
    session.stages.add_system_to_stage(stage, system);
}

/// The length of `SystemStages::stages`.
#[verifier::external_body]
fn stage_count(session: &Session) -> (count: usize)
    ensures
        count == stages(*session).len(),
{
    session.stages.stages.len()
}

/// `SystemStage::id` of the stage with the given index.
#[verifier::external_body]
fn stage_id_at(session: &Session, index: usize) -> (id: u128)
    requires
        index < stages(*session).len(),
    ensures
        id == stages(*session)[index as int].0,
{
    session.stages.stages[index].id().0
}

/// `Game::shared_resource_cell` for the asset server: whether there is one.
#[verifier::external_body]
pub(crate) fn has_asset_server(game: &Game) -> (has: bool)
    ensures
        has == shares_asset_server(*game),
{
    game.shared_resource_cell::<AssetServer>().is_some()
}

/// `Game::init_shared_resource` for the asset server, where the game has none yet: a new one, made by
/// `AssetServer::default`, is shared in addition to what the game shared before.
#[verifier::external_body]
pub(crate) fn init_asset_server(game: &mut Game)
    requires
        !shares_asset_server(*old(game)),
    ensures
        shares_asset_server(*final(game)),
        shares_default_asset_server(*final(game)),
        shared_count(*final(game)) == shared_count(*old(game)) + 1,
{
    game.init_shared_resource::<AssetServer>();
}

/// Tests whether a session has a stage.
pub fn find_stage(session: &Session, stage: Stage) -> (found: bool)
    ensures
        found == has_stage(stages(*session), stage),
{
    let ghost ids = stage_ids(stages(*session));
    let count: usize = stage_count(session);
    let wanted: u128 = stage.value();
    let mut i: usize = 0;
    while i < count
        invariant
            i <= count,
            count == stages(*session).len(),
            ids == stage_ids(stages(*session)),
            wanted == stage.number(),
            forall|k: int| 0 <= k < i ==> ids[k] != wanted,
        decreases count - i,
    {
        if stage_id_at(session, i) == wanted {
            assert(ids[i as int] == wanted);
            return true;
        }
        i = i + 1;
    }
    false
}

/// A session has a stage exactly if one of its stages has the stage's identifier.
pub proof fn law_has_stage(stages: Seq<(u128, Seq<StageSystem>)>, stage: Stage)
    ensures
        has_stage(stages, stage) <==> exists|i: int|
            0 <= i < stages.len() && (#[trigger] stages[i]).0 == stage.number(),
{
    let ids = stage_ids(stages);
    if has_stage(stages, stage) {
        let i = choose|i: int| 0 <= i < ids.len() && ids[i] == stage.number();
        assert(stages[i].0 == stage.number());
    }
    if exists|i: int| 0 <= i < stages.len() && (#[trigger] stages[i]).0 == stage.number() {
        let i = choose|i: int| 0 <= i < stages.len() && (#[trigger] stages[i]).0 == stage.number();
        assert(ids[i] == stage.number());
    }
}

/// The stages are told apart by their identifiers.
pub proof fn law_stages_differ(a: Stage, b: Stage)
    ensures
        a.number() == b.number() <==> a == b,
        Stage::PreUpdate.number() == 2021715401330719559452824437611089988u128,
        Stage::PostUpdate.number() == 2021715423103233646561968734173322317u128,
        Stage::Physics(PhysicsStage::Update).number() == 2026032502318358068964002697585621138u128,
{
}

} // verus!
