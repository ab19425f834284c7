//! Physics: which systems run when, and how bodies join the collision world.

use vstd::prelude::*;

use bones_ecs::bitset::BitSetVec;
use bones_ecs::entities::Entities;
use bones_lib::Session;

use crate::body::{ColliderShape, KinematicBody};
use crate::ecs::{
    alive, find_lacking, find_lacking_checked, lacking, members, pair_of, sets_fit, EntityId,
};
use crate::session::{
    add_system_to_stage, find_stage, has_stage, insert_stage_after, stage_ids, stage_inserted, stages,
    system_added, PhysicsStage, SchemaType, Stage, StageSystem,
};

verus! {

/// The stages of a session after the physics has been installed: a new stage behind the one that
/// follows the main update, to which both physics systems are added.
pub open spec fn installed(
    stages: Seq<(u128, Seq<StageSystem>)>,
    hydrate: StageSystem,
    update: StageSystem,
) -> Seq<(u128, Seq<StageSystem>)> {
    let physics = Stage::Physics(PhysicsStage::Update);
    system_added(
        system_added(stage_inserted(stages, Stage::PostUpdate, physics), physics, hydrate),
        physics,
        update,
    )
}

proof fn lemma_inserted(stages: Seq<(u128, Seq<StageSystem>)>, after: Stage, stage: Stage)
    requires
        has_stage(stages, after),
    ensures
        has_stage(stage_inserted(stages, after, stage), stage),
{
    stage_ids(stages).index_of_first_ensures(after.number());
    let k = stage_ids(stages).index_of_first(after.number())->0 + 1;
    assert(stage_ids(stage_inserted(stages, after, stage))[k] == stage.number());
}

proof fn lemma_added(stages: Seq<(u128, Seq<StageSystem>)>, stage: Stage, system: StageSystem)
    requires
        has_stage(stages, stage),
    ensures
        stage_ids(system_added(stages, stage, system)) == stage_ids(stages),
{
    stage_ids(stages).index_of_last_ensures(stage.number());
    assert(stage_ids(system_added(stages, stage, system)) =~= stage_ids(stages));
}

/// Installs the physics into a session: a stage of its own, right behind the one that follows the
/// main update, in which bodies are hydrated and then updated. Returns the types whose schemas the
/// host registers.
pub fn install(session: &mut Session, hydrate: StageSystem, update: StageSystem) -> (schemas: Vec<
    SchemaType,
>)
    requires
        has_stage(stages(*old(session)), Stage::PostUpdate),
    ensures
        stages(*final(session)) == installed(stages(*old(session)), hydrate, update),
        schemas@ == seq![SchemaType::KinematicBody, SchemaType::ColliderShape],
{
    let physics = Stage::Physics(PhysicsStage::Update);
    proof {
        lemma_inserted(stages(*session), Stage::PostUpdate, physics);
    }
    insert_stage_after(session, Stage::PostUpdate, physics);
    proof {
        lemma_added(stages(*session), physics, hydrate);
    }
    add_system_to_stage(session, physics, hydrate);
    add_system_to_stage(session, physics, update);
    vec![SchemaType::KinematicBody, SchemaType::ColliderShape]
}

/// Like [`install`], but leaves a session alone that has no stage behind the main update.
pub fn try_install(session: &mut Session, hydrate: StageSystem, update: StageSystem) -> (schemas: Option<
    Vec<SchemaType>,
>)
    ensures
        schemas is Some <==> has_stage(stages(*old(session)), Stage::PostUpdate),
        schemas matches Some(list) ==> {
            &&& list@ == seq![SchemaType::KinematicBody, SchemaType::ColliderShape]
            &&& stages(*final(session)) == installed(stages(*old(session)), hydrate, update)
        },
        schemas is None ==> *final(session) == *old(session),
{
    if find_stage(session, Stage::PostUpdate) {
        Some(install(session, hydrate, update))
    } else {
        None
    }
}

/// In a session that has no physics yet, the physics runs right behind the stage that follows the
/// main update, hydrates before it updates, and leaves all other stages as they were.
pub proof fn law_physics_follows_post_update(
    stages: Seq<(u128, Seq<StageSystem>)>,
    hydrate: StageSystem,
    update: StageSystem,
)
    requires
        has_stage(stages, Stage::PostUpdate),
        !has_stage(stages, Stage::Physics(PhysicsStage::Update)),
    ensures
        ({
            let k = stage_ids(stages).index_of_first(Stage::PostUpdate.number())->0;
            installed(stages, hydrate, update) == stages.insert(
                k + 1,
                (PhysicsStage::Update.number(), seq![hydrate, update]),
            )
        }),
{
    let physics = Stage::Physics(PhysicsStage::Update);
    let id = physics.number();
    let k = stage_ids(stages).index_of_first(Stage::PostUpdate.number())->0;
    stage_ids(stages).index_of_first_ensures(Stage::PostUpdate.number());
    let first = stage_inserted(stages, Stage::PostUpdate, physics);
    lemma_inserted(stages, Stage::PostUpdate, physics);
    lemma_added(first, physics, hydrate);
    let ids = stage_ids(first);
    ids.index_of_last_ensures(id);
    let last = ids.index_of_last(id)->0;
    assert(ids[k + 1] == id);
    assert(last == k + 1) by {
        if last != k + 1 {
            let j = if last < k + 1 {
                last
            } else {
                last - 1
            };
            assert(stage_ids(stages)[j] == id);
        }
    }
    assert(installed(stages, hydrate, update) =~= stages.insert(
        k + 1,
        (PhysicsStage::Update.number(), seq![hydrate, update]),
    )) by {
        assert(Seq::<StageSystem>::empty().push(hydrate).push(update) =~= seq![hydrate, update]);
    }
}

/// A change to the collision world.
#[derive(Clone, Copy, Debug, PartialEq, Eq, Structural)]
pub enum PhysicsCommand {
    /// Give the entity a collider with this shape, and otherwise the default one.
    InsertCollider(EntityId, ColliderShape),
    /// Make the entity an actor.
    InsertActor(EntityId),
    /// Reset the entity's collider as if the entity had just been put where it is.
    Teleport(EntityId),
}

/// The commands by which entities join the collision world, each with the shape of its body.
pub open spec fn joining(newcomers: Seq<(EntityId, ColliderShape)>) -> Seq<PhysicsCommand>
    decreases newcomers.len(),
{
    if newcomers.len() == 0 {
        Seq::empty()
    } else {
        let (entity, shape) = newcomers.last();
        joining(newcomers.drop_last()) + seq![
            PhysicsCommand::InsertCollider(entity, shape),
            PhysicsCommand::InsertActor(entity),
            PhysicsCommand::Teleport(entity),
        ]
    }
}

/// Whether the storage of the bodies, which is ordered by the index of their entities, holds the
/// bodies of all these entities.
pub open spec fn all_stored(entities: Seq<(u32, u32)>, bodies: Seq<Option<KinematicBody>>) -> bool {
    forall|k: int|
        0 <= k < entities.len() ==> {
            let index = (#[trigger] entities[k]).0 as int;
            index < bodies.len() && bodies[index] is Some
        }
}

/// The entities, each with the shape of the body that the storage holds for it.
pub open spec fn with_shapes(
    entities: Seq<(u32, u32)>,
    bodies: Seq<Option<KinematicBody>>,
) -> Seq<(EntityId, ColliderShape)> {
    entities.map_values(
        |e: (u32, u32)|
            (EntityId { index: e.0, generation: e.1 }, (bodies[e.0 as int]->0).shape),
    )
}

/// Tests whether the storage holds the bodies of all these entities.
pub fn check_bodies(found: &Vec<EntityId>, bodies: &Vec<Option<KinematicBody>>) -> (stored: bool)
    ensures
        stored == all_stored(found@.map_values(|e: EntityId| pair_of(e)), bodies@),
{
    let ghost pairs = found@.map_values(|e: EntityId| pair_of(e));
    let mut i: usize = 0;
    while i < found.len()
        invariant
            i <= found@.len(),
            pairs == found@.map_values(|e: EntityId| pair_of(e)),
            forall|k: int|
                0 <= k < i ==> {
                    let index = (#[trigger] pairs[k]).0 as int;
                    index < bodies@.len() && bodies@[index] is Some
                },
        decreases found@.len() - i,
    {
        let index: usize = found[i].index as usize;
        assert(pairs[i as int].0 == index);
        if index >= bodies.len() || bodies[index].is_none() {
            return false;
        }
        i = i + 1;
    }
    true
}

fn pair_shapes(found: &Vec<EntityId>, bodies: &Vec<Option<KinematicBody>>) -> (newcomers: Vec<
    (EntityId, ColliderShape),
>)
    requires
        all_stored(found@.map_values(|e: EntityId| pair_of(e)), bodies@),
    ensures
        newcomers@ == with_shapes(found@.map_values(|e: EntityId| pair_of(e)), bodies@),
{
    let ghost pairs = found@.map_values(|e: EntityId| pair_of(e));
    let mut newcomers: Vec<(EntityId, ColliderShape)> = Vec::new();
    let mut i: usize = 0;
    while i < found.len()
        invariant
            i <= found@.len(),
            pairs == found@.map_values(|e: EntityId| pair_of(e)),
            all_stored(pairs, bodies@),
            newcomers@ =~= with_shapes(pairs, bodies@).take(i as int),
        decreases found@.len() - i,
    {
        let entity = found[i];
        assert(pairs[i as int] == pair_of(entity));
        if let Some(body) = bodies[entity.index as usize] {
            newcomers.push((entity, body.shape));
        }
        i = i + 1;
    }
    assert(with_shapes(pairs, bodies@).take(i as int) =~= with_shapes(pairs, bodies@));
    newcomers
}

/// The commands by which these entities join the collision world, one entity after the other.
pub fn join_collision_world(newcomers: &Vec<(EntityId, ColliderShape)>) -> (commands: Vec<PhysicsCommand>)
    ensures
        commands@ == joining(newcomers@),
{
    let mut commands: Vec<PhysicsCommand> = Vec::new();
    let mut i: usize = 0;
    while i < newcomers.len()
        invariant
            i <= newcomers@.len(),
            commands@ == joining(newcomers@.take(i as int)),
        decreases newcomers@.len() - i,
    {
        let (entity, shape) = newcomers[i];
        let ghost before = commands@;
        commands.push(PhysicsCommand::InsertCollider(entity, shape));
        commands.push(PhysicsCommand::InsertActor(entity));
        commands.push(PhysicsCommand::Teleport(entity));
        proof {
            assert(newcomers@.take(i + 1).drop_last() =~= newcomers@.take(i as int));
            assert(newcomers@.take(i + 1).last() == (entity, shape));
            assert(commands@ =~= before + seq![
                PhysicsCommand::InsertCollider(entity, shape),
                PhysicsCommand::InsertActor(entity),
                PhysicsCommand::Teleport(entity),
            ]);
        }
        i = i + 1;
    }
    assert(newcomers@.take(i as int) =~= newcomers@);
    commands
}

/// Hydrate newly added bodies: every living entity that has a body but no collider yet joins the
/// collision world with the shape of its body, in the order of their indices and none of them twice.
///
/// `colliders` and `have_body` tell which entities have a collider and a body; `bodies` is the
/// storage of the bodies, by the index of their entities.
pub fn hydrate_physics_bodies(
    entities: &Entities,
    colliders: &BitSetVec,
    have_body: &BitSetVec,
    bodies: &Vec<Option<KinematicBody>>,
) -> (commands: Vec<PhysicsCommand>)
    requires
        sets_fit(*colliders, *have_body),
        all_stored(lacking(alive(*entities), members(*colliders), members(*have_body)), bodies@),
    ensures
        commands@ == joining(
            with_shapes(
                lacking(alive(*entities), members(*colliders), members(*have_body)),
                bodies@,
            ),
        ),
        ({
            let found = lacking(alive(*entities), members(*colliders), members(*have_body));
            forall|i: int, j: int|
                0 <= i < j < found.len() ==> (#[trigger] found[i]).0 < (#[trigger] found[j]).0
        }),
{
    let found = find_lacking(entities, colliders, have_body);
    proof {
        let pairs = found@.map_values(|e: EntityId| pair_of(e));
        assert forall|i: int, j: int| 0 <= i < j < pairs.len() implies (#[trigger] pairs[i]).0 < (
        #[trigger] pairs[j]).0 by {
            assert(found@[i].index < found@[j].index);
        }
    }
    join_collision_world(&pair_shapes(&found, bodies))
}

/// Like [`hydrate_physics_bodies`], but does nothing, `None`, if the bit sets cannot be joined or the
/// storage lacks the body of an entity that is to join.
pub fn try_hydrate_physics_bodies(
    entities: &Entities,
    colliders: &BitSetVec,
    have_body: &BitSetVec,
    bodies: &Vec<Option<KinematicBody>>,
) -> (commands: Option<Vec<PhysicsCommand>>)
    ensures
        commands is Some <==> sets_fit(*colliders, *have_body) && all_stored(
            lacking(alive(*entities), members(*colliders), members(*have_body)),
            bodies@,
        ),
        commands matches Some(list) ==> list@ == joining(
            with_shapes(
                lacking(alive(*entities), members(*colliders), members(*have_body)),
                bodies@,
            ),
        ),
        commands is Some ==> ({
            let found = lacking(alive(*entities), members(*colliders), members(*have_body));
            forall|i: int, j: int|
                0 <= i < j < found.len() ==> (#[trigger] found[i]).0 < (#[trigger] found[j]).0
        }),
{
    match find_lacking_checked(entities, colliders, have_body) {
        Some(found) => {
            if check_bodies(&found, bodies) {
                Some(hydrate_physics_bodies(entities, colliders, have_body, bodies))
            } else {
                None
            }
        },
        None => None,
    }
}

/// Every entity that joins gets a collider with the shape of its own body, then becomes an actor, and
/// is then put in its place; the entities come one after the other, and nothing else is done.
pub proof fn law_each_joins_with_its_shape(newcomers: Seq<(EntityId, ColliderShape)>, k: int)
    requires
        0 <= k < newcomers.len(),
    ensures
        joining(newcomers).len() == 3 * newcomers.len(),
        joining(newcomers)[3 * k] == PhysicsCommand::InsertCollider(newcomers[k].0, newcomers[k].1),
        joining(newcomers)[3 * k + 1] == PhysicsCommand::InsertActor(newcomers[k].0),
        joining(newcomers)[3 * k + 2] == PhysicsCommand::Teleport(newcomers[k].0),
    decreases newcomers.len(),
{
    reveal_with_fuel(joining, 2);
    let front = newcomers.drop_last();
    if front.len() > 0 {
        law_each_joins_with_its_shape(front, if k < front.len() { k } else { 0 });
    }
}

/// The storage holds the bodies of entities exactly if there is one at the index of each of them, and
/// each of them joins with the shape of the body at its own index.
pub proof fn law_shapes_are_those_of_the_bodies(
    entities: Seq<(u32, u32)>,
    bodies: Seq<Option<KinematicBody>>,
    k: int,
)
    requires
        all_stored(entities, bodies),
        0 <= k < entities.len(),
    ensures
        with_shapes(entities, bodies).len() == entities.len(),
        (entities[k].0 as int) < bodies.len(),
        bodies[entities[k].0 as int] matches Some(body) && with_shapes(entities, bodies)[k] == (
            EntityId { index: entities[k].0, generation: entities[k].1 },
            body.shape,
        ),
{
    assert(entities[k].0 == entities[k].0);
}

/// Whatever stages a session has, installing the physics adds one stage, right behind the first that
/// follows the main update. Its two systems, the one that hydrates before the one that updates, come
/// behind those of the last stage of the physics, and all other stages are as they were.
pub proof fn law_install_adds_one_stage(
    stages: Seq<(u128, Seq<StageSystem>)>,
    hydrate: StageSystem,
    update: StageSystem,
)
    requires
        has_stage(stages, Stage::PostUpdate),
    ensures
        ({
            let id = 2026032502318358068964002697585621138u128;
            let behind = stage_ids(stages).index_of_first(2021715423103233646561968734173322317u128)->0
                + 1;
            let base = stages.insert(behind, (id, Seq::empty()));
            let last = stage_ids(base).index_of_last(id)->0;
            installed(stages, hydrate, update) == base.update(
                last,
                (id, base[last].1.push(hydrate).push(update)),
            )
        }),
{
    let physics = Stage::Physics(PhysicsStage::Update);
    let base = stage_inserted(stages, Stage::PostUpdate, physics);
    lemma_inserted(stages, Stage::PostUpdate, physics);
    lemma_added(base, physics, hydrate);
    stage_ids(base).index_of_last_ensures(physics.number());
    let last = stage_ids(base).index_of_last(physics.number())->0;
    assert(stage_ids(base)[last] == base[last].0);
    assert(installed(stages, hydrate, update) =~= base.update(
        last,
        (physics.number(), base[last].1.push(hydrate).push(update)),
    ));
}

/// The storage holds the bodies of entities exactly if there is a body at the index of each of them.
pub proof fn law_what_is_stored(entities: Seq<(u32, u32)>, bodies: Seq<Option<KinematicBody>>)
    ensures
        all_stored(entities, bodies) <==> forall|k: int|
            0 <= k < entities.len() ==> (#[trigger] entities[k]).0 < bodies.len()
                && bodies[entities[k].0 as int] is Some,
{
}

} // verus!
