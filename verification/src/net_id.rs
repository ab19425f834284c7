//! Identities of entities that mean the same on every peer.

use vstd::prelude::*;

use ulid::Ulid;

use crate::id::{new_ulid, ulid_value, value_of};

verus! {

/// An entity of the local world, as the bits of its index and generation.
#[derive(Clone, Copy, Debug, PartialEq, Eq, Structural, PartialOrd, Ord, Hash)]
pub struct Entity {
    pub bits: u64,
}

/// The identity of an entity on the network: the value of a universally unique identifier.
#[derive(Clone, Copy, Debug, PartialEq, Eq, Structural, PartialOrd, Ord, Hash)]
pub struct NetId(pub u128);

impl NetId {
    /// A new identity. Nothing is known of its value, which is made of the time and of chance.
    pub fn new() -> Self {
        NetId::from(new_ulid())
    }
}

impl From<Ulid> for NetId {
    fn from(u: Ulid) -> (id: NetId) {
        NetId(value_of(u))
    }
}

impl vstd::std_specs::convert::FromSpecImpl<Ulid> for NetId {
    open spec fn obeys_from_spec() -> bool {
        true
    }

    open spec fn from_spec(u: Ulid) -> NetId {
        NetId(ulid_value(u))
    }
}

/// The hash map from entities to network identities, keyed by the bits of the entity.
#[verifier::external_body]
#[derive(Debug)]
pub struct EntityTable {
    table: bevy::utils::HashMap<u64, u128>,
}

/// The hash map from network identities to entities, which it holds as their bits.
#[verifier::external_body]
#[derive(Debug)]
pub struct NetTable {
    table: bevy::utils::HashMap<u128, u64>,
}

/// What an [`EntityTable`] holds.
pub uninterp spec fn net_ids(table: EntityTable) -> Map<u64, u128>;

/// What a [`NetTable`] holds.
pub uninterp spec fn entities(table: NetTable) -> Map<u128, u64>;

impl EntityTable {
    /// `HashMap::default`: an empty map.
    #[verifier::external_body]
    fn empty() -> (table: EntityTable)
        ensures
            forall|e: u64| !(#[trigger] net_ids(table).contains_key(e)),
    {
        EntityTable { table: bevy::utils::HashMap::default() }
    }

    /// `HashMap::insert`: the key has the value now, whatever it had before; no other key changes.
    #[verifier::external_body]
    fn insert(&mut self, entity: u64, net_id: u128)
        ensures
            net_ids(*final(self)) == net_ids(*old(self)).insert(entity, net_id),
    {
        self.table.insert(entity, net_id);
    }

    /// `HashMap::remove`: the value that the key had, if it had one; it has none any more.
    #[verifier::external_body]
    fn remove(&mut self, entity: u64) -> (net_id: Option<u128>)
        ensures
            net_ids(*final(self)) == net_ids(*old(self)).remove(entity),
            net_id == (if net_ids(*old(self)).contains_key(entity) {
                Some(net_ids(*old(self))[entity])
            } else {
                None
            }),
    {
        self.table.remove(&entity)
    }

    /// `HashMap::get`: the value that the key has, if it has one.
    #[verifier::external_body]
    fn get(&self, entity: u64) -> (net_id: Option<u128>)
        ensures
            net_id == (if net_ids(*self).contains_key(entity) {
                Some(net_ids(*self)[entity])
            } else {
                None
            }),
    {
        self.table.get(&entity).cloned()
    }
}

impl NetTable {
    /// `HashMap::default`: an empty map.
    #[verifier::external_body]
    fn empty() -> (table: NetTable)
        ensures
            forall|n: u128| !(#[trigger] entities(table).contains_key(n)),
    {
        NetTable { table: bevy::utils::HashMap::default() }
    }

    /// `HashMap::insert`: the key has the value now, whatever it had before; no other key changes.
    #[verifier::external_body]
    fn insert(&mut self, net_id: u128, entity: u64)
        ensures
            entities(*final(self)) == entities(*old(self)).insert(net_id, entity),
    {
        self.table.insert(net_id, entity);
    }

    /// `HashMap::remove`: the value that the key had, if it had one; it has none any more.
    #[verifier::external_body]
    fn remove(&mut self, net_id: u128) -> (entity: Option<u64>)
        ensures
            entities(*final(self)) == entities(*old(self)).remove(net_id),
            entity == (if entities(*old(self)).contains_key(net_id) {
                Some(entities(*old(self))[net_id])
            } else {
                None
            }),
    {
        self.table.remove(&net_id)
    }

    /// `HashMap::get`: the value that the key has, if it has one.
    #[verifier::external_body]
    fn get(&self, net_id: u128) -> (entity: Option<u64>)
        ensures
            entity == (if entities(*self).contains_key(net_id) {
                Some(entities(*self)[net_id])
            } else {
                None
            }),
    {
        self.table.get(&net_id).cloned()
    }
}

impl Clone for EntityTable {
    /// `HashMap::clone`: a map with the same entries.
    #[verifier::external_body]
    fn clone(&self) -> (copy: EntityTable)
        ensures
            net_ids(copy) == net_ids(*self),
    {
        EntityTable { table: self.table.clone() }
    }
}

impl Clone for NetTable {
    /// `HashMap::clone`: a map with the same entries.
    #[verifier::external_body]
    fn clone(&self) -> (copy: NetTable)
        ensures
            entities(copy) == entities(*self),
    {
        NetTable { table: self.table.clone() }
    }
}

/// Which entity has which network identity, both ways.
#[derive(Debug)]
pub struct NetIdMap {
    ent_to_net: EntityTable,
    net_to_ent: NetTable,
}

/// What a [`NetIdMap`] holds: the two directions, which are kept separately.
pub struct NetIdMapView {
    /// The network identity of each entity, both by their bits.
    pub net_of: Map<u64, u128>,
    /// The entity of each network identity, both by their bits.
    pub entity_of: Map<u128, u64>,
}

impl NetIdMapView {
    /// Nothing has an identity.
    pub open spec fn empty() -> NetIdMapView {
        NetIdMapView { net_of: Map::empty(), entity_of: Map::empty() }
    }

    /// Both directions get a new entry. What the entity or the identity was paired with before keeps
    /// its entry in the other direction.
    pub open spec fn inserted(self, entity: Entity, net_id: NetId) -> NetIdMapView {
        NetIdMapView {
            net_of: self.net_of.insert(entity.bits, net_id.0),
            entity_of: self.entity_of.insert(net_id.0, entity.bits),
        }
    }

    /// The network identity of an entity.
    pub open spec fn net_id(self, entity: Entity) -> Option<NetId> {
        if self.net_of.contains_key(entity.bits) {
            Some(NetId(self.net_of[entity.bits]))
        } else {
            None
        }
    }

    /// The entity of a network identity.
    pub open spec fn entity(self, net_id: NetId) -> Option<Entity> {
        if self.entity_of.contains_key(net_id.0) {
            Some(Entity { bits: self.entity_of[net_id.0] })
        } else {
            None
        }
    }

    /// Without an entity and the identity that it has; as before, if it has none.
    pub open spec fn without_entity(self, entity: Entity) -> NetIdMapView {
        match self.net_id(entity) {
            Some(net_id) => NetIdMapView {
                net_of: self.net_of.remove(entity.bits),
                entity_of: self.entity_of.remove(net_id.0),
            },
            None => self,
        }
    }

    /// Without an identity and the entity that has it; as before, if none has.
    pub open spec fn without_net_id(self, net_id: NetId) -> NetIdMapView {
        match self.entity(net_id) {
            Some(entity) => NetIdMapView {
                net_of: self.net_of.remove(entity.bits),
                entity_of: self.entity_of.remove(net_id.0),
            },
            None => self,
        }
    }

    /// Whether the two directions agree: each entity is the entity of its identity, and each identity
    /// the identity of its entity.
    pub open spec fn agrees(self) -> bool {
        &&& forall|e: u64| #[trigger]
            self.net_of.contains_key(e) ==> self.entity_of.contains_key(self.net_of[e])
                && self.entity_of[self.net_of[e]] == e
        &&& forall|n: u128| #[trigger]
            self.entity_of.contains_key(n) ==> self.net_of.contains_key(self.entity_of[n])
                && self.net_of[self.entity_of[n]] == n
    }
}

impl View for NetIdMap {
    type V = NetIdMapView;

    closed spec fn view(&self) -> NetIdMapView {
        NetIdMapView { net_of: net_ids(self.ent_to_net), entity_of: entities(self.net_to_ent) }
    }
}

impl Clone for NetIdMap {
    fn clone(&self) -> (copy: NetIdMap)
        ensures
            copy@ == self@,
    {
        NetIdMap { ent_to_net: self.ent_to_net.clone(), net_to_ent: self.net_to_ent.clone() }
    }
}

impl Default for NetIdMap {
    fn default() -> (map: NetIdMap)
        ensures
            map@ == NetIdMapView::empty(),
    {
        let map = NetIdMap { ent_to_net: EntityTable::empty(), net_to_ent: NetTable::empty() };
        assert(map@.net_of =~= NetIdMapView::empty().net_of);
        assert(map@.entity_of =~= NetIdMapView::empty().entity_of);
        map
    }
}

impl NetIdMap {
    /// Gives an entity an identity.
    pub fn insert(&mut self, entity: Entity, net_id: NetId)
        ensures
            final(self)@ == old(self)@.inserted(entity, net_id),
    {
        self.ent_to_net.insert(entity.bits, net_id.0);
        self.net_to_ent.insert(net_id.0, entity.bits);
    }

    /// Removes an entity, and returns the identity that it had.
    pub fn remove_entity(&mut self, entity: Entity) -> (net_id: Option<NetId>)
        ensures
            net_id == old(self)@.net_id(entity),
            final(self)@ == old(self)@.without_entity(entity),
    {
        if let Some(net_id) = self.ent_to_net.remove(entity.bits) {
            self.net_to_ent.remove(net_id);
            Some(NetId(net_id))
        } else {
            assert(self@.net_of =~= old(self)@.net_of);
            None
        }
    }

    /// Removes an identity, and returns the entity that had it.
    pub fn remove_net_id(&mut self, net_id: NetId) -> (entity: Option<Entity>)
        ensures
            entity == old(self)@.entity(net_id),
            final(self)@ == old(self)@.without_net_id(net_id),
    {
        if let Some(bits) = self.net_to_ent.remove(net_id.0) {
            self.ent_to_net.remove(bits);
            Some(Entity { bits })
        } else {
            assert(self@.entity_of =~= old(self)@.entity_of);
            None
        }
    }

    /// The entity that has an identity.
    pub fn get_entity(&self, net_id: NetId) -> (entity: Option<Entity>)
        ensures
            entity == self@.entity(net_id),
    {
        match self.net_to_ent.get(net_id.0) {
            Some(bits) => Some(Entity { bits }),
            None => None,
        }
    }

    /// The identity that an entity has.
    pub fn get_net_id(&self, entity: Entity) -> (net_id: Option<NetId>)
        ensures
            net_id == self@.net_id(entity),
    {
        match self.ent_to_net.get(entity.bits) {
            Some(value) => Some(NetId(value)),
            None => None,
        }
    }
}

/// After an insertion the entity has the identity and the identity has the entity, and no other
/// entity's or identity's answer changes.
pub proof fn law_insert_then_get(map: NetIdMapView, entity: Entity, net_id: NetId, other: Entity, other_id: NetId)
    ensures
        map.inserted(entity, net_id).net_id(entity) == Some(net_id),
        map.inserted(entity, net_id).entity(net_id) == Some(entity),
        other != entity ==> map.inserted(entity, net_id).net_id(other) == map.net_id(other),
        other_id != net_id ==> map.inserted(entity, net_id).entity(other_id) == map.entity(other_id),
{
}

/// A removed entity has no identity any more, and the identity that it had has no entity; no other
/// answer changes.
pub proof fn law_remove_then_get(map: NetIdMapView, entity: Entity, other: Entity, other_id: NetId)
    ensures
        map.without_entity(entity).net_id(entity) is None,
        map.net_id(entity) matches Some(net_id) ==> map.without_entity(entity).entity(net_id) is None,
        other != entity ==> map.without_entity(entity).net_id(other) == map.net_id(other),
        map.net_id(entity) != Some(other_id) ==> map.without_entity(entity).entity(other_id) == map.entity(
            other_id,
        ),
{
}

/// A removed identity has no entity any more, and the entity that it had has no identity; no other
/// answer changes.
pub proof fn law_remove_net_id_then_get(map: NetIdMapView, net_id: NetId, other: Entity, other_id: NetId)
    ensures
        map.without_net_id(net_id).entity(net_id) is None,
        map.entity(net_id) matches Some(entity) ==> map.without_net_id(net_id).net_id(entity) is None,
        other_id != net_id ==> map.without_net_id(net_id).entity(other_id) == map.entity(other_id),
        map.entity(net_id) != Some(other) ==> map.without_net_id(net_id).net_id(other) == map.net_id(
            other,
        ),
{
}

/// The directions of a map in which nothing has an identity agree. They keep agreeing when a pair is
/// inserted exactly if neither its entity nor its identity was known, or they were paired already.
/// Removing anything never breaks the agreement.
pub proof fn law_directions_agree(map: NetIdMapView, entity: Entity, net_id: NetId)
    ensures
        NetIdMapView::empty().agrees(),
        map.agrees() ==> (map.inserted(entity, net_id).agrees() <==> {
            ||| map.net_id(entity) is None && map.entity(net_id) is None
            ||| map.net_id(entity) == Some(net_id) && map.entity(net_id) == Some(entity)
        }),
        map.agrees() ==> map.without_entity(entity).agrees(),
        map.agrees() ==> map.without_net_id(net_id).agrees(),
{
    let later = map.inserted(entity, net_id);
    if map.agrees() && later.agrees() {
        if map.net_of.contains_key(entity.bits) {
            assert(later.entity_of.contains_key(map.net_of[entity.bits]));
        }
        if map.entity_of.contains_key(net_id.0) {
            assert(later.net_of.contains_key(map.entity_of[net_id.0]));
        }
    }
    if map.net_id(entity) == Some(net_id) && map.entity(net_id) == Some(entity) {
        assert(later.net_of =~= map.net_of);
        assert(later.entity_of =~= map.entity_of);
    }
}

/// Removing undoes inserting: for an entity and an identity that were both unknown, removing either
/// gives back the map as it was.
pub proof fn law_remove_undoes_insert(map: NetIdMapView, entity: Entity, net_id: NetId)
    requires
        map.net_id(entity) is None,
        map.entity(net_id) is None,
    ensures
        map.inserted(entity, net_id).without_entity(entity) == map,
        map.inserted(entity, net_id).without_net_id(net_id) == map,
{
    let both = map.inserted(entity, net_id);
    assert(both.without_entity(entity).net_of =~= map.net_of);
    assert(both.without_entity(entity).entity_of =~= map.entity_of);
    assert(both.without_net_id(net_id).net_of =~= map.net_of);
    assert(both.without_net_id(net_id).entity_of =~= map.entity_of);
}

/// In a map whose directions agree it makes no difference whether a pair is removed by its entity or
/// by its identity.
pub proof fn law_either_removal(map: NetIdMapView, entity: Entity, net_id: NetId)
    requires
        map.agrees(),
        map.net_id(entity) == Some(net_id),
    ensures
        map.entity(net_id) == Some(entity),
        map.without_entity(entity) == map.without_net_id(net_id),
{
    assert(map.net_of.contains_key(entity.bits));
}

/// In a new map nothing is found.
pub proof fn law_nothing_in_a_new_map(entity: Entity, net_id: NetId)
    ensures
        NetIdMapView::empty().net_id(entity) is None,
        NetIdMapView::empty().entity(net_id) is None,
{
}

} // verus!
