use jumpy::net_id::{Entity, NetId, NetIdMap};
use ulid::Ulid;

fn entity(bits: u64) -> Entity {
    Entity { bits }
}

#[test]
fn new_ids_differ() {
    assert_ne!(NetId::new(), NetId::new());
}

#[test]
fn ids_hold_their_value() {
    assert_eq!(NetId::from(Ulid(17)), NetId(17));
}

#[test]
fn insert_is_found_both_ways() {
    let mut map = NetIdMap::default();
    assert_eq!(map.get_entity(NetId(1)), None);
    assert_eq!(map.get_net_id(entity(10)), None);
    map.insert(entity(10), NetId(1));
    map.insert(entity(20), NetId(2));
    assert_eq!(map.get_entity(NetId(1)), Some(entity(10)));
    assert_eq!(map.get_net_id(entity(10)), Some(NetId(1)));
    assert_eq!(map.get_entity(NetId(2)), Some(entity(20)));
}

#[test]
fn removing_an_entity_removes_its_id() {
    let mut map = NetIdMap::default();
    map.insert(entity(10), NetId(1));
    map.insert(entity(20), NetId(2));
    assert_eq!(map.remove_entity(entity(10)), Some(NetId(1)));
    assert_eq!(map.remove_entity(entity(10)), None);
    assert_eq!(map.get_entity(NetId(1)), None);
    assert_eq!(map.get_net_id(entity(10)), None);
    assert_eq!(map.get_net_id(entity(20)), Some(NetId(2)));
}

#[test]
fn removing_an_id_removes_its_entity() {
    let mut map = NetIdMap::default();
    map.insert(entity(10), NetId(1));
    map.insert(entity(20), NetId(2));
    assert_eq!(map.remove_net_id(NetId(2)), Some(entity(20)));
    assert_eq!(map.remove_net_id(NetId(2)), None);
    assert_eq!(map.get_net_id(entity(20)), None);
    assert_eq!(map.get_entity(NetId(1)), Some(entity(10)));
}

#[test]
fn replaced_pairs_stay_in_the_other_direction() {
    let mut map = NetIdMap::default();
    map.insert(entity(10), NetId(1));
    map.insert(entity(10), NetId(2));
    assert_eq!(map.get_net_id(entity(10)), Some(NetId(2)));
    assert_eq!(map.get_entity(NetId(1)), Some(entity(10)));
    assert_eq!(map.remove_net_id(NetId(1)), Some(entity(10)));
    assert_eq!(map.get_net_id(entity(10)), None);
    assert_eq!(map.get_entity(NetId(2)), Some(entity(10)));
}

#[test]
fn a_pair_that_is_there_can_be_inserted_again() {
    let mut map = NetIdMap::default();
    map.insert(entity(10), NetId(1));
    map.insert(entity(10), NetId(1));
    assert_eq!(map.get_net_id(entity(10)), Some(NetId(1)));
    assert_eq!(map.remove_entity(entity(10)), Some(NetId(1)));
    assert_eq!(map.get_entity(NetId(1)), None);
}

#[test]
fn clones_are_independent() {
    let mut map = NetIdMap::default();
    map.insert(entity(10), NetId(1));
    let copy = map.clone();
    map.remove_entity(entity(10));
    assert_eq!(copy.get_net_id(entity(10)), Some(NetId(1)));
    assert_eq!(copy.get_entity(NetId(1)), Some(entity(10)));
    assert_eq!(map.get_net_id(entity(10)), None);
}

#[test]
fn either_removal_gives_the_same() {
    let mut by_entity = NetIdMap::default();
    by_entity.insert(entity(10), NetId(1));
    by_entity.insert(entity(20), NetId(2));
    let mut by_id = by_entity.clone();
    by_entity.remove_entity(entity(10));
    by_id.remove_net_id(NetId(1));
    for map in [&by_entity, &by_id] {
        assert_eq!(map.get_net_id(entity(10)), None);
        assert_eq!(map.get_entity(NetId(1)), None);
        assert_eq!(map.get_net_id(entity(20)), Some(NetId(2)));
        assert_eq!(map.get_entity(NetId(2)), Some(entity(20)));
    }
}
