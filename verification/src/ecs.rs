//! Entities and the bit sets that tell which of them have a component.
//!
//! The storage is that of `bones_ecs`; this module says what its operations do and builds the query
//! that the hydration systems share.

use vstd::prelude::*;

use bones_ecs::bitset::{BitSet, BitSetVec};
use bones_ecs::entities::Entities;

verus! {

/// An entity: its index, by which components are stored, and the generation of that index.
#[derive(Clone, Copy, Debug, PartialEq, Eq, Structural)]
pub struct EntityId {
    pub index: u32,
    pub generation: u32,
}

/// The number of bits that the bit sets of component storages have, which is more than enough for
/// the index of every entity.
pub const BITSET_BITS: usize = 524288;

/// The set of entity indices that a component storage keeps.
#[verifier::external_type_specification]
#[verifier::external_body]
pub struct ExBitSetVec(BitSetVec);

/// The living entities of a world.
#[verifier::external_type_specification]
#[verifier::external_body]
pub struct ExEntities(Entities);

/// The indices whose bit is set.
pub uninterp spec fn members(bits: BitSetVec) -> Set<int>;

/// The number of bits that a set was made with.
pub uninterp spec fn capacity(bits: BitSetVec) -> nat;

/// The living entities, each with its index and generation, in the order of their indices.
pub uninterp spec fn alive(entities: Entities) -> Seq<(u32, u32)>;

/// `BitSet::bit_len`: how many bits a set has.
#[verifier::external_body]
fn bit_len(bits: &BitSetVec) -> (len: usize)
    ensures
        len == capacity(*bits),
{
    bits.0.bit_len()
}

/// `BitSetVec::clone`: the copy has the same bits.
#[verifier::external_body]
fn copy_bits(bits: &BitSetVec) -> (copy: BitSetVec)
    ensures
        members(copy) == members(*bits),
        capacity(copy) == capacity(*bits),
{
    bits.clone()
}

/// `BitSet::bit_not`: every bit of the set is flipped.
#[verifier::external_body]
fn bit_not(bits: &mut BitSetVec)
    ensures
        capacity(*final(bits)) == capacity(*old(bits)),
        forall|i: int| #[trigger]
            members(*final(bits)).contains(i) <==> 0 <= i < capacity(*old(bits)) && !members(
                *old(bits),
            ).contains(i),
{
    bits.0.bit_not();
}

/// `BitSet::bit_and`: only the bits that are set in both sets stay. The sets have to be of the same
/// size, and no bit of either lies beyond it.
#[verifier::external_body]
fn bit_and(bits: &mut BitSetVec, other: &BitSetVec)
    requires
        capacity(*old(bits)) == capacity(*other),
    ensures
        capacity(*final(bits)) == capacity(*old(bits)),
        members(*final(bits)) == members(*old(bits)).intersect(members(*other)),
        forall|i: int| #[trigger]
            members(*other).contains(i) ==> 0 <= i < capacity(*final(bits)),
{
    bits.0.bit_and(&other.0);
}

/// `Entities::iter_with_bitset`: the living entities whose bit is set, in the order of their
/// indices, of which no two are equal. The iterator tests one bit beyond the highest index that was
/// ever given out, so the set has to reach as far as the sets of the storages do.
#[verifier::external_body]
fn iter_with_bitset(entities: &Entities, bits: &BitSetVec) -> (found: Vec<(u32, u32)>)
    requires
        capacity(*bits) >= BITSET_BITS,
    ensures
        found@ == alive(*entities).filter(|e: (u32, u32)| members(*bits).contains(e.0 as int)),
        forall|i: int, j: int| 0 <= i < j < found@.len() ==> (#[trigger] found@[i]).0 < (#[trigger] found@[j]).0,
{
    entities.iter_with_bitset(bits).map(|entity| (entity.index(), entity.generation())).collect()
}

/// Whether two bit sets can be joined and walked: they have the same size and are as
/// large as the sets of the storages.
pub open spec fn sets_fit(a: BitSetVec, b: BitSetVec) -> bool {
    capacity(a) == capacity(b) && capacity(b) >= BITSET_BITS
}

/// The entities among `living` that want something and have not got it yet.
pub open spec fn lacking(living: Seq<(u32, u32)>, have: Set<int>, want: Set<int>) -> Seq<(u32, u32)> {
    living.filter(|e: (u32, u32)| want.contains(e.0 as int) && !have.contains(e.0 as int))
}

/// The plain pair that stands for an entity.
pub open spec fn pair_of(entity: EntityId) -> (u32, u32) {
    (entity.index, entity.generation)
}

/// Tests whether two bit sets can be joined and walked.
pub fn check_sets(a: &BitSetVec, b: &BitSetVec) -> (fit: bool)
    ensures
        fit == sets_fit(*a, *b),
{
    bit_len(a) == bit_len(b) && bit_len(b) >= BITSET_BITS
}

/// Finds the living entities that are in `want` but not in `have`, in the order of their indices.
pub fn find_lacking(entities: &Entities, have: &BitSetVec, want: &BitSetVec) -> (found: Vec<EntityId>)
    requires
        sets_fit(*have, *want),
    ensures
        found@.map_values(|e: EntityId| pair_of(e)) == lacking(
            alive(*entities),
            members(*have),
            members(*want),
        ),
        forall|i: int, j: int|
            0 <= i < j < found@.len() ==> (#[trigger] found@[i]).index < (#[trigger] found@[j]).index,
{
    let mut bits = copy_bits(have);
    bit_not(&mut bits);
    bit_and(&mut bits, want);
    let pairs = iter_with_bitset(entities, &bits);
    proof {
        let by_bits = |e: (u32, u32)| members(bits).contains(e.0 as int);
        let by_sets = |e: (u32, u32)|
            members(*want).contains(e.0 as int) && !members(*have).contains(e.0 as int);
        assert(by_bits =~= by_sets);
    }
    let mut found: Vec<EntityId> = Vec::new();
    let mut i: usize = 0;
    while i < pairs.len()
        invariant
            i <= pairs@.len(),
            found@.len() == i,
            forall|k: int| 0 <= k < i ==> pair_of(#[trigger] found@[k]) == pairs@[k],
        decreases pairs@.len() - i,
    {
        let (index, generation) = pairs[i];
        found.push(EntityId { index, generation });
        i = i + 1;
    }
    assert(found@.map_values(|e: EntityId| pair_of(e)) =~= pairs@);
    assert forall|a: int, b: int| 0 <= a < b < found@.len() implies (#[trigger] found@[a]).index < (
    #[trigger] found@[b]).index by {
        assert(pair_of(found@[a]) == pairs@[a]);
        assert(pair_of(found@[b]) == pairs@[b]);
    }
    found
}

/// Like [`find_lacking`], but finds nothing out, `None`, if the bit sets cannot be joined.
pub fn find_lacking_checked(entities: &Entities, have: &BitSetVec, want: &BitSetVec) -> (found: Option<
    Vec<EntityId>,
>)
    ensures
        found is Some <==> sets_fit(*have, *want),
        found matches Some(list) ==> list@.map_values(|e: EntityId| pair_of(e)) == lacking(
            alive(*entities),
            members(*have),
            members(*want),
        ),
        found matches Some(list) ==> forall|i: int, j: int|
            0 <= i < j < list@.len() ==> (#[trigger] list@[i]).index < (#[trigger] list@[j]).index,
{
    if check_sets(have, want) {
        Some(find_lacking(entities, have, want))
    } else {
        None
    }
}

/// What has been given out is not found again, and nothing else is found because of it.
pub proof fn law_given_is_not_lacking(
    living: Seq<(u32, u32)>,
    have: Set<int>,
    given: Set<int>,
    want: Set<int>,
    entity: (u32, u32),
)
    requires
        lacking(living, have.union(given), want).contains(entity),
    ensures
        !given.contains(entity.0 as int),
        lacking(living, have, want).contains(entity),
{
    let later = lacking(living, have.union(given), want);
    let by_later = |e: (u32, u32)|
        want.contains(e.0 as int) && !have.union(given).contains(e.0 as int);
    let by_now = |e: (u32, u32)| want.contains(e.0 as int) && !have.contains(e.0 as int);
    let k = choose|k: int| 0 <= k < later.len() && later[k] == entity;
    living.lemma_filter_pred(by_later, k);
    living.lemma_filter_contains_rev(by_later, entity);
    let i = choose|i: int| 0 <= i < living.len() && living[i] == entity;
    assert(by_now(living[i]));
    living.lemma_filter_contains(by_now, i);
}

/// What is found is handled once: after everything that was lacking has been given out, nothing
/// lacks any more.
pub proof fn law_lacking_once(living: Seq<(u32, u32)>, have: Set<int>, given: Set<int>, want: Set<int>)
    requires
        forall|e: (u32, u32)| #[trigger] lacking(living, have, want).contains(e) ==> given.contains(e.0 as int),
    ensures
        lacking(living, have.union(given), want).len() == 0,
{
    let later = lacking(living, have.union(given), want);
    if later.len() > 0 {
        assert(later.contains(later[0]));
        law_given_is_not_lacking(living, have, given, want, later[0]);
    }
}

/// An entity is found exactly if it lives, wants something and has not got it, and what is found
/// comes in the order of the living.
pub proof fn law_lacking(
    living: Seq<(u32, u32)>,
    have: Set<int>,
    want: Set<int>,
    entity: (u32, u32),
)
    ensures
        lacking(living, have, want).contains(entity) <==> living.contains(entity) && want.contains(
            entity.0 as int,
        ) && !have.contains(entity.0 as int),
        lacking(living.push(entity), have, want) == (if want.contains(entity.0 as int)
            && !have.contains(entity.0 as int) {
            lacking(living, have, want).push(entity)
        } else {
            lacking(living, have, want)
        }),
        lacking(Seq::empty(), have, want).len() == 0,
{
    let pred = |e: (u32, u32)| want.contains(e.0 as int) && !have.contains(e.0 as int);
    let found = lacking(living, have, want);
    if living.contains(entity) && pred(entity) {
        let i = choose|i: int| 0 <= i < living.len() && living[i] == entity;
        living.lemma_filter_contains(pred, i);
    }
    if found.contains(entity) {
        let k = choose|k: int| 0 <= k < found.len() && found[k] == entity;
        living.lemma_filter_pred(pred, k);
        living.lemma_filter_contains_rev(pred, entity);
    }
    reveal(Seq::filter);
    assert(living.push(entity).drop_last() =~= living);
}

/// The pair that stands for an entity tells its index and its generation.
pub proof fn law_pair_tells_the_entity(entity: EntityId)
    ensures
        pair_of(entity).0 == entity.index,
        pair_of(entity).1 == entity.generation,
{
}

} // verus!
