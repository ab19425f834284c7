//! Choosing the maps of a match: on the menu page, through the network, or for a test.

use vstd::prelude::*;

use crate::wire::{id_list_bytes, id_list_parts, read_id_list, write_id_list, ContentId};

verus! {

/// The maps of a match, by the handles of their assets.
pub struct MapPool {
    pub maps: Vec<u128>,
}

impl View for MapPool {
    type V = Seq<u128>;

    open spec fn view(&self) -> Seq<u128> {
        self.maps@
    }
}

impl MapPool {
    /// A pool of one map.
    pub fn from_single_map(map: u128) -> (pool: MapPool)
        ensures
            pool@ == seq![map],
    {
        MapPool { maps: vec![map] }
    }

    /// The same pool once more.
    pub fn copied(&self) -> (pool: MapPool)
        ensures
            pool@ == self@,
    {
        MapPool { maps: self.maps.clone() }
    }
}

/// The maps of a match, by what identifies them on every peer.
pub struct MapPoolNetwork {
    pub maps: Vec<ContentId>,
}

impl View for MapPoolNetwork {
    type V = Seq<ContentId>;

    open spec fn view(&self) -> Seq<ContentId> {
        self.maps@
    }
}

/// Network message that may be sent when selecting a map.
pub enum MapSelectMessage {
    /// A player has selected these maps.
    SelectMap(MapPoolNetwork),
}

/// The number by which a message that selects maps is known.
pub const SELECT_MAP: u32 = 0;

/// The maps that the bytes of a message select, if they are those of a map select message.
pub open spec fn selection(bytes: Seq<u8>) -> Option<Seq<ContentId>> {
    match id_list_parts(bytes) {
        Some((kind, maps)) => if kind == SELECT_MAP {
            Some(maps)
        } else {
            None
        },
        None => None,
    }
}

impl MapSelectMessage {
    /// The maps that the message selects.
    pub open spec fn maps(self) -> Seq<ContentId> {
        match self {
            MapSelectMessage::SelectMap(pool) => pool@,
        }
    }

    /// The bytes of the message.
    pub fn to_bytes(&self) -> (bytes: Vec<u8>)
        ensures
            bytes@ == id_list_bytes(SELECT_MAP, self.maps()),
            selection(bytes@) == Some(self.maps()),
    {
        match self {
            MapSelectMessage::SelectMap(pool) => write_id_list(SELECT_MAP, &pool.maps),
        }
    }

    /// Reads a message, if the bytes are those of one.
    pub fn from_bytes(bytes: &Vec<u8>) -> (message: Option<MapSelectMessage>)
        ensures
            message is Some <==> selection(bytes@) is Some,
            message matches Some(read) ==> selection(bytes@) == Some(read.maps()),
    {
        MapSelectMessage::from_parts(read_id_list(bytes))
    }

    /// The message that a kind and a list of content identifiers make up: there is one kind of
    /// message.
    pub fn from_parts(parts: Option<(u32, Vec<ContentId>)>) -> (message: Option<MapSelectMessage>)
        ensures
            message is Some <==> (parts matches Some((kind, _)) && kind == SELECT_MAP),
            message matches Some(read) ==> read.maps() == (parts->0).1@,
    {
        match parts {
            Some((kind, maps)) => {
                if kind == SELECT_MAP {
                    Some(MapSelectMessage::SelectMap(MapPoolNetwork { maps }))
                } else {
                    None
                }
            },
            None => None,
        }
    }
}

/// The first selection among messages. Those that are no map select messages are ignored.
pub open spec fn first_selection(datas: Seq<Seq<u8>>) -> Option<Seq<ContentId>>
    decreases datas.len(),
{
    if datas.len() == 0 {
        None
    } else if selection(datas[0]) is Some {
        selection(datas[0])
    } else {
        first_selection(datas.drop_first())
    }
}

/// The contents of messages, without their senders.
pub open spec fn contents(datas: Seq<(u32, Vec<u8>)>) -> Seq<Seq<u8>> {
    datas.map_values(|data: (u32, Vec<u8>)| data.1@)
}

/// The maps that another peer has selected, going by the messages that were received, each with its
/// sender.
pub fn handle_match_setup_messages(datas: &Vec<(u32, Vec<u8>)>) -> (pool: Option<MapPoolNetwork>)
    ensures
        pool is Some <==> first_selection(contents(datas@)) is Some,
        pool matches Some(maps) ==> first_selection(contents(datas@)) == Some(maps@),
{
    let ghost all = contents(datas@);
    assert(all.skip(0) =~= all);
    let mut i: usize = 0;
    while i < datas.len()
        invariant
            i <= datas@.len(),
            all == contents(datas@),
            first_selection(all) == first_selection(all.skip(i as int)),
        decreases datas@.len() - i,
    {
        let ghost rest = all.skip(i as int);
        assert(rest[0] == datas@[i as int].1@);
        if let Some(MapSelectMessage::SelectMap(maps)) = MapSelectMessage::from_bytes(&datas[i].1) {
            return Some(maps);
        }
        assert(rest.drop_first() =~= all.skip(i + 1));
        i = i + 1;
    }
    None
}

/// The first map select message among those received decides, whatever else was received before
/// and after it.
pub proof fn law_first_selection_decides(datas: Seq<Seq<u8>>, i: int)
    requires
        0 <= i < datas.len(),
        selection(datas[i]) is Some,
        forall|k: int| 0 <= k < i ==> selection(#[trigger] datas[k]) is None,
    ensures
        first_selection(datas) == selection(datas[i]),
    decreases datas.len(),
{
    if i > 0 {
        assert(selection(datas[0]) is None);
        let rest = datas.drop_first();
        assert forall|k: int| 0 <= k < i - 1 implies selection(#[trigger] rest[k]) is None by {
            assert(rest[k] == datas[k + 1]);
        }
        law_first_selection_decides(rest, i - 1);
    }
}

/// Where no message is understood nothing is selected.
pub proof fn law_no_selection(datas: Seq<Seq<u8>>)
    requires
        forall|k: int| 0 <= k < datas.len() ==> selection(#[trigger] datas[k]) is None,
    ensures
        first_selection(datas) is None,
    decreases datas.len(),
{
    if datas.len() > 0 {
        assert(selection(datas[0]) is None);
        let rest = datas.drop_first();
        assert forall|k: int| 0 <= k < rest.len() implies selection(#[trigger] rest[k]) is None by {
            assert(rest[k] == datas[k + 1]);
        }
        law_no_selection(rest);
    }
}

/// A map asset.
pub struct MapEntry {
    pub handle: u128,
    pub name: String,
}

/// A map asset's handle and the characters of its name.
pub struct MapEntryView {
    pub handle: u128,
    pub name: Seq<char>,
}

impl View for MapEntry {
    type V = MapEntryView;

    open spec fn view(&self) -> MapEntryView {
        MapEntryView { handle: self.handle, name: self.name@ }
    }
}

/// The views of map assets.
pub open spec fn entries(maps: Seq<MapEntry>) -> Seq<MapEntryView> {
    maps.map_values(|map: MapEntry| map@)
}

/// The first map of a name.
pub open spec fn first_named(maps: Seq<MapEntryView>, name: Seq<char>) -> Option<u128>
    decreases maps.len(),
{
    if maps.len() == 0 {
        None
    } else if maps[0].name == name {
        Some(maps[0].handle)
    } else {
        first_named(maps.drop_first(), name)
    }
}

/// What is known of the map to test: its name, and the maps among which it is looked for.
pub struct TestMap {
    pub name: String,
    /// The stable maps of the game itself.
    pub core: Vec<MapEntry>,
    /// The maps of each asset pack.
    pub packs: Vec<Vec<MapEntry>>,
}

impl TestMap {
    /// The first map of the name that is looked for: among those of the game itself, or else among
    /// those of the packs in their order.
    pub open spec fn found(self) -> Option<u128> {
        match first_named(entries(self.core@), self.name@) {
            Some(map) => Some(map),
            None => first_in_packs(self.packs@, self.name@),
        }
    }

    /// Looks for the map.
    pub fn find(&self) -> (map: Option<u128>)
        ensures
            map == self.found(),
    {
        if let Some(map) = find_named(&self.core, &self.name) {
            return Some(map);
        }
        let ghost all = self.packs@;
        assert(all.skip(0) =~= all);
        let mut i: usize = 0;
        while i < self.packs.len()
            invariant
                i <= self.packs@.len(),
                all == self.packs@,
                first_named(entries(self.core@), self.name@) is None,
                first_in_packs(all, self.name@) == first_in_packs(all.skip(i as int), self.name@),
            decreases self.packs@.len() - i,
        {
            let ghost rest = all.skip(i as int);
            assert(rest[0] == all[i as int]);
            if let Some(map) = find_named(&self.packs[i], &self.name) {
                return Some(map);
            }
            assert(rest.drop_first() =~= all.skip(i + 1));
            i = i + 1;
        }
        None
    }
}

/// The first map of a name in asset packs.
pub open spec fn first_in_packs(packs: Seq<Vec<MapEntry>>, name: Seq<char>) -> Option<u128>
    decreases packs.len(),
{
    if packs.len() == 0 {
        None
    } else {
        match first_named(entries(packs[0]@), name) {
            Some(map) => Some(map),
            None => first_in_packs(packs.drop_first(), name),
        }
    }
}

/// Looks for the first map of a name.
pub fn find_named(maps: &Vec<MapEntry>, name: &String) -> (map: Option<u128>)
    ensures
        map == first_named(entries(maps@), name@),
{
    let ghost all = entries(maps@);
    assert(all.skip(0) =~= all);
    let mut i: usize = 0;
    while i < maps.len()
        invariant
            i <= maps@.len(),
            all == entries(maps@),
            first_named(all, name@) == first_named(all.skip(i as int), name@),
        decreases maps@.len() - i,
    {
        let ghost rest = all.skip(i as int);
        assert(rest[0] == maps@[i as int]@);
        if maps[i].name == *name {
            return Some(maps[i].handle);
        }
        assert(rest.drop_first() =~= all.skip(i + 1));
        i = i + 1;
    }
    None
}

/// Bytes are a map select message exactly if they are a list of content identifiers of the kind of
/// these messages, and then these are the maps, all of them and in their order.
pub proof fn law_map_select_messages(bytes: Seq<u8>)
    ensures
        selection(bytes) is Some <==> (id_list_parts(bytes) matches Some((kind, _)) && kind == 0),
        selection(bytes) matches Some(maps) ==> id_list_parts(bytes) == Some((0u32, maps)),
{
}

/// What messages say does not depend on who sent them.
pub proof fn law_senders_do_not_matter(datas: Seq<(u32, Vec<u8>)>, i: int)
    requires
        0 <= i < datas.len(),
    ensures
        contents(datas).len() == datas.len(),
        contents(datas)[i] == datas[i].1@,
{
}

/// The first map of a name is the one that is found, and none is found exactly if none has the name.
pub proof fn law_first_map_of_a_name(maps: Seq<MapEntryView>, name: Seq<char>, i: int)
    ensures
        0 <= i < maps.len() && maps[i].name == name && (forall|j: int|
            0 <= j < i ==> (#[trigger] maps[j]).name != name) ==> first_named(maps, name) == Some(
            maps[i].handle,
        ),
        first_named(maps, name) is None <==> forall|j: int|
            0 <= j < maps.len() ==> (#[trigger] maps[j]).name != name,
    decreases maps.len(),
{
    if maps.len() > 0 {
        let rest = maps.drop_first();
        law_first_map_of_a_name(rest, name, i - 1);
        if maps[0].name != name {
            if 0 <= i < maps.len() && maps[i].name == name && (forall|j: int|
                0 <= j < i ==> (#[trigger] maps[j]).name != name) {
                assert(i > 0);
                assert(rest[i - 1] == maps[i]);
                assert forall|j: int| 0 <= j < i - 1 implies (#[trigger] rest[j]).name != name by {
                    assert(rest[j] == maps[j + 1]);
                }
            }
            if forall|j: int| 0 <= j < rest.len() ==> (#[trigger] rest[j]).name != name {
                assert forall|j: int| 0 <= j < maps.len() implies (#[trigger] maps[j]).name != name by {
                    if j > 0 {
                        assert(rest[j - 1] == maps[j]);
                    }
                }
            }
            if forall|j: int| 0 <= j < maps.len() ==> (#[trigger] maps[j]).name != name {
                assert forall|j: int| 0 <= j < rest.len() implies (#[trigger] rest[j]).name != name by {
                    assert(rest[j] == maps[j + 1]);
                }
            }
        }
    }
}

/// Map assets are seen with their own handles and names.
pub proof fn law_entries(maps: Seq<MapEntry>, i: int)
    requires
        0 <= i < maps.len(),
    ensures
        entries(maps).len() == maps.len(),
        entries(maps)[i].handle == maps[i].handle,
        entries(maps)[i].name == maps[i].name@,
{
}

proof fn lemma_first_pack(packs: Seq<Vec<MapEntry>>, name: Seq<char>, p: int)
    requires
        0 <= p < packs.len(),
        first_named(entries(packs[p]@), name) is Some,
        forall|q: int| 0 <= q < p ==> first_named(entries((#[trigger] packs[q])@), name) is None,
    ensures
        first_in_packs(packs, name) == first_named(entries(packs[p]@), name),
    decreases packs.len(),
{
    if p > 0 {
        let rest = packs.drop_first();
        assert(first_named(entries(packs[0]@), name) is None);
        assert(rest[p - 1] == packs[p]);
        assert forall|q: int| 0 <= q < p - 1 implies first_named(
            entries((#[trigger] rest[q])@),
            name,
        ) is None by {
            assert(rest[q] == packs[q + 1]);
        }
        lemma_first_pack(rest, name, p - 1);
    }
}

proof fn lemma_no_pack(packs: Seq<Vec<MapEntry>>, name: Seq<char>)
    requires
        forall|q: int|
            0 <= q < packs.len() ==> first_named(entries((#[trigger] packs[q])@), name) is None,
    ensures
        first_in_packs(packs, name) is None,
    decreases packs.len(),
{
    if packs.len() > 0 {
        let rest = packs.drop_first();
        assert(first_named(entries(packs[0]@), name) is None);
        assert forall|q: int| 0 <= q < rest.len() implies first_named(
            entries((#[trigger] rest[q])@),
            name,
        ) is None by {
            assert(rest[q] == packs[q + 1]);
        }
        lemma_no_pack(rest, name);
    }
}

/// Whether the map at an index is the first of a name.
pub open spec fn is_first_of(maps: Seq<MapEntry>, name: Seq<char>, i: int) -> bool {
    &&& 0 <= i < maps.len()
    &&& maps[i].name@ == name
    &&& forall|j: int| 0 <= j < i ==> (#[trigger] maps[j]).name@ != name
}

/// Whether no map has a name.
pub open spec fn none_is(maps: Seq<MapEntry>, name: Seq<char>) -> bool {
    forall|j: int| 0 <= j < maps.len() ==> (#[trigger] maps[j]).name@ != name
}

proof fn lemma_entries_named(maps: Seq<MapEntry>, name: Seq<char>, i: int)
    ensures
        is_first_of(maps, name, i) ==> first_named(entries(maps), name) == Some(maps[i].handle),
        none_is(maps, name) <==> first_named(entries(maps), name) is None,
{
    let all = entries(maps);
    law_first_map_of_a_name(all, name, i);
    assert forall|j: int| 0 <= j < maps.len() implies (#[trigger] all[j]).name == maps[j].name@ by {}
    if is_first_of(maps, name, i) {
        assert forall|j: int| 0 <= j < i implies (#[trigger] all[j]).name != name by {
            assert(maps[j].name@ != name);
        }
    }
    if none_is(maps, name) {
        assert forall|j: int| 0 <= j < all.len() implies (#[trigger] all[j]).name != name by {
            assert(maps[j].name@ != name);
        }
    } else {
        let j = choose|j: int| 0 <= j < maps.len() && (#[trigger] maps[j]).name@ == name;
        assert(all[j].name == name);
    }
}

/// The map to test is the first of its name among the game's own maps; if none of them has the name,
/// it is the first in the first pack that has one of the name; and if no pack has, there is none.
pub proof fn law_test_map_is_the_first_of_its_name(test: TestMap, p: int, i: int)
    ensures
        is_first_of(test.core@, test.name@, i) ==> test.found() == Some(test.core@[i].handle),
        none_is(test.core@, test.name@) && 0 <= p < test.packs@.len() && is_first_of(
            test.packs@[p]@,
            test.name@,
            i,
        ) && (forall|q: int| 0 <= q < p ==> none_is((#[trigger] test.packs@[q])@, test.name@))
            ==> test.found() == Some(test.packs@[p]@[i].handle),
        none_is(test.core@, test.name@) && (forall|q: int|
            0 <= q < test.packs@.len() ==> none_is((#[trigger] test.packs@[q])@, test.name@))
            ==> test.found() is None,
{
    let name = test.name@;
    let packs = test.packs@;
    lemma_entries_named(test.core@, name, i);
    assert forall|q: int| 0 <= q < packs.len() implies none_is((#[trigger] packs[q])@, name)
        == (first_named(entries(packs[q]@), name) is None) by {
        lemma_entries_named(packs[q]@, name, 0);
    }
    if 0 <= p < packs.len() && is_first_of(packs[p]@, name, i) && (forall|q: int|
        0 <= q < p ==> none_is((#[trigger] packs[q])@, name)) {
        lemma_entries_named(packs[p]@, name, i);
        lemma_first_pack(packs, name, p);
    }
    if forall|q: int| 0 <= q < packs.len() ==> none_is((#[trigger] packs[q])@, name) {
        lemma_no_pack(packs, name);
    }
}

/// The maps that a message selects are those of its pool, all of them and in their order.
pub proof fn law_maps_of_a_message(pool: MapPoolNetwork)
    ensures
        MapSelectMessage::SelectMap(pool).maps() == pool.maps@,
{
}

} // verus!
