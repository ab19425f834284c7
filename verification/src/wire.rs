//! Messages as they go over the network.
//!
//! A message is the number of its kind followed by its content, in the format of `postcard`.

use vstd::prelude::*;

verus! {

/// What identifies the content of an asset: a hash over it.
pub type ContentId = [u8; 32];

/// A number in seven-bit groups, lowest group first, each but the last with its high bit set.
pub open spec fn varint(n: nat) -> Seq<u8>
    decreases n,
{
    if n < 128 {
        seq![n as u8]
    } else {
        seq![(n % 128 + 128) as u8] + varint(n / 128)
    }
}

/// Content identifiers, one behind the other.
pub open spec fn ids_joined(ids: Seq<ContentId>) -> Seq<u8>
    decreases ids.len(),
{
    if ids.len() == 0 {
        Seq::empty()
    } else {
        ids_joined(ids.drop_last()) + ids.last()@
    }
}

/// Strings, one behind the other, each as its length in bytes and its UTF-8 bytes.
pub open spec fn strings_joined(strings: Seq<Seq<char>>) -> Seq<u8>
    decreases strings.len(),
{
    if strings.len() == 0 {
        Seq::empty()
    } else {
        let bytes = vstd::utf8::encode_utf8(strings.last());
        strings_joined(strings.drop_last()) + varint(bytes.len()) + bytes
    }
}

/// A kind and a list of content identifiers as bytes.
pub open spec fn id_list_bytes(kind: u32, ids: Seq<ContentId>) -> Seq<u8> {
    varint(kind as nat) + varint(ids.len()) + ids_joined(ids)
}

/// A kind and a list of strings as bytes.
pub open spec fn string_list_bytes(kind: u32, strings: Seq<Seq<char>>) -> Seq<u8> {
    varint(kind as nat) + varint(strings.len()) + strings_joined(strings)
}

/// What `postcard::from_bytes` makes of bytes as a kind and a list of content identifiers.
pub uninterp spec fn id_list_parts(bytes: Seq<u8>) -> Option<(u32, Seq<ContentId>)>;

/// What `postcard::from_bytes` makes of bytes as a kind and a list of strings.
pub uninterp spec fn string_list_parts(bytes: Seq<u8>) -> Option<(u32, Seq<Seq<char>>)>;

/// The characters of strings.
pub open spec fn texts(strings: Seq<String>) -> Seq<Seq<char>> {
    strings.map_values(|s: String| s@)
}

/// `postcard::to_allocvec` on a kind and a list of content identifiers, which never fails: the bytes
/// are in the wire format of `postcard`, and `postcard::from_bytes` reads the same values back from
/// them.
#[verifier::external_body]
pub(crate) fn write_id_list(kind: u32, ids: &Vec<ContentId>) -> (bytes: Vec<u8>)
    ensures
        bytes@ == id_list_bytes(kind, ids@),
        id_list_parts(bytes@) == Some((kind, ids@)),
{
    postcard::to_allocvec(&(kind, ids)).unwrap()
}

/// `postcard::from_bytes` for a kind and a list of content identifiers: what it reads, or `None` for
/// its errors, depends on the bytes alone.
#[verifier::external_body]
pub(crate) fn read_id_list(bytes: &Vec<u8>) -> (parts: Option<(u32, Vec<ContentId>)>)
    ensures
        parts is Some <==> id_list_parts(bytes@) is Some,
        parts matches Some(read) ==> id_list_parts(bytes@) == Some((read.0, read.1@)),
{
    postcard::from_bytes::<(u32, Vec<ContentId>)>(bytes).ok()
}

/// `postcard::to_allocvec` on a kind and a list of strings, which never fails: the bytes are in
/// the wire format of `postcard`, and `postcard::from_bytes` reads the same values back from them.
#[verifier::external_body]
pub(crate) fn write_string_list(kind: u32, strings: &Vec<String>) -> (bytes: Vec<u8>)
    ensures
        bytes@ == string_list_bytes(kind, texts(strings@)),
        string_list_parts(bytes@) == Some((kind, texts(strings@))),
{
    postcard::to_allocvec(&(kind, strings)).unwrap()
}

/// `postcard::from_bytes` for a kind and a list of strings: what it reads, or `None` for its errors,
/// depends on the bytes alone.
#[verifier::external_body]
pub(crate) fn read_string_list(bytes: &Vec<u8>) -> (parts: Option<(u32, Vec<String>)>)
    ensures
        parts is Some <==> string_list_parts(bytes@) is Some,
        parts matches Some(read) ==> string_list_parts(bytes@) == Some((read.0, texts(read.1@))),
{
    postcard::from_bytes::<(u32, Vec<String>)>(bytes).ok()
}

} // verus!
