//! Universally unique identifiers, which are those of `ulid`.

use vstd::prelude::*;

use ulid::Ulid;

verus! {

/// A universally unique identifier.
#[verifier::external_type_specification]
#[verifier::external_body]
pub struct ExUlid(Ulid);

/// The value of an identifier.
pub uninterp spec fn ulid_value(id: Ulid) -> u128;

/// `Ulid`'s constructor: the identifier with the given value.
#[verifier::external_body]
pub(crate) fn ulid_of(value: u128) -> (id: Ulid)
    ensures
        ulid_value(id) == value,
{
    Ulid(value)
}

/// `Ulid`'s field: the value of an identifier.
#[verifier::external_body]
pub(crate) fn value_of(id: Ulid) -> (value: u128)
    ensures
        value == ulid_value(id),
{
    id.0
}

/// `Ulid::new`: a new identifier. Nothing is said of its value, which is made of the time and of
/// chance.
#[verifier::external_body]
pub(crate) fn new_ulid() -> Ulid {
    Ulid::new()
}

} // verus!
