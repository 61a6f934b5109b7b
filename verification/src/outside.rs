//! Contracts of the functions of other crates that this library calls.

use vstd::prelude::*;

verus! {

/// `uuid::Uuid`, carried through as an opaque value.
#[verifier::external_type_specification]
#[verifier::external_body]
pub struct ExUuid(uuid::Uuid);

/// The sixteen bytes of a UUID, in the order in which it is stored.
pub uninterp spec fn uuid_octets(u: uuid::Uuid) -> [u8; 16];

/// `uuid::Uuid::into_bytes` hands out the bytes that the UUID is made of.
pub assume_specification[ uuid::Uuid::into_bytes ](u: uuid::Uuid) -> (bytes: [u8; 16])
    ensures
        bytes == uuid_octets(u),
;

/// `String::from(&str)` copies the text.
pub assume_specification<'a>[ <String as core::convert::From<&'a str>>::from ](s: &str) -> (owned:
    String)
    ensures
        owned@ == s@,
;

/// The reflexive `From` of `std` returns its argument unchanged.
pub assume_specification<Any>[ <Any as core::convert::From<Any>>::from ](value: Any) -> (same: Any)
    ensures
        same == value,
;

} // verus!
