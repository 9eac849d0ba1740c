use vstd::prelude::*;

verus! {

/// Whether a 128-bit identity, read as the sixteen bytes of a UUID with
/// the first byte on top, is marked as a random one: version 4 in the
/// high half of the seventh byte, the RFC 4122 variant in the two top
/// bits of the ninth.
pub open spec fn is_random_uuid(id: u128) -> bool {
    &&& (id >> 76) & 0xf == 4
    &&& (id >> 62) & 0x3 == 2
}

/// Whether an identity carries the marks of a random UUID.
pub fn has_random_marks(id: u128) -> (marked: bool)
    ensures
        marked == is_random_uuid(id),
{
    (id >> 76) & 0xf == 4 && (id >> 62) & 0x3 == 2
}

/// A new identity from `uuid::Uuid::new_v4`, as the number that its
/// sixteen bytes spell with the first byte on top. The bytes are random
/// but for the marks that `Uuid::from_random_bytes` sets: version 4 and
/// the RFC 4122 variant. Nothing is claimed of two results being
/// different.
#[verifier::external_body]
pub(crate) fn new_uuid() -> (id: u128)
    ensures
        is_random_uuid(id),
{
    u128::from_be_bytes(*uuid::Uuid::new_v4().as_bytes())
}

} // verus!
