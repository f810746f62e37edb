use vstd::prelude::*;

verus! {

/// Tells whether `id` carries the version and variant bits of a random
/// (version 4, RFC 9562 variant) UUID in its 128-bit big-endian form.
pub open spec fn is_random_uuid(id: u128) -> bool {
    &&& (id >> 76u128) & 0xfu128 == 4
    &&& (id >> 62u128) & 0x3u128 == 2
}

/// A fresh identifier from `uuid::Uuid::new_v4`, as its 128-bit value
/// (`Uuid::as_u128`). The bytes come from the operating system's random
/// generator; the crate's source shows that it masks in the version and
/// variant bits, which is all that is claimed of the result.
#[verifier::external_body]
pub(crate) fn new_id() -> (id: u128)
    ensures
        is_random_uuid(id),
{
    uuid::Uuid::new_v4().as_u128()
}

} // verus!
