//! Generation of fresh record identifiers.

use vstd::prelude::*;

verus! {

/// Relies on uuid's Uuid::new_v4 and its Display form, which is the
/// lowercase hyphenated rendering, always 36 characters. The identifier
/// itself is random, so no more is promised of it; the registry checks
/// uniqueness against its table rather than trusting the generator.
#[verifier::external_body]
pub(crate) fn fresh_id() -> (r: String)
    ensures
        r@.len() == 36,
{
    uuid::Uuid::new_v4().to_string()
}

} // verus!
