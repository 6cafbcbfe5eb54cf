//! Generation of record identifiers, through the `uuid` crate.

use vstd::prelude::*;

verus! {

/// Relies on `uuid::Uuid::new_v4` and `Uuid`'s `Display`: a fresh random
/// version-4 UUID rendered in the hyphenated form, which is always 36
/// characters. The value is random, so nothing but its length is stated;
/// uniqueness against earlier results is collision-resistance, not a
/// guarantee.
#[verifier::external_body]
pub(crate) fn fresh_todo_id() -> (r: String)
    ensures
        r@.len() == 36,
{
    uuid::Uuid::new_v4().to_string()
}

} // verus!
