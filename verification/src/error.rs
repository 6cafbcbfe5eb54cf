//! The two domain errors. Both are recoverable and request-scoped; a failed
//! operation always leaves the store untouched.

use vstd::prelude::*;

verus! {

/// `Conflict`: a create found another record with the same title.
/// `NotFound`: no record with the given id exists.
#[derive(Clone, Copy, Debug, PartialEq, Eq, Structural)]
pub enum TodoError {
    Conflict,
    NotFound,
}

} // verus!
