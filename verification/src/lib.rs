//! An in-memory, insertion-ordered store of todo records with the business
//! rules around it: title uniqueness on create, partial-update merging,
//! timestamp stamping, and offset/limit pagination, together with the
//! response envelopes that a service built on the store returns.

mod clock;
pub mod error;
mod ids;
pub mod laws;
pub mod response;
pub mod store;
pub mod todo;
