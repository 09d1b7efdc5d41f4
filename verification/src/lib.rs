//! Verified core of a job lifecycle tracker: a record store with
//! deterministic address derivation and the four one-way lifecycle
//! operations (create, complete, mark payment, cancel), each with an exact
//! contract over the record model.

pub mod addr;
pub mod bytes;
pub mod engine;
pub mod errors;
pub mod events;
pub mod laws;
pub mod record;
pub mod store;
