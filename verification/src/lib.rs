//! Script execution bridge for a transactional graph database.
//!
//! A caller submits source text; the script runs inside an embedded
//! interpreter session against a single database transaction, reaching the
//! store only through a fixed surface of host functions.  This crate holds
//! the verified bridge logic between the two worlds:
//!
//! * [`json`] and [`native`]: the two value models and their well-formedness.
//! * [`num`]: decimal encoding and parsing of 64-bit integers, and the
//!   pinned integer reading of interpreter numbers.
//! * [`marshal`]: conversion between JSON values and interpreter values.
//! * [`extract`]: typed, position-validated readers of script-call arguments.
//! * [`registry`]: the host-function surface as one declarative table, with
//!   argument extraction into typed transaction requests.
//! * [`render`]: rendering of transaction outcomes into host-function
//!   return values.
//! * [`errors`]: the error taxonomy and its classifiers.
//! * [`driver`]: the load -> bind -> invoke -> commit/abort lifecycle as a
//!   state machine, with the all-or-nothing commit law.
//!
//! The interpreter itself and the persistent store are collaborators outside
//! this crate: a thin unverified runner performs their calls and feeds the
//! outcomes back into the state machine and dispatcher defined here.

pub mod driver;
pub mod errors;
pub mod extract;
pub mod json;
pub mod marshal;
pub mod native;
pub mod num;
pub mod registry;
pub mod render;
