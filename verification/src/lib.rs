//! A claim registry: identified accounts assert, revoke and transfer ownership
//! of opaque byte-string claims, each anchored to a logical timestamp.
//!
//! The registry is a deterministic state machine. Its abstract state and the
//! three operations are defined in [`model`]. [`claim`] decides, from the
//! record that a claim has, the transition that an operation makes it take;
//! [`store`] holds the ownership records; [`ledger`] carries the transitions
//! out on the store and keeps the log of events. [`laws`] proves what holds
//! of every sequence of operations.
//!
//! The registry verifies no signature and keeps no clock: it is handed the
//! caller's identity and the current time with each request.

pub mod types;
pub mod model;
pub mod claim;
pub mod store;
pub mod ledger;
pub mod laws;

pub use crate::ledger::Pallet;
pub use crate::types::{AccountId, BlockNumber, Error, Event, OwnershipRecord};
