//! The ledger: what is persisted of each resource, and how it changes.

pub mod definitions;
pub mod gateway;
pub mod sequencer;
pub mod transaction;
pub mod volume;
