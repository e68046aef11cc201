//! Control plane of a block-storage platform: the ledger of resource
//! specifications, the per-resource operation sequencer, the transaction
//! protocol every resource kind follows, and the decisions of the adapters
//! and of the storage engine that sit around that ledger.

pub mod bdev;
pub mod csi;
pub mod message_bus;
pub mod models;
pub mod reconciler;
pub mod rest;
pub mod store;
pub mod string_map;
pub mod text;
pub mod trusted;
