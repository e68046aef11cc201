//! The decisions of the storage engine's block devices that the control
//! plane relies on: how a device's URI is read, what a nexus answers to
//! the requests made of it, and what the null device does with I/O.

pub mod loopback;
pub mod nexus;
pub mod null_ng;
