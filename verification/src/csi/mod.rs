//! The decisions of the CSI controller plugin: what it asks of the REST
//! interface, and what it makes of the answers.

pub mod client;
pub mod controller;
pub mod flows;
pub mod identity;
pub mod messages;
pub mod server;
