//! Read-only query layer over a hierarchical IBC key-value store: validated
//! path identifiers, typed host paths, and the handlers that turn one
//! query into store lookups.

pub mod channel;
pub mod charset;
pub mod client;
pub mod connection;
pub mod decimal;
pub mod error;
pub mod grammar;
pub mod host;
pub mod order;
pub mod path;
pub mod service;
pub mod status;
pub mod store;
pub mod text;
pub mod trace;
pub mod types;
