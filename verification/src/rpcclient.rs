//! The RPC client: configuration, errors and the transport's decisions.

pub mod client;
pub mod connection;
pub mod constants;
pub mod error;
pub mod guarantees;
pub mod infrastructure;
pub mod model;
pub mod notify;
