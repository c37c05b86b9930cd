//! Core of a JSON-RPC 1.0 client for a Decred node.
//!
//! The crate holds the decisions of the client and none of its I/O: how
//! requests are framed and numbered, how they wait their turn for the socket,
//! how inbound messages are told apart and matched with the request they
//! answer, and how subscriptions are restored after a reconnection. A driver
//! owns the sockets and the tasks; it feeds events to a [`rpcclient::client::Client`]
//! and performs what the client answers.

pub mod chaincfg;
pub mod dcrjson;
pub mod dcrutil;
pub mod rpcclient;
