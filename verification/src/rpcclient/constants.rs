//! Limits and intervals of the transport.

use vstd::prelude::*;

verus! {

/// Number of bytes in a chain hash.
pub const HASH_SIZE: usize = 32;

/// Seconds the reconnect supervisor waits between two attempts to dial.
pub const CONNECTION_RETRY_INTERVAL_SECS: u64 = 10;

/// Number of commands the send channel can hold before a submitter has to wait.
pub const SEND_BUFFER_SIZE: usize = 50;

/// Seconds between two keep-alive pings on the websocket.
pub const KEEP_ALIVE: u64 = 10;

} // verus!
