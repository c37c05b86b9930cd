//! Parameters of the chain.

pub mod chainhash;
