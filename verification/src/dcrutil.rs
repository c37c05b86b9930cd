//! Utilities around the node's files.

pub mod app_data;
