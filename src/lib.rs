//! Command-line resolution for a terminal Gopher client, and the
//! Gopher item types it classifies.
pub mod config;
pub mod encoding;
pub mod item_type;
pub mod text;
pub mod args;
pub mod laws;
