//! Bootstrap logic of a storage node: monotonic time and instants, and the
//! resolution of a node's configuration from flags, a configuration tree and
//! host facts.

pub mod time;
pub mod text;
pub mod config;
pub mod sizing;
pub mod node;
pub mod engine;
