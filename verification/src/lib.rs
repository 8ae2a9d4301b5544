//! A terminal client for servers that speak the Redis serialization protocol:
//! the wire decoder, and the widgets and event wiring of the interface.

pub mod client;
pub mod errors;
pub mod text;
pub mod tui;
