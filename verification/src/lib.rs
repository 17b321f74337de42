//! Model of a deliberately crashing HTTP fixture server.
//!
//! The server registers a single route and responds to every request on it
//! by raising a fault instead of producing a response. This crate holds the
//! request-handling and startup decisions; the network loop that carries
//! them out lives outside.

pub mod route;
pub mod startup;
