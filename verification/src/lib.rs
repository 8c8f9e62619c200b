//! A minimal GraphQL-style gateway core: per-connection authentication
//! context propagation over two transports, a synchronous request/response
//! channel and a long-lived streaming channel.
//!
//! An opaque bearer token is extracted from a transport-specific location,
//! installed in a per-execution context store, and read back by resolver
//! logic. The subscription path authenticates once, at stream-construction
//! time, before any item is emitted.

pub mod auth;
pub mod context;
pub mod extract;
pub mod resolver;
pub mod session;
pub mod stream;
