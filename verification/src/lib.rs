//! In-memory backend core for a biography-writing assistant.
//!
//! The crate keeps users and their biography projects in concurrent
//! key-value stores, wraps every result in a uniform response envelope,
//! and exposes one handler per API operation.

pub mod entities;
pub mod envelope;
pub mod handlers;
pub mod laws;
pub mod store;
