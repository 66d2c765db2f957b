//! An in-memory note service: an append-only store of note records and the
//! two request handlers that drive it, one to list every note and one to
//! create a new one.
//!
//! The store is a plain value type; a process that serves concurrent requests
//! wraps one store instance in an exclusive-access guard and holds the guard
//! only for the duration of a single `append` or `snapshot` call.

pub mod handlers;
pub mod laws;
pub mod note;
pub mod store;
