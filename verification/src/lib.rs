//! An in-memory book catalog shared by many long-lived duplex sessions.
//!
//! The catalog is a single ordered collection of records. A command issued
//! by one session is applied to the collection as one step; a command that
//! changed the collection has the whole collection, as the change left it,
//! sent to every registered session, and the issuing session always gets
//! exactly one reply of its own.
//!
//! The crate holds the rules and proves them: the record store, the session
//! registry, the command dispatcher, the wire format, and the life cycle of
//! a session with its liveness monitor. Sockets, timers and scheduling are
//! the caller's. The store and the registry are plain values behind `&mut`:
//! a caller that shares them between tasks guards each with a gate of its
//! own, takes the store first (`router::apply`), lets it go, and only then
//! takes the registry (`router::route`).

pub mod ident;
pub mod json;
pub mod laws;
pub mod message;
pub mod record;
pub mod registry;
pub mod router;
pub mod service;
pub mod session;
pub mod store;
pub mod wire;
