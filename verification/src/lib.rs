//! Owned handles for native threads, one operating-system thread per handle.
//!
//! The crate makes no system call. The embedding program owns the three native
//! primitives (create, join, yield), calls them, and reports here what they
//! returned: a status code, a thread identifier, a result box. Everything that is
//! decided about a thread is decided in this crate: what runs on the new thread,
//! which status codes count as success, when a handle comes into being, and what a
//! join or a cleanup hands back.

pub mod error;
pub mod laws;
pub mod thread;
