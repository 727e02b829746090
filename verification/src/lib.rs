//! The data layer of the meet-os service: the records it keeps in SurrealDB,
//! the statements it sends there, and the decisions it takes on what comes back.
//!
//! Every statement is built here as plain data (`Query`, `Create`), with a
//! contract that pins down its text and its bindings; the connection itself
//! is driven by the service around this library.

pub mod records;
pub mod query;
pub mod clock;
pub mod statements;
pub mod events;
pub mod counters;
pub mod setup;
pub mod walk;
pub mod laws;
