//! A local full-text index over a vault of plain-text notes.
//!
//! The scanner's rules decide which files become documents, the engine
//! writes them into an SQLite store and answers ranked queries, and the
//! session layer guards against use before the store is opened.

pub mod engine;
pub mod query;
pub mod ranking;
pub mod scan;
pub mod session;
pub mod store;
