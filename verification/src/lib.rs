//! A connection lifecycle and query-execution proxy for a single relational
//! database session, written without any I/O of its own.
//!
//! The host performs the database work; this crate decides what that work is,
//! in which order it may happen, and what each outcome means for the caller.

pub mod connection;
pub mod error;
pub mod laws;
pub mod model;
pub mod outcome;
pub mod proxy;
pub mod statement;
