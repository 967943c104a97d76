//! A database-agnostic query execution core.
//!
//! The crate models the layer between an application-facing query API and
//! concrete database drivers: a uniform `Queryable`-style connection state
//! machine with statement caching, timeout and health tracking; per-dialect
//! transaction and isolation-level negotiation; an executor for single
//! operations and batches with three transactional policies; and an
//! interpreter for dependency graphs of read operations that threads parent
//! record identifiers into nested child queries.
//!
//! Network I/O itself is performed by the embedding program: the connection
//! and executor types here consume plain events describing what the driver
//! returned, and decide what happens next.

pub mod cache;
pub mod connection;
pub mod engine;
pub mod error;
pub mod executor;
pub mod ident;
pub mod isolation;
pub mod pipeline;
pub mod postgres_url;
pub mod protocols;
pub mod read;
pub mod scripted;
pub mod strutil;
pub mod values;
