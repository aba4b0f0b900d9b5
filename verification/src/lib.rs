//! Verified core of an ODBC command-line client.
//!
//! The crate covers the three parts of the tool where real decisions are
//! made: the closed error taxonomy with its stable process exit codes, the
//! connection-credential resolver with its fixed precedence policy and
//! optional write-back to a remote secret store, and the bounded-memory
//! batched result-stream encoder. Argument parsing, logging and the actual
//! network and driver calls live outside the library and hand it plain
//! values.

pub mod decimal;
pub mod error;
pub mod plan;
pub mod resolver;
pub mod store;
pub mod stream;
