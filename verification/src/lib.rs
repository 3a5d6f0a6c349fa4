//! A validating conversion layer for Ethereum chain data.
//!
//! External, loosely typed block, transaction and withdrawal records — the
//! shape a JSON-RPC client library hands out — are mapped into strict
//! canonical types. The work is in the validation: picking the one
//! transaction variant a record encodes, enforcing that every field that
//! variant mandates is present, and narrowing wide integers into fixed-width
//! fields without ever truncating silently.

pub mod access_list;
pub mod block;
pub mod err;
pub mod fixed;
pub mod transaction;
pub mod uint;
pub mod withdrawal;
