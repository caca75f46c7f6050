//! Core of a two-way bookmark synchronisation engine: the record model,
//! reserved-root aliasing, validation of incoming records into mirror rows,
//! and the shaping of outgoing records.

pub mod bookmarks;
pub mod error;
pub mod finalize;
pub mod incoming;
pub mod merge_tree;
pub mod observation;
pub mod origin;
pub mod outgoing;
pub mod record;
pub mod schema;
pub mod text;
pub mod tombstone;
pub mod tree;
pub mod types;
pub mod urls;
pub mod visits;
