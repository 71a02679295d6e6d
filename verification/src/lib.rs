//! An index over per-crate static-analysis snapshots.
//!
//! Each compiled crate is described by one snapshot that numbers the crates
//! it depends on with small, snapshot-private integers.  The registry stores
//! one record per snapshot and resolves crate-local identifiers across
//! snapshot boundaries to the definition records they name.

pub mod context;
pub mod kratedb;
pub mod rls_data;
pub mod table;
