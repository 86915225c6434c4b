//! A relational adapter over an in-memory word-processing document: the
//! document's tables and cells are projected on demand into two virtual
//! tables keyed by a content hash, and updates keyed by that hash are
//! written back into the live document model.
pub mod model;
pub mod rows;
pub mod hashing;
pub mod borders;
pub mod tables;
pub mod cell;
pub mod db;
pub mod laws;
pub mod swagger;
