//! Reconstructs the lineages of version records held in a flat table and
//! plans how each lineage is replayed as version-control history.
pub mod archive;
pub mod engine;
pub mod intent;
pub mod ledger;
pub mod lineage;
pub mod text;
pub mod timestamp;
