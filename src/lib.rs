//! Batch auditing of URL lists: report file names, run directories,
//! audit command lines, and the per-line decisions of a batch run.

pub mod text;
pub mod digest;
pub mod filename;
pub mod timestamp;
pub mod layout;
pub mod config;
pub mod audit;
pub mod batch;
