//! Datasets: their summaries, how events are committed to them, and what their
//! metadata says.

pub mod commit;
pub mod commit_session;
pub mod dataset_impl;
pub mod dataset_metadata;
pub mod summary;
