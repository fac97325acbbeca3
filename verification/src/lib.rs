//! The decision core of a data management workspace: when flows run, what a
//! dataset's metadata chain adds up to, how new data is appended to it, and
//! how the workspace is laid out on disk.

pub mod assoc;
pub mod dataset;
pub mod env_vars;
pub mod error;
pub mod event_store;
pub mod explore;
pub mod flow;
pub mod ids;
pub mod ingest;
pub mod metadata;
pub mod object_store_builder_s3;
pub mod tail_command;
pub mod text;
pub mod time;
pub mod workspace_layout;
