//! Writing new records to a dataset.

pub mod builder;
pub mod schema;
pub mod write;
pub mod writer;
