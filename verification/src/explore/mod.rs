//! Exploring data in notebooks.

pub mod notebook_server_impl;
pub mod token_extractor;
