//! Variables that datasets are configured with.

use std::collections::HashMap;

use vstd::prelude::*;

use crate::error::InternalError;

verus! {

#[derive(Debug, PartialEq, Eq)]
pub struct DatasetEnvVar {
    pub key: String,
    pub value: Vec<u8>,
    /// Set where the value is encrypted
    pub secret_nonce: Option<Vec<u8>>,
}

#[derive(Debug, PartialEq, Eq)]
pub enum DatasetEnvVarValue {
    Secret(String),
    Regular(String),
}

/// No variable has the key.
#[derive(Debug, PartialEq, Eq)]
pub struct DatasetEnvVarNotFoundError {
    pub dataset_env_var_key: String,
}

#[derive(Debug, PartialEq, Eq)]
pub enum FindDatasetEnvVarError {
    NotFound(DatasetEnvVarNotFoundError),
    Internal(InternalError),
}

/// Looks up the values of variables.
pub trait DatasetKeyValueService: Sync + Send {
    fn find_dataset_env_var_value_by_key(
        &self,
        dataset_env_var_key: &str,
        dataset_env_vars: &HashMap<String, DatasetEnvVar>,
    ) -> Result<DatasetEnvVarValue, FindDatasetEnvVarError>;
}

impl From<DatasetEnvVarNotFoundError> for FindDatasetEnvVarError {
    fn from(e: DatasetEnvVarNotFoundError) -> (r: Self) {
        FindDatasetEnvVarError::NotFound(e)
    }
}

impl vstd::std_specs::convert::FromSpecImpl<DatasetEnvVarNotFoundError> for FindDatasetEnvVarError {
    open spec fn obeys_from_spec() -> bool {
        true
    }

    open spec fn from_spec(e: DatasetEnvVarNotFoundError) -> Self {
        FindDatasetEnvVarError::NotFound(e)
    }
}

impl From<InternalError> for FindDatasetEnvVarError {
    fn from(e: InternalError) -> (r: Self) {
        FindDatasetEnvVarError::Internal(e)
    }
}

impl vstd::std_specs::convert::FromSpecImpl<InternalError> for FindDatasetEnvVarError {
    open spec fn obeys_from_spec() -> bool {
        true
    }

    open spec fn from_spec(e: InternalError) -> Self {
        FindDatasetEnvVarError::Internal(e)
    }
}

} // verus!
