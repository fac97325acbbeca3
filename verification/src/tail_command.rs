//! Shows the last records of a dataset.

use vstd::prelude::*;

use crate::ids::DatasetID;

verus! {

/// Queries through `Q` and writes what comes out as `O` says.
#[derive(Debug)]
pub struct TailCommand<Q, O> {
    query_svc: Q,
    dataset_id: DatasetID,
    num_records: u64,
    output_cfg: O,
}

impl<Q, O> TailCommand<Q, O> {
    pub closed spec fn service(&self) -> Q {
        self.query_svc
    }

    pub closed spec fn dataset(&self) -> DatasetID {
        self.dataset_id
    }

    pub closed spec fn limit(&self) -> u64 {
        self.num_records
    }

    pub closed spec fn output(&self) -> O {
        self.output_cfg
    }

    pub fn new(query_svc: Q, dataset_id: DatasetID, num_records: u64, output_cfg: O) -> (r: Self)
        ensures
            r.service() == query_svc,
            r.dataset() == dataset_id,
            r.limit() == num_records,
            r.output() == output_cfg,
    {
        TailCommand { query_svc, dataset_id, num_records, output_cfg }
    }

    pub fn query_svc(&self) -> (r: &Q)
        ensures
            *r == self.service(),
    {
        &self.query_svc
    }

    pub fn output_cfg(&self) -> (r: &O)
        ensures
            *r == self.output(),
    {
        &self.output_cfg
    }

    /// What to ask for: the dataset, and how many of its last records.
    pub fn request(&self) -> (r: (&DatasetID, u64))
        ensures
            *r.0 == self.dataset(),
            r.1 == self.limit(),
    {
        (&self.dataset_id, self.num_records)
    }
}

} // verus!
