//! What a task executor is asked to do for a flow.

use vstd::prelude::*;

use crate::error::InternalError;
use crate::flow::types::{
    CompactionRule, DatasetFlowType, FlowConfigurationSnapshot, FlowKey, FlowResult,
    HardCompactionDataset, LogicalPlan, Probe, ResetDataset, SystemFlowType, TaskOutcome,
    UpdateDataset,
};

verus! {

/// How long a garbage collection stays busy, in seconds.
pub const GC_BUSY_SECS: u64 = 20;

/// The flow is a reset without the configuration that says where to.
pub open spec fn reset_unconfigured(
    flow_key: FlowKey,
    snapshot: Option<FlowConfigurationSnapshot>,
) -> bool {
    &&& flow_key matches FlowKey::Dataset(key) && key.flow_type is Reset
    &&& !(snapshot matches Some(s) && s is Reset)
}

/// The plan for a flow under a configuration. A snapshot of another kind of rule
/// than the flow looks for counts as none.
pub open spec fn logical_plan(
    flow_key: FlowKey,
    snapshot: Option<FlowConfigurationSnapshot>,
) -> LogicalPlan {
    match flow_key {
        FlowKey::Dataset(key) => match key.flow_type {
            DatasetFlowType::Ingest | DatasetFlowType::ExecuteTransform => LogicalPlan::UpdateDataset(
                UpdateDataset {
                    dataset_id: key.dataset_id,
                    fetch_uncacheable: match snapshot {
                        Some(FlowConfigurationSnapshot::Ingest(rule)) => rule.fetch_uncacheable,
                        _ => false,
                    },
                },
            ),
            DatasetFlowType::HardCompaction => LogicalPlan::HardCompactionDataset(
                match snapshot {
                    Some(FlowConfigurationSnapshot::Compaction(rule)) => HardCompactionDataset {
                        dataset_id: key.dataset_id,
                        max_slice_size: rule.spec_max_slice_size(),
                        max_slice_records: rule.spec_max_slice_records(),
                        keep_metadata_only: rule is MetadataOnly,
                    },
                    _ => HardCompactionDataset {
                        dataset_id: key.dataset_id,
                        max_slice_size: None,
                        max_slice_records: None,
                        keep_metadata_only: false,
                    },
                },
            ),
            DatasetFlowType::Reset => LogicalPlan::Reset(
                ResetDataset {
                    dataset_id: key.dataset_id,
                    new_head_hash: snapshot->0->Reset_0.new_head_hash,
                    old_head_hash: snapshot->0->Reset_0.old_head_hash,
                    recursive: snapshot->0->Reset_0.recursive,
                },
            ),
        },
        FlowKey::System(_) => LogicalPlan::Probe(
            Probe {
                dataset_id: None,
                busy_time: Some(GC_BUSY_SECS),
                end_with_outcome: Some(TaskOutcome::Success(FlowResult::Empty)),
            },
        ),
    }
}

/// Creates task logical plan that corresponds to template
pub fn make_task_logical_plan(
    flow_key: &FlowKey,
    maybe_config_snapshot: Option<&FlowConfigurationSnapshot>,
) -> (r: Result<LogicalPlan, InternalError>)
    ensures
        ({
            let snapshot = match maybe_config_snapshot {
                Some(s) => Some(*s),
                None => None,
            };
            match r {
                Ok(plan) => !reset_unconfigured(*flow_key, snapshot) && plan == logical_plan(
                    *flow_key,
                    snapshot,
                ),
                Err(e) => reset_unconfigured(*flow_key, snapshot) && e.says(
                    "Reset flow cannot be called without configuration"@,
                ),
            }
        }),
        r matches Ok(LogicalPlan::UpdateDataset(plan)) ==> (plan.fetch_uncacheable <==> (
        maybe_config_snapshot matches Some(FlowConfigurationSnapshot::Ingest(rule))
            && rule.fetch_uncacheable)),
{
    match flow_key {
        FlowKey::Dataset(flow_key) => match flow_key.flow_type {
            DatasetFlowType::Ingest | DatasetFlowType::ExecuteTransform => {
                let fetch_uncacheable = match maybe_config_snapshot {
                    Some(FlowConfigurationSnapshot::Ingest(ingest_rule)) => {
                        ingest_rule.fetch_uncacheable
                    },
                    _ => false,
                };
                Ok(
                    LogicalPlan::UpdateDataset(
                        UpdateDataset {
                            dataset_id: flow_key.dataset_id.clone(),
                            fetch_uncacheable,
                        },
                    ),
                )
            },
            DatasetFlowType::HardCompaction => {
                let mut max_slice_size: Option<u64> = None;
                let mut max_slice_records: Option<u64> = None;
                let mut keep_metadata_only = false;

                if let Some(FlowConfigurationSnapshot::Compaction(compaction_rule)) =
                    maybe_config_snapshot {
                    max_slice_size = compaction_rule.max_slice_size();
                    max_slice_records = compaction_rule.max_slice_records();
                    keep_metadata_only = match compaction_rule {
                        CompactionRule::MetadataOnly(_) => true,
                        CompactionRule::Full(_) => false,
                    };
                }
                Ok(
                    LogicalPlan::HardCompactionDataset(
                        HardCompactionDataset {
                            dataset_id: flow_key.dataset_id.clone(),
                            max_slice_size,
                            max_slice_records,
                            keep_metadata_only,
                        },
                    ),
                )
            },
            DatasetFlowType::Reset => {
                if let Some(FlowConfigurationSnapshot::Reset(reset_rule)) = maybe_config_snapshot {
                    return Ok(
                        LogicalPlan::Reset(
                            ResetDataset {
                                dataset_id: flow_key.dataset_id.clone(),
                                new_head_hash: reset_rule.new_head_hash.clone(),
                                old_head_hash: reset_rule.old_head_hash.clone(),
                                recursive: reset_rule.recursive,
                            },
                        ),
                    );
                }
                Err(InternalError::bail("Reset flow cannot be called without configuration"))
            },
        },
        FlowKey::System(flow_key) => match flow_key.flow_type {
            SystemFlowType::GC => Ok(
                LogicalPlan::Probe(
                    Probe {
                        dataset_id: None,
                        busy_time: Some(GC_BUSY_SECS),
                        end_with_outcome: Some(TaskOutcome::Success(FlowResult::Empty)),
                    },
                ),
            ),
        },
    }
}

/// The plan concerns the dataset of the flow, and no other.
pub proof fn law_plan_is_about_the_flow(
    flow_key: FlowKey,
    snapshot: Option<FlowConfigurationSnapshot>,
)
    ensures
        match (flow_key, logical_plan(flow_key, snapshot)) {
            (FlowKey::Dataset(key), LogicalPlan::UpdateDataset(p)) => p.dataset_id
                == key.dataset_id,
            (FlowKey::Dataset(key), LogicalPlan::HardCompactionDataset(p)) => p.dataset_id
                == key.dataset_id,
            (FlowKey::Dataset(key), LogicalPlan::Reset(p)) => p.dataset_id == key.dataset_id,
            (FlowKey::Dataset(_), LogicalPlan::Probe(_)) => false,
            (FlowKey::System(_), LogicalPlan::Probe(p)) => p.dataset_id is None,
            (FlowKey::System(_), _) => false,
        },
{
}

/// A flow that updates a dataset, be it by ingest or by a transform, asks for an update.
/// It fetches what cannot be cached exactly where an ingest rule says so.
pub proof fn law_update_fetches_what_the_rule_says(
    flow_key: FlowKey,
    snapshot: Option<FlowConfigurationSnapshot>,
)
    requires
        flow_key matches FlowKey::Dataset(key) && (key.flow_type is Ingest
            || key.flow_type is ExecuteTransform),
    ensures
        !reset_unconfigured(flow_key, snapshot),
        logical_plan(flow_key, snapshot) matches LogicalPlan::UpdateDataset(plan) && {
            &&& plan.dataset_id == flow_key->Dataset_0.dataset_id
            &&& snapshot matches Some(FlowConfigurationSnapshot::Ingest(rule))
                ==> plan.fetch_uncacheable == rule.fetch_uncacheable
            &&& plan.fetch_uncacheable ==> (snapshot matches Some(
                FlowConfigurationSnapshot::Ingest(_),
            ))
        },
{
}

/// A hard compaction asks for a compaction within the limits of a full rule, or for one
/// that keeps metadata only, without limits, by a rule that says so. Without a rule of its
/// own it has no limits, and keeps data.
pub proof fn law_compaction_keeps_to_its_rule(
    flow_key: FlowKey,
    snapshot: Option<FlowConfigurationSnapshot>,
)
    requires
        flow_key matches FlowKey::Dataset(key) && key.flow_type is HardCompaction,
    ensures
        !reset_unconfigured(flow_key, snapshot),
        logical_plan(flow_key, snapshot) matches LogicalPlan::HardCompactionDataset(plan) && {
            &&& plan.dataset_id == flow_key->Dataset_0.dataset_id
            &&& snapshot matches Some(
                FlowConfigurationSnapshot::Compaction(CompactionRule::Full(rule)),
            ) ==> plan.max_slice_size == Some(rule.max_slice_size) && plan.max_slice_records
                == Some(rule.max_slice_records) && !plan.keep_metadata_only
            &&& snapshot matches Some(
                FlowConfigurationSnapshot::Compaction(CompactionRule::MetadataOnly(_)),
            ) ==> plan.max_slice_size is None && plan.max_slice_records is None
                && plan.keep_metadata_only
            &&& !(snapshot matches Some(FlowConfigurationSnapshot::Compaction(_)))
                ==> plan.max_slice_size is None && plan.max_slice_records is None
                && !plan.keep_metadata_only
        },
{
}

/// A reset asks for the heads that its rule names, and goes on recursively where the rule
/// says so. It is the only flow that cannot do without a rule of its own.
pub proof fn law_reset_goes_where_its_rule_says(
    flow_key: FlowKey,
    snapshot: Option<FlowConfigurationSnapshot>,
)
    ensures
        reset_unconfigured(flow_key, snapshot) ==> (flow_key matches FlowKey::Dataset(key)
            && key.flow_type is Reset),
        (flow_key matches FlowKey::Dataset(key) && key.flow_type is Reset) ==> {
            &&& reset_unconfigured(flow_key, snapshot) <==> !(snapshot matches Some(
                FlowConfigurationSnapshot::Reset(_),
            ))
            &&& snapshot matches Some(FlowConfigurationSnapshot::Reset(rule)) ==> (logical_plan(
                flow_key,
                snapshot,
            ) matches LogicalPlan::Reset(plan) && plan.dataset_id
                == flow_key->Dataset_0.dataset_id && plan.new_head_hash == rule.new_head_hash
                && plan.old_head_hash == rule.old_head_hash && plan.recursive == rule.recursive)
        },
{
}

/// A system flow keeps an executor busy for twenty seconds, and succeeds with nothing.
pub proof fn law_system_flow_only_probes(
    flow_key: FlowKey,
    snapshot: Option<FlowConfigurationSnapshot>,
)
    requires
        flow_key is System,
    ensures
        !reset_unconfigured(flow_key, snapshot),
        logical_plan(flow_key, snapshot) matches LogicalPlan::Probe(plan) && plan.dataset_id is None
            && plan.busy_time == Some(20u64) && (plan.end_with_outcome matches Some(
            TaskOutcome::Success(FlowResult::Empty),
        )),
{
}

} // verus!
