//! What a successful flow starts in the datasets downstream of it.

use vstd::prelude::*;

use crate::flow::active_configs::ActiveConfigsState;
use crate::flow::types::{
    CompactionRule, CompactionRuleMetadataOnly, DatasetFlowType, DownstreamDependencyFlowPlan,
    FlowConfigurationRule, FlowConfigurationSnapshot, FlowKey, FlowKeyDataset, FlowTriggerContext,
};
use crate::ids::DatasetID;

verus! {

/// Which flows a successful flow starts downstream.
#[derive(Debug, Clone, Copy, PartialEq, Eq, Structural)]
pub enum DownstreamDependencyTriggerType {
    /// The transform of every dependent dataset that has one configured
    TriggerAllEnabledExecuteTransform,
    /// A hard compaction of every dependent dataset of the same owner
    TriggerOwnHardCompaction,
    Empty,
}

pub open spec fn trigger_type(
    flow_type: DatasetFlowType,
    snapshot: Option<FlowConfigurationSnapshot>,
) -> DownstreamDependencyTriggerType {
    match (flow_type, snapshot) {
        (
            DatasetFlowType::Ingest | DatasetFlowType::ExecuteTransform,
            _,
        ) => DownstreamDependencyTriggerType::TriggerAllEnabledExecuteTransform,
        (
            DatasetFlowType::HardCompaction,
            Some(FlowConfigurationSnapshot::Compaction(rule)),
        ) => if rule.spec_recursive() {
            DownstreamDependencyTriggerType::TriggerOwnHardCompaction
        } else {
            DownstreamDependencyTriggerType::Empty
        },
        (
            DatasetFlowType::HardCompaction,
            _,
        ) => DownstreamDependencyTriggerType::TriggerAllEnabledExecuteTransform,
        (
            DatasetFlowType::Reset,
            Some(FlowConfigurationSnapshot::Reset(rule)),
        ) => if rule.recursive {
            DownstreamDependencyTriggerType::TriggerOwnHardCompaction
        } else {
            DownstreamDependencyTriggerType::Empty
        },
        (DatasetFlowType::Reset, _) => DownstreamDependencyTriggerType::Empty,
    }
}

/// A snapshot that may be absent, by value.
pub open spec fn snapshot_value(snapshot: Option<&FlowConfigurationSnapshot>) -> Option<
    FlowConfigurationSnapshot,
> {
    match snapshot {
        Some(s) => Some(*s),
        None => None,
    }
}

pub fn classify_dependent_trigger_type(
    dataset_flow_type: DatasetFlowType,
    maybe_config_snapshot: Option<&FlowConfigurationSnapshot>,
) -> (r: DownstreamDependencyTriggerType)
    ensures
        r == trigger_type(dataset_flow_type, snapshot_value(maybe_config_snapshot)),
        dataset_flow_type is Ingest || dataset_flow_type is ExecuteTransform
            ==> r is TriggerAllEnabledExecuteTransform,
        r is TriggerOwnHardCompaction ==> dataset_flow_type is HardCompaction
            || dataset_flow_type is Reset,
{
    match dataset_flow_type {
        DatasetFlowType::Ingest | DatasetFlowType::ExecuteTransform => {
            DownstreamDependencyTriggerType::TriggerAllEnabledExecuteTransform
        },
        DatasetFlowType::HardCompaction => {
            if let Some(FlowConfigurationSnapshot::Compaction(compaction_rule)) =
                maybe_config_snapshot {
                if compaction_rule.recursive() {
                    DownstreamDependencyTriggerType::TriggerOwnHardCompaction
                } else {
                    DownstreamDependencyTriggerType::Empty
                }
            } else {
                DownstreamDependencyTriggerType::TriggerAllEnabledExecuteTransform
            }
        },
        DatasetFlowType::Reset => {
            if let Some(FlowConfigurationSnapshot::Reset(reset_rule)) = maybe_config_snapshot {
                if reset_rule.recursive {
                    return DownstreamDependencyTriggerType::TriggerOwnHardCompaction;
                }
            }
            DownstreamDependencyTriggerType::Empty
        },
    }
}

/// The transform of a dependent dataset, where it has a transform rule.
pub open spec fn transform_plan(
    datasets: Map<(Seq<char>, DatasetFlowType), FlowConfigurationRule>,
    dependent: DatasetID,
) -> Option<DownstreamDependencyFlowPlan> {
    match crate::flow::active_configs::transform_rule(
        datasets,
        dependent@,
        DatasetFlowType::ExecuteTransform,
    ) {
        Some(rule) => Some(
            DownstreamDependencyFlowPlan {
                flow_key: FlowKey::Dataset(
                    FlowKeyDataset {
                        dataset_id: dependent,
                        flow_type: DatasetFlowType::ExecuteTransform,
                    },
                ),
                flow_trigger_context: FlowTriggerContext::Batching(rule),
                maybe_config_snapshot: None,
            },
        ),
        None => None,
    }
}

/// The recursive compaction of a dependent dataset. It keeps metadata only.
pub open spec fn compaction_plan(dependent: DatasetID) -> DownstreamDependencyFlowPlan {
    DownstreamDependencyFlowPlan {
        flow_key: FlowKey::Dataset(
            FlowKeyDataset { dataset_id: dependent, flow_type: DatasetFlowType::HardCompaction },
        ),
        flow_trigger_context: FlowTriggerContext::Unconditional,
        maybe_config_snapshot: Some(
            FlowConfigurationSnapshot::Compaction(
                CompactionRule::MetadataOnly(CompactionRuleMetadataOnly { recursive: true }),
            ),
        ),
    }
}

/// The plan for one dependent dataset. `owned` says for each owner asked about
/// whether it owns the dependent dataset.
pub open spec fn dependent_plan(
    datasets: Map<(Seq<char>, DatasetFlowType), FlowConfigurationRule>,
    kind: DownstreamDependencyTriggerType,
    dependent: DatasetID,
    owned: Seq<bool>,
) -> Option<DownstreamDependencyFlowPlan> {
    match kind {
        DownstreamDependencyTriggerType::TriggerAllEnabledExecuteTransform => transform_plan(
            datasets,
            dependent,
        ),
        DownstreamDependencyTriggerType::TriggerOwnHardCompaction => if owned.contains(true) {
            Some(compaction_plan(dependent))
        } else {
            None
        },
        DownstreamDependencyTriggerType::Empty => None,
    }
}

/// The plans for all dependent datasets, in their order.
pub open spec fn downstream_plans(
    datasets: Map<(Seq<char>, DatasetFlowType), FlowConfigurationRule>,
    kind: DownstreamDependencyTriggerType,
    dependents: Seq<DatasetID>,
    ownership: Seq<Vec<bool>>,
) -> Seq<DownstreamDependencyFlowPlan>
    decreases dependents.len(),
{
    if dependents.len() == 0 {
        Seq::empty()
    } else {
        let n = dependents.len() - 1;
        let before = downstream_plans(datasets, kind, dependents.drop_last(), ownership);
        match dependent_plan(datasets, kind, dependents.last(), ownership[n]@) {
            Some(plan) => before.push(plan),
            None => before,
        }
    }
}

/// Whom to ask next about a dependent dataset after the answers so far.
pub open spec fn next_to_ask(answers: Seq<bool>, owners: int) -> Option<int> {
    if answers.contains(true) || answers.len() == owners {
        None
    } else {
        Some(answers.len() as int)
    }
}

/// The owners of the dependent datasets matter at all.
pub open spec fn owners_matter(
    flow_type: DatasetFlowType,
    snapshot: Option<FlowConfigurationSnapshot>,
    dependents: int,
) -> bool {
    dependents > 0 && trigger_type(flow_type, snapshot) is TriggerOwnHardCompaction
}

/// Whom to ask next about a dependent dataset: owners are asked in turn until
/// one of them owns it. `answers` are the answers so far.
pub fn next_owner_to_ask(answers: &Vec<bool>, owners: usize) -> (r: Option<usize>)
    requires
        answers@.len() <= owners,
    ensures
        match r {
            Some(i) => next_to_ask(answers@, owners as int) == Some(i as int),
            None => next_to_ask(answers@, owners as int) is None,
        },
{
    if owned_by_some(answers) || answers.len() == owners {
        None
    } else {
        Some(answers.len())
    }
}

fn owned_by_some(answers: &Vec<bool>) -> (r: bool)
    ensures
        r == answers@.contains(true),
{
    for i in 0..answers.len()
        invariant
            forall|j: int| 0 <= j < i ==> !(#[trigger] answers@[j]),
    {
        if answers[i] {
            assert(answers@[i as int] == true);
            return true;
        }
    }
    false
}

/// Whether the owners of the dependent datasets matter at all.
pub fn ownership_matters(
    fk_dataset: &FlowKeyDataset,
    maybe_config_snapshot: Option<&FlowConfigurationSnapshot>,
    dependent_dataset_ids: &Vec<DatasetID>,
) -> (r: bool)
    ensures
        r == owners_matter(
            fk_dataset.flow_type,
            snapshot_value(maybe_config_snapshot),
            dependent_dataset_ids@.len() as int,
        ),
{
    dependent_dataset_ids.len() > 0 && matches!(
        classify_dependent_trigger_type(fk_dataset.flow_type, maybe_config_snapshot),
        DownstreamDependencyTriggerType::TriggerOwnHardCompaction
    )
}

/// The flows to trigger downstream of a successful flow. Where owners matter,
/// `ownership` holds for each dependent dataset the answers of
/// [`next_owner_to_ask`].
pub fn make_downstream_dependencies_flow_plans(
    active_configs: &ActiveConfigsState,
    fk_dataset: &FlowKeyDataset,
    maybe_config_snapshot: Option<&FlowConfigurationSnapshot>,
    dependent_dataset_ids: &Vec<DatasetID>,
    ownership: &Vec<Vec<bool>>,
) -> (r: Vec<DownstreamDependencyFlowPlan>)
    requires
        active_configs.wf(),
        trigger_type(
            fk_dataset.flow_type,
            snapshot_value(maybe_config_snapshot),
        ) is TriggerOwnHardCompaction ==> ownership@.len() == dependent_dataset_ids@.len(),
    ensures
        r@ == downstream_plans(
            active_configs.datasets(),
            trigger_type(fk_dataset.flow_type, snapshot_value(maybe_config_snapshot)),
            dependent_dataset_ids@,
            ownership@,
        ),
{
    let mut plans: Vec<DownstreamDependencyFlowPlan> = Vec::new();
    let kind = classify_dependent_trigger_type(fk_dataset.flow_type, maybe_config_snapshot);
    for i in 0..dependent_dataset_ids.len()
        invariant
            active_configs.wf(),
            kind is TriggerOwnHardCompaction ==> ownership@.len() == dependent_dataset_ids@.len(),
            plans@ == downstream_plans(
                active_configs.datasets(),
                kind,
                dependent_dataset_ids@.take(i as int),
                ownership@,
            ),
    {
        let dataset_id = &dependent_dataset_ids[i];
        proof {
            let taken = dependent_dataset_ids@.take(i + 1);
            assert(taken.drop_last() == dependent_dataset_ids@.take(i as int));
            assert(taken.last() == *dataset_id);
        }
        match kind {
            DownstreamDependencyTriggerType::TriggerAllEnabledExecuteTransform => {
                if let Some(transform_rule) = active_configs.try_get_dataset_transform_rule(
                    dataset_id,
                    DatasetFlowType::ExecuteTransform,
                ) {
                    plans.push(
                        DownstreamDependencyFlowPlan {
                            flow_key: FlowKey::Dataset(
                                FlowKeyDataset {
                                    dataset_id: dataset_id.clone(),
                                    flow_type: DatasetFlowType::ExecuteTransform,
                                },
                            ),
                            flow_trigger_context: FlowTriggerContext::Batching(transform_rule),
                            maybe_config_snapshot: None,
                        },
                    );
                }
            },
            DownstreamDependencyTriggerType::TriggerOwnHardCompaction => {
                if owned_by_some(&ownership[i]) {
                    plans.push(
                        DownstreamDependencyFlowPlan {
                            flow_key: FlowKey::Dataset(
                                FlowKeyDataset {
                                    dataset_id: dataset_id.clone(),
                                    flow_type: DatasetFlowType::HardCompaction,
                                },
                            ),
                            flow_trigger_context: FlowTriggerContext::Unconditional,
                            // Currently we trigger Hard compaction recursively only in keep
                            // metadata only mode
                            maybe_config_snapshot: Some(
                                FlowConfigurationSnapshot::Compaction(
                                    CompactionRule::MetadataOnly(
                                        CompactionRuleMetadataOnly { recursive: true },
                                    ),
                                ),
                            ),
                        },
                    );
                }
            },
            DownstreamDependencyTriggerType::Empty => {},
        }
    }
    proof {
        assert(dependent_dataset_ids@.take(dependent_dataset_ids@.len() as int)
            == dependent_dataset_ids@);
    }
    plans
}

/// Each plan is about one of the dependent datasets: nothing else is triggered.
pub proof fn law_plans_are_about_dependents(
    datasets: Map<(Seq<char>, DatasetFlowType), FlowConfigurationRule>,
    kind: DownstreamDependencyTriggerType,
    dependents: Seq<DatasetID>,
    ownership: Seq<Vec<bool>>,
    i: int,
)
    requires
        0 <= i < downstream_plans(datasets, kind, dependents, ownership).len(),
    ensures
        downstream_plans(datasets, kind, dependents, ownership)[i].flow_key matches FlowKey::Dataset(
            key,
        ) && dependents.contains(key.dataset_id),
        downstream_plans(datasets, kind, dependents, ownership).len() <= dependents.len(),
    decreases dependents.len(),
{
    if dependents.len() > 0 {
        let before = downstream_plans(datasets, kind, dependents.drop_last(), ownership);
        let all = downstream_plans(datasets, kind, dependents, ownership);
        if before.len() > 0 {
            law_plans_are_about_dependents(
                datasets,
                kind,
                dependents.drop_last(),
                ownership,
                if i < before.len() { i } else { 0 },
            );
        }
        if i < before.len() {
            let id = before[i].flow_key->Dataset_0.dataset_id;
            let j = choose|j: int|
                0 <= j < dependents.drop_last().len() && dependents.drop_last()[j] == id;
            assert(dependents[j] == id);
            assert(all[i] == before[i]);
        } else {
            assert(dependents[dependents.len() - 1] == dependents.last());
        }
    }
}

/// Owners are asked one after the other, none twice and none left out, until one of them owns
/// the dependent dataset.
pub proof fn law_owners_are_asked_in_turn(answers: Seq<bool>, owners: int)
    requires
        0 <= answers.len() <= owners,
    ensures
        (exists|i: int| 0 <= i < answers.len() && #[trigger] answers[i]) ==> next_to_ask(
            answers,
            owners,
        ) is None,
        (forall|i: int| 0 <= i < answers.len() ==> !(#[trigger] answers[i])) ==> {
            &&& answers.len() == owners ==> next_to_ask(answers, owners) is None
            &&& answers.len() < owners ==> next_to_ask(answers, owners) == Some(
                answers.len() as int,
            )
        },
{
    if exists|i: int| 0 <= i < answers.len() && #[trigger] answers[i] {
        let i = choose|i: int| 0 <= i < answers.len() && #[trigger] answers[i];
        assert(answers[i] == true);
        assert(answers.contains(true));
    }
    if answers.contains(true) {
        let i = choose|i: int| 0 <= i < answers.len() && answers[i] == true;
        assert(answers[i]);
    }
}

/// Owners matter exactly where there is a dependent dataset at all, and what has succeeded
/// is a compaction or a reset that is to go on recursively.
pub proof fn law_when_owners_matter(
    flow_type: DatasetFlowType,
    snapshot: Option<FlowConfigurationSnapshot>,
    dependents: int,
)
    requires
        dependents >= 0,
    ensures
        owners_matter(flow_type, snapshot, dependents) <==> dependents > 0 && match snapshot {
            Some(FlowConfigurationSnapshot::Compaction(CompactionRule::Full(rule))) =>
                flow_type is HardCompaction && rule.recursive,
            Some(FlowConfigurationSnapshot::Compaction(CompactionRule::MetadataOnly(rule))) =>
                flow_type is HardCompaction && rule.recursive,
            Some(FlowConfigurationSnapshot::Reset(rule)) => flow_type is Reset && rule.recursive,
            _ => false,
        },
{
}

} // verus!
