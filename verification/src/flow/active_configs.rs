//! The flow configurations in force.

use vstd::prelude::*;

use crate::assoc::VecMap;
use crate::flow::types::{
    DatasetFlowType, FlowConfigurationRule, FlowConfigurationSnapshot, FlowKey, FlowKeyDataset,
    FlowKeyView, Schedule, SystemFlowType, TransformRule,
};
use crate::ids::DatasetID;

verus! {

#[derive(Debug)]
pub struct ActiveConfigsState {
    dataset_rules: VecMap<FlowKeyDataset, FlowConfigurationRule>,
    system_schedules: VecMap<SystemFlowType, Schedule>,
}

/// The rules in force, by flow key. A system flow can only have a schedule.
pub open spec fn rule_for(
    datasets: Map<(Seq<char>, DatasetFlowType), FlowConfigurationRule>,
    system: Map<SystemFlowType, Schedule>,
    key: FlowKeyView,
) -> Option<FlowConfigurationRule> {
    match key {
        FlowKeyView::Dataset(id, flow_type) => if datasets.contains_key((id, flow_type)) {
            Some(datasets[(id, flow_type)])
        } else {
            None
        },
        FlowKeyView::System(flow_type) => if system.contains_key(flow_type) {
            Some(FlowConfigurationRule::Schedule(system[flow_type]))
        } else {
            None
        },
    }
}

/// The schedule by which flows of a key repeat. A dataset flow repeats by its
/// ingest rule, a system flow by its schedule.
pub open spec fn repeat_schedule(key: FlowKeyView, rule: Option<FlowConfigurationRule>) -> Option<
    Schedule,
> {
    match (key, rule) {
        (
            FlowKeyView::Dataset(..),
            Some(FlowConfigurationRule::IngestRule(ingest)),
        ) => Some(ingest.schedule_condition),
        (FlowKeyView::System(_), Some(FlowConfigurationRule::Schedule(s))) => Some(s),
        _ => None,
    }
}

/// The keys under which flows of a dataset are configured.
pub open spec fn dataset_keys(id: Seq<char>) -> Set<(Seq<char>, DatasetFlowType)> {
    Set::new(|k: (Seq<char>, DatasetFlowType)| k.0 == id)
}

impl ActiveConfigsState {
    pub closed spec fn datasets(&self) -> Map<(Seq<char>, DatasetFlowType), FlowConfigurationRule> {
        self.dataset_rules@
    }

    pub closed spec fn system(&self) -> Map<SystemFlowType, Schedule> {
        self.system_schedules@
    }

    pub closed spec fn wf(&self) -> bool {
        self.dataset_rules.wf() && self.system_schedules.wf()
    }

    /// The rule in force for a key.
    pub open spec fn rule(&self, key: FlowKeyView) -> Option<FlowConfigurationRule> {
        rule_for(self.datasets(), self.system(), key)
    }

    pub fn new() -> (r: Self)
        ensures
            r.wf(),
            r.datasets() == Map::<(Seq<char>, DatasetFlowType), FlowConfigurationRule>::empty(),
            r.system() == Map::<SystemFlowType, Schedule>::empty(),
    {
        ActiveConfigsState { dataset_rules: VecMap::new(), system_schedules: VecMap::new() }
    }

    pub fn add_dataset_flow_config(&mut self, flow_key: &FlowKeyDataset, rule: FlowConfigurationRule)
        requires
            old(self).wf(),
        ensures
            final(self).wf(),
            final(self).datasets() == old(self).datasets().insert(flow_key@, rule),
            final(self).system() == old(self).system(),
    {
        self.dataset_rules.insert(flow_key.clone(), rule);
    }

    pub fn add_system_flow_config(&mut self, flow_type: SystemFlowType, schedule: Schedule)
        requires
            old(self).wf(),
        ensures
            final(self).wf(),
            final(self).datasets() == old(self).datasets(),
            final(self).system() == old(self).system().insert(flow_type, schedule),
    {
        self.system_schedules.insert(flow_type, schedule);
    }

    /// The schedule by which flows of the key repeat, if they do.
    pub fn try_get_flow_schedule(&self, flow_key: &FlowKey) -> (r: Option<Schedule>)
        requires
            self.wf(),
        ensures
            r == repeat_schedule(flow_key@, self.rule(flow_key@)),
    {
        match flow_key {
            FlowKey::Dataset(key) => match self.dataset_rules.get(key) {
                Some(FlowConfigurationRule::IngestRule(ingest)) => Some(
                    ingest.schedule_condition.clone(),
                ),
                _ => None,
            },
            FlowKey::System(key) => match self.system_schedules.get(&key.flow_type) {
                Some(schedule) => Some(schedule.clone()),
                None => None,
            },
        }
    }

    /// A snapshot of the rule in force for the key.
    pub fn try_get_config_snapshot_by_key(&self, flow_key: &FlowKey) -> (r: Option<
        FlowConfigurationSnapshot,
    >)
        requires
            self.wf(),
        ensures
            r == (match self.rule(flow_key@) {
                Some(rule) => Some(rule.spec_snapshot()),
                None => None,
            }),
    {
        match flow_key {
            FlowKey::Dataset(key) => match self.dataset_rules.get(key) {
                Some(rule) => Some(rule.snapshot()),
                None => None,
            },
            FlowKey::System(key) => match self.system_schedules.get(&key.flow_type) {
                Some(schedule) => Some(FlowConfigurationSnapshot::Schedule(schedule.clone())),
                None => None,
            },
        }
    }

    /// The transform rule in force for a flow of a dataset.
    pub fn try_get_dataset_transform_rule(
        &self,
        dataset_id: &DatasetID,
        flow_type: DatasetFlowType,
    ) -> (r: Option<TransformRule>)
        requires
            self.wf(),
        ensures
            r == transform_rule(self.datasets(), dataset_id@, flow_type),
    {
        match self.dataset_rules.get(
            &FlowKeyDataset { dataset_id: dataset_id.clone(), flow_type },
        ) {
            Some(FlowConfigurationRule::TransformRule(rule)) => Some(*rule),
            _ => None,
        }
    }

    pub fn drop_flow_config(&mut self, flow_key: &FlowKey)
        requires
            old(self).wf(),
        ensures
            final(self).wf(),
            match flow_key@ {
                FlowKeyView::Dataset(id, flow_type) => {
                    &&& final(self).datasets() == old(self).datasets().remove((id, flow_type))
                    &&& final(self).system() == old(self).system()
                },
                FlowKeyView::System(flow_type) => {
                    &&& final(self).datasets() == old(self).datasets()
                    &&& final(self).system() == old(self).system().remove(flow_type)
                },
            },
    {
        match flow_key {
            FlowKey::Dataset(key) => {
                let _ = self.dataset_rules.remove(key);
            },
            FlowKey::System(key) => {
                let _ = self.system_schedules.remove(&key.flow_type);
            },
        }
    }

    /// Forgets every configuration of a dataset.
    pub fn drop_dataset_configs(&mut self, dataset_id: &DatasetID)
        requires
            old(self).wf(),
        ensures
            final(self).wf(),
            final(self).datasets() == old(self).datasets().remove_keys(dataset_keys(dataset_id@)),
            final(self).system() == old(self).system(),
    {
        let types = DatasetFlowType::all();
        let ghost before = self.datasets();
        for i in 0..types.len()
            invariant
                self.wf(),
                types@ == crate::flow::types::all_dataset_flow_types(),
                self.system() == old(self).system(),
                self.datasets() == before.remove_keys(
                    Set::new(
                        |k: (Seq<char>, DatasetFlowType)|
                            k.0 == dataset_id@ && types@.take(i as int).contains(k.1),
                    ),
                ),
        {
            let _ = self.dataset_rules.remove(
                &FlowKeyDataset { dataset_id: dataset_id.clone(), flow_type: types[i] },
            );
            proof {
                assert(types@.take(i + 1) == types@.take(i as int).push(types@[i as int]));
                assert forall|t: DatasetFlowType|
                    types@.take(i + 1).contains(t) == (types@.take(i as int).contains(t) || t
                        == types@[i as int]) by {
                    if types@.take(i as int).contains(t) {
                        let k = choose|k: int|
                            0 <= k < types@.take(i as int).len() && types@.take(i as int)[k] == t;
                        assert(types@.take(i + 1)[k] == t);
                    }
                    assert(types@.take(i + 1)[i as int] == types@[i as int]);
                }
                assert(self.datasets() =~= before.remove_keys(
                    Set::new(
                        |k: (Seq<char>, DatasetFlowType)|
                            k.0 == dataset_id@ && types@.take(i + 1).contains(k.1),
                    ),
                ));
            }
        }
        proof {
            assert(types@.take(types@.len() as int) == types@);
            lemma_all_types_listed();
            assert(self.datasets() =~= before.remove_keys(dataset_keys(dataset_id@)));
        }
    }
}

/// The transform rule in force for a flow of a dataset.
pub open spec fn transform_rule(
    datasets: Map<(Seq<char>, DatasetFlowType), FlowConfigurationRule>,
    id: Seq<char>,
    flow_type: DatasetFlowType,
) -> Option<TransformRule> {
    match rule_for(datasets, Map::empty(), FlowKeyView::Dataset(id, flow_type)) {
        Some(FlowConfigurationRule::TransformRule(rule)) => Some(rule),
        _ => None,
    }
}

pub proof fn lemma_all_types_listed()
    ensures
        forall|t: DatasetFlowType| #[trigger]
            crate::flow::types::all_dataset_flow_types().contains(t),
{
    let all = crate::flow::types::all_dataset_flow_types();
    assert forall|t: DatasetFlowType| #[trigger] all.contains(t) by {
        match t {
            DatasetFlowType::Ingest => assert(all[0] == t),
            DatasetFlowType::ExecuteTransform => assert(all[1] == t),
            DatasetFlowType::HardCompaction => assert(all[2] == t),
            DatasetFlowType::Reset => assert(all[3] == t),
        }
    }
}

/// The rule in force for a key is the one that was put there: of a dataset flow any rule,
/// of a system flow its schedule. Keys of another dataset or kind make no difference.
pub proof fn law_rule_is_found_by_its_key(
    datasets: Map<(Seq<char>, DatasetFlowType), FlowConfigurationRule>,
    system: Map<SystemFlowType, Schedule>,
    id: Seq<char>,
    flow_type: DatasetFlowType,
    system_type: SystemFlowType,
    rule: FlowConfigurationRule,
    schedule: Schedule,
)
    ensures
        rule_for(datasets, system, FlowKeyView::Dataset(id, flow_type)) == Some(rule) <==> (
        datasets.contains_key((id, flow_type)) && datasets[(id, flow_type)] == rule),
        rule_for(datasets, system, FlowKeyView::System(system_type)) == Some(
            FlowConfigurationRule::Schedule(schedule),
        ) <==> system.contains_key(system_type) && system[system_type] == schedule,
        rule_for(datasets, system, FlowKeyView::System(system_type)) matches Some(found)
            ==> found is Schedule,
        rule_for(datasets.insert((id, flow_type), rule), system, FlowKeyView::Dataset(id, flow_type))
            == Some(rule),
        rule_for(
            datasets.remove((id, flow_type)),
            system,
            FlowKeyView::Dataset(id, flow_type),
        ) is None,
{
}

/// A dataset flow repeats by the schedule of its ingest rule, and by nothing else; a system
/// flow repeats by its schedule.
pub proof fn law_what_repeats(key: FlowKeyView, rule: Option<FlowConfigurationRule>)
    ensures
        rule is None ==> repeat_schedule(key, rule) is None,
        key is Dataset ==> match rule {
            Some(FlowConfigurationRule::IngestRule(ingest)) => repeat_schedule(key, rule) == Some(
                ingest.schedule_condition,
            ),
            _ => repeat_schedule(key, rule) is None,
        },
        key is System ==> (rule matches Some(FlowConfigurationRule::Schedule(schedule))
            ==> repeat_schedule(key, rule) == Some(schedule)),
{
}

/// The transform rule of a dataset flow is the rule in force for it, if that is one.
pub proof fn law_transform_rule_is_the_one_in_force(
    datasets: Map<(Seq<char>, DatasetFlowType), FlowConfigurationRule>,
    id: Seq<char>,
    flow_type: DatasetFlowType,
    rule: TransformRule,
)
    ensures
        transform_rule(datasets, id, flow_type) == Some(rule) <==> datasets.contains_key(
            (id, flow_type),
        ) && datasets[(id, flow_type)] == FlowConfigurationRule::TransformRule(rule),
{
}

/// Dropping the configurations of a dataset drops those of each kind of flow, and none of
/// another dataset.
pub proof fn law_dropped_configurations(
    datasets: Map<(Seq<char>, DatasetFlowType), FlowConfigurationRule>,
    id: Seq<char>,
    other: Seq<char>,
    flow_type: DatasetFlowType,
)
    ensures
        !datasets.remove_keys(dataset_keys(id)).contains_key((id, flow_type)),
        other != id ==> (datasets.remove_keys(dataset_keys(id)).contains_key((other, flow_type))
            <==> datasets.contains_key((other, flow_type))),
        other != id && datasets.contains_key((other, flow_type)) ==> datasets.remove_keys(
            dataset_keys(id),
        )[(other, flow_type)] == datasets[(other, flow_type)],
{
}

} // verus!
