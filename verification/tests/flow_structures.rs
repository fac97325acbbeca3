use kamu::flow::active_configs::ActiveConfigsState;
use kamu::flow::listing::{
    dataset_flow_filters, datasets_with_flows, distinct_datasets, filter_owned_datasets,
    is_countable, total_count, AccountFlowFilters, DatasetFlowFilters, InitiatorFilter,
};
use kamu::flow::outcome::FlowOutcome;
use kamu::flow::pending_flows::PendingFlowsState;
use kamu::flow::startup::order_enabled_configurations;
use kamu::flow::time_wheel::{FlowNotPlanned, FlowTimeWheel};
use kamu::flow::types::{
    CompactionRule, CompactionRuleFull, CompactionRuleMetadataOnly, DatasetFlowType,
    FlowConfiguration, FlowConfigurationRule, FlowConfigurationSnapshot, FlowKey, FlowKeyDataset,
    FlowKeySystem, FlowStatus, IngestRule, ResetRule, Schedule, SystemFlowType, TransformRule,
};
use kamu::ids::{AccountID, DatasetID, FlowID, Multihash, TaskID};
use kamu::time::{DateTime, TimeDelta};

fn at(secs: i64) -> DateTime {
    DateTime::from_timestamp(secs, 0).unwrap()
}

fn span(secs: i64) -> TimeDelta {
    TimeDelta::new(secs, 0).unwrap()
}

fn flow(id: u64) -> FlowID {
    FlowID { id }
}

fn dataset(name: &str) -> DatasetID {
    DatasetID { did: format!("did:odf:{}", name) }
}

fn key(name: &str, flow_type: DatasetFlowType) -> FlowKey {
    FlowKey::Dataset(FlowKeyDataset { dataset_id: dataset(name), flow_type })
}

fn gc() -> FlowKey {
    FlowKey::System(FlowKeySystem { flow_type: SystemFlowType::GC })
}

fn transform(min_records: u64, interval: i64) -> TransformRule {
    TransformRule { min_records_to_await: min_records, max_batching_interval: span(interval) }
}

#[test]
fn test_wheel_takes_the_earliest_flows() {
    let mut wheel = FlowTimeWheel::new();
    assert_eq!(wheel.nearest_activation_moment(), None);
    assert_eq!(wheel.take_nearest_planned_flows(), vec![]);

    wheel.activate_at(at(20), flow(1));
    wheel.activate_at(at(10), flow(2));
    wheel.activate_at(at(10), flow(3));
    assert_eq!(wheel.nearest_activation_moment(), Some(at(10)));

    let mut due = wheel.take_nearest_planned_flows();
    due.sort_by_key(|f| f.id);
    assert_eq!(due, vec![flow(2), flow(3)]);
    assert_eq!(wheel.nearest_activation_moment(), Some(at(20)));
    assert_eq!(wheel.get_planned_flow_activation_time(flow(2)), None);
    assert_eq!(wheel.take_nearest_planned_flows(), vec![flow(1)]);
    assert_eq!(wheel.nearest_activation_moment(), None);
}

#[test]
fn test_wheel_plans_a_flow_once() {
    let mut wheel = FlowTimeWheel::new();
    wheel.activate_at(at(20), flow(1));
    wheel.activate_at(at(15), flow(1));
    assert_eq!(wheel.get_planned_flow_activation_time(flow(1)), Some(at(15)));
    assert_eq!(wheel.cancel_flow_activation(flow(1)), Ok(()));
    assert_eq!(
        wheel.cancel_flow_activation(flow(1)),
        Err(FlowNotPlanned { flow_id: flow(1) })
    );
}

#[test]
fn test_pending_flows_by_key_and_task() {
    let mut pending = PendingFlowsState::new();
    let ingest = key("a", DatasetFlowType::Ingest);
    pending.add_pending_flow(ingest.clone(), flow(1));
    pending.add_pending_flow(gc(), flow(2));
    assert_eq!(pending.try_get_pending_flow(&ingest), Some(flow(1)));
    assert_eq!(pending.try_get_pending_flow(&key("a", DatasetFlowType::Reset)), None);
    assert_eq!(pending.try_get_pending_flow(&key("b", DatasetFlowType::Ingest)), None);

    pending.track_flow_task(flow(1), TaskID { id: 7 });
    assert_eq!(pending.try_get_flow_id_by_task(TaskID { id: 7 }), Some(flow(1)));
    pending.untrack_flow_by_task(TaskID { id: 7 });
    assert_eq!(pending.try_get_flow_id_by_task(TaskID { id: 7 }), None);

    assert_eq!(
        pending.drop_dataset_pending_flow(&dataset("a"), DatasetFlowType::Ingest),
        Some(flow(1))
    );
    assert_eq!(pending.drop_pending_flow(&ingest), None);
    assert_eq!(pending.drop_pending_flow(&gc()), Some(flow(2)));
}

#[test]
fn test_active_configs_give_schedules_and_snapshots() {
    let mut configs = ActiveConfigsState::new();
    let ingest_key = FlowKeyDataset { dataset_id: dataset("a"), flow_type: DatasetFlowType::Ingest };
    let ingest_rule =
        IngestRule { fetch_uncacheable: true, schedule_condition: Schedule::TimeDelta(span(60)) };
    configs.add_dataset_flow_config(
        &ingest_key,
        FlowConfigurationRule::IngestRule(ingest_rule.clone()),
    );
    let transform_key =
        FlowKeyDataset { dataset_id: dataset("b"), flow_type: DatasetFlowType::ExecuteTransform };
    configs.add_dataset_flow_config(
        &transform_key,
        FlowConfigurationRule::TransformRule(transform(5, 60)),
    );
    configs.add_system_flow_config(SystemFlowType::GC, Schedule::Cron("0 0 * * *".to_owned()));

    assert_eq!(
        configs.try_get_flow_schedule(&key("a", DatasetFlowType::Ingest)),
        Some(Schedule::TimeDelta(span(60)))
    );
    assert_eq!(configs.try_get_flow_schedule(&key("b", DatasetFlowType::ExecuteTransform)), None);
    assert_eq!(
        configs.try_get_flow_schedule(&gc()),
        Some(Schedule::Cron("0 0 * * *".to_owned()))
    );
    assert_eq!(
        configs.try_get_config_snapshot_by_key(&key("a", DatasetFlowType::Ingest)),
        Some(FlowConfigurationSnapshot::Ingest(ingest_rule))
    );
    assert_eq!(
        configs.try_get_dataset_transform_rule(&dataset("b"), DatasetFlowType::ExecuteTransform),
        Some(transform(5, 60))
    );
    assert_eq!(
        configs.try_get_dataset_transform_rule(&dataset("a"), DatasetFlowType::Ingest),
        None
    );

    configs.drop_dataset_configs(&dataset("a"));
    assert_eq!(configs.try_get_flow_schedule(&key("a", DatasetFlowType::Ingest)), None);
    assert!(configs
        .try_get_config_snapshot_by_key(&key("b", DatasetFlowType::ExecuteTransform))
        .is_some());
    configs.drop_flow_config(&key("b", DatasetFlowType::ExecuteTransform));
    assert!(configs
        .try_get_config_snapshot_by_key(&key("b", DatasetFlowType::ExecuteTransform))
        .is_none());
    configs.drop_flow_config(&gc());
    assert_eq!(configs.try_get_flow_schedule(&gc()), None);
}

#[test]
fn test_snapshots_follow_their_rules() {
    let compaction = CompactionRule::Full(CompactionRuleFull {
        max_slice_size: 100,
        max_slice_records: 10,
        recursive: false,
    });
    assert_eq!(
        FlowConfigurationRule::CompactionRule(compaction).snapshot(),
        FlowConfigurationSnapshot::Compaction(compaction)
    );
    let reset = ResetRule {
        new_head_hash: Some(Multihash { text: "f1".to_owned() }),
        old_head_hash: None,
        recursive: true,
    };
    assert_eq!(
        FlowConfigurationRule::ResetRule(reset.clone()).snapshot(),
        FlowConfigurationSnapshot::Reset(reset)
    );
    assert_eq!(
        FlowConfigurationRule::TransformRule(transform(1, 2)).snapshot(),
        FlowConfigurationSnapshot::Transform(transform(1, 2))
    );
    assert_eq!(
        FlowConfigurationRule::Schedule(Schedule::TimeDelta(span(1))).snapshot(),
        FlowConfigurationSnapshot::Schedule(Schedule::TimeDelta(span(1)))
    );
}

#[test]
fn test_compaction_limits() {
    let full = CompactionRule::Full(CompactionRuleFull {
        max_slice_size: 100,
        max_slice_records: 10,
        recursive: true,
    });
    assert_eq!(full.max_slice_size(), Some(100));
    assert_eq!(full.max_slice_records(), Some(10));
    assert!(full.recursive());
    let metadata = CompactionRule::MetadataOnly(CompactionRuleMetadataOnly { recursive: false });
    assert_eq!(metadata.max_slice_size(), None);
    assert_eq!(metadata.max_slice_records(), None);
    assert!(!metadata.recursive());
}

#[test]
fn test_schedules_come_first_at_startup() {
    let plain = FlowConfiguration {
        flow_key: key("a", DatasetFlowType::ExecuteTransform),
        rule: FlowConfigurationRule::TransformRule(transform(1, 1)),
    };
    let schedule = FlowConfiguration {
        flow_key: gc(),
        rule: FlowConfigurationRule::Schedule(Schedule::TimeDelta(span(5))),
    };
    let ingest = FlowConfiguration {
        flow_key: key("b", DatasetFlowType::Ingest),
        rule: FlowConfigurationRule::IngestRule(IngestRule {
            fetch_uncacheable: false,
            schedule_condition: Schedule::TimeDelta(span(5)),
        }),
    };
    let ordered =
        order_enabled_configurations(&vec![plain.clone(), schedule.clone(), ingest.clone()]);
    assert_eq!(ordered, vec![schedule, plain, ingest]);
}

#[test]
fn test_listing_filters_owned_datasets() {
    let owned = vec![dataset("a"), dataset("b"), dataset("c")];
    assert_eq!(filter_owned_datasets(&owned, &vec![]).len(), 3);
    assert_eq!(
        filter_owned_datasets(&owned, &vec![dataset("c"), dataset("x"), dataset("a")]),
        vec![dataset("a"), dataset("c")]
    );
}

#[test]
fn test_listing_counts_flows() {
    assert_eq!(total_count(&vec![]), 0);
    assert_eq!(total_count(&vec![2, 0, 5]), 7);
    assert!(is_countable(&vec![usize::MAX, 0]));
    assert!(!is_countable(&vec![usize::MAX, 1]));
}

#[test]
fn test_datasets_with_flows_are_listed_newest_first() {
    let owned = vec![dataset("a"), dataset("b"), dataset("c"), dataset("d"), dataset("e")];
    let created = vec![at(5), at(9), at(7), at(7), at(8)];
    assert_eq!(
        datasets_with_flows(&owned, &vec![2, 0, 5, 1, 1], &created),
        vec![dataset("e"), dataset("c"), dataset("d"), dataset("a")]
    );
    assert_eq!(
        datasets_with_flows(&owned, &vec![1, 1, 0, 0, 0], &created),
        vec![dataset("b"), dataset("a")]
    );
    assert_eq!(datasets_with_flows(&owned, &vec![0, 0, 0, 0, 0], &created), vec![]);
}

#[test]
fn test_listing_takes_each_dataset_once() {
    assert_eq!(
        distinct_datasets(&vec![dataset("b"), dataset("a"), dataset("b"), dataset("c")]),
        vec![dataset("b"), dataset("a"), dataset("c")]
    );
}

#[test]
fn test_limits_of_an_account_listing_apply_to_its_datasets() {
    let initiator = || {
        Some(InitiatorFilter::Account(vec![AccountID { did: "did:odf:me".to_owned() }]))
    };
    assert_eq!(
        dataset_flow_filters(AccountFlowFilters {
            by_flow_type: Some(DatasetFlowType::Ingest),
            by_flow_status: Some(FlowStatus::Running),
            by_dataset_ids: vec![dataset("a")],
            by_initiator: initiator(),
        }),
        DatasetFlowFilters {
            by_flow_type: Some(DatasetFlowType::Ingest),
            by_flow_status: Some(FlowStatus::Running),
            by_initiator: initiator(),
        }
    );
    assert_eq!(
        dataset_flow_filters(AccountFlowFilters {
            by_flow_type: None,
            by_flow_status: None,
            by_dataset_ids: vec![dataset("a")],
            by_initiator: None,
        }),
        DatasetFlowFilters::default()
    );
}

#[test]
fn test_outcomes_differ() {
    let all = [
        FlowOutcome::Success,
        FlowOutcome::Failed,
        FlowOutcome::Cancelled,
        FlowOutcome::Aborted,
    ];
    for (i, a) in all.iter().enumerate() {
        for (j, b) in all.iter().enumerate() {
            assert_eq!(a == b, i == j);
        }
    }
}

#[test]
fn test_all_dataset_flow_types() {
    assert_eq!(
        DatasetFlowType::all(),
        vec![
            DatasetFlowType::Ingest,
            DatasetFlowType::ExecuteTransform,
            DatasetFlowType::HardCompaction,
            DatasetFlowType::Reset,
        ]
    );
}
