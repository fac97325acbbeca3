use kamu::error::InternalError;
use kamu::flow::downstream::{next_owner_to_ask, ownership_matters};
use kamu::flow::finished_task::{
    FinishAction, FinishAnswer, FinishPhase, FinishedTask, ToldFlow,
};
use kamu::flow::main_loop::{begin, FlowServiceRun, RunAction};
use kamu::flow::service::{
    is_supported, ConfigurationStep, FlowConfigurationUpdatedMessage, FlowServiceImpl, FlowServiceRunConfig,
    FlowSuccessFollowupMethod, TriggerRequest, TriggerTarget,
};
use kamu::flow::time_wheel::FlowNotPlanned;
use kamu::flow::triggering::{
    increments_for, increments_to_query, is_evaluable, FlowAction, IncrementQuery,
};
use kamu::flow::types::{
    CompactionRule, CompactionRuleFull, CompactionRuleMetadataOnly, DatasetFlowType,
    DatasetIntervalIncrement, FlowConfiguration, FlowConfigurationRule, FlowConfigurationSnapshot,
    FlowKey, FlowKeyDataset, FlowKeySystem, FlowResult, FlowResultDatasetUpdate,
    FlowResultDatasetUpdateChanged, FlowRunStats, FlowServiceUpdateDetails,
    FlowServiceUpdatedMessage, FlowStartCondition, FlowStartConditionBatching,
    FlowStartConditionExecutor, FlowStartConditionSchedule, FlowStartConditionThrottling,
    FlowState, FlowStatus, FlowTrigger, FlowTriggerAutoPolling, FlowTriggerContext,
    FlowTriggerInputDatasetFlow, FlowTriggerManual, HardCompactionDataset, IngestRule, LogicalPlan,
    Probe, ResetDataset, ResetRule, Schedule, SystemFlowType, TaskOutcome, TransformRule,
    UpdateDataset,
};
use kamu::ids::{AccountID, DatasetID, FlowID, Multihash, TaskID};
use kamu::time::{DateTime, RoundingError, TimeDelta};

fn at(secs: i64) -> DateTime {
    DateTime::from_timestamp(secs, 0).unwrap()
}

fn span(secs: i64) -> TimeDelta {
    TimeDelta::new(secs, 0).unwrap()
}

fn flow_id(id: u64) -> FlowID {
    FlowID { id }
}

fn task(id: u64) -> TaskID {
    TaskID { id }
}

fn hash(text: &str) -> Multihash {
    Multihash { text: text.to_owned() }
}

fn dataset(name: &str) -> DatasetID {
    DatasetID { did: format!("did:odf:{}", name) }
}

fn key(name: &str, flow_type: DatasetFlowType) -> FlowKey {
    FlowKey::Dataset(FlowKeyDataset { dataset_id: dataset(name), flow_type })
}

fn gc() -> FlowKey {
    FlowKey::System(FlowKeySystem { flow_type: SystemFlowType::GC })
}

/// Rounds to 10 seconds, throttles for 100.
fn service() -> FlowServiceImpl {
    FlowServiceImpl::new(FlowServiceRunConfig {
        awaiting_step: span(10),
        mandatory_throttling_period: span(100),
    })
}

fn auto(secs: i64) -> FlowTrigger {
    FlowTrigger::AutoPolling(FlowTriggerAutoPolling { trigger_time: at(secs) })
}

fn input_trigger(secs: i64, name: &str, flow_result: FlowResult) -> FlowTrigger {
    FlowTrigger::InputDatasetFlow(FlowTriggerInputDatasetFlow {
        trigger_time: at(secs),
        dataset_id: dataset(name),
        flow_type: DatasetFlowType::Ingest,
        flow_id: flow_id(77),
        flow_result,
    })
}

fn changed(old_head: Option<&str>) -> FlowResult {
    FlowResult::DatasetUpdate(FlowResultDatasetUpdate::Changed(FlowResultDatasetUpdateChanged {
        old_head: old_head.map(hash),
        new_head: hash("new"),
    }))
}

fn flow(id: u64, flow_key: FlowKey, triggers: Vec<FlowTrigger>) -> FlowState {
    FlowState {
        flow_id: flow_id(id),
        flow_key,
        triggers,
        start_condition: None,
        config_snapshot: None,
        task_ids: vec![],
        status: FlowStatus::Waiting,
        outcome: None,
    }
}

fn stats(last_success: Option<i64>, last_attempt: Option<i64>) -> FlowRunStats {
    FlowRunStats {
        last_success_time: last_success.map(at),
        last_attempt_time: last_attempt.map(at),
    }
}

fn throttled(wake_up_at: i64, shifted_from: i64) -> FlowAction {
    FlowAction::SetStartCondition(FlowStartCondition::Throttling(FlowStartConditionThrottling {
        interval: span(100),
        wake_up_at: at(wake_up_at),
        shifted_from: at(shifted_from),
    }))
}

fn rule(min_records: u64, interval: i64) -> TransformRule {
    TransformRule { min_records_to_await: min_records, max_batching_interval: span(interval) }
}

fn increment(num_records: u64, watermark: Option<i64>) -> DatasetIntervalIncrement {
    DatasetIntervalIncrement { num_records, updated_watermark: watermark.map(at) }
}

fn ingest_rule() -> IngestRule {
    IngestRule { fetch_uncacheable: true, schedule_condition: Schedule::TimeDelta(span(3600)) }
}

#[test]
fn test_round_time_goes_to_the_nearest_step() {
    let s = service();
    assert_eq!(s.round_time(at(1_000_000_014)), Ok(at(1_000_000_010)));
    assert_eq!(s.round_time(at(1_000_000_015)), Ok(at(1_000_000_020)));
    assert_eq!(s.round_time(at(1_000_000_020)), Ok(at(1_000_000_020)));
    assert_eq!(s.round_time(at(-14)), Ok(at(-10)));
    assert_eq!(s.round_time(at(-15)), Ok(at(-10)));
    assert_eq!(s.round_time(at(4)), Ok(at(0)));
}

#[test]
fn test_rounding_is_stable_and_monotone() {
    let s = service();
    let mut last = at(-100);
    for secs in -50..50 {
        let rounded = s.round_time(at(secs)).unwrap();
        assert_eq!(s.round_time(rounded), Ok(rounded));
        assert!(last.not_after(&rounded));
        assert!((rounded.timestamp() - secs).abs() <= 5);
        last = rounded;
    }
}

#[test]
fn test_round_time_limits() {
    let far = at(9_223_372_036);
    assert!(service().round_time(far).is_ok());
    assert_eq!(
        service().round_time(at(9_223_372_037)),
        Err(InternalError::Rounding(RoundingError::TimestampExceedsLimit))
    );
    let broken = FlowServiceImpl::new(FlowServiceRunConfig {
        awaiting_step: span(0),
        mandatory_throttling_period: span(100),
    });
    assert_eq!(
        broken.round_time(at(5)),
        Err(InternalError::Rounding(RoundingError::DurationExceedsLimit))
    );
}

#[test]
fn test_first_run_is_not_throttled() {
    let s = service();
    let f = flow(1, key("a", DatasetFlowType::Ingest), vec![auto(500)]);
    assert_eq!(
        s.plan_new_flow(
            &f,
            at(500),
            &FlowTriggerContext::Unconditional,
            &stats(None, None),
            None,
            &vec![]
        ),
        vec![FlowAction::ActivateAt(at(500))]
    );
}

#[test]
fn test_new_flow_is_throttled_after_recent_attempt() {
    let s = service();
    let f = flow(1, key("a", DatasetFlowType::Ingest), vec![auto(500)]);
    assert_eq!(
        s.plan_new_flow(
            &f,
            at(500),
            &FlowTriggerContext::Unconditional,
            &stats(None, Some(450)),
            None,
            &vec![]
        ),
        vec![FlowAction::ActivateAt(at(550)), throttled(550, 500)]
    );
    // The period is over by the time of the trigger
    assert_eq!(
        s.plan_new_flow(
            &f,
            at(500),
            &FlowTriggerContext::Unconditional,
            &stats(None, Some(400)),
            None,
            &vec![]
        ),
        vec![FlowAction::ActivateAt(at(500))]
    );
}

#[test]
fn test_new_flow_waits_for_its_schedule() {
    let s = service();
    let f = flow(1, key("a", DatasetFlowType::Ingest), vec![auto(500)]);
    let scheduled = FlowTriggerContext::Scheduled(Schedule::TimeDelta(span(60)));
    assert_eq!(
        s.plan_new_flow(&f, at(500), &scheduled, &stats(None, None), Some(at(560)), &vec![]),
        vec![
            FlowAction::ActivateAt(at(560)),
            FlowAction::SetStartCondition(FlowStartCondition::Schedule(
                FlowStartConditionSchedule { wake_up_at: at(560) }
            )),
        ]
    );
    // Due at once
    assert_eq!(
        s.plan_new_flow(&f, at(500), &scheduled, &stats(None, None), Some(at(500)), &vec![]),
        vec![FlowAction::ActivateAt(at(500))]
    );
    // Throttling comes later than the schedule
    assert_eq!(
        s.plan_new_flow(
            &f,
            at(500),
            &scheduled,
            &stats(Some(480), Some(480)),
            Some(at(540)),
            &vec![]
        ),
        vec![FlowAction::ActivateAt(at(580)), throttled(580, 540)]
    );
}

#[test]
fn test_another_trigger_only_moves_a_flow_earlier() {
    let mut s = service();
    s.enqueue_flow(flow_id(1), at(900));
    let f = flow(1, key("a", DatasetFlowType::Ingest), vec![auto(500)]);
    assert_eq!(
        s.plan_pending_flow(
            &f,
            at(600),
            &FlowTriggerContext::Unconditional,
            &stats(None, None),
            &vec![]
        ),
        vec![FlowAction::ActivateAt(at(600))]
    );
    assert_eq!(
        s.plan_pending_flow(
            &f,
            at(600),
            &FlowTriggerContext::Unconditional,
            &stats(None, Some(550)),
            &vec![]
        ),
        vec![FlowAction::ActivateAt(at(650)), throttled(650, 600)]
    );
    assert_eq!(
        s.plan_pending_flow(
            &f,
            at(900),
            &FlowTriggerContext::Scheduled(Schedule::TimeDelta(span(1))),
            &stats(None, None),
            &vec![]
        ),
        vec![]
    );
}

#[test]
fn test_applied_steps_plan_the_flow() {
    let mut s = service();
    s.apply(flow_id(1), &throttled(550, 500));
    assert_eq!(s.find_planned_flow_activation_time(flow_id(1)), None);
    s.apply(flow_id(1), &FlowAction::ActivateAt(at(550)));
    assert_eq!(s.find_planned_flow_activation_time(flow_id(1)), Some(at(550)));
}

fn batching_announced(min_records: u64, interval: i64, deadline: i64) -> FlowAction {
    FlowAction::SetStartCondition(FlowStartCondition::Batching(FlowStartConditionBatching {
        active_transform_rule: rule(min_records, interval),
        batching_deadline: at(deadline),
    }))
}

#[test]
fn test_batching_waits_for_records() {
    let s = service();
    let f = flow(
        1,
        key("d", DatasetFlowType::ExecuteTransform),
        vec![input_trigger(500, "a", changed(Some("old")))],
    );
    let context = FlowTriggerContext::Batching(rule(100, 300));
    // Nothing accumulated
    assert_eq!(
        s.plan_new_flow(
            &f,
            at(500),
            &context,
            &stats(None, None),
            None,
            &vec![increment(0, None)]
        ),
        vec![batching_announced(100, 300, 800)]
    );
    // Something, but not enough
    assert_eq!(
        s.plan_new_flow(
            &f,
            at(500),
            &context,
            &stats(None, None),
            None,
            &vec![increment(99, None)]
        ),
        vec![batching_announced(100, 300, 800), FlowAction::ActivateAt(at(800))]
    );
    // Only the watermark moved
    assert_eq!(
        s.plan_new_flow(
            &f,
            at(500),
            &context,
            &stats(None, None),
            None,
            &vec![increment(0, Some(3))]
        ),
        vec![batching_announced(100, 300, 800), FlowAction::ActivateAt(at(800))]
    );
    // Enough
    assert_eq!(
        s.plan_new_flow(
            &f,
            at(500),
            &context,
            &stats(None, None),
            None,
            &vec![increment(100, None)]
        ),
        vec![batching_announced(100, 300, 800), FlowAction::ActivateAt(at(500))]
    );
    // Enough, but throttled
    assert_eq!(
        s.plan_new_flow(
            &f,
            at(500),
            &context,
            &stats(None, Some(450)),
            None,
            &vec![increment(100, None)]
        ),
        vec![
            batching_announced(100, 300, 800),
            FlowAction::ActivateAt(at(550)),
            throttled(550, 500),
        ]
    );
}

#[test]
fn test_batching_ends_at_the_deadline() {
    let mut s = service();
    let mut f = flow(
        1,
        key("d", DatasetFlowType::ExecuteTransform),
        vec![
            input_trigger(500, "a", changed(None)),
            input_trigger(800, "b", changed(Some("b1"))),
        ],
    );
    f.start_condition = Some(FlowStartCondition::Batching(FlowStartConditionBatching {
        active_transform_rule: rule(100, 300),
        batching_deadline: at(800),
    }));
    s.enqueue_flow(flow_id(1), at(900));
    let context = FlowTriggerContext::Batching(rule(100, 300));
    assert_eq!(
        s.plan_pending_flow(
            &f,
            at(800),
            &context,
            &stats(None, None),
            &vec![increment(1, None), increment(2, None)]
        ),
        vec![FlowAction::ActivateAt(at(800))]
    );
    // Counts over all inputs
    assert_eq!(
        s.plan_pending_flow(
            &f,
            at(700),
            &context,
            &stats(None, None),
            &vec![increment(60, None), increment(40, None)]
        ),
        vec![FlowAction::ActivateAt(at(700))]
    );
    // Planned early enough already
    s.enqueue_flow(flow_id(1), at(650));
    assert_eq!(
        s.plan_pending_flow(
            &f,
            at(700),
            &context,
            &stats(None, None),
            &vec![increment(60, None), increment(40, None)]
        ),
        vec![]
    );
    // The flow waits for something else by now
    f.start_condition = None;
    assert_eq!(
        s.plan_pending_flow(&f, at(700), &context, &stats(None, None), &vec![]),
        vec![]
    );
}

#[test]
fn test_compacted_input_ends_batching() {
    let s = service();
    let f = flow(
        1,
        key("d", DatasetFlowType::ExecuteTransform),
        vec![input_trigger(500, "a", FlowResult::DatasetCompact(hash("c")))],
    );
    assert_eq!(
        s.plan_new_flow(
            &f,
            at(510),
            &FlowTriggerContext::Batching(rule(100, 300)),
            &stats(None, None),
            None,
            &vec![]
        ),
        vec![batching_announced(100, 300, 800), FlowAction::ActivateAt(at(510))]
    );
}

#[test]
fn test_increments_are_asked_for_changed_inputs() {
    let triggers = vec![
        auto(1),
        input_trigger(2, "a", changed(Some("old"))),
        input_trigger(3, "b", FlowResult::DatasetUpdate(FlowResultDatasetUpdate::UpToDate)),
        input_trigger(4, "c", FlowResult::Empty),
        input_trigger(5, "e", changed(None)),
    ];
    assert_eq!(
        increments_to_query(&triggers),
        vec![
            IncrementQuery { dataset_id: dataset("a"), old_head: Some(hash("old")) },
            IncrementQuery { dataset_id: dataset("e"), old_head: None },
        ]
    );
}

#[test]
fn test_trigger_applies_to_the_pending_flow() {
    let mut s = service();
    let k = key("a", DatasetFlowType::Ingest);
    assert_eq!(s.trigger_flow_common(&k, None), TriggerTarget::New(None));

    let made = s.make_new_flow(flow_id(5), k.clone(), auto(10), None);
    assert_eq!(made, flow(5, k.clone(), vec![auto(10)]));
    assert_eq!(s.find_pending_flow(&k), Some(flow_id(5)));
    assert_eq!(s.trigger_flow_common(&k, None), TriggerTarget::Pending(flow_id(5)));
    assert_eq!(s.find_pending_flow(&key("b", DatasetFlowType::Ingest)), None);
}

#[test]
fn test_new_flow_takes_the_configuration_in_force() {
    let mut s = service();
    let k = key("a", DatasetFlowType::Ingest);
    s.activate_flow_configuration(
        at(0),
        k.clone(),
        FlowConfigurationRule::IngestRule(ingest_rule()),
    );
    assert_eq!(
        s.trigger_flow_common(&k, None),
        TriggerTarget::New(Some(FlowConfigurationSnapshot::Ingest(ingest_rule())))
    );
    let own = FlowConfigurationSnapshot::Transform(rule(1, 1));
    assert_eq!(
        s.trigger_flow_common(&k, Some(own.clone())),
        TriggerTarget::New(Some(own))
    );
}

#[test]
fn test_activation_triggers_transforms_and_schedules() {
    let mut s = service();
    let transform_key = key("d", DatasetFlowType::ExecuteTransform);
    assert_eq!(
        s.activate_flow_configuration(
            at(10),
            transform_key.clone(),
            FlowConfigurationRule::TransformRule(rule(1, 1))
        ),
        Some(TriggerRequest {
            flow_key: transform_key,
            trigger: auto(10),
            context: FlowTriggerContext::Unconditional,
            config_snapshot: None,
        })
    );
    let ingest_key = key("a", DatasetFlowType::Ingest);
    assert_eq!(
        s.activate_flow_configuration(
            at(10),
            ingest_key.clone(),
            FlowConfigurationRule::IngestRule(ingest_rule())
        ),
        Some(TriggerRequest {
            flow_key: ingest_key.clone(),
            trigger: auto(10),
            context: FlowTriggerContext::Scheduled(Schedule::TimeDelta(span(3600))),
            config_snapshot: None,
        })
    );
    assert_eq!(
        s.activate_flow_configuration(
            at(10),
            gc(),
            FlowConfigurationRule::Schedule(Schedule::TimeDelta(span(5)))
        ),
        Some(TriggerRequest {
            flow_key: gc(),
            trigger: auto(10),
            context: FlowTriggerContext::Scheduled(Schedule::TimeDelta(span(5))),
            config_snapshot: None,
        })
    );
    let compaction = CompactionRule::Full(CompactionRuleFull {
        max_slice_size: 1,
        max_slice_records: 2,
        recursive: false,
    });
    assert_eq!(
        s.activate_flow_configuration(
            at(10),
            key("a", DatasetFlowType::HardCompaction),
            FlowConfigurationRule::CompactionRule(compaction)
        ),
        None
    );
    assert_eq!(
        s.try_enqueue_scheduled_auto_polling_flow_if_enabled(at(20), &ingest_key),
        Some(TriggerRequest {
            flow_key: ingest_key,
            trigger: auto(20),
            context: FlowTriggerContext::Scheduled(Schedule::TimeDelta(span(3600))),
            config_snapshot: None,
        })
    );
    assert_eq!(
        s.try_enqueue_scheduled_auto_polling_flow_if_enabled(
            at(20),
            &key("d", DatasetFlowType::ExecuteTransform)
        ),
        None
    );
}

#[test]
fn test_manual_trigger_is_rounded() {
    let s = service();
    let k = key("a", DatasetFlowType::Ingest);
    let initiator = AccountID { did: "did:odf:me".to_owned() };
    assert_eq!(
        s.trigger_manual_flow(at(1_000_000_007), k.clone(), initiator.clone(), None),
        Ok(TriggerRequest {
            flow_key: k.clone(),
            trigger: FlowTrigger::Manual(FlowTriggerManual {
                trigger_time: at(1_000_000_010),
                initiator_account_id: initiator.clone(),
            }),
            context: FlowTriggerContext::Unconditional,
            config_snapshot: None,
        })
    );
    assert_eq!(
        s.trigger_manual_flow(at(9_223_372_037), k, initiator, None),
        Err(InternalError::Rounding(RoundingError::TimestampExceedsLimit))
    );
}

#[test]
fn test_timeslots_run_when_they_are_due() {
    let mut s = service();
    assert_eq!(s.due_timeslot(at(100)), None);
    s.enqueue_flow(flow_id(1), at(50));
    s.enqueue_flow(flow_id(2), at(50));
    s.enqueue_flow(flow_id(3), at(60));
    assert_eq!(s.due_timeslot(at(49)), None);
    assert_eq!(s.due_timeslot(at(50)), Some(at(50)));
    let mut due = s.run_current_timeslot();
    due.sort_by_key(|f| f.id);
    assert_eq!(due, vec![flow_id(1), flow_id(2)]);
    assert_eq!(s.due_timeslot(at(59)), None);
    assert_eq!(s.run_current_timeslot(), vec![flow_id(3)]);
    assert_eq!(s.run_current_timeslot(), vec![]);
}

#[test]
fn test_logical_plans() {
    let s = service();
    let ingest = key("a", DatasetFlowType::Ingest);
    let snapshot = FlowConfigurationSnapshot::Ingest(ingest_rule());
    assert_eq!(
        s.make_task_logical_plan(&ingest, Some(&snapshot)),
        Ok(LogicalPlan::UpdateDataset(UpdateDataset {
            dataset_id: dataset("a"),
            fetch_uncacheable: true,
        }))
    );
    assert_eq!(
        s.make_task_logical_plan(&key("a", DatasetFlowType::ExecuteTransform), None),
        Ok(LogicalPlan::UpdateDataset(UpdateDataset {
            dataset_id: dataset("a"),
            fetch_uncacheable: false,
        }))
    );
    let full = FlowConfigurationSnapshot::Compaction(CompactionRule::Full(CompactionRuleFull {
        max_slice_size: 1000,
        max_slice_records: 10,
        recursive: false,
    }));
    let compaction = key("a", DatasetFlowType::HardCompaction);
    assert_eq!(
        s.make_task_logical_plan(&compaction, Some(&full)),
        Ok(LogicalPlan::HardCompactionDataset(HardCompactionDataset {
            dataset_id: dataset("a"),
            max_slice_size: Some(1000),
            max_slice_records: Some(10),
            keep_metadata_only: false,
        }))
    );
    let metadata_only = FlowConfigurationSnapshot::Compaction(CompactionRule::MetadataOnly(
        CompactionRuleMetadataOnly { recursive: true },
    ));
    assert_eq!(
        s.make_task_logical_plan(&compaction, Some(&metadata_only)),
        Ok(LogicalPlan::HardCompactionDataset(HardCompactionDataset {
            dataset_id: dataset("a"),
            max_slice_size: None,
            max_slice_records: None,
            keep_metadata_only: true,
        }))
    );
    assert_eq!(
        s.make_task_logical_plan(&compaction, None),
        Ok(LogicalPlan::HardCompactionDataset(HardCompactionDataset {
            dataset_id: dataset("a"),
            max_slice_size: None,
            max_slice_records: None,
            keep_metadata_only: false,
        }))
    );
    assert_eq!(
        s.make_task_logical_plan(&gc(), None),
        Ok(LogicalPlan::Probe(Probe {
            dataset_id: None,
            busy_time: Some(20),
            end_with_outcome: Some(TaskOutcome::Success(FlowResult::Empty)),
        }))
    );
}

#[test]
fn test_reset_needs_configuration() {
    let s = service();
    let reset = key("a", DatasetFlowType::Reset);
    let snapshot = FlowConfigurationSnapshot::Reset(ResetRule {
        new_head_hash: Some(hash("n")),
        old_head_hash: Some(hash("o")),
        recursive: true,
    });
    assert_eq!(
        s.make_task_logical_plan(&reset, Some(&snapshot)),
        Ok(LogicalPlan::Reset(ResetDataset {
            dataset_id: dataset("a"),
            new_head_hash: Some(hash("n")),
            old_head_hash: Some(hash("o")),
            recursive: true,
        }))
    );
    let expected = Err(InternalError::Message(
        "Reset flow cannot be called without configuration".to_owned(),
    ));
    assert_eq!(s.make_task_logical_plan(&reset, None), expected);
    assert_eq!(
        s.make_task_logical_plan(
            &reset,
            Some(&FlowConfigurationSnapshot::Ingest(ingest_rule()))
        ),
        expected
    );
}

#[test]
fn test_dependents_with_transform_rules_are_triggered() {
    let mut s = service();
    s.activate_flow_configuration(
        at(0),
        key("d", DatasetFlowType::ExecuteTransform),
        FlowConfigurationRule::TransformRule(rule(5, 60)),
    );
    let f = flow(9, key("a", DatasetFlowType::Ingest), vec![auto(0)]);
    let result = changed(Some("old"));
    let requests = s.enqueue_dependent_flows(
        at(700),
        &f,
        &result,
        &vec![dataset("x"), dataset("d")],
        &vec![],
    );
    assert_eq!(
        requests,
        vec![TriggerRequest {
            flow_key: key("d", DatasetFlowType::ExecuteTransform),
            trigger: FlowTrigger::InputDatasetFlow(FlowTriggerInputDatasetFlow {
                trigger_time: at(700),
                dataset_id: dataset("a"),
                flow_type: DatasetFlowType::Ingest,
                flow_id: flow_id(9),
                flow_result: result.clone(),
            }),
            context: FlowTriggerContext::Batching(rule(5, 60)),
            config_snapshot: None,
        }]
    );
    assert_eq!(s.enqueue_dependent_flows(at(700), &f, &result, &vec![], &vec![]), vec![]);
}

#[test]
fn test_recursive_compaction_goes_to_own_dependents() {
    let s = service();
    let recursive = FlowConfigurationSnapshot::Compaction(CompactionRule::Full(
        CompactionRuleFull { max_slice_size: 1, max_slice_records: 1, recursive: true },
    ));
    let mut f = flow(9, key("a", DatasetFlowType::HardCompaction), vec![auto(0)]);
    f.config_snapshot = Some(recursive.clone());
    let dependents = vec![dataset("x"), dataset("y")];
    let fk = FlowKeyDataset {
        dataset_id: dataset("a"),
        flow_type: DatasetFlowType::HardCompaction,
    };
    assert!(ownership_matters(&fk, Some(&recursive), &dependents));
    assert!(!ownership_matters(&fk, None, &dependents));
    assert!(!ownership_matters(&fk, Some(&recursive), &vec![]));

    let result = FlowResult::DatasetCompact(hash("c"));
    let requests = s.enqueue_dependent_flows(
        at(700),
        &f,
        &result,
        &dependents,
        &vec![vec![false, false], vec![false, true]],
    );
    assert_eq!(requests.len(), 1);
    assert_eq!(requests[0].flow_key, key("y", DatasetFlowType::HardCompaction));
    assert_eq!(requests[0].context, FlowTriggerContext::Unconditional);
    assert_eq!(
        requests[0].config_snapshot,
        Some(FlowConfigurationSnapshot::Compaction(CompactionRule::MetadataOnly(
            CompactionRuleMetadataOnly { recursive: true }
        )))
    );

    // Without recursion nothing follows
    f.config_snapshot = Some(FlowConfigurationSnapshot::Compaction(CompactionRule::Full(
        CompactionRuleFull { max_slice_size: 1, max_slice_records: 1, recursive: false },
    )));
    assert_eq!(s.enqueue_dependent_flows(at(700), &f, &result, &dependents, &vec![]), vec![]);
}

#[test]
fn test_reset_only_recurses_when_told() {
    let s = service();
    let mut f = flow(9, key("a", DatasetFlowType::Reset), vec![auto(0)]);
    let dependents = vec![dataset("x")];
    let result = FlowResult::DatasetReset(hash("r"));
    assert_eq!(s.enqueue_dependent_flows(at(1), &f, &result, &dependents, &vec![]), vec![]);
    f.config_snapshot = Some(FlowConfigurationSnapshot::Reset(ResetRule {
        new_head_hash: None,
        old_head_hash: None,
        recursive: true,
    }));
    assert_eq!(
        s.enqueue_dependent_flows(at(1), &f, &result, &dependents, &vec![vec![true]]).len(),
        1
    );
}

#[test]
fn test_owners_are_asked_in_turn() {
    assert_eq!(next_owner_to_ask(&vec![], 2), Some(0));
    assert_eq!(next_owner_to_ask(&vec![false], 2), Some(1));
    assert_eq!(next_owner_to_ask(&vec![false, false], 2), None);
    assert_eq!(next_owner_to_ask(&vec![true], 2), None);
    assert_eq!(next_owner_to_ask(&vec![], 0), None);
}

fn news(secs: i64, update_details: FlowServiceUpdateDetails) -> FlowServiceUpdatedMessage {
    FlowServiceUpdatedMessage { update_time: at(secs), update_details }
}

fn running_news(secs: i64) -> FlowServiceUpdatedMessage {
    news(secs, FlowServiceUpdateDetails::FlowRunning)
}

#[test]
fn test_tasks_are_tracked_until_they_finish() {
    let mut s = service();
    let k = key("a", DatasetFlowType::Ingest);
    s.make_new_flow(flow_id(1), k.clone(), auto(0), None);
    s.track_flow_task(flow_id(1), task(4));
    // Not running yet
    assert_eq!(s.on_task_running(task(4), at(13)), None);
    assert_eq!(s.on_task_finished(task(4), at(9_223_372_037)), Ok(None));

    s.start_running();
    assert_eq!(s.on_task_running(task(4), at(13)), Some((flow_id(1), running_news(13))));
    assert_eq!(s.on_task_running(task(5), at(13)), None);
    assert_eq!(s.on_task_finished(task(4), at(13)), Ok(Some((flow_id(1), at(10)))));
    assert_eq!(s.on_task_finished(task(5), at(13)), Ok(None));
    assert_eq!(
        s.on_task_finished(task(5), at(9_223_372_037)),
        Err(InternalError::Rounding(RoundingError::TimestampExceedsLimit))
    );

    s.finish_flow_task(task(4), &k);
    assert_eq!(s.on_task_running(task(4), at(13)), None);
    assert_eq!(s.find_pending_flow(&k), None);
}

#[test]
fn test_flow_repeats_after_success() {
    let mut s = service();
    s.start_running();
    let k = key("a", DatasetFlowType::Ingest);
    let schedule = Schedule::TimeDelta(span(3600));
    let success = TaskOutcome::Success(FlowResult::Empty);

    // No rule is in force
    assert_eq!(s.next_run(&success, at(10), &k), None);

    s.activate_flow_configuration(
        at(0),
        k.clone(),
        FlowConfigurationRule::IngestRule(ingest_rule()),
    );
    let next = s.next_run(&success, at(10), &k).unwrap();
    assert_eq!(next.flow_key, k);
    assert_eq!(next.trigger, auto(10));
    assert_eq!(next.context, FlowTriggerContext::Scheduled(schedule));

    assert_eq!(s.next_run(&TaskOutcome::Failed, at(10), &k), None);
    assert_eq!(s.next_run(&TaskOutcome::Cancelled, at(10), &k), None);
    // Only a schedule makes a flow repeat
    let transform = key("b", DatasetFlowType::ExecuteTransform);
    s.activate_flow_configuration(
        at(0),
        transform.clone(),
        FlowConfigurationRule::TransformRule(rule(1, 60)),
    );
    assert_eq!(s.next_run(&success, at(10), &transform), None);
}

/// A running service with flow 1 pending for `k`, and task 4 working for it.
fn service_at_work(k: &FlowKey) -> FlowServiceImpl {
    let mut s = service();
    s.start_running();
    s.activate_flow_configuration(
        at(0),
        k.clone(),
        FlowConfigurationRule::IngestRule(ingest_rule()),
    );
    s.make_new_flow(flow_id(1), k.clone(), auto(0), None);
    s.track_flow_task(flow_id(1), task(4));
    s
}

fn told(k: &FlowKey, has_result: bool) -> FinishAnswer {
    FinishAnswer::Told(ToldFlow {
        flow_key: k.clone(),
        has_result,
        result_is_empty: false,
        followup_method: FlowSuccessFollowupMethod::TriggerDependent,
    })
}

#[test]
fn test_finished_task_is_forgotten_first_and_told_last() {
    let k = key("a", DatasetFlowType::Ingest);
    let mut s = service_at_work(&k);
    let success = TaskOutcome::Success(changed(None));
    let mut finished = FinishedTask::new(task(4), success, at(13));

    assert_eq!(finished.next(&mut s, FinishAnswer::Begin), FinishAction::Tell(flow_id(1)));
    assert_eq!(s.find_pending_flow(&k), Some(flow_id(1)));

    let action = finished.next(&mut s, told(&k, true));
    assert_eq!(action, FinishAction::TriggerDependents(at(10)));
    assert_eq!(s.find_pending_flow(&k), None);
    assert_eq!(s.on_task_running(task(4), at(13)), None);

    match finished.next(&mut s, FinishAnswer::Triggered) {
        FinishAction::Trigger(request) => {
            assert_eq!(request.flow_key, k);
            assert_eq!(request.trigger, auto(10));
        }
        other => panic!("{:?}", other),
    }
    assert_eq!(
        finished.next(&mut s, FinishAnswer::Triggered),
        FinishAction::Post(news(13, FlowServiceUpdateDetails::FlowFinished))
    );
    assert_eq!(finished.phase, FinishPhase::Over);
}

#[test]
fn test_failed_task_starts_nothing() {
    let k = key("a", DatasetFlowType::Ingest);
    let mut s = service_at_work(&k);
    let mut finished = FinishedTask::new(task(4), TaskOutcome::Failed, at(13));
    assert_eq!(finished.next(&mut s, FinishAnswer::Begin), FinishAction::Tell(flow_id(1)));
    assert_eq!(
        finished.next(&mut s, told(&k, false)),
        FinishAction::Post(news(13, FlowServiceUpdateDetails::FlowFinished))
    );
    assert_eq!(s.find_pending_flow(&k), None);
}

#[test]
fn test_unknown_task_is_ignored() {
    let k = key("a", DatasetFlowType::Ingest);
    let mut s = service_at_work(&k);
    let mut unknown = FinishedTask::new(task(5), TaskOutcome::Failed, at(13));
    assert_eq!(unknown.next(&mut s, FinishAnswer::Begin), FinishAction::Ignore);
    assert_eq!(unknown.phase, FinishPhase::Over);

    let mut far = FinishedTask::new(task(4), TaskOutcome::Failed, at(9_223_372_037));
    assert_eq!(
        far.next(&mut s, FinishAnswer::Begin),
        FinishAction::Fail(InternalError::Rounding(RoundingError::TimestampExceedsLimit))
    );
    assert_eq!(s.find_pending_flow(&k), Some(flow_id(1)));

    let mut idle = service();
    let mut early = FinishedTask::new(task(4), TaskOutcome::Failed, at(9_223_372_037));
    assert_eq!(early.next(&mut idle, FinishAnswer::Begin), FinishAction::Ignore);
}

#[test]
fn test_trigger_makes_one_pending_flow() {
    let mut s = service();
    let k = key("a", DatasetFlowType::Ingest);
    let none = stats(None, None);
    assert_eq!(s.trigger_flow_common(&k, None), TriggerTarget::New(None));
    let f = s.make_new_flow(flow_id(1), k.clone(), auto(500), None);
    let scheduled = FlowTriggerContext::Scheduled(Schedule::TimeDelta(span(60)));
    for step in s.plan_new_flow(&f, at(500), &scheduled, &none, Some(at(560)), &vec![]) {
        s.apply(flow_id(1), &step);
    }
    assert_eq!(s.find_pending_flow(&k), Some(flow_id(1)));
    assert_eq!(s.find_planned_flow_activation_time(flow_id(1)), Some(at(560)));

    // Another trigger makes no second flow, and moves it earlier
    assert_eq!(s.trigger_flow_common(&k, None), TriggerTarget::Pending(flow_id(1)));
    let unconditional = FlowTriggerContext::Unconditional;
    for step in s.plan_pending_flow(&f, at(510), &unconditional, &none, &vec![]) {
        s.apply(flow_id(1), &step);
    }
    assert_eq!(s.find_pending_flow(&k), Some(flow_id(1)));
    assert_eq!(s.find_planned_flow_activation_time(flow_id(1)), Some(at(510)));
    // A later one leaves it where it is
    for step in s.plan_pending_flow(&f, at(520), &unconditional, &none, &vec![]) {
        s.apply(flow_id(1), &step);
    }
    assert_eq!(s.find_planned_flow_activation_time(flow_id(1)), Some(at(510)));
}

#[test]
fn test_main_loop() {
    let mut s = service();
    s.enqueue_flow(flow_id(1), at(20));
    s.enqueue_flow(flow_id(2), at(20));
    s.enqueue_flow(flow_id(3), at(90));
    assert_eq!(begin(&mut s, at(13)), Ok(at(10)));
    assert!(s.is_running());

    let transform = FlowConfiguration {
        flow_key: key("b", DatasetFlowType::ExecuteTransform),
        rule: FlowConfigurationRule::TransformRule(rule(1, 60)),
    };
    let system = FlowConfiguration {
        flow_key: gc(),
        rule: FlowConfigurationRule::Schedule(Schedule::TimeDelta(span(60))),
    };
    let mut run = FlowServiceRun::new(at(10), &vec![transform, system]);

    // Configurations come into force, schedules first
    assert_eq!(run.next_configuration().unwrap().flow_key, gc());
    match run.next(&mut s, at(30)) {
        RunAction::Trigger(Some(request)) => {
            assert_eq!(request.flow_key, gc());
            assert_eq!(request.trigger, auto(10));
        }
        other => panic!("{:?}", other),
    }
    match run.next(&mut s, at(30)) {
        RunAction::Trigger(Some(request)) => {
            assert_eq!(request.flow_key, key("b", DatasetFlowType::ExecuteTransform));
            assert_eq!(request.context, FlowTriggerContext::Unconditional);
        }
        other => panic!("{:?}", other),
    }
    assert_eq!(run.next_configuration(), None);

    // That is told before anything else
    assert_eq!(
        run.next(&mut s, at(30)),
        RunAction::Post(news(10, FlowServiceUpdateDetails::Loaded))
    );

    // The nearest timeslot has not come
    assert_eq!(run.next(&mut s, at(19)), RunAction::Sleep(span(10)));
    assert_eq!(run.next(&mut s, at(19)), RunAction::Sleep(span(10)));

    // It has come, and is told about once
    match run.next(&mut s, at(100)) {
        RunAction::RunTimeslot(timeslot, mut flow_ids) => {
            flow_ids.sort_by_key(|f| f.id);
            assert_eq!(timeslot, at(20));
            assert_eq!(flow_ids, vec![flow_id(1), flow_id(2)]);
        }
        other => panic!("{:?}", other),
    }
    assert_eq!(
        run.next(&mut s, at(100)),
        RunAction::Post(news(20, FlowServiceUpdateDetails::ExecutedTimeslot))
    );
    assert_eq!(run.next(&mut s, at(100)), RunAction::Sleep(span(10)));

    // The next one is only executed after a rest
    assert_eq!(
        run.next(&mut s, at(110)),
        RunAction::RunTimeslot(at(90), vec![flow_id(3)])
    );
    assert_eq!(
        run.next(&mut s, at(110)),
        RunAction::Post(news(90, FlowServiceUpdateDetails::ExecutedTimeslot))
    );
    assert_eq!(run.next(&mut s, at(110)), RunAction::Sleep(span(10)));
    assert_eq!(run.next(&mut s, at(120)), RunAction::Sleep(span(10)));
}

#[test]
fn test_main_loop_without_configurations() {
    let mut s = service();
    let mut run = FlowServiceRun::new(at(10), &vec![]);
    assert_eq!(run.next_configuration(), None);
    assert_eq!(
        run.next(&mut s, at(10)),
        RunAction::Post(news(10, FlowServiceUpdateDetails::Loaded))
    );
    assert_eq!(run.next(&mut s, at(10)), RunAction::Sleep(span(10)));
}

#[test]
fn test_main_loop_needs_a_moment_on_the_grid() {
    let mut s = service();
    assert_eq!(
        begin(&mut s, at(9_223_372_037)),
        Err(InternalError::Rounding(RoundingError::TimestampExceedsLimit))
    );
    assert!(s.is_running());
}

#[test]
fn test_system_flows_only_run_by_schedule() {
    let schedule = FlowConfigurationRule::Schedule(Schedule::TimeDelta(span(60)));
    let batching = FlowConfigurationRule::TransformRule(rule(1, 60));
    assert!(is_supported(&gc(), &schedule));
    assert!(!is_supported(&gc(), &batching));
    assert!(is_supported(&key("a", DatasetFlowType::Ingest), &schedule));
    assert!(is_supported(&key("a", DatasetFlowType::ExecuteTransform), &batching));
}

#[test]
fn test_input_is_asked_about_when_it_matters() {
    let mut f = flow(
        1,
        key("a", DatasetFlowType::ExecuteTransform),
        vec![input_trigger(500, "in", changed(Some("old")))],
    );
    let batching = FlowTriggerContext::Batching(rule(1, 60));
    let query = IncrementQuery { dataset_id: dataset("in"), old_head: Some(hash("old")) };

    assert_eq!(increments_for(&f, &batching, false), vec![query]);
    assert_eq!(increments_for(&f, &FlowTriggerContext::Unconditional, false), vec![]);
    // A pending flow that waits for something else is not judged by its input
    assert_eq!(increments_for(&f, &batching, true), vec![]);
    f.start_condition = Some(FlowStartCondition::Batching(FlowStartConditionBatching {
        active_transform_rule: rule(1, 60),
        batching_deadline: at(560),
    }));
    assert_eq!(increments_for(&f, &batching, true).len(), 1);
    assert_eq!(increments_for(&f, &FlowTriggerContext::Unconditional, true), vec![]);
}

#[test]
fn test_flows_that_can_be_planned() {
    let mut s = service();
    let f = flow(1, key("a", DatasetFlowType::Ingest), vec![auto(500)]);
    let none = stats(None, None);
    let scheduled = FlowTriggerContext::Scheduled(Schedule::TimeDelta(span(60)));
    let batching = FlowTriggerContext::Batching(rule(1, 60));

    assert!(s.can_plan_new_flow(&f, &FlowTriggerContext::Unconditional, &none, None, &vec![]));
    assert!(s.can_plan_new_flow(&f, &scheduled, &none, Some(at(560)), &vec![]));
    assert!(!s.can_plan_new_flow(&f, &scheduled, &none, None, &vec![]));

    assert!(!s.can_plan_pending_flow(&f, &FlowTriggerContext::Unconditional, &none, &vec![]));
    assert!(s.can_plan_pending_flow(&f, &batching, &none, &vec![]));
    s.enqueue_flow(flow_id(1), at(900));
    assert!(s.can_plan_pending_flow(&f, &FlowTriggerContext::Unconditional, &none, &vec![]));
}

#[test]
fn test_followup_of_success() {
    let s = service();
    let trigger = FlowSuccessFollowupMethod::TriggerDependent;
    assert!(s.followup_triggers_dependents(true, false, trigger));
    assert!(!s.followup_triggers_dependents(true, true, trigger));
    assert!(!s.followup_triggers_dependents(false, false, trigger));
    assert!(!s.followup_triggers_dependents(true, false, FlowSuccessFollowupMethod::Ignore));
}

#[test]
fn test_aborted_flow_frees_its_tasks() {
    let mut s = service();
    s.start_running();
    let mut f = flow(1, key("a", DatasetFlowType::Ingest), vec![auto(0)]);
    f.task_ids = vec![task(4), task(5)];
    s.track_flow_task(flow_id(1), task(4));
    s.track_flow_task(flow_id(1), task(5));
    s.track_flow_task(flow_id(2), task(6));
    assert_eq!(s.abort_flow_impl(&f), vec![task(4), task(5)]);
    assert_eq!(s.on_task_running(task(4), at(13)), None);
    assert_eq!(s.on_task_running(task(5), at(13)), None);
    assert_eq!(s.on_task_running(task(6), at(7)), Some((flow_id(2), running_news(7))));
}

#[test]
fn test_cancelling_a_finished_flow_does_nothing() {
    let s = service();
    let mut f = flow(1, key("a", DatasetFlowType::Ingest), vec![auto(0)]);
    assert!(s.cancel_scheduled_tasks(&f));
    f.status = FlowStatus::Running;
    assert!(s.cancel_scheduled_tasks(&f));
    f.status = FlowStatus::Finished;
    assert!(!s.cancel_scheduled_tasks(&f));
}

#[test]
fn test_mimic_flow_scheduled_needs_a_planned_flow() {
    let mut s = service();
    s.enqueue_flow(flow_id(1), at(5));
    assert_eq!(s.mimic_flow_scheduled(flow_id(1)), Ok(()));
    assert_eq!(
        s.mimic_flow_scheduled(flow_id(1)),
        Err(InternalError::NotPlanned(FlowNotPlanned { flow_id: flow_id(1) }))
    );
    assert_eq!(
        s.executor_condition(task(3)),
        FlowStartCondition::Executor(FlowStartConditionExecutor { task_id: task(3) })
    );
}

fn update(flow_key: FlowKey, paused: bool) -> FlowConfigurationUpdatedMessage {
    FlowConfigurationUpdatedMessage {
        event_time: at(17),
        flow_key,
        paused,
        rule: FlowConfigurationRule::IngestRule(ingest_rule()),
    }
}

#[test]
fn test_configuration_news_before_running_is_ignored() {
    let mut s = service();
    let k = key("a", DatasetFlowType::Ingest);
    assert_eq!(s.on_configuration_updated(&update(k.clone(), false)), Ok(ConfigurationStep::Nothing));
    assert_eq!(s.trigger_flow_common(&k, None), TriggerTarget::New(None));
    assert_eq!(s.on_dataset_deleted(&dataset("a")), Ok(vec![]));
}

#[test]
fn test_configuration_news_is_acted_upon() {
    let mut s = service();
    s.mimic_running_started();
    let k = key("a", DatasetFlowType::Ingest);
    assert_eq!(
        s.on_configuration_updated(&update(k.clone(), false)),
        Ok(ConfigurationStep::Trigger(TriggerRequest {
            flow_key: k.clone(),
            trigger: auto(20),
            context: FlowTriggerContext::Scheduled(Schedule::TimeDelta(span(3600))),
            config_snapshot: None,
        }))
    );
    s.make_new_flow(flow_id(1), k.clone(), auto(20), None);
    s.enqueue_flow(flow_id(1), at(20));
    assert_eq!(
        s.on_configuration_updated(&update(k.clone(), true)),
        Ok(ConfigurationStep::Abort(flow_id(1)))
    );
    assert_eq!(s.find_pending_flow(&k), None);
    assert_eq!(s.find_planned_flow_activation_time(flow_id(1)), None);
    assert_eq!(s.trigger_flow_common(&k, None), TriggerTarget::New(None));
    assert_eq!(s.on_configuration_updated(&update(k.clone(), true)), Ok(ConfigurationStep::Nothing));

    // Pending, but under way and no longer planned
    s.make_new_flow(flow_id(2), k.clone(), auto(20), None);
    assert_eq!(
        s.on_configuration_updated(&update(k, true)),
        Err(InternalError::NotPlanned(FlowNotPlanned { flow_id: flow_id(2) }))
    );
}

#[test]
fn test_deleted_dataset_is_forgotten() {
    let mut s = service();
    s.start_running();
    for (i, flow_type) in DatasetFlowType::all().into_iter().enumerate() {
        let id = flow_id(i as u64);
        s.make_new_flow(id, key("a", flow_type), auto(0), None);
        s.enqueue_flow(id, at(50));
        s.activate_flow_configuration(
            at(0),
            key("a", flow_type),
            FlowConfigurationRule::TransformRule(rule(1, 1)),
        );
    }
    s.make_new_flow(flow_id(10), key("b", DatasetFlowType::Ingest), auto(0), None);
    s.enqueue_flow(flow_id(10), at(60));

    assert_eq!(
        s.on_dataset_deleted(&dataset("a")),
        Ok(vec![flow_id(0), flow_id(1), flow_id(2), flow_id(3)])
    );
    for flow_type in DatasetFlowType::all() {
        assert_eq!(s.trigger_flow_common(&key("a", flow_type), None), TriggerTarget::New(None));
    }
    assert_eq!(s.find_pending_flow(&key("b", DatasetFlowType::Ingest)), Some(flow_id(10)));
    assert_eq!(s.due_timeslot(at(1000)), Some(at(60)));
}

#[test]
fn test_deletion_stops_at_a_flow_that_is_not_planned() {
    let mut s = service();
    s.start_running();
    s.make_new_flow(flow_id(1), key("a", DatasetFlowType::Ingest), auto(0), None);
    s.enqueue_flow(flow_id(1), at(50));
    s.make_new_flow(flow_id(2), key("a", DatasetFlowType::ExecuteTransform), auto(0), None);
    s.make_new_flow(flow_id(3), key("a", DatasetFlowType::Reset), auto(0), None);
    s.enqueue_flow(flow_id(3), at(50));
    assert_eq!(
        s.on_dataset_deleted(&dataset("a")),
        Err(InternalError::NotPlanned(FlowNotPlanned { flow_id: flow_id(2) }))
    );
    assert_eq!(s.find_pending_flow(&key("a", DatasetFlowType::Ingest)), None);
    assert_eq!(s.find_pending_flow(&key("a", DatasetFlowType::ExecuteTransform)), None);
    assert_eq!(s.find_pending_flow(&key("a", DatasetFlowType::Reset)), Some(flow_id(3)));
    assert_eq!(s.find_planned_flow_activation_time(flow_id(3)), Some(at(50)));
}

#[test]
fn test_deleted_dataset_stays_quiet() {
    let mut s = service();
    s.start_running();
    s.activate_flow_configuration(
        at(0),
        key("d", DatasetFlowType::ExecuteTransform),
        FlowConfigurationRule::TransformRule(rule(5, 60)),
    );
    s.activate_flow_configuration(
        at(0),
        key("d", DatasetFlowType::Ingest),
        FlowConfigurationRule::IngestRule(ingest_rule()),
    );
    let f = flow(9, key("a", DatasetFlowType::Ingest), vec![auto(0)]);
    let dependents = vec![dataset("d")];
    assert_eq!(
        s.enqueue_dependent_flows(at(1), &f, &changed(None), &dependents, &vec![]).len(),
        1
    );
    assert_eq!(s.on_dataset_deleted(&dataset("d")), Ok(vec![]));
    assert_eq!(
        s.enqueue_dependent_flows(at(1), &f, &changed(None), &dependents, &vec![]),
        vec![]
    );
    assert_eq!(
        s.try_enqueue_scheduled_auto_polling_flow_if_enabled(
            at(1),
            &key("d", DatasetFlowType::Ingest)
        ),
        None
    );
}

#[test]
fn test_steps_concern_one_flow() {
    let mut s = service();
    s.enqueue_flow(flow_id(2), at(70));
    let f = flow(1, key("a", DatasetFlowType::Ingest), vec![auto(500)]);
    let steps = s.plan_new_flow(
        &f,
        at(500),
        &FlowTriggerContext::Scheduled(Schedule::TimeDelta(span(60))),
        &stats(None, Some(450)),
        Some(at(560)),
        &vec![],
    );
    for step in &steps {
        s.apply(flow_id(1), step);
    }
    assert_eq!(s.find_planned_flow_activation_time(flow_id(1)), Some(at(560)));
    assert_eq!(s.find_planned_flow_activation_time(flow_id(2)), Some(at(70)));
    assert!(!s.due_timeslot(at(69)).is_some());
}

#[test]
fn test_rules_that_can_be_judged() {
    let trigger = || input_trigger(500, "a", changed(None));
    let f = flow(1, key("d", DatasetFlowType::ExecuteTransform), vec![trigger()]);
    assert!(is_evaluable(&f, &rule(1, 60), &vec![increment(1, None)]));
    assert!(!is_evaluable(&f, &rule(1, 60), &vec![]));
    assert!(!is_evaluable(&f, &rule(1, 9_000_000_000_000), &vec![increment(1, None)]));
    let two = flow(1, key("d", DatasetFlowType::HardCompaction), vec![trigger(), trigger()]);
    assert!(!is_evaluable(
        &two,
        &rule(1, 60),
        &vec![increment(u64::MAX, None), increment(1, None)]
    ));
    let ingest = flow(1, key("d", DatasetFlowType::Ingest), vec![trigger()]);
    assert!(!is_evaluable(&ingest, &rule(1, 60), &vec![increment(1, None)]));
    let untriggered = flow(1, key("d", DatasetFlowType::ExecuteTransform), vec![]);
    assert!(!is_evaluable(&untriggered, &rule(1, 60), &vec![]));
}
