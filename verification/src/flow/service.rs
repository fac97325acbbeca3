//! The flow service: what is configured, what is pending, what is planned, and
//! what to do when something happens.

use vstd::prelude::*;

use crate::error::InternalError;
use crate::flow::active_configs::ActiveConfigsState;
use crate::flow::downstream;
use crate::flow::pending_flows::PendingFlowsState;
use crate::flow::task_plan;
use crate::flow::time_wheel::FlowTimeWheel;
use crate::flow::triggering;
use crate::flow::triggering::FlowAction;
use crate::flow::types::{
    CompactionRule, DatasetFlowType, DatasetIntervalIncrement, DownstreamDependencyFlowPlan,
    FlowConfigurationRule, FlowConfigurationSnapshot, FlowKey, FlowKeyDataset, FlowKeyView, FlowResult, FlowRunStats,
    FlowServiceUpdateDetails, FlowServiceUpdatedMessage, FlowStartCondition,
    FlowStartConditionExecutor, FlowState, FlowStatus, FlowTrigger, FlowTriggerAutoPolling,
    FlowTriggerContext, FlowTriggerInputDatasetFlow, FlowTriggerManual, LogicalPlan, Schedule,
    SystemFlowType, TaskOutcome,
};
use crate::ids::{AccountID, DatasetID, FlowID, TaskID};
use crate::time::{DateTime, TimeDelta};

verus! {

#[derive(Debug, Clone, Copy, PartialEq, Eq, Structural)]
pub struct FlowServiceRunConfig {
    /// The grid to which moments are rounded, and the pace of the main loop
    pub awaiting_step: TimeDelta,
    /// The least time between two attempts of a flow
    pub mandatory_throttling_period: TimeDelta,
}

#[derive(Debug)]
pub struct FlowServiceImpl {
    active_configs: ActiveConfigsState,
    pending_flows: PendingFlowsState,
    time_wheel: FlowTimeWheel,
    running: bool,
    run_config: FlowServiceRunConfig,
}

/// What the service knows at a moment.
#[verifier::ext_equal]
pub struct FlowServiceView {
    pub running: bool,
    /// The rules of dataset flows
    pub rules: Map<(Seq<char>, DatasetFlowType), FlowConfigurationRule>,
    /// The schedules of system flows
    pub schedules: Map<SystemFlowType, Schedule>,
    /// The flow pending for each key
    pub pending: Map<FlowKeyView, FlowID>,
    /// The flow each tracked task works for
    pub by_task: Map<TaskID, FlowID>,
    /// The moment planned for each flow
    pub planned: Map<FlowID, DateTime>,
}

/// A request to trigger a flow.
#[derive(Debug, PartialEq, Eq)]
pub struct TriggerRequest {
    pub flow_key: FlowKey,
    pub trigger: FlowTrigger,
    pub context: FlowTriggerContext,
    pub config_snapshot: Option<FlowConfigurationSnapshot>,
}

/// What a trigger applies to.
#[derive(Debug, PartialEq, Eq)]
pub enum TriggerTarget {
    /// A flow that is pending already
    Pending(FlowID),
    /// A flow that has to be created with this configuration
    New(Option<FlowConfigurationSnapshot>),
}

/// News of a configuration: it was changed, or paused.
#[derive(Debug, PartialEq, Eq)]
pub struct FlowConfigurationUpdatedMessage {
    pub event_time: DateTime,
    pub flow_key: FlowKey,
    pub paused: bool,
    pub rule: FlowConfigurationRule,
}

/// What follows from news of a configuration.
#[derive(Debug, PartialEq, Eq)]
pub enum ConfigurationStep {
    Nothing,
    /// Abort this flow, which was pending
    Abort(FlowID),
    /// Trigger a flow
    Trigger(TriggerRequest),
}

/// What the success of a flow means for its dependents.
#[derive(Debug, Clone, Copy, PartialEq, Eq, Structural)]
pub enum FlowSuccessFollowupMethod {
    Ignore,
    TriggerDependent,
}

/// The progress of dropping the pending flows of a dataset, kind by kind.
#[verifier::ext_equal]
pub struct Dropping {
    pub pending: Map<FlowKeyView, FlowID>,
    pub planned: Map<FlowID, DateTime>,
    /// The flows dropped so far
    pub dropped: Seq<FlowID>,
    /// The flow that was pending but not planned, which ends the dropping
    pub failed: Option<FlowID>,
}

/// Drops the pending flow of one kind, and its planned activation.
pub open spec fn drop_kind(d: Dropping, id: Seq<char>, flow_type: DatasetFlowType) -> Dropping {
    let key = FlowKeyView::Dataset(id, flow_type);
    if d.failed is Some || !d.pending.contains_key(key) {
        d
    } else {
        let flow_id = d.pending[key];
        Dropping {
            pending: d.pending.remove(key),
            planned: d.planned.remove(flow_id),
            dropped: d.dropped.push(flow_id),
            failed: if d.planned.contains_key(flow_id) {
                None
            } else {
                Some(flow_id)
            },
        }
    }
}

/// Drops the pending flows of each kind in turn, up to the first that was not
/// planned.
pub open spec fn drop_kinds(
    pending: Map<FlowKeyView, FlowID>,
    planned: Map<FlowID, DateTime>,
    id: Seq<char>,
    kinds: Seq<DatasetFlowType>,
) -> Dropping
    decreases kinds.len(),
{
    if kinds.len() == 0 {
        Dropping { pending, planned, dropped: Seq::empty(), failed: None }
    } else {
        drop_kind(drop_kinds(pending, planned, id, kinds.drop_last()), id, kinds.last())
    }
}

/// The outcome of dropping all pending flows of a dataset.
pub open spec fn drop_dataset_flows(view: FlowServiceView, id: Seq<char>) -> Dropping {
    drop_kinds(
        view.pending,
        view.planned,
        id,
        crate::flow::types::all_dataset_flow_types(),
    )
}

impl View for FlowServiceImpl {
    type V = FlowServiceView;

    closed spec fn view(&self) -> FlowServiceView {
        FlowServiceView {
            running: self.running,
            rules: self.active_configs.datasets(),
            schedules: self.active_configs.system(),
            pending: self.pending_flows.pending(),
            by_task: self.pending_flows.by_task(),
            planned: self.time_wheel@,
        }
    }
}

/// A moment rounded to the grid of the service.
pub open spec fn rounded(time: DateTime, step: TimeDelta) -> Result<DateTime, InternalError> {
    if !crate::time::step_usable(step.span()) {
        Err(InternalError::Rounding(crate::time::RoundingError::DurationExceedsLimit))
    } else if !crate::time::stamp_usable(time) {
        Err(InternalError::Rounding(crate::time::RoundingError::TimestampExceedsLimit))
    } else {
        Ok(crate::time::rounded_to(time, step.span()))
    }
}

/// An automatic trigger by a schedule.
pub open spec fn scheduled_request(
    start_time: DateTime,
    flow_key: FlowKey,
    schedule: Schedule,
) -> TriggerRequest {
    TriggerRequest {
        flow_key,
        trigger: FlowTrigger::AutoPolling(FlowTriggerAutoPolling { trigger_time: start_time }),
        context: FlowTriggerContext::Scheduled(schedule),
        config_snapshot: None,
    }
}

/// An automatic trigger without a condition.
pub open spec fn unconditional_request(start_time: DateTime, flow_key: FlowKey) -> TriggerRequest {
    TriggerRequest {
        flow_key,
        trigger: FlowTrigger::AutoPolling(FlowTriggerAutoPolling { trigger_time: start_time }),
        context: FlowTriggerContext::Unconditional,
        config_snapshot: None,
    }
}

/// News of the service.
pub open spec fn news(
    update_time: DateTime,
    update_details: FlowServiceUpdateDetails,
) -> FlowServiceUpdatedMessage {
    FlowServiceUpdatedMessage { update_time, update_details }
}

/// The next run of a flow whose task has finished: only after success, and only if
/// the flow repeats by a schedule.
pub open spec fn next_cycle(
    view: FlowServiceView,
    outcome: TaskOutcome,
    finish_time: DateTime,
    flow_key: FlowKey,
) -> Option<TriggerRequest> {
    match (
        outcome,
        crate::flow::active_configs::repeat_schedule(flow_key@, view.rule(flow_key@)),
    ) {
        (TaskOutcome::Success(_), Some(schedule)) => Some(
            scheduled_request(finish_time, flow_key, schedule),
        ),
        _ => None,
    }
}

/// The trigger that a rule causes once it comes into force.
pub open spec fn activation_request(
    start_time: DateTime,
    flow_key: FlowKey,
    rule: FlowConfigurationRule,
) -> Option<TriggerRequest> {
    match (flow_key, rule) {
        (FlowKey::Dataset(_), FlowConfigurationRule::TransformRule(_)) => Some(
            unconditional_request(start_time, flow_key),
        ),
        (FlowKey::Dataset(_), FlowConfigurationRule::IngestRule(ingest)) => Some(
            scheduled_request(start_time, flow_key, ingest.schedule_condition),
        ),
        (FlowKey::System(_), FlowConfigurationRule::Schedule(schedule)) => Some(
            scheduled_request(start_time, flow_key, schedule),
        ),
        _ => None,
    }
}

impl FlowServiceView {
    /// The rule for the key is in force.
    pub open spec fn with_rule(self, flow_key: FlowKey, rule: FlowConfigurationRule) -> Self {
        match flow_key {
            FlowKey::Dataset(key) => FlowServiceView {
                rules: self.rules.insert(key@, rule),
                ..self
            },
            FlowKey::System(key) => FlowServiceView {
                schedules: self.schedules.insert(key.flow_type, rule->Schedule_0),
                ..self
            },
        }
    }

    /// No rule for the key is in force.
    pub open spec fn without_rule(self, key: FlowKeyView) -> Self {
        match key {
            FlowKeyView::Dataset(id, flow_type) => FlowServiceView {
                rules: self.rules.remove((id, flow_type)),
                ..self
            },
            FlowKeyView::System(flow_type) => FlowServiceView {
                schedules: self.schedules.remove(flow_type),
                ..self
            },
        }
    }

    /// The rule in force for the key.
    pub open spec fn rule(self, key: FlowKeyView) -> Option<FlowConfigurationRule> {
        crate::flow::active_configs::rule_for(self.rules, self.schedules, key)
    }
}

/// A rule that the service can put in force: system flows only run by schedule.
pub open spec fn supported(flow_key: FlowKey, rule: FlowConfigurationRule) -> bool {
    flow_key is System ==> rule is Schedule
}

/// Whether the service can put the rule in force.
pub fn is_supported(flow_key: &FlowKey, rule: &FlowConfigurationRule) -> (r: bool)
    ensures
        r == supported(*flow_key, *rule),
{
    match (flow_key, rule) {
        (FlowKey::System(_), FlowConfigurationRule::Schedule(_)) => true,
        (FlowKey::System(_), _) => false,
        (FlowKey::Dataset(_), _) => true,
    }
}

impl FlowServiceImpl {
    pub closed spec fn wf(&self) -> bool {
        &&& self.active_configs.wf()
        &&& self.pending_flows.wf()
        &&& self.time_wheel.wf()
    }

    pub closed spec fn config(&self) -> FlowServiceRunConfig {
        self.run_config
    }

    /// A pending flow that was triggered again can be planned: it is planned already,
    /// or its input can be judged where it waits for a batch.
    pub open spec fn plannable_again(
        &self,
        flow: FlowState,
        context: FlowTriggerContext,
        flow_run_stats: FlowRunStats,
        increments: Seq<DatasetIntervalIncrement>,
    ) -> bool {
        &&& triggering::boundary_in_range(
            flow_run_stats.last_attempt_time,
            self.config().mandatory_throttling_period,
        )
        &&& match context {
            FlowTriggerContext::Batching(rule) => triggering::waits_for_batch(flow)
                ==> triggering::can_evaluate(flow, rule, increments),
            _ => self@.planned.contains_key(flow.flow_id),
        }
    }

    /// A new flow can be planned: what its trigger asks for is known.
    pub open spec fn plannable(
        &self,
        flow: FlowState,
        context: FlowTriggerContext,
        flow_run_stats: FlowRunStats,
        naive_next_activation_time: Option<DateTime>,
        increments: Seq<DatasetIntervalIncrement>,
    ) -> bool {
        &&& triggering::boundary_in_range(
            flow_run_stats.last_attempt_time,
            self.config().mandatory_throttling_period,
        )
        &&& match context {
            FlowTriggerContext::Batching(rule) => triggering::can_evaluate(
                flow,
                rule,
                increments,
            ),
            FlowTriggerContext::Scheduled(_) => naive_next_activation_time is Some,
            FlowTriggerContext::Unconditional => true,
        }
    }

    pub fn new(run_config: FlowServiceRunConfig) -> (r: Self)
        ensures
            r.wf(),
            r.config() == run_config,
            r@ == (FlowServiceView {
                running: false,
                rules: Map::empty(),
                schedules: Map::empty(),
                pending: Map::empty(),
                by_task: Map::empty(),
                planned: Map::empty(),
            }),
    {
        FlowServiceImpl {
            active_configs: ActiveConfigsState::new(),
            pending_flows: PendingFlowsState::new(),
            time_wheel: FlowTimeWheel::new(),
            running: false,
            run_config,
        }
    }

    /// A moment on the grid of the service.
    pub fn round_time(&self, time: DateTime) -> (r: Result<DateTime, InternalError>)
        ensures
            r == rounded(time, self.config().awaiting_step),
    {
        match time.duration_round(self.run_config.awaiting_step) {
            Ok(rounded_time) => Ok(rounded_time),
            Err(e) => Err(InternalError::Rounding(e)),
        }
    }

    /// Running has started: from now on messages are acted upon.
    pub fn start_running(&mut self)
        requires
            old(self).wf(),
        ensures
            final(self).wf(),
            final(self).config() == old(self).config(),
            final(self)@ == (FlowServiceView { running: true, ..old(self)@ }),
    {
        self.running = true;
    }

    /// The pace of the main loop.
    pub fn awaiting_step(&self) -> (r: TimeDelta)
        ensures
            r == self.config().awaiting_step,
    {
        self.run_config.awaiting_step
    }

    pub fn is_running(&self) -> (r: bool)
        ensures
            r == self@.running,
    {
        self.running
    }

    /// Pretends running started
    pub fn mimic_running_started(&mut self)
        requires
            old(self).wf(),
        ensures
            final(self).wf(),
            final(self).config() == old(self).config(),
            final(self)@ == (FlowServiceView { running: true, ..old(self)@ }),
    {
        self.start_running();
    }

    /// Puts a rule in force, and says which flow that triggers. Compaction and
    /// reset are dangerous operations and do not run on activation; a schedule
    /// only runs system flows.
    pub fn activate_flow_configuration(
        &mut self,
        start_time: DateTime,
        flow_key: FlowKey,
        rule: FlowConfigurationRule,
    ) -> (r: Option<TriggerRequest>)
        requires
            old(self).wf(),
            supported(flow_key, rule),
        ensures
            final(self).wf(),
            final(self).config() == old(self).config(),
            final(self)@ == old(self)@.with_rule(flow_key, rule),
            r == activation_request(start_time, flow_key, rule),
    {
        match &flow_key {
            FlowKey::Dataset(dataset_flow_key) => {
                self.active_configs.add_dataset_flow_config(dataset_flow_key, rule.clone());

                match &rule {
                    FlowConfigurationRule::TransformRule(_) => Some(
                        self.enqueue_auto_polling_flow_unconditionally(start_time, &flow_key),
                    ),
                    FlowConfigurationRule::CompactionRule(_)
                    | FlowConfigurationRule::Schedule(_)
                    | FlowConfigurationRule::ResetRule(_) => None,
                    FlowConfigurationRule::IngestRule(ingest_rule) => Some(
                        self.enqueue_scheduled_auto_polling_flow(
                            start_time,
                            &flow_key,
                            &ingest_rule.schedule_condition,
                        ),
                    ),
                }
            },
            FlowKey::System(system_flow_key) => {
                if let FlowConfigurationRule::Schedule(schedule) = &rule {
                    self.active_configs.add_system_flow_config(
                        system_flow_key.flow_type,
                        schedule.clone(),
                    );
                    Some(self.enqueue_scheduled_auto_polling_flow(start_time, &flow_key, schedule))
                } else {
                    None
                }
            },
        }
    }

    /// The next run of a flow that repeats by a schedule, if it does.
    pub fn try_enqueue_scheduled_auto_polling_flow_if_enabled(
        &self,
        start_time: DateTime,
        flow_key: &FlowKey,
    ) -> (r: Option<TriggerRequest>)
        requires
            self.wf(),
        ensures
            r == (match crate::flow::active_configs::repeat_schedule(
                flow_key@,
                self@.rule(flow_key@),
            ) {
                Some(schedule) => Some(scheduled_request(start_time, *flow_key, schedule)),
                None => None,
            }),
    {
        match self.active_configs.try_get_flow_schedule(flow_key) {
            Some(active_schedule) => Some(
                self.enqueue_scheduled_auto_polling_flow(start_time, flow_key, &active_schedule),
            ),
            None => None,
        }
    }

    fn enqueue_scheduled_auto_polling_flow(
        &self,
        start_time: DateTime,
        flow_key: &FlowKey,
        schedule: &Schedule,
    ) -> (r: TriggerRequest)
        ensures
            r == scheduled_request(start_time, *flow_key, *schedule),
    {
        TriggerRequest {
            flow_key: flow_key.clone(),
            trigger: FlowTrigger::AutoPolling(FlowTriggerAutoPolling { trigger_time: start_time }),
            context: FlowTriggerContext::Scheduled(schedule.clone()),
            config_snapshot: None,
        }
    }

    fn enqueue_auto_polling_flow_unconditionally(
        &self,
        start_time: DateTime,
        flow_key: &FlowKey,
    ) -> (r: TriggerRequest)
        ensures
            r == unconditional_request(start_time, *flow_key),
    {
        // Very similar to manual trigger, but automatic reasons
        TriggerRequest {
            flow_key: flow_key.clone(),
            trigger: FlowTrigger::AutoPolling(FlowTriggerAutoPolling { trigger_time: start_time }),
            context: FlowTriggerContext::Unconditional,
            config_snapshot: None,
        }
    }

    /// Triggers the specified flow manually, unless it's already waiting
    pub fn trigger_manual_flow(
        &self,
        trigger_time: DateTime,
        flow_key: FlowKey,
        initiator_account_id: AccountID,
        config_snapshot_maybe: Option<FlowConfigurationSnapshot>,
    ) -> (r: Result<TriggerRequest, InternalError>)
        ensures
            r == manual_request(
                trigger_time,
                self.config().awaiting_step,
                flow_key,
                initiator_account_id,
                config_snapshot_maybe,
            ),
    {
        match self.round_time(trigger_time) {
            Ok(activation_time) => Ok(
                TriggerRequest {
                    flow_key,
                    trigger: FlowTrigger::Manual(
                        FlowTriggerManual { trigger_time: activation_time, initiator_account_id },
                    ),
                    context: FlowTriggerContext::Unconditional,
                    config_snapshot: config_snapshot_maybe,
                },
            ),
            Err(e) => Err(e),
        }
    }

    pub fn find_pending_flow(&self, flow_key: &FlowKey) -> (r: Option<FlowID>)
        requires
            self.wf(),
        ensures
            r == crate::flow::pending_flows::lookup(self@.pending, flow_key@),
    {
        self.pending_flows.try_get_pending_flow(flow_key)
    }

    pub fn find_planned_flow_activation_time(&self, flow_id: FlowID) -> (r: Option<DateTime>)
        requires
            self.wf(),
        ensures
            r == crate::flow::time_wheel::planned_time(self@.planned, flow_id),
    {
        self.time_wheel.get_planned_flow_activation_time(flow_id)
    }

    /// What a trigger for the key applies to. A new flow takes the configuration
    /// that comes with the trigger, or else the one in force.
    pub fn trigger_flow_common(
        &self,
        flow_key: &FlowKey,
        config_snapshot_maybe: Option<FlowConfigurationSnapshot>,
    ) -> (r: TriggerTarget)
        requires
            self.wf(),
        ensures
            r == trigger_target(self@, flow_key@, config_snapshot_maybe),
    {
        match self.find_pending_flow(flow_key) {
            Some(flow_id) => TriggerTarget::Pending(flow_id),
            None => TriggerTarget::New(
                match config_snapshot_maybe {
                    Some(snapshot) => Some(snapshot),
                    None => self.active_configs.try_get_config_snapshot_by_key(flow_key),
                },
            ),
        }
    }

    /// Initiates a new flow and makes it the pending one for its key.
    pub fn make_new_flow(
        &mut self,
        flow_id: FlowID,
        flow_key: FlowKey,
        trigger: FlowTrigger,
        config_snapshot: Option<FlowConfigurationSnapshot>,
    ) -> (r: FlowState)
        requires
            old(self).wf(),
        ensures
            final(self).wf(),
            final(self).config() == old(self).config(),
            final(self)@ == (FlowServiceView {
                pending: old(self)@.pending.insert(flow_key@, flow_id),
                ..old(self)@
            }),
            starts_as(r, flow_id, flow_key, trigger, config_snapshot),
    {
        self.pending_flows.add_pending_flow(flow_key.clone(), flow_id);
        let flow = FlowState {
            flow_id,
            flow_key,
            triggers: vec![trigger],
            start_condition: None,
            config_snapshot,
            task_ids: Vec::new(),
            status: FlowStatus::Waiting,
            outcome: None,
        };
        proof {
            assert(flow.triggers@ =~= seq![trigger]);
            assert(flow.task_ids@ =~= Seq::<TaskID>::empty());
        }
        flow
    }

    /// Decides on a pending flow that was triggered again; the trigger has been
    /// merged into `flow`. `increments` answers the questions of
    /// [`triggering::increments_to_query`].
    pub fn plan_pending_flow(
        &self,
        flow: &FlowState,
        trigger_time: DateTime,
        context: &FlowTriggerContext,
        flow_run_stats: &FlowRunStats,
        increments: &Vec<DatasetIntervalIncrement>,
    ) -> (r: Vec<FlowAction>)
        requires
            self.wf(),
            self.plannable_again(*flow, *context, *flow_run_stats, increments@),
        ensures
            r@ == pending_plan(
                self@,
                self.config().mandatory_throttling_period,
                *flow,
                trigger_time,
                *context,
                *flow_run_stats,
                increments@,
            ),
    {
        let period = self.run_config.mandatory_throttling_period;
        triggering::retrigger_pending_flow(
            flow,
            trigger_time,
            context,
            self.find_planned_flow_activation_time(flow.flow_id),
            triggering::throttling_boundary_time(
                trigger_time,
                flow_run_stats.last_attempt_time,
                period,
            ),
            period,
            increments,
        )
    }

    /// Decides on a flow that has just been created.
    /// `naive_next_activation_time` is what the schedule of the trigger names,
    /// where it has one.
    pub fn plan_new_flow(
        &self,
        flow: &FlowState,
        trigger_time: DateTime,
        context: &FlowTriggerContext,
        flow_run_stats: &FlowRunStats,
        naive_next_activation_time: Option<DateTime>,
        increments: &Vec<DatasetIntervalIncrement>,
    ) -> (r: Vec<FlowAction>)
        requires
            self.wf(),
            self.plannable(
                *flow,
                *context,
                *flow_run_stats,
                naive_next_activation_time,
                increments@,
            ),
        ensures
            r@ == new_plan(
                self@,
                self.config().mandatory_throttling_period,
                *flow,
                trigger_time,
                *context,
                *flow_run_stats,
                naive_next_activation_time,
                increments@,
            ),
    {
        let period = self.run_config.mandatory_throttling_period;
        triggering::start_new_flow(
            flow,
            trigger_time,
            context,
            self.find_planned_flow_activation_time(flow.flow_id),
            naive_next_activation_time,
            triggering::throttling_boundary_time(
                trigger_time,
                flow_run_stats.last_attempt_time,
                period,
            ),
            period,
            increments,
        )
    }

    /// Whether a pending flow that was triggered again can be planned.
    pub fn can_plan_pending_flow(
        &self,
        flow: &FlowState,
        context: &FlowTriggerContext,
        flow_run_stats: &FlowRunStats,
        increments: &Vec<DatasetIntervalIncrement>,
    ) -> (r: bool)
        requires
            self.wf(),
        ensures
            r == self.plannable_again(*flow, *context, *flow_run_stats, increments@),
    {
        self.boundary_fits(flow_run_stats) && match context {
            FlowTriggerContext::Batching(rule) => !triggering::is_waiting_for_batch(flow)
                || triggering::is_evaluable(flow, rule, increments),
            FlowTriggerContext::Scheduled(_) | FlowTriggerContext::Unconditional => {
                self.find_planned_flow_activation_time(flow.flow_id).is_some()
            },
        }
    }

    /// Whether a new flow can be planned.
    pub fn can_plan_new_flow(
        &self,
        flow: &FlowState,
        context: &FlowTriggerContext,
        flow_run_stats: &FlowRunStats,
        naive_next_activation_time: Option<DateTime>,
        increments: &Vec<DatasetIntervalIncrement>,
    ) -> (r: bool)
        requires
            self.wf(),
        ensures
            r == self.plannable(
                *flow,
                *context,
                *flow_run_stats,
                naive_next_activation_time,
                increments@,
            ),
    {
        self.boundary_fits(flow_run_stats) && match context {
            FlowTriggerContext::Batching(rule) => triggering::is_evaluable(flow, rule, increments),
            FlowTriggerContext::Scheduled(_) => naive_next_activation_time.is_some(),
            FlowTriggerContext::Unconditional => true,
        }
    }

    fn boundary_fits(&self, flow_run_stats: &FlowRunStats) -> (r: bool)
        ensures
            r == triggering::boundary_in_range(
                flow_run_stats.last_attempt_time,
                self.config().mandatory_throttling_period,
            ),
    {
        match flow_run_stats.last_attempt_time {
            Some(t) => t.can_add(self.run_config.mandatory_throttling_period),
            None => true,
        }
    }

    /// Takes the part of a step that concerns the service.
    pub fn apply(&mut self, flow_id: FlowID, action: &FlowAction)
        requires
            old(self).wf(),
        ensures
            final(self).wf(),
            final(self).config() == old(self).config(),
            final(self)@ == (FlowServiceView {
                planned: applied(old(self)@.planned, flow_id, *action),
                ..old(self)@
            }),
    {
        match action {
            FlowAction::ActivateAt(activation_time) => {
                self.enqueue_flow(flow_id, *activation_time);
            },
            FlowAction::SetStartCondition(_) => {},
        }
    }

    pub fn enqueue_flow(&mut self, flow_id: FlowID, activation_time: DateTime)
        requires
            old(self).wf(),
        ensures
            final(self).wf(),
            final(self).config() == old(self).config(),
            final(self)@ == (FlowServiceView {
                planned: old(self)@.planned.insert(flow_id, activation_time),
                ..old(self)@
            }),
    {
        self.time_wheel.activate_at(activation_time, flow_id);
    }

    /// The timeslot to run now: the earliest planned moment, once it has come.
    pub fn due_timeslot(&self, current_time: DateTime) -> (r: Option<DateTime>)
        requires
            self.wf(),
        ensures
            match r {
                Some(t) => crate::flow::time_wheel::is_nearest(self@.planned, t) && t.rank()
                    <= current_time.rank(),
                None => forall|f: FlowID| #[trigger]
                    self@.planned.contains_key(f) ==> current_time.rank()
                        < self@.planned[f].rank(),
            },
    {
        match self.time_wheel.nearest_activation_moment() {
            Some(nearest_activation_time) => {
                if nearest_activation_time.not_after(&current_time) {
                    Some(nearest_activation_time)
                } else {
                    None
                }
            },
            None => None,
        }
    }

    /// Takes the flows of the earliest timeslot out of the wheel, to be scheduled.
    pub fn run_current_timeslot(&mut self) -> (r: Vec<FlowID>)
        requires
            old(self).wf(),
        ensures
            final(self).wf(),
            final(self).config() == old(self).config(),
            final(self)@ == (FlowServiceView { planned: final(self)@.planned, ..old(self)@ }),
            r@.no_duplicates(),
            r@.len() == 0 <==> old(self)@.planned == Map::<FlowID, DateTime>::empty(),
            r@.len() == 0 ==> final(self)@.planned == old(self)@.planned,
            forall|t: DateTime| #[trigger]
                crate::flow::time_wheel::is_nearest(old(self)@.planned, t) ==> {
                    &&& forall|f: FlowID| #[trigger]
                        r@.contains(f) <==> old(self)@.planned.contains_key(f)
                            && old(self)@.planned[f].rank() == t.rank()
                    &&& final(self)@.planned == crate::flow::time_wheel::without_due(
                        old(self)@.planned,
                        t,
                    )
                },
    {
        self.time_wheel.take_nearest_planned_flows()
    }

    /// Creates task logical plan that corresponds to template
    pub fn make_task_logical_plan(
        &self,
        flow_key: &FlowKey,
        maybe_config_snapshot: Option<&FlowConfigurationSnapshot>,
    ) -> (r: Result<LogicalPlan, InternalError>)
        ensures
            ({
                let snapshot = downstream::snapshot_value(maybe_config_snapshot);
                match r {
                    Ok(plan) => !task_plan::reset_unconfigured(*flow_key, snapshot) && plan
                        == task_plan::logical_plan(*flow_key, snapshot),
                    Err(e) => task_plan::reset_unconfigured(*flow_key, snapshot) && e.says(
                        "Reset flow cannot be called without configuration"@,
                    ),
                }
            }),
    {
        task_plan::make_task_logical_plan(flow_key, maybe_config_snapshot)
    }

    /// What a flow waits for once a task has been created for it.
    pub fn executor_condition(&self, task_id: TaskID) -> (r: FlowStartCondition)
        ensures
            r == FlowStartCondition::Executor(FlowStartConditionExecutor { task_id }),
    {
        FlowStartCondition::Executor(FlowStartConditionExecutor { task_id })
    }

    /// A task has been scheduled for the flow.
    pub fn track_flow_task(&mut self, flow_id: FlowID, task_id: TaskID)
        requires
            old(self).wf(),
        ensures
            final(self).wf(),
            final(self).config() == old(self).config(),
            final(self)@ == (FlowServiceView {
                by_task: old(self)@.by_task.insert(task_id, flow_id),
                ..old(self)@
            }),
    {
        self.pending_flows.track_flow_task(flow_id, task_id);
    }

    /// Forgets the tasks of an aborted flow, and says which to cancel.
    pub fn abort_flow_impl(&mut self, flow: &FlowState) -> (r: Vec<TaskID>)
        requires
            old(self).wf(),
        ensures
            final(self).wf(),
            final(self).config() == old(self).config(),
            final(self)@ == without_tasks(old(self)@, flow.task_ids@),
            r@ == flow.task_ids@,
    {
        let ghost by_task = self@.by_task;
        let mut to_cancel: Vec<TaskID> = Vec::new();
        for i in 0..flow.task_ids.len()
            invariant
                self.wf(),
                self.config() == old(self).config(),
                to_cancel@ == flow.task_ids@.take(i as int),
                self@ == (FlowServiceView {
                    by_task: by_task.remove_keys(flow.task_ids@.take(i as int).to_set()),
                    ..old(self)@
                }),
        {
            self.pending_flows.untrack_flow_by_task(flow.task_ids[i]);
            to_cancel.push(flow.task_ids[i]);
            proof {
                let ids = flow.task_ids@;
                assert(ids.take(i + 1) == ids.take(i as int).push(ids[i as int]));
                assert forall|t: TaskID| ids.take(i + 1).to_set().contains(t) == (ids.take(
                    i as int,
                ).to_set().contains(t) || t == ids[i as int]) by {
                    if ids.take(i as int).contains(t) {
                        let k = choose|k: int| 0 <= k < i && ids.take(i as int)[k] == t;
                        assert(ids.take(i + 1)[k] == t);
                    }
                    assert(ids.take(i + 1)[i as int] == ids[i as int]);
                }
                assert(self@.by_task =~= by_task.remove_keys(ids.take(i + 1).to_set()));
            }
        }
        proof {
            assert(flow.task_ids@.take(flow.task_ids@.len() as int) == flow.task_ids@);
        }
        to_cancel
    }

    /// Whether the tasks of the flow are to be cancelled: a finished flow has
    /// none left.
    pub fn cancel_scheduled_tasks(&self, flow: &FlowState) -> (r: bool)
        ensures
            r == !(flow.status is Finished),
    {
        match flow.status {
            FlowStatus::Waiting | FlowStatus::Running => true,
            // Skip, idempotence
            FlowStatus::Finished => false,
        }
    }

    /// Pretends it is time to schedule the given flow that was not waiting for
    /// anything else
    pub fn mimic_flow_scheduled(&mut self, flow_id: FlowID) -> (r: Result<(), InternalError>)
        requires
            old(self).wf(),
        ensures
            final(self).wf(),
            final(self).config() == old(self).config(),
            final(self)@ == (FlowServiceView {
                planned: old(self)@.planned.remove(flow_id),
                ..old(self)@
            }),
            r == cancelled(old(self)@.planned, flow_id),
    {
        match self.time_wheel.cancel_flow_activation(flow_id) {
            Ok(_) => Ok(()),
            Err(e) => Err(InternalError::NotPlanned(e)),
        }
    }

    /// The flows to trigger once a flow of a dataset has succeeded. Where owners
    /// matter, `ownership` holds the answers of
    /// [`downstream::next_owner_to_ask`] for each dependent dataset.
    pub fn enqueue_dependent_flows(
        &self,
        input_success_time: DateTime,
        flow: &FlowState,
        flow_result: &FlowResult,
        dependent_dataset_ids: &Vec<DatasetID>,
        ownership: &Vec<Vec<bool>>,
    ) -> (r: Vec<TriggerRequest>)
        requires
            self.wf(),
            flow.flow_key is Dataset,
            downstream::trigger_type(
                flow.flow_key->Dataset_0.flow_type,
                flow.config_snapshot,
            ) is TriggerOwnHardCompaction ==> ownership@.len() == dependent_dataset_ids@.len(),
        ensures
            r@ == dependent_requests(
                self@.rules,
                input_success_time,
                *flow,
                *flow_result,
                dependent_dataset_ids@,
                ownership@,
            ),
    {
        let mut requests: Vec<TriggerRequest> = Vec::new();
        if let FlowKey::Dataset(fk_dataset) = &flow.flow_key {
            let mut plans = downstream::make_downstream_dependencies_flow_plans(
                &self.active_configs,
                fk_dataset,
                flow.config_snapshot.as_ref(),
                dependent_dataset_ids,
                ownership,
            );
            let ghost all = plans@;
            let trigger = FlowTrigger::InputDatasetFlow(
                FlowTriggerInputDatasetFlow {
                    trigger_time: input_success_time,
                    dataset_id: fk_dataset.dataset_id.clone(),
                    flow_type: fk_dataset.flow_type,
                    flow_id: flow.flow_id,
                    flow_result: flow_result.clone(),
                },
            );
            // For each, trigger needed flow
            let ghost as_request = |plan: DownstreamDependencyFlowPlan|
                TriggerRequest {
                    flow_key: plan.flow_key,
                    trigger: dependent_trigger(input_success_time, *flow, *flow_result),
                    context: plan.flow_trigger_context,
                    config_snapshot: plan.maybe_config_snapshot,
                };
            while plans.len() > 0
                invariant
                    requests@.len() + plans@.len() == all.len(),
                    plans@ == all.skip(requests@.len() as int),
                    requests@ == all.take(requests@.len() as int).map_values(as_request),
                    trigger == dependent_trigger(input_success_time, *flow, *flow_result),
                    as_request == (|plan: DownstreamDependencyFlowPlan|
                        TriggerRequest {
                            flow_key: plan.flow_key,
                            trigger: dependent_trigger(input_success_time, *flow, *flow_result),
                            context: plan.flow_trigger_context,
                            config_snapshot: plan.maybe_config_snapshot,
                        }),
                decreases plans@.len(),
            {
                let ghost n = requests@.len() as int;
                let plan = plans.remove(0);
                requests.push(
                    TriggerRequest {
                        flow_key: plan.flow_key,
                        trigger: trigger.clone(),
                        context: plan.flow_trigger_context,
                        config_snapshot: plan.maybe_config_snapshot,
                    },
                );
                proof {
                    assert(plan == all[n]);
                    assert(plans@ == all.skip(n + 1));
                    assert(all.take(n + 1) == all.take(n).push(all[n]));
                    assert(requests@ == all.take(n + 1).map_values(as_request));
                }
            }
            proof {
                assert(all.take(all.len() as int) == all);
            }
        }
        requests
    }

    /// The flow that a task has started to work for, if the service tracks it, and the
    /// news to post once the flow has been told.
    pub fn on_task_running(&self, task_id: TaskID, event_time: DateTime) -> (r: Option<
        (FlowID, FlowServiceUpdatedMessage),
    >)
        requires
            self.wf(),
        ensures
            r == task_running(self@, task_id, event_time),
    {
        if !self.running {
            // Abort if running hasn't started yet
            return None;
        }
        match self.pending_flows.try_get_flow_id_by_task(task_id) {
            Some(flow_id) => Some(
                (
                    flow_id,
                    FlowServiceUpdatedMessage {
                        update_time: event_time,
                        update_details: FlowServiceUpdateDetails::FlowRunning,
                    },
                ),
            ),
            None => None,
        }
    }

    /// The flow that a finished task has worked for, if the service tracks it,
    /// and the moment at which it finished on the grid of the service.
    pub fn on_task_finished(&self, task_id: TaskID, event_time: DateTime) -> (r: Result<
        Option<(FlowID, DateTime)>,
        InternalError,
    >)
        requires
            self.wf(),
        ensures
            r == (if !self@.running {
                Ok(None)
            } else {
                match rounded(event_time, self.config().awaiting_step) {
                    Err(e) => Err(e),
                    Ok(finish_time) => Ok(
                        match tracked_flow(self@, task_id) {
                            Some(flow_id) => Some((flow_id, finish_time)),
                            None => None,
                        },
                    ),
                }
            }),
    {
        if !self.running {
            // Abort if running hasn't started yet
            return Ok(None);
        }
        let maybe_flow_id = self.pending_flows.try_get_flow_id_by_task(task_id);
        match self.round_time(event_time) {
            Err(e) => Err(e),
            Ok(finish_time) => match maybe_flow_id {
                Some(flow_id) => Ok(Some((flow_id, finish_time))),
                None => Ok(None),
            },
        }
    }

    /// Forgets a finished task, and that its flow is pending.
    pub fn finish_flow_task(&mut self, task_id: TaskID, flow_key: &FlowKey)
        requires
            old(self).wf(),
        ensures
            final(self).wf(),
            final(self).config() == old(self).config(),
            final(self)@ == (FlowServiceView {
                by_task: old(self)@.by_task.remove(task_id),
                pending: old(self)@.pending.remove(flow_key@),
                ..old(self)@
            }),
    {
        self.pending_flows.untrack_flow_by_task(task_id);
        let _ = self.pending_flows.drop_pending_flow(flow_key);
    }

    /// Whether a finished flow triggers its dependents: it must have a result,
    /// and one that is not empty.
    pub fn followup_triggers_dependents(
        &self,
        has_result: bool,
        result_is_empty: bool,
        method: FlowSuccessFollowupMethod,
    ) -> (r: bool)
        ensures
            r == (has_result && !result_is_empty && method is TriggerDependent),
    {
        has_result && !result_is_empty && match method {
            FlowSuccessFollowupMethod::Ignore => false,
            FlowSuccessFollowupMethod::TriggerDependent => true,
        }
    }

    /// The next run of a flow whose task has finished, if the flow repeats and the task
    /// has succeeded.
    pub fn next_run(
        &self,
        outcome: &TaskOutcome,
        finish_time: DateTime,
        flow_key: &FlowKey,
    ) -> (r: Option<TriggerRequest>)
        requires
            self.wf(),
        ensures
            r == next_cycle(self@, *outcome, finish_time, *flow_key),
    {
        if outcome.is_success() {
            self.try_enqueue_scheduled_auto_polling_flow_if_enabled(finish_time, flow_key)
        } else {
            None
        }
    }

    /// Acts on news of a configuration. A paused one is dropped, with the flow
    /// pending for it; a changed one comes into force.
    pub fn on_configuration_updated(&mut self, message: &FlowConfigurationUpdatedMessage) -> (r:
        Result<ConfigurationStep, InternalError>)
        requires
            old(self).wf(),
            old(self)@.running && !message.paused && rounded(
                message.event_time,
                old(self).config().awaiting_step,
            ) is Ok ==> supported(message.flow_key, message.rule),
        ensures
            final(self).wf(),
            final(self).config() == old(self).config(),
            (final(self)@, r) == configuration_updated(
                old(self)@,
                old(self).config().awaiting_step,
                *message,
            ),
    {
        if !self.running {
            // Abort if running hasn't started yet
            return Ok(ConfigurationStep::Nothing);
        }
        if message.paused {
            self.active_configs.drop_flow_config(&message.flow_key);

            match self.pending_flows.drop_pending_flow(&message.flow_key) {
                Some(flow_id) => match self.time_wheel.cancel_flow_activation(flow_id) {
                    Ok(_) => Ok(ConfigurationStep::Abort(flow_id)),
                    Err(e) => Err(InternalError::NotPlanned(e)),
                },
                None => {
                    assert(old(self)@.pending.remove(message.flow_key@) =~= old(self)@.pending);
                    Ok(ConfigurationStep::Nothing)
                },
            }
        } else {
            match self.round_time(message.event_time) {
                Err(e) => Err(e),
                Ok(activation_time) => {
                    let request = self.activate_flow_configuration(
                        activation_time,
                        message.flow_key.clone(),
                        message.rule.clone(),
                    );
                    match request {
                        Some(request) => Ok(ConfigurationStep::Trigger(request)),
                        None => Ok(ConfigurationStep::Nothing),
                    }
                },
            }
        }
    }

    /// Forgets a deleted dataset: its configurations, its pending flows and their
    /// planned activations. Says which flows to abort.
    ///
    /// Tasks stay tracked, which is safe: most of the time they end cancelled,
    /// and one that squeezes through to success triggers nothing any more.
    pub fn on_dataset_deleted(&mut self, dataset_id: &DatasetID) -> (r: Result<
        Vec<FlowID>,
        InternalError,
    >)
        requires
            old(self).wf(),
        ensures
            final(self).wf(),
            final(self).config() == old(self).config(),
            final(self)@ == after_deletion(old(self)@, dataset_id@),
            !old(self)@.running ==> (r matches Ok(ids) && ids@.len() == 0),
            old(self)@.running ==> {
                let end = drop_dataset_flows(old(self)@, dataset_id@);
                &&& match r {
                    Ok(ids) => end.failed is None && ids@ == end.dropped,
                    Err(e) => end.failed matches Some(flow_id) && e == InternalError::NotPlanned(
                        crate::flow::time_wheel::FlowNotPlanned { flow_id },
                    ),
                }
            },
    {
        let mut flow_ids_2_abort: Vec<FlowID> = Vec::new();
        if !self.running {
            // Abort if running hasn't started yet
            return Ok(flow_ids_2_abort);
        }
        self.active_configs.drop_dataset_configs(dataset_id);

        // For every possible dataset flow:
        //  - drop it from pending state
        //  - drop queued activations
        //  - collect ID of aborted flow
        let kinds = DatasetFlowType::all();
        let ghost start = self@;
        let ghost all = kinds@;
        for i in 0..kinds.len()
            invariant
                self.wf(),
                self.config() == old(self).config(),
                old(self)@.running,
                kinds@ == all,
                all == crate::flow::types::all_dataset_flow_types(),
                start == (FlowServiceView {
                    rules: old(self)@.rules.remove_keys(
                        crate::flow::active_configs::dataset_keys(dataset_id@),
                    ),
                    ..old(self)@
                }),
                ({
                    let d = drop_kinds(
                        start.pending,
                        start.planned,
                        dataset_id@,
                        all.take(i as int),
                    );
                    &&& d.failed is None
                    &&& d.dropped == flow_ids_2_abort@
                    &&& self@ == (FlowServiceView {
                        pending: d.pending,
                        planned: d.planned,
                        ..start
                    })
                }),
        {
            let ghost d = drop_kinds(
                start.pending,
                start.planned,
                dataset_id@,
                all.take(i as int),
            );
            proof {
                assert(all.take(i + 1).drop_last() == all.take(i as int));
                assert(all.take(i + 1).last() == all[i as int]);
            }
            let dropped = self.pending_flows.drop_dataset_pending_flow(dataset_id, kinds[i]);
            if let Some(flow_id) = dropped {
                flow_ids_2_abort.push(flow_id);
                if let Err(e) = self.time_wheel.cancel_flow_activation(flow_id) {
                    proof {
                        lemma_dropping_stops(
                            start.pending,
                            start.planned,
                            dataset_id@,
                            all,
                            i + 1,
                        );
                    }
                    return Err(InternalError::NotPlanned(e));
                }
            } else {
                proof {
                    let key = FlowKeyView::Dataset(dataset_id@, all[i as int]);
                    assert(d.pending.remove(key) =~= d.pending);
                }
            }
        }
        proof {
            assert(all.take(all.len() as int) == all);
        }
        Ok(flow_ids_2_abort)
    }
}

/// Once dropping has failed, it stays where it is.
proof fn lemma_dropping_stops(
    pending: Map<FlowKeyView, FlowID>,
    planned: Map<FlowID, DateTime>,
    id: Seq<char>,
    kinds: Seq<DatasetFlowType>,
    n: int,
)
    requires
        0 <= n <= kinds.len(),
        drop_kinds(pending, planned, id, kinds.take(n)).failed is Some,
    ensures
        drop_kinds(pending, planned, id, kinds) == drop_kinds(pending, planned, id, kinds.take(n)),
    decreases kinds.len(),
{
    if n == kinds.len() {
        assert(kinds.take(n) == kinds);
    } else {
        assert(kinds.drop_last().take(n) == kinds.take(n));
        lemma_dropping_stops(pending, planned, id, kinds.drop_last(), n);
    }
}

/// The flow a task works for, unless the service does not act on messages yet.
pub open spec fn tracked_flow(view: FlowServiceView, task_id: TaskID) -> Option<FlowID> {
    if view.running {
        crate::flow::pending_flows::lookup(view.by_task, task_id)
    } else {
        None
    }
}

/// The moments planned once a step has been taken.
pub open spec fn applied(
    planned: Map<FlowID, DateTime>,
    flow_id: FlowID,
    action: FlowAction,
) -> Map<FlowID, DateTime> {
    match action {
        FlowAction::ActivateAt(t) => planned.insert(flow_id, t),
        FlowAction::SetStartCondition(_) => planned,
    }
}

/// The moments planned once all steps have been taken, in their order.
pub open spec fn applied_all(
    planned: Map<FlowID, DateTime>,
    flow_id: FlowID,
    steps: Seq<FlowAction>,
) -> Map<FlowID, DateTime>
    decreases steps.len(),
{
    if steps.len() == 0 {
        planned
    } else {
        applied(applied_all(planned, flow_id, steps.drop_last()), flow_id, steps.last())
    }
}

/// What withdrawing a planned activation returns.
pub open spec fn cancelled(planned: Map<FlowID, DateTime>, flow_id: FlowID) -> Result<
    (),
    InternalError,
> {
    if planned.contains_key(flow_id) {
        Ok(())
    } else {
        Err(InternalError::NotPlanned(crate::flow::time_wheel::FlowNotPlanned { flow_id }))
    }
}

/// The trigger that the success of a dataset flow is for its dependents.
pub open spec fn dependent_trigger(
    input_success_time: DateTime,
    flow: FlowState,
    flow_result: FlowResult,
) -> FlowTrigger {
    FlowTrigger::InputDatasetFlow(
        FlowTriggerInputDatasetFlow {
            trigger_time: input_success_time,
            dataset_id: flow.flow_key->Dataset_0.dataset_id,
            flow_type: flow.flow_key->Dataset_0.flow_type,
            flow_id: flow.flow_id,
            flow_result,
        },
    )
}

/// The service once a dataset was deleted.
pub open spec fn after_deletion(view: FlowServiceView, id: Seq<char>) -> FlowServiceView {
    if view.running {
        let end = drop_dataset_flows(view, id);
        FlowServiceView {
            rules: view.rules.remove_keys(crate::flow::active_configs::dataset_keys(id)),
            pending: end.pending,
            planned: end.planned,
            ..view
        }
    } else {
        view
    }
}

/// The steps for a pending flow that was triggered again.
pub open spec fn pending_plan(
    view: FlowServiceView,
    period: TimeDelta,
    flow: FlowState,
    trigger_time: DateTime,
    context: FlowTriggerContext,
    stats: FlowRunStats,
    increments: Seq<DatasetIntervalIncrement>,
) -> Seq<FlowAction> {
    triggering::retrigger_steps(
        flow,
        trigger_time,
        context,
        crate::flow::time_wheel::planned_time(view.planned, flow.flow_id),
        increments,
        triggering::throttling_boundary(trigger_time, stats.last_attempt_time, period),
        period,
    )
}

/// The steps for a flow that has just been created.
pub open spec fn new_plan(
    view: FlowServiceView,
    period: TimeDelta,
    flow: FlowState,
    trigger_time: DateTime,
    context: FlowTriggerContext,
    stats: FlowRunStats,
    naive_time: Option<DateTime>,
    increments: Seq<DatasetIntervalIncrement>,
) -> Seq<FlowAction> {
    triggering::new_flow_steps(
        flow,
        trigger_time,
        context,
        crate::flow::time_wheel::planned_time(view.planned, flow.flow_id),
        naive_time,
        increments,
        triggering::throttling_boundary(trigger_time, stats.last_attempt_time, period),
        period,
    )
}

/// The flow is one that the trigger has just started.
pub open spec fn starts_as(
    flow: FlowState,
    flow_id: FlowID,
    flow_key: FlowKey,
    trigger: FlowTrigger,
    config_snapshot: Option<FlowConfigurationSnapshot>,
) -> bool {
    &&& flow.flow_id == flow_id
    &&& flow.flow_key == flow_key
    &&& flow.triggers@ == seq![trigger]
    &&& flow.start_condition is None
    &&& flow.config_snapshot == config_snapshot
    &&& flow.task_ids@ == Seq::<TaskID>::empty()
    &&& flow.status is Waiting
    &&& flow.outcome is None
}

/// The service has forgotten the tasks.
pub open spec fn without_tasks(view: FlowServiceView, tasks: Seq<TaskID>) -> FlowServiceView {
    FlowServiceView { by_task: view.by_task.remove_keys(tasks.to_set()), ..view }
}

/// What follows when a task has started: its flow is told, and that is news.
pub open spec fn task_running(
    view: FlowServiceView,
    task_id: TaskID,
    event_time: DateTime,
) -> Option<(FlowID, FlowServiceUpdatedMessage)> {
    match tracked_flow(view, task_id) {
        Some(flow_id) => Some((flow_id, news(event_time, FlowServiceUpdateDetails::FlowRunning))),
        None => None,
    }
}

/// What a trigger for a key applies to: the pending flow, or a new one under the
/// configuration that comes with the trigger, or else the one in force.
pub open spec fn trigger_target(
    view: FlowServiceView,
    key: FlowKeyView,
    snapshot: Option<FlowConfigurationSnapshot>,
) -> TriggerTarget {
    match crate::flow::pending_flows::lookup(view.pending, key) {
        Some(flow_id) => TriggerTarget::Pending(flow_id),
        None => TriggerTarget::New(
            match (snapshot, view.rule(key)) {
                (Some(snapshot), _) => Some(snapshot),
                (None, Some(rule)) => Some(rule.spec_snapshot()),
                (None, None) => None,
            },
        ),
    }
}

/// The trigger that an account causes.
pub open spec fn manual_request(
    trigger_time: DateTime,
    step: TimeDelta,
    flow_key: FlowKey,
    initiator_account_id: AccountID,
    config_snapshot: Option<FlowConfigurationSnapshot>,
) -> Result<TriggerRequest, InternalError> {
    match rounded(trigger_time, step) {
        Ok(activation_time) => Ok(
            TriggerRequest {
                flow_key,
                trigger: FlowTrigger::Manual(
                    FlowTriggerManual { trigger_time: activation_time, initiator_account_id },
                ),
                context: FlowTriggerContext::Unconditional,
                config_snapshot,
            },
        ),
        Err(e) => Err(e),
    }
}

/// What news of a configuration changes, and what follows from it.
pub open spec fn configuration_updated(
    view: FlowServiceView,
    step: TimeDelta,
    message: FlowConfigurationUpdatedMessage,
) -> (FlowServiceView, Result<ConfigurationStep, InternalError>) {
    let key = message.flow_key@;
    if !view.running {
        (view, Ok(ConfigurationStep::Nothing))
    } else if message.paused {
        let before = view.without_rule(key);
        match crate::flow::pending_flows::lookup(before.pending, key) {
            None => (before, Ok(ConfigurationStep::Nothing)),
            Some(flow_id) => (
                FlowServiceView {
                    pending: before.pending.remove(key),
                    planned: before.planned.remove(flow_id),
                    ..before
                },
                match cancelled(before.planned, flow_id) {
                    Ok(_) => Ok(ConfigurationStep::Abort(flow_id)),
                    Err(e) => Err(e),
                },
            ),
        }
    } else {
        match rounded(message.event_time, step) {
            Err(e) => (view, Err(e)),
            Ok(activation_time) => (
                view.with_rule(message.flow_key, message.rule),
                Ok(
                    match activation_request(activation_time, message.flow_key, message.rule) {
                        Some(request) => ConfigurationStep::Trigger(request),
                        None => ConfigurationStep::Nothing,
                    },
                ),
            ),
        }
    }
}

/// The triggers of dependents that the success of a dataset flow causes.
pub open spec fn dependent_requests(
    rules: Map<(Seq<char>, DatasetFlowType), FlowConfigurationRule>,
    input_success_time: DateTime,
    flow: FlowState,
    flow_result: FlowResult,
    dependents: Seq<DatasetID>,
    ownership: Seq<Vec<bool>>,
) -> Seq<TriggerRequest> {
    downstream::downstream_plans(
        rules,
        downstream::trigger_type(flow.flow_key->Dataset_0.flow_type, flow.config_snapshot),
        dependents,
        ownership,
    ).map_values(
        |plan: DownstreamDependencyFlowPlan|
            TriggerRequest {
                flow_key: plan.flow_key,
                trigger: dependent_trigger(input_success_time, flow, flow_result),
                context: plan.flow_trigger_context,
                config_snapshot: plan.maybe_config_snapshot,
            },
    )
}

/// Before running has started nothing that comes in is acted upon, and tasks
/// belong to no flow.
pub proof fn law_idle_service_tracks_nothing(view: FlowServiceView, task_id: TaskID)
    requires
        !view.running,
    ensures
        tracked_flow(view, task_id) is None,
{
}

/// A task that was tracked for a flow is found again, until it is finished.
pub proof fn law_tracked_task_is_found(
    view: FlowServiceView,
    flow_id: FlowID,
    task_id: TaskID,
    key: FlowKeyView,
)
    requires
        view.running,
    ensures
        ({
            let known = FlowServiceView { by_task: view.by_task.insert(task_id, flow_id), ..view };
            let finished = FlowServiceView {
                by_task: known.by_task.remove(task_id),
                pending: known.pending.remove(key),
                ..known
            };
            &&& tracked_flow(known, task_id) == Some(flow_id)
            &&& tracked_flow(finished, task_id) is None
            &&& crate::flow::pending_flows::lookup(finished.pending, key) is None
        }),
{
}

/// A flow that has been made is the one that the next trigger for its key
/// applies to, and a finished one is not.
pub proof fn law_one_pending_flow_for_a_key(view: FlowServiceView, key: FlowKeyView, flow_id: FlowID)
    ensures
        ({
            let made = view.pending.insert(key, flow_id);
            &&& crate::flow::pending_flows::lookup(made, key) == Some(flow_id)
            &&& crate::flow::pending_flows::lookup(made.remove(key), key) is None
            &&& forall|other: FlowKeyView| #[trigger]
                made.contains_key(other) && other != key ==> view.pending.contains_key(other)
                    && made[other] == view.pending[other]
        }),
{
}

/// A rule that was put in force is the one in force for its key, until it is
/// dropped; other keys are not concerned.
pub proof fn law_rule_in_force(
    view: FlowServiceView,
    flow_key: FlowKey,
    rule: FlowConfigurationRule,
    other: FlowKeyView,
)
    requires
        supported(flow_key, rule),
        other != flow_key@,
    ensures
        view.with_rule(flow_key, rule).rule(flow_key@) == Some(rule),
        view.with_rule(flow_key, rule).rule(other) == view.rule(other),
        view.without_rule(flow_key@).rule(flow_key@) is None,
        view.without_rule(flow_key@).rule(other) == view.rule(other),
{
}

/// Whatever becomes of the dropping, it removes nothing of other datasets or of
/// the system; where it succeeds, nothing of the dataset stays pending, and none
/// of the flows it names stays planned.
pub proof fn law_deletion_is_complete_and_local(view: FlowServiceView, id: Seq<char>)
    ensures
        ({
            let end = drop_dataset_flows(view, id);
            &&& forall|key: FlowKeyView|
                !(key matches FlowKeyView::Dataset(other, _) && other == id) ==> (
                #[trigger] end.pending.contains_key(key) <==> view.pending.contains_key(key)) && (
                view.pending.contains_key(key) ==> end.pending[key] == view.pending[key])
            &&& forall|f: FlowID| #[trigger]
                end.planned.contains_key(f) <==> view.planned.contains_key(f)
                    && !end.dropped.contains(f)
            &&& forall|f: FlowID| #[trigger]
                end.planned.contains_key(f) ==> end.planned[f] == view.planned[f]
            &&& end.failed is None ==> forall|flow_type: DatasetFlowType|
                !(#[trigger] end.pending.contains_key(FlowKeyView::Dataset(id, flow_type)))
        }),
{
    let kinds = crate::flow::types::all_dataset_flow_types();
    lemma_dropping(view.pending, view.planned, id, kinds);
    crate::flow::active_configs::lemma_all_types_listed();
}

/// Whatever steps are taken for a flow, the plans for other flows stay.
pub proof fn law_steps_concern_one_flow(
    planned: Map<FlowID, DateTime>,
    flow_id: FlowID,
    steps: Seq<FlowAction>,
    other: FlowID,
)
    requires
        other != flow_id,
    ensures
        applied_all(planned, flow_id, steps).contains_key(other) == planned.contains_key(other),
        planned.contains_key(other) ==> applied_all(planned, flow_id, steps)[other]
            == planned[other],
    decreases steps.len(),
{
    if steps.len() > 0 {
        law_steps_concern_one_flow(planned, flow_id, steps.drop_last(), other);
    }
}

/// A planned flow that is triggered again stays planned, for the same moment or an
/// earlier one.
pub proof fn law_planned_flow_is_never_put_off(
    planned: Map<FlowID, DateTime>,
    flow: FlowState,
    trigger_time: DateTime,
    context: FlowTriggerContext,
    increments: Seq<DatasetIntervalIncrement>,
    boundary: DateTime,
    period: TimeDelta,
)
    requires
        planned.contains_key(flow.flow_id),
    ensures
        ({
            let after = applied_all(
                planned,
                flow.flow_id,
                triggering::retrigger_steps(
                    flow,
                    trigger_time,
                    context,
                    crate::flow::time_wheel::planned_time(planned, flow.flow_id),
                    increments,
                    boundary,
                    period,
                ),
            );
            &&& after.contains_key(flow.flow_id)
            &&& after[flow.flow_id].rank() <= planned[flow.flow_id].rank()
        }),
{
    let steps = triggering::retrigger_steps(
        flow,
        trigger_time,
        context,
        Some(planned[flow.flow_id]),
        increments,
        boundary,
        period,
    );
    triggering::law_triggers_never_delay(
        flow,
        trigger_time,
        context,
        planned[flow.flow_id],
        increments,
        boundary,
        period,
    );
    lemma_early_steps(planned, flow.flow_id, steps, planned[flow.flow_id].rank());
}

proof fn lemma_early_steps(
    planned: Map<FlowID, DateTime>,
    flow_id: FlowID,
    steps: Seq<FlowAction>,
    latest: int,
)
    requires
        planned.contains_key(flow_id),
        planned[flow_id].rank() <= latest,
        triggering::all_before(steps, latest),
    ensures
        applied_all(planned, flow_id, steps).contains_key(flow_id),
        applied_all(planned, flow_id, steps)[flow_id].rank() <= latest,
    decreases steps.len(),
{
    if steps.len() > 0 {
        let init = steps.drop_last();
        assert forall|i: int| 0 <= i < init.len() implies ((
        #[trigger] init[i]) matches FlowAction::ActivateAt(t) ==> t.rank() < latest) by {
            assert(init[i] == steps[i]);
        }
        lemma_early_steps(planned, flow_id, init, latest);
        assert(steps[steps.len() - 1] == steps.last());
    }
}

/// The moment that the steps name for an activation: the last one, if any.
pub open spec fn named_moment(steps: Seq<FlowAction>) -> Option<DateTime>
    decreases steps.len(),
{
    if steps.len() == 0 {
        None
    } else {
        match steps.last() {
            FlowAction::ActivateAt(t) => Some(t),
            FlowAction::SetStartCondition(_) => named_moment(steps.drop_last()),
        }
    }
}

/// The service once a new flow has been made and its steps have been taken.
pub open spec fn triggered_new(
    view: FlowServiceView,
    flow: FlowState,
    steps: Seq<FlowAction>,
) -> FlowServiceView {
    let made = FlowServiceView {
        pending: view.pending.insert(flow.flow_key@, flow.flow_id),
        ..view
    };
    FlowServiceView { planned: applied_all(made.planned, flow.flow_id, steps), ..made }
}

/// The service once the steps for a pending flow have been taken.
pub open spec fn triggered_again(
    view: FlowServiceView,
    flow_id: FlowID,
    steps: Seq<FlowAction>,
) -> FlowServiceView {
    FlowServiceView { planned: applied_all(view.planned, flow_id, steps), ..view }
}

/// A trigger for a key with nothing pending makes one flow, and that flow is the one
/// pending for the key then. It is planned for the moment that its steps name, and not
/// at all if they name none. What is pending for other keys stays, and so do the plans
/// for other flows.
pub proof fn law_trigger_makes_one_pending_flow(
    view: FlowServiceView,
    flow: FlowState,
    trigger_time: DateTime,
    context: FlowTriggerContext,
    naive_time: Option<DateTime>,
    increments: Seq<DatasetIntervalIncrement>,
    boundary: DateTime,
    period: TimeDelta,
)
    requires
        crate::flow::pending_flows::lookup(view.pending, flow.flow_key@) is None,
        !view.planned.contains_key(flow.flow_id),
    ensures
        ({
            let steps = triggering::new_flow_steps(
                flow,
                trigger_time,
                context,
                crate::flow::time_wheel::planned_time(view.planned, flow.flow_id),
                naive_time,
                increments,
                boundary,
                period,
            );
            let after = triggered_new(view, flow, steps);
            &&& crate::flow::pending_flows::lookup(after.pending, flow.flow_key@) == Some(
                flow.flow_id,
            )
            &&& forall|key: FlowKeyView|
                key != flow.flow_key@ ==> #[trigger] crate::flow::pending_flows::lookup(
                    after.pending,
                    key,
                ) == crate::flow::pending_flows::lookup(view.pending, key)
            &&& crate::flow::time_wheel::planned_time(after.planned, flow.flow_id)
                == named_moment(steps)
            &&& forall|other: FlowID|
                other != flow.flow_id ==> #[trigger] crate::flow::time_wheel::planned_time(
                    after.planned,
                    other,
                ) == crate::flow::time_wheel::planned_time(view.planned, other)
            &&& after == (FlowServiceView {
                pending: after.pending,
                planned: after.planned,
                ..view
            })
        }),
{
    let steps = triggering::new_flow_steps(
        flow,
        trigger_time,
        context,
        crate::flow::time_wheel::planned_time(view.planned, flow.flow_id),
        naive_time,
        increments,
        boundary,
        period,
    );
    lemma_planned_by_steps(view.planned, flow.flow_id, steps);
}

/// A trigger for a key with a flow pending makes no second one: the same flow is pending
/// then, for this key and for every other. If it was planned, it is planned for the same
/// moment or an earlier one; if not, it is planned for the moment that its steps name, if
/// they name one. The plans for other flows stay.
pub proof fn law_trigger_makes_no_second_flow(
    view: FlowServiceView,
    flow: FlowState,
    trigger_time: DateTime,
    context: FlowTriggerContext,
    increments: Seq<DatasetIntervalIncrement>,
    boundary: DateTime,
    period: TimeDelta,
)
    requires
        crate::flow::pending_flows::lookup(view.pending, flow.flow_key@) == Some(flow.flow_id),
    ensures
        ({
            let before = crate::flow::time_wheel::planned_time(view.planned, flow.flow_id);
            let steps = triggering::retrigger_steps(
                flow,
                trigger_time,
                context,
                before,
                increments,
                boundary,
                period,
            );
            let after = triggered_again(view, flow.flow_id, steps);
            let planned = crate::flow::time_wheel::planned_time(after.planned, flow.flow_id);
            &&& after == (FlowServiceView { planned: after.planned, ..view })
            &&& planned == (match named_moment(steps) {
                Some(t) => Some(t),
                None => before,
            })
            &&& before matches Some(t) ==> planned is Some && planned->0.rank() <= t.rank()
            &&& forall|other: FlowID|
                other != flow.flow_id ==> #[trigger] crate::flow::time_wheel::planned_time(
                    after.planned,
                    other,
                ) == crate::flow::time_wheel::planned_time(view.planned, other)
        }),
{
    let before = crate::flow::time_wheel::planned_time(view.planned, flow.flow_id);
    let steps = triggering::retrigger_steps(
        flow,
        trigger_time,
        context,
        before,
        increments,
        boundary,
        period,
    );
    lemma_planned_by_steps(view.planned, flow.flow_id, steps);
    if view.planned.contains_key(flow.flow_id) {
        law_planned_flow_is_never_put_off(
            view.planned,
            flow,
            trigger_time,
            context,
            increments,
            boundary,
            period,
        );
    }
}

proof fn lemma_planned_by_steps(
    planned: Map<FlowID, DateTime>,
    flow_id: FlowID,
    steps: Seq<FlowAction>,
)
    ensures
        crate::flow::time_wheel::planned_time(applied_all(planned, flow_id, steps), flow_id) == (
        match named_moment(steps) {
            Some(t) => Some(t),
            None => crate::flow::time_wheel::planned_time(planned, flow_id),
        }),
        forall|other: FlowID|
            other != flow_id ==> #[trigger] crate::flow::time_wheel::planned_time(
                applied_all(planned, flow_id, steps),
                other,
            ) == crate::flow::time_wheel::planned_time(planned, other),
    decreases steps.len(),
{
    if steps.len() > 0 {
        lemma_planned_by_steps(planned, flow_id, steps.drop_last());
        let init = applied_all(planned, flow_id, steps.drop_last());
        assert forall|other: FlowID| other != flow_id implies #[trigger]
            crate::flow::time_wheel::planned_time(
            applied_all(planned, flow_id, steps),
            other,
        ) == crate::flow::time_wheel::planned_time(planned, other) by {
            assert(crate::flow::time_wheel::planned_time(init, other)
                == crate::flow::time_wheel::planned_time(planned, other));
        }
    }
}

/// A new flow that need not wait for input is planned once its steps have been
/// taken: for the moment that its schedule names, or that of the trigger, unless
/// throttling puts it off.
pub proof fn law_new_flow_comes_due(
    planned: Map<FlowID, DateTime>,
    flow: FlowState,
    trigger_time: DateTime,
    context: FlowTriggerContext,
    naive_time: Option<DateTime>,
    increments: Seq<DatasetIntervalIncrement>,
    boundary: DateTime,
    period: TimeDelta,
)
    requires
        !(context is Batching),
        context is Scheduled ==> naive_time is Some,
    ensures
        ({
            let after = applied_all(
                planned,
                flow.flow_id,
                triggering::new_flow_steps(
                    flow,
                    trigger_time,
                    context,
                    crate::flow::time_wheel::planned_time(planned, flow.flow_id),
                    naive_time,
                    increments,
                    boundary,
                    period,
                ),
            );
            let wanted = if context is Scheduled {
                naive_time->0
            } else {
                trigger_time
            };
            &&& after.contains_key(flow.flow_id)
            &&& after[flow.flow_id] == crate::time::latest(boundary, wanted)
        }),
{
    let steps = triggering::new_flow_steps(
        flow,
        trigger_time,
        context,
        crate::flow::time_wheel::planned_time(planned, flow.flow_id),
        naive_time,
        increments,
        boundary,
        period,
    );
    reveal_with_fuel(applied_all, 3);
    if steps.len() == 2 {
        assert(steps.drop_last().drop_last() == Seq::<FlowAction>::empty());
        assert(steps.drop_last().last() == steps[0]);
    } else {
        assert(steps.drop_last() == Seq::<FlowAction>::empty());
    }
}

/// Once the configurations of a dataset are gone, none of its flows repeats, and
/// success upstream of it triggers no transform of it.
pub proof fn law_deleted_dataset_stays_quiet(
    view: FlowServiceView,
    dataset: DatasetID,
    flow_type: DatasetFlowType,
)
    ensures
        ({
            let rules = view.rules.remove_keys(
                crate::flow::active_configs::dataset_keys(dataset@),
            );
            let after = FlowServiceView { rules, ..view };
            let key = FlowKeyView::Dataset(dataset@, flow_type);
            &&& after.rule(key) is None
            &&& crate::flow::active_configs::repeat_schedule(key, after.rule(key)) is None
            &&& downstream::transform_plan(rules, dataset) is None
        }),
{
}

proof fn lemma_dropping(
    pending: Map<FlowKeyView, FlowID>,
    planned: Map<FlowID, DateTime>,
    id: Seq<char>,
    kinds: Seq<DatasetFlowType>,
)
    ensures
        ({
            let end = drop_kinds(pending, planned, id, kinds);
            &&& forall|key: FlowKeyView|
                !(key matches FlowKeyView::Dataset(other, _) && other == id) ==> (
                #[trigger] end.pending.contains_key(key) <==> pending.contains_key(key)) && (
                pending.contains_key(key) ==> end.pending[key] == pending[key])
            &&& forall|f: FlowID| #[trigger]
                end.planned.contains_key(f) <==> planned.contains_key(f) && !end.dropped.contains(f)
            &&& forall|f: FlowID| #[trigger]
                end.planned.contains_key(f) ==> end.planned[f] == planned[f]
            &&& end.failed is None ==> forall|flow_type: DatasetFlowType|
                kinds.contains(flow_type) ==> !(#[trigger] end.pending.contains_key(
                    FlowKeyView::Dataset(id, flow_type),
                ))
        }),
    decreases kinds.len(),
{
    let end = drop_kinds(pending, planned, id, kinds);
    if kinds.len() > 0 {
        lemma_dropping(pending, planned, id, kinds.drop_last());
        let d = drop_kinds(pending, planned, id, kinds.drop_last());
        let key = FlowKeyView::Dataset(id, kinds.last());
        assert forall|f: FlowID| #[trigger] end.planned.contains_key(f) <==> planned.contains_key(f)
            && !end.dropped.contains(f) by {
            if d.failed is None && d.pending.contains_key(key) {
                let flow_id = d.pending[key];
                assert(end.dropped == d.dropped.push(flow_id));
                if d.dropped.contains(f) {
                    let k = choose|k: int| 0 <= k < d.dropped.len() && d.dropped[k] == f;
                    assert(end.dropped[k] == f);
                }
                assert(end.dropped[d.dropped.len() as int] == flow_id);
                if end.dropped.contains(f) && f != flow_id {
                    let k = choose|k: int| 0 <= k < end.dropped.len() && end.dropped[k] == f;
                    assert(d.dropped[k] == f);
                }
            }
        }
        assert(end.failed is None ==> forall|flow_type: DatasetFlowType|
            kinds.contains(flow_type) ==> !(#[trigger] end.pending.contains_key(
                FlowKeyView::Dataset(id, flow_type),
            ))) by {
            assert forall|flow_type: DatasetFlowType|
                end.failed is None && kinds.contains(flow_type) implies !(
            #[trigger] end.pending.contains_key(FlowKeyView::Dataset(id, flow_type))) by {
                if flow_type != kinds.last() {
                    let k = choose|k: int| 0 <= k < kinds.len() && kinds[k] == flow_type;
                    assert(kinds.drop_last()[k] == flow_type);
                    assert(kinds.drop_last().contains(flow_type));
                    assert(!d.pending.contains_key(FlowKeyView::Dataset(id, flow_type)));
                }
            }
        }
    } else {
        assert forall|f: FlowID| #[trigger] end.planned.contains_key(f) <==> planned.contains_key(f)
            && !end.dropped.contains(f) by {
            assert(end.dropped.len() == 0);
        }
    }
}

proof fn lemma_requests_grow(
    rules: Map<(Seq<char>, DatasetFlowType), FlowConfigurationRule>,
    time: DateTime,
    flow: FlowState,
    result: FlowResult,
    dependents: Seq<DatasetID>,
    dependent: DatasetID,
    ownership: Seq<Vec<bool>>,
)
    ensures
        dependent_requests(rules, time, flow, result, Seq::empty(), ownership).len() == 0,
        ({
            let kind = downstream::trigger_type(
                flow.flow_key->Dataset_0.flow_type,
                flow.config_snapshot,
            );
            let before = dependent_requests(rules, time, flow, result, dependents, ownership);
            let after = dependent_requests(
                rules,
                time,
                flow,
                result,
                dependents.push(dependent),
                ownership,
            );
            match downstream::dependent_plan(
                rules,
                kind,
                dependent,
                ownership[dependents.len() as int]@,
            ) {
                Some(plan) => after == before.push(
                    TriggerRequest {
                        flow_key: plan.flow_key,
                        trigger: dependent_trigger(time, flow, result),
                        context: plan.flow_trigger_context,
                        config_snapshot: plan.maybe_config_snapshot,
                    },
                ),
                None => after == before,
            }
        }),
{
    assert(dependents.push(dependent).drop_last() == dependents);
    assert(dependents.push(dependent).last() == dependent);
    let kind = downstream::trigger_type(
        flow.flow_key->Dataset_0.flow_type,
        flow.config_snapshot,
    );
    let before = downstream::downstream_plans(rules, kind, dependents, ownership);
    let after = downstream::downstream_plans(rules, kind, dependents.push(dependent), ownership);
    let requests = dependent_requests(rules, time, flow, result, dependents, ownership);
    let all = dependent_requests(
        rules,
        time,
        flow,
        result,
        dependents.push(dependent),
        ownership,
    );
    if let Some(plan) = downstream::dependent_plan(
        rules,
        kind,
        dependent,
        ownership[dependents.len() as int]@,
    ) {
        assert(after == before.push(plan));
        assert(all =~= requests.push(
            TriggerRequest {
                flow_key: plan.flow_key,
                trigger: dependent_trigger(time, flow, result),
                context: plan.flow_trigger_context,
                config_snapshot: plan.maybe_config_snapshot,
            },
        ));
    }
}

/// An update of a dataset reaches the datasets derived from it, be it by ingest or by a
/// transform, and so does a compaction that comes with no rule of its own. One dependent
/// after the other, each that has a transform rule in force is triggered once, to run its
/// transform by that rule; each that has none is passed over. Owners make no difference.
/// The trigger tells which flow of which dataset has succeeded, when and with what.
pub proof fn law_update_reaches_dependents(
    rules: Map<(Seq<char>, DatasetFlowType), FlowConfigurationRule>,
    time: DateTime,
    flow: FlowState,
    result: FlowResult,
    dependents: Seq<DatasetID>,
    dependent: DatasetID,
    ownership: Seq<Vec<bool>>,
)
    requires
        flow.flow_key matches FlowKey::Dataset(key) && match key.flow_type {
            DatasetFlowType::Ingest => true,
            DatasetFlowType::ExecuteTransform => true,
            DatasetFlowType::HardCompaction => !(flow.config_snapshot matches Some(
                FlowConfigurationSnapshot::Compaction(_),
            )),
            DatasetFlowType::Reset => false,
        },
    ensures
        dependent_requests(rules, time, flow, result, Seq::empty(), ownership).len() == 0,
        ({
            let requests = |ids: Seq<DatasetID>|
                dependent_requests(rules, time, flow, result, ids, ownership);
            let key = flow.flow_key->Dataset_0;
            let at = (dependent@, DatasetFlowType::ExecuteTransform);
            let more = requests(dependents.push(dependent));
            if rules.contains_key(at) && rules[at] is TransformRule {
                &&& more.len() == requests(dependents).len() + 1
                &&& more.drop_last() == requests(dependents)
                &&& more.last().flow_key == FlowKey::Dataset(
                    FlowKeyDataset {
                        dataset_id: dependent,
                        flow_type: DatasetFlowType::ExecuteTransform,
                    },
                )
                &&& more.last().context == FlowTriggerContext::Batching(rules[at]->TransformRule_0)
                &&& more.last().config_snapshot is None
                &&& more.last().trigger matches FlowTrigger::InputDatasetFlow(t) && t.trigger_time
                    == time && t.dataset_id == key.dataset_id && t.flow_type == key.flow_type
                    && t.flow_id == flow.flow_id && t.flow_result == result
            } else {
                more == requests(dependents)
            }
        }),
{
    lemma_requests_grow(rules, time, flow, result, dependents, dependent, ownership);
    let before = dependent_requests(rules, time, flow, result, dependents, ownership);
    let all = dependent_requests(
        rules,
        time,
        flow,
        result,
        dependents.push(dependent),
        ownership,
    );
    let at = (dependent@, DatasetFlowType::ExecuteTransform);
    if rules.contains_key(at) && rules[at] is TransformRule {
        assert(all.drop_last() =~= before);
    }
}

/// A compaction or a reset that is to go on recursively compacts the dependent datasets
/// of the same owner, one after the other: each at once, keeping its metadata only, and to
/// go on from there. One that is not to go on triggers nothing, and neither does a reset
/// without a rule.
pub proof fn law_recursion_reaches_own_dependents(
    rules: Map<(Seq<char>, DatasetFlowType), FlowConfigurationRule>,
    time: DateTime,
    flow: FlowState,
    result: FlowResult,
    dependents: Seq<DatasetID>,
    dependent: DatasetID,
    ownership: Seq<Vec<bool>>,
)
    requires
        flow.flow_key matches FlowKey::Dataset(key) && match key.flow_type {
            DatasetFlowType::HardCompaction => flow.config_snapshot matches Some(
                FlowConfigurationSnapshot::Compaction(_),
            ),
            DatasetFlowType::Reset => true,
            _ => false,
        },
    ensures
        dependent_requests(rules, time, flow, result, Seq::empty(), ownership).len() == 0,
        ({
            let requests = |ids: Seq<DatasetID>|
                dependent_requests(rules, time, flow, result, ids, ownership);
            let key = flow.flow_key->Dataset_0;
            let recursive = match flow.config_snapshot {
                Some(FlowConfigurationSnapshot::Compaction(CompactionRule::Full(rule))) =>
                    key.flow_type is HardCompaction && rule.recursive,
                Some(FlowConfigurationSnapshot::Compaction(CompactionRule::MetadataOnly(rule))) =>
                    key.flow_type is HardCompaction && rule.recursive,
                Some(FlowConfigurationSnapshot::Reset(rule)) => key.flow_type is Reset
                    && rule.recursive,
                _ => false,
            };
            let answers = ownership[dependents.len() as int]@;
            let owned = exists|i: int| 0 <= i < answers.len() && #[trigger] answers[i];
            let more = requests(dependents.push(dependent));
            if recursive && owned {
                &&& more.len() == requests(dependents).len() + 1
                &&& more.drop_last() == requests(dependents)
                &&& more.last().flow_key == FlowKey::Dataset(
                    FlowKeyDataset {
                        dataset_id: dependent,
                        flow_type: DatasetFlowType::HardCompaction,
                    },
                )
                &&& more.last().context is Unconditional
                &&& more.last().config_snapshot matches Some(
                    FlowConfigurationSnapshot::Compaction(CompactionRule::MetadataOnly(rule)),
                ) && rule.recursive
                &&& more.last().trigger matches FlowTrigger::InputDatasetFlow(t) && t.trigger_time
                    == time && t.dataset_id == key.dataset_id && t.flow_type == key.flow_type
                    && t.flow_id == flow.flow_id && t.flow_result == result
            } else {
                more == requests(dependents)
            }
        }),
{
    lemma_requests_grow(rules, time, flow, result, dependents, dependent, ownership);
    let before = dependent_requests(rules, time, flow, result, dependents, ownership);
    let all = dependent_requests(
        rules,
        time,
        flow,
        result,
        dependents.push(dependent),
        ownership,
    );
    let answers = ownership[dependents.len() as int]@;
    if exists|i: int| 0 <= i < answers.len() && #[trigger] answers[i] {
        let i = choose|i: int| 0 <= i < answers.len() && #[trigger] answers[i];
        assert(answers[i] == true);
        assert(answers.contains(true));
    }
    if all.len() > before.len() {
        assert(all.drop_last() =~= before);
    }
}

/// What a rule triggers when it comes into force: a transform rule runs its flow at once,
/// an ingest rule and the schedule of a system flow by schedule, and any other rule runs
/// nothing. What is triggered is the flow of the rule, automatically, from the given
/// moment on, under the configuration in force.
pub proof fn law_what_comes_into_force_runs(
    start_time: DateTime,
    flow_key: FlowKey,
    rule: FlowConfigurationRule,
)
    ensures
        flow_key is Dataset ==> (activation_request(start_time, flow_key, rule) is Some
            <==> rule is TransformRule || rule is IngestRule),
        flow_key is System ==> (activation_request(start_time, flow_key, rule) is Some
            <==> rule is Schedule),
        activation_request(start_time, flow_key, rule) matches Some(request) ==> {
            &&& request.flow_key == flow_key
            &&& request.config_snapshot is None
            &&& request.trigger matches FlowTrigger::AutoPolling(t) && t.trigger_time == start_time
            &&& match rule {
                FlowConfigurationRule::TransformRule(_) => request.context is Unconditional,
                FlowConfigurationRule::IngestRule(ingest) => request.context
                    == FlowTriggerContext::Scheduled(ingest.schedule_condition),
                FlowConfigurationRule::Schedule(schedule) => request.context
                    == FlowTriggerContext::Scheduled(schedule),
                _ => false,
            }
        },
{
}

/// After a success, and only then, a flow with an ingest rule in force, or a system flow
/// with a schedule, runs again: by its schedule, from the moment at which it finished, under
/// the configuration in force then.
pub proof fn law_next_run_follows_success(
    view: FlowServiceView,
    outcome: TaskOutcome,
    finish_time: DateTime,
    flow_key: FlowKey,
)
    ensures
        !(outcome is Success) ==> next_cycle(view, outcome, finish_time, flow_key) is None,
        outcome is Success ==> match flow_key {
            FlowKey::Dataset(key) => next_cycle(view, outcome, finish_time, flow_key) is Some <==> (
            view.rules.contains_key((key.dataset_id@, key.flow_type)) && view.rules[(
                key.dataset_id@,
                key.flow_type,
            )] is IngestRule),
            FlowKey::System(key) => next_cycle(view, outcome, finish_time, flow_key) is Some
                <==> view.schedules.contains_key(key.flow_type),
        },
        next_cycle(view, outcome, finish_time, flow_key) matches Some(request) ==> {
            &&& request.flow_key == flow_key
            &&& request.config_snapshot is None
            &&& request.trigger matches FlowTrigger::AutoPolling(t) && t.trigger_time == finish_time
            &&& match flow_key {
                FlowKey::Dataset(key) => request.context == FlowTriggerContext::Scheduled(
                    view.rules[(
                        key.dataset_id@,
                        key.flow_type,
                    )]->IngestRule_0.schedule_condition,
                ),
                FlowKey::System(key) => request.context == FlowTriggerContext::Scheduled(
                    view.schedules[key.flow_type],
                ),
            }
        },
{
}

/// A trigger applies to the flow that is pending for its key, and makes a new one only if
/// there is none. A new flow takes the configuration that comes with the trigger; if there
/// is none, that of the rule in force; and none if no rule is.
pub proof fn law_what_a_trigger_applies_to(
    view: FlowServiceView,
    key: FlowKeyView,
    snapshot: Option<FlowConfigurationSnapshot>,
    given: FlowConfigurationSnapshot,
)
    ensures
        view.pending.contains_key(key) ==> trigger_target(view, key, snapshot)
            == TriggerTarget::Pending(view.pending[key]),
        !view.pending.contains_key(key) ==> {
            &&& trigger_target(view, key, Some(given)) == TriggerTarget::New(Some(given))
            &&& key matches FlowKeyView::Dataset(id, kind) ==> {
                let at = (id, kind);
                &&& view.rules.contains_key(at) ==> trigger_target(view, key, None)
                    == TriggerTarget::New(Some(view.rules[at].spec_snapshot()))
                &&& !view.rules.contains_key(at) ==> trigger_target(view, key, None)
                    == TriggerTarget::New(None)
            }
            &&& key matches FlowKeyView::System(kind) ==> {
                &&& view.schedules.contains_key(kind) ==> trigger_target(view, key, None)
                    == TriggerTarget::New(
                    Some(FlowConfigurationSnapshot::Schedule(view.schedules[kind])),
                )
                &&& !view.schedules.contains_key(kind) ==> trigger_target(view, key, None)
                    == TriggerTarget::New(None)
            }
        },
{
}

/// An account triggers the flow that it names, at the moment that it names, on the grid of
/// the service, without a condition and under the configuration that it gives. That fails
/// exactly where the moment cannot be rounded.
pub proof fn law_manual_trigger_is_as_asked(
    trigger_time: DateTime,
    step: TimeDelta,
    flow_key: FlowKey,
    account: AccountID,
    snapshot: Option<FlowConfigurationSnapshot>,
)
    ensures
        match manual_request(trigger_time, step, flow_key, account, snapshot) {
            Ok(request) => {
                &&& request.flow_key == flow_key
                &&& request.context is Unconditional
                &&& request.config_snapshot == snapshot
                &&& request.trigger matches FlowTrigger::Manual(t) && t.initiator_account_id
                    == account && rounded(trigger_time, step) == Ok::<DateTime, InternalError>(
                    t.trigger_time,
                )
            },
            Err(e) => rounded(trigger_time, step) == Err::<DateTime, InternalError>(e),
        },
{
}

/// A moment is rounded to the nearest multiple of the step, which must be positive. It
/// fails where the step or the moment does not fit in 64-bit nanoseconds.
pub proof fn law_grid_of_the_service(time: DateTime, step: TimeDelta)
    requires
        crate::time::MIN_SECS <= time.second() <= crate::time::MAX_SECS,
        0 <= time.past() < crate::time::NANOS_PER_SEC,
    ensures
        match rounded(time, step) {
            Ok(t) => {
                &&& step.span() > 0
                &&& t.stamp() % step.span() == 0
                &&& -step.span() <= 2 * (t.stamp() - time.stamp()) <= step.span()
                &&& 2 * (time.stamp() - t.stamp()) != step.span()
                &&& !t.is_leap()
            },
            Err(e) => step.span() <= 0 || step.span() > i64::MAX || time.stamp() > i64::MAX
                || time.stamp() < i64::MIN,
        },
        0 < step.span() <= i64::MAX && i64::MIN <= time.stamp() <= i64::MAX ==> rounded(
            time,
            step,
        ) is Ok,
{
    if rounded(time, step) is Ok {
        crate::time::law_rounding_is_stable(time, step.span());
        broadcast use DateTime::lemma_at;

    }
}

/// News that a configuration was paused: its rule is dropped, and so is the flow that is
/// pending for it, with its plan; that flow is to be aborted. The rules, pending flows and
/// plans of others stay, and so do tasks.
pub proof fn law_paused_configuration_is_dropped(
    view: FlowServiceView,
    step: TimeDelta,
    message: FlowConfigurationUpdatedMessage,
    other: FlowKeyView,
    flow_id: FlowID,
)
    requires
        view.running,
        message.paused,
        other != message.flow_key@,
    ensures
        ({
            let key = message.flow_key@;
            let (after, r) = configuration_updated(view, step, message);
            let lookup = |m: Map<FlowKeyView, FlowID>, k: FlowKeyView|
                if m.contains_key(k) {
                    Some(m[k])
                } else {
                    None
                };
            &&& after.rule(key) is None
            &&& after.rule(other) == view.rule(other)
            &&& !after.pending.contains_key(key)
            &&& lookup(after.pending, other) == lookup(view.pending, other)
            &&& after.running
            &&& after.by_task == view.by_task
            &&& !view.pending.contains_key(key) ==> r == Ok::<ConfigurationStep, InternalError>(
                ConfigurationStep::Nothing,
            ) && after.planned == view.planned
            &&& view.pending.contains_key(key) ==> {
                let dropped = view.pending[key];
                &&& !after.planned.contains_key(dropped)
                &&& flow_id != dropped ==> (after.planned.contains_key(flow_id)
                    <==> view.planned.contains_key(flow_id)) && after.planned[flow_id]
                    == view.planned[flow_id]
                &&& view.planned.contains_key(dropped) ==> r == Ok::<
                    ConfigurationStep,
                    InternalError,
                >(ConfigurationStep::Abort(dropped))
                &&& !view.planned.contains_key(dropped) ==> (r matches Err(
                    InternalError::NotPlanned(e),
                ) && e.flow_id == dropped)
            }
        }),
{
}

/// News that a configuration was changed: its rule is in force, and triggers what a rule
/// triggers that comes into force, from the moment of the news on. Nothing that is pending
/// or planned changes. Before running has started news changes nothing.
pub proof fn law_changed_configuration_is_in_force(
    view: FlowServiceView,
    step: TimeDelta,
    message: FlowConfigurationUpdatedMessage,
    other: FlowKeyView,
)
    requires
        supported(message.flow_key, message.rule),
        other != message.flow_key@,
    ensures
        ({
            let (after, r) = configuration_updated(view, step, message);
            &&& !view.running ==> after == view && r == Ok::<ConfigurationStep, InternalError>(
                ConfigurationStep::Nothing,
            )
            &&& view.running && !message.paused ==> {
                &&& after.pending == view.pending
                &&& after.planned == view.planned
                &&& after.by_task == view.by_task
                &&& after.running
                &&& after.rule(other) == view.rule(other)
                &&& rounded(message.event_time, step) matches Ok(start_time) ==> {
                    &&& after.rule(message.flow_key@) == Some(message.rule)
                    &&& r == Ok::<ConfigurationStep, InternalError>(
                        match activation_request(start_time, message.flow_key, message.rule) {
                            Some(request) => ConfigurationStep::Trigger(request),
                            None => ConfigurationStep::Nothing,
                        },
                    )
                }
                &&& rounded(message.event_time, step) matches Err(e) ==> after == view && r == Err::<
                    ConfigurationStep,
                    InternalError,
                >(e)
            }
        }),
{
}

/// Every pending flow of a deleted dataset is dropped, with its plan, and is to be aborted,
/// if each was planned.
pub proof fn law_deleted_flows_are_aborted(
    view: FlowServiceView,
    id: Seq<char>,
    kind: DatasetFlowType,
)
    requires
        view.pending.contains_key(FlowKeyView::Dataset(id, kind)),
    ensures
        ({
            let end = drop_dataset_flows(view, id);
            let flow_id = view.pending[FlowKeyView::Dataset(id, kind)];
            &&& end.failed is None ==> end.dropped.contains(flow_id) && !end.planned.contains_key(
                flow_id,
            )
            &&& end.failed matches Some(f) ==> !end.planned.contains_key(f)
        }),
{
    let kinds = crate::flow::types::all_dataset_flow_types();
    crate::flow::types::law_kinds_are_listed_once(kind);
    lemma_dropped_is_listed(view.pending, view.planned, id, kinds, kind);
}

proof fn lemma_dropped_is_listed(
    pending: Map<FlowKeyView, FlowID>,
    planned: Map<FlowID, DateTime>,
    id: Seq<char>,
    kinds: Seq<DatasetFlowType>,
    kind: DatasetFlowType,
)
    requires
        pending.contains_key(FlowKeyView::Dataset(id, kind)),
        kinds.no_duplicates(),
    ensures
        ({
            let d = drop_kinds(pending, planned, id, kinds);
            let key = FlowKeyView::Dataset(id, kind);
            &&& d.failed is None ==> (if kinds.contains(kind) {
                d.dropped.contains(pending[key])
            } else {
                d.pending.contains_key(key) && d.pending[key] == pending[key]
            })
            &&& forall|f: FlowID| #[trigger] d.dropped.contains(f) ==> !d.planned.contains_key(f)
            &&& d.failed matches Some(f) ==> !d.planned.contains_key(f)
        }),
    decreases kinds.len(),
{
    if kinds.len() > 0 {
        let init = kinds.drop_last();
        let last = kinds.last();
        let key = FlowKeyView::Dataset(id, kind);
        lemma_dropped_is_listed(pending, planned, id, init, kind);
        let d = drop_kinds(pending, planned, id, init);
        let e = drop_kinds(pending, planned, id, kinds);
        if init.contains(kind) {
            let i = choose|i: int| 0 <= i < init.len() && init[i] == kind;
            assert(kinds[i] == kind);
        }
        if last == kind {
            assert(kinds[kinds.len() - 1] == kind);
            assert(!init.contains(kind)) by {
                if init.contains(kind) {
                    let i = choose|i: int| 0 <= i < init.len() && init[i] == kind;
                    assert(kinds[i] == kinds[kinds.len() - 1]);
                }
            }
        }
        if kinds.contains(kind) && last != kind {
            let i = choose|i: int| 0 <= i < kinds.len() && kinds[i] == kind;
            assert(init[i] == kind);
        }
        let at = FlowKeyView::Dataset(id, last);
        if d.failed is None && d.pending.contains_key(at) {
            let dropped = d.pending[at];
            assert(e.dropped == d.dropped.push(dropped));
            assert(e.dropped[d.dropped.len() as int] == dropped);
            assert forall|f: FlowID| #[trigger]
                e.dropped.contains(f) implies !e.planned.contains_key(f) by {
                let i = choose|i: int| 0 <= i < e.dropped.len() && e.dropped[i] == f;
                if i < d.dropped.len() {
                    assert(d.dropped[i] == f);
                    assert(d.dropped.contains(f));
                }
            }
            if d.dropped.contains(pending[key]) {
                let i = choose|i: int| 0 <= i < d.dropped.len() && d.dropped[i] == pending[key];
                assert(e.dropped[i] == pending[key]);
            }
        }
    }
}

/// Throttling counts from the last attempt, be it a success or not; when a flow last
/// succeeded makes no difference. A flow that was never attempted runs when it was triggered,
/// and no flow within a period after the last attempt.
pub proof fn law_throttling_counts_from_the_last_attempt(
    view: FlowServiceView,
    period: TimeDelta,
    flow: FlowState,
    time: DateTime,
    context: FlowTriggerContext,
    stats: FlowRunStats,
    other: FlowRunStats,
    naive_time: Option<DateTime>,
    increments: Seq<DatasetIntervalIncrement>,
    t: DateTime,
)
    requires
        stats.last_attempt_time == other.last_attempt_time,
        stats.last_attempt_time matches Some(last) ==> crate::time::can_shift(last, period.span()),
    ensures
        ({
            let new = new_plan(
                view,
                period,
                flow,
                time,
                context,
                stats,
                naive_time,
                increments,
            );
            let again = pending_plan(view, period, flow, time, context, stats, increments);
            &&& new == new_plan(
                view,
                period,
                flow,
                time,
                context,
                other,
                naive_time,
                increments,
            )
            &&& again == pending_plan(view, period, flow, time, context, other, increments)
            &&& new.contains(FlowAction::ActivateAt(t)) || again.contains(
                FlowAction::ActivateAt(t),
            ) ==> {
                &&& time.rank() <= t.rank()
                &&& stats.last_attempt_time matches Some(last) ==> crate::time::shifted(
                    last,
                    period.span(),
                ).rank() <= t.rank()
            }
            &&& context is Unconditional && stats.last_attempt_time is None ==> new == seq![
                FlowAction::ActivateAt(time),
            ]
            &&& context is Unconditional ==> (stats.last_attempt_time matches Some(last)
                ==> new[0] == FlowAction::ActivateAt(
                if crate::time::shifted(last, period.span()).rank() < time.rank() {
                    time
                } else {
                    crate::time::shifted(last, period.span())
                },
            ))
        }),
{
    triggering::law_throttling_is_respected(
        flow,
        time,
        context,
        crate::flow::time_wheel::planned_time(view.planned, flow.flow_id),
        naive_time,
        increments,
        stats.last_attempt_time,
        period,
    );
    let new = new_plan(view, period, flow, time, context, stats, naive_time, increments);
    let again = pending_plan(view, period, flow, time, context, stats, increments);
    if new.contains(FlowAction::ActivateAt(t)) {
        let i = choose|i: int| 0 <= i < new.len() && new[i] == FlowAction::ActivateAt(t);
        assert(new[i] is ActivateAt);
    }
    if again.contains(FlowAction::ActivateAt(t)) {
        let i = choose|i: int| 0 <= i < again.len() && again[i] == FlowAction::ActivateAt(t);
        assert(again[i] is ActivateAt);
    }
}

/// A flow that a trigger has started is about what the trigger was for, under the
/// configuration that it was given. It has that trigger and no other, waits for nothing yet,
/// and nothing has been done for it.
pub proof fn law_new_flow_is_as_triggered(
    flow: FlowState,
    flow_id: FlowID,
    flow_key: FlowKey,
    trigger: FlowTrigger,
    snapshot: Option<FlowConfigurationSnapshot>,
)
    requires
        starts_as(flow, flow_id, flow_key, trigger, snapshot),
    ensures
        flow.flow_id == flow_id && flow.flow_key == flow_key && flow.config_snapshot == snapshot,
        flow.triggers@.len() == 1 && flow.triggers@[0] == trigger,
        flow.start_condition is None && flow.outcome is None && flow.status is Waiting,
        flow.task_ids@.len() == 0,
{
}

/// Every task of an aborted flow is forgotten, and no other; nothing else changes.
pub proof fn law_aborted_flow_loses_its_tasks(
    view: FlowServiceView,
    tasks: Seq<TaskID>,
    task: TaskID,
)
    ensures
        ({
            let after = without_tasks(view, tasks);
            let is_its = exists|i: int| 0 <= i < tasks.len() && #[trigger] tasks[i] == task;
            &&& is_its ==> tracked_flow(after, task) is None
            &&& !is_its ==> tracked_flow(after, task) == tracked_flow(view, task)
            &&& after.running == view.running && after.rules == view.rules && after.schedules
                == view.schedules && after.pending == view.pending && after.planned == view.planned
        }),
{
    if exists|i: int| 0 <= i < tasks.len() && #[trigger] tasks[i] == task {
        let i = choose|i: int| 0 <= i < tasks.len() && #[trigger] tasks[i] == task;
        assert(tasks.contains(task));
    }
    if tasks.contains(task) {
        let i = choose|i: int| 0 <= i < tasks.len() && tasks[i] == task;
        assert(tasks[i] == task);
    }
}

/// That a task runs is told to the flow that it works for, and is news at the time of the
/// event, where the service is running and knows the task; else it is passed over.
pub proof fn law_running_task_is_told(view: FlowServiceView, task_id: TaskID, time: DateTime)
    ensures
        view.running && view.by_task.contains_key(task_id) ==> (task_running(
            view,
            task_id,
            time,
        ) matches Some((flow_id, message)) && flow_id == view.by_task[task_id]
            && message.update_time == time && message.update_details is FlowRunning),
        !view.running || !view.by_task.contains_key(task_id) ==> task_running(
            view,
            task_id,
            time,
        ) is None,
{
}

/// An activation can be withdrawn exactly where it was planned; else the flow is named.
pub proof fn law_only_what_is_planned_is_withdrawn(planned: Map<FlowID, DateTime>, flow_id: FlowID)
    ensures
        planned.contains_key(flow_id) <==> cancelled(planned, flow_id) is Ok,
        cancelled(planned, flow_id) matches Err(e) ==> (e matches InternalError::NotPlanned(n)
            && n.flow_id == flow_id),
{
}

/// A step that plans a flow plans it for the moment that it says, whatever was planned before;
/// one that only says what the flow waits for plans nothing.
pub proof fn law_step_plans_what_it_says(
    planned: Map<FlowID, DateTime>,
    flow_id: FlowID,
    t: DateTime,
    condition: FlowStartCondition,
    other: FlowID,
)
    ensures
        applied(planned, flow_id, FlowAction::ActivateAt(t)).contains_key(flow_id),
        applied(planned, flow_id, FlowAction::ActivateAt(t))[flow_id] == t,
        other != flow_id ==> (applied(planned, flow_id, FlowAction::ActivateAt(t)).contains_key(
            other,
        ) <==> planned.contains_key(other)),
        applied(planned, flow_id, FlowAction::SetStartCondition(condition)) == planned,
{
}

/// Of a deleted dataset no rule stays in force, for no kind of flow. The rules of others, and
/// what is pending and planned for them, stay, and so do tasks. Before running has started
/// nothing changes.
pub proof fn law_deleted_dataset_is_forgotten(
    view: FlowServiceView,
    id: Seq<char>,
    kind: DatasetFlowType,
    other: FlowKeyView,
)
    requires
        !(other matches FlowKeyView::Dataset(o, _) && o == id),
    ensures
        ({
            let after = after_deletion(view, id);
            &&& !view.running ==> after == view
            &&& view.running ==> {
                &&& after.rule(FlowKeyView::Dataset(id, kind)) is None
                &&& after.rule(other) == view.rule(other)
                &&& after.pending.contains_key(other) <==> view.pending.contains_key(other)
                &&& view.pending.contains_key(other) ==> after.pending[other]
                    == view.pending[other]
                &&& after.by_task == view.by_task && after.schedules == view.schedules
                    && after.running
                &&& drop_dataset_flows(view, id).failed is None ==> !after.pending.contains_key(
                    FlowKeyView::Dataset(id, kind),
                )
            }
        }),
{
    if view.running {
        let end = drop_dataset_flows(view, id);
        let after = after_deletion(view, id);
        let own = FlowKeyView::Dataset(id, kind);
        law_deletion_is_complete_and_local(view, id);
        crate::flow::active_configs::law_dropped_configurations(view.rules, id, id, kind);
        assert(after.pending == end.pending);
        assert(end.pending.contains_key(other) <==> view.pending.contains_key(other));
        assert(!after.rules.contains_key((id, kind)));
        assert(after.rule(own) is None);
        match other {
            FlowKeyView::Dataset(o, t) => {
                crate::flow::active_configs::law_dropped_configurations(view.rules, id, o, t);
                assert(after.rule(other) == view.rule(other));
            },
            FlowKeyView::System(_) => {
                assert(after.rule(other) == view.rule(other));
            },
        }
        if end.failed is None {
            assert(!end.pending.contains_key(own));
        }
    }
}

/// A flow can be planned wherever what its trigger asks for is known and the numbers can be
/// held: a new one by schedule with the moment of the schedule, by batch with its input, and
/// else always; a pending one if it is planned already, or by batch with its input where it
/// waits for that.
pub proof fn law_what_can_be_planned(
    service: &FlowServiceImpl,
    flow: FlowState,
    context: FlowTriggerContext,
    stats: FlowRunStats,
    due: Option<DateTime>,
    increments: Seq<DatasetIntervalIncrement>,
)
    requires
        stats.last_attempt_time matches Some(last) ==> crate::time::can_shift(
            last,
            service.config().mandatory_throttling_period.span(),
        ),
    ensures
        match context {
            FlowTriggerContext::Unconditional => service.plannable(
                flow,
                context,
                stats,
                due,
                increments,
            ) && (service.plannable_again(flow, context, stats, increments)
                <==> service@.planned.contains_key(flow.flow_id)),
            FlowTriggerContext::Scheduled(_) => (service.plannable(
                flow,
                context,
                stats,
                due,
                increments,
            ) <==> due is Some) && (service.plannable_again(flow, context, stats, increments)
                <==> service@.planned.contains_key(flow.flow_id)),
            FlowTriggerContext::Batching(rule) => (service.plannable(
                flow,
                context,
                stats,
                due,
                increments,
            ) <==> triggering::can_evaluate(flow, rule, increments)) && (service.plannable_again(
                flow,
                context,
                stats,
                increments,
            ) <==> triggering::can_evaluate(flow, rule, increments) || !(
            flow.start_condition matches Some(FlowStartCondition::Batching(_)))),
        },
{
}

/// A rule that is no schedule cannot come into force for a system flow; every other rule can.
pub proof fn law_what_can_come_into_force(flow_key: FlowKey, rule: FlowConfigurationRule)
    ensures
        supported(flow_key, rule) <==> match (flow_key, rule) {
            (FlowKey::Dataset(_), _) => true,
            (FlowKey::System(_), FlowConfigurationRule::Schedule(_)) => true,
            (FlowKey::System(_), _) => false,
        },
{
}

} // verus!
