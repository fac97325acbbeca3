//! When a triggered flow is to run, and what it is said to wait for.

use vstd::prelude::*;

use crate::flow::types::{
    DatasetFlowType, DatasetIntervalIncrement, FlowKey, FlowResult, FlowResultDatasetUpdate,
    FlowStartCondition, FlowStartConditionBatching, FlowStartConditionSchedule,
    FlowStartConditionThrottling, FlowState, FlowTrigger, FlowTriggerContext, TransformRule,
};
use crate::ids::{DatasetID, Multihash};
use crate::time::{DateTime, TimeDelta};

verus! {

/// One step of carrying out a decision on a flow. Steps are taken in order.
#[derive(Debug, Clone, Copy, PartialEq, Eq, Structural)]
pub enum FlowAction {
    /// Record what the flow waits for.
    SetStartCondition(FlowStartCondition),
    /// Plan the flow for this moment.
    ActivateAt(DateTime),
}

/// A question about a dataset: what has it gained since `old_head`?
#[derive(Debug, PartialEq, Eq)]
pub struct IncrementQuery {
    pub dataset_id: DatasetID,
    pub old_head: Option<Multihash>,
}

/// The earliest moment at which a flow may be attempted: a throttling period
/// after the last attempt, and never before the trigger itself.
pub open spec fn throttling_boundary(
    trigger_time: DateTime,
    last_attempt: Option<DateTime>,
    period: TimeDelta,
) -> DateTime {
    match last_attempt {
        None => trigger_time,
        Some(t) => crate::time::latest(crate::time::shifted(t, period.span()), trigger_time),
    }
}

/// The throttling boundary can be held.
pub open spec fn boundary_in_range(last_attempt: Option<DateTime>, period: TimeDelta) -> bool {
    last_attempt matches Some(t) ==> crate::time::can_shift(t, period.span())
}

/// Flows may not be attempted more frequently than the throttling period. A flow
/// that was never attempted goes without restriction.
pub fn throttling_boundary_time(
    trigger_time: DateTime,
    last_attempt: Option<DateTime>,
    period: TimeDelta,
) -> (r: DateTime)
    requires
        boundary_in_range(last_attempt, period),
    ensures
        r == throttling_boundary(trigger_time, last_attempt, period),
{
    match last_attempt {
        None => trigger_time,
        Some(t) => t.plus(period).later_of(trigger_time),
    }
}

/// The start condition of a flow that has been put off by throttling.
pub open spec fn throttled(
    period: TimeDelta,
    wake_up_at: DateTime,
    shifted_from: DateTime,
) -> FlowAction {
    FlowAction::SetStartCondition(
        FlowStartCondition::Throttling(
            FlowStartConditionThrottling { interval: period, wake_up_at, shifted_from },
        ),
    )
}

/// Records that the flow was shifted to `wake_up_at` by throttling.
pub fn indicate_throttling_activity(
    period: TimeDelta,
    wake_up_at: DateTime,
    shifted_from: DateTime,
) -> (r: FlowAction)
    ensures
        r == throttled(period, wake_up_at, shifted_from),
{
    FlowAction::SetStartCondition(
        FlowStartCondition::Throttling(
            FlowStartConditionThrottling { interval: period, wake_up_at, shifted_from },
        ),
    )
}

/// The steps for a flow planned at `planned_time` that is triggered once more,
/// with nothing to wait for: it moves only if it can run earlier.
pub open spec fn moved_earlier(
    planned_time: DateTime,
    trigger_time: DateTime,
    boundary: DateTime,
    period: TimeDelta,
) -> Seq<FlowAction> {
    if boundary.rank() < planned_time.rank() {
        if boundary.rank() > trigger_time.rank() {
            seq![FlowAction::ActivateAt(boundary), throttled(period, boundary, trigger_time)]
        } else {
            seq![FlowAction::ActivateAt(boundary)]
        }
    } else {
        Seq::empty()
    }
}

/// The steps for a new flow whose schedule names `naive_time`.
pub open spec fn scheduled_start(
    naive_time: DateTime,
    trigger_time: DateTime,
    boundary: DateTime,
    period: TimeDelta,
) -> Seq<FlowAction> {
    let activate = FlowAction::ActivateAt(crate::time::latest(boundary, naive_time));
    if boundary.rank() > naive_time.rank() {
        seq![activate, throttled(period, boundary, naive_time)]
    } else if naive_time.rank() > trigger_time.rank() {
        seq![
            activate,
            FlowAction::SetStartCondition(
                FlowStartCondition::Schedule(FlowStartConditionSchedule { wake_up_at: naive_time }),
            ),
        ]
    } else {
        seq![activate]
    }
}

/// The steps for a new flow that waits for nothing.
pub open spec fn immediate_start(
    trigger_time: DateTime,
    boundary: DateTime,
    period: TimeDelta,
) -> Seq<FlowAction> {
    let activate = FlowAction::ActivateAt(crate::time::latest(boundary, trigger_time));
    if boundary.rank() > trigger_time.rank() {
        seq![activate, throttled(period, boundary, trigger_time)]
    } else {
        seq![activate]
    }
}

/// What a trigger asks about the dataset that caused it: the increment of a
/// dataset that an update has changed.
pub open spec fn increment_query(trigger: FlowTrigger) -> Option<IncrementQuery> {
    match trigger {
        FlowTrigger::InputDatasetFlow(t) => match t.flow_result {
            FlowResult::DatasetUpdate(FlowResultDatasetUpdate::Changed(update)) => Some(
                IncrementQuery { dataset_id: t.dataset_id, old_head: update.old_head },
            ),
            _ => None,
        },
        _ => None,
    }
}

/// The increments that have to be known to judge the triggers, in their order.
pub open spec fn increment_queries(triggers: Seq<FlowTrigger>) -> Seq<IncrementQuery>
    decreases triggers.len(),
{
    if triggers.len() == 0 {
        Seq::empty()
    } else {
        let before = increment_queries(triggers.drop_last());
        match increment_query(triggers.last()) {
            Some(query) => before.push(query),
            None => before,
        }
    }
}

/// Records over all increments.
pub open spec fn total_records(increments: Seq<DatasetIntervalIncrement>) -> int
    decreases increments.len(),
{
    if increments.len() == 0 {
        0
    } else {
        total_records(increments.drop_last()) + increments.last().num_records
    }
}

/// Some increment touched the watermark.
pub open spec fn watermark_touched(increments: Seq<DatasetIntervalIncrement>) -> bool {
    exists|i: int| 0 <= i < increments.len() && (#[trigger] increments[i]).updated_watermark is Some
}

/// The trigger reports that its dataset was compacted.
pub open spec fn reports_compaction(trigger: FlowTrigger) -> bool {
    trigger matches FlowTrigger::InputDatasetFlow(t) && t.flow_result is DatasetCompact
}

/// Some input was compacted.
pub open spec fn input_compacted(triggers: Seq<FlowTrigger>) -> bool {
    exists|i: int| 0 <= i < triggers.len() && reports_compaction(#[trigger] triggers[i])
}

/// The moment at which waiting for more input ends.
pub open spec fn batching_deadline(triggers: Seq<FlowTrigger>, rule: TransformRule) -> DateTime {
    crate::time::shifted(
        triggers[0].spec_trigger_time(),
        rule.max_batching_interval.span(),
    )
}

/// There is something to process: new records, or a new watermark.
pub open spec fn accumulated_something(increments: Seq<DatasetIntervalIncrement>) -> bool {
    total_records(increments) > 0 || watermark_touched(increments)
}

/// Batching is over: enough has accumulated, or something has and the deadline
/// has come, or an input was compacted.
pub open spec fn batching_over(
    triggers: Seq<FlowTrigger>,
    increments: Seq<DatasetIntervalIncrement>,
    rule: TransformRule,
    evaluation_time: DateTime,
) -> bool {
    ||| input_compacted(triggers)
    ||| accumulated_something(increments) && (total_records(increments)
        >= rule.min_records_to_await || evaluation_time.rank() >= batching_deadline(
        triggers,
        rule,
    ).rank())
}

/// The steps for a flow that waits for a batch of input to accumulate.
pub open spec fn batching_steps(
    triggers: Seq<FlowTrigger>,
    start_condition: Option<FlowStartCondition>,
    planned_time: Option<DateTime>,
    increments: Seq<DatasetIntervalIncrement>,
    rule: TransformRule,
    evaluation_time: DateTime,
    boundary: DateTime,
    period: TimeDelta,
) -> Seq<FlowAction> {
    let deadline = batching_deadline(triggers, rule);
    let over = batching_over(triggers, increments, rule, evaluation_time);
    let finish = if over {
        evaluation_time
    } else {
        deadline
    };
    let corrected = crate::time::latest(finish, boundary);
    let bounded = accumulated_something(increments) || input_compacted(triggers);
    let announce = if start_condition matches Some(c) && c is Batching {
        Seq::empty()
    } else {
        seq![
            FlowAction::SetStartCondition(
                FlowStartCondition::Batching(
                    FlowStartConditionBatching {
                        active_transform_rule: rule,
                        batching_deadline: deadline,
                    },
                ),
            ),
        ]
    };
    let activate = if bounded && (planned_time matches Some(p) ==> p.rank()
        > corrected.rank()) {
        seq![FlowAction::ActivateAt(corrected)]
    } else {
        Seq::empty()
    };
    let throttle = if over && boundary.rank() > finish.rank() {
        seq![throttled(period, boundary, finish)]
    } else {
        Seq::empty()
    };
    announce + activate + throttle
}

/// The flow waits for a batch of input.
pub open spec fn waits_for_batch(flow: FlowState) -> bool {
    flow.start_condition matches Some(c) && c is Batching
}

/// The steps for a flow that was pending before the trigger came.
pub open spec fn retrigger_steps(
    flow: FlowState,
    trigger_time: DateTime,
    context: FlowTriggerContext,
    planned_time: Option<DateTime>,
    increments: Seq<DatasetIntervalIncrement>,
    boundary: DateTime,
    period: TimeDelta,
) -> Seq<FlowAction> {
    match context {
        FlowTriggerContext::Batching(rule) => if waits_for_batch(flow) {
            batching_steps(
                flow.triggers@,
                flow.start_condition,
                planned_time,
                increments,
                rule,
                trigger_time,
                boundary,
                period,
            )
        } else {
            Seq::empty()
        },
        _ => moved_earlier(planned_time->0, trigger_time, boundary, period),
    }
}

/// The steps for a flow that the trigger has created.
pub open spec fn new_flow_steps(
    flow: FlowState,
    trigger_time: DateTime,
    context: FlowTriggerContext,
    planned_time: Option<DateTime>,
    naive_time: Option<DateTime>,
    increments: Seq<DatasetIntervalIncrement>,
    boundary: DateTime,
    period: TimeDelta,
) -> Seq<FlowAction> {
    match context {
        FlowTriggerContext::Batching(rule) => batching_steps(
            flow.triggers@,
            flow.start_condition,
            planned_time,
            increments,
            rule,
            trigger_time,
            boundary,
            period,
        ),
        FlowTriggerContext::Scheduled(_) => scheduled_start(
            naive_time->0,
            trigger_time,
            boundary,
            period,
        ),
        FlowTriggerContext::Unconditional => immediate_start(trigger_time, boundary, period),
    }
}

/// The kinds of flow that can wait for a batch of input.
pub open spec fn can_batch(flow_key: FlowKey) -> bool {
    flow_key matches FlowKey::Dataset(key) && (key.flow_type is ExecuteTransform
        || key.flow_type is HardCompaction)
}

/// The increments that have to be known before a batching rule can be judged.
pub fn increments_to_query(triggers: &Vec<FlowTrigger>) -> (r: Vec<IncrementQuery>)
    ensures
        r@ == increment_queries(triggers@),
{
    let mut queries: Vec<IncrementQuery> = Vec::new();
    for i in 0..triggers.len()
        invariant
            queries@ == increment_queries(triggers@.take(i as int)),
    {
        proof {
            assert(triggers@.take(i + 1).drop_last() == triggers@.take(i as int));
            assert(triggers@.take(i + 1).last() == triggers@[i as int]);
        }
        if let FlowTrigger::InputDatasetFlow(trigger) = &triggers[i] {
            if let FlowResult::DatasetUpdate(FlowResultDatasetUpdate::Changed(update)) =
                &trigger.flow_result {
                queries.push(
                    IncrementQuery {
                        dataset_id: trigger.dataset_id.clone(),
                        old_head: update.old_head.clone(),
                    },
                );
            }
        }
    }
    proof {
        assert(triggers@.take(triggers@.len() as int) == triggers@);
    }
    queries
}

/// The questions to ask before a triggered flow can be judged.
pub open spec fn queries_for(
    flow: FlowState,
    context: FlowTriggerContext,
    was_pending: bool,
) -> Seq<IncrementQuery> {
    if context is Batching && (was_pending ==> waits_for_batch(flow)) {
        increment_queries(flow.triggers@)
    } else {
        Seq::empty()
    }
}

/// Whether the flow waits for a batch of input.
pub fn is_waiting_for_batch(flow: &FlowState) -> (r: bool)
    ensures
        r == waits_for_batch(*flow),
{
    match &flow.start_condition {
        Some(FlowStartCondition::Batching(_)) => true,
        _ => false,
    }
}

/// The questions to ask before a triggered flow can be judged: none unless the
/// trigger batches, and none of a flow that was pending and waits for something
/// else.
pub fn increments_for(flow: &FlowState, context: &FlowTriggerContext, was_pending: bool) -> (r: Vec<
    IncrementQuery,
>)
    ensures
        r@ == queries_for(*flow, *context, was_pending),
{
    let batching = match context {
        FlowTriggerContext::Batching(_) => true,
        _ => false,
    };
    if batching && (!was_pending || is_waiting_for_batch(flow)) {
        increments_to_query(&flow.triggers)
    } else {
        Vec::new()
    }
}

/// Records accumulated over the increments.
fn count_records(increments: &Vec<DatasetIntervalIncrement>) -> (r: u64)
    requires
        total_records(increments@) <= u64::MAX,
    ensures
        r == total_records(increments@),
{
    let mut total: u64 = 0;
    for i in 0..increments.len()
        invariant
            total == total_records(increments@.take(i as int)),
            total_records(increments@) <= u64::MAX,
    {
        proof {
            assert(increments@.take(i + 1).drop_last() == increments@.take(i as int));
            lemma_total_grows(increments@, i + 1);
        }
        total = total + increments[i].num_records;
    }
    proof {
        assert(increments@.take(increments@.len() as int) == increments@);
    }
    total
}

proof fn lemma_total_grows(increments: Seq<DatasetIntervalIncrement>, n: int)
    requires
        0 <= n <= increments.len(),
    ensures
        0 <= total_records(increments.take(n)) <= total_records(increments),
    decreases increments.len(),
{
    if n == increments.len() {
        assert(increments.take(n) == increments);
        if n > 0 {
            lemma_total_grows(increments.drop_last(), n - 1);
            assert(increments.drop_last().take(n - 1) == increments.drop_last());
        }
    } else {
        lemma_total_grows(increments.drop_last(), n);
        assert(increments.drop_last().take(n) == increments.take(n));
    }
}

fn any_watermark(increments: &Vec<DatasetIntervalIncrement>) -> (r: bool)
    ensures
        r == watermark_touched(increments@),
{
    for i in 0..increments.len()
        invariant
            forall|j: int| 0 <= j < i ==> (#[trigger] increments@[j]).updated_watermark is None,
    {
        if increments[i].updated_watermark.is_some() {
            return true;
        }
    }
    false
}

fn any_compaction(triggers: &Vec<FlowTrigger>) -> (r: bool)
    ensures
        r == input_compacted(triggers@),
{
    for i in 0..triggers.len()
        invariant
            forall|j: int| 0 <= j < i ==> !reports_compaction(#[trigger] triggers@[j]),
    {
        if let FlowTrigger::InputDatasetFlow(trigger) = &triggers[i] {
            if let FlowResult::DatasetCompact(_) = &trigger.flow_result {
                assert(reports_compaction(triggers@[i as int]));
                return true;
            }
        }
    }
    false
}

/// What must hold for a batching rule to be judged at all.
pub open spec fn can_evaluate(
    flow: FlowState,
    rule: TransformRule,
    increments: Seq<DatasetIntervalIncrement>,
) -> bool {
    &&& can_batch(flow.flow_key)
    &&& flow.triggers@.len() > 0
    &&& increments.len() == increment_queries(flow.triggers@).len()
    &&& total_records(increments) <= u64::MAX
    &&& crate::time::can_shift(
        flow.triggers@[0].spec_trigger_time(),
        rule.max_batching_interval.span(),
    )
}

/// The records over all increments can be counted.
fn records_fit(increments: &Vec<DatasetIntervalIncrement>) -> (r: bool)
    ensures
        r == (total_records(increments@) <= u64::MAX),
{
    let mut total: u64 = 0;
    for i in 0..increments.len()
        invariant
            total == total_records(increments@.take(i as int)),
    {
        proof {
            assert(increments@.take(i + 1).drop_last() == increments@.take(i as int));
            lemma_total_grows(increments@, i + 1);
        }
        match total.checked_add(increments[i].num_records) {
            Some(sum) => {
                total = sum;
            },
            None => {
                return false;
            },
        }
    }
    proof {
        assert(increments@.take(increments@.len() as int) == increments@);
    }
    true
}

/// Whether a batching rule can be judged for the flow.
pub fn is_evaluable(
    flow: &FlowState,
    transform_rule: &TransformRule,
    increments: &Vec<DatasetIntervalIncrement>,
) -> (r: bool)
    ensures
        r == can_evaluate(*flow, *transform_rule, increments@),
{
    let batches = match &flow.flow_key {
        FlowKey::Dataset(key) => match key.flow_type {
            DatasetFlowType::ExecuteTransform | DatasetFlowType::HardCompaction => true,
            _ => false,
        },
        FlowKey::System(_) => false,
    };
    batches && flow.triggers.len() > 0 && increments.len() == increments_to_query(
        &flow.triggers,
    ).len() && records_fit(increments) && flow.triggers[0].trigger_time().can_add(
        transform_rule.max_batching_interval,
    )
}

/// Judges whether enough input has accumulated. `increments` answers the
/// questions of [`increments_to_query`], one by one.
pub fn evaluate_flow_transform_rule(
    evaluation_time: DateTime,
    flow: &FlowState,
    planned_time: Option<DateTime>,
    transform_rule: &TransformRule,
    throttling_boundary_time: DateTime,
    period: TimeDelta,
    increments: &Vec<DatasetIntervalIncrement>,
) -> (r: Vec<FlowAction>)
    requires
        can_evaluate(*flow, *transform_rule, increments@),
    ensures
        r@ == batching_steps(
            flow.triggers@,
            flow.start_condition,
            planned_time,
            increments@,
            *transform_rule,
            evaluation_time,
            throttling_boundary_time,
            period,
        ),
        planned_time is None && total_records(increments@) > 0 && total_records(increments@)
            >= transform_rule.min_records_to_await ==> r@.contains(
            FlowAction::ActivateAt(
                if evaluation_time.rank() < throttling_boundary_time.rank() {
                    throttling_boundary_time
                } else {
                    evaluation_time
                },
            ),
        ),
{
    let accumulated_records_count: u64 = count_records(increments);
    let watermark_modified = any_watermark(increments);
    let is_compacted = any_compaction(&flow.triggers);

    // The timeout for batching will happen at:
    let batching_deadline = flow.triggers[0].trigger_time().plus(
        transform_rule.max_batching_interval,
    );

    // Accumulated something if at least some input changed or watermark was touched
    let accumulated_something = accumulated_records_count > 0 || watermark_modified;

    // The condition is satisfied if
    //   - we crossed the number of new records thresholds
    //   - or waited long enough, assuming
    //      - there is at least some change of the inputs
    //      - watermark got touched
    let satisfied = accumulated_something && (accumulated_records_count
        >= transform_rule.min_records_to_await || batching_deadline.not_after(&evaluation_time));

    let mut actions: Vec<FlowAction> = Vec::new();

    // Set batching condition data, but only during the first rule evaluation.
    let already_batching = match &flow.start_condition {
        Some(FlowStartCondition::Batching(_)) => true,
        _ => false,
    };
    if !already_batching {
        actions.push(
            FlowAction::SetStartCondition(
                FlowStartCondition::Batching(
                    FlowStartConditionBatching {
                        active_transform_rule: *transform_rule,
                        batching_deadline,
                    },
                ),
            ),
        );
    }

    // If we accumulated at least something (records or watermarks),
    //  the upper bound of potential finish time for batching is known
    if accumulated_something || is_compacted {
        // Finish immediately if satisfied, or not later than the deadline
        let batching_finish_time = if satisfied || is_compacted {
            evaluation_time
        } else {
            batching_deadline
        };

        // Throttling boundary correction
        let corrected_finish_time = batching_finish_time.later_of(throttling_boundary_time);

        let should_activate = match planned_time {
            Some(activation_time) => corrected_finish_time.before(&activation_time),
            None => true,
        };
        if should_activate {
            actions.push(FlowAction::ActivateAt(corrected_finish_time));
        }

        // If batching is over, its start condition is no longer valid.
        // However, set throttling condition, if it applies
        if (satisfied || is_compacted) && batching_finish_time.before(&throttling_boundary_time) {
            actions.push(
                indicate_throttling_activity(
                    period,
                    throttling_boundary_time,
                    batching_finish_time,
                ),
            );
        }
    }
    proof {
        lemma_batching_activates(
            flow.triggers@,
            flow.start_condition,
            planned_time,
            increments@,
            *transform_rule,
            evaluation_time,
            throttling_boundary_time,
            period,
        );
        let steps = batching_steps(
            flow.triggers@,
            flow.start_condition,
            planned_time,
            increments@,
            *transform_rule,
            evaluation_time,
            throttling_boundary_time,
            period,
        );
        assert(actions@ =~= steps);
        if planned_time is None && total_records(increments@) > 0 && total_records(increments@)
            >= transform_rule.min_records_to_await {
            assert(steps.contains(
                FlowAction::ActivateAt(
                    crate::time::latest(evaluation_time, throttling_boundary_time),
                ),
            ));
        }
    }
    actions
}

/// Decides on a flow that is already pending and has been triggered again. Its
/// `triggers` include the new one.
pub fn retrigger_pending_flow(
    flow: &FlowState,
    trigger_time: DateTime,
    context: &FlowTriggerContext,
    planned_time: Option<DateTime>,
    throttling_boundary_time: DateTime,
    period: TimeDelta,
    increments: &Vec<DatasetIntervalIncrement>,
) -> (r: Vec<FlowAction>)
    requires
        match *context {
            FlowTriggerContext::Batching(rule) => waits_for_batch(*flow) ==> can_evaluate(
                *flow,
                rule,
                increments@,
            ),
            _ => planned_time is Some,
        },
    ensures
        r@ == retrigger_steps(
            *flow,
            trigger_time,
            *context,
            planned_time,
            increments@,
            throttling_boundary_time,
            period,
        ),
{
    match context {
        FlowTriggerContext::Batching(transform_rule) => {
            // Is this rule still waited?
            match &flow.start_condition {
                Some(FlowStartCondition::Batching(_)) => evaluate_flow_transform_rule(
                    trigger_time,
                    flow,
                    planned_time,
                    transform_rule,
                    throttling_boundary_time,
                    period,
                    increments,
                ),
                // Skip, the flow waits for something else
                _ => Vec::new(),
            }
        },
        FlowTriggerContext::Scheduled(_) | FlowTriggerContext::Unconditional => {
            let mut actions: Vec<FlowAction> = Vec::new();
            // Evaluate throttling condition: is new time earlier than planned?
            if let Some(planned) = planned_time {
                if throttling_boundary_time.before(&planned) {
                    // If so, enqueue the flow earlier
                    actions.push(FlowAction::ActivateAt(throttling_boundary_time));

                    // Indicate throttling, if applied
                    if trigger_time.before(&throttling_boundary_time) {
                        actions.push(
                            indicate_throttling_activity(
                                period,
                                throttling_boundary_time,
                                trigger_time,
                            ),
                        );
                    }
                }
            }
            actions
        },
    }
}

/// Decides on a flow that has just been created. `naive_next_activation_time` is
/// what its schedule names, where it has one.
pub fn start_new_flow(
    flow: &FlowState,
    trigger_time: DateTime,
    context: &FlowTriggerContext,
    planned_time: Option<DateTime>,
    naive_next_activation_time: Option<DateTime>,
    throttling_boundary_time: DateTime,
    period: TimeDelta,
    increments: &Vec<DatasetIntervalIncrement>,
) -> (r: Vec<FlowAction>)
    requires
        match *context {
            FlowTriggerContext::Batching(rule) => can_evaluate(*flow, rule, increments@),
            FlowTriggerContext::Scheduled(_) => naive_next_activation_time is Some,
            FlowTriggerContext::Unconditional => true,
        },
    ensures
        r@ == new_flow_steps(
            *flow,
            trigger_time,
            *context,
            planned_time,
            naive_next_activation_time,
            increments@,
            throttling_boundary_time,
            period,
        ),
{
    match context {
        // Don't activate if batching condition not satisfied
        FlowTriggerContext::Batching(transform_rule) => evaluate_flow_transform_rule(
            trigger_time,
            flow,
            planned_time,
            transform_rule,
            throttling_boundary_time,
            period,
            increments,
        ),
        FlowTriggerContext::Scheduled(_) => {
            let mut actions: Vec<FlowAction> = Vec::new();
            if let Some(naive_time) = naive_next_activation_time {
                // Apply throttling boundary
                actions.push(
                    FlowAction::ActivateAt(throttling_boundary_time.later_of(naive_time)),
                );

                // Set throttling activity as start condition
                if naive_time.before(&throttling_boundary_time) {
                    actions.push(
                        indicate_throttling_activity(
                            period,
                            throttling_boundary_time,
                            naive_time,
                        ),
                    );
                } else if trigger_time.before(&naive_time) {
                    // Set waiting according to the schedule
                    actions.push(
                        FlowAction::SetStartCondition(
                            FlowStartCondition::Schedule(
                                FlowStartConditionSchedule { wake_up_at: naive_time },
                            ),
                        ),
                    );
                }
            }
            actions
        },
        FlowTriggerContext::Unconditional => {
            let mut actions: Vec<FlowAction> = Vec::new();
            // Apply throttling boundary
            actions.push(
                FlowAction::ActivateAt(throttling_boundary_time.later_of(trigger_time)),
            );

            // Set throttling activity as start condition
            if trigger_time.before(&throttling_boundary_time) {
                actions.push(
                    indicate_throttling_activity(period, throttling_boundary_time, trigger_time),
                );
            }
            actions
        },
    }
}

/// Every activation among the steps is planned for `earliest` or later.
pub open spec fn none_before(steps: Seq<FlowAction>, earliest: int) -> bool {
    forall|i: int|
        0 <= i < steps.len() ==> ((#[trigger] steps[i]) matches FlowAction::ActivateAt(t)
            ==> earliest <= t.rank())
}

/// Every activation among the steps is planned before `latest`.
pub open spec fn all_before(steps: Seq<FlowAction>, latest: int) -> bool {
    forall|i: int|
        0 <= i < steps.len() ==> ((#[trigger] steps[i]) matches FlowAction::ActivateAt(t)
            ==> t.rank() < latest)
}

/// No step plans an activation.
pub open spec fn plans_nothing(steps: Seq<FlowAction>) -> bool {
    forall|i: int| 0 <= i < steps.len() ==> !((#[trigger] steps[i]) is ActivateAt)
}

/// No flow runs before it was triggered, nor within the throttling period after
/// the last attempt, whatever triggers it and whether or not it was pending.
pub proof fn law_throttling_is_respected(
    flow: FlowState,
    trigger_time: DateTime,
    context: FlowTriggerContext,
    planned_time: Option<DateTime>,
    naive_time: Option<DateTime>,
    increments: Seq<DatasetIntervalIncrement>,
    last_attempt: Option<DateTime>,
    period: TimeDelta,
)
    requires
        boundary_in_range(last_attempt, period),
    ensures
        ({
            let boundary = throttling_boundary(trigger_time, last_attempt, period);
            let again = retrigger_steps(
                flow,
                trigger_time,
                context,
                planned_time,
                increments,
                boundary,
                period,
            );
            let new = new_flow_steps(
                flow,
                trigger_time,
                context,
                planned_time,
                naive_time,
                increments,
                boundary,
                period,
            );
            &&& none_before(again, trigger_time.rank())
            &&& none_before(new, trigger_time.rank())
            &&& last_attempt matches Some(t) ==> {
                &&& none_before(again, crate::time::shifted(t, period.span()).rank())
                &&& none_before(new, crate::time::shifted(t, period.span()).rank())
            }
        }),
{
}

/// A flow that was never attempted before goes without restriction: triggered
/// without a condition, it runs at the moment of the trigger, and waits for
/// nothing.
pub proof fn law_first_run_is_not_throttled(
    flow: FlowState,
    trigger_time: DateTime,
    planned_time: Option<DateTime>,
    naive_time: Option<DateTime>,
    increments: Seq<DatasetIntervalIncrement>,
    period: TimeDelta,
)
    ensures
        new_flow_steps(
            flow,
            trigger_time,
            FlowTriggerContext::Unconditional,
            planned_time,
            naive_time,
            increments,
            throttling_boundary(trigger_time, None, period),
            period,
        ) == seq![FlowAction::ActivateAt(trigger_time)],
{
}

/// Another trigger never puts a planned flow off: it stays where it was, or moves
/// to an earlier moment.
pub proof fn law_triggers_never_delay(
    flow: FlowState,
    trigger_time: DateTime,
    context: FlowTriggerContext,
    planned_time: DateTime,
    increments: Seq<DatasetIntervalIncrement>,
    boundary: DateTime,
    period: TimeDelta,
)
    ensures
        all_before(
            retrigger_steps(
                flow,
                trigger_time,
                context,
                Some(planned_time),
                increments,
                boundary,
                period,
            ),
            planned_time.rank(),
        ),
{
}

/// A new flow that need not wait for input is planned at once, before anything
/// is recorded of what it waits for.
pub proof fn law_new_flow_is_planned(
    flow: FlowState,
    trigger_time: DateTime,
    context: FlowTriggerContext,
    planned_time: Option<DateTime>,
    naive_time: Option<DateTime>,
    increments: Seq<DatasetIntervalIncrement>,
    boundary: DateTime,
    period: TimeDelta,
)
    requires
        !(context is Batching),
    ensures
        ({
            let steps = new_flow_steps(
                flow,
                trigger_time,
                context,
                planned_time,
                naive_time,
                increments,
                boundary,
                period,
            );
            &&& steps.len() > 0
            &&& steps[0] is ActivateAt
            &&& forall|i: int| 0 < i < steps.len() ==> (#[trigger] steps[i]) is SetStartCondition
        }),
{
}

/// A flow that waits for input is not planned while there is nothing to process,
/// and at the latest for its deadline, or the throttling boundary or the moment
/// of the decision if those come later, once there is.
pub proof fn law_batching_waits_for_input(
    triggers: Seq<FlowTrigger>,
    start_condition: Option<FlowStartCondition>,
    increments: Seq<DatasetIntervalIncrement>,
    rule: TransformRule,
    evaluation_time: DateTime,
    boundary: DateTime,
    period: TimeDelta,
)
    ensures
        ({
            let steps = batching_steps(
                triggers,
                start_condition,
                None,
                increments,
                rule,
                evaluation_time,
                boundary,
                period,
            );
            let idle = !accumulated_something(increments) && !input_compacted(triggers);
            let bound = crate::time::latest(
                crate::time::latest(batching_deadline(triggers, rule), boundary),
                evaluation_time,
            );
            &&& idle ==> plans_nothing(steps)
            &&& !idle ==> exists|i: int|
                0 <= i < steps.len() && ((#[trigger] steps[i]) matches FlowAction::ActivateAt(t)
                    && t.rank() <= bound.rank())
        }),
{
    let steps = batching_steps(
        triggers,
        start_condition,
        None,
        increments,
        rule,
        evaluation_time,
        boundary,
        period,
    );
    if accumulated_something(increments) || input_compacted(triggers) {
        if start_condition matches Some(c) && c is Batching {
            assert(steps[0] is ActivateAt);
        } else {
            assert(steps[1] is ActivateAt);
        }
    }
}

/// Records add up over increments, however these are split.
pub proof fn law_records_add_up(
    first: Seq<DatasetIntervalIncrement>,
    second: Seq<DatasetIntervalIncrement>,
    one: DatasetIntervalIncrement,
)
    ensures
        total_records(Seq::<DatasetIntervalIncrement>::empty()) == 0,
        total_records(seq![one]) == one.num_records,
        total_records(first + second) == total_records(first) + total_records(second),
        total_records(first) >= 0,
    decreases second.len(),
{
    assert(seq![one].drop_last() == Seq::<DatasetIntervalIncrement>::empty());
    reveal_with_fuel(total_records, 2);
    lemma_total_grows(first, 0);
    assert(first.take(0) == Seq::<DatasetIntervalIncrement>::empty());
    if second.len() == 0 {
        assert(first + second == first);
    } else {
        assert((first + second).drop_last() == first + second.drop_last());
        law_records_add_up(first, second.drop_last(), one);
    }
}

/// A trigger happens when it says.
pub proof fn law_trigger_time(trigger: FlowTrigger, time: DateTime)
    ensures
        trigger matches FlowTrigger::Manual(t) ==> (trigger.spec_trigger_time() == time
            <==> t.trigger_time == time),
        trigger matches FlowTrigger::AutoPolling(t) ==> (trigger.spec_trigger_time() == time
            <==> t.trigger_time == time),
        trigger matches FlowTrigger::InputDatasetFlow(t) ==> (trigger.spec_trigger_time() == time
            <==> t.trigger_time == time),
{
}

proof fn lemma_batching_activates(
    triggers: Seq<FlowTrigger>,
    start_condition: Option<FlowStartCondition>,
    planned_time: Option<DateTime>,
    increments: Seq<DatasetIntervalIncrement>,
    rule: TransformRule,
    evaluation_time: DateTime,
    boundary: DateTime,
    period: TimeDelta,
)
    ensures
        ({
            let steps = batching_steps(
                triggers,
                start_condition,
                planned_time,
                increments,
                rule,
                evaluation_time,
                boundary,
                period,
            );
            let over = batching_over(triggers, increments, rule, evaluation_time);
            let finish = if over {
                evaluation_time
            } else {
                batching_deadline(triggers, rule)
            };
            let at = crate::time::latest(finish, boundary);
            &&& forall|t: DateTime| #[trigger]
                steps.contains(FlowAction::ActivateAt(t)) <==> (accumulated_something(increments)
                    || input_compacted(triggers)) && t == at && (planned_time matches Some(p)
                    ==> t.rank() < p.rank())
            &&& forall|c: FlowStartConditionThrottling| #[trigger]
                steps.contains(
                    FlowAction::SetStartCondition(FlowStartCondition::Throttling(c)),
                ) <==> over && boundary.rank() > finish.rank() && c == (
                FlowStartConditionThrottling {
                    interval: period,
                    wake_up_at: boundary,
                    shifted_from: finish,
                })
        }),
{
    let steps = batching_steps(
        triggers,
        start_condition,
        planned_time,
        increments,
        rule,
        evaluation_time,
        boundary,
        period,
    );
    let over = batching_over(triggers, increments, rule, evaluation_time);
    let finish = if over {
        evaluation_time
    } else {
        batching_deadline(triggers, rule)
    };
    let at = crate::time::latest(finish, boundary);
    let announced = !(start_condition matches Some(c) && c is Batching);
    let bounded = accumulated_something(increments) || input_compacted(triggers);
    let activates = bounded && (planned_time matches Some(p) ==> p.rank() > at.rank());
    let throttles = over && boundary.rank() > finish.rank();
    let a: int = if announced { 1 } else { 0 };
    let b: int = if activates { 1 } else { 0 };
    if activates {
        assert(steps[a] == FlowAction::ActivateAt(at));
    }
    if throttles {
        assert(steps[a + b] == throttled(period, boundary, finish));
    }
    assert(forall|i: int|
        0 <= i < steps.len() && (#[trigger] steps[i]) is ActivateAt ==> i == a && activates);
}

/// When a flow that waits for a batch is planned, whatever the watermarks say beyond
/// that there are any: at once if enough records have come, if anything has come and the
/// time to wait is over, or if an input was compacted; when that time will be over if
/// something has come, but too little; and not yet if nothing has. Throttling can put
/// that off, and a flow that is planned already is only moved to an earlier moment.
pub proof fn law_batch_is_planned_once_it_is_ready(
    flow: FlowState,
    now: DateTime,
    rule: TransformRule,
    planned_time: Option<DateTime>,
    naive_time: Option<DateTime>,
    increments: Seq<DatasetIntervalIncrement>,
    boundary: DateTime,
    period: TimeDelta,
)
    ensures
        ({
            let new = new_flow_steps(
                flow,
                now,
                FlowTriggerContext::Batching(rule),
                planned_time,
                naive_time,
                increments,
                boundary,
                period,
            );
            let again = retrigger_steps(
                flow,
                now,
                FlowTriggerContext::Batching(rule),
                planned_time,
                increments,
                boundary,
                period,
            );
            let waits = flow.start_condition matches Some(FlowStartCondition::Batching(_));
            let records = total_records(increments);
            let touched = exists|i: int|
                0 <= i < increments.len() && (#[trigger] increments[i]).updated_watermark is Some;
            let compacted = exists|i: int|
                0 <= i < flow.triggers@.len() && ((
                #[trigger] flow.triggers@[i]) matches FlowTrigger::InputDatasetFlow(t)
                    && t.flow_result is DatasetCompact);
            let deadline = crate::time::shifted(
                flow.triggers@[0].spec_trigger_time(),
                rule.max_batching_interval.span(),
            );
            let at_once = if now.rank() < boundary.rank() {
                boundary
            } else {
                now
            };
            let at_deadline = if deadline.rank() < boundary.rank() {
                boundary
            } else {
                deadline
            };
            let wanted = |t: DateTime| planned_time matches Some(p) ==> t.rank() < p.rank();
            let plans = |steps: Seq<FlowAction>, at: DateTime|
                forall|t: DateTime| #[trigger]
                    steps.contains(FlowAction::ActivateAt(t)) <==> t == at && wanted(at);
            let anything = records > 0 || touched;
            &&& records > 0 && records >= rule.min_records_to_await ==> plans(new, at_once)
            &&& touched && records >= rule.min_records_to_await ==> plans(new, at_once)
            &&& anything && deadline.rank() <= now.rank() ==> plans(new, at_once)
            &&& compacted ==> plans(new, at_once)
            &&& anything && !compacted && records < rule.min_records_to_await && now.rank()
                < deadline.rank() ==> plans(new, at_deadline)
            &&& !anything && !compacted ==> forall|t: DateTime|
                !(#[trigger] new.contains(FlowAction::ActivateAt(t)))
            &&& waits ==> again == new
            &&& !waits ==> again.len() == 0
        }),
{
    lemma_batching_activates(
        flow.triggers@,
        flow.start_condition,
        planned_time,
        increments,
        rule,
        now,
        boundary,
        period,
    );
    let records = total_records(increments);
    assert(forall|i: int|
        0 <= i < flow.triggers@.len() ==> (reports_compaction(#[trigger] flow.triggers@[i]) <==> (
        flow.triggers@[i] matches FlowTrigger::InputDatasetFlow(t)
            && t.flow_result is DatasetCompact)));
}

/// More input never puts a batch off: where each increment has at least the records that
/// it had, and a watermark if it had one, a flow that was to be planned is planned no later.
pub proof fn law_more_input_never_delays(
    flow: FlowState,
    now: DateTime,
    rule: TransformRule,
    less: Seq<DatasetIntervalIncrement>,
    more: Seq<DatasetIntervalIncrement>,
    boundary: DateTime,
    period: TimeDelta,
    t: DateTime,
)
    requires
        less.len() == more.len(),
        forall|i: int|
            0 <= i < less.len() ==> (#[trigger] less[i]).num_records <= more[i].num_records,
        forall|i: int|
            0 <= i < less.len() ==> ((#[trigger] less[i]).updated_watermark is Some
                ==> more[i].updated_watermark is Some),
        new_flow_steps(
            flow,
            now,
            FlowTriggerContext::Batching(rule),
            None,
            None,
            less,
            boundary,
            period,
        ).contains(FlowAction::ActivateAt(t)),
    ensures
        exists|sooner: DateTime| #[trigger]
            new_flow_steps(
                flow,
                now,
                FlowTriggerContext::Batching(rule),
                None,
                None,
                more,
                boundary,
                period,
            ).contains(FlowAction::ActivateAt(sooner)) && sooner.rank() <= t.rank(),
{
    lemma_batching_activates(
        flow.triggers@,
        flow.start_condition,
        None,
        less,
        rule,
        now,
        boundary,
        period,
    );
    lemma_batching_activates(
        flow.triggers@,
        flow.start_condition,
        None,
        more,
        rule,
        now,
        boundary,
        period,
    );
    lemma_more_records(less, more);
    if watermark_touched(less) {
        let i = choose|i: int|
            0 <= i < less.len() && (#[trigger] less[i]).updated_watermark is Some;
        assert(more[i].updated_watermark is Some);
    }
    let finish = if batching_over(flow.triggers@, more, rule, now) {
        now
    } else {
        batching_deadline(flow.triggers@, rule)
    };
    let sooner = crate::time::latest(finish, boundary);
    assert(new_flow_steps(
        flow,
        now,
        FlowTriggerContext::Batching(rule),
        None,
        None,
        more,
        boundary,
        period,
    ).contains(FlowAction::ActivateAt(sooner)));
}

proof fn lemma_more_records(
    less: Seq<DatasetIntervalIncrement>,
    more: Seq<DatasetIntervalIncrement>,
)
    requires
        less.len() == more.len(),
        forall|i: int|
            0 <= i < less.len() ==> (#[trigger] less[i]).num_records <= more[i].num_records,
    ensures
        total_records(less) <= total_records(more),
    decreases less.len(),
{
    if less.len() > 0 {
        let n = less.len() - 1;
        assert(less[n].num_records <= more[n].num_records);
        assert forall|i: int| 0 <= i < less.drop_last().len() implies (
        #[trigger] less.drop_last()[i]).num_records <= more.drop_last()[i].num_records by {
            assert(less[i].num_records <= more[i].num_records);
        }
        lemma_more_records(less.drop_last(), more.drop_last());
    }
}

/// What a flow that waits for a batch is said to wait for: first the batch, with the
/// rule and the moment at which waiting ends, but only once; then throttling, if the
/// batch is ready and throttling puts the flow off.
pub proof fn law_batching_is_announced_once(
    flow: FlowState,
    now: DateTime,
    rule: TransformRule,
    planned_time: Option<DateTime>,
    naive_time: Option<DateTime>,
    increments: Seq<DatasetIntervalIncrement>,
    boundary: DateTime,
    period: TimeDelta,
    condition: FlowStartCondition,
)
    ensures
        ({
            let steps = new_flow_steps(
                flow,
                now,
                FlowTriggerContext::Batching(rule),
                planned_time,
                naive_time,
                increments,
                boundary,
                period,
            );
            let waits = flow.start_condition matches Some(FlowStartCondition::Batching(_));
            let deadline = crate::time::shifted(
                flow.triggers@[0].spec_trigger_time(),
                rule.max_batching_interval.span(),
            );
            let records = total_records(increments);
            let touched = exists|i: int|
                0 <= i < increments.len() && (#[trigger] increments[i]).updated_watermark is Some;
            let compacted = exists|i: int|
                0 <= i < flow.triggers@.len() && ((
                #[trigger] flow.triggers@[i]) matches FlowTrigger::InputDatasetFlow(t)
                    && t.flow_result is DatasetCompact);
            let said = steps.contains(FlowAction::SetStartCondition(condition));
            &&& condition matches FlowStartCondition::Batching(c) ==> (said <==> !waits
                && c.active_transform_rule == rule && c.batching_deadline == deadline)
            &&& !waits ==> steps[0] is SetStartCondition
            &&& condition matches FlowStartCondition::Throttling(c) ==> (said <==> now.rank()
                < boundary.rank() && c.interval == period && c.wake_up_at == boundary
                && c.shifted_from == now && (compacted || (records > 0 || touched) && (records
                >= rule.min_records_to_await || deadline.rank() <= now.rank())))
            &&& condition is Schedule || condition is Executor ==> !said
        }),
{
    lemma_batching_activates(
        flow.triggers@,
        flow.start_condition,
        planned_time,
        increments,
        rule,
        now,
        boundary,
        period,
    );
    assert(forall|i: int|
        0 <= i < flow.triggers@.len() ==> (reports_compaction(#[trigger] flow.triggers@[i]) <==> (
        flow.triggers@[i] matches FlowTrigger::InputDatasetFlow(t)
            && t.flow_result is DatasetCompact)));
    let steps = batching_steps(
        flow.triggers@,
        flow.start_condition,
        planned_time,
        increments,
        rule,
        now,
        boundary,
        period,
    );
    if !waits_for_batch(flow) {
        assert(steps[0] == FlowAction::SetStartCondition(
            FlowStartCondition::Batching(
                FlowStartConditionBatching {
                    active_transform_rule: rule,
                    batching_deadline: batching_deadline(flow.triggers@, rule),
                },
            ),
        ));
    }
}

/// When a flow that waits for no batch is planned, and what it is said to wait for. A new
/// flow goes by its schedule, or runs at once; one that was pending is only moved to an
/// earlier moment. Where throttling puts it off, it is planned for the boundary, and that
/// is said, with the moment from which it was put off.
pub proof fn law_flow_runs_when_it_may(
    flow: FlowState,
    now: DateTime,
    schedule: crate::flow::types::Schedule,
    planned_time: Option<DateTime>,
    due: DateTime,
    planned: DateTime,
    increments: Seq<DatasetIntervalIncrement>,
    boundary: DateTime,
    period: TimeDelta,
)
    ensures
        ({
            let throttling = |from: DateTime|
                FlowAction::SetStartCondition(
                    FlowStartCondition::Throttling(
                        FlowStartConditionThrottling {
                            interval: period,
                            wake_up_at: boundary,
                            shifted_from: from,
                        },
                    ),
                );
            let by_schedule = new_flow_steps(
                flow,
                now,
                FlowTriggerContext::Scheduled(schedule),
                planned_time,
                Some(due),
                increments,
                boundary,
                period,
            );
            let at_once = new_flow_steps(
                flow,
                now,
                FlowTriggerContext::Unconditional,
                planned_time,
                Some(due),
                increments,
                boundary,
                period,
            );
            &&& due.rank() < boundary.rank() ==> by_schedule =~= seq![
                FlowAction::ActivateAt(boundary),
                throttling(due),
            ]
            &&& boundary.rank() <= due.rank() && now.rank() < due.rank() ==> by_schedule.len() == 2
                && by_schedule[1] == FlowAction::SetStartCondition(
                FlowStartCondition::Schedule(FlowStartConditionSchedule { wake_up_at: due }),
            )
            &&& boundary.rank() <= due.rank() && due.rank() <= now.rank() ==> by_schedule.len() == 1
            &&& boundary.rank() < due.rank() ==> by_schedule[0] == FlowAction::ActivateAt(due)
            &&& boundary.rank() == due.rank() ==> (by_schedule[0] matches FlowAction::ActivateAt(t)
                && t.rank() == due.rank())
            &&& now.rank() < boundary.rank() ==> at_once =~= seq![
                FlowAction::ActivateAt(boundary),
                throttling(now),
            ]
            &&& boundary.rank() < now.rank() ==> at_once =~= seq![FlowAction::ActivateAt(now)]
            &&& boundary.rank() == now.rank() ==> at_once.len() == 1 && (
            at_once[0] matches FlowAction::ActivateAt(t) && t.rank() == now.rank())
            &&& forall|context: FlowTriggerContext|
                !(context is Batching) ==> {
                    let again = #[trigger] retrigger_steps(
                        flow,
                        now,
                        context,
                        Some(planned),
                        increments,
                        boundary,
                        period,
                    );
                    &&& planned.rank() <= boundary.rank() ==> again.len() == 0
                    &&& boundary.rank() < planned.rank() && now.rank() < boundary.rank() ==> again
                        =~= seq![FlowAction::ActivateAt(boundary), throttling(now)]
                    &&& boundary.rank() < planned.rank() && boundary.rank() <= now.rank()
                        ==> again =~= seq![FlowAction::ActivateAt(boundary)]
                }
        }),
{
}

/// The boundary of throttling is the moment of the trigger, or a period after the last
/// attempt: whichever comes later, and no later than that.
pub proof fn law_throttling_boundary_is_tight(
    trigger_time: DateTime,
    last_attempt: DateTime,
    period: TimeDelta,
)
    ensures
        ({
            let boundary = throttling_boundary(trigger_time, Some(last_attempt), period);
            let again = crate::time::shifted(last_attempt, period.span());
            &&& boundary == trigger_time || boundary == again
            &&& trigger_time.rank() <= boundary.rank()
            &&& again.rank() <= boundary.rank()
            &&& throttling_boundary(trigger_time, None, period) == trigger_time
        }),
{
}

/// What is asked about the input: of each trigger by a dataset that an update has
/// changed, what has come since the head before the update; of other triggers nothing.
/// The questions come in the order of the triggers, and each once.
pub proof fn law_questions_are_about_changed_input(
    first: Seq<FlowTrigger>,
    second: Seq<FlowTrigger>,
    trigger: FlowTrigger,
)
    ensures
        increment_queries(first + second) == increment_queries(first) + increment_queries(second),
        increment_queries(seq![trigger]) == (match trigger {
            FlowTrigger::InputDatasetFlow(t) => match t.flow_result {
                FlowResult::DatasetUpdate(FlowResultDatasetUpdate::Changed(update)) => seq![
                    IncrementQuery { dataset_id: t.dataset_id, old_head: update.old_head },
                ],
                FlowResult::DatasetUpdate(FlowResultDatasetUpdate::UpToDate) => Seq::empty(),
                FlowResult::Empty => Seq::empty(),
                FlowResult::DatasetCompact(_) => Seq::empty(),
                FlowResult::DatasetReset(_) => Seq::empty(),
            },
            FlowTrigger::Manual(_) => Seq::empty(),
            FlowTrigger::AutoPolling(_) => Seq::empty(),
        }),
    decreases second.len(),
{
    assert(seq![trigger].drop_last() == Seq::<FlowTrigger>::empty());
    reveal_with_fuel(increment_queries, 2);
    if second.len() == 0 {
        assert(first + second == first);
        assert(increment_queries(first) + increment_queries(second) == increment_queries(first));
    } else {
        assert((first + second).drop_last() == first + second.drop_last());
        law_questions_are_about_changed_input(first, second.drop_last(), trigger);
        assert(increment_queries(first + second) =~= increment_queries(first) + increment_queries(
            second,
        ));
    }
}

/// A flow is judged by its input exactly where its trigger batches and it is new or waits
/// for a batch. Then all questions are asked.
pub proof fn law_questions_are_asked_where_they_matter(
    flow: FlowState,
    context: FlowTriggerContext,
    was_pending: bool,
)
    ensures
        !(context is Batching) ==> queries_for(flow, context, was_pending).len() == 0,
        context is Batching && !was_pending ==> queries_for(flow, context, was_pending)
            == increment_queries(flow.triggers@),
        context is Batching && was_pending && (flow.start_condition matches Some(
            FlowStartCondition::Batching(_),
        )) ==> queries_for(flow, context, was_pending) == increment_queries(flow.triggers@),
        was_pending && !(flow.start_condition matches Some(FlowStartCondition::Batching(_)))
            ==> queries_for(flow, context, was_pending).len() == 0,
{
}

/// Transforms and hard compactions can be judged by their input, whoever's they are, once
/// all questions are answered and the numbers can be held.
pub proof fn law_what_can_be_judged(
    flow: FlowState,
    rule: TransformRule,
    increments: Seq<DatasetIntervalIncrement>,
)
    requires
        flow.triggers@.len() > 0,
        increments.len() == increment_queries(flow.triggers@).len(),
        total_records(increments) <= u64::MAX,
        crate::time::can_shift(
            flow.triggers@[0].spec_trigger_time(),
            rule.max_batching_interval.span(),
        ),
    ensures
        can_evaluate(flow, rule, increments) <==> match flow.flow_key {
            FlowKey::Dataset(key) => match key.flow_type {
                DatasetFlowType::ExecuteTransform => true,
                DatasetFlowType::HardCompaction => true,
                DatasetFlowType::Ingest => false,
                DatasetFlowType::Reset => false,
            },
            FlowKey::System(_) => false,
        },
{
}

} // verus!
