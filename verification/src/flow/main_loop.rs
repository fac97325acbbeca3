//! The main loop of the flow service, step by step.

use vstd::prelude::*;

use crate::error::InternalError;
use crate::flow::service::{
    FlowServiceImpl, FlowServiceRunConfig, FlowServiceView, TriggerRequest,
};
use crate::flow::startup::order_enabled_configurations;
use crate::flow::types::{
    FlowConfiguration, FlowServiceUpdateDetails, FlowServiceUpdatedMessage,
};
use crate::ids::FlowID;
use crate::time::{DateTime, TimeDelta};

verus! {

/// What the loop is about to do.
#[derive(Debug, Clone, Copy, PartialEq, Eq, Structural)]
pub enum RunPhase {
    /// Put the configurations in force
    Activating,
    /// Look for a timeslot that is due
    Polling,
    /// Tell that a timeslot has been executed
    Announcing(DateTime),
    /// Wait for the next look
    Resting,
}

/// The main loop under way.
#[derive(Debug)]
pub struct FlowServiceRun {
    start_time: DateTime,
    configs: Vec<FlowConfiguration>,
    activated: usize,
    phase: RunPhase,
}

/// The main loop: the configurations in the order in which they come into force, and
/// how many are in force already.
#[verifier::ext_equal]
pub struct RunView {
    pub start_time: DateTime,
    pub configs: Seq<FlowConfiguration>,
    pub activated: int,
    pub phase: RunPhase,
}

/// What is to be done next. None of it ends the loop.
#[derive(Debug, PartialEq, Eq)]
pub enum RunAction {
    /// A configuration has come into force: trigger the flow, if any
    Trigger(Option<TriggerRequest>),
    Post(FlowServiceUpdatedMessage),
    /// Schedule the flows of a timeslot
    RunTimeslot(DateTime, Vec<FlowID>),
    Sleep(TimeDelta),
}

/// A flow is due at the given moment.
pub open spec fn is_due(planned: Map<FlowID, DateTime>, now: DateTime) -> bool {
    exists|f: FlowID| #[trigger]
        planned.contains_key(f) && planned[f].rank() <= now.rank()
}

/// The flows are those planned for the moment.
pub open spec fn are_due_at(
    planned: Map<FlowID, DateTime>,
    timeslot: DateTime,
    flow_ids: Seq<FlowID>,
) -> bool {
    &&& flow_ids.no_duplicates()
    &&& forall|f: FlowID| #[trigger]
        flow_ids.contains(f) <==> planned.contains_key(f) && planned[f].rank()
            == timeslot.rank()
}

/// The loop before it has done anything.
pub open spec fn at_start(start_time: DateTime, enabled: Seq<FlowConfiguration>) -> RunView {
    RunView {
        start_time,
        configs: crate::flow::startup::startup_order(enabled),
        activated: 0,
        phase: RunPhase::Activating,
    }
}

impl RunView {
    /// There is a configuration left to put in force.
    pub open spec fn has_next(self) -> bool {
        self.phase is Activating && self.activated < self.configs.len()
    }

    pub open spec fn next_config(self) -> FlowConfiguration {
        self.configs[self.activated]
    }
}

/// A step of the loop at the moment `now`: from a state of the loop and the service to
/// the next, with an action.
pub open spec fn run_step(
    config: FlowServiceRunConfig,
    run: RunView,
    service: FlowServiceView,
    now: DateTime,
    action: RunAction,
    next_run: RunView,
    next_service: FlowServiceView,
) -> bool {
    match run.phase {
        RunPhase::Activating => if run.has_next() {
            let c = run.next_config();
            &&& action == RunAction::Trigger(
                crate::flow::service::activation_request(run.start_time, c.flow_key, c.rule),
            )
            &&& next_run == (RunView { activated: run.activated + 1, ..run })
            &&& next_service == service.with_rule(c.flow_key, c.rule)
        } else {
            &&& action == RunAction::Post(
                crate::flow::service::news(run.start_time, FlowServiceUpdateDetails::Loaded),
            )
            &&& next_run == (RunView { phase: RunPhase::Polling, ..run })
            &&& next_service == service
        },
        RunPhase::Polling => if is_due(service.planned, now) {
            &&& action matches RunAction::RunTimeslot(t, flow_ids)
                && crate::flow::time_wheel::is_nearest(service.planned, t) && t.rank()
                <= now.rank() && are_due_at(service.planned, t, flow_ids@)
                && next_run == (RunView { phase: RunPhase::Announcing(t), ..run })
                && next_service == (FlowServiceView {
                planned: crate::flow::time_wheel::without_due(service.planned, t),
                ..service
            })
        } else {
            &&& action == RunAction::Sleep(config.awaiting_step)
            &&& next_run == run
            &&& next_service == service
        },
        RunPhase::Announcing(t) => {
            &&& action == RunAction::Post(
                crate::flow::service::news(t, FlowServiceUpdateDetails::ExecutedTimeslot),
            )
            &&& next_run == (RunView { phase: RunPhase::Resting, ..run })
            &&& next_service == service
        },
        RunPhase::Resting => {
            &&& action == RunAction::Sleep(config.awaiting_step)
            &&& next_run == (RunView { phase: RunPhase::Polling, ..run })
            &&& next_service == service
        },
    }
}

/// Marks that running has started, and gives the moment from which the loop counts.
pub fn begin(service: &mut FlowServiceImpl, planned_start_time: DateTime) -> (r: Result<
    DateTime,
    InternalError,
>)
    requires
        old(service).wf(),
    ensures
        final(service).wf(),
        final(service).config() == old(service).config(),
        final(service)@ == (FlowServiceView { running: true, ..old(service)@ }),
        r == crate::flow::service::rounded(
            planned_start_time,
            old(service).config().awaiting_step,
        ),
{
    service.start_running();
    service.round_time(planned_start_time)
}

impl View for FlowServiceRun {
    type V = RunView;

    closed spec fn view(&self) -> RunView {
        RunView {
            start_time: self.start_time,
            configs: self.configs@,
            activated: self.activated as int,
            phase: self.phase,
        }
    }
}

impl FlowServiceRun {
    #[verifier::type_invariant]
    spec fn within_configs(&self) -> bool {
        self.activated <= self.configs@.len()
    }

    /// The loop with the enabled configurations, which it is to put in force first.
    pub fn new(start_time: DateTime, enabled: &Vec<FlowConfiguration>) -> (r: Self)
        ensures
            r@ == at_start(start_time, enabled@),
    {
        FlowServiceRun {
            start_time,
            configs: order_enabled_configurations(enabled),
            activated: 0,
            phase: RunPhase::Activating,
        }
    }

    /// The configuration that comes into force in the next step, if one does.
    pub fn next_configuration(&self) -> (r: Option<&FlowConfiguration>)
        ensures
            match r {
                Some(c) => self@.has_next() && *c == self@.next_config(),
                None => !self@.has_next(),
            },
    {
        match self.phase {
            RunPhase::Activating => if self.activated < self.configs.len() {
                Some(&self.configs[self.activated])
            } else {
                None
            },
            _ => None,
        }
    }

    /// Takes the next step. First all configurations come into force, then that is
    /// told. From then on, whenever a timeslot is due, its flows are to be scheduled,
    /// and that is told.
    pub fn next(&mut self, service: &mut FlowServiceImpl, now: DateTime) -> (r: RunAction)
        requires
            old(service).wf(),
            old(self)@.has_next() ==> crate::flow::service::supported(
                old(self)@.next_config().flow_key,
                old(self)@.next_config().rule,
            ),
        ensures
            final(service).wf(),
            final(service).config() == old(service).config(),
            run_step(
                old(service).config(),
                old(self)@,
                old(service)@,
                now,
                r,
                final(self)@,
                final(service)@,
            ),
    {
        proof {
            use_type_invariant(&*self);
        }
        match self.phase {
            RunPhase::Activating => {
                if self.activated < self.configs.len() {
                    let config = self.configs[self.activated].clone();
                    self.activated = self.activated + 1;
                    RunAction::Trigger(
                        service.activate_flow_configuration(
                            self.start_time,
                            config.flow_key,
                            config.rule,
                        ),
                    )
                } else {
                    self.phase = RunPhase::Polling;
                    RunAction::Post(
                        FlowServiceUpdatedMessage {
                            update_time: self.start_time,
                            update_details: FlowServiceUpdateDetails::Loaded,
                        },
                    )
                }
            },
            RunPhase::Polling => match service.due_timeslot(now) {
                Some(timeslot) => {
                    self.phase = RunPhase::Announcing(timeslot);
                    RunAction::RunTimeslot(timeslot, service.run_current_timeslot())
                },
                None => RunAction::Sleep(service.awaiting_step()),
            },
            RunPhase::Announcing(timeslot) => {
                self.phase = RunPhase::Resting;
                RunAction::Post(
                    FlowServiceUpdatedMessage {
                        update_time: timeslot,
                        update_details: FlowServiceUpdateDetails::ExecutedTimeslot,
                    },
                )
            },
            RunPhase::Resting => {
                self.phase = RunPhase::Polling;
                RunAction::Sleep(service.awaiting_step())
            },
        }
    }
}

/// The loop as it went: each step with its moment, its action and the service before and
/// after it. Between two steps anything may happen to the service.
pub struct RunHistory {
    pub moments: Seq<DateTime>,
    pub actions: Seq<RunAction>,
    pub runs: Seq<RunView>,
    pub before: Seq<FlowServiceView>,
    pub after: Seq<FlowServiceView>,
}

impl RunHistory {
    /// One call of [`FlowServiceRun::next`] after the other, from the start.
    pub open spec fn took_place(
        self,
        config: FlowServiceRunConfig,
        start_time: DateTime,
        enabled: Seq<FlowConfiguration>,
    ) -> bool {
        &&& self.moments.len() == self.actions.len()
        &&& self.before.len() == self.actions.len()
        &&& self.after.len() == self.actions.len()
        &&& self.runs.len() == self.actions.len() + 1
        &&& self.runs[0] == at_start(start_time, enabled)
        &&& forall|i: int| 0 <= i < self.actions.len() ==> #[trigger] self.step(config, i)
    }

    pub open spec fn step(self, config: FlowServiceRunConfig, i: int) -> bool {
        run_step(
            config,
            self.runs[i],
            self.before[i],
            self.moments[i],
            self.actions[i],
            self.runs[i + 1],
            self.after[i],
        )
    }
}

/// The first thing that is told is that the service is loaded, at the start time, and
/// that is told once: when every enabled configuration has been put in force, schedules
/// first.
pub proof fn law_loaded_is_told_first(
    history: RunHistory,
    config: FlowServiceRunConfig,
    start_time: DateTime,
    enabled: Seq<FlowConfiguration>,
)
    requires
        history.took_place(config, start_time, enabled),
    ensures
        crate::flow::startup::startup_order(enabled).to_multiset() == enabled.to_multiset(),
        ({
            let configs = crate::flow::startup::startup_order(enabled);
            let n = configs.len() as int;
            &&& forall|i: int|
                0 <= i < history.actions.len() && i < n ==> (#[trigger] history.actions[i])
                    == RunAction::Trigger(
                    crate::flow::service::activation_request(
                        start_time,
                        configs[i].flow_key,
                        configs[i].rule,
                    ),
                ) && history.after[i] == history.before[i].with_rule(
                    configs[i].flow_key,
                    configs[i].rule,
                )
            &&& n < history.actions.len() ==> history.actions[n] == RunAction::Post(
                crate::flow::service::news(start_time, FlowServiceUpdateDetails::Loaded),
            )
            &&& forall|i: int|
                0 <= i < history.actions.len() && i != n ==> !((
                #[trigger] history.actions[i]) matches RunAction::Post(m)
                    && m.update_details is Loaded)
        }),
{
    crate::flow::startup::law_schedules_come_first(enabled);
    let configs = crate::flow::startup::startup_order(enabled);
    let n = configs.len() as int;
    assert forall|i: int| 0 <= i < history.actions.len() implies history.reached(
        start_time,
        configs,
        i,
    ) && #[trigger] history.step(config, i) by {
        lemma_reached(history, config, start_time, enabled, i);
    }
    assert forall|i: int| 0 <= i < history.actions.len() && i < n implies (
    #[trigger] history.actions[i]) == RunAction::Trigger(
        crate::flow::service::activation_request(start_time, configs[i].flow_key, configs[i].rule),
    ) && history.after[i] == history.before[i].with_rule(configs[i].flow_key, configs[i].rule) by {
        assert(history.step(config, i));
    }
    if n < history.actions.len() {
        assert(history.step(config, n));
    }
    assert forall|i: int| 0 <= i < history.actions.len() && i != n implies !((
    #[trigger] history.actions[i]) matches RunAction::Post(m) && m.update_details is Loaded) by {
        assert(history.step(config, i));
    }
}

/// A timeslot is executed only after the service is loaded, only when it is the nearest
/// one, and only once it has come. That it was executed is told right after it, at its
/// time, and never otherwise.
pub proof fn law_timeslots_are_told_once_executed(
    history: RunHistory,
    config: FlowServiceRunConfig,
    start_time: DateTime,
    enabled: Seq<FlowConfiguration>,
)
    requires
        history.took_place(config, start_time, enabled),
    ensures
        forall|i: int|
            0 <= i < history.actions.len() ==> ((
            #[trigger] history.actions[i]) matches RunAction::RunTimeslot(t, flow_ids) ==> {
                &&& crate::flow::startup::startup_order(enabled).len() < i
                &&& crate::flow::time_wheel::is_nearest(history.before[i].planned, t)
                &&& t.rank() <= history.moments[i].rank()
                &&& are_due_at(history.before[i].planned, t, flow_ids@)
                &&& i + 1 < history.actions.len() ==> history.actions[i + 1] == RunAction::Post(
                    crate::flow::service::news(t, FlowServiceUpdateDetails::ExecutedTimeslot),
                )
            }),
        forall|i: int|
            0 <= i < history.actions.len() ==> ((
            #[trigger] history.actions[i]) matches RunAction::Post(m) ==> {
                ||| m.update_details is Loaded
                ||| m.update_details is ExecutedTimeslot && i > 0 && (history.actions[i
                    - 1] matches RunAction::RunTimeslot(t, _) && t == m.update_time)
            }),
{
    let configs = crate::flow::startup::startup_order(enabled);
    assert forall|i: int| 0 <= i < history.actions.len() implies ((
    #[trigger] history.actions[i]) matches RunAction::RunTimeslot(t, flow_ids) ==> {
        &&& crate::flow::startup::startup_order(enabled).len() < i
        &&& crate::flow::time_wheel::is_nearest(history.before[i].planned, t)
        &&& t.rank() <= history.moments[i].rank()
        &&& are_due_at(history.before[i].planned, t, flow_ids@)
        &&& i + 1 < history.actions.len() ==> history.actions[i + 1] == RunAction::Post(
            crate::flow::service::news(t, FlowServiceUpdateDetails::ExecutedTimeslot),
        )
    }) by {
        lemma_reached(history, config, start_time, enabled, i);
        assert(history.step(config, i));
        if i + 1 < history.actions.len() {
            assert(history.step(config, i + 1));
        }
    }
    assert forall|i: int| 0 <= i < history.actions.len() implies ((
    #[trigger] history.actions[i]) matches RunAction::Post(m) ==> {
        ||| m.update_details is Loaded
        ||| m.update_details is ExecutedTimeslot && i > 0 && (history.actions[i
            - 1] matches RunAction::RunTimeslot(t, _) && t == m.update_time)
    }) by {
        lemma_reached(history, config, start_time, enabled, i);
        assert(history.step(config, i));
        if i > 0 {
            assert(history.step(config, i - 1));
        }
    }
}

impl RunHistory {
    /// Where the loop is before its step `i`.
    spec fn reached(
        self,
        start_time: DateTime,
        configs: Seq<FlowConfiguration>,
        i: int,
    ) -> bool {
        let n = configs.len();
        &&& self.runs[i].start_time == start_time
        &&& self.runs[i].configs == configs
        &&& i <= n ==> self.runs[i].phase is Activating && self.runs[i].activated == i
        &&& i > n ==> !(self.runs[i].phase is Activating)
        &&& self.runs[i].phase matches RunPhase::Announcing(t) ==> i > 0 && (self.actions[i
            - 1] matches RunAction::RunTimeslot(t2, _) && t2 == t)
    }
}

proof fn lemma_reached(
    history: RunHistory,
    config: FlowServiceRunConfig,
    start_time: DateTime,
    enabled: Seq<FlowConfiguration>,
    i: int,
)
    requires
        history.took_place(config, start_time, enabled),
        0 <= i <= history.actions.len(),
    ensures
        history.reached(start_time, crate::flow::startup::startup_order(enabled), i),
    decreases i,
{
    if i > 0 {
        lemma_reached(history, config, start_time, enabled, i - 1);
        assert(history.step(config, i - 1));
    }
}

/// Whenever the loop looks and some flow is due, a timeslot is executed: the flows of the
/// earliest moment that is planned, all of them, which are planned no more. When none is
/// due the loop waits for a step, and so it does after each timeslot.
pub proof fn law_due_flows_are_executed(
    config: FlowServiceRunConfig,
    run: RunView,
    service: FlowServiceView,
    now: DateTime,
    action: RunAction,
    next_run: RunView,
    next_service: FlowServiceView,
    f: FlowID,
)
    requires
        run_step(config, run, service, now, action, next_run, next_service),
    ensures
        run.phase is Polling && service.planned.contains_key(f) && service.planned[f].rank()
            <= now.rank() ==> (action matches RunAction::RunTimeslot(t, flow_ids) && {
            &&& t.rank() <= service.planned[f].rank()
            &&& flow_ids@.contains(f) <==> t.rank() == service.planned[f].rank()
            &&& next_service.planned.contains_key(f) <==> t.rank() != service.planned[f].rank()
        }),
        run.phase is Polling && (forall|g: FlowID| #[trigger]
            service.planned.contains_key(g) ==> now.rank() < service.planned[g].rank()) ==> action
            == RunAction::Sleep(config.awaiting_step) && next_run.phase is Polling && next_service
            == service,
        run.phase is Resting ==> action == RunAction::Sleep(config.awaiting_step)
            && next_run.phase is Polling,
        action matches RunAction::RunTimeslot(t, flow_ids) ==> {
            &&& t.rank() <= now.rank()
            &&& flow_ids@.no_duplicates()
            &&& flow_ids@.contains(f) ==> service.planned.contains_key(f)
                && service.planned[f].rank() == t.rank()
            &&& service.planned.contains_key(f) ==> t.rank() <= service.planned[f].rank()
            &&& next_service.pending == service.pending && next_service.rules == service.rules
                && next_service.by_task == service.by_task
        },
{
}

} // verus!
