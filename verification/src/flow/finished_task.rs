//! What follows when a task has finished, step by step.

use vstd::prelude::*;

use crate::error::InternalError;
use crate::flow::service::{
    FlowServiceImpl, FlowServiceRunConfig, FlowServiceView, FlowSuccessFollowupMethod,
    TriggerRequest,
};
use crate::flow::types::{
    FlowKey, FlowServiceUpdateDetails, FlowServiceUpdatedMessage, TaskOutcome,
};
use crate::ids::{FlowID, TaskID};
use crate::time::DateTime;

verus! {

/// What is awaited.
#[derive(Debug, Clone, Copy, PartialEq, Eq, Structural)]
pub enum FinishPhase {
    /// The beginning
    Started,
    /// That the flow was told, with the moment on the grid at which the task finished
    Telling(DateTime),
    /// That dependents were triggered
    FollowingUp(DateTime),
    /// That the next run was triggered
    Repeating,
    /// Nothing more
    Over,
}

/// A finished task that is being dealt with.
#[derive(Debug, PartialEq, Eq)]
pub struct FinishedTask {
    pub task_id: TaskID,
    pub outcome: TaskOutcome,
    pub event_time: DateTime,
    /// The key of the flow, once it was told
    pub flow_key: Option<FlowKey>,
    pub phase: FinishPhase,
}

/// What is known of a flow once it was told that its task has finished.
#[derive(Debug, PartialEq, Eq)]
pub struct ToldFlow {
    pub flow_key: FlowKey,
    pub has_result: bool,
    pub result_is_empty: bool,
    pub followup_method: FlowSuccessFollowupMethod,
}

/// What has happened.
#[derive(Debug, PartialEq, Eq)]
pub enum FinishAnswer {
    Begin,
    /// The flow was told and saved
    Told(ToldFlow),
    /// The flows have been triggered
    Triggered,
}

/// What to do next.
#[derive(Debug, PartialEq, Eq)]
pub enum FinishAction {
    /// The task is none of the service's
    Ignore,
    Fail(InternalError),
    /// Tell the flow, and save it
    Tell(FlowID),
    /// Trigger the dependents of the flow, which has succeeded at the moment
    TriggerDependents(DateTime),
    /// Trigger the next run of the flow
    Trigger(TriggerRequest),
    Post(FlowServiceUpdatedMessage),
}

/// A finished task that nothing has been done about.
pub open spec fn untold(task_id: TaskID, outcome: TaskOutcome, event_time: DateTime) -> FinishedTask {
    FinishedTask { task_id, outcome, event_time, flow_key: None, phase: FinishPhase::Started }
}

/// The service has forgotten the task, and that its flow is pending.
pub open spec fn without_task(
    view: FlowServiceView,
    task_id: TaskID,
    flow_key: FlowKey,
) -> FlowServiceView {
    FlowServiceView {
        by_task: view.by_task.remove(task_id),
        pending: view.pending.remove(flow_key@),
        ..view
    }
}

/// The flow triggers its dependents.
pub open spec fn follows_up(told: ToldFlow) -> bool {
    told.has_result && !told.result_is_empty && told.followup_method is TriggerDependent
}

impl FinishedTask {
    /// The answer is to what was to be done.
    pub open spec fn awaits(self, answer: FinishAnswer) -> bool {
        match answer {
            FinishAnswer::Begin => self.phase is Started,
            FinishAnswer::Told(_) => self.phase is Telling,
            FinishAnswer::Triggered => match self.phase {
                FinishPhase::FollowingUp(_) => self.flow_key is Some,
                FinishPhase::Repeating => true,
                _ => false,
            },
        }
    }

    /// All is done, and that is told.
    pub open spec fn announced(self) -> (FinishAction, FinishedTask) {
        (
            FinishAction::Post(
                crate::flow::service::news(
                    self.event_time,
                    FlowServiceUpdateDetails::FlowFinished,
                ),
            ),
            FinishedTask { phase: FinishPhase::Over, ..self },
        )
    }

    /// The next run of the flow is triggered, if it repeats.
    pub open spec fn repeated(self, view: FlowServiceView, finish_time: DateTime) -> (
        FinishAction,
        FinishedTask,
    ) {
        match crate::flow::service::next_cycle(
            view,
            self.outcome,
            finish_time,
            self.flow_key->0,
        ) {
            Some(request) => (
                FinishAction::Trigger(request),
                FinishedTask { phase: FinishPhase::Repeating, ..self },
            ),
            None => self.announced(),
        }
    }

    /// The task is looked up.
    pub open spec fn looked_up(self, config: FlowServiceRunConfig, view: FlowServiceView) -> (
        FinishAction,
        FinishedTask,
    ) {
        let over = FinishedTask { phase: FinishPhase::Over, ..self };
        if !view.running {
            (FinishAction::Ignore, over)
        } else {
            match crate::flow::service::rounded(self.event_time, config.awaiting_step) {
                Err(e) => (FinishAction::Fail(e), over),
                Ok(finish_time) => match crate::flow::service::tracked_flow(view, self.task_id) {
                    Some(flow_id) => (
                        FinishAction::Tell(flow_id),
                        FinishedTask { phase: FinishPhase::Telling(finish_time), ..self },
                    ),
                    None => (FinishAction::Ignore, over),
                },
            }
        }
    }

    /// What to do after an answer, how things go on from there, and what becomes of the
    /// service.
    pub open spec fn after(
        self,
        config: FlowServiceRunConfig,
        view: FlowServiceView,
        answer: FinishAnswer,
    ) -> ((FinishAction, FinishedTask), FlowServiceView) {
        match answer {
            FinishAnswer::Begin => (self.looked_up(config, view), view),
            FinishAnswer::Told(told) => {
                let finish_time = self.phase->Telling_0;
                let next = FinishedTask { flow_key: Some(told.flow_key), ..self };
                let forgotten = without_task(view, self.task_id, told.flow_key);
                if follows_up(told) {
                    (
                        (
                            FinishAction::TriggerDependents(finish_time),
                            FinishedTask { phase: FinishPhase::FollowingUp(finish_time), ..next },
                        ),
                        forgotten,
                    )
                } else {
                    (next.repeated(forgotten, finish_time), forgotten)
                }
            },
            FinishAnswer::Triggered => match self.phase {
                FinishPhase::FollowingUp(finish_time) => (self.repeated(view, finish_time), view),
                _ => (self.announced(), view),
            },
        }
    }

    pub fn new(task_id: TaskID, outcome: TaskOutcome, event_time: DateTime) -> (r: Self)
        ensures
            r == untold(task_id, outcome, event_time),
    {
        FinishedTask { task_id, outcome, event_time, flow_key: None, phase: FinishPhase::Started }
    }

    /// Takes an answer, and says what to do next. The flow is told first. Then the
    /// service forgets the task, and only then dependents are triggered, and the next
    /// run. At the end that is told.
    pub fn next(&mut self, service: &mut FlowServiceImpl, answer: FinishAnswer) -> (r: FinishAction)
        requires
            old(service).wf(),
            old(self).awaits(answer),
        ensures
            final(service).wf(),
            final(service).config() == old(service).config(),
            ((r, *final(self)), final(service)@) == old(self).after(
                old(service).config(),
                old(service)@,
                answer,
            ),
    {
        match answer {
            FinishAnswer::Begin => match service.on_task_finished(self.task_id, self.event_time) {
                Err(e) => {
                    self.phase = FinishPhase::Over;
                    FinishAction::Fail(e)
                },
                Ok(None) => {
                    self.phase = FinishPhase::Over;
                    FinishAction::Ignore
                },
                Ok(Some((flow_id, finish_time))) => {
                    self.phase = FinishPhase::Telling(finish_time);
                    FinishAction::Tell(flow_id)
                },
            },
            FinishAnswer::Told(told) => {
                service.finish_flow_task(self.task_id, &told.flow_key);
                let follows_up = service.followup_triggers_dependents(
                    told.has_result,
                    told.result_is_empty,
                    told.followup_method,
                );
                self.flow_key = Some(told.flow_key);
                match self.phase {
                    FinishPhase::Telling(finish_time) => if follows_up {
                        self.phase = FinishPhase::FollowingUp(finish_time);
                        FinishAction::TriggerDependents(finish_time)
                    } else {
                        self.repeat(service, finish_time)
                    },
                    _ => self.announce(),
                }
            },
            FinishAnswer::Triggered => match self.phase {
                FinishPhase::FollowingUp(finish_time) => self.repeat(service, finish_time),
                _ => self.announce(),
            },
        }
    }

    fn announce(&mut self) -> (r: FinishAction)
        ensures
            (r, *final(self)) == old(self).announced(),
    {
        self.phase = FinishPhase::Over;
        FinishAction::Post(
            FlowServiceUpdatedMessage {
                update_time: self.event_time,
                update_details: FlowServiceUpdateDetails::FlowFinished,
            },
        )
    }

    fn repeat(&mut self, service: &FlowServiceImpl, finish_time: DateTime) -> (r: FinishAction)
        requires
            service.wf(),
            old(self).flow_key is Some,
        ensures
            (r, *final(self)) == old(self).repeated(service@, finish_time),
    {
        let next = match &self.flow_key {
            Some(flow_key) => service.next_run(&self.outcome, finish_time, flow_key),
            None => None,
        };
        match next {
            Some(request) => {
                self.phase = FinishPhase::Repeating;
                FinishAction::Trigger(request)
            },
            None => self.announce(),
        }
    }
}

/// How a finished task was dealt with: what was answered and what was done, with the
/// service before and after each step. Between two steps anything may happen to the
/// service.
pub struct FinishHistory {
    pub answers: Seq<FinishAnswer>,
    pub actions: Seq<FinishAction>,
    pub tasks: Seq<FinishedTask>,
    pub before: Seq<FlowServiceView>,
    pub after: Seq<FlowServiceView>,
}

impl FinishHistory {
    /// One call of [`FinishedTask::next`] after the other, from the beginning.
    pub open spec fn took_place(
        self,
        config: FlowServiceRunConfig,
        task_id: TaskID,
        outcome: TaskOutcome,
        event_time: DateTime,
    ) -> bool {
        &&& self.actions.len() == self.answers.len()
        &&& self.before.len() == self.answers.len()
        &&& self.after.len() == self.answers.len()
        &&& self.tasks.len() == self.answers.len() + 1
        &&& self.tasks[0] == untold(task_id, outcome, event_time)
        &&& forall|i: int| 0 <= i < self.answers.len() ==> #[trigger] self.step(config, i)
    }

    pub open spec fn step(self, config: FlowServiceRunConfig, i: int) -> bool {
        &&& self.tasks[i].awaits(self.answers[i])
        &&& ((self.actions[i], self.tasks[i + 1]), self.after[i]) == self.tasks[i].after(
            config,
            self.before[i],
            self.answers[i],
        )
    }
}

/// The first thing done is to tell the flow, if the service tracks the task. As soon as
/// that is done the service forgets the task, and that the flow is pending. Dependents are
/// triggered in the step that does so or not at all, and the next run not before them. One
/// message tells that the flow has finished, at the time of the event, and it is the last
/// thing done.
pub proof fn law_finished_task_is_forgotten_first_and_told_last(
    h: FinishHistory,
    config: FlowServiceRunConfig,
    task_id: TaskID,
    outcome: TaskOutcome,
    event_time: DateTime,
)
    requires
        h.took_place(config, task_id, outcome, event_time),
    ensures
        h.answers.len() <= 4,
        h.answers.len() > 1 ==> {
            &&& h.actions[0] is Tell
            &&& h.answers[1] matches FinishAnswer::Told(told) && h.after[1] == without_task(
                h.before[1],
                task_id,
                told.flow_key,
            )
        },
        h.answers.len() > 1 ==> crate::flow::service::tracked_flow(h.after[1], task_id) is None
            && crate::flow::pending_flows::lookup(
            h.after[1].pending,
            h.answers[1]->Told_0.flow_key@,
        ) is None,
        forall|i: int|
            0 <= i < h.actions.len() ==> ((
            #[trigger] h.actions[i]) is TriggerDependents ==> i == 1),
        h.answers.len() > 1 ==> (h.actions[1] is TriggerDependents <==> follows_up(
            h.answers[1]->Told_0,
        )),
        forall|i: int|
            0 <= i < h.actions.len() ==> ((#[trigger] h.actions[i]) is Trigger ==> i == (
            if h.actions[1] is TriggerDependents {
                2int
            } else {
                1int
            })),
        forall|i: int|
            0 <= i < h.actions.len() ==> ((#[trigger] h.actions[i]) matches FinishAction::Post(m)
                ==> i > 0 && i == h.actions.len() - 1 && m == crate::flow::service::news(
                event_time,
                FlowServiceUpdateDetails::FlowFinished,
            )),
        h.answers.len() > 1 && h.tasks.last().phase is Over ==> h.actions.last() is Post,
        h.answers.len() == 4 ==> h.tasks.last().phase is Over,
{
    if h.answers.len() > 0 {
        assert(h.step(config, 0));
    }
    if h.answers.len() > 1 {
        assert(h.step(config, 1));
    }
    if h.answers.len() > 2 {
        assert(h.step(config, 2));
    }
    if h.answers.len() > 3 {
        assert(h.step(config, 3));
    }
    if h.answers.len() > 4 {
        assert(h.step(config, 4));
    }
}

/// Each step that is taken for a finished task. The task is looked up first: it is passed
/// over if the service is not running or does not know it, and it fails if its moment cannot
/// be rounded. Once the flow was told, dependents are triggered exactly where it has a result
/// that is not empty, and its kind of flow has its success followed up. Then, and else at
/// once, the next run is triggered if there is one, and at the end that is told.
pub proof fn law_steps_for_a_finished_task(
    task: FinishedTask,
    config: FlowServiceRunConfig,
    view: FlowServiceView,
    told: ToldFlow,
    finish_time: DateTime,
)
    ensures
        ({
            let first = task.after(config, view, FinishAnswer::Begin);
            &&& first.1 == view
            &&& !view.running ==> first.0.0 is Ignore
            &&& view.running ==> match crate::flow::service::rounded(
                task.event_time,
                config.awaiting_step,
            ) {
                Err(e) => first.0.0 == FinishAction::Fail(e),
                Ok(time) => if view.by_task.contains_key(task.task_id) {
                    first.0.0 == FinishAction::Tell(view.by_task[task.task_id])
                        && first.0.1.phase == FinishPhase::Telling(time)
                } else {
                    first.0.0 is Ignore
                },
            }
        }),
        task.phase == FinishPhase::Telling(finish_time) ==> ({
            let ((action, next), after) = task.after(config, view, FinishAnswer::Told(told));
            let followed = told.has_result && !told.result_is_empty && match told.followup_method {
                FlowSuccessFollowupMethod::Ignore => false,
                FlowSuccessFollowupMethod::TriggerDependent => true,
            };
            &&& !after.by_task.contains_key(task.task_id)
            &&& !after.pending.contains_key(told.flow_key@)
            &&& forall|t: TaskID|
                t != task.task_id ==> (#[trigger] after.by_task.contains_key(t)
                    <==> view.by_task.contains_key(t))
            &&& forall|k: crate::flow::types::FlowKeyView|
                k != told.flow_key@ ==> (#[trigger] after.pending.contains_key(k)
                    <==> view.pending.contains_key(k))
            &&& after.planned == view.planned && after.rules == view.rules && after.schedules
                == view.schedules && after.running == view.running
            &&& followed ==> action == FinishAction::TriggerDependents(finish_time)
            &&& !followed ==> match crate::flow::service::next_cycle(
                after,
                task.outcome,
                finish_time,
                told.flow_key,
            ) {
                Some(request) => action == FinishAction::Trigger(request),
                None => action is Post,
            }
        }),
        task.phase == FinishPhase::FollowingUp(finish_time) && task.flow_key is Some ==> match (
        crate::flow::service::next_cycle(view, task.outcome, finish_time, task.flow_key->0)) {
            Some(request) => task.after(config, view, FinishAnswer::Triggered).0.0
                == FinishAction::Trigger(request),
            None => task.after(config, view, FinishAnswer::Triggered).0.0 is Post,
        },
        task.phase is Repeating ==> task.after(config, view, FinishAnswer::Triggered).0.0 is Post,
{
}

} // verus!
