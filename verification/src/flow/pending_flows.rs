//! The flows that are under way, by what they are about and by their tasks.

use vstd::prelude::*;

use crate::assoc::VecMap;
use crate::flow::types::{DatasetFlowType, FlowKey, FlowKeyDataset, FlowKeyView};
use crate::ids::{DatasetID, FlowID, TaskID};

verus! {

#[derive(Debug)]
pub struct PendingFlowsState {
    pending: VecMap<FlowKey, FlowID>,
    flows_by_task: VecMap<TaskID, FlowID>,
}

impl PendingFlowsState {
    /// The flow pending for each key.
    pub closed spec fn pending(&self) -> Map<FlowKeyView, FlowID> {
        self.pending@
    }

    /// The flow that each tracked task works for.
    pub closed spec fn by_task(&self) -> Map<TaskID, FlowID> {
        self.flows_by_task@
    }

    pub closed spec fn wf(&self) -> bool {
        self.pending.wf() && self.flows_by_task.wf()
    }

    pub fn new() -> (r: Self)
        ensures
            r.wf(),
            r.pending() == Map::<FlowKeyView, FlowID>::empty(),
            r.by_task() == Map::<TaskID, FlowID>::empty(),
    {
        PendingFlowsState { pending: VecMap::new(), flows_by_task: VecMap::new() }
    }

    pub fn try_get_pending_flow(&self, flow_key: &FlowKey) -> (r: Option<FlowID>)
        requires
            self.wf(),
        ensures
            r == lookup(self.pending(), flow_key@),
    {
        match self.pending.get(flow_key) {
            Some(id) => Some(*id),
            None => None,
        }
    }

    pub fn add_pending_flow(&mut self, flow_key: FlowKey, flow_id: FlowID)
        requires
            old(self).wf(),
        ensures
            final(self).wf(),
            final(self).pending() == old(self).pending().insert(flow_key@, flow_id),
            final(self).by_task() == old(self).by_task(),
    {
        self.pending.insert(flow_key, flow_id);
    }

    pub fn drop_pending_flow(&mut self, flow_key: &FlowKey) -> (r: Option<FlowID>)
        requires
            old(self).wf(),
        ensures
            final(self).wf(),
            r == lookup(old(self).pending(), flow_key@),
            final(self).pending() == old(self).pending().remove(flow_key@),
            final(self).by_task() == old(self).by_task(),
    {
        self.pending.remove(flow_key)
    }

    pub fn drop_dataset_pending_flow(
        &mut self,
        dataset_id: &DatasetID,
        flow_type: DatasetFlowType,
    ) -> (r: Option<FlowID>)
        requires
            old(self).wf(),
        ensures
            final(self).wf(),
            r == lookup(old(self).pending(), FlowKeyView::Dataset(dataset_id@, flow_type)),
            final(self).pending() == old(self).pending().remove(
                FlowKeyView::Dataset(dataset_id@, flow_type),
            ),
            final(self).by_task() == old(self).by_task(),
    {
        self.drop_pending_flow(
            &FlowKey::Dataset(FlowKeyDataset { dataset_id: dataset_id.clone(), flow_type }),
        )
    }

    pub fn track_flow_task(&mut self, flow_id: FlowID, task_id: TaskID)
        requires
            old(self).wf(),
        ensures
            final(self).wf(),
            final(self).pending() == old(self).pending(),
            final(self).by_task() == old(self).by_task().insert(task_id, flow_id),
    {
        self.flows_by_task.insert(task_id, flow_id);
    }

    pub fn untrack_flow_by_task(&mut self, task_id: TaskID)
        requires
            old(self).wf(),
        ensures
            final(self).wf(),
            final(self).pending() == old(self).pending(),
            final(self).by_task() == old(self).by_task().remove(task_id),
    {
        let _ = self.flows_by_task.remove(&task_id);
    }

    pub fn try_get_flow_id_by_task(&self, task_id: TaskID) -> (r: Option<FlowID>)
        requires
            self.wf(),
        ensures
            r == lookup(self.by_task(), task_id),
    {
        match self.flows_by_task.get(&task_id) {
            Some(id) => Some(*id),
            None => None,
        }
    }
}

/// The value of a key, if it has one.
pub open spec fn lookup<K, V>(m: Map<K, V>, k: K) -> Option<V> {
    if m.contains_key(k) {
        Some(m[k])
    } else {
        None
    }
}

} // verus!
