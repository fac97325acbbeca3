//! The moments at which flows are due.

use vstd::prelude::*;

use crate::assoc::VecMap;
use crate::ids::FlowID;
use crate::time::DateTime;

verus! {

/// Planned activations, at most one for a flow.
#[derive(Debug)]
pub struct FlowTimeWheel {
    planned: VecMap<FlowID, DateTime>,
}

/// The flow has no planned activation.
#[derive(Debug, Clone, Copy, PartialEq, Eq, Structural)]
pub struct FlowNotPlanned {
    pub flow_id: FlowID,
}

/// `t` is the earliest of the planned moments.
pub open spec fn is_nearest(planned: Map<FlowID, DateTime>, t: DateTime) -> bool {
    &&& exists|f: FlowID| #[trigger] planned.contains_key(f) && planned[f] == t
    &&& forall|f: FlowID| #[trigger]
        planned.contains_key(f) ==> t.rank() <= planned[f].rank()
}

/// What is left once the flows due at `t` have been taken.
pub open spec fn without_due(planned: Map<FlowID, DateTime>, t: DateTime) -> Map<FlowID, DateTime> {
    planned.remove_keys(Set::new(|f: FlowID| planned.contains_key(f) && planned[f].rank() == t.rank()))
}

/// One of the first `n` entries plans flow `f` for the moment `t`.
spec fn due_among(entries: Seq<(FlowID, DateTime)>, n: int, t: DateTime, f: FlowID) -> bool {
    exists|j: int|
        0 <= j < n && (#[trigger] entries[j]).0 == f && entries[j].1.rank() == t.rank()
}

impl View for FlowTimeWheel {
    type V = Map<FlowID, DateTime>;

    closed spec fn view(&self) -> Map<FlowID, DateTime> {
        self.planned@
    }
}

impl FlowTimeWheel {
    pub closed spec fn wf(&self) -> bool {
        self.planned.wf()
    }

    pub fn new() -> (r: Self)
        ensures
            r.wf(),
            r@ == Map::<FlowID, DateTime>::empty(),
    {
        FlowTimeWheel { planned: VecMap::new() }
    }

    /// The earliest planned moment, if anything is planned.
    pub fn nearest_activation_moment(&self) -> (r: Option<DateTime>)
        requires
            self.wf(),
        ensures
            match r {
                Some(t) => is_nearest(self@, t),
                None => self@ == Map::<FlowID, DateTime>::empty(),
            },
    {
        proof {
            self.planned.lemma_entries();
        }
        let mut nearest: Option<DateTime> = None;
        let count = self.planned.len();
        for i in 0..count
            invariant
                count == self.planned.entries().len(),
                nearest is None <==> i == 0,
                nearest matches Some(t) ==> {
                    &&& exists|j: int|
                        0 <= j < i && (#[trigger] self.planned.entries()[j]).1 == t
                    &&& forall|j: int|
                        0 <= j < i ==> t.rank() <= (
                        #[trigger] self.planned.entries()[j]).1.rank()
                },
        {
            let moment = self.planned.entry(i).1;
            match nearest {
                None => {
                    nearest = Some(moment);
                },
                Some(t) => {
                    if moment.before(&t) {
                        nearest = Some(moment);
                    }
                },
            }
        }
        proof {
            match nearest {
                Some(t) => {
                    let j = choose|j: int|
                        0 <= j < self.planned.entries().len() && (
                        #[trigger] self.planned.entries()[j]).1 == t;
                    assert(self@.contains_key(self.planned.entries()[j].0));
                    assert forall|f: FlowID| #[trigger] self@.contains_key(f) implies t.rank()
                        <= self@[f].rank() by {
                        let k = choose|k: int|
                            0 <= k < self.planned.entries().len() && (
                            #[trigger] self.planned.entries()[k]).0@ == f;
                        assert(self@[f] == self.planned.entries()[k].1);
                    }
                },
                None => {
                    assert(self@ =~= Map::<FlowID, DateTime>::empty());
                },
            }
        }
        nearest
    }

    /// Takes out the flows planned for the earliest moment.
    pub fn take_nearest_planned_flows(&mut self) -> (r: Vec<FlowID>)
        requires
            old(self).wf(),
        ensures
            final(self).wf(),
            r@.no_duplicates(),
            r@.len() == 0 <==> old(self)@ == Map::<FlowID, DateTime>::empty(),
            old(self)@ == Map::<FlowID, DateTime>::empty() ==> final(self)@ == old(self)@,
            forall|t: DateTime| #[trigger]
                is_nearest(old(self)@, t) ==> {
                    &&& forall|f: FlowID| #[trigger]
                        r@.contains(f) <==> old(self)@.contains_key(f) && old(self)@[f].rank()
                            == t.rank()
                    &&& final(self)@ == without_due(old(self)@, t)
                },
    {
        let mut due: Vec<FlowID> = Vec::new();
        let ghost before = self@;
        let nearest = match self.nearest_activation_moment() {
            Some(t) => t,
            None => {
                return due;
            },
        };
        proof {
            self.planned.lemma_entries();
        }
        let count = self.planned.len();
        for i in 0..count
            invariant
                count == self.planned.entries().len(),
                self@ == before,
                self.planned.wf(),
                forall|f: FlowID| #[trigger]
                    due@.contains(f) <==> due_among(self.planned.entries(), i as int, nearest, f),
                due@.no_duplicates(),
                crate::assoc::distinct_keys(self.planned.entries()),
        {
            let entry = self.planned.entry(i);
            let ghost due0 = due@;
            let ghost entries = self.planned.entries();
            if entry.1.not_after(&nearest) && nearest.not_after(&entry.1) {
                due.push(entry.0);
                proof {
                    let e = entries[i as int];
                    if due0.contains(e.0) {
                        assert(due_among(entries, i as int, nearest, e.0));
                        let j = choose|j: int|
                            0 <= j < i && (#[trigger] entries[j]).0 == e.0 && entries[j].1.rank()
                                == nearest.rank();
                        assert(entries[j].0@ == e.0@);
                    }
                    assert(due@.no_duplicates());
                    assert forall|f: FlowID| #[trigger] due@.contains(f) <==> due0.contains(f) || f == e.0 by {
                        if due0.contains(f) {
                            let k = choose|k: int| 0 <= k < due0.len() && due0[k] == f;
                            assert(due@[k] == f);
                        }
                        assert(due@[due0.len() as int] == e.0);
                    }
                }
            }
            proof {
                assert forall|f: FlowID| #[trigger]
                    due@.contains(f) <==> due_among(entries, i + 1, nearest, f) by {
                    if due_among(entries, i + 1, nearest, f) {
                        let j = choose|j: int|
                            0 <= j < i + 1 && (#[trigger] entries[j]).0 == f
                                && entries[j].1.rank() == nearest.rank();
                        if j < i {
                            assert(due_among(entries, i as int, nearest, f));
                            assert(due0.contains(f));
                        }
                    }
                    if due@.contains(f) {
                        if due0.contains(f) {
                            assert(due_among(entries, i as int, nearest, f));
                            let j = choose|j: int|
                                0 <= j < i && (#[trigger] entries[j]).0 == f
                                    && entries[j].1.rank() == nearest.rank();
                            assert(entries[j].0 == f);
                        } else {
                            assert(entries[i as int].0 == f);
                        }
                    }
                }
            }
        }
        proof {
            let entries = self.planned.entries();
            assert forall|f: FlowID| #[trigger]
                due@.contains(f) <==> before.contains_key(f) && before[f].rank()
                    == nearest.rank() by {
                if due@.contains(f) {
                    let j = choose|j: int|
                        0 <= j < count && (#[trigger] entries[j]).0 == f && entries[j].1.rank()
                            == nearest.rank();
                    assert(before[entries[j].0@] == entries[j].1);
                }
                if before.contains_key(f) && before[f].rank() == nearest.rank() {
                    let j = choose|j: int|
                        0 <= j < entries.len() && (#[trigger] entries[j]).0@ == f;
                    assert(before[entries[j].0@] == entries[j].1);
                    assert(due_among(entries, count as int, nearest, f));
                }
            }
            let f = choose|f: FlowID| #[trigger]
                before.contains_key(f) && before[f] == nearest;
            assert(due@.contains(f));
        }
        for i in 0..due.len()
            invariant
                self.wf(),
                self@ == before.remove_keys(due@.take(i as int).to_set()),
        {
            let _ = self.planned.remove(&due[i]);
            proof {
                assert(due@.take(i + 1) == due@.take(i as int).push(due@[i as int]));
                assert(self@ =~= before.remove_keys(due@.take(i + 1).to_set())) by {
                    assert forall|f: FlowID| due@.take(i + 1).to_set().contains(f) == (due@.take(
                        i as int,
                    ).to_set().contains(f) || f == due@[i as int]) by {
                        if due@.take(i as int).contains(f) {
                            let k = choose|k: int|
                                0 <= k < due@.take(i as int).len() && due@.take(i as int)[k] == f;
                            assert(due@.take(i + 1)[k] == f);
                        }
                        if f == due@[i as int] {
                            assert(due@.take(i + 1)[i as int] == f);
                        }
                    }
                }
            }
        }
        proof {
            assert(due@.take(due@.len() as int) == due@);
            assert forall|t: DateTime| #[trigger] is_nearest(before, t) implies {
                &&& forall|f: FlowID| #[trigger]
                    due@.contains(f) <==> before.contains_key(f) && before[f].rank()
                        == t.rank()
                &&& self@ == without_due(before, t)
            } by {
                let a = choose|f: FlowID| #[trigger] before.contains_key(f) && before[f] == nearest;
                let b = choose|f: FlowID| #[trigger] before.contains_key(f) && before[f] == t;
                assert(t.rank() == nearest.rank());
                assert(self@ =~= without_due(before, t));
            }
        }
        due
    }

    /// Plans the flow for `activation_time`, whatever was planned for it before.
    pub fn activate_at(&mut self, activation_time: DateTime, flow_id: FlowID)
        requires
            old(self).wf(),
        ensures
            final(self).wf(),
            final(self)@ == old(self)@.insert(flow_id, activation_time),
    {
        self.planned.insert(flow_id, activation_time);
    }

    pub fn get_planned_flow_activation_time(&self, flow_id: FlowID) -> (r: Option<DateTime>)
        requires
            self.wf(),
        ensures
            r == planned_time(self@, flow_id),
    {
        match self.planned.get(&flow_id) {
            Some(t) => Some(*t),
            None => None,
        }
    }

    /// Withdraws the flow's planned activation.
    pub fn cancel_flow_activation(&mut self, flow_id: FlowID) -> (r: Result<(), FlowNotPlanned>)
        requires
            old(self).wf(),
        ensures
            final(self).wf(),
            final(self)@ == old(self)@.remove(flow_id),
            r == (if old(self)@.contains_key(flow_id) {
                Ok(())
            } else {
                Err(FlowNotPlanned { flow_id })
            }),
    {
        match self.planned.remove(&flow_id) {
            Some(_) => Ok(()),
            None => Err(FlowNotPlanned { flow_id }),
        }
    }
}

/// The moment planned for a flow, if any.
pub open spec fn planned_time(planned: Map<FlowID, DateTime>, flow_id: FlowID) -> Option<DateTime> {
    if planned.contains_key(flow_id) {
        Some(planned[flow_id])
    } else {
        None
    }
}

/// What is taken at the earliest moment is due no later than what stays.
pub proof fn law_earliest_first(planned: Map<FlowID, DateTime>, t: DateTime, f: FlowID)
    requires
        is_nearest(planned, t),
        without_due(planned, t).contains_key(f),
    ensures
        t.rank() < without_due(planned, t)[f].rank(),
{
    assert(planned.contains_key(f));
}

/// The earliest moment is one that is planned, and none is earlier. Taking its flows out
/// takes out all of that moment and no other, and leaves the rest planned as it was.
pub proof fn law_flows_of_a_moment(planned: Map<FlowID, DateTime>, t: DateTime, f: FlowID)
    requires
        is_nearest(planned, t),
    ensures
        exists|g: FlowID| #[trigger] planned.contains_key(g) && planned[g] == t,
        planned.contains_key(f) ==> t.rank() <= planned[f].rank(),
        without_due(planned, t).contains_key(f) <==> planned.contains_key(f) && planned[f].rank()
            != t.rank(),
        without_due(planned, t).contains_key(f) ==> without_due(planned, t)[f] == planned[f],
{
}

/// A flow is planned for the moment that it was last planned for, and not at all once it was
/// withdrawn. Other flows are not concerned.
pub proof fn law_last_plan_counts(
    planned: Map<FlowID, DateTime>,
    f: FlowID,
    t: DateTime,
    other: FlowID,
)
    requires
        other != f,
    ensures
        planned_time(planned.insert(f, t), f) == Some(t),
        planned_time(planned.remove(f), f) is None,
        planned_time(planned.insert(f, t), other) == planned_time(planned, other),
        planned_time(planned.remove(f), other) == planned_time(planned, other),
{
}

} // verus!
