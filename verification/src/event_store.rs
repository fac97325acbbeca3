//! Events of flow configurations in a database.

use vstd::prelude::*;

use crate::error::InternalError;
use crate::flow::types::{DatasetFlowType, FlowKey, FlowKeyView, SystemFlowType};
use crate::ids::EventID;
use crate::time::DateTime;

verus! {

/// Stores events through a transaction `T`.
#[derive(Debug)]
pub struct SqliteFlowSystemEventStore<T> {
    transaction: T,
}

/// Whose events they are: the columns that tell.
#[derive(Debug, PartialEq, Eq)]
pub enum EventOwner {
    System(SystemFlowType),
    Dataset(String, DatasetFlowType),
}

/// The interval of events to read: after `from`, up to `to`.
#[derive(Debug, PartialEq, Eq)]
pub struct GetEventsOpts {
    pub from: Option<EventID>,
    pub to: Option<EventID>,
}

/// A query for events.
#[derive(Debug, PartialEq, Eq)]
pub struct EventQuery {
    pub owner: EventOwner,
    pub from_id: Option<i64>,
    pub to_id: Option<i64>,
}

/// An event to store: its type, its time and its content `P`.
#[derive(Debug, PartialEq, Eq)]
pub struct EventRecord<P> {
    pub event_type: String,
    pub event_time: DateTime,
    pub payload: P,
}

/// A row of the table of events.
#[derive(Debug, PartialEq, Eq)]
pub struct EventRow<P> {
    pub event_id: i64,
    pub owner: EventOwner,
    pub event: EventRecord<P>,
}

#[derive(Debug, PartialEq, Eq)]
pub enum SaveEventsError {
    NothingToSave,
    Internal(InternalError),
}

/// The owner of the events of a flow.
pub open spec fn owner_of(key: FlowKey) -> EventOwner {
    match key {
        FlowKey::Dataset(key) => EventOwner::Dataset(key.dataset_id.did, key.flow_type),
        FlowKey::System(key) => EventOwner::System(key.flow_type),
    }
}

pub open spec fn bound(id: Option<EventID>) -> Option<i64> {
    match id {
        Some(id) => Some(id.id),
        None => None,
    }
}

impl View for EventOwner {
    type V = FlowKeyView;

    open spec fn view(&self) -> FlowKeyView {
        match self {
            EventOwner::System(flow_type) => FlowKeyView::System(*flow_type),
            EventOwner::Dataset(id, flow_type) => FlowKeyView::Dataset(id@, *flow_type),
        }
    }
}

/// The query for the events of a flow in an interval.
pub open spec fn query_for(key: FlowKey, from: Option<EventID>, to: Option<EventID>) -> EventQuery {
    EventQuery { owner: owner_of(key), from_id: bound(from), to_id: bound(to) }
}

/// A row with the given owner and number answers the query: it is of the same
/// flow, comes after `from_id`, and no later than `to_id`.
pub open spec fn selects(query: EventQuery, owner: FlowKeyView, event_id: i64) -> bool {
    &&& owner == query.owner@
    &&& query.from_id matches Some(from) ==> event_id > from
    &&& query.to_id matches Some(to) ==> event_id <= to
}

/// The rows of a table that answer a query.
pub open spec fn selection<P>(table: Seq<EventRow<P>>, query: EventQuery) -> Seq<EventRow<P>> {
    table.filter(|row: EventRow<P>| selects(query, row.owner@, row.event_id))
}

impl Clone for EventOwner {
    fn clone(&self) -> (r: Self)
        ensures
            r == *self,
    {
        match self {
            EventOwner::System(flow_type) => EventOwner::System(*flow_type),
            EventOwner::Dataset(id, flow_type) => EventOwner::Dataset(id.clone(), *flow_type),
        }
    }
}

fn event_owner(flow_key: &FlowKey) -> (r: EventOwner)
    ensures
        r == owner_of(*flow_key),
{
    match flow_key {
        FlowKey::Dataset(key) => EventOwner::Dataset(key.dataset_id.did.clone(), key.flow_type),
        FlowKey::System(key) => EventOwner::System(key.flow_type),
    }
}

/// The rows for events: each under the number given to it.
pub open spec fn rows_for<P>(
    owner: EventOwner,
    events: Seq<EventRecord<P>>,
    ids: Seq<i64>,
) -> Seq<EventRow<P>> {
    Seq::new(
        if events.len() <= ids.len() {
            events.len()
        } else {
            ids.len()
        },
        |i: int| EventRow { event_id: ids[i], owner, event: events[i] },
    )
}

/// How many numbers are needed to save that many events, if there are any.
pub open spec fn numbers_needed(events: int) -> Option<int> {
    if events == 0 {
        None
    } else {
        Some(events)
    }
}

/// The number of the event that was inserted last.
pub open spec fn last_inserted(inserted: Seq<i64>) -> i64 {
    inserted.last()
}

impl<T> SqliteFlowSystemEventStore<T> {
    pub closed spec fn transaction_value(&self) -> T {
        self.transaction
    }

    pub fn new(transaction: T) -> (r: Self)
        ensures
            r.transaction_value() == transaction,
    {
        SqliteFlowSystemEventStore { transaction }
    }

    pub fn transaction(&self) -> (r: &T)
        ensures
            *r == self.transaction_value(),
    {
        &self.transaction
    }

    /// The query for the events of a flow.
    pub fn get_events(&self, flow_key: &FlowKey, opts: GetEventsOpts) -> (r: EventQuery)
        ensures
            r == query_for(*flow_key, opts.from, opts.to),
            forall|owner: FlowKeyView, event_id: i64| #[trigger]
                selects(r, owner, event_id) == (owner == flow_key@ && (opts.from matches Some(
                    from,
                ) ==> event_id > from.id) && (opts.to matches Some(to) ==> event_id <= to.id)),
    {
        EventQuery {
            owner: event_owner(flow_key),
            from_id: match opts.from {
                Some(id) => Some(id.id),
                None => None,
            },
            to_id: match opts.to {
                Some(id) => Some(id.id),
                None => None,
            },
        }
    }

    /// How many numbers are needed to save that many events.
    pub fn ids_needed(&self, events: usize) -> (r: Result<usize, SaveEventsError>)
        ensures
            match numbers_needed(events as int) {
                Some(n) => r matches Ok(needed) && needed == n,
                None => r == Err::<usize, SaveEventsError>(SaveEventsError::NothingToSave),
            },
    {
        if events == 0 {
            return Err(SaveEventsError::NothingToSave);
        }
        Ok(events)
    }

    /// The rows to insert. `event_ids` are the numbers given to the events, in
    /// their order.
    pub fn save_events<P>(
        &self,
        flow_key: &FlowKey,
        events: Vec<EventRecord<P>>,
        event_ids: &Vec<i64>,
    ) -> (r: Vec<EventRow<P>>)
        ensures
            r@ == rows_for(owner_of(*flow_key), events@, event_ids@),
    {
        let ghost all = events@;
        let owner = event_owner(flow_key);
        let mut rows: Vec<EventRow<P>> = Vec::new();
        for event in it: events.into_iter()
            invariant
                it.seq() == all,
                owner == owner_of(*flow_key),
                rows@ == rows_for(owner, all.take(it.index()), event_ids@),
        {
            proof {
                assert(event == all[it.index()]);
            }
            let i = rows.len();
            if i < event_ids.len() {
                let ghost before = rows@;
                rows.push(EventRow { event_id: event_ids[i], owner: owner.clone(), event });
                proof {
                    assert(rows@ =~= rows_for(owner, all.take(it.index() + 1), event_ids@));
                }
            } else {
                proof {
                    assert(rows@ =~= rows_for(owner, all.take(it.index() + 1), event_ids@));
                }
            }
        }
        proof {
            assert(all.take(all.len() as int) == all);
        }
        rows
    }

    /// The number of the last event saved.
    pub fn last_event_id(&self, inserted: &Vec<i64>) -> (r: EventID)
        requires
            inserted@.len() > 0,
        ensures
            r.id == last_inserted(inserted@),
    {
        EventID { id: inserted[inserted.len() - 1] }
    }

    /// The number of events, from what the database counts.
    pub fn len(&self, count: i64) -> (r: Result<usize, InternalError>)
        ensures
            match r {
                Ok(n) => n == count,
                Err(e) => !(0 <= count <= usize::MAX) && e.says(
                    "out of range integral type conversion attempted"@,
                ),
            },
    {
        if count < 0 || count as u64 > usize::MAX as u64 {
            return Err(InternalError::bail("out of range integral type conversion attempted"));
        }
        Ok(count as usize)
    }
}

/// Where each event was given a number, all events are stored, in order and each
/// under its own.
pub proof fn law_every_event_is_stored<P>(
    owner: EventOwner,
    events: Seq<EventRecord<P>>,
    ids: Seq<i64>,
)
    requires
        ids.len() == events.len(),
    ensures
        rows_for(owner, events, ids).len() == events.len(),
        forall|i: int|
            0 <= i < events.len() ==> (#[trigger] rows_for(owner, events, ids)[i]).event
                == events[i] && rows_for(owner, events, ids)[i].event_id == ids[i] && rows_for(
                owner,
                events,
                ids,
            )[i].owner == owner,
{
}

/// The numbers are new to the table, and no two are the same.
pub open spec fn fresh<P>(table: Seq<EventRow<P>>, ids: Seq<i64>) -> bool {
    &&& ids.no_duplicates()
    &&& forall|i: int, j: int|
        0 <= i < table.len() && 0 <= j < ids.len() ==> (#[trigger] table[i]).event_id
            != #[trigger] ids[j]
}

/// What is saved under a flow is read back under that flow: all that was there, then
/// each event as it was saved, in order and alone under its number. The last number
/// is that of the last event, and the table has grown by as many rows as there are
/// events.
pub proof fn law_saved_events_are_read_back<P>(
    table: Seq<EventRow<P>>,
    key: FlowKey,
    events: Seq<EventRecord<P>>,
    ids: Seq<i64>,
)
    requires
        ids.len() == events.len(),
        fresh(table, ids),
    ensures
        ({
            let saved = rows_for(owner_of(key), events, ids);
            let after = table + saved;
            &&& after.len() == table.len() + events.len()
            &&& selection(after, query_for(key, None, None)) == selection(
                table,
                query_for(key, None, None),
            ) + saved
            &&& forall|i: int|
                0 <= i < events.len() ==> (#[trigger] saved[i]).event == events[i]
                    && saved[i].event_id == ids[i]
            &&& forall|i: int, j: int|
                0 <= i < events.len() && 0 <= j < after.len() && (#[trigger] after[j]).event_id
                    == (#[trigger] ids[i]) ==> j == table.len() + i
            &&& events.len() > 0 ==> after.last().event == events.last() && after.last().event_id
                == ids.last()
        }),
{
    let saved = rows_for(owner_of(key), events, ids);
    let query = query_for(key, None, None);
    lemma_selection_concat(table, saved, query);
    lemma_selects_all(saved, query);
    let after = table + saved;
    assert forall|i: int, j: int|
        0 <= i < events.len() && 0 <= j < after.len() && (#[trigger] after[j]).event_id == (
        #[trigger] ids[i]) implies j == table.len() + i by {
        if j < table.len() {
            assert(table[j].event_id != ids[i]);
        } else {
            assert(ids[j - table.len()] == ids[i]);
        }
    }
}

/// What is saved under one flow is read under no other, whatever the interval.
pub proof fn law_saved_events_are_of_no_other_flow<P>(
    table: Seq<EventRow<P>>,
    key: FlowKey,
    events: Seq<EventRecord<P>>,
    ids: Seq<i64>,
    other: FlowKey,
    from: Option<EventID>,
    to: Option<EventID>,
)
    requires
        other@ != key@,
    ensures
        selection(
            table + rows_for(owner_of(key), events, ids),
            query_for(other, from, to),
        ) == selection(table, query_for(other, from, to)),
{
    let saved = rows_for(owner_of(key), events, ids);
    let query = query_for(other, from, to);
    lemma_selection_concat(table, saved, query);
    lemma_selects_none(saved, query);
    assert(selection(table, query) + Seq::<EventRow<P>>::empty() == selection(table, query));
}

/// Intervals that meet at `mid` have no row in common, and hold together what the
/// whole interval holds, each row as often.
pub proof fn law_adjacent_intervals_join<P>(
    table: Seq<EventRow<P>>,
    key: FlowKey,
    from: Option<EventID>,
    mid: EventID,
    to: Option<EventID>,
)
    requires
        from matches Some(from) ==> from.id <= mid.id,
        to matches Some(to) ==> mid.id <= to.id,
    ensures
        forall|owner: FlowKeyView, event_id: i64|
            !(#[trigger] selects(query_for(key, from, Some(mid)), owner, event_id) && selects(
                query_for(key, Some(mid), to),
                owner,
                event_id,
            )),
        forall|owner: FlowKeyView, event_id: i64|
            (#[trigger] selects(query_for(key, from, to), owner, event_id)) == (selects(
                query_for(key, from, Some(mid)),
                owner,
                event_id,
            ) || selects(query_for(key, Some(mid), to), owner, event_id)),
        selection(table, query_for(key, from, to)).to_multiset() == selection(
            table,
            query_for(key, from, Some(mid)),
        ).to_multiset().add(selection(table, query_for(key, Some(mid), to)).to_multiset()),
    decreases table.len(),
{
    broadcast use vstd::seq_lib::group_to_multiset_ensures;

    reveal(Seq::filter);
    let whole = selection(table, query_for(key, from, to));
    let first = selection(table, query_for(key, from, Some(mid)));
    let second = selection(table, query_for(key, Some(mid), to));
    if table.len() > 0 {
        law_adjacent_intervals_join(table.drop_last(), key, from, mid, to);
    }
    assert(whole.to_multiset() =~= first.to_multiset().add(second.to_multiset()));
}

proof fn lemma_selection_concat<P>(
    table: Seq<EventRow<P>>,
    saved: Seq<EventRow<P>>,
    query: EventQuery,
)
    ensures
        selection(table + saved, query) == selection(table, query) + selection(saved, query),
    decreases saved.len(),
{
    reveal(Seq::filter);
    if saved.len() == 0 {
        assert(table + saved == table);
        assert(selection(table, query) + selection(saved, query) == selection(table, query));
    } else {
        lemma_selection_concat(table, saved.drop_last(), query);
        assert((table + saved).drop_last() == table + saved.drop_last());
        assert((table + saved).last() == saved.last());
        assert(selection(table + saved, query) =~= selection(table, query) + selection(
            saved,
            query,
        ));
    }
}

proof fn lemma_selects_all<P>(rows: Seq<EventRow<P>>, query: EventQuery)
    requires
        forall|i: int|
            0 <= i < rows.len() ==> selects(
                query,
                (#[trigger] rows[i]).owner@,
                rows[i].event_id,
            ),
    ensures
        selection(rows, query) == rows,
    decreases rows.len(),
{
    reveal(Seq::filter);
    if rows.len() > 0 {
        assert forall|i: int| 0 <= i < rows.drop_last().len() implies selects(
            query,
            (#[trigger] rows.drop_last()[i]).owner@,
            rows.drop_last()[i].event_id,
        ) by {
            assert(rows.drop_last()[i] == rows[i]);
        }
        lemma_selects_all(rows.drop_last(), query);
        assert(rows.drop_last().push(rows.last()) == rows);
    }
    assert(selection(rows, query) =~= rows);
}

proof fn lemma_selects_none<P>(rows: Seq<EventRow<P>>, query: EventQuery)
    requires
        forall|i: int| 0 <= i < rows.len() ==> (#[trigger] rows[i]).owner@ != query.owner@,
    ensures
        selection(rows, query) == Seq::<EventRow<P>>::empty(),
    decreases rows.len(),
{
    reveal(Seq::filter);
    if rows.len() > 0 {
        assert forall|i: int| 0 <= i < rows.drop_last().len() implies (
        #[trigger] rows.drop_last()[i]).owner@ != query.owner@ by {
            assert(rows.drop_last()[i] == rows[i]);
        }
        lemma_selects_none(rows.drop_last(), query);
    }
}

/// There is a number for each event, and nothing is saved only where there is no event.
pub proof fn law_each_event_needs_a_number(events: int)
    requires
        events >= 0,
    ensures
        numbers_needed(events) is None <==> events == 0,
        events > 0 ==> numbers_needed(events) == Some(events),
{
}

/// The last event is the one that was inserted last, whatever its number.
pub proof fn law_last_inserted_counts(inserted: Seq<i64>, id: i64)
    ensures
        last_inserted(inserted.push(id)) == id,
{
}

/// A query asks for the events of the very flow that it was made for, and for an interval that
/// is open at an end that was not given.
pub proof fn law_what_a_query_asks_for(key: FlowKey, from: Option<EventID>, to: Option<EventID>)
    ensures
        query_for(key, from, to).owner@ == key@,
        from matches Some(id) ==> query_for(key, from, to).from_id == Some(id.id),
        from is None ==> query_for(key, from, to).from_id is None,
        to matches Some(id) ==> query_for(key, from, to).to_id == Some(id.id),
        to is None ==> query_for(key, from, to).to_id is None,
{
}

} // verus!
