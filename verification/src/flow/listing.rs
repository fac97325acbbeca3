//! What a listing of flows covers, and in which order.

use vstd::prelude::*;

use crate::flow::types::{DatasetFlowType, FlowStatus, SystemFlowType};
use crate::ids::{contains_dataset, AccountID, DatasetID};
use crate::time::DateTime;

verus! {

/// The dataset passes the filter: it is named by it, or the filter names none.
pub open spec fn passes(by_dataset_ids: Seq<DatasetID>, dataset_id: DatasetID) -> bool {
    by_dataset_ids.len() == 0 || crate::ids::dataset_views(by_dataset_ids).contains(dataset_id@)
}

/// The owned datasets that a listing by account covers. An empty filter covers
/// all of them.
pub fn filter_owned_datasets(
    owned_dataset_ids: &Vec<DatasetID>,
    by_dataset_ids: &Vec<DatasetID>,
) -> (r: Vec<DatasetID>)
    ensures
        r@ == owned_dataset_ids@.filter(|id: DatasetID| passes(by_dataset_ids@, id)),
{
    let ghost wanted = |id: DatasetID| passes(by_dataset_ids@, id);
    let mut kept: Vec<DatasetID> = Vec::new();
    for i in 0..owned_dataset_ids.len()
        invariant
            wanted == (|id: DatasetID| passes(by_dataset_ids@, id)),
            kept@ == owned_dataset_ids@.take(i as int).filter(wanted),
    {
        proof {
            assert(owned_dataset_ids@.take(i + 1).drop_last() == owned_dataset_ids@.take(i as int));
            reveal(Seq::filter);
        }
        if by_dataset_ids.len() == 0 || contains_dataset(by_dataset_ids, &owned_dataset_ids[i]) {
            kept.push(owned_dataset_ids[i].clone());
        }
    }
    proof {
        assert(owned_dataset_ids@.take(owned_dataset_ids@.len() as int) == owned_dataset_ids@);
    }
    kept
}

/// Each dataset once, where it came first.
pub open spec fn distinct(ids: Seq<DatasetID>) -> Seq<DatasetID>
    decreases ids.len(),
{
    if ids.len() == 0 {
        Seq::empty()
    } else {
        let before = distinct(ids.drop_last());
        if crate::ids::dataset_views(before).contains(ids.last()@) {
            before
        } else {
            before.push(ids.last())
        }
    }
}

/// The datasets whose flows a listing shows: each once, where it came first.
pub fn distinct_datasets(dataset_ids: &Vec<DatasetID>) -> (r: Vec<DatasetID>)
    ensures
        r@ == distinct(dataset_ids@),
{
    let mut kept: Vec<DatasetID> = Vec::new();
    for i in 0..dataset_ids.len()
        invariant
            kept@ == distinct(dataset_ids@.take(i as int)),
    {
        proof {
            assert(dataset_ids@.take(i + 1).drop_last() == dataset_ids@.take(i as int));
        }
        if !contains_dataset(&kept, &dataset_ids[i]) {
            kept.push(dataset_ids[i].clone());
        }
    }
    proof {
        assert(dataset_ids@.take(dataset_ids@.len() as int) == dataset_ids@);
    }
    kept
}

/// The distinct datasets are those that were there, none of them twice.
pub proof fn law_distinct_datasets(ids: Seq<DatasetID>)
    ensures
        crate::ids::dataset_views(distinct(ids)).no_duplicates(),
        crate::ids::dataset_views(distinct(ids)).to_set() == crate::ids::dataset_views(
            ids,
        ).to_set(),
    decreases ids.len(),
{
    let views = crate::ids::dataset_views(ids);
    let kept = crate::ids::dataset_views(distinct(ids));
    if ids.len() > 0 {
        let init = ids.drop_last();
        let before = crate::ids::dataset_views(distinct(init));
        law_distinct_datasets(init);
        assert(views == crate::ids::dataset_views(init).push(ids.last()@));
        if !before.contains(ids.last()@) {
            assert(kept == before.push(ids.last()@));
        }
        assert forall|v: Seq<char>| kept.contains(v) == views.contains(v) by {
            assert(before.to_set().contains(v) == crate::ids::dataset_views(init).to_set().contains(
                v,
            ));
            lemma_contains_push(crate::ids::dataset_views(init), ids.last()@, v);
            lemma_contains_push(before, ids.last()@, v);
        }
    }
    assert(kept.to_set() =~= views.to_set());
}

proof fn lemma_contains_push(s: Seq<Seq<char>>, x: Seq<char>, v: Seq<char>)
    ensures
        s.push(x).contains(v) == (s.contains(v) || x == v),
{
    if s.contains(v) {
        let i = choose|i: int| 0 <= i < s.len() && s[i] == v;
        assert(s.push(x)[i] == v);
    }
    if x == v {
        assert(s.push(x)[s.len() as int] == v);
    }
}

pub open spec fn sum(counts: Seq<usize>) -> int
    decreases counts.len(),
{
    if counts.len() == 0 {
        0
    } else {
        sum(counts.drop_last()) + counts.last()
    }
}

/// The number of flows over all datasets that a listing covers.
pub fn total_count(counts: &Vec<usize>) -> (r: usize)
    requires
        sum(counts@) <= usize::MAX,
    ensures
        r == sum(counts@),
{
    let mut total: usize = 0;
    for i in 0..counts.len()
        invariant
            total == sum(counts@.take(i as int)),
            sum(counts@) <= usize::MAX,
    {
        proof {
            assert(counts@.take(i + 1).drop_last() == counts@.take(i as int));
            lemma_sum_grows(counts@, i + 1);
        }
        total = total + counts[i];
    }
    proof {
        assert(counts@.take(counts@.len() as int) == counts@);
    }
    total
}

/// Whether the number of flows over all datasets can be held.
pub fn is_countable(counts: &Vec<usize>) -> (r: bool)
    ensures
        r == (sum(counts@) <= usize::MAX),
{
    let mut total: usize = 0;
    for i in 0..counts.len()
        invariant
            total == sum(counts@.take(i as int)),
    {
        proof {
            assert(counts@.take(i + 1).drop_last() == counts@.take(i as int));
            lemma_sum_grows(counts@, i + 1);
        }
        match total.checked_add(counts[i]) {
            Some(t) => {
                total = t;
            },
            None => {
                return false;
            },
        }
    }
    proof {
        assert(counts@.take(counts@.len() as int) == counts@);
    }
    true
}

proof fn lemma_sum_grows(counts: Seq<usize>, n: int)
    requires
        0 <= n <= counts.len(),
    ensures
        0 <= sum(counts.take(n)) <= sum(counts),
    decreases counts.len(),
{
    if n == counts.len() {
        assert(counts.take(n) == counts);
        if n > 0 {
            lemma_sum_grows(counts.drop_last(), n - 1);
            assert(counts.drop_last().take(n - 1) == counts.drop_last());
        }
    } else {
        lemma_sum_grows(counts.drop_last(), n);
        assert(counts.drop_last().take(n) == counts.take(n));
    }
}

/// The datasets that have a flow, with the times of their creation, in their order.
pub open spec fn with_flows(
    owned: Seq<DatasetID>,
    counts: Seq<usize>,
    created: Seq<DateTime>,
) -> Seq<(DatasetID, DateTime)>
    decreases owned.len(),
{
    if owned.len() == 0 {
        Seq::empty()
    } else {
        let before = with_flows(owned.drop_last(), counts, created);
        let n = owned.len() - 1;
        if counts[n] > 0 {
            before.push((owned.last(), created[n]))
        } else {
            before
        }
    }
}

/// The place of a dataset in a list, newest first: before those at the end of the
/// list that are older.
pub open spec fn place(list: Seq<(DatasetID, DateTime)>, created: DateTime) -> int
    decreases list.len(),
{
    if list.len() > 0 && list.last().1.rank() < created.rank() {
        place(list.drop_last(), created)
    } else {
        list.len() as int
    }
}

/// The list from newest to oldest. Of datasets created at the same time the one
/// listed first stays first.
pub open spec fn newest_first(list: Seq<(DatasetID, DateTime)>) -> Seq<(DatasetID, DateTime)>
    decreases list.len(),
{
    if list.len() == 0 {
        Seq::empty()
    } else {
        let sorted = newest_first(list.drop_last());
        sorted.insert(place(sorted, list.last().1), list.last())
    }
}

/// The identities of the datasets in a list.
pub open spec fn identities(list: Seq<(DatasetID, DateTime)>) -> Seq<DatasetID> {
    list.map_values(|entry: (DatasetID, DateTime)| entry.0)
}

proof fn lemma_place(list: Seq<(DatasetID, DateTime)>, created: DateTime)
    ensures
        0 <= place(list, created) <= list.len(),
        forall|i: int|
            place(list, created) <= i < list.len() ==> (#[trigger] list[i]).1.rank()
                < created.rank(),
        place(list, created) > 0 ==> created.rank() <= list[place(list, created)
            - 1].1.rank(),
    decreases list.len(),
{
    if list.len() > 0 && list.last().1.rank() < created.rank() {
        lemma_place(list.drop_last(), created);
        assert forall|i: int| place(list, created) <= i < list.len() implies (
        #[trigger] list[i]).1.rank() < created.rank() by {
            if i < list.len() - 1 {
                assert(list.drop_last()[i] == list[i]);
            }
        }
    }
}

/// Puts a dataset in its place in a list that goes from newest to oldest.
fn insert_newest_first(list: &mut Vec<(DatasetID, DateTime)>, entry: (DatasetID, DateTime))
    ensures
        final(list)@ == old(list)@.insert(place(old(list)@, entry.1), entry),
{
    let ghost all = list@;
    let mut i: usize = list.len();
    proof {
        assert(all.take(i as int) == all);
    }
    while i > 0 && list[i - 1].1.before(&entry.1)
        invariant
            list@ == all,
            i <= all.len(),
            place(all, entry.1) == place(all.take(i as int), entry.1),
        decreases i,
    {
        proof {
            assert(all.take(i as int).drop_last() == all.take(i - 1));
            assert(all.take(i as int).last() == all[i - 1]);
        }
        i = i - 1;
    }
    proof {
        if i > 0 {
            assert(all.take(i as int).last() == all[i - 1]);
        }
        assert(place(all, entry.1) == i);
    }
    list.insert(i, entry);
}

/// The datasets that have a flow at all, from newest to oldest. `counts` holds the
/// number of flows of each dataset, `created` the time of its creation.
pub fn datasets_with_flows(
    owned_dataset_ids: &Vec<DatasetID>,
    counts: &Vec<usize>,
    created: &Vec<DateTime>,
) -> (r: Vec<DatasetID>)
    requires
        counts@.len() == owned_dataset_ids@.len(),
        created@.len() == owned_dataset_ids@.len(),
    ensures
        r@ == identities(newest_first(with_flows(owned_dataset_ids@, counts@, created@))),
{
    let mut sorted: Vec<(DatasetID, DateTime)> = Vec::new();
    for i in 0..owned_dataset_ids.len()
        invariant
            counts@.len() == owned_dataset_ids@.len(),
            created@.len() == owned_dataset_ids@.len(),
            sorted@ == newest_first(
                with_flows(owned_dataset_ids@.take(i as int), counts@, created@),
            ),
    {
        proof {
            assert(owned_dataset_ids@.take(i + 1).drop_last() == owned_dataset_ids@.take(i as int));
            let kept = with_flows(owned_dataset_ids@.take(i as int), counts@, created@);
            let entry = (owned_dataset_ids@[i as int], created@[i as int]);
            assert(kept.push(entry).drop_last() == kept);
            assert(kept.push(entry).last() == entry);
        }
        if counts[i] > 0 {
            insert_newest_first(&mut sorted, (owned_dataset_ids[i].clone(), created[i]));
        }
    }
    proof {
        assert(owned_dataset_ids@.take(owned_dataset_ids@.len() as int) == owned_dataset_ids@);
    }
    let mut ids: Vec<DatasetID> = Vec::new();
    for i in 0..sorted.len()
        invariant
            ids@ == identities(sorted@.take(i as int)),
    {
        ids.push(sorted[i].0.clone());
        proof {
            assert(sorted@.take(i + 1) == sorted@.take(i as int).push(sorted@[i as int]));
            assert(ids@ =~= identities(sorted@.take(i + 1)));
        }
    }
    proof {
        assert(sorted@.take(sorted@.len() as int) == sorted@);
    }
    ids
}

/// The list from newest to oldest holds what was listed, each as often as before, and
/// no dataset comes after an older one.
pub proof fn law_newest_come_first(list: Seq<(DatasetID, DateTime)>)
    ensures
        newest_first(list).to_multiset() == list.to_multiset(),
        forall|i: int, j: int|
            0 <= i < j < newest_first(list).len() ==> (#[trigger] newest_first(
                list,
            )[j]).1.rank() <= (#[trigger] newest_first(list)[i]).1.rank(),
    decreases list.len(),
{
    broadcast use vstd::seq_lib::group_to_multiset_ensures;

    if list.len() == 0 {
        assert(list == Seq::<(DatasetID, DateTime)>::empty());
    } else {
        let init = list.drop_last();
        let sorted = newest_first(init);
        let x = list.last();
        law_newest_come_first(init);
        lemma_place(sorted, x.1);
        let k = place(sorted, x.1);
        let all = newest_first(list);
        assert(list == init.push(x));
        vstd::seq_lib::to_multiset_insert(sorted, k, x);
        assert forall|i: int, j: int| 0 <= i < j < all.len() implies (
        #[trigger] all[j]).1.rank() <= (#[trigger] all[i]).1.rank() by {
            let i0 = if i < k { i } else { i - 1 };
            let j0 = if j < k { j } else { j - 1 };
            if i != k {
                assert(all[i] == sorted[i0]);
            }
            if j != k {
                assert(all[j] == sorted[j0]);
            }
            if j == k && k > 0 {
                assert(sorted[k - 1].1.rank() <= sorted[i0].1.rank());
            }
        }
    }
}

/// What a listing of the flows of datasets is limited to. What is left out is not
/// limited.
#[derive(Debug, PartialEq, Eq)]
pub struct DatasetFlowFilters {
    pub by_flow_type: Option<DatasetFlowType>,
    pub by_flow_status: Option<FlowStatus>,
    pub by_initiator: Option<InitiatorFilter>,
}

/// What a listing of the flows of an account is limited to.
#[derive(Debug, PartialEq, Eq)]
pub struct AccountFlowFilters {
    pub by_flow_type: Option<DatasetFlowType>,
    pub by_flow_status: Option<FlowStatus>,
    /// No limit if empty
    pub by_dataset_ids: Vec<DatasetID>,
    pub by_initiator: Option<InitiatorFilter>,
}

/// What a listing of system flows is limited to.
#[derive(Debug, PartialEq, Eq)]
pub struct SystemFlowFilters {
    pub by_flow_type: Option<SystemFlowType>,
    pub by_flow_status: Option<FlowStatus>,
    pub by_initiator: Option<InitiatorFilter>,
}

/// Who started a flow.
#[derive(Debug, PartialEq, Eq)]
pub enum InitiatorFilter {
    System,
    /// One of these accounts
    Account(Vec<AccountID>),
}

/// The part of a listing to show.
#[derive(Debug, Clone, Copy, PartialEq, Eq, Structural)]
pub struct FlowPaginationOpts {
    pub offset: usize,
    pub limit: usize,
}

/// The limits of a listing by account that apply to the flows of each dataset.
pub open spec fn limits_for_datasets(filters: AccountFlowFilters) -> DatasetFlowFilters {
    DatasetFlowFilters {
        by_flow_type: filters.by_flow_type,
        by_flow_status: filters.by_flow_status,
        by_initiator: filters.by_initiator,
    }
}

/// The limits of a listing by account that apply to the flows of each dataset.
pub fn dataset_flow_filters(filters: AccountFlowFilters) -> (r: DatasetFlowFilters)
    ensures
        r == limits_for_datasets(filters),
{
    DatasetFlowFilters {
        by_flow_type: filters.by_flow_type,
        by_flow_status: filters.by_flow_status,
        by_initiator: filters.by_initiator,
    }
}

impl Default for DatasetFlowFilters {
    /// No limits.
    fn default() -> (r: Self)
        ensures
            r == (DatasetFlowFilters {
                by_flow_type: None,
                by_flow_status: None,
                by_initiator: None,
            }),
    {
        DatasetFlowFilters { by_flow_type: None, by_flow_status: None, by_initiator: None }
    }
}

/// A listing by account covers an owned dataset exactly where the filter names it, or names
/// none, and then where it stood among the owned.
pub proof fn law_listing_covers_what_is_named(
    owned: Seq<DatasetID>,
    id: DatasetID,
    named: Seq<DatasetID>,
)
    ensures
        ({
            let covered = |ids: Seq<DatasetID>| ids.filter(|id: DatasetID| passes(named, id));
            let is_named = exists|i: int| 0 <= i < named.len() && (#[trigger] named[i])@ == id@;
            &&& covered(Seq::empty()).len() == 0
            &&& named.len() == 0 || is_named ==> covered(owned.push(id)) == covered(owned).push(id)
            &&& named.len() > 0 && !is_named ==> covered(owned.push(id)) == covered(owned)
        }),
{
    reveal(Seq::filter);
    assert(owned.push(id).drop_last() == owned);
    let views = crate::ids::dataset_views(named);
    if exists|i: int| 0 <= i < named.len() && (#[trigger] named[i])@ == id@ {
        let i = choose|i: int| 0 <= i < named.len() && (#[trigger] named[i])@ == id@;
        assert(views[i] == id@);
    }
    if views.contains(id@) {
        let i = choose|i: int| 0 <= i < views.len() && views[i] == id@;
        assert(named[i]@ == id@);
    }
}

/// Numbers of flows add up.
pub proof fn law_counts_add_up(first: Seq<usize>, second: Seq<usize>, one: usize)
    ensures
        sum(Seq::<usize>::empty()) == 0,
        sum(seq![one]) == one,
        sum(first + second) == sum(first) + sum(second),
    decreases second.len(),
{
    assert(seq![one].drop_last() == Seq::<usize>::empty());
    reveal_with_fuel(sum, 2);
    if second.len() == 0 {
        assert(first + second == first);
    } else {
        assert((first + second).drop_last() == first + second.drop_last());
        law_counts_add_up(first, second.drop_last(), one);
    }
}

/// A dataset is listed, with the time of its creation, exactly where it has a flow.
pub proof fn law_datasets_with_a_flow_are_listed(
    owned: Seq<DatasetID>,
    id: DatasetID,
    counts: Seq<usize>,
    created: Seq<DateTime>,
)
    ensures
        ({
            let n = owned.len() as int;
            let more = with_flows(owned.push(id), counts, created);
            &&& with_flows(Seq::empty(), counts, created).len() == 0
            &&& counts[n] == 0 ==> more == with_flows(owned, counts, created)
            &&& counts[n] > 0 ==> more == with_flows(owned, counts, created).push((id, created[n]))
        }),
{
    assert(owned.push(id).drop_last() == owned);
}

/// What a listing by account is limited to by kind, status and initiator limits the flows of
/// each dataset as well; what is not limited stays so.
pub proof fn law_limits_of_an_account_listing(filters: AccountFlowFilters)
    ensures
        limits_for_datasets(filters).by_flow_type == filters.by_flow_type,
        limits_for_datasets(filters).by_flow_status == filters.by_flow_status,
        limits_for_datasets(filters).by_initiator == filters.by_initiator,
{
}

/// Datasets that were created at the same time stay in the order in which they were listed.
pub proof fn law_order_of_datasets_of_one_time(list: Seq<(DatasetID, DateTime)>, rank: int)
    ensures
        newest_first(list).filter(|entry: (DatasetID, DateTime)| entry.1.rank() == rank)
            == list.filter(|entry: (DatasetID, DateTime)| entry.1.rank() == rank),
    decreases list.len(),
{
    let p = |entry: (DatasetID, DateTime)| entry.1.rank() == rank;
    reveal(Seq::filter);
    if list.len() > 0 {
        let init = list.drop_last();
        let x = list.last();
        let sorted = newest_first(init);
        let k = place(sorted, x.1);
        law_order_of_datasets_of_one_time(init, rank);
        lemma_place(sorted, x.1);
        let before = sorted.take(k);
        let after = sorted.skip(k);
        assert(sorted == before + after);
        assert(newest_first(list) == before.push(x) + after);
        Seq::filter_distributes_over_add(before, after, p);
        Seq::filter_distributes_over_add(before.push(x), after, p);
        assert(before.push(x).drop_last() == before);
        if x.1.rank() == rank {
            lemma_none_pass(after, p);
            assert(before.filter(p) + Seq::<(DatasetID, DateTime)>::empty() =~= before.filter(p));
            assert(before.push(x).filter(p) + Seq::<(DatasetID, DateTime)>::empty()
                =~= before.filter(p).push(x));
        }
    }
}

proof fn lemma_none_pass(
    list: Seq<(DatasetID, DateTime)>,
    p: spec_fn((DatasetID, DateTime)) -> bool,
)
    requires
        forall|i: int| 0 <= i < list.len() ==> !p(#[trigger] list[i]),
    ensures
        list.filter(p) == Seq::<(DatasetID, DateTime)>::empty(),
    decreases list.len(),
{
    reveal(Seq::filter);
    if list.len() > 0 {
        assert forall|i: int| 0 <= i < list.drop_last().len() implies !p(
            #[trigger] list.drop_last()[i],
        ) by {
            assert(list.drop_last()[i] == list[i]);
        }
        lemma_none_pass(list.drop_last(), p);
        assert(!p(list[list.len() - 1]));
    }
}

/// A dataset that is listed again changes nothing; one that is new comes last.
pub proof fn law_dataset_is_kept_where_it_came_first(ids: Seq<DatasetID>, id: DatasetID)
    ensures
        distinct(Seq::empty()).len() == 0,
        (exists|i: int| 0 <= i < ids.len() && (#[trigger] ids[i])@ == id@) ==> distinct(
            ids.push(id),
        ) == distinct(ids),
        (forall|i: int| 0 <= i < ids.len() ==> (#[trigger] ids[i])@ != id@) ==> distinct(
            ids.push(id),
        ) == distinct(ids).push(id),
{
    law_distinct_datasets(ids);
    assert(ids.push(id).drop_last() == ids);
    let views = crate::ids::dataset_views(ids);
    let kept = crate::ids::dataset_views(distinct(ids));
    assert(kept.to_set().contains(id@) == views.to_set().contains(id@));
    if exists|i: int| 0 <= i < ids.len() && (#[trigger] ids[i])@ == id@ {
        let i = choose|i: int| 0 <= i < ids.len() && (#[trigger] ids[i])@ == id@;
        assert(views[i] == id@);
    }
    if views.contains(id@) {
        let i = choose|i: int| 0 <= i < views.len() && views[i] == id@;
        assert(ids[i]@ == id@);
    }
}

/// What is listed are the datasets themselves, in the order of the list.
pub proof fn law_identities_of_a_list(list: Seq<(DatasetID, DateTime)>, i: int)
    requires
        0 <= i < list.len(),
    ensures
        identities(list).len() == list.len(),
        identities(list)[i] == list[i].0,
{
}

} // verus!
