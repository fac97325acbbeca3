//! What a dataset amounts to, and how that is kept up to date as its chain
//! grows.

use vstd::prelude::*;

use crate::ids::{DatasetID, Multihash};
use crate::metadata::{
    clone_inputs, DatasetKind, MetadataBlock, MetadataEvent, OffsetInterval, TransformInput,
};
use crate::time::DateTime;

verus! {

#[derive(Debug, PartialEq, Eq)]
pub struct DatasetSummary {
    pub id: DatasetID,
    pub kind: DatasetKind,
    pub last_block_hash: Multihash,
    pub dependencies: Vec<TransformInput>,
    pub last_pulled: Option<DateTime>,
    pub num_records: u64,
    pub data_size: u64,
    pub checkpoints_size: u64,
}

/// A summary, its dependencies by value.
pub struct SummaryView {
    pub id: DatasetID,
    pub kind: DatasetKind,
    pub last_block_hash: Multihash,
    pub dependencies: Seq<TransformInput>,
    pub last_pulled: Option<DateTime>,
    pub num_records: int,
    pub data_size: int,
    pub checkpoints_size: int,
}

/// What an interval of a chain contributes to a summary.
#[derive(Debug)]
pub struct UpdateSummaryIncrement {
    seen_id: Option<DatasetID>,
    seen_kind: Option<DatasetKind>,
    seen_head: Option<Multihash>,
    seen_dependencies: Option<Vec<TransformInput>>,
    seen_last_pulled: Option<DateTime>,
    seen_num_records: u64,
    seen_data_size: u64,
    seen_checkpoints_size: u64,
}

/// An increment, its dependencies by value.
pub struct IncrementView {
    pub seen_id: Option<DatasetID>,
    pub seen_kind: Option<DatasetKind>,
    pub seen_head: Option<Multihash>,
    pub seen_dependencies: Option<Seq<TransformInput>>,
    pub seen_last_pulled: Option<DateTime>,
    pub seen_num_records: int,
    pub seen_data_size: int,
    pub seen_checkpoints_size: int,
}

impl View for DatasetSummary {
    type V = SummaryView;

    open spec fn view(&self) -> SummaryView {
        SummaryView {
            id: self.id,
            kind: self.kind,
            last_block_hash: self.last_block_hash,
            dependencies: self.dependencies@,
            last_pulled: self.last_pulled,
            num_records: self.num_records as int,
            data_size: self.data_size as int,
            checkpoints_size: self.checkpoints_size as int,
        }
    }
}

impl View for UpdateSummaryIncrement {
    type V = IncrementView;

    closed spec fn view(&self) -> IncrementView {
        IncrementView {
            seen_id: self.seen_id,
            seen_kind: self.seen_kind,
            seen_head: self.seen_head,
            seen_dependencies: match self.seen_dependencies {
                Some(inputs) => Some(inputs@),
                None => None,
            },
            seen_last_pulled: self.seen_last_pulled,
            seen_num_records: self.seen_num_records as int,
            seen_data_size: self.seen_data_size as int,
            seen_checkpoints_size: self.seen_checkpoints_size as int,
        }
    }
}

pub open spec fn seed_id(block: MetadataBlock) -> Option<DatasetID> {
    match block.event {
        MetadataEvent::Seed(seed) => Some(seed.dataset_id),
        _ => None,
    }
}

pub open spec fn seed_kind(block: MetadataBlock) -> Option<DatasetKind> {
    match block.event {
        MetadataEvent::Seed(seed) => Some(seed.dataset_kind),
        _ => None,
    }
}

pub open spec fn transform_inputs(block: MetadataBlock) -> Option<Seq<TransformInput>> {
    match block.event {
        MetadataEvent::SetTransform(e) => Some(e.inputs@),
        _ => None,
    }
}

/// When data was written.
pub open spec fn pulled_at(block: MetadataBlock) -> Option<DateTime> {
    match block.event {
        MetadataEvent::AddData(_) | MetadataEvent::ExecuteQuery(_) => Some(block.system_time),
        _ => None,
    }
}

/// The number of records in an interval can be computed at all.
pub open spec fn countable(interval: OffsetInterval) -> bool {
    &&& i64::MIN <= interval.end - interval.start <= i64::MAX
    &&& interval.end - interval.start + 1 <= i64::MAX
}

/// Records in an interval.
pub open spec fn interval_records(interval: OffsetInterval) -> u64 {
    ((interval.end - interval.start + 1) as i64) as u64
}

pub open spec fn block_records(block: MetadataBlock) -> int {
    match block.event.spec_output_data() {
        Some(slice) => interval_records(slice.interval) as int,
        None => 0,
    }
}

pub open spec fn block_data_size(block: MetadataBlock) -> int {
    match block.event.spec_output_data() {
        Some(slice) => (slice.size as u64) as int,
        None => 0,
    }
}

pub open spec fn block_checkpoint_size(block: MetadataBlock) -> int {
    match block.event.spec_output_checkpoint() {
        Some(checkpoint) => (checkpoint.size as u64) as int,
        None => 0,
    }
}

/// The sum over blocks of what `f` says of each.
pub open spec fn sum_over(blocks: Seq<MetadataBlock>, f: spec_fn(MetadataBlock) -> int) -> int
    decreases blocks.len(),
{
    if blocks.len() == 0 {
        0
    } else {
        sum_over(blocks.drop_last(), f) + f(blocks.last())
    }
}

pub open spec fn records_in(blocks: Seq<MetadataBlock>) -> int {
    sum_over(blocks, |b: MetadataBlock| block_records(b))
}

pub open spec fn data_size_of(blocks: Seq<MetadataBlock>) -> int {
    sum_over(blocks, |b: MetadataBlock| block_data_size(b))
}

pub open spec fn checkpoints_size_of(blocks: Seq<MetadataBlock>) -> int {
    sum_over(blocks, |b: MetadataBlock| block_checkpoint_size(b))
}

/// The contribution of an interval of a chain that ends in `head`, newest block
/// first. Of what is set more than once the newest counts.
pub open spec fn increment_of(head: Multihash, blocks: Seq<MetadataBlock>) -> IncrementView {
    IncrementView {
        seen_id: crate::metadata::newest(blocks, |b: MetadataBlock| seed_id(b)),
        seen_kind: crate::metadata::newest(blocks, |b: MetadataBlock| seed_kind(b)),
        seen_head: Some(head),
        seen_dependencies: crate::metadata::newest(blocks, |b: MetadataBlock| transform_inputs(b)),
        seen_last_pulled: crate::metadata::newest(blocks, |b: MetadataBlock| pulled_at(b)),
        seen_num_records: records_in(blocks),
        seen_data_size: data_size_of(blocks),
        seen_checkpoints_size: checkpoints_size_of(blocks),
    }
}

/// The counts can be computed: each interval can be counted, and the sums fit.
pub open spec fn summable(blocks: Seq<MetadataBlock>) -> bool {
    &&& forall|i: int|
        0 <= i < blocks.len() ==> ((#[trigger] blocks[i]).event.spec_output_data() matches Some(
            slice,
        ) ==> countable(slice.interval))
    &&& records_in(blocks) <= u64::MAX
    &&& data_size_of(blocks) <= u64::MAX
    &&& checkpoints_size_of(blocks) <= u64::MAX
}

/// The summary of a whole chain.
pub open spec fn whole_summary(increment: IncrementView) -> SummaryView {
    SummaryView {
        id: increment.seen_id->0,
        kind: increment.seen_kind->0,
        last_block_hash: increment.seen_head->0,
        dependencies: match increment.seen_dependencies {
            Some(inputs) => inputs,
            None => Seq::empty(),
        },
        last_pulled: increment.seen_last_pulled,
        num_records: increment.seen_num_records,
        data_size: increment.seen_data_size,
        checkpoints_size: increment.seen_checkpoints_size,
    }
}

/// The summary of a chain of which all but the increment was summarized before.
pub open spec fn extended_summary(increment: IncrementView, summary: SummaryView) -> SummaryView {
    SummaryView {
        id: match increment.seen_id {
            Some(id) => id,
            None => summary.id,
        },
        kind: match increment.seen_kind {
            Some(kind) => kind,
            None => summary.kind,
        },
        last_block_hash: increment.seen_head->0,
        dependencies: match increment.seen_dependencies {
            Some(inputs) => inputs,
            None => summary.dependencies,
        },
        last_pulled: match increment.seen_last_pulled {
            Some(time) => Some(time),
            None => summary.last_pulled,
        },
        num_records: summary.num_records + increment.seen_num_records,
        data_size: summary.data_size + increment.seen_data_size,
        checkpoints_size: summary.checkpoints_size + increment.seen_checkpoints_size,
    }
}

proof fn lemma_sum_grows(blocks: Seq<MetadataBlock>, f: spec_fn(MetadataBlock) -> int, n: int)
    requires
        0 <= n <= blocks.len(),
        forall|b: MetadataBlock| 0 <= #[trigger] f(b),
    ensures
        0 <= sum_over(blocks.take(n), f) <= sum_over(blocks, f),
    decreases blocks.len(),
{
    if n == blocks.len() {
        assert(blocks.take(n) == blocks);
        if n > 0 {
            lemma_sum_grows(blocks.drop_last(), f, n - 1);
            assert(blocks.drop_last().take(n - 1) == blocks.drop_last());
        }
    } else {
        lemma_sum_grows(blocks.drop_last(), f, n);
        assert(blocks.drop_last().take(n) == blocks.take(n));
    }
}

proof fn lemma_sum_concat(
    newer: Seq<MetadataBlock>,
    older: Seq<MetadataBlock>,
    f: spec_fn(MetadataBlock) -> int,
)
    ensures
        sum_over(newer + older, f) == sum_over(newer, f) + sum_over(older, f),
    decreases older.len(),
{
    if older.len() == 0 {
        assert(newer + older == newer);
    } else {
        assert((newer + older).drop_last() == newer + older.drop_last());
        lemma_sum_concat(newer, older.drop_last(), f);
    }
}

fn count_records(interval: &OffsetInterval) -> (r: u64)
    requires
        countable(*interval),
    ensures
        r == interval_records(*interval),
{
    let count: i64 = interval.end - interval.start + 1;
    count as u64
}

fn is_countable(interval: &OffsetInterval) -> (r: bool)
    ensures
        r == countable(*interval),
{
    let span: i128 = interval.end as i128 - interval.start as i128;
    i64::MIN as i128 <= span && span < i64::MAX as i128
}

/// Whether the counts of the blocks can be added to those given: records, bytes
/// of data and bytes of checkpoints.
pub fn is_summable(blocks: &Vec<MetadataBlock>, before: (u64, u64, u64)) -> (r: bool)
    ensures
        r == (summable(blocks@) && before.0 + records_in(blocks@) <= u64::MAX && before.1
            + data_size_of(blocks@) <= u64::MAX && before.2 + checkpoints_size_of(blocks@)
            <= u64::MAX),
{
    let (mut records, mut data_size, mut checkpoints_size) = before;
    for i in 0..blocks.len()
        invariant
            records == before.0 + records_in(blocks@.take(i as int)),
            data_size == before.1 + data_size_of(blocks@.take(i as int)),
            checkpoints_size == before.2 + checkpoints_size_of(blocks@.take(i as int)),
            forall|j: int|
                0 <= j < i ==> ((#[trigger] blocks@[j]).event.spec_output_data() matches Some(slice)
                    ==> countable(slice.interval)),
    {
        let block = &blocks[i];
        proof {
            assert(blocks@.take(i + 1).drop_last() == blocks@.take(i as int));
            assert(blocks@.take(i + 1).last() == *block);
            lemma_sum_grows(blocks@, |b: MetadataBlock| block_records(b), i + 1);
            lemma_sum_grows(blocks@, |b: MetadataBlock| block_data_size(b), i + 1);
            lemma_sum_grows(blocks@, |b: MetadataBlock| block_checkpoint_size(b), i + 1);
        }
        if let Some(output_data) = block.event.output_data() {
            if !is_countable(&output_data.interval) {
                assert(blocks@[i as int].event.spec_output_data() is Some);
                return false;
            }
            match (
                records.checked_add(count_records(&output_data.interval)),
                data_size.checked_add(output_data.size as u64),
            ) {
                (Some(a), Some(b)) => {
                    records = a;
                    data_size = b;
                },
                _ => {
                    return false;
                },
            }
        }
        if let Some(checkpoint) = block.event.output_checkpoint() {
            match checkpoints_size.checked_add(checkpoint.size as u64) {
                Some(c) => {
                    checkpoints_size = c;
                },
                None => {
                    return false;
                },
            }
        }
    }
    proof {
        assert(blocks@.take(blocks@.len() as int) == blocks@);
        lemma_sum_grows(blocks@, |b: MetadataBlock| block_records(b), 0);
        lemma_sum_grows(blocks@, |b: MetadataBlock| block_data_size(b), 0);
        lemma_sum_grows(blocks@, |b: MetadataBlock| block_checkpoint_size(b), 0);
    }
    true
}

/// Whether the blocks reach back to the beginning of the chain.
pub fn reaches_beginning(blocks: &Vec<MetadataBlock>) -> (r: bool)
    ensures
        r == crate::metadata::newest(blocks@, |b: MetadataBlock| seed_id(b)) is Some,
{
    let ghost f = |b: MetadataBlock| seed_id(b);
    for i in 0..blocks.len()
        invariant
            f == (|b: MetadataBlock| seed_id(b)),
            crate::metadata::newest(blocks@.take(i as int), f) is None,
    {
        proof {
            assert(blocks@.take(i + 1).drop_last() == blocks@.take(i as int));
        }
        if let MetadataEvent::Seed(_) = &blocks[i].event {
            proof {
                crate::metadata::lemma_newest_found(blocks@, f, i + 1);
            }
            return true;
        }
    }
    proof {
        assert(blocks@.take(blocks@.len() as int) == blocks@);
    }
    false
}

/// What an interval of the chain contributes to the summary, newest block first.
pub fn compute_summary_increment(current_head: &Multihash, blocks: &Vec<MetadataBlock>) -> (r:
    UpdateSummaryIncrement)
    requires
        summable(blocks@),
    ensures
        r@ == increment_of(*current_head, blocks@),
{
    let mut increment = UpdateSummaryIncrement {
        seen_id: None,
        seen_kind: None,
        seen_head: Some(current_head.clone()),
        seen_dependencies: None,
        seen_last_pulled: None,
        seen_num_records: 0,
        seen_data_size: 0,
        seen_checkpoints_size: 0,
    };
    for i in 0..blocks.len()
        invariant
            summable(blocks@),
            increment@ == increment_of(*current_head, blocks@.take(i as int)),
    {
        let block = &blocks[i];
        proof {
            assert(blocks@.take(i + 1).drop_last() == blocks@.take(i as int));
            assert(blocks@.take(i + 1).last() == *block);
            lemma_sum_grows(blocks@, |b: MetadataBlock| block_records(b), i + 1);
            lemma_sum_grows(blocks@, |b: MetadataBlock| block_data_size(b), i + 1);
            lemma_sum_grows(blocks@, |b: MetadataBlock| block_checkpoint_size(b), i + 1);
        }
        match &block.event {
            MetadataEvent::Seed(seed) => {
                if increment.seen_id.is_none() {
                    increment.seen_id = Some(seed.dataset_id.clone());
                }
                if increment.seen_kind.is_none() {
                    increment.seen_kind = Some(seed.dataset_kind);
                }
            },
            MetadataEvent::SetTransform(set_transform) => {
                if increment.seen_dependencies.is_none() {
                    increment.seen_dependencies = Some(clone_inputs(&set_transform.inputs));
                }
            },
            MetadataEvent::AddData(_) | MetadataEvent::ExecuteQuery(_) => {
                if increment.seen_last_pulled.is_none() {
                    increment.seen_last_pulled = Some(block.system_time);
                }
            },
            _ => {},
        }
        if let Some(output_data) = block.event.output_data() {
            increment.seen_num_records =
            increment.seen_num_records + count_records(&output_data.interval);
            increment.seen_data_size = increment.seen_data_size + (output_data.size as u64);
        }
        if let Some(checkpoint) = block.event.output_checkpoint() {
            increment.seen_checkpoints_size =
            increment.seen_checkpoints_size + (checkpoint.size as u64);
        }
    }
    proof {
        assert(blocks@.take(blocks@.len() as int) == blocks@);
    }
    increment
}

impl UpdateSummaryIncrement {
    /// The interval reaches back to the beginning of the chain. Seed blocks are
    /// guaranteed to appear only once in a chain, and only at the very beginning.
    pub fn seen_chain_beginning(&self) -> (r: bool)
        ensures
            r == self@.seen_id is Some,
    {
        self.seen_id.is_some()
    }

    /// The summary of a chain that the increment covers entirely.
    pub fn into_summary(self) -> (r: DatasetSummary)
        requires
            self@.seen_id is Some,
            self@.seen_kind is Some,
            self@.seen_head is Some,
        ensures
            r@ == whole_summary(self@),
    {
        DatasetSummary {
            id: self.seen_id.unwrap(),
            kind: self.seen_kind.unwrap(),
            last_block_hash: self.seen_head.unwrap(),
            dependencies: match self.seen_dependencies {
                Some(inputs) => inputs,
                None => Vec::new(),
            },
            last_pulled: self.seen_last_pulled,
            num_records: self.seen_num_records,
            data_size: self.seen_data_size,
            checkpoints_size: self.seen_checkpoints_size,
        }
    }

    /// The summary of a chain of which `summary` covers all but the increment.
    pub fn apply_to_summary(self, summary: DatasetSummary) -> (r: DatasetSummary)
        requires
            self@.seen_head is Some,
            summary@.num_records + self@.seen_num_records <= u64::MAX,
            summary@.data_size + self@.seen_data_size <= u64::MAX,
            summary@.checkpoints_size + self@.seen_checkpoints_size <= u64::MAX,
        ensures
            r@ == extended_summary(self@, summary@),
    {
        DatasetSummary {
            id: self.seen_id.unwrap_or(summary.id),
            kind: self.seen_kind.unwrap_or(summary.kind),
            last_block_hash: self.seen_head.unwrap(),
            dependencies: self.seen_dependencies.unwrap_or(summary.dependencies),
            last_pulled: match self.seen_last_pulled {
                Some(time) => Some(time),
                None => summary.last_pulled,
            },
            num_records: summary.num_records + self.seen_num_records,
            data_size: summary.data_size + self.seen_data_size,
            checkpoints_size: summary.checkpoints_size + self.seen_checkpoints_size,
        }
    }
}

/// A summary kept up to date block by block is the summary of the whole chain.
pub proof fn law_incremental_summary_is_exact(
    newer: Seq<MetadataBlock>,
    older: Seq<MetadataBlock>,
    new_head: Multihash,
    old_head: Multihash,
)
    requires
        increment_of(old_head, older).seen_id is Some,
        increment_of(new_head, newer).seen_id is None,
    ensures
        extended_summary(
            increment_of(new_head, newer),
            whole_summary(increment_of(old_head, older)),
        ) == whole_summary(increment_of(new_head, newer + older)),
{
    crate::metadata::lemma_newest_concat(newer, older, |b: MetadataBlock| seed_id(b));
    crate::metadata::lemma_newest_concat(newer, older, |b: MetadataBlock| seed_kind(b));
    crate::metadata::lemma_newest_concat(newer, older, |b: MetadataBlock| transform_inputs(b));
    crate::metadata::lemma_newest_concat(newer, older, |b: MetadataBlock| pulled_at(b));
    lemma_sum_concat(newer, older, |b: MetadataBlock| block_records(b));
    lemma_sum_concat(newer, older, |b: MetadataBlock| block_data_size(b));
    lemma_sum_concat(newer, older, |b: MetadataBlock| block_checkpoint_size(b));
    lemma_seed_has_kind(newer);
}

/// An interval holds as many records as there are offsets in it.
pub proof fn law_interval_records_are_counted(interval: OffsetInterval)
    requires
        countable(interval),
        interval.start <= interval.end + 1,
    ensures
        interval_records(interval) == interval.end - interval.start + 1,
{
}

/// A chain interval that names no dataset names no kind of dataset.
pub proof fn lemma_seed_has_kind(blocks: Seq<MetadataBlock>)
    ensures
        crate::metadata::newest(blocks, |b: MetadataBlock| seed_id(b)) is Some
            <==> crate::metadata::newest(blocks, |b: MetadataBlock| seed_kind(b)) is Some,
    decreases blocks.len(),
{
    if blocks.len() > 0 {
        lemma_seed_has_kind(blocks.drop_last());
    }
}

/// What one more block makes of a summary. Its head is the block. Data that was added or
/// computed counts: its records are the offsets from the first to the last, its bytes are
/// added, and it was pulled when the block was made; so do the bytes of a checkpoint. A
/// transform sets the inputs, and a seed who the dataset is. Nothing else changes.
pub proof fn law_summary_follows_each_block(
    summary: SummaryView,
    head: Multihash,
    block: MetadataBlock,
)
    requires
        block.event.spec_output_data() matches Some(slice) ==> slice.size >= 0 && slice.interval.start
            <= slice.interval.end + 1 && slice.interval.end - slice.interval.start < i64::MAX,
        block.event.spec_output_checkpoint() matches Some(checkpoint) ==> checkpoint.size >= 0,
    ensures
        ({
            let after = extended_summary(increment_of(head, seq![block]), summary);
            let added = |data: Option<crate::metadata::DataSlice>, checkpoint: Option<
                crate::metadata::Checkpoint,
            >| {
                &&& match data {
                    Some(slice) => after.num_records == summary.num_records + slice.interval.end
                        - slice.interval.start + 1 && after.data_size == summary.data_size
                        + slice.size,
                    None => after.num_records == summary.num_records && after.data_size
                        == summary.data_size,
                }
                &&& match checkpoint {
                    Some(checkpoint) => after.checkpoints_size == summary.checkpoints_size
                        + checkpoint.size,
                    None => after.checkpoints_size == summary.checkpoints_size,
                }
            };
            &&& after.last_block_hash == head
            &&& match block.event {
                MetadataEvent::AddData(e) => added(e.output_data, e.output_checkpoint)
                    && after.last_pulled == Some(block.system_time),
                MetadataEvent::ExecuteQuery(e) => added(e.output_data, e.output_checkpoint)
                    && after.last_pulled == Some(block.system_time),
                _ => added(None, None) && after.last_pulled == summary.last_pulled,
            }
            &&& match block.event {
                MetadataEvent::SetTransform(e) => after.dependencies == e.inputs@,
                _ => after.dependencies == summary.dependencies,
            }
            &&& match block.event {
                MetadataEvent::Seed(seed) => after.id == seed.dataset_id && after.kind
                    == seed.dataset_kind,
                _ => after.id == summary.id && after.kind == summary.kind,
            }
        }),
{
    let one = seq![block];
    assert(one.drop_last() == Seq::<MetadataBlock>::empty());
    reveal_with_fuel(sum_over, 2);
    reveal_with_fuel(crate::metadata::newest, 2);
}

/// The summary of a dataset that has just been seeded: it has no inputs, was never pulled,
/// and holds nothing.
pub proof fn law_summary_of_a_seed(head: Multihash, block: MetadataBlock)
    requires
        block.event is Seed,
    ensures
        ({
            let summary = whole_summary(increment_of(head, seq![block]));
            &&& summary.id == block.event->Seed_0.dataset_id
            &&& summary.kind == block.event->Seed_0.dataset_kind
            &&& summary.last_block_hash == head
            &&& summary.dependencies.len() == 0
            &&& summary.last_pulled is None
            &&& summary.num_records == 0 && summary.data_size == 0 && summary.checkpoints_size == 0
            &&& increment_of(head, seq![block]).seen_id is Some
        }),
{
    let one = seq![block];
    assert(one.drop_last() == Seq::<MetadataBlock>::empty());
    reveal_with_fuel(sum_over, 2);
    reveal_with_fuel(crate::metadata::newest, 2);
}

/// Only blocks that reach back to the seed tell who the dataset is.
pub proof fn law_only_a_seed_begins_a_chain(head: Multihash, blocks: Seq<MetadataBlock>)
    ensures
        increment_of(head, blocks).seen_id is Some <==> exists|i: int|
            0 <= i < blocks.len() && (#[trigger] blocks[i]).event is Seed,
{
    crate::metadata::law_newest_block_that_says_it(
        blocks,
        |b: MetadataBlock| seed_id(b),
        0,
    );
    if exists|i: int| 0 <= i < blocks.len() && (#[trigger] blocks[i]).event is Seed {
        let i = choose|i: int| 0 <= i < blocks.len() && (#[trigger] blocks[i]).event is Seed;
        assert(seed_id(blocks[i]) is Some);
    }
}

/// An extension by several blocks is one extension after the other.
pub proof fn law_extensions_add_up(
    newer: Seq<MetadataBlock>,
    older: Seq<MetadataBlock>,
    new_head: Multihash,
    old_head: Multihash,
    summary: SummaryView,
)
    ensures
        extended_summary(increment_of(new_head, newer + older), summary) == extended_summary(
            increment_of(new_head, newer),
            extended_summary(increment_of(old_head, older), summary),
        ),
{
    crate::metadata::lemma_newest_concat(newer, older, |b: MetadataBlock| seed_id(b));
    crate::metadata::lemma_newest_concat(newer, older, |b: MetadataBlock| seed_kind(b));
    crate::metadata::lemma_newest_concat(newer, older, |b: MetadataBlock| transform_inputs(b));
    crate::metadata::lemma_newest_concat(newer, older, |b: MetadataBlock| pulled_at(b));
    lemma_sum_concat(newer, older, |b: MetadataBlock| block_records(b));
    lemma_sum_concat(newer, older, |b: MetadataBlock| block_data_size(b));
    lemma_sum_concat(newer, older, |b: MetadataBlock| block_checkpoint_size(b));
}

/// An interval can be counted wherever the number of its records can be held.
pub proof fn law_what_can_be_counted(interval: OffsetInterval)
    requires
        interval.start <= interval.end + 1,
    ensures
        countable(interval) <==> interval.end - interval.start + 1 <= i64::MAX,
        countable(interval) ==> interval_records(interval) == interval.end - interval.start + 1,
{
}

/// Totals add up block by block, and nothing is summed up of no blocks: of data its records
/// and its bytes, and of checkpoints their bytes.
pub proof fn law_totals_add_up(newer: Seq<MetadataBlock>, older: Seq<MetadataBlock>)
    ensures
        records_in(Seq::empty()) == 0 && data_size_of(Seq::empty()) == 0 && checkpoints_size_of(
            Seq::empty(),
        ) == 0,
        records_in(newer + older) == records_in(newer) + records_in(older),
        data_size_of(newer + older) == data_size_of(newer) + data_size_of(older),
        checkpoints_size_of(newer + older) == checkpoints_size_of(newer) + checkpoints_size_of(
            older,
        ),
{
    lemma_sum_concat(newer, older, |b: MetadataBlock| block_records(b));
    lemma_sum_concat(newer, older, |b: MetadataBlock| block_data_size(b));
    lemma_sum_concat(newer, older, |b: MetadataBlock| block_checkpoint_size(b));
}

} // verus!
