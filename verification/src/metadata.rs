//! The metadata chain of a dataset: its blocks and their events.

use vstd::prelude::*;

use crate::ids::{DatasetID, Multihash};
use crate::time::DateTime;

verus! {

#[derive(Debug, Clone, Copy, PartialEq, Eq, Structural)]
pub enum DatasetKind {
    Root,
    Derivative,
}

/// Offsets of records, both ends included.
#[derive(Debug, Clone, Copy, PartialEq, Eq, Structural)]
pub struct OffsetInterval {
    pub start: i64,
    pub end: i64,
}

/// A file of records.
#[derive(Debug, PartialEq, Eq)]
pub struct DataSlice {
    pub logical_hash: Multihash,
    pub physical_hash: Multihash,
    pub interval: OffsetInterval,
    pub size: i64,
}

/// A file of engine state.
#[derive(Debug, PartialEq, Eq)]
pub struct Checkpoint {
    pub physical_hash: Multihash,
    pub size: i64,
}

/// How far a source has been read.
#[derive(Debug, PartialEq, Eq)]
pub struct SourceState {
    pub kind: String,
    pub source: String,
    pub value: String,
}

/// The first block of a chain.
#[derive(Debug, PartialEq, Eq)]
pub struct Seed {
    pub dataset_id: DatasetID,
    pub dataset_kind: DatasetKind,
}

#[derive(Debug, PartialEq, Eq)]
pub struct AddData {
    pub input_checkpoint: Option<Multihash>,
    pub output_data: Option<DataSlice>,
    pub output_checkpoint: Option<Checkpoint>,
    pub output_watermark: Option<DateTime>,
    pub source_state: Option<SourceState>,
}

#[derive(Debug, PartialEq, Eq)]
pub struct ExecuteQuery {
    pub input_checkpoint: Option<Multihash>,
    pub output_data: Option<DataSlice>,
    pub output_checkpoint: Option<Checkpoint>,
    pub output_watermark: Option<DateTime>,
}

#[derive(Debug, Clone, Copy, PartialEq, Eq, Structural)]
pub struct SetWatermark {
    pub output_watermark: DateTime,
}

/// A dataset that a transform reads.
#[derive(Debug, PartialEq, Eq)]
pub struct TransformInput {
    pub id: Option<DatasetID>,
    pub name: String,
}

#[derive(Debug, PartialEq, Eq)]
pub struct SetTransform {
    pub inputs: Vec<TransformInput>,
    /// The engine and its queries, as written down
    pub transform: String,
}

#[derive(Debug, PartialEq, Eq)]
pub struct MergeStrategyLedgerConf {
    pub primary_key: Vec<String>,
}

#[derive(Debug, PartialEq, Eq)]
pub struct MergeStrategySnapshotConf {
    pub primary_key: Vec<String>,
    pub compare_columns: Option<Vec<String>>,
    pub observation_column: Option<String>,
    pub obsv_added: Option<String>,
    pub obsv_changed: Option<String>,
    pub obsv_removed: Option<String>,
}

/// How new records join those of before.
#[derive(Debug, PartialEq, Eq)]
pub enum MergeStrategyConf {
    Append,
    Ledger(MergeStrategyLedgerConf),
    Snapshot(MergeStrategySnapshotConf),
}

#[derive(Debug, PartialEq, Eq)]
pub struct SetPollingSource {
    /// Where data comes from and how it is read, as written down
    pub fetch: String,
    pub merge: MergeStrategyConf,
}

/// Names of the system columns. Those left out have default names.
#[derive(Debug, PartialEq, Eq)]
pub struct SetVocab {
    pub offset_column: Option<String>,
    pub system_time_column: Option<String>,
    pub event_time_column: Option<String>,
}

#[derive(Debug, PartialEq, Eq)]
pub struct SetInfo {
    pub description: Option<String>,
    pub keywords: Option<Vec<String>>,
}

#[derive(Debug, PartialEq, Eq)]
pub struct SetLicense {
    pub short_name: String,
    pub name: String,
    pub spdx_id: Option<String>,
    pub website_url: String,
}

#[derive(Debug, PartialEq, Eq)]
pub struct AttachmentEmbedded {
    pub path: String,
    pub content: String,
}

/// Files that come with the dataset, within the block itself.
#[derive(Debug, PartialEq, Eq)]
pub struct SetAttachments {
    pub items: Vec<AttachmentEmbedded>,
}

#[derive(Debug, PartialEq, Eq)]
pub enum MetadataEvent {
    Seed(Seed),
    AddData(AddData),
    ExecuteQuery(ExecuteQuery),
    SetWatermark(SetWatermark),
    SetTransform(SetTransform),
    SetPollingSource(SetPollingSource),
    SetVocab(SetVocab),
    SetInfo(SetInfo),
    SetLicense(SetLicense),
    SetAttachments(SetAttachments),
}

#[derive(Debug, PartialEq, Eq)]
pub struct MetadataBlock {
    pub prev_block_hash: Option<Multihash>,
    pub sequence_number: u64,
    pub system_time: DateTime,
    pub event: MetadataEvent,
}

/// A label for a block that moves as the chain grows.
#[derive(Debug, Clone, Copy, PartialEq, Eq, Structural)]
pub enum BlockRef {
    Head,
}

/// What blocks say first, newest block first: the value that `f` finds in the
/// newest block in which it finds one.
pub open spec fn newest<T>(blocks: Seq<MetadataBlock>, f: spec_fn(MetadataBlock) -> Option<T>) -> Option<
    T,
>
    decreases blocks.len(),
{
    if blocks.len() == 0 {
        None
    } else {
        match newest(blocks.drop_last(), f) {
            Some(t) => Some(t),
            None => f(blocks.last()),
        }
    }
}

/// Blocks that come before older ones have the first say.
pub proof fn lemma_newest_concat<T>(
    newer: Seq<MetadataBlock>,
    older: Seq<MetadataBlock>,
    f: spec_fn(MetadataBlock) -> Option<T>,
)
    ensures
        newest(newer + older, f) == (match newest(newer, f) {
            Some(t) => Some(t),
            None => newest(older, f),
        }),
    decreases older.len(),
{
    if older.len() == 0 {
        assert(newer + older == newer);
    } else {
        assert((newer + older).drop_last() == newer + older.drop_last());
        assert((newer + older).last() == older.last());
        lemma_newest_concat(newer, older.drop_last(), f);
    }
}

/// What the newest blocks say is not overruled by older ones.
pub proof fn lemma_newest_found<T>(
    blocks: Seq<MetadataBlock>,
    f: spec_fn(MetadataBlock) -> Option<T>,
    n: int,
)
    requires
        0 <= n <= blocks.len(),
        newest(blocks.take(n), f) is Some,
    ensures
        newest(blocks, f) == newest(blocks.take(n), f),
{
    lemma_newest_concat(blocks.take(n), blocks.skip(n), f);
    assert(blocks.take(n) + blocks.skip(n) == blocks);
}

impl MetadataEvent {
    /// The records that the event adds.
    pub open spec fn spec_output_data(self) -> Option<DataSlice> {
        match self {
            MetadataEvent::AddData(e) => e.output_data,
            MetadataEvent::ExecuteQuery(e) => e.output_data,
            _ => None,
        }
    }

    /// The engine state that the event adds.
    pub open spec fn spec_output_checkpoint(self) -> Option<Checkpoint> {
        match self {
            MetadataEvent::AddData(e) => e.output_checkpoint,
            MetadataEvent::ExecuteQuery(e) => e.output_checkpoint,
            _ => None,
        }
    }

    /// The watermark that the event sets.
    pub open spec fn spec_output_watermark(self) -> Option<DateTime> {
        match self {
            MetadataEvent::AddData(e) => e.output_watermark,
            MetadataEvent::ExecuteQuery(e) => e.output_watermark,
            MetadataEvent::SetWatermark(e) => Some(e.output_watermark),
            _ => None,
        }
    }

    pub fn output_data(&self) -> (r: Option<&DataSlice>)
        ensures
            match r {
                Some(slice) => self.spec_output_data() == Some(*slice),
                None => self.spec_output_data() is None,
            },
    {
        match self {
            MetadataEvent::AddData(e) => e.output_data.as_ref(),
            MetadataEvent::ExecuteQuery(e) => e.output_data.as_ref(),
            _ => None,
        }
    }

    pub fn output_checkpoint(&self) -> (r: Option<&Checkpoint>)
        ensures
            match r {
                Some(checkpoint) => self.spec_output_checkpoint() == Some(*checkpoint),
                None => self.spec_output_checkpoint() is None,
            },
    {
        match self {
            MetadataEvent::AddData(e) => e.output_checkpoint.as_ref(),
            MetadataEvent::ExecuteQuery(e) => e.output_checkpoint.as_ref(),
            _ => None,
        }
    }

    pub fn output_watermark(&self) -> (r: Option<DateTime>)
        ensures
            r == self.spec_output_watermark(),
    {
        match self {
            MetadataEvent::AddData(e) => e.output_watermark,
            MetadataEvent::ExecuteQuery(e) => e.output_watermark,
            MetadataEvent::SetWatermark(e) => Some(e.output_watermark),
            _ => None,
        }
    }
}

impl Clone for TransformInput {
    fn clone(&self) -> (r: Self)
        ensures
            r == *self,
    {
        TransformInput { id: self.id.clone(), name: self.name.clone() }
    }
}

impl Clone for SourceState {
    fn clone(&self) -> (r: Self)
        ensures
            r == *self,
    {
        SourceState {
            kind: self.kind.clone(),
            source: self.source.clone(),
            value: self.value.clone(),
        }
    }
}

/// Copies of the inputs, in their order.
pub fn clone_inputs(inputs: &Vec<TransformInput>) -> (r: Vec<TransformInput>)
    ensures
        r@ == inputs@,
{
    let mut copy: Vec<TransformInput> = Vec::new();
    for i in 0..inputs.len()
        invariant
            copy@ == inputs@.take(i as int),
    {
        copy.push(inputs[i].clone());
        proof {
            assert(inputs@.take(i + 1) == inputs@.take(i as int).push(inputs@[i as int]));
        }
    }
    proof {
        assert(inputs@.take(inputs@.len() as int) == inputs@);
    }
    copy
}

/// What an event adds and sets: an addition of data and a query all that they carry, a
/// change of the watermark nothing but that, and any other event nothing.
pub proof fn law_what_an_event_carries(event: MetadataEvent)
    ensures
        event matches MetadataEvent::AddData(e) ==> event.spec_output_data() == e.output_data
            && event.spec_output_checkpoint() == e.output_checkpoint
            && event.spec_output_watermark() == e.output_watermark,
        event matches MetadataEvent::ExecuteQuery(e) ==> event.spec_output_data() == e.output_data
            && event.spec_output_checkpoint() == e.output_checkpoint
            && event.spec_output_watermark() == e.output_watermark,
        event matches MetadataEvent::SetWatermark(e) ==> event.spec_output_watermark() == Some(
            e.output_watermark,
        ),
        !(event is AddData || event is ExecuteQuery) ==> event.spec_output_data() is None
            && event.spec_output_checkpoint() is None,
        !(event is AddData || event is ExecuteQuery || event is SetWatermark)
            ==> event.spec_output_watermark() is None,
{
}

/// What a chain says is what its newest block says that says anything, and nothing if none
/// does.
pub proof fn law_newest_block_that_says_it<T>(
    blocks: Seq<MetadataBlock>,
    f: spec_fn(MetadataBlock) -> Option<T>,
    i: int,
)
    ensures
        newest(blocks, f) is None <==> forall|j: int|
            0 <= j < blocks.len() ==> f(#[trigger] blocks[j]) is None,
        0 <= i < blocks.len() && f(blocks[i]) is Some && (forall|j: int|
            0 <= j < i ==> f(#[trigger] blocks[j]) is None) ==> newest(blocks, f) == f(blocks[i]),
    decreases blocks.len(),
{
    if blocks.len() > 0 {
        let init = blocks.drop_last();
        law_newest_block_that_says_it(init, f, i);
        assert(forall|j: int| 0 <= j < init.len() ==> init[j] == blocks[j]);
        if newest(blocks, f) is None {
            assert forall|j: int| 0 <= j < blocks.len() implies f(
                #[trigger] blocks[j],
            ) is None by {
                if j < init.len() {
                    assert(f(init[j]) is None);
                }
            }
        }
        if forall|j: int| 0 <= j < blocks.len() ==> f(#[trigger] blocks[j]) is None {
            assert forall|j: int| 0 <= j < init.len() implies f(#[trigger] init[j]) is None by {
                assert(f(blocks[j]) is None);
            }
            assert(f(blocks[blocks.len() - 1]) is None);
        }
        if 0 <= i < blocks.len() && f(blocks[i]) is Some && (forall|j: int|
            0 <= j < i ==> f(#[trigger] blocks[j]) is None) {
            assert forall|j: int| 0 <= j < i implies f(#[trigger] init[j]) is None by {
                assert(f(blocks[j]) is None);
            }
            if i < init.len() {
                assert(f(init[i]) is Some);
            } else {
                assert(newest(init, f) is None);
            }
        }
    }
}

} // verus!
