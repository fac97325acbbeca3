//! How an event becomes the next block of a chain.

use vstd::prelude::*;

use crate::error::InternalError;
use crate::ids::Multihash;
use crate::metadata::{
    AddData, BlockRef, Checkpoint, DataSlice, MetadataBlock, MetadataEvent, OffsetInterval,
    SourceState,
};
use crate::time::DateTime;

verus! {

/// Where an object that an event refers to is kept.
#[derive(Debug, Clone, Copy, PartialEq, Eq, Structural)]
pub enum ObjectRepo {
    Data,
    Checkpoint,
}

/// An object that an event refers to.
#[derive(Debug, PartialEq, Eq)]
pub struct ObjectRef {
    pub repo: ObjectRepo,
    pub hash: Multihash,
}

/// The next step in checking that objects exist.
#[derive(Debug, PartialEq, Eq)]
pub enum RefCheck {
    /// Ask about the object with this index
    Ask(usize),
    /// All objects exist
    Passed,
    /// This object does not exist
    Missing(Multihash),
}

#[derive(Debug, PartialEq, Eq)]
pub struct CommitOpts {
    /// The label that moves to the new block
    pub block_ref: BlockRef,
    /// The time of the block, if not that of the commit
    pub system_time: Option<DateTime>,
    /// The block to append to, if not the one that the label is on
    pub prev_block_hash: Option<Option<Multihash>>,
    /// Whether the objects that the event refers to must exist
    pub check_object_refs: bool,
}

#[derive(Debug, PartialEq, Eq)]
pub struct AppendOpts {
    pub update_ref: Option<BlockRef>,
    pub check_ref_is_prev_block: bool,
}

/// Why the block of a label could not be told.
#[derive(Debug, PartialEq, Eq)]
pub enum GetRefError {
    NotFound,
    Access(String),
    Internal(String),
}

/// Why the chain did not take a block, in words.
#[derive(Debug, PartialEq, Eq)]
pub struct AppendError {
    pub reason: String,
}

#[derive(Debug, PartialEq, Eq)]
pub enum CommitError {
    /// The event refers to an object that does not exist.
    ObjectNotFound(Multihash),
    /// The chain did not take the block.
    MetadataAppendError(AppendError),
    Internal(InternalError),
}

#[derive(Debug, PartialEq, Eq)]
pub struct CommitResult {
    pub old_head: Option<Multihash>,
    pub new_head: Multihash,
}

/// The objects that an event refers to: its data, then its checkpoint.
pub open spec fn event_refs(event: MetadataEvent) -> Seq<ObjectRef> {
    let data = match event.spec_output_data() {
        Some(slice) => seq![ObjectRef { repo: ObjectRepo::Data, hash: slice.physical_hash }],
        None => Seq::empty(),
    };
    let checkpoint = match event.spec_output_checkpoint() {
        Some(checkpoint) => seq![
            ObjectRef { repo: ObjectRepo::Checkpoint, hash: checkpoint.physical_hash },
        ],
        None => Seq::empty(),
    };
    data + checkpoint
}

/// The objects to look for before the event is committed.
pub open spec fn checked_refs(event: MetadataEvent, check_object_refs: bool) -> Seq<ObjectRef> {
    if check_object_refs {
        event_refs(event)
    } else {
        Seq::empty()
    }
}

/// The objects to look for before the event is committed.
pub fn refs_to_check(event: &MetadataEvent, check_object_refs: bool) -> (r: Vec<ObjectRef>)
    ensures
        r@ == checked_refs(*event, check_object_refs),
{
    let mut refs: Vec<ObjectRef> = Vec::new();
    if check_object_refs {
        if let Some(data_slice) = event.output_data() {
            refs.push(
                ObjectRef { repo: ObjectRepo::Data, hash: data_slice.physical_hash.clone() },
            );
        }
        if let Some(checkpoint) = event.output_checkpoint() {
            refs.push(
                ObjectRef { repo: ObjectRepo::Checkpoint, hash: checkpoint.physical_hash.clone() },
            );
        }
    }
    refs
}

/// The first object that was found missing.
pub open spec fn first_missing(present: Seq<bool>) -> Option<int>
    decreases present.len(),
{
    if present.len() == 0 {
        None
    } else {
        match first_missing(present.drop_last()) {
            Some(i) => Some(i),
            None => if present.last() {
                None
            } else {
                Some(present.len() - 1)
            },
        }
    }
}

/// What to do after some objects have been asked about, in their order.
pub fn next_ref_check(refs: &Vec<ObjectRef>, present: &Vec<bool>) -> (r: RefCheck)
    requires
        present@.len() <= refs@.len(),
    ensures
        r == (match first_missing(present@) {
            Some(i) => RefCheck::Missing(refs@[i].hash),
            None => if present@.len() == refs@.len() {
                RefCheck::Passed
            } else {
                RefCheck::Ask(present@.len() as usize)
            },
        }),
{
    for i in 0..present.len()
        invariant
            present@.len() <= refs@.len(),
            first_missing(present@.take(i as int)) is None,
    {
        proof {
            assert(present@.take(i + 1).drop_last() == present@.take(i as int));
        }
        if !present[i] {
            proof {
                lemma_missing_stays(present@, i + 1);
            }
            return RefCheck::Missing(refs[i].hash.clone());
        }
    }
    proof {
        assert(present@.take(present@.len() as int) == present@);
    }
    if present.len() == refs.len() {
        RefCheck::Passed
    } else {
        RefCheck::Ask(present.len())
    }
}

proof fn lemma_missing_stays(present: Seq<bool>, n: int)
    requires
        0 <= n <= present.len(),
        first_missing(present.take(n)) is Some,
    ensures
        first_missing(present) == first_missing(present.take(n)),
    decreases present.len(),
{
    if n == present.len() {
        assert(present.take(n) == present);
    } else {
        assert(present.drop_last().take(n) == present.take(n));
        lemma_missing_stays(present.drop_last(), n);
    }
}

/// The block that a label is on, if it is on any.
pub open spec fn labelled(head: Result<Multihash, GetRefError>) -> Result<
    Option<Multihash>,
    CommitError,
> {
    match head {
        Ok(hash) => Ok(Some(hash)),
        Err(GetRefError::NotFound) => Ok(None),
        Err(GetRefError::Access(text)) | Err(GetRefError::Internal(text)) => Err(
            CommitError::Internal(InternalError::Message(text)),
        ),
    }
}

/// The block that a label is on, if it is on any.
pub fn labelled_block(head: Result<Multihash, GetRefError>) -> (r: Result<
    Option<Multihash>,
    CommitError,
>)
    ensures
        r == labelled(head),
{
    match head {
        Ok(hash) => Ok(Some(hash)),
        Err(GetRefError::NotFound) => Ok(None),
        Err(GetRefError::Access(text)) => Err(CommitError::Internal(InternalError::Message(text))),
        Err(GetRefError::Internal(text)) => {
            Err(CommitError::Internal(InternalError::Message(text)))
        },
    }
}

/// The block to append to: the one that the options name, or else the one that
/// the label is on.
pub fn prev_block_hash(opts: &CommitOpts, labelled: Option<Multihash>) -> (r: Option<Multihash>)
    ensures
        r == (match opts.prev_block_hash {
            Some(prev) => prev,
            None => labelled,
        }),
{
    match &opts.prev_block_hash {
        Some(prev) => prev.clone(),
        None => labelled,
    }
}

/// The block that follows a block with the given number.
pub open spec fn following_block(
    prev_block_hash: Option<Multihash>,
    prev_sequence_number: Option<u64>,
    system_time: DateTime,
    event: MetadataEvent,
) -> MetadataBlock {
    MetadataBlock {
        prev_block_hash,
        sequence_number: match prev_sequence_number {
            Some(n) => (n + 1) as u64,
            None => 0,
        },
        system_time,
        event,
    }
}

/// The block that an event becomes. The first block of a chain has number 0,
/// each other one the number after that of the block before it.
pub fn next_block(
    prev_block_hash: Option<Multihash>,
    prev_sequence_number: Option<u64>,
    opts: &CommitOpts,
    now: DateTime,
    event: MetadataEvent,
) -> (r: MetadataBlock)
    requires
        prev_block_hash is Some <==> prev_sequence_number is Some,
        prev_sequence_number matches Some(n) ==> n < u64::MAX,
    ensures
        r == following_block(
            prev_block_hash,
            prev_sequence_number,
            match opts.system_time {
                Some(time) => time,
                None => now,
            },
            event,
        ),
{
    let sequence_number: u64 = match prev_sequence_number {
        Some(n) => n + 1,
        None => 0,
    };
    MetadataBlock {
        prev_block_hash,
        sequence_number,
        system_time: opts.system_time.unwrap_or(now),
        event,
    }
}

/// The new block takes over the label, provided that the label was on the block
/// it follows.
pub fn append_opts(opts: &CommitOpts) -> (r: AppendOpts)
    ensures
        r == (AppendOpts { update_ref: Some(opts.block_ref), check_ref_is_prev_block: true }),
{
    AppendOpts { update_ref: Some(opts.block_ref), check_ref_is_prev_block: true }
}

/// What a commit comes to, once the chain has taken the block or refused it.
pub open spec fn committed(
    prev_block_hash: Option<Multihash>,
    appended: Result<Multihash, AppendError>,
) -> Result<CommitResult, CommitError> {
    match appended {
        Ok(new_head) => Ok(CommitResult { old_head: prev_block_hash, new_head }),
        Err(e) => Err(CommitError::MetadataAppendError(e)),
    }
}

/// What a commit comes to, once the chain has taken the block or refused it.
pub fn commit_result(
    prev_block_hash: Option<Multihash>,
    appended: Result<Multihash, AppendError>,
) -> (r: Result<CommitResult, CommitError>)
    ensures
        r == committed(prev_block_hash, appended),
{
    match appended {
        Ok(new_head) => Ok(CommitResult { old_head: prev_block_hash, new_head }),
        Err(e) => Err(CommitError::MetadataAppendError(e)),
    }
}

/// A file of records that was moved to the dataset.
#[derive(Debug, PartialEq, Eq)]
pub struct StoredData {
    pub logical_hash: Multihash,
    pub physical_hash: Multihash,
    pub interval: OffsetInterval,
    pub len: u64,
}

/// A file of engine state that was moved to the dataset.
#[derive(Debug, PartialEq, Eq)]
pub struct StoredCheckpoint {
    pub physical_hash: Multihash,
    pub len: u64,
}

/// The addition of stored files to a dataset.
pub open spec fn addition(
    input_checkpoint: Option<Multihash>,
    data: Option<StoredData>,
    checkpoint: Option<StoredCheckpoint>,
    output_watermark: Option<DateTime>,
    source_state: Option<SourceState>,
) -> AddData {
    AddData {
        input_checkpoint,
        output_data: match data {
            Some(d) => Some(
                DataSlice {
                    logical_hash: d.logical_hash,
                    physical_hash: d.physical_hash,
                    interval: d.interval,
                    size: d.len as i64,
                },
            ),
            None => None,
        },
        output_checkpoint: match checkpoint {
            Some(c) => Some(Checkpoint { physical_hash: c.physical_hash, size: c.len as i64 }),
            None => None,
        },
        output_watermark,
        source_state,
    }
}

/// The event that adds stored files to a dataset.
pub fn add_data_event(
    input_checkpoint: Option<Multihash>,
    data: Option<StoredData>,
    checkpoint: Option<StoredCheckpoint>,
    output_watermark: Option<DateTime>,
    source_state: Option<SourceState>,
) -> (r: MetadataEvent)
    ensures
        r == MetadataEvent::AddData(
            addition(input_checkpoint, data, checkpoint, output_watermark, source_state),
        ),
{
    MetadataEvent::AddData(
        AddData {
            input_checkpoint,
            output_data: match data {
                Some(d) => Some(
                    DataSlice {
                        logical_hash: d.logical_hash,
                        physical_hash: d.physical_hash,
                        interval: d.interval,
                        size: d.len as i64,
                    },
                ),
                None => None,
            },
            output_checkpoint: match checkpoint {
                Some(c) => Some(Checkpoint { physical_hash: c.physical_hash, size: c.len as i64 }),
                None => None,
            },
            output_watermark,
            source_state,
        },
    )
}

/// The options under which such an event is committed: its objects have just
/// been added and need no check.
pub fn add_data_opts(opts: CommitOpts) -> (r: CommitOpts)
    ensures
        r == (CommitOpts { check_object_refs: false, ..opts }),
{
    CommitOpts { check_object_refs: false, ..opts }
}

/// Each block of the chain, oldest first, follows the one before it.
pub open spec fn built_by_commits(chain: Seq<MetadataBlock>) -> bool {
    forall|i: int|
        0 <= i < chain.len() ==> (#[trigger] chain[i]) == following_block(
            chain[i].prev_block_hash,
            if i == 0 {
                None
            } else {
                Some(chain[i - 1].sequence_number)
            },
            chain[i].system_time,
            chain[i].event,
        )
}

/// The blocks of a chain are numbered from 0 without gaps.
pub proof fn law_sequence_numbers_are_positions(chain: Seq<MetadataBlock>, i: int)
    requires
        built_by_commits(chain),
        chain.len() <= u64::MAX,
        0 <= i < chain.len(),
    ensures
        chain[i].sequence_number == i,
    decreases i,
{
    let block = chain[i];
    if i > 0 {
        law_sequence_numbers_are_positions(chain, i - 1);
    }
}

/// What is looked for before a commit: the data that an event adds or computes, then its
/// checkpoint, and nothing of what it does not have; nothing of other events, and nothing
/// at all unless the check is asked for.
pub proof fn law_what_is_looked_for(
    event: MetadataEvent,
    data: Option<DataSlice>,
    checkpoint: Option<Checkpoint>,
)
    requires
        match event {
            MetadataEvent::AddData(e) => data == e.output_data && checkpoint
                == e.output_checkpoint,
            MetadataEvent::ExecuteQuery(e) => data == e.output_data && checkpoint
                == e.output_checkpoint,
            _ => data is None && checkpoint is None,
        },
    ensures
        ({
            let refs = checked_refs(event, true);
            let d: int = if data is Some { 1 } else { 0 };
            let c: int = if checkpoint is Some { 1 } else { 0 };
            &&& checked_refs(event, false).len() == 0
            &&& refs.len() == d + c
            &&& data matches Some(slice) ==> refs[0].repo is Data && refs[0].hash
                == slice.physical_hash
            &&& checkpoint matches Some(checkpoint) ==> refs[d].repo is Checkpoint && refs[d].hash
                == checkpoint.physical_hash
        }),
{
}

/// The object that counts as missing is the first that was not there.
pub proof fn law_first_missing_object(present: Seq<bool>, i: int)
    ensures
        first_missing(present) is None <==> forall|j: int|
            0 <= j < present.len() ==> #[trigger] present[j],
        first_missing(present) == Some(i) <==> 0 <= i < present.len() && !present[i] && (forall|
            j: int,
        |
            0 <= j < i ==> #[trigger] present[j]),
    decreases present.len(),
{
    if present.len() > 0 {
        let init = present.drop_last();
        law_first_missing_object(init, i);
        assert(forall|j: int| 0 <= j < init.len() ==> init[j] == present[j]);
        if first_missing(init) is None {
            assert forall|j: int| 0 <= j < init.len() implies #[trigger] present[j] by {
                assert(init[j]);
            }
        } else {
            let k = first_missing(init)->0;
            law_first_missing_object(init, k);
            assert(!init[k]);
            assert(!present[k]);
        }
        if forall|j: int| 0 <= j < present.len() ==> #[trigger] present[j] {
            assert forall|j: int| 0 <= j < init.len() implies #[trigger] init[j] by {
                assert(present[j]);
            }
            assert(present[present.len() - 1]);
        }
        if 0 <= i < present.len() && !present[i] && (forall|j: int|
            0 <= j < i ==> #[trigger] present[j]) {
            assert forall|j: int| 0 <= j < i implies #[trigger] init[j] by {
                assert(present[j]);
            }
        }
        if first_missing(present) == Some(i) {
            assert forall|j: int| 0 <= j < i implies #[trigger] present[j] by {
                assert(init[j]);
            }
        }
    }
}

/// A block follows the one that it names, with the next number; the first block of a chain
/// has number 0. It holds the event, and is of the given time.
pub proof fn law_block_follows(
    prev: Option<Multihash>,
    number: u64,
    time: DateTime,
    event: MetadataEvent,
)
    requires
        number < u64::MAX,
    ensures
        following_block(prev, Some(number), time, event).sequence_number == number + 1,
        following_block(prev, None, time, event).sequence_number == 0,
        forall|n: Option<u64>|
            #![trigger following_block(prev, n, time, event)]
            following_block(prev, n, time, event).prev_block_hash == prev && following_block(
                prev,
                n,
                time,
                event,
            ).system_time == time && following_block(prev, n, time, event).event == event,
{
}

/// That a label is on no block is no failure; any other trouble with it is, with its text.
pub proof fn law_label_on_no_block(head: Result<Multihash, GetRefError>)
    ensures
        labelled(head) matches Ok(Some(hash)) ==> head == Ok::<Multihash, GetRefError>(hash),
        labelled(head) matches Ok(None) ==> head matches Err(GetRefError::NotFound),
        head is Ok ==> labelled(head) matches Ok(Some(_)),
        (head matches Err(GetRefError::NotFound)) ==> labelled(head) matches Ok(None),
        head matches Err(GetRefError::Access(text)) ==> (labelled(head) matches Err(
            CommitError::Internal(e),
        ) && e.says(text@)),
        head matches Err(GetRefError::Internal(text)) ==> (labelled(head) matches Err(
            CommitError::Internal(e),
        ) && e.says(text@)),
{
}

/// A commit succeeds exactly where the chain has taken the block: with the block that it
/// was appended to, and the new one.
pub proof fn law_commit_is_what_the_chain_made_of_it(
    prev: Option<Multihash>,
    appended: Result<Multihash, AppendError>,
)
    ensures
        committed(prev, appended) is Ok <==> appended is Ok,
        committed(prev, appended) matches Ok(r) ==> r.old_head == prev && appended == Ok::<
            Multihash,
            AppendError,
        >(r.new_head),
        appended matches Err(e) ==> committed(prev, appended) == Err::<CommitResult, CommitError>(
            CommitError::MetadataAppendError(e),
        ),
{
}

/// The event that adds stored files tells of each what was stored: of data its hashes, its
/// offsets and its size, of a checkpoint its hash and its size. What was not stored it does
/// not tell of. The rest it takes as it is given.
pub proof fn law_added_files_are_told(
    input_checkpoint: Option<Multihash>,
    data: Option<StoredData>,
    checkpoint: Option<StoredCheckpoint>,
    watermark: Option<DateTime>,
    source_state: Option<SourceState>,
)
    ensures
        addition(input_checkpoint, data, checkpoint, watermark, source_state).input_checkpoint
            == input_checkpoint,
        addition(input_checkpoint, data, checkpoint, watermark, source_state).output_watermark
            == watermark,
        addition(input_checkpoint, data, checkpoint, watermark, source_state).source_state
            == source_state,
        match (
            data,
            addition(input_checkpoint, data, checkpoint, watermark, source_state).output_data,
        ) {
            (Some(d), Some(slice)) => slice.logical_hash == d.logical_hash && slice.physical_hash
                == d.physical_hash && slice.interval == d.interval && (d.len <= i64::MAX
                ==> slice.size == d.len),
            (None, None) => true,
            _ => false,
        },
        match (
            checkpoint,
            addition(input_checkpoint, data, checkpoint, watermark, source_state).output_checkpoint,
        ) {
            (Some(c), Some(made)) => made.physical_hash == c.physical_hash && (c.len <= i64::MAX
                ==> made.size == c.len),
            (None, None) => true,
            _ => false,
        },
{
}

} // verus!
