//! A dataset over its metadata chain and its repositories of objects.

use vstd::prelude::*;

use crate::dataset::summary::{
    compute_summary_increment, is_summable, reaches_beginning, DatasetSummary,
};
use crate::error::{InternalError, InvalidObjectKind};
use crate::ids::Multihash;
use crate::metadata::MetadataBlock;

verus! {

#[derive(Debug)]
pub struct DatasetImpl<MetaChain, DataRepo, CheckpointRepo, InfoRepo> {
    metadata_chain: MetaChain,
    data_repo: DataRepo,
    checkpoint_repo: CheckpointRepo,
    info_repo: InfoRepo,
}

/// The name under which the summary is kept.
pub open spec fn summary_name() -> Seq<char> {
    "summary"@
}

/// What a stored summary says that it is.
pub open spec fn summary_kind() -> Seq<char> {
    "DatasetSummary"@
}

/// The file holds the summary, in the first layout of such files.
pub open spec fn stores(manifest: SummaryManifest, summary: DatasetSummary) -> bool {
    &&& manifest.kind@ == summary_kind()
    &&& manifest.version == 1
    &&& manifest.content == summary
}

/// The summary that a file holds, if it is such a file.
pub open spec fn summary_in(manifest: SummaryManifest) -> Option<DatasetSummary> {
    if manifest.kind@ == summary_kind() {
        Some(manifest.content)
    } else {
        None
    }
}

/// A file as it is stored: what it is, in which layout, and what it holds.
#[derive(Debug, PartialEq, Eq)]
pub struct SummaryManifest {
    pub kind: String,
    pub version: i32,
    pub content: DatasetSummary,
}

/// Why a named object could not be read or written.
#[derive(Debug, PartialEq, Eq)]
pub enum NamedObjectError {
    NotFound,
    Access(String),
    Internal(String),
}

#[derive(Debug, PartialEq, Eq)]
pub enum GetSummaryError {
    EmptyDataset,
    Access(String),
    Internal(InternalError),
}

/// The part of a chain to read: from `head` back to `tail`, which is left out.
#[derive(Debug, PartialEq, Eq)]
pub struct ChainInterval {
    pub head: Multihash,
    pub tail: Option<Multihash>,
}

impl<MetaChain, DataRepo, CheckpointRepo, InfoRepo> DatasetImpl<
    MetaChain,
    DataRepo,
    CheckpointRepo,
    InfoRepo,
> {
    pub closed spec fn chain(&self) -> MetaChain {
        self.metadata_chain
    }

    pub closed spec fn data(&self) -> DataRepo {
        self.data_repo
    }

    pub closed spec fn checkpoints(&self) -> CheckpointRepo {
        self.checkpoint_repo
    }

    pub closed spec fn info(&self) -> InfoRepo {
        self.info_repo
    }

    pub fn new(
        metadata_chain: MetaChain,
        data_repo: DataRepo,
        checkpoint_repo: CheckpointRepo,
        info_repo: InfoRepo,
    ) -> (r: Self)
        ensures
            r.chain() == metadata_chain,
            r.data() == data_repo,
            r.checkpoints() == checkpoint_repo,
            r.info() == info_repo,
    {
        DatasetImpl { metadata_chain, data_repo, checkpoint_repo, info_repo }
    }

    pub fn as_metadata_chain(&self) -> (r: &MetaChain)
        ensures
            *r == self.chain(),
    {
        &self.metadata_chain
    }

    pub fn as_data_repo(&self) -> (r: &DataRepo)
        ensures
            *r == self.data(),
    {
        &self.data_repo
    }

    pub fn as_checkpoint_repo(&self) -> (r: &CheckpointRepo)
        ensures
            *r == self.checkpoints(),
    {
        &self.checkpoint_repo
    }

    pub fn as_info_repo(&self) -> (r: &InfoRepo)
        ensures
            *r == self.info(),
    {
        &self.info_repo
    }
}

/// The name under which the summary is kept.
pub fn summary_object_name() -> (r: &'static str)
    ensures
        r@ == summary_name(),
{
    "summary"
}

/// The bytes of the stored summary. That there are none yet is no error.
pub fn stored_summary(data: Result<Vec<u8>, NamedObjectError>) -> (r: Result<
    Option<Vec<u8>>,
    GetSummaryError,
>)
    ensures
        match data {
            Ok(bytes) => r == Ok::<Option<Vec<u8>>, GetSummaryError>(Some(bytes)),
            Err(NamedObjectError::NotFound) => r == Ok::<Option<Vec<u8>>, GetSummaryError>(None),
            Err(NamedObjectError::Access(text)) => r == Err::<Option<Vec<u8>>, GetSummaryError>(
                GetSummaryError::Access(text),
            ),
            Err(NamedObjectError::Internal(text)) => r == Err::<Option<Vec<u8>>, GetSummaryError>(
                GetSummaryError::Internal(InternalError::Message(text)),
            ),
        },
{
    match data {
        Ok(bytes) => Ok(Some(bytes)),
        Err(NamedObjectError::NotFound) => Ok(None),
        Err(NamedObjectError::Access(text)) => Err(GetSummaryError::Access(text)),
        Err(NamedObjectError::Internal(text)) => {
            Err(GetSummaryError::Internal(InternalError::Message(text)))
        },
    }
}

/// Unwraps a stored summary, if the file is one.
pub fn read_summary(manifest: SummaryManifest) -> (r: Result<DatasetSummary, GetSummaryError>)
    ensures
        match r {
            Ok(summary) => summary_in(manifest) == Some(summary),
            Err(GetSummaryError::Internal(InternalError::InvalidObjectKind(e))) => {
                &&& summary_in(manifest) is None
                &&& e.expected@ == summary_kind()
                &&& e.actual == manifest.kind
            },
            Err(_) => false,
        },
{
    let expected = "DatasetSummary".to_owned();
    if !(manifest.kind == expected) {
        return Err(
            GetSummaryError::Internal(
                InternalError::InvalidObjectKind(
                    InvalidObjectKind { expected, actual: manifest.kind },
                ),
            ),
        );
    }
    Ok(manifest.content)
}

/// Wraps a summary for storage.
pub fn write_summary(summary: DatasetSummary) -> (r: SummaryManifest)
    ensures
        stores(r, summary),
{
    SummaryManifest { kind: "DatasetSummary".to_owned(), version: 1, content: summary }
}

/// The block hash that a summary is up to.
pub open spec fn summarized_up_to(prev: Option<DatasetSummary>) -> Option<Multihash> {
    match prev {
        Some(summary) => Some(summary.last_block_hash),
        None => None,
    }
}

/// The interval is the part of the chain to read to bring a summary up to date.
pub open spec fn scan_of(
    prev: Option<DatasetSummary>,
    head: Option<Multihash>,
    interval: Option<ChainInterval>,
) -> bool {
    match (head, summarized_up_to(prev)) {
        (None, _) => interval is None,
        (Some(head), Some(seen)) => if seen@ == head@ {
            interval is None
        } else {
            interval == Some(ChainInterval { head, tail: Some(seen) })
        },
        (Some(head), None) => interval == Some(ChainInterval { head, tail: None }),
    }
}

/// The part of the chain to read to bring a summary up to date: none if the chain
/// is empty or the summary covers its head already.
pub fn summary_scan(prev: &Option<DatasetSummary>, current_head: Option<Multihash>) -> (r: Option<
    ChainInterval,
>)
    ensures
        scan_of(*prev, current_head, r),
{
    match current_head {
        None => None,
        Some(head) => match prev {
            Some(summary) => {
                if summary.last_block_hash.text == head.text {
                    None
                } else {
                    Some(ChainInterval { head, tail: Some(summary.last_block_hash.clone()) })
                }
            },
            None => Some(ChainInterval { head, tail: None }),
        },
    }
}

/// The summary that the blocks read lead to.
pub open spec fn updated_summary(
    prev: Option<DatasetSummary>,
    head: Multihash,
    blocks: Seq<MetadataBlock>,
) -> crate::dataset::summary::SummaryView {
    let increment = crate::dataset::summary::increment_of(head, blocks);
    if increment.seen_id is Some {
        crate::dataset::summary::whole_summary(increment)
    } else {
        crate::dataset::summary::extended_summary(increment, prev->0@)
    }
}

/// The summary can be brought up to date with the blocks: they reach back to the
/// beginning of the chain or to a summary, and the totals fit.
pub open spec fn can_update(
    prev: Option<DatasetSummary>,
    head: Multihash,
    blocks: Seq<MetadataBlock>,
) -> bool {
    let increment = crate::dataset::summary::increment_of(head, blocks);
    &&& crate::dataset::summary::summable(blocks)
    &&& increment.seen_id is None ==> {
        &&& prev is Some
        &&& prev->0@.num_records + increment.seen_num_records <= u64::MAX
        &&& prev->0@.data_size + increment.seen_data_size <= u64::MAX
        &&& prev->0@.checkpoints_size + increment.seen_checkpoints_size <= u64::MAX
    }
}

/// Whether the summary can be brought up to date with the blocks.
pub fn is_updatable(
    prev: &Option<DatasetSummary>,
    current_head: &Multihash,
    blocks: &Vec<MetadataBlock>,
) -> (r: bool)
    ensures
        r == can_update(*prev, *current_head, blocks@),
{
    if reaches_beginning(blocks) {
        is_summable(blocks, (0, 0, 0))
    } else {
        match prev {
            Some(s) => is_summable(blocks, (s.num_records, s.data_size, s.checkpoints_size)),
            None => false,
        }
    }
}

/// Brings a summary up to date with the blocks of [`summary_scan`], newest first.
pub fn update_summary(
    prev: Option<DatasetSummary>,
    current_head: &Multihash,
    blocks: &Vec<MetadataBlock>,
) -> (r: DatasetSummary)
    requires
        can_update(prev, *current_head, blocks@),
    ensures
        r@ == updated_summary(prev, *current_head, blocks@),
{
    let increment = compute_summary_increment(current_head, blocks);
    if increment.seen_chain_beginning() {
        // Increment includes the entire chain (most likely due to a history reset)
        proof {
            crate::dataset::summary::lemma_seed_has_kind(blocks@);
        }
        increment.into_summary()
    } else {
        // Increment applies to interval [head, prev.last_block_hash)
        increment.apply_to_summary(prev.unwrap())
    }
}

/// What a reader of the summary gets: a dataset without blocks has none.
pub fn get_summary(summary: Option<DatasetSummary>) -> (r: Result<DatasetSummary, GetSummaryError>)
    ensures
        match summary {
            Some(s) => r == Ok::<DatasetSummary, GetSummaryError>(s),
            None => r == Err::<DatasetSummary, GetSummaryError>(GetSummaryError::EmptyDataset),
        },
{
    match summary {
        Some(s) => Ok(s),
        None => Err(GetSummaryError::EmptyDataset),
    }
}

/// A summary that was stored is the one that is read back.
pub proof fn law_stored_summary_is_read_back(manifest: SummaryManifest, summary: DatasetSummary)
    requires
        stores(manifest, summary),
    ensures
        summary_in(manifest) == Some(summary),
{
}

/// However often the summary is brought up to date while the chain grows, it is
/// the summary that reading the whole chain once would give.
pub proof fn law_updates_add_up(
    prev: DatasetSummary,
    newer: Seq<MetadataBlock>,
    older: Seq<MetadataBlock>,
    new_head: Multihash,
    old_head: Multihash,
)
    requires
        prev@ == updated_summary(None, old_head, older),
        crate::dataset::summary::increment_of(old_head, older).seen_id is Some,
        crate::dataset::summary::increment_of(new_head, newer).seen_id is None,
    ensures
        updated_summary(Some(prev), new_head, newer) == updated_summary(
            None,
            new_head,
            newer + older,
        ),
{
    crate::dataset::summary::law_incremental_summary_is_exact(newer, older, new_head, old_head);
    crate::metadata::lemma_newest_concat(
        newer,
        older,
        |b: MetadataBlock| crate::dataset::summary::seed_id(b),
    );
}

/// Nothing is read of a chain whose head the summary covers, or that has no block. Else
/// the chain is read from its head back to where the summary ends, or to its beginning if
/// there is no summary.
pub proof fn law_what_a_summary_reads(
    prev: Option<DatasetSummary>,
    head: Option<Multihash>,
    interval: Option<ChainInterval>,
)
    requires
        scan_of(prev, head, interval),
    ensures
        head is None ==> interval is None,
        head is Some && prev is Some ==> (interval is None <==> head->0@
            == prev->0.last_block_hash@),
        head is Some && prev is None ==> interval is Some,
        interval matches Some(i) ==> {
            &&& head == Some(i.head)
            &&& prev matches Some(s) ==> i.tail == Some(s.last_block_hash)
            &&& prev is None ==> i.tail is None
        },
{
}

/// Blocks that reach back to the seed make a summary on their own, and the one before does
/// not matter; other blocks extend it.
pub proof fn law_summary_starts_over_at_a_seed(
    prev: Option<DatasetSummary>,
    other: Option<DatasetSummary>,
    head: Multihash,
    blocks: Seq<MetadataBlock>,
    i: int,
)
    requires
        0 <= i < blocks.len(),
        blocks[i].event is Seed,
    ensures
        updated_summary(prev, head, blocks) == updated_summary(other, head, blocks),
        updated_summary(prev, head, blocks) == crate::dataset::summary::whole_summary(
            crate::dataset::summary::increment_of(head, blocks),
        ),
{
    crate::dataset::summary::law_only_a_seed_begins_a_chain(head, blocks);
}

/// Blocks without a seed extend the summary that there is.
pub proof fn law_summary_is_extended(
    prev: DatasetSummary,
    head: Multihash,
    blocks: Seq<MetadataBlock>,
)
    requires
        forall|i: int| 0 <= i < blocks.len() ==> !((#[trigger] blocks[i]).event is Seed),
    ensures
        updated_summary(Some(prev), head, blocks) == crate::dataset::summary::extended_summary(
            crate::dataset::summary::increment_of(head, blocks),
            prev@,
        ),
{
    crate::dataset::summary::law_only_a_seed_begins_a_chain(head, blocks);
}

/// A file is a stored summary exactly where it says so; what it holds is read as it is,
/// whichever layout it says that it has.
pub proof fn law_what_a_stored_file_holds(manifest: SummaryManifest)
    ensures
        summary_in(manifest) is Some <==> manifest.kind@ == "DatasetSummary"@,
        summary_in(manifest) matches Some(summary) ==> summary == manifest.content,
{
}

/// A summary can be brought up to date wherever the blocks reach back to a seed or there is a
/// summary to extend, and the totals can be held.
pub proof fn law_what_can_be_summarized(
    prev: Option<DatasetSummary>,
    head: Multihash,
    blocks: Seq<MetadataBlock>,
)
    requires
        crate::dataset::summary::summable(blocks),
    ensures
        (exists|i: int| 0 <= i < blocks.len() && (#[trigger] blocks[i]).event is Seed)
            ==> can_update(prev, head, blocks),
        (forall|i: int| 0 <= i < blocks.len() ==> !((#[trigger] blocks[i]).event is Seed)) ==> {
            &&& prev is None ==> !can_update(prev, head, blocks)
            &&& prev matches Some(s) ==> (can_update(prev, head, blocks) <==> s.num_records
                + crate::dataset::summary::records_in(blocks) <= u64::MAX && s.data_size
                + crate::dataset::summary::data_size_of(blocks) <= u64::MAX && s.checkpoints_size
                + crate::dataset::summary::checkpoints_size_of(blocks) <= u64::MAX)
        },
{
    crate::dataset::summary::law_only_a_seed_begins_a_chain(head, blocks);
}

} // verus!
