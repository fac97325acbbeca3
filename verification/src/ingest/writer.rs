//! The writer: what it has written up to now, and what it writes next.

use vstd::prelude::*;
use vstd::string::StringExecFns;

use crate::dataset::commit::CommitOpts;
use crate::error::InternalError;
use crate::ids::Multihash;
use crate::ingest::builder::DataWriterDataFusionBuilder;
use crate::ingest::schema::DatasetVocabulary;
use crate::metadata::{
    AddData, BlockRef, MergeStrategySnapshotConf, OffsetInterval, SourceState,
};
use crate::time::DateTime;

verus! {

/// How new records join those of before, with all that it takes.
#[derive(Debug, PartialEq, Eq)]
pub enum MergeStrategy {
    Append,
    /// Records with a new key are added
    Ledger(Vec<String>),
    /// Changes against the last state are added; the column tells which of two
    /// records is later
    Snapshot(String, MergeStrategySnapshotConf),
}

/// Writes to a dataset `D` through a session `C`.
#[derive(Debug)]
pub struct DataWriterDataFusion<D, C> {
    dataset: D,
    merge_strategy: MergeStrategy,
    vocab: DatasetVocabulary,
    block_ref: BlockRef,
    ctx: C,
    // Mutable
    head: Multihash,
    prev_data_slices: Vec<Multihash>,
    next_offset: i64,
    prev_checkpoint: Option<Multihash>,
    prev_watermark: Option<DateTime>,
}

/// What a writer knows of the chain that it appends to.
#[verifier::ext_equal]
pub struct WriterView {
    pub head: Multihash,
    pub prev_data_slices: Seq<Multihash>,
    pub next_offset: int,
    pub prev_checkpoint: Option<Multihash>,
    pub prev_watermark: Option<DateTime>,
}

/// The latest event time, as it is stored.
#[derive(Debug, PartialEq, Eq)]
pub enum EventTimeValue {
    TimestampMillis(i64),
    /// Milliseconds
    Date64(i64),
    /// Days
    Date32(i32),
    /// Something else, by the description of its column
    Other(String),
}

/// What was found in the records written.
#[derive(Debug, PartialEq, Eq)]
pub struct DataStats {
    pub offset_min: i64,
    pub offset_max: i64,
    pub event_time_max: EventTimeValue,
}

#[derive(Debug, PartialEq, Eq)]
pub struct AddDataParams {
    pub input_checkpoint: Option<Multihash>,
    pub output_data: Option<OffsetInterval>,
    pub output_watermark: Option<DateTime>,
    pub source_state: Option<SourceState>,
}

pub const SECS_PER_DAY: i64 = 86_400;

/// An event time in nanoseconds since the epoch.
pub open spec fn event_instant(value: EventTimeValue) -> Option<int> {
    match value {
        EventTimeValue::TimestampMillis(ms) | EventTimeValue::Date64(ms) => Some(
            ms * crate::time::NANOS_PER_MILLI,
        ),
        EventTimeValue::Date32(days) => Some(days * SECS_PER_DAY * crate::time::NANOS_PER_SEC),
        EventTimeValue::Other(_) => None,
    }
}

/// The watermark after an event at the given moment: it never falls.
pub open spec fn raised(prev: Option<DateTime>, event_time: DateTime) -> DateTime {
    match prev {
        Some(w) => crate::time::latest(w, event_time),
        None => event_time,
    }
}

/// The complaint about an event time of a type that is not expected.
pub open spec fn unexpected_event_time(field: Seq<char>) -> Seq<char> {
    "Expected event time column to be Date64 or Timestamp(Millisecond, UTC), but got "@ + field
}

/// There are rows, and their event time is of a type that is not expected.
pub open spec fn unexpected(stats: Option<DataStats>) -> bool {
    stats matches Some(s) && event_instant(s.event_time_max) is None
}

/// What to commit for the records written: no data if there are no rows, and a
/// watermark that never falls.
pub open spec fn write_params(
    stats: Option<DataStats>,
    prev_watermark: Option<DateTime>,
    input_checkpoint: Option<Multihash>,
    source_state: Option<SourceState>,
) -> AddDataParams {
    match stats {
        None => AddDataParams {
            input_checkpoint,
            output_data: None,
            output_watermark: prev_watermark,
            source_state,
        },
        Some(s) => AddDataParams {
            input_checkpoint,
            output_data: Some(OffsetInterval { start: s.offset_min, end: s.offset_max }),
            output_watermark: Some(
                raised(prev_watermark, DateTime::at(event_instant(s.event_time_max)->0)),
            ),
            source_state,
        },
    }
}

/// The options under which a writer commits: right after the head that it knows, at
/// the time of the write.
pub open spec fn write_opts(label: BlockRef, head: Multihash, system_time: DateTime) -> CommitOpts {
    CommitOpts {
        block_ref: label,
        system_time: Some(system_time),
        prev_block_hash: Some(Some(head)),
        check_object_refs: false,
    }
}

/// The slices are those of all previous data, in the order to read them: the other
/// way round. There are none if there is no data.
pub open spec fn reads_previous(slices: Option<Vec<Multihash>>, previous: Seq<Multihash>) -> bool {
    match slices {
        Some(slices) => previous.len() > 0 && slices@ == previous.reverse(),
        None => previous.len() == 0,
    }
}

/// The hash of the checkpoint that an event leaves behind.
pub open spec fn checkpoint_hash(event: AddData) -> Option<Multihash> {
    match event.output_checkpoint {
        Some(c) => Some(c.physical_hash),
        None => None,
    }
}

/// What a writer knows once an event of its own is the new head.
pub open spec fn after_commit(w: WriterView, new_head: Multihash, event: AddData) -> WriterView {
    WriterView {
        head: new_head,
        prev_data_slices: match event.output_data {
            Some(slice) => w.prev_data_slices.push(slice.physical_hash),
            None => w.prev_data_slices,
        },
        next_offset: match event.output_data {
            Some(slice) => slice.interval.end + 1,
            None => w.next_offset,
        },
        prev_checkpoint: checkpoint_hash(event),
        prev_watermark: event.output_watermark,
    }
}

impl<D, C> View for DataWriterDataFusion<D, C> {
    type V = WriterView;

    closed spec fn view(&self) -> WriterView {
        WriterView {
            head: self.head,
            prev_data_slices: self.prev_data_slices@,
            next_offset: self.next_offset as int,
            prev_checkpoint: self.prev_checkpoint,
            prev_watermark: self.prev_watermark,
        }
    }
}

impl<D, C> DataWriterDataFusion<D, C> {
    pub closed spec fn dataset_value(&self) -> D {
        self.dataset
    }

    pub closed spec fn ctx_value(&self) -> C {
        self.ctx
    }

    pub closed spec fn merge(&self) -> MergeStrategy {
        self.merge_strategy
    }

    pub closed spec fn vocabulary(&self) -> DatasetVocabulary {
        self.vocab
    }

    pub closed spec fn label(&self) -> BlockRef {
        self.block_ref
    }

    pub fn builder(dataset: D, ctx: C) -> (r: DataWriterDataFusionBuilder<D, C>)
        ensures
            r.dataset_value() == dataset,
            r.ctx_value() == ctx,
            r.label() == BlockRef::Head,
            r.merge() is None,
    {
        DataWriterDataFusionBuilder::new(dataset, ctx)
    }

    /// Use [`Self::builder`] to create an instance
    pub(crate) fn new(
        dataset: D,
        merge_strategy: MergeStrategy,
        vocab: DatasetVocabulary,
        block_ref: BlockRef,
        ctx: C,
        head: Multihash,
        prev_data_slices: Vec<Multihash>,
        next_offset: i64,
        prev_checkpoint: Option<Multihash>,
        prev_watermark: Option<DateTime>,
    ) -> (r: Self)
        ensures
            r.dataset_value() == dataset,
            r.merge() == merge_strategy,
            r.vocabulary() == vocab,
            r.label() == block_ref,
            r.ctx_value() == ctx,
            r@ == (WriterView {
                head,
                prev_data_slices: prev_data_slices@,
                next_offset: next_offset as int,
                prev_checkpoint,
                prev_watermark,
            }),
    {
        DataWriterDataFusion {
            dataset,
            merge_strategy,
            vocab,
            block_ref,
            ctx,
            head,
            prev_data_slices,
            next_offset,
            prev_checkpoint,
            prev_watermark,
        }
    }

    pub fn dataset(&self) -> (r: &D)
        ensures
            *r == self.dataset_value(),
    {
        &self.dataset
    }

    pub fn ctx(&self) -> (r: &C)
        ensures
            *r == self.ctx_value(),
    {
        &self.ctx
    }

    pub fn merge_strategy(&self) -> (r: &MergeStrategy)
        ensures
            *r == self.merge(),
    {
        &self.merge_strategy
    }

    pub fn vocab(&self) -> (r: &DatasetVocabulary)
        ensures
            *r == self.vocabulary(),
    {
        &self.vocab
    }

    pub fn head(&self) -> (r: &Multihash)
        ensures
            *r == self@.head,
    {
        &self.head
    }

    pub fn next_offset(&self) -> (r: i64)
        ensures
            r == self@.next_offset,
    {
        self.next_offset
    }

    pub fn prev_checkpoint(&self) -> (r: Option<Multihash>)
        ensures
            r == self@.prev_checkpoint,
    {
        self.prev_checkpoint.clone()
    }

    pub fn prev_watermark(&self) -> (r: Option<DateTime>)
        ensures
            r == self@.prev_watermark,
    {
        self.prev_watermark
    }

    /// The slices that hold all previous data, in the order to read them, if there
    /// is any.
    pub fn get_all_previous_data(&self) -> (r: Option<Vec<Multihash>>)
        ensures
            reads_previous(r, self@.prev_data_slices),
    {
        if self.prev_data_slices.len() == 0 {
            return None;
        }
        let n: usize = self.prev_data_slices.len();
        let mut slices: Vec<Multihash> = Vec::new();
        for i in 0..n
            invariant
                n == self.prev_data_slices@.len(),
                slices@.len() == i,
                forall|j: int|
                    0 <= j < i ==> (#[trigger] slices@[j]) == self.prev_data_slices@[n - 1 - j],
        {
            slices.push(self.prev_data_slices[n - 1 - i].clone());
        }
        proof {
            assert(slices@ =~= self@.prev_data_slices.reverse());
        }
        Some(slices)
    }

    /// The options under which the writer commits: right after the head that it
    /// knows, at the time of the write.
    pub fn commit_opts(&self, system_time: DateTime) -> (r: CommitOpts)
        ensures
            r == write_opts(self.label(), self@.head, system_time),
    {
        CommitOpts {
            block_ref: self.block_ref,
            system_time: Some(system_time),
            prev_block_hash: Some(Some(self.head.clone())),
            check_object_refs: false,
        }
    }

    /// Updates state for next append, once an event has been committed.
    pub fn on_committed(&mut self, new_head: Multihash, event: &AddData)
        requires
            event.output_data matches Some(slice) ==> slice.interval.end < i64::MAX,
        ensures
            final(self)@ == after_commit(old(self)@, new_head, *event),
            final(self).dataset_value() == old(self).dataset_value(),
            final(self).ctx_value() == old(self).ctx_value(),
            final(self).merge() == old(self).merge(),
            final(self).vocabulary() == old(self).vocabulary(),
            final(self).label() == old(self).label(),
    {
        self.head = new_head;
        if let Some(output_data) = &event.output_data {
            self.next_offset = output_data.interval.end + 1;
            self.prev_data_slices.push(output_data.physical_hash.clone());
        }
        self.prev_checkpoint = match &event.output_checkpoint {
            Some(c) => Some(c.physical_hash.clone()),
            None => None,
        };
        self.prev_watermark = event.output_watermark;
    }
}

/// Whether an event time, where it is one, is on the calendar.
pub fn is_on_calendar(value: &EventTimeValue) -> (r: bool)
    ensures
        r == (event_instant(*value) matches Some(t) ==> crate::time::in_range(t)),
{
    match value {
        EventTimeValue::TimestampMillis(millis) => {
            DateTime::timestamp_millis_opt(*millis).is_some()
        },
        EventTimeValue::Date64(millis) => DateTime::timestamp_millis_opt(*millis).is_some(),
        EventTimeValue::Date32(days) => {
            let secs: i64 = *days as i64 * SECS_PER_DAY;
            DateTime::from_timestamp(secs, 0).is_some()
        },
        EventTimeValue::Other(_) => true,
    }
}

/// The moment of an event, where its type is one of time.
fn event_time(value: &EventTimeValue) -> (r: Option<DateTime>)
    requires
        event_instant(*value) matches Some(t) ==> crate::time::in_range(t),
    ensures
        r == (match event_instant(*value) {
            Some(t) => Some(DateTime::at(t)),
            None => None,
        }),
{
    match value {
        EventTimeValue::TimestampMillis(millis) => DateTime::timestamp_millis_opt(*millis),
        EventTimeValue::Date64(millis) => DateTime::timestamp_millis_opt(*millis),
        EventTimeValue::Date32(days) => {
            let secs: i64 = *days as i64 * SECS_PER_DAY;
            DateTime::from_timestamp(secs, 0)
        },
        EventTimeValue::Other(_) => None,
    }
}

/// What to commit for the records written, `None` if there are none. Ensures
/// that the watermark is monotonically non-decreasing.
pub fn compute_offset_and_watermark(
    stats: Option<DataStats>,
    prev_watermark: Option<DateTime>,
    input_checkpoint: Option<Multihash>,
    source_state: Option<SourceState>,
) -> (r: Result<AddDataParams, InternalError>)
    requires
        stats matches Some(s) ==> (event_instant(s.event_time_max) matches Some(t)
            ==> crate::time::in_range(t)),
    ensures
        match r {
            Ok(params) => !unexpected(stats) && params == write_params(
                stats,
                prev_watermark,
                input_checkpoint,
                source_state,
            ),
            Err(e) => unexpected(stats) && e.says(
                unexpected_event_time(stats->0.event_time_max->Other_0@),
            ),
        },
{
    match stats {
        None => Ok(
            AddDataParams {
                input_checkpoint,
                output_data: None,
                output_watermark: prev_watermark,
                source_state,
            },
        ),
        Some(stats) => {
            let event_time_max = match event_time(&stats.event_time_max) {
                Some(time) => time,
                None => {
                    let mut text =
                        "Expected event time column to be Date64 or Timestamp(Millisecond, UTC), but got ".to_owned();
                    if let EventTimeValue::Other(field) = &stats.event_time_max {
                        text = text.concat(field.as_str());
                    }
                    return Err(InternalError::Message(text));
                },
            };

            // Ensure watermark is monotonically non-decreasing
            let output_watermark = match prev_watermark {
                None => event_time_max,
                Some(prev) => prev.later_of(event_time_max),
            };
            Ok(
                AddDataParams {
                    input_checkpoint,
                    output_data: Some(
                        OffsetInterval { start: stats.offset_min, end: stats.offset_max },
                    ),
                    output_watermark: Some(output_watermark),
                    source_state,
                },
            )
        },
    }
}

/// From write to write the watermark never falls, nor is it lost; after a write
/// with rows it is no earlier than the latest event among them.
pub proof fn law_watermark_never_falls(
    w: WriterView,
    new_head: Multihash,
    event: AddData,
    stats: Option<DataStats>,
)
    requires
        event.output_watermark == write_params(
            stats,
            w.prev_watermark,
            w.prev_checkpoint,
            event.source_state,
        ).output_watermark,
    ensures
        ({
            let after = after_commit(w, new_head, event).prev_watermark;
            &&& w.prev_watermark matches Some(before) ==> after is Some && before.rank()
                <= after->0.rank()
            &&& stats matches Some(s) ==> after is Some && DateTime::at(
                event_instant(s.event_time_max)->0,
            ).rank() <= after->0.rank()
        }),
{
}

/// Offsets continue without a gap: rows get the numbers from `next_offset` on, so
/// the next write starts right after the last row of this one.
pub proof fn law_offsets_continue(w: WriterView, new_head: Multihash, event: AddData, rows: int)
    requires
        rows > 0,
        event.output_data matches Some(slice) && slice.interval.start == w.next_offset
            && slice.interval.end == w.next_offset + rows - 1,
    ensures
        after_commit(w, new_head, event).next_offset == w.next_offset + rows,
{
}

/// A write without rows leaves offsets and slices as they were.
pub proof fn law_empty_write_keeps_data(w: WriterView, new_head: Multihash, event: AddData)
    requires
        event.output_data is None,
    ensures
        after_commit(w, new_head, event).next_offset == w.next_offset,
        after_commit(w, new_head, event).prev_data_slices == w.prev_data_slices,
{
}

/// What is committed for what was written. With rows it is the interval of their offsets,
/// and a watermark: the time of the latest event among them, or the one before if that is
/// later. Without rows there is no interval, and the watermark stays. The checkpoint before
/// and the state of the source go along.
pub proof fn law_what_is_committed(
    stats: DataStats,
    prev_watermark: Option<DateTime>,
    checkpoint: Option<Multihash>,
    source_state: Option<SourceState>,
)
    requires
        !(stats.event_time_max is Other),
    ensures
        ({
            let empty = write_params(None, prev_watermark, checkpoint, source_state);
            let rows = write_params(Some(stats), prev_watermark, checkpoint, source_state);
            let latest = match stats.event_time_max {
                EventTimeValue::TimestampMillis(ms) => DateTime::at(ms * 1_000_000),
                EventTimeValue::Date64(ms) => DateTime::at(ms * 1_000_000),
                EventTimeValue::Date32(days) => DateTime::at(days * 86_400 * 1_000_000_000),
                EventTimeValue::Other(_) => DateTime::at(0),
            };
            &&& empty.input_checkpoint == checkpoint && rows.input_checkpoint == checkpoint
            &&& empty.source_state == source_state && rows.source_state == source_state
            &&& empty.output_data is None
            &&& empty.output_watermark == prev_watermark
            &&& rows.output_data matches Some(interval) && interval.start == stats.offset_min
                && interval.end == stats.offset_max
            &&& match prev_watermark {
                None => rows.output_watermark == Some(latest),
                Some(before) => if before.rank() < latest.rank() {
                    rows.output_watermark == Some(latest)
                } else {
                    rows.output_watermark matches Some(w) && w.rank() == before.rank()
                },
            }
        }),
{
}

/// An event time is refused exactly where there are rows and it is neither a date nor a
/// point in time.
pub proof fn law_unexpected_event_times(stats: DataStats)
    ensures
        !unexpected(None),
        unexpected(Some(stats)) <==> stats.event_time_max is Other,
{
}

/// What a writer goes on from after a commit: the new head, the checkpoint and the watermark
/// of the event, even where it has none, and with data the offset after the last and one
/// more slice. Without data offset and slices stay.
pub proof fn law_writer_goes_on_from_its_commit(w: WriterView, new_head: Multihash, event: AddData)
    ensures
        ({
            let after = after_commit(w, new_head, event);
            &&& after.head == new_head
            &&& after.prev_watermark == event.output_watermark
            &&& match event.output_checkpoint {
                Some(checkpoint) => after.prev_checkpoint == Some(checkpoint.physical_hash),
                None => after.prev_checkpoint is None,
            }
            &&& match event.output_data {
                Some(slice) => {
                    &&& after.next_offset == slice.interval.end + 1
                    &&& after.prev_data_slices.len() == w.prev_data_slices.len() + 1
                    &&& after.prev_data_slices.last() == slice.physical_hash
                    &&& after.prev_data_slices.drop_last() == w.prev_data_slices
                },
                None => after.next_offset == w.next_offset && after.prev_data_slices
                    == w.prev_data_slices,
            }
        }),
{
    if let Some(slice) = event.output_data {
        assert(after_commit(w, new_head, event).prev_data_slices.drop_last()
            =~= w.prev_data_slices);
    }
}

/// A writer appends to the head that it knows, so that a commit in between makes it fail, at
/// the time of the write, under its label.
pub proof fn law_writer_appends_to_its_head(label: BlockRef, head: Multihash, time: DateTime)
    ensures
        write_opts(label, head, time).prev_block_hash == Some(Some(head)),
        write_opts(label, head, time).system_time == Some(time),
        write_opts(label, head, time).block_ref == label,
        !write_opts(label, head, time).check_object_refs,
{
}

/// All previous slices are read, each once, the other way round; none are read if there are
/// none.
pub proof fn law_all_previous_data_is_read(
    slices: Option<Vec<Multihash>>,
    previous: Seq<Multihash>,
    i: int,
)
    requires
        reads_previous(slices, previous),
        0 <= i < previous.len(),
    ensures
        slices matches Some(read) && read@.len() == previous.len() && read@[i] == previous[
        previous.len() - 1 - i],
{
}

} // verus!
