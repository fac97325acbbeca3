//! A write, step by step: what happens to new data until it is committed.

use vstd::prelude::*;

use crate::dataset::commit::CommitOpts;
use crate::error::InternalError;
use crate::ids::Multihash;
use crate::ingest::schema::{
    normalize_raw_result, validate_input, with_system_columns, ColumnStep, Field,
    SystemColumnsPlan, VocabularyView,
};
use crate::ingest::writer::{
    compute_offset_and_watermark, AddDataParams, DataStats, DataWriterDataFusion, WriterView,
};
use crate::metadata::{BlockRef, MetadataBlock, MetadataEvent, SourceState};
use crate::time::DateTime;

verus! {

/// How far a write has come.
#[derive(Debug, Clone, Copy, PartialEq, Eq, Structural)]
pub enum WritePhase {
    /// New data is awaited
    Started,
    /// The data is being normalized and merged
    Merging,
    /// The data is being written to a file
    Writing,
    /// The file is being committed
    Committing,
    /// Nothing more is to be done
    Over,
}

/// A write under way.
#[derive(Debug, PartialEq, Eq)]
pub struct WriteSession {
    pub system_time: DateTime,
    /// The event time of records that have none
    pub source_event_time: DateTime,
    pub source_state: Option<SourceState>,
    pub phase: WritePhase,
}

/// What has happened.
#[derive(Debug, PartialEq, Eq)]
pub enum WriteEvent {
    /// There is new data with these columns
    Input(Vec<Field>),
    /// The data was merged and has these columns now
    Merged(Vec<Field>),
    /// A file was written with these records, `None` if there are none
    Written(Option<DataStats>),
    /// The new head is this block
    Committed(Multihash, MetadataBlock),
}

/// What to do next.
#[derive(Debug, PartialEq, Eq)]
pub enum WriteAction {
    /// Fail
    Refuse(InternalError),
    /// Carry the columns over by the steps, and merge with what was written before
    Merge(Option<Vec<ColumnStep>>, Option<Vec<Multihash>>),
    /// Add the system columns, and write the data to a file
    WriteFile(SystemColumnsPlan),
    /// Commit the file
    Commit(AddDataParams, CommitOpts),
    /// Report the new head and its block
    Done(Multihash, MetadataBlock),
}

/// The phase in which an event can happen.
pub open spec fn phase_of(event: WriteEvent) -> WritePhase {
    match event {
        WriteEvent::Input(_) => WritePhase::Started,
        WriteEvent::Merged(_) => WritePhase::Merging,
        WriteEvent::Written(_) => WritePhase::Writing,
        WriteEvent::Committed(_, _) => WritePhase::Committing,
    }
}

/// The event fits the phase, and its numbers are within bounds.
pub open spec fn acceptable(w: WriterView, session: WriteSession, event: WriteEvent) -> bool {
    &&& session.phase == phase_of(event)
    &&& match event {
        WriteEvent::Input(_) => true,
        WriteEvent::Merged(_) => w.next_offset > i64::MIN,
        WriteEvent::Written(stats) => stats matches Some(s) ==> (
        crate::ingest::writer::event_instant(s.event_time_max) matches Some(t)
            ==> crate::time::in_range(t)),
        WriteEvent::Committed(_, block) => block.event matches MetadataEvent::AddData(added) && (
        added.output_data matches Some(slice) ==> slice.interval.end < i64::MAX),
    }
}

/// The event stops the write, with a complaint.
pub open spec fn fault(vocab: VocabularyView, event: WriteEvent) -> Option<Seq<char>> {
    match event {
        WriteEvent::Input(fields) => crate::ingest::schema::input_fault(fields@, vocab),
        WriteEvent::Written(stats) => if crate::ingest::writer::unexpected(stats) {
            Some(
                crate::ingest::writer::unexpected_event_time(stats->0.event_time_max->Other_0@),
            )
        } else {
            None
        },
        _ => None,
    }
}

/// The action is the right one after an event.
pub open spec fn answers(
    vocab: VocabularyView,
    label: BlockRef,
    w: WriterView,
    session: WriteSession,
    event: WriteEvent,
    action: WriteAction,
) -> bool {
    match fault(vocab, event) {
        Some(text) => action matches WriteAction::Refuse(e) && e.says(text),
        None => match event {
            WriteEvent::Input(fields) => action matches WriteAction::Merge(steps, previous)
                && crate::ingest::schema::normalizes(steps, fields@)
                && crate::ingest::writer::reads_previous(previous, w.prev_data_slices),
            WriteEvent::Merged(fields) => action matches WriteAction::WriteFile(plan)
                && crate::ingest::schema::adds_system_columns(
                plan,
                fields@,
                vocab,
                session.system_time,
                session.source_event_time,
                w.next_offset,
            ),
            WriteEvent::Written(stats) => action == WriteAction::Commit(
                crate::ingest::writer::write_params(
                    stats,
                    w.prev_watermark,
                    w.prev_checkpoint,
                    session.source_state,
                ),
                crate::ingest::writer::write_opts(label, w.head, session.system_time),
            ),
            WriteEvent::Committed(new_head, block) => action == WriteAction::Done(new_head, block),
        },
    }
}

/// How far a write has come after an action.
pub open spec fn phase_after(action: WriteAction) -> WritePhase {
    match action {
        WriteAction::Merge(_, _) => WritePhase::Merging,
        WriteAction::WriteFile(_) => WritePhase::Writing,
        WriteAction::Commit(_, _) => WritePhase::Committing,
        WriteAction::Refuse(_) | WriteAction::Done(_, _) => WritePhase::Over,
    }
}

/// What a writer knows after an event: only a commit changes it.
pub open spec fn writer_after(w: WriterView, event: WriteEvent) -> WriterView {
    match event {
        WriteEvent::Committed(new_head, block) => crate::ingest::writer::after_commit(
            w,
            new_head,
            block.event->AddData_0,
        ),
        _ => w,
    }
}

impl WriteSession {
    pub fn new(
        system_time: DateTime,
        source_event_time: DateTime,
        source_state: Option<SourceState>,
    ) -> (r: Self)
        ensures
            r == (WriteSession {
                system_time,
                source_event_time,
                source_state,
                phase: WritePhase::Started,
            }),
    {
        WriteSession { system_time, source_event_time, source_state, phase: WritePhase::Started }
    }
}

impl<D, C> DataWriterDataFusion<D, C> {
    /// Takes note of what has happened in a write, and says what to do next.
    pub fn write(&mut self, session: &mut WriteSession, event: WriteEvent) -> (r: WriteAction)
        requires
            acceptable(old(self)@, *old(session), event),
        ensures
            answers(
                old(self).vocabulary()@,
                old(self).label(),
                old(self)@,
                *old(session),
                event,
                r,
            ),
            final(self)@ == writer_after(old(self)@, event),
            final(self).dataset_value() == old(self).dataset_value(),
            final(self).ctx_value() == old(self).ctx_value(),
            final(self).merge() == old(self).merge(),
            final(self).vocabulary() == old(self).vocabulary(),
            final(self).label() == old(self).label(),
            *final(session) == (WriteSession { phase: phase_after(r), ..*old(session) }),
    {
        match event {
            WriteEvent::Input(fields) => {
                if let Err(e) = validate_input(&fields, self.vocab()) {
                    session.phase = WritePhase::Over;
                    return WriteAction::Refuse(e);
                }
                session.phase = WritePhase::Merging;
                WriteAction::Merge(normalize_raw_result(&fields), self.get_all_previous_data())
            },
            WriteEvent::Merged(fields) => {
                let plan = with_system_columns(
                    &fields,
                    self.vocab(),
                    &session.system_time,
                    &session.source_event_time,
                    self.next_offset(),
                );
                session.phase = WritePhase::Writing;
                WriteAction::WriteFile(plan)
            },
            WriteEvent::Written(stats) => {
                let source_state = match &session.source_state {
                    Some(state) => Some(state.clone()),
                    None => None,
                };
                match compute_offset_and_watermark(
                    stats,
                    self.prev_watermark(),
                    self.prev_checkpoint(),
                    source_state,
                ) {
                    Ok(params) => {
                        session.phase = WritePhase::Committing;
                        WriteAction::Commit(params, self.commit_opts(session.system_time))
                    },
                    Err(e) => {
                        session.phase = WritePhase::Over;
                        WriteAction::Refuse(e)
                    },
                }
            },
            WriteEvent::Committed(new_head, block) => {
                if let MetadataEvent::AddData(added) = &block.event {
                    self.on_committed(new_head.clone(), added);
                }
                session.phase = WritePhase::Over;
                WriteAction::Done(new_head, block)
            },
        }
    }
}

/// A write as it went: what happened, what was done, and what the writer and the
/// session were before each event and at the end.
pub struct WriteHistory {
    pub events: Seq<WriteEvent>,
    pub actions: Seq<WriteAction>,
    pub writers: Seq<WriterView>,
    pub sessions: Seq<WriteSession>,
}

impl WriteHistory {
    /// One call of [`DataWriterDataFusion::write`] after the other, from the start of
    /// a session.
    pub open spec fn took_place(self, vocab: VocabularyView, label: BlockRef) -> bool {
        &&& self.actions.len() == self.events.len()
        &&& self.writers.len() == self.events.len() + 1
        &&& self.sessions.len() == self.events.len() + 1
        &&& self.sessions[0].phase is Started
        &&& forall|i: int| 0 <= i < self.events.len() ==> #[trigger] self.step(vocab, label, i)
    }

    pub open spec fn step(self, vocab: VocabularyView, label: BlockRef, i: int) -> bool {
        &&& acceptable(self.writers[i], self.sessions[i], self.events[i])
        &&& answers(
            vocab,
            label,
            self.writers[i],
            self.sessions[i],
            self.events[i],
            self.actions[i],
        )
        &&& self.writers[i + 1] == writer_after(self.writers[i], self.events[i])
        &&& self.sessions[i + 1] == (WriteSession {
            phase: phase_after(self.actions[i]),
            ..self.sessions[i]
        })
    }
}

/// A write of data with a column that is named like a system column, or with an event
/// time that is no time, is refused: that is all that happens. No file is written,
/// nothing is committed, and the writer is as it was, so that a later write goes as if
/// the refused one had not been.
pub proof fn law_refused_write_leaves_no_trace(
    refused: WriteHistory,
    later: WriteHistory,
    vocab: VocabularyView,
    label: BlockRef,
)
    requires
        refused.took_place(vocab, label),
        refused.events.len() > 0,
        fault(vocab, refused.events[0]) is Some,
        later.took_place(vocab, label),
        later.writers[0] == refused.writers.last(),
    ensures
        refused.events[0] is Input,
        refused.actions.len() == 1,
        refused.actions[0] matches WriteAction::Refuse(e) && e.says(
            fault(vocab, refused.events[0])->0,
        ),
        refused.sessions.last().phase is Over,
        refused.writers.last() == refused.writers[0],
        later.writers[0] == refused.writers[0],
{
    assert(refused.step(vocab, label, 0));
    if refused.events.len() > 1 {
        assert(refused.step(vocab, label, 1));
    }
}

/// Whatever a write comes to, the writer changes only where an event was committed, and
/// then once, at the end. Up to there the write has gone through all its steps, each
/// once: the data was merged, then written to a file, then committed.
pub proof fn law_only_a_commit_changes_the_writer(
    history: WriteHistory,
    vocab: VocabularyView,
    label: BlockRef,
)
    requires
        history.took_place(vocab, label),
    ensures
        history.events.len() <= 4,
        history.writers.last() == (if history.events.len() == 4 {
            writer_after(history.writers[0], history.events[3])
        } else {
            history.writers[0]
        }),
        history.events.len() == 4 ==> history.actions[0] is Merge && history.actions[1] is WriteFile
            && history.actions[2] is Commit && history.actions[3] is Done
            && history.events[3] is Committed,
        forall|i: int|
            0 <= i < history.actions.len() && (#[trigger] history.actions[i]) is WriteFile ==> i
                == 1 && fault(vocab, history.events[0]) is None,
        forall|i: int|
            0 <= i < history.actions.len() && (#[trigger] history.actions[i]) is Commit ==> i == 2
                && history.actions[1] is WriteFile,
{
    if history.events.len() > 0 {
        assert(history.step(vocab, label, 0));
    }
    if history.events.len() > 1 {
        assert(history.step(vocab, label, 1));
    }
    if history.events.len() > 2 {
        assert(history.step(vocab, label, 2));
    }
    if history.events.len() > 3 {
        assert(history.step(vocab, label, 3));
    }
    if history.events.len() > 4 {
        assert(history.step(vocab, label, 4));
    }
}

/// Each step of a write. New data is refused where its columns are at fault, and else merged:
/// with what was written before. Merged data gets its system columns, from the next offset on,
/// and is written. What was written is refused where its event time is of an unexpected type,
/// and else committed: under the head that the writer knows, at the time of the write. What
/// was committed is reported.
pub proof fn law_steps_of_a_write(
    vocab: VocabularyView,
    label: BlockRef,
    w: WriterView,
    session: WriteSession,
    event: WriteEvent,
    action: WriteAction,
)
    requires
        answers(vocab, label, w, session, event, action),
    ensures
        event matches WriteEvent::Input(fields) ==> {
            &&& crate::ingest::schema::input_fault(fields@, vocab) matches Some(text) ==> (
            action matches WriteAction::Refuse(e) && e.says(text))
            &&& crate::ingest::schema::input_fault(fields@, vocab) is None ==> (
            action matches WriteAction::Merge(steps, previous)
                && crate::ingest::schema::normalizes(steps, fields@) && match previous {
                Some(slices) => slices@.len() > 0 && slices@.len() == w.prev_data_slices.len(),
                None => w.prev_data_slices.len() == 0,
            })
        },
        event matches WriteEvent::Merged(fields) ==> (action matches WriteAction::WriteFile(plan)
            && plan.offset_shift == w.next_offset - 1
            && crate::ingest::schema::adds_system_columns(
            plan,
            fields@,
            vocab,
            session.system_time,
            session.source_event_time,
            w.next_offset,
        )),
        event matches WriteEvent::Written(stats) ==> match stats {
            Some(s) => if s.event_time_max is Other {
                action is Refuse
            } else {
                action matches WriteAction::Commit(params, opts) && params.input_checkpoint
                    == w.prev_checkpoint && params.source_state == session.source_state && (
                params.output_data matches Some(interval) && interval.start == s.offset_min
                    && interval.end == s.offset_max) && params.output_watermark is Some
                    && opts.prev_block_hash == Some(Some(w.head)) && opts.system_time == Some(
                    session.system_time,
                ) && opts.block_ref == label
            },
            None => action matches WriteAction::Commit(params, opts) && params.input_checkpoint
                == w.prev_checkpoint && params.source_state == session.source_state
                && params.output_data is None && params.output_watermark == w.prev_watermark
                && opts.prev_block_hash == Some(Some(w.head)) && opts.system_time == Some(
                session.system_time,
            ) && opts.block_ref == label,
        },
        event matches WriteEvent::Committed(new_head, block) ==> action == WriteAction::Done(
            new_head,
            block,
        ),
        event matches WriteEvent::Committed(new_head, block) ==> writer_after(w, event).head
            == new_head,
        !(event is Committed) ==> writer_after(w, event) == w,
{
}

} // verus!
