//! A commit, step by step: what is asked and done until an event is in the chain.

use vstd::prelude::*;

use crate::dataset::commit::{
    append_opts, commit_result, labelled_block, next_block, next_ref_check, prev_block_hash,
    refs_to_check, AppendError, AppendOpts, CommitError, CommitOpts, CommitResult, GetRefError, ObjectRef,
    RefCheck,
};
use crate::error::InternalError;
use crate::ids::Multihash;
use crate::metadata::{BlockRef, MetadataBlock, MetadataEvent};
use crate::time::DateTime;

verus! {

/// What a commit waits for.
#[derive(Debug, Clone, Copy, PartialEq, Eq, Structural)]
pub enum CommitPhase {
    /// The beginning
    Started,
    /// Whether an object exists
    Checking,
    /// The block that the label is on
    Labelling,
    /// The number of the block to append to
    Numbering,
    /// Whether the chain takes the block
    Appending,
    /// Nothing more
    Over,
}

/// A commit under way.
#[derive(Debug)]
pub struct CommitSession {
    opts: CommitOpts,
    event: Option<MetadataEvent>,
    refs: Vec<ObjectRef>,
    present: Vec<bool>,
    prev: Option<Multihash>,
    phase: CommitPhase,
}

/// A commit under way: the objects to look for and which of them were there, the block
/// to append to once it is known, and the event as long as it is not in a block.
#[verifier::ext_equal]
pub struct CommitView {
    pub opts: CommitOpts,
    pub event: Option<MetadataEvent>,
    pub refs: Seq<ObjectRef>,
    pub present: Seq<bool>,
    pub prev: Option<Multihash>,
    pub phase: CommitPhase,
}

/// What was answered.
#[derive(Debug, PartialEq, Eq)]
pub enum CommitAnswer {
    /// Nothing was asked yet
    Begin,
    /// Whether the object exists
    Contains(Result<bool, InternalError>),
    /// The block that the label is on
    Head(Result<Multihash, GetRefError>),
    /// The number of the block
    SequenceNumber(Result<u64, InternalError>),
    /// The hash of the new block, if the chain has taken it
    Appended(Result<Multihash, AppendError>),
}

/// What to do next.
#[derive(Debug, PartialEq, Eq)]
pub enum CommitAction {
    /// Ask whether the object exists
    Ask(ObjectRef),
    /// Ask for the block that the label is on
    GetRef(BlockRef),
    /// Ask for the number of the block
    GetBlock(Multihash),
    Append(MetadataBlock, AppendOpts),
    /// Report what the commit has come to
    Finish(Result<CommitResult, CommitError>),
}

/// A commit at its beginning.
pub open spec fn started(event: MetadataEvent, opts: CommitOpts) -> CommitView {
    CommitView {
        opts,
        event: Some(event),
        refs: crate::dataset::commit::checked_refs(event, opts.check_object_refs),
        present: Seq::empty(),
        prev: None,
        phase: CommitPhase::Started,
    }
}

impl CommitView {
    /// The parts fit together.
    pub open spec fn wf(self) -> bool {
        &&& self.present.len() <= self.refs.len()
        &&& self.phase is Checking ==> self.present.len() < self.refs.len()
        &&& !(self.phase is Appending || self.phase is Over) ==> self.event is Some
        &&& self.phase is Numbering ==> self.prev is Some
    }

    /// The answer is to what was asked, and the number of the next block can be held.
    pub open spec fn awaits(self, answer: CommitAnswer) -> bool {
        match answer {
            CommitAnswer::Begin => self.phase is Started,
            CommitAnswer::Contains(_) => self.phase is Checking,
            CommitAnswer::Head(_) => self.phase is Labelling,
            CommitAnswer::SequenceNumber(number) => self.phase is Numbering && (
            number matches Ok(n) ==> n < u64::MAX),
            CommitAnswer::Appended(_) => self.phase is Appending,
        }
    }

    /// The commit is over.
    pub open spec fn finish(self, result: Result<CommitResult, CommitError>) -> (
        CommitAction,
        CommitView,
    ) {
        (CommitAction::Finish(result), CommitView { phase: CommitPhase::Over, ..self })
    }

    /// The event becomes the block after the one with the given number.
    pub open spec fn append(self, prev_sequence_number: Option<u64>, now: DateTime) -> (
        CommitAction,
        CommitView,
    ) {
        (
            CommitAction::Append(
                crate::dataset::commit::following_block(
                    self.prev,
                    prev_sequence_number,
                    match self.opts.system_time {
                        Some(time) => time,
                        None => now,
                    },
                    self.event->0,
                ),
                AppendOpts {
                    update_ref: Some(self.opts.block_ref),
                    check_ref_is_prev_block: true,
                },
            ),
            CommitView { event: None, phase: CommitPhase::Appending, ..self },
        )
    }

    /// The block to append to is known: ask for its number, if there is one.
    pub open spec fn follow(self, prev: Option<Multihash>, now: DateTime) -> (
        CommitAction,
        CommitView,
    ) {
        let next = CommitView { prev, ..self };
        match prev {
            Some(hash) => (
                CommitAction::GetBlock(hash),
                CommitView { phase: CommitPhase::Numbering, ..next },
            ),
            None => next.append(None, now),
        }
    }

    /// Go on checking: fail at the first object that is missing, ask about the next one,
    /// or find the block to append to.
    pub open spec fn check(self, now: DateTime) -> (CommitAction, CommitView) {
        match crate::dataset::commit::first_missing(self.present) {
            Some(i) => self.finish(Err(CommitError::ObjectNotFound(self.refs[i].hash))),
            None => if self.present.len() < self.refs.len() {
                (
                    CommitAction::Ask(self.refs[self.present.len() as int]),
                    CommitView { phase: CommitPhase::Checking, ..self },
                )
            } else {
                match self.opts.prev_block_hash {
                    Some(prev) => self.follow(prev, now),
                    None => (
                        CommitAction::GetRef(self.opts.block_ref),
                        CommitView { phase: CommitPhase::Labelling, ..self },
                    ),
                }
            },
        }
    }

    /// What to do after an answer, and how the commit goes on from there.
    pub open spec fn next(self, answer: CommitAnswer, now: DateTime) -> (CommitAction, CommitView) {
        match answer {
            CommitAnswer::Begin => self.check(now),
            CommitAnswer::Contains(Ok(found)) => CommitView {
                present: self.present.push(found),
                ..self
            }.check(now),
            CommitAnswer::Contains(Err(e)) => self.finish(Err(CommitError::Internal(e))),
            CommitAnswer::Head(head) => match crate::dataset::commit::labelled(head) {
                Ok(prev) => self.follow(prev, now),
                Err(e) => self.finish(Err(e)),
            },
            CommitAnswer::SequenceNumber(Ok(n)) => self.append(Some(n), now),
            CommitAnswer::SequenceNumber(Err(e)) => self.finish(Err(CommitError::Internal(e))),
            CommitAnswer::Appended(appended) => self.finish(
                crate::dataset::commit::committed(self.prev, appended),
            ),
        }
    }
}

impl View for CommitSession {
    type V = CommitView;

    closed spec fn view(&self) -> CommitView {
        CommitView {
            opts: self.opts,
            event: self.event,
            refs: self.refs@,
            present: self.present@,
            prev: self.prev,
            phase: self.phase,
        }
    }
}

impl CommitSession {
    pub fn new(event: MetadataEvent, opts: CommitOpts) -> (r: Self)
        ensures
            r@ == started(event, opts),
            r@.wf(),
    {
        let refs = refs_to_check(&event, opts.check_object_refs);
        CommitSession {
            opts,
            event: Some(event),
            refs,
            present: Vec::new(),
            prev: None,
            phase: CommitPhase::Started,
        }
    }

    /// Takes an answer at the moment `now`, and says what to do next.
    pub fn next(&mut self, answer: CommitAnswer, now: DateTime) -> (r: CommitAction)
        requires
            old(self)@.wf(),
            old(self)@.awaits(answer),
        ensures
            final(self)@.wf(),
            (r, final(self)@) == old(self)@.next(answer, now),
    {
        match answer {
            CommitAnswer::Begin => self.check(now),
            CommitAnswer::Contains(Ok(found)) => {
                self.present.push(found);
                self.check(now)
            },
            CommitAnswer::Contains(Err(e)) => self.finish(Err(CommitError::Internal(e))),
            CommitAnswer::Head(head) => match labelled_block(head) {
                Ok(prev) => self.follow(prev, now),
                Err(e) => self.finish(Err(e)),
            },
            CommitAnswer::SequenceNumber(Ok(n)) => self.append(Some(n), now),
            CommitAnswer::SequenceNumber(Err(e)) => self.finish(Err(CommitError::Internal(e))),
            CommitAnswer::Appended(appended) => {
                let result = commit_result(self.prev.clone(), appended);
                self.finish(result)
            },
        }
    }

    fn finish(&mut self, result: Result<CommitResult, CommitError>) -> (r: CommitAction)
        requires
            old(self)@.present.len() <= old(self)@.refs.len(),
        ensures
            final(self)@.wf(),
            (r, final(self)@) == old(self)@.finish(result),
    {
        self.phase = CommitPhase::Over;
        CommitAction::Finish(result)
    }

    fn append(&mut self, prev_sequence_number: Option<u64>, now: DateTime) -> (r: CommitAction)
        requires
            old(self)@.present.len() <= old(self)@.refs.len(),
            old(self)@.event is Some,
            old(self)@.prev is Some <==> prev_sequence_number is Some,
            prev_sequence_number matches Some(n) ==> n < u64::MAX,
        ensures
            final(self)@.wf(),
            (r, final(self)@) == old(self)@.append(prev_sequence_number, now),
    {
        let event = self.event.take().unwrap();
        let block = next_block(
            self.prev.clone(),
            prev_sequence_number,
            &self.opts,
            now,
            event,
        );
        self.phase = CommitPhase::Appending;
        CommitAction::Append(block, append_opts(&self.opts))
    }

    fn follow(&mut self, prev: Option<Multihash>, now: DateTime) -> (r: CommitAction)
        requires
            old(self)@.present.len() <= old(self)@.refs.len(),
            old(self)@.event is Some,
        ensures
            final(self)@.wf(),
            (r, final(self)@) == old(self)@.follow(prev, now),
    {
        self.prev = prev.clone();
        match prev {
            Some(hash) => {
                self.phase = CommitPhase::Numbering;
                CommitAction::GetBlock(hash)
            },
            None => self.append(None, now),
        }
    }

    fn check(&mut self, now: DateTime) -> (r: CommitAction)
        requires
            old(self)@.present.len() <= old(self)@.refs.len(),
            old(self)@.event is Some,
        ensures
            final(self)@.wf(),
            (r, final(self)@) == old(self)@.check(now),
    {
        let asked: usize = self.present.len();
        match next_ref_check(&self.refs, &self.present) {
            RefCheck::Missing(hash) => self.finish(Err(CommitError::ObjectNotFound(hash))),
            RefCheck::Ask(_) => {
                self.phase = CommitPhase::Checking;
                CommitAction::Ask(
                    ObjectRef { repo: self.refs[asked].repo, hash: self.refs[asked].hash.clone() },
                )
            },
            RefCheck::Passed => {
                if self.opts.prev_block_hash.is_some() {
                    let prev = prev_block_hash(&self.opts, None);
                    self.follow(prev, now)
                } else {
                    self.phase = CommitPhase::Labelling;
                    CommitAction::GetRef(self.opts.block_ref)
                }
            },
        }
    }
}

/// A commit as it went: what was answered and when, what was done, and where the commit
/// was before each answer and at the end.
pub struct CommitHistory {
    pub answers: Seq<CommitAnswer>,
    pub moments: Seq<DateTime>,
    pub actions: Seq<CommitAction>,
    pub sessions: Seq<CommitView>,
}

impl CommitHistory {
    /// One call of [`CommitSession::next`] after the other, from the beginning.
    pub open spec fn took_place(self, event: MetadataEvent, opts: CommitOpts) -> bool {
        &&& self.moments.len() == self.answers.len()
        &&& self.actions.len() == self.answers.len()
        &&& self.sessions.len() == self.answers.len() + 1
        &&& self.sessions[0] == started(event, opts)
        &&& forall|i: int| 0 <= i < self.answers.len() ==> #[trigger] self.step(i)
    }

    pub open spec fn step(self, i: int) -> bool {
        &&& self.sessions[i].awaits(self.answers[i])
        &&& (self.actions[i], self.sessions[i + 1]) == self.sessions[i].next(
            self.answers[i],
            self.moments[i],
        )
    }

    /// The first `n` things done were to ask about the first `n` objects, one by one.
    pub open spec fn asked(self, refs: Seq<ObjectRef>, n: int) -> bool {
        &&& n <= self.actions.len()
        &&& forall|j: int| 0 <= j < n ==> (#[trigger] self.actions[j]) == CommitAction::Ask(refs[j])
    }

    /// The first `n` objects were all there.
    pub open spec fn found(self, n: int) -> bool {
        &&& n < self.answers.len()
        &&& forall|j: int|
            1 <= j <= n ==> (#[trigger] self.answers[j]) == CommitAnswer::Contains(Ok(true))
    }

    /// Nothing was appended in the first `n` steps.
    pub open spec fn nothing_appended(self, n: int) -> bool {
        forall|j: int| 0 <= j < n ==> !((#[trigger] self.actions[j]) is Append)
    }

    /// Where the commit is before its step `i`.
    spec fn reached(self, event: MetadataEvent, opts: CommitOpts, i: int) -> bool {
        let s = self.sessions[i];
        let refs = started(event, opts).refs;
        let n = refs.len() as int;
        &&& s.wf()
        &&& s.opts == opts
        &&& s.refs == refs
        &&& s.phase is Started <==> i == 0
        &&& i == 0 ==> s == started(event, opts)
        &&& !(s.phase is Appending || s.phase is Over) ==> s.event == Some(event)
            && self.nothing_appended(i)
        &&& s.phase is Checking ==> {
            &&& s.present.len() == i - 1
            &&& crate::dataset::commit::first_missing(s.present) is None
            &&& self.asked(refs, i)
            &&& self.found(i - 1)
        }
        &&& s.phase is Labelling || s.phase is Numbering ==> {
            &&& n < i
            &&& self.asked(refs, n)
            &&& self.found(n)
        }
        &&& s.phase is Labelling ==> i == n + 1 && opts.prev_block_hash is None && self.actions[n]
            == CommitAction::GetRef(opts.block_ref)
        &&& s.phase is Numbering ==> {
            &&& self.actions[i - 1] == CommitAction::GetBlock(s.prev->0)
            &&& self.chosen(opts, n, i - 1, s.prev)
        }
        &&& s.phase is Appending ==> self.actions[i - 1] is Append && self.nothing_appended(i - 1)
        &&& s.phase is Over ==> self.actions[i - 1] is Finish
    }

    /// The block to append to was known in step `i`: the one that the options name, or the
    /// one that the label was found on, right after the `n` objects were checked.
    pub open spec fn chosen(
        self,
        opts: CommitOpts,
        n: int,
        i: int,
        prev: Option<Multihash>,
    ) -> bool {
        match opts.prev_block_hash {
            Some(named) => i == n && prev == named,
            None => i == n + 1 && self.actions[n] == CommitAction::GetRef(opts.block_ref) && (
            self.answers[i] matches CommitAnswer::Head(head) && crate::dataset::commit::labelled(
                head,
            ) == Ok::<Option<Multihash>, CommitError>(prev)),
        }
    }
}

proof fn lemma_all_there(present: Seq<bool>)
    ensures
        crate::dataset::commit::first_missing(present.push(true)) is None
            <==> crate::dataset::commit::first_missing(present) is None,
        crate::dataset::commit::first_missing(present) is None
            ==> crate::dataset::commit::first_missing(present.push(false)) == Some(
            present.len() as int,
        ),
{
    assert(present.push(true).drop_last() == present);
    assert(present.push(false).drop_last() == present);
}

proof fn lemma_reached(h: CommitHistory, event: MetadataEvent, opts: CommitOpts, i: int)
    requires
        h.took_place(event, opts),
        0 <= i <= h.answers.len(),
    ensures
        h.reached(event, opts, i),
    decreases i,
{
    if i > 0 {
        lemma_reached(h, event, opts, i - 1);
        assert(h.step(i - 1));
        let s = h.sessions[i - 1];
        lemma_all_there(s.present);
        if h.answers[i - 1] is Begin {
            assert(s.present =~= Seq::<bool>::empty());
        }
    }
}

/// Where an object that the event refers to is missing, the commit ends at once: it has
/// come to that the object was not found, and no block was appended.
pub proof fn law_missing_object_stops_the_commit(
    h: CommitHistory,
    event: MetadataEvent,
    opts: CommitOpts,
    i: int,
)
    requires
        h.took_place(event, opts),
        0 <= i < h.answers.len(),
        h.answers[i] == CommitAnswer::Contains(Ok(false)),
    ensures
        opts.check_object_refs,
        i > 0,
        h.actions[i - 1] matches CommitAction::Ask(object)
            && crate::dataset::commit::event_refs(event).contains(object) && h.actions[i]
            == CommitAction::Finish(Err(CommitError::ObjectNotFound(object.hash))),
        i == h.answers.len() - 1,
        h.nothing_appended(h.actions.len() as int),
{
    lemma_reached(h, event, opts, i);
    assert(h.step(i));
    let s = h.sessions[i];
    lemma_all_there(s.present);
    let refs = started(event, opts).refs;
    assert(h.actions[i - 1] == CommitAction::Ask(refs[i - 1]));
    assert(refs.contains(refs[i - 1]));
    if i + 1 < h.answers.len() {
        assert(h.step(i + 1));
    }
}

/// A block is appended once at most, and only after all objects that were to be checked
/// have been found. It holds the event, and follows the block that the options name, or
/// else the one that the label was on. Its number is the one after that block's, or 0
/// if it follows none.
pub proof fn law_appended_block_follows(
    h: CommitHistory,
    event: MetadataEvent,
    opts: CommitOpts,
    i: int,
)
    requires
        h.took_place(event, opts),
        0 <= i < h.answers.len(),
        h.actions[i] is Append,
    ensures
        ({
            let block = h.actions[i]->Append_0;
            let refs = crate::dataset::commit::checked_refs(event, opts.check_object_refs);
            let n = refs.len() as int;
            &&& h.asked(refs, n) && h.found(n)
            &&& block.event == event
            &&& match block.prev_block_hash {
                Some(hash) => {
                    &&& i > 0
                    &&& h.chosen(opts, n, i - 1, block.prev_block_hash)
                    &&& h.actions[i - 1] == CommitAction::GetBlock(hash)
                    &&& h.answers[i] matches CommitAnswer::SequenceNumber(Ok(number))
                        && block.sequence_number == number + 1
                },
                None => h.chosen(opts, n, i, None) && block.sequence_number == 0,
            }
            &&& forall|j: int|
                0 <= j < h.actions.len() && j != i ==> !((#[trigger] h.actions[j]) is Append)
        }),
{
    lemma_reached(h, event, opts, i);
    assert(h.step(i));
    let s = h.sessions[i];
    lemma_all_there(s.present);
    assert forall|j: int| 0 <= j < h.actions.len() && j != i implies !((
    #[trigger] h.actions[j]) is Append) by {
        if j > i {
            lemma_reached(h, event, opts, j);
            lemma_reached(h, event, opts, j + 1);
            assert(h.step(j));
            if h.actions[j] is Append {
                assert(h.nothing_appended(j));
            }
        }
    }
}

/// Each step of a commit. A block is of the time that the options give, or else of the
/// moment of the step; it takes over the label, provided that the label is on the block that
/// it follows. What the chain makes of it is what the commit comes to, and a question that
/// fails makes it fail.
pub proof fn law_steps_of_a_commit(
    s: CommitView,
    now: DateTime,
    number: u64,
    e: InternalError,
    appended: Result<Multihash, AppendError>,
    head: Multihash,
)
    requires
        s.event is Some,
        number < u64::MAX,
    ensures
        ({
            let (action, next) = s.next(CommitAnswer::SequenceNumber(Ok(number)), now);
            &&& action matches CommitAction::Append(block, append) && {
                &&& block.prev_block_hash == s.prev
                &&& block.sequence_number == number + 1
                &&& block.event == s.event->0
                &&& s.opts.system_time matches Some(time) ==> block.system_time == time
                &&& s.opts.system_time is None ==> block.system_time == now
                &&& append.update_ref == Some(s.opts.block_ref)
                &&& append.check_ref_is_prev_block
            }
            &&& next.phase is Appending && next.prev == s.prev
        }),
        s.next(CommitAnswer::Contains(Err(e)), now).0 == CommitAction::Finish(
            Err(CommitError::Internal(e)),
        ),
        s.next(CommitAnswer::SequenceNumber(Err(e)), now).0 == CommitAction::Finish(
            Err(CommitError::Internal(e)),
        ),
        s.next(CommitAnswer::Head(Ok(head)), now).0 == CommitAction::GetBlock(head),
        s.next(CommitAnswer::Head(Err(GetRefError::NotFound)), now).0 matches CommitAction::Append(
            block,
            _,
        ) && block.prev_block_hash is None && block.sequence_number == 0 && block.event
            == s.event->0,
        appended matches Ok(new_head) ==> (s.next(
            CommitAnswer::Appended(appended),
            now,
        ).0 matches CommitAction::Finish(Ok(r)) && r.old_head == s.prev && r.new_head == new_head),
        appended matches Err(refusal) ==> s.next(CommitAnswer::Appended(appended), now).0
            == CommitAction::Finish(Err(CommitError::MetadataAppendError(refusal))),
{
}

/// How a commit goes on from what it knows of the objects. It fails at the first that was
/// missing, and asks about the next as long as none was. Once all are there it goes on with
/// the block that the options name, which may be that there is none, and asks for the one that
/// the label is on only where they name nothing.
pub proof fn law_commit_goes_on_when_all_is_there(s: CommitView, now: DateTime, i: int)
    requires
        s.event is Some,
        s.present.len() <= s.refs.len(),
    ensures
        0 <= i < s.present.len() && !s.present[i] && (forall|j: int|
            0 <= j < i ==> #[trigger] s.present[j]) ==> s.next(CommitAnswer::Begin, now).0
            == CommitAction::Finish(Err(CommitError::ObjectNotFound(s.refs[i].hash))),
        (forall|j: int| 0 <= j < s.present.len() ==> #[trigger] s.present[j]) ==> {
            let action = s.next(CommitAnswer::Begin, now).0;
            &&& s.present.len() < s.refs.len() ==> action == CommitAction::Ask(
                s.refs[s.present.len() as int],
            )
            &&& s.present.len() == s.refs.len() ==> match s.opts.prev_block_hash {
                Some(Some(hash)) => action == CommitAction::GetBlock(hash),
                Some(None) => action matches CommitAction::Append(block, _)
                    && block.prev_block_hash is None && block.sequence_number == 0,
                None => action == CommitAction::GetRef(s.opts.block_ref),
            }
        },
        forall|found: bool| #[trigger]
            s.next(CommitAnswer::Contains(Ok(found)), now) == (CommitView {
                present: s.present.push(found),
                ..s
            }).next(CommitAnswer::Begin, now),
{
    crate::dataset::commit::law_first_missing_object(s.present, i);
}

/// A commit begins with its event and its options, and with the objects of the event to look
/// for if that is asked for; nothing is known of them.
pub proof fn law_commit_begins(event: MetadataEvent, opts: CommitOpts)
    ensures
        started(event, opts).event == Some(event),
        started(event, opts).opts == opts,
        started(event, opts).present.len() == 0,
        started(event, opts).phase is Started,
        opts.check_object_refs ==> started(event, opts).refs == crate::dataset::commit::event_refs(
            event,
        ),
        !opts.check_object_refs ==> started(event, opts).refs.len() == 0,
{
}

} // verus!
