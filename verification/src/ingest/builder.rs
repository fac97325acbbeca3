//! What a writer has to know before it can start, from its caller or from the
//! chain.

use vstd::prelude::*;

use crate::ids::Multihash;
use crate::ingest::schema::DatasetVocabulary;
use crate::ingest::writer::{DataWriterDataFusion, MergeStrategy};
use crate::metadata::{
    BlockRef, DatasetKind, MergeStrategyConf, MetadataBlock, MetadataEvent, SetVocab,
};
use crate::time::DateTime;

verus! {

#[derive(Debug)]
pub struct DataWriterDataFusionBuilder<D, C> {
    dataset: D,
    ctx: C,
    block_ref: BlockRef,
    merge_strategy_def: Option<MergeStrategyConf>,
    vocab: Option<DatasetVocabulary>,
    head: Option<Multihash>,
    prev_data_slices: Option<Vec<Multihash>>,
    next_offset: Option<i64>,
    prev_checkpoint: Option<Option<Multihash>>,
    prev_watermark: Option<Option<DateTime>>,
}

/// The offset that follows what a block has added.
pub open spec fn offset_after(block: MetadataBlock) -> Option<int> {
    match block.event {
        MetadataEvent::AddData(e) => match e.output_data {
            Some(slice) => Some(slice.interval.end + 1),
            None => None,
        },
        MetadataEvent::Seed(_) => Some(0),
        _ => None,
    }
}

/// The checkpoint that a block leaves behind, or that it leaves none.
pub open spec fn checkpoint_after(block: MetadataBlock) -> Option<Option<Multihash>> {
    match block.event {
        MetadataEvent::AddData(e) => Some(crate::ingest::writer::checkpoint_hash(e)),
        _ => None,
    }
}

/// The watermark that a block leaves behind, or that it leaves none.
pub open spec fn watermark_after(block: MetadataBlock) -> Option<Option<DateTime>> {
    match block.event {
        MetadataEvent::AddData(e) => Some(e.output_watermark),
        MetadataEvent::SetWatermark(e) => Some(Some(e.output_watermark)),
        _ => None,
    }
}

pub open spec fn merge_set(block: MetadataBlock) -> Option<MergeStrategyConf> {
    match block.event {
        MetadataEvent::SetPollingSource(e) => Some(e.merge),
        _ => None,
    }
}

/// The data slices of a chain, newest first.
pub open spec fn slices_of(blocks: Seq<MetadataBlock>) -> Seq<Multihash>
    decreases blocks.len(),
{
    if blocks.len() == 0 {
        Seq::empty()
    } else {
        let before = slices_of(blocks.drop_last());
        match blocks.last().event {
            MetadataEvent::AddData(e) => match e.output_data {
                Some(slice) => before.push(slice.physical_hash),
                None => before,
            },
            _ => before,
        }
    }
}

/// The vocabulary of a chain, newest block first: the one that was set first.
pub open spec fn first_vocab(blocks: Seq<MetadataBlock>) -> Option<SetVocab>
    decreases blocks.len(),
{
    if blocks.len() == 0 {
        None
    } else {
        match blocks.last().event {
            MetadataEvent::SetVocab(e) => Some(e),
            _ => first_vocab(blocks.drop_last()),
        }
    }
}

pub open spec fn vocabulary_of(blocks: Seq<MetadataBlock>) -> crate::ingest::schema::VocabularyView {
    match first_vocab(blocks) {
        Some(e) => crate::ingest::schema::resolved_vocabulary(e),
        None => crate::ingest::schema::default_vocabulary(),
    }
}

pub open spec fn newest_offset(blocks: Seq<MetadataBlock>) -> Option<int> {
    crate::metadata::newest(blocks, |b: MetadataBlock| offset_after(b))
}

pub open spec fn newest_checkpoint(blocks: Seq<MetadataBlock>) -> Option<Option<Multihash>> {
    crate::metadata::newest(blocks, |b: MetadataBlock| checkpoint_after(b))
}

pub open spec fn newest_watermark(blocks: Seq<MetadataBlock>) -> Option<Option<DateTime>> {
    crate::metadata::newest(blocks, |b: MetadataBlock| watermark_after(b))
}

pub open spec fn newest_merge(blocks: Seq<MetadataBlock>) -> Option<MergeStrategyConf> {
    crate::metadata::newest(blocks, |b: MetadataBlock| merge_set(b))
}

/// What is known if anything is, else nothing.
pub open spec fn or_none<T>(t: Option<Option<T>>) -> Option<T> {
    match t {
        Some(t) => t,
        None => None,
    }
}

/// What a writer knows after a scan of the chain that ends in `head`.
pub open spec fn scanned(head: Multihash, blocks: Seq<MetadataBlock>) -> crate::ingest::writer::WriterView {
    crate::ingest::writer::WriterView {
        head,
        prev_data_slices: slices_of(blocks),
        next_offset: newest_offset(blocks)->0,
        prev_checkpoint: or_none(newest_checkpoint(blocks)),
        prev_watermark: or_none(newest_watermark(blocks)),
    }
}

/// A chain that a writer can append to: that of a root dataset with a source.
pub open spec fn writable(blocks: Seq<MetadataBlock>) -> bool {
    &&& newest_merge(blocks) is Some
    &&& newest_offset(blocks) matches Some(n) && n <= i64::MAX
    &&& forall|i: int| 0 <= i < blocks.len() ==> admissible((#[trigger] blocks[i]).event)
}

/// The event may occur in the chain of a root dataset.
pub open spec fn admissible(event: MetadataEvent) -> bool {
    match event {
        MetadataEvent::ExecuteQuery(_) => false,
        MetadataEvent::Seed(seed) => seed.dataset_kind is Root,
        _ => true,
    }
}

/// Whether a writer can append to the chain, newest block first.
pub fn is_writable(blocks: &Vec<MetadataBlock>) -> (r: bool)
    ensures
        r == writable(blocks@),
{
    let mut has_source = false;
    let mut next_offset: Option<i64> = None;
    let mut admitted = true;
    for i in 0..blocks.len()
        invariant
            has_source == newest_merge(blocks@.take(i as int)) is Some,
            match next_offset {
                Some(n) => newest_offset(blocks@.take(i as int)) == Some(n as int),
                None => newest_offset(blocks@.take(i as int)) is None,
            },
            admitted <==> forall|j: int|
                0 <= j < i ==> admissible((#[trigger] blocks@[j]).event),
    {
        proof {
            assert(blocks@.take(i + 1).drop_last() == blocks@.take(i as int));
            assert(blocks@.take(i + 1).last() == blocks@[i as int]);
        }
        match &blocks[i].event {
            MetadataEvent::AddData(e) => {
                if let Some(output_data) = &e.output_data {
                    if next_offset.is_none() {
                        if output_data.interval.end == i64::MAX {
                            proof {
                                crate::metadata::lemma_newest_found(
                                    blocks@,
                                    |b: MetadataBlock| offset_after(b),
                                    i + 1,
                                );
                            }
                            return false;
                        }
                        next_offset = Some(output_data.interval.end + 1);
                    }
                }
            },
            MetadataEvent::SetPollingSource(_) => {
                has_source = true;
            },
            MetadataEvent::Seed(seed) => {
                if next_offset.is_none() {
                    next_offset = Some(0);
                }
                match seed.dataset_kind {
                    DatasetKind::Root => {},
                    DatasetKind::Derivative => {
                        admitted = false;
                    },
                }
            },
            MetadataEvent::ExecuteQuery(_) => {
                admitted = false;
            },
            _ => {},
        }
    }
    proof {
        assert(blocks@.take(blocks@.len() as int) == blocks@);
    }
    has_source && next_offset.is_some() && admitted
}

/// The strategy that a definition stands for.
pub open spec fn strategy_of(
    conf: MergeStrategyConf,
    vocab: crate::ingest::schema::VocabularyView,
    strategy: MergeStrategy,
) -> bool {
    match conf {
        MergeStrategyConf::Append => strategy is Append,
        MergeStrategyConf::Ledger(conf) => strategy == MergeStrategy::Ledger(conf.primary_key),
        MergeStrategyConf::Snapshot(cfg) => strategy matches MergeStrategy::Snapshot(column, c)
            && column@ == vocab.offset_column && c == cfg,
    }
}

impl<D, C> DataWriterDataFusionBuilder<D, C> {
    pub closed spec fn dataset_value(&self) -> D {
        self.dataset
    }

    pub closed spec fn ctx_value(&self) -> C {
        self.ctx
    }

    pub closed spec fn label(&self) -> BlockRef {
        self.block_ref
    }

    pub closed spec fn merge(&self) -> Option<MergeStrategyConf> {
        self.merge_strategy_def
    }

    pub closed spec fn vocabulary(&self) -> Option<DatasetVocabulary> {
        self.vocab
    }

    /// Everything that a writer has to know is known.
    pub closed spec fn complete(&self) -> bool {
        &&& self.merge_strategy_def is Some
        &&& self.vocab is Some
        &&& self.head is Some
        &&& self.prev_data_slices is Some
        &&& self.next_offset is Some
        &&& self.prev_checkpoint is Some
        &&& self.prev_watermark is Some
    }

    /// What the writer will know.
    pub closed spec fn known(&self) -> crate::ingest::writer::WriterView {
        crate::ingest::writer::WriterView {
            head: self.head->0,
            prev_data_slices: self.prev_data_slices->0@,
            next_offset: self.next_offset->0 as int,
            prev_checkpoint: self.prev_checkpoint->0,
            prev_watermark: self.prev_watermark->0,
        }
    }

    /// The definition of the merge strategy is the last thing that a builder learns:
    /// where it is known, everything is.
    #[verifier::type_invariant]
    spec fn learned_together(&self) -> bool {
        self.merge_strategy_def is Some ==> self.complete()
    }

    pub fn new(dataset: D, ctx: C) -> (r: Self)
        ensures
            r.dataset_value() == dataset,
            r.ctx_value() == ctx,
            r.label() == BlockRef::Head,
            r.merge() is None,
    {
        DataWriterDataFusionBuilder {
            dataset,
            ctx,
            block_ref: BlockRef::Head,
            merge_strategy_def: None,
            vocab: None,
            head: None,
            prev_data_slices: None,
            next_offset: None,
            prev_checkpoint: None,
            prev_watermark: None,
        }
    }

    pub fn with_block_ref(self, block_ref: BlockRef) -> (r: Self)
        ensures
            r.label() == block_ref,
            r.dataset_value() == self.dataset_value(),
            r.ctx_value() == self.ctx_value(),
            r.merge() == self.merge(),
            r.vocabulary() == self.vocabulary(),
            r.complete() == self.complete(),
            r.known() == self.known(),
    {
        proof {
            use_type_invariant(&self);
        }
        DataWriterDataFusionBuilder { block_ref, ..self }
    }

    /// Allows the builder to avoid scanning the metadata chain
    pub fn with_metadata(
        self,
        block_ref: BlockRef,
        head: Multihash,
        merge_strategy_def: MergeStrategyConf,
        next_offset: i64,
        prev_checkpoint: Option<Multihash>,
        prev_watermark: Option<DateTime>,
        prev_data_slices: Vec<Multihash>,
        vocab: DatasetVocabulary,
    ) -> (r: Self)
        ensures
            r.complete(),
            r.label() == block_ref,
            r.dataset_value() == self.dataset_value(),
            r.ctx_value() == self.ctx_value(),
            r.merge() == Some(merge_strategy_def),
            r.vocabulary() == Some(vocab),
            r.known() == (crate::ingest::writer::WriterView {
                head,
                prev_data_slices: prev_data_slices@,
                next_offset: next_offset as int,
                prev_checkpoint,
                prev_watermark,
            }),
    {
        DataWriterDataFusionBuilder {
            block_ref,
            head: Some(head),
            merge_strategy_def: Some(merge_strategy_def),
            next_offset: Some(next_offset),
            prev_checkpoint: Some(prev_checkpoint),
            prev_watermark: Some(prev_watermark),
            prev_data_slices: Some(prev_data_slices),
            vocab: Some(vocab),
            ..self
        }
    }

    /// Whether the chain has to be scanned before the writer can be built. If not,
    /// the builder is complete.
    pub fn needs_scan(&self) -> (r: bool)
        ensures
            r == self.merge() is None,
            !r == self.complete(),
    {
        proof {
            use_type_invariant(self);
        }
        self.merge_strategy_def.is_none()
    }

    /// The label whose block is the head to scan from.
    pub fn block_ref(&self) -> (r: BlockRef)
        ensures
            r == self.label(),
    {
        self.block_ref
    }

    /// The dataset whose chain is to be scanned.
    pub fn dataset(&self) -> (r: &D)
        ensures
            *r == self.dataset_value(),
    {
        &self.dataset
    }

    /// Learns all there is to know from the chain, newest block first.
    pub fn scan_metadata(self, head: Multihash, blocks: Vec<MetadataBlock>) -> (r: Self)
        requires
            writable(blocks@),
        ensures
            r.complete(),
            r.label() == self.label(),
            r.dataset_value() == self.dataset_value(),
            r.ctx_value() == self.ctx_value(),
            r.merge() == newest_merge(blocks@),
            r.vocabulary() matches Some(vocab) && vocab@ == vocabulary_of(blocks@),
            r.known() == scanned(head, blocks@),
    {
        let ghost all = blocks@;
        let mut merge_strategy_def: Option<MergeStrategyConf> = None;
        let mut prev_data_slices: Vec<Multihash> = Vec::new();
        let mut prev_checkpoint: Option<Option<Multihash>> = None;
        let mut prev_watermark: Option<Option<DateTime>> = None;
        let mut vocab: Option<DatasetVocabulary> = None;
        let mut next_offset: Option<i64> = None;

        for block in it: blocks.into_iter()
            invariant
                it.seq() == all,
                writable(all),
                merge_strategy_def == newest_merge(all.take(it.index())),
                prev_data_slices@ == slices_of(all.take(it.index())),
                prev_checkpoint == newest_checkpoint(all.take(it.index())),
                prev_watermark == newest_watermark(all.take(it.index())),
                match vocab {
                    Some(v) => first_vocab(all.take(it.index())) matches Some(e) && v@
                        == crate::ingest::schema::resolved_vocabulary(e),
                    None => first_vocab(all.take(it.index())) is None,
                },
                match next_offset {
                    Some(n) => newest_offset(all.take(it.index())) == Some(n as int),
                    None => newest_offset(all.take(it.index())) is None,
                },
        {
            proof {
                let i = it.index();
                assert(block == all[i]);
                assert(all.take(i + 1).drop_last() == all.take(i));
                assert(all.take(i + 1).last() == all[i]);
            }
            match block.event {
                MetadataEvent::AddData(add_data) => {
                    if let Some(output_data) = &add_data.output_data {
                        prev_data_slices.push(output_data.physical_hash.clone());

                        if next_offset.is_none() {
                            proof {
                                crate::metadata::lemma_newest_found(
                                    all,
                                    |b: MetadataBlock| offset_after(b),
                                    it.index() + 1,
                                );
                            }
                            next_offset = Some(output_data.interval.end + 1);
                        }
                    }
                    if prev_checkpoint.is_none() {
                        prev_checkpoint = Some(
                            match &add_data.output_checkpoint {
                                Some(cp) => Some(cp.physical_hash.clone()),
                                None => None,
                            },
                        );
                    }
                    if prev_watermark.is_none() {
                        prev_watermark = Some(add_data.output_watermark);
                    }
                },
                MetadataEvent::SetWatermark(set_wm) => {
                    if prev_watermark.is_none() {
                        prev_watermark = Some(Some(set_wm.output_watermark));
                    }
                },
                MetadataEvent::SetPollingSource(src) => {
                    if merge_strategy_def.is_none() {
                        merge_strategy_def = Some(src.merge);
                    }
                },
                MetadataEvent::SetVocab(set_vocab) => {
                    vocab = Some(DatasetVocabulary::resolve(set_vocab));
                },
                MetadataEvent::Seed(_) => {
                    if next_offset.is_none() {
                        next_offset = Some(0);
                    }
                },
                _ => {},
            }
        }
        proof {
            assert(all.take(all.len() as int) == all);
        }
        DataWriterDataFusionBuilder {
            head: Some(head),
            merge_strategy_def,
            prev_data_slices: Some(prev_data_slices),
            prev_checkpoint: Some(
                match prev_checkpoint {
                    Some(c) => c,
                    None => None,
                },
            ),
            prev_watermark: Some(
                match prev_watermark {
                    Some(w) => w,
                    None => None,
                },
            ),
            vocab: Some(
                match vocab {
                    Some(v) => v,
                    None => DatasetVocabulary::default(),
                },
            ),
            next_offset,
            ..self
        }
    }

    /// The writer, once everything that it has to know is known.
    pub fn build(self) -> (r: DataWriterDataFusion<D, C>)
        requires
            self.complete(),
        ensures
            r@ == self.known(),
            r.dataset_value() == self.dataset_value(),
            r.ctx_value() == self.ctx_value(),
            r.label() == self.label(),
            Some(r.vocabulary()) == self.vocabulary(),
            strategy_of(self.merge()->0, self.vocabulary()->0@, r.merge()),
    {
        let vocab = self.vocab.unwrap();
        let merge_strategy = merge_strategy_for(self.merge_strategy_def.unwrap(), &vocab);
        DataWriterDataFusion::new(
            self.dataset,
            merge_strategy,
            vocab,
            self.block_ref,
            self.ctx,
            self.head.unwrap(),
            self.prev_data_slices.unwrap(),
            self.next_offset.unwrap(),
            self.prev_checkpoint.unwrap(),
            self.prev_watermark.unwrap(),
        )
    }
}

/// The strategy that a definition stands for. A snapshot tells the later of two
/// records by their offsets.
pub fn merge_strategy_for(conf: MergeStrategyConf, vocab: &DatasetVocabulary) -> (r: MergeStrategy)
    ensures
        strategy_of(conf, vocab@, r),
{
    match conf {
        MergeStrategyConf::Append => MergeStrategy::Append,
        MergeStrategyConf::Ledger(conf) => MergeStrategy::Ledger(conf.primary_key),
        MergeStrategyConf::Snapshot(cfg) => MergeStrategy::Snapshot(
            vocab.offset_column.clone(),
            cfg,
        ),
    }
}

/// A writer that goes on writing knows the same as one that starts anew from the
/// chain: the same head, offset, checkpoint and watermark, and the same slices,
/// if not in the same order.
pub proof fn law_writer_agrees_with_scan(
    head: Multihash,
    blocks: Seq<MetadataBlock>,
    new_head: Multihash,
    new_block: MetadataBlock,
)
    requires
        writable(blocks),
        new_block.event is AddData,
    ensures
        ({
            let went_on = crate::ingest::writer::after_commit(
                scanned(head, blocks),
                new_head,
                new_block.event->AddData_0,
            );
            let anew = scanned(new_head, seq![new_block] + blocks);
            &&& went_on.head == anew.head
            &&& went_on.next_offset == anew.next_offset
            &&& went_on.prev_checkpoint == anew.prev_checkpoint
            &&& went_on.prev_watermark == anew.prev_watermark
            &&& went_on.prev_data_slices.to_multiset() == anew.prev_data_slices.to_multiset()
        }),
{
    let one = seq![new_block];
    let e = new_block.event->AddData_0;
    crate::dataset::dataset_metadata::law_newest_block_has_the_say(
        new_block,
        blocks,
        |b: MetadataBlock| offset_after(b),
    );
    crate::dataset::dataset_metadata::law_newest_block_has_the_say(
        new_block,
        blocks,
        |b: MetadataBlock| checkpoint_after(b),
    );
    crate::dataset::dataset_metadata::law_newest_block_has_the_say(
        new_block,
        blocks,
        |b: MetadataBlock| watermark_after(b),
    );
    lemma_slices_concat(one, blocks);
    assert(one.drop_last() == Seq::<MetadataBlock>::empty());
    reveal_with_fuel(slices_of, 2);
    broadcast use vstd::seq_lib::group_to_multiset_ensures;

    let old = slices_of(blocks);
    match e.output_data {
        Some(slice) => {
            assert(slices_of(one) == seq![slice.physical_hash]);
            assert(old.push(slice.physical_hash) == old + seq![slice.physical_hash]);
            vstd::seq_lib::lemma_multiset_commutative(old, seq![slice.physical_hash]);
            vstd::seq_lib::lemma_multiset_commutative(seq![slice.physical_hash], old);
            assert(old.to_multiset().add(seq![slice.physical_hash].to_multiset()) =~= seq![
                slice.physical_hash,
            ].to_multiset().add(old.to_multiset()));
        },
        None => {
            assert(slices_of(one) == Seq::<Multihash>::empty());
            assert(Seq::<Multihash>::empty() + old == old);
        },
    }
}

proof fn lemma_slices_concat(newer: Seq<MetadataBlock>, older: Seq<MetadataBlock>)
    ensures
        slices_of(newer + older) == slices_of(newer) + slices_of(older),
    decreases older.len(),
{
    if older.len() == 0 {
        assert(newer + older == newer);
        assert(slices_of(newer) + slices_of(older) == slices_of(newer));
    } else {
        assert((newer + older).drop_last() == newer + older.drop_last());
        assert((newer + older).last() == older.last());
        lemma_slices_concat(newer, older.drop_last());
    }
}

/// What a scan makes of one more block in front of a chain. Data and a seed set the next
/// offset; an addition of data sets checkpoint and watermark, also where it has none; a
/// change of the watermark sets that alone. Each slice of data comes before those of older
/// blocks. Other blocks change nothing.
pub proof fn law_scan_takes_what_is_newest(
    head: Multihash,
    block: MetadataBlock,
    older: Seq<MetadataBlock>,
)
    ensures
        ({
            let now = scanned(head, seq![block] + older);
            let before = scanned(head, older);
            &&& now.head == head
            &&& match block.event {
                MetadataEvent::AddData(e) => {
                    &&& now.prev_watermark == e.output_watermark
                    &&& match e.output_checkpoint {
                        Some(checkpoint) => now.prev_checkpoint == Some(checkpoint.physical_hash),
                        None => now.prev_checkpoint is None,
                    }
                    &&& match e.output_data {
                        Some(slice) => now.next_offset == slice.interval.end + 1
                            && now.prev_data_slices == seq![slice.physical_hash]
                            + before.prev_data_slices,
                        None => now.next_offset == before.next_offset && now.prev_data_slices
                            == before.prev_data_slices,
                    }
                },
                MetadataEvent::SetWatermark(e) => now == (
                crate::ingest::writer::WriterView {
                    prev_watermark: Some(e.output_watermark),
                    ..before
                }),
                MetadataEvent::Seed(_) => now == (crate::ingest::writer::WriterView {
                    next_offset: 0,
                    ..before
                }),
                _ => now == before,
            }
            &&& scanned(head, Seq::empty()).prev_data_slices.len() == 0
            &&& scanned(head, Seq::empty()).prev_checkpoint is None
            &&& scanned(head, Seq::empty()).prev_watermark is None
        }),
{
    crate::dataset::dataset_metadata::law_newest_block_has_the_say(
        block,
        older,
        |b: MetadataBlock| offset_after(b),
    );
    crate::dataset::dataset_metadata::law_newest_block_has_the_say(
        block,
        older,
        |b: MetadataBlock| checkpoint_after(b),
    );
    crate::dataset::dataset_metadata::law_newest_block_has_the_say(
        block,
        older,
        |b: MetadataBlock| watermark_after(b),
    );
    let one = seq![block];
    lemma_slices_concat(one, older);
    assert(one.drop_last() == Seq::<MetadataBlock>::empty());
    reveal_with_fuel(slices_of, 2);
    assert(Seq::<Multihash>::empty() + slices_of(older) == slices_of(older));
}

/// The merge strategy is that of the source set last; the vocabulary is the one set first,
/// and the usual one if none was set.
pub proof fn law_scan_of_source_and_vocabulary(block: MetadataBlock, older: Seq<MetadataBlock>)
    ensures
        newest_merge(Seq::empty()) is None,
        match block.event {
            MetadataEvent::SetPollingSource(e) => newest_merge(seq![block] + older) == Some(
                e.merge,
            ),
            _ => newest_merge(seq![block] + older) == newest_merge(older),
        },
        (exists|i: int| 0 <= i < older.len() && (#[trigger] older[i]).event is SetVocab)
            ==> vocabulary_of(seq![block] + older) == vocabulary_of(older),
        (forall|i: int| 0 <= i < older.len() ==> !((#[trigger] older[i]).event is SetVocab))
            ==> vocabulary_of(older) == crate::ingest::schema::default_vocabulary() && match block.event {
            MetadataEvent::SetVocab(e) => vocabulary_of(seq![block] + older)
                == crate::ingest::schema::resolved_vocabulary(e),
            _ => vocabulary_of(seq![block] + older) == crate::ingest::schema::default_vocabulary(),
        },
{
    crate::dataset::dataset_metadata::law_newest_block_has_the_say(
        block,
        older,
        |b: MetadataBlock| merge_set(b),
    );
    lemma_first_vocab(block, older);
}

proof fn lemma_first_vocab(block: MetadataBlock, older: Seq<MetadataBlock>)
    ensures
        first_vocab(seq![block] + older) == (match first_vocab(older) {
            Some(e) => Some(e),
            None => match block.event {
                MetadataEvent::SetVocab(e) => Some(e),
                _ => None,
            },
        }),
        first_vocab(older) is Some <==> exists|i: int|
            0 <= i < older.len() && (#[trigger] older[i]).event is SetVocab,
    decreases older.len(),
{
    let one = seq![block];
    if older.len() == 0 {
        assert(one + older == one);
        assert(one.drop_last() == Seq::<MetadataBlock>::empty());
        reveal_with_fuel(first_vocab, 2);
    } else {
        lemma_first_vocab(block, older.drop_last());
        assert((one + older).drop_last() == one + older.drop_last());
        assert((one + older).last() == older.last());
        if older.last().event is SetVocab {
            assert(older[older.len() - 1].event is SetVocab);
        } else if first_vocab(older.drop_last()) is Some {
            let i = choose|i: int|
                0 <= i < older.drop_last().len() && (
                #[trigger] older.drop_last()[i]).event is SetVocab;
            assert(older[i].event is SetVocab);
        } else {
            assert forall|i: int| 0 <= i < older.len() implies !((
            #[trigger] older[i]).event is SetVocab) by {
                if i < older.len() - 1 {
                    assert(older.drop_last()[i] == older[i]);
                }
            }
        }
    }
}

/// The chain of a root dataset that has a source can be written to; one with a query, or of
/// a derived dataset, cannot, and neither can one without a source.
pub proof fn law_what_can_be_written_to(blocks: Seq<MetadataBlock>, i: int)
    requires
        0 <= i < blocks.len(),
    ensures
        writable(blocks) ==> !(blocks[i].event is ExecuteQuery) && (
        blocks[i].event matches MetadataEvent::Seed(seed) ==> seed.dataset_kind is Root),
        writable(blocks) ==> newest_merge(blocks) is Some,
        newest_merge(blocks) is Some && (newest_offset(blocks) matches Some(n) && n <= i64::MAX) && (
        forall|j: int|
            0 <= j < blocks.len() ==> !((#[trigger] blocks[j]).event is ExecuteQuery) && (
            blocks[j].event matches MetadataEvent::Seed(seed) ==> seed.dataset_kind is Root))
            ==> writable(blocks),
{
    if writable(blocks) {
        assert(admissible(blocks[i].event));
    }
}

/// A definition stands for the strategy of its name: a ledger by its key, and a snapshot by
/// its definition, with the offset to tell which of two records is later.
pub proof fn law_strategy_of_a_definition(
    conf: MergeStrategyConf,
    vocab: crate::ingest::schema::VocabularyView,
    strategy: MergeStrategy,
)
    requires
        strategy_of(conf, vocab, strategy),
    ensures
        match (conf, strategy) {
            (MergeStrategyConf::Append, MergeStrategy::Append) => true,
            (MergeStrategyConf::Ledger(conf), MergeStrategy::Ledger(key)) => key
                == conf.primary_key,
            (MergeStrategyConf::Snapshot(conf), MergeStrategy::Snapshot(column, made)) => made
                == conf && column@ == vocab.offset_column,
            _ => false,
        },
{
}

} // verus!
