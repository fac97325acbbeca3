//! What the metadata of a dataset says at present.

use vstd::prelude::*;

use crate::dataset::summary::DatasetSummary;
use crate::ids::DatasetID;
use crate::metadata::{
    AttachmentEmbedded, MetadataBlock, MetadataEvent, SetAttachments, SetInfo, SetLicense,
    SetPollingSource, SetTransform, TransformInput,
};
use crate::time::DateTime;

verus! {

/// A dataset, by identity and name.
#[derive(Debug, PartialEq, Eq)]
pub struct DatasetHandle {
    pub id: DatasetID,
    pub name: String,
}

/// How a schema is written down.
#[derive(Debug, Clone, Copy, PartialEq, Eq, Structural)]
pub enum DataSchemaFormat {
    Parquet,
    ParquetJson,
}

/// The format of a schema.
pub open spec fn format_or_usual(format: Option<DataSchemaFormat>) -> DataSchemaFormat {
    match format {
        Some(f) => f,
        None => DataSchemaFormat::Parquet,
    }
}

/// The format of a schema, also if none is asked for.
pub fn schema_format(format: Option<DataSchemaFormat>) -> (r: DataSchemaFormat)
    ensures
        r == format_or_usual(format),
{
    format.unwrap_or(DataSchemaFormat::Parquet)
}

/// A dataset in a list of all datasets: the identity it is listed under, and what
/// its summary says that it is and depends on.
#[derive(Debug, PartialEq, Eq)]
pub struct ListedDataset {
    pub listed_id: DatasetID,
    pub handle: DatasetHandle,
    pub dependencies: Vec<TransformInput>,
}

/// Answers questions about one dataset. The blocks of its chain are given newest
/// first.
#[derive(Debug)]
pub struct DatasetMetadata {
    dataset_handle: DatasetHandle,
}

impl Clone for DatasetHandle {
    fn clone(&self) -> (r: Self)
        ensures
            r == *self,
    {
        DatasetHandle { id: self.id.clone(), name: self.name.clone() }
    }
}

/// The path of the attachment that describes the dataset.
pub open spec fn readme_path() -> Seq<char> {
    "README.md"@
}

pub open spec fn watermark(block: MetadataBlock) -> Option<DateTime> {
    block.event.spec_output_watermark()
}

pub open spec fn polling_source(block: MetadataBlock) -> Option<SetPollingSource> {
    match block.event {
        MetadataEvent::SetPollingSource(e) => Some(e),
        _ => None,
    }
}

pub open spec fn transform(block: MetadataBlock) -> Option<SetTransform> {
    match block.event {
        MetadataEvent::SetTransform(e) => Some(e),
        _ => None,
    }
}

pub open spec fn info(block: MetadataBlock) -> Option<SetInfo> {
    match block.event {
        MetadataEvent::SetInfo(e) => Some(e),
        _ => None,
    }
}

pub open spec fn license(block: MetadataBlock) -> Option<SetLicense> {
    match block.event {
        MetadataEvent::SetLicense(e) => Some(e),
        _ => None,
    }
}

pub open spec fn attachments(block: MetadataBlock) -> Option<SetAttachments> {
    match block.event {
        MetadataEvent::SetAttachments(e) => Some(e),
        _ => None,
    }
}

/// A value behind a reference that may be absent.
pub open spec fn value<T>(r: Option<&T>) -> Option<T> {
    match r {
        Some(t) => Some(*t),
        None => None,
    }
}

/// The content of the first attachment at the given path.
pub open spec fn content_at(items: Seq<AttachmentEmbedded>, path: Seq<char>) -> Option<String>
    decreases items.len(),
{
    if items.len() == 0 {
        None
    } else {
        match content_at(items.drop_last(), path) {
            Some(content) => Some(content),
            None => if items.last().path@ == path {
                Some(items.last().content)
            } else {
                None
            },
        }
    }
}

/// The readme among the attachments set last.
pub open spec fn readme(blocks: Seq<MetadataBlock>) -> Option<String> {
    match crate::metadata::newest(blocks, |b: MetadataBlock| attachments(b)) {
        Some(a) => content_at(a.items@, readme_path()),
        None => None,
    }
}

/// The datasets that inputs stand for.
pub open spec fn upstream(inputs: Seq<TransformInput>) -> Seq<DatasetHandle> {
    inputs.map_values(
        |input: TransformInput| DatasetHandle { id: input.id->0, name: input.name },
    )
}

/// One of the inputs is the dataset.
pub open spec fn reads(inputs: Seq<TransformInput>, id: Seq<char>) -> bool {
    exists|i: int|
        0 <= i < inputs.len() && ((#[trigger] inputs[i]).id matches Some(input) && input@ == id)
}

/// Those of the datasets that read the given one, itself left out.
pub open spec fn readers(all: Seq<ListedDataset>, id: Seq<char>) -> Seq<DatasetHandle>
    decreases all.len(),
{
    if all.len() == 0 {
        Seq::empty()
    } else {
        let before = readers(all.drop_last(), id);
        let last = all.last();
        if last.listed_id@ != id && reads(last.dependencies@, id) {
            before.push(last.handle)
        } else {
            before
        }
    }
}

impl DatasetMetadata {
    pub closed spec fn handle(&self) -> DatasetHandle {
        self.dataset_handle
    }

    pub fn new(dataset_handle: DatasetHandle) -> (r: Self)
        ensures
            r.handle() == dataset_handle,
    {
        DatasetMetadata { dataset_handle }
    }

    /// The dataset whose chain is to be read
    pub fn get_chain(&self) -> (r: &DatasetHandle)
        ensures
            *r == self.handle(),
    {
        &self.dataset_handle
    }

    /// Last recorded watermark
    pub fn current_watermark(&self, blocks: &Vec<MetadataBlock>) -> (r: Option<DateTime>)
        ensures
            r == crate::metadata::newest(blocks@, |b: MetadataBlock| watermark(b)),
            blocks@.len() > 0 ==> (blocks@[0].event matches MetadataEvent::AddData(e) ==> (
            e.output_watermark is Some ==> r == e.output_watermark)),
            blocks@.len() > 0 ==> (blocks@[0].event matches MetadataEvent::ExecuteQuery(e) ==> (
            e.output_watermark is Some ==> r == e.output_watermark)),
            blocks@.len() > 0 ==> (blocks@[0].event matches MetadataEvent::SetWatermark(e) ==> r
                == Some(e.output_watermark)),
    {
        let ghost f = |b: MetadataBlock| watermark(b);
        for i in 0..blocks.len()
            invariant
                f == (|b: MetadataBlock| watermark(b)),
                crate::metadata::newest(blocks@.take(i as int), f) is None,
        {
            proof {
                assert(blocks@.take(i + 1).drop_last() == blocks@.take(i as int));
            }
            if let Some(time) = blocks[i].event.output_watermark() {
                proof {
                    crate::metadata::lemma_newest_found(blocks@, f, i + 1);
                    crate::metadata::law_newest_block_that_says_it(blocks@, f, 0);
                }
                return Some(time);
            }
        }
        proof {
            assert(blocks@.take(blocks@.len() as int) == blocks@);
            crate::metadata::law_newest_block_that_says_it(blocks@, f, 0);
        }
        None
    }

    /// Current upstream dependencies of a dataset
    pub fn current_upstream_dependencies(&self, summary: &DatasetSummary) -> (r: Vec<DatasetHandle>)
        requires
            forall|i: int|
                0 <= i < summary.dependencies@.len() ==> (
                #[trigger] summary.dependencies@[i]).id is Some,
        ensures
            r@ == upstream(summary.dependencies@),
    {
        let mut handles: Vec<DatasetHandle> = Vec::new();
        for i in 0..summary.dependencies.len()
            invariant
                forall|i: int|
                    0 <= i < summary.dependencies@.len() ==> (
                    #[trigger] summary.dependencies@[i]).id is Some,
                handles@ == summary.dependencies@.take(i as int).map_values(
                    |input: TransformInput| DatasetHandle { id: input.id->0, name: input.name },
                ),
        {
            let input = &summary.dependencies[i];
            if let Some(id) = &input.id {
                handles.push(DatasetHandle { id: id.clone(), name: input.name.clone() });
            }
            proof {
                assert(summary.dependencies@.take(i + 1) == summary.dependencies@.take(
                    i as int,
                ).push(*input));
            }
        }
        proof {
            assert(summary.dependencies@.take(summary.dependencies@.len() as int)
                == summary.dependencies@);
        }
        handles
    }

    /// Current downstream dependencies of a dataset
    pub fn current_downstream_dependencies(&self, all_datasets: &Vec<ListedDataset>) -> (r: Vec<
        DatasetHandle,
    >)
        ensures
            r@ == readers(all_datasets@, self.handle().id@),
    {
        let mut handles: Vec<DatasetHandle> = Vec::new();
        for i in 0..all_datasets.len()
            invariant
                handles@ == readers(all_datasets@.take(i as int), self.handle().id@),
        {
            let listed = &all_datasets[i];
            proof {
                assert(all_datasets@.take(i + 1).drop_last() == all_datasets@.take(i as int));
                assert(all_datasets@.take(i + 1).last() == *listed);
            }
            if !(listed.listed_id.did == self.dataset_handle.id.did) && depends_on(
                &listed.dependencies,
                &self.dataset_handle.id,
            ) {
                handles.push(listed.handle.clone());
            }
        }
        proof {
            assert(all_datasets@.take(all_datasets@.len() as int) == all_datasets@);
        }
        handles
    }

    /// Current source used by the root dataset
    pub fn current_source<'a>(&self, blocks: &'a Vec<MetadataBlock>) -> (r: Option<
        &'a SetPollingSource,
    >)
        ensures
            value(r) == crate::metadata::newest(blocks@, |b: MetadataBlock| polling_source(b)),
    {
        let ghost f = |b: MetadataBlock| polling_source(b);
        for i in 0..blocks.len()
            invariant
                f == (|b: MetadataBlock| polling_source(b)),
                crate::metadata::newest(blocks@.take(i as int), f) is None,
        {
            proof {
                assert(blocks@.take(i + 1).drop_last() == blocks@.take(i as int));
            }
            if let MetadataEvent::SetPollingSource(e) = &blocks[i].event {
                proof {
                    crate::metadata::lemma_newest_found(blocks@, f, i + 1);
                }
                return Some(e);
            }
        }
        proof {
            assert(blocks@.take(blocks@.len() as int) == blocks@);
        }
        None
    }

    /// Current transformation used by the derivative dataset
    pub fn current_transform<'a>(&self, blocks: &'a Vec<MetadataBlock>) -> (r: Option<
        &'a SetTransform,
    >)
        ensures
            value(r) == crate::metadata::newest(blocks@, |b: MetadataBlock| transform(b)),
    {
        let ghost f = |b: MetadataBlock| transform(b);
        for i in 0..blocks.len()
            invariant
                f == (|b: MetadataBlock| transform(b)),
                crate::metadata::newest(blocks@.take(i as int), f) is None,
        {
            proof {
                assert(blocks@.take(i + 1).drop_last() == blocks@.take(i as int));
            }
            if let MetadataEvent::SetTransform(e) = &blocks[i].event {
                proof {
                    crate::metadata::lemma_newest_found(blocks@, f, i + 1);
                }
                return Some(e);
            }
        }
        proof {
            assert(blocks@.take(blocks@.len() as int) == blocks@);
        }
        None
    }

    /// Current descriptive information about the dataset
    pub fn current_info(&self, blocks: &Vec<MetadataBlock>) -> (r: SetInfo)
        ensures
            describes(r, blocks@),
    {
        let ghost f = |b: MetadataBlock| info(b);
        for i in 0..blocks.len()
            invariant
                f == (|b: MetadataBlock| info(b)),
                crate::metadata::newest(blocks@.take(i as int), f) is None,
        {
            proof {
                assert(blocks@.take(i + 1).drop_last() == blocks@.take(i as int));
            }
            if let MetadataEvent::SetInfo(e) = &blocks[i].event {
                proof {
                    crate::metadata::lemma_newest_found(blocks@, f, i + 1);
                }
                return SetInfo {
                    description: e.description.clone(),
                    keywords: clone_keywords(&e.keywords),
                };
            }
        }
        proof {
            assert(blocks@.take(blocks@.len() as int) == blocks@);
        }
        SetInfo { description: None, keywords: None }
    }

    /// Current readme file as discovered from attachments associated with the dataset
    pub fn current_readme(&self, blocks: &Vec<MetadataBlock>) -> (r: Option<String>)
        ensures
            r == readme(blocks@),
    {
        let ghost f = |b: MetadataBlock| attachments(b);
        for i in 0..blocks.len()
            invariant
                f == (|b: MetadataBlock| attachments(b)),
                crate::metadata::newest(blocks@.take(i as int), f) is None,
        {
            proof {
                assert(blocks@.take(i + 1).drop_last() == blocks@.take(i as int));
            }
            if let MetadataEvent::SetAttachments(e) = &blocks[i].event {
                proof {
                    crate::metadata::lemma_newest_found(blocks@, f, i + 1);
                }
                return find_readme(&e.items);
            }
        }
        proof {
            assert(blocks@.take(blocks@.len() as int) == blocks@);
        }
        None
    }

    /// Current license associated with the dataset
    pub fn current_license<'a>(&self, blocks: &'a Vec<MetadataBlock>) -> (r: Option<&'a SetLicense>)
        ensures
            value(r) == crate::metadata::newest(blocks@, |b: MetadataBlock| license(b)),
    {
        let ghost f = |b: MetadataBlock| license(b);
        for i in 0..blocks.len()
            invariant
                f == (|b: MetadataBlock| license(b)),
                crate::metadata::newest(blocks@.take(i as int), f) is None,
        {
            proof {
                assert(blocks@.take(i + 1).drop_last() == blocks@.take(i as int));
            }
            if let MetadataEvent::SetLicense(e) = &blocks[i].event {
                proof {
                    crate::metadata::lemma_newest_found(blocks@, f, i + 1);
                }
                return Some(e);
            }
        }
        proof {
            assert(blocks@.take(blocks@.len() as int) == blocks@);
        }
        None
    }
}

/// The information is the one set last.
pub open spec fn describes(r: SetInfo, blocks: Seq<MetadataBlock>) -> bool {
    match crate::metadata::newest(blocks, |b: MetadataBlock| info(b)) {
        Some(i) => r.description == i.description && same_keywords(r.keywords, i.keywords),
        None => r.description is None && r.keywords is None,
    }
}

/// The same keywords, or none in both.
pub open spec fn same_keywords(a: Option<Vec<String>>, b: Option<Vec<String>>) -> bool {
    match (a, b) {
        (Some(a), Some(b)) => a@ == b@,
        (None, None) => true,
        _ => false,
    }
}

fn clone_keywords(keywords: &Option<Vec<String>>) -> (r: Option<Vec<String>>)
    ensures
        same_keywords(r, *keywords),
{
    match keywords {
        Some(words) => {
            let mut copy: Vec<String> = Vec::new();
            for i in 0..words.len()
                invariant
                    copy@ == words@.take(i as int),
            {
                copy.push(words[i].clone());
                proof {
                    assert(words@.take(i + 1) == words@.take(i as int).push(words@[i as int]));
                }
            }
            proof {
                assert(words@.take(words@.len() as int) == words@);
            }
            Some(copy)
        },
        None => None,
    }
}

fn depends_on(inputs: &Vec<TransformInput>, id: &DatasetID) -> (r: bool)
    ensures
        r == reads(inputs@, id@),
{
    for i in 0..inputs.len()
        invariant
            forall|j: int|
                0 <= j < i ==> !((#[trigger] inputs@[j]).id matches Some(input) && input@ == id@),
    {
        if let Some(input) = &inputs[i].id {
            if input.did == id.did {
                assert(inputs@[i as int].id matches Some(input) && input@ == id@);
                return true;
            }
        }
    }
    false
}

fn find_readme(items: &Vec<AttachmentEmbedded>) -> (r: Option<String>)
    ensures
        r == content_at(items@, readme_path()),
{
    let readme = "README.md".to_owned();
    for i in 0..items.len()
        invariant
            readme@ == readme_path(),
            content_at(items@.take(i as int), readme_path()) is None,
    {
        proof {
            assert(items@.take(i + 1).drop_last() == items@.take(i as int));
        }
        if items[i].path == readme {
            proof {
                lemma_content_found(items@, readme_path(), i + 1);
            }
            return Some(items[i].content.clone());
        }
    }
    proof {
        assert(items@.take(items@.len() as int) == items@);
    }
    None
}

proof fn lemma_content_found(items: Seq<AttachmentEmbedded>, path: Seq<char>, n: int)
    requires
        0 <= n <= items.len(),
        content_at(items.take(n), path) is Some,
    ensures
        content_at(items, path) == content_at(items.take(n), path),
    decreases items.len(),
{
    if n == items.len() {
        assert(items.take(n) == items);
    } else {
        assert(items.drop_last().take(n) == items.take(n));
        lemma_content_found(items.drop_last(), path, n);
    }
}

/// Appending a block changes nothing that the block does not speak of: what it
/// says counts, and all else is as before.
pub proof fn law_newest_block_has_the_say<T>(
    block: MetadataBlock,
    older: Seq<MetadataBlock>,
    f: spec_fn(MetadataBlock) -> Option<T>,
)
    ensures
        crate::metadata::newest(seq![block] + older, f) == (match f(block) {
            Some(t) => Some(t),
            None => crate::metadata::newest(older, f),
        }),
{
    crate::metadata::lemma_newest_concat(seq![block], older, f);
    assert(seq![block].drop_last() == Seq::<MetadataBlock>::empty());
    reveal_with_fuel(crate::metadata::newest, 2);
}

/// The current watermark is that of the newest block that carries one, be it an addition
/// of data, a query or a change of the watermark alone. A block without one leaves it as it
/// was, and without any such block there is none.
pub proof fn law_current_watermark(block: MetadataBlock, older: Seq<MetadataBlock>)
    ensures
        ({
            let current = |blocks: Seq<MetadataBlock>|
                crate::metadata::newest(blocks, |b: MetadataBlock| watermark(b));
            let now = current(seq![block] + older);
            &&& current(Seq::empty()) is None
            &&& match block.event {
                MetadataEvent::AddData(e) => match e.output_watermark {
                    Some(w) => now == Some(w),
                    None => now == current(older),
                },
                MetadataEvent::ExecuteQuery(e) => match e.output_watermark {
                    Some(w) => now == Some(w),
                    None => now == current(older),
                },
                MetadataEvent::SetWatermark(e) => now == Some(e.output_watermark),
                _ => now == current(older),
            }
        }),
{
    law_newest_block_has_the_say(block, older, |b: MetadataBlock| watermark(b));
}

/// The watermark that a writer goes on from after it has committed records is the current
/// one, if there is one.
pub proof fn law_writer_and_reader_agree_on_the_watermark(
    w: crate::ingest::writer::WriterView,
    head: crate::ids::Multihash,
    block: MetadataBlock,
    older: Seq<MetadataBlock>,
)
    requires
        block.event is AddData,
    ensures
        crate::ingest::writer::after_commit(
            w,
            head,
            block.event->AddData_0,
        ).prev_watermark matches Some(time) ==> crate::metadata::newest(
            seq![block] + older,
            |b: MetadataBlock| watermark(b),
        ) == Some(time),
{
    law_newest_block_has_the_say(block, older, |b: MetadataBlock| watermark(b));
}

/// The current source, transform, information, license and attachments are those set last.
/// Each is changed by a block that sets it, and by no other.
pub proof fn law_what_was_set_last_counts(block: MetadataBlock, older: Seq<MetadataBlock>)
    ensures
        ({
            let source = |blocks: Seq<MetadataBlock>|
                crate::metadata::newest(blocks, |b: MetadataBlock| polling_source(b));
            let query = |blocks: Seq<MetadataBlock>|
                crate::metadata::newest(blocks, |b: MetadataBlock| transform(b));
            let described = |blocks: Seq<MetadataBlock>|
                crate::metadata::newest(blocks, |b: MetadataBlock| info(b));
            let licensed = |blocks: Seq<MetadataBlock>|
                crate::metadata::newest(blocks, |b: MetadataBlock| license(b));
            let attached = |blocks: Seq<MetadataBlock>|
                crate::metadata::newest(blocks, |b: MetadataBlock| attachments(b));
            let none = Seq::<MetadataBlock>::empty();
            let all = seq![block] + older;
            &&& source(none) is None && query(none) is None && described(none) is None && licensed(
                none,
            ) is None && attached(none) is None
            &&& block.event matches MetadataEvent::SetPollingSource(e) ==> source(all) == Some(e)
            &&& !(block.event is SetPollingSource) ==> source(all) == source(older)
            &&& block.event matches MetadataEvent::SetTransform(e) ==> query(all) == Some(e)
            &&& !(block.event is SetTransform) ==> query(all) == query(older)
            &&& block.event matches MetadataEvent::SetInfo(e) ==> described(all) == Some(e)
            &&& !(block.event is SetInfo) ==> described(all) == described(older)
            &&& block.event matches MetadataEvent::SetLicense(e) ==> licensed(all) == Some(e)
            &&& !(block.event is SetLicense) ==> licensed(all) == licensed(older)
            &&& block.event matches MetadataEvent::SetAttachments(e) ==> attached(all) == Some(e)
            &&& !(block.event is SetAttachments) ==> attached(all) == attached(older)
        }),
{
    law_newest_block_has_the_say(block, older, |b: MetadataBlock| polling_source(b));
    law_newest_block_has_the_say(block, older, |b: MetadataBlock| transform(b));
    law_newest_block_has_the_say(block, older, |b: MetadataBlock| info(b));
    law_newest_block_has_the_say(block, older, |b: MetadataBlock| license(b));
    law_newest_block_has_the_say(block, older, |b: MetadataBlock| attachments(b));
}

/// What is found among attachments at a path is the content of the first one there, and
/// nothing if none is there.
pub proof fn law_first_attachment_at_a_path(
    items: Seq<AttachmentEmbedded>,
    path: Seq<char>,
    i: int,
)
    ensures
        content_at(items, path) is None <==> forall|j: int|
            0 <= j < items.len() ==> (#[trigger] items[j]).path@ != path,
        0 <= i < items.len() && items[i].path@ == path && (forall|j: int|
            0 <= j < i ==> (#[trigger] items[j]).path@ != path) ==> content_at(items, path) == Some(
            items[i].content,
        ),
        readme_path() == "README.md"@,
    decreases items.len(),
{
    if items.len() > 0 {
        let init = items.drop_last();
        law_first_attachment_at_a_path(init, path, i);
        assert(forall|j: int| 0 <= j < init.len() ==> init[j] == items[j]);
        if content_at(items, path) is None {
            assert forall|j: int| 0 <= j < items.len() implies (
            #[trigger] items[j]).path@ != path by {
                if j < init.len() {
                    assert(init[j].path@ != path);
                }
            }
        }
        if forall|j: int| 0 <= j < items.len() ==> (#[trigger] items[j]).path@ != path {
            assert forall|j: int| 0 <= j < init.len() implies (
            #[trigger] init[j]).path@ != path by {
                assert(items[j].path@ != path);
            }
            assert(items[items.len() - 1].path@ != path);
        }
        if 0 <= i < items.len() && items[i].path@ == path && (forall|j: int|
            0 <= j < i ==> (#[trigger] items[j]).path@ != path) {
            assert forall|j: int| 0 <= j < i implies (#[trigger] init[j]).path@ != path by {
                assert(items[j].path@ != path);
            }
            if i < init.len() {
                assert(init[i].path@ == path);
            } else {
                assert(content_at(init, path) is None);
            }
        }
    }
}

/// The datasets downstream are those that have the dataset among their inputs, itself left
/// out: one after the other, each as it calls itself, and each once for each time that it
/// is listed.
pub proof fn law_downstream_datasets(
    all: Seq<ListedDataset>,
    listed: ListedDataset,
    id: Seq<char>,
)
    ensures
        readers(Seq::empty(), id).len() == 0,
        ({
            let is_input = exists|i: int|
                0 <= i < listed.dependencies@.len() && ((
                #[trigger] listed.dependencies@[i]).id matches Some(input) && input@ == id);
            if listed.listed_id@ != id && is_input {
                readers(all.push(listed), id) == readers(all, id).push(listed.handle)
            } else {
                readers(all.push(listed), id) == readers(all, id)
            }
        }),
{
    assert(all.push(listed).drop_last() == all);
}

/// The datasets upstream are the inputs, each by its identity and its name, in their order.
pub proof fn law_upstream_datasets(inputs: Seq<TransformInput>, i: int)
    requires
        0 <= i < inputs.len(),
        inputs[i].id is Some,
    ensures
        upstream(inputs).len() == inputs.len(),
        inputs[i].id == Some(upstream(inputs)[i].id),
        upstream(inputs)[i].name == inputs[i].name,
{
}

/// A schema comes in the format that was asked for, and as Parquet if none was.
pub proof fn law_format_that_was_asked_for(format: DataSchemaFormat)
    ensures
        format_or_usual(Some(format)) == format,
        format_or_usual(None) is Parquet,
{
}

/// The readme is what the attachments set last hold at its path; older ones do not count,
/// even where the last hold none.
pub proof fn law_readme_is_among_the_last_attachments(
    block: MetadataBlock,
    older: Seq<MetadataBlock>,
)
    ensures
        readme(Seq::empty()) is None,
        match block.event {
            MetadataEvent::SetAttachments(e) => readme(seq![block] + older) == content_at(
                e.items@,
                "README.md"@,
            ),
            _ => readme(seq![block] + older) == readme(older),
        },
{
    law_newest_block_has_the_say(block, older, |b: MetadataBlock| attachments(b));
}

/// The current information is that set last, its description and its keywords as they were
/// set; there is neither if none was set.
pub proof fn law_current_info(block: MetadataBlock, older: Seq<MetadataBlock>, r: SetInfo)
    ensures
        describes(r, Seq::empty()) <==> r.description is None && r.keywords is None,
        match block.event {
            MetadataEvent::SetInfo(e) => describes(r, seq![block] + older) <==> r.description
                == e.description && (match (r.keywords, e.keywords) {
                (Some(a), Some(b)) => a@ == b@,
                (None, None) => true,
                (Some(_), None) => false,
                (None, Some(_)) => false,
            }),
            _ => describes(r, seq![block] + older) == describes(r, older),
        },
{
    law_newest_block_has_the_say(block, older, |b: MetadataBlock| info(b));
}

} // verus!
