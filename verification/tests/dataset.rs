use kamu::dataset::commit::{
    add_data_event, add_data_opts, append_opts, commit_result, labelled_block, next_block,
    next_ref_check, prev_block_hash, refs_to_check, AppendError, AppendOpts, CommitError,
    CommitOpts, CommitResult, GetRefError, ObjectRef, ObjectRepo, RefCheck, StoredCheckpoint,
    StoredData,
};
use kamu::dataset::commit_session::{CommitAction, CommitAnswer, CommitSession};
use kamu::dataset::dataset_impl::{
    get_summary, is_updatable, read_summary, stored_summary, summary_object_name, summary_scan, update_summary,
    write_summary, ChainInterval, DatasetImpl, GetSummaryError, NamedObjectError, SummaryManifest,
};
use kamu::dataset::dataset_metadata::{
    schema_format, DataSchemaFormat, DatasetHandle, DatasetMetadata, ListedDataset,
};
use kamu::dataset::summary::{compute_summary_increment, DatasetSummary};
use kamu::error::{InternalError, InvalidObjectKind};
use kamu::ids::{DatasetID, Multihash};
use kamu::metadata::{
    AddData, AttachmentEmbedded, BlockRef, Checkpoint, DataSlice, DatasetKind, ExecuteQuery,
    MergeStrategyConf, MetadataBlock, MetadataEvent, OffsetInterval, Seed, SetAttachments, SetInfo,
    SetLicense, SetPollingSource, SetTransform, SetWatermark, SourceState, TransformInput,
};
use kamu::time::DateTime;

fn at(secs: i64) -> DateTime {
    DateTime::from_timestamp(secs, 0).unwrap()
}

fn hash(text: &str) -> Multihash {
    Multihash { text: text.to_owned() }
}

fn dataset(name: &str) -> DatasetID {
    DatasetID { did: format!("did:odf:{}", name) }
}

fn block(secs: i64, event: MetadataEvent) -> MetadataBlock {
    MetadataBlock { prev_block_hash: None, sequence_number: 0, system_time: at(secs), event }
}

fn slice(name: &str, start: i64, end: i64, size: i64) -> DataSlice {
    DataSlice {
        logical_hash: hash(&format!("l-{}", name)),
        physical_hash: hash(name),
        interval: OffsetInterval { start, end },
        size,
    }
}

fn add_data(data: Option<DataSlice>, checkpoint: Option<Checkpoint>) -> AddData {
    AddData {
        input_checkpoint: None,
        output_data: data,
        output_checkpoint: checkpoint,
        output_watermark: None,
        source_state: None,
    }
}

fn seed() -> MetadataEvent {
    MetadataEvent::Seed(Seed { dataset_id: dataset("a"), dataset_kind: DatasetKind::Derivative })
}

fn inputs(names: &[&str]) -> Vec<TransformInput> {
    names
        .iter()
        .map(|n| TransformInput { id: Some(dataset(n)), name: (*n).to_owned() })
        .collect()
}

fn set_transform(names: &[&str]) -> MetadataEvent {
    MetadataEvent::SetTransform(SetTransform { inputs: inputs(names), transform: "sql".to_owned() })
}

/// Newest first.
fn older_blocks() -> Vec<MetadataBlock> {
    vec![
        block(
            30,
            MetadataEvent::AddData(add_data(
                Some(slice("s1", 0, 9, 100)),
                Some(Checkpoint { physical_hash: hash("c1"), size: 7 }),
            )),
        ),
        block(20, set_transform(&["x"])),
        block(10, seed()),
    ]
}

fn newer_blocks() -> Vec<MetadataBlock> {
    vec![
        block(60, MetadataEvent::SetWatermark(SetWatermark { output_watermark: at(55) })),
        block(
            50,
            MetadataEvent::ExecuteQuery(ExecuteQuery {
                input_checkpoint: None,
                output_data: Some(slice("s2", 10, 14, 50)),
                output_checkpoint: None,
                output_watermark: Some(at(48)),
            }),
        ),
        block(40, set_transform(&["y", "z"])),
    ]
}

fn old_summary() -> DatasetSummary {
    DatasetSummary {
        id: dataset("a"),
        kind: DatasetKind::Derivative,
        last_block_hash: hash("h3"),
        dependencies: inputs(&["x"]),
        last_pulled: Some(at(30)),
        num_records: 10,
        data_size: 100,
        checkpoints_size: 7,
    }
}

fn new_summary() -> DatasetSummary {
    DatasetSummary {
        id: dataset("a"),
        kind: DatasetKind::Derivative,
        last_block_hash: hash("h6"),
        dependencies: inputs(&["y", "z"]),
        last_pulled: Some(at(50)),
        num_records: 15,
        data_size: 150,
        checkpoints_size: 7,
    }
}

#[test]
fn test_summary_of_a_whole_chain() {
    let increment = compute_summary_increment(&hash("h3"), &older_blocks());
    assert!(increment.seen_chain_beginning());
    assert_eq!(increment.into_summary(), old_summary());
    assert_eq!(update_summary(None, &hash("h3"), &older_blocks()), old_summary());
}

#[test]
fn test_summary_is_extended() {
    let increment = compute_summary_increment(&hash("h6"), &newer_blocks());
    assert!(!increment.seen_chain_beginning());
    assert_eq!(increment.apply_to_summary(old_summary()), new_summary());
}

#[test]
fn test_incremental_summary_equals_full_scan() {
    let mut whole = newer_blocks();
    whole.extend(older_blocks());
    assert_eq!(update_summary(Some(old_summary()), &hash("h6"), &newer_blocks()), new_summary());
    assert_eq!(update_summary(None, &hash("h6"), &whole), new_summary());
    // A reset history overrules what was known
    assert_eq!(update_summary(Some(new_summary()), &hash("h3"), &older_blocks()), old_summary());
}

#[test]
fn test_summary_without_data() {
    let summary = update_summary(None, &hash("h1"), &vec![block(1, seed())]);
    assert_eq!(summary.dependencies, vec![]);
    assert_eq!(summary.last_pulled, None);
    assert_eq!((summary.num_records, summary.data_size, summary.checkpoints_size), (0, 0, 0));
}

#[test]
fn test_summary_is_only_scanned_when_stale() {
    assert_eq!(summary_scan(&None, None), None);
    assert_eq!(summary_scan(&Some(old_summary()), None), None);
    assert_eq!(summary_scan(&Some(old_summary()), Some(hash("h3"))), None);
    assert_eq!(
        summary_scan(&Some(old_summary()), Some(hash("h6"))),
        Some(ChainInterval { head: hash("h6"), tail: Some(hash("h3")) })
    );
    assert_eq!(
        summary_scan(&None, Some(hash("h6"))),
        Some(ChainInterval { head: hash("h6"), tail: None })
    );
}

#[test]
fn test_summary_manifest_round_trip() {
    let manifest = write_summary(old_summary());
    assert_eq!(manifest.kind, "DatasetSummary");
    assert_eq!(manifest.version, 1);
    assert_eq!(read_summary(manifest), Ok(old_summary()));
    assert_eq!(
        read_summary(SummaryManifest {
            kind: "DatasetSnapshot".to_owned(),
            version: 1,
            content: old_summary(),
        }),
        Err(GetSummaryError::Internal(InternalError::InvalidObjectKind(InvalidObjectKind {
            expected: "DatasetSummary".to_owned(),
            actual: "DatasetSnapshot".to_owned(),
        })))
    );
}

#[test]
fn test_reading_the_stored_summary() {
    assert_eq!(summary_object_name(), "summary");
    assert_eq!(stored_summary(Ok(vec![1])), Ok(Some(vec![1])));
    assert_eq!(stored_summary(Err(NamedObjectError::NotFound)), Ok(None));
    assert_eq!(
        stored_summary(Err(NamedObjectError::Access("no".to_owned()))),
        Err(GetSummaryError::Access("no".to_owned()))
    );
    assert_eq!(
        stored_summary(Err(NamedObjectError::Internal("io".to_owned()))),
        Err(GetSummaryError::Internal(InternalError::Message("io".to_owned())))
    );
    assert_eq!(get_summary(Some(old_summary())), Ok(old_summary()));
    assert_eq!(get_summary(None), Err(GetSummaryError::EmptyDataset));
}

#[test]
fn test_dataset_holds_its_parts() {
    let d = DatasetImpl::new(1u8, "data", 'c', vec![4]);
    assert_eq!(*d.as_metadata_chain(), 1);
    assert_eq!(*d.as_data_repo(), "data");
    assert_eq!(*d.as_checkpoint_repo(), 'c');
    assert_eq!(*d.as_info_repo(), vec![4]);
}

fn opts() -> CommitOpts {
    CommitOpts {
        block_ref: BlockRef::Head,
        system_time: None,
        prev_block_hash: None,
        check_object_refs: true,
    }
}

#[test]
fn test_objects_are_checked_data_first() {
    let event = MetadataEvent::AddData(add_data(
        Some(slice("s1", 0, 1, 1)),
        Some(Checkpoint { physical_hash: hash("c1"), size: 1 }),
    ));
    let refs = refs_to_check(&event, true);
    assert_eq!(
        refs,
        vec![
            ObjectRef { repo: ObjectRepo::Data, hash: hash("s1") },
            ObjectRef { repo: ObjectRepo::Checkpoint, hash: hash("c1") },
        ]
    );
    assert_eq!(refs_to_check(&event, false), vec![]);
    assert_eq!(refs_to_check(&seed(), true), vec![]);
    assert_eq!(next_ref_check(&refs, &vec![]), RefCheck::Ask(0));
    assert_eq!(next_ref_check(&refs, &vec![true]), RefCheck::Ask(1));
    assert_eq!(next_ref_check(&refs, &vec![true, true]), RefCheck::Passed);
    assert_eq!(next_ref_check(&refs, &vec![false]), RefCheck::Missing(hash("s1")));
    assert_eq!(next_ref_check(&refs, &vec![true, false]), RefCheck::Missing(hash("c1")));
}

fn new_data() -> MetadataEvent {
    MetadataEvent::AddData(add_data(
        Some(slice("s1", 0, 1, 1)),
        Some(Checkpoint { physical_hash: hash("c1"), size: 1 }),
    ))
}

fn ask(repo: ObjectRepo, text: &str) -> CommitAction {
    CommitAction::Ask(ObjectRef { repo, hash: hash(text) })
}

#[test]
fn test_commit_step_by_step() {
    let mut checked = opts();
    checked.check_object_refs = true;
    let mut session = CommitSession::new(new_data(), checked);
    assert_eq!(session.next(CommitAnswer::Begin, at(5)), ask(ObjectRepo::Data, "s1"));
    assert_eq!(
        session.next(CommitAnswer::Contains(Ok(true)), at(5)),
        ask(ObjectRepo::Checkpoint, "c1")
    );
    assert_eq!(
        session.next(CommitAnswer::Contains(Ok(true)), at(5)),
        CommitAction::GetRef(BlockRef::Head)
    );
    assert_eq!(
        session.next(CommitAnswer::Head(Ok(hash("h"))), at(5)),
        CommitAction::GetBlock(hash("h"))
    );
    assert_eq!(
        session.next(CommitAnswer::SequenceNumber(Ok(7)), at(5)),
        CommitAction::Append(
            MetadataBlock {
                prev_block_hash: Some(hash("h")),
                sequence_number: 8,
                system_time: at(5),
                event: new_data(),
            },
            AppendOpts { update_ref: Some(BlockRef::Head), check_ref_is_prev_block: true }
        )
    );
    assert_eq!(
        session.next(CommitAnswer::Appended(Ok(hash("h2"))), at(5)),
        CommitAction::Finish(Ok(CommitResult {
            old_head: Some(hash("h")),
            new_head: hash("h2"),
        }))
    );
}

#[test]
fn test_missing_object_stops_the_commit() {
    let mut checked = opts();
    checked.check_object_refs = true;
    let mut session = CommitSession::new(new_data(), checked);
    session.next(CommitAnswer::Begin, at(5));
    session.next(CommitAnswer::Contains(Ok(true)), at(5));
    assert_eq!(
        session.next(CommitAnswer::Contains(Ok(false)), at(5)),
        CommitAction::Finish(Err(CommitError::ObjectNotFound(hash("c1"))))
    );
}

#[test]
fn test_first_block_of_a_chain() {
    let mut unchecked = opts();
    unchecked.check_object_refs = false;
    unchecked.prev_block_hash = Some(None);
    let mut session = CommitSession::new(seed(), unchecked);
    match session.next(CommitAnswer::Begin, at(5)) {
        CommitAction::Append(block, _) => {
            assert_eq!(block.sequence_number, 0);
            assert_eq!(block.prev_block_hash, None);
        }
        other => panic!("{:?}", other),
    }
    let refused = || AppendError { reason: "not the head".to_owned() };
    assert_eq!(
        session.next(CommitAnswer::Appended(Err(refused())), at(5)),
        CommitAction::Finish(Err(CommitError::MetadataAppendError(refused())))
    );
}

#[test]
fn test_commit_fails_where_a_question_does() {
    let failure = || InternalError::Message("broken".to_owned());
    let failed = || CommitAction::Finish(Err(CommitError::Internal(failure())));
    let mut checked = opts();
    checked.check_object_refs = true;
    let mut session = CommitSession::new(new_data(), checked);
    session.next(CommitAnswer::Begin, at(5));
    assert_eq!(session.next(CommitAnswer::Contains(Err(failure())), at(5)), failed());

    let mut unlabelled = CommitSession::new(seed(), opts());
    unlabelled.next(CommitAnswer::Begin, at(5));
    let access = CommitAnswer::Head(Err(GetRefError::Access("broken".to_owned())));
    assert_eq!(unlabelled.next(access, at(5)), failed());

    let mut named = opts();
    named.prev_block_hash = Some(Some(hash("h")));
    let mut session = CommitSession::new(seed(), named);
    assert_eq!(session.next(CommitAnswer::Begin, at(5)), CommitAction::GetBlock(hash("h")));
    assert_eq!(session.next(CommitAnswer::SequenceNumber(Err(failure())), at(5)), failed());
}

#[test]
fn test_format_of_a_schema() {
    assert_eq!(schema_format(None), DataSchemaFormat::Parquet);
    assert_eq!(schema_format(Some(DataSchemaFormat::ParquetJson)), DataSchemaFormat::ParquetJson);
}

#[test]
fn test_result_of_a_commit() {
    assert_eq!(
        commit_result(Some(hash("old")), Ok(hash("new"))),
        Ok(CommitResult { old_head: Some(hash("old")), new_head: hash("new") })
    );
    assert_eq!(
        commit_result(None, Err(AppendError { reason: "not the head".to_owned() })),
        Err(CommitError::MetadataAppendError(AppendError { reason: "not the head".to_owned() }))
    );
}

#[test]
fn test_block_to_append_to() {
    assert_eq!(labelled_block(Ok(hash("h"))), Ok(Some(hash("h"))));
    assert_eq!(labelled_block(Err(GetRefError::NotFound)), Ok(None));
    let internal = |text: &str| {
        Err(CommitError::Internal(InternalError::Message(text.to_owned())))
    };
    assert_eq!(labelled_block(Err(GetRefError::Access("a".to_owned()))), internal("a"));
    assert_eq!(labelled_block(Err(GetRefError::Internal("b".to_owned()))), internal("b"));

    assert_eq!(prev_block_hash(&opts(), Some(hash("h"))), Some(hash("h")));
    let mut named = opts();
    named.prev_block_hash = Some(Some(hash("g")));
    assert_eq!(prev_block_hash(&named, Some(hash("h"))), Some(hash("g")));
    named.prev_block_hash = Some(None);
    assert_eq!(prev_block_hash(&named, Some(hash("h"))), None);
}

#[test]
fn test_blocks_are_numbered_from_zero() {
    let first = next_block(None, None, &opts(), at(5), seed());
    assert_eq!(first.sequence_number, 0);
    assert_eq!(first.prev_block_hash, None);
    assert_eq!(first.system_time, at(5));
    let mut timed = opts();
    timed.system_time = Some(at(3));
    let second = next_block(
        Some(hash("h0")),
        Some(first.sequence_number),
        &timed,
        at(5),
        set_transform(&["x"]),
    );
    assert_eq!(second.sequence_number, 1);
    assert_eq!(second.prev_block_hash, Some(hash("h0")));
    assert_eq!(second.system_time, at(3));
    assert_eq!(
        append_opts(&opts()),
        AppendOpts { update_ref: Some(BlockRef::Head), check_ref_is_prev_block: true }
    );
}

#[test]
fn test_stored_files_become_an_event() {
    let source_state = SourceState {
        kind: "odf/etag".to_owned(),
        source: "src".to_owned(),
        value: "123".to_owned(),
    };
    let event = add_data_event(
        Some(hash("c0")),
        Some(StoredData {
            logical_hash: hash("l-s1"),
            physical_hash: hash("s1"),
            interval: OffsetInterval { start: 0, end: 9 },
            len: 100,
        }),
        Some(StoredCheckpoint { physical_hash: hash("c1"), len: 7 }),
        Some(at(9)),
        Some(source_state.clone()),
    );
    assert_eq!(
        event,
        MetadataEvent::AddData(AddData {
            input_checkpoint: Some(hash("c0")),
            output_data: Some(slice("s1", 0, 9, 100)),
            output_checkpoint: Some(Checkpoint { physical_hash: hash("c1"), size: 7 }),
            output_watermark: Some(at(9)),
            source_state: Some(source_state),
        })
    );
    assert!(!add_data_opts(opts()).check_object_refs);
}

fn metadata() -> DatasetMetadata {
    DatasetMetadata::new(DatasetHandle { id: dataset("a"), name: "a".to_owned() })
}

#[test]
fn test_current_watermark_is_the_newest() {
    let m = metadata();
    assert_eq!(m.get_chain().name, "a");
    assert_eq!(m.current_watermark(&newer_blocks()), Some(at(55)));
    let mut without_set = newer_blocks();
    without_set.remove(0);
    assert_eq!(m.current_watermark(&without_set), Some(at(48)));
    assert_eq!(m.current_watermark(&older_blocks()), None);
}

#[test]
fn test_current_transform_and_source() {
    let m = metadata();
    let mut whole = newer_blocks();
    whole.extend(older_blocks());
    assert_eq!(m.current_transform(&whole).unwrap().inputs, inputs(&["y", "z"]));
    assert_eq!(m.current_source(&whole), None);
    whole.push(block(
        1,
        MetadataEvent::SetPollingSource(SetPollingSource {
            fetch: "url".to_owned(),
            merge: MergeStrategyConf::Append,
        }),
    ));
    assert_eq!(m.current_source(&whole).unwrap().fetch, "url");
}

#[test]
fn test_current_info_has_a_default() {
    let m = metadata();
    let info = SetInfo {
        description: Some("d".to_owned()),
        keywords: Some(vec!["k1".to_owned(), "k2".to_owned()]),
    };
    let blocks = vec![block(
        1,
        MetadataEvent::SetInfo(SetInfo {
            description: Some("d".to_owned()),
            keywords: Some(vec!["k1".to_owned(), "k2".to_owned()]),
        }),
    )];
    assert_eq!(m.current_info(&blocks), info);
    assert_eq!(m.current_info(&vec![]), SetInfo { description: None, keywords: None });
}

#[test]
fn test_current_readme_and_license() {
    let m = metadata();
    let item = |path: &str, content: &str| AttachmentEmbedded {
        path: path.to_owned(),
        content: content.to_owned(),
    };
    let attach = |items: Vec<AttachmentEmbedded>| {
        block(1, MetadataEvent::SetAttachments(SetAttachments { items }))
    };
    let newest = attach(vec![item("LICENSE", "l"), item("README.md", "new"), item("README.md", "x")]);
    let oldest = attach(vec![item("README.md", "old")]);
    assert_eq!(m.current_readme(&vec![newest, oldest]), Some("new".to_owned()));
    let without = attach(vec![item("readme.md", "small")]);
    let oldest = attach(vec![item("README.md", "old")]);
    assert_eq!(m.current_readme(&vec![without, oldest]), None);
    assert_eq!(m.current_readme(&vec![]), None);

    let license = SetLicense {
        short_name: "MIT".to_owned(),
        name: "MIT License".to_owned(),
        spdx_id: None,
        website_url: "https://mit".to_owned(),
    };
    let blocks = vec![block(1, MetadataEvent::SetLicense(license))];
    assert_eq!(m.current_license(&blocks).unwrap().short_name, "MIT");
    assert_eq!(m.current_license(&vec![]), None);
}

#[test]
fn test_dependencies_up_and_down() {
    let m = metadata();
    let mut summary = old_summary();
    summary.dependencies = inputs(&["x", "y"]);
    assert_eq!(
        m.current_upstream_dependencies(&summary),
        vec![
            DatasetHandle { id: dataset("x"), name: "x".to_owned() },
            DatasetHandle { id: dataset("y"), name: "y".to_owned() },
        ]
    );
    let listed = |name: &str, reads: &[&str]| ListedDataset {
        listed_id: dataset(name),
        handle: DatasetHandle { id: dataset(name), name: name.to_owned() },
        dependencies: inputs(reads),
    };
    let unresolved = ListedDataset {
        listed_id: dataset("u"),
        handle: DatasetHandle { id: dataset("u"), name: "u".to_owned() },
        dependencies: vec![TransformInput { id: None, name: "a".to_owned() }],
    };
    let all = vec![
        listed("a", &["a"]),
        listed("b", &["x", "a"]),
        listed("c", &["x"]),
        unresolved,
        listed("d", &["a"]),
    ];
    assert_eq!(
        m.current_downstream_dependencies(&all),
        vec![
            DatasetHandle { id: dataset("b"), name: "b".to_owned() },
            DatasetHandle { id: dataset("d"), name: "d".to_owned() },
        ]
    );
}

#[test]
fn test_summaries_that_can_be_updated() {
    let h = hash("h");
    assert!(is_updatable(&None, &h, &older_blocks()));
    assert!(!is_updatable(&None, &h, &newer_blocks()));
    assert!(is_updatable(&Some(old_summary()), &h, &newer_blocks()));
    let mut large = old_summary();
    large.num_records = u64::MAX - 4;
    assert!(!is_updatable(&Some(large), &h, &newer_blocks()));
    let mut large = old_summary();
    large.num_records = u64::MAX - 5;
    assert!(is_updatable(&Some(large), &h, &newer_blocks()));
    let wide = vec![block(
        1,
        MetadataEvent::AddData(add_data(Some(slice("s", -2, i64::MAX, 1)), None)),
    )];
    assert!(!is_updatable(&Some(old_summary()), &h, &wide));
}
