use kamu::dataset::commit::CommitOpts;
use kamu::error::InternalError;
use kamu::ids::{DatasetID, Multihash};
use kamu::ingest::builder::{is_writable, merge_strategy_for, DataWriterDataFusionBuilder};
use kamu::ingest::schema::{
    normalize_raw_result, validate_input, with_system_columns, ColumnStep, ConstantTime, DataType,
    DatasetVocabulary, Field, TimeUnit,
};
use kamu::ingest::write::{WriteAction, WriteEvent, WritePhase, WriteSession};
use kamu::ingest::writer::{
    compute_offset_and_watermark, is_on_calendar, AddDataParams, DataStats, DataWriterDataFusion,
    EventTimeValue, MergeStrategy,
};
use kamu::metadata::{
    AddData, BlockRef, Checkpoint, DataSlice, DatasetKind, MergeStrategyConf,
    MergeStrategyLedgerConf, MergeStrategySnapshotConf, MetadataBlock, MetadataEvent,
    OffsetInterval, Seed, SetPollingSource, SetVocab, SetWatermark, SourceState,
};
use kamu::time::DateTime;

fn at(secs: i64) -> DateTime {
    DateTime::from_timestamp(secs, 0).unwrap()
}

fn hash(text: &str) -> Multihash {
    Multihash { text: text.to_owned() }
}

fn field(name: &str, data_type: DataType) -> Field {
    Field { name: name.to_owned(), data_type }
}

fn other(name: &str) -> Field {
    field(name, DataType::Other("Utf8".to_owned()))
}

fn millis_utc() -> DataType {
    DataType::Timestamp(TimeUnit::Millisecond, Some("UTC".to_owned()))
}

#[test]
fn test_timestamps_are_normalized() {
    let fields = vec![
        other("city"),
        field("t1", millis_utc()),
        field("t2", DataType::Timestamp(TimeUnit::Nanosecond, Some("UTC".to_owned()))),
        field("t3", DataType::Timestamp(TimeUnit::Millisecond, None)),
        field("t4", DataType::Timestamp(TimeUnit::Millisecond, Some("CET".to_owned()))),
        field("d", DataType::Date32),
    ];
    assert_eq!(
        normalize_raw_result(&fields),
        Some(vec![
            ColumnStep::Keep,
            ColumnStep::Keep,
            ColumnStep::CastToMillisUtc,
            ColumnStep::CastToMillisUtc,
            ColumnStep::CastToMillisUtc,
            ColumnStep::Keep,
        ])
    );
    assert_eq!(normalize_raw_result(&vec![other("city"), field("t1", millis_utc())]), None);
    assert_eq!(normalize_raw_result(&vec![]), None);
}

fn conflict(column: &str) -> Result<(), InternalError> {
    Err(InternalError::Message(format!(
        "Transformed data contains a column that conflicts with the system column name, you \
         should either rename the data column or configure the dataset vocabulary to use a \
         different name: {}",
        column
    )))
}

#[test]
fn test_system_column_names_are_taken() {
    let vocab = DatasetVocabulary::default();
    assert_eq!(validate_input(&vec![other("offset")], &vocab), conflict("offset"));
    assert_eq!(
        validate_input(&vec![other("system_time"), other("offset")], &vocab),
        conflict("offset")
    );
    assert_eq!(validate_input(&vec![other("system_time")], &vocab), conflict("system_time"));
    assert_eq!(validate_input(&vec![other("city")], &vocab), Ok(()));
}

#[test]
fn test_event_time_has_to_be_a_time() {
    let vocab = DatasetVocabulary::default();
    assert_eq!(
        validate_input(&vec![other("event_time")], &vocab),
        Err(InternalError::Message(
            "Event time column 'event_time' should be either Date or Timestamp, but found: Utf8"
                .to_owned()
        ))
    );
    for t in [
        DataType::Date32,
        DataType::Date64,
        DataType::Timestamp(TimeUnit::Second, None),
    ] {
        assert_eq!(validate_input(&vec![field("event_time", t)], &vocab), Ok(()));
    }
}

#[test]
fn test_system_columns_are_added() {
    let vocab = DatasetVocabulary::default();
    let fields = vec![other("city"), other("population")];
    let system_time = DateTime::from_timestamp(1, 999_999_999).unwrap();
    let plan = with_system_columns(&fields, &vocab, &system_time, &at(-1), 10);
    assert_eq!(plan.offset_column, "offset");
    assert_eq!(plan.offset_shift, 9);
    assert_eq!(
        plan.system_time,
        ConstantTime { column: "system_time".to_owned(), millis: 1999 }
    );
    assert_eq!(
        plan.event_time,
        Some(ConstantTime { column: "event_time".to_owned(), millis: -1000 })
    );
    assert_eq!(
        plan.column_order,
        vec!["offset", "system_time", "event_time", "city", "population"]
    );
}

#[test]
fn test_event_time_of_the_data_is_kept() {
    let vocab = DatasetVocabulary::default();
    let fields = vec![other("city"), field("event_time", millis_utc()), other("population")];
    let plan = with_system_columns(&fields, &vocab, &at(1), &at(2), 0);
    assert_eq!(plan.event_time, None);
    assert_eq!(plan.offset_shift, -1);
    assert_eq!(
        plan.column_order,
        vec!["offset", "system_time", "event_time", "city", "population"]
    );
}

#[test]
fn test_millis_are_rounded_down() {
    let vocab = DatasetVocabulary::default();
    let t = DateTime::from_timestamp(-1, 500_000).unwrap();
    let plan = with_system_columns(&vec![], &vocab, &t, &t, 0);
    assert_eq!(plan.system_time.millis, -1000);
}

#[test]
fn test_vocabulary_resolves_defaults() {
    let vocab = DatasetVocabulary::resolve(SetVocab {
        offset_column: None,
        system_time_column: Some("st".to_owned()),
        event_time_column: None,
    });
    assert_eq!(
        vocab,
        DatasetVocabulary {
            offset_column: "offset".to_owned(),
            system_time_column: "st".to_owned(),
            event_time_column: "event_time".to_owned(),
        }
    );
}

fn stats(event_time_max: EventTimeValue) -> Option<DataStats> {
    Some(DataStats { offset_min: 10, offset_max: 14, event_time_max })
}

#[test]
fn test_offsets_and_watermark_of_a_write() {
    let source_state = SourceState {
        kind: "k".to_owned(),
        source: "s".to_owned(),
        value: "v".to_owned(),
    };
    assert_eq!(
        compute_offset_and_watermark(
            stats(EventTimeValue::TimestampMillis(20_000)),
            Some(at(15)),
            Some(hash("c")),
            Some(source_state.clone()),
        ),
        Ok(AddDataParams {
            input_checkpoint: Some(hash("c")),
            output_data: Some(OffsetInterval { start: 10, end: 14 }),
            output_watermark: Some(at(20)),
            source_state: Some(source_state),
        })
    );
}

#[test]
fn test_watermark_never_falls() {
    let watermark = |value, prev| {
        compute_offset_and_watermark(stats(value), prev, None, None).unwrap().output_watermark
    };
    assert_eq!(watermark(EventTimeValue::TimestampMillis(20_000), None), Some(at(20)));
    assert_eq!(watermark(EventTimeValue::TimestampMillis(20_000), Some(at(25))), Some(at(25)));
    assert_eq!(watermark(EventTimeValue::Date64(-1_500), None).unwrap().timestamp(), -2);
    assert_eq!(watermark(EventTimeValue::Date32(2), Some(at(0))), Some(at(172_800)));
}

#[test]
fn test_empty_write_keeps_the_watermark() {
    assert_eq!(
        compute_offset_and_watermark(None, Some(at(5)), Some(hash("c")), None),
        Ok(AddDataParams {
            input_checkpoint: Some(hash("c")),
            output_data: None,
            output_watermark: Some(at(5)),
            source_state: None,
        })
    );
}

#[test]
fn test_unexpected_event_time_type() {
    assert_eq!(
        compute_offset_and_watermark(
            stats(EventTimeValue::Other("event_time: Utf8".to_owned())),
            None,
            None,
            None
        ),
        Err(InternalError::Message(
            "Expected event time column to be Date64 or Timestamp(Millisecond, UTC), but got \
             event_time: Utf8"
                .to_owned()
        ))
    );
}

fn block(event: MetadataEvent) -> MetadataBlock {
    MetadataBlock { prev_block_hash: None, sequence_number: 0, system_time: at(0), event }
}

fn add_data(
    slice: Option<(&str, i64, i64)>,
    checkpoint: Option<&str>,
    watermark: Option<i64>,
) -> AddData {
    AddData {
        input_checkpoint: None,
        output_data: slice.map(|(name, start, end)| DataSlice {
            logical_hash: hash("l"),
            physical_hash: hash(name),
            interval: OffsetInterval { start, end },
            size: 1,
        }),
        output_checkpoint: checkpoint.map(|c| Checkpoint { physical_hash: hash(c), size: 1 }),
        output_watermark: watermark.map(at),
        source_state: None,
    }
}

fn seed() -> MetadataBlock {
    block(MetadataEvent::Seed(Seed {
        dataset_id: DatasetID { did: "did:odf:a".to_owned() },
        dataset_kind: DatasetKind::Root,
    }))
}

fn source(merge: MergeStrategyConf) -> MetadataBlock {
    block(MetadataEvent::SetPollingSource(SetPollingSource { fetch: "f".to_owned(), merge }))
}

fn vocab_block(offset_column: &str) -> MetadataBlock {
    block(MetadataEvent::SetVocab(SetVocab {
        offset_column: Some(offset_column.to_owned()),
        system_time_column: None,
        event_time_column: None,
    }))
}

fn scan(blocks: Vec<MetadataBlock>, head: &str) -> DataWriterDataFusion<(), ()> {
    let builder = DataWriterDataFusion::builder((), ());
    assert!(builder.needs_scan());
    let builder = builder.scan_metadata(hash(head), blocks);
    assert!(!builder.needs_scan());
    builder.build()
}

#[test]
fn test_scan_of_a_fresh_chain() {
    let w = scan(vec![source(MergeStrategyConf::Append), seed()], "h");
    assert_eq!(w.head(), &hash("h"));
    assert_eq!(w.next_offset(), 0);
    assert_eq!(w.prev_checkpoint(), None);
    assert_eq!(w.prev_watermark(), None);
    assert_eq!(w.get_all_previous_data(), None);
    assert_eq!(w.merge_strategy(), &MergeStrategy::Append);
    assert_eq!(w.vocab(), &DatasetVocabulary::default());
}

#[test]
fn test_scan_takes_what_is_newest() {
    let w = scan(
        vec![
            block(MetadataEvent::SetWatermark(SetWatermark { output_watermark: at(99) })),
            block(MetadataEvent::AddData(add_data(None, None, Some(50)))),
            block(MetadataEvent::AddData(add_data(Some(("s2", 5, 9)), Some("c2"), Some(40)))),
            source(MergeStrategyConf::Ledger(MergeStrategyLedgerConf {
                primary_key: vec!["id".to_owned()],
            })),
            block(MetadataEvent::AddData(add_data(Some(("s1", 0, 4)), Some("c1"), None))),
            source(MergeStrategyConf::Append),
            seed(),
        ],
        "h",
    );
    assert_eq!(w.next_offset(), 10);
    assert_eq!(w.prev_checkpoint(), None);
    assert_eq!(w.prev_watermark(), Some(at(99)));
    assert_eq!(w.get_all_previous_data(), Some(vec![hash("s1"), hash("s2")]));
    assert_eq!(w.merge_strategy(), &MergeStrategy::Ledger(vec!["id".to_owned()]));
}

#[test]
fn test_scan_takes_the_vocabulary_set_first() {
    let w = scan(
        vec![
            vocab_block("later"),
            vocab_block("first"),
            source(MergeStrategyConf::Append),
            seed(),
        ],
        "h",
    );
    assert_eq!(w.vocab().offset_column, "first");
}

#[test]
fn test_writer_agrees_with_a_new_scan() {
    let chain = || {
        vec![
            block(MetadataEvent::AddData(add_data(Some(("s1", 0, 4)), Some("c1"), Some(7)))),
            source(MergeStrategyConf::Append),
            seed(),
        ]
    };
    let event = add_data(Some(("s2", 5, 9)), Some("c2"), Some(8));
    let mut w = scan(chain(), "h1");
    w.on_committed(hash("h2"), &event);

    let mut longer = vec![block(MetadataEvent::AddData(add_data(
        Some(("s2", 5, 9)),
        Some("c2"),
        Some(8),
    )))];
    longer.extend(chain());
    let anew = scan(longer, "h2");
    assert_eq!(w.head(), anew.head());
    assert_eq!(w.next_offset(), 10);
    assert_eq!(w.next_offset(), anew.next_offset());
    assert_eq!(w.prev_checkpoint(), anew.prev_checkpoint());
    assert_eq!(w.prev_watermark(), anew.prev_watermark());
    let names = |w: &DataWriterDataFusion<(), ()>| {
        let mut names: Vec<String> =
            w.get_all_previous_data().unwrap().into_iter().map(|h| h.text).collect();
        names.sort();
        names
    };
    assert_eq!(names(&w), names(&anew));
    assert_eq!(w.get_all_previous_data(), Some(vec![hash("s2"), hash("s1")]));
}

#[test]
fn test_empty_commit_keeps_offsets() {
    let mut w = scan(vec![source(MergeStrategyConf::Append), seed()], "h1");
    w.on_committed(hash("h2"), &add_data(None, None, Some(3)));
    assert_eq!(w.head(), &hash("h2"));
    assert_eq!(w.next_offset(), 0);
    assert_eq!(w.get_all_previous_data(), None);
    assert_eq!(w.prev_watermark(), Some(at(3)));
}

#[test]
fn test_writer_from_known_metadata() {
    let vocab = DatasetVocabulary::resolve(SetVocab {
        offset_column: Some("off".to_owned()),
        system_time_column: None,
        event_time_column: None,
    });
    let cfg = || MergeStrategySnapshotConf {
        primary_key: vec!["id".to_owned()],
        compare_columns: None,
        observation_column: None,
        obsv_added: None,
        obsv_changed: None,
        obsv_removed: None,
    };
    let builder = DataWriterDataFusionBuilder::new("dataset", 5u8).with_block_ref(BlockRef::Head);
    assert_eq!(builder.block_ref(), BlockRef::Head);
    assert_eq!(*builder.dataset(), "dataset");
    let w = builder
        .with_metadata(
            BlockRef::Head,
            hash("h"),
            MergeStrategyConf::Snapshot(cfg()),
            42,
            Some(hash("c")),
            Some(at(1)),
            vec![hash("s1"), hash("s2")],
            vocab,
        )
        .build();
    assert_eq!(*w.dataset(), "dataset");
    assert_eq!(*w.ctx(), 5);
    assert_eq!(w.next_offset(), 42);
    assert_eq!(w.prev_checkpoint(), Some(hash("c")));
    assert_eq!(w.prev_watermark(), Some(at(1)));
    assert_eq!(w.get_all_previous_data(), Some(vec![hash("s2"), hash("s1")]));
    assert_eq!(w.merge_strategy(), &MergeStrategy::Snapshot("off".to_owned(), cfg()));
    assert_eq!(
        w.commit_opts(at(9)),
        CommitOpts {
            block_ref: BlockRef::Head,
            system_time: Some(at(9)),
            prev_block_hash: Some(Some(hash("h"))),
            check_object_refs: false,
        }
    );
}

#[test]
fn test_merge_strategies() {
    let vocab = DatasetVocabulary::default();
    assert_eq!(merge_strategy_for(MergeStrategyConf::Append, &vocab), MergeStrategy::Append);
    assert_eq!(
        merge_strategy_for(
            MergeStrategyConf::Ledger(MergeStrategyLedgerConf {
                primary_key: vec!["a".to_owned(), "b".to_owned()],
            }),
            &vocab
        ),
        MergeStrategy::Ledger(vec!["a".to_owned(), "b".to_owned()])
    );
}

#[test]
fn test_chains_that_can_be_written_to() {
    let append = || source(MergeStrategyConf::Append);
    assert!(is_writable(&vec![append(), seed()]));
    assert!(!is_writable(&vec![seed()]));
    assert!(!is_writable(&vec![append()]));
    let derivative = block(MetadataEvent::Seed(Seed {
        dataset_id: DatasetID { did: "did:odf:a".to_owned() },
        dataset_kind: DatasetKind::Derivative,
    }));
    assert!(!is_writable(&vec![append(), derivative]));
    let full = || block(MetadataEvent::AddData(add_data(Some(("s", 0, i64::MAX)), None, None)));
    assert!(!is_writable(&vec![full(), append(), seed()]));
    let next = block(MetadataEvent::AddData(add_data(Some(("t", 0, 1)), None, None)));
    assert!(is_writable(&vec![next, full(), append(), seed()]));
}

#[test]
fn test_event_times_on_the_calendar() {
    assert!(is_on_calendar(&EventTimeValue::TimestampMillis(0)));
    assert!(!is_on_calendar(&EventTimeValue::TimestampMillis(i64::MAX)));
    assert!(!is_on_calendar(&EventTimeValue::Date64(i64::MIN)));
    assert!(is_on_calendar(&EventTimeValue::Date32(-1)));
    assert!(!is_on_calendar(&EventTimeValue::Date32(i32::MAX)));
    assert!(is_on_calendar(&EventTimeValue::Other("x".to_owned())));
}

fn session() -> WriteSession {
    WriteSession::new(
        at(100),
        at(90),
        Some(SourceState {
            kind: "k".to_owned(),
            source: "s".to_owned(),
            value: "v".to_owned(),
        }),
    )
}

fn ready_writer() -> DataWriterDataFusion<(), ()> {
    scan(
        vec![
            block(MetadataEvent::AddData(add_data(Some(("s1", 0, 4)), Some("c1"), Some(40)))),
            source(MergeStrategyConf::Append),
            seed(),
        ],
        "h",
    )
}

fn city_and_time() -> Vec<Field> {
    vec![other("city"), field("event_time", DataType::Timestamp(TimeUnit::Second, None))]
}

/// Writes records at a moment, and checks each step on the way.
fn write_five_records(w: &mut DataWriterDataFusion<(), ()>) {
    let mut s = session();
    match w.write(&mut s, WriteEvent::Input(city_and_time())) {
        WriteAction::Merge(steps, previous) => {
            assert_eq!(steps, Some(vec![ColumnStep::Keep, ColumnStep::CastToMillisUtc]));
            assert_eq!(previous, Some(vec![hash("s1")]));
        }
        action => panic!("{:?}", action),
    }
    let merged = vec![other("city"), field("event_time", millis_utc())];
    match w.write(&mut s, WriteEvent::Merged(merged)) {
        WriteAction::WriteFile(plan) => {
            assert_eq!(plan.offset_shift, 4);
            assert_eq!(plan.system_time.millis, 100_000);
            assert_eq!(plan.event_time, None);
            assert_eq!(plan.column_order, vec!["offset", "system_time", "event_time", "city"]);
        }
        action => panic!("{:?}", action),
    }
    let written = DataStats {
        offset_min: 5,
        offset_max: 9,
        event_time_max: EventTimeValue::TimestampMillis(70_000),
    };
    assert_eq!(
        w.write(&mut s, WriteEvent::Written(Some(written))),
        WriteAction::Commit(
            AddDataParams {
                input_checkpoint: Some(hash("c1")),
                output_data: Some(OffsetInterval { start: 5, end: 9 }),
                output_watermark: Some(at(70)),
                source_state: session().source_state,
            },
            CommitOpts {
                block_ref: BlockRef::Head,
                system_time: Some(at(100)),
                prev_block_hash: Some(Some(hash("h"))),
                check_object_refs: false,
            }
        )
    );
    assert_eq!(w.head(), &hash("h"));
    let added = || block(MetadataEvent::AddData(add_data(Some(("s2", 5, 9)), None, Some(70))));
    assert_eq!(
        w.write(&mut s, WriteEvent::Committed(hash("h2"), added())),
        WriteAction::Done(hash("h2"), added())
    );
    assert_eq!(s.phase, WritePhase::Over);
    assert_eq!(w.head(), &hash("h2"));
    assert_eq!(w.next_offset(), 10);
    assert_eq!(w.prev_checkpoint(), None);
    assert_eq!(w.prev_watermark(), Some(at(70)));
    assert_eq!(w.get_all_previous_data(), Some(vec![hash("s2"), hash("s1")]));
}

#[test]
fn test_write_step_by_step() {
    write_five_records(&mut ready_writer());
}

#[test]
fn test_refused_write_leaves_no_trace() {
    let faulty = vec![
        vec![other("city"), other("offset")],
        vec![other("system_time")],
        vec![other("event_time")],
    ];
    for fields in faulty {
        let mut w = ready_writer();
        let mut s = session();
        let fault = validate_input(&fields, w.vocab()).unwrap_err();
        assert_eq!(w.write(&mut s, WriteEvent::Input(fields)), WriteAction::Refuse(fault));
        assert_eq!(s.phase, WritePhase::Over);
        assert_eq!(w.head(), &hash("h"));
        assert_eq!(w.next_offset(), 5);
        // A valid write goes as if the other had not been
        write_five_records(&mut w);
    }
}

#[test]
fn test_write_of_an_unexpected_event_time_is_refused() {
    let mut w = ready_writer();
    let mut s = session();
    w.write(&mut s, WriteEvent::Input(city_and_time()));
    w.write(&mut s, WriteEvent::Merged(vec![other("city")]));
    let written = DataStats {
        offset_min: 5,
        offset_max: 9,
        event_time_max: EventTimeValue::Other("event_time: Utf8".to_owned()),
    };
    match w.write(&mut s, WriteEvent::Written(Some(written))) {
        WriteAction::Refuse(_) => {}
        action => panic!("{:?}", action),
    }
    assert_eq!(s.phase, WritePhase::Over);
    assert_eq!(w.next_offset(), 5);
}

#[test]
fn test_builder_needs_no_scan_once_it_knows_the_metadata() {
    let builder = DataWriterDataFusion::builder((), ());
    assert!(builder.needs_scan());
    let builder = builder.with_block_ref(BlockRef::Head);
    assert!(builder.needs_scan());
    let builder = builder.with_metadata(
        BlockRef::Head,
        hash("h"),
        MergeStrategyConf::Append,
        7,
        None,
        None,
        vec![],
        DatasetVocabulary::default(),
    );
    assert!(!builder.needs_scan());
    let builder = builder.with_block_ref(BlockRef::Head);
    assert!(!builder.needs_scan());
    assert_eq!(builder.build().next_offset(), 7);
}
