//! Columns of records, and how they have to be changed before they are written.

use vstd::prelude::*;
use vstd::string::StringExecFns;

use crate::error::InternalError;
use crate::metadata::SetVocab;
use crate::time::DateTime;

verus! {

#[derive(Debug, Clone, Copy, PartialEq, Eq, Structural)]
pub enum TimeUnit {
    Second,
    Millisecond,
    Microsecond,
    Nanosecond,
}

/// The type of a column, as far as it matters.
#[derive(Debug, PartialEq, Eq)]
pub enum DataType {
    Date32,
    Date64,
    /// A point in time: its unit, and the time zone if there is one
    Timestamp(TimeUnit, Option<String>),
    /// Any other type, by its name
    Other(String),
}

#[derive(Debug, PartialEq, Eq)]
pub struct Field {
    pub name: String,
    pub data_type: DataType,
}

/// The names of the columns that have a meaning to the system.
#[derive(Debug, PartialEq, Eq)]
pub struct DatasetVocabulary {
    pub offset_column: String,
    pub system_time_column: String,
    pub event_time_column: String,
}

/// A vocabulary, by the names.
pub struct VocabularyView {
    pub offset_column: Seq<char>,
    pub system_time_column: Seq<char>,
    pub event_time_column: Seq<char>,
}

impl View for DatasetVocabulary {
    type V = VocabularyView;

    open spec fn view(&self) -> VocabularyView {
        VocabularyView {
            offset_column: self.offset_column@,
            system_time_column: self.system_time_column@,
            event_time_column: self.event_time_column@,
        }
    }
}

/// A name that may have been left out.
pub open spec fn name_or(name: Option<String>, default: Seq<char>) -> Seq<char> {
    match name {
        Some(n) => n@,
        None => default,
    }
}

/// The names used where none are set.
pub open spec fn default_vocabulary() -> VocabularyView {
    VocabularyView {
        offset_column: "offset"@,
        system_time_column: "system_time"@,
        event_time_column: "event_time"@,
    }
}

/// The names that an event sets, with defaults for those that it leaves out.
pub open spec fn resolved_vocabulary(e: SetVocab) -> VocabularyView {
    VocabularyView {
        offset_column: name_or(e.offset_column, default_vocabulary().offset_column),
        system_time_column: name_or(e.system_time_column, default_vocabulary().system_time_column),
        event_time_column: name_or(e.event_time_column, default_vocabulary().event_time_column),
    }
}

impl DatasetVocabulary {
    pub fn resolve(e: SetVocab) -> (r: Self)
        ensures
            r@ == resolved_vocabulary(e),
    {
        DatasetVocabulary {
            offset_column: match e.offset_column {
                Some(name) => name,
                None => "offset".to_owned(),
            },
            system_time_column: match e.system_time_column {
                Some(name) => name,
                None => "system_time".to_owned(),
            },
            event_time_column: match e.event_time_column {
                Some(name) => name,
                None => "event_time".to_owned(),
            },
        }
    }
}

impl Default for DatasetVocabulary {
    fn default() -> (r: Self)
        ensures
            r@ == default_vocabulary(),
    {
        DatasetVocabulary {
            offset_column: "offset".to_owned(),
            system_time_column: "system_time".to_owned(),
            event_time_column: "event_time".to_owned(),
        }
    }
}

/// Some column has the name.
pub open spec fn has_column(fields: Seq<Field>, name: Seq<char>) -> bool {
    exists|i: int| 0 <= i < fields.len() && (#[trigger] fields[i]).name@ == name
}

/// Whether some column has the name.
pub fn contains_column(fields: &Vec<Field>, name: &String) -> (r: bool)
    ensures
        r == has_column(fields@, name@),
{
    for i in 0..fields.len()
        invariant
            forall|j: int| 0 <= j < i ==> (#[trigger] fields@[j]).name@ != name@,
    {
        if fields[i].name == *name {
            return true;
        }
    }
    false
}

/// How a column is carried over.
#[derive(Debug, Clone, Copy, PartialEq, Eq, Structural)]
pub enum ColumnStep {
    /// As it is
    Keep,
    /// Cast to milliseconds in UTC, under the same name
    CastToMillisUtc,
}

/// The type is milliseconds in UTC.
pub open spec fn is_millis_utc(t: DataType) -> bool {
    t matches DataType::Timestamp(TimeUnit::Millisecond, Some(tz)) && tz@ == "UTC"@
}

pub open spec fn column_step(f: Field) -> ColumnStep {
    if f.data_type is Timestamp && !is_millis_utc(f.data_type) {
        ColumnStep::CastToMillisUtc
    } else {
        ColumnStep::Keep
    }
}

/// The steps bring all points in time to milliseconds in UTC. There are none if
/// nothing has to be done.
pub open spec fn normalizes(steps: Option<Vec<ColumnStep>>, fields: Seq<Field>) -> bool {
    match steps {
        Some(steps) => steps@ == fields.map_values(|f: Field| column_step(f)) && exists|i: int|
            0 <= i < fields.len() && column_step(#[trigger] fields[i]) is CastToMillisUtc,
        None => forall|i: int| 0 <= i < fields.len() ==> column_step(#[trigger] fields[i]) is Keep,
    }
}

/// How to carry the columns over so that all points in time are milliseconds in
/// UTC, for compatibility with engines that do not support higher precision.
/// Nothing has to be done if they are already.
pub fn normalize_raw_result(fields: &Vec<Field>) -> (r: Option<Vec<ColumnStep>>)
    ensures
        normalizes(r, fields@),
        forall|i: int|
            #![trigger fields@[i]]
            0 <= i < fields@.len() ==> {
                let kept = match r {
                    Some(steps) => steps@[i] is Keep,
                    None => true,
                };
                kept <==> (fields@[i].data_type matches DataType::Timestamp(unit, zone) ==> (
                unit is Millisecond && zone is Some && zone->0@ == "UTC"@))
            },
{
    let utc_tz = "UTC".to_owned();
    let mut select: Vec<ColumnStep> = Vec::new();
    let mut noop = true;
    for i in 0..fields.len()
        invariant
            utc_tz@ == "UTC"@,
            select@ == fields@.take(i as int).map_values(|f: Field| column_step(f)),
            noop <==> forall|j: int|
                0 <= j < i ==> column_step(#[trigger] fields@[j]) is Keep,
    {
        let step = match &fields[i].data_type {
            DataType::Timestamp(unit, tz) => {
                let normalized = match (unit, tz) {
                    (TimeUnit::Millisecond, Some(tz)) => *tz == utc_tz,
                    _ => false,
                };
                if normalized {
                    ColumnStep::Keep
                } else {
                    noop = false;
                    ColumnStep::CastToMillisUtc
                }
            },
            _ => ColumnStep::Keep,
        };
        assert(step == column_step(fields@[i as int]));
        select.push(step);
        proof {
            assert(fields@.take(i + 1) == fields@.take(i as int).push(fields@[i as int]));
        }
    }
    proof {
        assert(fields@.take(fields@.len() as int) == fields@);
    }
    if noop {
        None
    } else {
        Some(select)
    }
}

/// The type of the first column of that name.
pub open spec fn column_type(fields: Seq<Field>, name: Seq<char>) -> Option<DataType>
    decreases fields.len(),
{
    if fields.len() == 0 {
        None
    } else {
        match column_type(fields.drop_last(), name) {
            Some(t) => Some(t),
            None => if fields.last().name@ == name {
                Some(fields.last().data_type)
            } else {
                None
            },
        }
    }
}

/// The complaint about a column that bears the name of a system column.
pub open spec fn conflict_message(column: Seq<char>) -> Seq<char> {
    "Transformed data contains a column that conflicts with the system column name, you should either rename the data column or configure the dataset vocabulary to use a different name: "@
        + column
}

/// The complaint about an event time column that is no time.
pub open spec fn event_time_message(column: Seq<char>, found: Seq<char>) -> Seq<char> {
    "Event time column '"@ + column + "' should be either Date or Timestamp, but found: "@ + found
}

/// What is wrong with the columns of new data: names of system columns are
/// taken, and event time has to be a time.
pub open spec fn input_fault(fields: Seq<Field>, vocab: VocabularyView) -> Option<Seq<char>> {
    if has_column(fields, vocab.offset_column) {
        Some(conflict_message(vocab.offset_column))
    } else if has_column(fields, vocab.system_time_column) {
        Some(conflict_message(vocab.system_time_column))
    } else {
        match column_type(fields, vocab.event_time_column) {
            Some(DataType::Other(found)) => Some(
                event_time_message(vocab.event_time_column, found@),
            ),
            _ => None,
        }
    }
}

fn conflict(column: &String) -> (r: InternalError)
    ensures
        r.says(conflict_message(column@)),
{
    let text =
        "Transformed data contains a column that conflicts with the system column name, you should either rename the data column or configure the dataset vocabulary to use a different name: ".to_owned();
    InternalError::Message(text.concat(column.as_str()))
}

/// The index of the first column of that name.
fn find_column(fields: &Vec<Field>, name: &String) -> (r: Option<usize>)
    ensures
        match r {
            Some(i) => i < fields@.len() && column_type(fields@, name@) == Some(
                fields@[i as int].data_type,
            ),
            None => column_type(fields@, name@) is None,
        },
{
    for i in 0..fields.len()
        invariant
            column_type(fields@.take(i as int), name@) is None,
    {
        proof {
            assert(fields@.take(i + 1).drop_last() == fields@.take(i as int));
        }
        if fields[i].name == *name {
            proof {
                lemma_column_found(fields@, name@, i + 1);
            }
            return Some(i);
        }
    }
    proof {
        assert(fields@.take(fields@.len() as int) == fields@);
    }
    None
}

proof fn lemma_column_found(fields: Seq<Field>, name: Seq<char>, n: int)
    requires
        0 <= n <= fields.len(),
        column_type(fields.take(n), name) is Some,
    ensures
        column_type(fields, name) == column_type(fields.take(n), name),
    decreases fields.len(),
{
    if n == fields.len() {
        assert(fields.take(n) == fields);
    } else {
        assert(fields.drop_last().take(n) == fields.take(n));
        lemma_column_found(fields.drop_last(), name, n);
    }
}

/// Checks the columns of new data.
pub fn validate_input(fields: &Vec<Field>, vocab: &DatasetVocabulary) -> (r: Result<
    (),
    InternalError,
>)
    ensures
        match input_fault(fields@, vocab@) {
            Some(text) => r matches Err(e) && e.says(text),
            None => r is Ok,
        },
{
    if contains_column(fields, &vocab.offset_column) {
        return Err(conflict(&vocab.offset_column));
    }
    if contains_column(fields, &vocab.system_time_column) {
        return Err(conflict(&vocab.system_time_column));
    }
    if let Some(i) = find_column(fields, &vocab.event_time_column) {
        match &fields[i].data_type {
            DataType::Date32 | DataType::Date64 | DataType::Timestamp(_, _) => {},
            DataType::Other(found) => {
                let text = "Event time column '".to_owned().concat(
                    vocab.event_time_column.as_str(),
                ).concat("' should be either Date or Timestamp, but found: ").concat(
                    found.as_str(),
                );
                return Err(InternalError::Message(text));
            },
        }
    }
    Ok(())
}

/// A column with the same point in time in every row, in milliseconds.
#[derive(Debug, PartialEq, Eq)]
pub struct ConstantTime {
    pub column: String,
    pub millis: i64,
}

/// How to add the system columns to data.
#[derive(Debug, PartialEq, Eq)]
pub struct SystemColumnsPlan {
    /// The column for offsets, which are row numbers from 1 plus a constant
    pub offset_column: String,
    pub offset_shift: i64,
    pub system_time: ConstantTime,
    /// Only where the data has no event time of its own
    pub event_time: Option<ConstantTime>,
    /// All columns, in the order in which they are written
    pub column_order: Vec<String>,
}

/// Names by value.
pub open spec fn names(columns: Seq<String>) -> Seq<Seq<char>> {
    columns.map_values(|c: String| c@)
}

/// The names of the columns other than the given one.
pub open spec fn names_without(fields: Seq<Field>, name: Seq<char>) -> Seq<Seq<char>>
    decreases fields.len(),
{
    if fields.len() == 0 {
        Seq::empty()
    } else {
        let before = names_without(fields.drop_last(), name);
        if fields.last().name@ != name {
            before.push(fields.last().name@)
        } else {
            before
        }
    }
}

/// The data has an event time, or one of the system columns bears its name.
pub open spec fn event_time_present(fields: Seq<Field>, vocab: VocabularyView) -> bool {
    ||| has_column(fields, vocab.event_time_column)
    ||| vocab.event_time_column == vocab.offset_column
    ||| vocab.event_time_column == vocab.system_time_column
}

/// The columns as they are written: system columns first, then the others in
/// their order.
pub open spec fn written_order(fields: Seq<Field>, vocab: VocabularyView) -> Seq<Seq<char>> {
    seq![vocab.offset_column, vocab.system_time_column, vocab.event_time_column] + names_without(
        fields,
        vocab.event_time_column,
    )
}

/// The plan adds the system columns to data: offsets that continue from
/// `start_offset`, the system time, and an event time where the data has none.
pub open spec fn adds_system_columns(
    plan: SystemColumnsPlan,
    fields: Seq<Field>,
    vocab: VocabularyView,
    system_time: DateTime,
    fallback_event_time: DateTime,
    start_offset: int,
) -> bool {
    &&& plan.offset_column@ == vocab.offset_column
    &&& plan.offset_shift == start_offset - 1
    &&& plan.system_time.column@ == vocab.system_time_column
    &&& plan.system_time.millis == system_time.stamp() / crate::time::NANOS_PER_MILLI as int
    &&& match plan.event_time {
        Some(t) => !event_time_present(fields, vocab) && t.column@ == vocab.event_time_column
            && t.millis == fallback_event_time.stamp() / crate::time::NANOS_PER_MILLI as int,
        None => event_time_present(fields, vocab),
    }
    &&& names(plan.column_order@) == written_order(fields, vocab)
}

/// How to add the system columns to data: offsets that continue from
/// `start_offset`, the system time, and an event time where the data has none.
pub fn with_system_columns(
    fields: &Vec<Field>,
    vocab: &DatasetVocabulary,
    system_time: &DateTime,
    fallback_event_time: &DateTime,
    start_offset: i64,
) -> (r: SystemColumnsPlan)
    requires
        start_offset > i64::MIN,
    ensures
        adds_system_columns(
            r,
            fields@,
            vocab@,
            *system_time,
            *fallback_event_time,
            start_offset as int,
        ),
{
    let mut column_order: Vec<String> = vec![
        vocab.offset_column.clone(),
        vocab.system_time_column.clone(),
        vocab.event_time_column.clone(),
    ];
    let ghost lead = names(column_order@);
    for i in 0..fields.len()
        invariant
            lead == seq![
                vocab@.offset_column,
                vocab@.system_time_column,
                vocab@.event_time_column,
            ],
            names(column_order@) == lead + names_without(
                fields@.take(i as int),
                vocab@.event_time_column,
            ),
    {
        proof {
            assert(fields@.take(i + 1).drop_last() == fields@.take(i as int));
        }
        let ghost before = column_order@;
        if !(fields[i].name == vocab.event_time_column) {
            column_order.push(fields[i].name.clone());
            proof {
                assert(names(column_order@) == names(before).push(fields@[i as int].name@));
            }
        }
    }
    proof {
        assert(fields@.take(fields@.len() as int) == fields@);
    }
    let present = contains_column(fields, &vocab.event_time_column) || vocab.event_time_column
        == vocab.offset_column || vocab.event_time_column == vocab.system_time_column;
    SystemColumnsPlan {
        offset_column: vocab.offset_column.clone(),
        offset_shift: start_offset - 1,
        system_time: ConstantTime {
            column: vocab.system_time_column.clone(),
            millis: system_time.timestamp_millis(),
        },
        event_time: if present {
            None
        } else {
            Some(
                ConstantTime {
                    column: vocab.event_time_column.clone(),
                    millis: fallback_event_time.timestamp_millis(),
                },
            )
        },
        column_order,
    }
}

/// Data that passes the check gains the two system columns under names that none
/// of its own columns has.
pub proof fn law_valid_input_has_room_for_system_columns(fields: Seq<Field>, vocab: VocabularyView)
    requires
        input_fault(fields, vocab) is None,
    ensures
        !has_column(fields, vocab.offset_column),
        !has_column(fields, vocab.system_time_column),
        forall|i: int|
            3 <= i < written_order(fields, vocab).len() ==> (#[trigger] written_order(
                fields,
                vocab,
            )[i]) != vocab.offset_column && written_order(fields, vocab)[i]
                != vocab.system_time_column,
{
    let rest = names_without(fields, vocab.event_time_column);
    assert forall|i: int| 3 <= i < written_order(fields, vocab).len() implies (
    #[trigger] written_order(fields, vocab)[i]) != vocab.offset_column && written_order(
        fields,
        vocab,
    )[i] != vocab.system_time_column by {
        assert(written_order(fields, vocab)[i] == rest[i - 3]);
        lemma_names_come_from_fields(fields, vocab.event_time_column, i - 3);
    }
}

proof fn lemma_names_come_from_fields(fields: Seq<Field>, name: Seq<char>, i: int)
    requires
        0 <= i < names_without(fields, name).len(),
    ensures
        has_column(fields, names_without(fields, name)[i]),
    decreases fields.len(),
{
    let before = names_without(fields.drop_last(), name);
    if i < before.len() {
        lemma_names_come_from_fields(fields.drop_last(), name, i);
        let n = before[i];
        let j = choose|j: int|
            0 <= j < fields.drop_last().len() && (#[trigger] fields.drop_last()[j]).name@ == n;
        assert(fields[j].name@ == n);
        assert(names_without(fields, name)[i] == n);
    } else {
        assert(fields[fields.len() - 1].name@ == fields.last().name@);
    }
}

/// After the steps have been taken every point in time is in milliseconds and in UTC. A
/// column that is kept is no point in time, or is one in milliseconds and in UTC already;
/// a column that is cast is a point in time in another unit, or not in UTC. There are steps
/// exactly where some column has to be cast, and then one for each column.
pub proof fn law_all_times_become_millis_utc(
    steps: Option<Vec<ColumnStep>>,
    fields: Seq<Field>,
    i: int,
)
    requires
        normalizes(steps, fields),
        0 <= i < fields.len(),
    ensures
        ({
            let is_done = match fields[i].data_type {
                DataType::Timestamp(TimeUnit::Millisecond, Some(zone)) => zone@ == "UTC"@,
                DataType::Timestamp(TimeUnit::Millisecond, None) => false,
                DataType::Timestamp(TimeUnit::Second, _) => false,
                DataType::Timestamp(TimeUnit::Microsecond, _) => false,
                DataType::Timestamp(TimeUnit::Nanosecond, _) => false,
                DataType::Date32 => true,
                DataType::Date64 => true,
                DataType::Other(_) => true,
            };
            match steps {
                Some(steps) => {
                    &&& steps@.len() == fields.len()
                    &&& is_done ==> steps@[i] is Keep
                    &&& !is_done ==> steps@[i] is CastToMillisUtc
                    &&& exists|j: int|
                        0 <= j < steps@.len() && (#[trigger] steps@[j]) is CastToMillisUtc
                },
                None => is_done,
            }
        }),
{
    if let Some(s) = steps {
        let j = choose|j: int|
            0 <= j < fields.len() && column_step(#[trigger] fields[j]) is CastToMillisUtc;
        assert(s@[j] is CastToMillisUtc);
    }
}

/// New data is refused exactly where a column is named like the offset or the system time,
/// or where the first column named like the event time is neither a date nor a point in
/// time. What its other columns are called makes no difference.
pub proof fn law_what_is_refused(fields: Seq<Field>, vocab: VocabularyView)
    ensures
        ({
            let named = |i: int, name: Seq<char>| 0 <= i < fields.len() && fields[i].name@ == name;
            let conflicts = exists|i: int|
                #![trigger fields[i]]
                named(i, vocab.offset_column) || named(i, vocab.system_time_column);
            let first = |i: int| {
                &&& named(i, vocab.event_time_column)
                &&& forall|j: int|
                    0 <= j < i ==> (#[trigger] fields[j]).name@ != vocab.event_time_column
            };
            &&& conflicts ==> input_fault(fields, vocab) is Some
            &&& (forall|i: int|
                0 <= i < fields.len() ==> (#[trigger] fields[i]).name@ != vocab.offset_column
                    && fields[i].name@ != vocab.system_time_column && fields[i].name@
                    != vocab.event_time_column) ==> input_fault(fields, vocab) is None
            &&& forall|i: int|
                #![trigger fields[i]]
                !conflicts && first(i) ==> match fields[i].data_type {
                    DataType::Date32 => input_fault(fields, vocab) is None,
                    DataType::Date64 => input_fault(fields, vocab) is None,
                    DataType::Timestamp(_, _) => input_fault(fields, vocab) is None,
                    DataType::Other(_) => input_fault(fields, vocab) is Some,
                }
        }),
{
    let named = |i: int, name: Seq<char>| 0 <= i < fields.len() && fields[i].name@ == name;
    let conflicts = exists|i: int|
        #![trigger fields[i]]
        named(i, vocab.offset_column) || named(i, vocab.system_time_column);
    if conflicts {
        let i = choose|i: int|
            #![trigger fields[i]]
            named(i, vocab.offset_column) || named(i, vocab.system_time_column);
        assert(fields[i].name@ == vocab.offset_column || fields[i].name@
            == vocab.system_time_column);
    }
    lemma_first_column(fields, vocab.event_time_column);
}

proof fn lemma_first_column(fields: Seq<Field>, name: Seq<char>)
    ensures
        (forall|i: int| 0 <= i < fields.len() ==> (#[trigger] fields[i]).name@ != name)
            ==> column_type(fields, name) is None,
        forall|i: int|
            0 <= i < fields.len() && (#[trigger] fields[i]).name@ == name && (forall|j: int|
                0 <= j < i ==> (#[trigger] fields[j]).name@ != name) ==> column_type(fields, name)
                == Some(fields[i].data_type),
    decreases fields.len(),
{
    if fields.len() > 0 {
        let init = fields.drop_last();
        lemma_first_column(init, name);
        assert(forall|i: int| 0 <= i < init.len() ==> init[i] == fields[i]);
        if forall|i: int| 0 <= i < fields.len() ==> (#[trigger] fields[i]).name@ != name {
            assert forall|i: int| 0 <= i < init.len() implies (
            #[trigger] init[i]).name@ != name by {
                assert(fields[i].name@ != name);
            }
            assert(fields[fields.len() - 1].name@ != name);
        }
        assert forall|i: int|
            0 <= i < fields.len() && (#[trigger] fields[i]).name@ == name && (forall|j: int|
                0 <= j < i ==> (#[trigger] fields[j]).name@ != name) implies column_type(
            fields,
            name,
        ) == Some(fields[i].data_type) by {
            assert forall|j: int| 0 <= j < i implies (#[trigger] init[j]).name@ != name by {
                assert(fields[j].name@ != name);
            }
            if i < init.len() {
                assert(init[i].name@ == name);
            } else {
                assert(column_type(init, name) is None);
            }
        }
    }
}

/// A refusal names what is wrong: the column that is taken, the offset before the system
/// time, or the column of the event time and the type that it has.
pub proof fn law_refusal_names_the_column(fields: Seq<Field>, vocab: VocabularyView)
    ensures
        ({
            let ends_in = |text: Seq<char>, tail: Seq<char>|
                tail.len() <= text.len() && text.skip(text.len() - tail.len()) == tail;
            &&& has_column(fields, vocab.offset_column) ==> (input_fault(
                fields,
                vocab,
            ) matches Some(text) && ends_in(text, vocab.offset_column))
            &&& !has_column(fields, vocab.offset_column) && has_column(
                fields,
                vocab.system_time_column,
            ) ==> (input_fault(fields, vocab) matches Some(text) && ends_in(
                text,
                vocab.system_time_column,
            ))
            &&& !has_column(fields, vocab.offset_column) && !has_column(
                fields,
                vocab.system_time_column,
            ) ==> (input_fault(fields, vocab) matches Some(text) ==> (column_type(
                fields,
                vocab.event_time_column,
            ) matches Some(DataType::Other(found)) && ends_in(text, found@)))
        }),
{
    let a = conflict_message(vocab.offset_column);
    let b = conflict_message(vocab.system_time_column);
    assert(a.skip(a.len() - vocab.offset_column.len()) =~= vocab.offset_column);
    assert(b.skip(b.len() - vocab.system_time_column.len()) =~= vocab.system_time_column);
    if let Some(DataType::Other(found)) = column_type(fields, vocab.event_time_column) {
        let c = event_time_message(vocab.event_time_column, found@);
        assert(c.skip(c.len() - found@.len()) =~= found@);
    }
}

/// What the system columns hold and where they stand. The row that comes `row`-th, counted
/// from 1, gets the offset `row - 1` after the first. System time, and event time where the
/// data has no column of that name, are whole milliseconds, rounded down. Offset, system time
/// and event time come first, in this order, and after them the other columns of the data,
/// in theirs.
pub proof fn law_system_columns(
    plan: SystemColumnsPlan,
    fields: Seq<Field>,
    vocab: VocabularyView,
    system_time: DateTime,
    event_time: DateTime,
    start_offset: int,
    row: int,
    i: int,
)
    requires
        adds_system_columns(plan, fields, vocab, system_time, event_time, start_offset),
        vocab.event_time_column != vocab.offset_column,
        vocab.event_time_column != vocab.system_time_column,
    ensures
        plan.offset_column@ == vocab.offset_column,
        row + plan.offset_shift == start_offset + (row - 1),
        plan.system_time.column@ == vocab.system_time_column,
        plan.system_time.millis * 1_000_000 <= system_time.stamp() < (plan.system_time.millis + 1)
            * 1_000_000,
        plan.event_time is Some <==> forall|j: int|
            0 <= j < fields.len() ==> (#[trigger] fields[j]).name@ != vocab.event_time_column,
        plan.event_time matches Some(t) ==> t.column@ == vocab.event_time_column && t.millis
            * 1_000_000 <= event_time.stamp() < (t.millis + 1) * 1_000_000,
        plan.column_order@.len() >= 3,
        plan.column_order@[0]@ == vocab.offset_column,
        plan.column_order@[1]@ == vocab.system_time_column,
        plan.column_order@[2]@ == vocab.event_time_column,
        3 <= i < plan.column_order@.len() ==> plan.column_order@[i]@ != vocab.event_time_column,
        names(plan.column_order@).skip(3) == names_without(fields, vocab.event_time_column),
{
    let order = names(plan.column_order@);
    let written = written_order(fields, vocab);
    assert(order[0] == written[0] && order[1] == written[1] && order[2] == written[2]);
    assert(order.skip(3) =~= names_without(fields, vocab.event_time_column));
    if 3 <= i < plan.column_order@.len() {
        assert(order[i] == names_without(fields, vocab.event_time_column)[i - 3]);
        lemma_names_without(fields, vocab.event_time_column, i - 3);
    }
    if plan.event_time is None {
        let j = choose|j: int|
            0 <= j < fields.len() && (#[trigger] fields[j]).name@ == vocab.event_time_column;
        assert(fields[j].name@ == vocab.event_time_column);
    }
}

proof fn lemma_names_without(fields: Seq<Field>, name: Seq<char>, i: int)
    requires
        0 <= i < names_without(fields, name).len(),
    ensures
        names_without(fields, name)[i] != name,
    decreases fields.len(),
{
    let before = names_without(fields.drop_last(), name);
    if i < before.len() {
        lemma_names_without(fields.drop_last(), name, i);
    }
}

/// The columns other than one of a given name are all that have another name, in their
/// order.
pub proof fn law_other_columns_keep_their_order(
    first: Seq<Field>,
    second: Seq<Field>,
    field: Field,
    name: Seq<char>,
)
    ensures
        names_without(first + second, name) == names_without(first, name) + names_without(
            second,
            name,
        ),
        field.name@ == name ==> names_without(seq![field], name).len() == 0,
        field.name@ != name ==> names_without(seq![field], name) == seq![field.name@],
    decreases second.len(),
{
    assert(seq![field].drop_last() == Seq::<Field>::empty());
    reveal_with_fuel(names_without, 2);
    if second.len() == 0 {
        assert(first + second == first);
        assert(names_without(first, name) + names_without(second, name) == names_without(
            first,
            name,
        ));
    } else {
        assert((first + second).drop_last() == first + second.drop_last());
        law_other_columns_keep_their_order(first, second.drop_last(), field, name);
        assert(names_without(first + second, name) =~= names_without(first, name) + names_without(
            second,
            name,
        ));
    }
}

/// A vocabulary takes each name that is set, and the usual name for each that is not.
pub proof fn law_names_that_are_set_count(e: SetVocab)
    ensures
        ({
            let v = resolved_vocabulary(e);
            &&& match e.offset_column {
                Some(name) => v.offset_column == name@,
                None => v.offset_column == "offset"@,
            }
            &&& match e.system_time_column {
                Some(name) => v.system_time_column == name@,
                None => v.system_time_column == "system_time"@,
            }
            &&& match e.event_time_column {
                Some(name) => v.event_time_column == name@,
                None => v.event_time_column == "event_time"@,
            }
        }),
{
}

} // verus!
