//! The record store and the four ways in which a query reaches into it.

use vstd::prelude::*;
use crate::body::byte_chars;
use crate::body::byte_text;
use crate::dataformat::DataFrame;
use crate::dataformat::Query;
use crate::decimal::decimal;
use crate::decimal::decimal_digits;
use crate::error::Error;

verus! {

/// How a supported query reaches into the store.
#[derive(Debug, Clone, Copy, PartialEq, Eq, Structural)]
pub enum AccessPattern {
    /// The records of a device from `start` to `end`, both included.
    Span { device_id: i32, start: i32, end: i32 },
    /// The records of a device at or after `start`.
    Since { device_id: i32, start: i32 },
    /// The records of a device at or before `end`.
    Until { device_id: i32, end: i32 },
    /// The records of a device at exactly `now`.
    At { device_id: i32, now: i32 },
}

impl AccessPattern {
    /// Whether the pattern reaches `record`.
    pub open spec fn selects(self, record: DataFrame) -> bool {
        match self {
            AccessPattern::Span { device_id, start, end } => record.device_id == device_id && start
                <= record.time_stamp <= end,
            AccessPattern::Since { device_id, start } => record.device_id == device_id && start
                <= record.time_stamp,
            AccessPattern::Until { device_id, end } => record.device_id == device_id
                && record.time_stamp <= end,
            AccessPattern::At { device_id, now } => record.device_id == device_id
                && record.time_stamp == now,
        }
    }

    /// Whether the pattern reaches `record`.
    pub fn matches(&self, record: &DataFrame) -> (r: bool)
        ensures
            r == self.selects(*record),
    {
        match *self {
            AccessPattern::Span { device_id, start, end } => record.device_id == device_id && start
                <= record.time_stamp && record.time_stamp <= end,
            AccessPattern::Since { device_id, start } => record.device_id == device_id && start
                <= record.time_stamp,
            AccessPattern::Until { device_id, end } => record.device_id == device_id
                && record.time_stamp <= end,
            AccessPattern::At { device_id, now } => record.device_id == device_id
                && record.time_stamp == now,
        }
    }
}

/// The access pattern of a query: a device with both time bounds, with the
/// lower one, with the upper one, or with an exact time. Every other
/// combination of fields has none.
pub open spec fn pattern_of(query: Query) -> Option<AccessPattern> {
    match (query.device_id, query.time_start, query.time_end, query.time_now) {
        (Some(device_id), Some(start), Some(end), None) => Some(
            AccessPattern::Span { device_id, start, end },
        ),
        (Some(device_id), Some(start), None, None) => Some(AccessPattern::Since { device_id, start }),
        (Some(device_id), None, Some(end), None) => Some(AccessPattern::Until { device_id, end }),
        (Some(device_id), None, None, Some(now)) => Some(AccessPattern::At { device_id, now }),
        _ => None,
    }
}

/// Whether a record is within the bounds that a query names.
pub open spec fn within(query: Query, record: DataFrame) -> bool {
    &&& query.device_id matches Some(device_id) ==> record.device_id == device_id
    &&& query.time_start matches Some(start) ==> start <= record.time_stamp
    &&& query.time_end matches Some(end) ==> record.time_stamp <= end
    &&& query.time_now matches Some(now) ==> record.time_stamp == now
}

/// The supported queries are the four that name a device and either a time
/// span, one end of it, or an exact time and nothing else; and the pattern
/// of a supported query reaches exactly the records within its bounds.
pub proof fn lemma_supported_queries(query: Query)
    ensures
        pattern_of(query) is Some <==> query.device_id is Some && if query.time_now is Some {
            query.time_start is None && query.time_end is None
        } else {
            query.time_start is Some || query.time_end is Some
        },
        pattern_of(query) matches Some(pattern) ==> forall|record: DataFrame|
            pattern.selects(record) <==> within(query, record),
{
}

/// Picks the access pattern of a query, or says that the query is not
/// supported.
pub fn access_pattern(query: &Query) -> (r: Result<AccessPattern, Error>)
    ensures
        match pattern_of(*query) {
            Some(pattern) => r == Ok::<AccessPattern, Error>(pattern),
            None => r == Err::<AccessPattern, Error>(Error::DatabaseQueryNotSupported),
        },
{
    match (query.device_id, query.time_start, query.time_end, query.time_now) {
        (Some(device_id), Some(start), Some(end), None) => Ok(
            AccessPattern::Span { device_id, start, end },
        ),
        (Some(device_id), Some(start), None, None) => Ok(AccessPattern::Since { device_id, start }),
        (Some(device_id), None, Some(end), None) => Ok(AccessPattern::Until { device_id, end }),
        (Some(device_id), None, None, Some(now)) => Ok(AccessPattern::At { device_id, now }),
        _ => Err(Error::DatabaseQueryNotSupported),
    }
}

/// How the parameter with the number `n` stands in a statement.
pub open spec fn placeholder(n: nat) -> Seq<char> {
    "$"@ + byte_chars(decimal_digits(n))
}

/// The condition of a statement that reaches what `pattern` reaches, its
/// parameters numbered from `first` on.
pub open spec fn condition_text(pattern: AccessPattern, first: nat) -> Seq<char> {
    match pattern {
        AccessPattern::Span { .. } => "WHERE device_id = "@ + placeholder(first) + " AND "@
            + placeholder(first + 1) + " <= time_stamp AND time_stamp <= "@ + placeholder(
            first + 2,
        ),
        AccessPattern::Since { .. } => "WHERE device_id = "@ + placeholder(first) + " AND "@
            + placeholder(first + 1) + " <= time_stamp"@,
        AccessPattern::Until { .. } => "WHERE device_id = "@ + placeholder(first)
            + " AND time_stamp <= "@ + placeholder(first + 1),
        AccessPattern::At { .. } => "WHERE device_id = "@ + placeholder(first)
            + " AND time_stamp = "@ + placeholder(first + 1),
    }
}

/// The values of the parameters of the condition, in the order of their
/// numbers.
pub open spec fn condition_values(pattern: AccessPattern) -> Seq<i32> {
    match pattern {
        AccessPattern::Span { device_id, start, end } => seq![device_id, start, end],
        AccessPattern::Since { device_id, start } => seq![device_id, start],
        AccessPattern::Until { device_id, end } => seq![device_id, end],
        AccessPattern::At { device_id, now } => seq![device_id, now],
    }
}

/// Appends the parameter with the number `n` to a statement.
fn push_placeholder(text: &mut String, n: usize)
    ensures
        final(text)@ == old(text)@ + placeholder(n as nat),
{
    text.append("$");
    let digits = byte_text(decimal(n).as_slice());
    text.append(digits.as_str());
    assert(text@ =~= old(text)@ + placeholder(n as nat));
}

/// Writes the condition of a statement for a store that is asked in SQL,
/// with the values of its parameters.
pub fn condition(pattern: &AccessPattern, first: u8) -> (r: (String, Vec<i32>))
    ensures
        r.0@ == condition_text(*pattern, first as nat),
        r.1@ == condition_values(*pattern),
{
    let first: usize = first as usize;
    let mut text = String::from_str("WHERE device_id = ");
    push_placeholder(&mut text, first);
    let mut values: Vec<i32> = Vec::new();
    match *pattern {
        AccessPattern::Span { device_id, start, end } => {
            text.append(" AND ");
            push_placeholder(&mut text, first + 1);
            text.append(" <= time_stamp AND time_stamp <= ");
            push_placeholder(&mut text, first + 2);
            values.push(device_id);
            values.push(start);
            values.push(end);
        },
        AccessPattern::Since { device_id, start } => {
            text.append(" AND ");
            push_placeholder(&mut text, first + 1);
            text.append(" <= time_stamp");
            values.push(device_id);
            values.push(start);
        },
        AccessPattern::Until { device_id, end } => {
            text.append(" AND time_stamp <= ");
            push_placeholder(&mut text, first + 1);
            values.push(device_id);
            values.push(end);
        },
        AccessPattern::At { device_id, now } => {
            text.append(" AND time_stamp = ");
            push_placeholder(&mut text, first + 1);
            values.push(device_id);
            values.push(now);
        },
    }
    assert(text@ =~= condition_text(*pattern, first as nat));
    assert(values@ =~= condition_values(*pattern));
    (text, values)
}

/// The records that a pattern reaches, in the order of the store.
pub open spec fn selected(rows: Seq<DataFrame>, pattern: AccessPattern) -> Seq<DataFrame> {
    rows.filter(|row: DataFrame| pattern.selects(row))
}

/// The records that a pattern does not reach, in the order of the store.
pub open spec fn remaining(rows: Seq<DataFrame>, pattern: AccessPattern) -> Seq<DataFrame> {
    rows.filter(|row: DataFrame| !pattern.selects(row))
}

/// A record after an update with `values`: the readings and the time stamp
/// are the new ones, the device stays.
pub open spec fn rewritten(row: DataFrame, values: DataFrame) -> DataFrame {
    DataFrame {
        temp: values.temp,
        rpm: values.rpm,
        device_id: row.device_id,
        time_stamp: values.time_stamp,
    }
}

/// The store after an update: every record that the pattern reaches is
/// rewritten, the others stay.
pub open spec fn updated(rows: Seq<DataFrame>, pattern: AccessPattern, values: DataFrame) -> Seq<
    DataFrame,
> {
    Seq::new(
        rows.len(),
        |i: int|
            if pattern.selects(rows[i]) {
                rewritten(rows[i], values)
            } else {
                rows[i]
            },
    )
}

/// The store: records in the order in which they came.
#[derive(Debug)]
pub struct Table {
    rows: Vec<DataFrame>,
}

impl View for Table {
    type V = Seq<DataFrame>;

    closed spec fn view(&self) -> Seq<DataFrame> {
        self.rows@
    }
}

impl Table {
    /// An empty store.
    pub fn new() -> (r: Table)
        ensures
            r@ == Seq::<DataFrame>::empty(),
    {
        Table { rows: Vec::new() }
    }

    /// How many records the store holds.
    pub fn len(&self) -> (r: usize)
        ensures
            r == self@.len(),
    {
        self.rows.len()
    }

    /// Adds a record at the end.
    pub fn insert(&mut self, record: DataFrame)
        ensures
            final(self)@ == old(self)@.push(record),
    {
        self.rows.push(record);
    }
}

/// Reads the records that `query` selects. A query that is not supported is
/// answered without a look at the store.
pub fn get(query: &Query, table: &Table) -> (r: Result<Vec<DataFrame>, Error>)
    ensures
        match pattern_of(*query) {
            Some(pattern) => r matches Ok(records) && records@ == selected(table@, pattern),
            None => r == Err::<Vec<DataFrame>, Error>(Error::DatabaseQueryNotSupported),
        },
{
    let pattern = match access_pattern(query) {
        Ok(pattern) => pattern,
        Err(e) => { return Err(e); },
    };
    let mut records: Vec<DataFrame> = Vec::new();
    let mut i: usize = 0;
    while i < table.rows.len()
        invariant
            i <= table.rows.len(),
            records@ == selected(table.rows@.take(i as int), pattern),
        decreases table.rows.len() - i,
    {
        let row = table.rows[i];
        proof {
            reveal(Seq::filter);
            assert(table.rows@.take(i + 1).drop_last() =~= table.rows@.take(i as int));
        }
        if pattern.matches(&row) {
            records.push(row);
        }
        i += 1;
    }
    proof {
        reveal(Seq::filter);
        assert(table.rows@.take(table.rows.len() as int) =~= table.rows@);
    }
    Ok(records)
}

/// Deletes the records that `query` selects. A query that is not supported
/// leaves the store as it is.
pub fn delete(query: &Query, table: &mut Table) -> (r: Result<(), Error>)
    ensures
        match pattern_of(*query) {
            Some(pattern) => r is Ok && final(table)@ == remaining(old(table)@, pattern),
            None => r == Err::<(), Error>(Error::DatabaseQueryNotSupported) && final(table)@ == old(
                table,
            )@,
        },
{
    let pattern = match access_pattern(query) {
        Ok(pattern) => pattern,
        Err(e) => { return Err(e); },
    };
    let mut kept: Vec<DataFrame> = Vec::new();
    let mut i: usize = 0;
    while i < table.rows.len()
        invariant
            i <= table.rows.len(),
            table.rows@ == old(table).rows@,
            kept@ == remaining(table.rows@.take(i as int), pattern),
        decreases table.rows.len() - i,
    {
        let row = table.rows[i];
        proof {
            reveal(Seq::filter);
            assert(table.rows@.take(i + 1).drop_last() =~= table.rows@.take(i as int));
        }
        if !pattern.matches(&row) {
            kept.push(row);
        }
        i += 1;
    }
    proof {
        reveal(Seq::filter);
        assert(table.rows@.take(table.rows.len() as int) =~= table.rows@);
    }
    table.rows = kept;
    Ok(())
}

/// Rewrites the records that `query` selects with the readings and the time
/// stamp of `dataframe`. A query that is not supported leaves the store as
/// it is.
pub fn update(query: &Query, dataframe: &DataFrame, table: &mut Table) -> (r: Result<(), Error>)
    ensures
        match pattern_of(*query) {
            Some(pattern) => r is Ok && final(table)@ == updated(old(table)@, pattern, *dataframe),
            None => r == Err::<(), Error>(Error::DatabaseQueryNotSupported) && final(table)@ == old(
                table,
            )@,
        },
{
    let pattern = match access_pattern(query) {
        Ok(pattern) => pattern,
        Err(e) => { return Err(e); },
    };
    let mut i: usize = 0;
    while i < table.rows.len()
        invariant
            i <= table.rows.len(),
            table.rows@.len() == old(table).rows@.len(),
            forall|j: int|
                0 <= j < i ==> table.rows@[j] == updated(old(table).rows@, pattern, *dataframe)[j],
            forall|j: int| i <= j < table.rows@.len() ==> table.rows@[j] == old(table).rows@[j],
        decreases table.rows.len() - i,
    {
        let row = table.rows[i];
        if pattern.matches(&row) {
            table.rows.set(
                i,
                DataFrame {
                    temp: dataframe.temp,
                    rpm: dataframe.rpm,
                    device_id: row.device_id,
                    time_stamp: dataframe.time_stamp,
                },
            );
        }
        i += 1;
    }
    assert(table.rows@ =~= updated(old(table).rows@, pattern, *dataframe));
    Ok(())
}

} // verus!
