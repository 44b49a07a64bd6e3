//! The encoding of one row: a text field per cell, and the derived timestamp
//! right after the timestamp cell.

use vstd::prelude::*;
use crate::cell::{cell_text, Cell};
use crate::delimited::texts;
use crate::error::{ErrorKind, ErrorView, ExportError};
use crate::schema::{header_fields, lemma_timestamp_position, timestamp_position, ColumnSchema};
use crate::text::{parse_integer, parse_integer_text};
use crate::timestamp::{format_epoch_utc, rfc3339_utc};

verus! {

/// The failure for a timestamp cell whose text is no integer.
pub open spec fn not_an_integer(text: Seq<char>) -> ErrorView {
    ErrorView { kind: ErrorKind::Parse, cause: "timestamp is not an integer: "@ + text }
}

/// The failure for a timestamp cell whose number of seconds lies outside the
/// calendar.
pub open spec fn out_of_range(text: Seq<char>) -> ErrorView {
    ErrorView { kind: ErrorKind::Parse, cause: "timestamp is out of range: "@ + text }
}

/// The failure for a text cell whose bytes are not valid UTF-8.
pub open spec fn not_text() -> ErrorView {
    ErrorView { kind: ErrorKind::Encoding, cause: "text is not valid UTF-8"@ }
}

/// The failure for a row that has not one cell per column.
pub open spec fn wrong_shape() -> ErrorView {
    ErrorView { kind: ErrorKind::Encoding, cause: "row does not match the columns"@ }
}

/// The derived field for a timestamp cell with the given text, where
/// `instant` is the rendering of the seconds that the text denotes, if the
/// calendar has one: a text that is no integer fails, and so does one whose
/// seconds have no rendering.
pub open spec fn derived_field(text: Seq<char>, instant: Option<Seq<char>>) -> Result<
    Seq<char>,
    ErrorView,
> {
    match parse_integer(text) {
        None => Err(not_an_integer(text)),
        Some(_) => match instant {
            None => Err(out_of_range(text)),
            Some(rendered) => Ok(rendered),
        },
    }
}

/// An encoded row as contracts see it: the fields that were produced, and the
/// failure that stopped the encoding, if one did.
pub struct RowView {
    pub fields: Seq<Seq<char>>,
    pub error: Option<ErrorView>,
}

/// The encoding of the first `n` cells. Each cell gives one field; the cell at
/// the timestamp position gives a second one, derived from the first. The
/// encoding stops at the first cell that fails: a timestamp cell that fails
/// has given its own text already.
pub open spec fn encode_cells(
    cells: Seq<Cell>,
    timestamp: Option<int>,
    instant: Option<Seq<char>>,
    n: int,
) -> RowView
    decreases n,
{
    if n <= 0 {
        RowView { fields: Seq::<Seq<char>>::empty(), error: None }
    } else {
        let before = encode_cells(cells, timestamp, instant, n - 1);
        if before.error is Some {
            before
        } else {
            match cell_text(cells[n - 1]) {
                None => RowView { fields: before.fields, error: Some(not_text()) },
                Some(text) => {
                    let fields = before.fields.push(text);
                    if timestamp == Some(n - 1) {
                        match derived_field(text, instant) {
                            Ok(rendered) => RowView { fields: fields.push(rendered), error: None },
                            Err(e) => RowView { fields, error: Some(e) },
                        }
                    } else {
                        RowView { fields, error: None }
                    }
                },
            }
        }
    }
}

/// The encoding of a row of a table with the given columns, where `instant`
/// is the rendering of the seconds in the row's timestamp cell, if there is
/// one. A row that has not one cell per column gives no field.
pub open spec fn row_encoding_given(
    columns: Seq<Seq<char>>,
    cells: Seq<Cell>,
    instant: Option<Seq<char>>,
) -> RowView {
    if cells.len() != columns.len() {
        RowView { fields: Seq::<Seq<char>>::empty(), error: Some(wrong_shape()) }
    } else {
        encode_cells(cells, timestamp_position(columns), instant, cells.len() as int)
    }
}

/// The seconds that the timestamp cell of a row denotes: none where the table
/// has no timestamp column, where the row has not one cell per column, or
/// where the cell's text is no integer.
pub open spec fn timestamp_seconds(columns: Seq<Seq<char>>, cells: Seq<Cell>) -> Option<int> {
    if cells.len() != columns.len() {
        None
    } else {
        match timestamp_position(columns) {
            None => None,
            Some(p) => match cell_text(cells[p]) {
                None => None,
                Some(text) => parse_integer(text),
            },
        }
    }
}

/// The rendering of the seconds in the timestamp cell of a row as a UTC
/// instant, where there is one.
pub open spec fn row_instant(columns: Seq<Seq<char>>, cells: Seq<Cell>) -> Option<Seq<char>> {
    match timestamp_seconds(columns, cells) {
        None => None,
        Some(secs) => rfc3339_utc(secs),
    }
}

/// The encoding of a row of a table with the given columns.
pub open spec fn row_encoding(columns: Seq<Seq<char>>, cells: Seq<Cell>) -> RowView {
    row_encoding_given(columns, cells, row_instant(columns, cells))
}

/// An encoded row: the fields to write, and the failure that stopped the
/// encoding, if one did.
pub struct RowEncoding {
    pub fields: Vec<String>,
    pub error: Option<ExportError>,
}

impl View for RowEncoding {
    type V = RowView;

    open spec fn view(&self) -> RowView {
        RowView {
            fields: texts(self.fields@),
            error: match self.error {
                Some(e) => Some(e@),
                None => None,
            },
        }
    }
}

/// The view of an optional text.
pub open spec fn optional_text(text: Option<String>) -> Option<Seq<char>> {
    match text {
        Some(t) => Some(t@),
        None => None,
    }
}

/// The derived field for a timestamp cell with the given text, where
/// `instant` is the rendering of the seconds that the text denotes, if the
/// calendar has one.
pub fn derive_field(text: &str, instant: Option<String>) -> (out: Result<String, ExportError>)
    ensures
        match out {
            Ok(rendered) => derived_field(text@, optional_text(instant)) == Ok::<
                Seq<char>,
                ErrorView,
            >(rendered@),
            Err(e) => derived_field(text@, optional_text(instant)) == Err::<Seq<char>, ErrorView>(
                e@,
            ),
        },
{
    match parse_integer_text(text) {
        None => {
            let mut cause = String::from_str("timestamp is not an integer: ");
            cause.append(text);
            Err(ExportError::new(ErrorKind::Parse, cause))
        },
        Some(_) => match instant {
            None => {
                let mut cause = String::from_str("timestamp is out of range: ");
                cause.append(text);
                Err(ExportError::new(ErrorKind::Parse, cause))
            },
            Some(rendered) => Ok(rendered),
        },
    }
}

/// The seconds that the timestamp cell of a row denotes, where it denotes
/// any.
pub fn read_timestamp(schema: &ColumnSchema, cells: &Vec<Cell>) -> (out: Option<i64>)
    ensures
        out is Some == timestamp_seconds(schema.columns(), cells@) is Some,
        out matches Some(secs) ==> timestamp_seconds(schema.columns(), cells@) == Some(secs as int),
{
    if cells.len() != schema.column_count() {
        return None;
    }
    match schema.timestamp_column() {
        None => None,
        Some(p) => {
            proof {
                lemma_timestamp_position(schema.columns());
            }
            match cells[p].text() {
                None => None,
                Some(text) => parse_integer_text(text.as_str()),
            }
        },
    }
}

/// Encodes one row of a table with the given schema, where `instant` is the
/// rendering of the seconds in the row's timestamp cell, if there is one.
pub fn encode_row_given(schema: &ColumnSchema, cells: &Vec<Cell>, instant: Option<String>) -> (out:
    RowEncoding)
    ensures
        out@ == row_encoding_given(schema.columns(), cells@, optional_text(instant)),
{
    if cells.len() != schema.column_count() {
        let out = RowEncoding {
            fields: Vec::new(),
            error: Some(
                ExportError::new(
                    ErrorKind::Encoding,
                    String::from_str("row does not match the columns"),
                ),
            ),
        };
        assert(out@.fields =~= Seq::<Seq<char>>::empty());
        return out;
    }
    let position = schema.timestamp_column();
    let ghost timestamp = timestamp_position(schema.columns());
    let ghost given = optional_text(instant);
    let mut unused = instant;
    let mut fields: Vec<String> = Vec::new();
    let mut i: usize = 0;
    proof {
        lemma_timestamp_position(schema.columns());
        assert(texts(fields@) =~= Seq::<Seq<char>>::empty());
    }
    while i < cells.len()
        invariant
            i <= cells.len(),
            cells.len() == schema.columns().len(),
            timestamp == timestamp_position(schema.columns()),
            position is Some == timestamp is Some,
            position matches Some(p) ==> timestamp == Some(p as int),
            given == optional_text(instant),
            position matches Some(p) ==> i <= p ==> optional_text(unused) == given,
            encode_cells(cells@, timestamp, given, i as int) == (RowView {
                fields: texts(fields@),
                error: None,
            }),
        decreases cells.len() - i,
    {
        let ghost before = fields@;
        match cells[i].text() {
            None => {
                let out = RowEncoding {
                    fields,
                    error: Some(
                        ExportError::new(
                            ErrorKind::Encoding,
                            String::from_str("text is not valid UTF-8"),
                        ),
                    ),
                };
                proof {
                    lemma_encoding_stops(cells@, timestamp, given, i + 1, cells.len() as int);
                }
                return out;
            },
            Some(text) => {
                let derived = if position == Some(i) {
                    Some(derive_field(text.as_str(), unused.take()))
                } else {
                    None
                };
                fields.push(text);
                assert(texts(fields@) =~= texts(before).push(text@));
                match derived {
                    None => {},
                    Some(Ok(rendered)) => {
                        let ghost with_text = fields@;
                        fields.push(rendered);
                        assert(texts(fields@) =~= texts(with_text).push(rendered@));
                    },
                    Some(Err(e)) => {
                        let out = RowEncoding { fields, error: Some(e) };
                        proof {
                            lemma_encoding_stops(cells@, timestamp, given, i + 1, cells.len() as int);
                        }
                        return out;
                    },
                }
            },
        }
        i += 1;
    }
    RowEncoding { fields, error: None }
}

/// Encodes one row of a table with the given schema.
pub fn encode_row(schema: &ColumnSchema, cells: &Vec<Cell>) -> (out: RowEncoding)
    ensures
        out@ == row_encoding(schema.columns(), cells@),
{
    let instant = match read_timestamp(schema, cells) {
        None => None,
        Some(secs) => format_epoch_utc(secs),
    };
    encode_row_given(schema, cells, instant)
}

/// Once the encoding has failed, further cells change nothing.
pub proof fn lemma_encoding_stops(
    cells: Seq<Cell>,
    timestamp: Option<int>,
    instant: Option<Seq<char>>,
    k: int,
    n: int,
)
    requires
        0 <= k <= n,
        encode_cells(cells, timestamp, instant, k).error is Some,
    ensures
        encode_cells(cells, timestamp, instant, n) == encode_cells(cells, timestamp, instant, k),
    decreases n - k,
{
    if k < n {
        lemma_encoding_stops(cells, timestamp, instant, k, n - 1);
    }
}

/// The fields of a beginning of a row that encoded without failure: one per
/// cell, each the cell's text, and right after the timestamp cell the
/// rendering of its seconds.
pub proof fn lemma_cells_shape(
    cells: Seq<Cell>,
    timestamp: Option<int>,
    instant: Option<Seq<char>>,
    n: int,
)
    requires
        0 <= n <= cells.len(),
        encode_cells(cells, timestamp, instant, n).error is None,
    ensures
        ({
            let fields = encode_cells(cells, timestamp, instant, n).fields;
            match timestamp {
                Some(p) if 0 <= p < n => {
                    &&& fields.len() == n + 1
                    &&& forall|j: int| 0 <= j <= p ==> cell_text(#[trigger] cells[j]) == Some(fields[j])
                    &&& parse_integer(fields[p]) is Some
                    &&& instant == Some(fields[p + 1])
                    &&& forall|j: int|
                        p < j < n ==> cell_text(#[trigger] cells[j]) == Some(fields[j + 1])
                },
                _ => {
                    &&& fields.len() == n
                    &&& forall|j: int| 0 <= j < n ==> cell_text(#[trigger] cells[j]) == Some(fields[j])
                },
            }
        }),
    decreases n,
{
    if n > 0 {
        lemma_cells_shape(cells, timestamp, instant, n - 1);
    }
}

/// A row that encodes without failure has as many fields as the header, each
/// cell's text at the place of its column's name, and at the place of
/// `timestamp_parsed` the UTC instant of the seconds that the field before it
/// denotes.
pub proof fn lemma_clean_row_shape(columns: Seq<Seq<char>>, cells: Seq<Cell>)
    requires
        row_encoding(columns, cells).error is None,
    ensures
        cells.len() == columns.len(),
        row_encoding(columns, cells).fields.len() == header_fields(columns).len(),
        ({
            let fields = row_encoding(columns, cells).fields;
            match timestamp_position(columns) {
                Some(p) => {
                    &&& forall|j: int| 0 <= j <= p ==> cell_text(#[trigger] cells[j]) == Some(fields[j])
                    &&& parse_integer(fields[p]) matches Some(secs) && rfc3339_utc(secs) == Some(
                        fields[p + 1],
                    )
                    &&& forall|j: int|
                        p < j < cells.len() ==> cell_text(#[trigger] cells[j]) == Some(
                            fields[j + 1],
                        )
                },
                None => forall|j: int|
                    0 <= j < cells.len() ==> cell_text(#[trigger] cells[j]) == Some(fields[j]),
            }
        }),
{
    lemma_timestamp_position(columns);
    lemma_cells_shape(
        cells,
        timestamp_position(columns),
        row_instant(columns, cells),
        cells.len() as int,
    );
}

/// In a row that encodes without failure, a cell without a value gives the
/// field `null` at the place of its column.
pub proof fn lemma_null_field(columns: Seq<Seq<char>>, cells: Seq<Cell>, j: int)
    requires
        row_encoding(columns, cells).error is None,
        0 <= j < cells.len(),
        cells[j] is Null,
    ensures
        ({
            let fields = row_encoding(columns, cells).fields;
            match timestamp_position(columns) {
                Some(p) if p < j => fields[j + 1] == "null"@,
                _ => fields[j] == "null"@,
            }
        }),
{
    lemma_clean_row_shape(columns, cells);
}

/// Cells before the timestamp cell that all have a text encode without
/// failure, one field each.
pub proof fn lemma_plain_cells(cells: Seq<Cell>, p: int, instant: Option<Seq<char>>, n: int)
    requires
        0 <= n <= p,
        n <= cells.len(),
        forall|j: int| 0 <= j < n ==> cell_text(#[trigger] cells[j]) is Some,
    ensures
        encode_cells(cells, Some(p), instant, n).error is None,
        encode_cells(cells, Some(p), instant, n).fields.len() == n,
    decreases n,
{
    if n > 0 {
        lemma_plain_cells(cells, p, instant, n - 1);
    }
}

/// A row whose timestamp cell holds a text that is no integer fails with a
/// `Parse` failure that names the text, whatever the other cells hold after
/// it. The fields up to and including the timestamp cell's own text are
/// produced, and none after it.
pub proof fn lemma_bad_timestamp_fails(columns: Seq<Seq<char>>, cells: Seq<Cell>, p: int)
    requires
        cells.len() == columns.len(),
        timestamp_position(columns) == Some(p),
        forall|j: int| 0 <= j <= p ==> cell_text(#[trigger] cells[j]) is Some,
        parse_integer(cell_text(cells[p])->0) is None,
    ensures
        row_encoding(columns, cells).error == Some(not_an_integer(cell_text(cells[p])->0)),
        row_encoding(columns, cells).fields.len() == p + 1,
        row_encoding(columns, cells).fields[p] == cell_text(cells[p])->0,
{
    lemma_timestamp_position(columns);
    let instant = row_instant(columns, cells);
    lemma_plain_cells(cells, p, instant, p);
    lemma_encoding_stops(cells, Some(p), instant, p + 1, cells.len() as int);
}

/// A row whose timestamp cell holds seconds outside the calendar fails with a
/// `Parse` failure that names the text, after the cell's own text.
pub proof fn lemma_distant_timestamp_fails(columns: Seq<Seq<char>>, cells: Seq<Cell>, p: int)
    requires
        cells.len() == columns.len(),
        timestamp_position(columns) == Some(p),
        forall|j: int| 0 <= j <= p ==> cell_text(#[trigger] cells[j]) is Some,
        parse_integer(cell_text(cells[p])->0) matches Some(secs) && rfc3339_utc(secs) is None,
    ensures
        row_encoding(columns, cells).error == Some(out_of_range(cell_text(cells[p])->0)),
        row_encoding(columns, cells).fields.len() == p + 1,
        row_encoding(columns, cells).fields[p] == cell_text(cells[p])->0,
{
    lemma_timestamp_position(columns);
    let instant = row_instant(columns, cells);
    lemma_plain_cells(cells, p, instant, p);
    lemma_encoding_stops(cells, Some(p), instant, p + 1, cells.len() as int);
}

/// A row's encoding fails only for a timestamp that cannot be derived or for a
/// cell that cannot be rendered.
pub proof fn lemma_row_error_kind(columns: Seq<Seq<char>>, cells: Seq<Cell>)
    ensures
        row_encoding(columns, cells).error matches Some(e) ==> e.kind == ErrorKind::Parse || e.kind
            == ErrorKind::Encoding,
{
    if cells.len() == columns.len() {
        lemma_cells_error_kind(
            cells,
            timestamp_position(columns),
            row_instant(columns, cells),
            cells.len() as int,
        );
    }
}

proof fn lemma_cells_error_kind(
    cells: Seq<Cell>,
    timestamp: Option<int>,
    instant: Option<Seq<char>>,
    n: int,
)
    ensures
        encode_cells(cells, timestamp, instant, n).error matches Some(e) ==> e.kind
            == ErrorKind::Parse || e.kind == ErrorKind::Encoding,
    decreases n,
{
    if n > 0 {
        lemma_cells_error_kind(cells, timestamp, instant, n - 1);
    }
}

} // verus!
