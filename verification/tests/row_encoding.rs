use sqlite_dump::cell::Cell;
use sqlite_dump::error::ErrorKind;
use sqlite_dump::row::{derive_field, encode_row, encode_row_given, read_timestamp};
use sqlite_dump::schema::ColumnSchema;
use sqlite_dump::text::{byte_list_text, integer_text, parse_integer_text, starts_with};

fn names(list: &[&str]) -> Vec<String> {
    list.iter().map(|s| s.to_string()).collect()
}

fn text(s: &str) -> Cell {
    Cell::Text(s.as_bytes().to_vec())
}

#[test]
fn null_cell_is_the_word_null() {
    assert_eq!(Cell::Null.text(), Some("null".to_string()));
}

#[test]
fn integer_cell_is_its_decimal_numeral() {
    assert_eq!(Cell::Integer(0).text(), Some("0".to_string()));
    assert_eq!(Cell::Integer(-12).text(), Some("-12".to_string()));
    assert_eq!(Cell::Integer(1700000000).text(), Some("1700000000".to_string()));
}

#[test]
fn integer_text_covers_the_whole_range() {
    assert_eq!(integer_text(i64::MAX), "9223372036854775807");
    assert_eq!(integer_text(i64::MIN), "-9223372036854775808");
    assert_eq!(integer_text(10), "10");
    assert_eq!(integer_text(-1), "-1");
    assert_eq!(integer_text(7), i64::to_string(&7));
}

#[test]
fn real_cell_keeps_its_text() {
    assert_eq!(Cell::Real(1.5f64.to_string()).text(), Some("1.5".to_string()));
}

#[test]
fn text_cell_is_unmodified() {
    assert_eq!(text("hello, \"world\"").text(), Some("hello, \"world\"".to_string()));
    assert_eq!(text("").text(), Some(String::new()));
    assert_eq!(text("größe").text(), Some("größe".to_string()));
}

#[test]
fn text_cell_with_invalid_utf8_has_no_text() {
    assert_eq!(Cell::Text(vec![0x66, 0xff, 0x6f]).text(), None);
}

#[test]
fn blob_cell_is_a_bracketed_byte_list() {
    assert_eq!(Cell::Blob(vec![]).text(), Some("[]".to_string()));
    assert_eq!(Cell::Blob(vec![7]).text(), Some("[7]".to_string()));
    assert_eq!(Cell::Blob(vec![222, 173, 0]).text(), Some("[222, 173, 0]".to_string()));
}

#[test]
fn byte_list_matches_debug_rendering() {
    let bytes: Vec<u8> = vec![0, 1, 9, 10, 99, 100, 255];
    assert_eq!(byte_list_text(&bytes), format!("{:?}", bytes));
}

#[test]
fn parse_integer_accepts_signs_and_leading_zeros() {
    assert_eq!(parse_integer_text("0"), Some(0));
    assert_eq!(parse_integer_text("+15"), Some(15));
    assert_eq!(parse_integer_text("-15"), Some(-15));
    assert_eq!(parse_integer_text("-0"), Some(0));
    assert_eq!(parse_integer_text("0000000000000000000000042"), Some(42));
    assert_eq!(parse_integer_text("9223372036854775807"), Some(i64::MAX));
    assert_eq!(parse_integer_text("-9223372036854775808"), Some(i64::MIN));
}

#[test]
fn parse_integer_rejects_everything_else() {
    assert_eq!(parse_integer_text(""), None);
    assert_eq!(parse_integer_text("+"), None);
    assert_eq!(parse_integer_text("-"), None);
    assert_eq!(parse_integer_text(" 1"), None);
    assert_eq!(parse_integer_text("1 "), None);
    assert_eq!(parse_integer_text("1.5"), None);
    assert_eq!(parse_integer_text("12a"), None);
    assert_eq!(parse_integer_text("--1"), None);
    assert_eq!(parse_integer_text("null"), None);
    assert_eq!(parse_integer_text("١٢"), None);
    assert_eq!(parse_integer_text("9223372036854775808"), None);
    assert_eq!(parse_integer_text("-9223372036854775809"), None);
    assert_eq!(parse_integer_text("99999999999999999999999999"), None);
}

#[test]
fn parse_integer_agrees_with_std() {
    for s in ["0", "-1", "+7", "007", "", "-", "1e3", "18446744073709551615", "-9223372036854775808"] {
        assert_eq!(parse_integer_text(s), s.parse::<i64>().ok());
    }
}

#[test]
fn starts_with_compares_characters() {
    assert!(starts_with("sqlite_sequence", "sqlite_"));
    assert!(starts_with("sqlite_", "sqlite_"));
    assert!(!starts_with("sqlite", "sqlite_"));
    assert!(!starts_with("SQLITE_x", "sqlite_"));
    assert!(starts_with("anything", ""));
}

/// The derived field of a table whose only column is a timestamp, for one row.
fn derived(cell: Cell) -> Result<String, (ErrorKind, String)> {
    let schema = ColumnSchema::new(names(&["timestamp"]));
    let mut row = encode_row(&schema, &vec![cell]);
    match row.error {
        None => Ok(row.fields.pop().unwrap()),
        Some(e) => Err((e.kind, e.cause)),
    }
}

#[test]
fn epoch_zero_is_the_start_of_1970() {
    assert_eq!(derived(Cell::Integer(0)), Ok("1970-01-01T00:00:00Z".to_string()));
}

#[test]
fn derived_timestamp_has_second_precision_in_utc() {
    assert_eq!(derived(Cell::Integer(1704164645)), Ok("2024-01-02T03:04:05Z".to_string()));
    assert_eq!(derived(Cell::Integer(-1)), Ok("1969-12-31T23:59:59Z".to_string()));
    assert_eq!(derived(text("+951782400")), Ok("2000-02-29T00:00:00Z".to_string()));
    assert_eq!(derived(Cell::Integer(253402300799)), Ok("9999-12-31T23:59:59Z".to_string()));
}

#[test]
fn timestamp_that_is_no_integer_is_a_parse_error() {
    assert_eq!(
        derived(text("yesterday")),
        Err((ErrorKind::Parse, "timestamp is not an integer: yesterday".to_string()))
    );
    assert_eq!(
        derived(Cell::Real("1.5".to_string())),
        Err((ErrorKind::Parse, "timestamp is not an integer: 1.5".to_string()))
    );
    assert_eq!(
        derived(Cell::Blob(vec![1])),
        Err((ErrorKind::Parse, "timestamp is not an integer: [1]".to_string()))
    );
}

#[test]
fn timestamp_outside_the_calendar_is_a_parse_error() {
    assert_eq!(
        derived(Cell::Integer(i64::MAX)),
        Err((ErrorKind::Parse, "timestamp is out of range: 9223372036854775807".to_string()))
    );
    assert_eq!(
        derived(Cell::Integer(i64::MIN)),
        Err((ErrorKind::Parse, "timestamp is out of range: -9223372036854775808".to_string()))
    );
}

#[test]
fn derived_field_is_the_rendering_it_is_given() {
    assert_eq!(derive_field("0", Some("then".to_string())), Ok("then".to_string()));
    assert_eq!(derive_field("-17", Some("before".to_string())), Ok("before".to_string()));
}

#[test]
fn derived_field_fails_without_a_rendering() {
    let e = derive_field("12", None).unwrap_err();
    assert_eq!(e.kind, ErrorKind::Parse);
    assert_eq!(e.cause, "timestamp is out of range: 12");
    assert_eq!(e.message(), "ParseError: timestamp is out of range: 12");
}

#[test]
fn derived_field_fails_for_text_that_is_no_integer() {
    let e = derive_field("12h", Some("never used".to_string())).unwrap_err();
    assert_eq!(e.kind, ErrorKind::Parse);
    assert_eq!(e.cause, "timestamp is not an integer: 12h");
    let e = derive_field("", None).unwrap_err();
    assert_eq!(e.cause, "timestamp is not an integer: ");
}

#[test]
fn read_timestamp_gives_the_seconds_of_the_timestamp_cell() {
    let schema = ColumnSchema::new(names(&["id", "sm_timestamp"]));
    assert_eq!(read_timestamp(&schema, &vec![Cell::Integer(9), Cell::Integer(77)]), Some(77));
    assert_eq!(read_timestamp(&schema, &vec![Cell::Integer(9), text("-5")]), Some(-5));
    assert_eq!(read_timestamp(&schema, &vec![Cell::Integer(9), text("x")]), None);
    assert_eq!(read_timestamp(&schema, &vec![Cell::Integer(9), Cell::Null]), None);
    assert_eq!(read_timestamp(&schema, &vec![Cell::Integer(9), Cell::Text(vec![0xff])]), None);
    assert_eq!(read_timestamp(&schema, &vec![Cell::Integer(77)]), None);
    let plain = ColumnSchema::new(names(&["id", "time"]));
    assert_eq!(read_timestamp(&plain, &vec![Cell::Integer(9), Cell::Integer(77)]), None);
}

#[test]
fn row_given_a_rendering_places_it_after_the_timestamp() {
    let schema = ColumnSchema::new(names(&["a", "timestamp", "b"]));
    let cells = vec![text("x"), Cell::Integer(3), Cell::Null];
    let row = encode_row_given(&schema, &cells, Some("three".to_string()));
    assert_eq!(row.error, None);
    assert_eq!(row.fields, names(&["x", "3", "three", "null"]));
}

#[test]
fn row_given_no_rendering_stops_at_the_timestamp() {
    let schema = ColumnSchema::new(names(&["a", "timestamp", "b"]));
    let cells = vec![text("x"), Cell::Integer(3), Cell::Null];
    let row = encode_row_given(&schema, &cells, None);
    assert_eq!(row.fields, names(&["x", "3"]));
    let e = row.error.unwrap();
    assert_eq!((e.kind, e.cause.as_str()), (ErrorKind::Parse, "timestamp is out of range: 3"));
}

#[test]
fn row_without_timestamp_column_ignores_the_rendering() {
    let schema = ColumnSchema::new(names(&["a", "b"]));
    let cells = vec![Cell::Integer(1), Cell::Integer(2)];
    let row = encode_row_given(&schema, &cells, Some("unused".to_string()));
    assert_eq!(row.error, None);
    assert_eq!(row.fields, names(&["1", "2"]));
}

#[test]
fn header_without_timestamp_is_the_column_names() {
    let schema = ColumnSchema::new(names(&["id", "name"]));
    assert_eq!(schema.timestamp_column(), None);
    assert_eq!(schema.column_count(), 2);
    assert_eq!(schema.header(), names(&["id", "name"]));
}

#[test]
fn header_gets_parsed_column_after_timestamp() {
    let schema = ColumnSchema::new(names(&["id", "timestamp", "value"]));
    assert_eq!(schema.timestamp_column(), Some(1));
    assert_eq!(schema.header(), names(&["id", "timestamp", "timestamp_parsed", "value"]));
    let schema = ColumnSchema::new(names(&["sm_timestamp"]));
    assert_eq!(schema.header(), names(&["sm_timestamp", "timestamp_parsed"]));
}

#[test]
fn only_the_first_timestamp_column_is_derived() {
    let schema = ColumnSchema::new(names(&["a", "timestamp", "sm_timestamp"]));
    assert_eq!(schema.timestamp_column(), Some(1));
    assert_eq!(schema.header(), names(&["a", "timestamp", "timestamp_parsed", "sm_timestamp"]));
    let schema = ColumnSchema::new(names(&["Timestamp", "timestamp_parsed"]));
    assert_eq!(schema.timestamp_column(), None);
}

#[test]
fn row_with_epoch_zero_has_derived_field_after_raw_value() {
    let schema = ColumnSchema::new(names(&["id", "timestamp", "note"]));
    let row = encode_row(&schema, &vec![Cell::Integer(5), Cell::Integer(0), Cell::Null]);
    assert_eq!(row.error, None);
    assert_eq!(row.fields, names(&["5", "0", "1970-01-01T00:00:00Z", "null"]));
}

#[test]
fn row_with_text_timestamp_is_parsed_too() {
    let schema = ColumnSchema::new(names(&["sm_timestamp", "v"]));
    let row = encode_row(&schema, &vec![text("86400"), Cell::Blob(vec![1, 2])]);
    assert_eq!(row.error, None);
    assert_eq!(row.fields, names(&["86400", "1970-01-02T00:00:00Z", "[1, 2]"]));
}

#[test]
fn row_with_bad_timestamp_stops_after_the_raw_value() {
    let schema = ColumnSchema::new(names(&["id", "sm_timestamp", "note"]));
    let row = encode_row(&schema, &vec![Cell::Integer(5), text("soon"), text("x")]);
    assert_eq!(row.fields, names(&["5", "soon"]));
    let e = row.error.unwrap();
    assert_eq!(e.kind, ErrorKind::Parse);
}

#[test]
fn row_with_null_timestamp_is_a_parse_error() {
    let schema = ColumnSchema::new(names(&["timestamp"]));
    let row = encode_row(&schema, &vec![Cell::Null]);
    assert_eq!(row.fields, names(&["null"]));
    assert_eq!(row.error.unwrap().kind, ErrorKind::Parse);
}

#[test]
fn row_with_invalid_text_is_an_encoding_error() {
    let schema = ColumnSchema::new(names(&["a", "b"]));
    let row = encode_row(&schema, &vec![Cell::Integer(1), Cell::Text(vec![0xc3])]);
    assert_eq!(row.fields, names(&["1"]));
    let e = row.error.unwrap();
    assert_eq!(e.kind, ErrorKind::Encoding);
    assert_eq!(e.cause, "text is not valid UTF-8");
}

#[test]
fn row_of_the_wrong_length_is_an_encoding_error() {
    let schema = ColumnSchema::new(names(&["a", "b"]));
    let row = encode_row(&schema, &vec![Cell::Integer(1)]);
    assert!(row.fields.is_empty());
    let e = row.error.unwrap();
    assert_eq!(e.kind, ErrorKind::Encoding);
    assert_eq!(e.cause, "row does not match the columns");
}
