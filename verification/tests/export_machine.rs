use sqlite_dump::cell::Cell;
use sqlite_dump::delimited::{encode_partial_record, encode_record};
use sqlite_dump::error::{ErrorKind, ExportError, Outcome};
use sqlite_dump::export::{Action, Event, Exporter, Phase};

fn names(list: &[&str]) -> Vec<String> {
    list.iter().map(|s| s.to_string()).collect()
}

fn text(s: &str) -> Cell {
    Cell::Text(s.as_bytes().to_vec())
}

/// Drives an export through the given events and returns what was written, the
/// last action and the machine.
fn drive(table: &str, events: Vec<Event>) -> (Vec<u8>, Action, Exporter) {
    let (mut exporter, mut action) = Exporter::begin(table.to_string());
    let mut written = Vec::new();
    for event in events {
        let step = exporter.step(event).expect("the event fits the state");
        written.extend_from_slice(&step.output);
        action = step.action;
    }
    (written, action, exporter)
}

fn streaming(columns: &[&str], rows: Vec<Vec<Cell>>) -> Vec<Event> {
    let mut events = vec![Event::FileCreated, Event::Connected, Event::Prepared(names(columns))];
    events.extend(rows.into_iter().map(Event::Row));
    events
}

fn failure(table: &str, kind: ErrorKind, cause: &str) -> Outcome {
    Outcome::Failure {
        table_name: table.to_string(),
        cause: ExportError { kind, cause: cause.to_string() },
    }
}

#[test]
fn record_is_comma_separated_and_terminated() {
    assert_eq!(encode_record(&names(&["a", "b", "c"])), b"a,b,c\n".to_vec());
}

#[test]
fn record_quotes_fields_where_needed() {
    assert_eq!(
        encode_record(&names(&["a,b", "say \"hi\"", "two\nlines", " plain "])),
        b"\"a,b\",\"say \"\"hi\"\"\",\"two\nlines\", plain \n".to_vec()
    );
}

#[test]
fn record_of_one_empty_field_is_quoted() {
    assert_eq!(encode_record(&names(&[""])), b"\"\"\n".to_vec());
    assert_eq!(encode_record(&names(&["", ""])), b",\n".to_vec());
}

#[test]
fn partial_record_has_no_terminator() {
    assert_eq!(encode_partial_record(&names(&["5", "soon"])), b"5,soon".to_vec());
    assert_eq!(encode_partial_record(&names(&[])), Vec::<u8>::new());
}

#[test]
fn partial_record_leaves_the_quote_of_its_last_field_open() {
    assert_eq!(encode_partial_record(&names(&["a,b", "so,on"])), b"\"a,b\",\"so,on".to_vec());
}

#[test]
fn export_begins_by_asking_for_the_file() {
    let (exporter, action) = Exporter::begin("events".to_string());
    assert_eq!(action, Action::CreateFile("events.csv".to_string()));
    assert_eq!(exporter.phase(), Phase::Created);
    assert_eq!(exporter.table_name(), "events");
    assert_eq!(exporter.outcome(), None);
}

#[test]
fn export_walks_through_its_phases() {
    let (mut e, _) = Exporter::begin("t".to_string());
    let step = e.step(Event::FileCreated).unwrap();
    assert_eq!(step.action, Action::Connect);
    assert!(step.output.is_empty());
    assert_eq!(e.phase(), Phase::FileOpened);
    let step = e.step(Event::Connected).unwrap();
    assert_eq!(step.action, Action::Prepare("SELECT * FROM 't'".to_string()));
    assert_eq!(e.phase(), Phase::Connected);
    let step = e.step(Event::Prepared(names(&["a"]))).unwrap();
    assert_eq!(step.action, Action::FetchRow);
    assert_eq!(step.output, b"a\n".to_vec());
    assert_eq!(e.phase(), Phase::SchemaWritten);
    let step = e.step(Event::Row(vec![Cell::Integer(1)])).unwrap();
    assert_eq!(step.action, Action::FetchRow);
    assert_eq!(step.output, b"1\n".to_vec());
    assert_eq!(e.phase(), Phase::Streaming);
    let step = e.step(Event::EndOfRows).unwrap();
    assert_eq!(step.action, Action::Close);
    assert_eq!(e.phase(), Phase::Closing);
    assert_eq!(e.outcome(), None);
    let step = e.step(Event::Closed).unwrap();
    assert_eq!(step.action, Action::Finish(Outcome::Success));
    assert_eq!(e.phase(), Phase::Closed);
    assert_eq!(e.outcome(), Some(Outcome::Success));
}

#[test]
fn complete_export_holds_header_and_all_rows() {
    let mut events = streaming(
        &["id", "timestamp", "note", "data"],
        vec![
            vec![Cell::Integer(1), Cell::Integer(0), text("first"), Cell::Blob(vec![1, 2])],
            vec![Cell::Integer(2), text("1704164645"), Cell::Null, Cell::Blob(vec![])],
            vec![Cell::Integer(3), Cell::Integer(-1), Cell::Real("2.5".to_string()), Cell::Null],
        ],
    );
    events.push(Event::EndOfRows);
    events.push(Event::Closed);
    let (written, action, exporter) = drive("events", events);
    assert_eq!(action, Action::Finish(Outcome::Success));
    assert_eq!(exporter.outcome(), Some(Outcome::Success));
    assert_eq!(
        String::from_utf8(written).unwrap(),
        "id,timestamp,timestamp_parsed,note,data\n\
         1,0,1970-01-01T00:00:00Z,first,\"[1, 2]\"\n\
         2,1704164645,2024-01-02T03:04:05Z,null,[]\n\
         3,-1,1969-12-31T23:59:59Z,2.5,null\n"
    );
}

#[test]
fn epoch_zero_gives_1970_right_after_the_raw_value() {
    let (written, _, _) = drive("t", streaming(&["timestamp"], vec![vec![Cell::Integer(0)]]));
    assert_eq!(
        String::from_utf8(written).unwrap(),
        "timestamp,timestamp_parsed\n0,1970-01-01T00:00:00Z\n"
    );
}

#[test]
fn null_cell_is_written_as_null() {
    let (written, _, _) = drive("t", streaming(&["a", "b"], vec![vec![Cell::Null, Cell::Null]]));
    assert_eq!(String::from_utf8(written).unwrap(), "a,b\nnull,null\n");
}

#[test]
fn empty_table_gives_the_header_alone() {
    let mut events = streaming(&["a", "sm_timestamp"], vec![]);
    events.push(Event::EndOfRows);
    events.push(Event::Closed);
    let (written, action, _) = drive("t", events);
    assert_eq!(String::from_utf8(written).unwrap(), "a,sm_timestamp,timestamp_parsed\n");
    assert_eq!(action, Action::Finish(Outcome::Success));
}

#[test]
fn non_integer_timestamp_fails_the_table_with_a_parse_error() {
    let events = streaming(
        &["id", "sm_timestamp", "note"],
        vec![
            vec![Cell::Integer(1), Cell::Integer(60), text("ok")],
            vec![Cell::Integer(2), text("soon"), text("never written")],
        ],
    );
    let (written, action, mut exporter) = drive("readings", events);
    assert_eq!(
        String::from_utf8(written).unwrap(),
        "id,sm_timestamp,timestamp_parsed,note\n1,60,1970-01-01T00:01:00Z,ok\n2,soon"
    );
    let expected = failure("readings", ErrorKind::Parse, "timestamp is not an integer: soon");
    assert_eq!(action, Action::Finish(expected.clone()));
    assert_eq!(exporter.phase(), Phase::Failed);
    assert_eq!(exporter.outcome(), Some(expected));
    assert!(exporter.step(Event::Row(vec![Cell::Integer(3), Cell::Integer(0), Cell::Null])).is_none());
    assert!(exporter.step(Event::EndOfRows).is_none());
    assert_eq!(exporter.phase(), Phase::Failed);
}

#[test]
fn out_of_range_timestamp_fails_the_table_with_a_parse_error() {
    let events = streaming(&["timestamp"], vec![vec![Cell::Integer(i64::MAX)]]);
    let (written, action, _) = drive("t", events);
    assert_eq!(
        String::from_utf8(written).unwrap(),
        "timestamp,timestamp_parsed\n9223372036854775807"
    );
    assert_eq!(
        action,
        Action::Finish(failure(
            "t",
            ErrorKind::Parse,
            "timestamp is out of range: 9223372036854775807"
        ))
    );
}

#[test]
fn invalid_text_fails_the_table_with_an_encoding_error() {
    let events = streaming(&["a", "b"], vec![vec![Cell::Text(vec![0xff]), Cell::Integer(1)]]);
    let (written, action, _) = drive("t", events);
    assert_eq!(String::from_utf8(written).unwrap(), "a,b\n");
    assert_eq!(
        action,
        Action::Finish(failure("t", ErrorKind::Encoding, "text is not valid UTF-8"))
    );
}

#[test]
fn existing_file_fails_the_table_with_a_file_create_error() {
    let (written, action, exporter) =
        drive("t", vec![Event::FileCreateFailed("File exists (os error 17)".to_string())]);
    assert!(written.is_empty());
    let expected = failure("t", ErrorKind::FileCreate, "File exists (os error 17)");
    assert_eq!(action, Action::Finish(expected.clone()));
    assert_eq!(exporter.outcome(), Some(expected));
}

#[test]
fn second_export_of_a_table_fails_like_the_first_succeeded() {
    let mut first = streaming(&["a"], vec![vec![Cell::Integer(1)]]);
    first.push(Event::EndOfRows);
    first.push(Event::Closed);
    let (_, action, _) = drive("t", first);
    assert_eq!(action, Action::Finish(Outcome::Success));
    let (written, action, _) = drive("t", vec![Event::FileCreateFailed("exists".to_string())]);
    assert!(written.is_empty());
    assert_eq!(action, Action::Finish(failure("t", ErrorKind::FileCreate, "exists")));
}

#[test]
fn unreachable_database_fails_the_table_with_a_connection_error() {
    let (written, action, _) =
        drive("t", vec![Event::FileCreated, Event::ConnectFailed("locked".to_string())]);
    assert!(written.is_empty());
    assert_eq!(action, Action::Finish(failure("t", ErrorKind::Connection, "locked")));
}

#[test]
fn unprepared_query_fails_the_table_with_a_query_error() {
    let (written, action, _) = drive(
        "t",
        vec![Event::FileCreated, Event::Connected, Event::PrepareFailed("no such table".to_string())],
    );
    assert!(written.is_empty());
    assert_eq!(action, Action::Finish(failure("t", ErrorKind::Query, "no such table")));
}

#[test]
fn unfetched_row_fails_the_table_and_keeps_what_is_written() {
    let mut events = streaming(&["a"], vec![vec![Cell::Integer(1)]]);
    events.push(Event::RowFailed("disk I/O error".to_string()));
    let (written, action, _) = drive("t", events);
    assert_eq!(String::from_utf8(written).unwrap(), "a\n1\n");
    assert_eq!(action, Action::Finish(failure("t", ErrorKind::Query, "disk I/O error")));
}

#[test]
fn close_failure_does_not_undo_a_successful_export() {
    let mut events = streaming(&["a"], vec![vec![Cell::Integer(1)]]);
    events.push(Event::EndOfRows);
    events.push(Event::CloseFailed("busy".to_string()));
    let (written, action, exporter) = drive("t", events);
    assert_eq!(String::from_utf8(written).unwrap(), "a\n1\n");
    assert_eq!(action, Action::Finish(Outcome::Success));
    assert_eq!(exporter.phase(), Phase::Closed);
}

#[test]
fn event_that_does_not_fit_changes_nothing() {
    let (mut e, _) = Exporter::begin("t".to_string());
    assert!(e.step(Event::Connected).is_none());
    assert!(e.step(Event::Row(vec![])).is_none());
    assert!(e.step(Event::Closed).is_none());
    assert_eq!(e.phase(), Phase::Created);
    assert!(e.step(Event::FileCreated).is_some());
    assert!(e.step(Event::FileCreated).is_none());
    assert!(e.step(Event::Prepared(names(&["a"]))).is_none());
    assert_eq!(e.phase(), Phase::FileOpened);
}

#[test]
fn finished_export_takes_no_further_event() {
    let mut events = streaming(&["a"], vec![]);
    events.push(Event::EndOfRows);
    events.push(Event::Closed);
    let (_, _, mut e) = drive("t", events);
    assert!(e.step(Event::Row(vec![Cell::Integer(1)])).is_none());
    assert!(e.step(Event::FileCreated).is_none());
    assert!(e.step(Event::CloseFailed("late".to_string())).is_none());
    assert_eq!(e.outcome(), Some(Outcome::Success));
}

#[test]
fn output_equals_one_writer_fed_field_by_field() {
    let columns = ["id", "timestamp", "text"];
    let rows = vec![
        vec![Cell::Integer(1), Cell::Integer(0), text("a,b")],
        vec![Cell::Integer(2), Cell::Integer(86400), text("")],
        vec![Cell::Integer(3), Cell::Integer(1), text("q\"q")],
    ];
    let (written, _, _) = drive("t", streaming(&columns, rows));
    let mut writer = csv::Writer::from_writer(Vec::new());
    writer.write_record(["id", "timestamp", "timestamp_parsed", "text"]).unwrap();
    for (id, secs, instant, note) in [
        ("1", "0", "1970-01-01T00:00:00Z", "a,b"),
        ("2", "86400", "1970-01-02T00:00:00Z", ""),
        ("3", "1", "1970-01-01T00:00:01Z", "q\"q"),
    ] {
        writer.write_field(id).unwrap();
        writer.write_field(secs).unwrap();
        writer.write_field(instant).unwrap();
        writer.write_field(note).unwrap();
        writer.write_record(None::<&[u8]>).unwrap();
    }
    assert_eq!(written, writer.into_inner().unwrap());
}

#[test]
fn failure_of_one_table_leaves_the_others_complete() {
    let tables = ["a", "b", "c"];
    let mut outputs = Vec::new();
    let mut outcomes = Vec::new();
    for (k, table) in tables.iter().enumerate() {
        let cell = if k == 1 { text("malformed") } else { Cell::Integer(0) };
        let mut events = streaming(&["timestamp"], vec![vec![cell]]);
        if k != 1 {
            events.push(Event::EndOfRows);
            events.push(Event::Closed);
        }
        let (written, _, exporter) = drive(table, events);
        outputs.push(String::from_utf8(written).unwrap());
        outcomes.push(exporter.outcome().unwrap());
    }
    let complete = "timestamp,timestamp_parsed\n0,1970-01-01T00:00:00Z\n";
    assert_eq!(outputs[0], complete);
    assert_eq!(outputs[2], complete);
    assert_eq!(outputs[1], "timestamp,timestamp_parsed\nmalformed");
    assert_eq!(outcomes[0], Outcome::Success);
    assert_eq!(outcomes[2], Outcome::Success);
    assert_eq!(
        outcomes[1],
        failure("b", ErrorKind::Parse, "timestamp is not an integer: malformed")
    );
}

#[test]
fn error_message_names_kind_and_cause() {
    let e = ExportError::new(ErrorKind::Query, "no such table".to_string());
    assert_eq!(e.message(), "QueryError: no such table");
    assert_eq!(e.duplicate(), e);
    assert_eq!(ErrorKind::FileCreate.name(), "FileCreateError");
    assert_eq!(ErrorKind::Connection.name(), "ConnectionError");
    assert_eq!(ErrorKind::Encoding.name(), "EncodingError");
    assert_eq!(ErrorKind::Parse.name(), "ParseError");
    assert!(Outcome::Success.is_success());
    assert!(!failure("t", ErrorKind::Query, "x").is_success());
}

#[test]
fn unwritable_output_fails_the_table_with_an_encoding_error() {
    let mut events = streaming(&["a"], vec![vec![Cell::Integer(1)]]);
    events.push(Event::WriteFailed("No space left on device".to_string()));
    let (written, action, mut exporter) = drive("t", events);
    assert_eq!(String::from_utf8(written).unwrap(), "a\n1\n");
    assert_eq!(
        action,
        Action::Finish(failure("t", ErrorKind::Encoding, "No space left on device"))
    );
    assert!(exporter.step(Event::WriteFailed("again".to_string())).is_none());
    let (mut early, _) = Exporter::begin("t".to_string());
    assert!(early.step(Event::WriteFailed("nothing was written".to_string())).is_none());
}
