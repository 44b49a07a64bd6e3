//! The export of one table, as a machine that is driven by events.
//!
//! The caller creates the file, opens the database, fetches rows and writes
//! bytes; the machine decides what happens next. It is started with
//! [`Exporter::begin`], which asks for the output file. Every event that
//! reports how the last action went is handed to [`Exporter::step`], which
//! yields the bytes to append to the file and the next action. Where the
//! bytes cannot be written, that is the next event.

use vstd::prelude::*;
use crate::cell::Cell;
use crate::delimited::{encode_partial_record, encode_record, partial_record_bytes, record_bytes, texts};
use crate::error::{ErrorKind, ErrorView, ExportError, Outcome, OutcomeView};
use crate::row::{encode_row, row_encoding, RowEncoding};
use crate::schema::{header_fields, ColumnSchema};

verus! {

/// Where one table's export stands.
#[derive(Clone, Copy, Debug, PartialEq, Eq, Structural)]
pub enum Phase {
    /// Nothing has happened; the output file is to be created.
    Created,
    /// The output file exists; the database is to be opened.
    FileOpened,
    /// The database is open; the table is to be queried.
    Connected,
    /// The header is written; no row has been seen.
    SchemaWritten,
    /// At least one row is written.
    Streaming,
    /// Every row is written; the database is to be closed.
    Closing,
    /// The export succeeded.
    Closed,
    /// The export failed.
    Failed,
}

/// What the caller reports to the machine.
#[derive(Clone, Debug, PartialEq, Eq)]
pub enum Event {
    /// The output file was created.
    FileCreated,
    /// The output file could not be created.
    FileCreateFailed(String),
    /// The database was opened.
    Connected,
    /// The database could not be opened.
    ConnectFailed(String),
    /// The query was prepared; the table has these columns.
    Prepared(Vec<String>),
    /// The query could not be prepared.
    PrepareFailed(String),
    /// The next row.
    Row(Vec<Cell>),
    /// The next row could not be fetched.
    RowFailed(String),
    /// The bytes handed out last could not be written to the output file.
    WriteFailed(String),
    /// The table has no further row.
    EndOfRows,
    /// The database was closed.
    Closed,
    /// The database could not be closed.
    CloseFailed(String),
}

/// An action as contracts see it.
pub enum ActionView {
    CreateFile(Seq<char>),
    Connect,
    Prepare(Seq<char>),
    FetchRow,
    Close,
    Finish(OutcomeView),
}

/// What the caller is to do next.
#[derive(Clone, Debug, PartialEq, Eq)]
pub enum Action {
    /// Create a new file of this name in the output directory; an existing
    /// file is a failure.
    CreateFile(String),
    /// Open the database read-only.
    Connect,
    /// Prepare this query and report the columns of its result.
    Prepare(String),
    /// Fetch the next row.
    FetchRow,
    /// Close the database.
    Close,
    /// The export is over, with this outcome.
    Finish(Outcome),
}

impl View for Action {
    type V = ActionView;

    open spec fn view(&self) -> ActionView {
        match self {
            Action::CreateFile(name) => ActionView::CreateFile(name@),
            Action::Connect => ActionView::Connect,
            Action::Prepare(query) => ActionView::Prepare(query@),
            Action::FetchRow => ActionView::FetchRow,
            Action::Close => ActionView::Close,
            Action::Finish(outcome) => ActionView::Finish(outcome@),
        }
    }
}

/// The answer to an event: bytes to append to the output file, then an action.
pub struct Step {
    pub output: Vec<u8>,
    pub action: Action,
}

/// The name of a table's output file.
pub open spec fn file_name(table: Seq<char>) -> Seq<char> {
    table + ".csv"@
}

/// The query that reads every row and column of a table. The table's name is
/// quoted as it stands, so it has to come from the database's own catalog.
pub open spec fn table_query(table: Seq<char>) -> Seq<char> {
    "SELECT * FROM '"@ + table + "'"@
}

/// The bytes of a sequence of rows that all encode without failure.
pub open spec fn rows_bytes(columns: Seq<Seq<char>>, rows: Seq<Seq<Cell>>) -> Seq<u8>
    decreases rows.len(),
{
    if rows.len() == 0 {
        Seq::<u8>::empty()
    } else {
        rows_bytes(columns, rows.drop_last()) + record_bytes(
            row_encoding(columns, rows.last()).fields,
        )
    }
}

/// The whole output for a table: the header record, then one record per row.
pub open spec fn complete_output(columns: Seq<Seq<char>>, rows: Seq<Seq<Cell>>) -> Seq<u8> {
    record_bytes(header_fields(columns)) + rows_bytes(columns, rows)
}

/// Whether every one of the rows encodes without failure.
pub open spec fn all_clean(columns: Seq<Seq<char>>, rows: Seq<Seq<Cell>>) -> bool {
    forall|i: int| 0 <= i < rows.len() ==> (#[trigger] row_encoding(columns, rows[i])).error is None
}

/// The state of one table's export, with its history: the rows received and
/// the bytes handed out so far.
pub struct Progress {
    pub table: Seq<char>,
    pub phase: Phase,
    pub columns: Option<Seq<Seq<char>>>,
    pub failure: Option<ErrorView>,
    pub rows: Seq<Seq<Cell>>,
    pub written: Seq<u8>,
}

/// A step of the machine: the state after it, the bytes it hands out and the
/// action it asks for.
pub struct Advance {
    pub next: Progress,
    pub output: Seq<u8>,
    pub action: ActionView,
}

/// The state before anything has happened.
pub open spec fn initial(table: Seq<char>) -> Progress {
    Progress {
        table,
        phase: Phase::Created,
        columns: None,
        failure: None,
        rows: Seq::<Seq<Cell>>::empty(),
        written: Seq::<u8>::empty(),
    }
}

/// The step that ends the export with a failure and writes nothing.
pub open spec fn fail(p: Progress, kind: ErrorKind, cause: Seq<char>) -> Advance {
    let error = ErrorView { kind, cause };
    Advance {
        next: Progress { phase: Phase::Failed, failure: Some(error), ..p },
        output: Seq::<u8>::empty(),
        action: ActionView::Finish(OutcomeView::Failure { table_name: p.table, cause: error }),
    }
}

/// The step that moves on to `phase` and writes nothing.
pub open spec fn proceed(p: Progress, phase: Phase, action: ActionView) -> Advance {
    Advance { next: Progress { phase, ..p }, output: Seq::<u8>::empty(), action }
}

/// The step on the columns of the table: the header is written.
pub open spec fn write_header(p: Progress, columns: Seq<Seq<char>>) -> Advance {
    let output = record_bytes(header_fields(columns));
    Advance {
        next: Progress {
            phase: Phase::SchemaWritten,
            columns: Some(columns),
            written: p.written + output,
            ..p
        },
        output,
        action: ActionView::FetchRow,
    }
}

/// The step on a row: its record is written, or, where its encoding fails,
/// the fields before the failure and nothing after them.
pub open spec fn write_row(p: Progress, cells: Seq<Cell>) -> Advance {
    let encoded = row_encoding(p.columns->0, cells);
    match encoded.error {
        None => {
            let output = record_bytes(encoded.fields);
            Advance {
                next: Progress {
                    phase: Phase::Streaming,
                    rows: p.rows.push(cells),
                    written: p.written + output,
                    ..p
                },
                output,
                action: ActionView::FetchRow,
            }
        },
        Some(error) => {
            let output = partial_record_bytes(encoded.fields);
            Advance {
                next: Progress {
                    phase: Phase::Failed,
                    failure: Some(error),
                    rows: p.rows.push(cells),
                    written: p.written + output,
                    ..p
                },
                output,
                action: ActionView::Finish(
                    OutcomeView::Failure { table_name: p.table, cause: error },
                ),
            }
        },
    }
}

/// The machine: what an event does in a state. `None` where the state does
/// not take the event; an export that is over takes none.
pub open spec fn advance(p: Progress, event: Event) -> Option<Advance> {
    match (p.phase, event) {
        (Phase::Created, Event::FileCreated) => Some(
            proceed(p, Phase::FileOpened, ActionView::Connect),
        ),
        (Phase::Created, Event::FileCreateFailed(cause)) => Some(
            fail(p, ErrorKind::FileCreate, cause@),
        ),
        (Phase::FileOpened, Event::Connected) => Some(
            proceed(p, Phase::Connected, ActionView::Prepare(table_query(p.table))),
        ),
        (Phase::FileOpened, Event::ConnectFailed(cause)) => Some(
            fail(p, ErrorKind::Connection, cause@),
        ),
        (Phase::Connected, Event::Prepared(names)) => Some(write_header(p, texts(names@))),
        (Phase::Connected, Event::PrepareFailed(cause)) => Some(fail(p, ErrorKind::Query, cause@)),
        (Phase::SchemaWritten, Event::Row(cells)) => Some(write_row(p, cells@)),
        (Phase::Streaming, Event::Row(cells)) => Some(write_row(p, cells@)),
        (Phase::SchemaWritten, Event::RowFailed(cause)) => Some(fail(p, ErrorKind::Query, cause@)),
        (Phase::Streaming, Event::RowFailed(cause)) => Some(fail(p, ErrorKind::Query, cause@)),
        (Phase::SchemaWritten, Event::WriteFailed(cause)) => Some(
            fail(p, ErrorKind::Encoding, cause@),
        ),
        (Phase::Streaming, Event::WriteFailed(cause)) => Some(
            fail(p, ErrorKind::Encoding, cause@),
        ),
        (Phase::SchemaWritten, Event::EndOfRows) => Some(
            proceed(p, Phase::Closing, ActionView::Close),
        ),
        (Phase::Streaming, Event::EndOfRows) => Some(proceed(p, Phase::Closing, ActionView::Close)),
        (Phase::Closing, Event::Closed) => Some(
            proceed(p, Phase::Closed, ActionView::Finish(OutcomeView::Success)),
        ),
        (Phase::Closing, Event::CloseFailed(_)) => Some(
            proceed(p, Phase::Closed, ActionView::Finish(OutcomeView::Success)),
        ),
        _ => None,
    }
}

/// What holds of every state that the machine reaches.
///
/// What is written is what the machine has handed out to be written. Before
/// the header that is nothing. From the header on, while the export has not
/// failed, it is exactly the header and one record per row received, and every
/// row received encoded without failure. After a failure that no row's
/// encoding caused the same holds, or nothing is written where the header
/// never was. After a failure of a row's encoding, the header and the records
/// of the rows before it are written, and of the failing row the fields before
/// the failure.
pub open spec fn consistent(p: Progress) -> bool {
    match p.phase {
        Phase::Created | Phase::FileOpened | Phase::Connected => {
            &&& p.columns is None
            &&& p.failure is None
            &&& p.rows.len() == 0
            &&& p.written.len() == 0
        },
        Phase::SchemaWritten | Phase::Streaming | Phase::Closing | Phase::Closed => {
            &&& p.columns is Some
            &&& p.failure is None
            &&& p.phase == Phase::SchemaWritten ==> p.rows.len() == 0
            &&& p.phase == Phase::Streaming ==> p.rows.len() > 0
            &&& all_clean(p.columns->0, p.rows)
            &&& p.written == complete_output(p.columns->0, p.rows)
        },
        Phase::Failed => {
            &&& p.failure is Some
            &&& match p.columns {
                None => {
                    &&& p.failure->0.kind != ErrorKind::Parse
                    &&& p.failure->0.kind != ErrorKind::Encoding
                    &&& p.rows.len() == 0
                    &&& p.written.len() == 0
                },
                Some(columns) => {
                    ||| {
                        &&& all_clean(columns, p.rows)
                        &&& p.written == complete_output(columns, p.rows)
                    }
                    ||| {
                        &&& p.rows.len() > 0
                        &&& all_clean(columns, p.rows.drop_last())
                        &&& row_encoding(columns, p.rows.last()).error == p.failure
                        &&& p.written == complete_output(columns, p.rows.drop_last())
                            + partial_record_bytes(row_encoding(columns, p.rows.last()).fields)
                    }
                },
            }
        },
    }
}

/// The machine starts in a consistent state.
pub proof fn lemma_initial_consistent(table: Seq<char>)
    ensures
        consistent(initial(table)),
{
}

/// Every step of the machine keeps the state consistent, keeps the table's
/// name, and adds to what is written exactly the bytes it hands out.
pub proof fn lemma_advance_consistent(p: Progress, event: Event)
    requires
        consistent(p),
        advance(p, event) is Some,
    ensures
        consistent(advance(p, event)->0.next),
        advance(p, event)->0.next.table == p.table,
        advance(p, event)->0.next.written == p.written + advance(p, event)->0.output,
{
    let a = advance(p, event)->0;
    assert(p.written + Seq::<u8>::empty() =~= p.written);
    match (p.phase, event) {
        (Phase::Connected, Event::Prepared(names)) => {
            let columns = texts(names@);
            assert(p.written + record_bytes(header_fields(columns)) =~= record_bytes(
                header_fields(columns),
            ));
            assert(complete_output(columns, p.rows) =~= record_bytes(header_fields(columns)));
        },
        (Phase::SchemaWritten, Event::Row(cells)) => {
            lemma_row_step(p, cells@);
        },
        (Phase::Streaming, Event::Row(cells)) => {
            lemma_row_step(p, cells@);
        },
        _ => {},
    }
}

/// An export that succeeded has written the header and the record of every
/// row it received, in their order, and nothing else.
pub proof fn lemma_success_is_complete(p: Progress)
    requires
        consistent(p),
        p.phase == Phase::Closed,
    ensures
        p.columns is Some,
        all_clean(p.columns->0, p.rows),
        p.written == complete_output(p.columns->0, p.rows),
{
}

/// An export that failed has written nothing, or the header and the records
/// of the rows before the failure, and of a row that failed to encode the
/// fields before its failure. No row after the failure is written.
pub proof fn lemma_failure_is_partial(p: Progress)
    requires
        consistent(p),
        p.phase == Phase::Failed,
    ensures
        p.failure is Some,
        match p.columns {
            None => p.written.len() == 0,
            Some(columns) => p.written == complete_output(columns, p.rows) || (p.rows.len() > 0
                && p.written == complete_output(columns, p.rows.drop_last())
                + partial_record_bytes(row_encoding(columns, p.rows.last()).fields)),
        },
{
}

/// An export that is over takes no further event: nothing more is written.
pub proof fn lemma_over_is_over(p: Progress, event: Event)
    requires
        p.phase == Phase::Closed || p.phase == Phase::Failed,
    ensures
        advance(p, event) is None,
{
}

/// An output file that cannot be created, for one because it exists, ends the
/// export with a `FileCreate` failure before anything is written.
pub proof fn lemma_refused_file_fails(table: Seq<char>, cause: String)
    ensures
        advance(initial(table), Event::FileCreateFailed(cause)) matches Some(a) && a.next.phase
            == Phase::Failed && a.next.failure == Some(
            ErrorView { kind: ErrorKind::FileCreate, cause: cause@ },
        ) && a.output.len() == 0 && a.next.written.len() == 0 && a.action == ActionView::Finish(
            OutcomeView::Failure {
                table_name: table,
                cause: ErrorView { kind: ErrorKind::FileCreate, cause: cause@ },
            },
        ),
{
}

/// A row whose encoding fails ends the export with the row's failure; of the
/// row only the fields before the failure are written.
pub proof fn lemma_failed_row_ends_export(p: Progress, cells: Vec<Cell>)
    requires
        p.phase == Phase::SchemaWritten || p.phase == Phase::Streaming,
        row_encoding(p.columns->0, cells@).error is Some,
    ensures
        advance(p, Event::Row(cells)) matches Some(a) && a.next.phase == Phase::Failed
            && a.next.failure == row_encoding(p.columns->0, cells@).error && a.output
            == partial_record_bytes(row_encoding(p.columns->0, cells@).fields) && a.action
            == ActionView::Finish(
            OutcomeView::Failure {
                table_name: p.table,
                cause: row_encoding(p.columns->0, cells@).error->0,
            },
        ),
{
}

/// A database that cannot be closed after the last row does not undo the
/// export: it succeeds all the same, and nothing written changes.
pub proof fn lemma_close_failure_is_success(p: Progress, cause: String)
    requires
        p.phase == Phase::Closing,
    ensures
        advance(p, Event::CloseFailed(cause)) matches Some(a) && a.next.phase == Phase::Closed
            && a.next.written == p.written && a.action == ActionView::Finish(OutcomeView::Success),
{
}

/// The state after a sequence of events, from the state `p`. An event that
/// the state does not take is passed over.
pub open spec fn run(p: Progress, events: Seq<Event>) -> Progress
    decreases events.len(),
{
    if events.len() == 0 {
        p
    } else {
        let before = run(p, events.drop_last());
        match advance(before, events.last()) {
            Some(a) => a.next,
            None => before,
        }
    }
}

/// Whatever the events, the export of a table stays consistent and stays
/// the export of that table.
pub proof fn lemma_run_consistent(table: Seq<char>, events: Seq<Event>)
    ensures
        consistent(run(initial(table), events)),
        run(initial(table), events).table == table,
    decreases events.len(),
{
    if events.len() > 0 {
        lemma_run_consistent(table, events.drop_last());
        let before = run(initial(table), events.drop_last());
        if advance(before, events.last()) is Some {
            lemma_advance_consistent(before, events.last());
        }
    }
}

/// What is written is never taken back: the bytes written before a sequence
/// of events are the beginning of the bytes written after it.
pub proof fn lemma_written_grows(p: Progress, events: Seq<Event>)
    requires
        consistent(p),
    ensures
        consistent(run(p, events)),
        p.written.is_prefix_of(run(p, events).written),
    decreases events.len(),
{
    if events.len() > 0 {
        lemma_written_grows(p, events.drop_last());
        let before = run(p, events.drop_last());
        if advance(before, events.last()) is Some {
            lemma_advance_consistent(before, events.last());
        }
    }
}

/// The exports of several tables, each driven by its own events.
pub open spec fn run_each(tables: Seq<Seq<char>>, events: Seq<Seq<Event>>) -> Seq<Progress> {
    Seq::new(tables.len(), |i: int| run(initial(tables[i]), events[i]))
}

/// Tables are exported independently: what happens to one table, a failure
/// included, changes nothing of the export of any other.
pub proof fn lemma_exports_are_independent(
    tables: Seq<Seq<char>>,
    events: Seq<Seq<Event>>,
    k: int,
    other: Seq<Event>,
)
    requires
        events.len() == tables.len(),
        0 <= k < tables.len(),
    ensures
        forall|j: int|
            0 <= j < tables.len() && j != k ==> #[trigger] run_each(
                tables,
                events.update(k, other),
            )[j] == run_each(tables, events)[j],
{
}

proof fn lemma_row_step(p: Progress, cells: Seq<Cell>)
    requires
        consistent(p),
        p.phase == Phase::SchemaWritten || p.phase == Phase::Streaming,
    ensures
        consistent(write_row(p, cells).next),
{
    let columns = p.columns->0;
    let next = write_row(p, cells).next;
    let encoded = row_encoding(columns, cells);
    assert(next.rows.drop_last() =~= p.rows);
    assert(next.rows.last() == cells);
    match encoded.error {
        None => {
            assert forall|i: int| 0 <= i < next.rows.len() implies (#[trigger] row_encoding(
                columns,
                next.rows[i],
            )).error is None by {
                if i < p.rows.len() {
                    assert(next.rows[i] == p.rows[i]);
                }
            }
            assert(complete_output(columns, next.rows) =~= complete_output(columns, p.rows)
                + record_bytes(encoded.fields));
        },
        Some(error) => {},
    }
}

/// The export of one table.
pub struct Exporter {
    table_name: String,
    phase: Phase,
    schema: Option<ColumnSchema>,
    failure: Option<ExportError>,
    rows: Ghost<Seq<Seq<Cell>>>,
    written: Ghost<Seq<u8>>,
}

impl View for Exporter {
    type V = Progress;

    closed spec fn view(&self) -> Progress {
        Progress {
            table: self.table_name@,
            phase: self.phase,
            columns: match self.schema {
                Some(schema) => Some(schema.columns()),
                None => None,
            },
            failure: match self.failure {
                Some(error) => Some(error@),
                None => None,
            },
            rows: self.rows@,
            written: self.written@,
        }
    }
}

impl Exporter {
    /// Whether this export is in a state that the machine reaches.
    pub open spec fn wf(&self) -> bool {
        consistent(self@)
    }

    /// Starts the export of a table: nothing has happened yet, and the output
    /// file is to be created.
    pub fn begin(table_name: String) -> (out: (Exporter, Action))
        ensures
            out.0@ == initial(table_name@),
            out.0.wf(),
            out.1@ == ActionView::CreateFile(file_name(table_name@)),
    {
        let mut name = table_name.clone();
        name.append(".csv");
        let exporter = Exporter {
            table_name,
            phase: Phase::Created,
            schema: None,
            failure: None,
            rows: Ghost(Seq::<Seq<Cell>>::empty()),
            written: Ghost(Seq::<u8>::empty()),
        };
        (exporter, Action::CreateFile(name))
    }

    /// Where the export stands.
    pub fn phase(&self) -> (out: Phase)
        ensures
            out == self@.phase,
    {
        self.phase
    }

    /// The name of the table.
    pub fn table_name(&self) -> (out: &str)
        ensures
            out@ == self@.table,
    {
        self.table_name.as_str()
    }

    /// How the export ended, once it is over.
    pub fn outcome(&self) -> (out: Option<Outcome>)
        requires
            self.wf(),
        ensures
            match self@.phase {
                Phase::Closed => out matches Some(o) && o@ == OutcomeView::Success,
                Phase::Failed => out matches Some(o) && o@ == (OutcomeView::Failure {
                    table_name: self@.table,
                    cause: self@.failure->0,
                }),
                _ => out is None,
            },
    {
        match self.phase {
            Phase::Closed => Some(Outcome::Success),
            Phase::Failed => match &self.failure {
                Some(error) => Some(
                    Outcome::Failure {
                        table_name: self.table_name.clone(),
                        cause: error.duplicate(),
                    },
                ),
                None => None,
            },
            _ => None,
        }
    }

    fn fail_with(&mut self, kind: ErrorKind, cause: String) -> (out: Step)
        ensures
            final(self)@ == fail(old(self)@, kind, cause@).next,
            out.output@ == fail(old(self)@, kind, cause@).output,
            out.action@ == fail(old(self)@, kind, cause@).action,
    {
        let error = ExportError::new(kind, cause);
        let reported = error.duplicate();
        self.phase = Phase::Failed;
        self.failure = Some(error);
        Step {
            output: Vec::new(),
            action: Action::Finish(
                Outcome::Failure { table_name: self.table_name.clone(), cause: reported },
            ),
        }
    }

    fn move_to(&mut self, phase: Phase, action: Action) -> (out: Step)
        ensures
            final(self)@ == proceed(old(self)@, phase, action@).next,
            out.output@ == proceed(old(self)@, phase, action@).output,
            out.action@ == proceed(old(self)@, phase, action@).action,
    {
        self.phase = phase;
        Step { output: Vec::new(), action }
    }

    fn take_columns(&mut self, names: Vec<String>) -> (out: Step)
        ensures
            final(self)@ == write_header(old(self)@, texts(names@)).next,
            out.output@ == write_header(old(self)@, texts(names@)).output,
            out.action@ == write_header(old(self)@, texts(names@)).action,
    {
        let schema = ColumnSchema::new(names);
        let output = encode_record(&schema.header());
        self.phase = Phase::SchemaWritten;
        self.schema = Some(schema);
        self.written = Ghost(self.written@ + output@);
        Step { output, action: Action::FetchRow }
    }

    fn take_row(&mut self, cells: Vec<Cell>) -> (out: Step)
        requires
            old(self)@.columns is Some,
        ensures
            final(self)@ == write_row(old(self)@, cells@).next,
            out.output@ == write_row(old(self)@, cells@).output,
            out.action@ == write_row(old(self)@, cells@).action,
    {
        let encoded = match &self.schema {
            Some(schema) => encode_row(schema, &cells),
            None => RowEncoding { fields: Vec::new(), error: None },
        };
        self.rows = Ghost(self.rows@.push(cells@));
        match encoded.error {
            None => {
                let output = encode_record(&encoded.fields);
                self.phase = Phase::Streaming;
                self.written = Ghost(self.written@ + output@);
                Step { output, action: Action::FetchRow }
            },
            Some(error) => {
                let output = encode_partial_record(&encoded.fields);
                let reported = error.duplicate();
                self.phase = Phase::Failed;
                self.failure = Some(error);
                self.written = Ghost(self.written@ + output@);
                Step {
                    output,
                    action: Action::Finish(
                        Outcome::Failure { table_name: self.table_name.clone(), cause: reported },
                    ),
                }
            },
        }
    }

    /// Takes the event that reports how the last action went, and yields the
    /// bytes to append to the output file and the next action. An event that
    /// the state does not take changes nothing and yields `None`.
    pub fn step(&mut self, event: Event) -> (out: Option<Step>)
        requires
            old(self).wf(),
        ensures
            final(self).wf(),
            match advance(old(self)@, event) {
                None => out is None && final(self)@ == old(self)@,
                Some(a) => final(self)@ == a.next && (out matches Some(step) && step.output@
                    == a.output && step.action@ == a.action),
            },
    {
        proof {
            if advance(self@, event) is Some {
                lemma_advance_consistent(self@, event);
            }
        }
        match self.phase {
            Phase::Created => match event {
                Event::FileCreated => Some(self.move_to(Phase::FileOpened, Action::Connect)),
                Event::FileCreateFailed(cause) => Some(self.fail_with(ErrorKind::FileCreate, cause)),
                _ => None,
            },
            Phase::FileOpened => match event {
                Event::Connected => {
                    let mut query = String::from_str("SELECT * FROM '");
                    query.append(self.table_name.as_str());
                    query.append("'");
                    Some(self.move_to(Phase::Connected, Action::Prepare(query)))
                },
                Event::ConnectFailed(cause) => Some(self.fail_with(ErrorKind::Connection, cause)),
                _ => None,
            },
            Phase::Connected => match event {
                Event::Prepared(names) => Some(self.take_columns(names)),
                Event::PrepareFailed(cause) => Some(self.fail_with(ErrorKind::Query, cause)),
                _ => None,
            },
            Phase::SchemaWritten | Phase::Streaming => match event {
                Event::Row(cells) => Some(self.take_row(cells)),
                Event::RowFailed(cause) => Some(self.fail_with(ErrorKind::Query, cause)),
                Event::WriteFailed(cause) => Some(self.fail_with(ErrorKind::Encoding, cause)),
                Event::EndOfRows => Some(self.move_to(Phase::Closing, Action::Close)),
                _ => None,
            },
            Phase::Closing => match event {
                Event::Closed => Some(
                    self.move_to(Phase::Closed, Action::Finish(Outcome::Success)),
                ),
                Event::CloseFailed(_) => Some(
                    self.move_to(Phase::Closed, Action::Finish(Outcome::Success)),
                ),
                _ => None,
            },
            Phase::Closed | Phase::Failed => None,
        }
    }
}

} // verus!
