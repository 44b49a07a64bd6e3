//! What can go wrong with one table's export, and how such an export ends.

use vstd::prelude::*;

verus! {

/// The kinds of failure that end one table's export. None of them ends the
/// run.
#[derive(Clone, Copy, Debug, PartialEq, Eq, Structural)]
pub enum ErrorKind {
    /// The output file could not be created, for one because it exists.
    FileCreate,
    /// The database could not be opened.
    Connection,
    /// The table could not be queried, or a row could not be fetched.
    Query,
    /// The timestamp cell is no integer, or no instant of the calendar.
    Parse,
    /// A cell cannot be rendered as text.
    Encoding,
}

/// A failure as contracts see it: its kind and the text of its cause.
pub struct ErrorView {
    pub kind: ErrorKind,
    pub cause: Seq<char>,
}

/// A failure of one table's export, with a description of its cause.
#[derive(Clone, Debug, PartialEq, Eq)]
pub struct ExportError {
    pub kind: ErrorKind,
    pub cause: String,
}

impl View for ExportError {
    type V = ErrorView;

    open spec fn view(&self) -> ErrorView {
        ErrorView { kind: self.kind, cause: self.cause@ }
    }
}

/// The name under which a kind of failure is reported.
pub open spec fn kind_name(kind: ErrorKind) -> Seq<char> {
    match kind {
        ErrorKind::FileCreate => "FileCreateError"@,
        ErrorKind::Connection => "ConnectionError"@,
        ErrorKind::Query => "QueryError"@,
        ErrorKind::Parse => "ParseError"@,
        ErrorKind::Encoding => "EncodingError"@,
    }
}

impl ErrorKind {
    /// The name under which this kind of failure is reported.
    pub fn name(&self) -> (out: &'static str)
        ensures
            out@ == kind_name(*self),
    {
        match self {
            ErrorKind::FileCreate => "FileCreateError",
            ErrorKind::Connection => "ConnectionError",
            ErrorKind::Query => "QueryError",
            ErrorKind::Parse => "ParseError",
            ErrorKind::Encoding => "EncodingError",
        }
    }
}

impl ExportError {
    /// A failure of the given kind and cause.
    pub fn new(kind: ErrorKind, cause: String) -> (out: ExportError)
        ensures
            out@ == (ErrorView { kind, cause: cause@ }),
    {
        ExportError { kind, cause }
    }

    /// A copy of this failure.
    pub fn duplicate(&self) -> (out: ExportError)
        ensures
            out@ == self@,
    {
        ExportError { kind: self.kind, cause: self.cause.clone() }
    }

    /// The line that reports this failure: the kind's name, a colon and a
    /// space, then the cause.
    pub fn message(&self) -> (out: String)
        ensures
            out@ == kind_name(self.kind) + ": "@ + self.cause@,
    {
        let mut out = String::from_str(self.kind.name());
        out.append(": ");
        out.append(self.cause.as_str());
        out
    }
}

/// An outcome as contracts see it.
pub enum OutcomeView {
    Success,
    Failure { table_name: Seq<char>, cause: ErrorView },
}

/// How one table's export ended.
#[derive(Clone, Debug, PartialEq, Eq)]
pub enum Outcome {
    /// The header and every row were written.
    Success,
    /// The export of `table_name` stopped for `cause`.
    Failure { table_name: String, cause: ExportError },
}

impl View for Outcome {
    type V = OutcomeView;

    open spec fn view(&self) -> OutcomeView {
        match self {
            Outcome::Success => OutcomeView::Success,
            Outcome::Failure { table_name, cause } => OutcomeView::Failure {
                table_name: table_name@,
                cause: cause@,
            },
        }
    }
}

impl Outcome {
    /// Whether the export succeeded.
    pub fn is_success(&self) -> (out: bool)
        ensures
            out == (self@ is Success),
    {
        match self {
            Outcome::Success => true,
            Outcome::Failure { .. } => false,
        }
    }
}

} // verus!
