//! Which tables are exported: the user tables that the catalog lists.

use vstd::prelude::*;
use crate::delimited::texts;
use crate::text::{has_prefix, starts_with};

verus! {

/// The kinds of failure that end the whole run, before any table is exported.
#[derive(Clone, Copy, Debug, PartialEq, Eq, Structural)]
pub enum RunErrorKind {
    /// The configuration is not usable.
    Config,
    /// The tables could not be discovered.
    Discovery,
    /// The output directory could not be prepared.
    Directory,
}

/// A failure of the run as contracts see it.
pub struct RunErrorView {
    pub kind: RunErrorKind,
    pub cause: Seq<char>,
}

/// A failure that ends the whole run, with a description of its cause.
#[derive(Clone, Debug, PartialEq, Eq)]
pub struct RunError {
    pub kind: RunErrorKind,
    pub cause: String,
}

impl View for RunError {
    type V = RunErrorView;

    open spec fn view(&self) -> RunErrorView {
        RunErrorView { kind: self.kind, cause: self.cause@ }
    }
}

/// The name under which a kind of failure of the run is reported.
pub open spec fn run_error_name(kind: RunErrorKind) -> Seq<char> {
    match kind {
        RunErrorKind::Config => "ConfigError"@,
        RunErrorKind::Discovery => "DiscoveryError"@,
        RunErrorKind::Directory => "DirectoryError"@,
    }
}

impl RunError {
    /// The line that reports this failure: the kind's name, a colon and a
    /// space, then the cause.
    pub fn message(&self) -> (out: String)
        ensures
            out@ == run_error_name(self.kind) + ": "@ + self.cause@,
    {
        let name = match self.kind {
            RunErrorKind::Config => "ConfigError",
            RunErrorKind::Discovery => "DiscoveryError",
            RunErrorKind::Directory => "DirectoryError",
        };
        let mut out = String::from_str(name);
        out.append(": ");
        out.append(self.cause.as_str());
        out
    }
}

/// One row of the catalog, as it was read.
#[derive(Clone, Debug, PartialEq, Eq)]
pub enum CatalogEntry {
    /// The name of a table.
    Name(String),
    /// A row that could not be read, with the cause.
    Unreadable(String),
}

/// What reading the catalog gave.
#[derive(Clone, Debug, PartialEq, Eq)]
pub enum Catalog {
    /// The database could not be opened.
    ConnectFailed(String),
    /// The query on the catalog could not be prepared.
    PrepareFailed(String),
    /// The rows of the catalog, in its order.
    Entries(Vec<CatalogEntry>),
}

/// Whether a table of this name belongs to the database itself: its name
/// begins with `sqlite_`, letter for letter. A name that only resembles the
/// prefix, such as `sqlitestats`, is a user's.
pub open spec fn is_system_name(name: Seq<char>) -> bool {
    has_prefix(name, "sqlite_"@)
}

/// Whether a row of the catalog names a table to export.
pub open spec fn is_user_table(entry: CatalogEntry) -> bool {
    entry matches CatalogEntry::Name(name) && !is_system_name(name@)
}

/// The names of the user tables among the rows of the catalog, in the
/// catalog's order. Rows that could not be read are passed over.
pub open spec fn user_tables(entries: Seq<CatalogEntry>) -> Seq<Seq<char>>
    decreases entries.len(),
{
    if entries.len() == 0 {
        Seq::<Seq<char>>::empty()
    } else {
        let front = user_tables(entries.drop_last());
        match entries.last() {
            CatalogEntry::Name(name) => if is_system_name(name@) {
                front
            } else {
                front.push(name@)
            },
            CatalogEntry::Unreadable(_) => front,
        }
    }
}

/// Discovery yields no more tables than the catalog has rows.
pub proof fn lemma_user_tables_bound(entries: Seq<CatalogEntry>)
    ensures
        user_tables(entries).len() <= entries.len(),
    decreases entries.len(),
{
    if entries.len() > 0 {
        lemma_user_tables_bound(entries.drop_last());
    }
}

/// A catalog without a readable row that names a user table yields no table.
pub proof fn lemma_no_user_tables(entries: Seq<CatalogEntry>)
    requires
        forall|i: int| 0 <= i < entries.len() ==> !is_user_table(#[trigger] entries[i]),
    ensures
        user_tables(entries).len() == 0,
    decreases entries.len(),
{
    if entries.len() > 0 {
        assert forall|i: int| 0 <= i < entries.drop_last().len() implies !is_user_table(
            #[trigger] entries.drop_last()[i],
        ) by {
            assert(entries.drop_last()[i] == entries[i]);
        }
        lemma_no_user_tables(entries.drop_last());
        assert(!is_user_table(entries[entries.len() - 1]));
    }
}

/// The tables that discovery yields are the names of the catalog's readable
/// rows that name a user table, each as often as the catalog has it.
pub proof fn lemma_user_tables_are_listed(entries: Seq<CatalogEntry>, k: int)
    requires
        0 <= k < user_tables(entries).len(),
    ensures
        exists|i: int|
            0 <= i < entries.len() && is_user_table(#[trigger] entries[i]) && entries[i]
                ->Name_0@ == user_tables(entries)[k],
    decreases entries.len(),
{
    if entries.len() > 0 {
        let front = entries.drop_last();
        let last = entries.len() - 1;
        if k < user_tables(front).len() {
            lemma_user_tables_are_listed(front, k);
            let i = choose|i: int|
                0 <= i < front.len() && is_user_table(#[trigger] front[i]) && front[i]->Name_0@
                    == user_tables(front)[k];
            assert(entries[i] == front[i]);
        } else {
            assert(is_user_table(entries[last]));
        }
    }
}

/// Every readable row that names a user table is listed.
pub proof fn lemma_every_user_table_is_listed(entries: Seq<CatalogEntry>, i: int)
    requires
        0 <= i < entries.len(),
        is_user_table(entries[i]),
    ensures
        exists|k: int|
            0 <= k < user_tables(entries).len() && #[trigger] user_tables(entries)[k]
                == entries[i]->Name_0@,
    decreases entries.len(),
{
    let front = entries.drop_last();
    if i == entries.len() - 1 {
        let k = user_tables(front).len() as int;
        assert(user_tables(entries)[k] == entries[i]->Name_0@);
    } else {
        assert(front[i] == entries[i]);
        lemma_every_user_table_is_listed(front, i);
        let k = choose|k: int|
            0 <= k < user_tables(front).len() && #[trigger] user_tables(front)[k]
                == front[i]->Name_0@;
        lemma_user_tables_bound(front);
        assert(user_tables(entries)[k] == user_tables(front)[k]);
    }
}

/// A further row that names a user table lengthens the list by that name, at
/// its end; the names before it stay as they are.
pub proof fn lemma_new_table_is_appended(entries: Seq<CatalogEntry>, name: String)
    requires
        !is_system_name(name@),
    ensures
        user_tables(entries.push(CatalogEntry::Name(name))) == user_tables(entries).push(name@),
{
    assert(entries.push(CatalogEntry::Name(name)).drop_last() =~= entries);
}

/// A further row that names a table of the database itself, or that could not
/// be read, changes nothing.
pub proof fn lemma_other_row_is_passed_over(entries: Seq<CatalogEntry>, entry: CatalogEntry)
    requires
        !is_user_table(entry),
    ensures
        user_tables(entries.push(entry)) == user_tables(entries),
{
    assert(entries.push(entry).drop_last() =~= entries);
}

/// Where no two readable rows of the catalog hold the same name, no table is
/// listed twice.
pub proof fn lemma_user_tables_distinct(entries: Seq<CatalogEntry>)
    requires
        forall|i: int, j: int|
            0 <= i < j < entries.len() && (#[trigger] entries[i]) is Name && (
            #[trigger] entries[j]) is Name ==> entries[i]->Name_0@ != entries[j]->Name_0@,
    ensures
        forall|a: int, b: int|
            0 <= a < b < user_tables(entries).len() ==> #[trigger] user_tables(entries)[a]
                != #[trigger] user_tables(entries)[b],
    decreases entries.len(),
{
    if entries.len() > 0 {
        let front = entries.drop_last();
        let last = entries.len() - 1;
        assert forall|i: int, j: int|
            0 <= i < j < front.len() && (#[trigger] front[i]) is Name && (
            #[trigger] front[j]) is Name implies front[i]->Name_0@ != front[j]->Name_0@ by {
            assert(front[i] == entries[i]);
            assert(front[j] == entries[j]);
        }
        lemma_user_tables_distinct(front);
        assert forall|a: int, b: int| 0 <= a < b < user_tables(entries).len() implies #[trigger]
            user_tables(entries)[a] != #[trigger] user_tables(entries)[b] by {
            if b < user_tables(front).len() {
                assert(user_tables(entries)[a] == user_tables(front)[a]);
                assert(user_tables(entries)[b] == user_tables(front)[b]);
            } else {
                lemma_user_tables_are_listed(front, a);
                let i = choose|i: int|
                    0 <= i < front.len() && is_user_table(#[trigger] front[i]) && front[i]
                        ->Name_0@ == user_tables(front)[a];
                assert(front[i] == entries[i]);
                assert(entries[last] is Name);
                assert(user_tables(entries)[a] == user_tables(front)[a]);
            }
        }
    }
}

/// What discovery yields for a reading of the catalog: the user tables, or a
/// failure where the database or the catalog could not be read at all.
pub open spec fn discovered(catalog: Catalog) -> Result<Seq<Seq<char>>, RunErrorView> {
    match catalog {
        Catalog::ConnectFailed(cause) => Err(
            RunErrorView { kind: RunErrorKind::Discovery, cause: cause@ },
        ),
        Catalog::PrepareFailed(cause) => Err(
            RunErrorView { kind: RunErrorKind::Discovery, cause: cause@ },
        ),
        Catalog::Entries(entries) => Ok(user_tables(entries@)),
    }
}

/// The text of the query that lists the tables in the catalog: every table,
/// the database's own included. Which of them are exported is decided on the
/// rows, by `is_user_table`, and not in the query, where a pattern on the name
/// would take `_` for any character.
pub open spec fn catalog_query_text() -> Seq<char> {
    "SELECT name FROM sqlite_master WHERE type='table';"@
}

/// The query that lists the tables in the catalog.
pub fn catalog_query() -> (out: &'static str)
    ensures
        out@ == catalog_query_text(),
{
    "SELECT name FROM sqlite_master WHERE type='table';"
}

/// The tables to export, from a reading of the catalog: the names of the user
/// tables in the catalog's order. A row that could not be read is passed over;
/// only a database or a catalog that could not be read at all is a failure.
pub fn get_tables(catalog: Catalog) -> (out: Result<Vec<String>, RunError>)
    ensures
        match out {
            Ok(names) => discovered(catalog) == Ok::<Seq<Seq<char>>, RunErrorView>(
                texts(names@),
            ),
            Err(e) => discovered(catalog) == Err::<Seq<Seq<char>>, RunErrorView>(e@),
        },
{
    match catalog {
        Catalog::ConnectFailed(cause) => Err(RunError { kind: RunErrorKind::Discovery, cause }),
        Catalog::PrepareFailed(cause) => Err(RunError { kind: RunErrorKind::Discovery, cause }),
        Catalog::Entries(entries) => {
            let mut names: Vec<String> = Vec::new();
            let mut i: usize = 0;
            assert(texts(names@) =~= Seq::<Seq<char>>::empty());
            while i < entries.len()
                invariant
                    i <= entries.len(),
                    texts(names@) == user_tables(entries@.take(i as int)),
                decreases entries.len() - i,
            {
                let ghost before = names@;
                proof {
                    assert(entries@.take(i + 1).drop_last() == entries@.take(i as int));
                    assert(entries@.take(i + 1).last() == entries@[i as int]);
                }
                match &entries[i] {
                    CatalogEntry::Name(name) => {
                        if !starts_with(name.as_str(), "sqlite_") {
                            names.push(name.clone());
                            assert(texts(names@) =~= texts(before).push(name@));
                        }
                    },
                    CatalogEntry::Unreadable(_) => {},
                }
                i += 1;
            }
            proof {
                assert(entries@.take(i as int) == entries@);
            }
            Ok(names)
        },
    }
}

} // verus!
