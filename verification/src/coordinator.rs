//! The whole run, as a machine that is driven by events: the output directory
//! is prepared, the tables are discovered, one export is launched per table,
//! and the outcomes are summed up. A table that fails never ends the run.

use vstd::prelude::*;
use crate::delimited::texts;
use crate::discovery::{
    catalog_query, catalog_query_text, discovered, get_tables, lemma_user_tables_bound, Catalog,
    RunError, RunErrorKind, RunErrorView,
};
use crate::error::{Outcome, OutcomeView};
use crate::export::{file_name, initial, Action, ActionView, Exporter};

verus! {

/// How one unit of work ended, as contracts see it.
pub enum UnitResultView {
    Finished(OutcomeView),
    Panicked(Seq<char>),
}

/// How the unit of work that exports one table ended.
#[derive(Clone, Debug, PartialEq, Eq)]
pub enum UnitResult {
    /// The export ran to its end, with this outcome.
    Finished(Outcome),
    /// The unit broke off without an outcome.
    Panicked(String),
}

impl View for UnitResult {
    type V = UnitResultView;

    open spec fn view(&self) -> UnitResultView {
        match self {
            UnitResult::Finished(outcome) => UnitResultView::Finished(outcome@),
            UnitResult::Panicked(cause) => UnitResultView::Panicked(cause@),
        }
    }
}

/// The numbers of a run: the tables discovered, and how their exports ended.
#[derive(Clone, Copy, Debug, PartialEq, Eq, Structural)]
pub struct Summary {
    pub tables: usize,
    pub succeeded: usize,
    pub failed: usize,
    pub panicked: usize,
}

/// Whether a unit ended with a successful export.
pub open spec fn is_success(result: UnitResultView) -> bool {
    result matches UnitResultView::Finished(outcome) && outcome is Success
}

/// Whether a unit ended with a failed export.
pub open spec fn is_failure(result: UnitResultView) -> bool {
    result matches UnitResultView::Finished(outcome) && outcome is Failure
}

/// The number of successful exports among `results`.
pub open spec fn count_succeeded(results: Seq<UnitResultView>) -> nat
    decreases results.len(),
{
    if results.len() == 0 {
        0
    } else {
        count_succeeded(results.drop_last()) + if is_success(results.last()) {
            1nat
        } else {
            0nat
        }
    }
}

/// The number of failed exports among `results`.
pub open spec fn count_failed(results: Seq<UnitResultView>) -> nat
    decreases results.len(),
{
    if results.len() == 0 {
        0
    } else {
        count_failed(results.drop_last()) + if is_failure(results.last()) {
            1nat
        } else {
            0nat
        }
    }
}

/// The number of units among `results` that broke off.
pub open spec fn count_panicked(results: Seq<UnitResultView>) -> nat
    decreases results.len(),
{
    if results.len() == 0 {
        0
    } else {
        count_panicked(results.drop_last()) + if results.last() is Panicked {
            1nat
        } else {
            0nat
        }
    }
}

/// Whether `summary` holds the numbers of a run over `tables` tables whose
/// units ended as `results` say.
pub open spec fn sums_up(summary: Summary, tables: nat, results: Seq<UnitResultView>) -> bool {
    &&& summary.tables == tables
    &&& summary.succeeded == count_succeeded(results)
    &&& summary.failed == count_failed(results)
    &&& summary.panicked == count_panicked(results)
}

/// Every unit is counted once: as succeeded, failed or broken off.
pub proof fn lemma_counts_add_up(results: Seq<UnitResultView>)
    ensures
        count_succeeded(results) + count_failed(results) + count_panicked(results)
            == results.len(),
    decreases results.len(),
{
    if results.len() > 0 {
        lemma_counts_add_up(results.drop_last());
    }
}

/// Where the run stands.
#[derive(Clone, Copy, Debug, PartialEq, Eq, Structural)]
pub enum RunPhase {
    /// Nothing has happened; the output directory is to be prepared.
    Created,
    /// The output directory exists; the tables are to be discovered.
    DirectoryReady,
    /// The exports are launched; not all of them have ended.
    Exporting,
    /// Every export has ended, or there was none to launch.
    Finished,
    /// The run ended before any table was exported.
    Aborted,
}

/// What the caller reports to the run.
#[derive(Clone, Debug, PartialEq, Eq)]
pub enum RunEvent {
    /// The output directory exists.
    DirectoryReady,
    /// The output directory could not be prepared.
    DirectoryFailed(String),
    /// The catalog was read, with this result.
    Catalog(Catalog),
    /// One of the units launched has ended.
    UnitEnded(UnitResult),
}

/// One export to run: the machine of the table, and its first action.
pub struct Unit {
    pub exporter: Exporter,
    pub first: Action,
}

/// What the caller of the run is to do next.
pub enum RunAction {
    /// Make sure that this directory exists, with its parents.
    CreateDirectory(String),
    /// Read the catalog with this query.
    Discover(String),
    /// Run these exports, each on its own, and report how each ended.
    Launch(Vec<Unit>),
    /// Wait for the next unit to end.
    Wait,
    /// The run is complete, with these numbers.
    Report(Summary),
    /// The run has failed.
    Abort(RunError),
}

/// An action of the run as contracts see it. The exports to launch are given
/// by the names of their tables.
pub enum RunActionView {
    CreateDirectory(Seq<char>),
    Discover(Seq<char>),
    Launch(Seq<Seq<char>>),
    Wait,
    Report(Summary),
    Abort(RunErrorView),
}

/// Whether `unit` is the export of `table` before anything has happened.
pub open spec fn is_fresh_unit(unit: Unit, table: Seq<char>) -> bool {
    &&& unit.exporter@ == initial(table)
    &&& unit.exporter.wf()
    &&& unit.first@ == ActionView::CreateFile(file_name(table))
}

/// Whether `units` holds one fresh export per table, in the tables' order.
pub open spec fn are_fresh_units(units: Seq<Unit>, tables: Seq<Seq<char>>) -> bool {
    &&& units.len() == tables.len()
    &&& forall|i: int| 0 <= i < units.len() ==> is_fresh_unit(#[trigger] units[i], tables[i])
}

/// Whether `action` is the action that `view` describes.
pub open spec fn action_is(action: RunAction, view: RunActionView) -> bool {
    match (action, view) {
        (RunAction::CreateDirectory(d), RunActionView::CreateDirectory(v)) => d@ == v,
        (RunAction::Discover(q), RunActionView::Discover(v)) => q@ == v,
        (RunAction::Launch(units), RunActionView::Launch(tables)) => are_fresh_units(
            units@,
            tables,
        ),
        (RunAction::Wait, RunActionView::Wait) => true,
        (RunAction::Report(s), RunActionView::Report(v)) => s == v,
        (RunAction::Abort(e), RunActionView::Abort(v)) => e@ == v,
        _ => false,
    }
}

/// The state of a run, with its history: the tables discovered and the
/// results received so far.
pub struct RunProgress {
    pub directory: Seq<char>,
    pub phase: RunPhase,
    pub tables: Seq<Seq<char>>,
    pub results: Seq<UnitResultView>,
}

/// A step of the run: the state after it and the action it asks for.
pub struct RunAdvance {
    pub next: RunProgress,
    pub action: RunActionView,
}

/// The state of a run before anything has happened.
pub open spec fn run_initial(directory: Seq<char>) -> RunProgress {
    RunProgress {
        directory,
        phase: RunPhase::Created,
        tables: Seq::<Seq<char>>::empty(),
        results: Seq::<UnitResultView>::empty(),
    }
}

/// The numbers of a state.
pub open spec fn summary_of(p: RunProgress) -> Summary {
    Summary {
        tables: p.tables.len() as usize,
        succeeded: count_succeeded(p.results) as usize,
        failed: count_failed(p.results) as usize,
        panicked: count_panicked(p.results) as usize,
    }
}

/// The step on the result of discovery: the run fails where discovery did,
/// is complete at once where there is no table, and else launches one export
/// per table.
pub open spec fn take_catalog(p: RunProgress, catalog: Catalog) -> RunAdvance {
    match discovered(catalog) {
        Err(e) => RunAdvance {
            next: RunProgress { phase: RunPhase::Aborted, ..p },
            action: RunActionView::Abort(e),
        },
        Ok(tables) => if tables.len() == 0 {
            RunAdvance {
                next: RunProgress { phase: RunPhase::Finished, ..p },
                action: RunActionView::Report(summary_of(p)),
            }
        } else {
            RunAdvance {
                next: RunProgress { phase: RunPhase::Exporting, tables, ..p },
                action: RunActionView::Launch(tables),
            }
        },
    }
}

/// The step on the end of a unit: the result is recorded, whatever it is, and
/// the run is complete once every unit has ended.
pub open spec fn take_result(p: RunProgress, result: UnitResultView) -> RunAdvance {
    let recorded = RunProgress { results: p.results.push(result), ..p };
    if recorded.results.len() == p.tables.len() {
        RunAdvance {
            next: RunProgress { phase: RunPhase::Finished, ..recorded },
            action: RunActionView::Report(summary_of(recorded)),
        }
    } else {
        RunAdvance { next: recorded, action: RunActionView::Wait }
    }
}

/// The run: what an event does in a state. `None` where the state does not
/// take the event; a run that is over takes none.
pub open spec fn run_advance(p: RunProgress, event: RunEvent) -> Option<RunAdvance> {
    match (p.phase, event) {
        (RunPhase::Created, RunEvent::DirectoryReady) => Some(
            RunAdvance {
                next: RunProgress { phase: RunPhase::DirectoryReady, ..p },
                action: RunActionView::Discover(catalog_query_text()),
            },
        ),
        (RunPhase::Created, RunEvent::DirectoryFailed(cause)) => Some(
            RunAdvance {
                next: RunProgress { phase: RunPhase::Aborted, ..p },
                action: RunActionView::Abort(
                    RunErrorView { kind: RunErrorKind::Directory, cause: cause@ },
                ),
            },
        ),
        (RunPhase::DirectoryReady, RunEvent::Catalog(catalog)) => Some(take_catalog(p, catalog)),
        (RunPhase::Exporting, RunEvent::UnitEnded(result)) => Some(take_result(p, result@)),
        _ => None,
    }
}

/// What holds of every state that a run reaches: no result is recorded
/// without a unit, fewer results than units while the exports run, and one
/// per unit when the run is complete.
pub open spec fn run_consistent(p: RunProgress) -> bool {
    &&& p.tables.len() <= usize::MAX
    &&& match p.phase {
        RunPhase::Created | RunPhase::DirectoryReady | RunPhase::Aborted => p.tables.len() == 0
            && p.results.len() == 0,
        RunPhase::Exporting => p.results.len() < p.tables.len(),
        RunPhase::Finished => p.results.len() == p.tables.len(),
    }
}

/// Every step of a run keeps the state consistent and keeps the directory.
pub proof fn lemma_run_advance_consistent(p: RunProgress, event: RunEvent)
    requires
        run_consistent(p),
        run_advance(p, event) is Some,
    ensures
        run_consistent(run_advance(p, event)->0.next),
        run_advance(p, event)->0.next.directory == p.directory,
{
    match event {
        RunEvent::Catalog(Catalog::Entries(entries)) => {
            lemma_user_tables_bound(entries@);
            assert(entries@.len() == entries.len());
        },
        _ => {},
    }
}

/// Where discovery finds no table the run is complete at once: nothing is
/// launched, and its numbers are all zero.
pub proof fn lemma_no_tables_finishes_at_once(directory: Seq<char>, catalog: Catalog)
    requires
        discovered(catalog) matches Ok(tables) && tables.len() == 0,
    ensures
        ({
            let ready = RunProgress { phase: RunPhase::DirectoryReady, ..run_initial(directory) };
            run_advance(ready, RunEvent::Catalog(catalog)) matches Some(a) && a.next.phase
                == RunPhase::Finished && a.next.tables.len() == 0 && a.next.results.len() == 0
                && a.action == RunActionView::Report(
                Summary { tables: 0, succeeded: 0, failed: 0, panicked: 0 },
            )
        }),
{
}

/// While exports run, the end of every unit is taken, whatever it is: a
/// failed table or a unit that broke off is counted and never ends the run.
/// The results recorded before stay as they are.
pub proof fn lemma_every_result_is_taken(p: RunProgress, result: UnitResult)
    requires
        run_consistent(p),
        p.phase == RunPhase::Exporting,
    ensures
        run_advance(p, RunEvent::UnitEnded(result)) matches Some(a) && a.next.phase
            != RunPhase::Aborted && a.next.tables == p.tables && a.next.results
            == p.results.push(result@) && (a.next.phase == RunPhase::Finished <==> p.results.len()
            + 1 == p.tables.len()) && !(a.action is Abort),
{
}

/// A run that is complete has one result per table, and its numbers count
/// each of them once.
pub proof fn lemma_finished_run_counts_all(p: RunProgress)
    requires
        run_consistent(p),
        p.phase == RunPhase::Finished,
    ensures
        p.results.len() == p.tables.len(),
        summary_of(p).tables == p.tables.len(),
        summary_of(p).succeeded + summary_of(p).failed + summary_of(p).panicked
            == p.tables.len(),
{
    lemma_counts_add_up(p.results);
}

/// The run of the exports of the tables that are discovered.
pub struct Coordinator {
    directory: String,
    phase: RunPhase,
    summary: Summary,
    tables: Ghost<Seq<Seq<char>>>,
    results: Ghost<Seq<UnitResultView>>,
}

impl View for Coordinator {
    type V = RunProgress;

    closed spec fn view(&self) -> RunProgress {
        RunProgress {
            directory: self.directory@,
            phase: self.phase,
            tables: self.tables@,
            results: self.results@,
        }
    }
}

impl Coordinator {
    /// The numbers that this run keeps.
    pub closed spec fn numbers(&self) -> Summary {
        self.summary
    }

    /// Whether this run is in a state that the machine reaches, with its
    /// numbers kept up to date.
    pub open spec fn wf(&self) -> bool {
        &&& run_consistent(self@)
        &&& self.numbers() == summary_of(self@)
    }

    /// Starts a run that writes into `directory`: nothing has happened yet,
    /// and the directory is to be prepared.
    pub fn begin(directory: String) -> (out: (Coordinator, RunAction))
        ensures
            out.0@ == run_initial(directory@),
            out.0.wf(),
            action_is(out.1, RunActionView::CreateDirectory(directory@)),
    {
        let first = RunAction::CreateDirectory(directory.clone());
        let run = Coordinator {
            directory,
            phase: RunPhase::Created,
            summary: Summary { tables: 0, succeeded: 0, failed: 0, panicked: 0 },
            tables: Ghost(Seq::<Seq<char>>::empty()),
            results: Ghost(Seq::<UnitResultView>::empty()),
        };
        (run, first)
    }

    /// Where the run stands.
    pub fn phase(&self) -> (out: RunPhase)
        ensures
            out == self@.phase,
    {
        self.phase
    }

    /// The numbers of the run so far.
    pub fn summary(&self) -> (out: Summary)
        requires
            self.wf(),
        ensures
            out == summary_of(self@),
    {
        self.summary
    }

    fn take_catalog(&mut self, catalog: Catalog) -> (out: RunAction)
        requires
            old(self).wf(),
            old(self)@.phase == RunPhase::DirectoryReady,
        ensures
            final(self).wf(),
            final(self)@ == take_catalog(old(self)@, catalog).next,
            action_is(out, take_catalog(old(self)@, catalog).action),
    {
        match get_tables(catalog) {
            Err(e) => {
                self.phase = RunPhase::Aborted;
                RunAction::Abort(e)
            },
            Ok(names) => {
                if names.len() == 0 {
                    self.phase = RunPhase::Finished;
                    RunAction::Report(self.summary)
                } else {
                    self.phase = RunPhase::Exporting;
                    self.summary.tables = names.len();
                    self.tables = Ghost(texts(names@));
                    RunAction::Launch(fresh_units(&names))
                }
            },
        }
    }

    fn take_result(&mut self, result: UnitResult) -> (out: RunAction)
        requires
            old(self).wf(),
            old(self)@.phase == RunPhase::Exporting,
        ensures
            final(self).wf(),
            final(self)@ == take_result(old(self)@, result@).next,
            action_is(out, take_result(old(self)@, result@).action),
    {
        let ghost before = self.results@;
        proof {
            lemma_counts_add_up(before);
            lemma_counts_add_up(before.push(result@));
            assert(before.push(result@).drop_last() =~= before);
        }
        match &result {
            UnitResult::Finished(outcome) => {
                if outcome.is_success() {
                    self.summary.succeeded = self.summary.succeeded + 1;
                } else {
                    self.summary.failed = self.summary.failed + 1;
                }
            },
            UnitResult::Panicked(_) => {
                self.summary.panicked = self.summary.panicked + 1;
            },
        }
        self.results = Ghost(before.push(result@));
        let ended = self.summary.succeeded + self.summary.failed + self.summary.panicked;
        if ended == self.summary.tables {
            self.phase = RunPhase::Finished;
            RunAction::Report(self.summary)
        } else {
            RunAction::Wait
        }
    }

    /// Takes the event that reports how the last action went, and yields the
    /// next action. An event that the state does not take changes nothing and
    /// yields `None`.
    pub fn step(&mut self, event: RunEvent) -> (out: Option<RunAction>)
        requires
            old(self).wf(),
        ensures
            final(self).wf(),
            match run_advance(old(self)@, event) {
                None => out is None && final(self)@ == old(self)@,
                Some(a) => final(self)@ == a.next && (out matches Some(action) && action_is(
                    action,
                    a.action,
                )),
            },
    {
        match self.phase {
            RunPhase::Created => match event {
                RunEvent::DirectoryReady => {
                    self.phase = RunPhase::DirectoryReady;
                    Some(RunAction::Discover(String::from_str(catalog_query())))
                },
                RunEvent::DirectoryFailed(cause) => {
                    self.phase = RunPhase::Aborted;
                    Some(RunAction::Abort(RunError { kind: RunErrorKind::Directory, cause }))
                },
                _ => None,
            },
            RunPhase::DirectoryReady => match event {
                RunEvent::Catalog(catalog) => Some(self.take_catalog(catalog)),
                _ => None,
            },
            RunPhase::Exporting => match event {
                RunEvent::UnitEnded(result) => Some(self.take_result(result)),
                _ => None,
            },
            RunPhase::Finished | RunPhase::Aborted => None,
        }
    }
}

/// One fresh export per table, in the tables' order.
pub fn fresh_units(tables: &Vec<String>) -> (out: Vec<Unit>)
    ensures
        are_fresh_units(out@, texts(tables@)),
{
    let mut units: Vec<Unit> = Vec::new();
    let mut i: usize = 0;
    while i < tables.len()
        invariant
            i <= tables.len(),
            units@.len() == i,
            forall|j: int| 0 <= j < i ==> is_fresh_unit(#[trigger] units@[j], tables@[j]@),
        decreases tables.len() - i,
    {
        let (exporter, first) = Exporter::begin(tables[i].clone());
        units.push(Unit { exporter, first });
        i += 1;
    }
    units
}

} // verus!
