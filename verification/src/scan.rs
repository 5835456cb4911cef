//! The scan: entry by entry, what has to be done and what is recorded.
//!
//! The scan itself reads no file and decodes no PDF. It tells its driver which
//! file it needs next, and records what the driver found there.

use crate::error::SchemaError;
use crate::filter::{id_type_of, id_type_owned, is_target, matches_target};
use crate::json::{names_view, values_view, Json, JsonValue};
use crate::loader::Registry;
use crate::report::{
    outcome_of, reports_view, EntryReport, EntryReportView, Finding, FindingView, Outcome,
    OutcomeView,
};
use crate::resolver::{resolve_path, resolved_path};
use vstd::prelude::*;

verus! {

/// What an entry calls for.
#[derive(Debug, PartialEq, Eq)]
pub enum Task {
    /// Nothing: the entry is not of the target type.
    Skip,
    /// Nothing: the entry is of the target type but names no file.
    Reject(SchemaError),
    /// The text of the file at this place.
    Extract(String),
}

/// The mathematical value of a [`Task`].
pub enum TaskView {
    Skip,
    Reject(SchemaError),
    Extract(Seq<char>),
}

impl View for Task {
    type V = TaskView;

    open spec fn view(&self) -> TaskView {
        match self {
            Task::Skip => TaskView::Skip,
            Task::Reject(e) => TaskView::Reject(*e),
            Task::Extract(path) => TaskView::Extract(path@),
        }
    }
}

/// What `entry` calls for, with files lying below `base`.
///
/// An entry that is not of the target type is skipped whatever else it holds;
/// its `path` is not looked at.
pub open spec fn task_of(base: Seq<char>, entry: JsonValue) -> TaskView {
    if !is_target(entry) {
        TaskView::Skip
    } else {
        match resolved_path(base, entry) {
            Ok(path) => TaskView::Extract(path),
            Err(e) => TaskView::Reject(e),
        }
    }
}

/// The report of an entry that calls for no file.
pub open spec fn settled(base: Seq<char>, key: Seq<char>, entry: JsonValue) -> EntryReportView {
    EntryReportView {
        key,
        id_type: id_type_of(entry),
        outcome: match task_of(base, entry) {
            TaskView::Reject(e) => OutcomeView::Malformed(e),
            _ => OutcomeView::Skipped,
        },
    }
}

/// The report of an entry whose file lies at `path`, given what was found there.
pub open spec fn concluded(
    key: Seq<char>,
    entry: JsonValue,
    path: Seq<char>,
    finding: FindingView,
) -> EntryReportView {
    EntryReportView { key, id_type: id_type_of(entry), outcome: outcome_of(path, finding) }
}

/// Whether `report` is a report of the entry `entry` under `key`: it carries the
/// entry's key and identifier type, and its outcome is of the kind that the
/// entry calls for.
pub open spec fn reports_on(
    base: Seq<char>,
    key: Seq<char>,
    entry: JsonValue,
    report: EntryReportView,
) -> bool {
    &&& report.key == key
    &&& report.id_type == id_type_of(entry)
    &&& match task_of(base, entry) {
        TaskView::Skip => report.outcome == OutcomeView::Skipped,
        TaskView::Reject(e) => report.outcome == OutcomeView::Malformed(e),
        TaskView::Extract(path) => report.outcome.path_line() == Some(path),
    }
}

/// What `entry` calls for, as [`task_of`] defines it.
pub fn task_for(base: &str, entry: &Json) -> (task: Task)
    ensures
        task@ == task_of(base@, entry@),
{
    if !matches_target(entry) {
        Task::Skip
    } else {
        match resolve_path(base, entry) {
            Ok(path) => Task::Extract(path),
            Err(e) => Task::Reject(e),
        }
    }
}

/// What the driver of a scan has to do next.
#[derive(Debug, PartialEq, Eq)]
pub enum Step {
    /// Nothing more: every entry has its report.
    Done,
    /// Nothing: the entry in turn called for no file and now has its report.
    Recorded,
    /// Read the file at `path`, extract its text, and hand what was found to
    /// [`Scan::supply`].
    Extract { path: String },
}

/// A scan of a registry, entry by entry in the order of the registry.
///
/// Each entry is dealt with fully before the next is looked at, so the reports
/// stand in the order of the entries.
pub struct Scan {
    base: String,
    entries: Vec<(String, Json)>,
    reports: Vec<EntryReport>,
}

impl Scan {
    /// The base directory below which the files lie.
    pub closed spec fn base(&self) -> Seq<char> {
        self.base@
    }

    /// The keys of the registry's entries, in order.
    pub closed spec fn keys(&self) -> Seq<Seq<char>> {
        names_view(self.entries@)
    }

    /// The registry's entries, in order.
    pub closed spec fn entries(&self) -> Seq<JsonValue> {
        values_view(self.entries@)
    }

    /// The reports made so far: one for each entry dealt with, in order.
    pub closed spec fn reports(&self) -> Seq<EntryReportView> {
        reports_view(self.reports@)
    }

    /// The place of the entry in turn: the number of entries dealt with.
    pub open spec fn position(&self) -> int {
        self.reports().len() as int
    }

    /// Whether every entry has its report.
    pub open spec fn done(&self) -> bool {
        self.position() == self.entries().len()
    }

    /// What holds of every scan that [`Scan::new`] made and the methods of the
    /// scan changed: there are as many keys as entries, no more
    /// reports than entries, and the report at each place is one of the
    /// entry at that place.
    pub open spec fn consistent(&self) -> bool {
        &&& self.keys().len() == self.entries().len()
        &&& self.reports().len() <= self.entries().len()
        &&& forall|i: int|
            0 <= i < self.reports().len() ==> reports_on(
                self.base(),
                self.keys()[i],
                self.entries()[i],
                #[trigger] self.reports()[i],
            )
    }

    /// A scan of `registry` that has dealt with no entry yet.
    pub fn new(registry: Registry, base: String) -> (scan: Scan)
        ensures
            scan.base() == base@,
            scan.keys() == registry.keys(),
            scan.entries() == registry.values(),
            scan.reports() == Seq::<EntryReportView>::empty(),
            scan.consistent(),
    {
        let scan = Scan { base, entries: registry.entries, reports: Vec::new() };
        proof {
            assert(scan.reports() =~= Seq::<EntryReportView>::empty());
        }
        scan
    }

    /// The number of entries dealt with.
    pub fn recorded(&self) -> (n: usize)
        ensures
            n == self.position(),
    {
        self.reports.len()
    }

    /// Whether every entry has its report.
    pub fn is_done(&self) -> (done: bool)
        ensures
            done == self.done(),
    {
        self.reports.len() == self.entries.len()
    }

    /// The reports made so far.
    pub fn reports_so_far(&self) -> (reports: &Vec<EntryReport>)
        ensures
            reports_view(reports@) == self.reports(),
    {
        &self.reports
    }

    /// Ends the scan and hands out its reports.
    pub fn into_reports(self) -> (reports: Vec<EntryReport>)
        ensures
            reports_view(reports@) == self.reports(),
    {
        self.reports
    }

    /// Looks at the entry in turn and says what the driver has to do.
    ///
    /// Where the entry calls for no file, its report is made and the scan moves
    /// on to the next entry. Where it calls for a file, nothing changes until
    /// [`Scan::supply`] is given what was found.
    pub fn advance(&mut self) -> (step: Step)
        requires
            old(self).consistent(),
        ensures
            final(self).base() == old(self).base(),
            final(self).keys() == old(self).keys(),
            final(self).entries() == old(self).entries(),
            final(self).consistent(),
            match step {
                Step::Done => {
                    &&& old(self).done()
                    &&& final(self).reports() == old(self).reports()
                },
                Step::Recorded => {
                    &&& !old(self).done()
                    &&& !(task_of(old(self).base(), old(self).entries()[old(self).position()])
                        is Extract)
                    &&& final(self).reports() == old(self).reports().push(
                        settled(
                            old(self).base(),
                            old(self).keys()[old(self).position()],
                            old(self).entries()[old(self).position()],
                        ),
                    )
                },
                Step::Extract { path } => {
                    &&& !old(self).done()
                    &&& task_of(old(self).base(), old(self).entries()[old(self).position()])
                        == TaskView::Extract(path@)
                    &&& final(self).reports() == old(self).reports()
                },
            },
    {
        let at = self.reports.len();
        if at >= self.entries.len() {
            return Step::Done;
        }
        let task = task_for(self.base.as_str(), &self.entries[at].1);
        match task {
            Task::Extract(path) => Step::Extract { path },
            Task::Skip => {
                let report = EntryReport {
                    key: self.entries[at].0.clone(),
                    id_type: id_type_owned(&self.entries[at].1),
                    outcome: Outcome::Skipped,
                };
                self.reports.push(report);
                proof {
                    assert(self.reports() =~= old(self).reports().push(report@));
                }
                Step::Recorded
            },
            Task::Reject(e) => {
                let report = EntryReport {
                    key: self.entries[at].0.clone(),
                    id_type: id_type_owned(&self.entries[at].1),
                    outcome: Outcome::Malformed(e),
                };
                self.reports.push(report);
                proof {
                    assert(self.reports() =~= old(self).reports().push(report@));
                }
                Step::Recorded
            },
        }
    }

    /// Records what the driver found at the place of the file that the entry in
    /// turn calls for, and moves on to the next entry.
    ///
    /// Where the entry in turn calls for no file, or every entry has its
    /// report already, the finding is refused and nothing changes.
    pub fn supply(&mut self, finding: Finding) -> (accepted: bool)
        requires
            old(self).consistent(),
        ensures
            final(self).base() == old(self).base(),
            final(self).keys() == old(self).keys(),
            final(self).entries() == old(self).entries(),
            final(self).consistent(),
            accepted == (!old(self).done() && task_of(
                old(self).base(),
                old(self).entries()[old(self).position()],
            ) is Extract),
            accepted ==> final(self).reports() == old(self).reports().push(
                concluded(
                    old(self).keys()[old(self).position()],
                    old(self).entries()[old(self).position()],
                    task_of(old(self).base(), old(self).entries()[old(self).position()])->Extract_0,
                    finding@,
                ),
            ),
            !accepted ==> final(self).reports() == old(self).reports(),
    {
        let at = self.reports.len();
        if at >= self.entries.len() {
            return false;
        }
        match task_for(self.base.as_str(), &self.entries[at].1) {
            Task::Extract(path) => {
                let report = EntryReport {
                    key: self.entries[at].0.clone(),
                    id_type: id_type_owned(&self.entries[at].1),
                    outcome: Outcome::from_finding(path, finding),
                };
                self.reports.push(report);
                proof {
                    assert(self.reports() =~= old(self).reports().push(report@));
                }
                true
            },
            _ => false,
        }
    }
}

/// An entry that is not of the target type calls for nothing, whatever its
/// `path` holds: no path is resolved for it and no file is asked for. Its
/// report holds its key and identifier type and neither a path nor a text.
pub proof fn lemma_other_types_call_for_nothing(base: Seq<char>, key: Seq<char>, entry: JsonValue)
    requires
        !is_target(entry),
    ensures
        task_of(base, entry) == TaskView::Skip,
        settled(base, key, entry).outcome == OutcomeView::Skipped,
        settled(base, key, entry).outcome.path_line() is None,
        settled(base, key, entry).outcome.text_line() is None,
        settled(base, key, entry).lines() == seq![key] + crate::report::line_if(
            id_type_of(entry),
        ),
{
    let report = settled(base, key, entry);
    assert(report.lines() =~= seq![key] + crate::report::line_if(id_type_of(entry)));
}

/// A file is asked for only for an entry of the target type whose `path` is an
/// array of strings, and then at the base directory followed by those strings.
pub proof fn lemma_extract_only_for_target(base: Seq<char>, entry: JsonValue)
    ensures
        task_of(base, entry) is Extract <==> (is_target(entry) && resolved_path(base, entry) is Ok),
        task_of(base, entry) is Extract ==> resolved_path(base, entry) == Ok::<
            Seq<char>,
            SchemaError,
        >(task_of(base, entry)->Extract_0),
        task_of(base, entry) is Reject <==> (is_target(entry) && resolved_path(base, entry)
            is Err),
{
}

/// In a registry without an entry of the target type, a scan asks for no file
/// and no report holds a path or a text: every report made is that of a
/// skipped entry, and its lines are the entry's key and identifier type.
pub proof fn lemma_no_target_no_path_or_text(scan: Scan)
    requires
        scan.consistent(),
        forall|i: int| 0 <= i < scan.entries().len() ==> !is_target(#[trigger] scan.entries()[i]),
    ensures
        forall|i: int|
            0 <= i < scan.entries().len() ==> task_of(scan.base(), #[trigger] scan.entries()[i])
                == TaskView::Skip,
        forall|i: int|
            0 <= i < scan.reports().len() ==> {
                &&& (#[trigger] scan.reports()[i]) == settled(
                    scan.base(),
                    scan.keys()[i],
                    scan.entries()[i],
                )
                &&& scan.reports()[i].outcome == OutcomeView::Skipped
                &&& scan.reports()[i].outcome.path_line() is None
                &&& scan.reports()[i].outcome.text_line() is None
                &&& scan.reports()[i].lines() == seq![scan.keys()[i]] + crate::report::line_if(
                    id_type_of(scan.entries()[i]),
                )
            },
{
    assert forall|i: int| 0 <= i < scan.reports().len() implies {
        &&& (#[trigger] scan.reports()[i]) == settled(
            scan.base(),
            scan.keys()[i],
            scan.entries()[i],
        )
        &&& scan.reports()[i].outcome == OutcomeView::Skipped
        &&& scan.reports()[i].outcome.path_line() is None
        &&& scan.reports()[i].outcome.text_line() is None
        &&& scan.reports()[i].lines() == seq![scan.keys()[i]] + crate::report::line_if(
            id_type_of(scan.entries()[i]),
        )
    } by {
        assert(!is_target(scan.entries()[i]));
        assert(reports_on(scan.base(), scan.keys()[i], scan.entries()[i], scan.reports()[i]));
        lemma_other_types_call_for_nothing(scan.base(), scan.keys()[i], scan.entries()[i]);
    }
}

/// What a scan records agrees with what each entry calls for: a skipped or
/// rejected entry has the report that [`settled`] gives, and the report of an
/// entry that called for a file names that file.
pub proof fn lemma_reports_follow_tasks(scan: Scan, i: int)
    requires
        scan.consistent(),
        0 <= i < scan.reports().len(),
    ensures
        scan.reports()[i].key == scan.keys()[i],
        scan.reports()[i].id_type == id_type_of(scan.entries()[i]),
        !(task_of(scan.base(), scan.entries()[i]) is Extract) ==> scan.reports()[i] == settled(
            scan.base(),
            scan.keys()[i],
            scan.entries()[i],
        ),
        task_of(scan.base(), scan.entries()[i]) is Extract ==> scan.reports()[i].outcome.path_line()
            == Some(task_of(scan.base(), scan.entries()[i])->Extract_0),
        scan.reports()[i].outcome.text_line() is Some ==> is_target(scan.entries()[i]),
        scan.reports()[i].outcome.path_line() is Some ==> is_target(scan.entries()[i]),
{
    assert(reports_on(scan.base(), scan.keys()[i], scan.entries()[i], scan.reports()[i]));
}

} // verus!
