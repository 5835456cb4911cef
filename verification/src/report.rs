//! The reporter: what became of each entry, and the lines that say so.

use crate::error::SchemaError;
use crate::text::strings_view;
use vstd::prelude::*;

verus! {

/// What the driver of a scan found at the place of an entry's file.
#[derive(Debug, PartialEq, Eq)]
pub enum Finding {
    /// The file could not be read; the reason in words.
    Unreadable(String),
    /// The bytes are no PDF from which text can be had; the reason in words.
    Undecodable(String),
    /// The text extracted from the file.
    Text(String),
}

/// The mathematical value of a [`Finding`].
pub enum FindingView {
    Unreadable(Seq<char>),
    Undecodable(Seq<char>),
    Text(Seq<char>),
}

impl View for Finding {
    type V = FindingView;

    open spec fn view(&self) -> FindingView {
        match self {
            Finding::Unreadable(reason) => FindingView::Unreadable(reason@),
            Finding::Undecodable(reason) => FindingView::Undecodable(reason@),
            Finding::Text(text) => FindingView::Text(text@),
        }
    }
}

/// What became of one entry.
#[derive(Debug, PartialEq, Eq)]
pub enum Outcome {
    /// The entry is not of the target type: nothing was resolved or read.
    Skipped,
    /// The entry is of the target type but names no file.
    Malformed(SchemaError),
    /// The file at `path` could not be read.
    Unreadable { path: String, reason: String },
    /// The file at `path` gave no text.
    Undecodable { path: String, reason: String },
    /// The file at `path` gave `text`.
    Extracted { path: String, text: String },
}

/// The mathematical value of an [`Outcome`].
pub enum OutcomeView {
    Skipped,
    Malformed(SchemaError),
    Unreadable { path: Seq<char>, reason: Seq<char> },
    Undecodable { path: Seq<char>, reason: Seq<char> },
    Extracted { path: Seq<char>, text: Seq<char> },
}

impl View for Outcome {
    type V = OutcomeView;

    open spec fn view(&self) -> OutcomeView {
        match self {
            Outcome::Skipped => OutcomeView::Skipped,
            Outcome::Malformed(e) => OutcomeView::Malformed(*e),
            Outcome::Unreadable { path, reason } => OutcomeView::Unreadable {
                path: path@,
                reason: reason@,
            },
            Outcome::Undecodable { path, reason } => OutcomeView::Undecodable {
                path: path@,
                reason: reason@,
            },
            Outcome::Extracted { path, text } => OutcomeView::Extracted {
                path: path@,
                text: text@,
            },
        }
    }
}

/// The record of one entry: its key, its identifier type where it has one, and
/// what became of it.
#[derive(Debug, PartialEq, Eq)]
pub struct EntryReport {
    pub key: String,
    pub id_type: Option<String>,
    pub outcome: Outcome,
}

/// The mathematical value of an [`EntryReport`].
pub struct EntryReportView {
    pub key: Seq<char>,
    pub id_type: Option<Seq<char>>,
    pub outcome: OutcomeView,
}

impl View for EntryReport {
    type V = EntryReportView;

    open spec fn view(&self) -> EntryReportView {
        EntryReportView {
            key: self.key@,
            id_type: match self.id_type {
                Some(tag) => Some(tag@),
                None => None,
            },
            outcome: self.outcome@,
        }
    }
}

/// The outcome for the file at `path`, given what the driver found there.
pub open spec fn outcome_of(path: Seq<char>, finding: FindingView) -> OutcomeView {
    match finding {
        FindingView::Unreadable(reason) => OutcomeView::Unreadable { path, reason },
        FindingView::Undecodable(reason) => OutcomeView::Undecodable { path, reason },
        FindingView::Text(text) => OutcomeView::Extracted { path, text },
    }
}

/// No line, or the one line `line`.
pub open spec fn line_if(line: Option<Seq<char>>) -> Seq<Seq<char>> {
    match line {
        Some(l) => seq![l],
        None => Seq::empty(),
    }
}

impl OutcomeView {
    /// The resolved path, for an entry whose path was resolved.
    pub open spec fn path_line(self) -> Option<Seq<char>> {
        match self {
            OutcomeView::Unreadable { path, .. } => Some(path),
            OutcomeView::Undecodable { path, .. } => Some(path),
            OutcomeView::Extracted { path, .. } => Some(path),
            _ => None,
        }
    }

    /// The extracted text, for an entry whose file gave text.
    pub open spec fn text_line(self) -> Option<Seq<char>> {
        match self {
            OutcomeView::Extracted { text, .. } => Some(text),
            _ => None,
        }
    }
}

impl OutcomeView {
    /// What is logged of an entry that failed: the kind of failure and its
    /// reason. Nothing is logged of an entry that was skipped or gave text.
    pub open spec fn diagnostic(self) -> Option<Seq<char>> {
        match self {
            OutcomeView::Malformed(e) => Some("schema error: "@ + e.message_text()),
            OutcomeView::Unreadable { reason, .. } => Some("read error: "@ + reason),
            OutcomeView::Undecodable { reason, .. } => Some("extraction error: "@ + reason),
            _ => None,
        }
    }
}

impl EntryReportView {
    /// The lines that report an entry: its key, its identifier type, its
    /// resolved path and the extracted text, in that order, each only where
    /// the entry has it.
    pub open spec fn lines(self) -> Seq<Seq<char>> {
        seq![self.key] + line_if(self.id_type) + line_if(self.outcome.path_line()) + line_if(
            self.outcome.text_line(),
        )
    }
}

/// The values of a run of reports, one by one.
pub open spec fn reports_view(reports: Seq<EntryReport>) -> Seq<EntryReportView> {
    Seq::new(reports.len(), |i: int| reports[i]@)
}

/// The lines of each of `reports`.
pub open spec fn lines_each(reports: Seq<EntryReportView>) -> Seq<Seq<Seq<char>>> {
    Seq::new(reports.len(), |i: int| reports[i].lines())
}

/// The lines of a whole run of reports: those of the first report, then those of
/// the second, and so on.
pub open spec fn all_lines(reports: Seq<EntryReportView>) -> Seq<Seq<char>> {
    lines_each(reports).flatten()
}

impl Outcome {
    /// Builds the outcome for the file at `path` from what the driver found.
    pub fn from_finding(path: String, finding: Finding) -> (outcome: Outcome)
        ensures
            outcome@ == outcome_of(path@, finding@),
    {
        match finding {
            Finding::Unreadable(reason) => Outcome::Unreadable { path, reason },
            Finding::Undecodable(reason) => Outcome::Undecodable { path, reason },
            Finding::Text(text) => Outcome::Extracted { path, text },
        }
    }
}

impl EntryReport {
    /// The lines that report this entry, as [`EntryReportView::lines`] defines them.
    pub fn lines(&self) -> (lines: Vec<String>)
        ensures
            strings_view(lines@) == self@.lines(),
    {
        let mut lines: Vec<String> = Vec::new();
        lines.push(self.key.clone());
        match &self.id_type {
            Some(tag) => {
                lines.push(tag.clone());
            },
            None => {},
        }
        match &self.outcome {
            Outcome::Unreadable { path, .. } => {
                lines.push(path.clone());
            },
            Outcome::Undecodable { path, .. } => {
                lines.push(path.clone());
            },
            Outcome::Extracted { path, text } => {
                lines.push(path.clone());
                lines.push(text.clone());
            },
            _ => {},
        }
        proof {
            assert(strings_view(lines@) =~= self@.lines());
        }
        lines
    }
}

impl Outcome {
    /// What is logged of this outcome, as [`OutcomeView::diagnostic`] defines it.
    pub fn diagnostic(&self) -> (text: Option<String>)
        ensures
            match text {
                Some(t) => self@.diagnostic() == Some(t@),
                None => self@.diagnostic() is None,
            },
    {
        match self {
            Outcome::Malformed(e) => {
                let mut text: String = "schema error: ".to_owned();
                text.append(e.message());
                Some(text)
            },
            Outcome::Unreadable { reason, .. } => {
                let mut text: String = "read error: ".to_owned();
                text.append(reason.as_str());
                Some(text)
            },
            Outcome::Undecodable { reason, .. } => {
                let mut text: String = "extraction error: ".to_owned();
                text.append(reason.as_str());
                Some(text)
            },
            _ => None,
        }
    }
}

/// The lines of a whole run of reports, in the order of the reports.
pub fn render(reports: &Vec<EntryReport>) -> (lines: Vec<String>)
    ensures
        strings_view(lines@) == all_lines(reports_view(reports@)),
{
    let mut lines: Vec<String> = Vec::new();
    let mut i: usize = 0;
    proof {
        assert(lines_each(reports_view(reports@)).take(0) =~= Seq::<Seq<Seq<char>>>::empty());
        assert(strings_view(lines@) =~= Seq::<Seq<char>>::empty());
    }
    while i < reports.len()
        invariant
            i <= reports.len(),
            strings_view(lines@) == lines_each(reports_view(reports@)).take(i as int).flatten(),
        decreases reports.len() - i,
    {
        let mut more = reports[i].lines();
        let ghost before = strings_view(lines@);
        let ghost added = strings_view(more@);
        proof {
            let each = lines_each(reports_view(reports@));
            each.take(i as int).lemma_flatten_push(each[i as int]);
            assert(each.take(i as int).push(each[i as int]) =~= each.take(i as int + 1));
            assert(each[i as int] == added);
        }
        lines.append(&mut more);
        proof {
            assert(strings_view(lines@) =~= before + added);
        }
        i += 1;
    }
    proof {
        let each = lines_each(reports_view(reports@));
        assert(each.take(i as int) =~= each);
    }
    lines
}

} // verus!
