//! What can happen to the front-end: the user acts, or work that the
//! front-end asked for comes back.

use vstd::prelude::*;
use crate::process::{ProcessOutcome, ProcessOutcomeView};
use crate::severity::SeverityFilters;
use crate::text::option_view;

verus! {

/// The kinds of work whose result comes back as an event.
#[derive(Clone, Copy, PartialEq, Eq, Debug, Structural)]
pub enum Reply {
    /// An external tool was run.
    Process,
    /// A file was written.
    Write,
    /// A file was looked for.
    Existence,
    /// A URI was handed to the default handler.
    Open,
}

/// Something that happened and that the front-end has to react to.
#[derive(Clone, Debug, PartialEq, Eq)]
pub enum Event {
    /// The directory dialog was closed. `accepted` says whether the user
    /// confirmed the choice, `path` holds the chosen directory where the
    /// choice has a path in the file system.
    DirectoryDialogClosed { accepted: bool, path: Option<String> },
    /// The user asked for the missing tools to be installed.
    InstallRequested,
    /// The user asked for the analysis, with these filters ticked.
    AnalysisRequested { filters: SeverityFilters },
    /// The user asked for the HTML report.
    HtmlRequested,
    /// The user asked for the PDF export.
    PdfRequested,
    /// The external tool that was asked for has been run.
    ProcessFinished { outcome: ProcessOutcome },
    /// The file that was to be written has been written, or not.
    FileWritten { ok: bool },
    /// The file that was looked for is there, or not.
    ExistenceChecked { exists: bool },
    /// The URI was handed to the default handler; `failure` holds the reason
    /// where that failed.
    UriOpened { failure: Option<String> },
}

/// An event with its texts as sequences of characters.
pub enum EventView {
    DirectoryDialogClosed { accepted: bool, path: Option<Seq<char>> },
    InstallRequested,
    AnalysisRequested { filters: SeverityFilters },
    HtmlRequested,
    PdfRequested,
    ProcessFinished { outcome: ProcessOutcomeView },
    FileWritten { ok: bool },
    ExistenceChecked { exists: bool },
    UriOpened { failure: Option<Seq<char>> },
}

impl View for Event {
    type V = EventView;

    open spec fn view(&self) -> EventView {
        match *self {
            Event::DirectoryDialogClosed { accepted, path } => EventView::DirectoryDialogClosed {
                accepted,
                path: option_view(path),
            },
            Event::InstallRequested => EventView::InstallRequested,
            Event::AnalysisRequested { filters } => EventView::AnalysisRequested { filters },
            Event::HtmlRequested => EventView::HtmlRequested,
            Event::PdfRequested => EventView::PdfRequested,
            Event::ProcessFinished { outcome } => EventView::ProcessFinished { outcome: outcome@ },
            Event::FileWritten { ok } => EventView::FileWritten { ok },
            Event::ExistenceChecked { exists } => EventView::ExistenceChecked { exists },
            Event::UriOpened { failure } => EventView::UriOpened { failure: option_view(failure) },
        }
    }
}

impl EventView {
    /// The kind of work whose result this event brings back; none for what
    /// the user does.
    pub open spec fn answers(self) -> Option<Reply> {
        match self {
            EventView::ProcessFinished { .. } => Some(Reply::Process),
            EventView::FileWritten { .. } => Some(Reply::Write),
            EventView::ExistenceChecked { .. } => Some(Reply::Existence),
            EventView::UriOpened { .. } => Some(Reply::Open),
            _ => None,
        }
    }
}

impl Event {
    /// The kind of work whose result this event brings back, if any.
    pub fn answers(&self) -> (r: Option<Reply>)
        ensures
            r == self@.answers(),
    {
        match self {
            Event::ProcessFinished { .. } => Some(Reply::Process),
            Event::FileWritten { .. } => Some(Reply::Write),
            Event::ExistenceChecked { .. } => Some(Reply::Existence),
            Event::UriOpened { .. } => Some(Reply::Open),
            _ => None,
        }
    }
}

} // verus!
