//! The front-end as a state machine over plain values.
//!
//! A state and an event determine the next state and the effects to carry
//! out. Effects that ask for work (running a tool, writing a file, looking
//! for a file, opening a URI) leave the machine waiting in a stage; the
//! result of the work comes back as the next event.

use vstd::prelude::*;
use crate::artifacts::{spec_index_uri, spec_pdf_file, spec_pdf_uri, spec_xml_file};
use crate::effect::{logged, EffectView, Progress};
use crate::event::{EventView, Reply};
use crate::invocation::{spec_analysis, spec_install, spec_print, spec_render, spec_xml_export};
use crate::messages::{
    spec_generating_html, spec_generating_pdf, spec_html_open_failed, spec_html_saved,
    spec_installing, spec_no_pdf_tool, spec_pdf_absent, spec_pdf_open_failed, spec_pdf_saved,
    spec_print_failed, spec_render_failed, spec_running, spec_xml_export_failed,
    spec_xml_write_failed,
};
use crate::process::{captured_text, ProcessOutcomeView};
use crate::severity::SeverityFilters;
use crate::tools::ToolTable;

verus! {

/// What the front-end is waiting for.
#[derive(Clone, Copy, PartialEq, Eq, Debug, Structural)]
pub enum Stage {
    /// Nothing: the user may act.
    Idle,
    /// The package manager, installing the missing tools.
    Installing,
    /// The analyser, run on the project.
    Analysing,
    /// The analyser, run for its XML output.
    ExportingXml,
    /// The write of the XML output to its file.
    SavingXml,
    /// The report renderer.
    Rendering,
    /// The default handler, opening the HTML report.
    OpeningHtml,
    /// The browser, printing the report to PDF.
    Printing,
    /// The look whether the PDF is there.
    LocatingPdf,
    /// The default handler, opening the PDF.
    OpeningPdf,
}

impl Stage {
    /// The kind of result that ends the wait; none when idle.
    pub open spec fn awaits(self) -> Option<Reply> {
        match self {
            Stage::Idle => None,
            Stage::Installing => Some(Reply::Process),
            Stage::Analysing => Some(Reply::Process),
            Stage::ExportingXml => Some(Reply::Process),
            Stage::SavingXml => Some(Reply::Write),
            Stage::Rendering => Some(Reply::Process),
            Stage::OpeningHtml => Some(Reply::Open),
            Stage::Printing => Some(Reply::Process),
            Stage::LocatingPdf => Some(Reply::Existence),
            Stage::OpeningPdf => Some(Reply::Open),
        }
    }

    /// The most results that can still be waited for before the front-end
    /// is idle again.
    pub open spec fn steps_left(self) -> nat {
        match self {
            Stage::Idle => 0,
            Stage::Installing => 1,
            Stage::Analysing => 1,
            Stage::ExportingXml => 4,
            Stage::SavingXml => 3,
            Stage::Rendering => 2,
            Stage::OpeningHtml => 1,
            Stage::Printing => 3,
            Stage::LocatingPdf => 2,
            Stage::OpeningPdf => 1,
        }
    }

    /// Whether the stage belongs to the making of the HTML report.
    pub open spec fn in_html_pipeline(self) -> bool {
        self == Stage::ExportingXml || self == Stage::SavingXml || self == Stage::Rendering || self
            == Stage::OpeningHtml
    }

    /// Whether the stage belongs to the making of the PDF export.
    pub open spec fn in_pdf_pipeline(self) -> bool {
        self == Stage::Printing || self == Stage::LocatingPdf || self == Stage::OpeningPdf
    }

    /// Whether the stage works on the selected project.
    pub open spec fn needs_project(self) -> bool {
        self == Stage::Analysing || self.in_html_pipeline() || self.in_pdf_pipeline()
    }
}

/// The state of the front-end.
pub struct AppModel {
    /// What the search for the tools at startup came to.
    pub tools: ToolTable,
    /// The selected project directory, once one was selected.
    pub path: Option<Seq<char>>,
    /// Whether the HTML action is available.
    pub html_enabled: bool,
    /// Whether the PDF action is available.
    pub pdf_enabled: bool,
    /// Whether the install action is available.
    pub install_enabled: bool,
    /// What the front-end is waiting for.
    pub stage: Stage,
    /// Everything written to the log so far, oldest first.
    pub log: Seq<Seq<char>>,
}

impl AppModel {
    /// What holds of every state that the front-end can get into.
    ///
    /// The two report actions are available together, and only once a
    /// project is selected; a stage that works on the project has one; a
    /// pipeline runs only while its action is available, and printing only
    /// with a browser; the install action is available only while required
    /// tools are missing.
    pub open spec fn wf(self) -> bool {
        &&& self.html_enabled == self.pdf_enabled
        &&& self.html_enabled ==> self.path is Some
        &&& self.stage.needs_project() ==> self.path is Some
        &&& self.stage.in_html_pipeline() ==> self.html_enabled
        &&& self.stage.in_pdf_pipeline() ==> self.pdf_enabled && self.tools.spec_pdf_tool() is Some
        &&& self.stage == Stage::Installing ==> self.install_enabled
        &&& self.install_enabled ==> self.tools.spec_missing().len() > 0
    }
}

/// The state at startup: no project, the report actions unavailable, the
/// install action available exactly when a required tool is missing, nothing
/// waited for, and an empty log.
pub open spec fn initial(tools: ToolTable) -> AppModel {
    AppModel {
        tools,
        path: None,
        html_enabled: false,
        pdf_enabled: false,
        install_enabled: tools.spec_missing().len() > 0,
        stage: Stage::Idle,
        log: Seq::empty(),
    }
}

/// The event changes nothing and asks for nothing.
pub open spec fn ignored(s: AppModel) -> (AppModel, Seq<EffectView>) {
    (s, Seq::empty())
}

/// The wait ends without a word.
pub open spec fn abandoned(s: AppModel) -> (AppModel, Seq<EffectView>) {
    (AppModel { stage: Stage::Idle, ..s }, Seq::empty())
}

/// The wait ends with one line in the log.
pub open spec fn ended_with(s: AppModel, line: Seq<char>) -> (AppModel, Seq<EffectView>) {
    (AppModel { stage: Stage::Idle, ..s }, seq![EffectView::AppendLog { text: line }])
}

/// The captured output of a tool as it goes to the log: standard output,
/// then standard error, each as one piece; nothing where the tool could
/// not be started.
pub open spec fn captured(outcome: ProcessOutcomeView) -> Seq<EffectView> {
    match outcome {
        ProcessOutcomeView::Completed { stdout, stderr, .. } => seq![
            EffectView::AppendLog { text: captured_text(stdout) },
            EffectView::AppendLog { text: captured_text(stderr) },
        ],
        ProcessOutcomeView::LaunchFailed => Seq::empty(),
    }
}

/// The directory dialog was closed. A confirmed choice with a path replaces
/// the selected project; anything else leaves it as it was.
pub open spec fn select_directory(s: AppModel, accepted: bool, path: Option<Seq<char>>) -> (
    AppModel,
    Seq<EffectView>,
) {
    if s.stage == Stage::Idle && accepted {
        match path {
            Some(p) => (
                AppModel { path: Some(p), ..s },
                seq![EffectView::ShowSelection { path: p }],
            ),
            None => ignored(s),
        }
    } else {
        ignored(s)
    }
}

/// The user asked for the missing tools to be installed.
pub open spec fn request_install(s: AppModel) -> (AppModel, Seq<EffectView>) {
    if s.stage == Stage::Idle && s.install_enabled {
        (
            AppModel { stage: Stage::Installing, ..s },
            seq![
                EffectView::AppendLog { text: spec_installing() },
                EffectView::Run { invocation: spec_install(s.tools.spec_missing()) },
            ],
        )
    } else {
        ignored(s)
    }
}

/// The user asked for the analysis. Without a selected project nothing
/// happens.
pub open spec fn request_analysis(s: AppModel, filters: SeverityFilters) -> (
    AppModel,
    Seq<EffectView>,
) {
    if s.stage == Stage::Idle {
        match s.path {
            Some(p) => (
                AppModel { stage: Stage::Analysing, ..s },
                seq![
                    EffectView::AppendLog { text: spec_running(p) },
                    EffectView::ShowProgress { progress: Progress::Empty },
                    EffectView::Run { invocation: spec_analysis(filters, p) },
                ],
            ),
            None => ignored(s),
        }
    } else {
        ignored(s)
    }
}

/// The user asked for the HTML report.
pub open spec fn request_html(s: AppModel) -> (AppModel, Seq<EffectView>) {
    if s.stage == Stage::Idle && s.html_enabled {
        match s.path {
            Some(p) => (
                AppModel { stage: Stage::ExportingXml, ..s },
                seq![
                    EffectView::AppendLog { text: spec_generating_html(p) },
                    EffectView::Run { invocation: spec_xml_export(p) },
                ],
            ),
            None => ignored(s),
        }
    } else {
        ignored(s)
    }
}

/// The user asked for the PDF export. Without a browser found at startup
/// the log says so and nothing else happens.
pub open spec fn request_pdf(s: AppModel) -> (AppModel, Seq<EffectView>) {
    if s.stage == Stage::Idle && s.pdf_enabled {
        match s.path {
            Some(p) => match s.tools.spec_pdf_tool() {
                Some(browser) => (
                    AppModel { stage: Stage::Printing, ..s },
                    seq![
                        EffectView::AppendLog { text: spec_generating_pdf(p) },
                        EffectView::Run { invocation: spec_print(browser, p) },
                    ],
                ),
                None => ended_with(s, spec_no_pdf_tool()),
            },
            None => ignored(s),
        }
    } else {
        ignored(s)
    }
}

/// The package manager has been run. Its output goes to the log, and the
/// install action becomes unavailable whatever came of it.
pub open spec fn install_finished(s: AppModel, outcome: ProcessOutcomeView) -> (
    AppModel,
    Seq<EffectView>,
) {
    (
        AppModel { stage: Stage::Idle, install_enabled: false, ..s },
        captured(outcome) + seq![EffectView::DisableInstall],
    )
}

/// The analyser has been run. Where it was started, its output goes to the
/// log and the report actions become available, however it exited. Where it
/// could not be started, nothing is logged and the actions stay as they were.
pub open spec fn analysis_finished(s: AppModel, outcome: ProcessOutcomeView) -> (
    AppModel,
    Seq<EffectView>,
) {
    match outcome {
        ProcessOutcomeView::Completed { .. } => (
            AppModel { stage: Stage::Idle, html_enabled: true, pdf_enabled: true, ..s },
            captured(outcome) + seq![
                EffectView::ShowProgress { progress: Progress::Complete },
                EffectView::EnableReports,
            ],
        ),
        ProcessOutcomeView::LaunchFailed => (
            AppModel { stage: Stage::Idle, ..s },
            seq![EffectView::ShowProgress { progress: Progress::Complete }],
        ),
    }
}

/// The analyser has been run for its XML output, which it writes to
/// standard error. That stream is written to the XML file byte for byte.
pub open spec fn xml_exported(s: AppModel, project: Seq<char>, outcome: ProcessOutcomeView) -> (
    AppModel,
    Seq<EffectView>,
) {
    match outcome {
        ProcessOutcomeView::Completed { stderr, .. } => (
            AppModel { stage: Stage::SavingXml, ..s },
            seq![EffectView::WriteFile { path: spec_xml_file(project), contents: stderr }],
        ),
        ProcessOutcomeView::LaunchFailed => ended_with(s, spec_xml_export_failed()),
    }
}

/// The XML file has been written, or not. Only a written file is rendered.
pub open spec fn xml_saved(s: AppModel, project: Seq<char>, ok: bool) -> (
    AppModel,
    Seq<EffectView>,
) {
    if ok {
        (
            AppModel { stage: Stage::Rendering, ..s },
            seq![EffectView::Run { invocation: spec_render(project) }],
        )
    } else {
        ended_with(s, spec_xml_write_failed())
    }
}

/// The report renderer has been run. Where it was started, the log says
/// where the report is and the report is opened.
pub open spec fn rendered(s: AppModel, project: Seq<char>, outcome: ProcessOutcomeView) -> (
    AppModel,
    Seq<EffectView>,
) {
    match outcome {
        ProcessOutcomeView::Completed { .. } => (
            AppModel { stage: Stage::OpeningHtml, ..s },
            seq![
                EffectView::AppendLog { text: spec_html_saved(project) },
                EffectView::OpenUri { uri: spec_index_uri(project) },
            ],
        ),
        ProcessOutcomeView::LaunchFailed => ended_with(s, spec_render_failed()),
    }
}

/// The browser has been run. That it was started does not show that the PDF
/// is there: the file is looked for.
pub open spec fn printed(s: AppModel, project: Seq<char>, outcome: ProcessOutcomeView) -> (
    AppModel,
    Seq<EffectView>,
) {
    match outcome {
        ProcessOutcomeView::Completed { .. } => (
            AppModel { stage: Stage::LocatingPdf, ..s },
            seq![EffectView::CheckExists { path: spec_pdf_file(project) }],
        ),
        ProcessOutcomeView::LaunchFailed => ended_with(s, spec_print_failed()),
    }
}

/// The PDF has been looked for. Only a PDF that is there is opened.
pub open spec fn pdf_located(s: AppModel, project: Seq<char>, exists: bool) -> (
    AppModel,
    Seq<EffectView>,
) {
    if exists {
        (
            AppModel { stage: Stage::OpeningPdf, ..s },
            seq![
                EffectView::AppendLog { text: spec_pdf_saved(project) },
                EffectView::OpenUri { uri: spec_pdf_uri(project) },
            ],
        )
    } else {
        ended_with(s, spec_pdf_absent())
    }
}

/// An external tool has been run.
pub open spec fn process_finished(s: AppModel, outcome: ProcessOutcomeView) -> (
    AppModel,
    Seq<EffectView>,
) {
    match s.stage {
        Stage::Installing => install_finished(s, outcome),
        Stage::Analysing => analysis_finished(s, outcome),
        Stage::ExportingXml => match s.path {
            Some(p) => xml_exported(s, p, outcome),
            None => abandoned(s),
        },
        Stage::Rendering => match s.path {
            Some(p) => rendered(s, p, outcome),
            None => abandoned(s),
        },
        Stage::Printing => match s.path {
            Some(p) => printed(s, p, outcome),
            None => abandoned(s),
        },
        _ => ignored(s),
    }
}

/// A file has been written, or not.
pub open spec fn file_written(s: AppModel, ok: bool) -> (AppModel, Seq<EffectView>) {
    match s.stage {
        Stage::SavingXml => match s.path {
            Some(p) => xml_saved(s, p, ok),
            None => abandoned(s),
        },
        _ => ignored(s),
    }
}

/// A file has been looked for.
pub open spec fn existence_checked(s: AppModel, exists: bool) -> (AppModel, Seq<EffectView>) {
    match s.stage {
        Stage::LocatingPdf => match s.path {
            Some(p) => pdf_located(s, p, exists),
            None => abandoned(s),
        },
        _ => ignored(s),
    }
}

/// A URI has been handed to the default handler. A failure is logged with
/// its reason; either way the wait is over.
pub open spec fn uri_opened(s: AppModel, failure: Option<Seq<char>>) -> (
    AppModel,
    Seq<EffectView>,
) {
    match s.stage {
        Stage::OpeningHtml => match failure {
            Some(reason) => ended_with(s, spec_html_open_failed(reason)),
            None => abandoned(s),
        },
        Stage::OpeningPdf => match failure {
            Some(reason) => ended_with(s, spec_pdf_open_failed(reason)),
            None => abandoned(s),
        },
        _ => ignored(s),
    }
}

/// What the front-end decides on an event: the next state, the log left
/// aside, and the effects to carry out, in order.
pub open spec fn decide(s: AppModel, e: EventView) -> (AppModel, Seq<EffectView>) {
    match e {
        EventView::DirectoryDialogClosed { accepted, path } => select_directory(s, accepted, path),
        EventView::InstallRequested => request_install(s),
        EventView::AnalysisRequested { filters } => request_analysis(s, filters),
        EventView::HtmlRequested => request_html(s),
        EventView::PdfRequested => request_pdf(s),
        EventView::ProcessFinished { outcome } => process_finished(s, outcome),
        EventView::FileWritten { ok } => file_written(s, ok),
        EventView::ExistenceChecked { exists } => existence_checked(s, exists),
        EventView::UriOpened { failure } => uri_opened(s, failure),
    }
}

/// One step of the front-end: what it decides, with the log grown by what
/// the effects append to it.
pub open spec fn step(s: AppModel, e: EventView) -> (AppModel, Seq<EffectView>) {
    let (next, effects) = decide(s, e);
    (AppModel { log: s.log + logged(effects), ..next }, effects)
}

} // verus!
