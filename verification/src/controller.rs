//! The running front-end: its state, and the step that an event makes it take.

use vstd::prelude::*;
use crate::artifacts::{index_uri, pdf_file, pdf_uri, xml_file};
use crate::effect::{effect_views, logged, Effect, EffectView, Progress};
use crate::event::Event;
use crate::invocation::{analysis, install, print, render, xml_export};
use crate::messages::{
    generating_html, generating_pdf, html_open_failed, html_saved, installing, no_pdf_tool,
    pdf_absent, pdf_open_failed, pdf_saved, print_failed, render_failed, running,
    xml_export_failed, xml_write_failed,
};
use crate::model::{AppModel, Stage};
use crate::process::{read_captured, ProcessOutcome};
use crate::severity::SeverityFilters;
use crate::text::{option_view, views_of};
use crate::tools::ToolTable;

verus! {

/// The state of the front-end. Every value of this type is a state that the
/// front-end can get into.
pub struct AppState {
    tools: ToolTable,
    path: Option<String>,
    html_enabled: bool,
    pdf_enabled: bool,
    install_enabled: bool,
    stage: Stage,
    log: Vec<String>,
}

impl View for AppState {
    type V = AppModel;

    closed spec fn view(&self) -> AppModel {
        AppModel {
            tools: self.tools,
            path: option_view(self.path),
            html_enabled: self.html_enabled,
            pdf_enabled: self.pdf_enabled,
            install_enabled: self.install_enabled,
            stage: self.stage,
            log: views_of(self.log@),
        }
    }
}

/// Appends `e` to the end of `list`.
fn push_effect(list: &mut Vec<Effect>, e: Effect)
    ensures
        effect_views(final(list)@) == effect_views(old(list)@).push(e@),
{
    list.push(e);
    assert(effect_views(list@) =~= effect_views(old(list)@).push(e@));
}

/// No effects.
fn no_effects() -> (r: Vec<Effect>)
    ensures
        effect_views(r@) == Seq::<EffectView>::empty(),
{
    let r: Vec<Effect> = Vec::new();
    assert(effect_views(r@) =~= Seq::<EffectView>::empty());
    r
}

/// One line for the log and nothing else.
fn one_line(line: String) -> (r: Vec<Effect>)
    ensures
        effect_views(r@) == seq![EffectView::AppendLog { text: line@ }],
{
    let mut r = no_effects();
    push_effect(&mut r, Effect::AppendLog { text: line });
    assert(effect_views(r@) =~= seq![EffectView::AppendLog { text: line@ }]);
    r
}

/// The captured output of a tool as it goes to the log.
fn captured(outcome: &ProcessOutcome) -> (r: Vec<Effect>)
    ensures
        effect_views(r@) == crate::model::captured(outcome@),
{
    let mut r = no_effects();
    match outcome {
        ProcessOutcome::Completed { stdout, stderr, .. } => {
            push_effect(&mut r, Effect::AppendLog { text: read_captured(stdout) });
            push_effect(&mut r, Effect::AppendLog { text: read_captured(stderr) });
            assert(effect_views(r@) =~= crate::model::captured(outcome@));
        },
        ProcessOutcome::LaunchFailed => {},
    }
    r
}

impl AppState {
    #[verifier::type_invariant]
    spec fn inv(self) -> bool {
        self@.wf()
    }

    /// The state at startup, given what the search for the tools came to.
    pub fn new(tools: ToolTable) -> (r: Self)
        ensures
            r@ == crate::model::initial(tools),
    {
        let missing = tools.missing();
        let log: Vec<String> = Vec::new();
        assert(views_of(log@) =~= Seq::empty());
        AppState {
            tools,
            path: None,
            html_enabled: false,
            pdf_enabled: false,
            install_enabled: missing.len() > 0,
            stage: Stage::Idle,
            log,
        }
    }

    /// The directory dialog was closed.
    fn select_directory(self, accepted: bool, path: Option<String>) -> (r: (AppState, Vec<Effect>))
        ensures
            (r.0@, effect_views(r.1@)) == crate::model::select_directory(
                self@,
                accepted,
                option_view(path),
            ),
    {
        proof {
            use_type_invariant(&self);
        }
        if !(self.is_idle() && accepted) {
            return (self, no_effects());
        }
        match path {
            Some(p) => {
                let mut effects = no_effects();
                push_effect(&mut effects, Effect::ShowSelection { path: p.clone() });
                assert(effect_views(effects@) =~= seq![EffectView::ShowSelection { path: p@ }]);
                (AppState { path: Some(p), ..self }, effects)
            },
            None => (self, no_effects()),
        }
    }

    /// The user asked for the missing tools to be installed.
    fn request_install(self) -> (r: (AppState, Vec<Effect>))
        ensures
            (r.0@, effect_views(r.1@)) == crate::model::request_install(self@),
    {
        proof {
            use_type_invariant(&self);
        }
        if !(self.is_idle() && self.install_enabled) {
            return (self, no_effects());
        }
        let missing = self.tools.missing();
        let mut effects = no_effects();
        push_effect(&mut effects, Effect::AppendLog { text: installing() });
        push_effect(&mut effects, Effect::Run { invocation: install(&missing) });
        assert(effect_views(effects@) =~= crate::model::request_install(self@).1);
        (self.at(Stage::Installing), effects)
    }

    /// The user asked for the analysis.
    fn request_analysis(self, filters: SeverityFilters) -> (r: (AppState, Vec<Effect>))
        ensures
            (r.0@, effect_views(r.1@)) == crate::model::request_analysis(self@, filters),
    {
        proof {
            use_type_invariant(&self);
        }
        if !self.is_idle() {
            return (self, no_effects());
        }
        let mut effects = no_effects();
        match &self.path {
            Some(p) => {
                push_effect(&mut effects, Effect::AppendLog { text: running(p.as_str()) });
                push_effect(&mut effects, Effect::ShowProgress { progress: Progress::Empty });
                push_effect(&mut effects, Effect::Run { invocation: analysis(&filters, p.as_str()) });
            },
            None => {
                return (self, effects);
            },
        }
        assert(effect_views(effects@) =~= crate::model::request_analysis(self@, filters).1);
        (self.at(Stage::Analysing), effects)
    }

    /// The user asked for the HTML report.
    fn request_html(self) -> (r: (AppState, Vec<Effect>))
        ensures
            (r.0@, effect_views(r.1@)) == crate::model::request_html(self@),
    {
        proof {
            use_type_invariant(&self);
        }
        if !(self.is_idle() && self.html_enabled) {
            return (self, no_effects());
        }
        let mut effects = no_effects();
        match &self.path {
            Some(p) => {
                push_effect(&mut effects, Effect::AppendLog { text: generating_html(p.as_str()) });
                push_effect(&mut effects, Effect::Run { invocation: xml_export(p.as_str()) });
            },
            None => {
                return (self, effects);
            },
        }
        assert(effect_views(effects@) =~= crate::model::request_html(self@).1);
        (self.at(Stage::ExportingXml), effects)
    }

    /// The user asked for the PDF export.
    fn request_pdf(self) -> (r: (AppState, Vec<Effect>))
        ensures
            (r.0@, effect_views(r.1@)) == crate::model::request_pdf(self@),
    {
        proof {
            use_type_invariant(&self);
        }
        if !(self.is_idle() && self.pdf_enabled) {
            return (self, no_effects());
        }
        let mut effects = no_effects();
        match &self.path {
            Some(p) => match self.tools.pdf_tool() {
                Some(browser) => {
                    push_effect(
                        &mut effects,
                        Effect::AppendLog { text: generating_pdf(p.as_str()) },
                    );
                    push_effect(&mut effects, Effect::Run { invocation: print(browser, p.as_str()) });
                },
                None => {
                    return (self, one_line(no_pdf_tool()));
                },
            },
            None => {
                return (self, effects);
            },
        }
        assert(effect_views(effects@) =~= crate::model::request_pdf(self@).1);
        (self.at(Stage::Printing), effects)
    }

    /// An external tool has been run.
    fn process_finished(self, outcome: ProcessOutcome) -> (r: (AppState, Vec<Effect>))
        ensures
            (r.0@, effect_views(r.1@)) == crate::model::process_finished(self@, outcome@),
    {
        proof {
            use_type_invariant(&self);
        }
        match self.stage {
            Stage::Installing => {
                let mut effects = captured(&outcome);
                push_effect(&mut effects, Effect::DisableInstall);
                assert(effect_views(effects@) =~= crate::model::install_finished(self@, outcome@).1);
                (AppState { stage: Stage::Idle, install_enabled: false, ..self }, effects)
            },
            Stage::Analysing => {
                let mut effects = captured(&outcome);
                push_effect(&mut effects, Effect::ShowProgress { progress: Progress::Complete });
                if outcome.launched() {
                    push_effect(&mut effects, Effect::EnableReports);
                    assert(effect_views(effects@) =~= crate::model::analysis_finished(
                        self@,
                        outcome@,
                    ).1);
                    (
                        AppState {
                            stage: Stage::Idle,
                            html_enabled: true,
                            pdf_enabled: true,
                            ..self
                        },
                        effects,
                    )
                } else {
                    assert(effect_views(effects@) =~= crate::model::analysis_finished(
                        self@,
                        outcome@,
                    ).1);
                    (self.at(Stage::Idle), effects)
                }
            },
            Stage::ExportingXml => {
                let target = match &self.path {
                    Some(p) => xml_file(p.as_str()),
                    None => {
                        return (self.at(Stage::Idle), no_effects());
                    },
                };
                match outcome {
                    ProcessOutcome::Completed { stderr, .. } => {
                        let mut effects = no_effects();
                        push_effect(
                            &mut effects,
                            Effect::WriteFile { path: target, contents: stderr },
                        );
                        assert(effect_views(effects@) =~= crate::model::process_finished(
                            self@,
                            outcome@,
                        ).1);
                        (self.at(Stage::SavingXml), effects)
                    },
                    ProcessOutcome::LaunchFailed => (
                        self.at(Stage::Idle),
                        one_line(xml_export_failed()),
                    ),
                }
            },
            Stage::Rendering => {
                let mut effects = no_effects();
                match &self.path {
                    Some(p) => {
                        if outcome.launched() {
                            push_effect(
                                &mut effects,
                                Effect::AppendLog { text: html_saved(p.as_str()) },
                            );
                            push_effect(&mut effects, Effect::OpenUri { uri: index_uri(p.as_str()) });
                        } else {
                            return (self.at(Stage::Idle), one_line(render_failed()));
                        }
                    },
                    None => {
                        return (self.at(Stage::Idle), effects);
                    },
                }
                assert(effect_views(effects@) =~= crate::model::process_finished(self@, outcome@).1);
                (self.at(Stage::OpeningHtml), effects)
            },
            Stage::Printing => {
                let mut effects = no_effects();
                match &self.path {
                    Some(p) => {
                        if outcome.launched() {
                            push_effect(
                                &mut effects,
                                Effect::CheckExists { path: pdf_file(p.as_str()) },
                            );
                        } else {
                            return (self.at(Stage::Idle), one_line(print_failed()));
                        }
                    },
                    None => {
                        return (self.at(Stage::Idle), effects);
                    },
                }
                assert(effect_views(effects@) =~= crate::model::process_finished(self@, outcome@).1);
                (self.at(Stage::LocatingPdf), effects)
            },
            _ => (self, no_effects()),
        }
    }

    /// A file has been written, or not.
    fn file_written(self, ok: bool) -> (r: (AppState, Vec<Effect>))
        ensures
            (r.0@, effect_views(r.1@)) == crate::model::file_written(self@, ok),
    {
        proof {
            use_type_invariant(&self);
        }
        match self.stage {
            Stage::SavingXml => {
                if !ok {
                    return (self.at(Stage::Idle), one_line(xml_write_failed()));
                }
                let mut effects = no_effects();
                match &self.path {
                    Some(p) => {
                        push_effect(&mut effects, Effect::Run { invocation: render(p.as_str()) });
                    },
                    None => {
                        return (self.at(Stage::Idle), effects);
                    },
                }
                assert(effect_views(effects@) =~= crate::model::file_written(self@, ok).1);
                (self.at(Stage::Rendering), effects)
            },
            _ => (self, no_effects()),
        }
    }

    /// A file has been looked for.
    fn existence_checked(self, exists: bool) -> (r: (AppState, Vec<Effect>))
        ensures
            (r.0@, effect_views(r.1@)) == crate::model::existence_checked(self@, exists),
    {
        proof {
            use_type_invariant(&self);
        }
        match self.stage {
            Stage::LocatingPdf => {
                if !exists {
                    return (self.at(Stage::Idle), one_line(pdf_absent()));
                }
                let mut effects = no_effects();
                match &self.path {
                    Some(p) => {
                        push_effect(&mut effects, Effect::AppendLog { text: pdf_saved(p.as_str()) });
                        push_effect(&mut effects, Effect::OpenUri { uri: pdf_uri(p.as_str()) });
                    },
                    None => {
                        return (self.at(Stage::Idle), effects);
                    },
                }
                assert(effect_views(effects@) =~= crate::model::existence_checked(self@, exists).1);
                (self.at(Stage::OpeningPdf), effects)
            },
            _ => (self, no_effects()),
        }
    }

    /// A URI has been handed to the default handler.
    fn uri_opened(self, failure: Option<String>) -> (r: (AppState, Vec<Effect>))
        ensures
            (r.0@, effect_views(r.1@)) == crate::model::uri_opened(self@, option_view(failure)),
    {
        proof {
            use_type_invariant(&self);
        }
        match self.stage {
            Stage::OpeningHtml => match failure {
                Some(reason) => (
                    self.at(Stage::Idle),
                    one_line(html_open_failed(reason.as_str())),
                ),
                None => (self.at(Stage::Idle), no_effects()),
            },
            Stage::OpeningPdf => match failure {
                Some(reason) => (self.at(Stage::Idle), one_line(pdf_open_failed(reason.as_str()))),
                None => (self.at(Stage::Idle), no_effects()),
            },
            _ => (self, no_effects()),
        }
    }

    /// What the front-end decides on `event`, the log left aside.
    fn decide(self, event: Event) -> (r: (AppState, Vec<Effect>))
        ensures
            (r.0@, effect_views(r.1@)) == crate::model::decide(self@, event@),
    {
        match event {
            Event::DirectoryDialogClosed { accepted, path } => self.select_directory(accepted, path),
            Event::InstallRequested => self.request_install(),
            Event::AnalysisRequested { filters } => self.request_analysis(filters),
            Event::HtmlRequested => self.request_html(),
            Event::PdfRequested => self.request_pdf(),
            Event::ProcessFinished { outcome } => self.process_finished(outcome),
            Event::FileWritten { ok } => self.file_written(ok),
            Event::ExistenceChecked { exists } => self.existence_checked(exists),
            Event::UriOpened { failure } => self.uri_opened(failure),
        }
    }

    /// The same state, with the log grown by what `effects` append to it.
    fn record(self, effects: &Vec<Effect>) -> (r: Self)
        ensures
            r@ == (AppModel { log: self@.log + logged(effect_views(effects@)), ..self@ }),
    {
        proof {
            use_type_invariant(&self);
        }
        let ghost all = effect_views(effects@);
        let ghost before = self@;
        let AppState { tools, path, html_enabled, pdf_enabled, install_enabled, stage, log } = self;
        let mut log = log;
        let mut i: usize = 0;
        assert(all.take(0) =~= Seq::empty());
        assert(before.log + logged(all.take(0)) =~= before.log);
        while i < effects.len()
            invariant
                i <= effects.len(),
                all == effect_views(effects@),
                views_of(log@) == before.log + logged(all.take(i as int)),
            decreases effects.len() - i,
        {
            proof {
                assert(all.take(i as int + 1).drop_last() =~= all.take(i as int));
                assert(all.take(i as int + 1).last() == effects@[i as int]@);
            }
            match &effects[i] {
                Effect::AppendLog { text } => {
                    let line = text.clone();
                    let ghost shown = views_of(log@);
                    log.push(line);
                    assert(views_of(log@) =~= shown.push(text@));
                    assert(logged(all.take(i as int + 1)) == logged(all.take(i as int)).push(text@));
                    assert(shown.push(text@) =~= before.log + logged(all.take(i as int + 1)));
                },
                _ => {},
            }
            i = i + 1;
        }
        assert(all.take(effects.len() as int) =~= all);
        AppState { tools, path, html_enabled, pdf_enabled, install_enabled, stage, log }
    }

    /// Takes the step that `event` calls for: hands back the next state and
    /// the effects to carry out, in order. Where the last effect asks for
    /// work, its result is the next event to hand in.
    pub fn step(self, event: Event) -> (r: (AppState, Vec<Effect>))
        ensures
            (r.0@, effect_views(r.1@)) == crate::model::step(self@, event@),
            r.0@.wf(),
    {
        let (next, effects) = self.decide(event);
        let next = next.record(&effects);
        proof {
            use_type_invariant(&next);
        }
        (next, effects)
    }

    /// What the search for the tools at startup came to.
    pub fn tools(&self) -> (r: ToolTable)
        ensures
            r == self@.tools,
    {
        self.tools
    }

    /// The selected project directory, once one was selected.
    pub fn path(&self) -> (r: Option<&str>)
        ensures
            self@.path == match r {
                Some(p) => Some(p@),
                None => None,
            },
    {
        match &self.path {
            Some(p) => Some(p.as_str()),
            None => None,
        }
    }

    /// Whether the HTML action is available.
    pub fn html_enabled(&self) -> (r: bool)
        ensures
            r == self@.html_enabled,
    {
        self.html_enabled
    }

    /// Whether the PDF action is available.
    pub fn pdf_enabled(&self) -> (r: bool)
        ensures
            r == self@.pdf_enabled,
    {
        self.pdf_enabled
    }

    /// Whether the install action is available.
    pub fn install_enabled(&self) -> (r: bool)
        ensures
            r == self@.install_enabled,
    {
        self.install_enabled
    }

    /// What the front-end is waiting for.
    pub fn stage(&self) -> (r: Stage)
        ensures
            r == self@.stage,
    {
        self.stage
    }

    /// Everything written to the log so far, oldest first.
    pub fn log(&self) -> (r: &Vec<String>)
        ensures
            views_of(r@) == self@.log,
    {
        &self.log
    }

    /// Whether nothing is waited for.
    pub fn is_idle(&self) -> (r: bool)
        ensures
            r == (self@.stage == Stage::Idle),
    {
        match self.stage {
            Stage::Idle => true,
            _ => false,
        }
    }

    /// The same state, waiting in `stage`.
    fn at(self, stage: Stage) -> (r: Self)
        requires
            (AppModel { stage, ..self@ }).wf(),
        ensures
            r@ == (AppModel { stage, ..self@ }),
    {
        AppState { stage, ..self }
    }
}

} // verus!
