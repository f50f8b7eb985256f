//! What holds of every step of the front-end.

use vstd::prelude::*;
use crate::effect::{logged, EffectView};
use crate::event::EventView;
use crate::messages::{spec_no_pdf_tool, spec_pdf_absent, spec_xml_write_failed};
use crate::model::{initial, step, AppModel, Stage};
use crate::process::ProcessOutcomeView;
use crate::severity::SeverityFilters;
use crate::tools::{Tool, ToolTable};

verus! {

/// A single line is what a single appending effect logs.
pub proof fn lemma_logged_one(line: Seq<char>)
    ensures
        logged(seq![EffectView::AppendLog { text: line }]) == seq![line],
{
    let effects = seq![EffectView::AppendLog { text: line }];
    assert(effects.drop_last() =~= Seq::empty());
    assert(logged(effects.drop_last()) =~= Seq::empty());
    assert(logged(effects) =~= seq![line]);
}

/// Effects that append nothing leave the log as it is.
pub proof fn lemma_logged_none(effects: Seq<EffectView>)
    requires
        forall|i: int| 0 <= i < effects.len() ==> !(effects[i] is AppendLog),
    ensures
        logged(effects) == Seq::<Seq<char>>::empty(),
    decreases effects.len(),
{
    if effects.len() > 0 {
        lemma_logged_none(effects.drop_last());
    }
}

/// The state at startup is one that the front-end can be in, and every step
/// leads from such a state to such a state.
pub proof fn lemma_wf_is_invariant(tools: ToolTable, s: AppModel, e: EventView)
    ensures
        initial(tools).wf(),
        s.wf() ==> step(s, e).0.wf(),
{
}

/// The log only grows: a step leaves what was written as it is and adds,
/// in order, exactly what its effects append.
pub proof fn lemma_log_is_append_only(s: AppModel, e: EventView)
    ensures
        step(s, e).0.log == s.log + logged(step(s, e).1),
        step(s, e).0.log.len() >= s.log.len(),
        step(s, e).0.log.take(s.log.len() as int) == s.log,
{
    let after = step(s, e).0.log;
    assert(after.take(s.log.len() as int) =~= s.log);
}

/// A step never forgets the selected project, never changes what is known
/// of the tools, never takes a report action away again, and never brings
/// the install action back.
pub proof fn lemma_what_a_step_keeps(s: AppModel, e: EventView)
    ensures
        step(s, e).0.tools == s.tools,
        s.path is Some ==> step(s, e).0.path is Some,
        s.html_enabled ==> step(s, e).0.html_enabled,
        s.pdf_enabled ==> step(s, e).0.pdf_enabled,
        !s.install_enabled ==> !step(s, e).0.install_enabled,
{
}

/// Of the effects of a step only the last can ask for work, and the next
/// state waits for exactly the result of that work. A step whose effects
/// ask for no work leaves the front-end idle, unless the event was ignored.
pub proof fn lemma_one_request_at_a_time(s: AppModel, e: EventView)
    ensures
        forall|i: int| 0 <= i < step(s, e).1.len() - 1 ==> step(s, e).1[i].expects() is None,
        step(s, e).1.len() > 0 ==> step(s, e).0.stage.awaits() == step(s, e).1.last().expects(),
        step(s, e).1.len() == 0 ==> step(s, e).0.stage == Stage::Idle || step(s, e).0 == s,
{
    let (next, effects) = step(s, e);
    if effects.len() == 0 {
        assert(logged(effects) =~= Seq::empty());
        assert(next.log =~= s.log);
    }
}

/// While the front-end waits for a result, every other event is ignored:
/// it changes nothing and has no effects. So is a result that arrives
/// while nothing is waited for.
pub proof fn lemma_only_the_awaited_is_heard(s: AppModel, e: EventView)
    requires
        s.stage != Stage::Idle || e.answers() is Some,
        e.answers() != s.stage.awaits(),
    ensures
        step(s, e) == (s, Seq::<EffectView>::empty()),
{
    let (next, effects) = step(s, e);
    assert(effects =~= Seq::empty());
    assert(logged(effects) =~= Seq::empty());
    assert(next.log =~= s.log);
}

/// The result that the front-end waits for brings it closer to being idle:
/// no action takes more than four results to finish.
pub proof fn lemma_awaited_result_makes_progress(s: AppModel, e: EventView)
    requires
        s.stage != Stage::Idle,
        e.answers() == s.stage.awaits(),
    ensures
        step(s, e).0.stage.steps_left() < s.stage.steps_left(),
        s.stage.steps_left() <= 4,
{
}

/// A closed directory dialog changes the selected project only where the
/// user confirmed a choice that has a path; that path then replaces the
/// selection, whatever it was. Nothing else about the state changes.
pub proof fn lemma_selection(s: AppModel, accepted: bool, path: Option<Seq<char>>)
    ensures
        ({
            let e = EventView::DirectoryDialogClosed { accepted, path };
            if s.stage == Stage::Idle && accepted && path is Some {
                step(s, e) == (
                    AppModel { path, ..s },
                    seq![EffectView::ShowSelection { path: path->0 }],
                )
            } else {
                step(s, e) == (s, Seq::<EffectView>::empty())
            }
        }),
{
    let e = EventView::DirectoryDialogClosed { accepted, path };
    let (next, effects) = step(s, e);
    lemma_logged_none(effects);
    assert(next.log =~= s.log);
}

/// Asking for the analysis while no project is selected does nothing: no
/// tool is run and the log stays as it is.
pub proof fn lemma_analysis_needs_a_project(s: AppModel, filters: SeverityFilters)
    requires
        s.path is None,
    ensures
        step(s, EventView::AnalysisRequested { filters }) == (s, Seq::<EffectView>::empty()),
{
    let (next, effects) = step(s, EventView::AnalysisRequested { filters });
    assert(logged(effects) =~= Seq::empty());
    assert(next.log =~= s.log);
}

/// When the analyser has been run and was started, both report actions are
/// available afterwards and the interface is told so. When it could not be
/// started, the actions are as they were, the interface is not told to
/// enable anything, and nothing is logged.
pub proof fn lemma_analysis_enables_reports(s: AppModel, outcome: ProcessOutcomeView)
    requires
        s.stage == Stage::Analysing,
    ensures
        ({
            let (next, effects) = step(s, EventView::ProcessFinished { outcome });
            &&& next.stage == Stage::Idle
            &&& outcome is Completed ==> next.html_enabled && next.pdf_enabled && effects.contains(
                EffectView::EnableReports,
            )
            &&& outcome is LaunchFailed ==> next.html_enabled == s.html_enabled && next.pdf_enabled
                == s.pdf_enabled && !effects.contains(EffectView::EnableReports) && next.log
                == s.log
        }),
{
    let (next, effects) = step(s, EventView::ProcessFinished { outcome });
    match outcome {
        ProcessOutcomeView::Completed { .. } => {
            assert(effects[3] == EffectView::EnableReports);
        },
        ProcessOutcomeView::LaunchFailed => {
            lemma_logged_none(effects);
            assert(next.log =~= s.log);
        },
    }
}

/// A report action becomes available only through an analysis whose tool
/// was started.
pub proof fn lemma_reports_enabled_only_by_analysis(s: AppModel, e: EventView)
    requires
        (!s.html_enabled && step(s, e).0.html_enabled) || (!s.pdf_enabled && step(
            s,
            e,
        ).0.pdf_enabled),
    ensures
        s.stage == Stage::Analysing,
        e matches EventView::ProcessFinished { outcome } && outcome is Completed,
{
}

/// How a tool exited makes no difference to what the front-end does.
pub proof fn lemma_exit_status_is_ignored(
    s: AppModel,
    first: Option<i32>,
    second: Option<i32>,
    stdout: Seq<u8>,
    stderr: Seq<u8>,
)
    ensures
        step(
            s,
            EventView::ProcessFinished {
                outcome: ProcessOutcomeView::Completed { status: first, stdout, stderr },
            },
        ) == step(
            s,
            EventView::ProcessFinished {
                outcome: ProcessOutcomeView::Completed { status: second, stdout, stderr },
            },
        ),
{
}

/// When the XML output could not be written, the making of the HTML report
/// ends there: the only effect is the line that says so, which is then the
/// last in the log, and the front-end is idle.
pub proof fn lemma_failed_write_ends_html(s: AppModel)
    requires
        s.stage == Stage::SavingXml,
        s.path is Some,
    ensures
        step(s, EventView::FileWritten { ok: false }) == (
            AppModel { stage: Stage::Idle, log: s.log.push(spec_xml_write_failed()), ..s },
            seq![EffectView::AppendLog { text: spec_xml_write_failed() }],
        ),
        step(s, EventView::FileWritten { ok: false }).0.log.last() == spec_xml_write_failed(),
{
    lemma_logged_one(spec_xml_write_failed());
    let (next, effects) = step(s, EventView::FileWritten { ok: false });
    assert(next.log =~= s.log.push(spec_xml_write_failed()));
}

/// When no browser was found at startup, asking for the PDF export has one
/// effect, the line that says so. No tool is run, nothing is written, and
/// the state is as before but for the log.
pub proof fn lemma_pdf_without_browser(s: AppModel)
    requires
        s.stage == Stage::Idle,
        s.pdf_enabled,
        s.path is Some,
        s.tools.spec_pdf_tool() is None,
    ensures
        step(s, EventView::PdfRequested) == (
            AppModel { log: s.log.push(spec_no_pdf_tool()), ..s },
            seq![EffectView::AppendLog { text: spec_no_pdf_tool() }],
        ),
{
    lemma_logged_one(spec_no_pdf_tool());
    let (next, effects) = step(s, EventView::PdfRequested);
    assert(next.log =~= s.log.push(spec_no_pdf_tool()));
}

/// When the browser ran and the PDF is not there, the only effect is the
/// line that says so: nothing is opened, and the front-end is idle.
pub proof fn lemma_absent_pdf_is_not_opened(s: AppModel)
    requires
        s.stage == Stage::LocatingPdf,
        s.path is Some,
    ensures
        step(s, EventView::ExistenceChecked { exists: false }) == (
            AppModel { stage: Stage::Idle, log: s.log.push(spec_pdf_absent()), ..s },
            seq![EffectView::AppendLog { text: spec_pdf_absent() }],
        ),
{
    lemma_logged_one(spec_pdf_absent());
    let (next, effects) = step(s, EventView::ExistenceChecked { exists: false });
    assert(next.log =~= s.log.push(spec_pdf_absent()));
}

/// Once the package manager has been run, the install action is unavailable,
/// whether the installation worked, failed or could not be started.
pub proof fn lemma_install_is_offered_once(s: AppModel, outcome: ProcessOutcomeView)
    requires
        s.stage == Stage::Installing,
    ensures
        !step(s, EventView::ProcessFinished { outcome }).0.install_enabled,
        step(s, EventView::ProcessFinished { outcome }).0.stage == Stage::Idle,
        step(s, EventView::ProcessFinished { outcome }).1.last() == EffectView::DisableInstall,
{
}

/// The report renderer is run only on an XML file that has just been
/// written.
pub proof fn lemma_render_only_after_write(s: AppModel, e: EventView, i: int)
    requires
        0 <= i < step(s, e).1.len(),
        step(s, e).1[i] matches EffectView::Run { invocation } && invocation.program
            == Tool::HtmlReport.spec_name(),
    ensures
        s.stage == Stage::SavingXml,
        e == (EventView::FileWritten { ok: true }),
{
    reveal_strlit("cppcheck");
    reveal_strlit("cppcheck-htmlreport");
    reveal_strlit("google-chrome");
    reveal_strlit("chromium-browser");
    reveal_strlit("sudo");
    let renderer = Tool::HtmlReport.spec_name();
    assert(renderer.len() == 19);
    assert(Tool::Cppcheck.spec_name().len() == 8);
    assert(Tool::Chrome.spec_name().len() == 13);
    assert(Tool::Chromium.spec_name().len() == 16);
    assert("sudo"@.len() == 4);
    let effects = step(s, e).1;
    match e {
        EventView::InstallRequested => {
            assert(effects[i] is Run ==> effects[i]->invocation.program == "sudo"@);
        },
        EventView::AnalysisRequested { .. } => {
            assert(effects[i] is Run ==> effects[i]->invocation.program
                == Tool::Cppcheck.spec_name());
        },
        EventView::HtmlRequested => {
            assert(effects[i] is Run ==> effects[i]->invocation.program
                == Tool::Cppcheck.spec_name());
        },
        EventView::PdfRequested => {
            assert(effects[i] is Run ==> effects[i]->invocation.program != renderer);
        },
        EventView::ProcessFinished { outcome } => {
            assert(!(effects[i] is Run));
        },
        _ => {},
    }
}

} // verus!
