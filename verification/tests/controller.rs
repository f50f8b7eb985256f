use cppcheck_gui::controller::AppState;
use cppcheck_gui::effect::{Effect, Progress};
use cppcheck_gui::event::{Event, Reply};
use cppcheck_gui::invocation::Invocation;
use cppcheck_gui::model::Stage;
use cppcheck_gui::process::ProcessOutcome;
use cppcheck_gui::severity::SeverityFilters;
use cppcheck_gui::tools::{Tool, ToolTable};

const PROJECT: &str = "/tmp/proj";

fn all_tools() -> ToolTable {
    ToolTable { cppcheck: true, html_report: true, chrome: true, chromium: true }
}

fn no_browser() -> ToolTable {
    ToolTable { cppcheck: true, html_report: true, chrome: false, chromium: false }
}

fn only_warning() -> SeverityFilters {
    SeverityFilters { error: true, warning: true, style: false, performance: false }
}

fn command(program: &str, args: &[&str]) -> Invocation {
    Invocation { program: program.to_string(), args: args.iter().map(|a| a.to_string()).collect() }
}

fn log_line(text: &str) -> Effect {
    Effect::AppendLog { text: text.to_string() }
}

fn finished(status: i32, stdout: &str, stderr: &str) -> Event {
    Event::ProcessFinished {
        outcome: ProcessOutcome::Completed {
            status: Some(status),
            stdout: stdout.as_bytes().to_vec(),
            stderr: stderr.as_bytes().to_vec(),
        },
    }
}

fn launch_failed() -> Event {
    Event::ProcessFinished { outcome: ProcessOutcome::LaunchFailed }
}

fn chosen(path: &str) -> Event {
    Event::DirectoryDialogClosed { accepted: true, path: Some(path.to_string()) }
}

fn selected(tools: ToolTable) -> AppState {
    AppState::new(tools).step(chosen(PROJECT)).0
}

fn analysed(tools: ToolTable) -> AppState {
    let s = selected(tools).step(Event::AnalysisRequested { filters: only_warning() }).0;
    s.step(finished(0, "", "")).0
}

fn through(state: AppState, events: Vec<Event>) -> AppState {
    let mut state = state;
    for event in events {
        state = state.step(event).0;
    }
    state
}

fn saving_xml() -> AppState {
    through(analysed(all_tools()), vec![Event::HtmlRequested, finished(0, "", "<results/>")])
}

fn locating_pdf() -> AppState {
    through(analysed(all_tools()), vec![Event::PdfRequested, finished(0, "", "")])
}

fn snapshot(s: &AppState) -> (Option<String>, bool, bool, bool, Stage, Vec<String>) {
    (
        s.path().map(|p| p.to_string()),
        s.html_enabled(),
        s.pdf_enabled(),
        s.install_enabled(),
        s.stage(),
        s.log().clone(),
    )
}

#[test]
fn startup_state_with_every_tool_found() {
    let s = AppState::new(all_tools());
    assert_eq!(s.path(), None);
    assert!(!s.html_enabled());
    assert!(!s.pdf_enabled());
    assert!(!s.install_enabled());
    assert!(s.is_idle());
    assert_eq!(s.stage(), Stage::Idle);
    assert!(s.log().is_empty());
    assert_eq!(s.tools(), all_tools());
}

#[test]
fn install_is_offered_when_a_required_tool_is_missing() {
    assert!(AppState::new(no_browser()).install_enabled());
    let only_chromium_missing =
        ToolTable { cppcheck: true, html_report: true, chrome: true, chromium: false };
    assert!(!AppState::new(only_chromium_missing).install_enabled());
}

#[test]
fn confirmed_selection_is_stored_and_shown() {
    let (s, effects) = AppState::new(all_tools()).step(chosen(PROJECT));
    assert_eq!(s.path(), Some(PROJECT));
    assert_eq!(effects, vec![Effect::ShowSelection { path: PROJECT.to_string() }]);
    assert!(s.log().is_empty());
    assert!(s.is_idle());
}

#[test]
fn reselection_replaces_the_project() {
    let (s, effects) = selected(all_tools()).step(chosen("/home/me/other"));
    assert_eq!(s.path(), Some("/home/me/other"));
    assert_eq!(effects, vec![Effect::ShowSelection { path: "/home/me/other".to_string() }]);
}

#[test]
fn cancelled_selection_leaves_the_project_untouched() {
    let before = selected(all_tools());
    let expected = snapshot(&before);
    let (s, effects) = before
        .step(Event::DirectoryDialogClosed { accepted: false, path: Some("/x".to_string()) });
    assert!(effects.is_empty());
    assert_eq!(snapshot(&s), expected);
    let (s, effects) = s.step(Event::DirectoryDialogClosed { accepted: false, path: None });
    assert!(effects.is_empty());
    assert_eq!(snapshot(&s), expected);
}

#[test]
fn confirmed_selection_without_a_path_changes_nothing() {
    let (s, effects) =
        AppState::new(all_tools()).step(Event::DirectoryDialogClosed { accepted: true, path: None });
    assert!(effects.is_empty());
    assert_eq!(s.path(), None);
}

#[test]
fn analysis_without_a_project_does_nothing() {
    let before = AppState::new(all_tools());
    let expected = snapshot(&before);
    let (s, effects) = before.step(Event::AnalysisRequested { filters: only_warning() });
    assert!(effects.is_empty());
    assert_eq!(snapshot(&s), expected);
    assert!(s.log().is_empty());
}

#[test]
fn analysis_request_runs_the_analyser_on_the_project() {
    let (s, effects) =
        selected(all_tools()).step(Event::AnalysisRequested { filters: only_warning() });
    assert_eq!(
        effects,
        vec![
            log_line("Running cppcheck on /tmp/proj\n"),
            Effect::ShowProgress { progress: Progress::Empty },
            Effect::Run { invocation: command("cppcheck", &["--enable=warning", "/tmp/proj"]) },
        ]
    );
    assert_eq!(s.stage(), Stage::Analysing);
    assert_eq!(s.log(), &vec!["Running cppcheck on /tmp/proj\n".to_string()]);
    assert!(!s.html_enabled());
    assert!(!s.pdf_enabled());
}

#[test]
fn analysis_logs_the_tool_output_verbatim_and_enables_reports() {
    let diagnostic = "[main.c:3]: (style) Unused variable: x\n";
    let s = selected(all_tools()).step(Event::AnalysisRequested { filters: only_warning() }).0;
    let (s, effects) = s.step(finished(0, "Checking main.c ...\n", diagnostic));
    assert_eq!(
        effects,
        vec![
            log_line("Checking main.c ...\n"),
            log_line(diagnostic),
            Effect::ShowProgress { progress: Progress::Complete },
            Effect::EnableReports,
        ]
    );
    assert!(s.html_enabled());
    assert!(s.pdf_enabled());
    assert!(s.is_idle());
    assert_eq!(
        s.log(),
        &vec![
            "Running cppcheck on /tmp/proj\n".to_string(),
            "Checking main.c ...\n".to_string(),
            diagnostic.to_string(),
        ]
    );
}

#[test]
fn analysis_findings_do_not_keep_reports_disabled() {
    let s = selected(all_tools()).step(Event::AnalysisRequested { filters: only_warning() }).0;
    let (s, effects) = s.step(finished(1, "", "error: something\n"));
    assert!(s.html_enabled());
    assert!(s.pdf_enabled());
    assert_eq!(effects.last(), Some(&Effect::EnableReports));
}

#[test]
fn exit_status_makes_no_difference() {
    let start = || selected(all_tools()).step(Event::AnalysisRequested { filters: only_warning() }).0;
    let (a, fa) = start().step(finished(0, "out", "err"));
    let (b, fb) = start().step(finished(42, "out", "err"));
    let (c, fc) = start().step(Event::ProcessFinished {
        outcome: ProcessOutcome::Completed {
            status: None,
            stdout: b"out".to_vec(),
            stderr: b"err".to_vec(),
        },
    });
    assert_eq!(fa, fb);
    assert_eq!(fa, fc);
    assert_eq!(snapshot(&a), snapshot(&b));
    assert_eq!(snapshot(&a), snapshot(&c));
}

#[test]
fn analysis_that_fails_to_launch_leaves_reports_disabled() {
    let s = selected(all_tools()).step(Event::AnalysisRequested { filters: only_warning() }).0;
    let (s, effects) = s.step(launch_failed());
    assert_eq!(effects, vec![Effect::ShowProgress { progress: Progress::Complete }]);
    assert!(!s.html_enabled());
    assert!(!s.pdf_enabled());
    assert!(s.is_idle());
    assert_eq!(s.log(), &vec!["Running cppcheck on /tmp/proj\n".to_string()]);
}

#[test]
fn failed_launch_does_not_take_enabled_reports_away() {
    let s = analysed(all_tools()).step(Event::AnalysisRequested { filters: only_warning() }).0;
    let (s, _) = s.step(launch_failed());
    assert!(s.html_enabled());
    assert!(s.pdf_enabled());
}

#[test]
fn report_actions_are_ignored_while_disabled() {
    let before = selected(all_tools());
    let expected = snapshot(&before);
    let (s, effects) = before.step(Event::HtmlRequested);
    assert!(effects.is_empty());
    let (s, more) = s.step(Event::PdfRequested);
    assert!(more.is_empty());
    assert_eq!(snapshot(&s), expected);
}

#[test]
fn html_request_exports_xml_first() {
    let (s, effects) = analysed(all_tools()).step(Event::HtmlRequested);
    assert_eq!(
        effects,
        vec![
            log_line("Generating HTML report for /tmp/proj\n"),
            Effect::Run {
                invocation: command("cppcheck", &["--xml", "--xml-version=2", "/tmp/proj"]),
            },
        ]
    );
    assert_eq!(s.stage(), Stage::ExportingXml);
}

#[test]
fn xml_is_saved_from_the_diagnostic_channel_byte_for_byte() {
    let s = analysed(all_tools()).step(Event::HtmlRequested).0;
    let stderr = vec![b'<', b'x', 0xff, b'>'];
    let (s, effects) = s.step(Event::ProcessFinished {
        outcome: ProcessOutcome::Completed {
            status: Some(0),
            stdout: b"progress text".to_vec(),
            stderr: stderr.clone(),
        },
    });
    assert_eq!(
        effects,
        vec![Effect::WriteFile { path: "/tmp/proj/cppcheck.xml".to_string(), contents: stderr }]
    );
    assert_eq!(s.stage(), Stage::SavingXml);
}

#[test]
fn xml_export_that_fails_to_launch_ends_the_pipeline() {
    let s = analysed(all_tools()).step(Event::HtmlRequested).0;
    let (s, effects) = s.step(launch_failed());
    assert_eq!(effects, vec![log_line("Error running cppcheck --xml\n")]);
    assert!(s.is_idle());
}

#[test]
fn failed_xml_write_stops_before_rendering() {
    let (s, effects) = saving_xml().step(Event::FileWritten { ok: false });
    assert_eq!(effects, vec![log_line("Failed to write XML report\n")]);
    assert_eq!(s.log().last(), Some(&"Failed to write XML report\n".to_string()));
    assert!(s.is_idle());
    assert!(effects.iter().all(|e| e.expects().is_none()));
}

#[test]
fn nothing_is_rendered_after_a_failed_write() {
    let s = saving_xml().step(Event::FileWritten { ok: false }).0;
    let (s, effects) = s.step(finished(0, "", ""));
    assert!(effects.is_empty());
    assert_eq!(s.log().last(), Some(&"Failed to write XML report\n".to_string()));
}

#[test]
fn written_xml_is_rendered() {
    let (s, effects) = saving_xml().step(Event::FileWritten { ok: true });
    assert_eq!(
        effects,
        vec![Effect::Run {
            invocation: command(
                "cppcheck-htmlreport",
                &[
                    "--file",
                    "/tmp/proj/cppcheck.xml",
                    "--report-dir",
                    "/tmp/proj/html_report",
                    "--source-dir",
                    "/tmp/proj",
                    "--title",
                    "Report - proj",
                ]
            ),
        }]
    );
    assert_eq!(s.stage(), Stage::Rendering);
}

#[test]
fn rendered_report_is_announced_and_opened() {
    let s = saving_xml().step(Event::FileWritten { ok: true }).0;
    let (s, effects) = s.step(finished(0, "ignored", "ignored"));
    assert_eq!(
        effects,
        vec![
            log_line("HTML report saved to /tmp/proj/html_report\n"),
            Effect::OpenUri { uri: "file:///tmp/proj/html_report/index.html".to_string() },
        ]
    );
    assert_eq!(s.stage(), Stage::OpeningHtml);
    let (s, effects) = s.step(Event::UriOpened { failure: None });
    assert!(effects.is_empty());
    assert!(s.is_idle());
}

#[test]
fn renderer_that_fails_to_launch_is_logged() {
    let s = saving_xml().step(Event::FileWritten { ok: true }).0;
    let (s, effects) = s.step(launch_failed());
    assert_eq!(effects, vec![log_line("Error generating HTML report\n")]);
    assert!(s.is_idle());
}

#[test]
fn html_open_failure_is_logged_with_its_reason() {
    let s = through(
        saving_xml(),
        vec![Event::FileWritten { ok: true }, finished(0, "", "")],
    );
    let (s, effects) = s.step(Event::UriOpened { failure: Some("no application".to_string()) });
    assert_eq!(effects, vec![log_line("Failed to open HTML report: no application\n")]);
    assert!(s.is_idle());
}

#[test]
fn pdf_without_a_browser_only_says_so() {
    let before = analysed(no_browser());
    let mut expected = snapshot(&before);
    let (s, effects) = before.step(Event::PdfRequested);
    assert_eq!(effects, vec![log_line("No PDF utility available\n")]);
    expected.5.push("No PDF utility available\n".to_string());
    assert_eq!(snapshot(&s), expected);
    assert!(s.is_idle());
}

#[test]
fn pdf_request_prints_with_the_preferred_browser() {
    let (s, effects) = analysed(all_tools()).step(Event::PdfRequested);
    assert_eq!(
        effects,
        vec![
            log_line("Generating PDF report for /tmp/proj\n"),
            Effect::Run {
                invocation: command(
                    "google-chrome",
                    &[
                        "--headless",
                        "--disable-gpu",
                        "--print-to-pdf=/tmp/proj/report.pdf",
                        "file:///tmp/proj/html_report/index.html",
                    ]
                ),
            },
        ]
    );
    assert_eq!(s.stage(), Stage::Printing);
}

#[test]
fn pdf_request_falls_back_to_chromium() {
    let tools = ToolTable { cppcheck: true, html_report: true, chrome: false, chromium: true };
    let (_, effects) = analysed(tools).step(Event::PdfRequested);
    match &effects[1] {
        Effect::Run { invocation } => assert_eq!(invocation.program, Tool::Chromium.name()),
        other => panic!("unexpected effect {:?}", other),
    }
}

#[test]
fn browser_exit_is_not_taken_for_success() {
    let s = analysed(all_tools()).step(Event::PdfRequested).0;
    let (s, effects) = s.step(finished(0, "", ""));
    assert_eq!(effects, vec![Effect::CheckExists { path: "/tmp/proj/report.pdf".to_string() }]);
    assert_eq!(s.stage(), Stage::LocatingPdf);
}

#[test]
fn browser_that_fails_to_launch_is_logged() {
    let s = analysed(all_tools()).step(Event::PdfRequested).0;
    let (s, effects) = s.step(launch_failed());
    assert_eq!(effects, vec![log_line("Error generating PDF report\n")]);
    assert!(s.is_idle());
}

#[test]
fn absent_pdf_is_reported_and_not_opened() {
    let (s, effects) = locating_pdf().step(Event::ExistenceChecked { exists: false });
    assert_eq!(effects, vec![log_line("PDF report was not generated\n")]);
    assert!(!effects.iter().any(|e| matches!(e, Effect::OpenUri { .. })));
    assert!(s.is_idle());
    let (_, later) = s.step(Event::UriOpened { failure: None });
    assert!(later.is_empty());
}

#[test]
fn present_pdf_is_announced_and_opened() {
    let (s, effects) = locating_pdf().step(Event::ExistenceChecked { exists: true });
    assert_eq!(
        effects,
        vec![
            log_line("PDF report saved to /tmp/proj/report.pdf\n"),
            Effect::OpenUri { uri: "file:///tmp/proj/report.pdf".to_string() },
        ]
    );
    assert_eq!(s.stage(), Stage::OpeningPdf);
    let (s, effects) = s.step(Event::UriOpened { failure: Some("denied".to_string()) });
    assert_eq!(effects, vec![log_line("Failed to open PDF report: denied\n")]);
    assert!(s.is_idle());
}

#[test]
fn install_runs_the_package_manager_on_the_missing_tools() {
    let tools = ToolTable { cppcheck: false, html_report: true, chrome: false, chromium: true };
    let (s, effects) = AppState::new(tools).step(Event::InstallRequested);
    assert_eq!(
        effects,
        vec![
            log_line("Installing missing utilities...\n"),
            Effect::Run {
                invocation: command(
                    "sudo",
                    &["apt-get", "install", "-y", "cppcheck", "google-chrome"]
                ),
            },
        ]
    );
    assert_eq!(s.stage(), Stage::Installing);
    assert!(s.install_enabled());
}

#[test]
fn install_disables_itself_whatever_the_outcome() {
    let start = || AppState::new(no_browser()).step(Event::InstallRequested).0;
    let (s, effects) = start().step(finished(100, "Reading package lists...\n", "E: failed\n"));
    assert_eq!(
        effects,
        vec![
            log_line("Reading package lists...\n"),
            log_line("E: failed\n"),
            Effect::DisableInstall,
        ]
    );
    assert!(!s.install_enabled());
    assert!(s.is_idle());
    let (s, effects) = start().step(launch_failed());
    assert_eq!(effects, vec![Effect::DisableInstall]);
    assert!(!s.install_enabled());
    let (s, effects) = s.step(Event::InstallRequested);
    assert!(effects.is_empty());
    assert!(s.is_idle());
}

#[test]
fn install_is_ignored_when_nothing_is_missing() {
    let (s, effects) = AppState::new(all_tools()).step(Event::InstallRequested);
    assert!(effects.is_empty());
    assert!(s.is_idle());
}

#[test]
fn user_actions_are_ignored_while_waiting() {
    let busy = || selected(all_tools()).step(Event::AnalysisRequested { filters: only_warning() }).0;
    let expected = snapshot(&busy());
    let events = vec![
        chosen("/elsewhere"),
        Event::InstallRequested,
        Event::AnalysisRequested { filters: only_warning() },
        Event::HtmlRequested,
        Event::PdfRequested,
        Event::FileWritten { ok: true },
        Event::ExistenceChecked { exists: true },
        Event::UriOpened { failure: None },
    ];
    for event in events {
        let (s, effects) = busy().step(event);
        assert!(effects.is_empty());
        assert_eq!(snapshot(&s), expected);
    }
}

#[test]
fn results_nobody_waits_for_are_ignored() {
    let expected = snapshot(&analysed(all_tools()));
    let events = vec![
        finished(0, "out", "err"),
        launch_failed(),
        Event::FileWritten { ok: false },
        Event::ExistenceChecked { exists: false },
        Event::UriOpened { failure: Some("x".to_string()) },
    ];
    for event in events {
        let (s, effects) = analysed(all_tools()).step(event);
        assert!(effects.is_empty());
        assert_eq!(snapshot(&s), expected);
    }
}

#[test]
fn only_the_last_effect_asks_for_work() {
    let mut state = AppState::new(no_browser());
    let events = vec![
        Event::InstallRequested,
        finished(0, "", ""),
        chosen(PROJECT),
        Event::AnalysisRequested { filters: only_warning() },
        finished(0, "a", "b"),
        Event::HtmlRequested,
        finished(0, "", "<results/>"),
        Event::FileWritten { ok: true },
        finished(0, "", ""),
        Event::UriOpened { failure: None },
        Event::PdfRequested,
    ];
    for event in events {
        let (next, effects) = state.step(event);
        for effect in effects.iter().rev().skip(1) {
            assert_eq!(effect.expects(), None);
        }
        let asked = effects.last().and_then(|e| e.expects());
        assert_eq!(next.is_idle(), asked.is_none());
        state = next;
    }
    assert!(state.is_idle());
}

#[test]
fn log_only_grows_by_what_the_effects_append() {
    let mut state = AppState::new(all_tools());
    let events = vec![
        chosen(PROJECT),
        Event::AnalysisRequested { filters: only_warning() },
        finished(0, "one", "two"),
        Event::PdfRequested,
        finished(0, "", ""),
        Event::ExistenceChecked { exists: false },
        Event::HtmlRequested,
        launch_failed(),
    ];
    for event in events {
        let before = state.log().clone();
        let (next, effects) = state.step(event);
        let mut expected = before;
        for effect in &effects {
            if let Effect::AppendLog { text } = effect {
                expected.push(text.clone());
            }
        }
        assert_eq!(next.log(), &expected);
        state = next;
    }
    assert_eq!(state.log().len(), 7);
}

#[test]
fn effects_and_events_agree_on_the_kind_of_work() {
    assert_eq!(
        Effect::Run { invocation: command("x", &[]) }.expects(),
        finished(0, "", "").answers()
    );
    assert_eq!(
        Effect::WriteFile { path: String::new(), contents: Vec::new() }.expects(),
        Some(Reply::Write)
    );
    assert_eq!(Event::FileWritten { ok: true }.answers(), Some(Reply::Write));
    assert_eq!(Effect::CheckExists { path: String::new() }.expects(), Some(Reply::Existence));
    assert_eq!(Event::ExistenceChecked { exists: true }.answers(), Some(Reply::Existence));
    assert_eq!(Effect::OpenUri { uri: String::new() }.expects(), Some(Reply::Open));
    assert_eq!(Event::UriOpened { failure: None }.answers(), Some(Reply::Open));
    assert_eq!(log_line("x").expects(), None);
    assert_eq!(Effect::EnableReports.expects(), None);
    assert_eq!(Effect::DisableInstall.expects(), None);
    assert_eq!(Effect::ShowProgress { progress: Progress::Empty }.expects(), None);
    assert_eq!(Effect::ShowSelection { path: String::new() }.expects(), None);
    assert_eq!(Event::HtmlRequested.answers(), None);
    assert_eq!(Event::PdfRequested.answers(), None);
    assert_eq!(Event::InstallRequested.answers(), None);
    assert_eq!(chosen("/x").answers(), None);
}

#[test]
fn end_to_end_analysis_of_a_project_with_an_unused_variable() {
    let diagnostic = "[/tmp/proj/main.c:4]: (style) Unused variable: unused\n";
    let state = AppState::new(all_tools());
    let (state, _) = state.step(chosen("/tmp/proj"));
    let (state, effects) = state.step(Event::AnalysisRequested { filters: only_warning() });
    let invocation = match effects.last() {
        Some(Effect::Run { invocation }) => invocation.clone(),
        other => panic!("unexpected effect {:?}", other),
    };
    assert_eq!(invocation.program, "cppcheck");
    assert_eq!(invocation.args, vec!["--enable=warning".to_string(), "/tmp/proj".to_string()]);
    let (state, _) = state.step(finished(0, "Checking /tmp/proj/main.c ...\n", diagnostic));
    assert!(state.log().contains(&diagnostic.to_string()));
    assert!(state.html_enabled());
    assert!(state.pdf_enabled());
}
