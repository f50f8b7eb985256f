use cppcheck_gui::invocation::{analysis, install, print, render, search, xml_export, Invocation};
use cppcheck_gui::severity::SeverityFilters;
use cppcheck_gui::tools::Tool;

fn command(program: &str, args: &[&str]) -> Invocation {
    Invocation { program: program.to_string(), args: args.iter().map(|a| a.to_string()).collect() }
}

#[test]
fn search_asks_for_one_tool() {
    assert_eq!(search(Tool::Cppcheck), command("which", &["cppcheck"]));
    assert_eq!(search(Tool::Chromium), command("which", &["chromium-browser"]));
}

#[test]
fn analysis_with_only_warning_enabled() {
    let filters = SeverityFilters { error: true, warning: true, style: false, performance: false };
    assert_eq!(
        analysis(&filters, "/tmp/proj"),
        command("cppcheck", &["--enable=warning", "/tmp/proj"])
    );
}

#[test]
fn analysis_without_optional_levels_has_no_enable_argument() {
    let filters = SeverityFilters { error: true, warning: false, style: false, performance: false };
    assert_eq!(analysis(&filters, "/tmp/proj"), command("cppcheck", &["/tmp/proj"]));
}

#[test]
fn analysis_with_every_level_enabled() {
    let filters = SeverityFilters { error: false, warning: true, style: true, performance: true };
    assert_eq!(
        analysis(&filters, "/src"),
        command("cppcheck", &["--enable=warning,style,performance", "/src"])
    );
}

#[test]
fn xml_export_uses_schema_version_two() {
    assert_eq!(
        xml_export("/tmp/proj"),
        command("cppcheck", &["--xml", "--xml-version=2", "/tmp/proj"])
    );
}

#[test]
fn render_names_file_directories_and_title() {
    assert_eq!(
        render("/tmp/proj"),
        command(
            "cppcheck-htmlreport",
            &[
                "--file",
                "/tmp/proj/cppcheck.xml",
                "--report-dir",
                "/tmp/proj/html_report",
                "--source-dir",
                "/tmp/proj",
                "--title",
                "Report - proj",
            ]
        )
    );
}

#[test]
fn render_of_the_root_directory_uses_the_fallback_title() {
    let r = render("/");
    assert_eq!(r.args[7], "Report - project");
    assert_eq!(r.args[1], "//cppcheck.xml");
}

#[test]
fn print_runs_the_browser_without_a_window() {
    assert_eq!(
        print(Tool::Chrome, "/tmp/proj"),
        command(
            "google-chrome",
            &[
                "--headless",
                "--disable-gpu",
                "--print-to-pdf=/tmp/proj/report.pdf",
                "file:///tmp/proj/html_report/index.html",
            ]
        )
    );
    assert_eq!(print(Tool::Chromium, "/p").program, "chromium-browser");
}

#[test]
fn install_names_exactly_the_missing_tools() {
    assert_eq!(
        install(&vec![Tool::Cppcheck, Tool::Chrome]),
        command("sudo", &["apt-get", "install", "-y", "cppcheck", "google-chrome"])
    );
    assert_eq!(install(&Vec::new()), command("sudo", &["apt-get", "install", "-y"]));
}
