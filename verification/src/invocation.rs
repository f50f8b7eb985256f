//! The command lines of the external tools.

use vstd::prelude::*;
use crate::artifacts::{
    index_uri, pdf_file, report_dir, report_title, spec_index_uri, spec_pdf_file, spec_report_dir,
    spec_report_title, spec_xml_file, xml_file,
};
use crate::severity::SeverityFilters;
use crate::text::{concat2, push_text, views_of};
use crate::tools::{tool_names, Tool};

verus! {

/// A command line: the program to run and the arguments handed to it.
#[derive(Clone, Debug, PartialEq, Eq)]
pub struct Invocation {
    pub program: String,
    pub args: Vec<String>,
}

/// A command line as plain text.
pub struct InvocationView {
    pub program: Seq<char>,
    pub args: Seq<Seq<char>>,
}

impl View for Invocation {
    type V = InvocationView;

    open spec fn view(&self) -> InvocationView {
        InvocationView { program: self.program@, args: views_of(self.args@) }
    }
}

/// The search for `tool` on the search path.
pub open spec fn spec_search(tool: Tool) -> InvocationView {
    InvocationView { program: "which"@, args: seq![tool.spec_name()] }
}

/// The analysis of the project at `path`: the analyser is handed the enable
/// argument, if the filters call for one, and then the project directory.
pub open spec fn spec_analysis(filters: SeverityFilters, path: Seq<char>) -> InvocationView {
    InvocationView {
        program: Tool::Cppcheck.spec_name(),
        args: match filters.spec_enable_argument() {
            Some(enable) => seq![enable, path],
            None => seq![path],
        },
    }
}

/// The analysis of the project at `path` with XML output, version 2.
pub open spec fn spec_xml_export(path: Seq<char>) -> InvocationView {
    InvocationView {
        program: Tool::Cppcheck.spec_name(),
        args: seq!["--xml"@, "--xml-version=2"@, path],
    }
}

/// The rendering of the XML output of the project at `path` as an HTML
/// report, with the project directory as the source root.
pub open spec fn spec_render(path: Seq<char>) -> InvocationView {
    InvocationView {
        program: Tool::HtmlReport.spec_name(),
        args: seq![
            "--file"@,
            spec_xml_file(path),
            "--report-dir"@,
            spec_report_dir(path),
            "--source-dir"@,
            path,
            "--title"@,
            spec_report_title(path),
        ],
    }
}

/// The printing of the HTML report of the project at `path` to PDF by a
/// browser that runs without a window.
pub open spec fn spec_print(browser: Tool, path: Seq<char>) -> InvocationView {
    InvocationView {
        program: browser.spec_name(),
        args: seq![
            "--headless"@,
            "--disable-gpu"@,
            "--print-to-pdf="@ + spec_pdf_file(path),
            spec_index_uri(path),
        ],
    }
}

/// The installation of `missing` by the package manager, with elevated
/// privilege and without questions.
pub open spec fn spec_install(missing: Seq<Tool>) -> InvocationView {
    InvocationView {
        program: "sudo"@,
        args: seq!["apt-get"@, "install"@, "-y"@] + tool_names(missing),
    }
}

/// The command line that searches for `tool` on the search path.
pub fn search(tool: Tool) -> (r: Invocation)
    ensures
        r@ == spec_search(tool),
{
    let mut args: Vec<String> = Vec::new();
    assert(views_of(args@) =~= Seq::empty());
    push_text(&mut args, String::from_str(tool.name()));
    let r = Invocation { program: String::from_str("which"), args };
    assert(r@.args =~= spec_search(tool).args);
    r
}

/// The command line that analyses the project at `path`.
pub fn analysis(filters: &SeverityFilters, path: &str) -> (r: Invocation)
    ensures
        r@ == spec_analysis(*filters, path@),
{
    let mut args: Vec<String> = Vec::new();
    assert(views_of(args@) =~= Seq::empty());
    match filters.enable_argument() {
        Some(enable) => {
            push_text(&mut args, enable);
        },
        None => {},
    }
    push_text(&mut args, String::from_str(path));
    let r = Invocation { program: String::from_str(Tool::Cppcheck.name()), args };
    assert(r@.args =~= spec_analysis(*filters, path@).args);
    r
}

/// The command line that analyses the project at `path` with XML output.
pub fn xml_export(path: &str) -> (r: Invocation)
    ensures
        r@ == spec_xml_export(path@),
{
    let mut args: Vec<String> = Vec::new();
    assert(views_of(args@) =~= Seq::empty());
    push_text(&mut args, String::from_str("--xml"));
    push_text(&mut args, String::from_str("--xml-version=2"));
    push_text(&mut args, String::from_str(path));
    let r = Invocation { program: String::from_str(Tool::Cppcheck.name()), args };
    assert(r@.args =~= spec_xml_export(path@).args);
    r
}

/// The command line that renders the HTML report of the project at `path`.
pub fn render(path: &str) -> (r: Invocation)
    ensures
        r@ == spec_render(path@),
{
    let mut args: Vec<String> = Vec::new();
    assert(views_of(args@) =~= Seq::empty());
    push_text(&mut args, String::from_str("--file"));
    push_text(&mut args, xml_file(path));
    push_text(&mut args, String::from_str("--report-dir"));
    push_text(&mut args, report_dir(path));
    push_text(&mut args, String::from_str("--source-dir"));
    push_text(&mut args, String::from_str(path));
    push_text(&mut args, String::from_str("--title"));
    push_text(&mut args, report_title(path));
    let r = Invocation { program: String::from_str(Tool::HtmlReport.name()), args };
    assert(r@.args =~= spec_render(path@).args);
    r
}

/// The command line that prints the HTML report of the project at `path`
/// to PDF with `browser`.
pub fn print(browser: Tool, path: &str) -> (r: Invocation)
    ensures
        r@ == spec_print(browser, path@),
{
    let mut args: Vec<String> = Vec::new();
    assert(views_of(args@) =~= Seq::empty());
    let target = pdf_file(path);
    push_text(&mut args, String::from_str("--headless"));
    push_text(&mut args, String::from_str("--disable-gpu"));
    push_text(&mut args, concat2("--print-to-pdf=", target.as_str()));
    push_text(&mut args, index_uri(path));
    let r = Invocation { program: String::from_str(browser.name()), args };
    assert(r@.args =~= spec_print(browser, path@).args);
    r
}

/// The command line that installs `missing`.
pub fn install(missing: &Vec<Tool>) -> (r: Invocation)
    ensures
        r@ == spec_install(missing@),
{
    let mut args: Vec<String> = Vec::new();
    assert(views_of(args@) =~= Seq::empty());
    push_text(&mut args, String::from_str("apt-get"));
    push_text(&mut args, String::from_str("install"));
    push_text(&mut args, String::from_str("-y"));
    let ghost fixed = views_of(args@);
    let mut i: usize = 0;
    while i < missing.len()
        invariant
            i <= missing.len(),
            fixed == seq!["apt-get"@, "install"@, "-y"@],
            views_of(args@) == fixed + tool_names(missing@.take(i as int)),
        decreases missing.len() - i,
    {
        push_text(&mut args, String::from_str(missing[i].name()));
        assert(tool_names(missing@.take(i as int + 1)) =~= tool_names(missing@.take(i as int)).push(
            missing@[i as int].spec_name(),
        ));
        assert(views_of(args@) =~= fixed + tool_names(missing@.take(i as int + 1)));
        i = i + 1;
    }
    assert(missing@.take(missing.len() as int) == missing@);
    Invocation { program: String::from_str("sudo"), args }
}

} // verus!
