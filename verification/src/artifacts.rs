//! Where the artifacts of a project live: the analyser's XML output, the
//! rendered report, the PDF export, and the title the report carries.
//!
//! All of them are derived from the selected project directory alone.

use vstd::prelude::*;
use crate::text::{concat2, concat3, option_view};

verus! {

/// The file that holds the analyser's XML output for the project at `path`.
pub open spec fn spec_xml_file(path: Seq<char>) -> Seq<char> {
    path + "/cppcheck.xml"@
}

/// The directory into which the HTML report of the project at `path` is rendered.
pub open spec fn spec_report_dir(path: Seq<char>) -> Seq<char> {
    path + "/html_report"@
}

/// The URI of the index document of the HTML report.
pub open spec fn spec_index_uri(path: Seq<char>) -> Seq<char> {
    "file://"@ + spec_report_dir(path) + "/index.html"@
}

/// The file that holds the PDF export of the report.
pub open spec fn spec_pdf_file(path: Seq<char>) -> Seq<char> {
    path + "/report.pdf"@
}

/// The URI of the PDF export of the report.
pub open spec fn spec_pdf_uri(path: Seq<char>) -> Seq<char> {
    "file://"@ + spec_pdf_file(path)
}

/// The title of a report on a project whose directory is called `name`.
/// A project whose directory has no name is called `project`.
pub open spec fn spec_title_for(name: Option<Seq<char>>) -> Seq<char> {
    "Report - "@ + match name {
        Some(n) => n,
        None => "project"@,
    }
}

/// The final component of `path` as `std::path::Path::file_name` gives it,
/// absent where the path has none or it is not valid Unicode.
pub uninterp spec fn final_component(path: Seq<char>) -> Option<Seq<char>>;

/// The title of the report on the project at `path`.
pub open spec fn spec_report_title(path: Seq<char>) -> Seq<char> {
    spec_title_for(final_component(path))
}

/// Calls `std::path::Path::file_name` on `path` and hands the name back as
/// text. Nothing is claimed of the result beyond its being the value that
/// `final_component` stands for.
#[verifier::external_body]
fn final_component_of(path: &str) -> (r: Option<String>)
    ensures
        option_view(r) == final_component(path@),
{
    match std::path::Path::new(path).file_name() {
        Some(name) => match name.to_str() {
            Some(text) => Some(text.to_string()),
            None => None,
        },
        None => None,
    }
}

/// The file that holds the analyser's XML output for the project at `path`.
pub fn xml_file(path: &str) -> (r: String)
    ensures
        r@ == spec_xml_file(path@),
{
    concat2(path, "/cppcheck.xml")
}

/// The directory into which the HTML report of the project at `path` is rendered.
pub fn report_dir(path: &str) -> (r: String)
    ensures
        r@ == spec_report_dir(path@),
{
    concat2(path, "/html_report")
}

/// The URI of the index document of the HTML report.
pub fn index_uri(path: &str) -> (r: String)
    ensures
        r@ == spec_index_uri(path@),
{
    let dir = report_dir(path);
    concat3("file://", dir.as_str(), "/index.html")
}

/// The file that holds the PDF export of the report.
pub fn pdf_file(path: &str) -> (r: String)
    ensures
        r@ == spec_pdf_file(path@),
{
    concat2(path, "/report.pdf")
}

/// The URI of the PDF export of the report.
pub fn pdf_uri(path: &str) -> (r: String)
    ensures
        r@ == spec_pdf_uri(path@),
{
    let file = pdf_file(path);
    concat2("file://", file.as_str())
}

/// The title of a report on a project whose directory is called `name`.
pub fn title_for(name: Option<&str>) -> (r: String)
    ensures
        r@ == spec_title_for(
            match name {
                Some(n) => Some(n@),
                None => None,
            },
        ),
{
    match name {
        Some(n) => concat2("Report - ", n),
        None => concat2("Report - ", "project"),
    }
}

/// The title of the report on the project at `path`: it names the final
/// component of the path.
pub fn report_title(path: &str) -> (r: String)
    ensures
        r@ == spec_report_title(path@),
{
    match final_component_of(path) {
        Some(name) => title_for(Some(name.as_str())),
        None => title_for(None),
    }
}

} // verus!
