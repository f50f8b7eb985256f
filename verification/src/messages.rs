//! The lines that the front-end writes to its log.

use vstd::prelude::*;
use crate::artifacts::{pdf_file, report_dir, spec_pdf_file, spec_report_dir};
use crate::text::concat3;

verus! {

/// Announces the installation of the missing tools.
pub open spec fn spec_installing() -> Seq<char> {
    "Installing missing utilities...\n"@
}

/// Announces the analysis of the project at `path`.
pub open spec fn spec_running(path: Seq<char>) -> Seq<char> {
    "Running cppcheck on "@ + path + "\n"@
}

/// Announces the rendering of the HTML report of the project at `path`.
pub open spec fn spec_generating_html(path: Seq<char>) -> Seq<char> {
    "Generating HTML report for "@ + path + "\n"@
}

/// Says that the analyser could not be started for its XML output.
pub open spec fn spec_xml_export_failed() -> Seq<char> {
    "Error running cppcheck --xml\n"@
}

/// Says that the XML output could not be written to its file.
pub open spec fn spec_xml_write_failed() -> Seq<char> {
    "Failed to write XML report\n"@
}

/// Says that the report renderer could not be started.
pub open spec fn spec_render_failed() -> Seq<char> {
    "Error generating HTML report\n"@
}

/// Says where the HTML report of the project at `path` was saved.
pub open spec fn spec_html_saved(path: Seq<char>) -> Seq<char> {
    "HTML report saved to "@ + spec_report_dir(path) + "\n"@
}

/// Says that the HTML report could not be opened, and why.
pub open spec fn spec_html_open_failed(reason: Seq<char>) -> Seq<char> {
    "Failed to open HTML report: "@ + reason + "\n"@
}

/// Announces the printing of the report of the project at `path` to PDF.
pub open spec fn spec_generating_pdf(path: Seq<char>) -> Seq<char> {
    "Generating PDF report for "@ + path + "\n"@
}

/// Says that no browser able to print to PDF was found at startup.
pub open spec fn spec_no_pdf_tool() -> Seq<char> {
    "No PDF utility available\n"@
}

/// Says that the browser could not be started.
pub open spec fn spec_print_failed() -> Seq<char> {
    "Error generating PDF report\n"@
}

/// Says that the browser ran and left no PDF behind.
pub open spec fn spec_pdf_absent() -> Seq<char> {
    "PDF report was not generated\n"@
}

/// Says where the PDF export of the project at `path` was saved.
pub open spec fn spec_pdf_saved(path: Seq<char>) -> Seq<char> {
    "PDF report saved to "@ + spec_pdf_file(path) + "\n"@
}

/// Says that the PDF export could not be opened, and why.
pub open spec fn spec_pdf_open_failed(reason: Seq<char>) -> Seq<char> {
    "Failed to open PDF report: "@ + reason + "\n"@
}

/// Announces the installation of the missing tools.
pub fn installing() -> (r: String)
    ensures
        r@ == spec_installing(),
{
    String::from_str("Installing missing utilities...\n")
}

/// Announces the analysis of the project at `path`.
pub fn running(path: &str) -> (r: String)
    ensures
        r@ == spec_running(path@),
{
    concat3("Running cppcheck on ", path, "\n")
}

/// Announces the rendering of the HTML report of the project at `path`.
pub fn generating_html(path: &str) -> (r: String)
    ensures
        r@ == spec_generating_html(path@),
{
    concat3("Generating HTML report for ", path, "\n")
}

/// Says that the analyser could not be started for its XML output.
pub fn xml_export_failed() -> (r: String)
    ensures
        r@ == spec_xml_export_failed(),
{
    String::from_str("Error running cppcheck --xml\n")
}

/// Says that the XML output could not be written to its file.
pub fn xml_write_failed() -> (r: String)
    ensures
        r@ == spec_xml_write_failed(),
{
    String::from_str("Failed to write XML report\n")
}

/// Says that the report renderer could not be started.
pub fn render_failed() -> (r: String)
    ensures
        r@ == spec_render_failed(),
{
    String::from_str("Error generating HTML report\n")
}

/// Says where the HTML report of the project at `path` was saved.
pub fn html_saved(path: &str) -> (r: String)
    ensures
        r@ == spec_html_saved(path@),
{
    let dir = report_dir(path);
    concat3("HTML report saved to ", dir.as_str(), "\n")
}

/// Says that the HTML report could not be opened, and why.
pub fn html_open_failed(reason: &str) -> (r: String)
    ensures
        r@ == spec_html_open_failed(reason@),
{
    concat3("Failed to open HTML report: ", reason, "\n")
}

/// Announces the printing of the report of the project at `path` to PDF.
pub fn generating_pdf(path: &str) -> (r: String)
    ensures
        r@ == spec_generating_pdf(path@),
{
    concat3("Generating PDF report for ", path, "\n")
}

/// Says that no browser able to print to PDF was found at startup.
pub fn no_pdf_tool() -> (r: String)
    ensures
        r@ == spec_no_pdf_tool(),
{
    String::from_str("No PDF utility available\n")
}

/// Says that the browser could not be started.
pub fn print_failed() -> (r: String)
    ensures
        r@ == spec_print_failed(),
{
    String::from_str("Error generating PDF report\n")
}

/// Says that the browser ran and left no PDF behind.
pub fn pdf_absent() -> (r: String)
    ensures
        r@ == spec_pdf_absent(),
{
    String::from_str("PDF report was not generated\n")
}

/// Says where the PDF export of the project at `path` was saved.
pub fn pdf_saved(path: &str) -> (r: String)
    ensures
        r@ == spec_pdf_saved(path@),
{
    let file = pdf_file(path);
    concat3("PDF report saved to ", file.as_str(), "\n")
}

/// Says that the PDF export could not be opened, and why.
pub fn pdf_open_failed(reason: &str) -> (r: String)
    ensures
        r@ == spec_pdf_open_failed(reason@),
{
    concat3("Failed to open PDF report: ", reason, "\n")
}

} // verus!
