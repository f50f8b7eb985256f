use cppcheck_gui::messages::{
    generating_html, generating_pdf, html_open_failed, html_saved, installing, no_pdf_tool,
    pdf_absent, pdf_open_failed, pdf_saved, print_failed, render_failed, running,
    xml_export_failed, xml_write_failed,
};

#[test]
fn announcements_name_the_project() {
    assert_eq!(running("/tmp/proj"), "Running cppcheck on /tmp/proj\n");
    assert_eq!(generating_html("/tmp/proj"), "Generating HTML report for /tmp/proj\n");
    assert_eq!(generating_pdf("/tmp/proj"), "Generating PDF report for /tmp/proj\n");
    assert_eq!(installing(), "Installing missing utilities...\n");
}

#[test]
fn confirmations_name_the_artifact() {
    assert_eq!(html_saved("/tmp/proj"), "HTML report saved to /tmp/proj/html_report\n");
    assert_eq!(pdf_saved("/tmp/proj"), "PDF report saved to /tmp/proj/report.pdf\n");
}

#[test]
fn each_failure_has_its_own_line() {
    let lines = vec![
        xml_export_failed(),
        xml_write_failed(),
        render_failed(),
        no_pdf_tool(),
        print_failed(),
        pdf_absent(),
    ];
    assert_eq!(
        lines,
        vec![
            "Error running cppcheck --xml\n",
            "Failed to write XML report\n",
            "Error generating HTML report\n",
            "No PDF utility available\n",
            "Error generating PDF report\n",
            "PDF report was not generated\n",
        ]
    );
    for i in 0..lines.len() {
        for j in 0..i {
            assert_ne!(lines[i], lines[j]);
        }
    }
}

#[test]
fn open_failures_carry_the_reason() {
    assert_eq!(html_open_failed("no handler"), "Failed to open HTML report: no handler\n");
    assert_eq!(pdf_open_failed("no handler"), "Failed to open PDF report: no handler\n");
}
