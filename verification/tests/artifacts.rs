use cppcheck_gui::artifacts::{
    index_uri, pdf_file, pdf_uri, report_dir, report_title, title_for, xml_file,
};

#[test]
fn artifacts_live_inside_the_project_directory() {
    assert_eq!(xml_file("/tmp/proj"), "/tmp/proj/cppcheck.xml");
    assert_eq!(report_dir("/tmp/proj"), "/tmp/proj/html_report");
    assert_eq!(pdf_file("/tmp/proj"), "/tmp/proj/report.pdf");
}

#[test]
fn uris_use_the_file_scheme() {
    assert_eq!(index_uri("/tmp/proj"), "file:///tmp/proj/html_report/index.html");
    assert_eq!(pdf_uri("/tmp/proj"), "file:///tmp/proj/report.pdf");
}

#[test]
fn artifact_paths_take_the_directory_as_it_is() {
    assert_eq!(xml_file(""), "/cppcheck.xml");
    assert_eq!(report_dir("rel/dir"), "rel/dir/html_report");
    assert_eq!(pdf_file("/with space"), "/with space/report.pdf");
}

#[test]
fn title_names_the_directory() {
    assert_eq!(title_for(Some("proj")), "Report - proj");
    assert_eq!(title_for(Some("")), "Report - ");
}

#[test]
fn title_of_a_nameless_directory() {
    assert_eq!(title_for(None), "Report - project");
}

#[test]
fn report_title_takes_the_final_component() {
    assert_eq!(report_title("/tmp/proj"), "Report - proj");
    assert_eq!(report_title("/home/user/my code"), "Report - my code");
    assert_eq!(report_title("relative"), "Report - relative");
}

#[test]
fn report_title_of_a_path_without_final_component() {
    assert_eq!(report_title("/"), "Report - project");
    assert_eq!(report_title("/tmp/.."), "Report - project");
    assert_eq!(report_title(""), "Report - project");
}
