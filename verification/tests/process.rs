use cppcheck_gui::process::{read_captured, ProcessOutcome};

#[test]
fn launched_tells_a_started_tool_from_one_that_could_not_start() {
    let done = ProcessOutcome::Completed { status: Some(3), stdout: Vec::new(), stderr: Vec::new() };
    assert!(done.launched());
    let killed = ProcessOutcome::Completed { status: None, stdout: Vec::new(), stderr: Vec::new() };
    assert!(killed.launched());
    assert!(!ProcessOutcome::LaunchFailed.launched());
}

#[test]
fn valid_output_reads_verbatim() {
    assert_eq!(read_captured(&b"Checking main.c ...\n".to_vec()), "Checking main.c ...\n");
    assert_eq!(read_captured(&"Gr\u{fc}\u{df}e \u{2713}".as_bytes().to_vec()), "Gr\u{fc}\u{df}e \u{2713}");
    assert_eq!(read_captured(&Vec::new()), "");
}

#[test]
fn invalid_output_is_repaired() {
    assert_eq!(read_captured(&vec![b'a', 0xff, b'b']), "a\u{fffd}b");
    assert_eq!(read_captured(&vec![0xc3]), "\u{fffd}");
}
