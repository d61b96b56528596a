use process_stream::update::{both_pipes, captured_text, CaptureError, ProcessUpdate, Route};

fn text(value: &str) -> String {
    value.to_string()
}

#[test]
fn a_line_of_standard_output_is_a_stdout_update() {
    assert_eq!(ProcessUpdate::from_stdout(Ok(text("a"))), ProcessUpdate::Stdout(text("a")));
    assert_eq!(ProcessUpdate::from_stdout(Ok(text(""))), ProcessUpdate::Stdout(text("")));
}

#[test]
fn a_line_of_standard_error_is_a_stderr_update() {
    assert_eq!(ProcessUpdate::from_stderr(Ok(text("a"))), ProcessUpdate::Stderr(text("a")));
}

#[test]
fn a_failed_read_is_an_error_update_on_either_pipe() {
    assert_eq!(
        ProcessUpdate::from_stdout(Err(text("broken pipe"))),
        ProcessUpdate::Error(text("io: broken pipe"))
    );
    assert_eq!(
        ProcessUpdate::from_stderr(Err(text("broken pipe"))),
        ProcessUpdate::Error(text("io: broken pipe"))
    );
    assert_eq!(ProcessUpdate::from_stdout(Err(text(""))), ProcessUpdate::Error(text("io: ")));
}

#[test]
fn the_wait_gives_the_exit_code_in_decimal() {
    assert_eq!(ProcessUpdate::from_wait(Ok(Ok(Some(0)))), ProcessUpdate::Exit(text("0")));
    assert_eq!(ProcessUpdate::from_wait(Ok(Ok(Some(65)))), ProcessUpdate::Exit(text("65")));
    assert_eq!(ProcessUpdate::from_wait(Ok(Ok(Some(-9)))), ProcessUpdate::Exit(text("-9")));
}

#[test]
fn a_wait_without_a_code_is_an_error() {
    assert_eq!(
        ProcessUpdate::from_wait(Ok(Ok(None))),
        ProcessUpdate::Error(text("Unable to get exit code"))
    );
}

#[test]
fn a_wait_that_failed_is_an_error() {
    assert_eq!(
        ProcessUpdate::from_wait(Ok(Err(text("no child")))),
        ProcessUpdate::Error(text("no child"))
    );
    assert_eq!(
        ProcessUpdate::from_wait(Err(text("task panicked"))),
        ProcessUpdate::Error(text("task panicked"))
    );
}

#[test]
fn an_update_lends_its_text() {
    assert_eq!(*ProcessUpdate::Stdout(text("o")), "o");
    assert_eq!(*ProcessUpdate::Stderr(text("e")), "e");
    assert_eq!(*ProcessUpdate::Exit(text("1")), "1");
    assert_eq!(*ProcessUpdate::Error(text("x")), "x");
    assert_eq!(ProcessUpdate::Stdout(text("four")).len(), 4);
}

#[test]
fn clone_keeps_an_update() {
    for update in [
        ProcessUpdate::Stdout(text("o")),
        ProcessUpdate::Stderr(text("e")),
        ProcessUpdate::Exit(text("1")),
        ProcessUpdate::Error(text("x")),
    ] {
        assert_eq!(update.clone(), update);
    }
}

#[test]
fn lines_of_standard_output_are_parsed_unless_empty() {
    assert_eq!(ProcessUpdate::Stdout(text("CompileSwift x")).route(), Route::Parse(text("CompileSwift x")));
    assert_eq!(ProcessUpdate::Stdout(text(" ")).route(), Route::Parse(text(" ")));
    assert_eq!(ProcessUpdate::Stdout(text("")).route(), Route::Skip);
}

#[test]
fn exits_and_errors_are_passed_on() {
    assert_eq!(ProcessUpdate::Exit(text("0")).route(), Route::Exit(text("0")));
    assert_eq!(ProcessUpdate::Error(text("io: x")).route(), Route::Error(text("io: x")));
    assert_eq!(ProcessUpdate::Stderr(text("warning")).route(), Route::Error(text("warning")));
    assert_eq!(ProcessUpdate::Stderr(text("")).route(), Route::Error(text("")));
}

#[test]
fn a_success_gives_the_text_of_standard_output() {
    assert_eq!(
        captured_text(true, b"A = 1\nB = 2\n".to_vec(), b"noise".to_vec()),
        Ok(text("A = 1\nB = 2\n"))
    );
    assert_eq!(captured_text(true, Vec::new(), Vec::new()), Ok(text("")));
    assert_eq!(
        captured_text(true, "\u{e9}t\u{e9}".as_bytes().to_vec(), b"\xff".to_vec()),
        Ok(text("\u{e9}t\u{e9}"))
    );
}

#[test]
fn a_failure_gives_the_text_of_standard_error() {
    assert_eq!(
        captured_text(false, b"A = 1\n".to_vec(), b"xcodebuild: error".to_vec()),
        Err(CaptureError::Failed(text("xcodebuild: error")))
    );
    assert_eq!(
        captured_text(false, b"\xff".to_vec(), Vec::new()),
        Err(CaptureError::Failed(text("")))
    );
}

#[test]
fn a_stream_that_is_no_utf8_is_reported_as_such() {
    let bad = b"ok\xc3(".to_vec();
    let message = String::from_utf8(bad.clone()).unwrap_err().to_string();
    assert_eq!(message, "invalid utf-8 sequence of 1 bytes from index 2");
    assert_eq!(
        captured_text(true, bad.clone(), b"fine".to_vec()),
        Err(CaptureError::NotText(message.clone()))
    );
    assert_eq!(
        captured_text(false, b"fine".to_vec(), bad),
        Err(CaptureError::NotText(message))
    );
}

#[test]
fn both_pipes_are_needed() {
    assert_eq!(both_pipes(Some(1u8), Some("e")), Ok((1u8, "e")));
    let complaint = "child did not have a handle to stdout".to_string();
    assert_eq!(both_pipes(None::<u8>, Some("e")), Err(complaint.clone()));
    assert_eq!(both_pipes(Some(1u8), None::<&str>), Err(complaint.clone()));
    assert_eq!(both_pipes(None::<u8>, None::<&str>), Err(complaint));
}
