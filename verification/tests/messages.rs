use probe_c_api::{
    CProbeError, CommandOutput, CompileRunOutput, ExitStatus, IoFailure, IoFailureKind,
    NewProbeError,
};

fn output(status: ExitStatus, stdout: &[u8], stderr: &[u8]) -> CommandOutput {
    CommandOutput { status, stdout: stdout.to_vec(), stderr: stderr.to_vec() }
}

#[test]
fn an_exit_status_succeeds_only_with_code_zero() {
    assert!(ExitStatus::from_code(0).success());
    assert!(!ExitStatus::from_code(1).success());
    assert!(!ExitStatus::from_code(-1).success());
    assert!(!ExitStatus::terminated().success());
    assert_eq!(Some(0), ExitStatus::from_code(0).code);
    assert_eq!(None, ExitStatus::terminated().code);
}

#[test]
fn an_exit_status_is_described_in_words() {
    assert_eq!("exit code 0", ExitStatus::from_code(0).describe());
    assert_eq!("exit code -2147483648", ExitStatus::from_code(i32::MIN).describe());
    assert_eq!("terminated by signal", ExitStatus::terminated().describe());
}

#[test]
fn an_output_is_described_with_its_text() {
    assert_eq!(
        "{ status: exit code 1, stdout: out, stderr: err\n }",
        output(ExitStatus::from_code(1), b"out", b"err\n").describe()
    );
    assert_eq!(
        "{ status: terminated by signal, stdout: a\u{fffd}b, stderr:  }",
        output(ExitStatus::terminated(), &[b'a', 0x80, b'b'], b"").describe()
    );
}

#[test]
fn outputs_of_both_phases_are_described_together() {
    let compile = output(ExitStatus::from_code(1), b"", b"bad");
    let failed = CompileRunOutput { compile_output: compile.clone(), run_output: None };
    assert_eq!(
        "probe_c_api::CompileRunOutput{ compile output: { status: exit code 1, stdout: , stderr: bad } \
         run output: None }",
        failed.describe()
    );
    let ok = output(ExitStatus::from_code(0), b"1\n", b"");
    let both = CompileRunOutput { compile_output: ok.clone(), run_output: Some(ok) };
    assert_eq!(
        "probe_c_api::CompileRunOutput{ compile output: { status: exit code 0, stdout: 1\n, stderr:  } \
         run output: { status: exit code 0, stdout: 1\n, stderr:  } }",
        both.describe()
    );
}

#[test]
fn the_text_of_a_run_is_had_only_when_both_phases_succeeded() {
    let ok = output(ExitStatus::from_code(0), "4\n".as_bytes(), b"");
    let bad = output(ExitStatus::from_code(9), "4\n".as_bytes(), b"");
    let both = CompileRunOutput { compile_output: ok.clone(), run_output: Some(ok.clone()) };
    assert_eq!(Ok("4\n".to_string()), both.successful_run_output());
    let not_run = CompileRunOutput { compile_output: bad.clone(), run_output: None };
    assert_eq!(Err(CProbeError::CompileError(bad.clone())), not_run.successful_run_output());
    let run_failed = CompileRunOutput { compile_output: ok.clone(), run_output: Some(bad.clone()) };
    assert_eq!(Err(CProbeError::RunError(ok.clone(), bad)), run_failed.successful_run_output());
    let unicode = output(ExitStatus::from_code(0), "gr\u{fc}\u{df}e \u{1f600}".as_bytes(), b"");
    let both = CompileRunOutput { compile_output: ok, run_output: Some(unicode) };
    assert_eq!(Ok("gr\u{fc}\u{df}e \u{1f600}".to_string()), both.successful_run_output());
}

#[test]
fn construction_errors_say_what_went_wrong() {
    let failure = IoFailure::new(IoFailureKind::NotFound, "No such file or directory");
    let inaccessible = NewProbeError::WorkDirMetadataInaccessible(failure.clone());
    assert_eq!(
        "could not query metadata from the provided work directory",
        inaccessible.description()
    );
    assert_eq!(
        "NewProbeError: fs::metadata returned No such file or directory",
        inaccessible.message()
    );
    assert_eq!(Some(&failure), inaccessible.cause());
    let not_a_directory = NewProbeError::WorkDirNotADirectory("/tmp/foo.txt".to_string());
    assert_eq!("the path in this context must be a directory", not_a_directory.description());
    assert_eq!(
        "NewProbeError: \"/tmp/foo.txt\" is not a directory",
        not_a_directory.message()
    );
    assert_eq!(None, not_a_directory.cause());
}

#[test]
fn probe_errors_say_what_went_wrong() {
    let failure = IoFailure::new(IoFailureKind::PermissionDenied, "Permission denied");
    let compile = output(ExitStatus::from_code(1), b"", b"bad");
    let run = output(ExitStatus::from_code(2), b"oops", b"");

    let error = CProbeError::IoError(failure.clone());
    assert_eq!("I/O error", error.description());
    assert_eq!("I/O error: Permission denied", error.message());
    assert_eq!(Some(&failure), error.cause());
    assert_eq!(error, CProbeError::from(failure));

    let error = CProbeError::CompileError(compile.clone());
    assert_eq!("error when compiling C probe program", error.description());
    assert_eq!(
        "compilation error with output: { status: exit code 1, stdout: , stderr: bad }",
        error.message()
    );
    assert_eq!(None, error.cause());

    let error = CProbeError::RunError(compile, run);
    assert_eq!("error when running C probe program", error.description());
    assert_eq!(
        "test program error with output: { status: exit code 2, stdout: oops, stderr:  }",
        error.message()
    );
    assert_eq!(None, error.cause());

    let error = CProbeError::OtherError("odd".to_string());
    assert_eq!("odd", error.description());
    assert_eq!("odd", error.message());
    assert_eq!(None, error.cause());
    assert_eq!(error, error.clone());
}

#[test]
fn the_message_of_inaccessible_metadata_names_the_query() {
    let error = NewProbeError::WorkDirMetadataInaccessible(IoFailure::new(
        IoFailureKind::Other,
        "boom",
    ));
    assert_eq!("NewProbeError: fs::metadata returned boom", error.message());
}

#[test]
fn probe_errors_are_shown_in_full_for_debugging() {
    let failure = IoFailure::new(IoFailureKind::NotFound, "gone");
    assert_eq!("NotFound", IoFailureKind::NotFound.name());
    assert_eq!("PermissionDenied", IoFailureKind::PermissionDenied.name());
    assert_eq!("Other", IoFailureKind::Other.name());
    assert_eq!("IoFailure { kind: NotFound, message: \"gone\" }", failure.debug_text());
    assert_eq!(
        "IoError{ IoFailure { kind: NotFound, message: \"gone\" } }",
        CProbeError::IoError(failure).debug_text()
    );
    let compile = output(ExitStatus::from_code(1), b"", b"bad");
    let run = output(ExitStatus::from_code(2), b"oops", b"");
    assert_eq!(
        "CompileError{ status: exit code 1, stdout: , stderr: bad }",
        CProbeError::CompileError(compile.clone()).debug_text()
    );
    assert_eq!(
        "RunError{compile_output: { status: exit code 1, stdout: , stderr: bad }\
         run_output: { status: exit code 2, stdout: oops, stderr:  }}",
        CProbeError::RunError(compile, run).debug_text()
    );
    assert_eq!("OtherError{ odd }", CProbeError::OtherError("odd".to_string()).debug_text());
}
