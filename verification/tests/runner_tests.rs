use video_prep::runner::command_display;
use video_prep::runner::interpret_process_result;
use video_prep::runner::FFmpegError;
use video_prep::runner::SpawnOutcome;

#[test]
fn command_display_joins_program_and_arguments() {
    let args = vec!["-v".to_string(), "quiet".to_string(), "in.mp4".to_string()];
    assert_eq!(command_display("/bin/probe", &args), "/bin/probe -v quiet in.mp4");
    assert_eq!(command_display("/bin/probe", &Vec::new()), "/bin/probe ");
}

#[test]
fn timeout_is_never_a_partial_success() {
    let r = interpret_process_result("probe in.mp4".to_string(), 30_000, SpawnOutcome::TimedOut);
    match r {
        Ok(_) => panic!("a timed-out process must not produce an outcome"),
        Err(FFmpegError::TimedOut { command, timeout_ms }) => {
            assert_eq!(command, "probe in.mp4");
            assert_eq!(timeout_ms, 30_000);
        }
        Err(other) => panic!("expected TimedOut, got {other:?}"),
    }
}

#[test]
fn timeout_message_reports_seconds() {
    let e = FFmpegError::TimedOut { command: "probe in.mp4".to_string(), timeout_ms: 30_000 };
    assert_eq!(e.message(), "Command `probe in.mp4` exceeded timeout of 30s");
}

#[test]
fn spawn_failure_keeps_command_and_cause() {
    let outcome = SpawnOutcome::SpawnFailed { error: "No such file or directory".to_string() };
    let err = interpret_process_result("probe in.mp4".to_string(), 30_000, outcome).unwrap_err();
    match &err {
        FFmpegError::SpawnFailed { command, source } => {
            assert_eq!(command, "probe in.mp4");
            assert_eq!(source, "No such file or directory");
        }
        other => panic!("expected SpawnFailed, got {other:?}"),
    }
    assert_eq!(
        err.message(),
        "Failed to start command `probe in.mp4`: No such file or directory"
    );
}

#[test]
fn nonzero_exit_carries_captured_streams() {
    let outcome = SpawnOutcome::Completed {
        success: false,
        code: Some(1),
        stdout: "partial".to_string(),
        stderr: "  input not found\n".to_string(),
    };
    let err = interpret_process_result("probe in.mp4".to_string(), 30_000, outcome).unwrap_err();
    match &err {
        FFmpegError::Failed { command, status_code, stdout, stderr } => {
            assert_eq!(command, "probe in.mp4");
            assert_eq!(*status_code, 1);
            assert_eq!(stdout, "partial");
            assert_eq!(stderr, "  input not found\n");
        }
        other => panic!("expected Failed, got {other:?}"),
    }
    assert_eq!(
        err.message(),
        "Command `probe in.mp4` failed with exit code 1: input not found"
    );
}

#[test]
fn failure_message_trims_unicode_whitespace() {
    let outcome = SpawnOutcome::Completed {
        success: false,
        code: Some(2),
        stdout: String::new(),
        stderr: "\u{a0} codec missing \u{3000}\n".to_string(),
    };
    let err = interpret_process_result("probe in.mp4".to_string(), 30_000, outcome).unwrap_err();
    assert_eq!(
        err.message(),
        "Command `probe in.mp4` failed with exit code 2: codec missing"
    );
}

#[test]
fn missing_exit_code_becomes_sentinel() {
    let outcome = SpawnOutcome::Completed {
        success: false,
        code: None,
        stdout: String::new(),
        stderr: "killed".to_string(),
    };
    let err = interpret_process_result("probe in.mp4".to_string(), 30_000, outcome).unwrap_err();
    match &err {
        FFmpegError::Failed { status_code, .. } => assert_eq!(*status_code, -1),
        other => panic!("expected Failed, got {other:?}"),
    }
    assert_eq!(
        err.message(),
        "Command `probe in.mp4` failed with exit code -1: killed"
    );
}

#[test]
fn zero_exit_produces_the_outcome() {
    let outcome = SpawnOutcome::Completed {
        success: true,
        code: Some(0),
        stdout: "{}".to_string(),
        stderr: String::new(),
    };
    let out = interpret_process_result("probe in.mp4".to_string(), 30_000, outcome)
        .expect("zero exit is a success");
    assert_eq!(out.command, "probe in.mp4");
    assert_eq!(out.status_code, 0);
    assert_eq!(out.stdout, "{}");
    assert_eq!(out.stderr, "");
}
