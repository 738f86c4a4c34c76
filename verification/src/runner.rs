//! Process runner: the decision core for invoking an external binary under
//! a timeout. The host performs the spawn/await and reports what happened;
//! the classification of that outcome into success or a precise error
//! variant, and every diagnostic message, is decided and verified here.

use vstd::prelude::*;
use crate::text::i32_to_string;
use crate::text::join_with;
use crate::text::spec_i64_dec;
use crate::text::spec_join;
use crate::text::spec_trim;
use crate::text::spec_u64_dec;
use crate::text::trim_spaces;
use crate::text::u64_to_string;
use crate::text::views_of;

verus! {

/// A completed successful invocation: the command line that ran, its exit
/// code, and both captured streams (UTF-8, lossily decoded by the host).
#[derive(Clone, Debug)]
pub struct FFmpegCommandOutput {
    pub command: String,
    pub status_code: i32,
    pub stdout: String,
    pub stderr: String,
}

/// Every way an invocation can fail, each carrying the context needed to
/// diagnose it without re-running.
#[derive(Debug)]
pub enum FFmpegError {
    BinaryNotFound { binary: String, searched_paths: Vec<String> },
    SpawnFailed { command: String, source: String },
    Failed { command: String, status_code: i32, stdout: String, stderr: String },
    TimedOut { command: String, timeout_ms: u64 },
}

/// What the host observed of one spawned process: it never finished in
/// time, it could not be started, or it completed with a status and its
/// captured streams.
#[derive(Debug)]
pub enum SpawnOutcome {
    TimedOut,
    SpawnFailed { error: String },
    Completed { success: bool, code: Option<i32>, stdout: String, stderr: String },
}

/// The exit code reported to callers: the OS code, or -1 when the process
/// was terminated without one.
pub open spec fn spec_code_or_sentinel(code: Option<i32>) -> int {
    match code {
        Some(c) => c as int,
        None => -1,
    }
}

/// The human-readable command line: the program and its arguments joined
/// by single spaces.
pub open spec fn spec_command_display(program: Seq<char>, args: Seq<Seq<char>>) -> Seq<char> {
    program + " "@ + spec_join(args, " "@)
}

/// Renders the command line shown in every outcome and diagnostic.
pub fn command_display(program: &str, args: &Vec<String>) -> (r: String)
    ensures
        r@ == spec_command_display(program@, views_of(args@)),
{
    let mut r = program.to_owned();
    r.append(" ");
    let joined = join_with(args, " ");
    r.append(joined.as_str());
    r
}

/// Classifies what the host observed: a timeout and a spawn failure map to
/// their error variants, a completed process is a success only on a zero
/// exit status, and a nonzero exit carries code and both streams. Every
/// variant keeps the command string.
pub fn interpret_process_result(command: String, timeout_ms: u64, outcome: SpawnOutcome) -> (r:
    Result<FFmpegCommandOutput, FFmpegError>)
    ensures
        outcome is TimedOut ==> r == Err::<FFmpegCommandOutput, FFmpegError>(
            FFmpegError::TimedOut { command, timeout_ms },
        ),
        outcome matches SpawnOutcome::SpawnFailed { error } ==> r == Err::<
            FFmpegCommandOutput,
            FFmpegError,
        >(FFmpegError::SpawnFailed { command, source: error }),
        outcome matches SpawnOutcome::Completed { success, code, stdout, stderr } ==> {
            &&& success ==> r == Ok::<FFmpegCommandOutput, FFmpegError>(
                FFmpegCommandOutput {
                    command,
                    status_code: spec_code_or_sentinel(code) as i32,
                    stdout,
                    stderr,
                },
            )
            &&& !success ==> r == Err::<FFmpegCommandOutput, FFmpegError>(
                FFmpegError::Failed {
                    command,
                    status_code: spec_code_or_sentinel(code) as i32,
                    stdout,
                    stderr,
                },
            )
        },
{
    match outcome {
        SpawnOutcome::TimedOut => Err(FFmpegError::TimedOut { command, timeout_ms }),
        SpawnOutcome::SpawnFailed { error } => Err(
            FFmpegError::SpawnFailed { command, source: error },
        ),
        SpawnOutcome::Completed { success, code, stdout, stderr } => {
            let status_code: i32 = match code {
                Some(c) => c,
                None => -1,
            };
            if success {
                Ok(FFmpegCommandOutput { command, status_code, stdout, stderr })
            } else {
                Err(FFmpegError::Failed { command, status_code, stdout, stderr })
            }
        },
    }
}

/// The diagnostic line each error renders to.
pub open spec fn spec_error_message(e: FFmpegError) -> Seq<char> {
    match e {
        FFmpegError::BinaryNotFound { binary, searched_paths } => "Unable to locate "@ + binary@
            + " binary. Searched: "@ + spec_join(views_of(searched_paths@), ", "@),
        FFmpegError::SpawnFailed { command, source } => "Failed to start command `"@ + command@
            + "`: "@ + source@,
        FFmpegError::Failed { command, status_code, stdout: _, stderr } => "Command `"@ + command@
            + "` failed with exit code "@ + spec_i64_dec(status_code as int) + ": "@ + spec_trim(
            stderr@,
        ),
        FFmpegError::TimedOut { command, timeout_ms } => "Command `"@ + command@
            + "` exceeded timeout of "@ + spec_u64_dec((timeout_ms / 1000) as nat) + "s"@,
    }
}

impl FFmpegError {
    /// Renders the diagnostic line for this error.
    pub fn message(&self) -> (r: String)
        ensures
            r@ == spec_error_message(*self),
    {
        match self {
            FFmpegError::BinaryNotFound { binary, searched_paths } => {
                let mut r = "Unable to locate ".to_owned();
                r.append(binary.as_str());
                r.append(" binary. Searched: ");
                let joined = join_with(searched_paths, ", ");
                r.append(joined.as_str());
                r
            },
            FFmpegError::SpawnFailed { command, source } => {
                let mut r = "Failed to start command `".to_owned();
                r.append(command.as_str());
                r.append("`: ");
                r.append(source.as_str());
                r
            },
            FFmpegError::Failed { command, status_code, stdout: _, stderr } => {
                let mut r = "Command `".to_owned();
                r.append(command.as_str());
                r.append("` failed with exit code ");
                let code_str = i32_to_string(*status_code);
                r.append(code_str.as_str());
                r.append(": ");
                r.append(trim_spaces(stderr.as_str()));
                r
            },
            FFmpegError::TimedOut { command, timeout_ms } => {
                let mut r = "Command `".to_owned();
                r.append(command.as_str());
                r.append("` exceeded timeout of ");
                let secs = u64_to_string(*timeout_ms / 1000);
                r.append(secs.as_str());
                r.append("s");
                r
            },
        }
    }
}

} // verus!
