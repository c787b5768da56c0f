//! The executor's decision logic: how the configured command line is handed
//! to the platform command interpreter, and how a child process's exit
//! status is classified.
//!
//! Spawning the child, inheriting its output streams and awaiting it are
//! done outside the library; it receives the interpreter invocation from
//! here and reports back a plain exit status.

use vstd::prelude::*;

verus! {

/// The interpreter invocation for one command run: a program and its
/// arguments, the configured command string passed through as the last one.
pub struct ShellInvocation {
    pub program: String,
    pub args: Vec<String>,
}

/// Build the interpreter invocation for the configured command: `cmd /C`
/// on Windows, `sh -c` everywhere else, so that shell features like pipes
/// and globs inside the command string work.
pub fn shell_invocation(command: &str, windows: bool) -> (r: ShellInvocation)
    ensures
        r.args.deep_view().len() == 2,
        r.args.deep_view()[1] == command@,
        windows ==> r.program@ == "cmd"@ && r.args.deep_view()[0] == "/C"@,
        !windows ==> r.program@ == "sh"@ && r.args.deep_view()[0] == "-c"@,
{
    let program = if windows {
        String::from_str("cmd")
    } else {
        String::from_str("sh")
    };
    let flag = if windows {
        String::from_str("/C")
    } else {
        String::from_str("-c")
    };
    let mut args: Vec<String> = Vec::new();
    args.push(flag);
    args.push(String::from_str(command));
    ShellInvocation { program, args }
}

/// The result of one command run, derived from the child's exit status.
/// A failure is reported to the user but never stops the orchestrator
/// loop: the next trigger runs the command again.
#[derive(Clone, Copy, PartialEq, Eq, Structural, Debug)]
pub enum RunOutcome {
    /// The child exited with status zero.
    Success,
    /// The child exited with a non-zero status.
    Failure,
}

impl RunOutcome {
    /// Classify a child's exit status.
    pub fn from_exit(exit_success: bool) -> (r: RunOutcome)
        ensures
            (r == RunOutcome::Success) == exit_success,
    {
        if exit_success {
            RunOutcome::Success
        } else {
            RunOutcome::Failure
        }
    }

    /// Whether this outcome calls for a failure report to the user.
    pub fn needs_report(&self) -> (r: bool)
        ensures
            r == (*self == RunOutcome::Failure),
    {
        match self {
            RunOutcome::Success => false,
            RunOutcome::Failure => true,
        }
    }
}

} // verus!
