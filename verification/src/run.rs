//! The two ways of running a command line: for its exit status alone, with
//! the streams of the caller, or for its output, collected in memory.

use crate::command::{build, shell_command, ShellCommand, ShellCommandView};
use crate::platform::Platform;
use vstd::prelude::*;

verus! {

/// How one standard stream of the child is connected.
#[derive(Clone, Copy, Debug, PartialEq, Eq, Structural)]
pub enum Stream {
    /// The child shares the stream of the process that starts it.
    Inherited,
    /// The child gets no stream to read from or write to: reads find the end
    /// of input at once.
    Disconnected,
    /// What the child writes is collected in memory, all of it, until the
    /// child has closed the stream.
    Captured,
}

/// A shell command together with the connections of its three standard
/// streams: all that has to be known to start the child.
#[derive(Clone, Debug, PartialEq, Eq)]
pub struct Invocation {
    pub command: ShellCommand,
    pub stdin: Stream,
    pub stdout: Stream,
    pub stderr: Stream,
}

/// The mathematical value of an [`Invocation`].
pub struct InvocationView {
    pub command: ShellCommandView,
    pub stdin: Stream,
    pub stdout: Stream,
    pub stderr: Stream,
}

impl View for Invocation {
    type V = InvocationView;

    open spec fn view(&self) -> InvocationView {
        InvocationView {
            command: self.command@,
            stdin: self.stdin,
            stdout: self.stdout,
            stderr: self.stderr,
        }
    }
}

/// Running `command` for its exit status: the shell of `platform` evaluates
/// it with the three streams of the caller, so that it can talk to a
/// terminal as if it had been started there.
pub open spec fn status_run(platform: Platform, command: Seq<char>) -> InvocationView {
    InvocationView {
        command: shell_command(platform, command),
        stdin: Stream::Inherited,
        stdout: Stream::Inherited,
        stderr: Stream::Inherited,
    }
}

/// Running `command` for its output: the shell of `platform` evaluates it
/// with no input, and what it writes to its output and to its error stream
/// is collected.
pub open spec fn captured_run(platform: Platform, command: Seq<char>) -> InvocationView {
    InvocationView {
        command: shell_command(platform, command),
        stdin: Stream::Disconnected,
        stdout: Stream::Captured,
        stderr: Stream::Captured,
    }
}

/// Both ways of running start the same shell command, the one that
/// [`shell_command`] gives for the platform and the command line. They
/// differ in the streams alone: a run for the status inherits all three,
/// a run for the output inherits none.
pub proof fn lemma_runs_differ_in_streams_only(platform: Platform, command: Seq<char>)
    ensures
        status_run(platform, command).command == shell_command(platform, command),
        captured_run(platform, command).command == status_run(platform, command).command,
        status_run(platform, command).stdin is Inherited,
        status_run(platform, command).stdout is Inherited,
        status_run(platform, command).stderr is Inherited,
        captured_run(platform, command).stdin is Disconnected,
        captured_run(platform, command).stdout is Captured,
        captured_run(platform, command).stderr is Captured,
{
}

/// Plans the run of a shell command for its exit status. Standard input,
/// output and error are those of the caller.
pub fn system(platform: Platform, command: &str) -> (run: Invocation)
    ensures
        run@ == status_run(platform, command@),
{
    Invocation {
        command: build(platform, command),
        stdin: Stream::Inherited,
        stdout: Stream::Inherited,
        stderr: Stream::Inherited,
    }
}

/// Plans the run of a shell command for its output. Standard output and
/// error are captured, and standard input is not inherited.
pub fn system_output(platform: Platform, command: &str) -> (run: Invocation)
    ensures
        run@ == captured_run(platform, command@),
{
    Invocation {
        command: build(platform, command),
        stdin: Stream::Disconnected,
        stdout: Stream::Captured,
        stderr: Stream::Captured,
    }
}

} // verus!
