//! Shell command lines, planned for the native shell of a platform.
//!
//! A command line is one string that a shell parses by its own grammar. This
//! library decides how that string reaches the shell: which program is
//! started, which flag makes it evaluate the string, how the string is passed
//! so that it arrives unchanged, and how the standard streams of the child are
//! connected. Starting the child is left to the caller.

pub mod command;
pub mod platform;
pub mod run;

pub use command::{build, Argument, Cmd, Sh, ShellCommand, System};
pub use platform::Platform;
pub use run::{system, system_output, Invocation, Stream};
