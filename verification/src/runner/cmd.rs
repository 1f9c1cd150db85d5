//! A shell command for a remote machine, with the options it runs under.

use vstd::prelude::*;
use crate::text::owned;

verus! {

/// A shell command to run on a remote machine.
pub struct Cmd {
    /// The command line.
    pub cmd: String,
    /// The directory to run it in, if not the home directory.
    pub cwd: Option<String>,
    /// Whether to run it with `bash` rather than the default shell.
    pub use_bash: bool,
    /// Whether a failure of the command is to be tolerated.
    pub allow_error: bool,
    /// Whether to run it without a pseudo-terminal.
    pub no_pty: bool,
}

impl Cmd {
    /// A command with default options.
    pub fn new(cmd: String) -> (r: Cmd)
        ensures
            r.cmd == cmd,
            r.cwd is None,
            !r.use_bash,
            !r.allow_error,
            !r.no_pty,
    {
        Cmd { cmd, cwd: None, use_bash: false, allow_error: false, no_pty: false }
    }

    /// The same command, run in `dir`.
    pub fn cwd(self, dir: &str) -> (r: Cmd)
        ensures
            r.cmd == self.cmd,
            r.cwd matches Some(d) && d@ == dir@,
            r.use_bash == self.use_bash,
            r.allow_error == self.allow_error,
            r.no_pty == self.no_pty,
    {
        Cmd { cwd: Some(owned(dir)), ..self }
    }

    /// The same command, run with `bash`.
    pub fn use_bash(self) -> (r: Cmd)
        ensures
            r.cmd == self.cmd,
            r.cwd == self.cwd,
            r.use_bash,
            r.allow_error == self.allow_error,
            r.no_pty == self.no_pty,
    {
        Cmd { use_bash: true, ..self }
    }

    /// The same command, with failure tolerated.
    pub fn allow_error(self) -> (r: Cmd)
        ensures
            r.cmd == self.cmd,
            r.cwd == self.cwd,
            r.use_bash == self.use_bash,
            r.allow_error,
            r.no_pty == self.no_pty,
    {
        Cmd { allow_error: true, ..self }
    }

    /// The same command, run without a pseudo-terminal.
    pub fn no_pty(self) -> (r: Cmd)
        ensures
            r.cmd == self.cmd,
            r.cwd == self.cwd,
            r.use_bash == self.use_bash,
            r.allow_error == self.allow_error,
            r.no_pty,
    {
        Cmd { no_pty: true, ..self }
    }
}

/// Whether the command `c` runs in the directory `dir`.
pub open spec fn runs_in(c: Cmd, dir: Seq<char>) -> bool {
    c.cwd matches Some(d) && d@ == dir
}

/// A command of the given text with default options.
pub fn cmd(text: &str) -> (r: Cmd)
    ensures
        r.cmd@ == text@,
        r.cwd is None,
        !r.use_bash,
        !r.allow_error,
        !r.no_pty,
{
    Cmd::new(owned(text))
}

} // verus!
