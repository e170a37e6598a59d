//! A handle to a spawned process: its id and its owned stream handles.

use crate::streams::ChildStderr;
use crate::streams::ChildStdin;
use crate::streams::ChildStdout;
use vstd::prelude::*;

verus! {

/// A spawned process. Dropping it does not reap the process; the kernel
/// may still own the id as a pending child.
pub struct Child {
    pid: usize,
    pub stdin: Option<ChildStdin>,
    pub stdout: Option<ChildStdout>,
    pub stderr: Option<ChildStderr>,
}

impl Child {
    pub closed spec fn spec_pid(&self) -> usize {
        self.pid
    }

    pub closed spec fn spec_stdin(&self) -> Option<ChildStdin> {
        self.stdin
    }

    pub closed spec fn spec_stdout(&self) -> Option<ChildStdout> {
        self.stdout
    }

    pub closed spec fn spec_stderr(&self) -> Option<ChildStderr> {
        self.stderr
    }

    pub(crate) fn assemble(
        pid: usize,
        stdin: Option<ChildStdin>,
        stdout: Option<ChildStdout>,
        stderr: Option<ChildStderr>,
    ) -> (c: Child)
        ensures
            c.spec_pid() == pid,
            c.spec_stdin() == stdin,
            c.spec_stdout() == stdout,
            c.spec_stderr() == stderr,
    {
        Child { pid, stdin, stdout, stderr }
    }

    /// The stored process id, never recomputed; the low 32 bits of the
    /// kernel's id word.
    pub fn id(&self) -> (r: u32)
        ensures
            r as int == (self.spec_pid() as nat) % 0x1_0000_0000,
    {
        ((self.pid as u64) % 0x1_0000_0000) as u32
    }

    /// Block until this process exits and decode its raw status word.
    /// Whether the kernel reports it at all, and with which word, is the
    /// kernel's to decide; whatever comes back, the handle is unchanged.
    /// Every call issues its own wait, so a second call — or one made
    /// after the process was reaped elsewhere — reports the kernel's
    /// error rather than a cached status.
    pub fn wait(&mut self) -> (r: Result<crate::ExitStatus, crate::Error>)
        ensures
            *final(self) == *old(self),
            r matches Err(e) ==> 1 <= e.spec_errno() <= 131,
    {
        match crate::sys::sys_waitpid(self.pid) {
            Ok(status) => Ok(crate::ExitStatus::from_raw(status)),
            Err(errno) => Err(crate::Error::new(errno)),
        }
    }
}

} // verus!
