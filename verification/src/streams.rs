//! Typed handles to the standard streams of a spawned child. Each handle
//! exclusively owns one descriptor and closes it when dropped.

use vstd::prelude::*;

verus! {

/// The write end of the pipe feeding a child's standard input.
pub struct ChildStdin {
    fd: usize,
}

impl View for ChildStdin {
    type V = usize;

    closed spec fn view(&self) -> usize {
        self.fd
    }
}

impl ChildStdin {
    pub(crate) fn from_fd(fd: usize) -> (r: ChildStdin)
        ensures
            r@ == fd,
    {
        ChildStdin { fd }
    }

    /// The descriptor this handle owns.
    pub fn as_raw_fd(&self) -> (r: usize)
        ensures
            r == self@,
    {
        self.fd
    }

    /// Write bytes to the child's standard input; on success, how many
    /// of them were taken, never more than the buffer holds.
    pub fn write(&mut self, buf: &[u8]) -> (r: Result<usize, crate::Error>)
        ensures
            *final(self) == *old(self),
            r matches Ok(n) ==> n <= buf@.len(),
            r matches Err(e) ==> 1 <= e.spec_errno() <= 131,
    {
        match crate::sys::sys_write(self.fd, buf) {
            Ok(n) => Ok(n),
            Err(errno) => Err(crate::Error::new(errno)),
        }
    }

    /// Nothing is buffered on this side, so there is nothing to flush.
    pub fn flush(&mut self) -> (r: Result<(), crate::Error>)
        ensures
            *final(self) == *old(self),
            r is Ok,
    {
        Ok(())
    }
}

/// Relies on syscall::close: the handle's descriptor is released when
/// the handle is dropped; a close failure is ignored.
impl Drop for ChildStdin {
    #[verifier::external_body]
    fn drop(&mut self)
        opens_invariants none
        no_unwind
    {
        let _ = syscall::close(self.fd);
    }
}

/// The read end of the pipe fed by a child's standard output.
pub struct ChildStdout {
    fd: usize,
}

impl View for ChildStdout {
    type V = usize;

    closed spec fn view(&self) -> usize {
        self.fd
    }
}

impl ChildStdout {
    pub(crate) fn from_fd(fd: usize) -> (r: ChildStdout)
        ensures
            r@ == fd,
    {
        ChildStdout { fd }
    }

    /// The descriptor this handle owns.
    pub fn as_raw_fd(&self) -> (r: usize)
        ensures
            r == self@,
    {
        self.fd
    }

    /// Read bytes from the child's standard output into the front of
    /// `buf`; on success, how many were read, never more than the buffer
    /// holds. The buffer keeps its length.
    pub fn read(&mut self, buf: &mut Vec<u8>) -> (r: Result<usize, crate::Error>)
        ensures
            *final(self) == *old(self),
            final(buf)@.len() == old(buf)@.len(),
            r matches Ok(n) ==> n <= old(buf)@.len(),
            r matches Err(e) ==> 1 <= e.spec_errno() <= 131,
    {
        match crate::sys::sys_read(self.fd, buf) {
            Ok(n) => Ok(n),
            Err(errno) => Err(crate::Error::new(errno)),
        }
    }
}

/// Relies on syscall::close: the handle's descriptor is released when
/// the handle is dropped; a close failure is ignored.
impl Drop for ChildStdout {
    #[verifier::external_body]
    fn drop(&mut self)
        opens_invariants none
        no_unwind
    {
        let _ = syscall::close(self.fd);
    }
}

/// The read end of the pipe fed by a child's standard error.
pub struct ChildStderr {
    fd: usize,
}

impl View for ChildStderr {
    type V = usize;

    closed spec fn view(&self) -> usize {
        self.fd
    }
}

impl ChildStderr {
    pub(crate) fn from_fd(fd: usize) -> (r: ChildStderr)
        ensures
            r@ == fd,
    {
        ChildStderr { fd }
    }

    /// The descriptor this handle owns.
    pub fn as_raw_fd(&self) -> (r: usize)
        ensures
            r == self@,
    {
        self.fd
    }

    /// Read bytes from the child's standard error into the front of
    /// `buf`; on success, how many were read, never more than the buffer
    /// holds. The buffer keeps its length.
    pub fn read(&mut self, buf: &mut Vec<u8>) -> (r: Result<usize, crate::Error>)
        ensures
            *final(self) == *old(self),
            final(buf)@.len() == old(buf)@.len(),
            r matches Ok(n) ==> n <= old(buf)@.len(),
            r matches Err(e) ==> 1 <= e.spec_errno() <= 131,
    {
        match crate::sys::sys_read(self.fd, buf) {
            Ok(n) => Ok(n),
            Err(errno) => Err(crate::Error::new(errno)),
        }
    }
}

/// Relies on syscall::close: the handle's descriptor is released when
/// the handle is dropped; a close failure is ignored.
impl Drop for ChildStderr {
    #[verifier::external_body]
    fn drop(&mut self)
        opens_invariants none
        no_unwind
    {
        let _ = syscall::close(self.fd);
    }
}

} // verus!
