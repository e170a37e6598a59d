//! Trusted wrappers around the kernel primitives this crate is built on.
//! Each wrapper makes exactly one call into the `syscall` crate and
//! converts the outcome to plain values; every error number it hands out
//! comes from `syscall::Error::demux`, which only builds errors whose
//! number lies in 1..=131.

use vstd::prelude::*;

verus! {

/// Relies on syscall::pipe2: on success the kernel fills the two slots
/// with the read end and the write end of a fresh pipe, two distinct
/// newly allocated descriptors.
#[verifier::external_body]
pub(crate) fn sys_pipe2() -> (r: Result<(usize, usize), i32>)
    ensures
        r matches Ok(p) ==> p.0 != p.1,
        r matches Err(e) ==> 1 <= e <= 131,
{
    let mut fds = [0; 2];
    match syscall::pipe2(&mut fds, 0) {
        Ok(_) => Ok((fds[0], fds[1])),
        Err(e) => Err(e.errno),
    }
}

/// Relies on syscall::close: closes the descriptor; nothing is promised
/// of the outcome.
#[verifier::external_body]
pub(crate) fn sys_close(fd: usize) -> (r: Result<usize, i32>)
    ensures
        r matches Err(e) ==> 1 <= e <= 131,
{
    syscall::close(fd).map_err(|e| e.errno)
}

/// Relies on syscall::dup (with an empty transform path): on success the
/// kernel returns a new descriptor referencing the same resource as `fd`.
#[verifier::external_body]
pub(crate) fn sys_dup(fd: usize) -> (r: Result<usize, i32>)
    ensures
        r matches Err(e) ==> 1 <= e <= 131,
{
    syscall::dup(fd, &[]).map_err(|e| e.errno)
}

/// Relies on syscall::read: on success it returns how many bytes were
/// read into the front of `buf`, never more than the buffer holds, and
/// never resizes the buffer.
#[verifier::external_body]
pub(crate) fn sys_read(fd: usize, buf: &mut Vec<u8>) -> (r: Result<usize, i32>)
    ensures
        final(buf)@.len() == old(buf)@.len(),
        r matches Ok(n) ==> n <= old(buf)@.len(),
        r matches Err(e) ==> 1 <= e <= 131,
{
    syscall::read(fd, buf.as_mut_slice()).map_err(|e| e.errno)
}

/// Relies on syscall::write: on success it returns how many bytes of
/// `buf` were written, never more than the buffer holds.
#[verifier::external_body]
pub(crate) fn sys_write(fd: usize, buf: &[u8]) -> (r: Result<usize, i32>)
    ensures
        r matches Ok(n) ==> n <= buf@.len(),
        r matches Err(e) ==> 1 <= e <= 131,
{
    syscall::write(fd, buf).map_err(|e| e.errno)
}

/// Relies on syscall::waitpid (no flags): it blocks until the given
/// child exits, then returns the raw status word the kernel wrote.
#[verifier::external_body]
pub(crate) fn sys_waitpid(pid: usize) -> (r: Result<usize, i32>)
    ensures
        r matches Err(e) ==> 1 <= e <= 131,
{
    let mut status: usize = 0;
    match syscall::waitpid(pid, &mut status, syscall::WaitFlags::empty()) {
        Ok(_) => Ok(status),
        Err(e) => Err(e.errno),
    }
}

} // verus!
