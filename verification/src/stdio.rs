//! How each of the three standard streams of a future child is routed.

use vstd::multiset::Multiset;
use vstd::prelude::*;

verus! {

/// The routing of one standard stream of the future child.
#[derive(Clone, Copy, PartialEq, Eq, Structural, Debug)]
pub enum StdioType {
    /// A fresh pipe: the read end, then the write end. Exactly one end is
    /// installed into the child's stream slot; the other is retained by
    /// the parent.
    Piped(usize, usize),
    /// A caller-supplied open descriptor, duplicated into the child's
    /// stream slot; the original is closed by the spawn attempt.
    Raw(usize),
    /// The stream is left exactly as inherited from the caller.
    Inherit,
    /// The stream's slot is closed and nothing is bound to it.
    Null,
}

/// A pipe's two ends are distinct descriptors.
pub open spec fn stdio_ty_wf(t: StdioType) -> bool {
    t matches StdioType::Piped(r, w) ==> r != w
}

/// The descriptors a stream selection owns and must consume exactly once
/// per spawn attempt: both ends of a pipe, or the raw descriptor.
pub open spec fn owned_fds(t: StdioType) -> Multiset<usize> {
    match t {
        StdioType::Piped(r, w) => Multiset::empty().insert(r).insert(w),
        StdioType::Raw(fd) => Multiset::empty().insert(fd),
        StdioType::Inherit => Multiset::empty(),
        StdioType::Null => Multiset::empty(),
    }
}

/// True when the selection installs a descriptor into the child's slot
/// (and so makes the child duplicate one).
pub open spec fn installs_fd(t: StdioType) -> bool {
    t is Piped || t is Raw
}

/// One stream selection for a `Command`, consumed by exactly one spawn
/// attempt.
pub struct Stdio {
    inner: StdioType,
}

impl View for Stdio {
    type V = StdioType;

    closed spec fn view(&self) -> StdioType {
        self.inner
    }
}

impl Stdio {
    #[verifier::type_invariant]
    spec fn inv(self) -> bool {
        stdio_ty_wf(self.inner)
    }

    /// Attempt to create a pipe; on failure to create one, degrade to
    /// `null()` rather than propagate the error.
    pub fn piped() -> (r: Stdio)
        ensures
            r@ is Piped || r@ is Null,
            stdio_ty_wf(r@),
    {
        match crate::sys::sys_pipe2() {
            Ok((read_fd, write_fd)) => Stdio { inner: StdioType::Piped(read_fd, write_fd) },
            Err(_) => Stdio::null(),
        }
    }

    /// Attempt to create a pipe and surface a creation failure instead
    /// of degrading: the strict variant of `piped`, for call sites that
    /// must not lose the error.
    pub fn piped_strict() -> (r: Result<Stdio, crate::Error>)
        ensures
            r matches Ok(s) ==> s@ is Piped && stdio_ty_wf(s@),
            r matches Err(e) ==> 1 <= e.spec_errno() <= 131,
    {
        match crate::sys::sys_pipe2() {
            Ok((read_fd, write_fd)) => Ok(Stdio { inner: StdioType::Piped(read_fd, write_fd) }),
            Err(errno) => Err(crate::Error::new(errno)),
        }
    }

    /// Leave the stream exactly as inherited; no syscall is made.
    pub fn inherit() -> (r: Stdio)
        ensures
            r@ == StdioType::Inherit,
    {
        Stdio { inner: StdioType::Inherit }
    }

    /// Close the stream's slot and bind nothing to it; no syscall is made.
    pub fn null() -> (r: Stdio)
        ensures
            r@ == StdioType::Null,
    {
        Stdio { inner: StdioType::Null }
    }

    /// Take ownership of an already-open descriptor for the duration of
    /// the spawn attempt; it is closed by the spawn engine regardless of
    /// the outcome.
    pub fn raw(fd: usize) -> (r: Stdio)
        ensures
            r@ == StdioType::Raw(fd),
    {
        Stdio { inner: StdioType::Raw(fd) }
    }

    /// The raw routing, with the pipe invariant it carries.
    pub(crate) fn ty(&self) -> (r: StdioType)
        ensures
            r == self@,
            stdio_ty_wf(r),
    {
        proof {
            use_type_invariant(self);
        }
        self.inner
    }
}

} // verus!
