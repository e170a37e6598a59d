//! The descriptor surgery of a spawn attempt: the ordered plan of closes
//! and duplicates the child branch performs, the cleanup the parent
//! performs when a spawn fails, and the assembly of a `Child` when it
//! succeeds. The plans are sequences of plain operations, so what each
//! phase does to every descriptor is stated — and proved — exactly.

use crate::child::Child;
use crate::status::Error;
use crate::stdio::StdioType;
use crate::stdio::installs_fd;
use crate::streams::ChildStderr;
use crate::streams::ChildStdin;
use crate::streams::ChildStdout;
use vstd::multiset::Multiset;
use vstd::prelude::*;

verus! {

/// One descriptor operation of the child branch's wiring phase.
#[derive(Clone, Copy, PartialEq, Eq, Structural, Debug)]
pub enum FdOp {
    /// Close the descriptor; a failure to close is ignored.
    Close(usize),
    /// Duplicate the descriptor into the lowest free slot; a failure
    /// fails the wiring.
    Dup(usize),
}

/// The operations the child performs for one stream: close the end of a
/// pipe it must not hold, free the stream's slot, duplicate the chosen
/// descriptor into it, and close the now-redundant original. For a pipe
/// on the child's input the child keeps the read end; on its output and
/// error, the write end.
pub open spec fn child_stream_ops(slot: usize, t: StdioType) -> Seq<FdOp> {
    match t {
        StdioType::Piped(r, w) => {
            let keep = if slot == 0 {
                r
            } else {
                w
            };
            let other = if slot == 0 {
                w
            } else {
                r
            };
            seq![FdOp::Close(other), FdOp::Close(slot), FdOp::Dup(keep), FdOp::Close(keep)]
        },
        StdioType::Raw(fd) => seq![FdOp::Close(slot), FdOp::Dup(fd), FdOp::Close(fd)],
        StdioType::Inherit => seq![],
        StdioType::Null => seq![FdOp::Close(slot)],
    }
}

/// The whole wiring plan of the child branch: standard error first,
/// then standard output, standard input last, so that no later step can
/// clobber a descriptor an earlier step still needs.
pub open spec fn child_wiring_ops(
    stderr_io: StdioType,
    stdout_io: StdioType,
    stdin_io: StdioType,
) -> Seq<FdOp> {
    child_stream_ops(2, stderr_io) + child_stream_ops(1, stdout_io) + child_stream_ops(
        0,
        stdin_io,
    )
}

/// Whether a plan holds any duplicate operation — the only kind whose
/// failure fails the wiring.
pub open spec fn has_dup(ops: Seq<FdOp>) -> bool {
    exists|i: int| 0 <= i < ops.len() && ops[i] is Dup
}

/// The multiset of descriptors a plan closes.
pub open spec fn closes_of(ops: Seq<FdOp>) -> Multiset<usize>
    decreases ops.len(),
{
    if ops.len() == 0 {
        Multiset::empty()
    } else {
        match ops.last() {
            FdOp::Close(fd) => closes_of(ops.drop_last()).insert(fd),
            FdOp::Dup(_) => closes_of(ops.drop_last()),
        }
    }
}

/// The end of a pipe, or the raw descriptor, that is duplicated into the
/// child's slot — and that the parent therefore closes after a
/// successful spawn, since its duplicate lives in the child.
pub open spec fn child_end_fd(slot: usize, t: StdioType) -> Option<usize> {
    match t {
        StdioType::Piped(r, w) => Some(
            if slot == 0 {
                r
            } else {
                w
            },
        ),
        StdioType::Raw(fd) => Some(fd),
        StdioType::Inherit => None,
        StdioType::Null => None,
    }
}

/// The pipe end the parent keeps after a successful spawn, exposed as the
/// stream handle for that slot; only a pipe leaves a handle behind.
pub open spec fn parent_keep_fd(slot: usize, t: StdioType) -> Option<usize> {
    match t {
        StdioType::Piped(r, w) => Some(
            if slot == 0 {
                w
            } else {
                r
            },
        ),
        StdioType::Raw(_) => None,
        StdioType::Inherit => None,
        StdioType::Null => None,
    }
}

/// The descriptors one stream selection has the parent close when a
/// spawn attempt fails.
pub open spec fn stream_cleanup_fds(t: StdioType, read_first: bool) -> Seq<usize> {
    match t {
        StdioType::Piped(r, w) => if read_first {
            seq![r, w]
        } else {
            seq![w, r]
        },
        StdioType::Raw(fd) => seq![fd],
        StdioType::Inherit => seq![],
        StdioType::Null => seq![],
    }
}

/// Everything the parent closes when a spawn attempt fails: every
/// descriptor owned by the three stream selections, input first.
pub open spec fn failure_cleanup_fds(
    stdin_io: StdioType,
    stdout_io: StdioType,
    stderr_io: StdioType,
) -> Seq<usize> {
    stream_cleanup_fds(stdin_io, true) + stream_cleanup_fds(stdout_io, false)
        + stream_cleanup_fds(stderr_io, false)
}

/// Build the child branch's wiring plan for one stream.
fn push_stream_ops(ops: &mut Vec<FdOp>, slot: usize, t: StdioType)
    ensures
        final(ops)@ == old(ops)@ + child_stream_ops(slot, t),
{
    match t {
        StdioType::Piped(r, w) => {
            let keep = if slot == 0 {
                r
            } else {
                w
            };
            let other = if slot == 0 {
                w
            } else {
                r
            };
            ops.push(FdOp::Close(other));
            ops.push(FdOp::Close(slot));
            ops.push(FdOp::Dup(keep));
            ops.push(FdOp::Close(keep));
        },
        StdioType::Raw(fd) => {
            ops.push(FdOp::Close(slot));
            ops.push(FdOp::Dup(fd));
            ops.push(FdOp::Close(fd));
        },
        StdioType::Inherit => {},
        StdioType::Null => {
            ops.push(FdOp::Close(slot));
        },
    }
    proof {
        assert(ops@ =~= old(ops)@ + child_stream_ops(slot, t));
    }
}

/// The child branch's whole wiring plan, as executable data.
pub fn child_wiring_plan(stderr_io: StdioType, stdout_io: StdioType, stdin_io: StdioType) -> (r:
    Vec<FdOp>)
    ensures
        r@ == child_wiring_ops(stderr_io, stdout_io, stdin_io),
{
    let mut ops: Vec<FdOp> = Vec::new();
    push_stream_ops(&mut ops, 2, stderr_io);
    push_stream_ops(&mut ops, 1, stdout_io);
    push_stream_ops(&mut ops, 0, stdin_io);
    proof {
        assert(ops@ =~= child_wiring_ops(stderr_io, stdout_io, stdin_io));
    }
    ops
}

/// Run a wiring plan in order. Every close is attempted whatever came
/// before it and its failure is ignored; the first failing duplicate
/// decides the result, so a plan without duplicates cannot fail.
pub fn run_fd_ops(ops: &Vec<FdOp>) -> (r: Result<(), Error>)
    ensures
        !has_dup(ops@) ==> r is Ok,
        r matches Err(e) ==> 1 <= e.spec_errno() <= 131,
{
    let mut first_err: Option<Error> = None;
    let n = ops.len();
    let mut i: usize = 0;
    while i < n
        invariant
            n == ops@.len(),
            i <= n,
            first_err matches Some(e) ==> has_dup(ops@) && 1 <= e.spec_errno() <= 131,
        decreases n - i,
    {
        match ops[i] {
            FdOp::Close(fd) => {
                let _ = crate::sys::sys_close(fd);
            },
            FdOp::Dup(fd) => {
                match crate::sys::sys_dup(fd) {
                    Ok(_) => {},
                    Err(errno) => {
                        if first_err.is_none() {
                            first_err = Some(Error::new(errno));
                        }
                    },
                }
            },
        }
        i = i + 1;
    }
    match first_err {
        None => Ok(()),
        Some(e) => Err(e),
    }
}

/// A plan for one stream that installs nothing holds no duplicate.
proof fn lemma_stream_ops_no_dup(slot: usize, t: StdioType)
    requires
        !installs_fd(t),
    ensures
        !has_dup(child_stream_ops(slot, t)),
{
}

/// Plans without duplicates stay without duplicates when chained.
proof fn lemma_concat3_no_dup(a: Seq<FdOp>, b: Seq<FdOp>, c: Seq<FdOp>)
    requires
        !has_dup(a),
        !has_dup(b),
        !has_dup(c),
    ensures
        !has_dup(a + b + c),
{
    let all = a + b + c;
    assert forall|i: int| 0 <= i < all.len() implies !(all[i] is Dup) by {
        if i < a.len() {
            assert(all[i] == a[i]);
        } else if i < a.len() + b.len() {
            assert(all[i] == b[i - a.len()]);
        } else {
            assert(all[i] == c[i - a.len() - b.len()]);
        }
    }
}

/// The child branch's wiring phase: run the whole plan, standard error
/// first and standard input last. Whether the kernel grants each
/// duplicate is the kernel's to decide; when no stream installs a
/// descriptor there is nothing to grant, and the wiring cannot fail.
pub fn wire_child_streams(stderr_io: StdioType, stdout_io: StdioType, stdin_io: StdioType) -> (r:
    Result<(), Error>)
    ensures
        !installs_fd(stderr_io) && !installs_fd(stdout_io) && !installs_fd(stdin_io) ==> r is Ok,
        r matches Err(e) ==> 1 <= e.spec_errno() <= 131,
{
    let ops = child_wiring_plan(stderr_io, stdout_io, stdin_io);
    proof {
        if !installs_fd(stderr_io) && !installs_fd(stdout_io) && !installs_fd(stdin_io) {
            lemma_stream_ops_no_dup(2, stderr_io);
            lemma_stream_ops_no_dup(1, stdout_io);
            lemma_stream_ops_no_dup(0, stdin_io);
            lemma_concat3_no_dup(
                child_stream_ops(2, stderr_io),
                child_stream_ops(1, stdout_io),
                child_stream_ops(0, stdin_io),
            );
        }
    }
    run_fd_ops(&ops)
}

/// The descriptors the parent closes when a spawn attempt fails, as
/// executable data.
pub fn failure_cleanup_plan(stdin_io: StdioType, stdout_io: StdioType, stderr_io: StdioType) -> (r:
    Vec<usize>)
    ensures
        r@ == failure_cleanup_fds(stdin_io, stdout_io, stderr_io),
{
    let mut fds: Vec<usize> = Vec::new();
    push_cleanup_fds(&mut fds, stdin_io, true);
    push_cleanup_fds(&mut fds, stdout_io, false);
    push_cleanup_fds(&mut fds, stderr_io, false);
    proof {
        assert(fds@ =~= failure_cleanup_fds(stdin_io, stdout_io, stderr_io));
    }
    fds
}

/// Build the failure-cleanup list for one stream.
fn push_cleanup_fds(fds: &mut Vec<usize>, t: StdioType, read_first: bool)
    ensures
        final(fds)@ == old(fds)@ + stream_cleanup_fds(t, read_first),
{
    match t {
        StdioType::Piped(r, w) => {
            if read_first {
                fds.push(r);
                fds.push(w);
            } else {
                fds.push(w);
                fds.push(r);
            }
        },
        StdioType::Raw(fd) => {
            fds.push(fd);
        },
        StdioType::Inherit => {},
        StdioType::Null => {},
    }
    proof {
        assert(fds@ =~= old(fds)@ + stream_cleanup_fds(t, read_first));
    }
}

/// After a spawn attempt failed — the clone itself, or the child's
/// wiring or exec — close every descriptor the three stream selections
/// own, each exactly once; failures to close are ignored, since the
/// primary error already dominates.
pub fn cleanup_failed_spawn(stdin_io: StdioType, stdout_io: StdioType, stderr_io: StdioType) {
    let fds = failure_cleanup_plan(stdin_io, stdout_io, stderr_io);
    let n = fds.len();
    let mut i: usize = 0;
    while i < n
        invariant
            n == fds@.len(),
            i <= n,
        decreases n - i,
    {
        let _ = crate::sys::sys_close(fds[i]);
        i = i + 1;
    }
}

/// Assemble the `Child` of a successful spawn: for every pipe, close the
/// end whose duplicate now lives in the child and wrap the retained end
/// in the slot's stream handle; close every raw descriptor; expose no
/// handle for an inherited, discarded or raw stream.
pub fn assemble_child(
    pid: usize,
    stdin_io: StdioType,
    stdout_io: StdioType,
    stderr_io: StdioType,
) -> (c: Child)
    ensures
        c.spec_pid() == pid,
        (match parent_keep_fd(0, stdin_io) {
            Some(fd) => c.spec_stdin() matches Some(h) && h@ == fd,
            None => c.spec_stdin() is None,
        }),
        (match parent_keep_fd(1, stdout_io) {
            Some(fd) => c.spec_stdout() matches Some(h) && h@ == fd,
            None => c.spec_stdout() is None,
        }),
        (match parent_keep_fd(2, stderr_io) {
            Some(fd) => c.spec_stderr() matches Some(h) && h@ == fd,
            None => c.spec_stderr() is None,
        }),
{
    let stdin_h = match stdin_io {
        StdioType::Piped(r, w) => {
            let _ = crate::sys::sys_close(r);
            Some(ChildStdin::from_fd(w))
        },
        StdioType::Raw(fd) => {
            let _ = crate::sys::sys_close(fd);
            None
        },
        StdioType::Inherit => None,
        StdioType::Null => None,
    };
    let stdout_h = match stdout_io {
        StdioType::Piped(r, w) => {
            let _ = crate::sys::sys_close(w);
            Some(ChildStdout::from_fd(r))
        },
        StdioType::Raw(fd) => {
            let _ = crate::sys::sys_close(fd);
            None
        },
        StdioType::Inherit => None,
        StdioType::Null => None,
    };
    let stderr_h = match stderr_io {
        StdioType::Piped(r, w) => {
            let _ = crate::sys::sys_close(w);
            Some(ChildStderr::from_fd(r))
        },
        StdioType::Raw(fd) => {
            let _ = crate::sys::sys_close(fd);
            None
        },
        StdioType::Inherit => None,
        StdioType::Null => None,
    };
    Child::assemble(pid, stdin_h, stdout_h, stderr_h)
}

} // verus!
