//! The spawn engine's descriptor-accounting laws, stated over the spec
//! functions that the engine's contracts use.

use crate::engine::child_end_fd;
use crate::engine::child_stream_ops;
use crate::engine::child_wiring_ops;
use crate::engine::closes_of;
use crate::engine::failure_cleanup_fds;
use crate::engine::parent_keep_fd;
use crate::engine::stream_cleanup_fds;
use crate::engine::FdOp;
use crate::stdio::owned_fds;
use crate::stdio::stdio_ty_wf;
use crate::stdio::StdioType;
use vstd::multiset::Multiset;
use vstd::prelude::*;
use vstd::seq_lib::group_to_multiset_ensures;
use vstd::seq_lib::lemma_multiset_commutative;

verus! {

/// When all three streams are inherited, a successful spawn retains no
/// pipe end, so the assembled `Child` exposes no stream handle.
pub proof fn lemma_inherit_keeps_no_handles(
    stdin_io: StdioType,
    stdout_io: StdioType,
    stderr_io: StdioType,
)
    requires
        stdin_io is Inherit,
        stdout_io is Inherit,
        stderr_io is Inherit,
    ensures
        parent_keep_fd(0, stdin_io) is None,
        parent_keep_fd(1, stdout_io) is None,
        parent_keep_fd(2, stderr_io) is None,
{
}

/// For a piped stream, a successful spawn always leaves a handle, and
/// the descriptor that handle retains is never the one whose duplicate
/// was installed in the child.
pub proof fn lemma_piped_handle_is_not_childs_end(slot: usize, t: StdioType)
    requires
        t is Piped,
        stdio_ty_wf(t),
    ensures
        parent_keep_fd(slot, t) is Some,
        child_end_fd(slot, t) is Some,
        parent_keep_fd(slot, t)->Some_0 != child_end_fd(slot, t)->Some_0,
{
}

/// The failure cleanup of one stream closes exactly the descriptors that
/// stream owns.
proof fn lemma_stream_cleanup_exact(t: StdioType, read_first: bool)
    ensures
        stream_cleanup_fds(t, read_first).to_multiset() == owned_fds(t),
{
    broadcast use group_to_multiset_ensures;

    match t {
        StdioType::Piped(r, w) => {
            if read_first {
                assert(stream_cleanup_fds(t, read_first) =~= Seq::<usize>::empty().push(r).push(w));
            } else {
                assert(stream_cleanup_fds(t, read_first) =~= Seq::<usize>::empty().push(w).push(r));
                assert(Multiset::empty().insert(w).insert(r) =~= Multiset::empty().insert(r).insert(
                    w,
                ));
            }
            assert(Seq::<usize>::empty().to_multiset() =~= Multiset::<usize>::empty());
        },
        StdioType::Raw(fd) => {
            assert(stream_cleanup_fds(t, read_first) =~= Seq::<usize>::empty().push(fd));
            assert(Seq::<usize>::empty().to_multiset() =~= Multiset::<usize>::empty());
        },
        StdioType::Inherit => {
            assert(stream_cleanup_fds(t, read_first).to_multiset() =~= Multiset::<usize>::empty());
        },
        StdioType::Null => {
            assert(stream_cleanup_fds(t, read_first).to_multiset() =~= Multiset::<usize>::empty());
        },
    }
}

/// When a spawn attempt fails, the parent's cleanup closes every
/// descriptor owned by the three stream selections — both ends of every
/// pipe and every raw descriptor — each exactly once: no leak and no
/// double close.
pub proof fn lemma_failure_cleanup_closes_owned_exactly_once(
    stdin_io: StdioType,
    stdout_io: StdioType,
    stderr_io: StdioType,
)
    ensures
        failure_cleanup_fds(stdin_io, stdout_io, stderr_io).to_multiset() == owned_fds(
            stdin_io,
        ).add(owned_fds(stdout_io)).add(owned_fds(stderr_io)),
{
    let a = stream_cleanup_fds(stdin_io, true);
    let b = stream_cleanup_fds(stdout_io, false);
    let c = stream_cleanup_fds(stderr_io, false);
    lemma_stream_cleanup_exact(stdin_io, true);
    lemma_stream_cleanup_exact(stdout_io, false);
    lemma_stream_cleanup_exact(stderr_io, false);
    lemma_multiset_commutative(a, b);
    lemma_multiset_commutative(a + b, c);
    assert(failure_cleanup_fds(stdin_io, stdout_io, stderr_io).to_multiset() =~= owned_fds(
        stdin_io,
    ).add(owned_fds(stdout_io)).add(owned_fds(stderr_io)));
}

/// The multiset of descriptors closed by the concatenation of two plans.
proof fn lemma_closes_of_concat(a: Seq<FdOp>, b: Seq<FdOp>)
    ensures
        closes_of(a + b) == closes_of(a).add(closes_of(b)),
    decreases b.len(),
{
    if b.len() == 0 {
        assert(a + b =~= a);
        assert(closes_of(a).add(closes_of(b)) =~= closes_of(a));
    } else {
        lemma_closes_of_concat(a, b.drop_last());
        assert((a + b).drop_last() =~= a + b.drop_last());
        assert((a + b).last() == b.last());
        match b.last() {
            FdOp::Close(fd) => {
                assert(closes_of(a).add(closes_of(b)) =~= closes_of(a).add(
                    closes_of(b.drop_last()),
                ).insert(fd));
            },
            FdOp::Dup(_) => {},
        }
    }
}

/// The slot a stream selection touches in the child: every selection but
/// `Inherit` frees its stream's slot exactly once.
pub open spec fn slot_touch(slot: usize, t: StdioType) -> Multiset<usize> {
    if t is Inherit {
        Multiset::empty()
    } else {
        Multiset::empty().insert(slot)
    }
}

/// The wiring of one stream closes exactly the descriptors that stream
/// owns, plus the stream's slot when the selection touches it.
proof fn lemma_stream_ops_closes_exact(slot: usize, t: StdioType)
    ensures
        closes_of(child_stream_ops(slot, t)) == owned_fds(t).add(slot_touch(slot, t)),
{
    broadcast use vstd::multiset::group_multiset_axioms;

    let ops = child_stream_ops(slot, t);
    match t {
        StdioType::Piped(r, w) => {
            let keep = if slot == 0 {
                r
            } else {
                w
            };
            let other = if slot == 0 {
                w
            } else {
                r
            };
            let o1 = seq![FdOp::Close(other)];
            let o2 = seq![FdOp::Close(other), FdOp::Close(slot)];
            let o3 = seq![FdOp::Close(other), FdOp::Close(slot), FdOp::Dup(keep)];
            assert(o1.drop_last() =~= Seq::<FdOp>::empty());
            assert(o2.drop_last() =~= o1);
            assert(o3.drop_last() =~= o2);
            assert(ops.drop_last() =~= o3);
            assert(closes_of(Seq::<FdOp>::empty()) == Multiset::<usize>::empty());
            assert(closes_of(o1) == Multiset::<usize>::empty().insert(other));
            assert(closes_of(o2) == closes_of(o1).insert(slot));
            assert(closes_of(o3) == closes_of(o2));
            assert(closes_of(ops) == Multiset::<usize>::empty().insert(other).insert(slot).insert(
                keep,
            ));
            assert(closes_of(ops) =~= owned_fds(t).add(slot_touch(slot, t)));
        },
        StdioType::Raw(fd) => {
            let o1 = seq![FdOp::Close(slot)];
            let o2 = seq![FdOp::Close(slot), FdOp::Dup(fd)];
            assert(o1.drop_last() =~= Seq::<FdOp>::empty());
            assert(o2.drop_last() =~= o1);
            assert(ops.drop_last() =~= o2);
            assert(closes_of(Seq::<FdOp>::empty()) == Multiset::<usize>::empty());
            assert(closes_of(o1) == Multiset::<usize>::empty().insert(slot));
            assert(closes_of(o2) == closes_of(o1));
            assert(closes_of(ops) == Multiset::<usize>::empty().insert(slot).insert(fd));
            assert(closes_of(ops) =~= owned_fds(t).add(slot_touch(slot, t)));
        },
        StdioType::Inherit => {
            assert(closes_of(ops) =~= owned_fds(t).add(slot_touch(slot, t)));
        },
        StdioType::Null => {
            assert(ops.drop_last() =~= Seq::<FdOp>::empty());
            assert(closes_of(Seq::<FdOp>::empty()) == Multiset::<usize>::empty());
            assert(closes_of(ops) == Multiset::<usize>::empty().insert(slot));
            assert(closes_of(ops) =~= owned_fds(t).add(slot_touch(slot, t)));
        },
    }
}

/// The child branch's wiring plan closes every descriptor owned by the
/// three stream selections exactly once, and each touched slot exactly
/// once, and closes nothing else: the child, too, consumes each owned
/// descriptor exactly once.
pub proof fn lemma_child_wiring_closes_owned_exactly_once(
    stderr_io: StdioType,
    stdout_io: StdioType,
    stdin_io: StdioType,
)
    ensures
        closes_of(child_wiring_ops(stderr_io, stdout_io, stdin_io)) == owned_fds(stderr_io).add(
            slot_touch(2, stderr_io),
        ).add(owned_fds(stdout_io)).add(slot_touch(1, stdout_io)).add(owned_fds(stdin_io)).add(
            slot_touch(0, stdin_io),
        ),
{
    let a = child_stream_ops(2, stderr_io);
    let b = child_stream_ops(1, stdout_io);
    let c = child_stream_ops(0, stdin_io);
    lemma_stream_ops_closes_exact(2, stderr_io);
    lemma_stream_ops_closes_exact(1, stdout_io);
    lemma_stream_ops_closes_exact(0, stdin_io);
    lemma_closes_of_concat(a, b);
    lemma_closes_of_concat(a + b, c);
    assert(closes_of(child_wiring_ops(stderr_io, stdout_io, stdin_io)) =~= owned_fds(
        stderr_io,
    ).add(slot_touch(2, stderr_io)).add(owned_fds(stdout_io)).add(slot_touch(1, stdout_io)).add(
        owned_fds(stdin_io),
    ).add(slot_touch(0, stdin_io)));
}

} // verus!
