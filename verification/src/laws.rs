use vstd::prelude::*;

use crate::model::{GroupOp, WaitGroupModel, apply_op, apply_ops, cancel_transition,
    group_inv, net_delta, op_delta, ops_admissible, register_blocked, register_transition,
    unit_done_ops};

verus! {

/// For every admissible sequence of increments and decrements — one in which
/// no decrement would drive the counter negative and no increment overflows —
/// the counter ends at its starting value plus the net sum of the
/// operations, and the registration slot (threshold, callback, generation)
/// is untouched throughout.
pub proof fn lemma_counter_tracks_net_sum(m: WaitGroupModel, ops: Seq<GroupOp>)
    requires
        ops_admissible(m, ops),
    ensures
        apply_ops(m, ops).left == m.left + net_delta(ops),
        apply_ops(m, ops).waiting == m.waiting,
        apply_ops(m, ops).has_waker == m.has_waker,
        apply_ops(m, ops).generation == m.generation,
    decreases ops.len(),
{
    if ops.len() > 0 {
        lemma_counter_tracks_net_sum(apply_op(m, ops[0]), ops.subrange(1, ops.len() as int));
    }
}

/// Releasing each of `n` guards performs exactly `n` unit decrements in
/// total, in whatever order the releases happen: the whole sequence is
/// admissible and the counter ends exactly `n` lower, with the registration
/// slot untouched.
pub proof fn lemma_n_guard_releases_decrement_exactly_n(m: WaitGroupModel, n: nat)
    requires
        n <= m.left,
    ensures
        ops_admissible(m, unit_done_ops(n)),
        apply_ops(m, unit_done_ops(n)).left == m.left - n,
        apply_ops(m, unit_done_ops(n)).waiting == m.waiting,
        apply_ops(m, unit_done_ops(n)).has_waker == m.has_waker,
        apply_ops(m, unit_done_ops(n)).generation == m.generation,
    decreases n,
{
    let ops = unit_done_ops(n);
    if n > 0 {
        assert(ops[0] == GroupOp::Done(1));
        let rest = ops.subrange(1, ops.len() as int);
        assert(rest =~= unit_done_ops((n - 1) as nat));
        lemma_n_guard_releases_decrement_exactly_n(apply_op(m, ops[0]), (n - 1) as nat);
    }
}

/// Cancelling the currently registered wait attempt restores a clean slot:
/// the counter and the generation are untouched, no registration remains,
/// and a subsequent fresh wait attempt registers without being refused.
pub proof fn lemma_cancel_enables_fresh_wait(m: WaitGroupModel, waker_id: u64, target: usize)
    requires
        waker_id == m.generation,
    ensures
        !register_blocked(cancel_transition(m, waker_id)),
        cancel_transition(m, waker_id).left == m.left,
        cancel_transition(m, waker_id).generation == m.generation,
        group_inv(cancel_transition(m, waker_id)),
        register_transition(cancel_transition(m, waker_id), target).waiting == Some(target),
        register_transition(cancel_transition(m, waker_id), target).left == m.left,
{
}

/// A stale deregistration — one whose generation id a newer registration has
/// superseded — changes nothing at all.
pub proof fn lemma_stale_cancel_is_noop(m: WaitGroupModel, waker_id: u64)
    requires
        waker_id != m.generation,
    ensures
        cancel_transition(m, waker_id) == m,
{
}

} // verus!
