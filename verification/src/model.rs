use vstd::prelude::*;

verus! {

/// Abstract state of a wait group: the live counter, the threshold the
/// single registered waiter is suspended on (if any), whether a resume
/// callback is currently stored, and the generation number of the latest
/// registration.
pub ghost struct WaitGroupModel {
    /// count of outstanding work items
    pub left: usize,
    /// threshold of the currently registered wait attempt, if one is registered
    pub waiting: Option<usize>,
    /// whether a resume callback is stored for the registered attempt
    pub has_waker: bool,
    /// generation number of the latest registration; `0` means none ever occurred
    pub generation: u64,
}

/// Abstract state of one threshold-wait attempt: the threshold it waits for
/// and the generation it registered under (`0` while unregistered).
pub ghost struct WaitFutureModel {
    pub target: usize,
    pub waker_id: u64,
}

/// The registration slot is consistent as a unit: a threshold is stored
/// exactly when a resume callback is stored.
pub open spec fn group_inv(m: WaitGroupModel) -> bool {
    m.waiting is Some <==> m.has_waker
}

/// A producer-side counter operation.
pub enum GroupOp {
    /// increment the counter by the given amount
    Add(usize),
    /// decrement the counter by the given amount
    Done(usize),
}

/// The operation neither overflows the counter nor drives it negative.
pub open spec fn op_admissible(m: WaitGroupModel, op: GroupOp) -> bool {
    match op {
        GroupOp::Add(n) => m.left + n <= usize::MAX,
        GroupOp::Done(n) => n <= m.left,
    }
}

/// Effect of one admissible counter operation: only the counter moves; the
/// registration slot (threshold, callback, generation) is untouched.
pub open spec fn apply_op(m: WaitGroupModel, op: GroupOp) -> WaitGroupModel {
    match op {
        GroupOp::Add(n) => WaitGroupModel { left: (m.left + n) as usize, ..m },
        GroupOp::Done(n) => WaitGroupModel { left: (m.left - n) as usize, ..m },
    }
}

/// Every operation in the sequence is admissible in the state it meets.
pub open spec fn ops_admissible(m: WaitGroupModel, ops: Seq<GroupOp>) -> bool
    decreases ops.len(),
{
    ops.len() == 0
        || (op_admissible(m, ops[0])
            && ops_admissible(apply_op(m, ops[0]), ops.subrange(1, ops.len() as int)))
}

/// State after applying a whole sequence of counter operations in order.
pub open spec fn apply_ops(m: WaitGroupModel, ops: Seq<GroupOp>) -> WaitGroupModel
    decreases ops.len(),
{
    if ops.len() == 0 {
        m
    } else {
        apply_ops(apply_op(m, ops[0]), ops.subrange(1, ops.len() as int))
    }
}

/// Signed contribution of one operation to the counter.
pub open spec fn op_delta(op: GroupOp) -> int {
    match op {
        GroupOp::Add(n) => n as int,
        GroupOp::Done(n) => -(n as int),
    }
}

/// Net sum of a sequence of operations: increments minus decrements.
pub open spec fn net_delta(ops: Seq<GroupOp>) -> int
    decreases ops.len(),
{
    if ops.len() == 0 {
        0
    } else {
        op_delta(ops[0]) + net_delta(ops.subrange(1, ops.len() as int))
    }
}

/// Decrementing by `count` lands the counter at or below the registered
/// threshold: the stored resume callback must be invoked.
pub open spec fn wake_crosses(m: WaitGroupModel, count: usize) -> bool {
    m.waiting matches Some(w) && m.left - count <= w
}

/// Registration is refused while another attempt's threshold is still stored.
pub open spec fn register_blocked(m: WaitGroupModel) -> bool {
    m.waiting is Some
}

/// Effect of registering a wait attempt for `target`: a fresh generation, the
/// threshold and the callback stored together; the counter is untouched.
pub open spec fn register_transition(m: WaitGroupModel, target: usize) -> WaitGroupModel {
    WaitGroupModel {
        waiting: Some(target),
        has_waker: true,
        generation: (m.generation + 1) as u64,
        ..m
    }
}

/// Effect of deregistering under a generation id: the slot is cleared only if
/// the id still matches the latest registration; a stale id leaves the state
/// alone, so an abandoned attempt cannot clobber a later one.
pub open spec fn cancel_transition(m: WaitGroupModel, waker_id: u64) -> WaitGroupModel {
    if waker_id == m.generation {
        WaitGroupModel { waiting: None, has_waker: false, ..m }
    } else {
        m
    }
}

/// `n` unit decrements, as released guards perform them.
pub open spec fn unit_done_ops(n: nat) -> Seq<GroupOp> {
    Seq::new(n, |i: int| GroupOp::Done(1))
}

} // verus!
