//! A counting synchronization primitive (a wait group), modelled as a
//! verified state machine.
//!
//! Producers increment and decrement a shared counter; a single consumer
//! waits until the counter has dropped to a chosen threshold.  The waiting
//! side is expressed as an explicit poll/register/cancel protocol so that an
//! unverified asynchronous shell can drive it: every decision — whether a
//! decrement underflows, whether a registered waiter must be woken, whether a
//! second registration is a usage error, whether a wait attempt is complete —
//! is taken by the verified functions in this crate, and the shell only
//! performs the resulting actions (waking a stored callback, suspending,
//! failing fast).

mod model;
mod group;
mod wait;
mod laws;

pub use model::{
    GroupOp, WaitFutureModel, WaitGroupModel, apply_op, apply_ops, cancel_transition,
    group_inv, net_delta, op_admissible, op_delta, ops_admissible, register_blocked,
    register_transition, unit_done_ops, wake_crosses,
};
pub use group::{DoneOutcome, RegisterOutcome, WaitGroup, WaitGroupGuard};
pub use wait::{PollOutcome, WaitGroupFuture};
pub use laws::{
    lemma_cancel_enables_fresh_wait, lemma_counter_tracks_net_sum,
    lemma_n_guard_releases_decrement_exactly_n, lemma_stale_cancel_is_noop,
};
