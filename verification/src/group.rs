use vstd::prelude::*;

use crate::model::{GroupOp, WaitGroupModel, apply_op, cancel_transition, group_inv,
    register_blocked, register_transition, wake_crosses};

verus! {

/// What a decrement decided, for the caller to act on.
pub enum DoneOutcome {
    /// The decrement was applied and no registered waiter reached its threshold.
    Quiet,
    /// The decrement was applied and brought the counter at or below the
    /// registered threshold: the stored resume callback must be invoked.
    /// The registration itself stays in place — the waiter's own re-poll is
    /// authoritative, and a spurious wake is harmless.
    Wake,
    /// The decrement would drive the counter negative: a fatal usage error.
    /// The state is left unchanged; the caller must fail fast.
    Underflow,
}

/// What a registration attempt decided, for the caller to act on.
pub enum RegisterOutcome {
    /// The attempt was registered under the returned (fresh) generation id.
    Registered(u64),
    /// A different wait attempt is still registered: a fatal usage error —
    /// concurrent waiters are unsupported by design. The state is unchanged;
    /// the caller must fail fast.
    AlreadyWaiting,
}

/// The wait group: a counter of outstanding work items together with the
/// registration slot for the single permitted waiter.
///
/// All operations are total and decide everything themselves; misuse
/// (decrementing below zero, registering a second concurrent waiter) is
/// reported as an explicit outcome for the caller to turn into a fatal
/// failure.
pub struct WaitGroup {
    left: usize,
    waiting: Option<usize>,
    has_waker: bool,
    generation: u64,
}

impl View for WaitGroup {
    type V = WaitGroupModel;

    closed spec fn view(&self) -> WaitGroupModel {
        WaitGroupModel {
            left: self.left,
            waiting: self.waiting,
            has_waker: self.has_waker,
            generation: self.generation,
        }
    }
}

impl WaitGroup {
    /// A fresh instance: counter at zero, nothing registered.
    pub fn new() -> (r: Self)
        ensures
            r@.left == 0,
            r@.waiting is None,
            !r@.has_waker,
            r@.generation == 0,
            group_inv(r@),
    {
        WaitGroup { left: 0, waiting: None, has_waker: false, generation: 0 }
    }

    /// The count of outstanding work items.
    pub fn left(&self) -> (r: usize)
        ensures
            r == self@.left,
    {
        self.left
    }

    /// Add `i` to the counter. Does not interact with the registration slot.
    pub fn add(&mut self, i: usize)
        requires
            old(self)@.left + i <= usize::MAX,
        ensures
            final(self)@ == apply_op(old(self)@, GroupOp::Add(i)),
            group_inv(old(self)@) ==> group_inv(final(self)@),
    {
        self.left = self.left + i;
    }

    /// Add one to the counter and hand out a guard owing exactly one
    /// decrement. Releasing the guard performs that decrement exactly once;
    /// a guard that is never released leaks one outstanding unit of work.
    pub fn add_guard(&mut self) -> (g: WaitGroupGuard)
        requires
            old(self)@.left + 1 <= usize::MAX,
        ensures
            final(self)@ == apply_op(old(self)@, GroupOp::Add(1)),
            group_inv(old(self)@) ==> group_inv(final(self)@),
    {
        self.left = self.left + 1;
        WaitGroupGuard { owed: () }
    }

    /// Decrement the counter by one and report what the caller must do.
    pub fn done(&mut self) -> (r: DoneOutcome)
        ensures
            old(self)@.left == 0 ==> r is Underflow && final(self)@ == old(self)@,
            old(self)@.left >= 1 ==> final(self)@ == apply_op(old(self)@, GroupOp::Done(1)),
            old(self)@.left >= 1 ==> !(r is Underflow),
            old(self)@.left >= 1 ==> (r is Wake <==> wake_crosses(old(self)@, 1)),
            old(self)@.left >= 1 ==> (r is Quiet <==> !wake_crosses(old(self)@, 1)),
            group_inv(old(self)@) ==> group_inv(final(self)@),
    {
        self.done_many(1)
    }

    /// Decrement the counter by `count`.
    ///
    /// A decrement that would drive the counter negative is refused as
    /// `Underflow` with the state unchanged — a fatal usage error for the
    /// caller to act on. Otherwise the counter drops by `count` and the
    /// outcome says whether the registered waiter (if any) reached its
    /// threshold and must be woken; the registration is not cleared by a
    /// wake, the waiter's own re-poll is authoritative.
    pub fn done_many(&mut self, count: usize) -> (r: DoneOutcome)
        ensures
            count > old(self)@.left ==> r is Underflow && final(self)@ == old(self)@,
            count <= old(self)@.left ==> final(self)@ == apply_op(old(self)@, GroupOp::Done(count)),
            count <= old(self)@.left ==> !(r is Underflow),
            count <= old(self)@.left ==> (r is Wake <==> wake_crosses(old(self)@, count)),
            count <= old(self)@.left ==> (r is Quiet <==> !wake_crosses(old(self)@, count)),
            group_inv(old(self)@) ==> group_inv(final(self)@),
    {
        if count > self.left {
            DoneOutcome::Underflow
        } else {
            self.left = self.left - count;
            match self.waiting {
                Some(w) => {
                    if self.left <= w {
                        DoneOutcome::Wake
                    } else {
                        DoneOutcome::Quiet
                    }
                }
                None => DoneOutcome::Quiet,
            }
        }
    }

    /// Register a wait attempt for `target`: store the threshold and the
    /// resume callback under a fresh generation. Refused (state unchanged)
    /// while a different attempt's registration is still in place — the
    /// caller must treat that as a fatal usage error.
    pub fn set_waker(&mut self, target: usize) -> (r: RegisterOutcome)
        requires
            old(self)@.generation < u64::MAX,
        ensures
            register_blocked(old(self)@) ==> r is AlreadyWaiting && final(self)@ == old(self)@,
            !register_blocked(old(self)@) ==> final(self)@ == register_transition(old(self)@, target),
            !register_blocked(old(self)@) ==> (r matches RegisterOutcome::Registered(g)
                && g == final(self)@.generation),
            group_inv(old(self)@) ==> group_inv(final(self)@),
    {
        match self.waiting {
            Some(_) => RegisterOutcome::AlreadyWaiting,
            None => {
                self.generation = self.generation + 1;
                self.waiting = Some(target);
                self.has_waker = true;
                RegisterOutcome::Registered(self.generation)
            }
        }
    }

    /// Deregister the wait attempt that registered under `waker_id`: the
    /// threshold and the callback are cleared together, but only if
    /// `waker_id` still matches the latest registration. A stale id — an
    /// abandoned attempt that a newer registration has superseded — is a
    /// no-op, so cancellation cannot clobber an unrelated attempt.
    pub fn cancel_wait(&mut self, waker_id: u64)
        ensures
            final(self)@ == cancel_transition(old(self)@, waker_id),
            group_inv(old(self)@) ==> group_inv(final(self)@),
    {
        if self.generation == waker_id {
            self.waiting = None;
            self.has_waker = false;
        }
    }

    /// The generation id of the latest registration; `0` if none ever occurred.
    pub fn generation(&self) -> (r: u64)
        ensures
            r == self@.generation,
    {
        self.generation
    }

    /// The threshold of the currently registered wait attempt, if any.
    pub fn waiting_target(&self) -> (r: Option<usize>)
        ensures
            r == self@.waiting,
    {
        self.waiting
    }

    /// Whether a resume callback is currently stored.
    pub fn has_waker(&self) -> (r: bool)
        ensures
            r == self@.has_waker,
    {
        self.has_waker
    }
}

/// A scoped decrement guard: the obligation of exactly one pending decrement,
/// created by [`WaitGroup::add_guard`]. Releasing it consumes the guard, so
/// the owed decrement happens at most once; a guard that is never released
/// leaks one outstanding unit of work.
pub struct WaitGroupGuard {
    owed: (),
}

impl WaitGroupGuard {
    /// Perform the owed decrement, consuming the guard. The outcome is the
    /// same as for [`WaitGroup::done`]: `Underflow` only if the counter is
    /// already zero (a usage error — the guard's unit was already taken by a
    /// plain decrement), otherwise the counter drops by exactly one.
    pub fn release(self, wg: &mut WaitGroup) -> (r: DoneOutcome)
        ensures
            old(wg)@.left == 0 ==> r is Underflow && final(wg)@ == old(wg)@,
            old(wg)@.left >= 1 ==> final(wg)@ == apply_op(old(wg)@, GroupOp::Done(1)),
            old(wg)@.left >= 1 ==> !(r is Underflow),
            old(wg)@.left >= 1 ==> (r is Wake <==> wake_crosses(old(wg)@, 1)),
            old(wg)@.left >= 1 ==> (r is Quiet <==> !wake_crosses(old(wg)@, 1)),
            group_inv(old(wg)@) ==> group_inv(final(wg)@),
    {
        wg.done()
    }
}

} // verus!
