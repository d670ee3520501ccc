use vstd::prelude::*;

use crate::group::{RegisterOutcome, WaitGroup};
use crate::model::{WaitFutureModel, cancel_transition, group_inv, register_blocked,
    register_transition};

verus! {

/// What one poll of a wait attempt decided, for the driving scheduler to act on.
pub enum PollOutcome {
    /// The threshold is met: the wait is complete and this attempt's
    /// registration (if it had one) has been cleared.
    Ready,
    /// The threshold is not met: the attempt is registered and a resume
    /// callback is stored; the caller must suspend and poll again when the
    /// callback fires (or spuriously — the re-poll is authoritative).
    Pending,
    /// A different wait attempt is still registered: a fatal usage error —
    /// concurrent waiters are unsupported by design. Nothing was changed;
    /// the caller must fail fast.
    AlreadyWaiting,
}

/// One threshold-wait attempt: the awaitable unit created by
/// [`WaitGroup::wait_to`]. It implements the poll/register/cancel protocol;
/// a holder that abandons the attempt before completion must call
/// [`WaitGroupFuture::cancel`] so no stale registration is left behind.
pub struct WaitGroupFuture {
    target: usize,
    waker_id: u64,
}

impl View for WaitGroupFuture {
    type V = WaitFutureModel;

    closed spec fn view(&self) -> WaitFutureModel {
        WaitFutureModel { target: self.target, waker_id: self.waker_id }
    }
}

impl WaitGroup {
    /// Begin waiting until the counter is at or below `target`.
    ///
    /// Returns `None` — no suspension at all — exactly when the counter is
    /// already at or below `target`. Otherwise returns the wait attempt,
    /// which the caller drives by [`WaitGroupFuture::poll`] until `Ready`.
    pub fn wait_to(&self, target: usize) -> (r: Option<WaitGroupFuture>)
        ensures
            r is None <==> self@.left <= target,
            r matches Some(f) ==> f@.target == target && f@.waker_id == 0,
    {
        if self.left() <= target {
            None
        } else {
            Some(WaitGroupFuture { target, waker_id: 0 })
        }
    }

    /// Begin waiting until the counter reaches zero; `wait_to` with target 0.
    pub fn wait(&self) -> (r: Option<WaitGroupFuture>)
        ensures
            r is None <==> self@.left == 0,
            r matches Some(f) ==> f@.target == 0 && f@.waker_id == 0,
    {
        self.wait_to(0)
    }
}

impl WaitGroupFuture {
    /// The threshold this attempt waits for.
    pub fn target(&self) -> (r: usize)
        ensures
            r == self@.target,
    {
        self.target
    }

    /// The generation this attempt registered under; `0` while unregistered.
    pub fn waker_id(&self) -> (r: u64)
        ensures
            r == self@.waker_id,
    {
        self.waker_id
    }

    /// One check of the completion condition: if the counter is at or below
    /// the target, deregister (a no-op unless this attempt holds the current
    /// registration) and report completion.
    fn check_done(&mut self, wg: &mut WaitGroup) -> (r: bool)
        ensures
            r <==> old(wg)@.left <= old(self)@.target,
            final(self)@.target == old(self)@.target,
            !r ==> final(self)@ == old(self)@ && final(wg)@ == old(wg)@,
            r ==> final(self)@.waker_id == 0,
            r && old(self)@.waker_id != 0 ==> final(wg)@
                == cancel_transition(old(wg)@, old(self)@.waker_id),
            r && old(self)@.waker_id == 0 ==> final(wg)@ == old(wg)@,
            group_inv(old(wg)@) ==> group_inv(final(wg)@),
    {
        if wg.left() <= self.target {
            self.cancel(wg);
            true
        } else {
            false
        }
    }

    /// Abandon the attempt: deregister from the wait group if this attempt
    /// registered and its registration is still the current one. Cancelling
    /// an unregistered or stale attempt leaves the group untouched, so a
    /// cancelled wait can never disturb a later, fresh one.
    pub fn cancel(&mut self, wg: &mut WaitGroup)
        ensures
            final(self)@.target == old(self)@.target,
            final(self)@.waker_id == 0,
            old(self)@.waker_id != 0 ==> final(wg)@
                == cancel_transition(old(wg)@, old(self)@.waker_id),
            old(self)@.waker_id == 0 ==> final(wg)@ == old(wg)@,
            group_inv(old(wg)@) ==> group_inv(final(wg)@),
    {
        if self.waker_id == 0 {
            return;
        }
        wg.cancel_wait(self.waker_id);
        self.waker_id = 0;
    }

    /// One poll of the attempt, under the double-check registration pattern:
    /// if unregistered, first re-check the counter (a decrement may already
    /// have satisfied the wait); if not satisfied, register under a fresh
    /// generation and check once more, which closes the race with a
    /// decrement that ran between the first check and the registration.
    ///
    /// `Ready` exactly when the counter is at or below the target at this
    /// poll; `AlreadyWaiting` exactly when this attempt would have to
    /// register while a different attempt's registration is still in place.
    pub fn poll(&mut self, wg: &mut WaitGroup) -> (r: PollOutcome)
        requires
            old(self)@.waker_id == 0 ==> old(wg)@.generation < u64::MAX,
        ensures
            final(self)@.target == old(self)@.target,
            final(wg)@.left == old(wg)@.left,
            r is Ready <==> old(wg)@.left <= old(self)@.target,
            r is Ready ==> final(self)@.waker_id == 0,
            r is Ready && old(self)@.waker_id != 0 ==> final(wg)@
                == cancel_transition(old(wg)@, old(self)@.waker_id),
            r is Ready && old(self)@.waker_id == 0 ==> final(wg)@ == old(wg)@,
            r is Pending && old(self)@.waker_id != 0 ==> final(wg)@ == old(wg)@
                && final(self)@ == old(self)@,
            r is Pending && old(self)@.waker_id == 0 ==> final(wg)@
                == register_transition(old(wg)@, old(self)@.target)
                && final(self)@.waker_id == final(wg)@.generation,
            r is AlreadyWaiting <==> old(self)@.waker_id == 0
                && old(wg)@.left > old(self)@.target && register_blocked(old(wg)@),
            r is AlreadyWaiting ==> final(wg)@ == old(wg)@ && final(self)@ == old(self)@,
            group_inv(old(wg)@) ==> group_inv(final(wg)@),
    {
        if self.waker_id == 0 {
            if self.check_done(wg) {
                return PollOutcome::Ready;
            }
            match wg.set_waker(self.target) {
                RegisterOutcome::Registered(id) => {
                    self.waker_id = id;
                }
                RegisterOutcome::AlreadyWaiting => {
                    return PollOutcome::AlreadyWaiting;
                }
            }
        }
        if self.check_done(wg) {
            PollOutcome::Ready
        } else {
            PollOutcome::Pending
        }
    }
}

} // verus!
