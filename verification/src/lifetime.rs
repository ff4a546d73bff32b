//! A yield over its whole life: what any number of polls in a row add up to.
use vstd::prelude::*;
use core::task::Poll;
use crate::once::YieldNow;

verus! {

impl YieldNow {
    /// The state after `n` polls.
    pub open spec fn after_polls(self, n: nat) -> YieldNow
        decreases n,
    {
        if n == 0 {
            self
        } else {
            self.after_poll().after_polls((n - 1) as nat)
        }
    }

    /// How many of the next `n` polls wake the task.
    pub open spec fn wakes_in(self, n: nat) -> nat
        decreases n,
    {
        if n == 0 {
            0
        } else {
            (if self.wakes() { 1nat } else { 0nat }) + self.after_poll().wakes_in((n - 1) as nat)
        }
    }

    /// How many of the next `n` polls report `Pending`.
    pub open spec fn suspensions_in(self, n: nat) -> nat
        decreases n,
    {
        if n == 0 {
            0
        } else {
            (if self.outcome() is Pending { 1nat } else { 0nat })
                + self.after_poll().suspensions_in((n - 1) as nat)
        }
    }
}

/// A poll wakes the task exactly when it reports `Pending`: no suspension
/// without a wake, and no wake without a suspension.
pub proof fn wake_goes_with_suspension(s: YieldNow)
    ensures
        s.wakes() <==> s.outcome() is Pending,
{
}

/// The first poll of a fresh yield reports `Pending`, wakes the task exactly
/// once, and leaves the yield done.
pub proof fn first_poll_suspends(s: YieldNow)
    requires
        s is Yield,
    ensures
        s.outcome() == Poll::<()>::Pending,
        s.wakes(),
        s.wakes_in(1) == 1,
        s.after_poll() is Ready,
{
    reveal_with_fuel(YieldNow::wakes_in, 2);
}

/// Once a yield is done it stays done: any number of further polls leave it
/// in `Ready`, none of them wakes the task or reports `Pending`, and the next
/// one reports `Ready(())`.
pub proof fn done_stays_done(s: YieldNow, n: nat)
    requires
        s is Ready,
    ensures
        s.after_polls(n) is Ready,
        s.after_polls(n).outcome() == Poll::Ready(()),
        s.wakes_in(n) == 0,
        s.suspensions_in(n) == 0,
    decreases n,
{
    if n > 0 {
        done_stays_done(s.after_poll(), (n - 1) as nat);
    }
}

/// After a fresh yield has been polled once or more, the next poll reports
/// `Ready(())`. The waker plays no part in that.
pub proof fn later_polls_complete(s: YieldNow, k: nat)
    requires
        s is Yield,
        k >= 1,
    ensures
        s.after_polls(k) is Ready,
        s.after_polls(k).outcome() == Poll::Ready(()),
{
    done_stays_done(s.after_poll(), (k - 1) as nat);
}

/// However often a fresh yield is polled, if it is polled at all, it
/// suspends the task exactly once and wakes it exactly once.
pub proof fn one_suspension_in_a_lifetime(s: YieldNow, n: nat)
    requires
        s is Yield,
        n >= 1,
    ensures
        s.suspensions_in(n) == 1,
        s.wakes_in(n) == 1,
{
    done_stays_done(s.after_poll(), (n - 1) as nat);
}

} // verus!
