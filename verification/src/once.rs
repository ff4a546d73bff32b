//! The two-state future behind a yield.
use vstd::prelude::*;
use core::future::Future;
use core::pin::Pin;
use core::task::{Context, Poll};

verus! {

/// A yield in flight.
///
/// A value starts as `Yield`. The first poll moves it to `Ready`, wakes the
/// task and reports `Pending`; from then on every poll reports `Ready(())`
/// and touches nothing. `Yield -> Ready` is the only transition there is.
#[derive(Clone, Copy, Debug)]
pub enum YieldNow {
    /// Not polled yet: the next poll suspends the task.
    Yield,
    /// Polled at least once: the next poll completes.
    Ready,
}

impl YieldNow {
    /// The state that a poll leaves behind.
    pub open spec fn after_poll(self) -> YieldNow {
        YieldNow::Ready
    }

    /// Whether a poll in this state wakes the task.
    pub open spec fn wakes(self) -> bool {
        self is Yield
    }

    /// What a poll in this state reports.
    pub open spec fn outcome(self) -> Poll<()> {
        match self {
            YieldNow::Yield => Poll::Pending,
            YieldNow::Ready => Poll::Ready(()),
        }
    }

    /// Takes the one step of the state machine and returns whether the task
    /// has to be woken for it.
    ///
    /// This is the whole decision of a poll, free of any waker: a caller that
    /// wakes the task exactly when `true` comes back, and suspends exactly
    /// then, has polled the yield.
    pub fn advance(&mut self) -> (wake: bool)
        ensures
            *final(self) == old(self).after_poll(),
            wake == old(self).wakes(),
    {
        match *self {
            YieldNow::Yield => {
                *self = YieldNow::Ready;
                true
            },
            YieldNow::Ready => false,
        }
    }

    /// Polls the yield on behalf of the task that `cx` belongs to.
    ///
    /// In `Yield` the task is woken through `cx`, once and before the function
    /// returns, and `Pending` comes back. In `Ready` the waker is left alone
    /// and `Ready(())` comes back. Whether the waker is used is decided by
    /// [`YieldNow::advance`] and by nothing else.
    pub fn poll(&mut self, cx: &mut Context<'_>) -> (r: Poll<()>)
        ensures
            *final(self) == old(self).after_poll(),
            r == old(self).outcome(),
    {
        if self.advance() {
            cx.waker().wake_by_ref();
            Poll::Pending
        } else {
            Poll::Ready(())
        }
    }
}

/// The mutable reference that a pin of a yield holds: what `Pin::get_mut`
/// returns for it.
pub uninterp spec fn pinned(slot: Pin<&mut YieldNow>) -> &mut YieldNow;

/// `Pin::get_mut` on a pinned yield. `YieldNow` is `Unpin`, so the call is
/// safe. It hands out the very reference that the pin holds, and that is all
/// that is claimed: what lies behind the reference is not spoken of.
#[verifier::external_body]
fn unpinned<'a>(slot: Pin<&'a mut YieldNow>) -> (state: &'a mut YieldNow)
    ensures
        state == pinned(slot),
{
    Pin::get_mut(slot)
}

impl Future for YieldNow {
    type Output = ();

    /// Polls the pinned yield: [`YieldNow::poll`] on the state behind the pin.
    ///
    /// The state behind the pin ends as `Ready`, and what comes back is
    /// `Pending` if it was `Yield` on entry and `Ready(())` if it was `Ready`.
    fn poll(self: Pin<&mut Self>, cx: &mut Context<'_>) -> (r: Poll<()>)
        ensures
            *final(pinned(self)) == (*pinned(self)).after_poll(),
            r == (*pinned(self)).outcome(),
    {
        let state = unpinned(self);
        YieldNow::poll(state, cx)
    }
}

} // verus!
