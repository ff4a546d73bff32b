use std::future::Future;
use std::pin::Pin;
use std::sync::{Arc, Mutex};
use std::task::{Context, Poll, Wake, Waker};

use yield_now::YieldNow;

/// A waker that only counts how often it is used.
struct Wakes(Mutex<usize>);

impl Wake for Wakes {
    fn wake(self: Arc<Self>) {
        *self.0.lock().unwrap() += 1;
    }
}

fn counter() -> (Arc<Wakes>, Waker) {
    let wakes = Arc::new(Wakes(Mutex::new(0)));
    let waker = Waker::from(wakes.clone());
    (wakes, waker)
}

fn count(wakes: &Arc<Wakes>) -> usize {
    *wakes.0.lock().unwrap()
}

#[test]
fn first_poll_suspends_and_wakes_once() {
    let (wakes, waker) = counter();
    let mut cx = Context::from_waker(&waker);
    let mut y = YieldNow::Yield;
    assert_eq!(y.poll(&mut cx), Poll::Pending);
    assert_eq!(count(&wakes), 1);
    assert!(matches!(y, YieldNow::Ready));
}

#[test]
fn second_poll_completes() {
    let (wakes, waker) = counter();
    let mut cx = Context::from_waker(&waker);
    let mut y = YieldNow::Yield;
    assert_eq!(y.poll(&mut cx), Poll::Pending);
    assert_eq!(y.poll(&mut cx), Poll::Ready(()));
    assert_eq!(count(&wakes), 1);
    assert!(matches!(y, YieldNow::Ready));
}

#[test]
fn second_poll_completes_whatever_the_waker_saw() {
    let (wakes, waker) = counter();
    let mut cx = Context::from_waker(&waker);
    let mut y = YieldNow::Yield;
    assert_eq!(y.poll(&mut cx), Poll::Pending);
    waker.wake_by_ref();
    waker.wake_by_ref();
    waker.wake_by_ref();
    assert_eq!(count(&wakes), 4);
    assert_eq!(y.poll(&mut cx), Poll::Ready(()));
    assert_eq!(count(&wakes), 4);
}

#[test]
fn second_poll_completes_under_another_waker() {
    let (first, first_waker) = counter();
    let (second, second_waker) = counter();
    let mut y = YieldNow::Yield;
    assert_eq!(y.poll(&mut Context::from_waker(&first_waker)), Poll::Pending);
    assert_eq!(y.poll(&mut Context::from_waker(&second_waker)), Poll::Ready(()));
    assert_eq!(count(&first), 1);
    assert_eq!(count(&second), 0);
}

#[test]
fn polls_after_completion_stay_complete_and_silent() {
    let (wakes, waker) = counter();
    let mut cx = Context::from_waker(&waker);
    let mut y = YieldNow::Ready;
    for _ in 0..10 {
        assert_eq!(y.poll(&mut cx), Poll::Ready(()));
        assert!(matches!(y, YieldNow::Ready));
    }
    assert_eq!(count(&wakes), 0);
}

#[test]
fn many_polls_of_a_fresh_yield_wake_once() {
    let (wakes, waker) = counter();
    let mut cx = Context::from_waker(&waker);
    let mut y = YieldNow::Yield;
    let mut pending = 0;
    for _ in 0..25 {
        if y.poll(&mut cx).is_pending() {
            pending += 1;
        }
    }
    assert_eq!(pending, 1);
    assert_eq!(count(&wakes), 1);
}

#[test]
fn dropping_a_fresh_yield_does_nothing() {
    let (wakes, waker) = counter();
    let before = Arc::strong_count(&wakes);
    let y = YieldNow::Yield;
    drop(y);
    assert_eq!(count(&wakes), 0);
    assert_eq!(Arc::strong_count(&wakes), before);
    drop(waker);
    assert_eq!(Arc::strong_count(&wakes), 1);
}

#[test]
fn dropping_a_suspended_yield_keeps_nothing_back() {
    let (wakes, waker) = counter();
    let before = Arc::strong_count(&wakes);
    let mut y = YieldNow::Yield;
    assert_eq!(Pin::new(&mut y).poll(&mut Context::from_waker(&waker)), Poll::Pending);
    drop(y);
    assert_eq!(count(&wakes), 1);
    assert_eq!(Arc::strong_count(&wakes), before);
}

#[test]
fn advance_reports_the_wake_of_the_first_step_only() {
    let mut y = YieldNow::Yield;
    assert!(y.advance());
    assert!(matches!(y, YieldNow::Ready));
    assert!(!y.advance());
    assert!(matches!(y, YieldNow::Ready));
    assert!(!y.advance());
}

#[test]
fn advance_in_ready_asks_for_no_wake() {
    let mut y = YieldNow::Ready;
    assert!(!y.advance());
    assert!(matches!(y, YieldNow::Ready));
}

#[test]
fn advance_and_poll_share_one_state() {
    let (wakes, waker) = counter();
    let mut cx = Context::from_waker(&waker);
    let mut y = YieldNow::Yield;
    assert!(y.advance());
    assert_eq!(y.poll(&mut cx), Poll::Ready(()));
    assert_eq!(count(&wakes), 0);
}

#[test]
fn pinned_poll_behaves_as_the_plain_one() {
    let (wakes, waker) = counter();
    let mut cx = Context::from_waker(&waker);
    let mut y = YieldNow::Yield;
    assert_eq!(Pin::new(&mut y).poll(&mut cx), Poll::Pending);
    assert_eq!(count(&wakes), 1);
    assert!(matches!(y, YieldNow::Ready));
    assert_eq!(Pin::new(&mut y).poll(&mut cx), Poll::Ready(()));
    assert_eq!(Pin::new(&mut y).poll(&mut cx), Poll::Ready(()));
    assert_eq!(count(&wakes), 1);
}

#[test]
fn a_copy_is_a_yield_of_its_own() {
    let (wakes, waker) = counter();
    let mut cx = Context::from_waker(&waker);
    let mut first = YieldNow::Yield;
    let mut second = first;
    assert_eq!(first.poll(&mut cx), Poll::Pending);
    assert!(matches!(second, YieldNow::Yield));
    assert_eq!(second.poll(&mut cx), Poll::Pending);
    assert_eq!(count(&wakes), 2);
    let mut third = first.clone();
    assert_eq!(third.poll(&mut cx), Poll::Ready(()));
    assert_eq!(count(&wakes), 2);
}

#[test]
fn debug_names_the_state() {
    assert_eq!(format!("{:?}", YieldNow::Yield), "Yield");
    assert_eq!(format!("{:?}", YieldNow::Ready), "Ready");
}
