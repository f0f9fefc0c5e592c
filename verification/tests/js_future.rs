use std::cell::Cell;
use std::rc::Rc;

use promise_bridge::js_future::{finish, JsFuture, ProtocolViolation};
use promise_bridge::package::{rust2js, Package, Phase, Step};
use promise_bridge::poll::{Async, Settlement};

type Future = JsFuture<&'static str, String, u32, u8>;

#[test]
fn rejected_promise_fails_the_future_on_the_next_poll() {
    let mut future: JsFuture<u8, &str, u32, u8> = JsFuture::from(0);
    assert_eq!(future.poll(1, |_| 0), Ok(Async::NotReady));
    assert_eq!(future.settle(Err("bad")), Ok(Some(1)));
    assert_eq!(future.poll(2, |_| 0), Err("bad"));
}

#[test]
fn fulfilled_promise_completes_the_future_after_settlement_only() {
    let mut future: Future = JsFuture::from("promise");
    for task in 0..4 {
        assert_eq!(future.poll(task, |_| 0), Ok(Async::NotReady));
    }
    assert_eq!(future.settle(Ok("value".to_string())), Ok(Some(3)));
    assert_eq!(future.poll(9, |_| 0), Ok(Async::Ready("value".to_string())));
}

#[test]
fn settlement_is_passed_on_once() {
    let mut future: Future = JsFuture::from("promise");
    assert_eq!(future.poll(1, |_| 0), Ok(Async::NotReady));
    assert_eq!(future.settle(Ok("value".to_string())), Ok(Some(1)));
    assert_eq!(future.poll(2, |_| 0), Ok(Async::Ready("value".to_string())));
    assert_eq!(future.poll(3, |_| 0), Ok(Async::NotReady));
    assert_eq!(future.poll(4, |_| 0), Ok(Async::NotReady));
}

#[test]
fn second_settlement_is_refused_and_changes_nothing() {
    let mut future: Future = JsFuture::from("promise");
    assert_eq!(future.poll(1, |_| 0), Ok(Async::NotReady));
    assert_eq!(future.settle(Ok("first".to_string())), Ok(Some(1)));
    assert_eq!(future.settle(Ok("second".to_string())), Err(ProtocolViolation::AlreadySettled));
    assert_eq!(future.settle(Err("third".to_string())), Err(ProtocolViolation::AlreadySettled));
    assert_eq!(future.poll(2, |_| 0), Ok(Async::Ready("first".to_string())));
    assert_eq!(future.settle(Err("fourth".to_string())), Err(ProtocolViolation::AlreadySettled));
    assert_eq!(future.poll(3, |_| 0), Ok(Async::NotReady));
}

#[test]
fn settlement_without_registration_is_refused() {
    let mut future: Future = JsFuture::from("promise");
    assert_eq!(future.settle(Ok("early".to_string())), Err(ProtocolViolation::NotRegistered));
    assert!(!future.registered());
    assert_eq!(future.poll(1, |_| 0), Ok(Async::NotReady));
    assert_eq!(future.settle(Ok("late".to_string())), Ok(Some(1)));
    assert_eq!(future.poll(2, |_| 0), Ok(Async::Ready("late".to_string())));
}

#[test]
fn callbacks_are_registered_on_the_first_poll_and_never_again() {
    let calls = Cell::new(0u32);
    let mut future: Future = JsFuture::from("promise");
    assert!(!future.registered());
    assert!(!future.holds_callbacks());
    for task in 0..3 {
        let answer = future.poll(task, |promise| {
            assert_eq!(*promise, "promise");
            calls.set(calls.get() + 1);
            0
        });
        assert_eq!(answer, Ok(Async::NotReady));
        assert!(future.registered());
        assert!(future.holds_callbacks());
    }
    future.register(|_| {
        calls.set(calls.get() + 1);
        0
    });
    assert_eq!(future.settle(Ok("value".to_string())), Ok(Some(2)));
    let answer = future.poll(3, |_| {
        calls.set(calls.get() + 1);
        0
    });
    assert_eq!(answer, Ok(Async::Ready("value".to_string())));
    assert_eq!(calls.get(), 1);
}

#[test]
fn register_alone_records_no_wake_handle() {
    let mut future: Future = JsFuture::from("promise");
    future.register(|_| 0);
    assert!(future.registered());
    assert!(future.holds_callbacks());
    assert_eq!(future.settle(Err("bad".to_string())), Ok(None));
    assert_eq!(future.poll(1, |_| 0), Err("bad".to_string()));
}

#[test]
fn callbacks_are_released_at_settlement() {
    let callbacks = Rc::new(());
    let mut future: JsFuture<u8, u32, u32, Rc<()>> = JsFuture::from(0);
    let kept = callbacks.clone();
    assert_eq!(future.poll(1, move |_| kept), Ok(Async::NotReady));
    assert_eq!(Rc::strong_count(&callbacks), 2);
    assert_eq!(future.settle(Ok(5)), Ok(Some(1)));
    assert_eq!(Rc::strong_count(&callbacks), 1);
    assert!(!future.holds_callbacks());
    assert!(future.registered());
}

#[test]
fn refused_settlement_keeps_the_callbacks() {
    let callbacks = Rc::new(());
    let mut future: JsFuture<u8, u32, u32, Rc<()>> = JsFuture::from(0);
    assert_eq!(future.settle(Ok(5)), Err(ProtocolViolation::NotRegistered));
    let kept = callbacks.clone();
    future.register(move |_| kept);
    assert_eq!(Rc::strong_count(&callbacks), 2);
    assert!(future.holds_callbacks());
}

#[test]
fn settlement_hands_back_the_handle_of_the_last_poll() {
    let mut future: Future = JsFuture::from("promise");
    assert_eq!(future.poll(10, |_| 0), Ok(Async::NotReady));
    assert_eq!(future.poll(20, |_| 0), Ok(Async::NotReady));
    assert_eq!(future.poll(30, |_| 0), Ok(Async::NotReady));
    assert_eq!(future.settle(Err("bad".to_string())), Ok(Some(30)));
}

#[test]
fn poll_that_finds_a_result_records_no_handle() {
    let mut future: Future = JsFuture::from("promise");
    future.register(|_| 0);
    assert_eq!(future.settle(Ok("value".to_string())), Ok(None));
    assert_eq!(future.poll(1, |_| 0), Ok(Async::Ready("value".to_string())));
    assert_eq!(future.settle(Ok("again".to_string())), Err(ProtocolViolation::AlreadySettled));
}

#[test]
fn settlement_of_a_dropped_future_wakes_nobody() {
    let gone: Option<&mut Future> = None;
    assert_eq!(finish(gone, Ok("value".to_string())), Ok(None));
}

#[test]
fn settlement_through_the_callback_reaches_the_future() {
    let mut future: Future = JsFuture::from("promise");
    assert_eq!(future.poll(4, |_| 0), Ok(Async::NotReady));
    assert_eq!(finish(Some(&mut future), Err("bad".to_string())), Ok(Some(4)));
    assert_eq!(
        finish(Some(&mut future), Err("worse".to_string())),
        Err(ProtocolViolation::AlreadySettled)
    );
    assert_eq!(future.poll(5, |_| 0), Err("bad".to_string()));
}

#[test]
fn promise_drives_a_future_that_settles_another_promise() {
    // The future waits for a promise; the package turns that future into a
    // second promise. The wake handle of the task is the package's handle.
    let mut inner: JsFuture<u8, u32, u8, u8> = JsFuture::from(0);
    let mut package: Package<u8> = rust2js();
    let me = 1u8;

    let step: Step<u32> = package.poll(me);
    assert_eq!(step, Step::Poll);
    let answer = inner.poll(me, |_| 0);
    assert_eq!(answer, Ok(Async::NotReady));
    let step = package.polled(answer, me);
    assert_eq!(step, Step::Wait);
    assert_eq!(package.phase(), Phase::Waiting);

    let task = inner.settle(Ok(42)).unwrap();
    assert_eq!(task, Some(me));
    let woken = package.notify();
    assert_eq!(woken, Some(me));

    let step: Step<u32> = package.poll(me);
    assert_eq!(step, Step::Poll);
    let answer = inner.poll(me, |_| 0);
    assert_eq!(answer, Ok(Async::Ready(42)));
    let step = package.polled(answer, me);
    assert_eq!(step, Step::Settle(Settlement::Resolve(42)));
    assert_eq!(package.me(), None);
}
