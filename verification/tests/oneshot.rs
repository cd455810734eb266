use std::future::Future;
use std::pin::Pin;
use std::sync::atomic::{AtomicU32, Ordering};
use std::sync::Arc;
use std::task::{Context, Poll, Wake, Waker};

use forward::oneshot::channel;

#[test]
fn test_oneshot_send_then_recv() {
    let (tx, rx) = channel();
    tx.send(100).unwrap();
    assert_eq!(rx.recv(), Some(100));
}

#[test]
fn test_oneshot_duplicate_recv() {
    let (tx, rx) = channel();
    tx.send(42).unwrap();
    assert_eq!(rx.recv(), Some(42));
    assert_eq!(rx.recv(), None);
}

#[test]
fn test_oneshot_sender_dropped() {
    let (tx, rx) = channel::<i32>();
    drop(tx);
    assert_eq!(rx.recv(), None);
}

#[test]
fn test_oneshot_receiver_dropped_before_send() {
    let (tx, rx) = channel();
    drop(rx);
    assert_eq!(tx.send(42), Err(42));
}

#[test]
fn test_oneshot_receiver_dropped_after_send() {
    let (tx, rx) = channel();
    tx.send(42).unwrap();
    drop(rx);
}

#[test]
fn test_oneshot_async_poll() {
    let (tx, mut rx) = channel();
    let waker = Waker::noop();
    let mut cx = Context::from_waker(&waker);

    let p1 = Pin::new(&mut rx).poll(&mut cx);
    assert_eq!(p1, Poll::Pending);
    let p2 = Pin::new(&mut rx).poll(&mut cx);
    assert_eq!(p2, Poll::Pending);

    tx.send(7).unwrap();
    let p3 = Pin::new(&mut rx).poll(&mut cx);
    assert!(matches!(p3, Poll::Ready(Some(7))));

    let p4 = Pin::new(&mut rx).poll(&mut cx);
    assert_eq!(p4, Poll::Ready(None));
}

struct CountingWaker {
    woken: AtomicU32,
}

impl Wake for CountingWaker {
    fn wake(self: Arc<Self>) {
        self.woken.fetch_add(1, Ordering::SeqCst);
    }
}

fn counting() -> (Arc<CountingWaker>, Waker) {
    let count = Arc::new(CountingWaker { woken: AtomicU32::new(0) });
    (count.clone(), Waker::from(count))
}

#[test]
fn waker_is_woken_once_by_the_send() {
    let (tx, mut rx) = channel();
    let (count, waker) = counting();
    let mut cx = Context::from_waker(&waker);
    assert_eq!(Pin::new(&mut rx).poll(&mut cx), Poll::Pending);
    assert_eq!(Pin::new(&mut rx).poll(&mut cx), Poll::Pending);
    assert_eq!(Arc::strong_count(&count), 3);
    tx.send(7).unwrap();
    assert_eq!(count.woken.load(Ordering::SeqCst), 1);
    assert_eq!(Arc::strong_count(&count), 2);
    assert_eq!(Pin::new(&mut rx).poll(&mut cx), Poll::Ready(Some(7)));
}

#[test]
fn waker_is_replaced_by_that_of_a_later_poll() {
    let (tx, mut rx) = channel();
    let (count_a, waker_a) = counting();
    let (count_b, waker_b) = counting();
    let poll_a = Pin::new(&mut rx).poll(&mut Context::from_waker(&waker_a));
    assert_eq!(poll_a, Poll::Pending);
    let poll_b = Pin::new(&mut rx).poll(&mut Context::from_waker(&waker_b));
    assert_eq!(poll_b, Poll::Pending);
    assert_eq!(Arc::strong_count(&count_a), 2);
    assert_eq!(Arc::strong_count(&count_b), 3);
    tx.send(7).unwrap();
    assert_eq!(count_a.woken.load(Ordering::SeqCst), 0);
    assert_eq!(count_b.woken.load(Ordering::SeqCst), 1);
    let result = Pin::new(&mut rx).poll(&mut Context::from_waker(&waker_b));
    assert_eq!(result, Poll::Ready(Some(7)));
}

#[test]
fn waker_is_woken_by_a_sender_that_leaves() {
    let (tx, mut rx) = channel::<u8>();
    let (count, waker) = counting();
    let mut cx = Context::from_waker(&waker);
    assert_eq!(Pin::new(&mut rx).poll(&mut cx), Poll::Pending);
    drop(tx);
    assert_eq!(count.woken.load(Ordering::SeqCst), 1);
    assert_eq!(Pin::new(&mut rx).poll(&mut cx), Poll::Ready(None));
}

#[test]
fn waker_is_woken_by_a_receiver_that_leaves() {
    let (tx, mut rx) = channel::<u8>();
    let (count, waker) = counting();
    let mut cx = Context::from_waker(&waker);
    assert_eq!(Pin::new(&mut rx).poll(&mut cx), Poll::Pending);
    drop(rx);
    assert_eq!(count.woken.load(Ordering::SeqCst), 1);
    assert_eq!(Arc::strong_count(&count), 2);
    assert_eq!(tx.send(3), Err(3));
    assert_eq!(count.woken.load(Ordering::SeqCst), 1);
}

#[test]
fn one_call_of_several_gets_the_value() {
    let (tx, rx) = channel();
    assert_eq!(tx.send(9), Ok(()));
    assert_eq!([rx.recv(), rx.recv(), rx.recv()], [Some(9), None, None]);
}

#[test]
fn channels_share_nothing() {
    let (tx_a, mut rx_a) = channel::<u8>();
    let (tx_b, mut rx_b) = channel::<u8>();
    let waker = Waker::noop();
    let mut cx = Context::from_waker(&waker);
    assert_eq!(Pin::new(&mut rx_a).poll(&mut cx), Poll::Pending);
    assert_eq!(tx_a.send(1), Ok(()));
    assert_eq!(Pin::new(&mut rx_b).poll(&mut cx), Poll::Pending);
    assert_eq!(rx_a.recv(), Some(1));
    drop(rx_a);
    assert_eq!(tx_b.send(2), Ok(()));
    assert_eq!(rx_b.recv(), Some(2));
}

#[test]
fn value_is_reclaimed_with_the_channel() {
    let value = Arc::new(());
    let (tx, rx) = channel();
    tx.send(value.clone()).unwrap();
    assert_eq!(Arc::strong_count(&value), 2);
    drop(rx);
    assert_eq!(Arc::strong_count(&value), 1);
}

#[test]
fn sides_can_go_to_other_threads() {
    fn is_send<T: Send>(_: &T) {}
    fn is_sync<T: Sync>(_: &T) {}
    let (tx, rx) = channel::<std::cell::Cell<u8>>();
    is_send(&tx);
    is_send(&rx);
    is_sync(&rx);
}
