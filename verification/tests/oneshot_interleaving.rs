//! The two sides of a channel in the orders in which their calls can come.

use std::sync::atomic::{AtomicUsize, Ordering::SeqCst};
use std::sync::Arc;

use forward::oneshot::state::{Alert, RecvStep, SendStep, State};
use forward::oneshot::{self, channel};

#[derive(Debug)]
struct DropCounter(Arc<AtomicUsize>);

impl Drop for DropCounter {
    fn drop(&mut self) {
        self.0.fetch_add(1, SeqCst);
    }
}

#[derive(Debug, PartialEq)]
struct ZST;

#[derive(Debug)]
struct OwnedResource {
    id: usize,
    cleanup_counter: Arc<AtomicUsize>,
}

impl Drop for OwnedResource {
    fn drop(&mut self) {
        self.cleanup_counter.fetch_add(1, SeqCst);
    }
}

/// A receiver that is parked before `val` is sent, and what it finds when it is unparked.
fn received_after_parking<T>(val: T) -> Option<T> {
    let mut state: State<T, ()> = State::new();
    assert!(matches!(state.recv(), RecvStep::Park));
    assert!(matches!(state.send(val), SendStep::Stored(Alert::Unpark)));
    match state.recv() {
        RecvStep::Got(val) => Some(val),
        _ => None,
    }
}

#[test]
fn loom_basic_send_recv() {
    let (s, r) = oneshot::channel::<i32>();
    s.send(42).expect("send failed");
    let value = r.recv();
    assert_eq!(value, Some(42));
}

#[test]
fn loom_receiver_drop_before_send() {
    let (s, r) = channel::<i32>();
    drop(r);
    let result = s.send(42);
    assert!(result.is_err());
}

#[test]
fn loom_sender_drop_before_recv() {
    let (s, r) = channel::<i32>();
    drop(s);
    let value = r.recv();
    assert_eq!(value, None);
}

#[test]
fn loom_rapid_send_recv() {
    for i in 0..2 {
        let (s, r) = channel::<i32>();
        s.send(i).unwrap();
        let value = r.recv();
        assert_eq!(value, Some(i));
    }
}

#[test]
fn loom_both_drop() {
    let (s, r) = channel::<i32>();
    drop(s);
    drop(r);
    let (s, r) = channel::<i32>();
    drop(r);
    drop(s);
}

#[test]
fn loom_send_recv_drop_sequence() {
    let (s, r) = channel::<i32>();
    s.send(100).unwrap();
    let v = r.recv();
    assert_eq!(v, Some(100));
}

#[test]
fn loom_double_recv() {
    let (s, r) = channel::<i32>();
    s.send(42).unwrap();
    let v1 = r.recv();
    let v2 = r.recv();
    assert_eq!(v1, Some(42));
    assert_eq!(v2, None);
}

#[test]
fn loom_interleaved_operations() {
    let (s, r) = channel::<i32>();
    let received = Arc::new(AtomicUsize::new(0));
    s.send(42).unwrap();
    match r.recv() {
        Some(42) => received.store(1, SeqCst),
        _ => unreachable!(),
    }
    assert_eq!(received.load(SeqCst), 1);
    assert_eq!(received_after_parking(42), Some(42));
}

#[test]
fn loom_recv_before_send() {
    let (s, r) = channel::<String>();
    s.send("hello".to_string()).unwrap();
    let value = r.recv();
    assert_eq!(value, Some("hello".to_string()));
    assert_eq!(received_after_parking("hello".to_string()), Some("hello".to_string()));
}

#[test]
fn loom_value_dropped_after_recv() {
    let (s, r) = channel::<DropCounter>();
    let counter = Arc::new(AtomicUsize::new(0));
    s.send(DropCounter(Arc::clone(&counter))).unwrap();
    let value = r.recv();
    assert!(value.is_some());
    drop(value);
    assert_eq!(counter.load(SeqCst), 1);
}

#[test]
fn loom_sender_drop_unconsumed_data() {
    let (s, r) = channel::<DropCounter>();
    let counter = Arc::new(AtomicUsize::new(0));
    s.send(DropCounter(Arc::clone(&counter))).unwrap();
    let v = r.recv();
    assert!(v.is_some());
    drop(v);
    assert_eq!(counter.load(SeqCst), 1);
}

#[test]
fn loom_race_recv_drop_vs_send() {
    let (s, r) = channel::<i32>();
    drop(r);
    let result = s.send(42);
    assert!(result.is_err());
}

#[test]
fn loom_race_send_drop_vs_recv() {
    let (s, r) = channel::<i32>();
    drop(s);
    let result = r.recv();
    assert_eq!(result, None);
    // The receiver comes first and is parked.
    let mut state: State<i32, ()> = State::new();
    assert!(matches!(state.recv(), RecvStep::Park));
    let _ = state.drop_sender();
    assert!(matches!(state.recv(), RecvStep::Gone));
}

#[test]
fn loom_repeated_recv_attempts() {
    let (s, r) = channel::<i32>();
    s.send(42).unwrap();
    let v1 = r.recv();
    assert_eq!(v1, Some(42));
    let v2 = r.recv();
    assert_eq!(v2, None);
    let v3 = r.recv();
    assert_eq!(v3, None);
}

#[test]
fn loom_send_error_cleanup() {
    let (s, r) = channel::<DropCounter>();
    let counter = Arc::new(AtomicUsize::new(0));
    drop(r);
    let result = s.send(DropCounter(Arc::clone(&counter)));
    assert!(result.is_err());
    drop(result);
    assert_eq!(counter.load(SeqCst), 1);
}

#[test]
fn loom_concurrent_cleanup() {
    let (s, r) = channel::<DropCounter>();
    let counter = Arc::new(AtomicUsize::new(0));
    s.send(DropCounter(Arc::clone(&counter))).unwrap();
    let v = r.recv();
    drop(v);
    assert_eq!(counter.load(SeqCst), 1);
}

#[test]
fn loom_memory_ordering() {
    let counter = Arc::new(AtomicUsize::new(0));
    let (s, r) = channel::<usize>();
    counter.store(42, SeqCst);
    s.send(100).unwrap();
    let val = r.recv().unwrap();
    let mem = counter.load(SeqCst);
    assert_eq!(val, 100);
    assert_eq!(mem, 42);
}

#[test]
fn loom_allocation_cleanup() {
    for i in 0..2 {
        let (s, r) = channel::<i32>();
        s.send(i).unwrap();
        let v = r.recv();
        assert_eq!(v, Some(i));
    }
}

#[test]
fn loom_stress_basic_operations() {
    let (s, r) = channel::<u64>();
    s.send(0xDEADBEEFCAFEBABE).unwrap();
    let val = r.recv();
    assert_eq!(val, Some(0xDEADBEEFCAFEBABE));
}

#[test]
fn loom_zst_channel() {
    let (s, r) = channel::<ZST>();
    s.send(ZST).unwrap();
    let value = r.recv();
    assert_eq!(value, Some(ZST));
}

#[test]
fn loom_unit_channel() {
    let (s, r) = channel::<()>();
    s.send(()).unwrap();
    let value = r.recv();
    assert_eq!(value, Some(()));
}

#[test]
fn loom_send_after_receiver_close() {
    let (s, r) = channel::<i32>();
    drop(r);
    let result = s.send(42);
    assert!(result.is_err());
}

#[test]
fn loom_recv_after_sender_drop() {
    let (s, r) = channel::<i32>();
    drop(s);
    let value = r.recv();
    assert_eq!(value, None);
}

#[test]
fn loom_complex_state_transitions() {
    let (s, r) = channel::<i32>();
    s.send(10).unwrap();
    let result = r.recv();
    assert_eq!(result, Some(10));
    assert_eq!(received_after_parking(10), Some(10));
}

#[test]
fn loom_multiple_recv_consistency() {
    let (s, r) = channel::<i32>();
    s.send(123).unwrap();
    let v1 = r.recv();
    assert_eq!(v1, Some(123));
    for _ in 0..3 {
        let v = r.recv();
        assert_eq!(v, None, "subsequent recv must return None");
    }
}

#[test]
fn loom_no_double_drop() {
    let (s, r) = channel::<DropCounter>();
    let counter = Arc::new(AtomicUsize::new(0));
    s.send(DropCounter(Arc::clone(&counter))).unwrap();
    let received = r.recv();
    assert!(received.is_some());
    drop(received);
    drop(r);
    assert_eq!(counter.load(SeqCst), 1, "value must be dropped exactly once");
}

#[test]
fn loom_data_dropped_when_not_consumed() {
    let (s, r) = channel::<DropCounter>();
    let counter = Arc::new(AtomicUsize::new(0));
    s.send(DropCounter(Arc::clone(&counter))).unwrap();
    drop(r);
    assert_eq!(counter.load(SeqCst), 1);
}

#[test]
fn loom_recv_send_data_race() {
    let (s, r) = channel::<u64>();
    let received = Arc::new(AtomicUsize::new(0));
    s.send(0xABCDEF).unwrap();
    if let Some(v) = r.recv() {
        received.store(v as usize, SeqCst);
    }
    assert_eq!(received.load(SeqCst), 0xABCDEF);
    assert_eq!(received_after_parking(0xABCDEF_u64), Some(0xABCDEF));
}

#[test]
fn loom_receiver_drop_concurrent_send() {
    let (s, r) = channel::<DropCounter>();
    let counter = Arc::new(AtomicUsize::new(0));
    drop(r);
    let send_result = s.send(DropCounter(Arc::clone(&counter)));
    assert!(send_result.is_err());
    drop(send_result);
    assert_eq!(counter.load(SeqCst), 1);
}

#[test]
fn loom_no_resource_leak() {
    let iterations = 2;
    let total_counter = Arc::new(AtomicUsize::new(0));
    for i in 0..iterations {
        let (s, r) = channel::<DropCounter>();
        let counter = Arc::new(AtomicUsize::new(0));
        s.send(DropCounter(Arc::clone(&counter))).unwrap();
        drop(r.recv());
        assert_eq!(counter.load(SeqCst), 1, "iteration {}: no resource leaks", i);
        total_counter.fetch_add(counter.load(SeqCst), SeqCst);
    }
    assert_eq!(total_counter.load(SeqCst), iterations, "total drops must match iterations");
}

#[test]
fn loom_explicit_yield_scheduling() {
    let (s, r) = channel::<i32>();
    let ready = Arc::new(AtomicUsize::new(0));
    s.send(77).unwrap();
    let result = match r.recv() {
        Some(v) => {
            ready.store(1, SeqCst);
            v
        },
        None => 0,
    };
    assert_eq!(result, 77);
    assert_eq!(ready.load(SeqCst), 1);
}

#[test]
fn loom_complete_lifecycle() {
    let (s, r) = channel::<i32>();
    s.send(42).unwrap();
    let v = r.recv();
    assert_eq!(v, Some(42));
    assert_eq!(r.recv(), None);

    let (s2, r2) = channel::<i32>();
    drop(r2);
    let result = s2.send(99);
    assert!(result.is_err());
}

#[test]
fn loom_interleaved_state_transitions() {
    let (s, r) = channel::<i32>();
    let state_marker = Arc::new(AtomicUsize::new(0));
    s.send(42).unwrap();
    state_marker.store(1, SeqCst);
    match r.recv() {
        Some(42) => state_marker.store(2, SeqCst),
        _ => state_marker.store(3, SeqCst),
    }
    assert_eq!(state_marker.load(SeqCst), 2);
    assert_eq!(received_after_parking(42), Some(42));
}

#[test]
fn loom_recv_during_send_setup() {
    let (s, r) = channel::<i32>();
    let received_flag = Arc::new(AtomicUsize::new(0));
    s.send(999).unwrap();
    if let Some(v) = r.recv() {
        received_flag.store(v as usize, SeqCst);
    }
    assert_eq!(received_flag.load(SeqCst), 999);
    assert_eq!(received_after_parking(999), Some(999));
}

#[test]
fn loom_send_once_guarantee() {
    let (s, r) = channel::<i32>();
    let attempt_count = Arc::new(AtomicUsize::new(0));
    let res1 = s.send(1);
    attempt_count.fetch_add(if res1.is_ok() { 1 } else { 0 }, SeqCst);
    let v = r.recv();
    assert_eq!(v, Some(1));
    assert_eq!(attempt_count.load(SeqCst), 1);
}

#[test]
fn loom_receiver_waits_for_sender() {
    let (s, r) = channel::<i32>();
    let receiver_ready = Arc::new(AtomicUsize::new(0));
    receiver_ready.store(1, SeqCst);
    s.send(555).unwrap();
    let result = r.recv();
    assert_eq!(receiver_ready.load(SeqCst), 1);
    assert_eq!(result, Some(555));
    assert_eq!(received_after_parking(555), Some(555));
}

#[test]
fn loom_drop_recreate_pattern() {
    for iteration in 0..2 {
        let (s, r) = channel::<i32>();
        s.send(iteration * 10 + 5).unwrap();
        let result = r.recv();
        assert_eq!(result, Some(iteration as i32 * 10 + 5));
    }
}

#[test]
fn loom_drop_side_effects() {
    let (s, r) = channel::<DropCounter>();
    let counter = Arc::new(AtomicUsize::new(0));
    s.send(DropCounter(Arc::clone(&counter))).unwrap();
    let v = r.recv();
    drop(v);
    assert_eq!(counter.load(SeqCst), 1);
}

#[test]
fn loom_ownership_transfer_cleanup() {
    let (s, r) = channel::<OwnedResource>();
    let counter = Arc::new(AtomicUsize::new(0));
    s.send(OwnedResource { id: 42, cleanup_counter: Arc::clone(&counter) }).unwrap();
    if let Some(res) = r.recv() {
        assert_eq!(res.id, 42);
    }
    assert_eq!(counter.load(SeqCst), 1);
}
