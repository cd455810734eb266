//! The parts of `std` and of `atomic_wait` that the two sides of a channel meet in.
//!
//! Nothing here is proved. What other threads do decides what comes back, so only `lock` and `open`
//! say anything, and they say it in their types: whatever a lock guards is a value of its type, with
//! the invariant of that type.

use std::pin::Pin;
use std::sync::atomic::{AtomicU32, Ordering};
use std::sync::{Mutex, MutexGuard, PoisonError};
use std::task::{Context, Poll, Waker};

use vstd::prelude::*;

use super::turn::Key;

verus! {

/// `std::sync::Mutex`.
#[verifier::external_type_specification]
#[verifier::external_body]
#[verifier::reject_recursive_types(T)]
pub struct ExMutex<T: ?Sized>(Mutex<T>);

/// `std::sync::MutexGuard`.
#[verifier::external_type_specification]
#[verifier::external_body]
#[verifier::reject_recursive_types(T)]
pub struct ExMutexGuard<'a, T: ?Sized + 'a>(MutexGuard<'a, T>);

/// `std::task::Waker`.
#[verifier::external_type_specification]
#[verifier::external_body]
pub struct ExWaker(Waker);

/// `std::task::Context`.
#[verifier::external_type_specification]
#[verifier::external_body]
pub struct ExContext<'a>(Context<'a>);

/// `std::task::Poll`.
#[verifier::external_type_specification]
pub struct ExPoll<T>(Poll<T>);

/// `std::pin::Pin`.
#[verifier::external_type_specification]
#[verifier::external_body]
#[verifier::reject_recursive_types(Ptr)]
pub struct ExPin<Ptr>(Pin<Ptr>);

/// `Mutex::new`: a lock around `t`. What it guards later depends on who holds it, so nothing is
/// claimed of it.
pub assume_specification<T>[ Mutex::<T>::new ](t: T) -> Mutex<T>;

/// `Mutex::lock`: waits until nobody holds the lock, and then holds it until the guard is dropped. A
/// lock that a panicking thread left behind is taken all the same. A thread that holds the lock already
/// must not take it again: each function that takes it drops the guard before it ends, and until then
/// runs only steps of `State` and `store`, which neither take it nor call anything of the user's. Of
/// what is guarded nothing is claimed: it is whatever the last holder left.
#[verifier::external_body]
pub(crate) fn lock<'a, X>(mutex: &'a Mutex<X>) -> (guard: MutexGuard<'a, X>)
    opens_invariants none
    no_unwind
{
    mutex.lock().unwrap_or_else(PoisonError::into_inner)
}

/// A guard, lent for a look at what it guards, and the key to it.
#[verifier::reject_recursive_types(X)]
pub(crate) struct Held<'a, 'b, X> {
    pub guard: &'b mut MutexGuard<'a, X>,
    pub key: Key,
}

/// `DerefMut` of a `MutexGuard`: the value that is guarded, to be changed. Of the value that is found
/// nothing is claimed.
#[verifier::external_body]
pub(crate) fn open<'a, 'b, X>(held: Held<'a, 'b, X>) -> (inside: &'b mut X)
    opens_invariants none
    no_unwind
{
    &mut *held.guard
}

/// `AtomicU32::store`, released to whoever loads: it does not unwind. What the word holds later
/// depends on who stores, so nothing is claimed of it.
#[verifier::external_body]
pub(crate) fn store(word: &AtomicU32, value: u32, _key: Key)
    opens_invariants none
    no_unwind
{
    word.store(value, Ordering::Release)
}

/// `atomic_wait::wait`: blocks while `atomic` is `value` and nobody wakes it; it may also come back
/// for no reason. So nothing is claimed of the word afterwards.
pub assume_specification[ atomic_wait::wait ](atomic: &AtomicU32, value: u32);

/// `atomic_wait::wake_all`: lets everybody who waits on `word` look again. It does not unwind.
#[verifier::external_body]
pub(crate) fn wake_all(word: &AtomicU32, _key: Key)
    opens_invariants none
    no_unwind
{
    atomic_wait::wake_all(word)
}

/// `Waker::wake`: tells the task of this waker to poll again. A waker that unwinds would unwind out
/// of the side that wakes it while it is dropped; wakers are taken not to.
#[verifier::external_body]
pub(crate) fn wake(waker: Waker, _key: Key)
    opens_invariants none
    no_unwind
{
    waker.wake()
}

/// `Waker::clone`: another waker for the same task.
pub assume_specification[ <Waker as Clone>::clone ](waker: &Waker) -> Waker;

/// `Waker::will_wake`: whether both wake the same task, as far as can be told; `false` is always
/// possible, so nothing is claimed.
pub assume_specification[ Waker::will_wake ](waker: &Waker, other: &Waker) -> bool;

/// `Context::waker`: the waker of the task that polls.
pub assume_specification<'a>[ Context::<'a>::waker ](cx: &Context<'a>) -> &'a Waker;

/// `Deref` of a `Pin`: a look at what is pinned.
#[verifier::external_body]
pub(crate) fn pinned<'a, 'b, X>(pin: &'b Pin<&'a mut X>) -> (inside: &'b X) {
    pin
}

} // verus!
