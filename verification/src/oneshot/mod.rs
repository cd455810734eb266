//! A channel that carries one value, received by blocking or by polling.

pub mod laws;
pub mod state;
pub mod status;
pub(crate) mod sync;
pub mod turn;

use std::future::Future;
use std::pin::Pin;
use std::sync::Arc;
use std::task::{Context, Poll, Waker};

use vstd::prelude::*;

use crate::channel::{Inner, Wait};
use self::state::{Phase, PollStep, RecvStep};
use self::sync::pinned;
use self::turn::{Made, Turn};

verus! {

/// The waker that a poll which finds this has to replace or to hand in again.
pub open spec fn left_waker<T, W>(step: PollStep<T, W>) -> Option<W> {
    match step {
        PollStep::Refresh(waker) => Some(waker),
        _ => None,
    }
}

/// `waker` is to be woken for the task of `cx`: the waker that was held, if that wakes the same task, and
/// otherwise a clone of its own. Nothing is cloned for a task whose waker was held already.
pub open spec fn serves(cx: Context<'_>, held: Option<Waker>, waker: Waker) -> bool {
    exists|own: &Waker| #[trigger]
        call_ensures(Context::waker, (&cx,), own) && match held {
            Some(left) => (call_ensures(Waker::will_wake, (&left, own), true) && waker == left) || (
            call_ensures(Waker::will_wake, (&left, own), false) && cloned(*own, waker)),
            None => cloned(*own, waker),
        }
}

/// One of the two hold on a channel.
#[verifier::reject_recursive_types(T)]
struct BiRef<T> {
    inner: Arc<Inner<T>>,
}

/// The sending side, which sends once at most.
#[verifier::reject_recursive_types(T)]
pub struct Sender<T> {
    channel: BiRef<T>,
}

impl<T> Drop for Sender<T> {
    fn drop(&mut self)
        ensures
            old(self).has_left(),
        opens_invariants none
        no_unwind
    {
        let ghost side = *old(self);
        let turn = Turn::begin();
        let ghost begun = turn;
        let done = self.channel.inner.drop_sender(turn);
        proof {
            assert(call_ensures(
                Inner::<T>::drop_sender,
                (&*side.channel.inner, begun),
                done,
            ));
            assert(side.left_by(done.made()));
        }
    }
}

/// The receiving side. `recv` may be called again and again, from several threads at once, and the
/// value is received once.
#[verifier::reject_recursive_types(T)]
pub struct Receiver<T> {
    channel: BiRef<T>,
}

impl<T> Drop for Receiver<T> {
    fn drop(&mut self)
        ensures
            old(self).has_left(),
        opens_invariants none
        no_unwind
    {
        let ghost side = *old(self);
        let turn = Turn::begin();
        let ghost begun = turn;
        let done = self.channel.inner.drop_receiver(turn);
        proof {
            assert(call_ensures(
                Inner::<T>::drop_receiver,
                (&*side.channel.inner, begun),
                done,
            ));
            assert(side.left_by(done.made()));
        }
    }
}

impl<T> Sender<T> {
    /// Whether what is sent here arrives at `receiver`.
    pub closed spec fn sends_to(self, receiver: Receiver<T>) -> bool {
        self.channel.inner == receiver.channel.inner
    }

    /// The channel was made in `phase`.
    pub closed spec fn began_in(self, phase: Phase<T, Waker>) -> bool {
        self.channel.inner.began_in(phase)
    }

    /// The step `sending` of `val` was made on what the lock of this channel guards, and `answer` is what
    /// it says. Whoever the step says is to be told was told: the waker was handed to `Waker::wake`, or
    /// the signal to `atomic_wait::wake_all`.
    pub open spec fn has_sent(self, val: T, answer: Result<(), T>) -> bool {
        exists|made: Seq<Made<T>>| #[trigger] self.sent_by(val, made, answer)
    }

    /// As [`Sender::has_sent`]; `made` is all that the call did to the channel.
    pub closed spec fn sent_by(self, val: T, made: Seq<Made<T>>, answer: Result<(), T>) -> bool {
        exists|turn: Turn<T>, done: Turn<T>|
            turn.is_new() && done.made() == made && #[trigger] call_ensures(
                Inner::<T>::send,
                (&*self.channel.inner, turn, val),
                (done, answer),
            )
    }

    /// This side has left: both steps of `sender_leaving`, where there are two, were made on what the
    /// lock of this channel guards, and whoever was to be told in between was told.
    pub open spec fn has_left(self) -> bool {
        exists|made: Seq<Made<T>>| #[trigger] self.left_by(made)
    }

    /// As [`Sender::has_left`]; `made` is all that was done to the channel.
    pub closed spec fn left_by(self, made: Seq<Made<T>>) -> bool {
        exists|turn: Turn<T>, done: Turn<T>|
            turn.is_new() && done.made() == made && #[trigger] call_ensures(
                Inner::<T>::drop_sender,
                (&*self.channel.inner, turn),
                done,
            )
    }

    /// Sends `val` and wakes the receiver if it waits. A channel whose receiver is gone gives `val`
    /// back.
    ///
    /// What the receiver does meanwhile decides which of the two it is: the answer is that of
    /// [`State::send`] on the phase that the channel is found in.
    pub fn send(self, val: T) -> (answer: Result<(), T>)
        ensures
            self.has_sent(val, answer),
            answer is Err ==> answer->Err_0 == val,
    {
        let turn = Turn::begin();
        let ghost begun = turn;
        let (done, answer) = self.channel.inner.send(turn, val);
        proof {
            assert(call_ensures(
                Inner::<T>::send,
                (&*self.channel.inner, begun, val),
                (done, answer),
            ));
            assert(self.sent_by(val, done.made(), answer));
        }
        answer
    }
}

impl<T> Receiver<T> {
    /// A call of `recv` has answered this: the step `receiving` was made on what the lock of this channel
    /// guards, again and again, each time after a wait for another status word, until it came to a value
    /// or to none. Or else the waits were as many as a `u64` can count.
    pub open spec fn has_received(self, answer: Option<T>) -> bool {
        exists|made: Seq<Made<T>>| #[trigger] self.received_by(made, answer)
    }

    /// As [`Receiver::has_received`]; `made` is all that the call did to the channel.
    pub closed spec fn received_by(self, made: Seq<Made<T>>, answer: Option<T>) -> bool {
        exists|turn: Turn<T>, done: Turn<T>|
            turn.is_new() && done.made() == made && #[trigger] call_ensures(
                Inner::<T>::recv,
                (&*self.channel.inner, turn),
                (done, answer),
            )
    }

    /// A call of `recv` has used up its patience, all that a `u64` can count, on waits after each of which
    /// the status word was the same or there was nothing to receive yet.
    pub closed spec fn has_given_up(self) -> bool {
        exists|begin: Turn<T>, waits: Seq<Wait<T>>, done: Turn<T>|
            begin.is_new() && #[trigger] self.channel.inner.has_given_up(begin, waits, done)
    }

    /// A step of `recv` on what the lock of this channel guards came to `step`.
    pub closed spec fn has_come_to(self, step: RecvStep<T, Waker>) -> bool {
        self.channel.inner.has_stepped(step)
    }

    /// A poll for the task of `cx` has answered this: the step `polling` was made on what the lock of this
    /// channel guards, and if it came to nothing yet, a waker that `serves` the task was handed in by the
    /// step `settling`, or, where that refused it, was woken or the value was there after all.
    pub open spec fn has_polled(self, cx: Context<'_>, answer: Poll<Option<T>>) -> bool {
        exists|made: Seq<Made<T>>| #[trigger] self.polled_by(cx, made, answer)
    }

    /// As [`Receiver::has_polled`]; `made` is all that the poll did to the channel.
    pub closed spec fn polled_by(
        self,
        cx: Context<'_>,
        made: Seq<Made<T>>,
        answer: Poll<Option<T>>,
    ) -> bool {
        exists|turn: Turn<T>, done: Turn<T>|
            turn.is_new() && done.made() == made && #[trigger] call_ensures(
                Inner::<T>::poll_recv,
                (&*self.channel.inner, turn, &cx),
                (done, answer),
            )
    }

    /// This side has left: both steps of `receiver_leaving`, where there are two, were made on what the
    /// lock of this channel guards, and the task that was to be told in between was told.
    pub open spec fn has_left(self) -> bool {
        exists|made: Seq<Made<T>>| #[trigger] self.left_by(made)
    }

    /// As [`Receiver::has_left`]; `made` is all that was done to the channel.
    pub closed spec fn left_by(self, made: Seq<Made<T>>) -> bool {
        exists|turn: Turn<T>, done: Turn<T>|
            turn.is_new() && done.made() == made && #[trigger] call_ensures(
                Inner::<T>::drop_receiver,
                (&*self.channel.inner, turn),
                done,
            )
    }

    /// Takes the value, and blocks until there is one. `None` when the sender is gone and when the
    /// value was received before.
    ///
    /// What the sender does meanwhile decides: the answer is that of [`State::recv`] on the phase
    /// that the channel is found in, after the waits if there were any. A call whose patience is used up
    /// answers `None` too.
    pub fn recv(&self) -> (answer: Option<T>)
        ensures
            self.has_received(answer),
            answer matches Some(val) ==> self.has_come_to(RecvStep::Got(val)),
            answer is None ==> self.has_come_to(RecvStep::Gone) || self.has_given_up(),
    {
        let turn = Turn::begin();
        let ghost begun = turn;
        let (done, answer) = self.channel.inner.recv(turn);
        proof {
            assert(call_ensures(
                Inner::<T>::recv,
                (&*self.channel.inner, begun),
                (done, answer),
            ));
            assert(self.received_by(done.made(), answer));
        }
        answer
    }
}

/// `receiver` is what `pin` holds.
pub closed spec fn pins<T>(pin: Pin<&mut Receiver<T>>, receiver: &Receiver<T>) -> bool {
    call_ensures(pinned::<Receiver<T>>, (&pin,), receiver)
}

impl<T> Future for Receiver<T> {
    type Output = Option<T>;

    /// Takes the value if there is one, and otherwise leaves the waker of `cx` to be woken.
    fn poll(self: Pin<&mut Self>, cx: &mut Context<'_>) -> (answer: Poll<Option<T>>)
        ensures
            exists|receiver: &Receiver<T>| #[trigger]
                pins(self, receiver) && receiver.has_polled(*old(cx), answer),
    {
        let receiver = pinned(&self);
        assert(pins(self, receiver));
        let turn = Turn::begin();
        let ghost begun = turn;
        let (done, answer) = receiver.channel.inner.poll_recv(turn, cx);
        proof {
            assert(call_ensures(
                Inner::<T>::poll_recv,
                (&*receiver.channel.inner, begun, cx),
                (done, answer),
            ));
            assert(receiver.polled_by(*old(cx), done.made(), answer));
        }
        answer
    }
}

/// A channel that nothing has happened to: its sending and its receiving side.
pub fn channel<T>() -> (sides: (Sender<T>, Receiver<T>))
    ensures
        sides.0.sends_to(sides.1),
        sides.0.began_in(Phase::New),
{
    let inner = Arc::new(Inner::new());
    (
        Sender { channel: BiRef { inner: inner.clone() } },
        Receiver { channel: BiRef { inner } },
    )
}

/// What a side is said to have done was done by one call on what it shares with the other side, which began
/// with a turn of its own.
proof fn law_sides_make_one_call<T>(
    sender: Sender<T>,
    receiver: Receiver<T>,
    val: T,
    cx: Context<'_>,
    made: Seq<Made<T>>,
    sent: Result<(), T>,
    received: Option<T>,
    polled: Poll<Option<T>>,
)
    ensures
        sender.sent_by(val, made, sent) ==> exists|turn: Turn<T>, done: Turn<T>|
            turn.is_new() && done.made() == made && #[trigger] call_ensures(
                Inner::<T>::send,
                (&*sender.channel.inner, turn, val),
                (done, sent),
            ),
        receiver.received_by(made, received) ==> exists|turn: Turn<T>, done: Turn<T>|
            turn.is_new() && done.made() == made && #[trigger] call_ensures(
                Inner::<T>::recv,
                (&*receiver.channel.inner, turn),
                (done, received),
            ),
        receiver.polled_by(cx, made, polled) ==> exists|turn: Turn<T>, done: Turn<T>|
            turn.is_new() && done.made() == made && #[trigger] call_ensures(
                Inner::<T>::poll_recv,
                (&*receiver.channel.inner, turn, &cx),
                (done, polled),
            ),
        sender.left_by(made) ==> exists|turn: Turn<T>, done: Turn<T>|
            turn.is_new() && done.made() == made && #[trigger] call_ensures(
                Inner::<T>::drop_sender,
                (&*sender.channel.inner, turn),
                done,
            ),
        receiver.left_by(made) ==> exists|turn: Turn<T>, done: Turn<T>|
            turn.is_new() && done.made() == made && #[trigger] call_ensures(
                Inner::<T>::drop_receiver,
                (&*receiver.channel.inner, turn),
                done,
            ),
        sender.sends_to(receiver) ==> sender.channel.inner == receiver.channel.inner,
        receiver.has_given_up() ==> exists|begin: Turn<T>, waits: Seq<Wait<T>>, done: Turn<T>|
            begin.is_new() && #[trigger] receiver.channel.inner.has_given_up(begin, waits, done),
{
}

/// A poll keeps the waker that it finds if that wakes its task, and otherwise hands in a clone of the
/// task's own. Of what a poll can find, a waker that was left is the only one that it holds.
pub proof fn law_waker_serves_its_task<T>(
    cx: Context<'_>,
    held: Option<Waker>,
    waker: Waker,
    step: PollStep<T, Waker>,
)
    requires
        serves(cx, held, waker),
    ensures
        exists|own: &Waker| #[trigger]
            call_ensures(Context::waker, (&cx,), own) && {
                ||| held is Some && waker == held->0 && call_ensures(
                    Waker::will_wake,
                    (&held->0, own),
                    true,
                )
                ||| cloned(*own, waker) && (held is Some ==> call_ensures(
                    Waker::will_wake,
                    (&held->0, own),
                    false,
                ))
            },
        step matches PollStep::Refresh(found) ==> left_waker(step) == Some(found),
        !(step is Refresh) ==> left_waker(step) is None,
{
}

} // verus!
