//! What the two sides of a channel share, and what their calls do to it.

use std::sync::atomic::{AtomicU32, Ordering};
use std::sync::Mutex;
use std::task::{Context, Poll, Waker};

use vstd::prelude::*;

use crate::oneshot::state::{
    polling, receiver_leaving, receiving, sender_leaving, sending, settling, Alert, Phase, PollStep,
    ReceiverStep, RecvStep, SendStep, SenderStep, State,
};
use crate::oneshot::sync::{lock, open, store, wake, wake_all, Held};
use crate::oneshot::turn::{
    comes_to_nothing, looks_again, polls, receiver_leaves, receiver_tells, sender_leaves,
    sender_tells, sent_and_told, Key, Made, Turn,
};
use crate::oneshot::{left_waker, serves};

verus! {

/// What the two sides share: the channel behind a lock, and its status word once more, where a
/// blocked receiver can wait for it to change.
#[verifier::reject_recursive_types(T)]
pub(crate) struct Inner<T> {
    state: Mutex<State<T, Waker>>,
    signal: AtomicU32,
}

/// A wait of a `recv`: the turn that the step before it was made with, what that came to, the word that it
/// left, and the patience.
#[verifier::reject_recursive_types(T)]
pub(crate) struct Wait<T> {
    turn: Turn<T>,
    step: RecvStep<T, Waker>,
    seen: u32,
    patience: u64,
}

/// The waker that is to be woken for the task of `cx`, where `held` is one that was left before.
fn renewed(held: Option<Waker>, cx: &Context<'_>) -> (waker: Waker)
    ensures
        serves(*cx, held, waker),
{
    let own = cx.waker();
    match held {
        Some(waker) => if waker.will_wake(own) {
            waker
        } else {
            own.clone()
        },
        None => own.clone(),
    }
}

/// As nothing is claimed of the calls that other threads decide about, that one was made, with these
/// values, is known only where it was made. Of what the lock guards, `*inside` is what a call found, and
/// `*final(inside)` what it left. A call is handed a turn and hands it on, so that what the turn says in the
/// end is all that the call did.
impl<T> Inner<T> {
    /// The lock was taken, and what it guards was opened: this is `inside`.
    pub(crate) closed spec fn has_opened(
        &self,
        held: Held<'_, '_, State<T, Waker>>,
        inside: &mut State<T, Waker>,
    ) -> bool {
        &&& call_ensures(lock::<State<T, Waker>>, (&self.state,), *held.guard)
        &&& call_ensures(open::<State<T, Waker>>, (held,), inside)
    }

    /// The status word of `state` was put where whoever waits finds it.
    pub(crate) closed spec fn has_put_up(&self, state: State<T, Waker>) -> bool {
        exists|key: Key| #[trigger] call_ensures(Self::show, (self, &state, key), ())
    }

    /// Puts the status word of `state` where whoever waits finds it.
    fn show(&self, state: &State<T, Waker>, key: Key)
        ensures
            call_ensures(store, (&self.signal, state@.word(), key), ()),
        opens_invariants none
        no_unwind
    {
        store(&self.signal, state.word(), key)
    }

    /// The lock was made around `state`.
    pub(crate) closed spec fn was_made_around(&self, state: State<T, Waker>) -> bool {
        call_ensures(Mutex::<State<T, Waker>>::new, (state,), self.state)
    }

    /// This was made as a channel in `phase`: the lock around it, and the signal with its status word.
    pub(crate) closed spec fn began_in(&self, phase: Phase<T, Waker>) -> bool {
        &&& exists|state: State<T, Waker>| #[trigger]
            self.was_made_around(state) && state@ == phase
        &&& call_ensures(AtomicU32::new, (phase.word(),), self.signal)
    }

    /// A channel that nothing has happened to, behind a lock, and its status word.
    pub(crate) fn new() -> (inner: Self)
        ensures
            inner.began_in(Phase::New),
    {
        let state = State::new();
        let ghost first = state;
        let inner = Inner { state: Mutex::new(state), signal: AtomicU32::new(0) };
        assert(inner.was_made_around(first));
        inner
    }

    /// Whoever is to be told of a change was told: the waker was handed to `wake`, or the signal to
    /// `wake_all`.
    pub(crate) closed spec fn has_told(&self, alert: Alert<Waker>) -> bool {
        match alert {
            Alert::Quiet => true,
            Alert::Unpark => exists|key: Key| #[trigger]
                call_ensures(wake_all, (&self.signal, key), ()),
            Alert::Wake(waker) => exists|key: Key| #[trigger] call_ensures(wake, (waker, key), ()),
        }
    }

    /// Tells whoever waits that the channel has changed, and nobody where nobody does.
    fn alert(&self, turn: Turn<T>, alert: Alert<Waker>) -> (after: Turn<T>)
        ensures
            self.has_told(alert),
            alert is Quiet ==> after == turn,
            !(alert is Quiet) ==> after.made() == turn.made().push(Made::Told(alert)) && after.keys()
                == turn.keys() + 1,
        opens_invariants none
        no_unwind
    {
        let ghost whom = alert;
        match alert {
            Alert::Quiet => turn,
            Alert::Unpark => {
                let (turn, key) = turn.key();
                wake_all(&self.signal, key);
                turn.noted(Ghost(Made::Told(whom)))
            },
            Alert::Wake(waker) => {
                let (turn, key) = turn.key();
                wake(waker, key);
                turn.noted(Ghost(Made::Told(whom)))
            },
        }
    }

    /// With this turn, whoever is to be told was told, and that turn was left.
    pub(crate) closed spec fn has_alerted(&self, turn: Turn<T>, alert: Alert<Waker>, after: Turn<T>) -> bool {
        call_ensures(Self::alert, (self, turn, alert), after)
    }

    /// One step of `send`, on what the lock guards, and the status word after it put up.
    fn send_step(&self, turn: Turn<T>, val: T) -> (done: (Turn<T>, SendStep<T, Waker>))
        ensures
            done.0.made() == turn.made().push(Made::Sent(done.1)),
            done.0.keys() == turn.keys() + 2,
            exists|held: Held<'_, '_, State<T, Waker>>, inside: &mut State<T, Waker>|
                call_ensures(lock::<State<T, Waker>>, (&self.state,), *held.guard)
                    && #[trigger] call_ensures(open::<State<T, Waker>>, (held,), inside)
                    && done.1 == sending((*inside)@, val).1
                    && (*final(inside))@ == sending((*inside)@, val).0
                    && self.has_put_up(*final(inside)),
    {
        let (turn, key) = turn.key();
        let (turn, ink) = turn.key();
        let mut guard = lock(&self.state);
        let held = Held { guard: &mut guard, key };
        let ghost lent = held;
        let state = open(held);
        let ghost inside = state;
        let step = state.send(val);
        self.show(state, ink);
        assert(self.has_opened(lent, inside));
        let turn = turn.noted(Ghost(Made::Sent(step)));
        (turn, step)
    }

    /// With this turn a step of sending `val` was made, this came of it, and that turn was left.
    pub(crate) closed spec fn has_made_send(
        &self,
        turn: Turn<T>,
        val: T,
        step: SendStep<T, Waker>,
        after: Turn<T>,
    ) -> bool {
        call_ensures(Self::send_step, (self, turn, val), (after, step))
    }

    /// Sends `val`, and tells whoever waits for it.
    pub(crate) fn send(&self, turn: Turn<T>, val: T) -> (done: (Turn<T>, Result<(), T>))
        ensures
            exists|step: SendStep<T, Waker>, after: Turn<T>| #[trigger]
                self.has_made_send(turn, val, step, after) && match step {
                    SendStep::Refused(back) => done == (after, Err::<(), T>(back)),
                    SendStep::Stored(alert) => self.has_alerted(after, alert, done.0) && done.1
                        == Ok::<(), T>(()),
                },
            done.0.keys() - turn.keys() == done.0.made().len() - turn.made().len() + 1,
            match done.1 {
                Err(back) => back == val && done.0.made() == turn.made().push(
                    Made::Sent(SendStep::Refused(val)),
                ),
                Ok(_) => exists|alert: Alert<Waker>|
                    #![trigger sent_and_told::<T>(alert)]
                    done.0.made() == turn.made() + sent_and_told(alert),
            },
    {
        let (after, step) = self.send_step(turn, val);
        assert(self.has_made_send(turn, val, step, after));
        match step {
            SendStep::Refused(val) => (after, Err(val)),
            SendStep::Stored(alert) => {
                let ghost whom = alert;
                let last = self.alert(after, alert);
                assert(self.has_alerted(after, whom, last));
                assert(last.made() =~= turn.made() + sent_and_told(whom));
                (last, Ok(()))
            },
        }
    }

    /// The signal was read, and was `word`.
    pub(crate) closed spec fn has_read(&self, word: u32) -> bool {
        call_ensures(AtomicU32::load, (&self.signal, Ordering::Acquire), word)
    }

    /// Looks at the status word, and blocks if it is `seen`: `None` after the wait, and otherwise the
    /// other word. Either costs one of the patience, and what is left of it comes back too.
    fn wait_once(&self, seen: u32, patience: u64) -> (spent: (Option<u32>, u64))
        requires
            patience > 0,
        ensures
            spent.1 == patience - 1,
            match spent.0 {
                Some(word) => word != seen && self.has_read(word),
                None => self.has_read(seen) && call_ensures(
                    atomic_wait::wait,
                    (&self.signal, seen),
                    (),
                ),
            },
    {
        let word: u32 = self.signal.load(Ordering::Acquire);
        if word != seen {
            return (Some(word), patience - 1);
        }
        atomic_wait::wait(&self.signal, seen);
        (None, patience - 1)
    }

    /// The look that was taken when this patience was left came to that.
    pub(crate) closed spec fn has_spent(&self, seen: u32, patience: u64, other: Option<u32>) -> bool {
        exists|left: u64| #[trigger]
            call_ensures(Self::wait_once, (self, seen, patience), (other, left))
    }

    /// All of this patience but what is left was spent on looks that found the word as it was, and on waits.
    pub(crate) closed spec fn has_spent_down(&self, seen: u32, patience: u64, left: int) -> bool {
        forall|at: u64| left < at <= patience ==> #[trigger] self.has_spent(seen, at, None)
    }

    /// Blocks while the status word is `seen`, and returns what is left of the patience.
    ///
    /// Each look costs one of it, and all but the last is followed by a wait. `None` where all of it but
    /// one was spent on looks that found the word as it was, and on waits.
    fn wait_ready(&self, seen: u32, patience: u64) -> (left: Option<u64>)
        ensures
            match left {
                Some(left) => {
                    &&& 0 < left < patience
                    &&& exists|word: u32|
                        word != seen && #[trigger] self.has_spent(
                            seen,
                            (left + 1) as u64,
                            Some(word),
                        )
                    &&& self.has_spent_down(seen, patience, left + 1)
                },
                None => self.has_spent_down(seen, patience, 1),
            },
    {
        let mut left: u64 = patience;
        while left > 1
            invariant
                left <= patience,
                self.has_spent_down(seen, patience, left as int),
            decreases left,
        {
            let (other, rest) = self.wait_once(seen, left);
            assert(self.has_spent(seen, left, other));
            left = rest;
            if other.is_some() {
                assert(self.has_spent(seen, (left + 1) as u64, Some(other->0)));
                return Some(left);
            }
        }
        None
    }

    /// One step of `recv`, on what the lock guards, and the status word after it put up and returned.
    fn recv_step(&self, turn: Turn<T>) -> (done: (Turn<T>, RecvStep<T, Waker>, u32))
        ensures
            done.0.made() == turn.made().push(Made::Received(done.1)),
            done.0.keys() == turn.keys() + 2,
            exists|held: Held<'_, '_, State<T, Waker>>, inside: &mut State<T, Waker>|
                call_ensures(lock::<State<T, Waker>>, (&self.state,), *held.guard)
                    && #[trigger] call_ensures(open::<State<T, Waker>>, (held,), inside)
                    && done.1 == receiving((*inside)@).1
                    && done.2 == (*final(inside))@.word()
                    && (*final(inside))@ == receiving((*inside)@).0
                    && self.has_put_up(*final(inside)),
    {
        let (turn, key) = turn.key();
        let (turn, ink) = turn.key();
        let mut guard = lock(&self.state);
        let held = Held { guard: &mut guard, key };
        let ghost lent = held;
        let state = open(held);
        let ghost inside = state;
        let step = state.recv();
        let word = state.word();
        self.show(state, ink);
        assert(self.has_opened(lent, inside));
        let turn = turn.noted(Ghost(Made::Received(step)));
        (turn, step, word)
    }

    /// With this turn a step of `recv` was made, it came to `step` and left `word`, and that turn was left.
    pub(crate) closed spec fn has_made_recv(
        &self,
        turn: Turn<T>,
        step: RecvStep<T, Waker>,
        word: u32,
        after: Turn<T>,
    ) -> bool {
        call_ensures(Self::recv_step, (self, turn), (after, step, word))
    }

    /// With this turn a step of `recv` was made, it came to nothing and left `word`, and that turn was left.
    pub(crate) closed spec fn has_parked(
        &self,
        turn: Turn<T>,
        step: RecvStep<T, Waker>,
        word: u32,
        after: Turn<T>,
    ) -> bool {
        self.has_made_recv(turn, step, word, after) && (step is Park || step is Displace)
    }

    /// A wait for the word to change from `seen`, with this patience, left that.
    pub(crate) closed spec fn has_waited(&self, seen: u32, patience: u64, left: Option<u64>) -> bool {
        call_ensures(Self::wait_ready, (self, seen, patience), left)
    }

    /// A `recv` that began with the turn `begin` has been through `waits`: each began with a step that came
    /// to nothing, with the word that this left and with what the one before it had left of the patience,
    /// the first with all that a `u64` can count. `left` is what the last has left of it, and `turn` is the
    /// turn that is left.
    pub(crate) closed spec fn has_waited_through(
        &self,
        begin: Turn<T>,
        waits: Seq<Wait<T>>,
        turn: Turn<T>,
        left: Option<u64>,
    ) -> bool
        decreases waits.len(),
    {
        if waits.len() == 0 {
            left == Some(u64::MAX) && turn == begin
        } else {
            let wait = waits.last();
            &&& self.has_waited_through(begin, waits.drop_last(), wait.turn, Some(wait.patience))
            &&& self.has_parked(wait.turn, wait.step, wait.seen, turn)
            &&& self.has_waited(wait.seen, wait.patience, left)
        }
    }

    /// A `recv` that began with the turn `begin` has used up its patience on `waits`.
    pub(crate) closed spec fn has_given_up(
        &self,
        begin: Turn<T>,
        waits: Seq<Wait<T>>,
        turn: Turn<T>,
    ) -> bool {
        self.has_waited_through(begin, waits, turn, None)
    }

    /// A `recv` that began with the turn `begin` has been through `waits`, with patience left, and then made
    /// this step with this turn.
    pub(crate) closed spec fn has_come_to(
        &self,
        begin: Turn<T>,
        waits: Seq<Wait<T>>,
        turn: Turn<T>,
        step: RecvStep<T, Waker>,
        after: Turn<T>,
    ) -> bool {
        &&& exists|left: u64| #[trigger] self.has_waited_through(begin, waits, turn, Some(left))
        &&& exists|word: u32| #[trigger] self.has_made_recv(turn, step, word, after)
    }

    /// A step of `recv` on what the lock guards came to `step`.
    pub(crate) closed spec fn has_stepped(&self, step: RecvStep<T, Waker>) -> bool {
        exists|turn: Turn<T>, word: u32, after: Turn<T>| #[trigger]
            self.has_made_recv(turn, step, word, after)
    }

    /// Takes the value, and blocks while there is none and one may come.
    pub(crate) fn recv(&self, turn: Turn<T>) -> (done: (Turn<T>, Option<T>))
        ensures
            ({
                ||| exists|
                    waits: Seq<Wait<T>>,
                    last: Turn<T>,
                    step: RecvStep<T, Waker>,
                | #[trigger]
                    self.has_come_to(turn, waits, last, step, done.0) && match step {
                        RecvStep::Got(val) => done.1 == Some(val),
                        RecvStep::Gone => done.1 is None,
                        _ => false,
                    }
                ||| done.1 is None && exists|waits: Seq<Wait<T>>| #[trigger]
                    self.has_given_up(turn, waits, done.0)
            }),
            done.1 matches Some(val) ==> self.has_stepped(RecvStep::Got(val)),
            done.1 is None ==> self.has_stepped(RecvStep::Gone) || exists|waits: Seq<Wait<T>>|
                #[trigger] self.has_given_up(turn, waits, done.0),
            turn.made().is_prefix_of(done.0.made()),
            done.0.made().len() > turn.made().len(),
            done.0.keys() - turn.keys() == 2 * (done.0.made().len() - turn.made().len()),
            forall|i: int|
                turn.made().len() <= i < done.0.made().len() - 1 ==> comes_to_nothing(
                    #[trigger] done.0.made()[i],
                ),
            match done.1 {
                Some(val) => done.0.made().last() == Made::Received(RecvStep::Got(val)),
                None => done.0.made().last() == Made::Received(RecvStep::<T, Waker>::Gone) || (
                comes_to_nothing(done.0.made().last()) && exists|waits: Seq<Wait<T>>| #[trigger]
                    self.has_given_up(turn, waits, done.0)),
            },
    {
        let ghost begin = turn;
        let mut now = turn;
        let mut patience: u64 = u64::MAX;
        let ghost mut waits: Seq<Wait<T>> = Seq::empty();
        loop
            invariant
                begin == turn,
                self.has_waited_through(begin, waits, now, Some(patience)),
                begin.made().is_prefix_of(now.made()),
                now.keys() - begin.keys() == 2 * (now.made().len() - begin.made().len()),
                forall|i: int|
                    begin.made().len() <= i < now.made().len() ==> comes_to_nothing(
                        #[trigger] now.made()[i],
                    ),
            decreases patience,
        {
            let ghost before = now;
            let (after, step, seen) = self.recv_step(now);
            assert(self.has_made_recv(before, step, seen, after));
            assert(self.has_come_to(begin, waits, before, step, after));
            let ghost found = step;
            match step {
                RecvStep::Got(val) => {
                    return (after, Some(val));
                },
                RecvStep::Gone => {
                    return (after, None);
                },
                RecvStep::Park => {},
                RecvStep::Displace(waker) => {
                    // Dropped before the wait, so that its task learns of it.
                    let _displaced = waker;
                },
            }
            let left = self.wait_ready(seen, patience);
            proof {
                let earlier = waits;
                waits = waits.push(Wait { turn: before, step: found, seen, patience });
                assert(waits.drop_last() =~= earlier);
                assert(self.has_waited(seen, patience, left));
                assert(self.has_waited_through(begin, waits, after, left));
            }
            match left {
                Some(left) => {
                    patience = left;
                    now = after;
                },
                None => {
                    assert(self.has_given_up(begin, waits, after));
                    return (after, None);
                },
            }
        }
    }

    /// One step of a poll, on what the lock guards, and the status word after it put up.
    fn poll_step(&self, turn: Turn<T>) -> (done: (Turn<T>, PollStep<T, Waker>))
        ensures
            done.0.made() == turn.made().push(Made::Polled(done.1)),
            done.0.keys() == turn.keys() + 2,
            exists|held: Held<'_, '_, State<T, Waker>>, inside: &mut State<T, Waker>|
                call_ensures(lock::<State<T, Waker>>, (&self.state,), *held.guard)
                    && #[trigger] call_ensures(open::<State<T, Waker>>, (held,), inside)
                    && done.1 == polling((*inside)@).1
                    && (*final(inside))@ == polling((*inside)@).0
                    && self.has_put_up(*final(inside)),
    {
        let (turn, key) = turn.key();
        let (turn, ink) = turn.key();
        let mut guard = lock(&self.state);
        let held = Held { guard: &mut guard, key };
        let ghost lent = held;
        let state = open(held);
        let ghost inside = state;
        let step = state.poll();
        self.show(state, ink);
        assert(self.has_opened(lent, inside));
        let turn = turn.noted(Ghost(Made::Polled(step)));
        (turn, step)
    }

    /// With this turn a step of a poll was made, it came to this, and that turn was left.
    pub(crate) closed spec fn has_made_poll(
        &self,
        turn: Turn<T>,
        step: PollStep<T, Waker>,
        after: Turn<T>,
    ) -> bool {
        call_ensures(Self::poll_step, (self, turn), (after, step))
    }

    /// Hands in the waker of a poll, which comes back if the channel has changed, and puts the status word
    /// after it up.
    fn settle(&self, turn: Turn<T>, waker: Waker) -> (done: (Turn<T>, Option<Waker>))
        ensures
            done.0.made() == turn.made().push(Made::Settled(waker, done.1)),
            done.0.keys() == turn.keys() + 2,
            exists|held: Held<'_, '_, State<T, Waker>>, inside: &mut State<T, Waker>|
                call_ensures(lock::<State<T, Waker>>, (&self.state,), *held.guard)
                    && #[trigger] call_ensures(open::<State<T, Waker>>, (held,), inside)
                    && done.1 == settling((*inside)@, waker).1
                    && (*final(inside))@ == settling((*inside)@, waker).0
                    && self.has_put_up(*final(inside)),
    {
        let (turn, key) = turn.key();
        let (turn, ink) = turn.key();
        let ghost handed = waker;
        let mut guard = lock(&self.state);
        let held = Held { guard: &mut guard, key };
        let ghost lent = held;
        let state = open(held);
        let ghost inside = state;
        let step = state.settle(waker);
        self.show(state, ink);
        assert(self.has_opened(lent, inside));
        let turn = turn.noted(Ghost(Made::Settled(handed, step)));
        (turn, step)
    }

    /// With this turn `waker` was handed in, this came back, and that turn was left.
    pub(crate) closed spec fn has_settled(
        &self,
        turn: Turn<T>,
        waker: Waker,
        refused: Option<Waker>,
        after: Turn<T>,
    ) -> bool {
        call_ensures(Self::settle, (self, turn, waker), (after, refused))
    }

    /// A poll for the task of `cx` whose waker was refused, and which looks again, may answer this after
    /// `step`: the value or none, and if there is still nothing, it wakes the task.
    pub(crate) closed spec fn ends_again(
        &self,
        turn: Turn<T>,
        cx: Context<'_>,
        step: PollStep<T, Waker>,
        done: (Turn<T>, Poll<Option<T>>),
    ) -> bool {
        match step {
            PollStep::Got(val) => done == (turn, Poll::Ready(Some(val))),
            PollStep::Gone => done == (turn, Poll::Ready(None::<T>)),
            _ => done.1 is Pending && exists|waker: Waker| #[trigger]
                serves(cx, left_waker(step), waker) && self.has_alerted(
                    turn,
                    Alert::Wake(waker),
                    done.0,
                ),
        }
    }

    /// Looks again for a poll whose waker was refused.
    fn poll_again(&self, turn: Turn<T>, cx: &Context<'_>) -> (done: (Turn<T>, Poll<Option<T>>))
        ensures
            exists|step: PollStep<T, Waker>, after: Turn<T>| #[trigger]
                self.has_made_poll(turn, step, after) && self.ends_again(after, *cx, step, done),
            exists|step: PollStep<T, Waker>, told: Seq<Made<T>>| #[trigger]
                looks_again(step, told, done.1) && done.0.made() == turn.made().push(
                    Made::Polled(step),
                ) + told,
            done.0.keys() - turn.keys() == 1 + done.0.made().len() - turn.made().len(),
    {
        let ghost begin = turn;
        let (after, step) = self.poll_step(turn);
        let ghost found = step;
        assert(self.has_made_poll(begin, found, after));
        let held = match step {
            PollStep::Got(val) => {
                let done = (after, Poll::Ready(Some(val)));
                assert(looks_again(found, Seq::empty(), done.1));
                assert(done.0.made() =~= begin.made().push(Made::Polled(found)) + Seq::empty());
                return done;
            },
            PollStep::Gone => {
                let done = (after, Poll::Ready(None));
                assert(looks_again(found, Seq::empty(), done.1));
                assert(done.0.made() =~= begin.made().push(Made::Polled(found)) + Seq::empty());
                return done;
            },
            PollStep::Register => None,
            PollStep::Refresh(waker) => Some(waker),
        };
        let waker = renewed(held, cx);
        let ghost whom = waker;
        let last = self.alert(after, Alert::Wake(waker));
        assert(self.has_alerted(after, Alert::Wake(whom), last));
        assert(self.ends_again(after, *cx, found, (last, Poll::Pending)));
        proof {
            let told = seq![Made::<T>::Told(Alert::Wake(whom))];
            assert(looks_again(found, told, Poll::Pending));
            assert(last.made() =~= after.made() + told);
        }
        (last, Poll::Pending)
    }

    /// A poll for the task of `cx` has handed in `waker`: it is pending if the waker was taken in, and
    /// otherwise answers what it finds when it looks again.
    pub(crate) closed spec fn has_left(
        &self,
        turn: Turn<T>,
        cx: Context<'_>,
        waker: Waker,
        done: (Turn<T>, Poll<Option<T>>),
    ) -> bool {
        ||| self.has_settled(turn, waker, None, done.0) && done.1 is Pending
        ||| exists|back: Waker, after: Turn<T>| #[trigger]
            self.has_settled(turn, waker, Some(back), after) && call_ensures(
                Self::poll_again,
                (self, after, &cx),
                done,
            )
    }

    /// A poll for the task of `cx` may answer this after `step`: the value or none, and if there is
    /// nothing yet, it hands in a waker for the task.
    pub(crate) closed spec fn ends(
        &self,
        turn: Turn<T>,
        cx: Context<'_>,
        step: PollStep<T, Waker>,
        done: (Turn<T>, Poll<Option<T>>),
    ) -> bool {
        match step {
            PollStep::Got(val) => done == (turn, Poll::Ready(Some(val))),
            PollStep::Gone => done == (turn, Poll::Ready(None::<T>)),
            _ => exists|waker: Waker| #[trigger]
                serves(cx, left_waker(step), waker) && self.has_left(turn, cx, waker, done),
        }
    }

    /// Takes the value if there is one, and otherwise leaves a waker for the task of `cx`.
    pub(crate) fn poll_recv(&self, turn: Turn<T>, cx: &Context<'_>) -> (done: (
        Turn<T>,
        Poll<Option<T>>,
    ))
        ensures
            exists|step: PollStep<T, Waker>, after: Turn<T>| #[trigger]
                self.has_made_poll(turn, step, after) && self.ends(after, *cx, step, done),
            exists|made: Seq<Made<T>>| #[trigger]
                polls(*cx, made, done.1) && done.0.made() == turn.made() + made,
            done.0.keys() - turn.keys() == if done.0.made().last() is Told {
                2 * (done.0.made().len() - turn.made().len()) - 1
            } else {
                2 * (done.0.made().len() - turn.made().len())
            },
    {
        let ghost begin = turn;
        let (after, step) = self.poll_step(turn);
        let ghost found = step;
        assert(self.has_made_poll(begin, found, after));
        let ghost first = seq![Made::<T>::Polled(found)];
        assert(after.made() =~= begin.made() + first);
        let held = match step {
            PollStep::Got(val) => {
                let done = (after, Poll::Ready(Some(val)));
                assert(polls(*cx, first, done.1));
                return done;
            },
            PollStep::Gone => {
                let done = (after, Poll::Ready(None));
                assert(polls(*cx, first, done.1));
                return done;
            },
            PollStep::Register => None,
            PollStep::Refresh(waker) => Some(waker),
        };
        let waker = renewed(held, cx);
        let ghost handed = waker;
        let ghost polled = after;
        let (after, refused) = self.settle(after, waker);
        let ghost settled = after;
        assert(self.has_settled(polled, handed, refused, settled));
        let ghost two = first.push(Made::Settled(handed, refused));
        assert(settled.made() =~= begin.made() + two);
        let done = if refused.is_none() {
            assert(polls(*cx, two, Poll::Pending));
            (after, Poll::Pending)
        } else {
            // The sender has sent or left in between, so there is an answer now.
            self.poll_again(after, cx)
        };
        proof {
            assert(self.has_left(polled, *cx, handed, done));
            assert(self.ends(polled, *cx, found, done));
            if refused is Some {
                let (again, told) = choose|step: PollStep<T, Waker>, told: Seq<Made<T>>| #[trigger]
                    looks_again(step, told, done.1) && done.0.made() == settled.made().push(
                        Made::Polled(step),
                    ) + told;
                let all = two.push(Made::Polled(again)) + told;
                assert(all.skip(3) =~= told);
                assert(all[0] == Made::Polled(found));
                assert(all[1] == Made::<T>::Settled(handed, refused));
                assert(all[2] == Made::Polled(again));
                assert(polls(*cx, all, done.1));
                assert(done.0.made() =~= begin.made() + all);
            }
        }
        done
    }

    /// A step of the sender, which leaves, on what the lock guards, and the status word after it put up.
    fn sender_step(&self, turn: Turn<T>) -> (done: (Turn<T>, SenderStep<Waker>))
        ensures
            done.0.made() == turn.made().push(Made::SenderLeft(done.1)),
            done.0.keys() == turn.keys() + 2,
            exists|held: Held<'_, '_, State<T, Waker>>, inside: &mut State<T, Waker>|
                call_ensures(lock::<State<T, Waker>>, (&self.state,), *held.guard)
                    && #[trigger] call_ensures(open::<State<T, Waker>>, (held,), inside)
                    && done.1 == sender_leaving((*inside)@).1
                    && (*final(inside))@ == sender_leaving((*inside)@).0
                    && self.has_put_up(*final(inside)),
        opens_invariants none
        no_unwind
    {
        let (turn, key) = turn.key();
        let (turn, ink) = turn.key();
        let mut guard = lock(&self.state);
        let held = Held { guard: &mut guard, key };
        let ghost lent = held;
        let state = open(held);
        let ghost inside = state;
        let step = state.drop_sender();
        self.show(state, ink);
        assert(self.has_opened(lent, inside));
        let turn = turn.noted(Ghost(Made::SenderLeft(step)));
        (turn, step)
    }

    /// With this turn a step of leaving was made by the sender, it came to this, and that turn was left.
    pub(crate) closed spec fn has_made_sender(
        &self,
        turn: Turn<T>,
        step: SenderStep<Waker>,
        after: Turn<T>,
    ) -> bool {
        call_ensures(Self::sender_step, (self, turn), (after, step))
    }

    /// The next step of a sender that has told whoever waited.
    fn sender_next(&self, turn: Turn<T>) -> (after: Turn<T>)
        ensures
            exists|step: SenderStep<Waker>| #[trigger]
                self.has_made_sender(turn, step, after) && after.made() == turn.made().push(
                    Made::SenderLeft(step),
                ),
            after.keys() == turn.keys() + 2,
        opens_invariants none
        no_unwind
    {
        let ghost before = turn;
        let (after, step) = self.sender_step(turn);
        assert(self.has_made_sender(before, step, after));
        after
    }

    /// A sender whose first step of leaving came to `step` has done what is left to do: it has told
    /// whoever waited, and made the next step.
    pub(crate) closed spec fn sender_is_done(&self, turn: Turn<T>, step: SenderStep<Waker>, done: Turn<T>) -> bool {
        match sender_tells(step) {
            None => done == turn,
            Some(alert) => exists|told: Turn<T>| #[trigger]
                self.has_alerted(turn, alert, told) && call_ensures(
                    Self::sender_next,
                    (self, told),
                    done,
                ),
        }
    }

    /// Leaves the channel, as its sender.
    pub(crate) fn drop_sender(&self, turn: Turn<T>) -> (done: Turn<T>)
        ensures
            exists|step: SenderStep<Waker>, after: Turn<T>| #[trigger]
                self.has_made_sender(turn, step, after) && self.sender_is_done(after, step, done),
            exists|made: Seq<Made<T>>| #[trigger]
                sender_leaves(made) && done.made() == turn.made() + made,
            done.keys() - turn.keys() == if done.made().len() == turn.made().len() + 1 {
                2
            } else {
                5int
            },
        opens_invariants none
        no_unwind
    {
        let ghost begin = turn;
        let (after, step) = self.sender_step(turn);
        let ghost found = step;
        assert(self.has_made_sender(begin, found, after));
        let ghost first = seq![Made::<T>::SenderLeft(found)];
        assert(after.made() =~= begin.made() + first);
        let alert = match step {
            SenderStep::Reclaim => {
                assert(sender_leaves(first));
                return after;
            },
            SenderStep::Left => {
                assert(sender_leaves(first));
                return after;
            },
            SenderStep::Unpark => Alert::Unpark,
            SenderStep::Wake(waker) => Alert::Wake(waker),
        };
        let ghost whom = alert;
        let ghost left = after;
        let told = self.alert(after, alert);
        let ghost then = told;
        assert(self.has_alerted(left, whom, then));
        let done = self.sender_next(told);
        let ghost next = choose|next: SenderStep<Waker>| #[trigger]
            self.has_made_sender(then, next, done) && done.made() == then.made().push(
                Made::SenderLeft(next),
            );
        assert(self.sender_is_done(left, found, done));
        proof {
            let all = seq![
                Made::<T>::SenderLeft(found),
                Made::Told(whom),
                Made::SenderLeft(next),
            ];
            assert(sender_leaves(all));
            assert(done.made() =~= begin.made() + all);
        }
        done
    }

    /// A step of the receiver, which leaves, on what the lock guards, and the status word after it put up.
    fn receiver_step(&self, turn: Turn<T>) -> (done: (Turn<T>, ReceiverStep<T, Waker>))
        ensures
            done.0.made() == turn.made().push(Made::ReceiverLeft(done.1)),
            done.0.keys() == turn.keys() + 2,
            exists|held: Held<'_, '_, State<T, Waker>>, inside: &mut State<T, Waker>|
                call_ensures(lock::<State<T, Waker>>, (&self.state,), *held.guard)
                    && #[trigger] call_ensures(open::<State<T, Waker>>, (held,), inside)
                    && done.1 == receiver_leaving((*inside)@).1
                    && (*final(inside))@ == receiver_leaving((*inside)@).0
                    && self.has_put_up(*final(inside)),
        opens_invariants none
        no_unwind
    {
        let (turn, key) = turn.key();
        let (turn, ink) = turn.key();
        let mut guard = lock(&self.state);
        let held = Held { guard: &mut guard, key };
        let ghost lent = held;
        let state = open(held);
        let ghost inside = state;
        let step = state.drop_receiver();
        self.show(state, ink);
        assert(self.has_opened(lent, inside));
        let turn = turn.noted(Ghost(Made::ReceiverLeft(step)));
        (turn, step)
    }

    /// With this turn a step of leaving was made by the receiver, it came to this, and that turn was left.
    pub(crate) closed spec fn has_made_receiver(
        &self,
        turn: Turn<T>,
        step: ReceiverStep<T, Waker>,
        after: Turn<T>,
    ) -> bool {
        call_ensures(Self::receiver_step, (self, turn), (after, step))
    }

    /// The next step of a receiver that has told the task that waited, or dropped what was left.
    fn receiver_next(&self, turn: Turn<T>) -> (after: Turn<T>)
        ensures
            exists|step: ReceiverStep<T, Waker>| #[trigger]
                self.has_made_receiver(turn, step, after) && after.made() == turn.made().push(
                    Made::ReceiverLeft(step),
                ),
            after.keys() == turn.keys() + 2,
        opens_invariants none
        no_unwind
    {
        let ghost before = turn;
        let (after, step) = self.receiver_step(turn);
        assert(self.has_made_receiver(before, step, after));
        after
    }

    /// A receiver whose first step of leaving came to `step` has done what is left to do: it has told
    /// the task that waited, and made the next step.
    pub(crate) closed spec fn receiver_is_done(
        &self,
        turn: Turn<T>,
        step: ReceiverStep<T, Waker>,
        done: Turn<T>,
    ) -> bool {
        match receiver_tells(step) {
            None => done == turn,
            Some(alert) => exists|told: Turn<T>| #[trigger]
                self.has_alerted(turn, alert, told) && call_ensures(
                    Self::receiver_next,
                    (self, told),
                    done,
                ),
        }
    }

    /// Leaves the channel, as its receiver.
    pub(crate) fn drop_receiver(&self, turn: Turn<T>) -> (done: Turn<T>)
        ensures
            exists|step: ReceiverStep<T, Waker>, after: Turn<T>| #[trigger]
                self.has_made_receiver(turn, step, after) && self.receiver_is_done(after, step, done),
            exists|made: Seq<Made<T>>| #[trigger]
                receiver_leaves(made) && done.made() == turn.made() + made,
            done.keys() - turn.keys() == if done.made().len() == turn.made().len() + 3 {
                5
            } else {
                2 * (done.made().len() - turn.made().len())
            },
        opens_invariants none
        no_unwind
    {
        let ghost begin = turn;
        let (after, step) = self.receiver_step(turn);
        let ghost found = step;
        assert(self.has_made_receiver(begin, found, after));
        let ghost first = seq![Made::ReceiverLeft(found)];
        assert(after.made() =~= begin.made() + first);
        let alert = match step {
            ReceiverStep::Reclaim => {
                assert(receiver_leaves(first));
                return after;
            },
            ReceiverStep::Left => {
                assert(receiver_leaves(first));
                return after;
            },
            ReceiverStep::Discard(val) => {
                // What was never taken is dropped before the next step.
                let _untaken = val;
                Alert::Quiet
            },
            ReceiverStep::Wake(waker) => Alert::Wake(waker),
        };
        let ghost whom = alert;
        let ghost left = after;
        let told = self.alert(after, alert);
        let ghost then = told;
        assert(self.has_alerted(left, whom, then));
        let done = self.receiver_next(told);
        let ghost next = choose|next: ReceiverStep<T, Waker>| #[trigger]
            self.has_made_receiver(then, next, done) && done.made() == then.made().push(
                Made::ReceiverLeft(next),
            );
        assert(self.receiver_is_done(left, found, done));
        proof {
            let one = seq![Made::ReceiverLeft(found)];
            let between = if whom is Quiet {
                one
            } else {
                one.push(Made::Told(whom))
            };
            let all = between.push(Made::ReceiverLeft(next));
            assert(receiver_leaves(all));
            assert(done.made() =~= begin.made() + all);
        }
        done
    }
}

/// What is said to have been done was done by the calls that do it: nothing is known of a status word that
/// was put up, of somebody who was told, of a look or of a wait, but from the outside calls themselves.
proof fn law_said_is_done<T>(
    inner: Inner<T>,
    state: State<T, Waker>,
    waker: Waker,
    seen: u32,
    patience: u64,
    word: u32,
)
    ensures
        inner.has_put_up(state) ==> exists|key: Key| #[trigger]
            call_ensures(store, (&inner.signal, state@.word(), key), ()),
        inner.has_told(Alert::Unpark) ==> exists|key: Key| #[trigger]
            call_ensures(wake_all, (&inner.signal, key), ()),
        inner.has_told(Alert::Wake(waker)) ==> exists|key: Key| #[trigger]
            call_ensures(wake, (waker, key), ()),
        inner.has_read(word) ==> call_ensures(
            AtomicU32::load,
            (&inner.signal, Ordering::Acquire),
            word,
        ),
        inner.has_spent(seen, patience, None) ==> inner.has_read(seen) && call_ensures(
            atomic_wait::wait,
            (&inner.signal, seen),
            (),
        ),
        inner.has_spent(seen, patience, Some(word)) ==> inner.has_read(word) && word != seen,
        inner.has_waited(seen, patience, None) ==> forall|at: u64|
            1 < at <= patience ==> #[trigger] inner.has_spent(seen, at, None),
{
    if inner.has_put_up(state) {
        let key = choose|key: Key| #[trigger]
            call_ensures(Inner::<T>::show, (&inner, &state, key), ());
        assert(call_ensures(store, (&inner.signal, state@.word(), key), ()));
    }
    if inner.has_waited(seen, patience, None) {
        assert(inner.has_spent_down(seen, patience, 1));
        assert forall|at: u64| 1 < at <= patience implies #[trigger] inner.has_spent(
            seen,
            at,
            None,
        ) by {}
    }
}

/// A step that is said to have been made was made by the call that makes it, with this turn, and so it is
/// what the turn that is left says last.
proof fn law_steps_are_taken_down<T>(
    inner: Inner<T>,
    turn: Turn<T>,
    after: Turn<T>,
    val: T,
    waker: Waker,
    sent: SendStep<T, Waker>,
    received: RecvStep<T, Waker>,
    word: u32,
    polled: PollStep<T, Waker>,
    refused: Option<Waker>,
    sender: SenderStep<Waker>,
    receiver: ReceiverStep<T, Waker>,
)
    ensures
        inner.has_made_send(turn, val, sent, after) ==> after.made() == turn.made().push(
            Made::Sent(sent),
        ) && call_ensures(Inner::<T>::send_step, (&inner, turn, val), (after, sent)),
        inner.has_made_recv(turn, received, word, after) ==> after.made() == turn.made().push(
            Made::Received(received),
        ) && call_ensures(Inner::<T>::recv_step, (&inner, turn), (after, received, word)),
        inner.has_made_poll(turn, polled, after) ==> after.made() == turn.made().push(
            Made::Polled(polled),
        ) && call_ensures(Inner::<T>::poll_step, (&inner, turn), (after, polled)),
        inner.has_settled(turn, waker, refused, after) ==> after.made() == turn.made().push(
            Made::Settled(waker, refused),
        ) && call_ensures(Inner::<T>::settle, (&inner, turn, waker), (after, refused)),
        inner.has_made_sender(turn, sender, after) ==> after.made() == turn.made().push(
            Made::SenderLeft(sender),
        ) && call_ensures(Inner::<T>::sender_step, (&inner, turn), (after, sender)),
        inner.has_made_receiver(turn, receiver, after) ==> after.made() == turn.made().push(
            Made::ReceiverLeft(receiver),
        ) && call_ensures(Inner::<T>::receiver_step, (&inner, turn), (after, receiver)),
        inner.has_alerted(turn, Alert::Quiet, after) ==> after == turn,
        inner.has_alerted(turn, Alert::Unpark, after) ==> inner.has_told(Alert::Unpark)
            && after.made() == turn.made().push(Made::Told(Alert::Unpark)),
        inner.has_alerted(turn, Alert::Wake(waker), after) ==> inner.has_told(Alert::Wake(waker))
            && after.made() == turn.made().push(Made::Told(Alert::Wake(waker))),
        inner.has_stepped(received) ==> exists|before: Turn<T>, seen: u32, left: Turn<T>| #[trigger]
            inner.has_made_recv(before, received, seen, left),
{
}

/// A `recv` that gives up has begun with all the patience that a `u64` can count, and has spent it all: each
/// wait began where the one before it left off, with a step that came to nothing, and the last used up what
/// was left.
proof fn law_giving_up_takes_all_patience<T>(
    inner: Inner<T>,
    begin: Turn<T>,
    waits: Seq<Wait<T>>,
    done: Turn<T>,
)
    requires
        inner.has_given_up(begin, waits, done),
    ensures
        waits.len() > 0,
        waits[0].patience == u64::MAX,
        inner.has_waited(waits.last().seen, waits.last().patience, None),
        forall|i: int|
            0 <= i < waits.len() - 1 ==> inner.has_waited(
                (#[trigger] waits[i]).seen,
                waits[i].patience,
                Some(waits[i + 1].patience),
            ),
        forall|i: int|
            0 <= i < waits.len() ==> (#[trigger] waits[i]).step is Park || waits[i].step is Displace,
{
    lemma_waits(inner, begin, waits, done, None);
}

proof fn lemma_waits<T>(
    inner: Inner<T>,
    begin: Turn<T>,
    waits: Seq<Wait<T>>,
    turn: Turn<T>,
    left: Option<u64>,
)
    requires
        inner.has_waited_through(begin, waits, turn, left),
    ensures
        waits.len() == 0 ==> left == Some(u64::MAX),
        waits.len() > 0 ==> waits[0].patience == u64::MAX && inner.has_waited(
            waits.last().seen,
            waits.last().patience,
            left,
        ),
        forall|i: int|
            0 <= i < waits.len() - 1 ==> inner.has_waited(
                (#[trigger] waits[i]).seen,
                waits[i].patience,
                Some(waits[i + 1].patience),
            ),
        forall|i: int|
            0 <= i < waits.len() ==> (#[trigger] waits[i]).step is Park || waits[i].step is Displace,
    decreases waits.len(),
{
    if waits.len() > 0 {
        let less = waits.drop_last();
        lemma_waits(inner, begin, less, waits.last().turn, Some(waits.last().patience));
        assert forall|i: int| 0 <= i < waits.len() - 1 implies inner.has_waited(
            (#[trigger] waits[i]).seen,
            waits[i].patience,
            Some(waits[i + 1].patience),
        ) by {
            assert(less[i] == waits[i]);
            if i + 1 < less.len() {
                assert(less[i + 1] == waits[i + 1]);
            }
        }
        assert forall|i: int| 0 <= i < waits.len() implies (#[trigger] waits[i]).step is Park
            || waits[i].step is Displace by {
            if i < less.len() {
                assert(less[i] == waits[i]);
            }
        }
    }
}

} // verus!
