//! What a call does to a channel, one thing after the other.
//!
//! A call is given a turn when it begins, and hands it on through all that it does. Nothing behind the
//! lock is opened, no status word is put up and nobody is told without a key, keys come from turns alone,
//! and a turn counts them. So what a turn says was made is all that was made.

use std::task::{Context, Poll, Waker};

use vstd::prelude::*;

use super::state::{Alert, PollStep, ReceiverStep, RecvStep, SendStep, SenderStep};
use super::{left_waker, serves};

verus! {

/// Something that a call has done to a channel.
#[verifier::reject_recursive_types(T)]
pub enum Made<T> {
    /// A step of sending, which came to this.
    Sent(SendStep<T, Waker>),
    /// A step of `recv`, which came to this.
    Received(RecvStep<T, Waker>),
    /// A step of a poll, which came to this.
    Polled(PollStep<T, Waker>),
    /// This waker was handed in, and that came back.
    Settled(Waker, Option<Waker>),
    /// A step of a sender that leaves, which came to this.
    SenderLeft(SenderStep<Waker>),
    /// A step of a receiver that leaves, which came to this.
    ReceiverLeft(ReceiverStep<T, Waker>),
    /// Whoever waited was told.
    Told(Alert<Waker>),
}

/// The turn of a call.
#[verifier::reject_recursive_types(T)]
pub(crate) struct Turn<T> {
    made: Ghost<Seq<Made<T>>>,
    keys: Ghost<nat>,
}

/// What lets one thing be done to a channel.
pub(crate) struct Key {
    _private: (),
}

impl<T> Turn<T> {
    /// What was made, the earliest first.
    pub closed spec fn made(self) -> Seq<Made<T>> {
        self.made@
    }

    /// How many keys were given out.
    pub closed spec fn keys(self) -> nat {
        self.keys@
    }

    /// This is the turn of a call that has done nothing yet.
    pub open spec fn is_new(self) -> bool {
        self.made() == Seq::<Made<T>>::empty() && self.keys() == 0
    }

    /// The turn of a call that begins.
    pub(super) fn begin() -> (turn: Self)
        ensures
            turn.is_new(),
        opens_invariants none
        no_unwind
    {
        Turn { made: Ghost(Seq::empty()), keys: Ghost(0) }
    }

    /// Gives a key out.
    pub(crate) fn key(self) -> (given: (Self, Key))
        ensures
            given.0.made() == self.made(),
            given.0.keys() == self.keys() + 1,
        opens_invariants none
        no_unwind
    {
        (Turn { made: self.made, keys: Ghost(self.keys@ + 1) }, Key { _private: () })
    }

    /// Takes down that this was made.
    pub(crate) fn noted(self, entry: Ghost<Made<T>>) -> (turn: Self)
        ensures
            turn.made() == self.made().push(entry@),
            turn.keys() == self.keys(),
        opens_invariants none
        no_unwind
    {
        Turn { made: Ghost(self.made@.push(entry@)), keys: self.keys }
    }
}

/// A step of `recv` that came to nothing yet, and nothing else.
pub open spec fn comes_to_nothing<T>(made: Made<T>) -> bool {
    made matches Made::Received(step) && (step is Park || step is Displace)
}

/// A value was stored, and whoever waited was told, if somebody did.
pub open spec fn sent_and_told<T>(alert: Alert<Waker>) -> Seq<Made<T>> {
    let sent = seq![Made::Sent(SendStep::Stored(alert))];
    if alert is Quiet {
        sent
    } else {
        sent.push(Made::Told(alert))
    }
}

/// A poll that looked again found `step`, then did `told`, and answered this.
pub open spec fn looks_again<T>(
    step: PollStep<T, Waker>,
    told: Seq<Made<T>>,
    answer: Poll<Option<T>>,
) -> bool {
    match step {
        PollStep::Got(val) => told.len() == 0 && answer == Poll::Ready(Some(val)),
        PollStep::Gone => told.len() == 0 && answer == Poll::Ready(None::<T>),
        _ => told.len() == 1 && answer is Pending && (told[0] matches Made::Told(Alert::Wake(_))),
    }
}

/// A poll for the task of `cx` that answered this may have made `made`, and no more: a step, and where
/// that came to nothing yet, the handing in of a waker for the task, and where that was refused, another
/// look.
pub open spec fn polls<T>(cx: Context<'_>, made: Seq<Made<T>>, answer: Poll<Option<T>>) -> bool {
    &&& made.len() > 0
    &&& made[0] matches Made::Polled(step) && match step {
        PollStep::Got(val) => made.len() == 1 && answer == Poll::Ready(Some(val)),
        PollStep::Gone => made.len() == 1 && answer == Poll::Ready(None::<T>),
        _ => {
            &&& made.len() > 1
            &&& made[1] matches Made::Settled(waker, refused) && serves(
                cx,
                left_waker(step),
                waker,
            ) && match refused {
                None => made.len() == 2 && answer is Pending,
                Some(_) => made.len() > 2 && (made[2] matches Made::Polled(again) && looks_again(
                    again,
                    made.skip(3),
                    answer,
                )),
            }
        },
    }
}

/// Whom a sender that leaves has to tell before its next step, if there is one.
pub open spec fn sender_tells(step: SenderStep<Waker>) -> Option<Alert<Waker>> {
    match step {
        SenderStep::Reclaim => None,
        SenderStep::Left => None,
        SenderStep::Unpark => Some(Alert::Unpark),
        SenderStep::Wake(waker) => Some(Alert::Wake(waker)),
    }
}

/// A sender that leaves may have made `made`, and no more.
pub open spec fn sender_leaves<T>(made: Seq<Made<T>>) -> bool {
    &&& made.len() > 0
    &&& made[0] matches Made::SenderLeft(step) && match sender_tells(step) {
        None => made.len() == 1,
        Some(alert) => made.len() == 3 && made[1] == Made::<T>::Told(alert) && made[2] is SenderLeft,
    }
}

/// Whom a receiver that leaves has to tell before its next step, if there is one.
pub open spec fn receiver_tells<T>(step: ReceiverStep<T, Waker>) -> Option<Alert<Waker>> {
    match step {
        ReceiverStep::Reclaim => None,
        ReceiverStep::Left => None,
        ReceiverStep::Discard(_) => Some(Alert::Quiet),
        ReceiverStep::Wake(waker) => Some(Alert::Wake(waker)),
    }
}

/// A receiver that leaves may have made `made`, and no more.
pub open spec fn receiver_leaves<T>(made: Seq<Made<T>>) -> bool {
    &&& made.len() > 0
    &&& made[0] matches Made::ReceiverLeft(step) && match receiver_tells(step) {
        None => made.len() == 1,
        Some(Alert::Quiet) => made.len() == 2 && made[1] is ReceiverLeft,
        Some(alert) => made.len() == 3 && made[1] == Made::<T>::Told(alert) && made[2] is ReceiverLeft,
    }
}

} // verus!
