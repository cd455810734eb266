//! What holds of a channel however the steps of its two sides interleave.

use std::task::{Context, Poll, Waker};

use vstd::multiset::Multiset;
use vstd::prelude::*;

use crate::bit::{Bit, BitWith};
use super::state::{
    polling, receiver_leaving, receiving, sender_leaving, sending, settling, Alert, Phase, PollStep,
    ReceiverStep, RecvStep, SendStep, SenderStep,
};
use super::status::BitStatus;
use super::turn::{
    comes_to_nothing, polls, receiver_leaves, sender_leaves, sent_and_told, Made,
};
use super::{left_waker, serves, Receiver, Sender};

verus! {

/// A step of one of the two sides.
pub enum Event<T, W> {
    /// The sender sends this value.
    Send(T),
    /// A call of `recv` makes its first step.
    Recv,
    /// A call of `recv` that was parked looks again.
    Resume,
    /// A call of `recv` that was parked gives up.
    GiveUp,
    /// A poll begins.
    Poll,
    /// The poll hands in this waker, which is the one that it was given, or a new one.
    Settle(W),
    /// The sender leaves, or goes on leaving.
    LeaveSender,
    /// The receiver leaves, or goes on leaving.
    LeaveReceiver,
}

/// How far a side has got with leaving.
pub enum Side {
    /// It has not begun.
    Here,
    /// It has begun and is not done.
    Leaving,
    /// It is done, and does not touch the channel any more.
    Away,
}

/// A channel with its history.
pub struct History<T, W> {
    /// The channel.
    pub phase: Phase<T, W>,
    /// The value that the sender tried to send.
    pub sent: Option<T>,
    /// The value that the sender was given back.
    pub refused: Option<T>,
    /// The values that were received, the earliest first.
    pub received: Seq<T>,
    /// What the calls of `recv` that have ended without giving up answered, the earliest first.
    pub answers: Seq<Option<T>>,
    /// How many calls of `recv` have given up.
    pub given_up: nat,
    /// How many polls have begun.
    pub polls: nat,
    /// The values that the receiver dropped because nobody had taken them.
    pub discarded: Seq<T>,
    /// How many calls of `recv` are parked.
    pub parked: nat,
    /// Whether a poll has begun and not yet handed in its waker.
    pub in_poll: bool,
    /// The waker that the poll was given.
    pub held: Option<W>,
    /// The wakers that polls brought along.
    pub made: Multiset<W>,
    /// The wakers that were woken.
    pub woken: Multiset<W>,
    /// The wakers that were dropped without being woken.
    pub dropped: Multiset<W>,
    /// The sender.
    pub sender: Side,
    /// The receiver.
    pub receiver: Side,
    /// How often the channel was reclaimed.
    pub reclaimed: nat,
}

impl<T, W> History<T, W> {
    /// A channel that was just made.
    pub open spec fn start() -> Self {
        History {
            phase: Phase::New,
            sent: None,
            refused: None,
            received: Seq::empty(),
            answers: Seq::empty(),
            given_up: 0,
            polls: 0,
            discarded: Seq::empty(),
            parked: 0,
            in_poll: false,
            held: None,
            made: Multiset::empty(),
            woken: Multiset::empty(),
            dropped: Multiset::empty(),
            sender: Side::Here,
            receiver: Side::Here,
            reclaimed: 0,
        }
    }

    /// What the signatures of the two sides let happen next: the sender sends once, before it
    /// leaves; a poll and a leaving receiver have the receiver to themselves.
    pub open spec fn allows(self, event: Event<T, W>) -> bool {
        match event {
            Event::Send(_) => self.sender is Here && self.sent is None,
            Event::Recv => self.receiver is Here && !self.in_poll,
            Event::Resume => self.receiver is Here && !self.in_poll && self.parked > 0,
            Event::GiveUp => self.receiver is Here && !self.in_poll && self.parked > 0,
            Event::Poll => self.receiver is Here && !self.in_poll && self.parked == 0,
            Event::Settle(_) => self.receiver is Here && self.in_poll,
            Event::LeaveSender => !(self.sender is Away),
            Event::LeaveReceiver => !(self.receiver is Away) && !self.in_poll && self.parked == 0,
        }
    }

    /// The history after `event`.
    pub open spec fn extended(self, event: Event<T, W>) -> Self {
        match event {
            Event::Send(val) => {
                let (phase, step) = sending(self.phase, val);
                let after = History { phase, sent: Some(val), ..self };
                match step {
                    SendStep::Refused(back) => History { refused: Some(back), ..after },
                    SendStep::Stored(Alert::Wake(w)) => History {
                        woken: self.woken.insert(w),
                        ..after
                    },
                    SendStep::Stored(_) => after,
                }
            },
            Event::Recv => {
                let (phase, step) = receiving(self.phase);
                let after = History { phase, ..self };
                match step {
                    RecvStep::Got(val) => History {
                        received: self.received.push(val),
                        answers: self.answers.push(Some(val)),
                        ..after
                    },
                    RecvStep::Gone => History { answers: self.answers.push(None), ..after },
                    RecvStep::Park => History { parked: self.parked + 1, ..after },
                    RecvStep::Displace(w) => History {
                        parked: self.parked + 1,
                        dropped: self.dropped.insert(w),
                        ..after
                    },
                }
            },
            Event::Resume => {
                let (phase, step) = receiving(self.phase);
                let after = History { phase, ..self };
                match step {
                    RecvStep::Got(val) => History {
                        received: self.received.push(val),
                        answers: self.answers.push(Some(val)),
                        parked: (self.parked - 1) as nat,
                        ..after
                    },
                    RecvStep::Gone => History {
                        answers: self.answers.push(None),
                        parked: (self.parked - 1) as nat,
                        ..after
                    },
                    RecvStep::Park => after,
                    RecvStep::Displace(w) => History { dropped: self.dropped.insert(w), ..after },
                }
            },
            Event::GiveUp => History {
                parked: (self.parked - 1) as nat,
                given_up: self.given_up + 1,
                ..self
            },
            Event::Poll => {
                let (phase, step) = polling(self.phase);
                let after = History { phase, polls: self.polls + 1, ..self };
                match step {
                    PollStep::Got(val) => History { received: self.received.push(val), ..after },
                    PollStep::Gone => after,
                    PollStep::Register => History { in_poll: true, ..after },
                    PollStep::Refresh(w) => History { in_poll: true, held: Some(w), ..after },
                }
            },
            Event::Settle(w) => {
                let (phase, back) = settling(self.phase, w);
                let after = History { phase, in_poll: false, held: None, ..self };
                let kept = self.held == Some(w);
                let made = if kept {
                    self.made
                } else {
                    self.made.insert(w)
                };
                let dropped = if kept || self.held is None {
                    self.dropped
                } else {
                    self.dropped.insert(self.held->0)
                };
                match back {
                    None => History { made, dropped, ..after },
                    Some(b) => History { made, dropped: dropped.insert(b), ..after },
                }
            },
            Event::LeaveSender => {
                let (phase, step) = sender_leaving(self.phase);
                let after = History { phase, ..self };
                match step {
                    SenderStep::Reclaim => History {
                        sender: Side::Away,
                        reclaimed: self.reclaimed + 1,
                        ..after
                    },
                    SenderStep::Left => History { sender: Side::Away, ..after },
                    SenderStep::Unpark => History { sender: Side::Leaving, ..after },
                    SenderStep::Wake(w) => History {
                        sender: Side::Leaving,
                        woken: self.woken.insert(w),
                        ..after
                    },
                }
            },
            Event::LeaveReceiver => {
                let (phase, step) = receiver_leaving(self.phase);
                let after = History { phase, ..self };
                match step {
                    ReceiverStep::Reclaim => History {
                        receiver: Side::Away,
                        reclaimed: self.reclaimed + 1,
                        ..after
                    },
                    ReceiverStep::Left => History { receiver: Side::Away, ..after },
                    ReceiverStep::Discard(val) => History {
                        receiver: Side::Leaving,
                        discarded: self.discarded.push(val),
                        ..after
                    },
                    ReceiverStep::Wake(w) => History {
                        receiver: Side::Leaving,
                        woken: self.woken.insert(w),
                        ..after
                    },
                }
            },
        }
    }

    /// The history that `events` make, one after the other.
    pub open spec fn after(events: Seq<Event<T, W>>) -> Self
        decreases events.len(),
    {
        if events.len() == 0 {
            Self::start()
        } else {
            Self::after(events.drop_last()).extended(events.last())
        }
    }

    /// Each of `events` is one that may happen when it does.
    pub open spec fn possible(events: Seq<Event<T, W>>) -> bool
        decreases events.len(),
    {
        events.len() == 0 || (Self::possible(events.drop_last()) && Self::after(
            events.drop_last(),
        ).allows(events.last()))
    }

    /// A value was stored: sent and not refused.
    spec fn stored(self) -> bool {
        self.sent is Some && self.refused is None
    }

    /// What keeps holding.
    spec fn inv(self) -> bool {
        // Where the value is.
        &&& self.refused is Some ==> self.refused == self.sent
        &&& match self.phase.data() {
            Some(v) => self.stored() && self.sent == Some(v) && self.received.len() == 0
                && self.discarded.len() == 0,
            None => true,
        }
        &&& !self.stored() ==> self.received.len() == 0 && self.discarded.len() == 0
        &&& self.stored() && self.phase.data() is None ==> {
            ||| self.received =~= seq![self.sent->0] && self.discarded.len() == 0
            ||| self.received.len() == 0 && self.discarded =~= seq![self.sent->0]
        }
        &&& self.discarded.len() > 0 ==> !(self.receiver is Here)
        // What was answered.
        &&& self.polls == 0 && self.received.len() == 0 ==> none_got(self.answers)
        &&& self.polls == 0 && self.received.len() > 0 ==> one_got(self.answers, self.received[0])
        &&& self.answers.len() > 0 && self.received.len() == 0 ==> !(self.sender is Here)
            && !self.stored()
        // Where the wakers are.
        &&& self.made =~= self.woken.add(self.dropped).add(kept_waker(self.phase.waker())).add(
            kept_waker(self.held),
        )
        &&& self.held is Some ==> self.in_poll
        // Who is where.
        &&& self.sender is Away && self.receiver is Away <==> self.reclaimed > 0
        &&& self.reclaimed <= 1
        &&& self.in_poll ==> self.receiver is Here && self.parked == 0
        &&& self.parked > 0 ==> self.receiver is Here
        &&& self.phase_inv()
    }

    /// What each phase says of the rest.
    spec fn phase_inv(self) -> bool {
        match self.phase {
            Phase::New => self.sender is Here && self.receiver is Here && self.sent is None
                && !self.in_poll,
            Phase::Ready(_) => self.sender is Here && self.receiver is Here,
            Phase::Waiting => self.sender is Here && self.receiver is Here && self.sent is None
                && !self.in_poll && (self.parked > 0 || self.given_up > 0),
            Phase::Pending(_) => self.sender is Here && self.receiver is Here && self.sent is None
                && !self.in_poll && self.parked == 0,
            Phase::Polling => self.sender is Here && self.receiver is Here && self.sent is None
                && self.in_poll,
            Phase::Dataless => {
                &&& self.sender is Here
                &&& self.receiver is Here
                &&& self.received.len() == 1
            },
            Phase::Closed => {
                &&& !self.in_poll
                &&& {
                    ||| self.sender is Leaving && self.receiver is Here && self.refused == self.sent
                    ||| self.receiver is Leaving && self.sender is Here && (self.refused
                        == self.sent || self.discarded.len() == 1)
                }
            },
            Phase::Dropped => self.sender is Away || self.receiver is Away,
            Phase::Droppable(_) => self.sender is Away && self.receiver is Here,
        }
    }
}

/// None of `answers` is a value.
pub open spec fn none_got<T>(answers: Seq<Option<T>>) -> bool {
    forall|i: int| 0 <= i < answers.len() ==> (#[trigger] answers[i]) is None
}

/// One of `answers` is `val`, and the others are none.
pub open spec fn one_got<T>(answers: Seq<Option<T>>, val: T) -> bool {
    exists|i: int|
        0 <= i < answers.len() && #[trigger] answers[i] == Some(val) && forall|j: int|
            0 <= j < answers.len() && j != i ==> (#[trigger] answers[j]) is None
}

/// The waker that is kept, if one is.
pub open spec fn kept_waker<W>(waker: Option<W>) -> Multiset<W> {
    match waker {
        Some(w) => Multiset::singleton(w),
        None => Multiset::empty(),
    }
}

proof fn lemma_answer<T>(answers: Seq<Option<T>>, val: T)
    ensures
        none_got(answers) ==> none_got(answers.push(None)) && one_got(answers.push(Some(val)), val),
        one_got(answers, val) ==> one_got(answers.push(None), val),
{
    if none_got(answers) {
        assert(answers.push(Some(val))[answers.len() as int] == Some(val));
    }
    if one_got(answers, val) {
        let i = choose|i: int|
            0 <= i < answers.len() && #[trigger] answers[i] == Some(val) && forall|j: int|
                0 <= j < answers.len() && j != i ==> (#[trigger] answers[j]) is None;
        assert(answers.push(None)[i] == Some(val));
    }
}

proof fn lemma_step<T, W>(before: History<T, W>, event: Event<T, W>)
    requires
        before.inv(),
        before.allows(event),
    ensures
        before.extended(event).inv(),
{
    broadcast use vstd::multiset::group_multiset_axioms;

    lemma_answer(before.answers, arbitrary());
    if before.sent is Some {
        lemma_answer(before.answers, before.sent->0);
    }
}

proof fn lemma_inv<T, W>(events: Seq<Event<T, W>>)
    requires
        History::possible(events),
    ensures
        History::after(events).inv(),
    decreases events.len(),
{
    broadcast use vstd::multiset::group_multiset_axioms;

    if events.len() > 0 {
        lemma_inv(events.drop_last());
        lemma_step(History::after(events.drop_last()), events.last());
    }
}

/// The status word keeps its bits apart: `WAITING` excludes `READY` and `CLOSE`, and `PENDING` comes
/// only with `WAITING`.
pub proof fn law_word<T, W>(phase: Phase<T, W>)
    ensures
        phase.word().shows(BitStatus::WAITING) ==> !phase.word().shows(BitStatus::READY)
            && !phase.word().shows(BitStatus::CLOSE),
        phase.word().shows(BitStatus::PENDING) ==> phase.word().shows(BitStatus::WAITING),
        phase.word().shows(BitStatus::READY) == (phase.data() is Some),
        phase.word().shows(BitStatus::CLOSE) == phase.closed(),
        (phase.word().shows(BitStatus::PENDING) && !phase.word().shows(BitStatus::FIELDLESS)) == (
        phase.waker() is Some),
{
    let w = phase.word();
    assert((w == 0 || w == 1 || w == 4 || w == 20 || w == 28 || w == 8 || w == 2 || w == 10 || w
        == 11) ==> {
        &&& w & 4 != 0 ==> w & 1 == 0 && w & 2 == 0
        &&& w & 16 != 0 ==> w & 4 != 0
        &&& (w & 1 != 0) == (w == 1 || w == 11)
        &&& (w & 2 != 0) == (w == 2 || w == 10 || w == 11)
        &&& (w & 16 != 0 && w & 8 == 0) == (w == 20)
    }) by (bit_vector);
}

/// A value that is sent is in one place at any time: it was given back to the sender, it is in the
/// channel, it was received, or the receiver dropped it. So it is received once at most, and what is
/// received is what was sent.
pub proof fn law_value_is_in_one_place<T, W>(events: Seq<Event<T, W>>)
    requires
        History::possible(events),
    ensures
        ({
            let h = History::after(events);
            match h.sent {
                None => h.refused is None && h.phase.data() is None && h.received.len() == 0
                    && h.discarded.len() == 0,
                Some(v) => {
                    ||| h.refused == Some(v) && h.phase.data() is None && h.received.len() == 0
                        && h.discarded.len() == 0
                    ||| h.refused is None && h.phase.data() == Some(v) && h.received.len() == 0
                        && h.discarded.len() == 0
                    ||| h.refused is None && h.phase.data() is None && h.received == seq![v]
                        && h.discarded.len() == 0
                    ||| h.refused is None && h.phase.data() is None && h.received.len() == 0
                        && h.discarded == seq![v]
                },
            }
        }),
{
    lemma_inv(events);
}

/// Every waker that a poll brought along is in the channel, in the hands of a poll, woken once or
/// dropped once.
pub proof fn law_waker_is_in_one_place<T, W>(events: Seq<Event<T, W>>)
    requires
        History::possible(events),
    ensures
        ({
            let h = History::after(events);
            h.made == h.woken.add(h.dropped).add(kept_waker(h.phase.waker())).add(
                kept_waker(h.held),
            )
        }),
{
    lemma_inv(events);
}

/// The channel is reclaimed when both sides are away, then and only then, and once. Nothing is left
/// in it: the value was given back, received or dropped, and every waker was woken or dropped.
pub proof fn law_reclaimed_once<T, W>(events: Seq<Event<T, W>>)
    requires
        History::possible(events),
    ensures
        ({
            let h = History::after(events);
            &&& h.reclaimed == if h.sender is Away && h.receiver is Away {
                1nat
            } else {
                0
            }
            &&& h.reclaimed > 0 ==> {
                &&& h.phase.data() is None
                &&& h.phase.waker() is None
                &&& h.made == h.woken.add(h.dropped)
            }
        }),
{
    broadcast use vstd::multiset::group_multiset_axioms;

    lemma_inv(events);
    let h = History::after(events);
    if h.reclaimed > 0 {
        assert(h.made =~= h.woken.add(h.dropped));
    }
}

/// While the receiver is there, a value is accepted.
pub proof fn law_accepted_while_receiver_is_here<T, W>(events: Seq<Event<T, W>>, val: T)
    requires
        History::possible(events),
        History::after(events).allows(Event::Send(val)),
        History::after(events).receiver is Here,
    ensures
        sending(History::after(events).phase, val).1 is Stored,
        sending(History::after(events).phase, val).0 == Phase::<T, W>::Ready(val),
{
    lemma_inv(events);
}

/// Once the receiver has begun to leave, a value is given back.
pub proof fn law_refused_when_receiver_leaves<T, W>(events: Seq<Event<T, W>>, val: T)
    requires
        History::possible(events),
        History::after(events).allows(Event::Send(val)),
        !(History::after(events).receiver is Here),
    ensures
        sending(History::after(events).phase, val) == (
            History::after(events).phase,
            SendStep::<T, W>::Refused(val),
        ),
{
    lemma_inv(events);
}

/// After the value was received, there is nothing more to receive.
pub proof fn law_nothing_after_receipt<T, W>(events: Seq<Event<T, W>>)
    requires
        History::possible(events),
        History::after(events).received.len() > 0,
    ensures
        receiving(History::after(events).phase).1 is Gone,
        polling(History::after(events).phase).1 is Gone,
{
    lemma_inv(events);
}

/// There is nothing to receive only where the value was received, or the sender has begun to leave and
/// nothing that it sent was accepted. Otherwise the value is there, or `recv` waits.
pub proof fn law_nothing_only_if_taken_or_left<T, W>(events: Seq<Event<T, W>>)
    requires
        History::possible(events),
        History::after(events).receiver is Here,
    ensures
        ({
            let h = History::after(events);
            let over = h.received.len() > 0 || (!(h.sender is Here) && h.refused == h.sent);
            &&& receiving(h.phase).1 is Gone <==> over
            &&& polling(h.phase).1 is Gone <==> over
            &&& !over && h.sent is None ==> {
                let found = receiving(h.phase).1;
                found is Park || found is Displace
            }
        }),
{
    lemma_inv(events);
}

/// A call of `recv` that gives up leaves the channel as it is, so that what is sent later is received by
/// the next call.
pub proof fn law_giving_up_loses_nothing<T, W>(events: Seq<Event<T, W>>)
    requires
        History::possible(events),
        History::after(events).allows(Event::GiveUp),
    ensures
        ({
            let (before, after) = (
                History::after(events),
                History::after(events.push(Event::GiveUp)),
            );
            &&& after.phase == before.phase
            &&& after.received == before.received
            &&& after.sent == before.sent
            &&& after.answers == before.answers
        }),
{
    assert(events.push(Event::<T, W>::GiveUp).drop_last() =~= events);
}

/// Of the calls of `recv` that have ended after a value was accepted, without giving up, of which there
/// is one at least, exactly one got the value, and the others got nothing, whoever they were made by and
/// whenever they began. (What is polled for is received by the poll.)
pub proof fn law_one_call_gets_the_value<T, W>(events: Seq<Event<T, W>>)
    requires
        History::possible(events),
        History::after(events).sent is Some,
        History::after(events).refused is None,
        History::after(events).answers.len() > 0,
        History::after(events).polls == 0,
    ensures
        one_got(History::after(events).answers, History::after(events).sent->0),
{
    lemma_inv(events);
}

/// After the sender has begun to leave without sending, there is nothing to receive.
pub proof fn law_nothing_from_absent_sender<T, W>(events: Seq<Event<T, W>>)
    requires
        History::possible(events),
        !(History::after(events).sender is Here),
        History::after(events).sent is None,
    ensures
        receiving(History::after(events).phase).1 is Gone,
        polling(History::after(events).phase).1 is Gone,
{
    lemma_inv(events);
}

/// What was sent stays receivable when the sender leaves: until it is taken or dropped, the next
/// receipt gets it.
pub proof fn law_sent_value_is_received<T, W>(events: Seq<Event<T, W>>)
    requires
        History::possible(events),
        History::after(events).sent is Some,
        History::after(events).refused is None,
        History::after(events).received.len() == 0,
        History::after(events).discarded.len() == 0,
    ensures
        receiving(History::after(events).phase).1 == RecvStep::<T, W>::Got(
            History::after(events).sent->0,
        ),
        polling(History::after(events).phase).1 == PollStep::<T, W>::Got(
            History::after(events).sent->0,
        ),
{
    lemma_inv(events);
}

/// A receiver that is parked is not forgotten: what ends its wait is a step of the sender that
/// answers that it is to be unparked, and then it has its answer.
pub proof fn law_parked_is_unparked<T, W>(events: Seq<Event<T, W>>, event: Event<T, W>)
    requires
        History::possible(events.push(event)),
        History::after(events).phase is Waiting,
        History::after(events).parked > 0,
        !(History::after(events.push(event)).phase is Waiting),
    ensures
        match event {
            Event::Send(val) => sending(History::after(events).phase, val).1
                == SendStep::<T, W>::Stored(Alert::Unpark),
            Event::LeaveSender => sender_leaving(History::after(events).phase).1
                == SenderStep::<W>::Unpark,
            _ => false,
        },
        ({
            let found = receiving(History::after(events.push(event)).phase).1;
            found is Got || found is Gone
        }),
{
    assert(events.push(event).drop_last() =~= events);
    lemma_inv(events);
    lemma_inv(events.push(event));
}

/// A receiver that has left a waker is not forgotten: whatever the sender does wakes that waker, and
/// the poll that follows has its answer.
pub proof fn law_pending_is_woken<T, W>(events: Seq<Event<T, W>>, event: Event<T, W>)
    requires
        History::possible(events.push(event)),
        History::after(events).phase is Pending,
        event is Send || event is LeaveSender,
    ensures
        ({
            let (before, after) = (History::after(events), History::after(events.push(event)));
            &&& after.woken == before.woken.insert(before.phase->Pending_0)
            &&& polling(after.phase).1 is Got || polling(after.phase).1 is Gone
        }),
{
    assert(events.push(event).drop_last() =~= events);
}

/// The waker of a later poll takes the place of that of an earlier one, which is dropped once and not
/// woken. What the sender does then wakes the later one, once, and no other. A poll that keeps the waker
/// that it was given makes none and drops none.
pub proof fn law_later_waker_takes_the_place<T, W>(
    events: Seq<Event<T, W>>,
    first: W,
    second: W,
    event: Event<T, W>,
)
    requires
        History::possible(events),
        History::after(events).phase == Phase::<T, W>::Pending(first),
        event is Send || event is LeaveSender,
        History::after(events).allows(event),
    ensures
        ({
            let again = events.push(Event::Poll).push(Event::Settle(second));
            let then = again.push(event);
            let (h, polled, told) = (
                History::after(events),
                History::after(again),
                History::after(then),
            );
            &&& History::possible(then)
            &&& polled.phase == Phase::<T, W>::Pending(second)
            &&& polled.woken == h.woken
            &&& first != second ==> polled.dropped == h.dropped.insert(first) && polled.made
                == h.made.insert(second)
            &&& first == second ==> polled.dropped == h.dropped && polled.made == h.made
            &&& told.woken == polled.woken.insert(second)
            &&& told.dropped == polled.dropped
        }),
{
    lemma_inv(events);
    let poll = events.push(Event::Poll);
    let again = poll.push(Event::Settle(second));
    assert(poll.drop_last() =~= events);
    assert(again.drop_last() =~= poll);
    assert(again.push(event).drop_last() =~= again);
    assert(History::possible(poll));
    assert(History::possible(again));
}

/// A sender that has begun to leave is away after one more step, whatever the receiver does
/// meanwhile, and so is a receiver.
pub proof fn law_leaving_ends<T, W>(events: Seq<Event<T, W>>)
    requires
        History::possible(events),
    ensures
        ({
            let h = History::after(events);
            &&& h.sender is Leaving ==> {
                let step = sender_leaving(h.phase).1;
                step is Left || step is Reclaim
            }
            &&& h.receiver is Leaving ==> {
                let step = receiver_leaving(h.phase).1;
                step is Left || step is Reclaim
            }
        }),
{
    lemma_inv(events);
}

/// A poll whose waker is refused has its answer when it looks again.
pub proof fn law_refused_waker_means_an_answer<T, W>(events: Seq<Event<T, W>>, waker: W)
    requires
        History::possible(events),
        History::after(events).allows(Event::Settle(waker)),
        settling(History::after(events).phase, waker).1 is Some,
    ensures
        ({
            let found = polling(History::after(events).phase).1;
            found is Got || found is Gone
        }),
{
    lemma_inv(events);
}

/// The events of one of two channels among `events`, each of which says whether it is of the first.
pub open spec fn events_of<T, W>(events: Seq<(bool, Event<T, W>)>, first: bool) -> Seq<Event<T, W>>
    decreases events.len(),
{
    if events.len() == 0 {
        Seq::empty()
    } else {
        let before = events_of(events.drop_last(), first);
        if events.last().0 == first {
            before.push(events.last().1)
        } else {
            before
        }
    }
}

/// Two channels after `events`, each of which says whether it is of the first.
pub open spec fn two_after<T, W>(events: Seq<(bool, Event<T, W>)>) -> (History<T, W>, History<T, W>)
    decreases events.len(),
{
    if events.len() == 0 {
        (History::start(), History::start())
    } else {
        let (first, second) = two_after(events.drop_last());
        let (of_first, event) = events.last();
        if of_first {
            (first.extended(event), second)
        } else {
            (first, second.extended(event))
        }
    }
}

/// Two channels share nothing: each begins open and empty, and goes through what its own events make of
/// it, however those of the other come in between.
pub proof fn law_channels_share_nothing<T, W>(events: Seq<(bool, Event<T, W>)>)
    ensures
        two_after(events) == (
            History::after(events_of(events, true)),
            History::after(events_of(events, false)),
        ),
    decreases events.len(),
{
    if events.len() > 0 {
        law_channels_share_nothing(events.drop_last());
        let (of_first, event) = events.last();
        assert(events_of(events, of_first).drop_last() =~= events_of(events.drop_last(), of_first));
    }
}

/// All that a call of `recv` does to the channel is a row of steps, of which each but the last came to
/// nothing yet. What the last one found is the answer: whatever step took the value, the value is the
/// answer, and after it no other step is made. `None` says that the last step found that there is nothing
/// to come, or that the patience was used up.
pub proof fn law_recv_answers_what_it_took<T>(
    receiver: Receiver<T>,
    made: Seq<Made<T>>,
    answer: Option<T>,
)
    requires
        receiver.received_by(made, answer),
    ensures
        made.len() > 0,
        forall|i: int|
            0 <= i < made.len() ==> (#[trigger] made[i] matches Made::Received(step) && (
            step matches RecvStep::Got(val) ==> answer == Some(val) && i == made.len() - 1)),
        forall|i: int|
            0 <= i < made.len() - 1 ==> (#[trigger] made[i] matches Made::Received(step) && (
            step is Park || step is Displace)),
        match answer {
            Some(val) => made.last() == Made::Received(RecvStep::Got(val)),
            None => made.last() == Made::Received(RecvStep::<T, Waker>::Gone)
                || receiver.has_given_up(),
        },
{
    assert forall|i: int| 0 <= i < made.len() - 1 implies comes_to_nothing(#[trigger] made[i]) by {}
}

/// All that a call of `send` does to the channel is one step, and after it the telling of whoever that
/// step says waits. A value that is given back is the one that was to be sent, and nobody is told of it;
/// one that is not given back was stored.
pub proof fn law_send_makes_one_step<T>(
    sender: Sender<T>,
    val: T,
    made: Seq<Made<T>>,
    answer: Result<(), T>,
)
    requires
        sender.sent_by(val, made, answer),
    ensures
        match answer {
            Err(back) => back == val && made == seq![Made::Sent(SendStep::<T, Waker>::Refused(val))],
            Ok(_) => made.len() > 0 && (made[0] matches Made::Sent(SendStep::Stored(alert)) && if alert
                is Quiet {
                made.len() == 1
            } else {
                made.len() == 2 && made[1] == Made::<T>::Told(alert)
            }),
        },
{
    if answer is Err {
        assert(made =~= seq![Made::Sent(SendStep::<T, Waker>::Refused(val))]);
    } else {
        let alert = choose|alert: Alert<Waker>|
            #![trigger sent_and_told::<T>(alert)]
            made == Seq::<Made<T>>::empty() + sent_and_told(alert);
        assert(made =~= sent_and_told(alert));
    }
}

/// A poll answers what the last step that it made found, and makes no other after one that found an
/// answer. A pending poll has left a waker for its task, as the last that it did, or has woken it.
pub proof fn law_poll_answers_what_it_took<T>(
    receiver: Receiver<T>,
    cx: Context<'_>,
    made: Seq<Made<T>>,
    answer: Poll<Option<T>>,
)
    requires
        receiver.polled_by(cx, made, answer),
    ensures
        made.len() > 0,
        forall|i: int|
            0 <= i < made.len() ==> (#[trigger] made[i] matches Made::Polled(PollStep::Got(val))
                ==> answer == Poll::Ready(Some(val)) && i == made.len() - 1),
        match answer {
            Poll::Ready(Some(val)) => made.last() == Made::Polled(PollStep::<T, Waker>::Got(val)),
            Poll::Ready(None) => made.last() == Made::Polled(PollStep::<T, Waker>::Gone),
            Poll::Pending => {
                ||| made.len() == 2 && (made[1] matches Made::Settled(waker, None) && (
                made[0] matches Made::Polled(step) && serves(cx, left_waker(step), waker)))
                ||| made.last() matches Made::Told(Alert::Wake(_))
            },
        },
        forall|i: int| 0 <= i < made.len() ==> (#[trigger] made[i] is Polled) == (i == 0 || i == 2),
{
    let all = choose|all: Seq<Made<T>>| #[trigger]
        polls(cx, all, answer) && made == Seq::<Made<T>>::empty() + all;
    assert(made =~= all);
    assert forall|i: int| 3 <= i < made.len() implies made.skip(3)[i - 3] == #[trigger] made[i] by {}
}

/// A sender that leaves makes one step, and where that says that somebody waits, tells that one, and
/// makes one more.
pub proof fn law_sender_leaves_once<T>(sender: Sender<T>, made: Seq<Made<T>>)
    requires
        sender.left_by(made),
    ensures
        made.len() == 1 || made.len() == 3,
        made[0] is SenderLeft,
        made.len() == 1 <==> (made[0]->SenderLeft_0 is Reclaim || made[0]->SenderLeft_0 is Left),
        made.len() == 3 ==> made[2] is SenderLeft && match made[0]->SenderLeft_0 {
            SenderStep::Unpark => made[1] == Made::<T>::Told(Alert::Unpark),
            SenderStep::Wake(waker) => made[1] == Made::<T>::Told(Alert::Wake(waker)),
            _ => false,
        },
{
    let all = choose|all: Seq<Made<T>>| #[trigger]
        sender_leaves(all) && made == Seq::<Made<T>>::empty() + all;
    assert(made =~= all);
}

/// A receiver that leaves makes one step. Where that says that a task waits, it tells it, and makes one
/// more; where that found a value, it makes one more and tells nobody.
pub proof fn law_receiver_leaves_once<T>(receiver: Receiver<T>, made: Seq<Made<T>>)
    requires
        receiver.left_by(made),
    ensures
        1 <= made.len() <= 3,
        made[0] is ReceiverLeft,
        made.len() > 1 ==> made.last() is ReceiverLeft,
        match made[0]->ReceiverLeft_0 {
            ReceiverStep::Reclaim => made.len() == 1,
            ReceiverStep::Left => made.len() == 1,
            ReceiverStep::Discard(_) => made.len() == 2,
            ReceiverStep::Wake(waker) => made.len() == 3 && made[1] == Made::<T>::Told(
                Alert::Wake(waker),
            ),
        },
{
    let all = choose|all: Seq<Made<T>>| #[trigger]
        receiver_leaves(all) && made == Seq::<Made<T>>::empty() + all;
    assert(made =~= all);
}

/// What is sent is in the channel after the step, and nothing else is, unless one side has closed it: then
/// the value comes back and the channel stays as it is. Whoever waits is to be told, and nobody else.
pub proof fn law_sending<T, W>(phase: Phase<T, W>, val: T)
    ensures
        ({
            let (next, step) = sending(phase, val);
            if phase.word().shows(BitStatus::CLOSE) {
                next == phase && step == SendStep::<T, W>::Refused(val)
            } else {
                &&& next.data() == Some(val)
                &&& next.word() == 1
                &&& phase.word() == 4 <==> step == SendStep::<T, W>::Stored(Alert::Unpark)
                &&& match phase.waker() {
                    Some(waker) => step == SendStep::<T, W>::Stored(Alert::Wake(waker)),
                    None => phase.word() != 4 ==> step == SendStep::<T, W>::Stored(Alert::Quiet),
                }
            }
        }),
{
    law_word(phase);
}

/// A step of either kind of receipt takes the value where there is one, and leaves none. Where there is
/// none and none will come, it leaves the channel as it is. Otherwise the receiver waits, and a waker that
/// was left comes out.
pub proof fn law_receiving<T, W>(phase: Phase<T, W>)
    ensures
        ({
            let (next, step) = receiving(phase);
            let (polled, poll) = polling(phase);
            match phase.data() {
                Some(val) => {
                    &&& step == RecvStep::<T, W>::Got(val)
                    &&& poll == PollStep::<T, W>::Got(val)
                    &&& next == polled
                    &&& next.data() is None
                    &&& next.word() == if phase.word() == 1 {
                        8u32
                    } else {
                        10u32
                    }
                },
                None => if phase.word() == 8 || phase.word() == 2 || phase.word() == 10 {
                    &&& step == RecvStep::<T, W>::Gone
                    &&& poll == PollStep::<T, W>::Gone
                    &&& next == phase
                    &&& polled == phase
                } else {
                    &&& next.word() == 4
                    &&& polled.word() == 28
                    &&& match phase.waker() {
                        Some(waker) => step == RecvStep::<T, W>::Displace(waker) && poll
                            == PollStep::<T, W>::Refresh(waker),
                        None => step == RecvStep::<T, W>::Park && poll
                            == PollStep::<T, W>::Register,
                    }
                },
            }
        }),
{
}

/// A waker is taken in by a channel that is being polled, and by no other.
pub proof fn law_settling<T, W>(phase: Phase<T, W>, waker: W)
    ensures
        ({
            let (next, back) = settling(phase, waker);
            if phase.word() == 28 {
                next.word() == 20 && next.waker() == Some(waker) && back is None
            } else {
                next == phase && back == Some(waker)
            }
        }),
{
}

/// A sender that leaves closes the channel and leaves the value in it. Whoever waits is to be told first,
/// and the last side to leave is to reclaim it.
pub proof fn law_sender_leaving<T, W>(phase: Phase<T, W>)
    ensures
        ({
            let (next, step) = sender_leaving(phase);
            &&& next.data() == phase.data()
            &&& next.waker() is None
            &&& next.word() == if phase.word() == 4 || phase.word() == 20 {
                2u32
            } else if phase.data() is Some {
                11
            } else {
                10
            }
            &&& phase.word() == 10 || phase.word() == 11 <==> step == SenderStep::<W>::Reclaim
            &&& phase.word() == 4 <==> step == SenderStep::<W>::Unpark
            &&& match phase.waker() {
                Some(waker) => step == SenderStep::<W>::Wake(waker),
                None => !(step is Wake),
            }
        }),
{
}

/// A receiver that leaves closes the channel. The value that nobody took comes out, the task that waits is
/// to be told, and the last side to leave is to reclaim the channel.
pub proof fn law_receiver_leaving<T, W>(phase: Phase<T, W>)
    ensures
        ({
            let (next, step) = receiver_leaving(phase);
            &&& next.data() is None
            &&& next.waker() is None
            &&& next.word() == if phase.word() == 1 || phase.word() == 20 {
                2u32
            } else {
                10
            }
            &&& phase.word() == 10 <==> step == ReceiverStep::<T, W>::Reclaim
            &&& match phase.data() {
                Some(val) => step == ReceiverStep::<T, W>::Discard(val),
                None => !(step is Discard),
            }
            &&& match phase.waker() {
                Some(waker) => step == ReceiverStep::<T, W>::Wake(waker),
                None => !(step is Wake),
            }
        }),
{
}

/// The words of the phases, the lowest bit being `READY`: each phase has a word of its own, and what is in
/// the channel is what was put there.
pub proof fn law_words_of_the_phases<T, W>(val: T, waker: W)
    ensures
        Phase::<T, W>::New.word() == 0,
        Phase::<T, W>::Ready(val).word() == BitStatus::READY.mask(),
        Phase::<T, W>::Waiting.word() == BitStatus::WAITING.mask(),
        Phase::<T, W>::Pending(waker).word() == BitStatus::WAITING.mask()
            + BitStatus::PENDING.mask(),
        Phase::<T, W>::Polling.word() == BitStatus::WAITING.mask() + BitStatus::FIELDLESS.mask()
            + BitStatus::PENDING.mask(),
        Phase::<T, W>::Dataless.word() == BitStatus::FIELDLESS.mask(),
        Phase::<T, W>::Closed.word() == BitStatus::CLOSE.mask(),
        Phase::<T, W>::Dropped.word() == BitStatus::CLOSE.mask() + BitStatus::FIELDLESS.mask(),
        Phase::<T, W>::Droppable(val).word() == BitStatus::READY.mask() + BitStatus::CLOSE.mask()
            + BitStatus::FIELDLESS.mask(),
        BitStatus::READY.mask() == 1,
        BitStatus::CLOSE.mask() == 2,
        BitStatus::WAITING.mask() == 4,
        BitStatus::FIELDLESS.mask() == 8,
        BitStatus::PENDING.mask() == 16,
        Phase::<T, W>::Ready(val).data() == Some(val),
        Phase::<T, W>::Droppable(val).data() == Some(val),
        Phase::<T, W>::Pending(waker).waker() == Some(waker),
{
}

} // verus!
