//! What a channel holds, and the steps by which its two sides change it.
//!
//! Each step is one indivisible change. What a step leaves to be done outside of it (waking
//! somebody, dropping a value or a waker) is its result.

use vstd::prelude::*;

use super::status::Status;

verus! {

/// What a channel can be in the middle of.
pub enum Phase<T, W> {
    /// Nothing has happened yet.
    New,
    /// A value is in.
    Ready(T),
    /// The receiver is blocked.
    Waiting,
    /// The receiver waits to be polled again; this waker tells it when.
    Pending(W),
    /// The receiver is about to wait, and its waker is not in yet.
    Polling,
    /// The value has been taken.
    Dataless,
    /// One side has closed, and is not done yet.
    Closed,
    /// One side is gone, and nothing is in.
    Dropped,
    /// The sender is gone and has left a value.
    Droppable(T),
}

impl<T, W> Phase<T, W> {
    /// The status word of a channel in this phase.
    pub open spec fn word(self) -> u32 {
        match self {
            Phase::New => 0,
            Phase::Ready(_) => 1,
            Phase::Waiting => 4,
            Phase::Pending(_) => 20,
            Phase::Polling => 28,
            Phase::Dataless => 8,
            Phase::Closed => 2,
            Phase::Dropped => 10,
            Phase::Droppable(_) => 11,
        }
    }

    /// The value that a channel in this phase holds.
    pub open spec fn data(self) -> Option<T> {
        match self {
            Phase::Ready(v) => Some(v),
            Phase::Droppable(v) => Some(v),
            _ => None,
        }
    }

    /// The waker that a channel in this phase holds.
    pub open spec fn waker(self) -> Option<W> {
        match self {
            Phase::Pending(w) => Some(w),
            _ => None,
        }
    }

    /// The channel has been closed by one side.
    pub open spec fn closed(self) -> bool {
        self is Closed || self is Dropped || self is Droppable
    }
}

/// Who is to be told that the channel has changed.
pub enum Alert<W> {
    /// Nobody waits.
    Quiet,
    /// A receiver is blocked.
    Unpark,
    /// A receiver left this waker.
    Wake(W),
}

/// What became of a value that was to be sent.
pub enum SendStep<T, W> {
    /// The channel is closed: here it is again.
    Refused(T),
    /// It is in.
    Stored(Alert<W>),
}

/// What a receiver that can block finds.
pub enum RecvStep<T, W> {
    /// The value.
    Got(T),
    /// There is no value, and none will come.
    Gone,
    /// Nothing yet: the receiver is to block until the status word changes.
    Park,
    /// As `Park`; the waker of an earlier poll is to be dropped first.
    Displace(W),
}

/// What a receiver that is polled finds.
pub enum PollStep<T, W> {
    /// The value.
    Got(T),
    /// There is no value, and none will come.
    Gone,
    /// Nothing yet: a waker is to be made and handed to `settle`.
    Register,
    /// Nothing yet: this waker, or another in its place, is to be handed to `settle`.
    Refresh(W),
}

/// What a sender that leaves still has to do.
pub enum SenderStep<W> {
    /// The receiver is gone, so the channel is to be reclaimed.
    Reclaim,
    /// Nothing: the receiver reclaims the channel.
    Left,
    /// To unpark the receiver, and then the next step.
    Unpark,
    /// To wake the receiver, and then the next step.
    Wake(W),
}

/// What a receiver that leaves still has to do.
pub enum ReceiverStep<T, W> {
    /// The sender is gone, so the channel is to be reclaimed.
    Reclaim,
    /// Nothing: the sender reclaims the channel.
    Left,
    /// To drop the value that was never taken, and then the next step.
    Discard(T),
    /// To wake the task of the last poll, and then the next step.
    Wake(W),
}

/// The channel after `send`, and what `send` answers.
///
/// Only a channel that was never sent to is sent to; for the others the table says what the new
/// value does to them.
pub open spec fn sending<T, W>(phase: Phase<T, W>, val: T) -> (Phase<T, W>, SendStep<T, W>) {
    match phase {
        Phase::Closed => (phase, SendStep::Refused(val)),
        Phase::Dropped => (phase, SendStep::Refused(val)),
        Phase::Droppable(_) => (phase, SendStep::Refused(val)),
        Phase::Waiting => (Phase::Ready(val), SendStep::Stored(Alert::Unpark)),
        Phase::Pending(w) => (Phase::Ready(val), SendStep::Stored(Alert::Wake(w))),
        _ => (Phase::Ready(val), SendStep::Stored(Alert::Quiet)),
    }
}

/// The channel after `recv`, and what `recv` answers.
pub open spec fn receiving<T, W>(phase: Phase<T, W>) -> (Phase<T, W>, RecvStep<T, W>) {
    match phase {
        Phase::New => (Phase::Waiting, RecvStep::Park),
        Phase::Ready(v) => (Phase::Dataless, RecvStep::Got(v)),
        Phase::Waiting => (Phase::Waiting, RecvStep::Park),
        Phase::Pending(w) => (Phase::Waiting, RecvStep::Displace(w)),
        Phase::Polling => (Phase::Waiting, RecvStep::Park),
        Phase::Dataless => (phase, RecvStep::Gone),
        Phase::Closed => (phase, RecvStep::Gone),
        Phase::Dropped => (phase, RecvStep::Gone),
        Phase::Droppable(v) => (Phase::Dropped, RecvStep::Got(v)),
    }
}

/// The channel after `poll`, and what `poll` answers.
pub open spec fn polling<T, W>(phase: Phase<T, W>) -> (Phase<T, W>, PollStep<T, W>) {
    match phase {
        Phase::New => (Phase::Polling, PollStep::Register),
        Phase::Ready(v) => (Phase::Dataless, PollStep::Got(v)),
        Phase::Waiting => (Phase::Polling, PollStep::Register),
        Phase::Pending(w) => (Phase::Polling, PollStep::Refresh(w)),
        Phase::Polling => (Phase::Polling, PollStep::Register),
        Phase::Dataless => (phase, PollStep::Gone),
        Phase::Closed => (phase, PollStep::Gone),
        Phase::Dropped => (phase, PollStep::Gone),
        Phase::Droppable(v) => (Phase::Dropped, PollStep::Got(v)),
    }
}

/// The channel after `settle`, and the waker if it was not taken in.
pub open spec fn settling<T, W>(phase: Phase<T, W>, waker: W) -> (Phase<T, W>, Option<W>) {
    match phase {
        Phase::Polling => (Phase::Pending(waker), None),
        _ => (phase, Some(waker)),
    }
}

/// The channel after a step of a sender that leaves, and what is left for it to do.
pub open spec fn sender_leaving<T, W>(phase: Phase<T, W>) -> (Phase<T, W>, SenderStep<W>) {
    match phase {
        Phase::New => (Phase::Dropped, SenderStep::Left),
        Phase::Ready(v) => (Phase::Droppable(v), SenderStep::Left),
        Phase::Waiting => (Phase::Closed, SenderStep::Unpark),
        Phase::Pending(w) => (Phase::Closed, SenderStep::Wake(w)),
        Phase::Polling => (Phase::Dropped, SenderStep::Left),
        Phase::Dataless => (Phase::Dropped, SenderStep::Left),
        Phase::Closed => (Phase::Dropped, SenderStep::Left),
        Phase::Dropped => (phase, SenderStep::Reclaim),
        Phase::Droppable(_) => (phase, SenderStep::Reclaim),
    }
}

/// The channel after a step of a receiver that leaves, and what is left for it to do.
pub open spec fn receiver_leaving<T, W>(phase: Phase<T, W>) -> (
    Phase<T, W>,
    ReceiverStep<T, W>,
) {
    match phase {
        Phase::New => (Phase::Dropped, ReceiverStep::Left),
        Phase::Ready(v) => (Phase::Closed, ReceiverStep::Discard(v)),
        Phase::Waiting => (Phase::Dropped, ReceiverStep::Left),
        Phase::Pending(w) => (Phase::Closed, ReceiverStep::Wake(w)),
        Phase::Polling => (Phase::Dropped, ReceiverStep::Left),
        Phase::Dataless => (Phase::Dropped, ReceiverStep::Left),
        Phase::Closed => (Phase::Dropped, ReceiverStep::Left),
        Phase::Dropped => (phase, ReceiverStep::Reclaim),
        Phase::Droppable(v) => (Phase::Dropped, ReceiverStep::Discard(v)),
    }
}

/// The answers to the questions that are asked of the words of the table.
proof fn lemma_questions()
    by (bit_vector)
    ensures
        0u32 & 1 == 0 && 0u32 & 2 == 0 && 0u32 & 4 == 0 && 0u32 & 8 == 0 && 0u32 & 16 == 0,
        1u32 & 1 == 1 && 1u32 & 2 == 0 && 1u32 & 4 == 0 && 1u32 & 8 == 0 && 1u32 & 16 == 0,
        4u32 & 1 == 0 && 4u32 & 2 == 0 && 4u32 & 4 == 4 && 4u32 & 8 == 0 && 4u32 & 16 == 0,
        20u32 & 1 == 0 && 20u32 & 2 == 0 && 20u32 & 4 == 4 && 20u32 & 8 == 0 && 20u32 & 16 == 16,
        28u32 & 1 == 0 && 28u32 & 2 == 0 && 28u32 & 4 == 4 && 28u32 & 8 == 8 && 28u32 & 16 == 16,
        8u32 & 1 == 0 && 8u32 & 2 == 0 && 8u32 & 4 == 0 && 8u32 & 8 == 8 && 8u32 & 16 == 0,
        2u32 & 1 == 0 && 2u32 & 2 == 2 && 2u32 & 4 == 0 && 2u32 & 8 == 0 && 2u32 & 16 == 0,
        10u32 & 1 == 0 && 10u32 & 2 == 2 && 10u32 & 4 == 0 && 10u32 & 8 == 8 && 10u32 & 16 == 0,
        11u32 & 1 == 1 && 11u32 & 2 == 2 && 11u32 & 4 == 0 && 11u32 & 8 == 8 && 11u32 & 16 == 0,
{
}

/// What the changes that are made to the words of the table make of them.
proof fn lemma_changes()
    by (bit_vector)
    ensures
        // setup_ready
        (0u32 | 1) & !4 & !8 & !16 == 1 && (1u32 | 1) & !4 & !8 & !16 == 1,
        (4u32 | 1) & !4 & !8 & !16 == 1 && (20u32 | 1) & !4 & !8 & !16 == 1,
        (28u32 | 1) & !4 & !8 & !16 == 1 && (8u32 | 1) & !4 & !8 & !16 == 1,
        // setup_dataless, unset_ready
        (1u32 & !1) | 8 == 8 && (11u32 & !1) | 8 == 10,
        1u32 & !1 == 0 && 11u32 & !1 == 10,
        // set_waiting, set_waiting_pending_wakeless, unset_pending, set_wakeless, unset_wakeless
        0u32 | 4 == 4,
        0u32 | 4 | 16 | 8 == 28 && 4u32 | 4 | 16 | 8 == 28 && 28u32 | 4 | 16 | 8 == 28,
        20u32 & !16 & !8 == 4 && 28u32 & !16 & !8 == 4,
        20u32 | 8 == 28,
        28u32 & !8 == 20,
        // setup_closed, setup_closed_wake
        (20u32 | 2) & !4 & !16 == 2 && (28u32 | 2) & !4 & !16 == 10,
        (4u32 | 2) & !4 & !16 == 2 && (4u32 | 2) & !4 == 2 && (0u32 | 2) & !4 & !16 == 2,
        // set_closed_dropping, set_dropping
        0u32 | 2 | 8 == 10 && 1u32 | 2 | 8 == 11 && 8u32 | 2 | 8 == 10,
        2u32 | 8 == 10 && 10u32 | 8 == 10,
{
}

/// A channel: its status word, and the value and the waker that the word says are there.
pub struct State<T, W> {
    status: Status,
    data: Option<T>,
    waker: Option<W>,
}

impl<T, W> View for State<T, W> {
    type V = Phase<T, W>;

    closed spec fn view(&self) -> Phase<T, W> {
        let word = self.status@;
        if word == 0 {
            Phase::New
        } else if word == 1 {
            Phase::Ready(self.data->0)
        } else if word == 4 {
            Phase::Waiting
        } else if word == 20 {
            Phase::Pending(self.waker->0)
        } else if word == 28 {
            Phase::Polling
        } else if word == 8 {
            Phase::Dataless
        } else if word == 2 {
            Phase::Closed
        } else if word == 10 {
            Phase::Dropped
        } else {
            Phase::Droppable(self.data->0)
        }
    }
}

impl<T, W> State<T, W> {
    /// The word is one of the table's, and the value and the waker are there when it says so.
    #[verifier::type_invariant]
    spec fn wf(self) -> bool {
        &&& self.status@ == self@.word()
        &&& self.data == self@.data()
        &&& self.waker == self@.waker()
    }

    /// A channel that nothing has happened to.
    pub fn new() -> (state: Self)
        ensures
            state@ == Phase::<T, W>::New,
        opens_invariants none
        no_unwind
    {
        State { status: Status::new(), data: None, waker: None }
    }

    /// The status word.
    pub fn word(&self) -> (word: u32)
        ensures
            word == self@.word(),
        opens_invariants none
        no_unwind
    {
        proof {
            use_type_invariant(self);
        }
        self.status.bits()
    }

    /// Puts `state` in the place of this one, which is returned.
    fn replace(&mut self, state: Self) -> (old_state: Self)
        ensures
            *final(self) == state,
            old_state == *old(self),
        opens_invariants none
        no_unwind
    {
        let mut state = state;
        std::mem::swap(self, &mut state);
        state
    }

    /// Sends `val`, which may be done once.
    pub fn send(&mut self, val: T) -> (step: SendStep<T, W>)
        ensures
            (final(self)@, step) == sending(old(self)@, val),
        opens_invariants none
        no_unwind
    {
        proof {
            use_type_invariant(&*self);
            lemma_questions();
            lemma_changes();
        }
        let status = self.status;
        if status.is_closed() {
            return SendStep::Refused(val);
        }
        let State { status: _, data: _, waker } = self.replace(
            State { status: status.setup_ready(), data: Some(val), waker: None },
        );
        if status.is_pending() {
            return match waker {
                Some(waker) => SendStep::Stored(Alert::Wake(waker)),
                None => SendStep::Stored(Alert::Quiet),
            };
        }
        if status.is_waiting() {
            return SendStep::Stored(Alert::Unpark);
        }
        SendStep::Stored(Alert::Quiet)
    }

    /// Takes the value, or finds out that there is none, or makes ready to block.
    pub fn recv(&mut self) -> (step: RecvStep<T, W>)
        ensures
            (final(self)@, step) == receiving(old(self)@),
        opens_invariants none
        no_unwind
    {
        proof {
            use_type_invariant(&*self);
            lemma_questions();
            lemma_changes();
        }
        let status = self.status;
        if status.is_ready() {
            return match self.take(status.setup_dataless()) {
                Some(val) => RecvStep::Got(val),
                None => RecvStep::Gone,
            };
        }
        if status.is_closed() {
            return RecvStep::Gone;
        }
        if status.is_waiting() {
            if status.is_pending() {
                // A poll that is under way finds its waker refused when it settles.
                let State { status: _, data: _, waker } = self.replace(
                    State {
                        status: status.unset_pending().unset_wakeless(),
                        data: None,
                        waker: None,
                    },
                );
                if let Some(waker) = waker {
                    return RecvStep::Displace(waker);
                }
            }
            return RecvStep::Park;
        }
        if status.is_dataless() {
            return RecvStep::Gone;
        }
        let _ = self.replace(State { status: status.set_waiting(), data: None, waker: None });
        RecvStep::Park
    }

    /// Takes the value, or finds out that there is none, or makes ready to install a waker.
    pub fn poll(&mut self) -> (step: PollStep<T, W>)
        ensures
            (final(self)@, step) == polling(old(self)@),
        opens_invariants none
        no_unwind
    {
        proof {
            use_type_invariant(&*self);
            lemma_questions();
            lemma_changes();
        }
        let status = self.status;
        if status.is_ready() {
            return match self.take(status.setup_dataless()) {
                Some(val) => PollStep::Got(val),
                None => PollStep::Gone,
            };
        }
        if status.is_closed() {
            return PollStep::Gone;
        }
        if status.is_pending() && !status.is_wakeless() {
            let State { status: _, data: _, waker } = self.replace(
                State { status: status.set_wakeless(), data: None, waker: None },
            );
            return match waker {
                Some(waker) => PollStep::Refresh(waker),
                None => PollStep::Register,
            };
        }
        if !status.is_waiting() && status.is_dataless() {
            return PollStep::Gone;
        }
        let _ = self.replace(
            State { status: status.set_waiting_pending_wakeless(), data: None, waker: None },
        );
        PollStep::Register
    }

    /// Installs the waker of a poll, unless the channel has changed since the poll began.
    pub fn settle(&mut self, waker: W) -> (refused: Option<W>)
        ensures
            (final(self)@, refused) == settling(old(self)@, waker),
        opens_invariants none
        no_unwind
    {
        proof {
            use_type_invariant(&*self);
            lemma_questions();
            lemma_changes();
        }
        let status = self.status;
        if status.is_pending() && status.is_wakeless() {
            let _ = self.replace(
                State { status: status.unset_wakeless(), data: None, waker: Some(waker) },
            );
            None
        } else {
            Some(waker)
        }
    }

    /// A step of a sender that leaves.
    pub fn drop_sender(&mut self) -> (step: SenderStep<W>)
        ensures
            (final(self)@, step) == sender_leaving(old(self)@),
        opens_invariants none
        no_unwind
    {
        proof {
            use_type_invariant(&*self);
            lemma_questions();
            lemma_changes();
        }
        let status = self.status;
        if status.is_closed() {
            if status.is_dropping() {
                return SenderStep::Reclaim;
            }
            let _ = self.replace(State { status: status.set_dropping(), data: None, waker: None });
            return SenderStep::Left;
        }
        if status.is_pending() {
            let State { status: _, data: _, waker } = self.replace(
                State { status: status.setup_closed(), data: None, waker: None },
            );
            return match waker {
                Some(waker) => SenderStep::Wake(waker),
                // The poller finds its waker refused when it settles.
                None => SenderStep::Left,
            };
        }
        if status.is_waiting() {
            let _ = self.replace(
                State { status: status.setup_closed_wake(), data: None, waker: None },
            );
            return SenderStep::Unpark;
        }
        let State { status: _, data, waker: _ } = self.replace(State::new());
        let _ = self.replace(State { status: status.set_closed_dropping(), data, waker: None });
        SenderStep::Left
    }

    /// A step of a receiver that leaves.
    pub fn drop_receiver(&mut self) -> (step: ReceiverStep<T, W>)
        ensures
            (final(self)@, step) == receiver_leaving(old(self)@),
        opens_invariants none
        no_unwind
    {
        proof {
            use_type_invariant(&*self);
            lemma_questions();
            lemma_changes();
        }
        let status = self.status;
        if status.is_ready() {
            let left = if status.is_closed() {
                status.unset_ready()
            } else {
                status.unset_ready().setup_closed()
            };
            if let Some(val) = self.take(left) {
                return ReceiverStep::Discard(val);
            }
        }
        if status.is_closed() {
            if status.is_dropping() {
                return ReceiverStep::Reclaim;
            }
            let _ = self.replace(State { status: status.set_dropping(), data: None, waker: None });
            return ReceiverStep::Left;
        }
        if status.is_waiting() {
            let State { status: _, data: _, waker } = self.replace(State::new());
            if let Some(waker) = waker {
                let _ = self.replace(
                    State { status: status.setup_closed(), data: None, waker: None },
                );
                return ReceiverStep::Wake(waker);
            }
            let _ = self.replace(
                State { status: status.setup_closed().set_dropping(), data: None, waker: None },
            );
            return ReceiverStep::Left;
        }
        let _ = self.replace(
            State { status: status.set_closed_dropping(), data: None, waker: None },
        );
        ReceiverStep::Left
    }

    /// Takes the value out of a channel that has one, which then has the word `status`.
    fn take(&mut self, status: Status) -> (val: Option<T>)
        requires
            old(self)@.data() is Some,
            status@ == 2 || status@ == 8 || status@ == 10,
        ensures
            val == old(self)@.data(),
            status@ == 2 ==> final(self)@ == Phase::<T, W>::Closed,
            status@ == 8 ==> final(self)@ == Phase::<T, W>::Dataless,
            status@ == 10 ==> final(self)@ == Phase::<T, W>::Dropped,
        opens_invariants none
        no_unwind
    {
        proof {
            use_type_invariant(&*self);
        }
        let State { status: _, data, waker: _ } = self.replace(
            State { status, data: None, waker: None },
        );
        data
    }
}

} // verus!
