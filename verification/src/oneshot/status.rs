//! The status word of a channel.
//!
//! | READY | CLOSE | WAITING | FIELDLESS | PENDING | what the sender may do     | what the receiver may do  |
//! |:-----:|:-----:|:-------:|:---------:|:-------:|----------------------------|---------------------------|
//! |   0   |   0   |    0    |     0     |    0    | send                       | wait                      |
//! |   1   |   0   |    0    |     0     |    0    | close                      | take the value            |
//! |   0   |   0   |    1    |     0     |    0    | send and unpark            | wait, blocked             |
//! |   0   |   0   |    1    |     0     |    1    | send and wake              | wait, to be polled again  |
//! |   0   |   0   |    1    |     1     |    1    | send, the poller looks     | install a waker           |
//! |   0   |   0   |    0    |     1     |    0    | close                      | nothing, the value is out |
//! |   0   |   1   |    0    |     0     |    0    | nothing, it is closed      | nothing, it is closed     |
//! |   0   |   1   |    0    |     1     |    0    | reclaim                    | reclaim                   |
//! |   1   |   1   |    0    |     1     |    0    | nothing, it is gone        | take the value            |

use vstd::prelude::*;

use crate::bit::{Bit, BitWith};

verus! {

/// The bits of a status word.
#[derive(Clone, Copy, PartialEq, Eq, Structural)]
pub enum BitStatus {
    /// A value is there to be taken. Excludes `WAITING`.
    READY,
    /// One side has closed the channel. Excludes `WAITING`.
    CLOSE,
    /// The receiver waits for a value.
    WAITING,
    /// What is out of bounds depends on the other bits: without `CLOSE` and `WAITING` the value has
    /// been taken, with `CLOSE` the channel may be reclaimed, and with `PENDING` the waker is being
    /// set up.
    FIELDLESS,
    /// The receiver waits to be polled again. Only together with `WAITING`.
    PENDING,
}

impl BitStatus {
    /// The mask of this bit.
    pub fn value(self) -> (mask: u32)
        ensures
            mask == self.mask(),
        opens_invariants none
        no_unwind
    {
        match self {
            BitStatus::READY => 1,
            BitStatus::CLOSE => 2,
            BitStatus::WAITING => 4,
            BitStatus::FIELDLESS => 8,
            BitStatus::PENDING => 16,
        }
    }
}

impl Bit for BitStatus {
    open spec fn mask(self) -> u32 {
        match self {
            BitStatus::READY => 1,
            BitStatus::CLOSE => 2,
            BitStatus::WAITING => 4,
            BitStatus::FIELDLESS => 8,
            BitStatus::PENDING => 16,
        }
    }

    fn bit(self) -> (mask: u32) {
        self.value()
    }
}

/// A status word, with the questions that are asked of it and the changes that are made to it.
#[derive(Clone, Copy)]
pub struct Status {
    bits: u32,
}

impl View for Status {
    type V = u32;

    closed spec fn view(&self) -> u32 {
        self.bits
    }
}

impl Status {
    /// The word of a channel that was just made.
    pub fn new() -> (status: Status)
        ensures
            status@ == 0,
        opens_invariants none
        no_unwind
    {
        Status { bits: 0 }
    }

    /// The word itself.
    pub fn bits(self) -> (bits: u32)
        ensures
            bits == self@,
        opens_invariants none
        no_unwind
    {
        self.bits
    }

    /// Whether `bit` is set.
    fn shows(self, bit: BitStatus) -> (set: bool)
        ensures
            set == self@.shows(bit),
        opens_invariants none
        no_unwind
    {
        self.bits & bit.value() != 0
    }

    /// This word with `bit` set.
    fn plus(self, bit: BitStatus) -> (status: Status)
        ensures
            status@ == self@.having(bit),
        opens_invariants none
        no_unwind
    {
        Status { bits: self.bits | bit.value() }
    }

    /// This word with `bit` cleared.
    fn minus(self, bit: BitStatus) -> (status: Status)
        ensures
            status@ == self@.lacking(bit),
        opens_invariants none
        no_unwind
    {
        Status { bits: self.bits & !bit.value() }
    }

    /// A value is there to be taken.
    pub fn is_ready(self) -> (set: bool)
        ensures
            set == self@.shows(BitStatus::READY),
        opens_invariants none
        no_unwind
    {
        self.shows(BitStatus::READY)
    }

    /// One side has closed the channel.
    pub fn is_closed(self) -> (set: bool)
        ensures
            set == self@.shows(BitStatus::CLOSE),
        opens_invariants none
        no_unwind
    {
        self.shows(BitStatus::CLOSE)
    }

    /// The receiver waits.
    pub fn is_waiting(self) -> (set: bool)
        ensures
            set == self@.shows(BitStatus::WAITING),
        opens_invariants none
        no_unwind
    {
        self.shows(BitStatus::WAITING)
    }

    /// The value has been taken; to be asked of a word without `READY`, `CLOSE` and `WAITING`.
    pub fn is_dataless(self) -> (set: bool)
        ensures
            set == self@.shows(BitStatus::FIELDLESS),
        opens_invariants none
        no_unwind
    {
        self.shows(BitStatus::FIELDLESS)
    }

    /// The channel may be reclaimed; to be asked of a word with `CLOSE`.
    pub fn is_dropping(self) -> (set: bool)
        ensures
            set == self@.shows(BitStatus::FIELDLESS),
        opens_invariants none
        no_unwind
    {
        self.shows(BitStatus::FIELDLESS)
    }

    /// The waker is being set up; to be asked of a word with `PENDING`.
    pub fn is_wakeless(self) -> (set: bool)
        ensures
            set == self@.shows(BitStatus::FIELDLESS),
        opens_invariants none
        no_unwind
    {
        self.shows(BitStatus::FIELDLESS)
    }

    /// The receiver waits to be polled again.
    pub fn is_pending(self) -> (set: bool)
        ensures
            set == self@.shows(BitStatus::PENDING),
        opens_invariants none
        no_unwind
    {
        self.shows(BitStatus::PENDING)
    }

    /// The value is in: sets `READY` and ends every wait.
    pub fn setup_ready(self) -> (status: Status)
        ensures
            status@ == self@.having(BitStatus::READY).lacking(BitStatus::WAITING).lacking(
                BitStatus::FIELDLESS,
            ).lacking(BitStatus::PENDING),
        opens_invariants none
        no_unwind
    {
        self.plus(BitStatus::READY).minus(BitStatus::WAITING).minus(BitStatus::FIELDLESS).minus(
            BitStatus::PENDING,
        )
    }

    /// The value is out: it cannot be taken again.
    pub fn setup_dataless(self) -> (status: Status)
        ensures
            status@ == self@.lacking(BitStatus::READY).having(BitStatus::FIELDLESS),
        opens_invariants none
        no_unwind
    {
        self.minus(BitStatus::READY).plus(BitStatus::FIELDLESS)
    }

    /// The value is thrown away by a receiver that leaves. `FIELDLESS` keeps its meaning: with
    /// `CLOSE` it would claim that this side is done.
    pub fn unset_ready(self) -> (status: Status)
        ensures
            status@ == self@.lacking(BitStatus::READY),
        opens_invariants none
        no_unwind
    {
        self.minus(BitStatus::READY)
    }

    /// Closes and ends every wait; `FIELDLESS` stays as it is.
    pub fn setup_closed(self) -> (status: Status)
        ensures
            status@ == self@.having(BitStatus::CLOSE).lacking(BitStatus::WAITING).lacking(
                BitStatus::PENDING,
            ),
        opens_invariants none
        no_unwind
    {
        self.plus(BitStatus::CLOSE).minus(BitStatus::WAITING).minus(BitStatus::PENDING)
    }

    /// Closes and ends the wait of a blocked receiver.
    pub fn setup_closed_wake(self) -> (status: Status)
        ensures
            status@ == self@.having(BitStatus::CLOSE).lacking(BitStatus::WAITING),
        opens_invariants none
        no_unwind
    {
        self.plus(BitStatus::CLOSE).minus(BitStatus::WAITING)
    }

    /// Closes, with nothing left to do for this side.
    pub fn set_closed_dropping(self) -> (status: Status)
        ensures
            status@ == self@.having(BitStatus::CLOSE).having(BitStatus::FIELDLESS),
        opens_invariants none
        no_unwind
    {
        self.plus(BitStatus::CLOSE).plus(BitStatus::FIELDLESS)
    }

    /// Nothing is left to do for this side of a closed channel.
    pub fn set_dropping(self) -> (status: Status)
        ensures
            status@ == self@.having(BitStatus::FIELDLESS),
        opens_invariants none
        no_unwind
    {
        self.plus(BitStatus::FIELDLESS)
    }

    /// The receiver blocks until the word changes.
    pub fn set_waiting(self) -> (status: Status)
        ensures
            status@ == self@.having(BitStatus::WAITING),
        opens_invariants none
        no_unwind
    {
        self.plus(BitStatus::WAITING)
    }

    /// A poll begins that will install a waker, which nobody else may touch until it is in.
    pub fn set_waiting_pending_wakeless(self) -> (status: Status)
        ensures
            status@ == self@.having(BitStatus::WAITING).having(BitStatus::PENDING).having(
                BitStatus::FIELDLESS,
            ),
        opens_invariants none
        no_unwind
    {
        self.plus(BitStatus::WAITING).plus(BitStatus::PENDING).plus(BitStatus::FIELDLESS)
    }

    /// The waiting receiver no longer waits to be polled.
    pub fn unset_pending(self) -> (status: Status)
        ensures
            status@ == self@.lacking(BitStatus::PENDING),
        opens_invariants none
        no_unwind
    {
        self.minus(BitStatus::PENDING)
    }

    /// The poller takes the waker back.
    pub fn set_wakeless(self) -> (status: Status)
        ensures
            status@ == self@.having(BitStatus::FIELDLESS),
        opens_invariants none
        no_unwind
    {
        self.plus(BitStatus::FIELDLESS)
    }

    /// The waker is in.
    pub fn unset_wakeless(self) -> (status: Status)
        ensures
            status@ == self@.lacking(BitStatus::FIELDLESS),
        opens_invariants none
        no_unwind
    {
        self.minus(BitStatus::FIELDLESS)
    }
}

} // verus!
