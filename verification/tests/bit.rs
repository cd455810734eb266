use forward::bit::{Bit, BitWith};
use forward::oneshot::status::{BitStatus, Status};

struct Low(u32);

impl Bit for Low {
    fn bit(self) -> u32 {
        self.0
    }
}

#[test]
fn bits_are_set_cleared_and_told() {
    assert_eq!(0b0101u32.with(Low(0b0010)), 0b0111);
    assert_eq!(0b0111u32.without(Low(0b0010)), 0b0101);
    assert!(0b0111u32.is(Low(0b0010)));
    assert!(!0b0101u32.is(Low(0b0010)));
    // Any of several bits will do.
    assert!(0b0100u32.is(Low(0b0110)));
}

#[test]
fn set_bit_shows_and_others_stay() {
    for word in 0..64u32 {
        assert!(word.with(Low(4)).is(Low(4)));
        assert!(!word.without(Low(4)).is(Low(4)));
        assert_eq!(word.with(Low(6)) & !6, word & !6);
        assert_eq!(word.without(Low(6)) & !6, word & !6);
        assert_eq!(word.with(Low(4)).is(Low(8)), word.is(Low(8)));
        assert_eq!(word.with(Low(4)).without(Low(4)), word.without(Low(4)));
    }
}

#[test]
fn status_bits_have_their_masks() {
    assert_eq!(BitStatus::READY.bit(), 1);
    assert_eq!(BitStatus::CLOSE.bit(), 2);
    assert_eq!(BitStatus::WAITING.bit(), 4);
    assert_eq!(BitStatus::FIELDLESS.bit(), 8);
    assert_eq!(BitStatus::PENDING.bit(), 16);
}

#[test]
fn status_changes_as_named() {
    let new = Status::new();
    assert_eq!(new.bits(), 0);
    assert_eq!(new.setup_ready().bits(), 1);
    assert!(new.setup_ready().is_ready());
    assert_eq!(new.setup_ready().setup_dataless().bits(), 8);
    assert!(new.setup_ready().setup_dataless().is_dataless());
    assert_eq!(new.setup_ready().unset_ready().bits(), 0);
    assert_eq!(new.set_waiting().bits(), 4);
    assert!(new.set_waiting().is_waiting());
    assert_eq!(new.set_waiting_pending_wakeless().bits(), 28);
    assert!(new.set_waiting_pending_wakeless().is_pending());
    assert!(new.set_waiting_pending_wakeless().is_wakeless());
    assert_eq!(new.set_waiting_pending_wakeless().unset_wakeless().bits(), 20);
    assert_eq!(new.set_waiting_pending_wakeless().unset_wakeless().set_wakeless().bits(), 28);
    assert_eq!(new.set_waiting_pending_wakeless().unset_wakeless().unset_pending().bits(), 4);
    assert_eq!(new.set_waiting().setup_closed_wake().bits(), 2);
    assert!(new.set_waiting().setup_closed_wake().is_closed());
    assert_eq!(new.set_waiting_pending_wakeless().unset_wakeless().setup_closed().bits(), 2);
    assert_eq!(new.set_closed_dropping().bits(), 10);
    assert!(new.set_closed_dropping().is_dropping());
    assert_eq!(new.set_waiting().setup_closed_wake().set_dropping().bits(), 10);
}
