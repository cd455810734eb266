//! The steps of the two sides of a channel, one by one.

use forward::oneshot::state::{
    Alert, PollStep, ReceiverStep, RecvStep, SendStep, SenderStep, State,
};

type Channel = State<u8, char>;

fn ready(val: u8) -> Channel {
    let mut state = Channel::new();
    assert!(matches!(state.send(val), SendStep::Stored(Alert::Quiet)));
    state
}

fn waiting() -> Channel {
    let mut state = Channel::new();
    assert!(matches!(state.recv(), RecvStep::Park));
    state
}

fn polling() -> Channel {
    let mut state = Channel::new();
    assert!(matches!(state.poll(), PollStep::Register));
    state
}

fn pending(waker: char) -> Channel {
    let mut state = polling();
    assert_eq!(state.settle(waker), None);
    state
}

fn dataless() -> Channel {
    let mut state = ready(1);
    assert!(matches!(state.recv(), RecvStep::Got(1)));
    state
}

fn closed() -> Channel {
    let mut state = waiting();
    assert!(matches!(state.drop_sender(), SenderStep::Unpark));
    state
}

fn dropped() -> Channel {
    let mut state = Channel::new();
    assert!(matches!(state.drop_sender(), SenderStep::Left));
    state
}

fn droppable(val: u8) -> Channel {
    let mut state = ready(val);
    assert!(matches!(state.drop_sender(), SenderStep::Left));
    state
}

#[test]
fn words_of_the_table() {
    assert_eq!(Channel::new().word(), 0b00000);
    assert_eq!(ready(1).word(), 0b00001);
    assert_eq!(waiting().word(), 0b00100);
    assert_eq!(pending('a').word(), 0b10100);
    assert_eq!(polling().word(), 0b11100);
    assert_eq!(dataless().word(), 0b01000);
    assert_eq!(closed().word(), 0b00010);
    assert_eq!(dropped().word(), 0b01010);
    assert_eq!(droppable(1).word(), 0b01011);
}

#[test]
fn sending_tells_whoever_waits() {
    assert!(matches!(Channel::new().send(1), SendStep::Stored(Alert::Quiet)));
    assert!(matches!(waiting().send(1), SendStep::Stored(Alert::Unpark)));
    assert!(matches!(pending('a').send(1), SendStep::Stored(Alert::Wake('a'))));
    assert!(matches!(polling().send(1), SendStep::Stored(Alert::Quiet)));
    assert!(matches!(dropped().send(1), SendStep::Refused(1)));
    assert!(matches!(closed().send(1), SendStep::Refused(1)));
}

#[test]
fn receiving_takes_once() {
    let mut state = ready(1);
    assert!(matches!(state.recv(), RecvStep::Got(1)));
    assert!(matches!(state.recv(), RecvStep::Gone));
    let mut state = droppable(1);
    assert!(matches!(state.recv(), RecvStep::Got(1)));
    assert_eq!(state.word(), dropped().word());
    assert!(matches!(state.recv(), RecvStep::Gone));
    assert!(matches!(closed().recv(), RecvStep::Gone));
    assert!(matches!(waiting().recv(), RecvStep::Park));
    assert!(matches!(polling().recv(), RecvStep::Park));
}

#[test]
fn blocking_displaces_a_waker() {
    let mut state = pending('a');
    assert!(matches!(state.recv(), RecvStep::Displace('a')));
    assert_eq!(state.word(), waiting().word());
}

#[test]
fn polling_takes_once() {
    let mut state = ready(1);
    assert!(matches!(state.poll(), PollStep::Got(1)));
    assert!(matches!(state.poll(), PollStep::Gone));
    assert!(matches!(droppable(1).poll(), PollStep::Got(1)));
    assert!(matches!(dropped().poll(), PollStep::Gone));
    assert!(matches!(closed().poll(), PollStep::Gone));
    assert!(matches!(waiting().poll(), PollStep::Register));
}

#[test]
fn waker_is_handed_out_and_in_again() {
    let mut state = pending('a');
    assert!(matches!(state.poll(), PollStep::Refresh('a')));
    assert_eq!(state.word(), polling().word());
    assert_eq!(state.settle('b'), None);
    assert!(matches!(state.send(1), SendStep::Stored(Alert::Wake('b'))));
}

#[test]
fn waker_that_comes_too_late_is_refused() {
    let mut state = polling();
    assert!(matches!(state.send(1), SendStep::Stored(Alert::Quiet)));
    assert_eq!(state.settle('a'), Some('a'));
    assert!(matches!(state.poll(), PollStep::Got(1)));

    let mut state = polling();
    assert!(matches!(state.drop_sender(), SenderStep::Left));
    assert_eq!(state.settle('a'), Some('a'));
    assert!(matches!(state.poll(), PollStep::Gone));
}

#[test]
fn leaving_sender_tells_whoever_waits() {
    let mut state = waiting();
    assert!(matches!(state.drop_sender(), SenderStep::Unpark));
    assert!(matches!(state.drop_sender(), SenderStep::Left));
    let mut state = pending('a');
    assert!(matches!(state.drop_sender(), SenderStep::Wake('a')));
    assert!(matches!(state.drop_sender(), SenderStep::Left));
    assert!(matches!(dataless().drop_sender(), SenderStep::Left));
}

#[test]
fn leaving_receiver_drops_what_is_left() {
    let mut state = droppable(1);
    assert!(matches!(state.drop_receiver(), ReceiverStep::Discard(1)));
    assert!(matches!(state.drop_receiver(), ReceiverStep::Reclaim));
    let mut state = pending('a');
    assert!(matches!(state.drop_receiver(), ReceiverStep::Wake('a')));
    assert!(matches!(state.drop_receiver(), ReceiverStep::Left));
    assert!(matches!(state.drop_sender(), SenderStep::Reclaim));
    let mut state = ready(1);
    assert!(matches!(state.drop_receiver(), ReceiverStep::Discard(1)));
    assert_eq!(state.word(), closed().word());
    assert!(matches!(state.drop_receiver(), ReceiverStep::Left));
    assert!(matches!(state.send(2), SendStep::Refused(2)));
}

#[test]
fn last_to_leave_reclaims() {
    let mut state = Channel::new();
    assert!(matches!(state.drop_sender(), SenderStep::Left));
    assert!(matches!(state.drop_receiver(), ReceiverStep::Reclaim));
    let mut state = Channel::new();
    assert!(matches!(state.drop_receiver(), ReceiverStep::Left));
    assert!(matches!(state.drop_sender(), SenderStep::Reclaim));
}
