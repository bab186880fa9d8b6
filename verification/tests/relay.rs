use std::time::Instant;
use wincapture::frame_relay::{Frame, FrameSlot};

#[test]
fn frame_new_keeps_its_arguments() {
    let ts = Instant::now();
    let frame = Frame::new(ts, 41);
    assert_eq!(frame.id, 41);
    assert_eq!(frame.ts, ts);
}

#[test]
fn new_slot_is_empty() {
    let mut slot = FrameSlot::new();
    assert!(!slot.is_occupied());
    assert!(slot.try_take().is_none());
}

#[test]
fn take_after_publish_returns_the_frame_once() {
    let ts = Instant::now();
    let mut slot = FrameSlot::new();
    slot.publish(Frame::new(ts, 7));
    assert!(slot.is_occupied());
    let first = slot.try_take().unwrap();
    assert_eq!(first.id, 7);
    assert_eq!(first.ts, ts);
    assert!(slot.try_take().is_none());
    assert!(!slot.is_occupied());
}

#[test]
fn burst_of_three_leaves_only_the_last() {
    let mut slot = FrameSlot::new();
    slot.publish(Frame::new(Instant::now(), 1));
    slot.publish(Frame::new(Instant::now(), 2));
    slot.publish(Frame::new(Instant::now(), 3));
    let taken = slot.try_take().unwrap();
    assert_eq!(taken.id, 3);
    assert!(slot.try_take().is_none());
}

#[test]
fn publish_overwrites_an_unread_frame() {
    let mut slot = FrameSlot::new();
    slot.publish(Frame::new(Instant::now(), 10));
    slot.publish(Frame::new(Instant::now(), 11));
    assert_eq!(slot.try_take().unwrap().id, 11);
}

#[test]
fn slot_can_be_reused_after_a_take() {
    let mut slot = FrameSlot::new();
    slot.publish(Frame::new(Instant::now(), 1));
    assert_eq!(slot.try_take().unwrap().id, 1);
    slot.publish(Frame::new(Instant::now(), 2));
    assert_eq!(slot.try_take().unwrap().id, 2);
    assert!(slot.try_take().is_none());
}
