use std::task::Context;

use futures::task::noop_waker_ref;
use wasm_gloo_dom_events::{Envelope, EventStream, Pull, PushError, Source};

fn bits(ms: u64) -> Envelope {
    Envelope::Timestamp(ms)
}

fn timestamp_of(p: Pull) -> Option<u64> {
    match p {
        Pull::Item(Envelope::Timestamp(b)) => Some(b),
        _ => None,
    }
}

#[test]
fn new_stream_is_open_and_empty() {
    let mut cx = Context::from_waker(noop_waker_ref());
    let mut s = EventStream::new(Source::AnimationFrame);
    assert_eq!(s.source(), Source::AnimationFrame);
    assert_eq!(s.pending(), 0);
    assert!(matches!(s.poll_next(&mut cx), Pull::Pending));
}

#[test]
fn burst_before_first_poll_is_delivered_whole_and_in_order() {
    let mut cx = Context::from_waker(noop_waker_ref());
    let mut s = EventStream::new(Source::AnimationFrame);
    for i in 0..100u64 {
        assert_eq!(s.push(bits(i)), Ok(()));
    }
    assert_eq!(s.pending(), 100);
    for i in 0..100u64 {
        assert_eq!(timestamp_of(s.poll_next(&mut cx)), Some(i));
    }
    assert_eq!(s.pending(), 0);
    assert!(matches!(s.poll_next(&mut cx), Pull::Pending));
}

#[test]
fn teardown_twice_drains_buffered_once_then_ends() {
    let mut cx = Context::from_waker(noop_waker_ref());
    let mut s = EventStream::new(Source::AnimationFrame);
    s.push(bits(1)).unwrap();
    s.push(bits(2)).unwrap();
    s.push(bits(3)).unwrap();
    assert_eq!(timestamp_of(s.poll_next(&mut cx)), Some(1));
    s.close();
    s.close();
    assert_eq!(s.pending(), 2);
    assert_eq!(timestamp_of(s.poll_next(&mut cx)), Some(2));
    s.close();
    assert_eq!(timestamp_of(s.poll_next(&mut cx)), Some(3));
    assert!(matches!(s.poll_next(&mut cx), Pull::Ended));
    assert!(matches!(s.poll_next(&mut cx), Pull::Ended));
}

#[test]
fn push_after_teardown_is_refused() {
    let mut cx = Context::from_waker(noop_waker_ref());
    let mut s = EventStream::new(Source::AnimationFrame);
    s.close();
    assert_eq!(s.push(bits(7)), Err(PushError::Closed));
    assert_eq!(s.pending(), 0);
    assert!(matches!(s.poll_next(&mut cx), Pull::Ended));
}

#[test]
fn envelope_of_another_family_is_refused() {
    let mut cx = Context::from_waker(noop_waker_ref());
    let mut s = EventStream::new(Source::Interval);
    assert_eq!(s.push(bits(7)), Err(PushError::Mismatch));
    assert_eq!(s.push(Envelope::String("x".to_string())), Err(PushError::Mismatch));
    assert_eq!(s.push(Envelope::Absent("tick".to_string())), Ok(()));
    match s.poll_next(&mut cx) {
        Pull::Item(Envelope::Absent(name)) => assert_eq!(name, "tick"),
        _ => panic!("expected the absent marker"),
    }
}

#[test]
fn mismatch_is_reported_before_closed() {
    let mut s = EventStream::new(Source::History);
    s.close();
    assert_eq!(s.push(bits(1)), Err(PushError::Mismatch));
}
