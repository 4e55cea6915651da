use std::task::Context;

use futures::task::noop_waker_ref;
use wasm_gloo_dom_events::{Action, Discipline, Dispatcher, Envelope, PushError, Source};

fn run_bits(a: Action) -> Option<u64> {
    match a {
        Action::Run(Envelope::Timestamp(b)) => Some(b),
        _ => None,
    }
}

#[test]
fn serial_runs_one_at_a_time_in_firing_order() {
    let mut cx = Context::from_waker(noop_waker_ref());
    let mut d = Dispatcher::new(Source::AnimationFrame, Discipline::Serial);
    for i in 0..5u64 {
        d.deliver(Envelope::Timestamp(i)).unwrap();
    }
    let mut log = Vec::new();
    for i in 0..5u64 {
        let got = run_bits(d.pull(&mut cx));
        assert_eq!(got, Some(i));
        log.push(format!("start {}", i));
        // while a run is in flight nothing else starts
        assert!(matches!(d.pull(&mut cx), Action::Wait));
        assert_eq!(d.running(), 1);
        d.finish(true);
        log.push(format!("finish {}", i));
    }
    assert_eq!(log[0], "start 0");
    assert_eq!(log[1], "finish 0");
    assert_eq!(log[8], "start 4");
    assert_eq!(log[9], "finish 4");
    assert!(matches!(d.pull(&mut cx), Action::Wait));
}

#[test]
fn concurrent_starts_every_buffered_envelope_at_once() {
    let mut cx = Context::from_waker(noop_waker_ref());
    let mut d = Dispatcher::new(Source::AnimationFrame, Discipline::Concurrent);
    for i in 10..13u64 {
        d.deliver(Envelope::Timestamp(i)).unwrap();
    }
    assert_eq!(run_bits(d.pull(&mut cx)), Some(10));
    assert_eq!(run_bits(d.pull(&mut cx)), Some(11));
    assert_eq!(run_bits(d.pull(&mut cx)), Some(12));
    assert_eq!(d.running(), 3);
    assert!(matches!(d.pull(&mut cx), Action::Wait));
    d.finish(true);
    d.finish(true);
    assert_eq!(d.running(), 1);
}

#[test]
fn done_only_after_teardown_drain_and_last_finish() {
    let mut cx = Context::from_waker(noop_waker_ref());
    let mut d = Dispatcher::new(Source::AnimationFrame, Discipline::Concurrent);
    d.deliver(Envelope::Timestamp(1)).unwrap();
    d.teardown();
    d.teardown();
    assert_eq!(d.deliver(Envelope::Timestamp(2)), Err(PushError::Closed));
    assert_eq!(run_bits(d.pull(&mut cx)), Some(1));
    assert!(matches!(d.pull(&mut cx), Action::Wait));
    d.finish(true);
    assert!(matches!(d.pull(&mut cx), Action::Done));
}

#[test]
fn teardown_before_any_firing_gives_no_run() {
    let mut cx = Context::from_waker(noop_waker_ref());
    let mut d = Dispatcher::new(Source::Element, Discipline::Serial);
    d.teardown();
    assert!(matches!(d.pull(&mut cx), Action::Done));
    assert_eq!(d.running(), 0);
}

#[test]
fn failed_run_halts_and_tears_down() {
    let mut cx = Context::from_waker(noop_waker_ref());
    let mut d = Dispatcher::new(Source::AnimationFrame, Discipline::Serial);
    d.deliver(Envelope::Timestamp(1)).unwrap();
    d.deliver(Envelope::Timestamp(2)).unwrap();
    assert_eq!(run_bits(d.pull(&mut cx)), Some(1));
    d.finish(false);
    assert!(d.is_halted());
    assert_eq!(d.pending(), 1);
    assert!(matches!(d.pull(&mut cx), Action::Done));
    assert_eq!(d.deliver(Envelope::Timestamp(3)), Err(PushError::Closed));
}

#[test]
fn dispatcher_reports_its_configuration() {
    let d = Dispatcher::new(Source::Timeout, Discipline::Serial);
    assert_eq!(d.source(), Source::Timeout);
    assert_eq!(d.discipline(), Discipline::Serial);
    assert!(!d.is_halted());
    assert_eq!(d.pending(), 0);
}
