use std::task::Context;

use futures::task::noop_waker_ref;
use wasm_bindgen::{JsCast, JsValue};
use wasm_gloo_dom_events::envelope::timer_envelope;
use wasm_gloo_dom_events::{
    Action, Discipline, Dispatcher, Envelope, Source, Timer, TimerKind, TimerState, Vm,
};

fn no_host_event() -> Result<web_sys::CustomEvent, JsValue> {
    Err(JsValue::UNDEFINED)
}

fn host_event() -> Result<web_sys::CustomEvent, JsValue> {
    Ok(JsValue::NULL.unchecked_into::<web_sys::CustomEvent>())
}

#[test]
fn failed_construction_yields_absent_marker_with_name() {
    match timer_envelope(no_host_event(), "t".to_string()) {
        Envelope::Absent(name) => assert_eq!(name, "t"),
        _ => panic!("expected the absent marker"),
    }
    assert!(matches!(timer_envelope(host_event(), "t".to_string()), Envelope::CustomEvent(_)));
}

#[test]
fn absent_marker_reaches_handler_as_nodejs_name() {
    match Envelope::Absent("tick".to_string()).into_vm() {
        Ok(Vm::Nodejs(name)) => assert_eq!(name, "tick"),
        _ => panic!("expected the host-less variant"),
    }
    assert!(matches!(host_event().map(Envelope::CustomEvent).unwrap().into_vm(), Ok(Vm::Browser(_))));
    assert_eq!(Envelope::Timestamp(3).into_vm().err().unwrap().expected, Source::Interval);
}

#[test]
fn every_firing_without_host_is_absent_marker() {
    let mut t = Timer::interval("i".to_string(), 1000);
    t.register();
    for _ in 0..4 {
        match t.fire(no_host_event()) {
            Some(Envelope::Absent(name)) => assert_eq!(name, "i"),
            _ => panic!("expected the absent marker"),
        }
    }
}

#[test]
fn timeout_fires_exactly_once_with_its_name() {
    let mut cx = Context::from_waker(noop_waker_ref());
    let mut t = Timer::timeout("t".to_string(), 1000);
    assert_eq!(t.kind(), TimerKind::Timeout);
    assert_eq!(t.duration(), 1000);
    assert_eq!(t.state(), TimerState::Idle);
    assert!(t.fire(no_host_event()).is_none());
    t.register();
    assert_eq!(t.state(), TimerState::Registered);
    let mut d = Dispatcher::new(t.source(), Discipline::Serial);
    let first = t.fire(no_host_event()).expect("one firing");
    assert_eq!(t.state(), TimerState::Closed);
    assert!(t.fire(no_host_event()).is_none());
    d.deliver(first).unwrap();
    let mut invocations = Vec::new();
    loop {
        match d.pull(&mut cx) {
            Action::Run(e) => {
                match e.into_vm() {
                    Ok(Vm::Nodejs(name)) => invocations.push(name),
                    _ => panic!("expected the host-less variant"),
                }
                d.finish(true);
            }
            Action::Wait => {
                d.teardown();
            }
            Action::Done => break,
        }
    }
    assert_eq!(invocations, vec!["t".to_string()]);
}

#[test]
fn interval_completes_after_sixth_firing_and_teardown_stops_it() {
    let mut cx = Context::from_waker(noop_waker_ref());
    let mut t = Timer::interval("i".to_string(), 1000);
    assert_eq!(t.event_type(), "i");
    t.register();
    let mut d = Dispatcher::new(Source::Interval, Discipline::Serial);
    let mut count = 0u8;
    let mut resolved_at = None;
    for firing in 1..=6u8 {
        d.deliver(t.fire(no_host_event()).unwrap()).unwrap();
        match d.pull(&mut cx) {
            Action::Run(_) => {
                count += 1;
                if count > 5 && resolved_at.is_none() {
                    resolved_at = Some(firing);
                }
                d.finish(true);
            }
            _ => panic!("expected a run"),
        }
    }
    assert_eq!(resolved_at, Some(6));
    t.teardown();
    d.teardown();
    assert!(t.fire(no_host_event()).is_none());
    assert!(matches!(d.pull(&mut cx), Action::Done));
    assert_eq!(count, 6);
}

#[test]
fn idle_timer_ticks_nothing() {
    let mut t = Timer::interval("i".to_string(), 10);
    assert!(t.tick().is_none());
    t.teardown();
    assert!(t.tick().is_none());
    assert_eq!(t.state(), TimerState::Closed);
}
