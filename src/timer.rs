//! Interval and timeout producers: `Idle -> Registered -> (firing)* -> Closed`.
//! A timeout closes itself after its one firing; an interval keeps firing
//! until it is torn down.
use vstd::prelude::*;

use crate::envelope::{timer_envelope, timer_envelope_of, Envelope, Source};

verus! {

#[derive(Clone, Copy, Debug, PartialEq, Eq, Structural)]
pub enum TimerKind {
    Interval,
    Timeout,
}

#[derive(Clone, Copy, Debug, PartialEq, Eq, Structural)]
pub enum TimerState {
    Idle,
    Registered,
    Closed,
}

/// The abstract state of a timer.
pub struct TimerView {
    pub kind: TimerKind,
    pub event_type: String,
    pub duration: u32,
    pub state: TimerState,
    /// How many envelopes it emitted so far.
    pub fired: nat,
}

impl TimerView {
    pub open spec fn coherent(self) -> bool {
        &&& self.state == TimerState::Idle ==> self.fired == 0
        &&& self.kind == TimerKind::Timeout ==> self.fired <= 1
        &&& (self.kind == TimerKind::Timeout && self.fired == 1) ==> self.state
            == TimerState::Closed
    }

    pub open spec fn after_register(self) -> TimerView {
        if self.state == TimerState::Idle {
            TimerView { state: TimerState::Registered, ..self }
        } else {
            self
        }
    }

    pub open spec fn after_fire(self) -> TimerView {
        if self.state == TimerState::Registered {
            TimerView {
                fired: self.fired + 1,
                state: if self.kind == TimerKind::Timeout {
                    TimerState::Closed
                } else {
                    TimerState::Registered
                },
                ..self
            }
        } else {
            self
        }
    }

    pub open spec fn after_teardown(self) -> TimerView {
        TimerView { state: TimerState::Closed, ..self }
    }
}

/// Relies on web_sys::CustomEvent::new: it builds a custom event whose type is
/// `event_type`, or fails in a host without a custom-event constructor. Which
/// of the two happens depends on the host, so nothing is promised of it.
#[verifier::external_body]
fn new_custom_event(event_type: &str) -> (r: Result<web_sys::CustomEvent, wasm_bindgen::JsValue>) {
    web_sys::CustomEvent::new(event_type)
}

/// A repeating or one-shot timer producer.
pub struct Timer {
    kind: TimerKind,
    event_type: String,
    duration: u32,
    state: TimerState,
    fired: Ghost<nat>,
}

impl View for Timer {
    type V = TimerView;

    closed spec fn view(&self) -> TimerView {
        TimerView {
            kind: self.kind,
            event_type: self.event_type,
            duration: self.duration,
            state: self.state,
            fired: self.fired@,
        }
    }
}

impl Timer {
    /// An idle timer that fires every `duration` milliseconds once registered.
    pub fn interval(event_type: String, duration: u32) -> (t: Self)
        ensures
            t@ == (TimerView {
                kind: TimerKind::Interval,
                event_type,
                duration,
                state: TimerState::Idle,
                fired: 0,
            }),
    {
        Timer { kind: TimerKind::Interval, event_type, duration, state: TimerState::Idle, fired: Ghost(0) }
    }

    /// An idle timer that fires once, `duration` milliseconds after registration.
    pub fn timeout(event_type: String, duration: u32) -> (t: Self)
        ensures
            t@ == (TimerView {
                kind: TimerKind::Timeout,
                event_type,
                duration,
                state: TimerState::Idle,
                fired: 0,
            }),
    {
        Timer { kind: TimerKind::Timeout, event_type, duration, state: TimerState::Idle, fired: Ghost(0) }
    }

    pub fn kind(&self) -> (r: TimerKind)
        ensures
            r == self@.kind,
    {
        self.kind
    }

    /// The producer family of this timer.
    pub fn source(&self) -> (r: Source)
        ensures
            r == match self@.kind {
                TimerKind::Interval => Source::Interval,
                TimerKind::Timeout => Source::Timeout,
            },
    {
        match self.kind {
            TimerKind::Interval => Source::Interval,
            TimerKind::Timeout => Source::Timeout,
        }
    }

    pub fn event_type(&self) -> (r: &String)
        ensures
            *r == self@.event_type,
    {
        &self.event_type
    }

    pub fn duration(&self) -> (r: u32)
        ensures
            r == self@.duration,
    {
        self.duration
    }

    pub fn state(&self) -> (r: TimerState)
        ensures
            r == self@.state,
    {
        self.state
    }

    /// Marks the timer as scheduled with its native producer.
    pub fn register(&mut self)
        requires
            old(self)@.coherent(),
        ensures
            final(self)@.coherent(),
            final(self)@ == old(self)@.after_register(),
    {
        if self.state == TimerState::Idle {
            self.state = TimerState::Registered;
        }
    }

    /// One native firing, given the outcome of building its custom event.
    /// A registered timer emits exactly one envelope: the structured event,
    /// or the absent marker with the event name where the host could not
    /// build one. A timer that is idle or closed emits nothing.
    pub fn fire(&mut self, created: Result<web_sys::CustomEvent, wasm_bindgen::JsValue>) -> (r:
        Option<Envelope>)
        requires
            old(self)@.coherent(),
        ensures
            final(self)@.coherent(),
            final(self)@ == old(self)@.after_fire(),
            r == if old(self)@.state == TimerState::Registered {
                Some(timer_envelope_of(created, old(self)@.event_type))
            } else {
                None
            },
    {
        if self.state != TimerState::Registered {
            return None;
        }
        let e = timer_envelope(created, self.event_type.clone());
        self.fired = Ghost(self.fired@ + 1);
        if self.kind == TimerKind::Timeout {
            self.state = TimerState::Closed;
        }
        Some(e)
    }

    /// One native firing: builds the custom event in the current host, then
    /// fires. Whatever the host does, the envelope is the structured event
    /// or the absent marker with the event name.
    pub fn tick(&mut self) -> (r: Option<Envelope>)
        requires
            old(self)@.coherent(),
        ensures
            final(self)@.coherent(),
            final(self)@ == old(self)@.after_fire(),
            r is Some <==> old(self)@.state == TimerState::Registered,
            r matches Some(e) ==> e is CustomEvent || e == Envelope::Absent(old(self)@.event_type),
    {
        if self.state != TimerState::Registered {
            return None;
        }
        let created = new_custom_event(self.event_type.as_str());
        self.fire(created)
    }

    /// Stops the timer: it fires no more.
    pub fn teardown(&mut self)
        requires
            old(self)@.coherent(),
        ensures
            final(self)@.coherent(),
            final(self)@ == old(self)@.after_teardown(),
    {
        self.state = TimerState::Closed;
    }
}

} // verus!
