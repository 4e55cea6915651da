//! The payloads that travel through the bridge, one variant per producer family.
use vstd::prelude::*;

verus! {

#[verifier::external_type_specification]
#[verifier::external_body]
pub struct ExEvent(web_sys::Event);

#[verifier::external_type_specification]
#[verifier::external_body]
pub struct ExCustomEvent(web_sys::CustomEvent);

#[verifier::external_type_specification]
#[verifier::external_body]
pub struct ExJsValue(wasm_bindgen::JsValue);

#[verifier::external_type_specification]
#[verifier::external_body]
pub struct ExLocation(gloo::history::Location);

/// The producer families that can feed an event stream.
#[derive(Clone, Copy, Debug, PartialEq, Eq, Structural)]
pub enum Source {
    Element,
    History,
    AnimationFrame,
    Interval,
    Timeout,
}

/// One notification of a native producer.
#[derive(Debug)]
pub enum Envelope {
    /// A user-interface event fired on an element.
    Event(web_sys::Event),
    /// A structured custom event synthesized by a timer.
    CustomEvent(web_sys::CustomEvent),
    /// The history location current after a navigation change.
    Location(gloo::history::Location),
    /// A raw string.
    String(String),
    /// A frame's high-resolution timestamp, as the bit pattern of its IEEE-754 double.
    Timestamp(u64),
    /// The absent marker, carrying the configured event name, used where the
    /// host cannot synthesize a structured event.
    Absent(String),
}

/// What a timer handler receives: a structured event in a browser host, or the
/// configured event name in a host without one.
#[derive(Debug)]
pub enum Vm {
    Browser(web_sys::CustomEvent),
    Nodejs(String),
}

/// An envelope reached a consumer of another producer family.
#[derive(Clone, Copy, Debug, PartialEq, Eq, Structural)]
pub struct Mismatch {
    pub expected: Source,
}

/// Whether a producer of family `source` can emit envelope `e`.
pub open spec fn produces(source: Source, e: Envelope) -> bool {
    match source {
        Source::Element => e is Event,
        Source::History => e is Location,
        Source::AnimationFrame => e is Timestamp,
        Source::Interval | Source::Timeout => e is CustomEvent || e is Absent,
    }
}

/// The envelope a timer emits: the structured event when the host could build
/// one, otherwise the absent marker carrying the event name.
pub open spec fn timer_envelope_of(
    created: Result<web_sys::CustomEvent, wasm_bindgen::JsValue>,
    event_type: String,
) -> Envelope {
    match created {
        Ok(event) => Envelope::CustomEvent(event),
        Err(_) => Envelope::Absent(event_type),
    }
}

/// Builds the envelope of one timer firing from the outcome of constructing a
/// custom event named `event_type`. A failed construction never yields a
/// partial event: it yields the absent marker with the name.
pub fn timer_envelope(
    created: Result<web_sys::CustomEvent, wasm_bindgen::JsValue>,
    event_type: String,
) -> (r: Envelope)
    ensures
        r == timer_envelope_of(created, event_type),
        produces(Source::Interval, r),
        produces(Source::Timeout, r),
{
    match created {
        Ok(event) => Envelope::CustomEvent(event),
        Err(_) => Envelope::Absent(event_type),
    }
}

impl Envelope {
    /// Whether a producer of family `source` can emit this envelope.
    pub fn is_produced_by(&self, source: Source) -> (r: bool)
        ensures
            r == produces(source, *self),
    {
        match source {
            Source::Element => matches!(self, Envelope::Event(_)),
            Source::History => matches!(self, Envelope::Location(_)),
            Source::AnimationFrame => matches!(self, Envelope::Timestamp(_)),
            Source::Interval | Source::Timeout => matches!(self, Envelope::CustomEvent(_))
                || matches!(self, Envelope::Absent(_)),
        }
    }

    /// The element event this envelope wraps.
    pub fn into_event(self) -> (r: Result<web_sys::Event, Mismatch>)
        ensures
            r == match self {
                Envelope::Event(event) => Ok(event),
                _ => Err(Mismatch { expected: Source::Element }),
            },
    {
        match self {
            Envelope::Event(event) => Ok(event),
            _ => Err(Mismatch { expected: Source::Element }),
        }
    }

    /// The history location this envelope wraps.
    pub fn into_location(self) -> (r: Result<gloo::history::Location, Mismatch>)
        ensures
            r == match self {
                Envelope::Location(location) => Ok(location),
                _ => Err(Mismatch { expected: Source::History }),
            },
    {
        match self {
            Envelope::Location(location) => Ok(location),
            _ => Err(Mismatch { expected: Source::History }),
        }
    }

    /// The frame timestamp bits this envelope carries.
    pub fn into_timestamp(self) -> (r: Result<u64, Mismatch>)
        ensures
            r == match self {
                Envelope::Timestamp(bits) => Ok(bits),
                _ => Err(Mismatch { expected: Source::AnimationFrame }),
            },
    {
        match self {
            Envelope::Timestamp(bits) => Ok(bits),
            _ => Err(Mismatch { expected: Source::AnimationFrame }),
        }
    }

    /// What a timer handler receives for this envelope.
    pub fn into_vm(self) -> (r: Result<Vm, Mismatch>)
        ensures
            r == match self {
                Envelope::CustomEvent(event) => Ok(Vm::Browser(event)),
                Envelope::Absent(event_type) => Ok(Vm::Nodejs(event_type)),
                _ => Err(Mismatch { expected: Source::Interval }),
            },
    {
        match self {
            Envelope::CustomEvent(event) => Ok(Vm::Browser(event)),
            Envelope::Absent(event_type) => Ok(Vm::Nodejs(event_type)),
            _ => Err(Mismatch { expected: Source::Interval }),
        }
    }
}

} // verus!
