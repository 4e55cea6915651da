//! Options of an element subscription: the listener options handed to the
//! element, and the dispatch discipline.
use gloo::events::{EventListenerOptions, EventListenerPhase};
use vstd::prelude::*;

verus! {

#[verifier::external_type_specification]
pub struct ExEventListenerPhase(gloo::events::EventListenerPhase);

#[verifier::external_type_specification]
pub struct ExEventListenerOptions(gloo::events::EventListenerOptions);

/// Relies on gloo's EventListenerOptions::enable_prevent_default: a bubbling,
/// non-passive listener, which may prevent the default action.
pub assume_specification[ gloo::events::EventListenerOptions::enable_prevent_default ]() -> (r:
    gloo::events::EventListenerOptions)
    ensures
        !r.passive,
        r.phase is Bubble,
;

/// Relies on gloo's Default for EventListenerOptions: a bubbling, passive listener.
pub assume_specification[ <gloo::events::EventListenerOptions as core::default::Default>::default ]() -> (r:
    gloo::events::EventListenerOptions)
    ensures
        r.passive,
        r.phase is Bubble,
;

/// The abstract state of element subscription options.
pub struct OptionsView {
    /// Whether the listener is passive, i.e. cannot prevent the default action.
    pub passive: bool,
    /// Whether the listener runs in the capture phase.
    pub capture: bool,
    /// Whether handler runs are serial.
    pub serial: bool,
}

pub struct Options {
    event_listener_options: EventListenerOptions,
    is_serial: bool,
}

impl View for Options {
    type V = OptionsView;

    closed spec fn view(&self) -> OptionsView {
        OptionsView {
            passive: self.event_listener_options.passive,
            capture: self.event_listener_options.phase is Capture,
            serial: self.is_serial,
        }
    }
}

impl Options {
    /// Options whose listener may prevent the default action; `is_serial`
    /// picks serial (true) or concurrent (false) handler runs.
    pub fn enable_prevent_default(is_serial: bool) -> (r: Self)
        ensures
            r@ == (OptionsView { passive: false, capture: false, serial: is_serial }),
    {
        Options { event_listener_options: EventListenerOptions::enable_prevent_default(), is_serial }
    }

    pub fn is_serial(&self) -> (r: bool)
        ensures
            r == self@.serial,
    {
        self.is_serial
    }

    pub fn event_listener_options(&self) -> (r: EventListenerOptions)
        ensures
            r.passive == self@.passive,
            (r.phase is Capture) == self@.capture,
    {
        self.event_listener_options
    }
}

impl Default for Options {
    /// A passive, bubbling listener with concurrent handler runs.
    fn default() -> (r: Self)
        ensures
            r@ == (OptionsView { passive: true, capture: false, serial: false }),
    {
        Options { event_listener_options: EventListenerOptions::default(), is_serial: false }
    }
}

} // verus!
