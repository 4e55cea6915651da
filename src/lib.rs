//! Bridges push-based browser producers (element events, history changes,
//! animation frames, intervals, timeouts) into one pull-based stream of
//! envelopes, delivered to a handler under a serial or a concurrent discipline.
pub mod channel;
pub mod dispatch;
pub mod envelope;
pub mod option;
pub mod stream;
pub mod timer;

pub use channel::Pull;
pub use dispatch::{Action, Activity, Discipline, Dispatcher};
pub use envelope::{Envelope, Mismatch, Source, Vm};
pub use option::Options;
pub use stream::{EventStream, PushError};
pub use timer::{Timer, TimerKind, TimerState};
