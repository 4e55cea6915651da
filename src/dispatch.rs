//! The dispatcher: decides, from its state and what the stream yields, when a
//! handler run starts and when the dispatch is over. The caller performs the
//! runs and reports each one's completion.
use vstd::prelude::*;

use crate::channel::Pull;
use crate::envelope::{Envelope, Source};
use crate::stream::{EventStream, PushError, StreamView};

verus! {

/// How handler runs relate to each other.
#[derive(Clone, Copy, Debug, PartialEq, Eq, Structural)]
pub enum Discipline {
    /// One run at a time, each started only after the previous one finished.
    Serial,
    /// Each envelope's run starts as soon as it is pulled.
    Concurrent,
}

/// One step in the life of the handler runs.
#[derive(Clone, Copy, Debug, PartialEq, Eq, Structural)]
pub enum Activity {
    Start,
    Finish,
}

/// What the caller does next.
#[derive(Debug)]
pub enum Action {
    /// Start a handler run on this envelope.
    Run(Envelope),
    /// Nothing to start now: wait for an envelope or for a run to finish.
    Wait,
    /// The dispatch is over: the stream ended and every run finished, or a
    /// run failed.
    Done,
}

/// The abstract state of a dispatcher.
pub struct DispatchView {
    pub discipline: Discipline,
    pub stream: StreamView,
    /// Runs started and not yet finished.
    pub running: nat,
    /// Whether a run failed, which ends the dispatch.
    pub halted: bool,
    /// Every start and finish of a run, in the order they happened.
    pub trace: Seq<Activity>,
}

/// Starts and finishes alternate, beginning with a start.
pub open spec fn alternating(t: Seq<Activity>) -> bool {
    forall|i: int|
        0 <= i < t.len() ==> #[trigger] t[i] == if i % 2 == 0 {
            Activity::Start
        } else {
            Activity::Finish
        }
}

impl DispatchView {
    pub open spec fn coherent(self) -> bool {
        &&& self.stream.coherent()
        &&& self.running <= self.stream.delivered.len()
        &&& self.halted ==> !self.stream.open
        &&& self.discipline == Discipline::Serial ==> {
            &&& self.running <= 1
            &&& self.trace.len() + self.running == 2 * self.stream.delivered.len()
            &&& alternating(self.trace)
        }
    }

    /// Whether a pull may start a run now.
    pub open spec fn may_pull(self) -> bool {
        &&& !self.halted
        &&& match self.discipline {
            Discipline::Serial => self.running == 0,
            Discipline::Concurrent => self.running < usize::MAX,
        }
    }

    pub open spec fn pull_action(self) -> Action {
        if self.halted {
            Action::Done
        } else if !self.may_pull() {
            Action::Wait
        } else {
            match self.stream.pull_result() {
                Pull::Item(e) => Action::Run(e),
                Pull::Pending => Action::Wait,
                Pull::Ended => if self.running == 0 {
                    Action::Done
                } else {
                    Action::Wait
                },
            }
        }
    }

    pub open spec fn after_pull(self) -> DispatchView {
        if self.may_pull() && self.stream.pending.len() > 0 {
            DispatchView {
                stream: self.stream.after_pull(),
                running: self.running + 1,
                trace: self.trace.push(Activity::Start),
                ..self
            }
        } else {
            self
        }
    }

    pub open spec fn after_finish(self, succeeded: bool) -> DispatchView {
        DispatchView {
            stream: if succeeded {
                self.stream
            } else {
                self.stream.after_close()
            },
            running: (self.running - 1) as nat,
            halted: self.halted || !succeeded,
            trace: self.trace.push(Activity::Finish),
            ..self
        }
    }
}

/// Drives one event stream's envelopes into handler runs.
pub struct Dispatcher {
    stream: EventStream,
    discipline: Discipline,
    running: usize,
    halted: bool,
    trace: Ghost<Seq<Activity>>,
}

impl View for Dispatcher {
    type V = DispatchView;

    closed spec fn view(&self) -> DispatchView {
        DispatchView {
            discipline: self.discipline,
            stream: self.stream@,
            running: self.running as nat,
            halted: self.halted,
            trace: self.trace@,
        }
    }
}

impl Dispatcher {
    pub closed spec fn counted(&self) -> bool {
        self.stream.counted()
    }

    pub open spec fn wf(&self) -> bool {
        self@.coherent() && self.counted()
    }

    /// A dispatcher over a fresh, open stream for producers of family `source`.
    pub fn new(source: Source, discipline: Discipline) -> (d: Self)
        ensures
            d.wf(),
            d@.discipline == discipline,
            d@.stream.source == source,
            d@.stream.open,
            d@.stream.pending.len() == 0,
            d@.stream.accepted.len() == 0,
            d@.stream.delivered.len() == 0,
            d@.running == 0,
            !d@.halted,
            d@.trace.len() == 0,
    {
        Dispatcher {
            stream: EventStream::new(source),
            discipline,
            running: 0,
            halted: false,
            trace: Ghost(Seq::empty()),
        }
    }

    pub fn discipline(&self) -> (r: Discipline)
        ensures
            r == self@.discipline,
    {
        self.discipline
    }

    pub fn source(&self) -> (r: Source)
        ensures
            r == self@.stream.source,
    {
        self.stream.source()
    }

    /// The number of runs started and not yet finished.
    pub fn running(&self) -> (n: usize)
        ensures
            n == self@.running,
    {
        self.running
    }

    pub fn is_halted(&self) -> (r: bool)
        ensures
            r == self@.halted,
    {
        self.halted
    }

    /// The number of envelopes waiting to be pulled.
    pub fn pending(&self) -> (n: usize)
        requires
            self.wf(),
        ensures
            n == self@.stream.pending.len(),
    {
        self.stream.pending()
    }

    /// Hands one envelope of the native producer to the stream.
    pub fn deliver(&mut self, e: Envelope) -> (r: Result<(), PushError>)
        requires
            old(self).wf(),
        ensures
            final(self).wf(),
            r == old(self)@.stream.push_result(e),
            final(self)@ == (DispatchView { stream: old(self)@.stream.after_push(e), ..old(self)@ }),
    {
        self.stream.push(e)
    }

    /// Stops delivery: the stream accepts nothing more and ends once drained.
    /// Tearing down again changes nothing.
    pub fn teardown(&mut self)
        requires
            old(self).wf(),
        ensures
            final(self).wf(),
            final(self)@ == (DispatchView { stream: old(self)@.stream.after_close(), ..old(self)@ }),
    {
        self.stream.close();
    }

    /// Decides the next step. Under the serial discipline nothing is pulled
    /// while a run is in flight; under the concurrent one every buffered
    /// envelope starts a run at once. A pulled envelope is handed out with
    /// the order of the stream, and always matches the stream's family.
    pub fn pull(&mut self, cx: &mut std::task::Context) -> (r: Action)
        requires
            old(self).wf(),
        ensures
            final(self).wf(),
            r == old(self)@.pull_action(),
            final(self)@ == old(self)@.after_pull(),
            r is Run ==> crate::envelope::produces(old(self)@.stream.source, r->Run_0),
    {
        if self.halted {
            return Action::Done;
        }
        let may = match self.discipline {
            Discipline::Serial => self.running == 0,
            Discipline::Concurrent => self.running < usize::MAX,
        };
        if !may {
            return Action::Wait;
        }
        match self.stream.poll_next(cx) {
            Pull::Item(e) => {
                self.running = self.running + 1;
                self.trace = Ghost(self.trace@.push(Activity::Start));
                proof {
                    let t = self.trace@;
                    if self.discipline == Discipline::Serial {
                        assert forall|i: int| 0 <= i < t.len() implies #[trigger] t[i] == if i % 2
                            == 0 {
                            Activity::Start
                        } else {
                            Activity::Finish
                        } by {
                            if i < t.len() - 1 {
                                assert(t[i] == old(self)@.trace[i]);
                            }
                        }
                    }
                }
                Action::Run(e)
            },
            Pull::Pending => Action::Wait,
            Pull::Ended => {
                if self.running == 0 {
                    Action::Done
                } else {
                    Action::Wait
                }
            },
        }
    }

    /// Records that one run finished. A failed run halts the dispatch and
    /// tears the stream down: no further run starts.
    pub fn finish(&mut self, succeeded: bool)
        requires
            old(self).wf(),
            old(self)@.running > 0,
        ensures
            final(self).wf(),
            final(self)@ == old(self)@.after_finish(succeeded),
    {
        self.running = self.running - 1;
        self.trace = Ghost(self.trace@.push(Activity::Finish));
        if !succeeded {
            self.halted = true;
            self.stream.close();
        }
        proof {
            let t = self.trace@;
            if self.discipline == Discipline::Serial {
                assert forall|i: int| 0 <= i < t.len() implies #[trigger] t[i] == if i % 2 == 0 {
                    Activity::Start
                } else {
                    Activity::Finish
                } by {
                    if i < t.len() - 1 {
                        assert(t[i] == old(self)@.trace[i]);
                    }
                }
            }
        }
    }
}

/// Serial ordering: under the serial discipline runs never overlap and follow
/// firing order. Starts and finishes alternate, so run k finishes before run
/// k + 1 starts; run k was handed the k-th envelope the producer fired.
pub proof fn lemma_serial_runs_in_firing_order(d: DispatchView)
    requires
        d.coherent(),
        d.discipline == Discipline::Serial,
    ensures
        d.running <= 1,
        d.trace.len() + d.running == 2 * d.stream.delivered.len(),
        d.stream.delivered.len() <= d.stream.accepted.len(),
        forall|k: int|
            0 <= k < d.stream.delivered.len() ==> {
                &&& d.trace[2 * k] == Activity::Start
                &&& 2 * k + 1 < d.trace.len() ==> d.trace[2 * k + 1] == Activity::Finish
                &&& #[trigger] d.stream.delivered[k] == d.stream.accepted[k]
            },
{
    assert forall|k: int| 0 <= k < d.stream.delivered.len() implies {
        &&& d.trace[2 * k] == Activity::Start
        &&& 2 * k + 1 < d.trace.len() ==> d.trace[2 * k + 1] == Activity::Finish
        &&& #[trigger] d.stream.delivered[k] == d.stream.accepted[k]
    } by {
        assert((2 * k) % 2 == 0);
        assert((2 * k + 1) % 2 == 1);
        assert(d.stream.accepted == d.stream.delivered + d.stream.pending);
        assert(d.trace[2 * k] == if (2 * k) % 2 == 0 { Activity::Start } else { Activity::Finish });
        if 2 * k + 1 < d.trace.len() {
            assert(d.trace[2 * k + 1] == if (2 * k + 1) % 2 == 0 {
                Activity::Start
            } else {
                Activity::Finish
            });
        }
    }
}

} // verus!
