//! The event stream: one producer family's envelopes, queued in arrival order
//! and pulled one at a time by the consumer, until teardown closes it.
use vstd::prelude::*;

use crate::channel::{channel_items, channel_open, pull_outcome, Channel, Pull, CHANNEL_LIMIT};
use crate::envelope::{produces, Envelope, Source};

verus! {

/// Why the stream turned an envelope away.
#[derive(Clone, Copy, Debug, PartialEq, Eq, Structural)]
pub enum PushError {
    /// The envelope belongs to another producer family.
    Mismatch,
    /// The buffer is at the channel's message limit.
    Full,
    /// The stream was torn down.
    Closed,
}

/// The abstract state of an event stream.
pub struct StreamView {
    /// The producer family the stream serves.
    pub source: Source,
    /// Envelopes queued and not yet pulled, oldest first.
    pub pending: Seq<Envelope>,
    /// Whether the producer side still accepts envelopes.
    pub open: bool,
    /// Every envelope the stream ever accepted, in arrival order.
    pub accepted: Seq<Envelope>,
    /// Every envelope handed to the consumer, in delivery order.
    pub delivered: Seq<Envelope>,
}

impl StreamView {
    /// What was accepted is exactly what was delivered followed by what waits,
    /// and all of it comes from the stream's own producer family.
    pub open spec fn coherent(self) -> bool {
        &&& self.accepted == self.delivered + self.pending
        &&& forall|i: int|
            0 <= i < self.accepted.len() ==> produces(self.source, #[trigger] self.accepted[i])
        &&& self.pending.len() <= CHANNEL_LIMIT
    }

    pub open spec fn push_result(self, e: Envelope) -> Result<(), PushError> {
        if !produces(self.source, e) {
            Err(PushError::Mismatch)
        } else if self.pending.len() >= CHANNEL_LIMIT {
            Err(PushError::Full)
        } else if !self.open {
            Err(PushError::Closed)
        } else {
            Ok(())
        }
    }

    pub open spec fn after_push(self, e: Envelope) -> StreamView {
        if self.push_result(e) is Ok {
            StreamView {
                pending: self.pending.push(e),
                accepted: self.accepted.push(e),
                ..self
            }
        } else {
            self
        }
    }

    pub open spec fn after_close(self) -> StreamView {
        StreamView { open: false, ..self }
    }

    pub open spec fn pull_result(self) -> Pull {
        pull_outcome(self.pending, self.open)
    }

    pub open spec fn after_pull(self) -> StreamView {
        if self.pending.len() > 0 {
            StreamView {
                pending: self.pending.drop_first(),
                delivered: self.delivered.push(self.pending[0]),
                ..self
            }
        } else {
            self
        }
    }
}

/// The state after pushing each envelope of `burst` in turn.
pub open spec fn push_all(v: StreamView, burst: Seq<Envelope>) -> StreamView
    decreases burst.len(),
{
    if burst.len() == 0 {
        v
    } else {
        push_all(v.after_push(burst[0]), burst.drop_first())
    }
}

/// The outcomes of `n` successive pulls.
pub open spec fn pulls(v: StreamView, n: nat) -> Seq<Pull>
    decreases n,
{
    if n == 0 {
        Seq::<Pull>::empty()
    } else {
        seq![v.pull_result()] + pulls(v.after_pull(), (n - 1) as nat)
    }
}

/// The state after `n` successive pulls.
pub open spec fn pulled(v: StreamView, n: nat) -> StreamView
    decreases n,
{
    if n == 0 {
        v
    } else {
        pulled(v.after_pull(), (n - 1) as nat)
    }
}

pub open spec fn items(s: Seq<Envelope>) -> Seq<Pull> {
    s.map_values(|e: Envelope| Pull::Item(e))
}

/// A queue of envelopes from one native producer, with its teardown.
pub struct EventStream {
    channel: Channel,
    source: Source,
    pending: usize,
    accepted: Ghost<Seq<Envelope>>,
    delivered: Ghost<Seq<Envelope>>,
}

impl View for EventStream {
    type V = StreamView;

    closed spec fn view(&self) -> StreamView {
        StreamView {
            source: self.source,
            pending: channel_items(self.channel),
            open: channel_open(self.channel),
            accepted: self.accepted@,
            delivered: self.delivered@,
        }
    }
}

impl EventStream {
    pub closed spec fn counted(&self) -> bool {
        self.pending as int == channel_items(self.channel).len()
    }

    pub open spec fn wf(&self) -> bool {
        self@.coherent() && self.counted()
    }

    /// An open, empty stream for producers of family `source`.
    pub fn new(source: Source) -> (s: Self)
        ensures
            s.wf(),
            s@ == (StreamView {
                source,
                pending: Seq::empty(),
                open: true,
                accepted: Seq::empty(),
                delivered: Seq::empty(),
            }),
    {
        let s = EventStream {
            channel: Channel::new(),
            source,
            pending: 0,
            accepted: Ghost(Seq::empty()),
            delivered: Ghost(Seq::empty()),
        };
        assert(s@.accepted =~= s@.delivered + s@.pending);
        s
    }

    pub fn source(&self) -> (r: Source)
        ensures
            r == self@.source,
    {
        self.source
    }

    /// The number of envelopes waiting to be pulled.
    pub fn pending(&self) -> (n: usize)
        requires
            self.wf(),
        ensures
            n == self@.pending.len(),
    {
        self.pending
    }

    /// Enqueues one envelope from the producer. It is refused, and dropped,
    /// when it belongs to another family, when the buffer is at its limit, or
    /// after teardown; it is never delivered then.
    pub fn push(&mut self, e: Envelope) -> (r: Result<(), PushError>)
        requires
            old(self).wf(),
        ensures
            final(self).wf(),
            r == old(self)@.push_result(e),
            final(self)@ == old(self)@.after_push(e),
    {
        if !e.is_produced_by(self.source) {
            return Err(PushError::Mismatch);
        }
        if self.pending >= CHANNEL_LIMIT {
            return Err(PushError::Full);
        }
        let ghost sent = e;
        match self.channel.send(e) {
            Ok(()) => {
                self.pending = self.pending + 1;
                self.accepted = Ghost(self.accepted@.push(sent));
                assert(self@.accepted =~= self@.delivered + self@.pending);
                assert forall|i: int| 0 <= i < self@.accepted.len() implies produces(
                    self@.source,
                    #[trigger] self@.accepted[i],
                ) by {
                    if i < old(self)@.accepted.len() {
                        assert(self@.accepted[i] == old(self)@.accepted[i]);
                    }
                }
                Ok(())
            },
            Err(_) => Err(PushError::Closed),
        }
    }

    /// Tears the stream down: no envelope is accepted afterwards, those
    /// already buffered still drain. Tearing down again changes nothing.
    pub fn close(&mut self)
        requires
            old(self).wf(),
        ensures
            final(self).wf(),
            final(self)@ == old(self)@.after_close(),
    {
        self.channel.close();
    }

    /// Takes the oldest buffered envelope; with none, reports whether more may
    /// come. A pending pull wakes the task in `cx` when that changes.
    pub fn poll_next(&mut self, cx: &mut std::task::Context) -> (r: Pull)
        requires
            old(self).wf(),
        ensures
            final(self).wf(),
            r == old(self)@.pull_result(),
            final(self)@ == old(self)@.after_pull(),
            r is Item ==> produces(old(self)@.source, r->Item_0),
    {
        let ghost before = self@;
        let r = self.channel.poll_next(cx);
        if let Pull::Item(_) = &r {
            self.pending = self.pending - 1;
            self.delivered = Ghost(self.delivered@.push(before.pending[0]));
            assert(before.accepted[before.delivered.len() as int] == before.pending[0]);
            assert(self@.accepted =~= self@.delivered + self@.pending);
        }
        r
    }
}

proof fn lemma_push_all_appends(v: StreamView, burst: Seq<Envelope>)
    requires
        v.coherent(),
        v.open,
        v.pending.len() + burst.len() <= CHANNEL_LIMIT,
        forall|i: int| 0 <= i < burst.len() ==> produces(v.source, #[trigger] burst[i]),
    ensures
        push_all(v, burst).pending == v.pending + burst,
        push_all(v, burst).open,
        push_all(v, burst).coherent(),
        push_all(v, burst).delivered == v.delivered,
    decreases burst.len(),
{
    if burst.len() == 0 {
        assert(v.pending + burst =~= v.pending);
    } else {
        let w = v.after_push(burst[0]);
        assert(produces(v.source, burst[0]));
        assert forall|i: int| 0 <= i < w.accepted.len() implies produces(
            w.source,
            #[trigger] w.accepted[i],
        ) by {
            if i < v.accepted.len() {
                assert(w.accepted[i] == v.accepted[i]);
            }
        }
        assert(w.accepted =~= w.delivered + w.pending);
        let rest = burst.drop_first();
        assert forall|i: int| 0 <= i < rest.len() implies produces(v.source, #[trigger] rest[i]) by {
            assert(rest[i] == burst[i + 1]);
        }
        lemma_push_all_appends(w, rest);
        assert(v.pending.push(burst[0]) + rest =~= v.pending + burst);
    }
}

proof fn lemma_pulls_take_front(v: StreamView, n: nat)
    requires
        n <= v.pending.len(),
    ensures
        pulls(v, n) == items(v.pending.take(n as int)),
        pulled(v, n).pending == v.pending.skip(n as int),
        pulled(v, n).delivered == v.delivered + v.pending.take(n as int),
        pulled(v, n).open == v.open,
    decreases n,
{
    if n == 0 {
        assert(items(v.pending.take(0)) =~= Seq::<Pull>::empty());
        assert(v.pending.skip(0) =~= v.pending);
        assert(v.delivered + v.pending.take(0) =~= v.delivered);
    } else {
        let w = v.after_pull();
        lemma_pulls_take_front(w, (n - 1) as nat);
        assert(items(v.pending.take(n as int)) =~= seq![v.pull_result()] + items(
            w.pending.take(n - 1),
        ));
        assert(w.pending.skip(n - 1) =~= v.pending.skip(n as int));
        assert(w.delivered + w.pending.take(n - 1) =~= v.delivered + v.pending.take(n as int));
    }
}

proof fn lemma_pulls_after_end(v: StreamView, k: nat)
    requires
        v.pending.len() == 0,
        !v.open,
    ensures
        pulls(v, k) == Seq::new(k, |i: int| Pull::Ended),
        pulled(v, k) == v,
    decreases k,
{
    if k > 0 {
        lemma_pulls_after_end(v, (k - 1) as nat);
        assert(pulls(v, k) =~= Seq::new(k, |i: int| Pull::Ended));
    }
}

/// No loss under burst: when a producer fires N times on an open, empty stream
/// before the consumer first pulls, the stream holds all N envelopes, and the
/// next N pulls yield exactly those envelopes, in firing order.
pub proof fn lemma_burst_is_delivered_in_order(v: StreamView, burst: Seq<Envelope>)
    requires
        v.coherent(),
        v.open,
        v.pending.len() == 0,
        burst.len() <= CHANNEL_LIMIT,
        forall|i: int| 0 <= i < burst.len() ==> produces(v.source, #[trigger] burst[i]),
    ensures
        push_all(v, burst).pending == burst,
        push_all(v, burst).accepted == v.accepted + burst,
        pulls(push_all(v, burst), burst.len()) == items(burst),
        pulled(push_all(v, burst), burst.len()).delivered == v.delivered + burst,
{
    lemma_push_all_appends(v, burst);
    let w = push_all(v, burst);
    assert(v.pending + burst =~= burst);
    assert(w.pending.take(burst.len() as int) =~= burst);
    assert(v.accepted =~= v.delivered);
    assert(w.accepted =~= v.accepted + burst);
    lemma_pulls_take_front(w, burst.len());
}

/// Teardown is idempotent: a second teardown changes nothing, a torn-down
/// stream accepts nothing more, and its pulls yield each envelope that was
/// still buffered exactly once, in order, then only the end; nothing
/// delivered before the teardown is delivered again.
pub proof fn lemma_teardown_is_idempotent(v: StreamView, e: Envelope, k: nat)
    requires
        v.coherent(),
    ensures
        v.after_close().after_close() == v.after_close(),
        v.after_close().after_push(e) == v.after_close(),
        v.after_close().push_result(e) is Err,
        pulls(v.after_close(), v.pending.len() + k) == items(v.pending) + Seq::new(
            k,
            |i: int| Pull::Ended,
        ),
        pulled(v.after_close(), v.pending.len() + k).delivered == v.delivered + v.pending,
{
    let c = v.after_close();
    lemma_pulls_take_front(c, v.pending.len());
    assert(v.pending.take(v.pending.len() as int) =~= v.pending);
    let d = pulled(c, v.pending.len());
    assert(d.pending =~= Seq::<Envelope>::empty());
    lemma_pulls_after_end(d, k);
    lemma_pulls_split(c, v.pending.len(), k);
}

proof fn lemma_pulls_split(v: StreamView, n: nat, k: nat)
    ensures
        pulls(v, n + k) == pulls(v, n) + pulls(pulled(v, n), k),
        pulled(v, n + k) == pulled(pulled(v, n), k),
    decreases n,
{
    if n == 0 {
        assert(pulls(v, 0) + pulls(v, k) =~= pulls(v, k));
    } else {
        lemma_pulls_split(v.after_pull(), (n - 1) as nat, k);
        assert((n + k - 1) as nat == (n - 1) as nat + k);
        assert(pulls(v, n + k) =~= pulls(v, n) + pulls(pulled(v, n), k));
    }
}

} // verus!
