//! An ordered event buffer with terminal close, which drains before it ends.

use std::collections::VecDeque;
use vstd::prelude::*;
use crate::event::Event;

verus! {

/// A failure of the event stream itself.
#[derive(Clone, Copy, Debug, PartialEq, Eq, Structural, Hash)]
pub enum StreamError {
    /// The native event queue overflowed; events were lost.
    UpstreamOverflow,
}

/// What one pull of the event stream yields, when it does not fail.
#[derive(Clone, Debug)]
pub enum Pull {
    /// No event is available now; wait on the driver before pulling again.
    Pending,
    /// The next event.
    Item(Event),
    /// The stream has ended, and will yield nothing more.
    End,
}

/// The abstract state of a buffer.
pub struct BufferState {
    /// The events waiting to be delivered, oldest first.
    pub items: Seq<Event>,
    /// Whether the buffer has been closed; closing is terminal.
    pub closed: bool,
    /// Whether an overflow is still to be reported once the items are delivered.
    pub overflowed: bool,
}

/// What one pull does to a buffer in state `s`: the next state and what it yields.
///
/// Waiting events come first, in order; then a pending overflow, once; then the end of
/// the stream, for ever, if the buffer is closed.
pub open spec fn step(s: BufferState) -> (BufferState, Result<Pull, StreamError>) {
    if s.items.len() > 0 {
        (
            BufferState { items: s.items.drop_first(), closed: s.closed, overflowed: s.overflowed },
            Ok(Pull::Item(s.items[0])),
        )
    } else if s.overflowed {
        (
            BufferState { items: s.items, closed: s.closed, overflowed: false },
            Err(StreamError::UpstreamOverflow),
        )
    } else if s.closed {
        (s, Ok(Pull::End))
    } else {
        (s, Ok(Pull::Pending))
    }
}

/// What `n` successive pulls from state `s` yield, in order.
pub open spec fn run(s: BufferState, n: nat) -> Seq<Result<Pull, StreamError>>
    decreases n,
{
    if n == 0 {
        Seq::empty()
    } else {
        seq![step(s).1] + run(step(s).0, (n - 1) as nat)
    }
}

/// Each event as a pull that yields it.
pub open spec fn yields(items: Seq<Event>) -> Seq<Result<Pull, StreamError>> {
    items.map_values(|e: Event| Ok(Pull::Item(e)))
}

/// `m` pulls that each report the end of the stream.
pub open spec fn ends(m: nat) -> Seq<Result<Pull, StreamError>> {
    Seq::new(m, |i: int| Ok(Pull::End))
}

/// The state that a buffer reaches once its items are delivered.
pub open spec fn drained(s: BufferState) -> BufferState {
    BufferState { items: Seq::empty(), closed: s.closed, overflowed: s.overflowed }
}

proof fn lemma_run_items(s: BufferState, m: nat)
    ensures
        run(s, s.items.len() + m) == yields(s.items) + run(drained(s), m),
    decreases s.items.len(),
{
    if s.items.len() == 0 {
        assert(yields(s.items) =~= Seq::empty());
        assert(s.items =~= Seq::empty());
        assert(s == drained(s));
        assert(yields(s.items) + run(drained(s), m) =~= run(drained(s), m));
    } else {
        let t = step(s).0;
        assert(t.items.len() + m + 1 == s.items.len() + m);
        lemma_run_items(t, m);
        assert(drained(t) == drained(s));
        assert(yields(s.items) =~= seq![step(s).1] + yields(t.items));
        assert(run(s, s.items.len() + m) == seq![step(s).1] + run(t, t.items.len() + m));
        assert(run(s, s.items.len() + m) =~= yields(s.items) + run(drained(s), m));
    }
}

proof fn lemma_run_ended(s: BufferState, m: nat)
    requires
        s.items.len() == 0,
        s.closed,
        !s.overflowed,
    ensures
        run(s, m) == ends(m),
    decreases m,
{
    if m > 0 {
        lemma_run_ended(s, (m - 1) as nat);
        assert(run(s, m) =~= ends(m));
    } else {
        assert(run(s, m) =~= ends(m));
    }
}

/// Once a buffer is closed after an overflow, pulls yield every waiting event in order,
/// then exactly one overflow failure, then the end of the stream on every later pull.
pub proof fn lemma_overflow_drains_then_fails_once(s: BufferState, m: nat)
    requires
        s.closed,
        s.overflowed,
    ensures
        run(s, s.items.len() + 1 + m) == yields(s.items) + seq![
            Err::<Pull, StreamError>(StreamError::UpstreamOverflow),
        ] + ends(m),
{
    lemma_run_items(s, 1 + m);
    let d = drained(s);
    let e = step(d).0;
    lemma_run_ended(e, m);
    assert(run(d, 1 + m) =~= seq![Err::<Pull, StreamError>(StreamError::UpstreamOverflow)]
        + ends(m));
    assert(run(s, s.items.len() + 1 + m) =~= yields(s.items) + seq![
        Err::<Pull, StreamError>(StreamError::UpstreamOverflow),
    ] + ends(m));
}

/// Once a buffer is closed with no overflow pending, pulls yield every waiting event in
/// order, then the end of the stream on every later pull, and never a failure.
pub proof fn lemma_close_drains_then_ends(s: BufferState, m: nat)
    requires
        s.closed,
        !s.overflowed,
    ensures
        run(s, s.items.len() + m) == yields(s.items) + ends(m),
        forall|i: int| 0 <= i < s.items.len() + m ==> #[trigger] run(s, s.items.len() + m)[i] is Ok,
{
    lemma_run_items(s, m);
    lemma_run_ended(drained(s), m);
}

/// An ordered queue of events with terminal close.
pub struct Buffer {
    queue: VecDeque<Event>,
    closed: bool,
    overflowed: bool,
}

impl View for Buffer {
    type V = BufferState;

    closed spec fn view(&self) -> BufferState {
        BufferState { items: self.queue@, closed: self.closed, overflowed: self.overflowed }
    }
}

impl Buffer {
    /// A pending overflow is only ever recorded on a closed buffer.
    pub open spec fn wf(&self) -> bool {
        self@.overflowed ==> self@.closed
    }

    /// An empty, open buffer.
    pub fn new() -> (r: Buffer)
        ensures
            r.wf(),
            r@.items.len() == 0,
            !r@.closed,
            !r@.overflowed,
    {
        Buffer { queue: VecDeque::new(), closed: false, overflowed: false }
    }

    /// Whether the buffer has been closed.
    pub fn closed(&self) -> (r: bool)
        ensures
            r == self@.closed,
    {
        self.closed
    }

    /// Appends an event to an open buffer.
    pub fn push(&mut self, e: Event)
        requires
            old(self).wf(),
            !old(self)@.closed,
        ensures
            final(self).wf(),
            final(self)@.items == old(self)@.items.push(e),
            final(self)@.closed == old(self)@.closed,
            final(self)@.overflowed == old(self)@.overflowed,
    {
        self.queue.push_back(e);
    }

    /// Closes the buffer; the events it holds are still delivered.
    pub fn close(&mut self)
        requires
            old(self).wf(),
        ensures
            final(self).wf(),
            final(self)@.items == old(self)@.items,
            final(self)@.closed,
            final(self)@.overflowed == old(self)@.overflowed,
    {
        self.closed = true;
    }

    /// Closes the buffer and records an overflow, to be reported after the events it holds.
    pub fn close_overflowed(&mut self)
        ensures
            final(self).wf(),
            final(self)@.items == old(self)@.items,
            final(self)@.closed,
            final(self)@.overflowed,
    {
        self.closed = true;
        self.overflowed = true;
    }

    /// Pulls the next item: a waiting event, else a pending overflow, else the end of the
    /// stream if closed, else nothing yet.
    pub fn poll(&mut self) -> (r: Result<Pull, StreamError>)
        requires
            old(self).wf(),
        ensures
            final(self).wf(),
            (final(self)@, r) == step(old(self)@),
    {
        match self.queue.pop_front() {
            Some(e) => Ok(Pull::Item(e)),
            None => {
                if self.overflowed {
                    self.overflowed = false;
                    Err(StreamError::UpstreamOverflow)
                } else if self.closed {
                    Ok(Pull::End)
                } else {
                    Ok(Pull::Pending)
                }
            },
        }
    }
}

} // verus!
