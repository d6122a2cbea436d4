//! The inotify backend's decisions: what it declares, and how a batch of native records
//! becomes buffered events.

use vstd::prelude::*;
use crate::buffer::{
    ends, lemma_close_drains_then_ends, lemma_overflow_drains_then_fails_once, run, step, yields,
    Buffer, BufferState, Pull, StreamError,
};
use crate::capability::Capability;
use crate::native::{
    has, translate, translated, NativeEvent, BACKEND_NAME, IN_IGNORED, IN_Q_OVERFLOW,
};

verus! {

/// The number of bytes read from the kernel per cycle on a 64-bit platform: room for about
/// two hundred records of 24 bytes.
pub const BUFFER_SIZE: usize = 4800;

/// The number of bytes read from the kernel per cycle on a 32-bit platform: room for about
/// two hundred records of 20 bytes.
pub const BUFFER_SIZE_32: usize = 4000;

/// Whether a record stops the translation of its batch.
pub open spec fn is_stop(rec: NativeEvent) -> bool {
    has(rec.mask, IN_Q_OVERFLOW) || has(rec.mask, IN_IGNORED)
}

/// The index of the first stopping record at or after `i`, or the length if there is none.
pub open spec fn stop_from(recs: Seq<NativeEvent>, i: int) -> int
    decreases recs.len() - i,
{
    if i < 0 || i >= recs.len() {
        recs.len() as int
    } else if is_stop(recs[i]) {
        i
    } else {
        stop_from(recs, i + 1)
    }
}

proof fn lemma_stop_from_bounds(recs: Seq<NativeEvent>, i: int)
    requires
        0 <= i <= recs.len(),
    ensures
        i <= stop_from(recs, i) <= recs.len(),
    decreases recs.len() - i,
{
    if i < recs.len() && !is_stop(recs[i]) {
        lemma_stop_from_bounds(recs, i + 1);
    }
}

/// The index of the first record that stops the batch, or the batch's length.
pub open spec fn first_stop(recs: Seq<NativeEvent>) -> int {
    stop_from(recs, 0)
}

/// Whether a buffer went from `pre` to `post` by taking in the batch `recs`: the records
/// before the first stopping one are translated and appended in order; an overflow closes
/// the buffer with the overflow pending, a removed watch closes it cleanly, and the
/// records after either are dropped.
pub open spec fn ingested(pre: BufferState, recs: Seq<NativeEvent>, post: BufferState) -> bool {
    let k = first_stop(recs);
    &&& post.items.len() == pre.items.len() + k
    &&& forall|i: int| 0 <= i < pre.items.len() ==> post.items[i] == pre.items[i]
    &&& forall|i: int|
        0 <= i < k ==> translated(recs[i], #[trigger] post.items[pre.items.len() + i])
    &&& k < recs.len() ==> post.closed && post.overflowed == has(recs[k].mask, IN_Q_OVERFLOW)
    &&& k == recs.len() ==> post.closed == pre.closed && post.overflowed == pre.overflowed
}

/// The capabilities that the inotify backend declares.
pub open spec fn declared_capabilities() -> Seq<Capability> {
    seq![
        Capability::EmitOnAccess,
        Capability::FollowSymlinks,
        Capability::TrackRelated,
        Capability::WatchFiles,
        Capability::WatchFolders,
    ]
}

/// The state of an inotify backend: the events translated and not yet delivered.
///
/// The native session and the readiness driver stay with the caller, which reads the
/// records and hands them over.
pub struct Backend {
    buffer: Buffer,
}

impl View for Backend {
    type V = BufferState;

    closed spec fn view(&self) -> BufferState {
        self.buffer@
    }
}

impl Backend {
    /// The buffer's invariant holds.
    pub open spec fn wf(&self) -> bool {
        self@.overflowed ==> self@.closed
    }

    /// A fresh backend state: nothing buffered, the stream open.
    pub fn new() -> (r: Backend)
        ensures
            r.wf(),
            r@.items.len() == 0,
            !r@.closed,
            !r@.overflowed,
    {
        Backend { buffer: Buffer::new() }
    }

    /// The name of this backend, also the source of its events.
    pub fn name() -> (r: &'static str)
        ensures
            r@ == BACKEND_NAME@,
    {
        BACKEND_NAME
    }

    /// What inotify can natively do: emit access events, follow symlinks, relate events,
    /// and watch files and folders, the latter not recursively.
    pub fn capabilities() -> (r: Vec<Capability>)
        ensures
            r@ == declared_capabilities(),
    {
        let r = vec![
            Capability::EmitOnAccess,
            Capability::FollowSymlinks,
            Capability::TrackRelated,
            Capability::WatchFiles,
            Capability::WatchFolders,
        ];
        proof {
            assert(r@ =~= declared_capabilities());
        }
        r
    }

    /// Whether the stream is draining or over, so that no more records are to be read.
    pub fn is_closed(&self) -> (r: bool)
        ensures
            r == self@.closed,
    {
        self.buffer.closed()
    }

    /// Translates a batch of native records into the buffer, in order.
    ///
    /// An overflow record closes the buffer, with the overflow reported after the events
    /// buffered before it, and fails the cycle. A removed watch closes the buffer cleanly.
    /// Either way the rest of the batch is dropped.
    pub fn process_events(&mut self, events: Vec<NativeEvent>) -> (r: Result<(), StreamError>)
        requires
            old(self).wf(),
            !old(self)@.closed,
        ensures
            final(self).wf(),
            ingested(old(self)@, events@, final(self)@),
            r is Err <==> first_stop(events@) < events@.len() && has(
                events@[first_stop(events@)].mask,
                IN_Q_OVERFLOW,
            ),
            r is Err ==> r == Err::<(), StreamError>(StreamError::UpstreamOverflow),
    {
        let ghost pre = self@;
        let n = events.len();
        let mut i: usize = 0;
        let mut rest = events;
        proof {
            assert(stop_from(events@, 0) == first_stop(events@));
        }
        while i < n
            invariant
                self.wf(),
                pre == old(self)@,
                0 <= i <= n,
                n == events@.len(),
                forall|j: int| 0 <= j < i ==> !is_stop(#[trigger] events@[j]),
                !self@.closed,
                self@.overflowed == pre.overflowed,
                rest@ == events@.subrange(i as int, n as int),
                stop_from(events@, i as int) == first_stop(events@),
                self@.items.len() == pre.items.len() + i,
                forall|j: int| 0 <= j < pre.items.len() ==> self@.items[j] == pre.items[j],
                forall|j: int|
                    0 <= j < i ==> translated(events@[j], #[trigger] self@.items[pre.items.len() + j]),
            decreases n - i,
        {
            let e = rest.remove(0);
            proof {
                assert(e == events@[i as int]);
                assert(rest@ =~= events@.subrange(i + 1, n as int));
            }
            proof {
                assert(stop_from(events@, i as int) == if is_stop(e) {
                    i as int
                } else {
                    stop_from(events@, i + 1)
                });
            }
            if e.mask & IN_Q_OVERFLOW == IN_Q_OVERFLOW {
                self.buffer.close_overflowed();
                return Err(StreamError::UpstreamOverflow);
            }
            if e.mask & IN_IGNORED == IN_IGNORED {
                self.buffer.close();
                return Ok(());
            }
            let ev = translate(e);
            self.buffer.push(ev);
            i = i + 1;
        }
        proof {
            assert(stop_from(events@, n as int) == n);
        }
        Ok(())
    }

    /// One pull of the stream.
    ///
    /// While the stream is open, `events` is the batch just read from the kernel: it is taken
    /// in, then the next item is pulled. Once the stream is closed nothing more is read, the
    /// batch is ignored, and the pull only drains what is buffered.
    ///
    /// An overflow in the batch is not returned here: it is delivered by a later pull, once
    /// the events buffered before it have been.
    pub fn poll(&mut self, events: Vec<NativeEvent>) -> (r: Result<Pull, StreamError>)
        requires
            old(self).wf(),
        ensures
            final(self).wf(),
            old(self)@.closed ==> (final(self)@, r) == step(old(self)@),
            !old(self)@.closed ==> exists|mid: BufferState|
                ingested(old(self)@, events@, mid) && (final(self)@, r) == #[trigger] step(mid),
    {
        if self.buffer.closed() {
            return self.buffer.poll();
        }
        let _ = self.process_events(events);
        let ghost mid = self@;
        let r = self.buffer.poll();
        proof {
            assert((self@, r) == step(mid));
        }
        r
    }

    /// Ends the stream cleanly, as a removed watch does: what is buffered is still delivered.
    pub fn close(&mut self)
        requires
            old(self).wf(),
        ensures
            final(self).wf(),
            final(self)@.items == old(self)@.items,
            final(self)@.closed,
            final(self)@.overflowed == old(self)@.overflowed,
    {
        self.buffer.close();
    }

    /// Pulls the next buffered item, as a buffer pull does.
    pub fn poll_buffered(&mut self) -> (r: Result<Pull, StreamError>)
        requires
            old(self).wf(),
        ensures
            final(self).wf(),
            (final(self)@, r) == step(old(self)@),
    {
        self.buffer.poll()
    }
}

/// A batch that meets an overflow record leaves the stream delivering every event buffered
/// before it, those already waiting first, then exactly one overflow failure, then the end
/// of the stream on every later pull.
///
/// `post` is the state in which `Backend::poll` takes in the batch; that pull and every
/// later one each take one `step`, so together they yield `run(post, _)`.
pub proof fn lemma_overflow_batch(pre: BufferState, recs: Seq<NativeEvent>, post: BufferState, m: nat)
    requires
        !pre.closed,
        ingested(pre, recs, post),
        first_stop(recs) < recs.len(),
        has(recs[first_stop(recs)].mask, IN_Q_OVERFLOW),
    ensures
        post.items.subrange(0, pre.items.len() as int) == pre.items,
        run(post, post.items.len() + 1 + m) == yields(post.items) + seq![
            Err::<Pull, StreamError>(StreamError::UpstreamOverflow),
        ] + ends(m),
{
    lemma_stop_from_bounds(recs, 0);
    assert(post.items.subrange(0, pre.items.len() as int) =~= pre.items);
    lemma_overflow_drains_then_fails_once(post, m);
}

/// A batch that meets a removed watch, with no overflow, leaves the stream delivering every
/// event buffered before it, then the end of the stream on every later pull, and never a
/// failure.
///
/// As for an overflow, the pull that takes in the batch and every later one yield
/// `run(post, _)`.
pub proof fn lemma_ignored_batch(pre: BufferState, recs: Seq<NativeEvent>, post: BufferState, m: nat)
    requires
        !pre.closed,
        !pre.overflowed,
        ingested(pre, recs, post),
        first_stop(recs) < recs.len(),
        !(has(recs[first_stop(recs)].mask, IN_Q_OVERFLOW)),
    ensures
        post.items.subrange(0, pre.items.len() as int) == pre.items,
        run(post, post.items.len() + m) == yields(post.items) + ends(m),
        forall|i: int| 0 <= i < post.items.len() + m ==> #[trigger] run(post, post.items.len() + m)[i] is Ok,
{
    lemma_stop_from_bounds(recs, 0);
    assert(post.items.subrange(0, pre.items.len() as int) =~= pre.items);
    lemma_close_drains_then_ends(post, m);
}

/// An event made by this backend carries a relation ID only because the backend declares
/// that it tracks related events.
pub proof fn lemma_relid_needs_track_related(rec: NativeEvent, e: crate::event::Event)
    requires
        translated(rec, e),
        e.relid is Some,
    ensures
        declared_capabilities().contains(Capability::TrackRelated),
{
    assert(declared_capabilities()[2] == Capability::TrackRelated);
}

} // verus!
