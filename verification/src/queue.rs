//! The prefetch queue: a bounded FIFO of ready tracks.
//!
//! This is the sole backpressure mechanism between the fetch workers and
//! the control loop: a full queue refuses further completions (the worker
//! suspends and retries), so playback is never more than `capacity` tracks
//! ahead of consumption. Strict FIFO: insertion order is playback order.

use vstd::prelude::*;

use crate::track::ReadyTrack;

verus! {

/// Bounded FIFO of ready tracks.
pub struct PrefetchQueue {
    items: Vec<ReadyTrack>,
    capacity: usize,
}

impl PrefetchQueue {
    /// The queued tracks, front (next to play) first.
    pub closed spec fn contents(&self) -> Seq<ReadyTrack> {
        self.items@
    }

    /// The configured bound on the queue's length.
    pub closed spec fn cap(&self) -> int {
        self.capacity as int
    }

    /// The queue's invariant: the bound is positive and always respected.
    pub open spec fn wf(&self) -> bool {
        &&& self.cap() >= 1
        &&& self.contents().len() <= self.cap()
    }

    /// An empty queue with the given capacity.
    pub fn new(capacity: usize) -> (q: PrefetchQueue)
        requires
            capacity >= 1,
        ensures
            q.wf(),
            q.contents() == Seq::<ReadyTrack>::empty(),
            q.cap() == capacity,
    {
        PrefetchQueue { items: Vec::new(), capacity }
    }

    /// Non-blocking snapshot of the queue's length.
    pub fn len(&self) -> (n: usize)
        ensures
            n == self.contents().len(),
    {
        self.items.len()
    }

    /// The configured capacity.
    pub fn capacity(&self) -> (n: usize)
        ensures
            n == self.cap(),
    {
        self.capacity
    }

    /// Whether the queue is full; a worker holding a ready track suspends
    /// while this is true.
    pub fn is_full(&self) -> (b: bool)
        ensures
            b <==> self.contents().len() == self.cap(),
    {
        self.items.len() == self.capacity
    }

    /// Enqueue a ready track at the back, unless the queue is full. The
    /// caller suspends and retries on `false`: the track is handed back
    /// untouched in that case.
    pub fn try_push(&mut self, track: ReadyTrack) -> (r: Option<ReadyTrack>)
        requires
            old(self).wf(),
        ensures
            final(self).wf(),
            final(self).cap() == old(self).cap(),
            old(self).contents().len() < old(self).cap() ==> {
                &&& r is None
                &&& final(self).contents() == old(self).contents().push(track)
            },
            old(self).contents().len() == old(self).cap() ==> {
                &&& r == Some(track)
                &&& final(self).contents() == old(self).contents()
            },
    {
        if self.items.len() < self.capacity {
            self.items.push(track);
            None
        } else {
            Some(track)
        }
    }

    /// Dequeue the track at the front, in strict insertion order. The
    /// control loop suspends while the queue is empty.
    pub fn pop_front(&mut self) -> (r: Option<ReadyTrack>)
        requires
            old(self).wf(),
        ensures
            final(self).wf(),
            final(self).cap() == old(self).cap(),
            old(self).contents().len() == 0 ==> {
                &&& r is None
                &&& final(self).contents() == old(self).contents()
            },
            old(self).contents().len() > 0 ==> {
                &&& r == Some(old(self).contents()[0])
                &&& final(self).contents() == old(self).contents().drop_first()
            },
    {
        if self.items.len() > 0 {
            Some(self.items.remove(0))
        } else {
            None
        }
    }
}

/// One operation on the queue, for reasoning about whole histories.
pub enum QueueOp {
    /// A completed fetch offering a track (`try_push`).
    Push,
    /// The control loop taking the next track (`pop_front`).
    Pop,
}

/// The queue length after one operation, as the contracts of `try_push`
/// and `pop_front` fix it: a push on a full queue and a pop on an empty
/// one leave the length unchanged.
pub open spec fn len_after_op(len: int, cap: int, op: QueueOp) -> int {
    match op {
        QueueOp::Push => if len < cap {
            len + 1
        } else {
            len
        },
        QueueOp::Pop => if len > 0 {
            len - 1
        } else {
            len
        },
    }
}

/// The queue length after a whole history of operations.
pub open spec fn len_after_ops(len: int, cap: int, ops: Seq<QueueOp>) -> int
    decreases ops.len(),
{
    if ops.len() == 0 {
        len
    } else {
        len_after_ops(len_after_op(len, cap, ops[0]), cap, ops.drop_first())
    }
}

/// Backpressure: for every sequence of pushes and pops, the queue's
/// length never exceeds its capacity (and never goes negative).
pub proof fn lemma_backpressure(len: int, cap: int, ops: Seq<QueueOp>)
    requires
        0 <= len <= cap,
    ensures
        0 <= len_after_ops(len, cap, ops) <= cap,
    decreases ops.len(),
{
    if ops.len() > 0 {
        lemma_backpressure(len_after_op(len, cap, ops[0]), cap, ops.drop_first());
    }
}

/// The track a run of `pop_front` calls yields at step `k`, starting from
/// contents `s`: each step hands out the front and drops it, as the
/// contract of `pop_front` fixes.
pub open spec fn nth_popped(s: Seq<ReadyTrack>, k: int) -> ReadyTrack
    decreases k,
{
    if k <= 0 {
        s[0]
    } else {
        nth_popped(s.drop_first(), k - 1)
    }
}

/// FIFO: the `k`-th track to leave the queue is the `k`-th track that was
/// enqueued — dequeue order is exactly insertion order. Installation
/// (`PlayerState::install_next`) takes each dequeued front as the new
/// now-playing track, so tracks are installed in the order their ready
/// units were enqueued.
pub proof fn lemma_fifo(s: Seq<ReadyTrack>, k: int)
    requires
        0 <= k < s.len(),
    ensures
        nth_popped(s, k) == s[k],
    decreases k,
{
    if k > 0 {
        lemma_fifo(s.drop_first(), k - 1);
    }
}

} // verus!
