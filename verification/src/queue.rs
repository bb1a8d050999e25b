//! The bounded delivery queue between producers and the dispatcher.
//!
//! Enqueueing an entry never blocks: when the queue is full the entry is
//! dropped and counted, protecting producers at the cost of completeness.
//! Flush markers ride the same queue, so everything enqueued before a marker
//! is dispatched before the marker is acknowledged.

use vstd::prelude::*;
use crate::entry::LogEntry;

verus! {

/// Saturating increment for metric counters.
pub open spec fn spec_bump(c: u64) -> u64 {
    if c < u64::MAX {
        (c + 1) as u64
    } else {
        c
    }
}

/// Saturating add, as an unbounded-integer function.
pub open spec fn sat_add(c: int, n: int) -> int {
    if c + n <= u64::MAX {
        c + n
    } else {
        u64::MAX as int
    }
}

/// Increments a counter, staying put at the top of the range.
pub fn bump(c: u64) -> (r: u64)
    ensures
        r == spec_bump(c),
{
    if c < u64::MAX {
        c + 1
    } else {
        c
    }
}

/// Adds to a counter, saturating at the top of the range.
pub fn bump_by(c: u64, n: u64) -> (r: u64)
    ensures
        r as int == sat_add(c as int, n as int),
{
    if n <= u64::MAX - c {
        c + n
    } else {
        u64::MAX
    }
}

/// A delivery-queue message: one entry, or a flush marker carrying the
/// rendezvous token its issuer waits on.
pub enum LoggerServiceEvent {
    LogEntry(LogEntry),
    Flush(u64),
}

/// The bounded multi-producer delivery queue, modeled by its contents.
pub struct LogQueue {
    pub capacity: usize,
    pub events: Vec<LoggerServiceEvent>,
    pub dropped: u64,
}

impl LogQueue {
    pub fn new(capacity: usize) -> (r: LogQueue)
        ensures
            r.capacity == capacity,
            r.events@.len() == 0,
            r.dropped == 0,
    {
        LogQueue { capacity, events: Vec::new(), dropped: 0 }
    }

    /// Non-blocking enqueue: appends when there is room, else drops the
    /// entry and counts the drop. Never waits, never retries.
    pub fn try_send(&mut self, entry: LogEntry) -> (r: bool)
        ensures
            final(self).capacity == old(self).capacity,
            r == (old(self).events@.len() < old(self).capacity),
            r ==> final(self).events@ == old(self).events@.push(
                LoggerServiceEvent::LogEntry(entry),
            ) && final(self).dropped == old(self).dropped,
            !r ==> final(self).events@ == old(self).events@ && final(self).dropped == spec_bump(
                old(self).dropped,
            ),
    {
        if self.events.len() < self.capacity {
            self.events.push(LoggerServiceEvent::LogEntry(entry));
            true
        } else {
            self.dropped = bump(self.dropped);
            false
        }
    }

    /// Appends a flush marker. Markers are how a blocking flush lines up
    /// behind the entries already enqueued; they are not subject to the
    /// capacity bound because their issuer is prepared to wait.
    pub fn push_flush(&mut self, token: u64)
        ensures
            final(self).capacity == old(self).capacity,
            final(self).dropped == old(self).dropped,
            final(self).events@ == old(self).events@.push(LoggerServiceEvent::Flush(token)),
    {
        self.events.push(LoggerServiceEvent::Flush(token));
    }

    /// Takes the oldest message, if any.
    pub fn pop_front(&mut self) -> (r: Option<LoggerServiceEvent>)
        ensures
            final(self).capacity == old(self).capacity,
            final(self).dropped == old(self).dropped,
            old(self).events@.len() == 0 ==> r is None && final(self).events@ == old(self).events@,
            old(self).events@.len() > 0 ==> r is Some && r->0 == old(self).events@[0]
                && final(self).events@ == old(self).events@.skip(1),
    {
        if self.events.len() > 0 {
            let ev = self.events.remove(0);
            proof {
                assert(self.events@ =~= old(self).events@.skip(1));
            }
            Some(ev)
        } else {
            None
        }
    }

    pub fn len(&self) -> (r: usize)
        ensures
            r == self.events@.len(),
    {
        self.events.len()
    }

    pub fn dropped_count(&self) -> (r: u64)
        ensures
            r == self.dropped,
    {
        self.dropped
    }
}

/// The queue's length and drop count after `n` further enqueues with no
/// draining, starting from length `len`: exactly one step of `try_send`'s
/// contract per enqueue.
pub open spec fn enqueue_n(len: int, cap: int, dropped: int, n: int) -> (int, int)
    decreases n,
{
    if n <= 0 {
        (len, dropped)
    } else {
        let p = enqueue_n(len, cap, dropped, n - 1);
        if p.0 < cap {
            (p.0 + 1, p.1)
        } else {
            (p.0, p.1 + 1)
        }
    }
}

/// Backpressure bound: `n` rapid enqueues with no draining fill the queue
/// to its capacity and drop exactly the excess — starting empty, capacity
/// `C` and `C + k` enqueues drop exactly `k` and raise the drop counter by
/// exactly `k`. (The exec counter saturates at the top of its range; the
/// statement is about the counts themselves.)
pub proof fn lemma_backpressure(len: int, cap: int, dropped: int, n: int)
    requires
        0 <= len <= cap,
        0 <= n,
    ensures
        enqueue_n(len, cap, dropped, n).0 == if len + n <= cap {
            len + n
        } else {
            cap
        },
        enqueue_n(len, cap, dropped, n).1 == dropped + if len + n <= cap {
            0int
        } else {
            len + n - cap
        },
    decreases n,
{
    if n > 0 {
        lemma_backpressure(len, cap, dropped, n - 1);
    }
}

} // verus!
