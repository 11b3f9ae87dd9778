//! The asynchronous delivery channel: a bounded queue that decouples
//! the threads that emit log records (producers) from the single
//! background thread that writes them to the sink (the consumer).
//!
//! The queue here is the state of that channel; the shell around the
//! crate shares one value of it between the producers and the consumer
//! and calls [`AsyncChannel::enqueue`] and [`AsyncChannel::dequeue`]
//! under its lock.  The overflow policy is decided entirely in
//! [`AsyncChannel::enqueue`]: under `Drop` and `DropAndReport` a full
//! queue never makes a producer wait.

use vstd::prelude::*;
use vstd::string::StringExecFns;

use crate::strutil::{spec_dec_digits, u64_to_dec_string};
use crate::types::{LogRecord, OverflowStrategy, Severity};

verus! {

/// What became of a record handed to [`AsyncChannel::enqueue`].
#[derive(Debug, Clone, Copy, PartialEq, Eq, Structural)]
pub enum EnqueueOutcome {
    /// The record was placed at the back of the queue.
    Enqueued,

    /// The queue was full and the record was discarded.
    Dropped,

    /// The queue was full and the policy is `Block`: the caller must
    /// wait for room and try again.
    WouldBlock,
}

/// The queue contents after one enqueue: the record goes to the back
/// when there is room, and nothing changes when there is not.
pub open spec fn spec_queue_after_enqueue(
    q: Seq<LogRecord>,
    capacity: int,
    rec: LogRecord,
) -> Seq<LogRecord> {
    if q.len() < capacity {
        q.push(rec)
    } else {
        q
    }
}

/// The queue contents after a whole sequence of enqueues.
pub open spec fn spec_queue_after_enqueues(
    q: Seq<LogRecord>,
    capacity: int,
    recs: Seq<LogRecord>,
) -> Seq<LogRecord>
    decreases recs.len(),
{
    if recs.len() == 0 {
        q
    } else {
        spec_queue_after_enqueues(
            spec_queue_after_enqueue(q, capacity, recs[0]),
            capacity,
            recs.skip(1),
        )
    }
}

/// However many records are enqueued without the consumer draining,
/// the queue never holds more than `capacity` of them.
pub proof fn lemma_capacity_never_exceeded(
    q: Seq<LogRecord>,
    capacity: int,
    recs: Seq<LogRecord>,
)
    requires
        q.len() <= capacity,
    ensures
        spec_queue_after_enqueues(q, capacity, recs).len() <= capacity,
    decreases recs.len(),
{
    if recs.len() > 0 {
        lemma_capacity_never_exceeded(
            spec_queue_after_enqueue(q, capacity, recs[0]),
            capacity,
            recs.skip(1),
        );
    }
}

/// A bounded multi-producer, single-consumer queue of pending log
/// records with a fixed capacity and an overflow policy.
#[derive(Debug)]
pub struct AsyncChannel {
    queue: Vec<LogRecord>,
    capacity: usize,
    strategy: OverflowStrategy,
    dropped: u64,
}

impl AsyncChannel {
    /// The records waiting in the queue, oldest first.
    pub closed spec fn spec_queue(&self) -> Seq<LogRecord> {
        self.queue@
    }

    /// The fixed capacity set at construction.
    pub closed spec fn spec_capacity(&self) -> int {
        self.capacity as int
    }

    /// The overflow policy set at construction.
    pub closed spec fn spec_strategy(&self) -> OverflowStrategy {
        self.strategy
    }

    /// How many records have been discarded since the count was last
    /// taken for a report.
    pub closed spec fn spec_dropped(&self) -> int {
        self.dropped as int
    }

    /// The channel invariant: never more than `capacity` records are
    /// buffered.
    pub open spec fn wf(&self) -> bool {
        self.spec_queue().len() <= self.spec_capacity()
    }

    /// Makes an empty channel with the given capacity and policy.
    pub fn new(capacity: usize, strategy: OverflowStrategy) -> (r: AsyncChannel)
        ensures
            r.wf(),
            r.spec_queue() == Seq::<LogRecord>::empty(),
            r.spec_capacity() == capacity as int,
            r.spec_strategy() == strategy,
            r.spec_dropped() == 0,
    {
        AsyncChannel { queue: Vec::new(), capacity, strategy, dropped: 0 }
    }

    /// How many records are waiting.
    pub fn len(&self) -> (r: usize)
        ensures
            r as int == self.spec_queue().len(),
    {
        self.queue.len()
    }

    /// Offers a record to the queue and decides its fate by the
    /// overflow policy.  Under `Drop` and `DropAndReport` the caller
    /// never has to wait: a record offered to a full queue is
    /// discarded (and counted under `DropAndReport`).  Only under
    /// `Block` does a full queue ask the caller to wait and try again.
    pub fn enqueue(&mut self, rec: LogRecord) -> (outcome: EnqueueOutcome)
        requires
            old(self).wf(),
        ensures
            final(self).wf(),
            final(self).spec_capacity() == old(self).spec_capacity(),
            final(self).spec_strategy() == old(self).spec_strategy(),
            final(self).spec_queue() == spec_queue_after_enqueue(
                old(self).spec_queue(),
                old(self).spec_capacity(),
                rec,
            ),
            outcome == EnqueueOutcome::Enqueued <==> old(self).spec_queue().len() < old(self).spec_capacity(),
            old(self).spec_strategy() != OverflowStrategy::Block ==> outcome
                != EnqueueOutcome::WouldBlock,
            outcome == EnqueueOutcome::WouldBlock ==> *final(self) == *old(self),
            outcome == EnqueueOutcome::Enqueued ==> final(self).spec_dropped() == old(self).spec_dropped(),
            outcome == EnqueueOutcome::Dropped ==> {
                &&& old(self).spec_strategy() != OverflowStrategy::Block
                &&& final(self).spec_dropped() == if old(self).spec_strategy()
                    == OverflowStrategy::DropAndReport && old(self).spec_dropped() < u64::MAX {
                    old(self).spec_dropped() + 1
                } else {
                    old(self).spec_dropped()
                }
            },
    {
        if self.queue.len() < self.capacity {
            self.queue.push(rec);
            EnqueueOutcome::Enqueued
        } else {
            match self.strategy {
                OverflowStrategy::Drop => EnqueueOutcome::Dropped,
                OverflowStrategy::DropAndReport => {
                    if self.dropped < u64::MAX {
                        self.dropped = self.dropped + 1;
                    }
                    EnqueueOutcome::Dropped
                },
                OverflowStrategy::Block => EnqueueOutcome::WouldBlock,
            }
        }
    }

    /// Takes the oldest waiting record, if any.  Records leave in the
    /// order they were enqueued.
    pub fn dequeue(&mut self) -> (r: Option<LogRecord>)
        requires
            old(self).wf(),
        ensures
            final(self).wf(),
            final(self).spec_capacity() == old(self).spec_capacity(),
            final(self).spec_strategy() == old(self).spec_strategy(),
            final(self).spec_dropped() == old(self).spec_dropped(),
            old(self).spec_queue().len() == 0 ==> {
                &&& r is None
                &&& final(self).spec_queue() == old(self).spec_queue()
            },
            old(self).spec_queue().len() > 0 ==> {
                &&& r == Some(old(self).spec_queue()[0])
                &&& final(self).spec_queue() == old(self).spec_queue().skip(1)
            },
    {
        if self.queue.len() == 0 {
            None
        } else {
            let rec = self.queue.remove(0);
            proof {
                assert(self.queue@ =~= old(self).spec_queue().skip(1));
            }
            Some(rec)
        }
    }

    /// Takes and resets the count of records discarded since the last
    /// report, so that the consumer can emit a report about them.
    pub fn take_dropped(&mut self) -> (r: u64)
        ensures
            r as int == old(self).spec_dropped(),
            final(self).spec_dropped() == 0,
            final(self).spec_queue() == old(self).spec_queue(),
            final(self).spec_capacity() == old(self).spec_capacity(),
            final(self).spec_strategy() == old(self).spec_strategy(),
    {
        let n = self.dropped;
        self.dropped = 0;
        n
    }
}

/// The message of the synthetic record that reports `n` discarded
/// records.
pub open spec fn spec_overflow_report_message(n: nat) -> Seq<char> {
    "dropped "@ + spec_dec_digits(n) + " records because the channel was full"@
}

/// Makes the synthetic record that reports `n` discarded records; the
/// consumer emits it to the sink when it finds the count non-zero.
pub fn make_overflow_report(n: u64) -> (r: LogRecord)
    ensures
        r.severity == Severity::Error,
        r.message@ == spec_overflow_report_message(n as nat),
        r.kvs@.len() == 0,
{
    let mut message = String::new();
    message.append("dropped ");
    let count = u64_to_dec_string(n);
    message.append(count.as_str());
    message.append(" records because the channel was full");
    LogRecord {
        severity: Severity::Error,
        message,
        kvs: Vec::new(),
        module: String::new(),
        file: String::new(),
        line: 0,
    }
}

} // verus!
