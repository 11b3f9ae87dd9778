//! The delivery pipeline of one logger: the severity filter in front
//! of the asynchronous channel.
//!
//! Producers call [`Logger::log`]; the consumer thread calls
//! [`Logger::drain_next`] and hands what it gets to the sink.  A record
//! below the severity threshold is dropped before it enters the
//! channel, so the queue only ever holds records at or above the
//! threshold, and the consumer can never deliver anything below it.

use vstd::prelude::*;

use crate::channel::{AsyncChannel, EnqueueOutcome};
use crate::types::{LogRecord, OverflowStrategy, Severity, spec_severity_rank};

verus! {

/// What became of a record handed to [`Logger::log`].
#[derive(Debug, Clone, Copy, PartialEq, Eq, Structural)]
pub enum LogOutcome {
    /// The record is below the severity threshold and was dropped
    /// before entering the channel.
    Filtered,

    /// The record was placed in the channel.
    Enqueued,

    /// The channel was full and the record was discarded.
    Dropped,

    /// The channel was full and the policy is `Block`: the caller must
    /// wait for room and try again.
    WouldBlock,
}

/// A record below the threshold is filtered out before the channel.
pub open spec fn spec_filtered(threshold: Severity, level: Severity) -> bool {
    spec_severity_rank(level) < spec_severity_rank(threshold)
}

/// The delivery pipeline of one logger: a severity threshold in front
/// of a bounded asynchronous channel.
#[derive(Debug)]
pub struct Logger {
    threshold: Severity,
    channel: AsyncChannel,
}

impl Logger {
    /// The severity threshold of this logger.
    pub closed spec fn spec_threshold(&self) -> Severity {
        self.threshold
    }

    /// The channel between the producers and the consumer.
    pub closed spec fn spec_channel(&self) -> AsyncChannel {
        self.channel
    }

    /// The pipeline invariant: the channel invariant holds, and every
    /// queued record is at or above the threshold.
    pub open spec fn wf(&self) -> bool {
        &&& self.spec_channel().wf()
        &&& forall|i: int|
            0 <= i < self.spec_channel().spec_queue().len() ==> !spec_filtered(
                self.spec_threshold(),
                self.spec_channel().spec_queue()[i].severity,
            )
    }

    /// Makes a logger pipeline with the given threshold over an empty
    /// channel of the given capacity and overflow policy.
    pub fn new(threshold: Severity, capacity: usize, strategy: OverflowStrategy) -> (r: Logger)
        ensures
            r.wf(),
            r.spec_threshold() == threshold,
            r.spec_channel().spec_queue() == Seq::<LogRecord>::empty(),
            r.spec_channel().spec_capacity() == capacity as int,
            r.spec_channel().spec_strategy() == strategy,
            r.spec_channel().spec_dropped() == 0,
    {
        Logger { threshold, channel: AsyncChannel::new(capacity, strategy) }
    }

    /// Offers a record to the pipeline.  A record below the threshold
    /// is dropped on the calling thread and the pipeline is left
    /// exactly as it was; a record at or above it is offered to the
    /// channel under the overflow policy.
    pub fn log(&mut self, rec: LogRecord) -> (outcome: LogOutcome)
        requires
            old(self).wf(),
        ensures
            final(self).wf(),
            final(self).spec_threshold() == old(self).spec_threshold(),
            final(self).spec_channel().spec_capacity() == old(self).spec_channel().spec_capacity(),
            final(self).spec_channel().spec_strategy() == old(self).spec_channel().spec_strategy(),
            outcome == LogOutcome::Filtered <==> spec_filtered(
                old(self).spec_threshold(),
                rec.severity,
            ),
            outcome == LogOutcome::Filtered ==> *final(self) == *old(self),
            outcome != LogOutcome::Filtered ==> final(self).spec_channel().spec_queue()
                == crate::channel::spec_queue_after_enqueue(
                old(self).spec_channel().spec_queue(),
                old(self).spec_channel().spec_capacity(),
                rec,
            ),
            old(self).spec_channel().spec_strategy() != OverflowStrategy::Block ==> outcome
                != LogOutcome::WouldBlock,
    {
        if !self.threshold.allows(rec.severity) {
            return LogOutcome::Filtered;
        }
        match self.channel.enqueue(rec) {
            EnqueueOutcome::Enqueued => LogOutcome::Enqueued,
            EnqueueOutcome::Dropped => LogOutcome::Dropped,
            EnqueueOutcome::WouldBlock => LogOutcome::WouldBlock,
        }
    }

    /// Gives the consumer the oldest waiting record.  Whatever comes
    /// out is at or above the threshold: a record below it is never
    /// delivered to the sink.
    pub fn drain_next(&mut self) -> (r: Option<LogRecord>)
        requires
            old(self).wf(),
        ensures
            final(self).wf(),
            final(self).spec_threshold() == old(self).spec_threshold(),
            final(self).spec_channel().spec_capacity() == old(self).spec_channel().spec_capacity(),
            final(self).spec_channel().spec_strategy() == old(self).spec_channel().spec_strategy(),
            old(self).spec_channel().spec_queue().len() == 0 ==> r is None,
            old(self).spec_channel().spec_queue().len() > 0 ==> {
                &&& r == Some(old(self).spec_channel().spec_queue()[0])
                &&& final(self).spec_channel().spec_queue() == old(
                    self,
                ).spec_channel().spec_queue().skip(1)
            },
            r is Some ==> !spec_filtered(old(self).spec_threshold(), r->0.severity),
    {
        self.channel.dequeue()
    }

    /// Takes and resets the count of records discarded on overflow, so
    /// that the consumer can emit a report about them.
    pub fn take_dropped(&mut self) -> (r: u64)
        requires
            old(self).wf(),
        ensures
            final(self).wf(),
            r as int == old(self).spec_channel().spec_dropped(),
            final(self).spec_channel().spec_dropped() == 0,
            final(self).spec_threshold() == old(self).spec_threshold(),
            final(self).spec_channel().spec_queue() == old(self).spec_channel().spec_queue(),
    {
        self.channel.take_dropped()
    }

    /// How many records are waiting in the channel.
    pub fn pending(&self) -> (r: usize)
        ensures
            r as int == self.spec_channel().spec_queue().len(),
    {
        self.channel.len()
    }

    /// The severity threshold of this logger.
    pub fn threshold(&self) -> (r: Severity)
        ensures
            r == self.spec_threshold(),
    {
        self.threshold
    }
}

} // verus!
