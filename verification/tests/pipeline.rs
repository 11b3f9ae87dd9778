//! Tests of the delivery pipeline: the severity filter and the
//! bounded channel with its overflow policies.

use sloggers::channel::{AsyncChannel, EnqueueOutcome, make_overflow_report};
use sloggers::logger::{LogOutcome, Logger};
use sloggers::types::{LogRecord, OverflowStrategy, Severity};

fn record(severity: Severity, message: &str) -> LogRecord {
    LogRecord {
        severity,
        message: message.to_string(),
        kvs: Vec::new(),
        module: "tests".to_string(),
        file: "tests/pipeline.rs".to_string(),
        line: 1,
    }
}

#[test]
fn below_threshold_is_never_delivered() {
    let mut logger = Logger::new(Severity::Info, 8, OverflowStrategy::Drop);
    // Every severity below the threshold is filtered before the
    // channel; the consumer never sees it.
    for s in [Severity::Trace, Severity::Debug] {
        assert_eq!(logger.log(record(s, "quiet")), LogOutcome::Filtered);
    }
    assert_eq!(logger.pending(), 0);
    assert!(logger.drain_next().is_none());
    // A record at or above the threshold goes through.
    assert_eq!(logger.log(record(Severity::Info, "loud")), LogOutcome::Enqueued);
    assert_eq!(logger.log(record(Severity::Critical, "louder")), LogOutcome::Enqueued);
    let first = logger.drain_next().expect("a record was enqueued");
    assert_eq!(first.message, "loud");
    let second = logger.drain_next().expect("a record was enqueued");
    assert_eq!(second.message, "louder");
    assert!(logger.drain_next().is_none());
}

#[test]
fn channel_delivers_in_fifo_order() {
    let mut ch = AsyncChannel::new(4, OverflowStrategy::Block);
    for name in ["a", "b", "c"] {
        assert_eq!(ch.enqueue(record(Severity::Info, name)), EnqueueOutcome::Enqueued);
    }
    assert_eq!(ch.dequeue().unwrap().message, "a");
    assert_eq!(ch.dequeue().unwrap().message, "b");
    assert_eq!(ch.dequeue().unwrap().message, "c");
    assert!(ch.dequeue().is_none());
}

#[test]
fn overflow_drop_never_blocks_and_never_grows() {
    let mut ch = AsyncChannel::new(1, OverflowStrategy::Drop);
    // Far more records than capacity, with no consumer draining:
    // nothing blocks, and the queue never holds more than one record.
    for i in 0..200 {
        let outcome = ch.enqueue(record(Severity::Info, "burst"));
        assert_ne!(outcome, EnqueueOutcome::WouldBlock);
        if i == 0 {
            assert_eq!(outcome, EnqueueOutcome::Enqueued);
        } else {
            assert_eq!(outcome, EnqueueOutcome::Dropped);
        }
        assert!(ch.len() <= 1);
    }
    // At most one record was ever in flight to the consumer.
    assert_eq!(ch.len(), 1);
    // Under plain `Drop` nothing is counted for a report.
    assert_eq!(ch.take_dropped(), 0);
}

#[test]
fn overflow_drop_interleaved_producers() {
    // Two producers of a hundred records each, interleaved as the
    // channel lock would serialize them, capacity one, no consumer:
    // no blocking, no growth beyond one buffered record.
    let mut ch = AsyncChannel::new(1, OverflowStrategy::Drop);
    let mut delivered = 0;
    for _ in 0..100 {
        for producer in ["p1", "p2"] {
            let outcome = ch.enqueue(record(Severity::Info, producer));
            assert_ne!(outcome, EnqueueOutcome::WouldBlock);
            if outcome == EnqueueOutcome::Enqueued {
                delivered += 1;
            }
            assert!(ch.len() <= 1);
        }
    }
    assert!(delivered <= 1);
}

#[test]
fn overflow_drop_and_report_counts_drops() {
    let mut ch = AsyncChannel::new(2, OverflowStrategy::DropAndReport);
    assert_eq!(ch.enqueue(record(Severity::Info, "1")), EnqueueOutcome::Enqueued);
    assert_eq!(ch.enqueue(record(Severity::Info, "2")), EnqueueOutcome::Enqueued);
    for _ in 0..3 {
        assert_eq!(ch.enqueue(record(Severity::Info, "x")), EnqueueOutcome::Dropped);
    }
    // The consumer takes the count once and emits a report about it.
    assert_eq!(ch.take_dropped(), 3);
    assert_eq!(ch.take_dropped(), 0);
    let report = make_overflow_report(3);
    assert_eq!(report.severity, Severity::Error);
    assert_eq!(report.message, "dropped 3 records because the channel was full");
    // The queued records are untouched by the overflow.
    assert_eq!(ch.dequeue().unwrap().message, "1");
    assert_eq!(ch.dequeue().unwrap().message, "2");
}

#[test]
fn block_policy_asks_the_producer_to_wait() {
    let mut ch = AsyncChannel::new(1, OverflowStrategy::Block);
    assert_eq!(ch.enqueue(record(Severity::Info, "1")), EnqueueOutcome::Enqueued);
    // A full queue under `Block` hands the decision back: the caller
    // waits for room and retries.
    assert_eq!(ch.enqueue(record(Severity::Info, "2")), EnqueueOutcome::WouldBlock);
    assert_eq!(ch.len(), 1);
    assert_eq!(ch.dequeue().unwrap().message, "1");
    assert_eq!(ch.enqueue(record(Severity::Info, "2")), EnqueueOutcome::Enqueued);
}

#[test]
fn capacity_zero_always_overflows() {
    let mut ch = AsyncChannel::new(0, OverflowStrategy::Drop);
    assert_eq!(ch.enqueue(record(Severity::Info, "x")), EnqueueOutcome::Dropped);
    assert_eq!(ch.len(), 0);
    assert!(ch.dequeue().is_none());
}
