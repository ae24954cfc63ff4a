//! Ordering checks for the event fan-out: every delivered record's sequence id
//! must follow the previous one by exactly one. A reordering or a gap becomes
//! an invariant-violation record for the invariant channel.
//!
//! The asynchronous receive-and-dispatch loop lives with its callers; it
//! hands each record's sequence id to a `SequenceTracker` and reports what the
//! tracker returns.
use vstd::prelude::*;

use crate::clock::unix_now_secs;
use crate::error::{decimal_digits, decimal_text};
use crate::events::{Event, EventRecord, InvariantSeverity};

verus! {

/// A detected break in sequence-id order.
#[derive(Debug, Clone)]
pub struct OrderingViolation {
    /// The rule that was broken.
    pub rule: &'static str,
    /// What was observed.
    pub details: String,
    /// How severe the break is.
    pub severity: InvariantSeverity,
}

/// What the ordering check reports when record `current` follows record
/// `last` (0 meaning nothing seen yet): the rule, the details and the severity
/// of the violation, or `None` when the order is as expected.
pub open spec fn ordering_outcome(last: u64, current: u64) -> Option<
    (Seq<char>, Seq<char>, InvariantSeverity),
> {
    if last == 0 {
        None
    } else if current <= last {
        Some(
            (
                "event_ordering_monotonic"@,
                "Event reordering detected: sequence_id "@ + decimal_digits(current as nat)
                    + " <= last "@ + decimal_digits(last as nat),
                InvariantSeverity::Critical,
            ),
        )
    } else if current > last + 1 {
        Some(
            (
                "event_ordering_gap"@,
                "Event sequence gap detected: expected "@ + decimal_digits((last + 1) as nat)
                    + ", got "@ + decimal_digits(current as nat) + " (gap of "@ + decimal_digits(
                    (current - last - 1) as nat,
                ) + ")"@,
                InvariantSeverity::Error,
            ),
        )
    } else {
        None
    }
}

/// A violation matches the outcome `o`.
pub open spec fn violation_is(
    v: OrderingViolation,
    o: (Seq<char>, Seq<char>, InvariantSeverity),
) -> bool {
    v.rule@ == o.0 && v.details@ == o.1 && v.severity == o.2
}

/// The last sequence id seen by the fan-out, and the check applied to each
/// new one.
#[derive(Debug, Clone, Copy)]
pub struct SequenceTracker {
    last: u64,
}

impl SequenceTracker {
    /// The last observed sequence id (0 before any).
    pub closed spec fn last(&self) -> u64 {
        self.last
    }

    /// A tracker that has seen nothing.
    pub fn new() -> (t: SequenceTracker)
        ensures
            t.last() == 0,
    {
        SequenceTracker { last: 0 }
    }

    /// The last observed sequence id (0 before any).
    pub fn last_sequence_id(&self) -> (r: u64)
        ensures
            r == self.last(),
    {
        self.last
    }

    /// Observe the next record's sequence id: report a reordering (an id not
    /// above the last one) or a gap (an id more than one above it), and make it
    /// the last observed id.
    pub fn observe(&mut self, current: u64) -> (r: Option<OrderingViolation>)
        ensures
            final(self).last() == current,
            match ordering_outcome(old(self).last(), current) {
                None => r is None,
                Some(o) => r matches Some(v) && violation_is(v, o),
            },
    {
        let last = self.last;
        let mut outcome: Option<OrderingViolation> = None;
        if last > 0 {
            if current <= last {
                let mut d = String::from_str("Event reordering detected: sequence_id ");
                let a = decimal_text(current);
                d.append(a.as_str());
                d.append(" <= last ");
                let b = decimal_text(last);
                d.append(b.as_str());
                outcome = Some(
                    OrderingViolation {
                        rule: "event_ordering_monotonic",
                        details: d,
                        severity: InvariantSeverity::Critical,
                    },
                );
            } else if current > last + 1 {
                let mut d = String::from_str("Event sequence gap detected: expected ");
                let a = decimal_text(last + 1);
                d.append(a.as_str());
                d.append(", got ");
                let b = decimal_text(current);
                d.append(b.as_str());
                d.append(" (gap of ");
                let c = decimal_text(current - last - 1);
                d.append(c.as_str());
                d.append(")");
                outcome = Some(
                    OrderingViolation {
                        rule: "event_ordering_gap",
                        details: d,
                        severity: InvariantSeverity::Error,
                    },
                );
            }
        }
        self.last = current;
        proof {
            reveal_strlit("event_ordering_monotonic");
            reveal_strlit("event_ordering_gap");
        }
        outcome
    }
}

/// A sequence that starts anywhere and then goes up by exactly one each time
/// never triggers a report: the first record finds nothing seen, and each
/// later one follows its predecessor.
pub proof fn lemma_consecutive_ids_pass(last: u64, current: u64)
    ensures
        last == 0 ==> ordering_outcome(last, current) is None,
        current == last + 1 ==> ordering_outcome(last, current) is None,
        last > 0 && current != last + 1 ==> ordering_outcome(last, current) is Some,
{
}

/// The record that reports violation `v`, stamped with `timestamp`: its own
/// sequence ids are zero, to be assigned if it is re-sent through an emitter.
pub fn violation_record(v: OrderingViolation, timestamp: u64) -> (r: EventRecord)
    ensures
        r.sequence_id == 0,
        r.timestamp == timestamp,
        r.event matches Event::InvariantViolation { sequence_id, rule, details, severity }
            && sequence_id == 0 && rule@ == v.rule@ && details@ == v.details@ && severity
            == v.severity,
{
    EventRecord {
        sequence_id: 0,
        timestamp,
        event: Event::InvariantViolation {
            sequence_id: 0,
            rule: String::from_str(v.rule),
            details: v.details,
            severity: v.severity,
        },
    }
}

/// `Sender::try_send` for records: queue `record` without waiting; on a full
/// or closed channel the record is dropped. Which happens depends on the
/// channel's state, so nothing is claimed of it.
#[verifier::external_body]
fn record_try_send(sender: &tokio::sync::mpsc::Sender<EventRecord>, record: EventRecord) {
    let _ = sender.try_send(record);
}

/// Send the record for violation `v`, stamped with the current wall-clock
/// seconds, on the invariant channel if there is one; never waits.
pub fn report_violation(
    sender: Option<&tokio::sync::mpsc::Sender<EventRecord>>,
    v: OrderingViolation,
) {
    match sender {
        Some(s) => {
            let record = violation_record(v, unix_now_secs());
            record_try_send(s, record);
        },
        None => {},
    }
}

} // verus!
