//! The event emitter: stamps each event with the next sequence id of a counter
//! shared by all clones of the emitter, and hands it to a tokio channel.
//!
//! The awaiting send lives with the asynchronous callers; this module holds the
//! stamping and the non-blocking send.
use vstd::prelude::*;

use crate::events::{event_seq, event_with_seq, Event};

verus! {

#[verifier::external_type_specification]
#[verifier::external_body]
#[verifier::reject_recursive_types(T)]
pub struct ExSender<T>(tokio::sync::mpsc::Sender<T>);

#[verifier::external_type_specification]
#[verifier::external_body]
#[verifier::reject_recursive_types(T)]
pub struct ExTrySendError<T>(tokio::sync::mpsc::error::TrySendError<T>);

/// `tokio::sync::mpsc::Sender::clone`: another handle on the same channel.
/// Nothing is claimed of the handle.
pub assume_specification<T>[<tokio::sync::mpsc::Sender<T> as Clone>::clone](
    s: &tokio::sync::mpsc::Sender<T>,
) -> tokio::sync::mpsc::Sender<T>;

/// The event a refused send hands back: what `TrySendError::into_inner`
/// returns (the value inside `Full` or `Closed`).
pub uninterp spec fn rejected_event(e: tokio::sync::mpsc::error::TrySendError<Event>) -> Event;

/// `Sender::try_send`: queue `message` on the channel without waiting, or hand
/// it back inside `TrySendError::Full` / `TrySendError::Closed` when the channel
/// has no free slot or no receiver. Which of these happens depends on the
/// channel's state at the moment of the call; claimed is only that a refusal
/// holds the message unchanged.
#[verifier::external_body]
fn channel_try_send(
    tx: &tokio::sync::mpsc::Sender<Event>,
    message: Event,
) -> (r: Result<(), tokio::sync::mpsc::error::TrySendError<Event>>)
    ensures
        r matches Err(e) ==> rejected_event(e) == message,
{
    tx.try_send(message)
}

/// Typed event emitter over a tokio channel. Clones share the channel and the
/// sequence counter, so events from all clones are totally ordered.
#[derive(Debug, Clone)]
pub struct EventEmitter {
    tx: tokio::sync::mpsc::Sender<Event>,
    sequence_counter: std::sync::Arc<std::sync::atomic::AtomicU64>,
}

impl EventEmitter {
    /// An emitter that sends to `tx`; its sequence ids start at 1.
    pub fn new(tx: tokio::sync::mpsc::Sender<Event>) -> (e: EventEmitter)
        ensures
            e.channel() == tx,
    {
        let counter = std::sync::atomic::AtomicU64::new(1);
        EventEmitter { tx, sequence_counter: std::sync::Arc::new(counter) }
    }

    /// The channel this emitter sends to.
    pub closed spec fn channel(&self) -> tokio::sync::mpsc::Sender<Event> {
        self.tx
    }

    /// Take the next sequence id from the shared counter. The counter is shared
    /// with every clone and may be advanced concurrently, so the value is not
    /// determined here.
    pub fn next_sequence_id(&self) -> u64 {
        let counter: &std::sync::atomic::AtomicU64 = &self.sequence_counter;
        counter.fetch_add(1, std::sync::atomic::Ordering::SeqCst)
    }

    /// `event` stamped with the next sequence id: the result differs from
    /// `event` in its sequence id only.
    pub fn stamp(&self, event: Event) -> (r: Event)
        ensures
            r == event_with_seq(event, event_seq(r)),
    {
        let id = self.next_sequence_id();
        let r = event.with_sequence_id(id);
        proof {
            crate::events::lemma_with_sequence_id_laws(event, id, id);
        }
        r
    }

    /// The channel handle, for callers that await a send of a stamped event.
    pub fn sender(&self) -> (tx: &tokio::sync::mpsc::Sender<Event>)
        ensures
            *tx == self.channel(),
    {
        &self.tx
    }

    /// Stamp `event` and queue it without waiting. On failure the stamped
    /// event comes back inside the error: `event` with a sequence id of the
    /// shared counter and nothing else changed.
    pub fn try_emit(&self, event: Event) -> (r: Result<
        (),
        tokio::sync::mpsc::error::TrySendError<Event>,
    >)
        ensures
            r matches Err(e) ==> rejected_event(e) == event_with_seq(
                event,
                event_seq(rejected_event(e)),
            ),
    {
        let stamped = self.stamp(event);
        channel_try_send(&self.tx, stamped)
    }
}

} // verus!
