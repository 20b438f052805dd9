//! The collector's decisions: what one observation on the meter connection
//! does to the store, and what the connection loop must do next.
//!
//! The loop itself blocks on sockets and timers and so lives with the
//! caller; it reports every observation as a `CollectorEvent` and performs
//! the `CollectorAction` this module decides. No event ends the loop:
//! every failure is answered by reconnecting after a fixed delay, forever.

use vstd::prelude::*;

use crate::reading::Reading;
use crate::store::{spec_apply, MetricsStore};

verus! {

/// Seconds the collector waits after any failure before it reconnects.
/// Retries are unbounded: no backoff growth, no retry cap.
pub const RETRY_DELAY_SECONDS: u64 = 5;

/// Seconds without data after which a read on the meter connection must be
/// given up, so a silent feed turns into a failure instead of a hang.
pub const READ_TIMEOUT_SECONDS: u64 = 2;

/// One observation made by the connection loop.
#[derive(Clone, Debug, PartialEq)]
pub enum CollectorEvent {
    /// A connection to the meter was opened.
    Connected,
    /// Opening a connection failed.
    ConnectFailed,
    /// One telegram was decoded into a `Reading`.
    TelegramDecoded(Reading),
    /// A telegram was malformed or failed validation; stream alignment
    /// cannot be trusted past this point.
    DecodeFailed,
    /// The byte stream ended, timed out or could not be read further.
    StreamEnded,
}

/// What the connection loop must do next.
#[derive(Clone, Copy, Debug, PartialEq, Eq, Structural)]
pub enum CollectorAction {
    /// Set the read timeout to `READ_TIMEOUT_SECONDS` on the fresh
    /// connection and start reading telegrams.
    BeginStream,
    /// Keep reading telegrams from the current connection.
    KeepStreaming,
    /// Abandon the current connection, wait `RETRY_DELAY_SECONDS`, and
    /// connect anew.
    RetryAfterDelay,
}

/// Fold one observation into the store and decide the loop's next step.
///
/// A decoded telegram is applied to the store and streaming goes on. Every
/// failure — connect, decode or read — leaves the store exactly as it was,
/// so the last valid values stay visible during the gap, and is answered by
/// `RetryAfterDelay`, never by giving up.
pub fn collector_step(store: &mut MetricsStore, event: CollectorEvent) -> (action:
    CollectorAction)
    ensures
        event matches CollectorEvent::TelegramDecoded(r) ==> *final(store) == spec_apply(
            *old(store),
            r,
        ) && action == CollectorAction::KeepStreaming,
        !(event is TelegramDecoded) ==> *final(store) == *old(store),
        event is Connected ==> action == CollectorAction::BeginStream,
        event is ConnectFailed ==> action == CollectorAction::RetryAfterDelay,
        event is DecodeFailed ==> action == CollectorAction::RetryAfterDelay,
        event is StreamEnded ==> action == CollectorAction::RetryAfterDelay,
{
    match event {
        CollectorEvent::Connected => CollectorAction::BeginStream,
        CollectorEvent::ConnectFailed => CollectorAction::RetryAfterDelay,
        CollectorEvent::TelegramDecoded(reading) => {
            store.apply_reading(&reading);
            CollectorAction::KeepStreaming
        },
        CollectorEvent::DecodeFailed => CollectorAction::RetryAfterDelay,
        CollectorEvent::StreamEnded => CollectorAction::RetryAfterDelay,
    }
}

/// The store a sequence of observations leaves behind when each is fed to
/// `collector_step` in order: every decoded telegram is folded in, every
/// other observation leaves the store untouched.
pub open spec fn store_after_events(s: MetricsStore, events: Seq<CollectorEvent>) -> MetricsStore
    decreases events.len(),
{
    if events.len() == 0 {
        s
    } else {
        let before = store_after_events(s, events.drop_last());
        match events.last() {
            CollectorEvent::TelegramDecoded(r) => spec_apply(before, r),
            _ => before,
        }
    }
}

/// One connection in general: after any run of observations, a failure —
/// decode, read or connect — leaves exactly the store that the decoded
/// telegrams before it produced, in their order. The failure resets and
/// clears nothing; and since `collector_step` answers it with
/// `RetryAfterDelay`, nothing past the failure is read from that
/// connection, so nothing past it is applied.
pub proof fn lemma_failure_keeps_folded_store(
    s: MetricsStore,
    events: Seq<CollectorEvent>,
    failure: CollectorEvent,
)
    requires
        !(failure is TelegramDecoded),
    ensures
        store_after_events(s, events.push(failure)) == store_after_events(s, events),
{
    assert(events.push(failure).drop_last() =~= events);
    assert(events.push(failure).last() == failure);
}

/// A gap without decoded telegrams — failed connects, failed decodes,
/// ended streams — leaves the store's last valid values untouched,
/// however long it lasts.
pub proof fn lemma_gap_keeps_store(s: MetricsStore, events: Seq<CollectorEvent>)
    requires
        forall|i: int| 0 <= i < events.len() ==> !(#[trigger] events[i] is TelegramDecoded),
    ensures
        store_after_events(s, events) == s,
    decreases events.len(),
{
    if events.len() > 0 {
        assert(!(events[events.len() - 1] is TelegramDecoded));
        assert forall|i: int|
            0 <= i < events.drop_last().len() implies !(#[trigger] events.drop_last()[i]
            is TelegramDecoded) by {
            assert(events.drop_last()[i] == events[i]);
        }
        lemma_gap_keeps_store(s, events.drop_last());
    }
}

} // verus!
