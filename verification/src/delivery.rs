//! Delivery of a payload through the registry to a suspended consumer.
//!
//! The asynchronous embedding backs each waiting point with a one-shot
//! channel: the registry stores the channel's sending half, and the consumer
//! suspends on the receiving half. `send` claims the pending entry — the
//! verified step that removes it atomically with the lookup — and only then
//! performs the hand-off, outside any registry state, so a slow consumer
//! never holds other callers up.

use vstd::prelude::*;
use crate::errors::BrokerError;
use crate::registry::CorrelationRegistry;
use crate::registry::claim_transition;

verus! {

/// The sending half of a one-shot channel, stored in the registry as the
/// producer handle of an outstanding waiting point.
#[verifier::external_type_specification]
#[verifier::external_body]
#[verifier::reject_recursive_types(T)]
pub struct ExOneshotSender<T>(futures::channel::oneshot::Sender<T>);

/// Relies on `futures::channel::oneshot::Sender::send`: consuming the sending
/// half, the payload is enqueued for the receiver if one is still alive
/// (`Ok`), and handed back unchanged if the receiving half was already
/// dropped (`Err`).
#[verifier::external_body]
fn deliver_payload(producer: futures::channel::oneshot::Sender<String>, payload: String) -> (r:
    Result<(), String>)
    ensures
        r matches Err(p) ==> p == payload,
{
    producer.send(payload)
}

impl CorrelationRegistry<futures::channel::oneshot::Sender<String>> {
    /// Deliver `payload` to the waiting point registered under `id`.
    ///
    /// If `id` is not pending — never registered, already delivered, or
    /// cancelled, which the registry keeps no history to distinguish — the
    /// result is `NotFound` and nothing changes. If `id` is pending, its
    /// entry is removed first, so no second delivery can ever reach the same
    /// waiting point; the payload is then handed off outside the registry's
    /// state. The hand-off reports `ChannelClosed` when the consumer side
    /// was abandoned; the entry stays removed either way.
    pub fn send(&mut self, id: &str, payload: String) -> (r: Result<(), BrokerError>)
        requires
            old(self).wf(),
        ensures
            final(self).wf(),
            final(self)@ == claim_transition(old(self)@, id@).0,
            claim_transition(old(self)@, id@).1 matches Err(e) ==> r == Err::<(), BrokerError>(e),
            claim_transition(old(self)@, id@).1 matches Ok(_) ==> r == Ok::<(), BrokerError>(())
                || r == Err::<(), BrokerError>(BrokerError::ChannelClosed),
            r == Err::<(), BrokerError>(BrokerError::NotFound) <==> !old(self)@.contains_key(id@),
    {
        match self.claim(id) {
            Ok(producer) => match deliver_payload(producer, payload) {
                Ok(_) => Ok(()),
                Err(_) => Err(BrokerError::ChannelClosed),
            },
            Err(e) => Err(e),
        }
    }
}

} // verus!
