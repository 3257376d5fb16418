//! The broker's guarantees, stated and proved over the registry's and
//! waiter's mathematical models.
//!
//! Each proof function here relates the transition functions that the
//! executable operations are specified by, so every law holds of any
//! sequence of calls through the public interface.

use vstd::prelude::*;
use crate::errors::BrokerError;
use crate::registry::cancel_transition;
use crate::registry::claim_transition;
use crate::registry::subscribe_transition;
use crate::waiter::WaiterView;
use crate::waiter::fulfill_transition;
use crate::waiter::resolve_outcome;

verus! {

/// Subscribing a fresh identifier and then sending to it delivers exactly the
/// subscribed payload, exactly once: the claim hands back precisely the
/// producer that was subscribed, consumes the entry (leaving the registry as
/// it was before the subscription), fulfilling the empty waiter stores
/// exactly the sent payload, the consumer resolves to exactly that payload,
/// and no second delivery into the same waiter is possible.
pub proof fn lemma_single_delivery<S>(
    m: Map<Seq<char>, S>,
    id: Seq<char>,
    producer: S,
    payload: Seq<char>,
)
    requires
        !m.contains_key(id),
    ensures
        ({
            let (m1, subscribed) = subscribe_transition(m, id, producer);
            let (m2, claimed) = claim_transition(m1, id);
            let (filled, fulfilled) = fulfill_transition(WaiterView::Empty, payload);
            &&& subscribed == Ok::<(), BrokerError>(())
            &&& claimed == Ok::<S, BrokerError>(producer)
            &&& m2 == m
            &&& fulfilled == Ok::<(), BrokerError>(())
            &&& filled == WaiterView::Filled(payload)
            &&& resolve_outcome(filled) == Ok::<Seq<char>, BrokerError>(payload)
            &&& fulfill_transition(filled, payload).1 == Err::<(), BrokerError>(
                BrokerError::AlreadyFulfilled,
            )
        }),
{
    let (m1, _) = subscribe_transition(m, id, producer);
    assert(claim_transition(m1, id).0 =~= m);
}

/// Sending to an identifier that was never subscribed reports `NotFound` and
/// leaves the registry exactly as it was; no waiting point is touched.
pub proof fn lemma_send_unknown<S>(m: Map<Seq<char>, S>, id: Seq<char>)
    requires
        !m.contains_key(id),
    ensures
        claim_transition(m, id) == (m, Err::<S, BrokerError>(BrokerError::NotFound)),
{
}

/// A second subscription for an identifier whose first registration is still
/// pending is rejected with `AlreadyRegistered`, the registry keeps the
/// first producer untouched, and the first registration stays deliverable: a
/// later claim still hands out the first producer.
pub proof fn lemma_duplicate_subscribe<S>(m: Map<Seq<char>, S>, id: Seq<char>, first: S, second: S)
    requires
        !m.contains_key(id),
    ensures
        ({
            let (m1, r1) = subscribe_transition(m, id, first);
            let (m2, r2) = subscribe_transition(m1, id, second);
            &&& r1 == Ok::<(), BrokerError>(())
            &&& r2 == Err::<(), BrokerError>(BrokerError::AlreadyRegistered)
            &&& m2 == m1
            &&& claim_transition(m2, id).1 == Ok::<S, BrokerError>(first)
        }),
{
}

/// Deliveries to distinct identifiers never cross: with two distinct
/// identifiers subscribed, each claim hands out exactly the producer that
/// was subscribed under its own identifier, in whichever order the two
/// claims happen.
pub proof fn lemma_no_cross_delivery<S>(
    m: Map<Seq<char>, S>,
    first_id: Seq<char>,
    second_id: Seq<char>,
    first: S,
    second: S,
)
    requires
        first_id != second_id,
        !m.contains_key(first_id),
        !m.contains_key(second_id),
    ensures
        ({
            let (m1, _) = subscribe_transition(m, first_id, first);
            let (m2, _) = subscribe_transition(m1, second_id, second);
            &&& claim_transition(m2, first_id).1 == Ok::<S, BrokerError>(first)
            &&& claim_transition(m2, second_id).1 == Ok::<S, BrokerError>(second)
            &&& claim_transition(claim_transition(m2, first_id).0, second_id).1 == Ok::<
                S,
                BrokerError,
            >(second)
            &&& claim_transition(claim_transition(m2, second_id).0, first_id).1 == Ok::<
                S,
                BrokerError,
            >(first)
        }),
{
}

/// Operations on one identifier never disturb another: a subscribe, claim or
/// cancel for `other` leaves whether `id` is pending, and the producer
/// registered under `id`, exactly as they were. Hence, however many
/// operations on other identifiers are interleaved between an identifier's
/// subscription and its delivery, its consumer still receives exactly the
/// payload sent under its own identifier.
pub proof fn lemma_independent_ids<S>(
    m: Map<Seq<char>, S>,
    id: Seq<char>,
    other: Seq<char>,
    producer: S,
)
    requires
        id != other,
    ensures
        subscribe_transition(m, other, producer).0.contains_key(id) == m.contains_key(id),
        m.contains_key(id) ==> subscribe_transition(m, other, producer).0[id] == m[id],
        claim_transition(m, other).0.contains_key(id) == m.contains_key(id),
        m.contains_key(id) ==> claim_transition(m, other).0[id] == m[id],
        cancel_transition(m, other).0.contains_key(id) == m.contains_key(id),
        m.contains_key(id) ==> cancel_transition(m, other).0[id] == m[id],
{
}

/// Cancelling an identifier before any delivery removes its entry, and a
/// subsequent send finds nothing: it reports `NotFound` and changes nothing.
pub proof fn lemma_cancel_then_send<S>(m: Map<Seq<char>, S>, id: Seq<char>)
    ensures
        ({
            let (m1, r1) = cancel_transition(m, id);
            &&& r1 == Ok::<(), BrokerError>(())
            &&& !m1.contains_key(id)
            &&& claim_transition(m1, id) == (m1, Err::<S, BrokerError>(BrokerError::NotFound))
        }),
{
}

/// After a successful delivery the entry is gone: a repeated send to the
/// same identifier reports `NotFound` and leaves the registry unchanged, so
/// no waiting point can ever be delivered to twice through the registry.
pub proof fn lemma_no_double_delivery<S>(m: Map<Seq<char>, S>, id: Seq<char>)
    requires
        m.contains_key(id),
    ensures
        ({
            let (m1, r1) = claim_transition(m, id);
            &&& r1 == Ok::<S, BrokerError>(m[id])
            &&& claim_transition(m1, id) == (m1, Err::<S, BrokerError>(BrokerError::NotFound))
        }),
{
}

} // verus!
