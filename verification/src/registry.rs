//! The correlation registry: a mapping from correlation identifier to the
//! producer side of an outstanding waiting point.
//!
//! The registry is an owned, injectable instance. It is generic in the
//! producer handle it stores, so the same verified discipline backs any
//! delivery primitive: registration never silently overwrites a pending
//! entry, a delivery consumes the entry atomically with the lookup, and
//! cancellation is idempotent. Its mathematical model is a finite map from
//! identifier (as a character sequence) to the stored producer handle.

use vstd::prelude::*;
use crate::errors::BrokerError;

verus! {

/// A correlation registry holding producer handles of type `S`, at most one
/// per correlation identifier.
pub struct CorrelationRegistry<S> {
    entries: Vec<(String, S)>,
}

/// What `subscribe` does to a registry whose model is `m`: a fresh identifier
/// gains a binding to the offered producer handle; a pending identifier
/// leaves the registry untouched and the offer is rejected.
pub open spec fn subscribe_transition<S>(
    m: Map<Seq<char>, S>,
    id: Seq<char>,
    producer: S,
) -> (Map<Seq<char>, S>, Result<(), BrokerError>) {
    if m.contains_key(id) {
        (m, Err(BrokerError::AlreadyRegistered))
    } else {
        (m.insert(id, producer), Ok(()))
    }
}

/// What claiming an identifier for delivery does to a registry whose model is
/// `m`: a pending identifier's binding is removed and its producer handle is
/// handed out, exactly once; an unknown identifier changes nothing and is
/// reported as `NotFound`.
pub open spec fn claim_transition<S>(m: Map<Seq<char>, S>, id: Seq<char>) -> (
    Map<Seq<char>, S>,
    Result<S, BrokerError>,
) {
    if m.contains_key(id) {
        (m.remove(id), Ok(m[id]))
    } else {
        (m, Err(BrokerError::NotFound))
    }
}

/// What `cancel` does to a registry whose model is `m`: the identifier's
/// binding, if any, is removed; cancelling an absent identifier succeeds as a
/// no-op, so a late cancel never fails loudly.
pub open spec fn cancel_transition<S>(m: Map<Seq<char>, S>, id: Seq<char>) -> (
    Map<Seq<char>, S>,
    Result<(), BrokerError>,
) {
    (m.remove(id), Ok(()))
}

spec fn map_of<S>(entries: Seq<(String, S)>) -> Map<Seq<char>, S>
    decreases entries.len(),
{
    if entries.len() == 0 {
        Map::empty()
    } else {
        map_of(entries.drop_last()).insert(entries.last().0@, entries.last().1)
    }
}

spec fn has_id<S>(entries: Seq<(String, S)>, k: Seq<char>) -> bool {
    exists|i: int| 0 <= i < entries.len() && (#[trigger] entries[i]).0@ == k
}

spec fn unique_ids<S>(entries: Seq<(String, S)>) -> bool {
    forall|i: int, j: int|
        0 <= i < j < entries.len() ==> (#[trigger] entries[i]).0@ != (#[trigger] entries[j]).0@
}

proof fn lemma_contains_key<S>(entries: Seq<(String, S)>, k: Seq<char>)
    ensures
        map_of(entries).contains_key(k) <==> has_id(entries, k),
    decreases entries.len(),
{
    if entries.len() == 0 {
    } else {
        let prefix = entries.drop_last();
        lemma_contains_key(prefix, k);
        let last = entries.last();
        if last.0@ == k {
            assert((entries[entries.len() - 1]).0@ == k);
            assert(has_id(entries, k));
        } else {
            if has_id(entries, k) {
                let i = choose|i: int| 0 <= i < entries.len() && (#[trigger] entries[i]).0@ == k;
                assert(i < entries.len() - 1);
                assert((prefix[i]).0@ == k);
                assert(has_id(prefix, k));
            }
            if has_id(prefix, k) {
                let i = choose|i: int| 0 <= i < prefix.len() && (#[trigger] prefix[i]).0@ == k;
                assert((entries[i]).0@ == k);
                assert(has_id(entries, k));
            }
        }
    }
}

proof fn lemma_value_at<S>(entries: Seq<(String, S)>, k: Seq<char>, i: int)
    requires
        unique_ids(entries),
        0 <= i < entries.len(),
        (entries[i]).0@ == k,
    ensures
        map_of(entries).contains_key(k),
        map_of(entries)[k] == (entries[i]).1,
    decreases entries.len(),
{
    let prefix = entries.drop_last();
    if i == entries.len() - 1 {
    } else {
        assert((entries[i]).0@ != (entries[entries.len() - 1]).0@);
        assert(unique_ids(prefix)) by {
            assert(forall|a: int, b: int|
                0 <= a < b < prefix.len() ==> (#[trigger] prefix[a]).0@ != (
                #[trigger] prefix[b]).0@) by {
                assert(forall|a: int| 0 <= a < prefix.len() ==> prefix[a] == entries[a]);
            }
        }
        assert((prefix[i]).0@ == k);
        lemma_value_at(prefix, k, i);
    }
}

proof fn lemma_unique_prefix<S>(entries: Seq<(String, S)>)
    requires
        unique_ids(entries),
        entries.len() > 0,
    ensures
        unique_ids(entries.drop_last()),
{
    let prefix = entries.drop_last();
    assert(forall|a: int| 0 <= a < prefix.len() ==> prefix[a] == entries[a]);
}

proof fn lemma_push<S>(entries: Seq<(String, S)>, id: String, producer: S)
    ensures
        map_of(entries.push((id, producer))) == map_of(entries).insert(id@, producer),
{
    let pushed = entries.push((id, producer));
    assert(pushed.drop_last() =~= entries);
    assert(pushed.last() == (id, producer));
}

proof fn lemma_remove_at<S>(entries: Seq<(String, S)>, k: Seq<char>, i: int)
    requires
        unique_ids(entries),
        0 <= i < entries.len(),
        (entries[i]).0@ == k,
    ensures
        map_of(entries.remove(i)) == map_of(entries).remove(k),
        unique_ids(entries.remove(i)),
    decreases entries.len(),
{
    let prefix = entries.drop_last();
    let last = entries.last();
    lemma_unique_prefix(entries);
    assert(unique_ids(entries.remove(i))) by {
        let removed = entries.remove(i);
        assert(forall|a: int, b: int|
            0 <= a < b < removed.len() ==> (#[trigger] removed[a]).0@ != (
            #[trigger] removed[b]).0@) by {
            assert(forall|a: int| 0 <= a < i ==> removed[a] == entries[a]);
            assert(forall|a: int| i <= a < removed.len() ==> removed[a] == entries[a + 1]);
        }
    }
    if i == entries.len() - 1 {
        assert(entries.remove(i) =~= prefix);
        assert(!has_id(prefix, k)) by {
            if has_id(prefix, k) {
                let j = choose|j: int| 0 <= j < prefix.len() && (#[trigger] prefix[j]).0@ == k;
                assert((entries[j]).0@ == k);
                assert((entries[j]).0@ != (entries[i]).0@);
            }
        }
        lemma_contains_key(prefix, k);
        assert(map_of(prefix).insert(k, last.1).remove(k) =~= map_of(prefix));
        assert(map_of(entries).remove(k) == map_of(prefix).insert(last.0@, last.1).remove(k));
    } else {
        let removed = entries.remove(i);
        assert(removed.drop_last() =~= prefix.remove(i)) by {
            assert(forall|a: int| 0 <= a < i ==> #[trigger] removed[a] == entries[a]);
            assert(forall|a: int|
                i <= a < removed.len() ==> #[trigger] removed[a] == entries[a + 1]);
            assert(forall|a: int| 0 <= a < i ==> #[trigger] prefix.remove(i)[a] == prefix[a]);
            assert(forall|a: int|
                i <= a < prefix.remove(i).len() ==> #[trigger] prefix.remove(i)[a] == prefix[a
                    + 1]);
            assert(forall|a: int| 0 <= a < prefix.len() ==> #[trigger] prefix[a] == entries[a]);
        }
        assert(removed.last() == last);
        assert((prefix[i]).0@ == k);
        lemma_remove_at(prefix, k, i);
        assert(map_of(removed) == map_of(prefix).remove(k).insert(last.0@, last.1));
        assert(last.0@ != k) by {
            assert((entries[i]).0@ != (entries[entries.len() - 1]).0@);
        }
        assert(map_of(prefix).remove(k).insert(last.0@, last.1) =~= map_of(prefix).insert(
            last.0@,
            last.1,
        ).remove(k));
    }
}

impl<S> View for CorrelationRegistry<S> {
    type V = Map<Seq<char>, S>;

    closed spec fn view(&self) -> Map<Seq<char>, S> {
        map_of(self.entries@)
    }
}

impl<S> CorrelationRegistry<S> {
    /// The registry never binds one identifier twice.
    pub closed spec fn wf(&self) -> bool {
        unique_ids(self.entries@)
    }

    /// A fresh registry with no pending correlation.
    pub fn new() -> (r: Self)
        ensures
            r.wf(),
            r@ == Map::<Seq<char>, S>::empty(),
    {
        CorrelationRegistry { entries: Vec::new() }
    }

    fn index_of(&self, id: &str) -> (r: Option<usize>)
        ensures
            match r {
                Some(i) => 0 <= i < self.entries@.len() && (self.entries@[i as int]).0@ == id@,
                None => !has_id(self.entries@, id@),
            },
    {
        let key: String = id.to_owned();
        let n = self.entries.len();
        let mut i: usize = 0;
        while i < n
            invariant
                n == self.entries@.len(),
                i <= n,
                key@ == id@,
                forall|j: int| 0 <= j < i ==> (#[trigger] self.entries@[j]).0@ != id@,
            decreases n - i,
        {
            if self.entries[i].0 == key {
                return Some(i);
            }
            i = i + 1;
        }
        None
    }

    /// Whether `id` is currently pending.
    pub fn contains_id(&self, id: &str) -> (b: bool)
        ensures
            b == self@.contains_key(id@),
    {
        proof {
            lemma_contains_key(self.entries@, id@);
        }
        self.index_of(id).is_some()
    }

    /// Register the producer side of a fresh waiting point under `id`.
    ///
    /// Succeeds exactly when `id` is not already pending; a pending entry is
    /// never overwritten, and the colliding offer is rejected with
    /// `AlreadyRegistered` so that the first registration stays deliverable.
    pub fn subscribe(&mut self, id: &str, producer: S) -> (r: Result<(), BrokerError>)
        requires
            old(self).wf(),
        ensures
            final(self).wf(),
            final(self)@ == subscribe_transition(old(self)@, id@, producer).0,
            r == subscribe_transition(old(self)@, id@, producer).1,
    {
        proof {
            lemma_contains_key(self.entries@, id@);
        }
        match self.index_of(id) {
            Some(_) => Err(BrokerError::AlreadyRegistered),
            None => {
                let key: String = id.to_owned();
                let ghost before = self.entries@;
                self.entries.push((key, producer));
                proof {
                    let e = self.entries@.last();
                    lemma_push(before, e.0, e.1);
                    assert(unique_ids(self.entries@)) by {
                        assert(forall|a: int|
                            0 <= a < before.len() ==> #[trigger] self.entries@[a] == before[a]);
                        assert((self.entries@[before.len() as int]).0@ == id@);
                        assert(forall|a: int|
                            0 <= a < before.len() ==> (#[trigger] before[a]).0@ != id@);
                    }
                }
                Ok(())
            },
        }
    }

    /// Take the pending entry for `id` out of the registry and hand its
    /// producer handle to the caller, in one step.
    ///
    /// Succeeds exactly when `id` is pending; afterwards the identifier is no
    /// longer pending, so the handed-out handle is the only route left to the
    /// waiting consumer and a repeated claim reports `NotFound`.
    pub fn claim(&mut self, id: &str) -> (r: Result<S, BrokerError>)
        requires
            old(self).wf(),
        ensures
            final(self).wf(),
            final(self)@ == claim_transition(old(self)@, id@).0,
            r == claim_transition(old(self)@, id@).1,
    {
        proof {
            lemma_contains_key(self.entries@, id@);
        }
        match self.index_of(id) {
            Some(i) => {
                proof {
                    lemma_value_at(self.entries@, id@, i as int);
                    lemma_remove_at(self.entries@, id@, i as int);
                }
                let entry = self.entries.remove(i);
                Ok(entry.1)
            },
            None => Err(BrokerError::NotFound),
        }
    }

    /// Remove the pending entry for `id`, if any.
    ///
    /// Idempotent: cancelling an identifier that is unknown, already
    /// delivered, or already cancelled succeeds as a no-op, so a cancel that
    /// races a very late delivery never fails on the cancelling side.
    pub fn cancel(&mut self, id: &str) -> (r: Result<(), BrokerError>)
        requires
            old(self).wf(),
        ensures
            final(self).wf(),
            final(self)@ == cancel_transition(old(self)@, id@).0,
            r == cancel_transition(old(self)@, id@).1,
    {
        proof {
            lemma_contains_key(self.entries@, id@);
        }
        match self.index_of(id) {
            Some(i) => {
                proof {
                    lemma_remove_at(self.entries@, id@, i as int);
                }
                let _ = self.entries.remove(i);
            },
            None => {
                proof {
                    assert(self@.remove(id@) =~= self@);
                }
            },
        }
        Ok(())
    }
}

} // verus!
