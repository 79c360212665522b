//! The routing-identity filter: per-topic newest-peer tracking with a bounded
//! store of stale identities.
//!
//! When a peer reconnects to a routed reader under a new identity, stragglers
//! still arriving under the old identity for the same topic must be rejected.
//! The filter keeps, per topic, one current identity, and remembers retired
//! `(topic, identity)` pairs in a least-recently-used cache of fixed
//! capacity; a pair that has aged out of the cache is admitted again.

use crate::bytes_util::{bytes_eq, clone_bytes};
use crate::error::TransportError;
use vstd::prelude::*;
use vstd::seq_lib::*;

verus! {

#[verifier::external_type_specification]
#[verifier::external_body]
#[verifier::reject_recursive_types(K)]
#[verifier::reject_recursive_types(V)]
#[verifier::reject_recursive_types(S)]
pub struct ExLruCache<K, V, S>(lru::LruCache<K, V, S>);

/// The retired `(topic, identity)` pairs a cache holds, most recently used
/// first.
pub uninterp spec fn expired_entries(c: lru::LruCache<(Vec<u8>, Vec<u8>), (), std::collections::hash_map::RandomState>) -> Seq<
    (Seq<u8>, Seq<u8>),
>;

/// The capacity a cache was created with.
pub uninterp spec fn expired_capacity(c: lru::LruCache<(Vec<u8>, Vec<u8>), (), std::collections::hash_map::RandomState>) -> nat;

/// How a put reorders a recency sequence: the pair moves (or is inserted) at
/// the front; when the sequence is new and full, the least recently used
/// entry at the back leaves.
pub open spec fn lru_put_seq(
    s: Seq<(Seq<u8>, Seq<u8>)>,
    kv: (Seq<u8>, Seq<u8>),
    cap: nat,
) -> Seq<(Seq<u8>, Seq<u8>)> {
    if s.contains(kv) {
        seq![kv] + s.remove_value(kv)
    } else if s.len() >= cap {
        seq![kv] + s.drop_last()
    } else {
        seq![kv] + s
    }
}

/// Relies on `lru::LruCache::with_hasher`, seeded with the standard
/// hasher: a fresh cache is empty and was created with capacity `cap`.
#[verifier::external_body]
fn lru_new(cap: usize) -> (r: lru::LruCache<(Vec<u8>, Vec<u8>), (), std::collections::hash_map::RandomState>)
    requires
        cap >= 1,
    ensures
        expired_entries(r) == Seq::<(Seq<u8>, Seq<u8>)>::empty(),
        expired_capacity(r) == cap,
{
    lru::LruCache::with_hasher(
        std::num::NonZeroUsize::new(cap).unwrap(),
        std::collections::hash_map::RandomState::new(),
    )
}

/// Relies on `lru::LruCache::contains`: reports membership and does not
/// change the recency order.
#[verifier::external_body]
fn lru_contains(c: &lru::LruCache<(Vec<u8>, Vec<u8>), (), std::collections::hash_map::RandomState>, topic: &[u8], id: &[u8]) -> (r: bool)
    ensures
        r == expired_entries(*c).contains((topic@, id@)),
{
    c.contains(&(topic.to_vec(), id.to_vec()))
}

/// Relies on `lru::LruCache::put`: inserts or refreshes the pair at the most
/// recent position and, when a new pair arrives at capacity, evicts the least
/// recently used one.
#[verifier::external_body]
fn lru_put(c: &mut lru::LruCache<(Vec<u8>, Vec<u8>), (), std::collections::hash_map::RandomState>, topic: Vec<u8>, id: Vec<u8>)
    ensures
        expired_entries(*final(c)) == lru_put_seq(
            expired_entries(*old(c)),
            (topic@, id@),
            expired_capacity(*old(c)),
        ),
        expired_capacity(*final(c)) == expired_capacity(*old(c)),
{
    c.put((topic, id), ());
}

/// The per-topic current identities. Holds a `hashbrown::HashMap` keyed by
/// topic bytes; its contents are named by [`current_entries`].
#[verifier::external_body]
pub struct TopicIdMap {
    inner: hashbrown::HashMap<Vec<u8>, Vec<u8>>,
}

/// The identity map a `TopicIdMap` holds.
pub uninterp spec fn current_entries(m: TopicIdMap) -> Map<Seq<u8>, Seq<u8>>;

/// A map with no entries.
pub open spec fn no_current_entries() -> Map<Seq<u8>, Seq<u8>> {
    Map::empty()
}

/// Relies on `hashbrown::HashMap::with_capacity`: a fresh map is empty.
#[verifier::external_body]
fn map_new(capacity: usize) -> (r: TopicIdMap)
    ensures
        current_entries(r) == no_current_entries(),
{
    TopicIdMap { inner: hashbrown::HashMap::with_capacity(capacity) }
}

/// Relies on `hashbrown::HashMap::get`: returns the value the key maps to,
/// if any.
#[verifier::external_body]
fn map_get(m: &TopicIdMap, k: &[u8]) -> (r: Option<Vec<u8>>)
    ensures
        match r {
            Some(v) => current_entries(*m).contains_key(k@) && v@ == current_entries(*m)[k@],
            None => !current_entries(*m).contains_key(k@),
        },
{
    m.inner.get(k).cloned()
}

/// Relies on `hashbrown::HashMap::insert`: maps the key to the value,
/// leaving the other entries as they were.
#[verifier::external_body]
fn map_insert(m: &mut TopicIdMap, k: Vec<u8>, v: Vec<u8>)
    ensures
        current_entries(*final(m)) == current_entries(*old(m)).insert(k@, v@),
{
    m.inner.insert(k, v);
}

/// The view of an optional routing identity.
pub open spec fn rid_view(rid: Option<&Vec<u8>>) -> Option<Seq<u8>> {
    match rid {
        Some(v) => Some(v@),
        None => None,
    }
}

/// The routing-identity filter. See the module documentation for the policy.
pub struct RoutingIdFilter {
    ids: TopicIdMap,
    expired_routing_ids: lru::LruCache<(Vec<u8>, Vec<u8>), (), std::collections::hash_map::RandomState>,
}

impl RoutingIdFilter {
    /// The current identity per topic.
    pub closed spec fn current(self) -> Map<Seq<u8>, Seq<u8>> {
        current_entries(self.ids)
    }

    /// The retired pairs, most recently retired or refreshed first.
    pub closed spec fn expired(self) -> Seq<(Seq<u8>, Seq<u8>)> {
        expired_entries(self.expired_routing_ids)
    }

    /// The capacity of the retired-pair store.
    pub closed spec fn cap(self) -> nat {
        expired_capacity(self.expired_routing_ids)
    }

    /// The filter's invariant: the store is within capacity and free of
    /// duplicates, a topic's current identity is never also retired for that
    /// topic, and every retired pair belongs to a topic that has a current
    /// identity.
    pub open spec fn wf(self) -> bool {
        &&& self.cap() >= 1
        &&& self.expired().len() <= self.cap()
        &&& self.expired().no_duplicates()
        &&& (forall|t: Seq<u8>| #[trigger]
            self.current().contains_key(t) ==> !self.expired().contains((t, self.current()[t])))
        &&& (forall|p: (Seq<u8>, Seq<u8>)| #[trigger]
            self.expired().contains(p) ==> self.current().contains_key(p.0))
    }

    /// What `allow` answers in a given state: a frame without an identity
    /// always passes; a first identity for a topic passes; the current
    /// identity passes; a retired identity is refused; any other identity is
    /// new and passes.
    pub open spec fn allow_decision(self, topic: Seq<u8>, rid: Option<Seq<u8>>) -> bool {
        match rid {
            None => true,
            Some(id) => {
                if !self.current().contains_key(topic) {
                    true
                } else if self.current()[topic] == id {
                    true
                } else {
                    !self.expired().contains((topic, id))
                }
            },
        }
    }

    /// How `allow` moves the state: recording a first identity, or retiring
    /// the previous one on a switch; refused frames and plain passes leave
    /// the state as it was.
    pub open spec fn allow_transition(self, post: Self, topic: Seq<u8>, rid: Option<Seq<u8>>) -> bool {
        match rid {
            None => post.current() == self.current() && post.expired() == self.expired(),
            Some(id) => {
                if !self.current().contains_key(topic) {
                    post.current() == self.current().insert(topic, id) && post.expired()
                        == self.expired()
                } else if self.current()[topic] == id {
                    post.current() == self.current() && post.expired() == self.expired()
                } else if self.expired().contains((topic, id)) {
                    post.current() == self.current() && post.expired() == self.expired()
                } else {
                    post.current() == self.current().insert(topic, id) && post.expired()
                        == lru_put_seq(
                        self.expired(),
                        (topic, self.current()[topic]),
                        self.cap(),
                    )
                }
            },
        }
    }

    /// Create a filter whose retired-pair store holds `size` entries.
    /// Refused when `size` is zero.
    pub fn new(size: usize) -> (r: Result<Self, TransportError>)
        ensures
            r is Ok <==> size >= 1,
            r matches Ok(f) ==> {
                &&& f.wf()
                &&& f.current() == no_current_entries()
                &&& f.expired() == Seq::<(Seq<u8>, Seq<u8>)>::empty()
                &&& f.cap() == size
            },
            r matches Err(e) ==> e is InvalidConfig,
    {
        if size == 0 {
            return Err(
                TransportError::InvalidConfig {
                    field: String::from_str("routing_ids_cache_size"),
                    reason: String::from_str("routing id cache size must be positive"),
                },
            );
        }
        Ok(RoutingIdFilter { ids: map_new(size), expired_routing_ids: lru_new(size) })
    }

    /// Decide whether a frame on `topic` carrying `routing_id` passes, and
    /// record the identity movement this implies.
    pub fn allow(&mut self, topic: &[u8], routing_id: &Option<&Vec<u8>>) -> (r: bool)
        requires
            old(self).wf(),
        ensures
            final(self).wf(),
            final(self).cap() == old(self).cap(),
            r == old(self).allow_decision(topic@, rid_view(*routing_id)),
            old(self).allow_transition(*final(self), topic@, rid_view(*routing_id)),
    {
        let rid = match routing_id {
            Some(rid) => *rid,
            None => {
                return true;
            },
        };
        match map_get(&self.ids, topic) {
            None => {
                // First identity seen for this topic: record it.
                proof {
                    assert(!old(self).expired().contains((topic@, rid@)));
                }
                map_insert(&mut self.ids, vstd::slice::slice_to_vec(topic), clone_bytes(rid));
                proof {
                    lemma_first_identity_wf(*old(self), *self, topic@, rid@);
                }
                true
            },
            Some(current_valid_routing_id) => {
                if bytes_eq(current_valid_routing_id.as_slice(), rid.as_slice()) {
                    true
                } else if lru_contains(&self.expired_routing_ids, topic, rid.as_slice()) {
                    // The identity was retired for this topic: refuse it.
                    false
                } else {
                    // A new identity for this topic: retire the previous one.
                    lru_put(
                        &mut self.expired_routing_ids,
                        vstd::slice::slice_to_vec(topic),
                        current_valid_routing_id,
                    );
                    map_insert(&mut self.ids, vstd::slice::slice_to_vec(topic), clone_bytes(rid));
                    proof {
                        lemma_switch_wf(*old(self), *self, topic@, rid@);
                    }
                    true
                }
            },
        }
    }
}

/// Only the put pair is new in a recency sequence after a put, the result
/// stays within capacity, and no duplicates appear.
proof fn lemma_lru_put_seq_members(s: Seq<(Seq<u8>, Seq<u8>)>, kv: (Seq<u8>, Seq<u8>), cap: nat)
    requires
        !s.contains(kv),
        cap >= 1,
        s.len() <= cap,
    ensures
        forall|p: (Seq<u8>, Seq<u8>)| #[trigger]
            lru_put_seq(s, kv, cap).contains(p) ==> p == kv || s.contains(p),
        lru_put_seq(s, kv, cap).len() <= cap,
        s.no_duplicates() ==> lru_put_seq(s, kv, cap).no_duplicates(),
{
    let out = lru_put_seq(s, kv, cap);
    let rest = if s.len() >= cap {
        s.drop_last()
    } else {
        s
    };
    assert(out == seq![kv] + rest);
    assert(out[0] == kv);
    assert(forall|i: int| 0 <= i < rest.len() ==> rest[i] == s[i]);
    assert forall|p: (Seq<u8>, Seq<u8>)| #[trigger] out.contains(p) implies p == kv || s.contains(
        p,
    ) by {
        if p != kv {
            let i = choose|i: int| 0 <= i < out.len() && out[i] == p;
            assert(out[i] == p);
            assert(i != 0);
            assert(s[i - 1] == p);
            assert(s.contains(p));
        }
    }
    if s.no_duplicates() {
        assert forall|i: int, j: int| 0 <= i < j < out.len() implies out[i] != out[j] by {
            assert(out[j] == s[j - 1]);
            assert(s.contains(s[j - 1]));
            if i > 0 {
                assert(out[i] == s[i - 1]);
            } else {
                assert(out[i] == kv);
            }
        }
    }
}

// ---------------------------------------------------------------------------
// Laws of the filter.
// ---------------------------------------------------------------------------
/// At any time the filter holds at most one current identity per topic.
pub proof fn lemma_current_identity_unique(
    f: RoutingIdFilter,
    t: Seq<u8>,
    id1: Seq<u8>,
    id2: Seq<u8>,
)
    requires
        f.current().contains_key(t),
        f.current()[t] == id1,
        f.current()[t] == id2,
    ensures
        id1 == id2,
{
}

/// A put keeps every pair of the sequence except, at capacity, the least
/// recently used one.
proof fn lemma_lru_put_seq_keeps(
    s: Seq<(Seq<u8>, Seq<u8>)>,
    kv: (Seq<u8>, Seq<u8>),
    cap: nat,
    p: (Seq<u8>, Seq<u8>),
)
    requires
        s.no_duplicates(),
        !s.contains(kv),
        s.contains(p),
        cap >= 1,
        s.len() <= cap,
        s.len() < cap || p != s.last(),
    ensures
        lru_put_seq(s, kv, cap).contains(p),
{
    let out = lru_put_seq(s, kv, cap);
    let i = choose|i: int| 0 <= i < s.len() && s[i] == p;
    if s.len() >= cap {
        if i == s.len() - 1 {
            assert(p == s.last());
        }
        assert(s.drop_last()[i] == p);
        assert(out[i + 1] == p);
    } else {
        assert(out[i + 1] == p);
    }
}

/// An identity denied for a topic stays denied across any further call,
/// until the bounded store evicts its pair: a call leaves every retired pair
/// in place except, at capacity, the least recently used one.
pub proof fn lemma_denied_remains_denied(
    pre: RoutingIdFilter,
    post: RoutingIdFilter,
    topic: Seq<u8>,
    rid: Option<Seq<u8>>,
    t: Seq<u8>,
    id: Seq<u8>,
)
    requires
        pre.wf(),
        pre.allow_transition(post, topic, rid),
        pre.expired().contains((t, id)),
        pre.expired().len() < pre.cap() || (t, id) != pre.expired().last(),
    ensures
        post.expired().contains((t, id)),
        !post.allow_decision(t, Some(id)),
{
    assert(pre.current().contains_key(t));
    assert(pre.current()[t] != id) by {
        if pre.current()[t] == id {
            assert(pre.expired().contains((t, pre.current()[t])));
        }
    }
    match rid {
        None => {},
        Some(new_id) => {
            if pre.current().contains_key(topic) && pre.current()[topic] != new_id && !pre
                .expired().contains((topic, new_id)) {
                let kv = (topic, pre.current()[topic]);
                assert(!pre.expired().contains(kv));
                lemma_lru_put_seq_keeps(pre.expired(), kv, pre.cap(), (t, id));
                if t == topic {
                    assert(post.current()[t] == new_id);
                    assert(new_id != id);
                }
            }
        },
    }
}

/// When the store stands at capacity, a switch that retires one more pair
/// evicts the least recently used pair, and the evicted identity is admitted
/// again on its next appearance.
pub proof fn lemma_capacity_eviction_readmits(
    pre: RoutingIdFilter,
    post: RoutingIdFilter,
    topic: Seq<u8>,
    new_id: Seq<u8>,
    p: (Seq<u8>, Seq<u8>),
)
    requires
        pre.wf(),
        pre.allow_transition(post, topic, Some(new_id)),
        pre.current().contains_key(topic),
        pre.current()[topic] != new_id,
        !pre.expired().contains((topic, new_id)),
        pre.expired().len() == pre.cap(),
        p == pre.expired().last(),
    ensures
        !post.expired().contains(p),
        post.allow_decision(p.0, Some(p.1)),
{
    let s = pre.expired();
    let kv = (topic, pre.current()[topic]);
    assert(!s.contains(kv));
    assert(s.contains(p));
    assert(p != kv);
    let out = lru_put_seq(s, kv, pre.cap());
    assert(out == seq![kv] + s.drop_last());
    assert forall|i: int| 0 <= i < out.len() implies out[i] != p by {
        if i > 0 {
            assert(out[i] == s[i - 1]);
            assert(s[i - 1] != s[s.len() - 1]);
        }
    }
    if post.current().contains_key(p.0) && post.current()[p.0] != p.1 {
        assert(!post.expired().contains((p.0, p.1)));
    }
}

/// An identity whose pair is not (or no longer) in the bounded store is
/// admitted on its next appearance; in particular an evicted identity is
/// re-admitted.
pub proof fn lemma_absent_identity_admitted(f: RoutingIdFilter, t: Seq<u8>, id: Seq<u8>)
    requires
        !f.expired().contains((t, id)),
    ensures
        f.allow_decision(t, Some(id)),
{
}

/// Recording a first identity for a topic preserves the invariant.
proof fn lemma_first_identity_wf(pre: RoutingIdFilter, post: RoutingIdFilter, t: Seq<u8>, id: Seq<
    u8,
>)
    requires
        pre.wf(),
        !pre.current().contains_key(t),
        post.current() == pre.current().insert(t, id),
        post.expired() == pre.expired(),
        post.cap() == pre.cap(),
    ensures
        post.wf(),
{
    assert forall|t2: Seq<u8>| #[trigger] post.current().contains_key(t2) implies !post.expired()
        .contains((t2, post.current()[t2])) by {
        if t2 == t {
            assert(!pre.expired().contains((t, id)));
        }
    }
}

/// Retiring the previous identity on a switch preserves the invariant.
proof fn lemma_switch_wf(pre: RoutingIdFilter, post: RoutingIdFilter, t: Seq<u8>, id: Seq<u8>)
    requires
        pre.wf(),
        pre.current().contains_key(t),
        pre.current()[t] != id,
        !pre.expired().contains((t, id)),
        post.current() == pre.current().insert(t, id),
        post.expired() == lru_put_seq(pre.expired(), (t, pre.current()[t]), pre.cap()),
        post.cap() == pre.cap(),
    ensures
        post.wf(),
{
    let kv = (t, pre.current()[t]);
    assert(!pre.expired().contains(kv));
    lemma_lru_put_seq_members(pre.expired(), kv, pre.cap());
    assert forall|t2: Seq<u8>| #[trigger] post.current().contains_key(t2) implies !post.expired()
        .contains((t2, post.current()[t2])) by {
        if t2 == t {
            assert(post.current()[t] == id);
            if post.expired().contains((t, id)) {
                assert((t, id) == kv || pre.expired().contains((t, id)));
            }
        } else {
            if post.expired().contains((t2, post.current()[t2])) {
                assert((t2, post.current()[t2]) == kv || pre.expired().contains(
                    (t2, post.current()[t2]),
                ));
            }
        }
    }
    assert forall|p: (Seq<u8>, Seq<u8>)| #[trigger] post.expired().contains(p) implies post
        .current().contains_key(p.0) by {
        assert(p == kv || pre.expired().contains(p));
    }
}

} // verus!
