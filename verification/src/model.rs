//! An abstract model of event routing, used to state the façade's
//! end-to-end laws.
//!
//! The key-expression matching grammar belongs to the engine, so every
//! statement here takes the matching relation as a parameter: the laws
//! hold for any relation the engine implements. Queries are modelled
//! against the keyed store their replies are drawn from; subscriptions
//! against the registrations a sample is routed to.

use vstd::prelude::*;

verus! {

/// The store a query's replies are drawn from: one payload per key. A put
/// binds the key, a deletion marker removes it.
pub open spec fn store_put(
    store: Map<Seq<char>, Seq<u8>>,
    key: Seq<char>,
    payload: Seq<u8>,
) -> Map<Seq<char>, Seq<u8>> {
    store.insert(key, payload)
}

/// The store after a deletion marker on `key`.
pub open spec fn store_delete(
    store: Map<Seq<char>, Seq<u8>>,
    key: Seq<char>,
) -> Map<Seq<char>, Seq<u8>> {
    store.remove(key)
}

/// The replies a `get` on `selector` yields: one per stored key the
/// selector matches, carrying that key's payload.
pub open spec fn replies(
    store: Map<Seq<char>, Seq<u8>>,
    selector: Seq<char>,
    matches: spec_fn(Seq<char>, Seq<char>) -> bool,
) -> Set<(Seq<char>, Seq<u8>)> {
    Set::new(
        |p: (Seq<char>, Seq<u8>)|
            store.contains_key(p.0) && store[p.0] == p.1 && matches(selector, p.0),
    )
}

/// Round trip: after a put of `payload` on `key`, a `get` on any selector
/// matching `key` yields exactly one reply for `key`, and it carries
/// `payload`.
pub proof fn lemma_put_then_get_round_trip(
    store: Map<Seq<char>, Seq<u8>>,
    key: Seq<char>,
    payload: Seq<u8>,
    selector: Seq<char>,
    matches: spec_fn(Seq<char>, Seq<char>) -> bool,
)
    requires
        matches(selector, key),
    ensures
        replies(store_put(store, key, payload), selector, matches).contains((key, payload)),
        forall|other: Seq<u8>|
            replies(store_put(store, key, payload), selector, matches).contains((key, other))
                ==> other == payload,
{
}

/// Deletion: after a put of `payload` on `key` and then a deletion marker
/// on `key`, a `get` on any selector yields no reply for `key` at all —
/// in particular none carrying the put.
pub proof fn lemma_put_then_delete_then_get(
    store: Map<Seq<char>, Seq<u8>>,
    key: Seq<char>,
    payload: Seq<u8>,
    selector: Seq<char>,
    matches: spec_fn(Seq<char>, Seq<char>) -> bool,
)
    ensures
        forall|other: Seq<u8>|
            !replies(store_delete(store_put(store, key, payload), key), selector, matches).contains(
                (key, other),
            ),
{
}

/// One subscription registration: the handle's identity and the key
/// expression it was declared on.
pub struct Registration {
    pub id: nat,
    pub key_expr: Seq<char>,
}

/// The handles one published sample is routed to: each registration whose
/// key expression matches the sample's key, once, in registration order.
pub open spec fn routed_to(
    subs: Seq<Registration>,
    key: Seq<char>,
    matches: spec_fn(Seq<char>, Seq<char>) -> bool,
) -> Seq<nat>
    decreases subs.len(),
{
    if subs.len() == 0 {
        Seq::empty()
    } else {
        let rest = routed_to(subs.drop_last(), key, matches);
        if matches(subs.last().key_expr, key) {
            rest.push(subs.last().id)
        } else {
            rest
        }
    }
}

/// How often `id` occurs in a routing list.
pub open spec fn occurrences(ids: Seq<nat>, id: nat) -> nat
    decreases ids.len(),
{
    if ids.len() == 0 {
        0
    } else {
        occurrences(ids.drop_last(), id) + if ids.last() == id {
            1nat
        } else {
            0
        }
    }
}

/// A handle that is not registered receives nothing.
pub proof fn lemma_unregistered_receives_nothing(
    subs: Seq<Registration>,
    key: Seq<char>,
    matches: spec_fn(Seq<char>, Seq<char>) -> bool,
    id: nat,
)
    requires
        forall|j: int| 0 <= j < subs.len() ==> subs[j].id != id,
    ensures
        occurrences(routed_to(subs, key, matches), id) == 0,
    decreases subs.len(),
{
    if subs.len() > 0 {
        assert(forall|j: int| 0 <= j < subs.drop_last().len() ==> subs.drop_last()[j] == subs[j]);
        lemma_unregistered_receives_nothing(subs.drop_last(), key, matches, id);
        let rest = routed_to(subs.drop_last(), key, matches);
        if matches(subs.last().key_expr, key) {
            assert(rest.push(subs.last().id).drop_last() =~= rest);
            assert(subs.last() == subs[subs.len() - 1]);
        }
    }
}

/// A registered handle whose key expression matches the sample's key
/// receives the sample exactly once.
pub proof fn lemma_matching_subscriber_receives_once(
    subs: Seq<Registration>,
    key: Seq<char>,
    matches: spec_fn(Seq<char>, Seq<char>) -> bool,
    i: int,
)
    requires
        forall|a: int, b: int| 0 <= a < b < subs.len() ==> subs[a].id != subs[b].id,
        0 <= i < subs.len(),
        matches(subs[i].key_expr, key),
    ensures
        occurrences(routed_to(subs, key, matches), subs[i].id) == 1,
    decreases subs.len(),
{
    let rest = routed_to(subs.drop_last(), key, matches);
    assert(forall|j: int| 0 <= j < subs.drop_last().len() ==> subs.drop_last()[j] == subs[j]);
    if i == subs.len() - 1 {
        assert(subs.last() == subs[i]);
        assert(forall|j: int| 0 <= j < subs.drop_last().len() ==> subs.drop_last()[j].id
            != subs[i].id);
        lemma_unregistered_receives_nothing(subs.drop_last(), key, matches, subs[i].id);
        assert(rest.push(subs.last().id).drop_last() =~= rest);
    } else {
        assert(subs.drop_last()[i] == subs[i]);
        lemma_matching_subscriber_receives_once(subs.drop_last(), key, matches, i);
        assert(subs.last() == subs[subs.len() - 1]);
        assert(subs.last().id != subs[i].id);
        if matches(subs.last().key_expr, key) {
            assert(rest.push(subs.last().id).drop_last() =~= rest);
        }
    }
}

/// Two subscribers declared on overlapping key expressions both receive a
/// sample published on a key matching both, each exactly once.
pub proof fn lemma_overlapping_subscribers_each_once(
    subs: Seq<Registration>,
    key: Seq<char>,
    matches: spec_fn(Seq<char>, Seq<char>) -> bool,
    i: int,
    j: int,
)
    requires
        forall|a: int, b: int| 0 <= a < b < subs.len() ==> subs[a].id != subs[b].id,
        0 <= i < subs.len(),
        0 <= j < subs.len(),
        i != j,
        matches(subs[i].key_expr, key),
        matches(subs[j].key_expr, key),
    ensures
        occurrences(routed_to(subs, key, matches), subs[i].id) == 1,
        occurrences(routed_to(subs, key, matches), subs[j].id) == 1,
{
    lemma_matching_subscriber_receives_once(subs, key, matches, i);
    lemma_matching_subscriber_receives_once(subs, key, matches, j);
}

} // verus!
