use vstd::prelude::*;
use crate::consumer::{replay, Mode, StreamEvent};
use crate::store::{created, incremented, namespace_accepted, SeriesKey, Metrics, MetricsError};

verus! {

/// How many times `k` occurs in `keys`.
pub open spec fn occurrences(keys: Seq<SeriesKey>, k: SeriesKey) -> nat
    decreases keys.len(),
{
    if keys.len() == 0 {
        0
    } else {
        occurrences(keys.drop_last(), k) + if keys.last() == k { 1nat } else { 0nat }
    }
}

/// The store after incrementing each key of `keys`, in order.
pub open spec fn increments(m: Map<SeriesKey, int>, keys: Seq<SeriesKey>) -> Map<SeriesKey, int>
    decreases keys.len(),
{
    if keys.len() == 0 {
        m
    } else {
        incremented(increments(m, keys.drop_last()), keys.last())
    }
}

/// The store after setting each (key, value) of `ops`, in order.
pub open spec fn sets(m: Map<SeriesKey, int>, ops: Seq<(SeriesKey, int)>) -> Map<SeriesKey, int>
    decreases ops.len(),
{
    if ops.len() == 0 {
        m
    } else {
        sets(m, ops.drop_last()).insert(ops.last().0, ops.last().1)
    }
}

/// Creating a store twice under one namespace fails both times or succeeds both
/// times, whatever the other settings; each store that is made starts empty, so
/// no store starts with another's series.
pub proof fn lemma_create_twice(
    namespace: Seq<char>,
    domain_a: Seq<char>,
    domain_b: Seq<char>,
    fold_a: bool,
    fold_b: bool,
    a: Result<Metrics, MetricsError>,
    b: Result<Metrics, MetricsError>,
)
    requires
        created(namespace, domain_a, fold_a, a),
        created(namespace, domain_b, fold_b, b),
    ensures
        a is Ok <==> b is Ok,
        !namespace_accepted(namespace) ==> a is Err,
        a is Ok ==> a->Ok_0@ == Map::<SeriesKey, int>::empty(),
        b is Ok ==> b->Ok_0@ == Map::<SeriesKey, int>::empty(),
{
}

/// While one store exists, creating another under its namespace succeeds, and
/// the new store starts empty, whatever the first one holds.
pub proof fn lemma_second_store(
    first: Metrics,
    default_domain: Seq<char>,
    fold_case: bool,
    second: Result<Metrics, MetricsError>,
)
    requires
        first.wf(),
        created(first.namespace_spec(), default_domain, fold_case, second),
    ensures
        second is Ok,
        second->Ok_0@ == Map::<SeriesKey, int>::empty(),
        second->Ok_0.series().dom() == Set::<SeriesKey>::empty(),
{
}

/// After a run of increments, a series that was absent holds exactly the number
/// of increments made to its key, whatever other series were incremented in
/// between; a key never incremented is still absent.
pub proof fn lemma_increments_count(m: Map<SeriesKey, int>, keys: Seq<SeriesKey>, k: SeriesKey)
    requires
        !m.contains_key(k),
        occurrences(keys, k) <= i64::MAX,
    ensures
        occurrences(keys, k) == 0 ==> !increments(m, keys).contains_key(k),
        occurrences(keys, k) > 0 ==> increments(m, keys).contains_key(k)
            && increments(m, keys)[k] == occurrences(keys, k),
    decreases keys.len(),
{
    if keys.len() > 0 {
        lemma_increments_count(m, keys.drop_last(), k);
    }
}

/// After a run of sets, a series holds the value of the last set to its key.
pub proof fn lemma_last_set_wins(m: Map<SeriesKey, int>, ops: Seq<(SeriesKey, int)>, j: int)
    requires
        0 <= j < ops.len(),
        forall|i: int| j < i < ops.len() ==> ops[i].0 != ops[j].0,
    ensures
        sets(m, ops).contains_key(ops[j].0),
        sets(m, ops)[ops[j].0] == ops[j].1,
    decreases ops.len(),
{
    if j < ops.len() - 1 {
        let p = ops.drop_last();
        assert forall|i: int| j < i < p.len() implies p[i].0 != p[j].0 by {
            assert(p[i] == ops[i]);
        }
        lemma_last_set_wins(m, p, j);
    }
}

/// Replaying `a` and then `b` gives the store that replaying `a + b` gives.
pub proof fn lemma_replay_concat(
    m: Map<SeriesKey, int>,
    a: Seq<StreamEvent>,
    b: Seq<StreamEvent>,
    mode: Mode,
    fold_case: bool,
    default_domain: Seq<char>,
)
    ensures
        replay(replay(m, a, mode, fold_case, default_domain), b, mode, fold_case, default_domain)
            == replay(m, a + b, mode, fold_case, default_domain),
    decreases b.len(),
{
    if b.len() > 0 {
        lemma_replay_concat(m, a, b.drop_last(), mode, fold_case, default_domain);
        assert((a + b).drop_last() =~= a + b.drop_last());
    } else {
        assert(a + b =~= a);
    }
}

/// A session that ends after the first `k` events, followed by one that
/// delivers the rest, leaves the store as one uninterrupted session would:
/// nothing is lost across a reconnect.
pub proof fn lemma_reconnect_loses_nothing(
    m: Map<SeriesKey, int>,
    evs: Seq<StreamEvent>,
    k: int,
    mode: Mode,
    fold_case: bool,
    default_domain: Seq<char>,
)
    requires
        0 <= k <= evs.len(),
    ensures
        replay(
            replay(m, evs.subrange(0, k), mode, fold_case, default_domain),
            evs.subrange(k, evs.len() as int),
            mode,
            fold_case,
            default_domain,
        ) == replay(m, evs, mode, fold_case, default_domain),
{
    lemma_replay_concat(m, evs.subrange(0, k), evs.subrange(k, evs.len() as int), mode, fold_case, default_domain);
    assert(evs.subrange(0, k) + evs.subrange(k, evs.len() as int) =~= evs);
}

} // verus!
