//! Laws of the broker, stated over the registry model that the station's and
//! the radios' contracts speak of.
use vstd::prelude::*;

use crate::channel::RadioChannel;

verus! {

/// A write that announces a channel reaches every live observer of that
/// channel and none of an observer whose channel the announcement does not
/// include: with `o1` listening to `a`, `o2` listening to `b`, and the write's
/// expansion of `a` holding `a` but not `b`, the observers to mark dirty hold
/// `o1` and never `o2`.
pub proof fn lemma_selective_delivery<V, C: RadioChannel<V>>(
    registry: Map<u64, C>,
    value: V,
    a: C,
    b: C,
    o1: u64,
    o2: u64,
    stale: Seq<u64>,
    dirty: Seq<u64>,
)
    requires
        registry.contains_key(o1),
        registry[o1] == a,
        registry.contains_key(o2),
        registry[o2] == b,
        a.derived(value).contains(a),
        !a.derived(value).contains(b),
        !stale.contains(o1),
        crate::station::lists_exactly(
            dirty,
            crate::station::audience(registry, a.derived(value), stale),
        ),
    ensures
        dirty.contains(o1),
        !dirty.contains(o2),
{
    let aud = crate::station::audience(registry, a.derived(value), stale);
    assert(aud.contains(o1));
    assert(!aud.contains(o2));
    assert(dirty.to_set().contains(o1));
}

/// Where `a` expands to `[a, c]`, a write announcing `a` marks every live
/// observer of `a` or of `c`, and each of them once.
pub proof fn lemma_derivation_fan_out<V, C: RadioChannel<V>>(
    registry: Map<u64, C>,
    value: V,
    a: C,
    c: C,
    stale: Seq<u64>,
    dirty: Seq<u64>,
)
    requires
        a.derived(value) == seq![a, c],
        crate::station::lists_exactly(
            dirty,
            crate::station::audience(registry, a.derived(value), stale),
        ),
    ensures
        forall|o: u64|
            registry.contains_key(o) && (registry[o] == a || registry[o] == c) && !stale.contains(o)
                ==> #[trigger] dirty.contains(o),
        forall|o: u64|
            #[trigger] dirty.contains(o) ==> registry.contains_key(o) && (registry[o] == a
                || registry[o] == c),
        dirty.no_duplicates(),
{
    let chans = a.derived(value);
    let aud = crate::station::audience(registry, chans, stale);
    assert forall|o: u64|
        registry.contains_key(o) && (registry[o] == a || registry[o] == c) && !stale.contains(
            o,
        ) implies #[trigger] dirty.contains(o) by {
        if registry[o] == a {
            assert(chans[0] == a);
        } else {
            assert(chans[1] == c);
        }
        assert(aud.contains(o));
        assert(dirty.to_set().contains(o));
    }
    assert forall|o: u64| #[trigger] dirty.contains(o) implies registry.contains_key(o) && (
    registry[o] == a || registry[o] == c) by {
        assert(dirty.to_set().contains(o));
        assert(aud.contains(o));
        let k = choose|k: int| 0 <= k < chans.len() && chans[k] == registry[o];
    }
}

/// A write that announces nothing marks nobody dirty and leaves the registry
/// as it was.
pub proof fn lemma_silent_write_invisible<C>(registry: Map<u64, C>, stale: Seq<u64>, dirty: Seq<u64>)
    requires
        crate::station::lists_exactly(
            dirty,
            crate::station::audience(registry, Seq::<C>::empty(), stale),
        ),
    ensures
        dirty.len() == 0,
        crate::station::after_release(registry, Seq::<C>::empty(), stale) == registry,
{
    if dirty.len() > 0 {
        assert(dirty.to_set().contains(dirty[0]));
    }
}

/// One release notifies each observer exactly once if it listens to any of
/// the announced channels, however many of them it matches, and otherwise not
/// at all.
pub proof fn lemma_notified_once<C>(
    registry: Map<u64, C>,
    channels: Seq<C>,
    stale: Seq<u64>,
    dirty: Seq<u64>,
)
    requires
        crate::station::lists_exactly(dirty, crate::station::audience(registry, channels, stale)),
    ensures
        forall|o: u64|
            #[trigger] dirty.to_multiset().count(o) == if crate::station::audience(
                registry,
                channels,
                stale,
            ).contains(o) {
                1nat
            } else {
                0nat
            },
{
    broadcast use vstd::seq_lib::to_multiset_contains;

    dirty.lemma_multiset_has_no_duplicates();
    assert forall|o: u64|
        #[trigger] dirty.to_multiset().count(o) == if crate::station::audience(
            registry,
            channels,
            stale,
        ).contains(o) {
            1nat
        } else {
            0nat
        } by {
        assert(dirty.contains(o) == dirty.to_set().contains(o));
    }
}

/// Once an observer's antenna is torn down its entry is gone, whether or not
/// the registry still held it, and no later announcement reaches it.
pub proof fn lemma_teardown_safety<C>(
    registry: Map<u64, C>,
    observer: u64,
    channels: Seq<C>,
    stale: Seq<u64>,
)
    ensures
        !registry.remove(observer).contains_key(observer),
        !registry.contains_key(observer) ==> registry.remove(observer) == registry,
        !crate::station::audience(registry.remove(observer), channels, stale).contains(observer),
{
    if !registry.contains_key(observer) {
        assert(registry.remove(observer) =~= registry);
    }
}

/// Reading twice from the same observer with the same bound channel leaves the
/// registry as one read does: a single entry for that observer.
pub proof fn lemma_resubscribe_idempotent<C>(registry: Map<u64, C>, current: Option<u64>, channel: C)
    ensures
        crate::station::subscribed(
            crate::station::subscribed(registry, current, channel),
            current,
            channel,
        ) == crate::station::subscribed(registry, current, channel),
        current is Some ==> crate::station::subscribed(registry, current, channel).dom()
            == registry.dom().insert(current.unwrap()),
{
    match current {
        Some(o) => {
            assert(registry.insert(o, channel).insert(o, channel) =~= registry.insert(o, channel));
            assert(registry.insert(o, channel).dom() =~= registry.dom().insert(o));
        },
        None => {},
    }
}

} // verus!
