//! The station: owner of the shared value and of the subscription registry.
use vstd::prelude::*;

use crate::channel::RadioChannel;

verus! {

/// One registry entry: an observer and the channel it listens to.
struct Subscription<C> {
    observer: u64,
    channel: C,
}

/// Holds the shared value and every observer's subscription.
///
/// Each observer listens to at most one channel at a time. The value is absent
/// exactly while a write guard holds it.
pub struct RadioStation<V, C> {
    value: Option<V>,
    listeners: Vec<Subscription<C>>,
    registry: Ghost<Map<u64, C>>,
}

/// The observers in `registry` that listen to one of `channels`, leaving out
/// the ones named in `stale`.
pub open spec fn audience<C>(registry: Map<u64, C>, channels: Seq<C>, stale: Seq<u64>) -> Set<u64> {
    Set::new(
        |o: u64| registry.contains_key(o) && channels.contains(registry[o]) && !stale.contains(o),
    )
}

/// The registry after a write that announced `channels` is released: stale
/// entries are purged where anything was announced.
pub open spec fn after_release<C>(registry: Map<u64, C>, channels: Seq<C>, stale: Seq<u64>) -> Map<
    u64,
    C,
> {
    if channels.len() > 0 {
        registry.remove_keys(stale.to_set())
    } else {
        registry
    }
}

/// The registry after the calling observer `current`, if there is one,
/// subscribes to `channel`.
pub open spec fn subscribed<C>(registry: Map<u64, C>, current: Option<u64>, channel: C) -> Map<
    u64,
    C,
> {
    match current {
        Some(o) => registry.insert(o, channel),
        None => registry,
    }
}

/// Whether one of the first `n` entries of `s` belongs to observer `o`.
spec fn held_before<C>(s: Seq<Subscription<C>>, n: int, o: u64) -> bool {
    exists|j: int| 0 <= j < n && #[trigger] s[j].observer == o
}

/// Whether `ids` is the set `s`, each member once.
pub open spec fn lists_exactly(ids: Seq<u64>, s: Set<u64>) -> bool {
    ids.no_duplicates() && ids.to_set() == s
}

/// Whether `c` occurs in `channels`.
pub fn contains_channel<V, C: RadioChannel<V>>(channels: &Vec<C>, c: &C) -> (r: bool)
    ensures
        r == channels@.contains(*c),
{
    let mut i: usize = 0;
    while i < channels.len()
        invariant
            i <= channels@.len(),
            forall|k: int| 0 <= k < i ==> channels@[k] != *c,
        decreases channels@.len() - i,
    {
        if channels[i].same_channel(c) {
            return true;
        }
        i = i + 1;
    }
    false
}

/// Whether `o` occurs in `ids`.
pub fn contains_observer(ids: &Vec<u64>, o: u64) -> (r: bool)
    ensures
        r == ids@.contains(o),
{
    let mut i: usize = 0;
    while i < ids.len()
        invariant
            i <= ids@.len(),
            forall|k: int| 0 <= k < i ==> ids@[k] != o,
        decreases ids@.len() - i,
    {
        if ids[i] == o {
            return true;
        }
        i = i + 1;
    }
    false
}

impl<V, C: RadioChannel<V>> RadioStation<V, C> {
    /// The registry: which channel each subscribed observer listens to.
    pub closed spec fn listeners(self) -> Map<u64, C> {
        self.registry@
    }

    /// The shared value, or `None` while a write guard holds it.
    pub closed spec fn contents(self) -> Option<V> {
        self.value
    }

    /// The registry entries agree with the registry map, one entry per observer.
    pub closed spec fn wf(self) -> bool {
        &&& forall|i: int, j: int|
            0 <= i < j < self.listeners@.len() ==> #[trigger] self.listeners@[i].observer
                != #[trigger] self.listeners@[j].observer
        &&& forall|i: int|
            0 <= i < self.listeners@.len() ==> self.registry@.contains_key(
                #[trigger] self.listeners@[i].observer,
            ) && self.registry@[self.listeners@[i].observer] == self.listeners@[i].channel
        &&& forall|o: u64|
            #[trigger] self.registry@.contains_key(o) ==> exists|i: int|
                0 <= i < self.listeners@.len() && #[trigger] self.listeners@[i].observer == o
    }

    /// A station holding `value`, with nobody subscribed.
    pub fn new(value: V) -> (r: Self)
        ensures
            r.wf(),
            r.contents() == Some(value),
            r.listeners() == Map::<u64, C>::empty(),
    {
        RadioStation { value: Some(value), listeners: Vec::new(), registry: Ghost(Map::empty()) }
    }

    /// The position of `observer`'s entry, if it has one.
    fn find(&self, observer: u64) -> (r: Option<usize>)
        requires
            self.wf(),
        ensures
            match r {
                Some(i) => i < self.listeners@.len() && self.listeners@[i as int].observer
                    == observer,
                None => !self.listeners().contains_key(observer),
            },
    {
        let mut i: usize = 0;
        while i < self.listeners.len()
            invariant
                self.wf(),
                i <= self.listeners@.len(),
                forall|k: int| 0 <= k < i ==> self.listeners@[k].observer != observer,
            decreases self.listeners@.len() - i,
        {
            if self.listeners[i].observer == observer {
                return Some(i);
            }
            i = i + 1;
        }
        None
    }

    /// Whether `observer` listens to `channel`.
    pub fn is_listening(&self, channel: &C, observer: u64) -> (r: bool)
        requires
            self.wf(),
        ensures
            r == (self.listeners().contains_key(observer) && self.listeners()[observer]
                == *channel),
    {
        match self.find(observer) {
            Some(i) => self.listeners[i].channel.same_channel(channel),
            None => false,
        }
    }

    /// Subscribe `observer` to `channel`, replacing what it listened to before.
    pub fn listen(&mut self, channel: C, observer: u64)
        requires
            old(self).wf(),
        ensures
            final(self).wf(),
            final(self).contents() == old(self).contents(),
            final(self).listeners() == old(self).listeners().insert(observer, channel),
    {
        let ghost chan = channel;
        let ghost pos: int;
        match self.find(observer) {
            Some(i) => {
                self.listeners.set(i, Subscription { observer, channel });
                proof {
                    pos = i as int;
                }
            },
            None => {
                self.listeners.push(Subscription { observer, channel });
                proof {
                    pos = self.listeners@.len() - 1;
                }
            },
        }
        self.registry = Ghost(self.registry@.insert(observer, chan));
        assert(self.listeners@[pos].observer == observer);
        assert forall|o: u64| #[trigger] self.registry@.contains_key(o) implies exists|i: int|
            0 <= i < self.listeners@.len() && #[trigger] self.listeners@[i].observer == o by {
            if o != observer {
                let k = choose|k: int|
                    0 <= k < old(self).listeners@.len() && #[trigger] old(
                        self,
                    ).listeners@[k].observer == o;
                assert(self.listeners@[k].observer == o);
            }
        }
    }

    /// Remove `observer`'s entry; nothing happens where it has none.
    pub fn unlisten(&mut self, observer: u64)
        requires
            old(self).wf(),
        ensures
            final(self).wf(),
            final(self).contents() == old(self).contents(),
            final(self).listeners() == old(self).listeners().remove(observer),
    {
        match self.find(observer) {
            Some(i) => {
                self.listeners.remove(i);
                self.registry = Ghost(self.registry@.remove(observer));
                assert forall|o: u64| #[trigger] self.registry@.contains_key(o) implies exists|
                    j: int,
                |
                    0 <= j < self.listeners@.len() && #[trigger] self.listeners@[j].observer
                        == o by {
                    let k = choose|k: int|
                        0 <= k < old(self).listeners@.len() && #[trigger] old(
                            self,
                        ).listeners@[k].observer == o;
                    if k < i {
                        assert(self.listeners@[k].observer == o);
                    } else {
                        assert(self.listeners@[k - 1].observer == o);
                    }
                }
            },
            None => {
                assert(self.registry@.remove(observer) =~= self.registry@);
            },
        }
    }

    /// Remove the entries of the observers named in `stale`: those whose
    /// context no longer exists.
    pub fn cleanup(&mut self, stale: &Vec<u64>)
        requires
            old(self).wf(),
        ensures
            final(self).wf(),
            final(self).contents() == old(self).contents(),
            final(self).listeners() == old(self).listeners().remove_keys(stale@.to_set()),
    {
        let mut k: usize = 0;
        while k < stale.len()
            invariant
                self.wf(),
                k <= stale@.len(),
                self.contents() == old(self).contents(),
                self.listeners() == old(self).listeners().remove_keys(
                    stale@.subrange(0, k as int).to_set(),
                ),
            decreases stale@.len() - k,
        {
            self.unlisten(stale[k]);
            proof {
                assert(stale@.subrange(0, k + 1) =~= stale@.subrange(0, k as int).push(
                    stale@[k as int],
                ));
                stale@.subrange(0, k as int).lemma_push_to_set_commute(stale@[k as int]);
                assert(self.listeners() =~= old(self).listeners().remove_keys(
                    stale@.subrange(0, k + 1).to_set(),
                ));
            }
            k = k + 1;
        }
        assert(stale@.subrange(0, stale@.len() as int) =~= stale@);
    }

    /// The observers that listen to one of `channels`, each once, leaving out
    /// those named in `stale`.
    pub fn notify_listeners(&self, channels: &Vec<C>, stale: &Vec<u64>) -> (r: Vec<u64>)
        requires
            self.wf(),
        ensures
            lists_exactly(r@, audience(self.listeners(), channels@, stale@)),
    {
        let ghost aud = audience(self.listeners(), channels@, stale@);
        let mut dirty: Vec<u64> = Vec::new();
        let mut i: usize = 0;
        while i < self.listeners.len()
            invariant
                self.wf(),
                i <= self.listeners@.len(),
                aud == audience(self.listeners(), channels@, stale@),
                dirty@.no_duplicates(),
                forall|k: int|
                    0 <= k < dirty@.len() ==> held_before(self.listeners@, i as int, #[trigger] dirty@[k]),
                forall|k: int| 0 <= k < dirty@.len() ==> aud.contains(#[trigger] dirty@[k]),
                forall|j: int|
                    0 <= j < i && aud.contains(#[trigger] self.listeners@[j].observer)
                        ==> dirty@.contains(self.listeners@[j].observer),
            decreases self.listeners@.len() - i,
        {
            let ghost d0 = dirty@;
            let sub = &self.listeners[i];
            let hit = contains_channel(channels, &sub.channel) && !contains_observer(
                stale,
                sub.observer,
            );
            if hit {
                proof {
                    if dirty@.contains(sub.observer) {
                        let k = choose|k: int| 0 <= k < dirty@.len() && dirty@[k] == sub.observer;
                        assert(held_before(self.listeners@, i as int, dirty@[k]));
                        let j = choose|j: int|
                            0 <= j < i && #[trigger] self.listeners@[j].observer == dirty@[k];
                        assert(self.listeners@[j].observer != self.listeners@[i as int].observer);
                    }
                }
                let ghost before = dirty@;
                dirty.push(sub.observer);
                proof {
                    assert forall|k: int| 0 <= k < dirty@.len() implies held_before(
                        self.listeners@,
                        i + 1,
                        #[trigger] dirty@[k],
                    ) by {
                        if k == dirty@.len() - 1 {
                            assert(self.listeners@[i as int].observer == dirty@[k]);
                        } else {
                            assert(dirty@[k] == before[k]);
                            assert(held_before(self.listeners@, i as int, before[k]));
                            let j = choose|j: int|
                                0 <= j < i && #[trigger] self.listeners@[j].observer == before[k];
                            assert(self.listeners@[j].observer == dirty@[k]);
                        }
                    }
                }
            }
            proof {
                assert forall|j: int|
                    0 <= j < i + 1 && aud.contains(#[trigger] self.listeners@[j].observer)
                        implies dirty@.contains(self.listeners@[j].observer) by {
                    if j == i {
                        assert(self.listeners().contains_key(self.listeners@[j].observer));
                        assert(hit);
                        assert(dirty@[dirty@.len() - 1] == self.listeners@[j].observer);
                    } else {
                        assert(d0.contains(self.listeners@[j].observer));
                        let k = choose|k: int|
                            0 <= k < d0.len() && d0[k] == self.listeners@[j].observer;
                        assert(dirty@[k] == d0[k]);
                    }
                }
            }
            i = i + 1;
        }
        proof {
            assert forall|o: u64| #[trigger] aud.contains(o) implies dirty@.contains(o) by {
                let j = choose|j: int|
                    0 <= j < self.listeners@.len() && #[trigger] self.listeners@[j].observer == o;
            }
            assert forall|o: u64| dirty@.contains(o) implies #[trigger] aud.contains(o) by {
                let k = choose|k: int| 0 <= k < dirty@.len() && dirty@[k] == o;
            }
            assert(dirty@.to_set() =~= aud);
        }
        dirty
    }

    /// Every subscribed observer, each once.
    pub fn observers(&self) -> (r: Vec<u64>)
        requires
            self.wf(),
        ensures
            lists_exactly(r@, self.listeners().dom()),
    {
        let mut ids: Vec<u64> = Vec::new();
        let mut i: usize = 0;
        while i < self.listeners.len()
            invariant
                self.wf(),
                i <= self.listeners@.len(),
                ids@.len() == i,
                forall|k: int| 0 <= k < i ==> ids@[k] == #[trigger] self.listeners@[k].observer,
            decreases self.listeners@.len() - i,
        {
            ids.push(self.listeners[i].observer);
            i = i + 1;
        }
        proof {
            assert forall|a: int, b: int| 0 <= a < b < ids@.len() implies ids@[a] != ids@[b] by {
                assert(self.listeners@[a].observer != self.listeners@[b].observer);
            }
            assert forall|o: u64| #[trigger] self.listeners().contains_key(o) implies ids@.contains(
                o,
            ) by {
                let j = choose|j: int|
                    0 <= j < self.listeners@.len() && #[trigger] self.listeners@[j].observer == o;
                assert(ids@[j] == o);
            }
            assert forall|o: u64| ids@.contains(o) implies #[trigger] self.listeners().contains_key(
                o,
            ) by {
                let k = choose|k: int| 0 <= k < ids@.len() && ids@[k] == o;
                assert(self.listeners@[k].observer == o);
            }
            assert(ids@.to_set() =~= self.listeners().dom());
        }
        ids
    }

    /// The current value, without subscribing anybody.
    pub fn peek(&self) -> (r: &V)
        requires
            self.contents() is Some,
        ensures
            Some(*r) == self.contents(),
    {
        match &self.value {
            Some(v) => v,
            None => {
                proof {
                    assert(false);
                }
                unreached()
            },
        }
    }

    /// Read the value, subscribing the calling observer `current`, if there is
    /// one, to `channel` unless it already listens to it.
    pub fn read(&mut self, channel: C, current: Option<u64>) -> (r: &V)
        requires
            old(self).wf(),
            old(self).contents() is Some,
        ensures
            final(self).wf(),
            Some(*r) == old(self).contents(),
            final(self).contents() == old(self).contents(),
            final(self).listeners() == subscribed(old(self).listeners(), current, channel),
    {
        match current {
            Some(o) => {
                if !self.is_listening(&channel, o) {
                    self.listen(channel, o);
                } else {
                    assert(self.listeners().insert(o, channel) =~= self.listeners());
                }
            },
            None => {},
        }
        self.peek()
    }

    /// Whether a write guard holds the value.
    pub fn is_writing(&self) -> (r: bool)
        ensures
            r == (self.contents() is None),
    {
        self.value.is_none()
    }

    /// Hand the value to a write guard; the station is empty until it returns.
    pub(crate) fn take_value(&mut self) -> (r: Option<V>)
        requires
            old(self).wf(),
        ensures
            final(self).wf(),
            r == old(self).contents(),
            final(self).contents() == None::<V>,
            final(self).listeners() == old(self).listeners(),
    {
        let mut out: Option<V> = None;
        core::mem::swap(&mut self.value, &mut out);
        assert(self.listeners@ == old(self).listeners@);
        assert(self.registry@ == old(self).registry@);
        out
    }

    /// Put back the value that a write guard held.
    pub(crate) fn restore_value(&mut self, value: V)
        requires
            old(self).wf(),
        ensures
            final(self).wf(),
            final(self).contents() == Some(value),
            final(self).listeners() == old(self).listeners(),
    {
        self.value = Some(value);
        assert(self.listeners@ == old(self).listeners@);
        assert(self.registry@ == old(self).registry@);
    }
}

} // verus!
