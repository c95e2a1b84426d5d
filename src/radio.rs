//! Radios: per-observer handles that read the station and open write guards.
use vstd::prelude::*;

use crate::channel::{ChannelSelection, RadioChannel};
use crate::station::RadioStation;

verus! {

/// Binds one observer to the channel it chose.
pub struct RadioAntenna<C> {
    pub(crate) channel: C,
    observer: u64,
}

impl<C> RadioAntenna<C> {
    /// The channel this antenna is bound to.
    pub closed spec fn bound(self) -> C {
        self.channel
    }

    /// The observer that owns this antenna.
    pub closed spec fn owner(self) -> u64 {
        self.observer
    }

    /// An antenna of `observer`, bound to `channel`.
    pub fn new(channel: C, observer: u64) -> (r: Self)
        ensures
            r.bound() == channel,
            r.owner() == observer,
    {
        RadioAntenna { channel, observer }
    }

    /// Tear the antenna down: its observer's entry leaves the registry. A
    /// station without such an entry is left as it was.
    pub fn detach<V>(self, station: &mut RadioStation<V, C>)
        where C: RadioChannel<V>,
        requires
            old(station).wf(),
        ensures
            final(station).wf(),
            final(station).contents() == old(station).contents(),
            final(station).listeners() == old(station).listeners().remove(self.owner()),
    {
        station.unlisten(self.observer);
    }
}

/// A write in progress: it holds the value, and the channels it will announce
/// once released.
pub struct RadioGuard<V, C> {
    value: V,
    channels: Vec<C>,
}

impl<V, C: RadioChannel<V>> RadioGuard<V, C> {
    /// The value as the write leaves it so far.
    pub closed spec fn held(self) -> V {
        self.value
    }

    /// The channels the release announces.
    pub closed spec fn announces(self) -> Seq<C> {
        self.channels@
    }

    /// Read the value being written.
    pub fn value(&self) -> (r: &V)
        ensures
            *r == self.held(),
    {
        &self.value
    }

    /// Change the value being written.
    pub fn value_mut(&mut self) -> (r: &mut V)
        ensures
            *r == old(self).held(),
            final(self).held() == *final(r),
            final(self).announces() == old(self).announces(),
    {
        &mut self.value
    }

    /// The value held and the channels to announce.
    pub(crate) fn into_parts(self) -> (r: (V, Vec<C>))
        ensures
            r.0 == self.held(),
            r.1@ == self.announces(),
    {
        (self.value, self.channels)
    }

    /// Announce nothing on release; the value is kept as it is.
    pub fn silence(&mut self)
        ensures
            final(self).held() == old(self).held(),
            final(self).announces() == Seq::<C>::empty(),
    {
        self.channels = Vec::new();
    }

    /// Announce what `sel` selects for `radio`, expanded on the value as the
    /// write leaves it so far; the value is kept as it is.
    pub fn select(&mut self, radio: &Radio<C>, sel: &ChannelSelection<C>)
        ensures
            final(self).held() == old(self).held(),
            final(self).announces() == crate::channel::announced(*sel, radio.bound(), old(self).held()),
    {
        self.channels = radio.announce(sel, &self.value);
    }

    /// The channels the release announces.
    pub fn channels(&self) -> (r: &Vec<C>)
        ensures
            r@ == self.announces(),
    {
        &self.channels
    }

    /// End the write: the value goes back to the station, and the observers
    /// listening to an announced channel are returned, each once, for the host
    /// to mark dirty. Where something was announced, the entries of `stale`
    /// observers are purged.
    pub fn release(self, station: &mut RadioStation<V, C>, stale: &Vec<u64>) -> (r: Vec<u64>)
        requires
            old(station).wf(),
            old(station).contents() is None,
        ensures
            final(station).wf(),
            final(station).contents() == Some(self.held()),
            crate::station::lists_exactly(
                r@,
                crate::station::audience(old(station).listeners(), self.announces(), stale@),
            ),
            final(station).listeners() == crate::station::after_release(
                old(station).listeners(),
                self.announces(),
                stale@,
            ),
    {
        let dirty = station.notify_listeners(&self.channels, stale);
        if self.channels.len() > 0 {
            station.cleanup(stale);
        }
        station.restore_value(self.value);
        dirty
    }
}

/// The handle an observer reads and writes the station through.
pub struct Radio<C> {
    antenna: RadioAntenna<C>,
}

impl<C> Radio<C> {
    /// The channel this radio is bound to.
    pub closed spec fn bound(self) -> C {
        self.antenna.bound()
    }

    /// The observer that owns this radio.
    pub closed spec fn owner(self) -> u64 {
        self.antenna.owner()
    }

    /// A radio over `antenna`.
    pub fn new(antenna: RadioAntenna<C>) -> (r: Self)
        ensures
            r.bound() == antenna.bound(),
            r.owner() == antenna.owner(),
    {
        Radio { antenna }
    }

    /// The channel this radio is bound to.
    pub fn channel(&self) -> (r: &C)
        ensures
            *r == self.bound(),
    {
        &self.antenna.channel
    }

    /// Bind the radio to another channel; later reads subscribe to it and
    /// later writes announce it.
    pub fn set_channel(&mut self, channel: C)
        ensures
            final(self).bound() == channel,
            final(self).owner() == old(self).owner(),
    {
        self.antenna.channel = channel;
    }

    /// Tear the radio down: its owner's entry leaves the registry.
    pub fn detach<V>(self, station: &mut RadioStation<V, C>)
        where C: RadioChannel<V>,
        requires
            old(station).wf(),
        ensures
            final(station).wf(),
            final(station).contents() == old(station).contents(),
            final(station).listeners() == old(station).listeners().remove(self.owner()),
    {
        self.antenna.detach(station);
    }

    /// Subscribe the calling observer `current`, if there is one, to the bound
    /// channel, unless it already listens to it.
    pub fn subscribe_if_not<V>(&self, station: &mut RadioStation<V, C>, current: Option<u64>)
        where C: RadioChannel<V>,
        requires
            old(station).wf(),
        ensures
            final(station).wf(),
            final(station).contents() == old(station).contents(),
            final(station).listeners() == crate::station::subscribed(
                old(station).listeners(),
                current,
                self.bound(),
            ),
    {
        match current {
            Some(rc) => {
                let channel = &self.antenna.channel;
                if !station.is_listening(channel, rc) {
                    station.listen(channel.copy_channel(), rc);
                } else {
                    assert(station.listeners().insert(rc, self.bound()) =~= station.listeners());
                }
            },
            None => {},
        }
    }

    /// Read the value, subscribing the calling observer to the bound channel.
    pub fn read<'a, V>(&self, station: &'a mut RadioStation<V, C>, current: Option<u64>) -> (r: &'a V)
        where C: RadioChannel<V>,
        requires
            old(station).wf(),
            old(station).contents() is Some,
        ensures
            final(station).wf(),
            Some(*r) == old(station).contents(),
            final(station).contents() == old(station).contents(),
            final(station).listeners() == crate::station::subscribed(
                old(station).listeners(),
                current,
                self.bound(),
            ),
    {
        self.subscribe_if_not(station, current);
        station.peek()
    }

    /// Open a write guard on the station's value that announces `announce`,
    /// expanded on the value as it stands, or nothing.
    fn open<V>(station: &mut RadioStation<V, C>, announce: Option<&C>) -> (r: RadioGuard<V, C>)
        where C: RadioChannel<V>,
        requires
            old(station).wf(),
            old(station).contents() is Some,
        ensures
            final(station).wf(),
            final(station).contents() is None,
            final(station).listeners() == old(station).listeners(),
            old(station).contents() == Some(r.held()),
            r.announces() == match announce {
                Some(c) => c.derived(r.held()),
                None => Seq::empty(),
            },
    {
        match station.take_value() {
            Some(value) => {
                let channels = match announce {
                    Some(c) => c.derive_channel(&value),
                    None => Vec::new(),
                };
                RadioGuard { value, channels }
            },
            None => {
                proof {
                    assert(false);
                }
                unreached()
            },
        }
    }

    /// Open a write that announces the bound channel, expanded on the value
    /// as it stands when the write opens. No other write may be open.
    pub fn write<V>(&self, station: &mut RadioStation<V, C>) -> (r: RadioGuard<V, C>)
        where C: RadioChannel<V>,
        requires
            old(station).wf(),
            old(station).contents() is Some,
        ensures
            final(station).wf(),
            final(station).contents() is None,
            final(station).listeners() == old(station).listeners(),
            old(station).contents() == Some(r.held()),
            r.announces() == self.bound().derived(r.held()),
    {
        Self::open(station, Some(&self.antenna.channel))
    }

    /// Open a write that announces `channel` in place of the bound one. No
    /// other write may be open.
    pub fn write_channel<V>(&self, channel: C, station: &mut RadioStation<V, C>) -> (r: RadioGuard<
        V,
        C,
    >)
        where C: RadioChannel<V>,
        requires
            old(station).wf(),
            old(station).contents() is Some,
        ensures
            final(station).wf(),
            final(station).contents() is None,
            final(station).listeners() == old(station).listeners(),
            old(station).contents() == Some(r.held()),
            r.announces() == channel.derived(r.held()),
    {
        Self::open(station, Some(&channel))
    }

    /// Open a write that announces nothing. No other write may be open.
    pub fn write_silently<V>(&self, station: &mut RadioStation<V, C>) -> (r: RadioGuard<V, C>)
        where C: RadioChannel<V>,
        requires
            old(station).wf(),
            old(station).contents() is Some,
        ensures
            final(station).wf(),
            final(station).contents() is None,
            final(station).listeners() == old(station).listeners(),
            old(station).contents() == Some(r.held()),
            r.announces() == Seq::<C>::empty(),
    {
        Self::open(station, None)
    }

    /// Hand the value to `cb`, subscribing the calling observer to the bound
    /// channel first.
    pub fn with<V, F: FnOnce(&V)>(&self, station: &mut RadioStation<V, C>, current: Option<u64>, cb: F)
        where C: RadioChannel<V>,
        requires
            old(station).wf(),
            old(station).contents() is Some,
            cb.requires((&old(station).contents().unwrap(),)),
        ensures
            final(station).wf(),
            final(station).contents() == old(station).contents(),
            final(station).listeners() == crate::station::subscribed(
                old(station).listeners(),
                current,
                self.bound(),
            ),
            cb.ensures((&old(station).contents().unwrap(),), ()),
    {
        self.subscribe_if_not(station, current);
        cb(station.peek());
    }

    /// Write with `f`, which takes the value and gives back the new one, and
    /// announce `channel` expanded on the value as it stood before. The
    /// observers to mark dirty are returned.
    fn write_then_release<V, F: FnOnce(V) -> V>(
        station: &mut RadioStation<V, C>,
        channel: &C,
        stale: &Vec<u64>,
        f: F,
    ) -> (dirty: Vec<u64>)
        where C: RadioChannel<V>,
        requires
            old(station).wf(),
            old(station).contents() is Some,
            f.requires((old(station).contents().unwrap(),)),
        ensures
            final(station).wf(),
            ({
                let before = old(station).contents().unwrap();
                let chans = channel.derived(before);
                &&& final(station).contents() is Some
                &&& f.ensures((before,), final(station).contents().unwrap())
                &&& crate::station::lists_exactly(
                    dirty@,
                    crate::station::audience(old(station).listeners(), chans, stale@),
                )
                &&& final(station).listeners() == crate::station::after_release(
                    old(station).listeners(),
                    chans,
                    stale@,
                )
            }),
    {
        let guard = Self::open(station, Some(channel));
        let (value, channels) = guard.into_parts();
        let value = f(value);
        RadioGuard { value, channels }.release(station, stale)
    }

    /// Write with `f`, which takes the value and gives back the new one, and
    /// announce the bound channel expanded on the value as it stood before.
    /// The observers to mark dirty are returned. No other write may be open.
    pub fn write_with<V, F: FnOnce(V) -> V>(
        &self,
        station: &mut RadioStation<V, C>,
        stale: &Vec<u64>,
        f: F,
    ) -> (dirty: Vec<u64>)
        where C: RadioChannel<V>,
        requires
            old(station).wf(),
            old(station).contents() is Some,
            f.requires((old(station).contents().unwrap(),)),
        ensures
            final(station).wf(),
            ({
                let before = old(station).contents().unwrap();
                let chans = self.bound().derived(before);
                &&& final(station).contents() is Some
                &&& f.ensures((before,), final(station).contents().unwrap())
                &&& crate::station::lists_exactly(
                    dirty@,
                    crate::station::audience(old(station).listeners(), chans, stale@),
                )
                &&& final(station).listeners() == crate::station::after_release(
                    old(station).listeners(),
                    chans,
                    stale@,
                )
            }),
    {
        Self::write_then_release(station, &self.antenna.channel, stale, f)
    }

    /// Write with `f` and announce `channel`, expanded on the value as it
    /// stood before. The observers to mark dirty are returned. No other write
    /// may be open.
    pub fn write_channel_with<V, F: FnOnce(V) -> V>(
        &self,
        channel: C,
        station: &mut RadioStation<V, C>,
        stale: &Vec<u64>,
        f: F,
    ) -> (dirty: Vec<u64>)
        where C: RadioChannel<V>,
        requires
            old(station).wf(),
            old(station).contents() is Some,
            f.requires((old(station).contents().unwrap(),)),
        ensures
            final(station).wf(),
            ({
                let before = old(station).contents().unwrap();
                let chans = channel.derived(before);
                &&& final(station).contents() is Some
                &&& f.ensures((before,), final(station).contents().unwrap())
                &&& crate::station::lists_exactly(
                    dirty@,
                    crate::station::audience(old(station).listeners(), chans, stale@),
                )
                &&& final(station).listeners() == crate::station::after_release(
                    old(station).listeners(),
                    chans,
                    stale@,
                )
            }),
    {
        Self::write_then_release(station, &channel, stale, f)
    }

    /// Write with `f`, which gives back the new value and the selection to
    /// announce; the selection is expanded on the new value. The selection and
    /// the observers to mark dirty are returned. No other write may be open.
    pub fn write_with_channel_selection<V, F: FnOnce(V) -> (V, ChannelSelection<C>)>(
        &self,
        station: &mut RadioStation<V, C>,
        stale: &Vec<u64>,
        f: F,
    ) -> (r: (ChannelSelection<C>, Vec<u64>))
        where C: RadioChannel<V>,
        requires
            old(station).wf(),
            old(station).contents() is Some,
            f.requires((old(station).contents().unwrap(),)),
        ensures
            final(station).wf(),
            ({
                let (sel, dirty) = r;
                let before = old(station).contents().unwrap();
                let after = final(station).contents().unwrap();
                let chans = crate::channel::announced(sel, self.bound(), after);
                &&& final(station).contents() is Some
                &&& f.ensures((before,), (after, sel))
                &&& crate::station::lists_exactly(
                    dirty@,
                    crate::station::audience(old(station).listeners(), chans, stale@),
                )
                &&& final(station).listeners() == crate::station::after_release(
                    old(station).listeners(),
                    chans,
                    stale@,
                )
            }),
    {
        let guard = Self::open(station, None);
        let (value, _) = guard.into_parts();
        let (value, sel) = f(value);
        let channels = self.announce(&sel, &value);
        let dirty = RadioGuard { value, channels }.release(station, stale);
        (sel, dirty)
    }

    /// The channels that `sel` announces for a write that leaves `value`.
    pub fn announce<V>(&self, sel: &ChannelSelection<C>, value: &V) -> (r: Vec<C>)
        where C: RadioChannel<V>,
        ensures
            r@ == crate::channel::announced(*sel, self.bound(), *value),
    {
        match sel {
            ChannelSelection::Current => self.antenna.channel.derive_channel(value),
            ChannelSelection::Select(c) => c.derive_channel(value),
            ChannelSelection::Silence => Vec::new(),
        }
    }
}

} // verus!
