//! Channels: the tags by which observers say which changes concern them.
use vstd::prelude::*;

verus! {

/// A tag that observers subscribe to and that writes announce.
///
/// `V` is the type of the shared value. Equality of channels is plain value
/// equality; `derive_channel` expands one announced channel into every channel
/// that a write to it concerns.
pub trait RadioChannel<V>: Sized {
    /// The channels that a write announcing `self` on `value` notifies; by
    /// default `self` alone.
    open spec fn derived(self, value: V) -> Seq<Self> {
        seq![self]
    }

    /// Executable equality of two channels.
    fn same_channel(&self, other: &Self) -> (r: bool)
        ensures
            r == (*self == *other),
    ;

    /// A copy of the channel, equal to it.
    fn copy_channel(&self) -> (r: Self)
        ensures
            r == *self,
    ;

    /// Expand `self` into the channels that a write on `value` notifies.
    fn derive_channel(&self, value: &V) -> (r: Vec<Self>)
        ensures
            r@ == self.derived(*value),
    ;
}

/// Which channel, if any, a write announces once it is done.
#[derive(Clone, Copy, Debug, PartialEq, Eq)]
pub enum ChannelSelection<C> {
    /// The channel the radio was bound to.
    Current,
    /// A given channel.
    Select(C),
    /// Nobody is notified.
    Silence,
}

/// The channel that `sel` announces, given the radio's bound channel `bound`.
pub open spec fn resolve<C>(sel: ChannelSelection<C>, bound: C) -> Option<C> {
    match sel {
        ChannelSelection::Current => Some(bound),
        ChannelSelection::Select(c) => Some(c),
        ChannelSelection::Silence => None,
    }
}

/// The channels that a write on `value` announcing `sel` notifies.
pub open spec fn announced<V, C: RadioChannel<V>>(sel: ChannelSelection<C>, bound: C, value: V) -> Seq<C> {
    match resolve(sel, bound) {
        Some(c) => c.derived(value),
        None => Seq::empty(),
    }
}

impl<C> ChannelSelection<C> {
    /// Change to `Current`.
    pub fn current(&mut self)
        ensures
            *final(self) == ChannelSelection::<C>::Current,
    {
        *self = ChannelSelection::Current;
    }

    /// Change to `Select(channel)`.
    pub fn select(&mut self, channel: C)
        ensures
            *final(self) == ChannelSelection::Select(channel),
    {
        *self = ChannelSelection::Select(channel);
    }

    /// Change to `Silence`.
    pub fn silence(&mut self)
        ensures
            *final(self) == ChannelSelection::<C>::Silence,
    {
        *self = ChannelSelection::Silence;
    }

    /// Whether this is `Current`.
    pub fn is_current(&self) -> (r: bool)
        ensures
            r == (*self is Current),
    {
        match self {
            ChannelSelection::Current => true,
            _ => false,
        }
    }

    /// The selected channel, where this is `Select`.
    pub fn is_select(&self) -> (r: Option<&C>)
        ensures
            match *self {
                ChannelSelection::Select(c) => r == Some(&c),
                _ => r.is_none(),
            },
    {
        match self {
            ChannelSelection::Select(channel) => Some(channel),
            _ => None,
        }
    }

    /// Whether this is `Silence`.
    pub fn is_silence(&self) -> (r: bool)
        ensures
            r == (*self is Silence),
    {
        match self {
            ChannelSelection::Silence => true,
            _ => false,
        }
    }
}

} // verus!
