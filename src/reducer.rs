//! Reducers: actions that change the value and choose what to announce.
use vstd::prelude::*;

use crate::channel::{ChannelSelection, RadioChannel};
use crate::radio::Radio;
use crate::station::RadioStation;

verus! {

/// A value that changes in response to actions and says, for each, which
/// channel the change should announce.
pub trait DataReducer: Sized {
    type Channel;
    type Action;

    /// Whether `action` may take the value from `self` to `after` and
    /// announce `sel`.
    spec fn reduces(self, action: Self::Action, after: Self, sel: ChannelSelection<Self::Channel>) -> bool;

    /// Apply `action` to the value and say what it announces.
    fn reduce(&mut self, action: Self::Action) -> (sel: ChannelSelection<Self::Channel>)
        ensures
            old(self).reduces(action, *final(self), sel),
    ;
}

impl<C> Radio<C> {
    /// Apply `action` to the station's value in one write, and announce the
    /// selection the reducer returned, expanded on the value it left. The
    /// selection and the observers to mark dirty are returned. No other write
    /// may be open.
    pub fn apply<V: DataReducer<Channel = C>>(
        &self,
        station: &mut RadioStation<V, C>,
        stale: &Vec<u64>,
        action: V::Action,
    ) -> (r: (ChannelSelection<C>, Vec<u64>))
        where C: RadioChannel<V>,
        requires
            old(station).wf(),
            old(station).contents() is Some,
        ensures
            final(station).wf(),
            ({
                let (sel, dirty) = r;
                let before = old(station).contents().unwrap();
                let after = final(station).contents().unwrap();
                let chans = crate::channel::announced(sel, self.bound(), after);
                &&& final(station).contents() is Some
                &&& before.reduces(action, after, sel)
                &&& crate::station::lists_exactly(
                    dirty@,
                    crate::station::audience(old(station).listeners(), chans, stale@),
                )
                &&& final(station).listeners() == crate::station::after_release(
                    old(station).listeners(),
                    chans,
                    stale@,
                )
            }),
    {
        let mut guard = self.write_silently(station);
        let sel = guard.value_mut().reduce(action);
        guard.select(self, &sel);
        let dirty = guard.release(station, stale);
        (sel, dirty)
    }
}

} // verus!
