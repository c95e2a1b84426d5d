//! A state of named lists of items, with channels for list creation, for one
//! item slot, for any item, and for loaded data.
use vstd::prelude::*;

use crate::channel::{ChannelSelection, RadioChannel};
use crate::reducer::DataReducer;

verus! {

/// Lists of items, and the state of a load.
pub struct Lists {
    pub lists: Vec<Vec<String>>,
    pub loading: bool,
    pub data: Option<String>,
}

/// What a change to `Lists` concerns.
#[derive(Clone, Copy, Debug, PartialEq, Eq, Structural)]
pub enum ListsChannel {
    /// A list was created.
    ListCreated,
    /// The items of the list at this position changed.
    ItemAt(usize),
    /// The items of some list changed.
    AnyItemChanged,
    /// A load finished.
    DataLoaded,
}

/// The changes `Lists` accepts.
pub enum ListsAction {
    /// Append an empty list.
    NewList,
    /// Append `text` to the list at position `list`.
    AddToList { list: usize, text: String },
    /// Mark a load as started.
    StartLoading,
    /// Finish a load with `data`.
    FinishLoading { data: String },
}

impl Lists {
    /// The lists, each as the sequence of its items.
    pub open spec fn items(self) -> Seq<Seq<String>> {
        self.lists@.map_values(|l: Vec<String>| l@)
    }

    /// No lists, no load.
    pub fn new() -> (r: Self)
        ensures
            r.items() == Seq::<Seq<String>>::empty(),
            !r.loading,
            r.data is None,
    {
        let r = Lists { lists: Vec::new(), loading: false, data: None };
        assert(r.items() =~= Seq::<Seq<String>>::empty());
        r
    }
}

impl RadioChannel<Lists> for ListsChannel {
    /// A change to one item slot also concerns any-item observers.
    open spec fn derived(self, value: Lists) -> Seq<Self> {
        match self {
            ListsChannel::ItemAt(n) => seq![ListsChannel::ItemAt(n), ListsChannel::AnyItemChanged],
            _ => seq![self],
        }
    }

    fn same_channel(&self, other: &Self) -> (r: bool) {
        *self == *other
    }

    fn copy_channel(&self) -> (r: Self) {
        *self
    }

    fn derive_channel(&self, value: &Lists) -> (r: Vec<Self>) {
        let mut r: Vec<Self> = Vec::new();
        r.push(*self);
        match self {
            ListsChannel::ItemAt(_) => {
                r.push(ListsChannel::AnyItemChanged);
            },
            _ => {},
        }
        assert(r@ =~= self.derived(*value));
        r
    }
}

impl DataReducer for Lists {
    type Channel = ListsChannel;
    type Action = ListsAction;

    /// Each action changes what it names, leaves the rest, and announces the
    /// channel of what it changed; adding to a list that does not exist
    /// changes nothing and announces nothing.
    open spec fn reduces(
        self,
        action: ListsAction,
        after: Lists,
        sel: ChannelSelection<ListsChannel>,
    ) -> bool {
        match action {
            ListsAction::NewList => {
                &&& after.items() == self.items().push(Seq::empty())
                &&& after.loading == self.loading
                &&& after.data == self.data
                &&& sel == ChannelSelection::Select(ListsChannel::ListCreated)
            },
            ListsAction::AddToList { list, text } => {
                &&& after.loading == self.loading
                &&& after.data == self.data
                &&& if list < self.items().len() {
                    &&& after.items() == self.items().update(
                        list as int,
                        self.items()[list as int].push(text),
                    )
                    &&& sel == ChannelSelection::Select(ListsChannel::ItemAt(list))
                } else {
                    &&& after.items() == self.items()
                    &&& sel == ChannelSelection::<ListsChannel>::Silence
                }
            },
            ListsAction::StartLoading => {
                &&& after.items() == self.items()
                &&& after.loading
                &&& after.data == self.data
                &&& sel == ChannelSelection::<ListsChannel>::Silence
            },
            ListsAction::FinishLoading { data } => {
                &&& after.items() == self.items()
                &&& !after.loading
                &&& after.data == Some(data)
                &&& sel == ChannelSelection::Select(ListsChannel::DataLoaded)
            },
        }
    }

    fn reduce(&mut self, action: ListsAction) -> (sel: ChannelSelection<ListsChannel>) {
        let ghost before = *self;
        match action {
            ListsAction::NewList => {
                self.lists.push(Vec::new());
                assert(self.items() =~= before.items().push(Seq::empty()));
                ChannelSelection::Select(ListsChannel::ListCreated)
            },
            ListsAction::AddToList { list, text } => {
                if list < self.lists.len() {
                    let mut items = self.lists.remove(list);
                    items.push(text);
                    self.lists.insert(list, items);
                    assert(self.items() =~= before.items().update(
                        list as int,
                        before.items()[list as int].push(text),
                    ));
                    ChannelSelection::Select(ListsChannel::ItemAt(list))
                } else {
                    ChannelSelection::Silence
                }
            },
            ListsAction::StartLoading => {
                self.loading = true;
                ChannelSelection::Silence
            },
            ListsAction::FinishLoading { data } => {
                self.loading = false;
                self.data = Some(data);
                ChannelSelection::Select(ListsChannel::DataLoaded)
            },
        }
    }
}

/// A write announcing any item slot reaches every live observer of
/// `AnyItemChanged`, whatever the slot.
pub proof fn lemma_any_item_reached(
    registry: Map<u64, ListsChannel>,
    value: Lists,
    n: usize,
    o: u64,
    stale: Seq<u64>,
    dirty: Seq<u64>,
)
    requires
        registry.contains_key(o),
        registry[o] == ListsChannel::AnyItemChanged,
        !stale.contains(o),
        crate::station::lists_exactly(
            dirty,
            crate::station::audience(registry, ListsChannel::ItemAt(n).derived(value), stale),
        ),
    ensures
        dirty.contains(o),
{
    let chans = ListsChannel::ItemAt(n).derived(value);
    assert(chans[1] == ListsChannel::AnyItemChanged);
    assert(dirty.to_set().contains(o));
}

/// Starting from no lists, with `a` listening to `ListCreated` and `b` to
/// `ItemAt(0)`: applying `NewList` marks `a` and not `b` and leaves one empty
/// list; applying `AddToList` on list 0 then marks `b` and not `a` and leaves
/// that list holding `text`.
pub proof fn lemma_lists_scenario(
    registry: Map<u64, ListsChannel>,
    bound: ListsChannel,
    before: Lists,
    mid: Lists,
    after: Lists,
    sel1: ChannelSelection<ListsChannel>,
    sel2: ChannelSelection<ListsChannel>,
    text: String,
    a: u64,
    b: u64,
    stale: Seq<u64>,
    dirty1: Seq<u64>,
    dirty2: Seq<u64>,
)
    requires
        before.items() == Seq::<Seq<String>>::empty(),
        registry.contains_key(a),
        registry[a] == ListsChannel::ListCreated,
        registry.contains_key(b),
        registry[b] == ListsChannel::ItemAt(0),
        !stale.contains(a),
        !stale.contains(b),
        before.reduces(ListsAction::NewList, mid, sel1),
        crate::station::lists_exactly(
            dirty1,
            crate::station::audience(
                registry,
                crate::channel::announced(sel1, bound, mid),
                stale,
            ),
        ),
        mid.reduces(ListsAction::AddToList { list: 0, text }, after, sel2),
        crate::station::lists_exactly(
            dirty2,
            crate::station::audience(
                crate::station::after_release(
                    registry,
                    crate::channel::announced(sel1, bound, mid),
                    stale,
                ),
                crate::channel::announced(sel2, bound, after),
                stale,
            ),
        ),
    ensures
        mid.items() == seq![Seq::<String>::empty()],
        dirty1.contains(a),
        !dirty1.contains(b),
        after.items() == seq![seq![text]],
        dirty2.contains(b),
        !dirty2.contains(a),
{
    let chans1 = crate::channel::announced(sel1, bound, mid);
    let aud1 = crate::station::audience(registry, chans1, stale);
    assert(mid.items() =~= seq![Seq::<String>::empty()]);
    assert(chans1 == seq![ListsChannel::ListCreated]);
    assert(chans1[0] == ListsChannel::ListCreated);
    assert(aud1.contains(a));
    assert(!aud1.contains(b));
    assert(dirty1.to_set().contains(a));
    let reg2 = crate::station::after_release(registry, chans1, stale);
    assert(reg2.contains_key(a) && reg2[a] == ListsChannel::ListCreated);
    assert(reg2.contains_key(b) && reg2[b] == ListsChannel::ItemAt(0));
    let chans2 = crate::channel::announced(sel2, bound, after);
    let aud2 = crate::station::audience(reg2, chans2, stale);
    assert(after.items() =~= seq![seq![text]]);
    assert(chans2 == seq![ListsChannel::ItemAt(0), ListsChannel::AnyItemChanged]);
    assert(chans2[0] == ListsChannel::ItemAt(0));
    assert(aud2.contains(b));
    assert(!aud2.contains(a));
    assert(dirty2.to_set().contains(b));
}

/// A load that starts silently and finishes by announcing `DataLoaded`: the
/// start marks nobody and leaves `loading` set; the finish marks every live
/// observer of `DataLoaded`, clears `loading` and holds the data.
pub proof fn lemma_loading_scenario(
    registry: Map<u64, ListsChannel>,
    bound: ListsChannel,
    before: Lists,
    mid: Lists,
    after: Lists,
    sel1: ChannelSelection<ListsChannel>,
    sel2: ChannelSelection<ListsChannel>,
    data: String,
    d: u64,
    stale: Seq<u64>,
    dirty1: Seq<u64>,
    dirty2: Seq<u64>,
)
    requires
        registry.contains_key(d),
        registry[d] == ListsChannel::DataLoaded,
        !stale.contains(d),
        before.reduces(ListsAction::StartLoading, mid, sel1),
        crate::station::lists_exactly(
            dirty1,
            crate::station::audience(
                registry,
                crate::channel::announced(sel1, bound, mid),
                stale,
            ),
        ),
        mid.reduces(ListsAction::FinishLoading { data }, after, sel2),
        crate::station::lists_exactly(
            dirty2,
            crate::station::audience(
                crate::station::after_release(
                    registry,
                    crate::channel::announced(sel1, bound, mid),
                    stale,
                ),
                crate::channel::announced(sel2, bound, after),
                stale,
            ),
        ),
    ensures
        mid.loading,
        dirty1.len() == 0,
        !after.loading,
        after.data == Some(data),
        dirty2.contains(d),
{
    let chans1 = crate::channel::announced(sel1, bound, mid);
    assert(chans1 =~= Seq::<ListsChannel>::empty());
    if dirty1.len() > 0 {
        assert(dirty1.to_set().contains(dirty1[0]));
    }
    let reg2 = crate::station::after_release(registry, chans1, stale);
    let chans2 = crate::channel::announced(sel2, bound, after);
    assert(chans2[0] == ListsChannel::DataLoaded);
    assert(crate::station::audience(reg2, chans2, stale).contains(d));
    assert(dirty2.to_set().contains(d));
}

} // verus!
