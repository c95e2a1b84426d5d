use dioxus_radio::channel::ChannelSelection;
use dioxus_radio::lists::{Lists, ListsAction, ListsChannel};
use dioxus_radio::radio::{Radio, RadioAntenna};
use dioxus_radio::reducer::DataReducer;
use dioxus_radio::station::{contains_channel, contains_observer, RadioStation};

fn radio(channel: ListsChannel, observer: u64) -> Radio<ListsChannel> {
    Radio::new(RadioAntenna::new(channel, observer))
}

fn station_with_lists(n: usize) -> RadioStation<Lists, ListsChannel> {
    let mut lists = Lists::new();
    for _ in 0..n {
        lists.lists.push(Vec::new());
    }
    RadioStation::new(lists)
}

fn sorted(mut ids: Vec<u64>) -> Vec<u64> {
    ids.sort();
    ids
}

#[test]
fn lists_scenario_marks_only_the_announced_observer() {
    let mut station = station_with_lists(0);
    let a = radio(ListsChannel::ListCreated, 1);
    let b = radio(ListsChannel::ItemAt(0), 2);
    a.subscribe_if_not(&mut station, Some(1));
    b.subscribe_if_not(&mut station, Some(2));
    let none: Vec<u64> = Vec::new();

    let dirty = a.write_with(&mut station, &none, |mut d: Lists| {
        d.lists.push(Vec::new());
        d
    });
    assert_eq!(dirty, vec![1]);

    let dirty = b.write_with(&mut station, &none, |mut d: Lists| {
        d.lists[0].push("item".to_string());
        d
    });
    assert_eq!(dirty, vec![2]);
    assert_eq!(station.peek().lists, vec![vec!["item".to_string()]]);
}

#[test]
fn lists_scenario_through_the_reducer() {
    let mut station = station_with_lists(0);
    let a = radio(ListsChannel::ListCreated, 1);
    let b = radio(ListsChannel::ItemAt(0), 2);
    a.subscribe_if_not(&mut station, Some(1));
    b.subscribe_if_not(&mut station, Some(2));
    let none: Vec<u64> = Vec::new();

    let (sel, dirty) = a.apply(&mut station, &none, ListsAction::NewList);
    assert_eq!(sel, ChannelSelection::Select(ListsChannel::ListCreated));
    assert_eq!(dirty, vec![1]);
    assert_eq!(station.peek().lists, vec![Vec::<String>::new()]);

    let action = ListsAction::AddToList { list: 0, text: "milk".to_string() };
    let (sel, dirty) = a.apply(&mut station, &none, action);
    assert_eq!(sel, ChannelSelection::Select(ListsChannel::ItemAt(0)));
    assert_eq!(dirty, vec![2]);
    assert_eq!(station.peek().lists, vec![vec!["milk".to_string()]]);
}

#[test]
fn any_item_observer_is_marked_for_every_item() {
    let mut station = station_with_lists(3);
    let c = radio(ListsChannel::AnyItemChanged, 3);
    c.subscribe_if_not(&mut station, Some(3));
    let writer = radio(ListsChannel::ListCreated, 9);
    let none: Vec<u64> = Vec::new();
    for n in 0..3usize {
        let dirty = writer.write_channel_with(ListsChannel::ItemAt(n), &mut station, &none, |mut d: Lists| {
            d.lists[n].push(format!("{n}"));
            d
        });
        assert_eq!(dirty, vec![3]);
    }
}

#[test]
fn silent_write_then_announced_write_marks_once_at_the_end() {
    let mut station = station_with_lists(0);
    let watcher = radio(ListsChannel::DataLoaded, 4);
    watcher.subscribe_if_not(&mut station, Some(4));
    let worker = radio(ListsChannel::ListCreated, 5);
    let none: Vec<u64> = Vec::new();

    let mut guard = worker.write_silently(&mut station);
    guard.value_mut().loading = true;
    let dirty = guard.release(&mut station, &none);
    assert!(dirty.is_empty());
    assert!(station.peek().loading);

    let (sel, dirty) = worker.write_with_channel_selection(&mut station, &none, |mut d: Lists| {
        d.loading = false;
        d.data = Some("result".to_string());
        (d, ChannelSelection::Select(ListsChannel::DataLoaded))
    });
    assert_eq!(sel, ChannelSelection::Select(ListsChannel::DataLoaded));
    assert_eq!(dirty, vec![4]);
    assert!(!station.peek().loading);
    assert_eq!(station.peek().data, Some("result".to_string()));
}

#[test]
fn loading_through_the_reducer_announces_only_the_finish() {
    let mut station = station_with_lists(0);
    let watcher = radio(ListsChannel::DataLoaded, 4);
    watcher.subscribe_if_not(&mut station, Some(4));
    let worker = radio(ListsChannel::ListCreated, 5);
    let none: Vec<u64> = Vec::new();

    let (sel, dirty) = worker.apply(&mut station, &none, ListsAction::StartLoading);
    assert!(sel.is_silence());
    assert!(dirty.is_empty());
    assert!(station.peek().loading);

    let (sel, dirty) = worker.apply(&mut station, &none, ListsAction::FinishLoading { data: "rows".to_string() });
    assert_eq!(sel.is_select(), Some(&ListsChannel::DataLoaded));
    assert_eq!(dirty, vec![4]);
    assert!(!station.peek().loading);
    assert_eq!(station.peek().data, Some("rows".to_string()));
}

#[test]
fn write_reaches_its_channel_and_not_another() {
    let mut station = station_with_lists(0);
    let o1 = radio(ListsChannel::ListCreated, 1);
    let o2 = radio(ListsChannel::DataLoaded, 2);
    o1.subscribe_if_not(&mut station, Some(1));
    o2.subscribe_if_not(&mut station, Some(2));
    let none: Vec<u64> = Vec::new();
    let guard = o1.write(&mut station);
    assert_eq!(guard.channels(), &vec![ListsChannel::ListCreated]);
    assert_eq!(guard.release(&mut station, &none), vec![1]);
}

#[test]
fn derived_channels_reach_both_audiences_once() {
    let mut station = station_with_lists(2);
    let item = radio(ListsChannel::ItemAt(0), 1);
    let any = radio(ListsChannel::AnyItemChanged, 2);
    let other = radio(ListsChannel::ItemAt(1), 3);
    item.subscribe_if_not(&mut station, Some(1));
    any.subscribe_if_not(&mut station, Some(2));
    other.subscribe_if_not(&mut station, Some(3));
    let none: Vec<u64> = Vec::new();
    let guard = item.write(&mut station);
    assert_eq!(guard.channels(), &vec![ListsChannel::ItemAt(0), ListsChannel::AnyItemChanged]);
    let dirty = guard.release(&mut station, &none);
    assert_eq!(sorted(dirty), vec![1, 2]);
}

#[test]
fn notify_names_each_observer_once_for_repeated_channels() {
    let mut station = station_with_lists(0);
    station.listen(ListsChannel::AnyItemChanged, 7);
    station.listen(ListsChannel::ListCreated, 8);
    let none: Vec<u64> = Vec::new();
    let channels = vec![ListsChannel::AnyItemChanged, ListsChannel::ItemAt(0), ListsChannel::AnyItemChanged];
    assert_eq!(station.notify_listeners(&channels, &none), vec![7]);
    assert_eq!(station.notify_listeners(&channels, &vec![7]), Vec::<u64>::new());
}

#[test]
fn silent_write_is_visible_and_marks_nobody() {
    let mut station = station_with_lists(0);
    let r = radio(ListsChannel::ListCreated, 7);
    r.subscribe_if_not(&mut station, Some(7));
    let stale: Vec<u64> = vec![7];
    let mut guard = r.write_silently(&mut station);
    assert!(guard.channels().is_empty());
    guard.value_mut().lists.push(Vec::new());
    assert_eq!(guard.value().lists.len(), 1);
    assert!(guard.release(&mut station, &stale).is_empty());
    assert_eq!(station.peek().lists.len(), 1);
    assert_eq!(station.observers(), vec![7]);
}

#[test]
fn select_and_silence_set_what_a_guard_announces() {
    let mut station = station_with_lists(0);
    let r = radio(ListsChannel::DataLoaded, 1);
    let mut guard = r.write_silently(&mut station);
    guard.select(&r, &ChannelSelection::Select(ListsChannel::ItemAt(4)));
    assert_eq!(guard.channels(), &vec![ListsChannel::ItemAt(4), ListsChannel::AnyItemChanged]);
    guard.select(&r, &ChannelSelection::Current);
    assert_eq!(guard.channels(), &vec![ListsChannel::DataLoaded]);
    guard.silence();
    assert!(guard.channels().is_empty());
    let none: Vec<u64> = Vec::new();
    guard.release(&mut station, &none);
    assert!(!station.is_writing());
}

#[test]
fn detaching_from_a_station_without_the_entry_changes_nothing() {
    let mut station = station_with_lists(0);
    let gone = radio(ListsChannel::ListCreated, 7);
    let other = radio(ListsChannel::ListCreated, 8);
    other.subscribe_if_not(&mut station, Some(8));
    gone.detach(&mut station);
    assert_eq!(station.observers(), vec![8]);

    let antenna = RadioAntenna::new(ListsChannel::ListCreated, 8);
    antenna.detach(&mut station);
    assert!(station.observers().is_empty());
    let none: Vec<u64> = Vec::new();
    assert!(station.notify_listeners(&vec![ListsChannel::ListCreated], &none).is_empty());
}

#[test]
fn reading_twice_keeps_one_entry() {
    let mut station = station_with_lists(0);
    let r = radio(ListsChannel::ListCreated, 1);
    assert!(r.read(&mut station, Some(11)).lists.is_empty());
    assert!(r.read(&mut station, Some(11)).lists.is_empty());
    assert_eq!(station.observers(), vec![11]);
    assert!(station.is_listening(&ListsChannel::ListCreated, 11));
}

#[test]
fn reading_outside_any_observer_subscribes_nobody() {
    let mut station = station_with_lists(0);
    let r = radio(ListsChannel::ListCreated, 1);
    assert!(r.read(&mut station, None).lists.is_empty());
    assert!(station.observers().is_empty());
}

#[test]
fn station_is_writing_while_a_guard_is_open() {
    let mut station = station_with_lists(1);
    let r = radio(ListsChannel::ListCreated, 7);
    assert!(!station.is_writing());
    let guard = r.write(&mut station);
    assert!(station.is_writing());
    let none: Vec<u64> = Vec::new();
    guard.release(&mut station, &none);
    assert!(!station.is_writing());
    assert_eq!(station.peek().lists.len(), 1);
}

#[test]
fn announced_release_purges_stale_observers() {
    let mut station = station_with_lists(0);
    for id in [1u64, 2, 3] {
        radio(ListsChannel::ListCreated, id).subscribe_if_not(&mut station, Some(id));
    }
    let stale: Vec<u64> = vec![2];
    let r = radio(ListsChannel::ListCreated, 1);
    let dirty = r.write_with(&mut station, &stale, |mut d: Lists| {
        d.lists.push(Vec::new());
        d
    });
    assert_eq!(sorted(dirty), vec![1, 3]);
    assert_eq!(sorted(station.observers()), vec![1, 3]);
    assert_eq!(station.peek().lists.len(), 1);
}

#[test]
fn cleanup_removes_named_entries_only() {
    let mut station = station_with_lists(0);
    station.listen(ListsChannel::ListCreated, 1);
    station.listen(ListsChannel::DataLoaded, 2);
    station.cleanup(&vec![2, 99]);
    assert_eq!(station.observers(), vec![1]);
    assert!(station.is_listening(&ListsChannel::ListCreated, 1));
}

#[test]
fn listening_again_replaces_the_channel() {
    let mut station = station_with_lists(0);
    station.listen(ListsChannel::ListCreated, 1);
    station.listen(ListsChannel::DataLoaded, 1);
    assert_eq!(station.observers(), vec![1]);
    assert!(!station.is_listening(&ListsChannel::ListCreated, 1));
    assert!(station.is_listening(&ListsChannel::DataLoaded, 1));
    station.unlisten(1);
    assert!(station.observers().is_empty());
}

#[test]
fn rebinding_a_radio_moves_later_subscriptions() {
    let mut station = station_with_lists(0);
    let mut r = radio(ListsChannel::ListCreated, 1);
    r.subscribe_if_not(&mut station, Some(1));
    r.set_channel(ListsChannel::DataLoaded);
    assert_eq!(r.channel(), &ListsChannel::DataLoaded);
    r.subscribe_if_not(&mut station, Some(1));
    assert!(station.is_listening(&ListsChannel::DataLoaded, 1));
    assert_eq!(station.observers(), vec![1]);
}

#[test]
fn adding_to_a_missing_list_changes_nothing() {
    let mut station = station_with_lists(1);
    let r = radio(ListsChannel::AnyItemChanged, 1);
    r.subscribe_if_not(&mut station, Some(1));
    let none: Vec<u64> = Vec::new();
    let action = ListsAction::AddToList { list: 5, text: "x".to_string() };
    let (sel, dirty) = r.apply(&mut station, &none, action);
    assert!(sel.is_silence());
    assert!(dirty.is_empty());
    assert_eq!(station.peek().lists, vec![Vec::<String>::new()]);
}

#[test]
fn reduce_changes_what_each_action_names() {
    let mut data = Lists::new();
    assert_eq!(data.reduce(ListsAction::NewList), ChannelSelection::Select(ListsChannel::ListCreated));
    assert_eq!(data.reduce(ListsAction::NewList), ChannelSelection::Select(ListsChannel::ListCreated));
    let sel = data.reduce(ListsAction::AddToList { list: 1, text: "b".to_string() });
    assert_eq!(sel, ChannelSelection::Select(ListsChannel::ItemAt(1)));
    assert_eq!(data.lists, vec![Vec::<String>::new(), vec!["b".to_string()]]);
    assert!(data.reduce(ListsAction::StartLoading).is_silence());
    assert!(data.loading);
}

#[test]
fn selection_current_announces_the_bound_channel() {
    let mut station = station_with_lists(0);
    let r = radio(ListsChannel::DataLoaded, 1);
    r.subscribe_if_not(&mut station, Some(1));
    let none: Vec<u64> = Vec::new();
    let (sel, dirty) = r.write_with_channel_selection(&mut station, &none, |d: Lists| (d, ChannelSelection::Current));
    assert!(sel.is_current());
    assert_eq!(dirty, vec![1]);
    let (_, dirty) = r.write_with_channel_selection(&mut station, &none, |d: Lists| (d, ChannelSelection::Silence));
    assert!(dirty.is_empty());
}

#[test]
fn announce_expands_the_selection() {
    let r = radio(ListsChannel::ListCreated, 1);
    let data = Lists::new();
    assert_eq!(r.announce(&ChannelSelection::Current, &data), vec![ListsChannel::ListCreated]);
    assert_eq!(
        r.announce(&ChannelSelection::Select(ListsChannel::ItemAt(2)), &data),
        vec![ListsChannel::ItemAt(2), ListsChannel::AnyItemChanged]
    );
    assert!(r.announce(&ChannelSelection::Silence, &data).is_empty());
}

#[test]
fn with_hands_the_value_to_the_callback() {
    let mut station = station_with_lists(2);
    let r = radio(ListsChannel::ListCreated, 7);
    let mut seen = 0usize;
    r.with(&mut station, Some(7), |v: &Lists| seen = v.lists.len());
    assert_eq!(seen, 2);
    assert!(station.is_listening(&ListsChannel::ListCreated, 7));
}

#[test]
fn station_read_subscribes_the_caller() {
    let mut station = station_with_lists(1);
    assert_eq!(station.read(ListsChannel::DataLoaded, Some(3)).lists.len(), 1);
    assert_eq!(station.read(ListsChannel::DataLoaded, Some(3)).lists.len(), 1);
    assert_eq!(station.read(ListsChannel::ListCreated, None).lists.len(), 1);
    assert_eq!(station.observers(), vec![3]);
    assert!(station.is_listening(&ListsChannel::DataLoaded, 3));
}

#[test]
fn channel_selection_changes_and_queries() {
    let mut sel: ChannelSelection<ListsChannel> = ChannelSelection::Silence;
    assert!(sel.is_silence());
    assert_eq!(sel.is_select(), None);
    sel.select(ListsChannel::DataLoaded);
    assert_eq!(sel.is_select(), Some(&ListsChannel::DataLoaded));
    assert!(!sel.is_current());
    sel.current();
    assert!(sel.is_current());
    sel.silence();
    assert!(sel.is_silence());
}

#[test]
fn membership_helpers() {
    let channels = vec![ListsChannel::DataLoaded, ListsChannel::ItemAt(1)];
    assert!(contains_channel::<Lists, ListsChannel>(&channels, &ListsChannel::ItemAt(1)));
    assert!(!contains_channel::<Lists, ListsChannel>(&channels, &ListsChannel::ItemAt(2)));
    assert!(!contains_channel::<Lists, ListsChannel>(&Vec::new(), &ListsChannel::ListCreated));
    assert!(contains_observer(&vec![4, 5], 5));
    assert!(!contains_observer(&vec![4, 5], 6));
}
