use crate::address::Address;
use crate::attributes::BluetoothDataView;
use crate::attributes::DevicePropertyView;
use crate::dispatcher::Action;
use crate::dispatcher::DispatcherView;
use crate::dispatcher::EventView;
use crate::dispatcher::Phase;
use crate::filter::admits;
use vstd::prelude::*;

verus! {

/// The state after a sequence of events has been handled, one after the
/// other, starting from `start`.
pub open spec fn run(start: DispatcherView, events: Seq<EventView>) -> DispatcherView
    decreases events.len(),
{
    if events.len() == 0 {
        start
    } else {
        run(start, events.drop_last()).next(events.last())
    }
}

/// What the caller is told to do at the event of index `i`, the events
/// before it having been handled from `start` on.
pub open spec fn reaction_at(start: DispatcherView, events: Seq<EventView>, i: int) -> Action {
    run(start, events.take(i)).reaction(events[i])
}

/// Whether discovery stays open throughout the sequence: no event of it says
/// that the discovery source is exhausted.
pub open spec fn discovery_open(events: Seq<EventView>) -> bool {
    forall|i: int| 0 <= i < events.len() ==> !(#[trigger] events[i] is DiscoveryClosed)
}

/// Whether `event` announces `address`.
pub open spec fn announces(event: EventView, address: Address) -> bool {
    event matches EventView::DeviceAdded(a) && a == address
}

/// Whether `event` brings the attributes of `address` to be stored: the
/// device was announced and its attributes were retrieved.
pub open spec fn stores(event: EventView, address: Address) -> bool {
    event matches EventView::Fetched(a, _) && a == address
}

/// Whether `event` announces that `address` is gone.
pub open spec fn withdraws(event: EventView, address: Address) -> bool {
    event matches EventView::DeviceRemoved(a) && a == address
}

/// Whether the event of index `i` stores `address` and no later event
/// withdraws it.
pub open spec fn stored_since(events: Seq<EventView>, address: Address, i: int) -> bool {
    &&& 0 <= i < events.len()
    &&& stores(events[i], address)
    &&& forall|j: int| i < j < events.len() ==> !withdraws(#[trigger] events[j], address)
}

/// Whether `address` was stored more recently than it was last withdrawn.
pub open spec fn present(events: Seq<EventView>, address: Address) -> bool {
    exists|i: int| stored_since(events, address, i)
}

/// Whether some event of the sequence stores `address`.
pub open spec fn stored_once(events: Seq<EventView>, address: Address) -> bool {
    exists|i: int| 0 <= i < events.len() && stores(#[trigger] events[i], address)
}

/// Whether the event of index `i` is the last one to store `address`, and no
/// later event withdraws it.
pub open spec fn last_stored_at(events: Seq<EventView>, address: Address, i: int) -> bool {
    &&& 0 <= i < events.len()
    &&& stores(events[i], address)
    &&& forall|j: int|
        i < j < events.len() ==> !stores(#[trigger] events[j], address) && !withdraws(
            events[j],
            address,
        )
}

/// The attributes that a device has after the events of a sequence, where
/// the event of index `i` stored it last and it has stayed since: the
/// attributes stored then, with each later change of the device merged in,
/// in order.
pub open spec fn settled(events: Seq<EventView>, address: Address, i: int) -> BluetoothDataView
    recommends
        last_stored_at(events, address, i),
    decreases events.len(),
{
    if events.len() <= i + 1 || events.len() == 0 {
        events[i]->Fetched_1
    } else {
        let earlier = settled(events.drop_last(), address, i);
        match events.last() {
            EventView::PropertyChanged(a, change) => if a == address {
                earlier.merged(change)
            } else {
                earlier
            },
            _ => earlier,
        }
    }
}

/// Handling the first `k + 1` events is handling the first `k` and then the
/// event of index `k`.
pub proof fn lemma_run_take(start: DispatcherView, events: Seq<EventView>, k: int)
    requires
        0 <= k < events.len(),
    ensures
        run(start, events.take(k + 1)) == run(start, events.take(k)).next(events[k]),
{
    assert(events.take(k + 1).drop_last() =~= events.take(k));
}

/// Where discovery stays open throughout a sequence, it does so throughout
/// the sequence without its last event, and that last event does not close
/// it.
proof fn lemma_open_before(events: Seq<EventView>)
    requires
        discovery_open(events),
        events.len() > 0,
    ensures
        discovery_open(events.drop_last()),
        !(events.last() is DiscoveryClosed),
        events == events.drop_last().push(events.last()),
{
}

/// How one more event changes whether a device is present.
proof fn lemma_present_step(before: Seq<EventView>, last: EventView, address: Address)
    ensures
        present(before.push(last), address) <==> stores(last, address) || (present(
            before,
            address,
        ) && !withdraws(last, address)),
{
    let events = before.push(last);
    let n = before.len() as int;
    if stores(last, address) {
        assert(stored_since(events, address, n));
    }
    if present(before, address) && !withdraws(last, address) {
        let i = choose|i: int| stored_since(before, address, i);
        assert(stored_since(events, address, i));
    }
    if present(events, address) && !stores(last, address) {
        let i = choose|i: int| stored_since(events, address, i);
        assert forall|j: int| i < j < before.len() implies !withdraws(
            #[trigger] before[j],
            address,
        ) by {
            assert(events[j] == before[j]);
        }
        assert(stored_since(before, address, i));
        assert(!withdraws(events[n], address));
    }
}

/// How one more event changes whether a device was ever stored.
proof fn lemma_stored_once_step(before: Seq<EventView>, last: EventView, address: Address)
    ensures
        stored_once(before.push(last), address) <==> stores(last, address) || stored_once(
            before,
            address,
        ),
{
    let events = before.push(last);
    if stores(last, address) {
        assert(events[before.len() as int] == last);
    }
    if stored_once(before, address) {
        let i = choose|i: int| 0 <= i < before.len() && stores(#[trigger] before[i], address);
        assert(events[i] == before[i]);
    }
}

/// Where the event of index `i` stored a device last and other events
/// follow, it did so in the sequence without its last event too, and that
/// last event neither stores nor withdraws the device.
proof fn lemma_last_stored_before(events: Seq<EventView>, address: Address, i: int)
    requires
        last_stored_at(events, address, i),
        i + 1 < events.len(),
    ensures
        last_stored_at(events.drop_last(), address, i),
        !stores(events.last(), address),
        !withdraws(events.last(), address),
{
}

/// While discovery stays open, the table holds exactly the devices that the
/// allow-list admits and whose attributes were stored more recently than the
/// device was announced gone; a device that was announced but whose
/// attributes could not be retrieved is not among them. The dispatcher keeps
/// discovering under the configuration it started with.
pub proof fn lemma_table_follows_discovery(
    allowed: Set<Address>,
    track_changes: bool,
    events: Seq<EventView>,
)
    requires
        discovery_open(events),
    ensures
        run(DispatcherView::initial(allowed, track_changes), events).phase == Phase::Discovering,
        run(DispatcherView::initial(allowed, track_changes), events).allowed == allowed,
        run(DispatcherView::initial(allowed, track_changes), events).track_changes
            == track_changes,
        forall|a: Address|
            #[trigger] run(
                DispatcherView::initial(allowed, track_changes),
                events,
            ).table.contains_key(a) <==> admits(allowed, a) && present(events, a),
    decreases events.len(),
{
    let start = DispatcherView::initial(allowed, track_changes);
    if events.len() == 0 {
        assert forall|a: Address| !present(events, a) by {
            if present(events, a) {
                let i = choose|i: int| stored_since(events, a, i);
            }
        }
    } else {
        let before = events.drop_last();
        let last = events.last();
        lemma_open_before(events);
        lemma_table_follows_discovery(allowed, track_changes, before);
        let mid = run(start, before);
        let end = run(start, events);
        assert forall|a: Address| #[trigger]
            end.table.contains_key(a) <==> admits(allowed, a) && present(events, a) by {
            lemma_present_step(before, last, a);
        }
    }
}

/// While discovery stays open, the registry holds exactly the devices that
/// the allow-list admits and that were stored at some event, provided that
/// changes are followed; it holds none where they are not.
pub proof fn lemma_registry_follows_discovery(
    allowed: Set<Address>,
    track_changes: bool,
    events: Seq<EventView>,
)
    requires
        discovery_open(events),
    ensures
        forall|a: Address|
            #[trigger] run(
                DispatcherView::initial(allowed, track_changes),
                events,
            ).registered.contains(a) <==> track_changes && admits(allowed, a) && stored_once(
                events,
                a,
            ),
    decreases events.len(),
{
    let start = DispatcherView::initial(allowed, track_changes);
    if events.len() > 0 {
        let before = events.drop_last();
        let last = events.last();
        lemma_open_before(events);
        lemma_registry_follows_discovery(allowed, track_changes, before);
        lemma_table_follows_discovery(allowed, track_changes, before);
        let mid = run(start, before);
        let end = run(start, events);
        assert forall|a: Address| #[trigger]
            end.registered.contains(a) <==> track_changes && admits(allowed, a) && stored_once(
                events,
                a,
            ) by {
            lemma_stored_once_step(before, last, a);
            assert(mid.registered.contains(a) <==> track_changes && admits(allowed, a)
                && stored_once(before, a));
        }
    }
}

/// While discovery stays open and changes are followed, the record of a
/// device is whole: it is what was stored of the device last, with the
/// changes reported of it since merged in, and holds nothing of what was
/// stored of it before.
pub proof fn lemma_record_is_whole(
    allowed: Set<Address>,
    events: Seq<EventView>,
    address: Address,
    i: int,
)
    requires
        discovery_open(events),
        admits(allowed, address),
        last_stored_at(events, address, i),
    ensures
        run(DispatcherView::initial(allowed, true), events).table.contains_key(address),
        run(DispatcherView::initial(allowed, true), events).table[address] == settled(
            events,
            address,
            i,
        ),
    decreases events.len(),
{
    lemma_open_before(events);
    lemma_table_follows_discovery(allowed, true, events.drop_last());
    if events.len() == i + 1 {
    } else {
        lemma_last_stored_before(events, address, i);
        lemma_record_is_whole(allowed, events.drop_last(), address, i);
    }
}

/// While discovery stays open and changes are not followed, the record of a
/// device is what was stored of it last.
pub proof fn lemma_record_is_last_stored(
    allowed: Set<Address>,
    events: Seq<EventView>,
    address: Address,
    i: int,
)
    requires
        discovery_open(events),
        admits(allowed, address),
        last_stored_at(events, address, i),
    ensures
        run(DispatcherView::initial(allowed, false), events).table.contains_key(address),
        run(DispatcherView::initial(allowed, false), events).table[address]
            == events[i]->Fetched_1,
    decreases events.len(),
{
    lemma_open_before(events);
    lemma_table_follows_discovery(allowed, false, events.drop_last());
    if events.len() == i + 1 {
    } else {
        lemma_last_stored_before(events, address, i);
        lemma_record_is_last_stored(allowed, events.drop_last(), address, i);
    }
}

/// A change reported for a device that the table does not hold leaves the
/// state as it is, however often it is reported, and asks for no rendering.
pub proof fn lemma_change_of_unknown_device(
    state: DispatcherView,
    address: Address,
    change: DevicePropertyView,
)
    requires
        !state.table.contains_key(address),
    ensures
        state.next(EventView::PropertyChanged(address, change)) == state,
        state.reaction(EventView::PropertyChanged(address, change)) == (if state.phase
            == Phase::Finished {
            Action::Stop
        } else {
            Action::Nothing
        }),
{
}

/// A failed fetch leaves the state as it is and asks for no rendering.
pub proof fn lemma_failed_fetch_changes_nothing(state: DispatcherView, address: Address)
    ensures
        state.next(EventView::FetchFailed(address)) == state,
        state.reaction(EventView::FetchFailed(address)) == (if state.phase == Phase::Finished {
            Action::Stop
        } else {
            Action::Nothing
        }),
{
}

/// What discovery says of a device that the allow-list does not admit
/// leaves the state as it is and asks for nothing to be fetched,
/// registered or rendered.
pub proof fn lemma_filtered_device_is_ignored(
    state: DispatcherView,
    event: EventView,
    address: Address,
)
    requires
        !admits(state.allowed, address),
        announces(event, address) || stores(event, address) || withdraws(event, address),
    ensures
        state.next(event) == state,
        state.reaction(event) == (if state.phase == Phase::Finished {
            Action::Stop
        } else {
            Action::Nothing
        }),
{
}

/// No change of the table goes unrendered, and no device enters the registry
/// without the caller being told to open its change stream.
pub proof fn lemma_changes_are_acted_on(state: DispatcherView, event: EventView)
    ensures
        state.next(event).table != state.table ==> state.reaction(event) is Render
            || state.reaction(event) is RegisterAndRender,
        state.next(event).registered != state.registered ==> event is Fetched && state.reaction(
            event,
        ) == Action::RegisterAndRender(event->Fetched_0),
{
    if state.next(event).registered != state.registered {
        let a = event->Fetched_0;
        assert(!state.registered.contains(a)) by {
            if state.registered.contains(a) {
                assert(state.registered.insert(a) =~= state.registered);
            }
        }
    }
}

/// The registry never loses a device.
pub proof fn lemma_registry_grows(
    start: DispatcherView,
    events: Seq<EventView>,
    k: int,
    address: Address,
)
    requires
        0 <= k <= events.len(),
        run(start, events.take(k)).registered.contains(address),
    ensures
        run(start, events).registered.contains(address),
    decreases events.len() - k,
{
    if k == events.len() {
        assert(events.take(k) =~= events);
    } else {
        lemma_run_take(start, events, k);
        lemma_registry_grows(start, events, k + 1, address);
    }
}

/// The caller is told at most once to open the change stream of a device:
/// once it was told so at one event, no later event tells it so again.
pub proof fn lemma_stream_admitted_once(
    start: DispatcherView,
    events: Seq<EventView>,
    address: Address,
    i: int,
    j: int,
)
    requires
        0 <= i < j < events.len(),
        reaction_at(start, events, i) == Action::RegisterAndRender(address),
    ensures
        reaction_at(start, events, j) != Action::RegisterAndRender(address),
{
    let prefix = events.take(j);
    assert(prefix.take(i + 1) =~= events.take(i + 1));
    lemma_run_take(start, events, i);
    lemma_registry_grows(start, prefix, i + 1, address);
}

/// Once discovery has closed no device enters or leaves the table, and none
/// enters the registry.
pub proof fn lemma_closed_discovery_adds_no_device(state: DispatcherView, event: EventView)
    requires
        state.phase != Phase::Discovering,
    ensures
        state.next(event).table.dom() == state.table.dom(),
        state.next(event).registered == state.registered,
{
    assert(state.next(event).table.dom() =~= state.table.dom());
}

/// Once no source remains open nothing changes any more, and every event is
/// answered by `Stop`.
pub proof fn lemma_finished_is_final(state: DispatcherView, event: EventView)
    requires
        state.phase == Phase::Finished,
    ensures
        state.next(event) == state,
        state.reaction(event) == Action::Stop,
{
}

/// The loop finishes once both sources have closed: whatever the state, when
/// discovery closes and then the merged change streams do, no source remains
/// open. Where changes are not followed, a discovering dispatcher finishes as
/// soon as discovery closes.
pub proof fn lemma_closed_sources_finish(state: DispatcherView)
    ensures
        state.next(EventView::DiscoveryClosed).next(EventView::ChangesClosed).phase
            == Phase::Finished,
        state.phase == Phase::Discovering && !state.track_changes ==> state.next(
            EventView::DiscoveryClosed,
        ).phase == Phase::Finished,
{
}

/// Discovery ends only by closing: any other event leaves a discovering
/// dispatcher discovering.
pub proof fn lemma_discovery_ends_only_by_closing(state: DispatcherView, event: EventView)
    requires
        state.phase == Phase::Discovering,
        !(event is DiscoveryClosed),
    ensures
        state.next(event).phase == Phase::Discovering,
{
}

} // verus!
