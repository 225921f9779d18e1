use crate::address::Address;
use crate::attributes::BluetoothData;
use crate::attributes::BluetoothDataView;
use crate::attributes::DeviceProperty;
use crate::attributes::DevicePropertyView;
use crate::filter::admits;
use crate::filter::AllowList;
use crate::registry::StreamRegistry;
use crate::table::DeviceTable;
use vstd::prelude::*;

verus! {

/// Where the control loop stands.
#[derive(Clone, Copy, Debug, PartialEq, Eq, Structural)]
pub enum Phase {
    /// The discovery source is open.
    Discovering,
    /// The discovery source has closed; only change streams remain.
    Draining,
    /// No source remains open.
    Finished,
}

/// What one of the sources of the control loop has delivered.
#[derive(Debug, PartialEq, Eq)]
pub enum Event {
    /// Discovery announced a device.
    DeviceAdded(Address),
    /// The attributes of an announced device were retrieved.
    Fetched(Address, BluetoothData),
    /// The attributes of an announced device could not be retrieved: the
    /// device vanished after it was announced.
    FetchFailed(Address),
    /// Discovery announced that a device is gone.
    DeviceRemoved(Address),
    /// The discovery source is exhausted.
    DiscoveryClosed,
    /// The change stream of a device reported one changed attribute.
    PropertyChanged(Address, DeviceProperty),
    /// The merged set of change streams has no stream left that could
    /// deliver anything.
    ChangesClosed,
}

/// What an `Event` holds.
pub enum EventView {
    DeviceAdded(Address),
    Fetched(Address, BluetoothDataView),
    FetchFailed(Address),
    DeviceRemoved(Address),
    DiscoveryClosed,
    PropertyChanged(Address, DevicePropertyView),
    ChangesClosed,
}

impl View for Event {
    type V = EventView;

    open spec fn view(&self) -> EventView {
        match *self {
            Event::DeviceAdded(a) => EventView::DeviceAdded(a),
            Event::Fetched(a, data) => EventView::Fetched(a, data@),
            Event::FetchFailed(a) => EventView::FetchFailed(a),
            Event::DeviceRemoved(a) => EventView::DeviceRemoved(a),
            Event::DiscoveryClosed => EventView::DiscoveryClosed,
            Event::PropertyChanged(a, change) => EventView::PropertyChanged(a, change@),
            Event::ChangesClosed => EventView::ChangesClosed,
        }
    }
}

/// What the caller is to do after an event has been handled.
#[derive(Clone, Copy, Debug, PartialEq, Eq, Structural)]
pub enum Action {
    /// Nothing: the event has no effect that anyone could observe.
    Nothing,
    /// Retrieve the attributes of the device and report `Fetched` or
    /// `FetchFailed` for it.
    Fetch(Address),
    /// Render a snapshot of the table.
    Render,
    /// Open the change stream of the device, add it to the merged set of
    /// streams, then render a snapshot of the table.
    RegisterAndRender(Address),
    /// Leave the loop: no source remains open.
    Stop,
}

/// The state of a dispatcher.
pub struct DispatcherView {
    /// The allow-list; empty where every device is tracked.
    pub allowed: Set<Address>,
    /// Whether the change streams of known devices are followed.
    pub track_changes: bool,
    pub phase: Phase,
    /// The attributes last observed of each known device.
    pub table: Map<Address, BluetoothDataView>,
    /// The devices whose change stream has been admitted.
    pub registered: Set<Address>,
}

impl DispatcherView {
    /// The state a dispatcher starts in.
    pub open spec fn initial(allowed: Set<Address>, track_changes: bool) -> DispatcherView {
        DispatcherView {
            allowed,
            track_changes,
            phase: Phase::Discovering,
            table: Map::empty(),
            registered: Set::empty(),
        }
    }

    /// Whether what discovery says of `address` is acted on: discovery is
    /// open and the allow-list admits the device.
    pub open spec fn heeds(self, address: Address) -> bool {
        self.phase == Phase::Discovering && admits(self.allowed, address)
    }

    /// Whether a change of `address` is merged: change tracking is on, the
    /// loop has not finished, and the table holds a record of the device.
    pub open spec fn merges(self, address: Address) -> bool {
        self.phase != Phase::Finished && self.track_changes && self.table.contains_key(address)
    }

    /// The state after `event` has been handled.
    pub open spec fn next(self, event: EventView) -> DispatcherView {
        match event {
            EventView::DeviceAdded(_) => self,
            EventView::Fetched(a, data) => if self.heeds(a) {
                DispatcherView {
                    table: self.table.insert(a, data),
                    registered: if self.track_changes {
                        self.registered.insert(a)
                    } else {
                        self.registered
                    },
                    ..self
                }
            } else {
                self
            },
            EventView::FetchFailed(_) => self,
            EventView::DeviceRemoved(a) => if self.heeds(a) {
                DispatcherView { table: self.table.remove(a), ..self }
            } else {
                self
            },
            EventView::DiscoveryClosed => if self.phase == Phase::Discovering {
                DispatcherView {
                    phase: if self.track_changes {
                        Phase::Draining
                    } else {
                        Phase::Finished
                    },
                    ..self
                }
            } else {
                self
            },
            EventView::PropertyChanged(a, change) => if self.merges(a) {
                DispatcherView { table: self.table.insert(a, self.table[a].merged(change)), ..self }
            } else {
                self
            },
            EventView::ChangesClosed => if self.phase == Phase::Draining {
                DispatcherView { phase: Phase::Finished, ..self }
            } else {
                self
            },
        }
    }

    /// What the caller is told to do when `event` is handled in this state.
    pub open spec fn reaction(self, event: EventView) -> Action {
        if self.next(event).phase == Phase::Finished {
            Action::Stop
        } else {
            match event {
                EventView::DeviceAdded(a) => if self.heeds(a) {
                    Action::Fetch(a)
                } else {
                    Action::Nothing
                },
                EventView::Fetched(a, _) => if !self.heeds(a) {
                    Action::Nothing
                } else if self.track_changes && !self.registered.contains(a) {
                    Action::RegisterAndRender(a)
                } else {
                    Action::Render
                },
                EventView::FetchFailed(_) => Action::Nothing,
                EventView::DeviceRemoved(a) => if self.heeds(a) {
                    Action::Render
                } else {
                    Action::Nothing
                },
                EventView::DiscoveryClosed => Action::Nothing,
                EventView::PropertyChanged(a, _) => if self.merges(a) {
                    Action::Render
                } else {
                    Action::Nothing
                },
                EventView::ChangesClosed => Action::Nothing,
            }
        }
    }
}

/// The control structure of the loop: it takes the events of the discovery
/// source and of the merged change streams one at a time, keeps the table of
/// known devices and the registry of admitted change streams, and says after
/// each event what the caller is to do.
pub struct Dispatcher {
    allow_list: AllowList,
    track_changes: bool,
    phase: Phase,
    table: DeviceTable,
    registry: StreamRegistry,
}

impl View for Dispatcher {
    type V = DispatcherView;

    closed spec fn view(&self) -> DispatcherView {
        DispatcherView {
            allowed: self.allow_list@,
            track_changes: self.track_changes,
            phase: self.phase,
            table: self.table@,
            registered: self.registry@,
        }
    }
}

impl Dispatcher {
    /// A dispatcher at the start of discovery, with an empty table.
    pub fn new(allow_list: AllowList, track_changes: bool) -> (dispatcher: Dispatcher)
        ensures
            dispatcher@ == DispatcherView::initial(allow_list@, track_changes),
    {
        Dispatcher {
            allow_list,
            track_changes,
            phase: Phase::Discovering,
            table: DeviceTable::new(),
            registry: StreamRegistry::new(),
        }
    }

    /// Handles one event and says what the caller is to do.
    pub fn step(&mut self, event: Event) -> (action: Action)
        ensures
            final(self)@ == old(self)@.next(event@),
            action == old(self)@.reaction(event@),
    {
        if self.phase == Phase::Finished {
            return Action::Stop;
        }
        let discovering = self.phase == Phase::Discovering;
        match event {
            Event::DeviceAdded(a) => {
                if discovering && self.allow_list.admits(a) {
                    Action::Fetch(a)
                } else {
                    Action::Nothing
                }
            },
            Event::Fetched(a, data) => {
                if discovering && self.allow_list.admits(a) {
                    self.table.upsert(a, data);
                    if self.track_changes && self.registry.register(a) {
                        Action::RegisterAndRender(a)
                    } else {
                        Action::Render
                    }
                } else {
                    Action::Nothing
                }
            },
            Event::FetchFailed(_) => Action::Nothing,
            Event::DeviceRemoved(a) => {
                if discovering && self.allow_list.admits(a) {
                    self.table.remove(a);
                    Action::Render
                } else {
                    Action::Nothing
                }
            },
            Event::DiscoveryClosed => {
                if !discovering {
                    Action::Nothing
                } else if self.track_changes {
                    self.phase = Phase::Draining;
                    Action::Nothing
                } else {
                    self.phase = Phase::Finished;
                    Action::Stop
                }
            },
            Event::PropertyChanged(a, change) => {
                if self.track_changes && self.table.apply_change(a, change) {
                    Action::Render
                } else {
                    Action::Nothing
                }
            },
            Event::ChangesClosed => {
                if discovering {
                    Action::Nothing
                } else {
                    self.phase = Phase::Finished;
                    Action::Stop
                }
            },
        }
    }

    /// Where the loop stands.
    pub fn phase(&self) -> (phase: Phase)
        ensures
            phase == self@.phase,
    {
        self.phase
    }

    /// Whether the change streams of known devices are followed.
    pub fn track_changes(&self) -> (track_changes: bool)
        ensures
            track_changes == self@.track_changes,
    {
        self.track_changes
    }

    /// The allow-list.
    pub fn allow_list(&self) -> (allow_list: &AllowList)
        ensures
            allow_list@ == self@.allowed,
    {
        &self.allow_list
    }

    /// The table of known devices.
    pub fn table(&self) -> (table: &DeviceTable)
        ensures
            table@ == self@.table,
    {
        &self.table
    }

    /// The registry of admitted change streams.
    pub fn registry(&self) -> (registry: &StreamRegistry)
        ensures
            registry@ == self@.registered,
    {
        &self.registry
    }
}

} // verus!
