use std::collections::HashMap;
use std::collections::HashSet;
use vstd::prelude::*;

verus! {

/// Kind of address a device is reached under.
#[derive(Clone, Copy, Debug, PartialEq, Eq, Hash, Structural)]
pub enum AddressType {
    /// Classic (BR/EDR) address.
    BrEdr,
    /// Low Energy public address.
    LePublic,
    /// Low Energy random address.
    LeRandom,
}

/// Device ID information in the kernel's modalias form.
#[derive(Clone, Debug, PartialEq, Eq, Hash)]
pub struct Modalias {
    pub source: String,
    pub vendor: u32,
    pub product: u32,
    pub device: u32,
}

/// What a `Modalias` holds.
pub struct ModaliasView {
    pub source: Seq<char>,
    pub vendor: u32,
    pub product: u32,
    pub device: u32,
}

impl View for Modalias {
    type V = ModaliasView;

    open spec fn view(&self) -> ModaliasView {
        ModaliasView {
            source: self.source@,
            vendor: self.vendor,
            product: self.product,
            device: self.device,
        }
    }
}

/// The characters of an optional text.
pub open spec fn text_view(text: Option<String>) -> Option<Seq<char>> {
    match text {
        Some(t) => Some(t@),
        None => None,
    }
}

/// What an optional modalias holds.
pub open spec fn modalias_view(modalias: Option<Modalias>) -> Option<ModaliasView> {
    match modalias {
        Some(m) => Some(m@),
        None => None,
    }
}

/// The members of an optional set of service UUIDs, each a 128-bit number.
pub open spec fn uuids_view(uuids: Option<HashSet<u128>>) -> Option<Set<u128>> {
    match uuids {
        Some(s) => Some(s@),
        None => None,
    }
}

/// The byte strings of a keyed collection of blobs, by key.
pub open spec fn blobs_view<K>(blobs: HashMap<K, Vec<u8>>) -> Map<K, Seq<u8>> {
    blobs@.map_values(|v: Vec<u8>| v@)
}

/// The byte strings of an optional keyed collection of blobs, by key.
pub open spec fn optional_blobs_view<K>(blobs: Option<HashMap<K, Vec<u8>>>) -> Option<
    Map<K, Seq<u8>>,
> {
    match blobs {
        Some(b) => Some(blobs_view(b)),
        None => None,
    }
}

/// The attributes of one device as last observed.
///
/// A UUID is held as its 128-bit number.
#[derive(Clone, Debug, PartialEq, Eq)]
pub struct BluetoothData {
    pub name: Option<String>,
    pub address_type: AddressType,
    pub icon: Option<String>,
    pub class: Option<u32>,
    pub appearance: Option<u16>,
    pub uuids: Option<HashSet<u128>>,
    pub paired: bool,
    pub connected: bool,
    pub trusted: bool,
    pub blocked: bool,
    pub wake_allowed: bool,
    pub alias: String,
    pub legacy_pairing: bool,
    pub modalias: Option<Modalias>,
    pub rssi: Option<i16>,
    pub tx_power: Option<i16>,
    pub manufacturer_data: Option<HashMap<u16, Vec<u8>>>,
    pub service_data: Option<HashMap<u128, Vec<u8>>>,
    pub services_resolved: bool,
    pub advertising_flags: Vec<u8>,
    pub advertising_data: HashMap<u8, Vec<u8>>,
}

/// What a `BluetoothData` holds, field by field.
pub struct BluetoothDataView {
    pub name: Option<Seq<char>>,
    pub address_type: AddressType,
    pub icon: Option<Seq<char>>,
    pub class: Option<u32>,
    pub appearance: Option<u16>,
    pub uuids: Option<Set<u128>>,
    pub paired: bool,
    pub connected: bool,
    pub trusted: bool,
    pub blocked: bool,
    pub wake_allowed: bool,
    pub alias: Seq<char>,
    pub legacy_pairing: bool,
    pub modalias: Option<ModaliasView>,
    pub rssi: Option<i16>,
    pub tx_power: Option<i16>,
    pub manufacturer_data: Option<Map<u16, Seq<u8>>>,
    pub service_data: Option<Map<u128, Seq<u8>>>,
    pub services_resolved: bool,
    pub advertising_flags: Seq<u8>,
    pub advertising_data: Map<u8, Seq<u8>>,
}

impl View for BluetoothData {
    type V = BluetoothDataView;

    open spec fn view(&self) -> BluetoothDataView {
        BluetoothDataView {
            name: text_view(self.name),
            address_type: self.address_type,
            icon: text_view(self.icon),
            class: self.class,
            appearance: self.appearance,
            uuids: uuids_view(self.uuids),
            paired: self.paired,
            connected: self.connected,
            trusted: self.trusted,
            blocked: self.blocked,
            wake_allowed: self.wake_allowed,
            alias: self.alias@,
            legacy_pairing: self.legacy_pairing,
            modalias: modalias_view(self.modalias),
            rssi: self.rssi,
            tx_power: self.tx_power,
            manufacturer_data: optional_blobs_view(self.manufacturer_data),
            service_data: optional_blobs_view(self.service_data),
            services_resolved: self.services_resolved,
            advertising_flags: self.advertising_flags@,
            advertising_data: blobs_view(self.advertising_data),
        }
    }
}

/// One attribute of a device together with its new value.
#[derive(Debug, PartialEq, Eq)]
pub enum DeviceProperty {
    Name(String),
    AddressType(AddressType),
    Icon(String),
    Class(u32),
    Appearance(u16),
    Uuids(HashSet<u128>),
    Paired(bool),
    Connected(bool),
    Trusted(bool),
    Blocked(bool),
    WakeAllowed(bool),
    Alias(String),
    LegacyPairing(bool),
    Modalias(Modalias),
    Rssi(i16),
    TxPower(i16),
    ManufacturerData(HashMap<u16, Vec<u8>>),
    ServiceData(HashMap<u128, Vec<u8>>),
    ServicesResolved(bool),
    AdvertisingFlags(Vec<u8>),
    AdvertisingData(HashMap<u8, Vec<u8>>),
}

/// What a `DeviceProperty` holds.
pub enum DevicePropertyView {
    Name(Seq<char>),
    AddressType(AddressType),
    Icon(Seq<char>),
    Class(u32),
    Appearance(u16),
    Uuids(Set<u128>),
    Paired(bool),
    Connected(bool),
    Trusted(bool),
    Blocked(bool),
    WakeAllowed(bool),
    Alias(Seq<char>),
    LegacyPairing(bool),
    Modalias(ModaliasView),
    Rssi(i16),
    TxPower(i16),
    ManufacturerData(Map<u16, Seq<u8>>),
    ServiceData(Map<u128, Seq<u8>>),
    ServicesResolved(bool),
    AdvertisingFlags(Seq<u8>),
    AdvertisingData(Map<u8, Seq<u8>>),
}

impl View for DeviceProperty {
    type V = DevicePropertyView;

    open spec fn view(&self) -> DevicePropertyView {
        match *self {
            DeviceProperty::Name(v) => DevicePropertyView::Name(v@),
            DeviceProperty::AddressType(v) => DevicePropertyView::AddressType(v),
            DeviceProperty::Icon(v) => DevicePropertyView::Icon(v@),
            DeviceProperty::Class(v) => DevicePropertyView::Class(v),
            DeviceProperty::Appearance(v) => DevicePropertyView::Appearance(v),
            DeviceProperty::Uuids(v) => DevicePropertyView::Uuids(v@),
            DeviceProperty::Paired(v) => DevicePropertyView::Paired(v),
            DeviceProperty::Connected(v) => DevicePropertyView::Connected(v),
            DeviceProperty::Trusted(v) => DevicePropertyView::Trusted(v),
            DeviceProperty::Blocked(v) => DevicePropertyView::Blocked(v),
            DeviceProperty::WakeAllowed(v) => DevicePropertyView::WakeAllowed(v),
            DeviceProperty::Alias(v) => DevicePropertyView::Alias(v@),
            DeviceProperty::LegacyPairing(v) => DevicePropertyView::LegacyPairing(v),
            DeviceProperty::Modalias(v) => DevicePropertyView::Modalias(v@),
            DeviceProperty::Rssi(v) => DevicePropertyView::Rssi(v),
            DeviceProperty::TxPower(v) => DevicePropertyView::TxPower(v),
            DeviceProperty::ManufacturerData(v) => DevicePropertyView::ManufacturerData(
                blobs_view(v),
            ),
            DeviceProperty::ServiceData(v) => DevicePropertyView::ServiceData(blobs_view(v)),
            DeviceProperty::ServicesResolved(v) => DevicePropertyView::ServicesResolved(v),
            DeviceProperty::AdvertisingFlags(v) => DevicePropertyView::AdvertisingFlags(v@),
            DeviceProperty::AdvertisingData(v) => DevicePropertyView::AdvertisingData(
                blobs_view(v),
            ),
        }
    }
}

impl BluetoothDataView {
    /// These attributes with the one attribute that `change` names set to the
    /// value that `change` carries, and every other attribute as it was.
    pub open spec fn merged(self, change: DevicePropertyView) -> BluetoothDataView {
        match change {
            DevicePropertyView::Name(v) => BluetoothDataView { name: Some(v), ..self },
            DevicePropertyView::AddressType(v) => BluetoothDataView { address_type: v, ..self },
            DevicePropertyView::Icon(v) => BluetoothDataView { icon: Some(v), ..self },
            DevicePropertyView::Class(v) => BluetoothDataView { class: Some(v), ..self },
            DevicePropertyView::Appearance(v) => BluetoothDataView { appearance: Some(v), ..self },
            DevicePropertyView::Uuids(v) => BluetoothDataView { uuids: Some(v), ..self },
            DevicePropertyView::Paired(v) => BluetoothDataView { paired: v, ..self },
            DevicePropertyView::Connected(v) => BluetoothDataView { connected: v, ..self },
            DevicePropertyView::Trusted(v) => BluetoothDataView { trusted: v, ..self },
            DevicePropertyView::Blocked(v) => BluetoothDataView { blocked: v, ..self },
            DevicePropertyView::WakeAllowed(v) => BluetoothDataView { wake_allowed: v, ..self },
            DevicePropertyView::Alias(v) => BluetoothDataView { alias: v, ..self },
            DevicePropertyView::LegacyPairing(v) => BluetoothDataView {
                legacy_pairing: v,
                ..self
            },
            DevicePropertyView::Modalias(v) => BluetoothDataView { modalias: Some(v), ..self },
            DevicePropertyView::Rssi(v) => BluetoothDataView { rssi: Some(v), ..self },
            DevicePropertyView::TxPower(v) => BluetoothDataView { tx_power: Some(v), ..self },
            DevicePropertyView::ManufacturerData(v) => BluetoothDataView {
                manufacturer_data: Some(v),
                ..self
            },
            DevicePropertyView::ServiceData(v) => BluetoothDataView {
                service_data: Some(v),
                ..self
            },
            DevicePropertyView::ServicesResolved(v) => BluetoothDataView {
                services_resolved: v,
                ..self
            },
            DevicePropertyView::AdvertisingFlags(v) => BluetoothDataView {
                advertising_flags: v,
                ..self
            },
            DevicePropertyView::AdvertisingData(v) => BluetoothDataView {
                advertising_data: v,
                ..self
            },
        }
    }
}

impl BluetoothData {
    /// The record with one changed attribute merged into it.
    pub fn merged(self, change: DeviceProperty) -> (merged: BluetoothData)
        ensures
            merged@ == self@.merged(change@),
    {
        match change {
            DeviceProperty::Name(v) => BluetoothData { name: Some(v), ..self },
            DeviceProperty::AddressType(v) => BluetoothData { address_type: v, ..self },
            DeviceProperty::Icon(v) => BluetoothData { icon: Some(v), ..self },
            DeviceProperty::Class(v) => BluetoothData { class: Some(v), ..self },
            DeviceProperty::Appearance(v) => BluetoothData { appearance: Some(v), ..self },
            DeviceProperty::Uuids(v) => BluetoothData { uuids: Some(v), ..self },
            DeviceProperty::Paired(v) => BluetoothData { paired: v, ..self },
            DeviceProperty::Connected(v) => BluetoothData { connected: v, ..self },
            DeviceProperty::Trusted(v) => BluetoothData { trusted: v, ..self },
            DeviceProperty::Blocked(v) => BluetoothData { blocked: v, ..self },
            DeviceProperty::WakeAllowed(v) => BluetoothData { wake_allowed: v, ..self },
            DeviceProperty::Alias(v) => BluetoothData { alias: v, ..self },
            DeviceProperty::LegacyPairing(v) => BluetoothData { legacy_pairing: v, ..self },
            DeviceProperty::Modalias(v) => BluetoothData { modalias: Some(v), ..self },
            DeviceProperty::Rssi(v) => BluetoothData { rssi: Some(v), ..self },
            DeviceProperty::TxPower(v) => BluetoothData { tx_power: Some(v), ..self },
            DeviceProperty::ManufacturerData(v) => BluetoothData { manufacturer_data: Some(v), ..self },
            DeviceProperty::ServiceData(v) => BluetoothData { service_data: Some(v), ..self },
            DeviceProperty::ServicesResolved(v) => BluetoothData { services_resolved: v, ..self },
            DeviceProperty::AdvertisingFlags(v) => BluetoothData { advertising_flags: v, ..self },
            DeviceProperty::AdvertisingData(v) => BluetoothData { advertising_data: v, ..self },
        }
    }
}

/// Assembles the attributes read from one device into one record.
///
/// Each argument is the answer to one attribute query: an optional attribute
/// that the device does not have is `None`.
pub fn device_to_data(
    name: Option<String>,
    address_type: AddressType,
    icon: Option<String>,
    class: Option<u32>,
    appearance: Option<u16>,
    uuids: Option<HashSet<u128>>,
    paired: bool,
    connected: bool,
    trusted: bool,
    blocked: bool,
    wake_allowed: bool,
    alias: String,
    legacy_pairing: bool,
    modalias: Option<Modalias>,
    rssi: Option<i16>,
    tx_power: Option<i16>,
    manufacturer_data: Option<HashMap<u16, Vec<u8>>>,
    service_data: Option<HashMap<u128, Vec<u8>>>,
    services_resolved: bool,
    advertising_flags: Vec<u8>,
    advertising_data: HashMap<u8, Vec<u8>>,
) -> (data: BluetoothData)
    ensures
        data@ == (BluetoothDataView {
            name: text_view(name),
            address_type: address_type,
            icon: text_view(icon),
            class: class,
            appearance: appearance,
            uuids: uuids_view(uuids),
            paired: paired,
            connected: connected,
            trusted: trusted,
            blocked: blocked,
            wake_allowed: wake_allowed,
            alias: alias@,
            legacy_pairing: legacy_pairing,
            modalias: modalias_view(modalias),
            rssi: rssi,
            tx_power: tx_power,
            manufacturer_data: optional_blobs_view(manufacturer_data),
            service_data: optional_blobs_view(service_data),
            services_resolved: services_resolved,
            advertising_flags: advertising_flags@,
            advertising_data: blobs_view(advertising_data),
        }),
{
    BluetoothData {
        name,
        address_type,
        icon,
        class,
        appearance,
        uuids,
        paired,
        connected,
        trusted,
        blocked,
        wake_allowed,
        alias,
        legacy_pairing,
        modalias,
        rssi,
        tx_power,
        manufacturer_data,
        service_data,
        services_resolved,
        advertising_flags,
        advertising_data,
    }
}

} // verus!
