use device_monitor::address::Address;
use device_monitor::attributes::{device_to_data, AddressType, BluetoothData, Modalias};
use device_monitor::row::{bool_to_emoji, service_data_cell, to_bluetooth_info, Emoji, ServiceCell};
use device_monitor::table::DeviceRecord;
use std::collections::{HashMap, HashSet};

fn bare() -> BluetoothData {
    device_to_data(
        None,
        AddressType::LePublic,
        None,
        None,
        None,
        None,
        false,
        false,
        false,
        false,
        false,
        "alias".to_string(),
        false,
        None,
        None,
        None,
        None,
        None,
        false,
        Vec::new(),
        HashMap::new(),
    )
}

#[test]
fn true_is_shown_as_a_tick() {
    assert_eq!(bool_to_emoji(true), Emoji { emoji: "\u{2705}", fallback: "yes" });
}

#[test]
fn false_is_shown_as_a_cross() {
    assert_eq!(bool_to_emoji(false), Emoji { emoji: "\u{274c}", fallback: "no" });
}

#[test]
fn no_service_data_is_shown_as_nothing() {
    assert!(matches!(service_data_cell(&None), ServiceCell::Absent));
}

#[test]
fn one_service_data_entry_is_shown_by_its_bytes_alone() {
    let mut entries = HashMap::new();
    entries.insert(0xfeed_u128, vec![1u8, 2, 3]);
    let data = Some(entries);
    match service_data_cell(&data) {
        ServiceCell::Single(bytes) => assert_eq!(bytes, &vec![1u8, 2, 3]),
        _ => panic!("one entry is to be shown alone"),
    }
}

#[test]
fn several_service_data_entries_are_shown_with_their_uuids() {
    let mut entries = HashMap::new();
    entries.insert(1u128, vec![1u8]);
    entries.insert(2u128, vec![2u8, 2]);
    let data = Some(entries.clone());
    match service_data_cell(&data) {
        ServiceCell::Keyed(shown) => assert_eq!(shown, &entries),
        _ => panic!("several entries are to be shown with their keys"),
    }
}

#[test]
fn empty_service_data_is_shown_as_no_entries() {
    let data: Option<HashMap<u128, Vec<u8>>> = Some(HashMap::new());
    match service_data_cell(&data) {
        ServiceCell::Keyed(shown) => assert!(shown.is_empty()),
        _ => panic!("no entry is neither absent data nor a single entry"),
    }
}

#[test]
fn row_of_a_bare_device_has_empty_texts_and_crosses() {
    let data = bare();
    let address = Address::new([1, 2, 3, 4, 5, 6]);
    let row = to_bluetooth_info(&DeviceRecord { address, data: &data });
    assert_eq!(row.address, address);
    assert_eq!(row.name, "");
    assert_eq!(row.icon, "");
    assert_eq!(row.class, None);
    assert!(row.uuids.is_none());
    assert_eq!(row.paired, bool_to_emoji(false));
    assert_eq!(row.connected, bool_to_emoji(false));
    assert_eq!(row.trusted, bool_to_emoji(false));
    assert!(row.modalias.is_none());
    assert_eq!(row.rssi, None);
    assert_eq!(row.tx_power, None);
    assert!(matches!(row.service_data, ServiceCell::Absent));
    assert!(row.manufacturer_data.is_none());
}

#[test]
fn row_shows_the_attributes_of_the_device() {
    let mut uuids = HashSet::new();
    uuids.insert(42u128);
    let modalias = Modalias { source: "usb".to_string(), vendor: 1, product: 2, device: 3 };
    let mut manufacturer = HashMap::new();
    manufacturer.insert(76u16, vec![7u8, 8]);
    let mut service = HashMap::new();
    service.insert(9u128, vec![10u8]);
    let mut data = bare();
    data.name = Some("Speaker".to_string());
    data.icon = Some("audio-card".to_string());
    data.class = Some(0x240414);
    data.uuids = Some(uuids.clone());
    data.paired = true;
    data.connected = false;
    data.trusted = true;
    data.modalias = Some(modalias.clone());
    data.rssi = Some(-61);
    data.tx_power = Some(8);
    data.service_data = Some(service);
    data.manufacturer_data = Some(manufacturer.clone());
    let address = Address::new([6, 5, 4, 3, 2, 1]);
    let row = to_bluetooth_info(&DeviceRecord { address, data: &data });
    assert_eq!(row.address, address);
    assert_eq!(row.name, "Speaker");
    assert_eq!(row.icon, "audio-card");
    assert_eq!(row.class, Some(0x240414));
    assert_eq!(row.uuids, Some(&uuids));
    assert_eq!(row.paired, bool_to_emoji(true));
    assert_eq!(row.connected, bool_to_emoji(false));
    assert_eq!(row.trusted, bool_to_emoji(true));
    assert_eq!(row.modalias, Some(&modalias));
    assert_eq!(row.rssi, Some(-61));
    assert_eq!(row.tx_power, Some(8));
    match row.service_data {
        ServiceCell::Single(bytes) => assert_eq!(bytes, &vec![10u8]),
        _ => panic!("one entry is to be shown alone"),
    }
    assert_eq!(row.manufacturer_data, Some(&manufacturer));
}
