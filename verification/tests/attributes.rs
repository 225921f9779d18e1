use device_monitor::attributes::{device_to_data, AddressType, BluetoothData, DeviceProperty, Modalias};
use std::collections::{HashMap, HashSet};

fn plain(alias: &str) -> BluetoothData {
    device_to_data(
        None,
        AddressType::LePublic,
        None,
        None,
        None,
        None,
        false,
        false,
        false,
        false,
        false,
        alias.to_string(),
        false,
        None,
        None,
        None,
        None,
        None,
        false,
        Vec::new(),
        HashMap::new(),
    )
}

fn blobs_u16(key: u16, bytes: &[u8]) -> HashMap<u16, Vec<u8>> {
    let mut m = HashMap::new();
    m.insert(key, bytes.to_vec());
    m
}

fn blobs_u128(key: u128, bytes: &[u8]) -> HashMap<u128, Vec<u8>> {
    let mut m = HashMap::new();
    m.insert(key, bytes.to_vec());
    m
}

fn blobs_u8(key: u8, bytes: &[u8]) -> HashMap<u8, Vec<u8>> {
    let mut m = HashMap::new();
    m.insert(key, bytes.to_vec());
    m
}

#[test]
fn device_to_data_puts_each_answer_in_its_field() {
    let mut uuids = HashSet::new();
    uuids.insert(0x0000_180f_0000_1000_8000_0080_5f9b_34fb_u128);
    let modalias = Modalias { source: "usb".to_string(), vendor: 0x1d6b, product: 0x0246, device: 0x0540 };
    let data = device_to_data(
        Some("Headset".to_string()),
        AddressType::BrEdr,
        Some("audio-headset".to_string()),
        Some(0x240404),
        Some(0x0941),
        Some(uuids.clone()),
        true,
        false,
        true,
        false,
        true,
        "My headset".to_string(),
        true,
        Some(modalias.clone()),
        Some(-47),
        Some(4),
        Some(blobs_u16(0x004c, &[1, 2, 3])),
        Some(blobs_u128(7, &[9])),
        true,
        vec![0x06],
        blobs_u8(0xff, &[4, 5]),
    );
    assert_eq!(data.name, Some("Headset".to_string()));
    assert_eq!(data.address_type, AddressType::BrEdr);
    assert_eq!(data.icon, Some("audio-headset".to_string()));
    assert_eq!(data.class, Some(0x240404));
    assert_eq!(data.appearance, Some(0x0941));
    assert_eq!(data.uuids, Some(uuids));
    assert!(data.paired);
    assert!(!data.connected);
    assert!(data.trusted);
    assert!(!data.blocked);
    assert!(data.wake_allowed);
    assert_eq!(data.alias, "My headset");
    assert!(data.legacy_pairing);
    assert_eq!(data.modalias, Some(modalias));
    assert_eq!(data.rssi, Some(-47));
    assert_eq!(data.tx_power, Some(4));
    assert_eq!(data.manufacturer_data, Some(blobs_u16(0x004c, &[1, 2, 3])));
    assert_eq!(data.service_data, Some(blobs_u128(7, &[9])));
    assert!(data.services_resolved);
    assert_eq!(data.advertising_flags, vec![0x06]);
    assert_eq!(data.advertising_data, blobs_u8(0xff, &[4, 5]));
}

#[test]
fn device_to_data_keeps_absent_attributes_absent() {
    let data = plain("a");
    assert_eq!(data.name, None);
    assert_eq!(data.icon, None);
    assert_eq!(data.class, None);
    assert_eq!(data.appearance, None);
    assert_eq!(data.uuids, None);
    assert_eq!(data.modalias, None);
    assert_eq!(data.rssi, None);
    assert_eq!(data.tx_power, None);
    assert_eq!(data.manufacturer_data, None);
    assert_eq!(data.service_data, None);
    assert!(data.advertising_flags.is_empty());
    assert!(data.advertising_data.is_empty());
}

#[test]
fn merged_name_sets_only_the_name() {
    let mut expected = plain("a");
    expected.name = Some("X".to_string());
    assert_eq!(plain("a").merged(DeviceProperty::Name("X".to_string())), expected);
}

#[test]
fn merged_address_type_sets_only_the_address_type() {
    let mut expected = plain("a");
    expected.address_type = AddressType::LeRandom;
    assert_eq!(plain("a").merged(DeviceProperty::AddressType(AddressType::LeRandom)), expected);
}

#[test]
fn merged_icon_sets_only_the_icon() {
    let mut expected = plain("a");
    expected.icon = Some("phone".to_string());
    assert_eq!(plain("a").merged(DeviceProperty::Icon("phone".to_string())), expected);
}

#[test]
fn merged_class_sets_only_the_class() {
    let mut expected = plain("a");
    expected.class = Some(0x5a020c);
    assert_eq!(plain("a").merged(DeviceProperty::Class(0x5a020c)), expected);
}

#[test]
fn merged_appearance_sets_only_the_appearance() {
    let mut expected = plain("a");
    expected.appearance = Some(960);
    assert_eq!(plain("a").merged(DeviceProperty::Appearance(960)), expected);
}

#[test]
fn merged_uuids_sets_only_the_uuids() {
    let mut uuids = HashSet::new();
    uuids.insert(1u128);
    uuids.insert(u128::MAX);
    let mut expected = plain("a");
    expected.uuids = Some(uuids.clone());
    assert_eq!(plain("a").merged(DeviceProperty::Uuids(uuids)), expected);
}

#[test]
fn merged_paired_sets_only_paired() {
    let mut expected = plain("a");
    expected.paired = true;
    assert_eq!(plain("a").merged(DeviceProperty::Paired(true)), expected);
}

#[test]
fn merged_connected_sets_only_connected() {
    let mut expected = plain("a");
    expected.connected = true;
    assert_eq!(plain("a").merged(DeviceProperty::Connected(true)), expected);
}

#[test]
fn merged_connected_false_clears_connected() {
    let connected = plain("a").merged(DeviceProperty::Connected(true));
    assert_eq!(connected.merged(DeviceProperty::Connected(false)), plain("a"));
}

#[test]
fn merged_trusted_sets_only_trusted() {
    let mut expected = plain("a");
    expected.trusted = true;
    assert_eq!(plain("a").merged(DeviceProperty::Trusted(true)), expected);
}

#[test]
fn merged_blocked_sets_only_blocked() {
    let mut expected = plain("a");
    expected.blocked = true;
    assert_eq!(plain("a").merged(DeviceProperty::Blocked(true)), expected);
}

#[test]
fn merged_wake_allowed_sets_only_wake_allowed() {
    let mut expected = plain("a");
    expected.wake_allowed = true;
    assert_eq!(plain("a").merged(DeviceProperty::WakeAllowed(true)), expected);
}

#[test]
fn merged_alias_sets_only_the_alias() {
    assert_eq!(plain("a").merged(DeviceProperty::Alias("b".to_string())), plain("b"));
}

#[test]
fn merged_legacy_pairing_sets_only_legacy_pairing() {
    let mut expected = plain("a");
    expected.legacy_pairing = true;
    assert_eq!(plain("a").merged(DeviceProperty::LegacyPairing(true)), expected);
}

#[test]
fn merged_modalias_sets_only_the_modalias() {
    let modalias = Modalias { source: "bluetooth".to_string(), vendor: 1, product: 2, device: 3 };
    let mut expected = plain("a");
    expected.modalias = Some(modalias.clone());
    assert_eq!(plain("a").merged(DeviceProperty::Modalias(modalias)), expected);
}

#[test]
fn merged_rssi_sets_only_the_rssi() {
    let mut expected = plain("a");
    expected.rssi = Some(-90);
    assert_eq!(plain("a").merged(DeviceProperty::Rssi(-90)), expected);
}

#[test]
fn merged_tx_power_sets_only_the_tx_power() {
    let mut expected = plain("a");
    expected.tx_power = Some(i16::MIN);
    assert_eq!(plain("a").merged(DeviceProperty::TxPower(i16::MIN)), expected);
}

#[test]
fn merged_manufacturer_data_sets_only_the_manufacturer_data() {
    let mut expected = plain("a");
    expected.manufacturer_data = Some(blobs_u16(76, &[0x10, 0x05]));
    assert_eq!(
        plain("a").merged(DeviceProperty::ManufacturerData(blobs_u16(76, &[0x10, 0x05]))),
        expected
    );
}

#[test]
fn merged_service_data_sets_only_the_service_data() {
    let mut expected = plain("a");
    expected.service_data = Some(blobs_u128(0xfe9f, &[0]));
    assert_eq!(plain("a").merged(DeviceProperty::ServiceData(blobs_u128(0xfe9f, &[0]))), expected);
}

#[test]
fn merged_services_resolved_sets_only_services_resolved() {
    let mut expected = plain("a");
    expected.services_resolved = true;
    assert_eq!(plain("a").merged(DeviceProperty::ServicesResolved(true)), expected);
}

#[test]
fn merged_advertising_flags_sets_only_the_advertising_flags() {
    let mut expected = plain("a");
    expected.advertising_flags = vec![0x1a];
    assert_eq!(plain("a").merged(DeviceProperty::AdvertisingFlags(vec![0x1a])), expected);
}

#[test]
fn merged_advertising_data_sets_only_the_advertising_data() {
    let mut expected = plain("a");
    expected.advertising_data = blobs_u8(0x16, &[1, 2]);
    assert_eq!(plain("a").merged(DeviceProperty::AdvertisingData(blobs_u8(0x16, &[1, 2]))), expected);
}

#[test]
fn merged_replaces_an_earlier_value_of_the_same_attribute() {
    let first = plain("a").merged(DeviceProperty::Rssi(-40));
    let second = first.merged(DeviceProperty::Rssi(-70));
    assert_eq!(second.rssi, Some(-70));
}

#[test]
fn merged_keeps_what_earlier_changes_set() {
    let data = plain("a")
        .merged(DeviceProperty::Name("N".to_string()))
        .merged(DeviceProperty::Connected(true))
        .merged(DeviceProperty::Rssi(-55));
    assert_eq!(data.name, Some("N".to_string()));
    assert!(data.connected);
    assert_eq!(data.rssi, Some(-55));
    assert_eq!(data.alias, "a");
}
