use crate::address::Address;
use crate::attributes::blobs_view;
use crate::attributes::optional_blobs_view;
use crate::attributes::BluetoothData;
use crate::attributes::BluetoothDataView;
use crate::attributes::Modalias;
use crate::attributes::ModaliasView;
use crate::table::DeviceRecord;
use single::Single;
use std::collections::HashMap;
use std::collections::HashSet;
use vstd::prelude::*;

verus! {

/// The error of the `single` crate: an iterator held no element, or more
/// than one.
#[verifier::external_type_specification]
#[verifier::external_body]
pub struct ExSingleError(single::Error);

/// A pictograph together with the text that stands for it where pictographs
/// cannot be shown.
#[derive(Clone, Copy, Debug, PartialEq, Eq)]
pub struct Emoji {
    pub emoji: &'static str,
    pub fallback: &'static str,
}

/// What an `Emoji` holds.
pub struct EmojiView {
    pub emoji: Seq<char>,
    pub fallback: Seq<char>,
}

impl View for Emoji {
    type V = EmojiView;

    open spec fn view(&self) -> EmojiView {
        EmojiView { emoji: self.emoji@, fallback: self.fallback@ }
    }
}

/// The mark that shows a flag: a tick for `true`, a cross for `false`.
pub open spec fn mark(flag: bool) -> EmojiView {
    if flag {
        EmojiView { emoji: "\u{2705}"@, fallback: "yes"@ }
    } else {
        EmojiView { emoji: "\u{274c}"@, fallback: "no"@ }
    }
}

/// The mark that shows a flag.
pub fn bool_to_emoji(flag: bool) -> (emoji: Emoji)
    ensures
        emoji@ == mark(flag),
{
    if flag {
        Emoji { emoji: "\u{2705}", fallback: "yes" }
    } else {
        Emoji { emoji: "\u{274c}", fallback: "no" }
    }
}

/// How the service data of a device is shown.
#[derive(Clone, Copy, Debug, PartialEq, Eq)]
pub enum ServiceCell<'a> {
    /// The device has no service data: nothing is shown.
    Absent,
    /// There is exactly one entry: its bytes are shown without its UUID.
    Single(&'a Vec<u8>),
    /// Each entry is shown with its UUID.
    Keyed(&'a HashMap<u128, Vec<u8>>),
}

/// What a `ServiceCell` holds.
pub enum ServiceCellView {
    Absent,
    Single(Seq<u8>),
    Keyed(Map<u128, Seq<u8>>),
}

impl<'a> View for ServiceCell<'a> {
    type V = ServiceCellView;

    open spec fn view(&self) -> ServiceCellView {
        match *self {
            ServiceCell::Absent => ServiceCellView::Absent,
            ServiceCell::Single(bytes) => ServiceCellView::Single(bytes@),
            ServiceCell::Keyed(entries) => ServiceCellView::Keyed(blobs_view(*entries)),
        }
    }
}

/// How service data is shown: nothing where there is none, the bytes of the
/// only entry where there is exactly one, else every entry with its UUID.
pub open spec fn service_cell(data: Option<Map<u128, Seq<u8>>>) -> ServiceCellView {
    match data {
        None => ServiceCellView::Absent,
        Some(entries) => if entries.len() == 1 {
            ServiceCellView::Single(entries[entries.dom().choose()])
        } else {
            ServiceCellView::Keyed(entries)
        },
    }
}

/// Calls `single::Single::single` on the values of the map. Taken on trust
/// of it: it gives a value exactly where the map has one entry, the crate's
/// error where it has none or several; and a value it gives is a value of
/// the map.
#[verifier::external_body]
#[allow(deprecated)]
fn single_value<'a>(entries: &'a HashMap<u128, Vec<u8>>) -> (found: Result<
    &'a Vec<u8>,
    single::Error,
>)
    ensures
        found is Ok <==> entries@.len() == 1,
        found matches Ok(bytes) ==> entries@.values().contains(*bytes),
{
    entries.values().single()
}

/// The service data of a device as it is to be shown.
pub fn service_data_cell<'a>(data: &'a Option<HashMap<u128, Vec<u8>>>) -> (cell: ServiceCell<'a>)
    ensures
        cell@ == service_cell(optional_blobs_view(*data)),
{
    match data {
        None => ServiceCell::Absent,
        Some(entries) => {
            proof {
                lemma_blobs_len(*entries);
            }
            if entries.len() == 1 {
                match single_value(entries) {
                    Ok(bytes) => {
                        proof {
                            lemma_only_value(*entries, *bytes);
                        }
                        ServiceCell::Single(bytes)
                    },
                    Err(_) => ServiceCell::Keyed(entries),
                }
            } else {
                ServiceCell::Keyed(entries)
            }
        },
    }
}

/// A collection of blobs has as many byte strings as it has blobs.
proof fn lemma_blobs_len(entries: HashMap<u128, Vec<u8>>)
    ensures
        blobs_view(entries).dom() == entries@.dom(),
        blobs_view(entries).len() == entries@.len(),
{
    assert(blobs_view(entries).dom() =~= entries@.dom());
}

/// In a map of one entry, any value it holds is the value of its only key.
proof fn lemma_only_value(entries: HashMap<u128, Vec<u8>>, bytes: Vec<u8>)
    requires
        entries@.len() == 1,
        entries@.values().contains(bytes),
    ensures
        blobs_view(entries)[blobs_view(entries).dom().choose()] == bytes@,
{
    lemma_blobs_len(entries);
    Set::lemma_is_singleton(entries@.dom());
}

/// One row of the rendered table: what is shown of one device.
#[derive(Clone, Copy, Debug, PartialEq, Eq)]
pub struct DeviceRow<'a> {
    pub address: Address,
    /// The name, empty where the device has none.
    pub name: &'a str,
    /// The icon, empty where the device has none.
    pub icon: &'a str,
    pub class: Option<u32>,
    pub uuids: Option<&'a HashSet<u128>>,
    pub paired: Emoji,
    pub connected: Emoji,
    pub trusted: Emoji,
    pub modalias: Option<&'a Modalias>,
    pub rssi: Option<i16>,
    pub tx_power: Option<i16>,
    pub service_data: ServiceCell<'a>,
    pub manufacturer_data: Option<&'a HashMap<u16, Vec<u8>>>,
}

/// What a `DeviceRow` holds.
pub struct DeviceRowView {
    pub address: Address,
    pub name: Seq<char>,
    pub icon: Seq<char>,
    pub class: Option<u32>,
    pub uuids: Option<Set<u128>>,
    pub paired: EmojiView,
    pub connected: EmojiView,
    pub trusted: EmojiView,
    pub modalias: Option<ModaliasView>,
    pub rssi: Option<i16>,
    pub tx_power: Option<i16>,
    pub service_data: ServiceCellView,
    pub manufacturer_data: Option<Map<u16, Seq<u8>>>,
}

/// A text, or the empty text where there is none.
pub open spec fn text_or_empty(text: Option<Seq<char>>) -> Seq<char> {
    match text {
        Some(t) => t,
        None => Seq::empty(),
    }
}

impl<'a> View for DeviceRow<'a> {
    type V = DeviceRowView;

    open spec fn view(&self) -> DeviceRowView {
        DeviceRowView {
            address: self.address,
            name: self.name@,
            icon: self.icon@,
            class: self.class,
            uuids: match self.uuids {
                Some(u) => Some(u@),
                None => None,
            },
            paired: self.paired@,
            connected: self.connected@,
            trusted: self.trusted@,
            modalias: match self.modalias {
                Some(m) => Some(m@),
                None => None,
            },
            rssi: self.rssi,
            tx_power: self.tx_power,
            service_data: self.service_data@,
            manufacturer_data: match self.manufacturer_data {
                Some(m) => Some(blobs_view(*m)),
                None => None,
            },
        }
    }
}

/// The row that shows a device with the given attributes.
pub open spec fn row_of(address: Address, data: BluetoothDataView) -> DeviceRowView {
    DeviceRowView {
        address,
        name: text_or_empty(data.name),
        icon: text_or_empty(data.icon),
        class: data.class,
        uuids: data.uuids,
        paired: mark(data.paired),
        connected: mark(data.connected),
        trusted: mark(data.trusted),
        modalias: data.modalias,
        rssi: data.rssi,
        tx_power: data.tx_power,
        service_data: service_cell(data.service_data),
        manufacturer_data: data.manufacturer_data,
    }
}

/// The row that shows one record of a snapshot.
pub fn to_bluetooth_info<'a>(record: &DeviceRecord<'a>) -> (row: DeviceRow<'a>)
    ensures
        row@ == row_of(record.address, record.data@),
{
    let data: &'a BluetoothData = record.data;
    let name: &'a str = match &data.name {
        Some(text) => text.as_str(),
        None => "",
    };
    let icon: &'a str = match &data.icon {
        Some(text) => text.as_str(),
        None => "",
    };
    proof {
        reveal_strlit("");
        assert(""@ =~= Seq::<char>::empty());
    }
    DeviceRow {
        address: record.address,
        name,
        icon,
        class: data.class,
        uuids: match &data.uuids {
            Some(u) => Some(u),
            None => None,
        },
        paired: bool_to_emoji(data.paired),
        connected: bool_to_emoji(data.connected),
        trusted: bool_to_emoji(data.trusted),
        modalias: match &data.modalias {
            Some(m) => Some(m),
            None => None,
        },
        rssi: data.rssi,
        tx_power: data.tx_power,
        service_data: service_data_cell(&data.service_data),
        manufacturer_data: match &data.manufacturer_data {
            Some(m) => Some(m),
            None => None,
        },
    }
}

} // verus!
