use crate::address::Address;
use crate::attributes::BluetoothData;
use crate::attributes::BluetoothDataView;
use crate::attributes::DeviceProperty;
use std::collections::HashMap;
use vstd::prelude::*;

verus! {

/// The known devices: for each address at most one record, the attributes
/// last observed of that device.
pub struct DeviceTable {
    devices: HashMap<u64, BluetoothData>,
}

/// One row of a snapshot: a known device and its attributes.
#[derive(Clone, Copy, Debug, PartialEq, Eq)]
pub struct DeviceRecord<'a> {
    pub address: Address,
    pub data: &'a BluetoothData,
}

impl View for DeviceTable {
    type V = Map<Address, BluetoothDataView>;

    closed spec fn view(&self) -> Map<Address, BluetoothDataView> {
        Map::new(
            |a: Address| self.devices@.contains_key(a.bits),
            |a: Address| self.devices@[a.bits]@,
        )
    }
}

impl DeviceTable {
    /// A table that knows no device.
    pub fn new() -> (table: DeviceTable)
        ensures
            table@ == Map::<Address, BluetoothDataView>::empty(),
    {
        DeviceTable { devices: HashMap::new() }
    }

    /// Stores `data` as the record of `address`, in place of any earlier one.
    pub fn upsert(&mut self, address: Address, data: BluetoothData)
        ensures
            final(self)@ == old(self)@.insert(address, data@),
    {
        self.devices.insert(address.bits, data);
    }

    /// Forgets the record of `address`; says whether there was one.
    pub fn remove(&mut self, address: Address) -> (removed: bool)
        ensures
            final(self)@ == old(self)@.remove(address),
            removed == old(self)@.contains_key(address),
    {
        self.devices.remove(&address.bits).is_some()
    }

    /// Merges one changed attribute into the record of `address`. Where the
    /// table holds no such record the change is dropped and the table stays as
    /// it is. Says whether a record was changed.
    pub fn apply_change(&mut self, address: Address, change: DeviceProperty) -> (applied: bool)
        ensures
            applied == old(self)@.contains_key(address),
            applied ==> final(self)@ == old(self)@.insert(
                address,
                old(self)@[address].merged(change@),
            ),
            !applied ==> final(self)@ == old(self)@,
    {
        match self.devices.remove(&address.bits) {
            Some(data) => {
                self.devices.insert(address.bits, data.merged(change));
                true
            },
            None => false,
        }
    }

    /// The record of `address`, if the table holds one.
    pub fn get(&self, address: Address) -> (found: Option<&BluetoothData>)
        ensures
            match found {
                Some(data) => self@.contains_key(address) && data@ == self@[address],
                None => !self@.contains_key(address),
            },
    {
        self.devices.get(&address.bits)
    }

    /// Whether the table holds a record of `address`.
    pub fn contains(&self, address: Address) -> (known: bool)
        ensures
            known == self@.contains_key(address),
    {
        self.devices.contains_key(&address.bits)
    }

    /// How many devices the table knows.
    pub fn len(&self) -> (count: usize)
        ensures
            count == self@.len(),
            self@.dom().finite(),
    {
        proof {
            self.lemma_same_size();
        }
        self.devices.len()
    }

    /// The table has as many records as the map that holds them has keys.
    proof fn lemma_same_size(&self)
        ensures
            self@.dom().finite(),
            self@.len() == self.devices@.len(),
    {
        let to_address = |bits: u64| Address { bits };
        assert(self.devices@.dom().map(to_address) =~= self@.dom());
        vstd::set_lib::lemma_map_size(self.devices@.dom(), self@.dom(), to_address);
    }

    /// Whether the table knows no device.
    pub fn is_empty(&self) -> (empty: bool)
        ensures
            empty == self@.is_empty(),
    {
        let count = self.len();
        proof {
            if count == 0 {
                self@.dom().lemma_len0_is_empty();
            }
        }
        count == 0
    }

    /// All records as they stand, each device once, in no particular order.
    pub fn snapshot(&self) -> (records: Vec<DeviceRecord<'_>>)
        ensures
            records.len() == self@.len(),
            forall|i: int|
                0 <= i < records.len() ==> self@.contains_key(#[trigger] records[i].address)
                    && records[i].data@ == self@[records[i].address],
            forall|a: Address|
                self@.contains_key(a) ==> exists|i: int|
                    0 <= i < records.len() && #[trigger] records[i].address == a,
            forall|i: int, j: int|
                0 <= i < j < records.len() ==> #[trigger] records[i].address
                    != #[trigger] records[j].address,
    {
        let mut records: Vec<DeviceRecord<'_>> = Vec::new();
        let ghost mut keys: Seq<u64> = Seq::empty();
        for key in it: self.devices.keys()
            invariant
                records.len() == it.index(),
                keys == it.seq().unref().take(it.index()),
                it.seq().unref().to_set() == self.devices@.dom(),
                it.seq().unref().no_duplicates(),
                it.index() == it.seq().len() ==> keys == it.seq().unref(),
                forall|i: int|
                    0 <= i < records.len() ==> (#[trigger] records[i]).address.bits == keys[i]
                        && self.devices@.contains_key(records[i].address.bits)
                        && *records[i].data == self.devices@[records[i].address.bits],
        {
            match self.devices.get(key) {
                Some(data) => {
                    records.push(DeviceRecord { address: Address { bits: *key }, data });
                },
                None => {},
            }
            proof {
                keys = keys.push(*key);
            }
        }
        proof {
            self.lemma_same_size();
            keys.unique_seq_to_set();
            assert forall|a: Address| self@.contains_key(a) implies exists|i: int|
                0 <= i < records.len() && #[trigger] records[i].address == a by {
                let i = choose|i: int| 0 <= i < keys.len() && keys[i] == a.bits;
                assert(records[i].address == a);
            }
        }
        records
    }
}

} // verus!
