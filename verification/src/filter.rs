use crate::address::address_in;
use crate::address::Address;
use std::collections::HashSet;
use vstd::prelude::*;

verus! {

/// The devices that are to be tracked. An empty list tracks every device.
pub struct AllowList {
    allowed: HashSet<u64>,
}

impl View for AllowList {
    type V = Set<Address>;

    closed spec fn view(&self) -> Set<Address> {
        Set::new(|a: Address| self.allowed@.contains(a.bits))
    }
}

/// Whether a device is tracked under an allow-list: the list is empty, or the
/// device is on it.
pub open spec fn admits(allowed: Set<Address>, address: Address) -> bool {
    allowed.is_empty() || allowed.contains(address)
}

/// The addresses that the texts of a sequence stand for.
pub open spec fn addresses_among(texts: Seq<Seq<char>>) -> Set<Address> {
    Set::new(
        |a: Address| exists|i: int| 0 <= i < texts.len() && address_in(#[trigger] texts[i]) == Some(a),
    )
}

/// One more text adds the address it stands for, if it stands for one.
proof fn lemma_addresses_among_push(texts: Seq<Seq<char>>, text: Seq<char>)
    ensures
        addresses_among(texts.push(text)) == (match address_in(text) {
            Some(a) => addresses_among(texts).insert(a),
            None => addresses_among(texts),
        }),
{
    let longer = texts.push(text);
    let expected = match address_in(text) {
        Some(a) => addresses_among(texts).insert(a),
        None => addresses_among(texts),
    };
    assert forall|a: Address| addresses_among(longer).contains(a) implies expected.contains(a) by {
        let i = choose|i: int| 0 <= i < longer.len() && address_in(#[trigger] longer[i]) == Some(a);
    }
    assert forall|a: Address| expected.contains(a) implies addresses_among(longer).contains(a) by {
        if addresses_among(texts).contains(a) {
            let i = choose|i: int| 0 <= i < texts.len() && address_in(#[trigger] texts[i]) == Some(a);
            assert(longer[i] == texts[i]);
        } else {
            assert(longer[texts.len() as int] == text);
        }
    }
}

impl AllowList {
    /// The list that tracks every device.
    pub fn new() -> (list: AllowList)
        ensures
            list@ == Set::<Address>::empty(),
    {
        AllowList { allowed: HashSet::new() }
    }

    /// The list of exactly the given addresses.
    pub fn from_addresses(addresses: &Vec<Address>) -> (list: AllowList)
        ensures
            list@ == addresses@.to_set(),
    {
        let mut list = AllowList::new();
        let mut i: usize = 0;
        while i < addresses.len()
            invariant
                i <= addresses.len(),
                list@ == addresses@.take(i as int).to_set(),
            decreases addresses.len() - i,
        {
            list.insert(addresses[i]);
            proof {
                let before = addresses@.take(i as int);
                assert(addresses@.take(i + 1) =~= before.push(addresses@[i as int]));
                before.lemma_push_to_set_commute(addresses@[i as int]);
            }
            i += 1;
        }
        assert(addresses@.take(addresses.len() as int) =~= addresses@);
        list
    }

    /// The list of the addresses among the given texts: each text that stands
    /// for an address puts that address on the list, every other text is
    /// passed over.
    pub fn from_args(args: &Vec<String>) -> (list: AllowList)
        ensures
            list@ == addresses_among(args.deep_view()),
    {
        let mut list = AllowList::new();
        let mut i: usize = 0;
        while i < args.len()
            invariant
                i <= args.len(),
                list@ == addresses_among(args.deep_view().take(i as int)),
            decreases args.len() - i,
        {
            let ghost before = args.deep_view().take(i as int);
            let ghost text = args.deep_view()[i as int];
            if let Some(address) = Address::parse(args[i].as_str()) {
                list.insert(address);
            }
            proof {
                assert(args.deep_view().take(i + 1) =~= before.push(text));
                lemma_addresses_among_push(before, text);
            }
            i += 1;
        }
        assert(args.deep_view().take(args.len() as int) =~= args.deep_view());
        list
    }

    /// Puts `address` on the list.
    pub fn insert(&mut self, address: Address)
        ensures
            final(self)@ == old(self)@.insert(address),
    {
        self.allowed.insert(address.bits);
    }

    /// Whether `address` is on the list.
    pub fn contains(&self, address: Address) -> (listed: bool)
        ensures
            listed == self@.contains(address),
    {
        self.allowed.contains(&address.bits)
    }

    /// Whether the list is empty, so that every device is tracked.
    pub fn is_empty(&self) -> (empty: bool)
        ensures
            empty == self@.is_empty(),
    {
        let empty = self.allowed.is_empty();
        proof {
            if !empty {
                let bits = choose|bits: u64| self.allowed@.contains(bits);
                assert(self@.contains(Address { bits }));
            }
        }
        empty
    }

    /// Whether a device is admitted: the list is empty, or the device is on it.
    pub fn admits(&self, address: Address) -> (admitted: bool)
        ensures
            admitted == admits(self@, address),
    {
        self.is_empty() || self.contains(address)
    }
}

} // verus!
