use crate::address::Address;
use std::collections::HashSet;
use vstd::prelude::*;

verus! {

/// The devices whose change stream has been admitted into the merged set of
/// streams. A device is admitted at most once; it is never taken out again.
pub struct StreamRegistry {
    admitted: HashSet<u64>,
}

impl View for StreamRegistry {
    type V = Set<Address>;

    closed spec fn view(&self) -> Set<Address> {
        Set::new(|a: Address| self.admitted@.contains(a.bits))
    }
}

impl StreamRegistry {
    /// A registry that has admitted no stream.
    pub fn new() -> (registry: StreamRegistry)
        ensures
            registry@ == Set::<Address>::empty(),
    {
        StreamRegistry { admitted: HashSet::new() }
    }

    /// Admits the change stream of `address` unless one was admitted before.
    /// Says whether the caller is to open the stream and add it to the merged
    /// set: `true` the first time an address is registered, `false` ever after.
    pub fn register(&mut self, address: Address) -> (admitted: bool)
        ensures
            admitted == !old(self)@.contains(address),
            final(self)@ == old(self)@.insert(address),
    {
        self.admitted.insert(address.bits)
    }

    /// Whether the change stream of `address` has been admitted.
    pub fn is_registered(&self, address: Address) -> (registered: bool)
        ensures
            registered == self@.contains(address),
    {
        self.admitted.contains(&address.bits)
    }
}

} // verus!
