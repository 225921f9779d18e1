use vstd::prelude::*;

verus! {

/// Identifier of a remote device: its 48-bit hardware address, held as a
/// number whose most significant octet is the first one written.
#[derive(Clone, Copy, Debug, PartialEq, Eq, Hash, Structural)]
pub struct Address {
    pub bits: u64,
}

/// The number that six octets stand for, the first octet being the most
/// significant one.
pub open spec fn pack(octets: Seq<u8>) -> u64 {
    (octets[0] as u64) << 40
        | (octets[1] as u64) << 32
        | (octets[2] as u64) << 24
        | (octets[3] as u64) << 16
        | (octets[4] as u64) << 8
        | (octets[5] as u64)
}

/// The six low octets of a number, most significant first.
pub open spec fn unpack(bits: u64) -> Seq<u8> {
    seq![
        ((bits >> 40) & 0xff) as u8,
        ((bits >> 32) & 0xff) as u8,
        ((bits >> 24) & 0xff) as u8,
        ((bits >> 16) & 0xff) as u8,
        ((bits >> 8) & 0xff) as u8,
        (bits & 0xff) as u8,
    ]
}

/// The six octets that `bluer` reads from a text, where it reads the text as
/// an address in colon-hexadecimal notation; `None` where it does not.
pub uninterp spec fn parsed_octets(text: Seq<char>) -> Option<Seq<u8>>;

/// The address that a text stands for in colon-hexadecimal notation, if it
/// stands for one.
pub open spec fn address_in(text: Seq<char>) -> Option<Address> {
    match parsed_octets(text) {
        Some(octets) => Some(Address { bits: pack(octets) }),
        None => None,
    }
}

/// Calls `<bluer::Address as FromStr>::from_str`, through `str::parse`, and
/// hands out the octets of the address it gives. Taken on trust of it: what
/// it gives depends on the text alone; `parsed_octets` is the name of that.
#[verifier::external_body]
fn parse_octets(text: &str) -> (octets: Option<[u8; 6]>)
    ensures
        match octets {
            Some(o) => parsed_octets(text@) == Some(o@),
            None => parsed_octets(text@) is None,
        },
{
    text.parse::<bluer::Address>().ok().map(|address| address.0)
}

impl Address {
    /// The address written as six octets.
    pub fn new(octets: [u8; 6]) -> (a: Address)
        ensures
            a.bits == pack(octets@),
    {
        let bits: u64 = (octets[0] as u64) << 40
            | (octets[1] as u64) << 32
            | (octets[2] as u64) << 24
            | (octets[3] as u64) << 16
            | (octets[4] as u64) << 8
            | (octets[5] as u64);
        Address { bits }
    }

    /// The six octets of the address, most significant first.
    pub fn octets(&self) -> (o: [u8; 6])
        ensures
            o@ == unpack(self.bits),
    {
        let b = self.bits;
        [
            ((b >> 40) & 0xff) as u8,
            ((b >> 32) & 0xff) as u8,
            ((b >> 24) & 0xff) as u8,
            ((b >> 16) & 0xff) as u8,
            ((b >> 8) & 0xff) as u8,
            (b & 0xff) as u8,
        ]
    }

    /// The address that a text stands for in colon-hexadecimal notation, as
    /// in `00:1A:7D:DA:71:13`; `None` where the text is no such address.
    pub fn parse(text: &str) -> (address: Option<Address>)
        ensures
            address == address_in(text@),
    {
        match parse_octets(text) {
            Some(octets) => Some(Address::new(octets)),
            None => None,
        }
    }
}

/// Writing an address as octets and reading it back gives the same octets.
pub proof fn lemma_unpack_pack(octets: Seq<u8>)
    requires
        octets.len() == 6,
    ensures
        unpack(pack(octets)) == octets,
{
    let a = octets[0];
    let b = octets[1];
    let c = octets[2];
    let d = octets[3];
    let e = octets[4];
    let f = octets[5];
    let bits = pack(octets);
    assert({
        &&& ((bits >> 40) & 0xff) as u8 == a
        &&& ((bits >> 32) & 0xff) as u8 == b
        &&& ((bits >> 24) & 0xff) as u8 == c
        &&& ((bits >> 16) & 0xff) as u8 == d
        &&& ((bits >> 8) & 0xff) as u8 == e
        &&& (bits & 0xff) as u8 == f
    }) by (bit_vector)
        requires
            bits == (a as u64) << 40 | (b as u64) << 32 | (c as u64) << 24 | (d as u64) << 16
                | (e as u64) << 8 | (f as u64),
    ;
}

/// Distinct octets make distinct addresses.
pub proof fn lemma_pack_injective(x: Seq<u8>, y: Seq<u8>)
    requires
        x.len() == 6,
        y.len() == 6,
        pack(x) == pack(y),
    ensures
        x == y,
{
    lemma_unpack_pack(x);
    lemma_unpack_pack(y);
}

/// A 48-bit number is the address of its own octets.
pub proof fn lemma_pack_unpack(bits: u64)
    requires
        bits < 0x1_0000_0000_0000,
    ensures
        pack(unpack(bits)) == bits,
{
    let a = ((bits >> 40) & 0xff) as u8;
    let b = ((bits >> 32) & 0xff) as u8;
    let c = ((bits >> 24) & 0xff) as u8;
    let d = ((bits >> 16) & 0xff) as u8;
    let e = ((bits >> 8) & 0xff) as u8;
    let f = (bits & 0xff) as u8;
    assert((a as u64) << 40 | (b as u64) << 32 | (c as u64) << 24 | (d as u64) << 16
        | (e as u64) << 8 | (f as u64) == bits) by (bit_vector)
        requires
            bits < 0x1_0000_0000_0000,
            a == ((bits >> 40) & 0xff) as u8,
            b == ((bits >> 32) & 0xff) as u8,
            c == ((bits >> 24) & 0xff) as u8,
            d == ((bits >> 16) & 0xff) as u8,
            e == ((bits >> 8) & 0xff) as u8,
            f == (bits & 0xff) as u8,
    ;
}

} // verus!
