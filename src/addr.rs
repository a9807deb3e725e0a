use vstd::prelude::*;

verus! {

/// An IPv4 address as its four octets, most significant first.
#[derive(Clone, Copy, Debug, PartialEq, Eq, Structural)]
pub struct Ipv4Address {
    pub a: u8,
    pub b: u8,
    pub c: u8,
    pub d: u8,
}

/// One address of an address answer.
#[derive(Clone, Copy, Debug, PartialEq, Eq, Structural)]
pub enum IpAddress {
    V4(Ipv4Address),
    V6(u128),
}

/// An address that a single host can hold: not the unspecified address, not
/// the limited broadcast address, and not a multicast group.
pub open spec fn is_host_address(x: Ipv4Address) -> bool {
    &&& !(x.a == 0 && x.b == 0 && x.c == 0 && x.d == 0)
    &&& !(x.a == 255 && x.b == 255 && x.c == 255 && x.d == 255)
    &&& !(224 <= x.a <= 239)
}

impl Ipv4Address {
    pub fn is_host(&self) -> (r: bool)
        ensures
            r == is_host_address(*self),
    {
        let unspecified = self.a == 0 && self.b == 0 && self.c == 0 && self.d == 0;
        let broadcast = self.a == 255 && self.b == 255 && self.c == 255 && self.d == 255;
        let multicast = 224 <= self.a && self.a <= 239;
        !unspecified && !broadcast && !multicast
    }
}

/// The first IPv4 address in `addrs`, if any.
pub open spec fn first_ipv4_spec(addrs: Seq<IpAddress>) -> Option<Ipv4Address>
    decreases addrs.len(),
{
    if addrs.len() == 0 {
        None
    } else {
        match addrs[0] {
            IpAddress::V4(x) => Some(x),
            IpAddress::V6(_) => first_ipv4_spec(addrs.drop_first()),
        }
    }
}

/// Keeps the IPv4 addresses of an answer and returns the first of them.
pub fn first_ipv4(addrs: &Vec<IpAddress>) -> (r: Option<Ipv4Address>)
    ensures
        r == first_ipv4_spec(addrs@),
{
    let mut i: usize = 0;
    assert(addrs@.subrange(0, addrs@.len() as int) =~= addrs@);
    while i < addrs.len()
        invariant
            i <= addrs.len(),
            first_ipv4_spec(addrs@) == first_ipv4_spec(addrs@.subrange(i as int, addrs@.len() as int)),
        decreases addrs.len() - i,
    {
        let ghost rest = addrs@.subrange(i as int, addrs@.len() as int);
        match addrs[i] {
            IpAddress::V4(x) => {
                return Some(x);
            },
            IpAddress::V6(_) => {
                assert(rest.drop_first() =~= addrs@.subrange(i as int + 1, addrs@.len() as int));
            },
        }
        i = i + 1;
    }
    assert(addrs@.subrange(i as int, addrs@.len() as int).len() == 0);
    None
}

} // verus!
