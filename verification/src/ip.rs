//! Address classification following the IANA definitions.
//!
//! IPv4 private means RFC1918 (10/8, 172.16/12, 192.168/16); IPv4
//! broadcast means the limited broadcast 255.255.255.255; IPv6 link-local
//! means `fe80::/10`, i.e. the first ten bits are `1111 1110 10` — not
//! merely a first segment equal to 0xfe80, which would match only
//! `fe80::/16` and miss siblings in the same `/10`.

use vstd::prelude::*;

verus! {

/// Whether an IPv4 address starting with these two octets is RFC1918
/// private.
pub open spec fn spec_ipv4_private(a: u8, b: u8) -> bool {
    ||| a == 10
    ||| (a == 172 && 16 <= b && b < 32)
    ||| (a == 192 && b == 168)
}

/// Whether an IPv4 address with these octets is the limited broadcast.
pub open spec fn spec_ipv4_broadcast(a: u8, b: u8, c: u8, d: u8) -> bool {
    a == 255 && b == 255 && c == 255 && d == 255
}

/// Whether an IPv6 address starting with these two octets lies in
/// `fe80::/10`.
pub open spec fn spec_ipv6_link_local(b0: u8, b1: u8) -> bool {
    b0 == 0xfe && (b1 & 0xc0) == 0x80
}

/// RFC1918 test on the leading octets of an IPv4 address.
pub fn ipv4_private(a: u8, b: u8) -> (r: bool)
    ensures
        r == spec_ipv4_private(a, b),
{
    a == 10 || (a == 172 && 16 <= b && b < 32) || (a == 192 && b == 168)
}

/// Limited-broadcast test on the octets of an IPv4 address.
pub fn ipv4_broadcast(a: u8, b: u8, c: u8, d: u8) -> (r: bool)
    ensures
        r == spec_ipv4_broadcast(a, b, c, d),
{
    a == 255 && b == 255 && c == 255 && d == 255
}

/// `fe80::/10` test on the leading octets of an IPv6 address.
pub fn ipv6_link_local(b0: u8, b1: u8) -> (r: bool)
    ensures
        r == spec_ipv6_link_local(b0, b1),
{
    b0 == 0xfe && (b1 & 0xc0) == 0x80
}

/// An IPv4 address as its four octets.
#[derive(Clone, Copy, Debug)]
pub struct Ipv4Address {
    pub octets: [u8; 4],
}

impl Ipv4Address {
    /// RFC1918 private?
    pub fn is_private(&self) -> (r: bool)
        ensures
            r == spec_ipv4_private(self.octets[0], self.octets[1]),
    {
        let a = self.octets[0];
        let b = self.octets[1];
        a == 10 || (a == 172 && 16 <= b && b < 32) || (a == 192 && b == 168)
    }

    /// The limited broadcast 255.255.255.255?
    pub fn is_broadcast(&self) -> (r: bool)
        ensures
            r == spec_ipv4_broadcast(self.octets[0], self.octets[1], self.octets[2], self.octets[3]),
    {
        self.octets[0] == 255 && self.octets[1] == 255 && self.octets[2] == 255 && self.octets[3]
            == 255
    }
}

/// An IPv6 address as its sixteen octets, in network order.
#[derive(Clone, Copy, Debug)]
pub struct Ipv6Address {
    pub octets: [u8; 16],
}

/// Link-locality of an IPv6 address.
pub trait Ipv6Ext {
    /// Whether the address lies in `fe80::/10`.
    spec fn spec_is_link_local(&self) -> bool;

    /// Whether the address lies in `fe80::/10`.
    fn is_link_local(&self) -> (r: bool)
        ensures
            r == self.spec_is_link_local(),
    ;
}

impl Ipv6Ext for Ipv6Address {
    open spec fn spec_is_link_local(&self) -> bool {
        spec_ipv6_link_local(self.octets[0], self.octets[1])
    }

    fn is_link_local(&self) -> (r: bool) {
        self.octets[0] == 0xfe && (self.octets[1] & 0xc0) == 0x80
    }
}

} // verus!
