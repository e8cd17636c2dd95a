use vstd::prelude::*;

verus! {

/// A remote endpoint: an IP address as an integer (an IPv4 address in the low
/// 32 bits) and a port.
#[derive(Clone, Copy, Debug, PartialEq, Eq, Structural, Hash)]
pub struct PeerAddr {
    pub ip: u128,
    pub port: u16,
    pub ipv6: bool,
}

impl PeerAddr {
    /// An IPv4 endpoint from its four octets and a port.
    pub fn v4(a: u8, b: u8, c: u8, d: u8, port: u16) -> (r: PeerAddr)
        ensures
            r.ip == a as int * 0x1000000 + b as int * 0x10000 + c as int * 0x100 + d as int,
            r.port == port,
            !r.ipv6,
    {
        let ip: u128 = (a as u128) * 0x1000000 + (b as u128) * 0x10000 + (c as u128) * 0x100
            + (d as u128);
        PeerAddr { ip, port, ipv6: false }
    }

    /// An IPv6 endpoint from its 128-bit address and a port.
    pub fn v6(ip: u128, port: u16) -> (r: PeerAddr)
        ensures
            r == (PeerAddr { ip, port, ipv6: true }),
    {
        PeerAddr { ip, port, ipv6: true }
    }
}

} // verus!
