use vstd::prelude::*;

verus! {

/// An IPv4 address, held as its four octets in textual order
/// (`10.0.0.1` is `[10, 0, 0, 1]`).
#[derive(Clone, Copy, Debug, PartialEq, Eq)]
pub struct Ipv4Address {
    pub octets: [u8; 4],
}

impl Ipv4Address {
    pub open spec fn is_unspecified(self) -> bool {
        self.octets@ == seq![0u8, 0u8, 0u8, 0u8]
    }

    pub fn new(a: u8, b: u8, c: u8, d: u8) -> (r: Ipv4Address)
        ensures
            r.octets@ == seq![a, b, c, d],
    {
        Ipv4Address { octets: [a, b, c, d] }
    }

    /// The all-zeroes address `0.0.0.0`, which the OS reads as
    /// "no address": the default route for sending, an unknown sender
    /// when reported as an origin.
    pub fn unspecified() -> (r: Ipv4Address)
        ensures
            r.is_unspecified(),
    {
        Ipv4Address { octets: [0, 0, 0, 0] }
    }
}

/// An IPv4 socket address: an address and a port.
#[derive(Clone, Copy, Debug, PartialEq, Eq)]
pub struct SocketAddressV4 {
    pub addr: Ipv4Address,
    pub port: u16,
}

impl SocketAddressV4 {
    pub fn new(addr: Ipv4Address, port: u16) -> (r: SocketAddressV4)
        ensures
            r.addr == addr,
            r.port == port,
    {
        SocketAddressV4 { addr, port }
    }
}

/// `0.0.0.0:0`, reported as the origin of a datagram whose sender the OS
/// did not name.
pub open spec fn unspecified_origin() -> SocketAddressV4 {
    SocketAddressV4 { addr: Ipv4Address { octets: [0u8, 0u8, 0u8, 0u8] }, port: 0u16 }
}

} // verus!
