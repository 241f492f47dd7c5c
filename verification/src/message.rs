use vstd::prelude::*;

use crate::addr::{unspecified_origin, Ipv4Address, SocketAddressV4};

verus! {

/// Identifies a local network interface: `Default` lets the OS choose (or
/// reports that a received datagram's interface is unknown), `Ip` names an
/// interface by its local IPv4 address, and `Index` by the OS-assigned
/// numeric index. A received datagram is reported with `Index` or
/// `Default`, never `Ip`; a send accepts all three.
#[derive(Clone, Copy, Debug, PartialEq, Eq)]
pub enum Interface {
    Default,
    Ip(Ipv4Address),
    Index(u32),
}

/// One received datagram: its payload bytes (truncated to the receive
/// buffer), the sender's address and port, and the interface it arrived on.
#[derive(Debug, PartialEq, Eq)]
pub struct Message {
    pub data: Vec<u8>,
    pub origin_address: SocketAddressV4,
    pub interface: Interface,
}

/// What one OS receive call reported: how many payload bytes it stored,
/// the sender's address if the OS named one, and the arrival interface
/// index if the OS delivered its per-packet metadata.
#[derive(Clone, Copy, Debug)]
pub struct RecvMeta {
    pub bytes_received: usize,
    pub origin: Option<SocketAddressV4>,
    pub if_index: Option<u32>,
}

/// The sender address a `Message` reports: the one the OS named, or
/// `0.0.0.0:0` when it named none.
pub open spec fn origin_of(origin: Option<SocketAddressV4>) -> SocketAddressV4 {
    match origin {
        Some(o) => o,
        None => unspecified_origin(),
    }
}

/// The arrival interface a `Message` reports: `Index(i)` when the OS
/// delivered the per-packet interface metadata, else `Default`.
pub open spec fn interface_of(if_index: Option<u32>) -> Interface {
    match if_index {
        Some(i) => Interface::Index(i),
        None => Interface::Default,
    }
}

/// Builds the `Message` for one receive outcome: the payload is exactly
/// the first `meta.bytes_received` bytes of the receive buffer (the unused
/// tail is discarded), the origin falls back to `0.0.0.0:0`, and the
/// arrival interface is resolved from the reported index.
pub fn assemble_message(buffer: Vec<u8>, meta: RecvMeta) -> (m: Message)
    requires
        meta.bytes_received <= buffer@.len(),
    ensures
        m.data@ == buffer@.take(meta.bytes_received as int),
        m.origin_address == origin_of(meta.origin),
        m.interface == interface_of(meta.if_index),
{
    let mut data: Vec<u8> = Vec::new();
    let mut i: usize = 0;
    while i < meta.bytes_received
        invariant
            i <= meta.bytes_received,
            meta.bytes_received <= buffer@.len(),
            data@ == buffer@.take(i as int),
        decreases meta.bytes_received - i,
    {
        data.push(buffer[i]);
        i = i + 1;
        proof {
            assert(data@ =~= buffer@.take(i as int));
        }
    }
    let origin_address = match meta.origin {
        Some(o) => o,
        None => SocketAddressV4 { addr: Ipv4Address { octets: [0, 0, 0, 0] }, port: 0 },
    };
    let interface = match meta.if_index {
        Some(i) => Interface::Index(i),
        None => Interface::Default,
    };
    Message { data, origin_address, interface }
}

} // verus!
