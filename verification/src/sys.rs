//! The trusted boundary to the OS socket facilities.
//!
//! Everything below talks to the OS through the `nix` crate. Each call is
//! wrapped in one `external_body` function whose contract states, over the
//! ghost [`SocketState`], what the call does; Verus believes these
//! contracts and verifies the rest of the library against them.

use vstd::prelude::*;

use nix::sys::socket::{
    recvmsg, sendmsg, sendto, setsockopt, sockopt, AddressFamily, ControlMessage,
    ControlMessageOwned, IpMembershipRequest, MsgFlags, SockFlag, SockProtocol, SockType,
    SockaddrIn,
};
use nix::sys::time::{TimeVal, TimeValLike};
use std::io::{IoSlice, IoSliceMut};

use crate::addr::{Ipv4Address, SocketAddressV4};
use crate::errors::MulticastError;
use crate::message::RecvMeta;

verus! {

/// One datagram handed to the OS for transmission: the payload bytes, the
/// raw egress selection (an interface index, `0` for none, and a local
/// source-address hint, `0.0.0.0` for none), and the destination address.
pub struct SendRecord {
    pub payload: Seq<u8>,
    pub if_index: u32,
    pub source_hint: Ipv4Address,
    pub target: SocketAddressV4,
}

/// The library's model of one OS datagram socket: which options were
/// applied, the multicast memberships it holds (one entry per join, in
/// join order, holding the interface address joined on), the address it
/// is bound to, and the datagrams handed to the OS so far, oldest first.
pub struct SocketState {
    pub joined: Seq<Ipv4Address>,
    pub bound: Option<SocketAddressV4>,
    pub read_timeout_millis: Option<u64>,
    pub loopback: bool,
    pub reuse_addr: bool,
    pub reuse_port: bool,
    pub pktinfo: bool,
    pub sent: Seq<SendRecord>,
}

/// An owned OS datagram socket handle. Dropping it closes the handle.
pub struct SysSocket {
    fd: i32,
    state: Ghost<SocketState>,
}

impl View for SysSocket {
    type V = SocketState;

    closed spec fn view(&self) -> SocketState {
        self.state@
    }
}

/// The model of a socket `open_udp_fd` just created: no membership, no
/// binding, nothing sent, and the OS defaults for a fresh socket — no
/// receive timeout, multicast loopback on, address/port reuse off and
/// per-packet interface metadata off.
pub open spec fn fresh_socket_state() -> SocketState {
    SocketState {
        joined: Seq::empty(),
        bound: None,
        read_timeout_millis: None,
        loopback: true,
        reuse_addr: false,
        reuse_port: false,
        pktinfo: false,
        sent: Seq::empty(),
    }
}

/// Opens a fresh IPv4 UDP socket and returns its descriptor. Relies on
/// nix::sys::socket::socket with `AF_INET`/`SOCK_DGRAM`/`IPPROTO_UDP`.
/// Nothing is promised of the descriptor's value; what the fresh socket
/// is like is written down in `fresh_socket_state`.
#[verifier::external_body]
fn open_udp_fd() -> (r: Result<i32, MulticastError>) {
    nix::sys::socket::socket(
        AddressFamily::Inet,
        SockType::Datagram,
        SockFlag::empty(),
        SockProtocol::Udp,
    ).map_err(|e| MulticastError::Os(e as i32))
}

impl SysSocket {
    /// Creates a fresh IPv4 UDP socket, modelled by `fresh_socket_state`.
    pub(crate) fn create() -> (r: Result<SysSocket, MulticastError>)
        ensures
            r matches Ok(s) ==> s@ == fresh_socket_state(),
    {
        let fd = open_udp_fd()?;
        Ok(SysSocket { fd, state: Ghost(fresh_socket_state()) })
    }

    /// Sets how long a receive may block, in milliseconds. Relies on
    /// nix::sys::socket::setsockopt with `SO_RCVTIMEO`; the count is
    /// turned into an OS time value by nix's `TimeVal::milliseconds`,
    /// which takes only counts up to `MAX_READ_TIMEOUT_MILLIS` — the
    /// `requires` leaves larger ones out.
    #[verifier::external_body]
    pub(crate) fn set_read_timeout_millis(&mut self, ms: u64) -> (r: Result<(), MulticastError>)
        requires
            ms <= crate::options::MAX_READ_TIMEOUT_MILLIS,
        ensures
            r is Ok ==> final(self)@ == (SocketState { read_timeout_millis: Some(ms), ..old(self)@ }),
            r is Err ==> final(self)@ == old(self)@,
    {
        let tv = TimeVal::milliseconds(ms as i64);
        setsockopt(self.fd, sockopt::ReceiveTimeout, &tv)
            .map_err(|e| MulticastError::Os(e as i32))
    }

    /// Switches delivery of self-sent multicast back to this host. Relies
    /// on nix::sys::socket::setsockopt with `IP_MULTICAST_LOOP`.
    #[verifier::external_body]
    pub(crate) fn set_loopback(&mut self, on: bool) -> (r: Result<(), MulticastError>)
        ensures
            r is Ok ==> final(self)@ == (SocketState { loopback: on, ..old(self)@ }),
            r is Err ==> final(self)@ == old(self)@,
    {
        setsockopt(self.fd, sockopt::IpMulticastLoop, &on)
            .map_err(|e| MulticastError::Os(e as i32))
    }

    /// Allows other sockets to bind the same address. Relies on
    /// nix::sys::socket::setsockopt with `SO_REUSEADDR`.
    #[verifier::external_body]
    pub(crate) fn set_reuse_address(&mut self, on: bool) -> (r: Result<(), MulticastError>)
        ensures
            r is Ok ==> final(self)@ == (SocketState { reuse_addr: on, ..old(self)@ }),
            r is Err ==> final(self)@ == old(self)@,
    {
        setsockopt(self.fd, sockopt::ReuseAddr, &on)
            .map_err(|e| MulticastError::Os(e as i32))
    }

    /// Allows other sockets to bind the same port. Relies on
    /// nix::sys::socket::setsockopt with `SO_REUSEPORT`.
    #[verifier::external_body]
    pub(crate) fn set_reuse_port(&mut self, on: bool) -> (r: Result<(), MulticastError>)
        ensures
            r is Ok ==> final(self)@ == (SocketState { reuse_port: on, ..old(self)@ }),
            r is Err ==> final(self)@ == old(self)@,
    {
        setsockopt(self.fd, sockopt::ReusePort, &on)
            .map_err(|e| MulticastError::Os(e as i32))
    }

    /// Asks the OS to deliver, with each datagram, the index of the
    /// interface it arrived on. Relies on nix::sys::socket::setsockopt
    /// with `IP_PKTINFO`.
    #[verifier::external_body]
    pub(crate) fn set_packet_info(&mut self, on: bool) -> (r: Result<(), MulticastError>)
        ensures
            r is Ok ==> final(self)@ == (SocketState { pktinfo: on, ..old(self)@ }),
            r is Err ==> final(self)@ == old(self)@,
    {
        setsockopt(self.fd, sockopt::Ipv4PacketInfo, &on)
            .map_err(|e| MulticastError::Os(e as i32))
    }

    /// Joins the multicast group `group` on the local interface with
    /// address `interface`. Relies on nix::sys::socket::setsockopt with
    /// `IP_ADD_MEMBERSHIP`; on failure the membership is not added.
    #[verifier::external_body]
    pub(crate) fn join_multicast(&mut self, group: Ipv4Address, interface: Ipv4Address) -> (r:
        Result<(), MulticastError>)
        ensures
            r is Ok ==> final(self)@ == (SocketState {
                joined: old(self)@.joined.push(interface),
                ..old(self)@
            }),
            r is Err ==> final(self)@ == old(self)@,
    {
        let group_addr = core::net::Ipv4Addr::from(group.octets);
        let iface_addr = core::net::Ipv4Addr::from(interface.octets);
        let req = IpMembershipRequest::new(group_addr, Some(iface_addr));
        setsockopt(self.fd, sockopt::IpAddMembership, &req)
            .map_err(|e| MulticastError::Os(e as i32))
    }

    /// Binds the socket to `addr`. Relies on nix::sys::socket::bind; on
    /// failure the socket stays unbound.
    #[verifier::external_body]
    pub(crate) fn bind(&mut self, addr: SocketAddressV4) -> (r: Result<(), MulticastError>)
        ensures
            r is Ok ==> final(self)@ == (SocketState { bound: Some(addr), ..old(self)@ }),
            r is Err ==> final(self)@ == old(self)@,
    {
        let o = addr.addr.octets;
        let sa = SockaddrIn::new(o[0], o[1], o[2], o[3], addr.port);
        nix::sys::socket::bind(self.fd, &sa).map_err(|e| MulticastError::Os(e as i32))
    }

    /// Hands one datagram to the OS, letting it choose the egress
    /// interface. Relies on nix::sys::socket::sendto: a datagram socket
    /// sends the payload whole or not at all, so on success the OS took
    /// the whole payload and reports its length.
    #[verifier::external_body]
    pub(crate) fn send_to(&mut self, buf: &[u8], target: SocketAddressV4) -> (r: Result<
        usize,
        MulticastError,
    >)
        ensures
            r matches Ok(n) ==> final(self)@ == (SocketState {
                sent: old(self)@.sent.push(SendRecord {
                    payload: buf@,
                    if_index: 0,
                    source_hint: Ipv4Address { octets: [0u8, 0u8, 0u8, 0u8] },
                    target,
                }),
                ..old(self)@
            }) && n == buf@.len(),
            r is Err ==> final(self)@ == old(self)@,
    {
        let o = target.addr.octets;
        let sa = SockaddrIn::new(o[0], o[1], o[2], o[3], target.port);
        sendto(self.fd, buf, &sa, MsgFlags::empty())
            .map_err(|e| MulticastError::Os(e as i32))
    }

    /// Hands one datagram to the OS together with an `in_pktinfo` control
    /// record that selects its egress: a non-zero `if_index` names the
    /// interface by index, and `source_hint` (when not `0.0.0.0`) names
    /// the local source address the route is chosen by. Relies on
    /// nix::sys::socket::sendmsg with `ControlMessage::Ipv4PacketInfo`;
    /// the success result is as for `send_to`. The record's index field
    /// is a C `int`, so an `if_index` above `i32::MAX` reaches the OS
    /// wrapped and is refused by it — no such interface index exists.
    #[verifier::external_body]
    pub(crate) fn send_to_on(
        &mut self,
        buf: &[u8],
        target: SocketAddressV4,
        if_index: u32,
        source_hint: Ipv4Address,
    ) -> (r: Result<usize, MulticastError>)
        ensures
            r matches Ok(n) ==> final(self)@ == (SocketState {
                sent: old(self)@.sent.push(SendRecord {
                    payload: buf@,
                    if_index,
                    source_hint,
                    target,
                }),
                ..old(self)@
            }) && n == buf@.len(),
            r is Err ==> final(self)@ == old(self)@,
    {
        let info = libc::in_pktinfo {
            ipi_ifindex: if_index as i32,
            ipi_spec_dst: libc::in_addr { s_addr: u32::from_ne_bytes(source_hint.octets) },
            ipi_addr: libc::in_addr { s_addr: 0 },
        };
        let o = target.addr.octets;
        let sa = SockaddrIn::new(o[0], o[1], o[2], o[3], target.port);
        let iov = [IoSlice::new(buf)];
        let cmsgs = [ControlMessage::Ipv4PacketInfo(&info)];
        sendmsg(self.fd, &iov, &cmsgs, MsgFlags::empty(), Some(&sa))
            .map_err(|e| MulticastError::Os(e as i32))
    }

    /// Blocks until one datagram arrives or the read timeout elapses, and
    /// stores its payload at the front of `buf`, truncated to `buf`'s
    /// length. Relies on nix::sys::socket::recvmsg: the reported byte
    /// count never exceeds the buffer's length, the buffer's length does
    /// not change, the sender address is reported when the OS names an
    /// IPv4 one, and the arrival interface index is taken from the last
    /// `IP_PKTINFO` control record, if any was delivered. A timed-out
    /// wait (`EAGAIN`) is reported as `Timeout`.
    #[verifier::external_body]
    pub(crate) fn recv(&self, buf: &mut Vec<u8>) -> (r: Result<RecvMeta, MulticastError>)
        ensures
            final(buf)@.len() == old(buf)@.len(),
            r matches Ok(m) ==> m.bytes_received <= final(buf)@.len(),
    {
        let mut iov = [IoSliceMut::new(buf.as_mut_slice())];
        let mut control: Vec<u8> = Vec::with_capacity(64);
        let msg = recvmsg::<SockaddrIn>(self.fd, &mut iov, Some(&mut control), MsgFlags::empty())
            .map_err(|e| if e == nix::errno::Errno::EAGAIN { MulticastError::Timeout } else { MulticastError::Os(e as i32) })?;
        let if_index = msg.cmsgs()
            .filter_map(|c| match c {
                ControlMessageOwned::Ipv4PacketInfo(p) => Some(p.ipi_ifindex as u32),
                _ => None,
            })
            .last();
        let origin = msg.address
            .map(|a| SocketAddressV4 { addr: Ipv4Address { octets: a.ip().to_be_bytes() }, port: a.port() });
        Ok(RecvMeta { bytes_received: msg.bytes, origin, if_index })
    }
}

impl Drop for SysSocket {
    /// Releases the OS handle. Relies on nix::unistd::close.
    #[verifier::external_body]
    fn drop(&mut self)
        opens_invariants none
        no_unwind
    {
        let _ = nix::unistd::close(self.fd);
    }
}

/// The local machine's IPv4 interface addresses, as the OS enumerates
/// them. Relies on get_if_addrs::get_if_addrs, keeping each interface's
/// IPv4 address and dropping the rest; what it returns depends on the
/// machine, so nothing is promised of the list.
#[verifier::external_body]
pub fn all_ipv4_interfaces() -> (r: Result<Vec<Ipv4Address>, MulticastError>) {
    let all = get_if_addrs::get_if_addrs()
        .map_err(|e| MulticastError::Os(e.raw_os_error().unwrap_or(0)))?;
    Ok(all.into_iter().filter_map(|i| match i.ip() {
        core::net::IpAddr::V4(v4) => Some(Ipv4Address { octets: v4.octets() }),
        core::net::IpAddr::V6(_) => None,
    }).collect())
}

} // verus!
