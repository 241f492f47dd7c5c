use vstd::prelude::*;

use crate::addr::{Ipv4Address, SocketAddressV4};
use crate::errors::MulticastError;
use crate::message::{assemble_message, Interface, Message};
use crate::options::{MulticastOptions, MAX_READ_TIMEOUT_MILLIS};
use crate::sys::{all_ipv4_interfaces, SendRecord, SocketState, SysSocket};

verus! {

/// What a `MulticastSocket` is, mathematically: the interfaces it was
/// asked to join (in join order, duplicates kept), the multicast group
/// address it sends to and receives from, its receive buffer capacity,
/// and the state of the underlying OS socket.
pub struct MulticastSocketView {
    pub interfaces: Seq<Ipv4Address>,
    pub multicast_address: SocketAddressV4,
    pub buffer_size: nat,
    pub sock: SocketState,
}

impl MulticastSocketView {
    /// The configuration invariant every constructed socket has: bound to
    /// its group address, joined exactly to its interface list in order,
    /// per-packet interface metadata on, and a usable buffer capacity.
    pub open spec fn wf(self) -> bool {
        &&& self.sock.bound == Some(self.multicast_address)
        &&& self.sock.joined == self.interfaces
        &&& self.sock.pktinfo
        &&& self.buffer_size >= 1
    }
}

/// Holds of two socket views whose configuration agrees: everything but
/// the trace of sent datagrams. `send` and `broadcast` change only that
/// trace.
pub open spec fn same_config(a: MulticastSocketView, b: MulticastSocketView) -> bool {
    &&& b.interfaces == a.interfaces
    &&& b.multicast_address == a.multicast_address
    &&& b.buffer_size == a.buffer_size
    &&& b.sock.joined == a.sock.joined
    &&& b.sock.bound == a.sock.bound
    &&& b.sock.read_timeout_millis == a.sock.read_timeout_millis
    &&& b.sock.loopback == a.sock.loopback
    &&& b.sock.reuse_addr == a.sock.reuse_addr
    &&& b.sock.reuse_port == a.sock.reuse_port
    &&& b.sock.pktinfo == a.sock.pktinfo
}

/// The datagram record one `send` with the given payload, interface
/// choice and destination hands to the OS. `Default` (and `Ip` of
/// `0.0.0.0`, which the OS reads the same way) leaves both the index and
/// the source hint unset; `Ip` selects egress by local source address;
/// `Index` selects it by interface index.
pub open spec fn send_record(payload: Seq<u8>, interface: Interface, target: SocketAddressV4) -> SendRecord {
    match interface {
        Interface::Default => SendRecord {
            payload,
            if_index: 0,
            source_hint: Ipv4Address { octets: [0u8, 0u8, 0u8, 0u8] },
            target,
        },
        Interface::Ip(a) => SendRecord { payload, if_index: 0, source_hint: a, target },
        Interface::Index(i) => SendRecord {
            payload,
            if_index: i,
            source_hint: Ipv4Address { octets: [0u8, 0u8, 0u8, 0u8] },
            target,
        },
    }
}

/// The datagram records one `broadcast` of `payload` hands to the OS:
/// one per interface of the list, in order, each selected by that
/// interface's address and aimed at `target`.
pub open spec fn broadcast_records(
    payload: Seq<u8>,
    interfaces: Seq<Ipv4Address>,
    target: SocketAddressV4,
) -> Seq<SendRecord> {
    interfaces.map(|k: int, a: Ipv4Address| send_record(payload, Interface::Ip(a), target))
}

/// A socket's configuration is immutable after construction: an
/// operation that leaves the configuration alone — as `send` and
/// `broadcast` promise through `same_config` — keeps the socket
/// well-formed.
pub proof fn lemma_same_config_preserves_wf(a: MulticastSocketView, b: MulticastSocketView)
    requires
        a.wf(),
        same_config(a, b),
    ensures
        b.wf(),
{
}

/// A broadcast hands the OS exactly one datagram per listed interface,
/// in list order, each carrying the whole payload, each aimed at the
/// group address, and each selecting its egress by the interface's
/// address.
pub proof fn lemma_broadcast_records_shape(
    payload: Seq<u8>,
    interfaces: Seq<Ipv4Address>,
    target: SocketAddressV4,
)
    ensures
        broadcast_records(payload, interfaces, target).len() == interfaces.len(),
        forall|k: int| 0 <= k < interfaces.len()
            ==> broadcast_records(payload, interfaces, target)[k]
                == send_record(payload, Interface::Ip(interfaces[k]), target),
{
}

/// One UDP socket joined to one multicast group on a chosen set of local
/// interfaces, with interface-aware send and receive. Its configuration
/// is fixed at construction; dropping it releases the OS handle.
pub struct MulticastSocket {
    socket: SysSocket,
    interfaces: Vec<Ipv4Address>,
    multicast_address: SocketAddressV4,
    buffer_size: usize,
}

impl View for MulticastSocket {
    type V = MulticastSocketView;

    closed spec fn view(&self) -> MulticastSocketView {
        MulticastSocketView {
            interfaces: self.interfaces@,
            multicast_address: self.multicast_address,
            buffer_size: self.buffer_size as nat,
            sock: self.socket@,
        }
    }
}

/// Builds the socket: create, apply options (receive timeout, loopback,
/// address and port reuse), ask for per-packet interface metadata, join
/// the group on each listed interface in order, and bind to the group
/// address. The first failing step aborts construction with its OS
/// error; earlier joins are left in effect and the half-built socket is
/// dropped, which releases the handle.
fn create_on_interfaces(
    options: MulticastOptions,
    interfaces: Vec<Ipv4Address>,
    multicast_address: SocketAddressV4,
) -> (r: Result<MulticastSocket, MulticastError>)
    requires
        options.buffer_size >= 1,
        options.read_timeout_millis <= MAX_READ_TIMEOUT_MILLIS,
    ensures
        r matches Ok(s) ==> {
            &&& s@.wf()
            &&& s@.interfaces == interfaces@
            &&& s@.multicast_address == multicast_address
            &&& s@.buffer_size == options.buffer_size
            &&& s@.sock.sent == Seq::<SendRecord>::empty()
            &&& s@.sock.loopback == options.loopback
            &&& s@.sock.read_timeout_millis == Some(options.read_timeout_millis)
            &&& s@.sock.reuse_addr
            &&& s@.sock.reuse_port
        },
{
    let mut socket = SysSocket::create()?;
    socket.set_read_timeout_millis(options.read_timeout_millis)?;
    socket.set_loopback(options.loopback)?;
    socket.set_reuse_address(true)?;
    socket.set_reuse_port(true)?;
    socket.set_packet_info(true)?;
    let n: usize = interfaces.len();
    let mut i: usize = 0;
    while i < n
        invariant
            i <= n,
            n == interfaces@.len(),
            socket@.joined == interfaces@.take(i as int),
            socket@.bound is None,
            socket@.sent == Seq::<SendRecord>::empty(),
            socket@.read_timeout_millis == Some(options.read_timeout_millis),
            socket@.loopback == options.loopback,
            socket@.reuse_addr,
            socket@.reuse_port,
            socket@.pktinfo,
        decreases n - i,
    {
        socket.join_multicast(multicast_address.addr, interfaces[i])?;
        i = i + 1;
        proof {
            assert(socket@.joined =~= interfaces@.take(i as int));
        }
    }
    proof {
        assert(interfaces@.take(n as int) =~= interfaces@);
    }
    socket.bind(multicast_address)?;
    Ok(MulticastSocket { socket, interfaces, multicast_address, buffer_size: options.buffer_size })
}

impl MulticastSocket {
    /// Joins the group on every local IPv4 interface the OS enumerates,
    /// with the default options.
    pub fn all_interfaces(multicast_address: SocketAddressV4) -> (r: Result<Self, MulticastError>)
        ensures
            r matches Ok(s) ==> {
                &&& s@.wf()
                &&& s@.multicast_address == multicast_address
                &&& s@.buffer_size == 512
                &&& s@.sock.sent == Seq::<SendRecord>::empty()
                &&& !s@.sock.loopback
                &&& s@.sock.read_timeout_millis == Some(100u64)
                &&& s@.sock.reuse_addr
                &&& s@.sock.reuse_port
            },
    {
        let interfaces = all_ipv4_interfaces()?;
        create_on_interfaces(MulticastOptions::default(), interfaces, multicast_address)
    }

    /// Joins the group on exactly the given interfaces, in the given
    /// order, with the given options.
    pub fn with_options(
        multicast_address: SocketAddressV4,
        interfaces: Vec<Ipv4Address>,
        options: MulticastOptions,
    ) -> (r: Result<Self, MulticastError>)
        requires
            options.buffer_size >= 1,
            options.read_timeout_millis <= MAX_READ_TIMEOUT_MILLIS,
        ensures
            r matches Ok(s) ==> {
                &&& s@.wf()
                &&& s@.interfaces == interfaces@
                &&& s@.multicast_address == multicast_address
                &&& s@.buffer_size == options.buffer_size
                &&& s@.sock.sent == Seq::<SendRecord>::empty()
                &&& s@.sock.loopback == options.loopback
                &&& s@.sock.read_timeout_millis == Some(options.read_timeout_millis)
                &&& s@.sock.reuse_addr
                &&& s@.sock.reuse_port
            },
    {
        create_on_interfaces(options, interfaces, multicast_address)
    }

    /// Blocks for one datagram, up to the configured read timeout, and
    /// reports it: the payload exactly as received (truncated to the
    /// buffer capacity), the sender's address (`0.0.0.0:0` when the OS
    /// names none), and the arrival interface — `Index` when the OS
    /// delivered the per-packet metadata, else `Default`, never `Ip`. A
    /// timed-out wait yields `MulticastError::Timeout`; any other OS
    /// failure yields its error.
    pub fn receive(&self) -> (r: Result<Message, MulticastError>)
        ensures
            r matches Ok(m) ==> {
                &&& m.data@.len() <= self@.buffer_size
                &&& !(m.interface is Ip)
            },
    {
        let mut buffer: Vec<u8> = Vec::new();
        let mut k: usize = 0;
        while k < self.buffer_size
            invariant
                k <= self.buffer_size,
                buffer@.len() == k,
            decreases self.buffer_size - k,
        {
            buffer.push(0u8);
            k = k + 1;
        }
        let meta = self.socket.recv(&mut buffer)?;
        let message = assemble_message(buffer, meta);
        Ok(message)
    }

    /// Transmits one datagram carrying the whole of `buf` to the group
    /// address, with egress selected by `interface`, and returns the
    /// number of bytes written — the payload's length, since a datagram
    /// goes whole or not at all. The selection travels with the datagram
    /// as per-packet control data, so it is re-made on every send and no
    /// socket-wide setting is mutated; taking the socket exclusively
    /// matches the one-sender-at-a-time design. The configuration is
    /// untouched; on success exactly one datagram,
    /// `send_record(buf, interface, group)`, was handed to the OS, and
    /// on failure none was.
    pub fn send(&mut self, buf: &[u8], interface: &Interface) -> (r: Result<usize, MulticastError>)
        ensures
            same_config(old(self)@, final(self)@),
            r matches Ok(n) ==> final(self)@.sock.sent == old(self)@.sock.sent.push(
                send_record(buf@, *interface, old(self)@.multicast_address),
            ) && n == buf@.len(),
            r is Err ==> final(self)@.sock.sent == old(self)@.sock.sent,
    {
        match interface {
            Interface::Default => self.socket.send_to(buf, self.multicast_address),
            Interface::Ip(address) => self.socket.send_to_on(
                buf,
                self.multicast_address,
                0,
                *address,
            ),
            Interface::Index(index) => self.socket.send_to_on(
                buf,
                self.multicast_address,
                *index,
                Ipv4Address { octets: [0, 0, 0, 0] },
            ),
        }
    }

    /// Sends `buf` once to the group on every joined interface, in join
    /// order, selecting each send by that interface's address; like
    /// `send`, it takes the socket exclusively for the whole run. The
    /// first failing send aborts the rest and its error is returned; the
    /// sends already made stay made. On success the OS was handed
    /// exactly `broadcast_records(buf, interfaces, group)`, in that
    /// order; on failure, the records of a strict prefix of the
    /// interface list.
    pub fn broadcast(&mut self, buf: &[u8]) -> (r: Result<(), MulticastError>)
        ensures
            same_config(old(self)@, final(self)@),
            r is Ok ==> final(self)@.sock.sent == old(self)@.sock.sent + broadcast_records(
                buf@,
                old(self)@.interfaces,
                old(self)@.multicast_address,
            ),
            r is Err ==> exists|k: int|
                0 <= k < old(self)@.interfaces.len() && final(self)@.sock.sent == old(
                    self,
                )@.sock.sent + broadcast_records(
                    buf@,
                    old(self)@.interfaces.take(k),
                    old(self)@.multicast_address,
                ),
    {
        let ghost orig = self@;
        let n: usize = self.interfaces.len();
        let mut i: usize = 0;
        proof {
            assert(orig.sock.sent + broadcast_records(buf@, orig.interfaces.take(0), orig.multicast_address)
                =~= orig.sock.sent);
        }
        while i < n
            invariant
                orig == old(self)@,
                i <= n,
                n == self@.interfaces.len(),
                same_config(orig, self@),
                self@.sock.sent == orig.sock.sent + broadcast_records(
                    buf@,
                    orig.interfaces.take(i as int),
                    orig.multicast_address,
                ),
            decreases n - i,
        {
            let address = self.interfaces[i];
            match self.send(buf, &Interface::Ip(address)) {
                Ok(_) => {},
                Err(e) => {
                    proof {
                        assert(self@.sock.sent == orig.sock.sent + broadcast_records(
                            buf@,
                            orig.interfaces.take(i as int),
                            orig.multicast_address,
                        ));
                    }
                    return Err(e);
                },
            }
            i = i + 1;
            proof {
                assert(orig.interfaces.take(i as int)
                    =~= orig.interfaces.take(i - 1).push(orig.interfaces[i - 1]));
                assert(self@.sock.sent =~= orig.sock.sent + broadcast_records(
                    buf@,
                    orig.interfaces.take(i as int),
                    orig.multicast_address,
                ));
            }
        }
        proof {
            assert(orig.interfaces.take(n as int) =~= orig.interfaces);
        }
        Ok(())
    }

    /// The socket's configuration invariant; see
    /// `MulticastSocketView::wf`.
    pub open spec fn wf(&self) -> bool {
        self@.wf()
    }
}

} // verus!
