//! A multicast UDP transport: one socket joined to one multicast group
//! across a chosen set of local IPv4 interfaces, with interface-aware
//! send and receive. `receive` reports which interface a datagram
//! arrived on; `send` chooses which interface to transmit from; and
//! `broadcast` sends once per joined interface. The OS calls sit behind
//! the trusted boundary in [`sys`]; everything above it is verified
//! against that boundary's contracts.

pub mod addr;
pub mod errors;
pub mod message;
pub mod options;
pub mod socket;
pub mod sys;

pub use addr::Ipv4Address;
pub use socket::broadcast_records;
pub use socket::lemma_broadcast_records_shape;
pub use socket::lemma_same_config_preserves_wf;
pub use socket::same_config;
pub use socket::send_record;
pub use socket::MulticastSocket;
pub use socket::MulticastSocketView;
pub use sys::all_ipv4_interfaces;
pub use sys::SendRecord;
pub use sys::SocketState;
pub use message::assemble_message;
pub use message::Interface;
pub use message::Message;
pub use message::RecvMeta;
pub use addr::SocketAddressV4;
pub use errors::MulticastError;
pub use options::MulticastOptions;
pub use options::MAX_READ_TIMEOUT_MILLIS;
