use multicast_socket::{
    assemble_message, Interface, Ipv4Address, MulticastOptions, RecvMeta, SocketAddressV4,
};

#[test]
fn default_options_match_documented_values() {
    let options = MulticastOptions::default();
    assert_eq!(options.read_timeout_millis, 100);
    assert!(!options.loopback);
    assert_eq!(options.buffer_size, 512);
}

#[test]
fn ipv4_address_new_orders_octets() {
    let a = Ipv4Address::new(10, 1, 2, 3);
    assert_eq!(a.octets, [10, 1, 2, 3]);
    assert_eq!(Ipv4Address::unspecified().octets, [0, 0, 0, 0]);
}

#[test]
fn socket_address_carries_addr_and_port() {
    let sa = SocketAddressV4::new(Ipv4Address::new(239, 255, 1, 2), 7701);
    assert_eq!(sa.addr.octets, [239, 255, 1, 2]);
    assert_eq!(sa.port, 7701);
}

#[test]
fn assemble_message_keeps_received_bytes_exactly() {
    let buffer = vec![9u8, 8, 7, 6, 5, 4, 3, 2];
    let meta = RecvMeta {
        bytes_received: 8,
        origin: Some(SocketAddressV4::new(Ipv4Address::new(10, 0, 0, 1), 40000)),
        if_index: None,
    };
    let m = assemble_message(buffer, meta);
    assert_eq!(m.data, vec![9u8, 8, 7, 6, 5, 4, 3, 2]);
    assert_eq!(m.origin_address.addr.octets, [10, 0, 0, 1]);
    assert_eq!(m.origin_address.port, 40000);
}

#[test]
fn assemble_message_discards_the_unused_tail() {
    let buffer = vec![1u8, 2, 3, 4, 5, 6, 7, 8];
    let meta = RecvMeta { bytes_received: 5, origin: None, if_index: None };
    let m = assemble_message(buffer, meta);
    assert_eq!(m.data, vec![1u8, 2, 3, 4, 5]);
}

#[test]
fn assemble_message_accepts_an_empty_datagram() {
    let buffer = vec![1u8, 2, 3, 4];
    let meta = RecvMeta { bytes_received: 0, origin: None, if_index: None };
    let m = assemble_message(buffer, meta);
    assert_eq!(m.data, Vec::<u8>::new());
}

#[test]
fn assemble_message_resolves_reported_interface_index() {
    let meta = RecvMeta { bytes_received: 0, origin: None, if_index: Some(7) };
    let m = assemble_message(vec![0u8; 4], meta);
    assert_eq!(m.interface, Interface::Index(7));
}

#[test]
fn assemble_message_reports_default_interface_without_metadata() {
    let meta = RecvMeta { bytes_received: 1, origin: None, if_index: None };
    let m = assemble_message(vec![0u8; 4], meta);
    assert_eq!(m.interface, Interface::Default);
}

#[test]
fn assemble_message_defaults_a_missing_origin() {
    let meta = RecvMeta { bytes_received: 2, origin: None, if_index: Some(1) };
    let m = assemble_message(vec![5u8, 6, 7], meta);
    assert_eq!(m.origin_address.addr.octets, [0, 0, 0, 0]);
    assert_eq!(m.origin_address.port, 0);
}
