//! Tests against real OS sockets. The suite assumes no configured
//! network interface, so it holds on any host: whatever needs an
//! interface — joining, transmitting, a delivered datagram — is
//! exercised through its error path, and the datagram-handling logic
//! itself is covered by the tests on `assemble_message`.

use multicast_socket::{
    Interface, Ipv4Address, MulticastError, MulticastOptions, MulticastSocket, SocketAddressV4,
};

fn options(read_timeout_millis: u64, buffer_size: usize) -> MulticastOptions {
    MulticastOptions { read_timeout_millis, loopback: true, buffer_size }
}

#[test]
fn construction_without_interfaces_succeeds() {
    let group = SocketAddressV4::new(Ipv4Address::new(239, 255, 70, 1), 7801);
    let socket = MulticastSocket::with_options(group, vec![], options(50, 64));
    assert!(socket.is_ok());
}

#[test]
fn receive_with_no_traffic_times_out_within_a_bounded_margin() {
    let group = SocketAddressV4::new(Ipv4Address::new(239, 255, 70, 2), 7802);
    let socket = MulticastSocket::with_options(group, vec![], options(50, 64))
        .expect("constructing an interface-less multicast socket");
    let started = std::time::Instant::now();
    let outcome = socket.receive();
    let elapsed = started.elapsed();
    assert_eq!(outcome.unwrap_err(), MulticastError::Timeout);
    assert!(elapsed >= std::time::Duration::from_millis(30), "returned too early: {elapsed:?}");
    assert!(elapsed < std::time::Duration::from_secs(5), "took far too long: {elapsed:?}");
}

#[test]
fn every_receive_retry_times_out_again() {
    let group = SocketAddressV4::new(Ipv4Address::new(239, 255, 70, 3), 7803);
    let socket = MulticastSocket::with_options(group, vec![], options(50, 64))
        .expect("constructing an interface-less multicast socket");
    assert_eq!(socket.receive().unwrap_err(), MulticastError::Timeout);
    assert_eq!(socket.receive().unwrap_err(), MulticastError::Timeout);
}

#[test]
fn join_on_an_absent_interface_reports_the_os_error() {
    let group = SocketAddressV4::new(Ipv4Address::new(239, 255, 70, 4), 7804);
    let outcome =
        MulticastSocket::with_options(group, vec![Ipv4Address::new(192, 0, 2, 1)], options(50, 64));
    match outcome {
        Err(MulticastError::Os(errno)) => assert!(errno > 0, "an OS errno is preserved"),
        Err(MulticastError::Timeout) => panic!("a join failure is not a timeout"),
        Ok(_) => panic!("joining on an absent interface must fail"),
    }
}

#[test]
fn broadcast_to_no_interfaces_makes_no_send_and_succeeds() {
    let group = SocketAddressV4::new(Ipv4Address::new(239, 255, 70, 5), 7805);
    let mut socket = MulticastSocket::with_options(group, vec![], options(50, 64))
        .expect("constructing an interface-less multicast socket");
    assert_eq!(socket.broadcast(b"nobody joined"), Ok(()));
    assert_eq!(socket.receive().unwrap_err(), MulticastError::Timeout, "nothing was sent");
}

#[test]
fn constructing_and_dropping_does_not_leak_the_handle() {
    // A leaked descriptor per round would exhaust the usual descriptor
    // limit well within these rounds and make a later construction fail.
    let group = SocketAddressV4::new(Ipv4Address::new(239, 255, 70, 6), 7806);
    for _ in 0..2048 {
        let socket = MulticastSocket::with_options(group, vec![], options(50, 64))
            .expect("every construction finds a free descriptor");
        drop(socket);
    }
}

#[test]
fn failed_construction_does_not_leak_the_handle_either() {
    let group = SocketAddressV4::new(Ipv4Address::new(239, 255, 70, 7), 7807);
    for _ in 0..2048 {
        let outcome = MulticastSocket::with_options(
            group,
            vec![Ipv4Address::new(192, 0, 2, 1)],
            options(50, 64),
        );
        assert!(outcome.is_err(), "joining on an absent interface must fail");
    }
    let socket = MulticastSocket::with_options(group, vec![], options(50, 64));
    assert!(socket.is_ok(), "descriptors were all released");
}

#[test]
fn largest_read_timeout_still_constructs() {
    let group = SocketAddressV4::new(Ipv4Address::new(239, 255, 70, 8), 7808);
    let socket = MulticastSocket::with_options(
        group,
        vec![],
        options(multicast_socket::MAX_READ_TIMEOUT_MILLIS, 16),
    );
    assert!(socket.is_ok());
}

#[test]
fn interface_enumeration_reports_a_list() {
    let interfaces = multicast_socket::all_ipv4_interfaces();
    assert!(interfaces.is_ok());
}
