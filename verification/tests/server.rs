use std::io::{Error, ErrorKind};
use std::sync::Arc;

use globed_relay::address::{is_listed, SocketAddress};
use globed_relay::address_table::AddressTable;
use globed_relay::relay_client::{RelayClient, Stage, UpstreamEvent};
use globed_relay::relay_error::RelayError;
use globed_relay::relay_server::{
    RelayServer, ServerAction, ServerEvent, UdpAction, UdpEvent,
};

type Server = RelayServer<u8, u8, u8>;
type Client = RelayClient<u8, u8>;

const TARGET: SocketAddress = SocketAddress::V4 { octets: 0x0a00_0001, port: 4200 };
const PEER: SocketAddress = SocketAddress::V4 { octets: 0x0808_0808, port: 999 };
const OTHER: SocketAddress = SocketAddress::V4 { octets: 0x0808_0808, port: 1000 };

fn server() -> Server {
    RelayServer::new(vec![TARGET])
}

fn linked(sockets: u8, udp_peer: SocketAddress) -> Arc<Client> {
    let mut client: Client = RelayClient::new(sockets, PEER);
    client.set_relay_target(Some(TARGET));
    client.set_udp_peer(Some(udp_peer));
    client.establish_upstream_connection(UpstreamEvent::Greeted(sockets));
    Arc::new(client)
}

#[test]
fn accepted_connection_sets_up_its_relay() {
    let mut s = server();
    match s.run(ServerEvent::Accepted(3, OTHER)) {
        ServerAction::SetUp(client, limit) => {
            assert_eq!(limit, 45);
            assert_eq!(client.get_peer_addr(), OTHER);
            assert_eq!(client.get_stage(), Stage::Login);
            assert_eq!(*client.downstream(), 3);
        }
        _ => panic!("the relay should be set up"),
    }
    assert!(matches!(s.run(ServerEvent::AcceptFailed), ServerAction::Close));
}

#[test]
fn refused_client_is_told_why() {
    let mut s = server();
    match s.run(ServerEvent::LoginRefused(RelayError::DisallowedHost)) {
        ServerAction::Refuse(message, limit) => {
            assert_eq!(message, "Disallowed host");
            assert_eq!(limit, 10);
            let client: Client = RelayClient::new(0, PEER);
            let frame = client.send_relay_error(&message);
            assert_eq!(&frame[..9], &[0, 0, 0, 20, 0, 0, 0, 0, 15]);
            assert_eq!(&frame[9..], b"Disallowed host");
        }
        _ => panic!("the client should be told"),
    }
    let error = RelayError::Socket(Error::new(ErrorKind::Other, "it broke"));
    match s.run(ServerEvent::LoginRefused(error)) {
        ServerAction::Refuse(message, _) => assert_eq!(message, "Socket error: it broke"),
        _ => panic!("the client should be told"),
    }
}

#[test]
fn late_client_is_told_nothing() {
    let mut s = server();
    assert!(matches!(s.run(ServerEvent::LoginTimedOut), ServerAction::Close));
}

#[test]
fn datagrams_follow_the_clients() {
    let mut s = server();
    assert!(matches!(
        s.run_udp_loop(UdpEvent::Received(b"data", PEER)),
        UdpAction::Receive
    ));
    let client = linked(1, PEER);
    assert!(matches!(s.run(ServerEvent::LoggedIn(client.clone())), ServerAction::Relay));
    assert!(matches!(
        s.run_udp_loop(UdpEvent::Received(b"data", PEER)),
        UdpAction::Relay(PEER)
    ));
    assert_eq!(s.client(&PEER).map(|c| *c.downstream()), Some(1));
    assert!(matches!(
        s.run_udp_loop(UdpEvent::Received(b"data", OTHER)),
        UdpAction::Receive
    ));
    assert!(matches!(s.run(ServerEvent::ClientEnded(client)), ServerAction::Close));
    assert!(matches!(
        s.run_udp_loop(UdpEvent::Received(b"data", PEER)),
        UdpAction::Receive
    ));
    assert!(s.client(&PEER).is_none());
}

#[test]
fn later_client_takes_the_address() {
    let mut s = server();
    let first = linked(1, PEER);
    let second = linked(2, PEER);
    let elsewhere = linked(3, OTHER);
    s.run(ServerEvent::LoggedIn(first.clone()));
    s.run(ServerEvent::LoggedIn(elsewhere));
    s.run(ServerEvent::LoggedIn(second));
    assert_eq!(s.client(&PEER).map(|c| *c.downstream()), Some(2));
    // the address is given up when any client that had it ends
    s.run(ServerEvent::ClientEnded(first));
    assert!(s.client(&PEER).is_none());
    assert_eq!(s.client(&OTHER).map(|c| *c.downstream()), Some(3));
}

#[test]
fn claim_of_a_number_nobody_was_asked_is_an_ordinary_datagram() {
    let mut s = server();
    let claim = [0x7f, 0x8a, 0x9b, 0x0c, 0, 0, 0, 5];
    assert!(matches!(
        s.run_udp_loop(UdpEvent::Received(&claim, PEER)),
        UdpAction::Receive
    ));
    s.run(ServerEvent::LoggedIn(linked(1, PEER)));
    assert!(matches!(
        s.run_udp_loop(UdpEvent::Received(&claim, PEER)),
        UdpAction::Relay(PEER)
    ));
    assert!(s.awaiter(5).is_none());
}

#[test]
fn only_a_failed_receive_stops_the_datagrams() {
    let mut s = server();
    assert!(matches!(
        s.run_udp_loop(UdpEvent::Relayed(Err(RelayError::Closed))),
        UdpAction::Receive
    ));
    assert!(matches!(s.run_udp_loop(UdpEvent::Relayed(Ok(()))), UdpAction::Receive));
    match s.run_udp_loop(UdpEvent::Failed(Error::new(ErrorKind::Other, "gone"))) {
        UdpAction::Stop(error) => assert_eq!(error.to_string(), "gone"),
        _ => panic!("it should stop"),
    }
}

#[test]
fn listed_addresses() {
    let list = vec![TARGET, PEER];
    assert!(is_listed(&list, &PEER));
    assert!(is_listed(&list, &TARGET));
    assert!(!is_listed(&list, &OTHER));
    assert!(!is_listed(&vec![], &PEER));
}

#[test]
fn table_keeps_one_value_for_each_address() {
    let mut table: AddressTable<u8> = AddressTable::new();
    assert_eq!(table.get(&PEER), None);
    table.insert(PEER, 1);
    table.insert(OTHER, 2);
    table.insert(PEER, 3);
    assert_eq!(table.get(&PEER), Some(&3));
    assert_eq!(table.get(&OTHER), Some(&2));
    table.remove(&PEER);
    assert_eq!(table.get(&PEER), None);
    assert_eq!(table.get(&OTHER), Some(&2));
    table.remove(&PEER);
    assert_eq!(table.get(&OTHER), Some(&2));
}
