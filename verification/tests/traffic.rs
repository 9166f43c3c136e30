use std::io::{Error, ErrorKind};
use std::sync::Arc;

use globed_relay::address::SocketAddress;
use globed_relay::relay_client::{RelayClient, UpstreamEvent};
use globed_relay::relay_error::RelayError;
use globed_relay::relay_traffic::{
    ClientAction, ClientEvent, TcpAction, TcpEvent, UdpRecvAction, UdpRecvEvent,
};

type Client = RelayClient<(), &'static str>;

const TARGET: SocketAddress = SocketAddress::V4 { octets: 0x0a00_0001, port: 4200 };
const PEER: SocketAddress = SocketAddress::V4 { octets: 0x0808_0808, port: 999 };
const STRANGER: SocketAddress = SocketAddress::V4 { octets: 0x0a00_0001, port: 4201 };

fn linked() -> Client {
    let mut client: Client = RelayClient::new((), PEER);
    client.set_relay_target(Some(TARGET));
    client.set_udp_peer(Some(PEER));
    client.establish_upstream_connection(UpstreamEvent::Greeted("up"));
    assert!(client.is_linked());
    client
}

fn broken() -> Error {
    Error::new(ErrorKind::Other, "it broke")
}

#[test]
fn tcp_bytes_pass_unchanged() {
    let client = linked();
    let chunks: [&[u8]; 3] = [b"one", b"\x00\xff", b"three"];
    let mut up = Vec::new();
    let mut down = Vec::new();
    for chunk in chunks {
        match client.run_tcp_send_loop(TcpEvent::Read(chunk.to_vec())) {
            TcpAction::Write(bytes) => up.extend(bytes),
            _ => panic!("nothing was passed on"),
        }
        match client.run_tcp_recv_loop(TcpEvent::Read(chunk.to_vec())) {
            TcpAction::Write(bytes) => down.extend(bytes),
            _ => panic!("nothing was passed on"),
        }
    }
    assert_eq!(up, b"one\x00\xffthree");
    assert_eq!(down, b"one\x00\xffthree");
}

#[test]
fn tcp_reads_at_the_start_and_after_each_write() {
    let client = linked();
    for event in [TcpEvent::Started, TcpEvent::Written] {
        assert!(matches!(client.run_tcp_send_loop(event), TcpAction::Read(8192)));
    }
    for event in [TcpEvent::Started, TcpEvent::Written] {
        assert!(matches!(client.run_tcp_recv_loop(event), TcpAction::Read(8192)));
    }
}

#[test]
fn closed_end_stops_tcp() {
    let client = linked();
    assert!(matches!(
        client.run_tcp_send_loop(TcpEvent::Read(vec![])),
        TcpAction::Stop(RelayError::Closed)
    ));
    assert!(matches!(
        client.run_tcp_recv_loop(TcpEvent::Read(vec![])),
        TcpAction::Stop(RelayError::Closed)
    ));
}

#[test]
fn failures_are_put_down_to_their_end() {
    let client = linked();
    assert!(matches!(
        client.run_tcp_send_loop(TcpEvent::ReadFailed(broken())),
        TcpAction::Stop(RelayError::DownstreamSocketFail(_))
    ));
    assert!(matches!(
        client.run_tcp_send_loop(TcpEvent::WriteFailed(broken())),
        TcpAction::Stop(RelayError::UpstreamSocketFail(_))
    ));
    assert!(matches!(
        client.run_tcp_recv_loop(TcpEvent::ReadFailed(broken())),
        TcpAction::Stop(RelayError::UpstreamSocketFail(_))
    ));
    assert!(matches!(
        client.run_tcp_recv_loop(TcpEvent::WriteFailed(broken())),
        TcpAction::Stop(RelayError::DownstreamSocketFail(_))
    ));
}

#[test]
fn datagrams_of_the_server_go_to_the_client() {
    let client = linked();
    match client.run_udp_recv_loop(UdpRecvEvent::Received(vec![1, 2, 3], TARGET)) {
        UdpRecvAction::Send(bytes, to) => {
            assert_eq!(bytes, vec![1, 2, 3]);
            assert_eq!(to, PEER);
        }
        _ => panic!("nothing was passed on"),
    }
    // an empty datagram is passed on too
    match client.run_udp_recv_loop(UdpRecvEvent::Received(vec![], TARGET)) {
        UdpRecvAction::Send(bytes, to) => {
            assert!(bytes.is_empty());
            assert_eq!(to, PEER);
        }
        _ => panic!("nothing was passed on"),
    }
}

#[test]
fn datagrams_of_strangers_are_dropped() {
    let client = linked();
    assert!(matches!(
        client.run_udp_recv_loop(UdpRecvEvent::Received(vec![1], STRANGER)),
        UdpRecvAction::Receive(65536)
    ));
    assert!(matches!(
        client.run_udp_recv_loop(UdpRecvEvent::Started),
        UdpRecvAction::Receive(65536)
    ));
    assert!(matches!(
        client.run_udp_recv_loop(UdpRecvEvent::Sent),
        UdpRecvAction::Receive(65536)
    ));
    assert!(matches!(
        client.run_udp_recv_loop(UdpRecvEvent::Failed(broken())),
        UdpRecvAction::Stop(RelayError::Socket(_))
    ));
}

#[test]
fn addresses_differ_in_every_part() {
    let a = SocketAddress::V6 { segments: 1, port: 2, flowinfo: 3, scope_id: 4 };
    assert_eq!(a, a);
    assert_ne!(a, SocketAddress::V6 { segments: 2, port: 2, flowinfo: 3, scope_id: 4 });
    assert_ne!(a, SocketAddress::V6 { segments: 1, port: 3, flowinfo: 3, scope_id: 4 });
    assert_ne!(a, SocketAddress::V6 { segments: 1, port: 2, flowinfo: 4, scope_id: 4 });
    assert_ne!(a, SocketAddress::V6 { segments: 1, port: 2, flowinfo: 3, scope_id: 5 });
    assert_ne!(a, SocketAddress::V4 { octets: 1, port: 2 });
}

#[test]
fn first_part_that_stops_ends_the_client() {
    let client = Arc::new(linked());
    assert!(matches!(
        RelayClient::run_client(&client, ClientEvent::TcpSend(TcpEvent::Started)),
        ClientAction::TcpSend(TcpAction::Read(8192))
    ));
    assert!(matches!(
        RelayClient::run_client(&client, ClientEvent::TcpRecv(TcpEvent::Read(vec![7]))),
        ClientAction::TcpRecv(TcpAction::Write(_))
    ));
    assert!(matches!(
        RelayClient::run_client(
            &client,
            ClientEvent::UdpRecv(UdpRecvEvent::Received(vec![7], TARGET))
        ),
        ClientAction::UdpRecv(UdpRecvAction::Send(_, PEER))
    ));
    assert!(matches!(
        RelayClient::run_client(&client, ClientEvent::TcpSend(TcpEvent::Read(vec![]))),
        ClientAction::Finish(Err(RelayError::Closed))
    ));
    assert!(matches!(
        RelayClient::run_client(&client, ClientEvent::TcpRecv(TcpEvent::ReadFailed(broken()))),
        ClientAction::Finish(Err(RelayError::UpstreamSocketFail(_)))
    ));
    assert!(matches!(
        RelayClient::run_client(&client, ClientEvent::UdpRecv(UdpRecvEvent::Failed(broken()))),
        ClientAction::Finish(Err(RelayError::Socket(_)))
    ));
}

#[test]
fn datagrams_of_the_client_go_to_its_server() {
    let client = linked();
    let send = client.push_new_udp_message(b"hello");
    assert_eq!(send.to, TARGET);
    assert_eq!(send.message, b"hello");
    assert_eq!(client.upstream(), Some(&"up"));
}

#[test]
fn datagrams_of_the_server_arrive_in_order() {
    let client = linked();
    let mut sent = Vec::new();
    for (datagram, from) in [(1u8, TARGET), (2, STRANGER), (3, TARGET), (3, TARGET), (4, PEER)] {
        let event = UdpRecvEvent::Received(vec![datagram], from);
        if let UdpRecvAction::Send(bytes, to) = client.run_udp_recv_loop(event) {
            sent.push((bytes, to));
        }
    }
    assert_eq!(
        sent,
        vec![(vec![1], PEER), (vec![3], PEER), (vec![3], PEER)]
    );
}
