use std::io::{Error, ErrorKind};

use globed_relay::address::SocketAddress;
use globed_relay::relay_client::{
    finish_login, LoginAction, LoginEvent, RelayClient, Stage, UpstreamAction, UpstreamEvent,
};
use globed_relay::relay_error::RelayError;
use globed_relay::relay_server::{
    is_expected, ConnAction, ConnEvent, RelayServer, UdpAction, UdpEvent,
};
use globed_relay::relay_traffic::{TcpAction, TcpEvent};

type Server = RelayServer<&'static str, (), &'static str>;
type Client = RelayClient<(), &'static str>;
type Event = ConnEvent<&'static str, &'static str>;

const TARGET: SocketAddress = SocketAddress::V4 { octets: 0x0a00_0001, port: 4200 };
const OTHER: SocketAddress = SocketAddress::V4 { octets: 0x0a00_0002, port: 4200 };
const FROM: SocketAddress = SocketAddress::V4 { octets: 0x0808_0808, port: 5000 };
const PEER: SocketAddress = SocketAddress::V6 { segments: 1, port: 999, flowinfo: 0, scope_id: 0 };

fn broken() -> Error {
    Error::new(ErrorKind::Other, "it broke")
}

fn server() -> Server {
    RelayServer::new(vec![OTHER, TARGET])
}

fn client() -> Client {
    RelayClient::new((), FROM)
}

fn step(server: &mut Server, client: &mut Client, event: Event) -> ConnAction {
    assert!(is_expected(client, &event));
    server.handle_new_conn(client, event)
}

fn received(bytes: &[u8]) -> Event {
    ConnEvent::Login(LoginEvent::Received(bytes.to_vec()))
}

fn started() -> Event {
    ConnEvent::Login(LoginEvent::Start)
}

/// Sends a complete login and gives back what becomes of it.
fn log_in(server: &mut Server, client: &mut Client, marker: u8, host: &[u8]) -> ConnAction {
    assert!(matches!(step(server, client, started()), ConnAction::Read(1)));
    assert!(matches!(step(server, client, received(&[marker])), ConnAction::Read(4)));
    assert!(matches!(
        step(server, client, received(&[0x7f, 0x8a, 0x9b, 0x0c])),
        ConnAction::Read(4)
    ));
    let len = (host.len() as u32).to_be_bytes();
    match step(server, client, received(&len)) {
        ConnAction::Read(n) => assert_eq!(n, host.len()),
        _ => panic!("the host should be read"),
    }
    step(server, client, received(host))
}

/// Brings a client to the point where it was asked, and gives back the number.
fn ask(server: &mut Server, client: &mut Client) -> u32 {
    let frame = match log_in(server, client, 7, b"10.0.0.1:4200") {
        ConnAction::Ask(frame) => frame,
        _ => panic!("the client should be asked"),
    };
    assert_eq!(&frame[..5], &[0, 0, 0, 5, 1]);
    let id = u32::from_be_bytes([frame[5], frame[6], frame[7], frame[8]]);
    assert_eq!(frame.len(), 9);
    assert_eq!(id, client.get_udp_id());
    id
}

fn claim(id: u32) -> Vec<u8> {
    let mut bytes = vec![0x7f, 0x8a, 0x9b, 0x0c];
    bytes.extend_from_slice(&id.to_be_bytes());
    bytes
}

/// Brings a client to the point where its server is connected to.
fn connect(server: &mut Server, client: &mut Client) {
    let id = ask(server, client);
    step(server, client, ConnEvent::QuestionSent("waker"));
    server.run_udp_loop(UdpEvent::Received(&claim(id), PEER));
    assert!(matches!(
        step(server, client, ConnEvent::Claimed),
        ConnAction::Upstream(UpstreamAction::Connect(TARGET))
    ));
}

fn refusal(action: ConnAction) -> String {
    match action {
        ConnAction::Finish(Err(error)) => error.to_string(),
        _ => panic!("the client should be refused"),
    }
}

#[test]
fn new_client_knows_nothing() {
    let c = client();
    assert_eq!(c.get_peer_addr(), FROM);
    assert_eq!(c.get_relay_target(), None);
    assert_eq!(c.get_udp_peer(), None);
    assert_eq!(c.get_udp_id(), 0);
    assert_eq!(c.get_stage(), Stage::Login);
    assert_eq!(c.upstream(), None);
    assert!(!c.is_linked());
}

#[test]
fn setters_set() {
    let mut c = client();
    c.set_relay_target(Some(TARGET));
    assert_eq!(c.get_relay_target(), Some(&TARGET));
    c.set_relay_target(None);
    assert_eq!(c.get_relay_target(), None);
    c.set_udp_peer(Some(PEER));
    assert_eq!(c.get_udp_peer(), Some(&PEER));
    c.set_udp_peer(None);
    assert_eq!(c.get_udp_peer(), None);
    assert_eq!(c.get_peer_addr(), FROM);
}

#[test]
fn client_that_does_its_part_is_relayed() {
    let mut s = server();
    let mut c = client();
    assert!(matches!(
        log_in(&mut s, &mut c, 7, b"10.0.0.1:4200"),
        ConnAction::Ask(_)
    ));
    assert_eq!(c.get_login_host(), Some(TARGET));
    let id = c.get_udp_id();
    assert_ne!(id, 0);
    assert_eq!(c.get_relay_target(), Some(&TARGET));
    match step(&mut s, &mut c, ConnEvent::QuestionSent("waker")) {
        ConnAction::AwaitClaim(n) => assert_eq!(n, id),
        _ => panic!("the claim should be awaited"),
    }
    assert_eq!(s.awaiter(id), Some(&"waker"));
    match s.run_udp_loop(UdpEvent::Received(&claim(id), PEER)) {
        UdpAction::Wake(n) => assert_eq!(n, id),
        _ => panic!("the client should be woken"),
    }
    assert!(matches!(
        step(&mut s, &mut c, ConnEvent::Claimed),
        ConnAction::Upstream(UpstreamAction::Connect(TARGET))
    ));
    assert_eq!(c.get_udp_peer(), Some(&PEER));
    assert!(matches!(
        step(&mut s, &mut c, ConnEvent::Upstream(UpstreamEvent::Connected)),
        ConnAction::Upstream(UpstreamAction::Bind(SocketAddress::V4 { octets: 0, port: 0 }))
    ));
    match step(&mut s, &mut c, ConnEvent::Upstream(UpstreamEvent::Bound)) {
        ConnAction::Upstream(UpstreamAction::Write(bytes)) => assert_eq!(bytes, vec![7]),
        _ => panic!("the marker should be sent"),
    }
    assert_eq!(c.upstream(), None);
    match step(&mut s, &mut c, ConnEvent::Upstream(UpstreamEvent::Greeted("up"))) {
        ConnAction::Confirm(bytes) => assert_eq!(bytes, vec![1]),
        _ => panic!("the client should be told"),
    }
    assert_eq!(c.upstream(), Some(&"up"));
    assert!(matches!(
        step(&mut s, &mut c, ConnEvent::Confirmed),
        ConnAction::Finish(Ok(()))
    ));
    assert_eq!(c.get_stage(), Stage::Relaying);
    assert!(c.is_linked());
}

#[test]
fn connection_is_transparent_but_for_its_login() {
    let mut s = server();
    let mut c = client();
    let id = ask(&mut s, &mut c);
    let mut to_client = vec![0, 0, 0, 5, 1];
    to_client.extend_from_slice(&id.to_be_bytes());
    step(&mut s, &mut c, ConnEvent::QuestionSent("waker"));
    s.run_udp_loop(UdpEvent::Received(&claim(id), PEER));
    step(&mut s, &mut c, ConnEvent::Claimed);
    step(&mut s, &mut c, ConnEvent::Upstream(UpstreamEvent::Connected));
    let mut to_server = match step(&mut s, &mut c, ConnEvent::Upstream(UpstreamEvent::Bound)) {
        ConnAction::Upstream(UpstreamAction::Write(bytes)) => bytes,
        _ => panic!("the marker should be sent"),
    };
    match step(&mut s, &mut c, ConnEvent::Upstream(UpstreamEvent::Greeted("up"))) {
        ConnAction::Confirm(bytes) => to_client.extend(bytes),
        _ => panic!("the client should be told"),
    }
    step(&mut s, &mut c, ConnEvent::Confirmed);
    for chunk in [b"ab", b"cd"] {
        match c.run_tcp_send_loop(TcpEvent::Read(chunk.to_vec())) {
            TcpAction::Write(bytes) => to_server.extend(bytes),
            _ => panic!("nothing was passed on"),
        }
        match c.run_tcp_recv_loop(TcpEvent::Read(chunk.to_vec())) {
            TcpAction::Write(bytes) => to_client.extend(bytes),
            _ => panic!("nothing was passed on"),
        }
    }
    assert_eq!(to_server, b"\x07abcd");
    assert_eq!(&to_client[9..], b"\x01abcd");
}

#[test]
fn login_may_arrive_in_small_pieces() {
    let mut s = server();
    let mut c = client();
    step(&mut s, &mut c, started());
    step(&mut s, &mut c, received(&[3]));
    assert!(matches!(step(&mut s, &mut c, received(&[0x7f])), ConnAction::Read(3)));
    assert!(matches!(step(&mut s, &mut c, received(&[0x8a, 0x9b])), ConnAction::Read(1)));
    assert!(matches!(step(&mut s, &mut c, received(&[0x0c])), ConnAction::Read(4)));
    assert!(matches!(step(&mut s, &mut c, received(&[0, 0, 0, 13])), ConnAction::Read(13)));
    assert!(matches!(step(&mut s, &mut c, received(b"10.0.0.1:420")), ConnAction::Read(1)));
    assert!(matches!(step(&mut s, &mut c, received(b"0")), ConnAction::Ask(_)));
}

#[test]
fn wrong_magic() {
    let mut s = server();
    let mut c = client();
    step(&mut s, &mut c, started());
    step(&mut s, &mut c, received(&[7]));
    let action = step(&mut s, &mut c, received(&[0x7f, 0x8a, 0x9b, 0x0d]));
    assert_eq!(refusal(action), "Invalid magic sent by the client");
    assert_eq!(c.get_stage(), Stage::Refused);
}

#[test]
fn host_too_long() {
    let mut s = server();
    let mut c = client();
    step(&mut s, &mut c, started());
    step(&mut s, &mut c, received(&[7]));
    step(&mut s, &mut c, received(&[0x7f, 0x8a, 0x9b, 0x0c]));
    let action = step(&mut s, &mut c, received(&[0, 0, 0, 65]));
    assert_eq!(refusal(action), "Invalid host was sent by the client");
}

#[test]
fn host_that_is_no_address() {
    let mut s = server();
    let mut c = client();
    let action = log_in(&mut s, &mut c, 7, b"\xffnowhere");
    assert_eq!(refusal(action), "Invalid host was sent by the client");
}

#[test]
fn host_that_is_not_listed() {
    let mut s: Server = RelayServer::new(vec![OTHER]);
    let mut c = client();
    let action = log_in(&mut s, &mut c, 7, b"10.0.0.1:4200");
    assert_eq!(refusal(action), "Disallowed host");
    assert_eq!(c.get_relay_target(), None);
    assert_eq!(c.get_udp_id(), 0);
}

#[test]
fn relay_without_servers_refuses_everybody() {
    let mut s: Server = RelayServer::new(vec![]);
    let mut c = client();
    let action = log_in(&mut s, &mut c, 7, b"10.0.0.1:4200");
    assert_eq!(refusal(action), "Disallowed host");
}

#[test]
fn failed_read_during_login() {
    let mut s = server();
    let mut c = client();
    step(&mut s, &mut c, started());
    step(&mut s, &mut c, received(&[7]));
    let action = step(&mut s, &mut c, ConnEvent::Login(LoginEvent::Failed(broken())));
    assert_eq!(refusal(action), "Socket error: it broke");
}

#[test]
fn failed_question() {
    let mut s = server();
    let mut c = client();
    let id = ask(&mut s, &mut c);
    let action = step(&mut s, &mut c, ConnEvent::WriteFailed(broken()));
    assert_eq!(refusal(action), "Socket error: it broke");
    assert_eq!(s.awaiter(id), None);
}

#[test]
fn woken_without_a_claim() {
    let mut s = server();
    let mut c = client();
    ask(&mut s, &mut c);
    step(&mut s, &mut c, ConnEvent::QuestionSent("waker"));
    let action = step(&mut s, &mut c, ConnEvent::Claimed);
    assert_eq!(
        refusal(action),
        "Internal error, check other logs for more information"
    );
}

#[test]
fn failed_connection_to_the_server() {
    let mut s = server();
    let mut c = client();
    connect(&mut s, &mut c);
    let action = step(&mut s, &mut c, ConnEvent::Upstream(UpstreamEvent::Failed(broken())));
    assert_eq!(refusal(action), "Socket error: it broke");
    assert_eq!(c.upstream(), None);

    let mut c = client();
    connect(&mut s, &mut c);
    step(&mut s, &mut c, ConnEvent::Upstream(UpstreamEvent::Connected));
    step(&mut s, &mut c, ConnEvent::Upstream(UpstreamEvent::Bound));
    let action = step(&mut s, &mut c, ConnEvent::Upstream(UpstreamEvent::Failed(broken())));
    assert_eq!(refusal(action), "Socket error: it broke");
    assert_eq!(c.upstream(), None);
}

#[test]
fn failed_confirmation() {
    let mut s = server();
    let mut c = client();
    connect(&mut s, &mut c);
    step(&mut s, &mut c, ConnEvent::Upstream(UpstreamEvent::Connected));
    step(&mut s, &mut c, ConnEvent::Upstream(UpstreamEvent::Bound));
    step(&mut s, &mut c, ConnEvent::Upstream(UpstreamEvent::Greeted("up")));
    let action = step(&mut s, &mut c, ConnEvent::WriteFailed(broken()));
    assert_eq!(refusal(action), "Socket error: it broke");
}

#[test]
fn events_out_of_turn_are_not_expected() {
    let mut s = server();
    let mut c = client();
    assert!(!is_expected(&c, &Event::Confirmed));
    assert!(!is_expected(&c, &Event::Claimed));
    assert!(!is_expected(&c, &received(&[1])));
    assert!(is_expected(&c, &started()));
    step(&mut s, &mut c, started());
    assert!(!is_expected(&c, &started()));
    assert!(!is_expected(&c, &received(&[1, 2])));
    assert!(is_expected(&c, &received(&[1])));
    let mut c = client();
    connect(&mut s, &mut c);
    assert!(!is_expected(&c, &received(&[1])));
    assert!(!is_expected(&c, &Event::Upstream(UpstreamEvent::Start)));
    assert!(!is_expected(&c, &Event::Upstream(UpstreamEvent::Bound)));
    assert!(is_expected(&c, &Event::Upstream(UpstreamEvent::Connected)));
}

#[test]
fn refused_client_expects_nothing() {
    let mut s = server();
    let mut c = client();
    step(&mut s, &mut c, started());
    step(&mut s, &mut c, ConnEvent::Login(LoginEvent::Failed(broken())));
    assert!(!is_expected(&c, &started()));
    assert!(!is_expected(&c, &received(&[])));
    assert!(!is_expected(&c, &Event::Confirmed));
    assert!(!is_expected(&c, &Event::WriteFailed(broken())));
}

#[test]
fn earliest_claim_counts_and_others_stay() {
    let mut s = server();
    let mut a = client();
    let mut b = client();
    let id_a = ask(&mut s, &mut a);
    step(&mut s, &mut a, ConnEvent::QuestionSent("a"));
    let mut id_b = ask(&mut s, &mut b);
    while id_b == id_a {
        b = client();
        id_b = ask(&mut s, &mut b);
    }
    step(&mut s, &mut b, ConnEvent::QuestionSent("b"));
    s.run_udp_loop(UdpEvent::Received(&claim(id_b), OTHER));
    s.run_udp_loop(UdpEvent::Received(&claim(id_a), PEER));
    s.run_udp_loop(UdpEvent::Received(&claim(id_a), FROM));
    step(&mut s, &mut a, ConnEvent::Claimed);
    assert_eq!(a.get_udp_peer(), Some(&PEER));
    step(&mut s, &mut b, ConnEvent::Claimed);
    assert_eq!(b.get_udp_peer(), Some(&OTHER));
}

#[test]
fn zero_is_not_used_as_a_number() {
    let mut c = client();
    let question = c.ask_with(0);
    assert_eq!(question.id, 1);
    assert_eq!(question.frame, vec![0, 0, 0, 5, 1, 0, 0, 0, 1]);
    assert_eq!(c.get_udp_id(), 1);
    let question = c.ask_with(0xdead_beef);
    assert_eq!(question.id, 0xdead_beef);
    assert_eq!(question.frame, vec![0, 0, 0, 5, 1, 0xde, 0xad, 0xbe, 0xef]);
    assert_eq!(c.get_udp_id(), 0xdead_beef);
}

#[test]
fn numbers_are_drawn_at_random() {
    let mut seen = Vec::new();
    for _ in 0..16 {
        let mut c = client();
        let question = c.send_udp_question();
        assert_ne!(question.id, 0);
        assert_eq!(question.id, c.get_udp_id());
        seen.push(question.id);
    }
    seen.sort();
    seen.dedup();
    assert!(seen.len() > 1);
}

fn login_event(c: &mut Client, event: LoginEvent) -> LoginAction {
    assert!(c.expects_login(&event));
    c.wait_for_relay_login(event)
}

/// Sends a complete login and gives back its result.
fn log_in_alone(
    c: &mut Client,
    marker: u8,
    host: &[u8],
) -> Result<SocketAddress, RelayError> {
    assert!(matches!(login_event(c, LoginEvent::Start), LoginAction::Read(1)));
    login_event(c, LoginEvent::Received(vec![marker]));
    login_event(c, LoginEvent::Received(vec![0x7f, 0x8a, 0x9b, 0x0c]));
    assert!(c.is_logging_in());
    let len = (host.len() as u32).to_be_bytes().to_vec();
    match login_event(c, LoginEvent::Received(len)) {
        LoginAction::Done(result) => return result,
        LoginAction::Read(n) => assert_eq!(n, host.len()),
    }
    match login_event(c, LoginEvent::Received(host.to_vec())) {
        LoginAction::Done(result) => result,
        _ => panic!("the login should be over"),
    }
}

fn marker(c: &mut Client) -> Vec<u8> {
    match c.establish_upstream_connection(UpstreamEvent::Bound) {
        UpstreamAction::Write(bytes) => bytes,
        _ => panic!("the marker should be sent"),
    }
}

#[test]
fn login_on_its_own() {
    let mut c = client();
    assert_eq!(c.get_login_host(), None);
    assert_eq!(log_in_alone(&mut c, 5, b"10.0.0.1:4200").unwrap(), TARGET);
    assert!(!c.is_logging_in());
    assert_eq!(c.get_login_host(), Some(TARGET));
    assert_eq!(marker(&mut c), vec![5]);
}

#[test]
fn hosts_that_are_addresses() {
    let mut c = client();
    assert_eq!(
        log_in_alone(&mut c, 1, b"255.254.253.252:65535").unwrap(),
        SocketAddress::V4 { octets: 0xfffe_fdfc, port: 65535 }
    );
    assert_eq!(
        log_in_alone(&mut c, 1, b"[2001:db8::1]:80").unwrap(),
        SocketAddress::V6 {
            segments: 0x2001_0db8_0000_0000_0000_0000_0000_0001,
            port: 80,
            flowinfo: 0,
            scope_id: 0,
        }
    );
    assert_eq!(
        log_in_alone(&mut c, 1, b"[fe80::2%3]:1").unwrap(),
        SocketAddress::V6 {
            segments: 0xfe80_0000_0000_0000_0000_0000_0000_0002,
            port: 1,
            flowinfo: 0,
            scope_id: 3,
        }
    );
}

#[test]
fn hosts_that_are_no_addresses() {
    let mut c = client();
    let hosts: [&[u8]; 7] = [
        b"",
        b"10.0.0.1",
        b"localhost:80",
        b"10.0.0.1:65536",
        b"10.0.0.256:1",
        b" 10.0.0.1:1",
        b"10.0.0.1:1\xff",
    ];
    for host in hosts {
        assert!(matches!(log_in_alone(&mut c, 1, host), Err(RelayError::InvalidHost)));
        assert_eq!(c.get_login_host(), None);
    }
    assert_eq!(finish_login(Some(OTHER)).unwrap(), OTHER);
    assert!(matches!(finish_login(None), Err(RelayError::InvalidHost)));
}

#[test]
fn logins_are_judged_by_their_result() {
    let s = server();
    let mut c = client();
    assert!(matches!(s.judge_login(&mut c, Ok(OTHER)), ConnAction::Ask(_)));
    assert_eq!(c.get_relay_target(), Some(&OTHER));
    assert_eq!(c.get_stage(), Stage::Asking);
    let mut c = client();
    assert_eq!(refusal(s.judge_login(&mut c, Ok(PEER))), "Disallowed host");
    assert_eq!(c.get_stage(), Stage::Refused);
    let mut c = client();
    assert_eq!(
        refusal(s.judge_login(&mut c, Err(RelayError::InvalidMagic))),
        "Invalid magic sent by the client"
    );
}

#[test]
fn each_login_is_read_afresh() {
    let mut c = client();
    assert_eq!(log_in_alone(&mut c, 5, b"10.0.0.1:4200").unwrap(), TARGET);
    assert!(!c.expects_login(&LoginEvent::Received(vec![6])));
    assert_eq!(log_in_alone(&mut c, 6, b"10.0.0.2:4200").unwrap(), OTHER);
    assert_eq!(marker(&mut c), vec![6]);

    // a login that was broken off is forgotten, but for its marker
    login_event(&mut c, LoginEvent::Start);
    login_event(&mut c, LoginEvent::Received(vec![7]));
    assert!(matches!(
        login_event(&mut c, LoginEvent::Failed(broken())),
        LoginAction::Done(Err(RelayError::Socket(_)))
    ));
    assert_eq!(marker(&mut c), vec![7]);
    assert!(!c.expects_login(&LoginEvent::Received(vec![0x7f])));
    assert_eq!(log_in_alone(&mut c, 8, b"10.0.0.1:4200").unwrap(), TARGET);
    assert_eq!(marker(&mut c), vec![8]);
}

#[test]
fn refusal_frame_of_a_client() {
    let c = client();
    assert_eq!(
        c.send_relay_error("nö"),
        vec![0, 0, 0, 8, 0, 0, 0, 0, 3, b'n', 0xc3, 0xb6]
    );
    assert_eq!(c.send_relay_established(), vec![1]);
}

#[test]
fn claims_are_first_come_first_served() {
    let mut s = server();
    let mut c = client();
    let id = ask(&mut s, &mut c);
    step(&mut s, &mut c, ConnEvent::QuestionSent("waker"));
    for sender in [OTHER, PEER, FROM] {
        s.run_udp_loop(UdpEvent::Received(&claim(id), sender));
        s.run_udp_loop(UdpEvent::Received(b"no claim", sender));
    }
    step(&mut s, &mut c, ConnEvent::Claimed);
    assert_eq!(c.get_udp_peer(), Some(&OTHER));
    // a later client that is asked the same number gets what is left
    let mut later = client();
    log_in(&mut s, &mut later, 1, b"10.0.0.1:4200");
    later.ask_with(id);
    step(&mut s, &mut later, ConnEvent::QuestionSent("later"));
    step(&mut s, &mut later, ConnEvent::Claimed);
    assert_eq!(later.get_udp_peer(), Some(&PEER));
    assert_eq!(s.awaiter(id), Some(&"later"));
}

#[test]
fn refused_client_was_given_no_more_than_its_question() {
    let mut s = server();
    let mut c = client();
    connect(&mut s, &mut c);
    step(&mut s, &mut c, ConnEvent::Upstream(UpstreamEvent::Connected));
    let action = step(&mut s, &mut c, ConnEvent::Upstream(UpstreamEvent::Failed(broken())));
    assert_eq!(refusal(action), "Socket error: it broke");
    assert_eq!(c.upstream(), None);
    assert!(!is_expected(&c, &Event::Upstream(UpstreamEvent::Bound)));
    assert!(!is_expected(&c, &Event::Upstream(UpstreamEvent::Greeted("up"))));
}
