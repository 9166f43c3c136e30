//! One client of the relay: what is known of it, what it is sent, and how its traffic is
//! passed on.
use vstd::prelude::*;

use crate::address::{parse_address, SocketAddress};
use crate::relay_error::RelayError;
use crate::wire::{
    encode_relay_error, encode_relay_established, encode_udp_question, read_login, LoginProgress,
    LoginProgressView,
};

verus! {

/// How long, in seconds, a closed client connection may go on delivering what was sent on it.
pub const LINGER_SECS: u64 = 1;

/// How many bytes of a TCP connection are passed on at once, at most.
pub const TCP_BUFFER_LEN: usize = 8192;

/// The longest datagram that is passed on.
pub const UDP_BUFFER_LEN: usize = 65536;

/// A closed connection goes on delivering for one second; TCP bytes are passed on up to 8192 at a
/// time; and no datagram that UDP can carry is cut, for none is longer than 65535 bytes.
pub proof fn limits_of_a_connection()
    ensures
        LINGER_SECS == 1,
        TCP_BUFFER_LEN == 8192,
        UDP_BUFFER_LEN == 65536,
{
}

/// How far a client has come in setting up its relay.
#[derive(Clone, Copy, Debug, PartialEq, Eq, Structural)]
pub enum Stage {
    /// Its login is being read.
    Login,
    /// It is being sent the question for its UDP address.
    Asking,
    /// Its answer to that question is awaited.
    AwaitingClaim,
    /// The TCP connection to its server is being opened.
    Connecting,
    /// A UDP socket for its server is being opened.
    Binding,
    /// Its marker is being sent to its server.
    Greeting,
    /// It is being told that its relay is set up.
    Confirming,
    /// Its traffic is passed on.
    Relaying,
    /// It was refused.
    Refused,
}

/// One client of the relay. `D` stands for the sockets that lead to the client, `U` for those
/// that lead to its server; neither is ever looked into.
pub struct RelayClient<D, U> {
    downstream: D,
    peer_address: SocketAddress,
    relay_target: Option<SocketAddress>,
    udp_id: u32,
    peer_udp_address: Option<SocketAddress>,
    upstream: Option<U>,
    initial_conn_marker: u8,
    logging_in: bool,
    received: Vec<u8>,
    stage: Stage,
}

/// What is known of a client.
#[verifier::ext_equal]
pub struct ClientState<D, U> {
    /// The sockets that lead to the client.
    pub downstream: D,
    /// Where its TCP connection comes from.
    pub peer_address: SocketAddress,
    /// The server that it asked for, once that is admitted.
    pub relay_target: Option<SocketAddress>,
    /// The number of the question that it was asked; zero before it was asked any.
    pub udp_id: u32,
    /// Where its datagrams come from, once it has claimed that.
    pub peer_udp_address: Option<SocketAddress>,
    /// The sockets that lead to its server, once they are open.
    pub upstream: Option<U>,
    /// The first byte of its connection, which its server gets to see.
    pub initial_conn_marker: u8,
    /// Whether a login of it is being read.
    pub logging_in: bool,
    /// The bytes of its latest login that have arrived.
    pub received: Seq<u8>,
    /// How far it has come.
    pub stage: Stage,
}

impl<D, U> ClientState<D, U> {
    /// What is known of a client that has just connected: where it comes from, and nothing else.
    pub open spec fn fresh(downstream: D, peer_address: SocketAddress) -> Self {
        ClientState {
            downstream,
            peer_address,
            relay_target: None,
            udp_id: 0,
            peer_udp_address: None,
            upstream: None,
            initial_conn_marker: 0,
            logging_in: false,
            received: Seq::empty(),
            stage: Stage::Login,
        }
    }

    /// Whether everything is known that its traffic needs: its server, its UDP address, and the
    /// sockets that lead to its server.
    pub open spec fn linked(self) -> bool {
        &&& self.relay_target is Some
        &&& self.peer_udp_address is Some
        &&& self.upstream is Some
    }
}

/// Of a client that has just connected, its sockets and its address are known, and nothing else:
/// it has no server, no question, no UDP address and no marker, and nothing of its login has
/// arrived.
pub proof fn new_client_has_only_its_connection<D, U>(downstream: D, peer_address: SocketAddress)
    ensures
        ({
            let client = ClientState::<D, U>::fresh(downstream, peer_address);
            &&& client.downstream == downstream
            &&& client.peer_address == peer_address
            &&& client.relay_target is None
            &&& client.udp_id == 0
            &&& client.peer_udp_address is None
            &&& client.upstream is None
            &&& client.initial_conn_marker == 0
            &&& !client.logging_in
            &&& client.received.len() == 0
            &&& client.stage == Stage::Login
            &&& !client.linked()
        }),
{
}

/// A client lacks something that its traffic needs exactly when its server, its UDP address or
/// the sockets that lead to its server are missing; what else is known of it has no part in that.
pub proof fn client_is_linked_when_nothing_is_missing<D, U>(client: ClientState<D, U>)
    ensures
        !client.linked() <==> client.relay_target is None || client.peer_udp_address is None
            || client.upstream is None,
{
}

impl<D, U> View for RelayClient<D, U> {
    type V = ClientState<D, U>;

    closed spec fn view(&self) -> ClientState<D, U> {
        ClientState {
            downstream: self.downstream,
            peer_address: self.peer_address,
            relay_target: self.relay_target,
            udp_id: self.udp_id,
            peer_udp_address: self.peer_udp_address,
            upstream: self.upstream,
            initial_conn_marker: self.initial_conn_marker,
            logging_in: self.logging_in,
            received: self.received@,
            stage: self.stage,
        }
    }
}

// ---------------------------------------------------------------------------
// Login

/// What happened while a login was awaited.
pub enum LoginEvent {
    /// A login is to be read. One that was not read to its end is forgotten.
    Start,
    /// These bytes arrived from the client.
    Received(Vec<u8>),
    /// Reading from the client failed.
    Failed(std::io::Error),
}

/// Whether an event answers what the login of a client asked for last. A login can be started
/// at any time.
pub open spec fn login_expects<D, U>(client: ClientState<D, U>, event: LoginEvent) -> bool {
    let progress = crate::wire::login_progress(client.received);
    match event {
        LoginEvent::Start => true,
        LoginEvent::Received(bytes) => {
            &&& client.logging_in
            &&& progress matches LoginProgressView::Read(n)
            &&& bytes@.len() <= n
        },
        LoginEvent::Failed(_) => client.logging_in && progress is Read,
    }
}

/// What a login needs next.
pub enum LoginAction {
    /// Read at least one and at most this many bytes from the client.
    Read(usize),
    /// The login is over.
    Done(Result<SocketAddress, RelayError>),
}

/// The mathematical reading of [`LoginAction`].
pub enum LoginActionView {
    Read(nat),
    Done(Result<SocketAddress, RelayError>),
}

impl View for LoginAction {
    type V = LoginActionView;

    open spec fn view(&self) -> LoginActionView {
        match self {
            LoginAction::Read(n) => LoginActionView::Read(*n as nat),
            LoginAction::Done(result) => LoginActionView::Done(*result),
        }
    }
}

/// The result of a complete login whose host was read as `host`, or could not be read as an
/// address.
pub open spec fn login_result(host: Option<SocketAddress>) -> Result<SocketAddress, RelayError> {
    match host {
        Some(address) => Ok(address),
        None => Err(RelayError::InvalidHost),
    }
}

/// Gives the result of a complete login, from what its host was read as.
pub fn finish_login(host: Option<SocketAddress>) -> (result: Result<SocketAddress, RelayError>)
    ensures
        result == login_result(host),
{
    match host {
        Some(address) => Ok(address),
        None => Err(RelayError::InvalidHost),
    }
}

/// What is done once `progress` has been made with a login.
pub open spec fn login_action(progress: LoginProgressView) -> LoginActionView {
    match progress {
        LoginProgressView::Read(n) => LoginActionView::Read(n),
        LoginProgressView::Refused(e) => LoginActionView::Done(Err(e)),
        LoginProgressView::Host(host) => LoginActionView::Done(
            login_result(crate::address::parsed_address(host)),
        ),
    }
}

/// How a login goes on after an event: bytes are collected and judged, the first of them is
/// kept as the marker, a host that is no address is invalid, and a failed read ends the login.
/// Each login is read afresh.
pub open spec fn login_step<D, U>(client: ClientState<D, U>, event: LoginEvent) -> (
    ClientState<D, U>,
    LoginActionView,
) {
    match event {
        LoginEvent::Start => (
            ClientState { logging_in: true, received: Seq::empty(), ..client },
            LoginActionView::Read(1),
        ),
        LoginEvent::Received(bytes) => {
            let received = client.received + bytes@;
            let marker = if received.len() > 0 {
                received[0]
            } else {
                client.initial_conn_marker
            };
            let action = login_action(crate::wire::login_progress(received));
            (
                ClientState {
                    received,
                    initial_conn_marker: marker,
                    logging_in: client.logging_in && action is Read,
                    ..client
                },
                action,
            )
        },
        LoginEvent::Failed(e) => (
            ClientState { logging_in: false, ..client },
            LoginActionView::Done(Err(RelayError::Socket(e))),
        ),
    }
}

/// The login of a host that is an address gives that address, and the login of any other host is
/// invalid. Here `rest` is what arrives last, and the login is its marker, 7f 8a 9b 0c, the length
/// of the host, most significant byte first, and the host.
pub proof fn login_gives_the_address_of_its_host<D, U>(
    client: ClientState<D, U>,
    rest: Vec<u8>,
    marker: u8,
    a: u8,
    b: u8,
    c: u8,
    d: u8,
    host: Seq<u8>,
)
    requires
        client.received + rest@ == seq![marker, 0x7fu8, 0x8au8, 0x9bu8, 0x0cu8] + (seq![a, b, c, d]
            + host),
        ((a * 256 + b) * 256 + c) * 256 + d == host.len(),
        host.len() <= 64,
    ensures
        ({
            let (next, action) = login_step(client, LoginEvent::Received(rest));
            &&& crate::address::parsed_address(crate::text::lossy_text(host)) matches Some(address)
                ==> action == LoginActionView::Done(Ok(address))
            &&& crate::address::parsed_address(crate::text::lossy_text(host)) is None ==> action
                == LoginActionView::Done(Err(RelayError::InvalidHost))
            &&& next.initial_conn_marker == marker
        }),
{
    crate::wire::host_is_as_long_as_announced(marker, a, b, c, d, host);
    assert(host.take(host.len() as int) =~= host);
}

/// Bytes of a login are collected in order, the first of them all is kept as the marker, and
/// nothing else of the client changes but whether the login is still being read. It is read on as
/// long as bytes of it are missing; a login that is refused, or complete, is over.
pub proof fn login_bytes_are_collected_and_judged<D, U>(
    client: ClientState<D, U>,
    bytes: Vec<u8>,
)
    ensures
        ({
            let received = client.received + bytes@;
            let (next, action) = login_step(client, LoginEvent::Received(bytes));
            &&& next.received == received
            &&& received.len() > 0 ==> next.initial_conn_marker == received[0]
            &&& received.len() == 0 ==> next.initial_conn_marker == client.initial_conn_marker
            &&& next.logging_in <==> client.logging_in && action is Read
            &&& next.downstream == client.downstream
            &&& next.peer_address == client.peer_address
            &&& next.relay_target == client.relay_target
            &&& next.udp_id == client.udp_id
            &&& next.peer_udp_address == client.peer_udp_address
            &&& next.upstream == client.upstream
            &&& next.stage == client.stage
            &&& match crate::wire::login_progress(received) {
                LoginProgressView::Read(n) => action == LoginActionView::Read(n),
                LoginProgressView::Refused(e) => action == LoginActionView::Done(Err(e)),
                LoginProgressView::Host(host) => match crate::address::parsed_address(host) {
                    Some(address) => action == LoginActionView::Done(Ok(address)),
                    None => action == LoginActionView::Done(Err(RelayError::InvalidHost)),
                },
            }
        }),
{
}

/// The result of a complete login is the address that its host was read as, and an invalid host
/// where it was not read as one.
pub proof fn login_result_is_the_address(address: SocketAddress)
    ensures
        login_result(Some(address)) == Ok::<SocketAddress, RelayError>(address),
        login_result(None) == Err::<SocketAddress, RelayError>(RelayError::InvalidHost),
{
}

/// A login that is started asks for its marker and has no bytes yet; one whose reading failed is
/// over with that failure. Neither changes anything else of the client.
pub proof fn login_starts_empty_and_ends_with_a_failure<D, U>(
    client: ClientState<D, U>,
    e: std::io::Error,
)
    ensures
        ({
            let (next, action) = login_step(client, LoginEvent::Start);
            &&& action == LoginActionView::Read(1)
            &&& next.received.len() == 0
            &&& next.logging_in
            &&& client == (ClientState {
                received: client.received,
                logging_in: client.logging_in,
                ..next
            })
        }),
        ({
            let (next, action) = login_step(client, LoginEvent::Failed(e));
            &&& action == LoginActionView::Done(Err(RelayError::Socket(e)))
            &&& !next.logging_in
            &&& client == (ClientState { logging_in: client.logging_in, ..next })
        }),
{
}

/// A login expects what it asked for: after it asked for `n` bytes, any bytes up to that many, or
/// a failure to read them; after it ended, neither. It can be started anew at any time. What it
/// expects depends on nothing but its own bytes and whether it is being read.
pub proof fn login_expects_what_it_asked_for<D, U>(
    client: ClientState<D, U>,
    event: LoginEvent,
    later: LoginEvent,
    other: ClientState<D, U>,
)
    requires
        login_expects(client, event),
    ensures
        ({
            let (next, action) = login_step(client, event);
            &&& login_expects(next, later) <==> match later {
                LoginEvent::Start => true,
                LoginEvent::Received(bytes) => action matches LoginActionView::Read(n)
                    && bytes@.len() <= n,
                LoginEvent::Failed(_) => action is Read,
            }
            &&& other.received == next.received && other.logging_in == next.logging_in ==> (
            login_expects(other, later) <==> login_expects(next, later))
        }),
{
}

/// A client whose login is not being read expects nothing but the start of one.
pub proof fn login_is_started_first<D, U>(client: ClientState<D, U>, event: LoginEvent)
    ensures
        login_expects(client, LoginEvent::Start),
        !client.logging_in && login_expects(client, event) ==> event is Start,
{
}

/// The reading of a login's action keeps what it asks for and its result.
pub proof fn login_actions_read_as_they_stand(
    n: usize,
    result: Result<SocketAddress, RelayError>,
)
    ensures
        LoginAction::Read(n)@ == LoginActionView::Read(n as nat),
        LoginAction::Done(result)@ == LoginActionView::Done(result),
{
}

/// A login is read afresh, whatever the client sent before: what becomes of it depends on its
/// own bytes alone.
pub proof fn each_login_is_read_afresh<D, U>(client: ClientState<D, U>, bytes: Vec<u8>)
    ensures
        ({
            let started = login_step(client, LoginEvent::Start).0;
            let (next, action) = login_step(started, LoginEvent::Received(bytes));
            &&& next.received == bytes@
            &&& bytes@.len() > 0 ==> next.initial_conn_marker == bytes@[0]
            &&& action == login_action(crate::wire::login_progress(bytes@))
        }),
{
    assert(Seq::<u8>::empty() + bytes@ =~= bytes@);
}

/// A login that is over expects nothing but the start of another one.
pub proof fn login_ends_once<D, U>(
    client: ClientState<D, U>,
    event: LoginEvent,
    later: LoginEvent,
)
    requires
        login_expects(client, event),
    ensures
        ({
            let (next, action) = login_step(client, event);
            &&& action is Done <==> !next.logging_in
            &&& action is Done && login_expects(next, later) ==> later is Start
        }),
{
}

// ---------------------------------------------------------------------------
// The question for the UDP address

/// A question that a client is asked.
pub struct UdpQuestion {
    /// Its number.
    pub id: u32,
    /// The bytes that the client is sent.
    pub frame: Vec<u8>,
}

/// The number of a question for which `drawn` was drawn. Zero is not used.
pub open spec fn question_id(drawn: u32) -> u32 {
    if drawn == 0 {
        1
    } else {
        drawn
    }
}

/// A question has the number that was drawn for it, except that no question has the number zero.
pub proof fn questions_have_the_number_drawn(drawn: u32)
    ensures
        drawn != 0 ==> question_id(drawn) == drawn,
        question_id(0) == 1,
{
}

/// Calls `rand::random::<u32>`. Nothing is claimed of the number: any can come. Like the
/// generator behind it, it needs a system that can provide randomness.
#[verifier::external_body]
fn draw_number() -> (number: u32) {
    rand::random::<u32>()
}

// ---------------------------------------------------------------------------
// The connection to the server

/// What happened while the connection to the server was set up.
pub enum UpstreamEvent<U> {
    /// It is to be set up.
    Start,
    /// The TCP connection is open.
    Connected,
    /// The UDP socket is open.
    Bound,
    /// The marker was sent; these are the sockets.
    Greeted(U),
    /// The last thing asked for failed.
    Failed(std::io::Error),
}

/// What the connection to the server needs next.
pub enum UpstreamAction {
    /// Open a TCP connection to this address.
    Connect(SocketAddress),
    /// Open a UDP socket on this address.
    Bind(SocketAddress),
    /// Send these bytes on the TCP connection.
    Write(Vec<u8>),
    /// It is set up, or cannot be.
    Done(Result<(), RelayError>),
}

/// The mathematical reading of [`UpstreamAction`].
pub enum UpstreamActionView {
    Connect(SocketAddress),
    Bind(SocketAddress),
    Write(Seq<u8>),
    Done(Result<(), RelayError>),
}

impl View for UpstreamAction {
    type V = UpstreamActionView;

    open spec fn view(&self) -> UpstreamActionView {
        match self {
            UpstreamAction::Connect(to) => UpstreamActionView::Connect(*to),
            UpstreamAction::Bind(on) => UpstreamActionView::Bind(*on),
            UpstreamAction::Write(bytes) => UpstreamActionView::Write(bytes@),
            UpstreamAction::Done(result) => UpstreamActionView::Done(*result),
        }
    }
}

/// How the connection to the server is set up: a TCP connection to the client's server, a UDP
/// socket on any free port, the client's marker on the TCP connection. The sockets are kept only
/// once all of that is done.
pub open spec fn upstream_step<D, U>(client: ClientState<D, U>, event: UpstreamEvent<U>) -> (
    ClientState<D, U>,
    UpstreamActionView,
) {
    match event {
        UpstreamEvent::Start => (
            client,
            UpstreamActionView::Connect(client.relay_target->Some_0),
        ),
        UpstreamEvent::Connected => (
            client,
            UpstreamActionView::Bind(crate::address::unspecified_address()),
        ),
        UpstreamEvent::Bound => (
            client,
            UpstreamActionView::Write(seq![client.initial_conn_marker]),
        ),
        UpstreamEvent::Greeted(sockets) => (
            ClientState { upstream: Some(sockets), ..client },
            UpstreamActionView::Done(Ok(())),
        ),
        UpstreamEvent::Failed(e) => (
            client,
            UpstreamActionView::Done(Err(RelayError::Socket(e))),
        ),
    }
}

/// The connection to the server is set up in this order, and a client is otherwise left as it is:
/// a TCP connection to the server that it is led to, a UDP socket on 0.0.0.0:0, its marker and
/// nothing else on the TCP connection. Then it has the sockets that it is given.
pub proof fn server_is_connected_bound_and_greeted<D, U>(client: ClientState<D, U>, sockets: U)
    ensures
        client.relay_target matches Some(target) ==> upstream_step(
            client,
            UpstreamEvent::<U>::Start,
        ) == (client, UpstreamActionView::Connect(target)),
        upstream_step(client, UpstreamEvent::<U>::Connected) == (
            client,
            UpstreamActionView::Bind(SocketAddress::V4 { octets: 0, port: 0 }),
        ),
        upstream_step(client, UpstreamEvent::<U>::Bound) == (
            client,
            UpstreamActionView::Write(seq![client.initial_conn_marker]),
        ),
        ({
            let (next, action) = upstream_step(client, UpstreamEvent::Greeted(sockets));
            &&& action == UpstreamActionView::Done(Ok(()))
            &&& next.upstream == Some(sockets)
            &&& client == (ClientState { upstream: client.upstream, ..next })
        }),
{
}

/// Whatever fails while the connection to the server is set up, that failure ends it and no
/// sockets are kept.
pub proof fn failed_connection_leaves_nothing<D, U>(client: ClientState<D, U>, e: std::io::Error)
    ensures
        upstream_step(client, UpstreamEvent::<U>::Failed(e)) == (
            client,
            UpstreamActionView::Done(Err(RelayError::Socket(e))),
        ),
{
}

/// The reading of an action on the connection to the server keeps its kind, its address, its
/// bytes and its result.
pub proof fn upstream_actions_read_as_they_stand(
    address: SocketAddress,
    bytes: Vec<u8>,
    result: Result<(), RelayError>,
)
    ensures
        UpstreamAction::Connect(address)@ == UpstreamActionView::Connect(address),
        UpstreamAction::Bind(address)@ == UpstreamActionView::Bind(address),
        UpstreamAction::Write(bytes)@ == UpstreamActionView::Write(bytes@),
        UpstreamAction::Done(result)@ == UpstreamActionView::Done(result),
{
}

impl<D, U> RelayClient<D, U> {
    /// A client that has just connected from `peer_address`.
    pub fn new(downstream: D, peer_address: SocketAddress) -> (client: Self)
        ensures
            client@ == ClientState::<D, U>::fresh(downstream, peer_address),
    {
        RelayClient {
            downstream,
            peer_address,
            relay_target: None,
            udp_id: 0,
            peer_udp_address: None,
            upstream: None,
            initial_conn_marker: 0,
            logging_in: false,
            received: Vec::new(),
            stage: Stage::Login,
        }
    }

    /// The sockets that lead to the client.
    pub fn downstream(&self) -> (sockets: &D)
        ensures
            *sockets == self@.downstream,
    {
        &self.downstream
    }

    /// The sockets that lead to its server, once they are open.
    pub fn upstream(&self) -> (sockets: Option<&U>)
        ensures
            match sockets {
                Some(s) => self@.upstream == Some(*s),
                None => self@.upstream is None,
            },
    {
        self.upstream.as_ref()
    }

    /// Where its TCP connection comes from.
    pub fn get_peer_addr(&self) -> (address: SocketAddress)
        ensures
            address == self@.peer_address,
    {
        self.peer_address
    }

    /// The server that its traffic goes to, once that is known.
    pub fn get_relay_target(&self) -> (target: Option<&SocketAddress>)
        ensures
            match target {
                Some(t) => self@.relay_target == Some(*t),
                None => self@.relay_target is None,
            },
    {
        self.relay_target.as_ref()
    }

    /// Sets the server that its traffic goes to.
    pub fn set_relay_target(&mut self, target: Option<SocketAddress>)
        ensures
            final(self)@ == (ClientState { relay_target: target, ..old(self)@ }),
    {
        self.relay_target = target;
    }

    /// Sets where its datagrams come from.
    pub fn set_udp_peer(&mut self, addr: Option<SocketAddress>)
        ensures
            final(self)@ == (ClientState { peer_udp_address: addr, ..old(self)@ }),
    {
        self.peer_udp_address = addr;
    }

    /// Where its datagrams come from, once that is known.
    pub fn get_udp_peer(&self) -> (addr: Option<&SocketAddress>)
        ensures
            match addr {
                Some(a) => self@.peer_udp_address == Some(*a),
                None => self@.peer_udp_address is None,
            },
    {
        self.peer_udp_address.as_ref()
    }

    /// The number of the question that it was asked; zero before it was asked any.
    pub fn get_udp_id(&self) -> (id: u32)
        ensures
            id == self@.udp_id,
    {
        self.udp_id
    }

    /// How far it has come.
    pub fn get_stage(&self) -> (stage: Stage)
        ensures
            stage == self@.stage,
    {
        self.stage
    }

    /// Sets how far it has come.
    pub(crate) fn set_stage(&mut self, stage: Stage)
        ensures
            final(self)@ == (ClientState { stage, ..old(self)@ }),
    {
        self.stage = stage;
    }

    /// Whether everything is known that its traffic needs.
    pub fn is_linked(&self) -> (linked: bool)
        ensures
            linked == self@.linked(),
    {
        self.relay_target.is_some() && self.peer_udp_address.is_some() && self.upstream.is_some()
    }

    /// The address that its login named, where the login is complete and its host is an address.
    pub fn get_login_host(&self) -> (host: Option<SocketAddress>)
        ensures
            host == if crate::wire::login_progress(self@.received) is Host {
                crate::address::parsed_address(crate::wire::host_text(self@.received))
            } else {
                None
            },
    {
        match read_login(&self.received) {
            LoginProgress::Host(host) => parse_address(host.as_str()),
            _ => None,
        }
    }

    /// Whether a login of it is being read.
    pub fn is_logging_in(&self) -> (logging_in: bool)
        ensures
            logging_in == self@.logging_in,
    {
        self.logging_in
    }

    /// Whether an event answers what its login asked for last.
    pub fn expects_login(&self, event: &LoginEvent) -> (expected: bool)
        ensures
            expected == login_expects(self@, *event),
    {
        if let LoginEvent::Start = event {
            return true;
        }
        if !self.logging_in {
            return false;
        }
        match (event, read_login(&self.received)) {
            (LoginEvent::Received(bytes), LoginProgress::Read(n)) => bytes.len() <= n,
            (LoginEvent::Failed(_), LoginProgress::Read(_)) => true,
            _ => false,
        }
    }

    /// Takes a login one event further.
    pub fn wait_for_relay_login(&mut self, event: LoginEvent) -> (action: LoginAction)
        requires
            login_expects(old(self)@, event),
        ensures
            (final(self)@, action@) == login_step(old(self)@, event),
            event is Received && crate::wire::login_progress(final(self)@.received) is Host
                ==> crate::wire::host_is_decoded(final(self)@.received),
    {
        match event {
            LoginEvent::Start => {
                self.logging_in = true;
                self.received = Vec::new();
                LoginAction::Read(1)
            },
            LoginEvent::Received(bytes) => {
                let mut bytes: Vec<u8> = bytes;
                self.received.append(&mut bytes);
                if self.received.len() > 0 {
                    self.initial_conn_marker = self.received[0];
                }
                match read_login(&self.received) {
                    LoginProgress::Read(n) => LoginAction::Read(n),
                    LoginProgress::Refused(e) => {
                        self.logging_in = false;
                        LoginAction::Done(Err(e))
                    },
                    LoginProgress::Host(host) => {
                        self.logging_in = false;
                        LoginAction::Done(finish_login(parse_address(host.as_str())))
                    },
                }
            },
            LoginEvent::Failed(e) => {
                self.logging_in = false;
                LoginAction::Done(Err(RelayError::from(e)))
            },
        }
    }

    /// Makes the question for which `drawn` was drawn the one that the client is asked.
    pub fn ask_with(&mut self, drawn: u32) -> (question: UdpQuestion)
        ensures
            question.id == question_id(drawn),
            question.frame@ == crate::wire::udp_question(question.id),
            final(self)@ == (ClientState { udp_id: question.id, ..old(self)@ }),
    {
        let id: u32 = if drawn == 0 {
            1
        } else {
            drawn
        };
        self.udp_id = id;
        UdpQuestion { id, frame: encode_udp_question(id) }
    }

    /// Asks the client to claim its UDP address, with a number that is drawn at random.
    pub fn send_udp_question(&mut self) -> (question: UdpQuestion)
        ensures
            question.id != 0,
            question.frame@ == crate::wire::udp_question(question.id),
            final(self)@ == (ClientState { udp_id: question.id, ..old(self)@ }),
    {
        let drawn: u32 = draw_number();
        self.ask_with(drawn)
    }

    /// What tells the client that its relay is set up.
    pub fn send_relay_established(&self) -> (frame: Vec<u8>)
        ensures
            frame@ == crate::wire::relay_established(),
    {
        encode_relay_established()
    }

    /// What tells the client why it is refused.
    pub fn send_relay_error(&self, msg: &str) -> (frame: Vec<u8>)
        requires
            5 + crate::wire::written_len(vstd::utf8::encode_utf8(msg@)) <= u32::MAX,
        ensures
            frame@ == crate::wire::relay_error(vstd::utf8::encode_utf8(msg@)),
    {
        encode_relay_error(msg.as_bytes())
    }

    /// Takes the connection to the server one event further.
    pub fn establish_upstream_connection(&mut self, event: UpstreamEvent<U>) -> (action:
        UpstreamAction)
        requires
            event is Start ==> old(self)@.relay_target is Some,
        ensures
            (final(self)@, action@) == upstream_step(old(self)@, event),
    {
        match event {
            UpstreamEvent::Start => UpstreamAction::Connect(self.relay_target.unwrap()),
            UpstreamEvent::Connected => UpstreamAction::Bind(
                SocketAddress::V4 { octets: 0, port: 0 },
            ),
            UpstreamEvent::Bound => {
                let mut greeting: Vec<u8> = Vec::new();
                greeting.push(self.initial_conn_marker);
                assert(greeting@ =~= seq![self@.initial_conn_marker]);
                UpstreamAction::Write(greeting)
            },
            UpstreamEvent::Greeted(sockets) => {
                self.upstream = Some(sockets);
                UpstreamAction::Done(Ok(()))
            },
            UpstreamEvent::Failed(e) => UpstreamAction::Done(Err(RelayError::from(e))),
        }
    }
}

} // verus!
