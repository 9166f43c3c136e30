//! The relay as a whole: which servers it leads to, who is setting up a relay, and whose
//! datagrams go where.
use std::collections::HashMap;
use std::sync::Arc;
use vstd::prelude::*;

use crate::address::{is_listed, SocketAddress};
use crate::address_table::AddressTable;
use crate::relay_client::{
    ClientState, LoginAction, LoginActionView, LoginEvent, RelayClient, Stage, UdpQuestion,
    UpstreamAction, UpstreamActionView, UpstreamEvent,
};
use crate::relay_error::RelayError;
use crate::wire::read_claim;

verus! {

broadcast use vstd::std_specs::hash::group_hash_axioms;

/// How long, in seconds, a new connection may take to set up its relay.
pub const LOGIN_LIMIT_SECS: u64 = 45;

/// How long, in seconds, the answer to a refused client may take to be sent.
pub const REFUSAL_LIMIT_SECS: u64 = 10;

/// The relay. `N` stands for what wakes a connection that awaits its claim, `D` and `U` for the
/// sockets of a client (see [`RelayClient`]); none of them is ever looked into.
pub struct RelayServer<N, D, U> {
    servers: Vec<SocketAddress>,
    clients: AddressTable<Arc<RelayClient<D, U>>>,
    udp_awaiters: HashMap<u32, N>,
    udp_accepted_queue: Vec<(u32, SocketAddress)>,
}

/// The state of the relay.
#[verifier::ext_equal]
pub struct ServerState<N, D, U> {
    /// The servers that clients may be led to.
    pub servers: Seq<SocketAddress>,
    /// The clients whose traffic is passed on, by the address that their datagrams come from.
    pub clients: Map<SocketAddress, Arc<RelayClient<D, U>>>,
    /// What wakes the connection that was asked a question, by the number of the question.
    pub udp_awaiters: Map<u32, N>,
    /// The claims that arrived and were not taken up yet, in the order of their arrival.
    pub udp_accepted_queue: Seq<(u32, SocketAddress)>,
}

/// The state of a relay that leads to `servers` and has just been started.
pub open spec fn new_relay<N, D, U>(servers: Seq<SocketAddress>) -> ServerState<N, D, U> {
    ServerState {
        servers,
        clients: Map::empty(),
        udp_awaiters: Map::empty(),
        udp_accepted_queue: Seq::empty(),
    }
}

impl<N, D, U> View for RelayServer<N, D, U> {
    type V = ServerState<N, D, U>;

    closed spec fn view(&self) -> ServerState<N, D, U> {
        ServerState {
            servers: self.servers@,
            clients: self.clients@,
            udp_awaiters: self.udp_awaiters@,
            udp_accepted_queue: self.udp_accepted_queue@,
        }
    }
}

// ---------------------------------------------------------------------------
// Claims

/// Whether the earliest claim of `id` in a queue stands at `i`.
pub open spec fn is_first_claim(queue: Seq<(u32, SocketAddress)>, id: u32, i: int) -> bool {
    &&& 0 <= i < queue.len()
    &&& queue[i].0 == id
    &&& forall|j: int| 0 <= j < i ==> #[trigger] queue[j].0 != id
}

/// Where in a queue the earliest claim of `id` stands, if there is one.
pub open spec fn first_claim(queue: Seq<(u32, SocketAddress)>, id: u32) -> Option<int> {
    if exists|i: int| is_first_claim(queue, id, i) {
        Some(choose|i: int| is_first_claim(queue, id, i))
    } else {
        None
    }
}

/// There is only one earliest claim of a number.
pub proof fn first_claim_is_unique(queue: Seq<(u32, SocketAddress)>, id: u32, i: int)
    requires
        is_first_claim(queue, id, i),
    ensures
        first_claim(queue, id) == Some(i),
{
}

/// A number that is queued at all has an earliest claim, and one that is not has none.
pub proof fn queued_claims_are_found(queue: Seq<(u32, SocketAddress)>, id: u32)
    ensures
        first_claim(queue, id) is Some <==> exists|i: int|
            0 <= i < queue.len() && #[trigger] queue[i].0 == id,
{
    if exists|i: int| 0 <= i < queue.len() && #[trigger] queue[i].0 == id {
        let i = choose|i: int| 0 <= i < queue.len() && #[trigger] queue[i].0 == id;
        lemma_earliest_up_to(queue, id, i);
    }
}

/// Up to a claim of `id` there is an earliest one.
proof fn lemma_earliest_up_to(queue: Seq<(u32, SocketAddress)>, id: u32, i: int)
    requires
        0 <= i < queue.len(),
        queue[i].0 == id,
    ensures
        exists|j: int| is_first_claim(queue, id, j),
    decreases i,
{
    if exists|j: int| 0 <= j < i && #[trigger] queue[j].0 == id {
        let j = choose|j: int| 0 <= j < i && #[trigger] queue[j].0 == id;
        lemma_earliest_up_to(queue, id, j);
    } else {
        assert(is_first_claim(queue, id, i));
    }
}

/// Takes the earliest claim of `id` out of a queue.
fn take_claim(queue: &mut Vec<(u32, SocketAddress)>, id: u32) -> (claimed: Option<SocketAddress>)
    ensures
        match first_claim(old(queue)@, id) {
            Some(i) => claimed == Some(old(queue)@[i].1) && final(queue)@ == old(queue)@.remove(i),
            None => claimed is None && final(queue)@ == old(queue)@,
        },
{
    let mut i: usize = 0;
    while i < queue.len()
        invariant
            i <= queue@.len(),
            queue@ == old(queue)@,
            forall|j: int| 0 <= j < i ==> #[trigger] queue@[j].0 != id,
        decreases queue@.len() - i,
    {
        if queue[i].0 == id {
            proof {
                first_claim_is_unique(queue@, id, i as int);
            }
            let claim: (u32, SocketAddress) = queue.remove(i);
            return Some(claim.1);
        }
        i = i + 1;
    }
    None
}

// ---------------------------------------------------------------------------
// Setting up a relay

/// What happened to a connection that is setting up its relay.
pub enum ConnEvent<N, U> {
    /// Something happened to its login.
    Login(LoginEvent),
    /// It was sent its question; this is what wakes it.
    QuestionSent(N),
    /// It was woken.
    Claimed,
    /// Something happened to the connection to its server.
    Upstream(UpstreamEvent<U>),
    /// It was told that its relay is set up.
    Confirmed,
    /// It could not be sent its question or its confirmation.
    WriteFailed(std::io::Error),
}

/// What a connection that is setting up its relay needs next.
pub enum ConnAction {
    /// Read at least one and at most this many bytes from the client.
    Read(usize),
    /// Send the client these bytes, its question.
    Ask(Vec<u8>),
    /// Wait to be woken for the question with this number.
    AwaitClaim(u32),
    /// Take the connection to the server further.
    Upstream(UpstreamAction),
    /// Send the client these bytes, its confirmation.
    Confirm(Vec<u8>),
    /// The relay is set up, or the client is refused.
    Finish(Result<(), RelayError>),
}

/// The mathematical reading of [`ConnAction`].
pub enum ConnActionView {
    Read(nat),
    Ask(Seq<u8>),
    AwaitClaim(u32),
    Upstream(UpstreamActionView),
    Confirm(Seq<u8>),
    Finish(Result<(), RelayError>),
}

impl View for ConnAction {
    type V = ConnActionView;

    open spec fn view(&self) -> ConnActionView {
        match self {
            ConnAction::Read(n) => ConnActionView::Read(*n as nat),
            ConnAction::Ask(frame) => ConnActionView::Ask(frame@),
            ConnAction::AwaitClaim(id) => ConnActionView::AwaitClaim(*id),
            ConnAction::Upstream(action) => ConnActionView::Upstream(action@),
            ConnAction::Confirm(frame) => ConnActionView::Confirm(frame@),
            ConnAction::Finish(result) => ConnActionView::Finish(*result),
        }
    }
}

/// Whether `event` can come next for a client: whether it answers what the client's connection
/// asked for last.
pub open spec fn expects<N, D, U>(
    client: ClientState<D, U>,
    event: ConnEvent<N, U>,
) -> bool {
    match event {
        ConnEvent::Login(e) => {
            &&& client.stage == Stage::Login
            &&& crate::relay_client::login_expects(client, e)
            &&& e is Start ==> !client.logging_in
        },
        ConnEvent::QuestionSent(_) => client.stage == Stage::Asking,
        ConnEvent::Claimed => client.stage == Stage::AwaitingClaim && client.relay_target is Some,
        ConnEvent::Upstream(UpstreamEvent::Start) => false,
        ConnEvent::Upstream(UpstreamEvent::Connected) => client.stage == Stage::Connecting,
        ConnEvent::Upstream(UpstreamEvent::Bound) => client.stage == Stage::Binding,
        ConnEvent::Upstream(UpstreamEvent::Greeted(_)) => client.stage == Stage::Greeting,
        ConnEvent::Upstream(UpstreamEvent::Failed(_)) => {
            ||| client.stage == Stage::Connecting
            ||| client.stage == Stage::Binding
            ||| client.stage == Stage::Greeting
        },
        ConnEvent::Confirmed => client.stage == Stage::Confirming,
        ConnEvent::WriteFailed(_) => client.stage == Stage::Asking || client.stage
            == Stage::Confirming,
    }
}

/// A client that is refused with `error`.
pub open spec fn refuse<N, D, U>(
    server: ServerState<N, D, U>,
    client: ClientState<D, U>,
    error: RelayError,
) -> (ServerState<N, D, U>, ClientState<D, U>, ConnActionView) {
    (
        server,
        ClientState { stage: Stage::Refused, ..client },
        ConnActionView::Finish(Err(error)),
    )
}

/// What becomes of a client whose login ended with `login`: one that failed is refused, one that
/// names a server that is not listed is refused, and every other client is asked the question
/// with number `id`.
pub open spec fn judge_step<N, D, U>(
    server: ServerState<N, D, U>,
    client: ClientState<D, U>,
    login: Result<SocketAddress, RelayError>,
    id: u32,
) -> (ServerState<N, D, U>, ClientState<D, U>, ConnActionView) {
    match login {
        Err(error) => refuse(server, client, error),
        Ok(host) => if server.servers.contains(host) {
            (
                server,
                ClientState {
                    relay_target: Some(host),
                    udp_id: id,
                    stage: Stage::Asking,
                    ..client
                },
                ConnActionView::Ask(crate::wire::udp_question(id)),
            )
        } else {
            refuse(server, client, RelayError::DisallowedHost)
        },
    }
}

/// How a relay is set up. A login names a server; one that is not listed is refused. The client
/// is asked the question with number `id` and waits for its claim, whose sender becomes its UDP
/// address. Then the connection to the server is set up, and the client is told so. Any failure
/// on the way refuses the client.
pub open spec fn conn_step<N, D, U>(
    server: ServerState<N, D, U>,
    client: ClientState<D, U>,
    event: ConnEvent<N, U>,
    id: u32,
) -> (ServerState<N, D, U>, ClientState<D, U>, ConnActionView) {
    match event {
        ConnEvent::Login(e) => {
            let (next, action) = crate::relay_client::login_step(client, e);
            match action {
                LoginActionView::Read(n) => (server, next, ConnActionView::Read(n)),
                LoginActionView::Done(login) => judge_step(server, next, login, id),
            }
        },
        ConnEvent::QuestionSent(waker) => (
            ServerState {
                udp_awaiters: server.udp_awaiters.insert(client.udp_id, waker),
                ..server
            },
            ClientState { stage: Stage::AwaitingClaim, ..client },
            ConnActionView::AwaitClaim(client.udp_id),
        ),
        ConnEvent::Claimed => match first_claim(server.udp_accepted_queue, client.udp_id) {
            Some(i) => (
                ServerState {
                    udp_accepted_queue: server.udp_accepted_queue.remove(i),
                    ..server
                },
                ClientState {
                    peer_udp_address: Some(server.udp_accepted_queue[i].1),
                    stage: Stage::Connecting,
                    ..client
                },
                ConnActionView::Upstream(UpstreamActionView::Connect(client.relay_target->Some_0)),
            ),
            None => refuse(server, client, RelayError::InternalError),
        },
        ConnEvent::Upstream(e) => {
            let (next, action) = crate::relay_client::upstream_step(client, e);
            match action {
                UpstreamActionView::Done(Err(error)) => refuse(server, next, error),
                UpstreamActionView::Done(Ok(())) => (
                    server,
                    ClientState { stage: Stage::Confirming, ..next },
                    ConnActionView::Confirm(crate::wire::relay_established()),
                ),
                UpstreamActionView::Connect(_) => (
                    server,
                    ClientState { stage: Stage::Connecting, ..next },
                    ConnActionView::Upstream(action),
                ),
                UpstreamActionView::Bind(_) => (
                    server,
                    ClientState { stage: Stage::Binding, ..next },
                    ConnActionView::Upstream(action),
                ),
                UpstreamActionView::Write(_) => (
                    server,
                    ClientState { stage: Stage::Greeting, ..next },
                    ConnActionView::Upstream(action),
                ),
            }
        },
        ConnEvent::Confirmed => (
            server,
            ClientState { stage: Stage::Relaying, ..client },
            ConnActionView::Finish(Ok(())),
        ),
        ConnEvent::WriteFailed(e) => refuse(server, client, RelayError::Socket(e)),
    }
}

/// Whether `event` can come next for `client`.
pub fn is_expected<N, D, U>(client: &RelayClient<D, U>, event: &ConnEvent<N, U>) -> (expected: bool)
    ensures
        expected == expects(client@, *event),
{
    let stage: Stage = client.get_stage();
    match event {
        ConnEvent::Login(e) => {
            if stage != Stage::Login || !client.expects_login(e) {
                return false;
            }
            match e {
                LoginEvent::Start => !client.is_logging_in(),
                _ => true,
            }
        },
        ConnEvent::QuestionSent(_) => stage == Stage::Asking,
        ConnEvent::Claimed => stage == Stage::AwaitingClaim && client.get_relay_target().is_some(),
        ConnEvent::Upstream(e) => match e {
            UpstreamEvent::Start => false,
            UpstreamEvent::Connected => stage == Stage::Connecting,
            UpstreamEvent::Bound => stage == Stage::Binding,
            UpstreamEvent::Greeted(_) => stage == Stage::Greeting,
            UpstreamEvent::Failed(_) => stage == Stage::Connecting || stage == Stage::Binding
                || stage == Stage::Greeting,
        },
        ConnEvent::Confirmed => stage == Stage::Confirming,
        ConnEvent::WriteFailed(_) => stage == Stage::Asking || stage == Stage::Confirming,
    }
}

// ---------------------------------------------------------------------------
// Connections and clients

/// What happened to the connections of the relay.
pub enum ServerEvent<D, U> {
    /// A connection was accepted from this address.
    Accepted(D, SocketAddress),
    /// A connection could not be accepted.
    AcceptFailed,
    /// The relay of this client was set up in time.
    LoggedIn(Arc<RelayClient<D, U>>),
    /// A client was refused.
    LoginRefused(RelayError),
    /// A connection took too long to set up its relay.
    LoginTimedOut,
    /// The traffic of this client ended.
    ClientEnded(Arc<RelayClient<D, U>>),
}

/// What is done next with a connection.
pub enum ServerAction<D, U> {
    /// Set up a relay for this client, in at most this many seconds.
    SetUp(RelayClient<D, U>, u64),
    /// Pass on the traffic of the client until it ends.
    Relay,
    /// Tell the client this, in at most so many seconds, and close the connection.
    Refuse(String, u64),
    /// Close the connection, if there is one.
    Close,
}

/// How the state of the relay changes with an event: a client whose relay is set up becomes the
/// one whose datagrams come from its UDP address, and a client whose traffic ended leaves that
/// address to nobody.
pub open spec fn server_step<N, D, U>(
    server: ServerState<N, D, U>,
    event: ServerEvent<D, U>,
) -> ServerState<N, D, U> {
    match event {
        ServerEvent::LoggedIn(client) => ServerState {
            clients: server.clients.insert(client@.peer_udp_address->Some_0, client),
            ..server
        },
        ServerEvent::ClientEnded(client) => ServerState {
            clients: server.clients.remove(client@.peer_udp_address->Some_0),
            ..server
        },
        _ => server,
    }
}

/// Whether `action` is what is done after an event: an accepted connection sets up its relay in
/// at most 45 seconds, a client whose relay is set up is relayed, a refused client is told why in
/// at most 10 seconds, and every other connection is closed without a word.
pub open spec fn server_does<D, U>(event: ServerEvent<D, U>, action: ServerAction<D, U>) -> bool {
    match event {
        ServerEvent::Accepted(sockets, peer) => {
            &&& action matches ServerAction::SetUp(client, limit)
            &&& client@ == ClientState::<D, U>::fresh(sockets, peer)
            &&& limit == LOGIN_LIMIT_SECS
        },
        ServerEvent::LoggedIn(_) => action is Relay,
        ServerEvent::LoginRefused(error) => {
            &&& action matches ServerAction::Refuse(message, limit)
            &&& error.worded_as(message@)
            &&& limit == REFUSAL_LIMIT_SECS
        },
        ServerEvent::AcceptFailed => action is Close,
        ServerEvent::LoginTimedOut => action is Close,
        ServerEvent::ClientEnded(_) => action is Close,
    }
}

// ---------------------------------------------------------------------------
// Datagrams from clients

/// What happened on the relay's own UDP socket.
pub enum UdpEvent<'a> {
    /// This datagram arrived from this address.
    Received(&'a [u8], SocketAddress),
    /// Receiving failed.
    Failed(std::io::Error),
    /// A datagram was passed on, or could not be.
    Relayed(Result<(), RelayError>),
}

/// What is done next on the relay's own UDP socket.
pub enum UdpAction {
    /// Wake the connection that was asked the question with this number, and receive the next
    /// datagram.
    Wake(u32),
    /// Pass the datagram on to the server of the client at this address.
    Relay(SocketAddress),
    /// Receive the next datagram.
    Receive,
    /// Stop.
    Stop(std::io::Error),
}

/// What becomes of a datagram from `peer`: a claim of a number that somebody was asked is queued
/// and wakes who was asked; every other datagram is passed on if it comes from a client, and
/// dropped if it does not.
pub open spec fn datagram_step<N, D, U>(
    server: ServerState<N, D, U>,
    datagram: Seq<u8>,
    peer: SocketAddress,
) -> (ServerState<N, D, U>, UdpAction) {
    let claimed = crate::wire::claimed_id(datagram);
    if claimed is Some && server.udp_awaiters.contains_key(claimed->Some_0) {
        let id = claimed->Some_0;
        (
            ServerState {
                udp_accepted_queue: server.udp_accepted_queue.push((id, peer)),
                ..server
            },
            UdpAction::Wake(id),
        )
    } else if server.clients.contains_key(peer) {
        (server, UdpAction::Relay(peer))
    } else {
        (server, UdpAction::Receive)
    }
}

/// What is done after an event on the relay's own UDP socket. Only a failure to receive stops
/// it; a datagram that could not be passed on does not.
pub open spec fn udp_step<N, D, U>(server: ServerState<N, D, U>, event: UdpEvent) -> (
    ServerState<N, D, U>,
    UdpAction,
) {
    match event {
        UdpEvent::Received(datagram, peer) => datagram_step(server, datagram@, peer),
        UdpEvent::Failed(e) => (server, UdpAction::Stop(e)),
        UdpEvent::Relayed(_) => (server, UdpAction::Receive),
    }
}

impl<N, D, U> RelayServer<N, D, U> {
    /// A relay that leads to `servers`, with no clients.
    pub fn new(servers: Vec<SocketAddress>) -> (server: Self)
        ensures
            server@ == new_relay::<N, D, U>(servers@),
    {
        RelayServer {
            servers,
            clients: AddressTable::new(),
            udp_awaiters: HashMap::new(),
            udp_accepted_queue: Vec::new(),
        }
    }

    /// The client whose datagrams come from `peer`.
    pub fn client(&self, peer: &SocketAddress) -> (client: Option<&Arc<RelayClient<D, U>>>)
        ensures
            match client {
                Some(c) => self@.clients.contains_key(*peer) && *c == self@.clients[*peer],
                None => !self@.clients.contains_key(*peer),
            },
    {
        self.clients.get(peer)
    }

    /// What wakes the connection that was asked the question with number `id`.
    pub fn awaiter(&self, id: u32) -> (waker: Option<&N>)
        ensures
            match waker {
                Some(w) => self@.udp_awaiters.contains_key(id) && *w == self@.udp_awaiters[id],
                None => !self@.udp_awaiters.contains_key(id),
            },
    {
        self.udp_awaiters.get(&id)
    }

    /// Takes the connections of the relay one event further.
    pub fn run(&mut self, event: ServerEvent<D, U>) -> (action: ServerAction<D, U>)
        requires
            event matches ServerEvent::LoggedIn(client) ==> client@.relay_target is Some
                && client@.peer_udp_address is Some,
            event matches ServerEvent::ClientEnded(client) ==> client@.peer_udp_address is Some,
        ensures
            final(self)@ == server_step(old(self)@, event),
            server_does(event, action),
            event is LoggedIn <==> action is Relay,
    {
        match event {
            ServerEvent::Accepted(sockets, peer) => ServerAction::SetUp(
                RelayClient::new(sockets, peer),
                LOGIN_LIMIT_SECS,
            ),
            ServerEvent::AcceptFailed => ServerAction::Close,
            ServerEvent::LoggedIn(client) => {
                let udp_peer: SocketAddress = *client.get_udp_peer().unwrap();
                self.clients.insert(udp_peer, client);
                ServerAction::Relay
            },
            ServerEvent::LoginRefused(error) => ServerAction::Refuse(
                error.to_string(),
                REFUSAL_LIMIT_SECS,
            ),
            ServerEvent::LoginTimedOut => ServerAction::Close,
            ServerEvent::ClientEnded(client) => {
                self.clients.remove(client.get_udp_peer().unwrap());
                ServerAction::Close
            },
        }
    }

    /// Takes the relay's own UDP socket one event further.
    pub fn run_udp_loop(&mut self, event: UdpEvent) -> (action: UdpAction)
        ensures
            (final(self)@, action) == udp_step(old(self)@, event),
            final(self)@.clients == old(self)@.clients,
    {
        match event {
            UdpEvent::Received(datagram, peer) => {
                if let Some(id) = read_claim(datagram) {
                    if self.udp_awaiters.contains_key(&id) {
                        self.udp_accepted_queue.push((id, peer));
                        return UdpAction::Wake(id);
                    }
                }
                match self.clients.get(&peer) {
                    Some(_) => UdpAction::Relay(peer),
                    None => UdpAction::Receive,
                }
            },
            UdpEvent::Failed(e) => UdpAction::Stop(e),
            UdpEvent::Relayed(_) => UdpAction::Receive,
        }
    }

    /// Admits or refuses a client whose login ended with `login`. The number of the question is
    /// drawn at random; it is the one that the client is then known to be asked.
    pub fn judge_login(
        &self,
        client: &mut RelayClient<D, U>,
        login: Result<SocketAddress, RelayError>,
    ) -> (action: ConnAction)
        ensures
            (self@, final(client)@, action@) == judge_step(
                self@,
                old(client)@,
                login,
                final(client)@.udp_id,
            ),
            action is Ask ==> final(client)@.udp_id != 0,
    {
        match login {
            Err(error) => {
                client.set_stage(Stage::Refused);
                ConnAction::Finish(Err(error))
            },
            Ok(host) => {
                if !is_listed(&self.servers, &host) {
                    client.set_stage(Stage::Refused);
                    return ConnAction::Finish(Err(RelayError::DisallowedHost));
                }
                client.set_relay_target(Some(host));
                let question: UdpQuestion = client.send_udp_question();
                client.set_stage(Stage::Asking);
                ConnAction::Ask(question.frame)
            },
        }
    }

    /// Takes a connection that is setting up its relay one event further. The number of the
    /// question is drawn at random; it is the one that the client is then known to be asked.
    pub fn handle_new_conn(
        &mut self,
        client: &mut RelayClient<D, U>,
        event: ConnEvent<N, U>,
    ) -> (action: ConnAction)
        requires
            expects(old(client)@, event),
        ensures
            (final(self)@, final(client)@, action@) == conn_step(
                old(self)@,
                old(client)@,
                event,
                final(client)@.udp_id,
            ),
            action is Ask ==> final(client)@.udp_id != 0,
            event matches ConnEvent::Login(LoginEvent::Received(_))
                && crate::wire::login_progress(final(client)@.received) is Host
                ==> crate::wire::host_is_decoded(final(client)@.received),
    {
        match event {
            ConnEvent::Login(e) => match client.wait_for_relay_login(e) {
                LoginAction::Read(n) => ConnAction::Read(n),
                LoginAction::Done(login) => self.judge_login(client, login),
            },
            ConnEvent::QuestionSent(waker) => {
                let id: u32 = client.get_udp_id();
                self.udp_awaiters.insert(id, waker);
                client.set_stage(Stage::AwaitingClaim);
                ConnAction::AwaitClaim(id)
            },
            ConnEvent::Claimed => {
                match take_claim(&mut self.udp_accepted_queue, client.get_udp_id()) {
                    Some(udp_peer) => {
                        client.set_udp_peer(Some(udp_peer));
                        let action: UpstreamAction = client.establish_upstream_connection(
                            UpstreamEvent::Start,
                        );
                        client.set_stage(Stage::Connecting);
                        ConnAction::Upstream(action)
                    },
                    None => {
                        client.set_stage(Stage::Refused);
                        ConnAction::Finish(Err(RelayError::InternalError))
                    },
                }
            },
            ConnEvent::Upstream(e) => match client.establish_upstream_connection(e) {
                UpstreamAction::Done(Err(error)) => {
                    client.set_stage(Stage::Refused);
                    ConnAction::Finish(Err(error))
                },
                UpstreamAction::Done(Ok(())) => {
                    client.set_stage(Stage::Confirming);
                    ConnAction::Confirm(client.send_relay_established())
                },
                UpstreamAction::Connect(to) => {
                    client.set_stage(Stage::Connecting);
                    ConnAction::Upstream(UpstreamAction::Connect(to))
                },
                UpstreamAction::Bind(on) => {
                    client.set_stage(Stage::Binding);
                    ConnAction::Upstream(UpstreamAction::Bind(on))
                },
                UpstreamAction::Write(bytes) => {
                    client.set_stage(Stage::Greeting);
                    ConnAction::Upstream(UpstreamAction::Write(bytes))
                },
            },
            ConnEvent::Confirmed => {
                client.set_stage(Stage::Relaying);
                ConnAction::Finish(Ok(()))
            },
            ConnEvent::WriteFailed(e) => {
                client.set_stage(Stage::Refused);
                ConnAction::Finish(Err(RelayError::from(e)))
            },
        }
    }
}

} // verus!
