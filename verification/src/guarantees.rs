//! What holds of setting up a relay, and of the connection that it makes, over any course of
//! events.
use vstd::prelude::*;

use crate::address::SocketAddress;
use crate::relay_client::{
    ClientState, LoginActionView, LoginEvent, Stage, UpstreamAction, UpstreamActionView,
    UpstreamEvent,
};
use crate::relay_error::RelayError;
use crate::relay_server::{
    ConnAction, ConnActionView, ConnEvent, ServerEvent, ServerState, UdpAction, UdpEvent,
};
use crate::relay_traffic::{ClientEvent, TcpEvent};
use crate::wire::LoginProgressView;

verus! {

// ---------------------------------------------------------------------------
// Setting up a relay

/// What has been made sure of a client by the time it has come as far as it has: past its login,
/// that the login was complete, that its server is the one that the login named and is a listed
/// one, and that it was asked a question; past its claim, that its UDP address is known; and past
/// the connection to its server, that the sockets are there. Its marker is always the first byte
/// that it sent, and no more was read of its connection than its login.
pub open spec fn vetted<D, U>(servers: Seq<SocketAddress>, client: ClientState<D, U>) -> bool {
    &&& client.received.len() > 0 ==> client.initial_conn_marker == client.received[0]
    &&& crate::wire::login_progress(client.received) is Host ==> client.received.len()
        == crate::wire::login_len(client.received)
    &&& client.stage == Stage::Login && !client.logging_in ==> client.received.len() == 0
    &&& client.stage != Stage::Login && client.stage != Stage::Refused ==> {
        &&& crate::wire::login_progress(client.received) is Host
        &&& client.relay_target matches Some(target) && servers.contains(target)
        &&& client.relay_target == crate::address::parsed_address(
            crate::wire::host_text(client.received),
        )
        &&& client.udp_id != 0
    }
    &&& (client.stage == Stage::Connecting || client.stage == Stage::Binding || client.stage
        == Stage::Greeting || client.stage == Stage::Confirming || client.stage
        == Stage::Relaying) ==> client.peer_udp_address is Some
    &&& (client.stage == Stage::Confirming || client.stage == Stage::Relaying)
        ==> client.upstream is Some
}

/// Every step of setting up a relay keeps what has been made sure of the client.
pub proof fn every_step_keeps_clients_vetted<N, D, U>(
    server: ServerState<N, D, U>,
    client: ClientState<D, U>,
    event: ConnEvent<N, U>,
    id: u32,
)
    requires
        vetted(server.servers, client),
        crate::relay_server::expects(client, event),
        id != 0,
    ensures
        vetted(
            server.servers,
            crate::relay_server::conn_step(server, client, event, id).1,
        ),
{
    if let ConnEvent::Login(LoginEvent::Received(bytes)) = event {
        let received = client.received + bytes@;
        if client.received.len() >= 9 {
            assert(received.subrange(5, 9) =~= client.received.subrange(5, 9));
        }
    }
}

/// One step of setting up a relay: the state that the relay was in, what happened, and the
/// number that a question asked at that step would have.
pub struct ConnStep<N, D, U> {
    pub server: ServerState<N, D, U>,
    pub event: ConnEvent<N, U>,
    pub id: u32,
}

/// What is known of a client after a course of steps.
pub open spec fn after_steps<N, D, U>(
    client: ClientState<D, U>,
    steps: Seq<ConnStep<N, D, U>>,
) -> ClientState<D, U>
    decreases steps.len(),
{
    if steps.len() == 0 {
        client
    } else {
        let last = steps.last();
        crate::relay_server::conn_step(
            last.server,
            after_steps(client, steps.drop_last()),
            last.event,
            last.id,
        ).1
    }
}

/// Whether a course of steps can happen to a client of a relay that leads to `servers`: each
/// event answers what was asked for before it. Between two steps, other connections may have
/// changed the relay in any way.
pub open spec fn possible_course<N, D, U>(
    servers: Seq<SocketAddress>,
    client: ClientState<D, U>,
    steps: Seq<ConnStep<N, D, U>>,
) -> bool
    decreases steps.len(),
{
    steps.len() > 0 ==> {
        &&& possible_course(servers, client, steps.drop_last())
        &&& steps.last().server.servers == servers
        &&& steps.last().id != 0
        &&& crate::relay_server::expects(
            after_steps(client, steps.drop_last()),
            steps.last().event,
        )
    }
}

/// Whatever happens to a new connection, and whatever other connections do meanwhile, it never
/// gets further than it has earned: a client that is led to a server named a listed one in a
/// complete login, and one that is relayed has claimed its UDP address as well.
pub proof fn no_client_gets_further_than_it_earned<N, D, U>(
    servers: Seq<SocketAddress>,
    sockets: D,
    peer: SocketAddress,
    steps: Seq<ConnStep<N, D, U>>,
)
    requires
        possible_course(servers, ClientState::<D, U>::fresh(sockets, peer), steps),
    ensures
        vetted(servers, after_steps(ClientState::<D, U>::fresh(sockets, peer), steps)),
        after_steps(ClientState::<D, U>::fresh(sockets, peer), steps).stage == Stage::Relaying
            ==> after_steps(ClientState::<D, U>::fresh(sockets, peer), steps).linked(),
    decreases steps.len(),
{
    if steps.len() > 0 {
        let start = ClientState::<D, U>::fresh(sockets, peer);
        no_client_gets_further_than_it_earned(servers, sockets, peer, steps.drop_last());
        every_step_keeps_clients_vetted(
            steps.last().server,
            after_steps(start, steps.drop_last()),
            steps.last().event,
            steps.last().id,
        );
    }
}

/// The relay connects to listed servers only.
pub proof fn only_listed_servers_are_connected_to<N, D, U>(
    server: ServerState<N, D, U>,
    client: ClientState<D, U>,
    event: ConnEvent<N, U>,
    id: u32,
)
    requires
        vetted(server.servers, client),
        crate::relay_server::expects(client, event),
    ensures
        crate::relay_server::conn_step(server, client, event, id).2 matches ConnActionView::Upstream(
            UpstreamActionView::Connect(to),
        ) ==> server.servers.contains(to) && client.relay_target == Some(to),
{
}

/// The server gets to see the first byte of the client's connection: what the relay writes to it
/// before any traffic is that byte and nothing else.
pub proof fn server_sees_the_marker<N, D, U>(
    server: ServerState<N, D, U>,
    client: ClientState<D, U>,
    event: ConnEvent<N, U>,
    id: u32,
)
    requires
        vetted(server.servers, client),
        crate::relay_server::expects(client, event),
    ensures
        crate::relay_server::conn_step(server, client, event, id).2 matches ConnActionView::Upstream(
            UpstreamActionView::Write(bytes),
        ) ==> client.received.len() > 0 && bytes == seq![client.received[0]],
{
}

/// A relay is reported as set up only to a client that everything is known of.
pub proof fn success_means_linked<N, D, U>(
    server: ServerState<N, D, U>,
    client: ClientState<D, U>,
    event: ConnEvent<N, U>,
    id: u32,
)
    requires
        vetted(server.servers, client),
        crate::relay_server::expects(client, event),
    ensures
        crate::relay_server::conn_step(server, client, event, id).2 == ConnActionView::Finish(
            Ok(()),
        ) ==> crate::relay_server::conn_step(server, client, event, id).1.linked()
            && server.servers.contains(client.relay_target->Some_0),
{
}

/// A login that names a server that is not listed is refused, whatever else holds, and leaves the
/// relay as it was.
pub proof fn unlisted_servers_are_refused<N, D, U>(
    server: ServerState<N, D, U>,
    client: ClientState<D, U>,
    event: LoginEvent,
    id: u32,
)
    requires
        crate::relay_client::login_step(client, event).1 matches LoginActionView::Done(Ok(host))
            && !server.servers.contains(host),
    ensures
        crate::relay_server::conn_step(server, client, ConnEvent::<N, U>::Login(event), id) == (
            server,
            ClientState {
                stage: Stage::Refused,
                ..crate::relay_client::login_step(client, event).0
            },
            ConnActionView::Finish(Err(RelayError::DisallowedHost)),
        ),
{
}

/// A complete login whose host is no address is refused, and leaves the relay as it was.
pub proof fn hosts_that_are_no_address_are_refused<N, D, U>(
    server: ServerState<N, D, U>,
    client: ClientState<D, U>,
    bytes: Vec<u8>,
    id: u32,
)
    requires
        crate::wire::login_progress(client.received + bytes@) is Host,
        crate::address::parsed_address(crate::wire::host_text(client.received + bytes@)) is None,
    ensures
        ({
            let (after, next, action) = crate::relay_server::conn_step(
                server,
                client,
                ConnEvent::<N, U>::Login(LoginEvent::Received(bytes)),
                id,
            );
            &&& after == server
            &&& next.stage == Stage::Refused
            &&& action == ConnActionView::Finish(Err(RelayError::InvalidHost))
        }),
{
}

/// A connection that was refused or is relayed expects nothing more: setting up a relay ends
/// exactly once. Until then there is always something left to be done.
pub proof fn setting_up_ends_once<N, D, U>(
    server: ServerState<N, D, U>,
    client: ClientState<D, U>,
    event: ConnEvent<N, U>,
    id: u32,
    later: ConnEvent<N, U>,
)
    requires
        crate::relay_server::expects(client, event),
    ensures
        ({
            let (_, next, action) = crate::relay_server::conn_step(server, client, event, id);
            &&& action is Finish <==> (next.stage == Stage::Refused || next.stage
                == Stage::Relaying)
            &&& action is Finish ==> !crate::relay_server::expects(next, later)
            &&& action matches ConnActionView::Upstream(step) ==> !(step is Done)
        }),
{
}

/// While its relay is set up, a client keeps the sockets and the address that it came with and
/// every byte of its login; and its marker, once it has arrived, stays as it is.
pub proof fn client_keeps_what_it_came_with<N, D, U>(
    server: ServerState<N, D, U>,
    client: ClientState<D, U>,
    event: ConnEvent<N, U>,
    id: u32,
)
    requires
        vetted(server.servers, client),
        crate::relay_server::expects(client, event),
    ensures
        ({
            let next = crate::relay_server::conn_step(server, client, event, id).1;
            &&& next.downstream == client.downstream
            &&& next.peer_address == client.peer_address
            &&& client.received.is_prefix_of(next.received)
            &&& client.received.len() > 0 ==> next.initial_conn_marker
                == client.initial_conn_marker
        }),
{
}

// ---------------------------------------------------------------------------
// What each event of setting up a relay does

/// A login that ended without an address, or with one that is not listed, gets the client refused,
/// with the login's own error or because the host is not allowed; one that ended with a listed
/// address gets it asked the question with the number that was drawn, and makes that address its
/// server. The relay itself is left as it is, and so is everything else of the client.
pub proof fn logins_are_judged_by_the_list<N, D, U>(
    server: ServerState<N, D, U>,
    client: ClientState<D, U>,
    login: Result<SocketAddress, RelayError>,
    id: u32,
)
    ensures
        ({
            let (after, next, action) = crate::relay_server::judge_step(server, client, login, id);
            let listed = login matches Ok(host) && server.servers.contains(host);
            &&& after == server
            &&& action is Ask <==> listed
            &&& listed ==> {
                &&& action == ConnActionView::Ask(crate::wire::udp_question(id))
                &&& next.relay_target == Some(login->Ok_0)
                &&& next.udp_id == id
                &&& next.stage == Stage::Asking
            }
            &&& !listed ==> {
                &&& action == ConnActionView::Finish(
                    Err(
                        match login {
                            Err(error) => error,
                            Ok(_) => RelayError::DisallowedHost,
                        },
                    ),
                )
                &&& next.relay_target == client.relay_target
                &&& next.udp_id == client.udp_id
                &&& next.stage == Stage::Refused
            }
            &&& client == (ClientState {
                relay_target: client.relay_target,
                udp_id: client.udp_id,
                stage: client.stage,
                ..next
            })
        }),
{
}

/// Bytes that arrive while a login is read leave the relay as it is. As long as bytes are missing,
/// they are asked for and nothing else of the client changes than the bytes it has sent and its
/// marker. A login that is refused gets the client refused with that error; a complete one gets it
/// asked its question if its host is the address of a listed server, and refused if it is not.
pub proof fn login_bytes_lead_to_the_question_or_a_refusal<N, D, U>(
    server: ServerState<N, D, U>,
    client: ClientState<D, U>,
    bytes: Vec<u8>,
    id: u32,
)
    ensures
        ({
            let received = client.received + bytes@;
            let (after, next, action) = crate::relay_server::conn_step(
                server,
                client,
                ConnEvent::<N, U>::Login(LoginEvent::Received(bytes)),
                id,
            );
            let refused = next.stage == Stage::Refused && next.relay_target == client.relay_target
                && next.udp_id == client.udp_id;
            &&& after == server
            &&& next.received == received
            &&& received.len() > 0 ==> next.initial_conn_marker == received[0]
            &&& received.len() == 0 ==> next.initial_conn_marker == client.initial_conn_marker
            &&& next.logging_in <==> client.logging_in && action is Read
            &&& next.downstream == client.downstream
            &&& next.peer_address == client.peer_address
            &&& next.peer_udp_address == client.peer_udp_address
            &&& next.upstream == client.upstream
            &&& match crate::wire::login_progress(received) {
                LoginProgressView::Read(n) => {
                    &&& action == ConnActionView::Read(n)
                    &&& next.stage == client.stage
                    &&& next.relay_target == client.relay_target
                    &&& next.udp_id == client.udp_id
                },
                LoginProgressView::Refused(e) => action == ConnActionView::Finish(Err(e))
                    && refused,
                LoginProgressView::Host(host) => match crate::address::parsed_address(host) {
                    None => action == ConnActionView::Finish(Err(RelayError::InvalidHost))
                        && refused,
                    Some(address) => if server.servers.contains(address) {
                        &&& action == ConnActionView::Ask(crate::wire::udp_question(id))
                        &&& next.stage == Stage::Asking
                        &&& next.relay_target == Some(address)
                        &&& next.udp_id == id
                    } else {
                        action == ConnActionView::Finish(Err(RelayError::DisallowedHost)) && refused
                    },
                },
            }
        }),
{
}

/// Starting a login asks for the marker, and a failure to read it gets the client refused with
/// that failure; the relay, and all else of the client, stay as they are.
pub proof fn logins_start_and_fail<N, D, U>(
    server: ServerState<N, D, U>,
    client: ClientState<D, U>,
    e: std::io::Error,
    id: u32,
)
    ensures
        crate::relay_server::conn_step(
            server,
            client,
            ConnEvent::<N, U>::Login(LoginEvent::Start),
            id,
        ) == (
            server,
            ClientState { logging_in: true, received: Seq::empty(), ..client },
            ConnActionView::Read(1),
        ),
        crate::relay_server::conn_step(
            server,
            client,
            ConnEvent::<N, U>::Login(LoginEvent::Failed(e)),
            id,
        ) == (
            server,
            ClientState { logging_in: false, stage: Stage::Refused, ..client },
            ConnActionView::Finish(Err(RelayError::Socket(e))),
        ),
{
}

/// A connection that was sent its question awaits the claim of its number, and what wakes it is
/// kept under that number; nobody else's is touched, nor anything else.
pub proof fn question_is_awaited_under_its_number<N, D, U>(
    server: ServerState<N, D, U>,
    client: ClientState<D, U>,
    waker: N,
    other: u32,
    id: u32,
)
    ensures
        ({
            let (after, next, action) = crate::relay_server::conn_step(
                server,
                client,
                ConnEvent::<N, U>::QuestionSent(waker),
                id,
            );
            &&& action == ConnActionView::AwaitClaim(client.udp_id)
            &&& after.udp_awaiters.contains_key(client.udp_id)
            &&& after.udp_awaiters[client.udp_id] == waker
            &&& other != client.udp_id ==> after.udp_awaiters.contains_key(other)
                == server.udp_awaiters.contains_key(other)
            &&& other != client.udp_id && server.udp_awaiters.contains_key(other)
                ==> after.udp_awaiters[other] == server.udp_awaiters[other]
            &&& server == (ServerState { udp_awaiters: server.udp_awaiters, ..after })
            &&& next.stage == Stage::AwaitingClaim
            &&& client == (ClientState { stage: client.stage, ..next })
        }),
{
}

/// A connection that was woken takes the earliest claim of its number out of the queue, whose
/// sender becomes its UDP address, and its server is connected to. Where its number is not queued
/// at all, the client is refused for an internal error. Nothing else changes.
pub proof fn earliest_claim_is_taken_up<N, D, U>(
    server: ServerState<N, D, U>,
    client: ClientState<D, U>,
    target: SocketAddress,
    id: u32,
)
    requires
        client.relay_target == Some(target),
    ensures
        ({
            let queue = server.udp_accepted_queue;
            let (after, next, action) = crate::relay_server::conn_step(
                server,
                client,
                ConnEvent::<N, U>::Claimed,
                id,
            );
            let queued = exists|i: int|
                0 <= i < queue.len() && #[trigger] queue[i].0 == client.udp_id;
            &&& server == (ServerState { udp_accepted_queue: queue, ..after })
            &&& client == (ClientState {
                peer_udp_address: client.peer_udp_address,
                stage: client.stage,
                ..next
            })
            &&& queued ==> {
                &&& action == ConnActionView::Upstream(UpstreamActionView::Connect(target))
                &&& next.stage == Stage::Connecting
                &&& exists|i: int|
                    {
                        &&& 0 <= i < queue.len()
                        &&& #[trigger] queue[i].0 == client.udp_id
                        &&& forall|j: int| 0 <= j < i ==> #[trigger] queue[j].0 != client.udp_id
                        &&& next.peer_udp_address == Some(queue[i].1)
                        &&& after.udp_accepted_queue == queue.remove(i)
                    }
            }
            &&& !queued ==> {
                &&& action == ConnActionView::Finish(Err(RelayError::InternalError))
                &&& next.stage == Stage::Refused
                &&& next.peer_udp_address == client.peer_udp_address
                &&& after == server
            }
        }),
{
    let queue = server.udp_accepted_queue;
    crate::relay_server::queued_claims_are_found(queue, client.udp_id);
    if let Some(i) = crate::relay_server::first_claim(queue, client.udp_id) {
        assert(queue[i].0 == client.udp_id);
    }
}

/// The server is connected to in turn: once its TCP connection is open a UDP socket is opened on
/// 0.0.0.0:0, once that is open the client's marker is sent and nothing else, and once that is
/// sent the client has the sockets and is told so. Nothing else changes, of the relay or of the
/// client.
pub proof fn server_is_reached_in_turn<N, D, U>(
    server: ServerState<N, D, U>,
    client: ClientState<D, U>,
    sockets: U,
    id: u32,
)
    ensures
        crate::relay_server::conn_step(
            server,
            client,
            ConnEvent::<N, U>::Upstream(UpstreamEvent::Connected),
            id,
        ) == (
            server,
            ClientState { stage: Stage::Binding, ..client },
            ConnActionView::Upstream(
                UpstreamActionView::Bind(SocketAddress::V4 { octets: 0, port: 0 }),
            ),
        ),
        crate::relay_server::conn_step(
            server,
            client,
            ConnEvent::<N, U>::Upstream(UpstreamEvent::Bound),
            id,
        ) == (
            server,
            ClientState { stage: Stage::Greeting, ..client },
            ConnActionView::Upstream(UpstreamActionView::Write(seq![client.initial_conn_marker])),
        ),
        crate::relay_server::conn_step(
            server,
            client,
            ConnEvent::<N, U>::Upstream(UpstreamEvent::Greeted(sockets)),
            id,
        ) == (
            server,
            ClientState { stage: Stage::Confirming, upstream: Some(sockets), ..client },
            ConnActionView::Confirm(seq![1u8]),
        ),
{
}

/// A client that was told that its relay is set up is relayed; one that could not be told
/// something, or whose server could not be reached, is refused with that failure. The relay, and
/// all else of the client, stay as they are.
pub proof fn setting_up_ends_with_its_last_word<N, D, U>(
    server: ServerState<N, D, U>,
    client: ClientState<D, U>,
    e: std::io::Error,
    id: u32,
)
    ensures
        crate::relay_server::conn_step(server, client, ConnEvent::<N, U>::Confirmed, id) == (
            server,
            ClientState { stage: Stage::Relaying, ..client },
            ConnActionView::Finish(Ok(())),
        ),
        crate::relay_server::conn_step(server, client, ConnEvent::<N, U>::WriteFailed(e), id) == (
            server,
            ClientState { stage: Stage::Refused, ..client },
            ConnActionView::Finish(Err(RelayError::Socket(e))),
        ),
        crate::relay_server::conn_step(
            server,
            client,
            ConnEvent::<N, U>::Upstream(UpstreamEvent::Failed(e)),
            id,
        ) == (
            server,
            ClientState { stage: Stage::Refused, ..client },
            ConnActionView::Finish(Err(RelayError::Socket(e))),
        ),
{
}

/// A connection expects exactly what can come of what it asked for last: what it is to do, done or
/// failed. After it ended, it expects nothing.
pub proof fn connection_expects_what_it_asked_for<N, D, U>(
    server: ServerState<N, D, U>,
    client: ClientState<D, U>,
    event: ConnEvent<N, U>,
    id: u32,
    later: ConnEvent<N, U>,
)
    requires
        crate::relay_server::expects(client, event),
        event is QuestionSent ==> client.relay_target is Some,
    ensures
        ({
            let (_, next, action) = crate::relay_server::conn_step(server, client, event, id);
            crate::relay_server::expects(next, later) <==> match action {
                ConnActionView::Read(n) => {
                    ||| later matches ConnEvent::Login(LoginEvent::Received(bytes)) && bytes@.len()
                        <= n
                    ||| later matches ConnEvent::Login(LoginEvent::Failed(_))
                },
                ConnActionView::Ask(_) => later is QuestionSent || later is WriteFailed,
                ConnActionView::AwaitClaim(_) => later is Claimed,
                ConnActionView::Upstream(UpstreamActionView::Connect(_)) => {
                    ||| later matches ConnEvent::Upstream(UpstreamEvent::Connected)
                    ||| later matches ConnEvent::Upstream(UpstreamEvent::Failed(_))
                },
                ConnActionView::Upstream(UpstreamActionView::Bind(_)) => {
                    ||| later matches ConnEvent::Upstream(UpstreamEvent::Bound)
                    ||| later matches ConnEvent::Upstream(UpstreamEvent::Failed(_))
                },
                ConnActionView::Upstream(UpstreamActionView::Write(_)) => {
                    ||| later matches ConnEvent::Upstream(UpstreamEvent::Greeted(_))
                    ||| later matches ConnEvent::Upstream(UpstreamEvent::Failed(_))
                },
                ConnActionView::Upstream(UpstreamActionView::Done(_)) => false,
                ConnActionView::Confirm(_) => later is Confirmed || later is WriteFailed,
                ConnActionView::Finish(_) => false,
            }
        }),
{
}

/// A connection whose login was not started, a new one among them, expects the start of its login
/// and nothing else.
pub proof fn login_of_a_connection_is_started_first<N, D, U>(
    client: ClientState<D, U>,
    sockets: D,
    peer: SocketAddress,
    event: ConnEvent<N, U>,
)
    requires
        client.stage == Stage::Login,
        !client.logging_in,
    ensures
        crate::relay_server::expects(client, event) <==> event matches ConnEvent::Login(
            LoginEvent::Start,
        ),
        crate::relay_server::expects(ClientState::<D, U>::fresh(sockets, peer), event)
            <==> event matches ConnEvent::Login(LoginEvent::Start),
{
}

/// What a connection expects depends on how far it has come, and on nothing else than its login
/// while that is read and whether its server is known.
pub proof fn expectations_depend_on_the_stage<N, D, U>(
    one: ClientState<D, U>,
    other: ClientState<D, U>,
    event: ConnEvent<N, U>,
)
    requires
        one.stage == other.stage,
        one.stage == Stage::Login ==> one.received == other.received && one.logging_in
            == other.logging_in,
        one.relay_target is Some <==> other.relay_target is Some,
    ensures
        crate::relay_server::expects(one, event) == crate::relay_server::expects(other, event),
{
}

/// The reading of an action of a connection keeps its kind, its bytes, its number and its result.
pub proof fn connection_actions_read_as_they_stand(
    n: usize,
    bytes: Vec<u8>,
    id: u32,
    upstream: UpstreamAction,
    result: Result<(), RelayError>,
)
    ensures
        ConnAction::Read(n)@ == ConnActionView::Read(n as nat),
        ConnAction::Ask(bytes)@ == ConnActionView::Ask(bytes@),
        ConnAction::AwaitClaim(id)@ == ConnActionView::AwaitClaim(id),
        ConnAction::Upstream(upstream)@ == ConnActionView::Upstream(upstream@),
        ConnAction::Confirm(bytes)@ == ConnActionView::Confirm(bytes@),
        ConnAction::Finish(result)@ == ConnActionView::Finish(result),
{
}

// ---------------------------------------------------------------------------
// The TCP connection from end to end

/// What was to be done after the last of a course of steps.
pub open spec fn last_action<N, D, U>(
    client: ClientState<D, U>,
    steps: Seq<ConnStep<N, D, U>>,
) -> ConnActionView {
    let last = steps.last();
    crate::relay_server::conn_step(
        last.server,
        after_steps(client, steps.drop_last()),
        last.event,
        last.id,
    ).2
}

/// The bytes that were read from a client in a course of steps.
pub open spec fn taken_from_client<N, D, U>(steps: Seq<ConnStep<N, D, U>>) -> Seq<u8>
    decreases steps.len(),
{
    if steps.len() == 0 {
        Seq::empty()
    } else {
        taken_from_client(steps.drop_last()) + match steps.last().event {
            ConnEvent::Login(LoginEvent::Received(bytes)) => bytes@,
            _ => Seq::empty(),
        }
    }
}

/// The bytes that go to the server in a course of steps.
pub open spec fn given_to_server<N, D, U>(
    client: ClientState<D, U>,
    steps: Seq<ConnStep<N, D, U>>,
) -> Seq<u8>
    decreases steps.len(),
{
    if steps.len() == 0 {
        Seq::empty()
    } else {
        given_to_server(client, steps.drop_last()) + match last_action(client, steps) {
            ConnActionView::Upstream(UpstreamActionView::Write(bytes)) => bytes,
            _ => Seq::empty(),
        }
    }
}

/// The bytes that go to the client in a course of steps.
pub open spec fn given_to_client<N, D, U>(
    client: ClientState<D, U>,
    steps: Seq<ConnStep<N, D, U>>,
) -> Seq<u8>
    decreases steps.len(),
{
    if steps.len() == 0 {
        Seq::empty()
    } else {
        given_to_client(client, steps.drop_last()) + match last_action(client, steps) {
            ConnActionView::Ask(frame) => frame,
            ConnActionView::Confirm(frame) => frame,
            _ => Seq::empty(),
        }
    }
}

/// What each end has been given while a relay is set up depends on how far it has come, and on
/// nothing else. All that was read from the client is its login. A client is given nothing before
/// it is asked its question, and nothing after that but its confirmation; its server is given
/// nothing but the client's marker. A client that was refused, and its server, had been given one
/// of these by then: nothing yet, the question only, the question and the marker, or the question,
/// the marker and the confirmation.
pub proof fn ends_are_given_no_more_than_is_due<N, D, U>(
    servers: Seq<SocketAddress>,
    sockets: D,
    peer: SocketAddress,
    steps: Seq<ConnStep<N, D, U>>,
)
    requires
        possible_course(servers, ClientState::<D, U>::fresh(sockets, peer), steps),
    ensures
        ({
            let start = ClientState::<D, U>::fresh(sockets, peer);
            let client = after_steps(start, steps);
            let up = given_to_server(start, steps);
            let down = given_to_client(start, steps);
            let nothing = Seq::<u8>::empty();
            let marker = seq![client.initial_conn_marker];
            let question = crate::wire::udp_question(client.udp_id);
            let confirmed = question + crate::wire::relay_established();
            &&& taken_from_client(steps) == client.received
            &&& match client.stage {
                Stage::Login => up == nothing && down == nothing,
                Stage::Asking => up == nothing && down == question,
                Stage::AwaitingClaim => up == nothing && down == question,
                Stage::Connecting => up == nothing && down == question,
                Stage::Binding => up == nothing && down == question,
                Stage::Greeting => up == marker && down == question,
                Stage::Confirming => up == marker && down == confirmed,
                Stage::Relaying => up == marker && down == confirmed,
                Stage::Refused => {
                    ||| up == nothing && down == nothing
                    ||| up == nothing && down == question
                    ||| up == marker && down == question
                    ||| up == marker && down == confirmed
                },
            }
        }),
    decreases steps.len(),
{
    let start = ClientState::<D, U>::fresh(sockets, peer);
    if steps.len() > 0 {
        let before = steps.drop_last();
        ends_are_given_no_more_than_is_due(servers, sockets, peer, before);
        no_client_gets_further_than_it_earned(servers, sockets, peer, before);
        let client = after_steps(start, steps);
        let up = given_to_server(start, steps);
        let down = given_to_client(start, steps);
        assert(up =~= given_to_server(start, before) || client.stage == Stage::Greeting);
        assert(down =~= given_to_client(start, before) || client.stage == Stage::Asking
            || client.stage == Stage::Confirming);
        if client.stage == Stage::Asking {
            assert(down =~= crate::wire::udp_question(client.udp_id));
        }
        if client.stage == Stage::Greeting {
            assert(up =~= seq![client.initial_conn_marker]);
        }
        assert(taken_from_client(steps) =~= client.received);
    }
}

/// Of a stream, what was read first is its start, and what was read next is the start of its rest.
proof fn lemma_start_and_rest_of_a_stream(first: Seq<u8>, next: Seq<u8>, stream: Seq<u8>)
    requires
        (first + next).is_prefix_of(stream),
    ensures
        first.is_prefix_of(stream),
        next.is_prefix_of(stream.skip(first.len() as int)),
        first.len() > 0 ==> stream[0] == first[0],
{
    let rest = stream.skip(first.len() as int);
    assert forall|i: int| 0 <= i < first.len() implies first[i] == #[trigger] stream[i] by {
        assert((first + next)[i] == stream[i]);
    }
    assert(first =~= stream.take(first.len() as int));
    assert forall|i: int| 0 <= i < next.len() implies next[i] == #[trigger] rest[i] by {
        assert((first + next)[first.len() + i] == stream[first.len() + i]);
    }
    assert(next =~= rest.take(next.len() as int));
}

/// From end to end, a relayed TCP connection is transparent but for its login. Let a client send
/// `from_client` and its server `from_server`, of which any part has been read so far, while the
/// relay was set up and after it. The client's stream starts with a complete login. The server is
/// given the first byte of that stream, and then a part of what follows the login, from its start
/// and unchanged. The client is given its question and its confirmation, and then a part of the
/// server's stream, from its start and unchanged.
#[verifier::spinoff_prover]
pub proof fn connection_is_transparent_but_for_its_login<N, D, U>(
    servers: Seq<SocketAddress>,
    sockets: D,
    peer: SocketAddress,
    steps: Seq<ConnStep<N, D, U>>,
    up: Seq<TcpEvent>,
    down: Seq<TcpEvent>,
    from_client: Seq<u8>,
    from_server: Seq<u8>,
)
    requires
        possible_course(servers, ClientState::<D, U>::fresh(sockets, peer), steps),
        after_steps(ClientState::<D, U>::fresh(sockets, peer), steps).stage == Stage::Relaying,
        (taken_from_client(steps) + crate::relay_traffic::bytes_read(up)).is_prefix_of(from_client),
        crate::relay_traffic::bytes_read(down).is_prefix_of(from_server),
    ensures
        ({
            let start = ClientState::<D, U>::fresh(sockets, peer);
            let id = after_steps(start, steps).udp_id;
            let login = taken_from_client(steps);
            let payload = from_client.skip(login.len() as int);
            let to_server = given_to_server(start, steps) + crate::relay_traffic::bytes_sent_up(up);
            let to_client = given_to_client(start, steps) + crate::relay_traffic::bytes_sent_down(
                down,
            );
            &&& login.is_prefix_of(from_client)
            &&& crate::wire::login_progress(login) is Host
            &&& login.len() == crate::wire::login_len(login)
            &&& to_server.len() >= 1
            &&& to_server[0] == from_client[0]
            &&& to_server.skip(1).is_prefix_of(payload)
            &&& to_server.skip(1) == crate::relay_traffic::bytes_read(up)
            &&& to_client == crate::wire::udp_question(id) + crate::wire::relay_established()
                + crate::relay_traffic::bytes_read(down)
        }),
{
    let start = ClientState::<D, U>::fresh(sockets, peer);
    ends_are_given_no_more_than_is_due(servers, sockets, peer, steps);
    no_client_gets_further_than_it_earned(servers, sockets, peer, steps);
    crate::relay_traffic::tcp_bytes_are_relayed_unchanged(up);
    crate::relay_traffic::tcp_bytes_are_relayed_unchanged(down);
    let read = crate::relay_traffic::bytes_read(up);
    lemma_start_and_rest_of_a_stream(taken_from_client(steps), read, from_client);
    assert((given_to_server(start, steps) + read).skip(1) =~= read);
}

/// From its first byte to its last, and by what is done for the client as a whole, a relayed
/// client and its server see each other's streams. Over any possible course of setting up and then
/// any course of traffic, the server is given the first byte that the client sent, and then all
/// that was read of the client after its login; the client is given its question, a single 01, and
/// then all that was read of its server; and it is sent the datagrams of the server that its login
/// named, at the UDP address that it claimed. All of it is byte for byte and in order.
pub proof fn client_and_server_see_each_other<N, D, U>(
    servers: Seq<SocketAddress>,
    sockets: D,
    from: SocketAddress,
    steps: Seq<ConnStep<N, D, U>>,
    events: Seq<ClientEvent>,
)
    requires
        possible_course(servers, ClientState::<D, U>::fresh(sockets, from), steps),
        after_steps(ClientState::<D, U>::fresh(sockets, from), steps).stage == Stage::Relaying,
    ensures
        ({
            let start = ClientState::<D, U>::fresh(sockets, from);
            let client = after_steps(start, steps);
            let target = client.relay_target->Some_0;
            let peer = client.peer_udp_address->Some_0;
            let login = taken_from_client(steps);
            &&& client.relay_target is Some
            &&& client.peer_udp_address is Some
            &&& crate::address::parsed_address(crate::wire::host_text(login)) == Some(target)
            &&& servers.contains(target)
            &&& login.len() > 0
            &&& given_to_server(start, steps) + crate::relay_traffic::written_to_server(
                target,
                peer,
                events,
            ) == seq![login[0]] + crate::relay_traffic::read_from_client(events)
            &&& given_to_client(start, steps) + crate::relay_traffic::written_to_client(
                target,
                peer,
                events,
            ) == crate::wire::udp_question(client.udp_id) + seq![1u8]
                + crate::relay_traffic::read_from_server(events)
            &&& crate::relay_traffic::datagrams_sent(target, peer, events)
                == crate::relay_traffic::datagrams_of_server(target, events).map_values(
                |datagram: Seq<u8>| (datagram, peer),
            )
        }),
{
    let client = after_steps(ClientState::<D, U>::fresh(sockets, from), steps);
    ends_are_given_no_more_than_is_due(servers, sockets, from, steps);
    no_client_gets_further_than_it_earned(servers, sockets, from, steps);
    crate::relay_traffic::traffic_of_a_client_is_passed_on(
        client.relay_target->Some_0,
        client.peer_udp_address->Some_0,
        events,
    );
}

// ---------------------------------------------------------------------------
// Claims

/// After a connection was sent its question, the answer to that question wakes it, wherever the
/// answer comes from.
pub proof fn answer_wakes_who_was_asked<N, D, U>(
    server: ServerState<N, D, U>,
    client: ClientState<D, U>,
    waker: N,
    id: u32,
    peer: SocketAddress,
)
    ensures
        ({
            let asked = crate::relay_server::conn_step(
                server,
                client,
                ConnEvent::<N, U>::QuestionSent(waker),
                id,
            ).0;
            let answer = crate::wire::udp_claim(client.udp_id);
            &&& asked.udp_awaiters[client.udp_id] == waker
            &&& crate::relay_server::datagram_step(asked, answer, peer).1 == UdpAction::Wake(
                client.udp_id,
            )
        }),
{
    crate::wire::only_the_answer_claims(crate::wire::udp_claim(client.udp_id), client.udp_id);
}

/// The sender of the answer becomes the client's UDP address, provided that no earlier answer to
/// the same question is still queued; and taking the claim up leaves the queue as it was before
/// the answer arrived.
pub proof fn sender_of_the_answer_is_linked<N, D, U>(
    server: ServerState<N, D, U>,
    client: ClientState<D, U>,
    peer: SocketAddress,
    id: u32,
)
    requires
        server.udp_awaiters.contains_key(client.udp_id),
        crate::relay_server::first_claim(server.udp_accepted_queue, client.udp_id) is None,
        client.relay_target is Some,
    ensures
        ({
            let (claimed, _) = crate::relay_server::datagram_step(
                server,
                crate::wire::udp_claim(client.udp_id),
                peer,
            );
            let (after, next, action) = crate::relay_server::conn_step(
                claimed,
                client,
                ConnEvent::<N, U>::Claimed,
                id,
            );
            &&& next.peer_udp_address == Some(peer)
            &&& action == ConnActionView::Upstream(
                UpstreamActionView::Connect(client.relay_target->Some_0),
            )
            &&& after == server
        }),
{
    let queue = server.udp_accepted_queue;
    let longer = queue.push((client.udp_id, peer));
    crate::wire::only_the_answer_claims(crate::wire::udp_claim(client.udp_id), client.udp_id);
    crate::relay_server::queued_claims_are_found(queue, client.udp_id);
    assert forall|j: int| 0 <= j < queue.len() implies #[trigger] longer[j].0 != client.udp_id by {
        assert(longer[j] == queue[j]);
    }
    crate::relay_server::first_claim_is_unique(longer, client.udp_id, queue.len() as int);
    assert(longer.remove(queue.len() as int) =~= queue);
}

/// Who claimed a number first, as long as that claim is queued.
pub open spec fn first_claimant(queue: Seq<(u32, SocketAddress)>, id: u32) -> Option<
    SocketAddress,
> {
    match crate::relay_server::first_claim(queue, id) {
        Some(i) => Some(queue[i].1),
        None => None,
    }
}

/// Taking up the claim of one number leaves the claims of every other number as they are.
pub proof fn claims_are_taken_up_independently(
    queue: Seq<(u32, SocketAddress)>,
    id: u32,
    other: u32,
)
    requires
        crate::relay_server::first_claim(queue, id) is Some,
        other != id,
    ensures
        first_claimant(
            queue.remove(crate::relay_server::first_claim(queue, id)->Some_0),
            other,
        ) == first_claimant(queue, other),
{
    let i = crate::relay_server::first_claim(queue, id)->Some_0;
    let rest = queue.remove(i);
    crate::relay_server::queued_claims_are_found(queue, other);
    crate::relay_server::queued_claims_are_found(rest, other);
    if let Some(k) = crate::relay_server::first_claim(queue, other) {
        let at = if k < i {
            k
        } else {
            k - 1
        };
        assert(rest[at] == queue[k]);
        assert forall|j: int| 0 <= j < at implies #[trigger] rest[j].0 != other by {
            let j0 = if j < i {
                j
            } else {
                j + 1
            };
            assert(rest[j] == queue[j0]);
        }
        crate::relay_server::first_claim_is_unique(rest, other, at);
    } else if let Some(k) = crate::relay_server::first_claim(rest, other) {
        let at = if k < i {
            k
        } else {
            k + 1
        };
        assert(rest[k] == queue[at]);
    }
}

/// A queued claim stays first in line for its number while datagrams arrive.
pub proof fn datagrams_keep_claims<N, D, U>(
    server: ServerState<N, D, U>,
    event: UdpEvent,
    id: u32,
)
    requires
        first_claimant(server.udp_accepted_queue, id) is Some,
    ensures
        first_claimant(
            crate::relay_server::udp_step(server, event).0.udp_accepted_queue,
            id,
        ) == first_claimant(server.udp_accepted_queue, id),
{
    let queue = server.udp_accepted_queue;
    let next = crate::relay_server::udp_step(server, event).0.udp_accepted_queue;
    let i = crate::relay_server::first_claim(queue, id)->Some_0;
    assert(next[i] == queue[i]);
    assert forall|j: int| 0 <= j < i implies #[trigger] next[j].0 != id by {
        assert(next[j] == queue[j]);
    }
    crate::relay_server::first_claim_is_unique(next, id, i);
}

/// A queued claim stays first in line for its number whatever connections with other numbers do.
/// So a connection that was woken finds its claim, unless another one was asked the same number.
pub proof fn connections_keep_claims_of_others<N, D, U>(
    server: ServerState<N, D, U>,
    client: ClientState<D, U>,
    event: ConnEvent<N, U>,
    drawn: u32,
    id: u32,
)
    requires
        client.udp_id != id,
    ensures
        first_claimant(
            crate::relay_server::conn_step(server, client, event, drawn).0.udp_accepted_queue,
            id,
        ) == first_claimant(server.udp_accepted_queue, id),
{
    let queue = server.udp_accepted_queue;
    if event is Claimed && crate::relay_server::first_claim(queue, client.udp_id) is Some {
        claims_are_taken_up_independently(queue, client.udp_id, id);
    }
}

/// A number that was asked once is reserved for good: no event of any kind makes the relay
/// forget it, and the list of servers never changes.
pub proof fn asked_numbers_and_servers_stay<N, D, U>(
    server: ServerState<N, D, U>,
    client: ClientState<D, U>,
    conn: ConnEvent<N, U>,
    drawn: u32,
    udp: UdpEvent,
    run: ServerEvent<D, U>,
)
    ensures
        server.udp_awaiters.dom().subset_of(
            crate::relay_server::conn_step(server, client, conn, drawn).0.udp_awaiters.dom(),
        ),
        crate::relay_server::conn_step(server, client, conn, drawn).0.servers == server.servers,
        crate::relay_server::udp_step(server, udp).0.udp_awaiters == server.udp_awaiters,
        crate::relay_server::udp_step(server, udp).0.servers == server.servers,
        crate::relay_server::server_step(server, run).udp_awaiters == server.udp_awaiters,
        crate::relay_server::server_step(server, run).servers == server.servers,
{
}

/// How a login goes that is sent in its four parts: its marker, the magic number, the length of
/// its host, and its host.
proof fn lemma_login_in_parts(login: (Seq<u8>, Seq<u8>, Seq<u8>, Seq<u8>))
    requires
        login.0.len() == 1,
        login.1 == crate::wire::be_bytes(crate::wire::RELAY_MAGIC),
        0 < login.3.len() <= crate::wire::MAX_HOST_LEN,
        login.2 == crate::wire::be_bytes(login.3.len() as u32),
    ensures
        ({
            let r1 = login.0;
            let r2 = r1 + login.1;
            let r3 = r2 + login.2;
            let r4 = r3 + login.3;
            &&& Seq::empty() + login.0 == r1
            &&& crate::wire::login_progress(r1) == LoginProgressView::Read(4)
            &&& crate::wire::login_progress(r2) == LoginProgressView::Read(4)
            &&& crate::wire::login_progress(r3) == LoginProgressView::Read(login.3.len())
            &&& crate::wire::login_progress(r4) == LoginProgressView::Host(
                crate::text::lossy_text(login.3),
            )
            &&& r4 == crate::wire::login_request(login.0[0], login.3)
            &&& r1[0] == r4[0] && r2[0] == r4[0] && r3[0] == r4[0] && r4[0] == login.0[0]
            &&& seq![login.0[0]] == login.0
        }),
{
    let r1 = login.0;
    let r2 = r1 + login.1;
    let r3 = r2 + login.2;
    let r4 = r3 + login.3;
    crate::wire::number_survives_the_wire(crate::wire::RELAY_MAGIC);
    crate::wire::number_survives_the_wire(login.3.len() as u32);
    assert(Seq::empty() + login.0 =~= r1);
    assert(r2.subrange(1, 5) =~= login.1);
    assert(r3.subrange(1, 5) =~= login.1);
    assert(r4.subrange(1, 5) =~= login.1);
    assert(r3.subrange(5, 9) =~= login.2);
    assert(r4.subrange(5, 9) =~= login.2);
    assert(r4.subrange(9, 9 + login.3.len() as int) =~= login.3);
    assert(seq![login.0[0]] =~= login.0);
    assert(r4 =~= crate::wire::login_request(login.0[0], login.3));
}

/// Bytes of a login that is not complete yet.
proof fn lemma_part_of_a_login<N, D, U>(
    server: ServerState<N, D, U>,
    client: ClientState<D, U>,
    bytes: Vec<u8>,
    n: nat,
    id: u32,
)
    requires
        client.logging_in,
        (client.received + bytes@).len() > 0,
        crate::wire::login_progress(client.received + bytes@) == LoginProgressView::Read(n),
    ensures
        crate::relay_server::conn_step(
            server,
            client,
            ConnEvent::<N, U>::Login(LoginEvent::Received(bytes)),
            id,
        ) == (
            server,
            ClientState {
                received: client.received + bytes@,
                initial_conn_marker: (client.received + bytes@)[0],
                ..client
            },
            ConnActionView::Read(n),
        ),
{
}

/// The last bytes of a login that names a listed server.
proof fn lemma_end_of_a_login<N, D, U>(
    server: ServerState<N, D, U>,
    client: ClientState<D, U>,
    bytes: Vec<u8>,
    host: Seq<char>,
    target: SocketAddress,
    id: u32,
)
    requires
        (client.received + bytes@).len() > 0,
        crate::wire::login_progress(client.received + bytes@) == LoginProgressView::Host(host),
        crate::address::parsed_address(host) == Some(target),
        server.servers.contains(target),
    ensures
        crate::relay_server::conn_step(
            server,
            client,
            ConnEvent::<N, U>::Login(LoginEvent::Received(bytes)),
            id,
        ) == (
            server,
            ClientState {
                received: client.received + bytes@,
                initial_conn_marker: (client.received + bytes@)[0],
                logging_in: false,
                relay_target: Some(target),
                udp_id: id,
                stage: Stage::Asking,
                ..client
            },
            ConnActionView::Ask(crate::wire::udp_question(id)),
        ),
{
}

/// A client that does its part is relayed. It logs in with a host that is the address of a listed
/// server, and answers its question from `peer`; every read, write and connection succeeds. Then
/// its traffic goes between that server and that address, and no claim of it is left behind. The
/// parts of the login may arrive as they are asked for: first the marker, then the magic number,
/// then the length of the host, then the host. Each event is one that was asked for.
#[verifier::spinoff_prover]
pub proof fn client_that_does_its_part_is_relayed<N, D, U>(
    server: ServerState<N, D, U>,
    sockets: D,
    from: SocketAddress,
    login: (Vec<u8>, Vec<u8>, Vec<u8>, Vec<u8>),
    target: SocketAddress,
    id: u32,
    waker: N,
    peer: SocketAddress,
    upstream: U,
)
    requires
        login.0@.len() == 1,
        login.1@ == crate::wire::be_bytes(crate::wire::RELAY_MAGIC),
        0 < login.3@.len() <= crate::wire::MAX_HOST_LEN,
        login.2@ == crate::wire::be_bytes(login.3@.len() as u32),
        crate::address::parsed_address(crate::text::lossy_text(login.3@)) == Some(target),
        server.servers.contains(target),
        crate::relay_server::first_claim(server.udp_accepted_queue, id) is None,
    ensures
        ({
            let new = ClientState::<D, U>::fresh(sockets, from);
            let (s0, c0, a0) = crate::relay_server::conn_step(
                server,
                new,
                ConnEvent::<N, U>::Login(LoginEvent::Start),
                id,
            );
            let (s1, c1, a1) = crate::relay_server::conn_step(
                s0,
                c0,
                ConnEvent::<N, U>::Login(LoginEvent::Received(login.0)),
                id,
            );
            let (s2, c2, a2) = crate::relay_server::conn_step(
                s1,
                c1,
                ConnEvent::<N, U>::Login(LoginEvent::Received(login.1)),
                id,
            );
            let (s3, c3, a3) = crate::relay_server::conn_step(
                s2,
                c2,
                ConnEvent::<N, U>::Login(LoginEvent::Received(login.2)),
                id,
            );
            let (s4, c4, a4) = crate::relay_server::conn_step(
                s3,
                c3,
                ConnEvent::<N, U>::Login(LoginEvent::Received(login.3)),
                id,
            );
            let (s5, c5, a5) = crate::relay_server::conn_step(
                s4,
                c4,
                ConnEvent::<N, U>::QuestionSent(waker),
                id,
            );
            let (claimed, woken) = crate::relay_server::datagram_step(
                s5,
                crate::wire::udp_claim(id),
                peer,
            );
            let (s6, c6, a6) = crate::relay_server::conn_step(
                claimed,
                c5,
                ConnEvent::<N, U>::Claimed,
                id,
            );
            let (s7, c7, a7) = crate::relay_server::conn_step(
                s6,
                c6,
                ConnEvent::<N, U>::Upstream(UpstreamEvent::Connected),
                id,
            );
            let (s8, c8, a8) = crate::relay_server::conn_step(
                s7,
                c7,
                ConnEvent::<N, U>::Upstream(UpstreamEvent::Bound),
                id,
            );
            let (s9, c9, a9) = crate::relay_server::conn_step(
                s8,
                c8,
                ConnEvent::<N, U>::Upstream(UpstreamEvent::Greeted(upstream)),
                id,
            );
            let (s10, c10, a10) = crate::relay_server::conn_step(
                s9,
                c9,
                ConnEvent::<N, U>::Confirmed,
                id,
            );
            &&& a0 == ConnActionView::Read(1)
            &&& a1 == ConnActionView::Read(4)
            &&& a2 == ConnActionView::Read(4)
            &&& a3 == ConnActionView::Read(login.3@.len())
            &&& a4 == ConnActionView::Ask(crate::wire::udp_question(id))
            &&& a5 == ConnActionView::AwaitClaim(id)
            &&& woken == UdpAction::Wake(id)
            &&& a6 == ConnActionView::Upstream(UpstreamActionView::Connect(target))
            &&& a7 == ConnActionView::Upstream(
                UpstreamActionView::Bind(crate::address::unspecified_address()),
            )
            &&& a8 == ConnActionView::Upstream(UpstreamActionView::Write(login.0@))
            &&& a9 == ConnActionView::Confirm(crate::wire::relay_established())
            &&& a10 == ConnActionView::Finish(Ok(()))
            &&& c10 == (ClientState {
                relay_target: Some(target),
                udp_id: id,
                peer_udp_address: Some(peer),
                upstream: Some(upstream),
                initial_conn_marker: login.0@[0],
                received: crate::wire::login_request(login.0@[0], login.3@),
                stage: Stage::Relaying,
                ..new
            })
            &&& s10 == (ServerState {
                udp_awaiters: server.udp_awaiters.insert(id, waker),
                ..server
            })
            &&& crate::relay_server::expects(new, ConnEvent::<N, U>::Login(LoginEvent::Start))
            &&& crate::relay_server::expects(
                c0,
                ConnEvent::<N, U>::Login(LoginEvent::Received(login.0)),
            )
            &&& crate::relay_server::expects(
                c1,
                ConnEvent::<N, U>::Login(LoginEvent::Received(login.1)),
            )
            &&& crate::relay_server::expects(
                c2,
                ConnEvent::<N, U>::Login(LoginEvent::Received(login.2)),
            )
            &&& crate::relay_server::expects(
                c3,
                ConnEvent::<N, U>::Login(LoginEvent::Received(login.3)),
            )
            &&& crate::relay_server::expects(c4, ConnEvent::<N, U>::QuestionSent(waker))
            &&& crate::relay_server::expects(c5, ConnEvent::<N, U>::Claimed)
            &&& crate::relay_server::expects(
                c6,
                ConnEvent::<N, U>::Upstream(UpstreamEvent::Connected),
            )
            &&& crate::relay_server::expects(c7, ConnEvent::<N, U>::Upstream(UpstreamEvent::Bound))
            &&& crate::relay_server::expects(
                c8,
                ConnEvent::<N, U>::Upstream(UpstreamEvent::Greeted(upstream)),
            )
            &&& crate::relay_server::expects(c9, ConnEvent::<N, U>::Confirmed)
        }),
{
    let new = ClientState::<D, U>::fresh(sockets, from);
    let parts = (login.0@, login.1@, login.2@, login.3@);
    lemma_login_in_parts(parts);
    let marker = login.0@[0];
    let r1 = login.0@;
    let r2 = r1 + login.1@;
    let r3 = r2 + login.2@;
    let r4 = r3 + login.3@;
    let c0 = ClientState { logging_in: true, received: Seq::empty(), ..new };
    let c1 = ClientState { received: r1, initial_conn_marker: marker, ..c0 };
    let c2 = ClientState { received: r2, ..c1 };
    let c3 = ClientState { received: r3, ..c2 };
    let c4 = ClientState {
        received: r4,
        logging_in: false,
        relay_target: Some(target),
        udp_id: id,
        stage: Stage::Asking,
        ..c3
    };
    let c5 = ClientState { stage: Stage::AwaitingClaim, ..c4 };
    let c6 = ClientState { peer_udp_address: Some(peer), stage: Stage::Connecting, ..c5 };
    let c7 = ClientState { stage: Stage::Binding, ..c6 };
    let c8 = ClientState { stage: Stage::Greeting, ..c7 };
    let c9 = ClientState { upstream: Some(upstream), stage: Stage::Confirming, ..c8 };
    let asked = ServerState { udp_awaiters: server.udp_awaiters.insert(id, waker), ..server };
    logins_start_and_fail(server, new, arbitrary(), id);
    lemma_part_of_a_login(server, c0, login.0, 4, id);
    lemma_part_of_a_login(server, c1, login.1, 4, id);
    lemma_part_of_a_login(server, c2, login.2, login.3@.len(), id);
    let host = crate::text::lossy_text(login.3@);
    lemma_end_of_a_login(server, c3, login.3, host, target, id);
    assert(crate::relay_server::conn_step(server, c4, ConnEvent::<N, U>::QuestionSent(waker), id)
        == (asked, c5, ConnActionView::AwaitClaim(id)));
    answer_wakes_who_was_asked(server, c4, waker, id, peer);
    sender_of_the_answer_is_linked(asked, c5, peer, id);
    let claimed = crate::relay_server::datagram_step(asked, crate::wire::udp_claim(id), peer).0;
    assert(crate::relay_server::conn_step(claimed, c5, ConnEvent::<N, U>::Claimed, id) == (
        asked,
        c6,
        ConnActionView::Upstream(UpstreamActionView::Connect(target)),
    ));
    server_is_reached_in_turn(asked, c6, upstream, id);
    server_is_reached_in_turn(asked, c7, upstream, id);
    server_is_reached_in_turn(asked, c8, upstream, id);
    setting_up_ends_with_its_last_word(asked, c9, arbitrary(), id);
}

} // verus!
