//! What holds of the datagrams, the claims and the clients of the relay, over any course of
//! events.
use std::sync::Arc;
use vstd::prelude::*;

use crate::address::SocketAddress;
use crate::guarantees::ConnStep;
use crate::relay_client::{ClientState, RelayClient, Stage};
use crate::relay_server::{
    ConnActionView, ConnEvent, ServerAction, ServerEvent, ServerState, UdpAction, UdpEvent,
};

verus! {

// ---------------------------------------------------------------------------
// Datagrams

/// A datagram is passed on exactly when it comes from a client and does not claim a number that
/// somebody was asked; then nothing of the relay changes.
pub proof fn clients_datagrams_are_passed_on<N, D, U>(
    server: ServerState<N, D, U>,
    datagram: Seq<u8>,
    peer: SocketAddress,
)
    ensures
        ({
            let (next, action) = crate::relay_server::datagram_step(server, datagram, peer);
            let answers = exists|id: u32|
                server.udp_awaiters.contains_key(id) && datagram == #[trigger]
                    crate::wire::udp_claim(id);
            &&& action is Relay <==> server.clients.contains_key(peer) && !answers
            &&& action is Relay ==> action == UdpAction::Relay(peer) && next == server
            &&& action is Wake <==> answers
            &&& !(action is Wake) ==> next == server
        }),
{
    let claimed = crate::wire::claimed_id(datagram);
    if claimed is Some {
        crate::wire::only_the_answer_claims(datagram, claimed->Some_0);
    }
    assert forall|id: u32| datagram == #[trigger] crate::wire::udp_claim(id) implies claimed
        == Some(id) by {
        crate::wire::only_the_answer_claims(datagram, id);
    }
}

/// What happens on the relay's UDP socket never changes who its clients are, whom it asked a
/// question, or which servers it leads to; and of the claims that are queued, none is lost or
/// moved. A report that a datagram was passed on, or could not be, changes nothing at all, and
/// the next datagram is received; nor does a failure to receive, which alone stops the socket.
pub proof fn udp_socket_keeps_the_clients<N, D, U>(server: ServerState<N, D, U>, event: UdpEvent)
    ensures
        ({
            let (next, action) = crate::relay_server::udp_step(server, event);
            &&& next.clients == server.clients
            &&& next.udp_awaiters == server.udp_awaiters
            &&& next.servers == server.servers
            &&& server.udp_accepted_queue.is_prefix_of(next.udp_accepted_queue)
            &&& event is Relayed ==> next == server && action == UdpAction::Receive
            &&& event matches UdpEvent::Failed(e) ==> next == server && action == UdpAction::Stop(e)
            &&& action is Stop ==> event is Failed
        }),
{
    let queue = server.udp_accepted_queue;
    let next = crate::relay_server::udp_step(server, event).0.udp_accepted_queue;
    assert(queue =~= next.take(queue.len() as int));
}

/// A datagram of eight bytes that opens with 7f 8a 9b 0c and goes on with a number that somebody
/// was asked, most significant byte first, is queued as a claim of that number by its sender and
/// wakes who was asked. Every other datagram changes nothing: it is passed on if there is a client
/// at its sender's address, and dropped if there is none.
pub proof fn datagram_is_a_claim_or_traffic<N, D, U>(
    server: ServerState<N, D, U>,
    datagram: &[u8],
    peer: SocketAddress,
)
    ensures
        ({
            let bytes = datagram@;
            let (next, action) = crate::relay_server::udp_step(
                server,
                UdpEvent::Received(datagram, peer),
            );
            let number = (((bytes[4] * 256 + bytes[5]) * 256 + bytes[6]) * 256 + bytes[7]) as u32;
            if bytes.len() == 8 && bytes.take(4) == seq![0x7fu8, 0x8au8, 0x9bu8, 0x0cu8]
                && server.udp_awaiters.contains_key(number) {
                &&& action == UdpAction::Wake(number)
                &&& next.udp_accepted_queue == server.udp_accepted_queue.push((number, peer))
                &&& server == (ServerState {
                    udp_accepted_queue: server.udp_accepted_queue,
                    ..next
                })
            } else {
                &&& next == server
                &&& action == if server.clients.contains_key(peer) {
                    UdpAction::Relay(peer)
                } else {
                    UdpAction::Receive
                }
            }
        }),
{
    crate::wire::claims_are_known_by_their_bytes(datagram@);
}

/// Whether every client of a relay is found under its own UDP address, everything is known of it
/// that its datagrams need, and its server is a listed one.
pub open spec fn routable<N, D, U>(server: ServerState<N, D, U>) -> bool {
    forall|peer: SocketAddress| #[trigger]
        server.clients.contains_key(peer) ==> {
            &&& server.clients[peer]@.linked()
            &&& server.clients[peer]@.peer_udp_address == Some(peer)
            &&& server.clients[peer]@.relay_target matches Some(target) && server.servers.contains(
                target,
            )
        }
}

/// A client whose relay was set up, whoever it is, is relayed from then on: it becomes the client
/// at its UDP address, in place of any that was there, and all else stays as it was.
pub proof fn logged_in_client_is_relayed<N, D, U>(
    server: ServerState<N, D, U>,
    client: Arc<RelayClient<D, U>>,
    peer: SocketAddress,
    other: SocketAddress,
    action: ServerAction<D, U>,
)
    requires
        client@.peer_udp_address == Some(peer),
        crate::relay_server::server_does(ServerEvent::LoggedIn(client), action),
    ensures
        action is Relay,
        ({
            let next = crate::relay_server::server_step(server, ServerEvent::LoggedIn(client));
            &&& next.clients.contains_key(peer)
            &&& next.clients[peer] == client
            &&& other != peer ==> next.clients.contains_key(other) == server.clients.contains_key(
                other,
            )
            &&& other != peer && server.clients.contains_key(other) ==> next.clients[other]
                == server.clients[other]
            &&& server == (ServerState { clients: server.clients, ..next })
        }),
{
}

/// A client whose traffic ended leaves its UDP address to nobody, and its connection is closed;
/// all else stays as it was.
pub proof fn ended_client_is_forgotten<N, D, U>(
    server: ServerState<N, D, U>,
    client: Arc<RelayClient<D, U>>,
    peer: SocketAddress,
    other: SocketAddress,
    action: ServerAction<D, U>,
)
    requires
        client@.peer_udp_address == Some(peer),
        crate::relay_server::server_does(ServerEvent::ClientEnded(client), action),
    ensures
        action is Close,
        ({
            let next = crate::relay_server::server_step(server, ServerEvent::ClientEnded(client));
            &&& !next.clients.contains_key(peer)
            &&& other != peer ==> next.clients.contains_key(other) == server.clients.contains_key(
                other,
            )
            &&& other != peer && server.clients.contains_key(other) ==> next.clients[other]
                == server.clients[other]
            &&& server == (ServerState { clients: server.clients, ..next })
        }),
{
}

/// What is done with a connection tells what happened to it. A relay is set up, within 45 seconds
/// and for a client of which nothing is known but its connection, exactly after a connection was
/// accepted. A client is relayed exactly after its relay was set up. A client is told why it is
/// refused, in the words of its error and within 10 seconds, exactly after it was refused. And a
/// connection is closed without a word exactly after it could not be accepted, took too long or
/// had its traffic ended.
pub proof fn connections_get_what_they_are_due<D, U>(
    event: ServerEvent<D, U>,
    action: ServerAction<D, U>,
)
    requires
        crate::relay_server::server_does(event, action),
    ensures
        action is SetUp <==> event is Accepted,
        action is Relay <==> event is LoggedIn,
        action is Refuse <==> event is LoginRefused,
        action is Close <==> {
            ||| event is AcceptFailed
            ||| event is LoginTimedOut
            ||| event is ClientEnded
        },
        event matches ServerEvent::Accepted(sockets, peer) ==> {
            &&& action matches ServerAction::SetUp(client, limit)
            &&& client@ == ClientState::<D, U>::fresh(sockets, peer)
            &&& limit == 45
        },
        event matches ServerEvent::LoginRefused(error) ==> {
            &&& action matches ServerAction::Refuse(message, limit)
            &&& error.worded_as(message@)
            &&& limit == 10
        },
{
}

/// Who is logged in and whose traffic ended is all that changes the relay among the events of its
/// connections: a connection that is accepted, refused, late or cannot be accepted leaves it as
/// it is.
pub proof fn only_logins_and_ends_change_the_relay<N, D, U>(
    server: ServerState<N, D, U>,
    event: ServerEvent<D, U>,
)
    requires
        !(event is LoggedIn),
        !(event is ClientEnded),
    ensures
        crate::relay_server::server_step(server, event) == server,
{
}

/// A relay that has just been started leads to the servers that it was given, and has no clients,
/// no questions and no claims.
pub proof fn new_relay_has_only_its_servers<N, D, U>(
    servers: Seq<SocketAddress>,
    peer: SocketAddress,
    id: u32,
)
    ensures
        ({
            let relay = crate::relay_server::new_relay::<N, D, U>(servers);
            &&& relay.servers == servers
            &&& !relay.clients.contains_key(peer)
            &&& !relay.udp_awaiters.contains_key(id)
            &&& relay.udp_accepted_queue.len() == 0
        }),
{
}

/// A relay stays routable whatever happens to it, as long as the clients that are logged in are
/// those whose relay was set up.
pub proof fn relay_stays_routable<N, D, U>(
    server: ServerState<N, D, U>,
    client: ClientState<D, U>,
    conn: ConnEvent<N, U>,
    drawn: u32,
    udp: UdpEvent,
    run: ServerEvent<D, U>,
)
    requires
        routable(server),
        run matches ServerEvent::LoggedIn(c) ==> {
            &&& crate::guarantees::vetted(server.servers, c@)
            &&& c@.stage == Stage::Relaying
        },
    ensures
        routable(crate::relay_server::server_step(server, run)),
        routable(crate::relay_server::udp_step(server, udp).0),
        routable(crate::relay_server::conn_step(server, client, conn, drawn).0),
{
}

/// From login to end: the datagrams of a client are passed on while it is logged in and dropped
/// after its traffic ended, and the clients at other addresses notice neither.
pub proof fn login_and_end_of_a_client<N, D, U>(
    server: ServerState<N, D, U>,
    client: Arc<RelayClient<D, U>>,
    datagram: Seq<u8>,
    other: SocketAddress,
)
    requires
        client@.peer_udp_address is Some,
        crate::wire::claimed_id(datagram) is None,
        client@.peer_udp_address != Some(other),
    ensures
        ({
            let peer = client@.peer_udp_address->Some_0;
            let there = crate::relay_server::server_step(server, ServerEvent::LoggedIn(client));
            let gone = crate::relay_server::server_step(there, ServerEvent::ClientEnded(client));
            &&& crate::relay_server::datagram_step(there, datagram, peer).1 == UdpAction::Relay(
                peer,
            )
            &&& there.clients[peer] == client
            &&& crate::relay_server::datagram_step(gone, datagram, peer).1 == UdpAction::Receive
            &&& there.clients.contains_key(other) == server.clients.contains_key(other)
            &&& gone.clients.contains_key(other) == server.clients.contains_key(other)
            &&& server.clients.contains_key(other) ==> there.clients[other]
                == server.clients[other] && gone.clients[other] == server.clients[other]
            &&& !server.clients.contains_key(peer) ==> gone == server
        }),
{
    let peer = client@.peer_udp_address->Some_0;
    let there = crate::relay_server::server_step(server, ServerEvent::LoggedIn(client));
    let gone = crate::relay_server::server_step(there, ServerEvent::ClientEnded(client));
    if !server.clients.contains_key(peer) {
        assert(gone.clients =~= server.clients);
    }
}

/// Whether a datagram claims a number that somebody was asked.
pub open spec fn answers_a_question<N, D, U>(
    server: ServerState<N, D, U>,
    datagram: Seq<u8>,
) -> bool {
    crate::wire::claimed_id(datagram) matches Some(id) && server.udp_awaiters.contains_key(id)
}

/// The state of the relay after a sequence of datagrams, each with its sender.
pub open spec fn after_datagrams<N, D, U>(
    server: ServerState<N, D, U>,
    datagrams: Seq<(Seq<u8>, SocketAddress)>,
) -> ServerState<N, D, U>
    decreases datagrams.len(),
{
    if datagrams.len() == 0 {
        server
    } else {
        let (datagram, peer) = datagrams.last();
        crate::relay_server::datagram_step(
            after_datagrams(server, datagrams.drop_last()),
            datagram,
            peer,
        ).0
    }
}

/// Those of a sequence of datagrams that are passed on, in order, each with its sender.
pub open spec fn passed_on<N, D, U>(
    server: ServerState<N, D, U>,
    datagrams: Seq<(Seq<u8>, SocketAddress)>,
) -> Seq<(Seq<u8>, SocketAddress)>
    decreases datagrams.len(),
{
    if datagrams.len() == 0 {
        Seq::empty()
    } else {
        let (datagram, peer) = datagrams.last();
        let before = passed_on(server, datagrams.drop_last());
        match crate::relay_server::datagram_step(
            after_datagrams(server, datagrams.drop_last()),
            datagram,
            peer,
        ).1 {
            UdpAction::Relay(to) => before.push((datagram, to)),
            _ => before,
        }
    }
}

/// Over any sequence of datagrams, those that answer a question are queued as claims in the order
/// of their arrival, those of the others that come from clients are passed on in the order of
/// their arrival, unchanged and as their sender's, and nothing else of the relay changes.
pub proof fn datagrams_are_sorted_in_order<N, D, U>(
    server: ServerState<N, D, U>,
    datagrams: Seq<(Seq<u8>, SocketAddress)>,
)
    ensures
        after_datagrams(server, datagrams) == (ServerState {
            udp_accepted_queue: server.udp_accepted_queue + datagrams.filter_map(
                |d: (Seq<u8>, SocketAddress)|
                    if answers_a_question(server, d.0) {
                        Some((crate::wire::claimed_id(d.0)->Some_0, d.1))
                    } else {
                        None
                    },
            ),
            ..server
        }),
        passed_on(server, datagrams) == datagrams.filter(
            |d: (Seq<u8>, SocketAddress)|
                server.clients.contains_key(d.1) && !answers_a_question(server, d.0),
        ),
    decreases datagrams.len(),
{
    reveal(Seq::filter);
    let claim = |d: (Seq<u8>, SocketAddress)|
        if answers_a_question(server, d.0) {
            Some((crate::wire::claimed_id(d.0)->Some_0, d.1))
        } else {
            None
        };
    let queue = server.udp_accepted_queue;
    if datagrams.len() > 0 {
        datagrams_are_sorted_in_order(server, datagrams.drop_last());
    }
    assert(after_datagrams(server, datagrams).udp_accepted_queue =~= queue + datagrams.filter_map(
        claim,
    ));
}

// ---------------------------------------------------------------------------
// The relay over any course

/// Anything that can happen to the relay: an event of a connection that is setting up its relay,
/// with what is known of its client and the number that a question asked then would have; an
/// event on its UDP socket; or an event of its connections.
pub enum RelayStep<'a, N, D, U> {
    Conn(ClientState<D, U>, ConnEvent<N, U>, u32),
    Udp(UdpEvent<'a>),
    Run(ServerEvent<D, U>),
}

/// The state of the relay after one step.
pub open spec fn relay_step<N, D, U>(
    server: ServerState<N, D, U>,
    step: RelayStep<N, D, U>,
) -> ServerState<N, D, U> {
    match step {
        RelayStep::Conn(client, event, id) => crate::relay_server::conn_step(
            server,
            client,
            event,
            id,
        ).0,
        RelayStep::Udp(event) => crate::relay_server::udp_step(server, event).0,
        RelayStep::Run(event) => crate::relay_server::server_step(server, event),
    }
}

/// The state of the relay after a course of steps.
pub open spec fn after_course<N, D, U>(
    server: ServerState<N, D, U>,
    steps: Seq<RelayStep<N, D, U>>,
) -> ServerState<N, D, U>
    decreases steps.len(),
{
    if steps.len() == 0 {
        server
    } else {
        relay_step(after_course(server, steps.drop_last()), steps.last())
    }
}

/// Whether a relay that leads to `servers` can have been set up for a client: some course of
/// steps leads there from a new connection.
pub open spec fn was_set_up<N, D, U>(
    servers: Seq<SocketAddress>,
    client: ClientState<D, U>,
) -> bool {
    exists|sockets: D, peer: SocketAddress, steps: Seq<ConnStep<N, D, U>>|
        {
            &&& #[trigger] crate::guarantees::possible_course(
                servers,
                ClientState::<D, U>::fresh(sockets, peer),
                steps,
            )
            &&& client == crate::guarantees::after_steps(
                ClientState::<D, U>::fresh(sockets, peer),
                steps,
            )
            &&& client.stage == Stage::Relaying
        }
}

/// Whether only those clients are logged in, in a course of steps, that a relay was set up for.
pub open spec fn logs_in_who_was_set_up<N, D, U>(
    servers: Seq<SocketAddress>,
    steps: Seq<RelayStep<N, D, U>>,
) -> bool {
    forall|i: int|
        0 <= i < steps.len() ==> (#[trigger] steps[i] matches RelayStep::Run(
            ServerEvent::LoggedIn(client),
        ) ==> was_set_up::<N, D, U>(servers, client@))
}

/// Whatever happens to a relay from its start on, it leads to the servers that it was started
/// with, and every client of it is found under its own UDP address, has everything that its
/// datagrams need, and is led to one of these servers.
pub proof fn relay_is_always_routable<N, D, U>(
    servers: Seq<SocketAddress>,
    steps: Seq<RelayStep<N, D, U>>,
)
    requires
        logs_in_who_was_set_up(servers, steps),
    ensures
        after_course(crate::relay_server::new_relay(servers), steps).servers == servers,
        routable(after_course(crate::relay_server::new_relay(servers), steps)),
    decreases steps.len(),
{
    let start = crate::relay_server::new_relay::<N, D, U>(servers);
    if steps.len() > 0 {
        let earlier = steps.drop_last();
        assert forall|i: int| 0 <= i < earlier.len() implies (#[trigger] earlier[i] matches
            RelayStep::Run(ServerEvent::LoggedIn(client)) ==> was_set_up::<N, D, U>(
            servers,
            client@,
        )) by {
            assert(earlier[i] == steps[i]);
        }
        relay_is_always_routable(servers, earlier);
        let before = after_course(start, earlier);
        assert(steps[steps.len() - 1] == steps.last());
        match steps.last() {
            RelayStep::Run(event) => {
                if let ServerEvent::LoggedIn(client) = event {
                    let (sockets, peer, course) = choose|
                        sockets: D,
                        peer: SocketAddress,
                        course: Seq<ConnStep<N, D, U>>,
                    |
                        {
                            &&& #[trigger] crate::guarantees::possible_course(
                                servers,
                                ClientState::<D, U>::fresh(sockets, peer),
                                course,
                            )
                            &&& client@ == crate::guarantees::after_steps(
                                ClientState::<D, U>::fresh(sockets, peer),
                                course,
                            )
                            &&& client@.stage == Stage::Relaying
                        };
                    crate::guarantees::no_client_gets_further_than_it_earned(
                        servers,
                        sockets,
                        peer,
                        course,
                    );
                }
            },
            _ => {},
        }
    }
}

/// A client whose set-up ends well is relayed: where some possible course of steps leads from a
/// new connection to the report that its relay is set up, the client is one that can be logged in,
/// what follows its login is that its traffic is passed on, and its datagrams are from then on its
/// server's.
pub proof fn client_that_was_set_up_is_relayed<N, D, U>(
    server: ServerState<N, D, U>,
    sockets: D,
    from: SocketAddress,
    steps: Seq<ConnStep<N, D, U>>,
    client: Arc<RelayClient<D, U>>,
    action: ServerAction<D, U>,
    datagram: &[u8],
)
    requires
        steps.len() > 0,
        crate::guarantees::possible_course(
            server.servers,
            ClientState::<D, U>::fresh(sockets, from),
            steps,
        ),
        crate::guarantees::last_action(ClientState::<D, U>::fresh(sockets, from), steps)
            == ConnActionView::Finish(Ok(())),
        client@ == crate::guarantees::after_steps(ClientState::<D, U>::fresh(sockets, from), steps),
        crate::relay_server::server_does(ServerEvent::LoggedIn(client), action),
    ensures
        client@.linked(),
        server.servers.contains(client@.relay_target->Some_0),
        action is Relay,
        ({
            let peer = client@.peer_udp_address->Some_0;
            let there = crate::relay_server::server_step(server, ServerEvent::LoggedIn(client));
            &&& there.clients.contains_key(peer) && there.clients[peer] == client
            &&& crate::wire::claimed_id(datagram@) is None ==> crate::relay_server::udp_step(
                there,
                UdpEvent::Received(datagram, peer),
            ) == (there, UdpAction::Relay(peer))
        }),
{
    crate::guarantees::no_client_gets_further_than_it_earned(server.servers, sockets, from, steps);
    let start = ClientState::<D, U>::fresh(sockets, from);
    let last = steps.last();
    crate::guarantees::setting_up_ends_once(
        last.server,
        crate::guarantees::after_steps(start, steps.drop_last()),
        last.event,
        last.id,
        last.event,
    );
}

/// A number that was asked stays reserved over any course of steps.
pub proof fn asked_numbers_stay_over_any_course<N, D, U>(
    server: ServerState<N, D, U>,
    steps: Seq<RelayStep<N, D, U>>,
)
    ensures
        server.udp_awaiters.dom().subset_of(after_course(server, steps).udp_awaiters.dom()),
    decreases steps.len(),
{
    if steps.len() > 0 {
        asked_numbers_stay_over_any_course(server, steps.drop_last());
    }
}

/// Whether an event of the relay's connections enters or removes a client at `peer`.
pub open spec fn concerns<D, U>(event: ServerEvent<D, U>, peer: SocketAddress) -> bool {
    match event {
        ServerEvent::LoggedIn(client) => client@.peer_udp_address == Some(peer),
        ServerEvent::ClientEnded(client) => client@.peer_udp_address == Some(peer),
        _ => false,
    }
}

/// A client that is logged in stays the one at its UDP address, and has each of its datagrams
/// passed on that answers no question, until its traffic ends or another client is logged in at
/// that address: whatever datagrams arrive, are passed on or fail to be, and whatever other
/// clients and connections do.
pub proof fn datagrams_are_passed_on_until_the_client_ends<N, D, U>(
    server: ServerState<N, D, U>,
    steps: Seq<RelayStep<N, D, U>>,
    peer: SocketAddress,
    datagram: &[u8],
)
    requires
        server.clients.contains_key(peer),
        forall|i: int|
            0 <= i < steps.len() ==> (#[trigger] steps[i] matches RelayStep::Run(event) ==> {
                &&& !concerns(event, peer)
                &&& event matches ServerEvent::LoggedIn(client) ==> client@.peer_udp_address is Some
                &&& event matches ServerEvent::ClientEnded(client) ==> client@.peer_udp_address
                    is Some
            }),
    ensures
        ({
            let after = after_course(server, steps);
            &&& after.clients.contains_key(peer)
            &&& after.clients[peer] == server.clients[peer]
            &&& !(exists|id: u32|
                after.udp_awaiters.contains_key(id) && datagram@ == #[trigger]
                    crate::wire::udp_claim(id)) ==> crate::relay_server::udp_step(
                after,
                UdpEvent::Received(datagram, peer),
            ) == (after, UdpAction::Relay(peer))
        }),
    decreases steps.len(),
{
    let after = after_course(server, steps);
    if steps.len() > 0 {
        let earlier = steps.drop_last();
        assert forall|i: int| 0 <= i < earlier.len() implies (#[trigger] earlier[i] matches
            RelayStep::Run(event) ==> {
            &&& !concerns(event, peer)
            &&& event matches ServerEvent::LoggedIn(client) ==> client@.peer_udp_address is Some
            &&& event matches ServerEvent::ClientEnded(client) ==> client@.peer_udp_address is Some
        }) by {
            assert(earlier[i] == steps[i]);
        }
        datagrams_are_passed_on_until_the_client_ends(server, earlier, peer, datagram);
        assert(steps[steps.len() - 1] == steps.last());
    }
    clients_datagrams_are_passed_on(after, datagram@, peer);
}

/// The claims of one number in a queue, in order.
pub open spec fn claims_of(queue: Seq<(u32, SocketAddress)>, id: u32) -> Seq<
    (u32, SocketAddress),
> {
    queue.filter(|claim: (u32, SocketAddress)| claim.0 == id)
}

/// The claims of one number that arrive at a step.
pub open spec fn arrives<N, D, U>(
    server: ServerState<N, D, U>,
    step: RelayStep<N, D, U>,
    id: u32,
) -> Seq<(u32, SocketAddress)> {
    match step {
        RelayStep::Udp(UdpEvent::Received(datagram, peer)) => if answers_a_question(
            server,
            datagram@,
        ) && crate::wire::claimed_id(datagram@) == Some(id) {
            seq![(id, peer)]
        } else {
            Seq::empty()
        },
        _ => Seq::empty(),
    }
}

/// The claims of one number that are taken up at a step.
pub open spec fn taken_up<N, D, U>(
    server: ServerState<N, D, U>,
    step: RelayStep<N, D, U>,
    id: u32,
) -> Seq<(u32, SocketAddress)> {
    match step {
        RelayStep::Conn(client, ConnEvent::Claimed, _) => match crate::relay_server::first_claim(
            server.udp_accepted_queue,
            client.udp_id,
        ) {
            Some(i) => if client.udp_id == id {
                seq![server.udp_accepted_queue[i]]
            } else {
                Seq::empty()
            },
            None => Seq::empty(),
        },
        _ => Seq::empty(),
    }
}

/// The claims of one number that arrive in a course of steps, in order.
pub open spec fn all_arrived<N, D, U>(
    server: ServerState<N, D, U>,
    steps: Seq<RelayStep<N, D, U>>,
    id: u32,
) -> Seq<(u32, SocketAddress)>
    decreases steps.len(),
{
    if steps.len() == 0 {
        Seq::empty()
    } else {
        all_arrived(server, steps.drop_last(), id) + arrives(
            after_course(server, steps.drop_last()),
            steps.last(),
            id,
        )
    }
}

/// The claims of one number that are taken up in a course of steps, in order.
pub open spec fn all_taken_up<N, D, U>(
    server: ServerState<N, D, U>,
    steps: Seq<RelayStep<N, D, U>>,
    id: u32,
) -> Seq<(u32, SocketAddress)>
    decreases steps.len(),
{
    if steps.len() == 0 {
        Seq::empty()
    } else {
        all_taken_up(server, steps.drop_last(), id) + taken_up(
            after_course(server, steps.drop_last()),
            steps.last(),
            id,
        )
    }
}

/// Taking the earliest claim of one number out of a queue takes the first of its claims, and none
/// of another number's.
proof fn lemma_taking_up(queue: Seq<(u32, SocketAddress)>, id: u32, i: int, other: u32)
    requires
        crate::relay_server::is_first_claim(queue, id, i),
    ensures
        claims_of(queue, id) == seq![queue[i]] + claims_of(queue.remove(i), id),
        other != id ==> claims_of(queue, other) == claims_of(queue.remove(i), other),
{
    reveal(Seq::filter);
    let before = queue.take(i);
    let after = queue.skip(i + 1);
    let one = seq![queue[i]];
    assert(queue =~= before + one + after);
    assert(queue.remove(i) =~= before + after);
    assert forall|n: u32| #![trigger claims_of(queue, n)]
        claims_of(queue, n) == claims_of(before, n) + claims_of(one, n) + claims_of(after, n)
            && claims_of(queue.remove(i), n) == claims_of(before, n) + claims_of(after, n) by {
        let is_n = |claim: (u32, SocketAddress)| claim.0 == n;
        Seq::filter_distributes_over_add(before + one, after, is_n);
        Seq::filter_distributes_over_add(before, one, is_n);
        Seq::filter_distributes_over_add(before, after, is_n);
    }
    assert(one.drop_last() =~= Seq::empty());
    assert(claims_of(before, id) =~= Seq::empty()) by {
        lemma_no_claims(before, id);
    }
    assert(claims_of(one, id) =~= one);
    assert(claims_of(queue, id) =~= one + claims_of(queue.remove(i), id));
    if other != id {
        assert(claims_of(one, other) =~= Seq::empty());
        assert(claims_of(queue, other) =~= claims_of(queue.remove(i), other));
    }
}

/// A queue without a number has no claims of it.
proof fn lemma_no_claims(queue: Seq<(u32, SocketAddress)>, id: u32)
    requires
        forall|j: int| 0 <= j < queue.len() ==> #[trigger] queue[j].0 != id,
    ensures
        claims_of(queue, id) == Seq::<(u32, SocketAddress)>::empty(),
    decreases queue.len(),
{
    reveal(Seq::filter);
    if queue.len() > 0 {
        let rest = queue.drop_last();
        assert forall|j: int| 0 <= j < rest.len() implies #[trigger] rest[j].0 != id by {
            assert(rest[j] == queue[j]);
        }
        lemma_no_claims(rest, id);
        assert(queue[queue.len() - 1].0 != id);
    }
}

/// Claims are first come, first served: over any course of steps, the claims of a number that were
/// queued or arrive are, in order, those that are taken up, followed by those that are still
/// queued. None is lost, none is taken up twice, and no other number has a part in it.
pub proof fn claims_are_first_come_first_served<N, D, U>(
    server: ServerState<N, D, U>,
    steps: Seq<RelayStep<N, D, U>>,
    id: u32,
)
    ensures
        claims_of(server.udp_accepted_queue, id) + all_arrived(server, steps, id) == all_taken_up(
            server,
            steps,
            id,
        ) + claims_of(after_course(server, steps).udp_accepted_queue, id),
    decreases steps.len(),
{
    let start = claims_of(server.udp_accepted_queue, id);
    if steps.len() == 0 {
        assert(start + Seq::<(u32, SocketAddress)>::empty() =~= Seq::<
            (u32, SocketAddress),
        >::empty() + start);
    } else {
        let earlier = steps.drop_last();
        claims_are_first_come_first_served(server, earlier, id);
        let before = after_course(server, earlier);
        let after = after_course(server, steps);
        let came = arrives(before, steps.last(), id);
        let went = taken_up(before, steps.last(), id);
        assert(claims_of(before.udp_accepted_queue, id) + came == went + claims_of(
            after.udp_accepted_queue,
            id,
        )) by {
            lemma_one_step_of_claims(before, steps.last(), id);
        }
        assert(start + all_arrived(server, steps, id) =~= (start + all_arrived(
            server,
            earlier,
            id,
        )) + came);
        assert(all_taken_up(server, earlier, id) + (claims_of(before.udp_accepted_queue, id) + came)
            =~= all_taken_up(server, earlier, id) + claims_of(before.udp_accepted_queue, id)
            + came);
        assert(all_taken_up(server, steps, id) + claims_of(after.udp_accepted_queue, id)
            =~= all_taken_up(server, earlier, id) + (went + claims_of(
            after.udp_accepted_queue,
            id,
        )));
    }
}

/// At one step, the claims of a number that were queued or arrive are those that are taken up,
/// followed by those that are queued after it.
proof fn lemma_one_step_of_claims<N, D, U>(
    server: ServerState<N, D, U>,
    step: RelayStep<N, D, U>,
    id: u32,
)
    ensures
        claims_of(server.udp_accepted_queue, id) + arrives(server, step, id) == taken_up(
            server,
            step,
            id,
        ) + claims_of(relay_step(server, step).udp_accepted_queue, id),
{
    let queue = server.udp_accepted_queue;
    let next = relay_step(server, step).udp_accepted_queue;
    let came = arrives(server, step, id);
    let went = taken_up(server, step, id);
    match step {
        RelayStep::Conn(client, ConnEvent::Claimed, _) => {
            if let Some(i) = crate::relay_server::first_claim(queue, client.udp_id) {
                lemma_taking_up(queue, client.udp_id, i, id);
            }
        },
        RelayStep::Udp(UdpEvent::Received(datagram, peer)) => {
            reveal(Seq::filter);
            if next.len() > queue.len() {
                assert(next.drop_last() =~= queue);
            }
        },
        _ => {},
    }
    assert(claims_of(queue, id) + came =~= went + claims_of(next, id));
}

} // verus!
