//! How the traffic of a client is passed on once its relay is set up.
use vstd::prelude::*;

use crate::address::SocketAddress;
use crate::relay_client::{RelayClient, TCP_BUFFER_LEN, UDP_BUFFER_LEN};
use crate::relay_error::RelayError;

verus! {

// ---------------------------------------------------------------------------
// TCP

/// What happened on one direction of the TCP connection.
pub enum TcpEvent {
    /// The direction was opened.
    Started,
    /// These bytes were read; none means that the sending end was closed.
    Read(Vec<u8>),
    /// Reading failed.
    ReadFailed(std::io::Error),
    /// The bytes that were to be written were written.
    Written,
    /// Writing failed.
    WriteFailed(std::io::Error),
}

/// What one direction of the TCP connection does next.
pub enum TcpAction {
    /// Read at most this many bytes from the sending end.
    Read(usize),
    /// Write these bytes to the receiving end.
    Write(Vec<u8>),
    /// Stop.
    Stop(RelayError),
}

/// The mathematical reading of [`TcpAction`].
pub enum TcpActionView {
    Read(nat),
    Write(Seq<u8>),
    Stop(RelayError),
}

impl View for TcpAction {
    type V = TcpActionView;

    open spec fn view(&self) -> TcpActionView {
        match self {
            TcpAction::Read(n) => TcpActionView::Read(*n as nat),
            TcpAction::Write(bytes) => TcpActionView::Write(bytes@),
            TcpAction::Stop(e) => TcpActionView::Stop(*e),
        }
    }
}

/// How the direction from the client to its server goes on: what was read is written, a closed
/// end stops it, and a failure is put down to the end that it happened on.
pub open spec fn tcp_send_step(event: TcpEvent) -> TcpActionView {
    match event {
        TcpEvent::Started => TcpActionView::Read(TCP_BUFFER_LEN as nat),
        TcpEvent::Read(bytes) => if bytes@.len() == 0 {
            TcpActionView::Stop(RelayError::Closed)
        } else {
            TcpActionView::Write(bytes@)
        },
        TcpEvent::ReadFailed(e) => TcpActionView::Stop(RelayError::DownstreamSocketFail(e)),
        TcpEvent::Written => TcpActionView::Read(TCP_BUFFER_LEN as nat),
        TcpEvent::WriteFailed(e) => TcpActionView::Stop(RelayError::UpstreamSocketFail(e)),
    }
}

/// How the direction from the server to the client goes on. It differs from the other direction
/// in which end a failure is put down to, and in nothing else.
pub open spec fn tcp_recv_step(event: TcpEvent) -> TcpActionView {
    match event {
        TcpEvent::ReadFailed(e) => TcpActionView::Stop(RelayError::UpstreamSocketFail(e)),
        TcpEvent::WriteFailed(e) => TcpActionView::Stop(RelayError::DownstreamSocketFail(e)),
        _ => tcp_send_step(event),
    }
}

/// The bytes that were read in a course of events.
pub open spec fn bytes_read(events: Seq<TcpEvent>) -> Seq<u8>
    decreases events.len(),
{
    if events.len() == 0 {
        Seq::empty()
    } else {
        bytes_read(events.drop_last()) + match events.last() {
            TcpEvent::Read(bytes) => bytes@,
            _ => Seq::empty(),
        }
    }
}

/// The bytes that an action writes.
pub open spec fn bytes_of(action: TcpActionView) -> Seq<u8> {
    match action {
        TcpActionView::Write(bytes) => bytes,
        _ => Seq::empty(),
    }
}

/// The bytes that go to the server in a course of events.
pub open spec fn bytes_sent_up(events: Seq<TcpEvent>) -> Seq<u8>
    decreases events.len(),
{
    if events.len() == 0 {
        Seq::empty()
    } else {
        bytes_sent_up(events.drop_last()) + bytes_of(tcp_send_step(events.last()))
    }
}

/// The bytes that go to the client in a course of events.
pub open spec fn bytes_sent_down(events: Seq<TcpEvent>) -> Seq<u8>
    decreases events.len(),
{
    if events.len() == 0 {
        Seq::empty()
    } else {
        bytes_sent_down(events.drop_last()) + bytes_of(tcp_recv_step(events.last()))
    }
}

/// Whatever happens on a TCP connection, in either direction exactly the bytes that were read
/// are written, in the order in which they were read: none is lost, added or changed.
pub proof fn tcp_bytes_are_relayed_unchanged(events: Seq<TcpEvent>)
    ensures
        bytes_sent_up(events) == bytes_read(events),
        bytes_sent_down(events) == bytes_read(events),
    decreases events.len(),
{
    if events.len() > 0 {
        tcp_bytes_are_relayed_unchanged(events.drop_last());
        if let TcpEvent::Read(bytes) = events.last() {
            if bytes@.len() == 0 {
                assert(bytes@ =~= Seq::empty());
            }
        }
    }
}

/// A direction stops exactly when its sending end was closed or one of its ends failed.
pub proof fn tcp_stops_only_when_an_end_does(event: TcpEvent)
    ensures
        tcp_send_step(event) is Stop <==> tcp_recv_step(event) is Stop,
        tcp_send_step(event) is Stop <==> {
            ||| event is ReadFailed
            ||| event is WriteFailed
            ||| event matches TcpEvent::Read(bytes) && bytes@.len() == 0
        },
{
}

// ---------------------------------------------------------------------------
// UDP

/// What happened on the UDP socket that leads to the server.
pub enum UdpRecvEvent {
    /// The socket was opened.
    Started,
    /// This datagram arrived from this address.
    Received(Vec<u8>, SocketAddress),
    /// The datagram that was to be sent was sent.
    Sent,
    /// Receiving or sending failed.
    Failed(std::io::Error),
}

/// What is done next with the UDP socket that leads to the server.
pub enum UdpRecvAction {
    /// Receive a datagram of at most this many bytes.
    Receive(usize),
    /// Send this datagram to this address, out of the relay's own UDP socket.
    Send(Vec<u8>, SocketAddress),
    /// Stop.
    Stop(RelayError),
}

/// The mathematical reading of [`UdpRecvAction`].
pub enum UdpRecvActionView {
    Receive(nat),
    Send(Seq<u8>, SocketAddress),
    Stop(RelayError),
}

impl View for UdpRecvAction {
    type V = UdpRecvActionView;

    open spec fn view(&self) -> UdpRecvActionView {
        match self {
            UdpRecvAction::Receive(n) => UdpRecvActionView::Receive(*n as nat),
            UdpRecvAction::Send(bytes, to) => UdpRecvActionView::Send(bytes@, *to),
            UdpRecvAction::Stop(e) => UdpRecvActionView::Stop(*e),
        }
    }
}

/// How datagrams from the server are passed on: one that comes from the client's server goes to
/// the client's UDP address, one that comes from anywhere else is dropped, a failure stops it.
pub open spec fn udp_recv_step(
    target: SocketAddress,
    client: SocketAddress,
    event: UdpRecvEvent,
) -> UdpRecvActionView {
    match event {
        UdpRecvEvent::Started => UdpRecvActionView::Receive(UDP_BUFFER_LEN as nat),
        UdpRecvEvent::Received(datagram, from) => if from == target {
            UdpRecvActionView::Send(datagram@, client)
        } else {
            UdpRecvActionView::Receive(UDP_BUFFER_LEN as nat)
        },
        UdpRecvEvent::Sent => UdpRecvActionView::Receive(UDP_BUFFER_LEN as nat),
        UdpRecvEvent::Failed(e) => UdpRecvActionView::Stop(RelayError::Socket(e)),
    }
}

/// A client is only ever sent datagrams that its own server sent, unchanged, and only at the
/// address that it claimed.
pub proof fn only_the_server_reaches_the_client(
    target: SocketAddress,
    client: SocketAddress,
    event: UdpRecvEvent,
)
    ensures
        udp_recv_step(target, client, event) matches UdpRecvActionView::Send(bytes, to) ==> {
            &&& to == client
            &&& event matches UdpRecvEvent::Received(datagram, from)
            &&& from == target
            &&& bytes == datagram@
        },
{
}

/// The datagrams that arrived from `target` in a course of events, in order.
pub open spec fn datagrams_from(target: SocketAddress, events: Seq<UdpRecvEvent>) -> Seq<Seq<u8>>
    decreases events.len(),
{
    if events.len() == 0 {
        Seq::empty()
    } else {
        let before = datagrams_from(target, events.drop_last());
        match events.last() {
            UdpRecvEvent::Received(datagram, from) => if from == target {
                before.push(datagram@)
            } else {
                before
            },
            _ => before,
        }
    }
}

/// The datagrams that are sent to a client in a course of events, in order, with the addresses
/// that they are sent to.
pub open spec fn datagrams_sent_down(
    target: SocketAddress,
    client: SocketAddress,
    events: Seq<UdpRecvEvent>,
) -> Seq<(Seq<u8>, SocketAddress)>
    decreases events.len(),
{
    if events.len() == 0 {
        Seq::empty()
    } else {
        let before = datagrams_sent_down(target, client, events.drop_last());
        match udp_recv_step(target, client, events.last()) {
            UdpRecvActionView::Send(datagram, to) => before.push((datagram, to)),
            _ => before,
        }
    }
}

/// Whatever happens on the UDP socket that leads to the server, exactly the datagrams that the
/// server sent go to the client's address, unchanged and in the order of their arrival.
pub proof fn server_datagrams_are_relayed_in_order(
    target: SocketAddress,
    client: SocketAddress,
    events: Seq<UdpRecvEvent>,
)
    ensures
        datagrams_sent_down(target, client, events) == datagrams_from(target, events).map_values(
            |datagram: Seq<u8>| (datagram, client),
        ),
    decreases events.len(),
{
    if events.len() > 0 {
        server_datagrams_are_relayed_in_order(target, client, events.drop_last());
    }
    assert(datagrams_sent_down(target, client, events) =~= datagrams_from(
        target,
        events,
    ).map_values(|datagram: Seq<u8>| (datagram, client)));
}

/// A datagram that is to be sent to the server of a client.
pub struct UdpSend<'a> {
    pub to: SocketAddress,
    pub message: &'a [u8],
}

// ---------------------------------------------------------------------------
// The client as a whole

/// What happened to the traffic of a client.
pub enum ClientEvent {
    /// On the TCP direction from the client to its server.
    TcpSend(TcpEvent),
    /// On the TCP direction from the server to the client.
    TcpRecv(TcpEvent),
    /// On the UDP socket that leads to the server.
    UdpRecv(UdpRecvEvent),
}

/// What is done next for the traffic of a client.
pub enum ClientAction {
    /// On the TCP direction from the client to its server.
    TcpSend(TcpAction),
    /// On the TCP direction from the server to the client.
    TcpRecv(TcpAction),
    /// On the UDP socket that leads to the server.
    UdpRecv(UdpRecvAction),
    /// All of the client's traffic ends, with this result.
    Finish(Result<(), RelayError>),
}

/// The mathematical reading of [`ClientAction`].
pub enum ClientActionView {
    TcpSend(TcpActionView),
    TcpRecv(TcpActionView),
    UdpRecv(UdpRecvActionView),
    Finish(Result<(), RelayError>),
}

impl View for ClientAction {
    type V = ClientActionView;

    open spec fn view(&self) -> ClientActionView {
        match self {
            ClientAction::TcpSend(a) => ClientActionView::TcpSend(a@),
            ClientAction::TcpRecv(a) => ClientActionView::TcpRecv(a@),
            ClientAction::UdpRecv(a) => ClientActionView::UdpRecv(a@),
            ClientAction::Finish(result) => ClientActionView::Finish(*result),
        }
    }
}

/// How the traffic of a client goes on: each part on its own, until the first of them stops,
/// which ends all of them with its error.
pub open spec fn client_step(
    target: SocketAddress,
    client: SocketAddress,
    event: ClientEvent,
) -> ClientActionView {
    match event {
        ClientEvent::TcpSend(e) => match tcp_send_step(e) {
            TcpActionView::Stop(error) => ClientActionView::Finish(Err(error)),
            action => ClientActionView::TcpSend(action),
        },
        ClientEvent::TcpRecv(e) => match tcp_recv_step(e) {
            TcpActionView::Stop(error) => ClientActionView::Finish(Err(error)),
            action => ClientActionView::TcpRecv(action),
        },
        ClientEvent::UdpRecv(e) => match udp_recv_step(target, client, e) {
            UdpRecvActionView::Stop(error) => ClientActionView::Finish(Err(error)),
            action => ClientActionView::UdpRecv(action),
        },
    }
}

/// The traffic of a client never ends of its own accord: where it ends, there is an error. Where
/// it goes on, it goes on with the part that something happened to.
pub proof fn traffic_ends_only_in_an_error(
    target: SocketAddress,
    client: SocketAddress,
    event: ClientEvent,
)
    ensures
        match client_step(target, client, event) {
            ClientActionView::Finish(result) => result is Err,
            ClientActionView::TcpSend(action) => event is TcpSend && !(action is Stop),
            ClientActionView::TcpRecv(action) => event is TcpRecv && !(action is Stop),
            ClientActionView::UdpRecv(action) => event is UdpRecv && !(action is Stop),
        },
{
}

// ---------------------------------------------------------------------------
// What the client as a whole does

/// The bytes that were read from the client in a course of events.
pub open spec fn read_from_client(events: Seq<ClientEvent>) -> Seq<u8>
    decreases events.len(),
{
    if events.len() == 0 {
        Seq::empty()
    } else {
        read_from_client(events.drop_last()) + match events.last() {
            ClientEvent::TcpSend(TcpEvent::Read(bytes)) => bytes@,
            _ => Seq::empty(),
        }
    }
}

/// The bytes that were read from the server in a course of events.
pub open spec fn read_from_server(events: Seq<ClientEvent>) -> Seq<u8>
    decreases events.len(),
{
    if events.len() == 0 {
        Seq::empty()
    } else {
        read_from_server(events.drop_last()) + match events.last() {
            ClientEvent::TcpRecv(TcpEvent::Read(bytes)) => bytes@,
            _ => Seq::empty(),
        }
    }
}

/// The bytes that the actions of the client as a whole write to its server in a course of events.
pub open spec fn written_to_server(
    target: SocketAddress,
    client: SocketAddress,
    events: Seq<ClientEvent>,
) -> Seq<u8>
    decreases events.len(),
{
    if events.len() == 0 {
        Seq::empty()
    } else {
        written_to_server(target, client, events.drop_last()) + match client_step(
            target,
            client,
            events.last(),
        ) {
            ClientActionView::TcpSend(TcpActionView::Write(bytes)) => bytes,
            _ => Seq::empty(),
        }
    }
}

/// The bytes that the actions of the client as a whole write to the client in a course of events.
pub open spec fn written_to_client(
    target: SocketAddress,
    client: SocketAddress,
    events: Seq<ClientEvent>,
) -> Seq<u8>
    decreases events.len(),
{
    if events.len() == 0 {
        Seq::empty()
    } else {
        written_to_client(target, client, events.drop_last()) + match client_step(
            target,
            client,
            events.last(),
        ) {
            ClientActionView::TcpRecv(TcpActionView::Write(bytes)) => bytes,
            _ => Seq::empty(),
        }
    }
}

/// The datagrams that arrived from the server in a course of events, in order.
pub open spec fn datagrams_of_server(
    target: SocketAddress,
    events: Seq<ClientEvent>,
) -> Seq<Seq<u8>>
    decreases events.len(),
{
    if events.len() == 0 {
        Seq::empty()
    } else {
        let before = datagrams_of_server(target, events.drop_last());
        match events.last() {
            ClientEvent::UdpRecv(UdpRecvEvent::Received(datagram, from)) => if from == target {
                before.push(datagram@)
            } else {
                before
            },
            _ => before,
        }
    }
}

/// The datagrams that the actions of the client as a whole send in a course of events, in order,
/// with the addresses that they are sent to.
pub open spec fn datagrams_sent(
    target: SocketAddress,
    client: SocketAddress,
    events: Seq<ClientEvent>,
) -> Seq<(Seq<u8>, SocketAddress)>
    decreases events.len(),
{
    if events.len() == 0 {
        Seq::empty()
    } else {
        let before = datagrams_sent(target, client, events.drop_last());
        match client_step(target, client, events.last()) {
            ClientActionView::UdpRecv(UdpRecvActionView::Send(datagram, to)) => before.push(
                (datagram, to),
            ),
            _ => before,
        }
    }
}

/// Over any course of events, of whatever parts and in whatever order, a client as a whole is
/// transparent. What is written to its server is what was read from the client, what is written
/// to the client is what was read from its server, and the datagrams that are sent are those of
/// its server, to its UDP address: all of it byte for byte and in order.
pub proof fn traffic_of_a_client_is_passed_on(
    target: SocketAddress,
    client: SocketAddress,
    events: Seq<ClientEvent>,
)
    ensures
        written_to_server(target, client, events) == read_from_client(events),
        written_to_client(target, client, events) == read_from_server(events),
        datagrams_sent(target, client, events) == datagrams_of_server(target, events).map_values(
            |datagram: Seq<u8>| (datagram, client),
        ),
    decreases events.len(),
{
    if events.len() > 0 {
        traffic_of_a_client_is_passed_on(target, client, events.drop_last());
        match events.last() {
            ClientEvent::TcpSend(TcpEvent::Read(bytes)) => {
                if bytes@.len() == 0 {
                    assert(bytes@ =~= Seq::empty());
                }
            },
            ClientEvent::TcpRecv(TcpEvent::Read(bytes)) => {
                if bytes@.len() == 0 {
                    assert(bytes@ =~= Seq::empty());
                }
            },
            _ => {},
        }
    }
    assert(datagrams_sent(target, client, events) =~= datagrams_of_server(
        target,
        events,
    ).map_values(|datagram: Seq<u8>| (datagram, client)));
}

/// Bytes that were read are written at once, in either direction, to the other end.
pub proof fn bytes_that_were_read_are_written(
    target: SocketAddress,
    client: SocketAddress,
    bytes: Vec<u8>,
)
    requires
        bytes@.len() > 0,
    ensures
        tcp_send_step(TcpEvent::Read(bytes)) == TcpActionView::Write(bytes@),
        tcp_recv_step(TcpEvent::Read(bytes)) == TcpActionView::Write(bytes@),
        client_step(target, client, ClientEvent::TcpSend(TcpEvent::Read(bytes)))
            == ClientActionView::TcpSend(TcpActionView::Write(bytes@)),
        client_step(target, client, ClientEvent::TcpRecv(TcpEvent::Read(bytes)))
            == ClientActionView::TcpRecv(TcpActionView::Write(bytes@)),
{
}

/// At its start and after each write, a direction of the TCP connection reads up to 8192 bytes.
pub proof fn tcp_goes_on_with_a_read(
    target: SocketAddress,
    client: SocketAddress,
    event: TcpEvent,
)
    requires
        event is Started || event is Written,
    ensures
        tcp_send_step(event) == TcpActionView::Read(8192),
        tcp_recv_step(event) == TcpActionView::Read(8192),
        client_step(target, client, ClientEvent::TcpSend(event)) == ClientActionView::TcpSend(
            TcpActionView::Read(8192),
        ),
        client_step(target, client, ClientEvent::TcpRecv(event)) == ClientActionView::TcpRecv(
            TcpActionView::Read(8192),
        ),
{
}

/// An end that was closed ends the traffic of the client, and is named as the reason.
pub proof fn closed_end_ends_the_traffic(
    target: SocketAddress,
    client: SocketAddress,
    nothing: Vec<u8>,
)
    requires
        nothing@.len() == 0,
    ensures
        tcp_send_step(TcpEvent::Read(nothing)) == TcpActionView::Stop(RelayError::Closed),
        tcp_recv_step(TcpEvent::Read(nothing)) == TcpActionView::Stop(RelayError::Closed),
        client_step(target, client, ClientEvent::TcpSend(TcpEvent::Read(nothing)))
            == ClientActionView::Finish(Err(RelayError::Closed)),
        client_step(target, client, ClientEvent::TcpRecv(TcpEvent::Read(nothing)))
            == ClientActionView::Finish(Err(RelayError::Closed)),
{
}

/// A failure of a TCP connection ends the traffic of the client with that failure. It is the
/// client's where the client was read from or written to, and the server's where the server was.
pub proof fn failures_are_put_down_to_their_end(
    target: SocketAddress,
    client: SocketAddress,
    e: std::io::Error,
)
    ensures
        ({
            let down = RelayError::DownstreamSocketFail(e);
            let up = RelayError::UpstreamSocketFail(e);
            let read = TcpEvent::ReadFailed(e);
            let write = TcpEvent::WriteFailed(e);
            &&& tcp_send_step(read) == TcpActionView::Stop(down)
            &&& tcp_send_step(write) == TcpActionView::Stop(up)
            &&& tcp_recv_step(read) == TcpActionView::Stop(up)
            &&& tcp_recv_step(write) == TcpActionView::Stop(down)
            &&& client_step(target, client, ClientEvent::TcpSend(read))
                == ClientActionView::Finish(Err(down))
            &&& client_step(target, client, ClientEvent::TcpSend(write))
                == ClientActionView::Finish(Err(up))
            &&& client_step(target, client, ClientEvent::TcpRecv(read))
                == ClientActionView::Finish(Err(up))
            &&& client_step(target, client, ClientEvent::TcpRecv(write))
                == ClientActionView::Finish(Err(down))
        }),
{
}

/// A datagram of the server is sent to the client's UDP address, whole, however long it is; one
/// from anywhere else is not answered in any way, and the next one is received.
pub proof fn datagrams_go_to_the_client_or_nowhere(
    target: SocketAddress,
    client: SocketAddress,
    datagram: Vec<u8>,
    from: SocketAddress,
)
    ensures
        ({
            let event = UdpRecvEvent::Received(datagram, from);
            let action = if from == target {
                UdpRecvActionView::Send(datagram@, client)
            } else {
                UdpRecvActionView::Receive(65536)
            };
            &&& udp_recv_step(target, client, event) == action
            &&& client_step(target, client, ClientEvent::UdpRecv(event))
                == ClientActionView::UdpRecv(action)
        }),
{
}

/// At its start and after each datagram that was sent, the UDP socket that leads to the server
/// receives the next one, of up to 65536 bytes; a failure of it ends the traffic of the client.
pub proof fn udp_goes_on_until_it_fails(
    target: SocketAddress,
    client: SocketAddress,
    e: std::io::Error,
)
    ensures
        udp_recv_step(target, client, UdpRecvEvent::Started) == UdpRecvActionView::Receive(65536),
        udp_recv_step(target, client, UdpRecvEvent::Sent) == UdpRecvActionView::Receive(65536),
        udp_recv_step(target, client, UdpRecvEvent::Failed(e)) == UdpRecvActionView::Stop(
            RelayError::Socket(e),
        ),
        client_step(target, client, ClientEvent::UdpRecv(UdpRecvEvent::Started))
            == ClientActionView::UdpRecv(UdpRecvActionView::Receive(65536)),
        client_step(target, client, ClientEvent::UdpRecv(UdpRecvEvent::Sent))
            == ClientActionView::UdpRecv(UdpRecvActionView::Receive(65536)),
        client_step(target, client, ClientEvent::UdpRecv(UdpRecvEvent::Failed(e)))
            == ClientActionView::Finish(Err(RelayError::Socket(e))),
{
}

/// The reading of an action keeps its kind, its bytes, its address and its error.
pub proof fn traffic_actions_read_as_they_stand(
    n: usize,
    bytes: Vec<u8>,
    to: SocketAddress,
    error: RelayError,
    tcp: TcpAction,
    udp: UdpRecvAction,
    result: Result<(), RelayError>,
)
    ensures
        TcpAction::Read(n)@ == TcpActionView::Read(n as nat),
        TcpAction::Write(bytes)@ == TcpActionView::Write(bytes@),
        TcpAction::Stop(error)@ == TcpActionView::Stop(error),
        UdpRecvAction::Receive(n)@ == UdpRecvActionView::Receive(n as nat),
        UdpRecvAction::Send(bytes, to)@ == UdpRecvActionView::Send(bytes@, to),
        UdpRecvAction::Stop(error)@ == UdpRecvActionView::Stop(error),
        ClientAction::TcpSend(tcp)@ == ClientActionView::TcpSend(tcp@),
        ClientAction::TcpRecv(tcp)@ == ClientActionView::TcpRecv(tcp@),
        ClientAction::UdpRecv(udp)@ == ClientActionView::UdpRecv(udp@),
        ClientAction::Finish(result)@ == ClientActionView::Finish(result),
{
}

impl<D, U> RelayClient<D, U> {
    /// Takes the TCP direction from the client to its server one event further.
    pub fn run_tcp_send_loop(&self, event: TcpEvent) -> (action: TcpAction)
        requires
            event matches TcpEvent::Read(bytes) && bytes@.len() > 0 ==> self@.upstream is Some,
        ensures
            action@ == tcp_send_step(event),
    {
        match event {
            TcpEvent::Started => TcpAction::Read(TCP_BUFFER_LEN),
            TcpEvent::Read(bytes) => if bytes.len() == 0 {
                TcpAction::Stop(RelayError::Closed)
            } else {
                TcpAction::Write(bytes)
            },
            TcpEvent::ReadFailed(e) => TcpAction::Stop(RelayError::DownstreamSocketFail(e)),
            TcpEvent::Written => TcpAction::Read(TCP_BUFFER_LEN),
            TcpEvent::WriteFailed(e) => TcpAction::Stop(RelayError::UpstreamSocketFail(e)),
        }
    }

    /// Takes the TCP direction from the server to the client one event further.
    pub fn run_tcp_recv_loop(&self, event: TcpEvent) -> (action: TcpAction)
        requires
            self@.upstream is Some,
        ensures
            action@ == tcp_recv_step(event),
    {
        match event {
            TcpEvent::Started => TcpAction::Read(TCP_BUFFER_LEN),
            TcpEvent::Read(bytes) => if bytes.len() == 0 {
                TcpAction::Stop(RelayError::Closed)
            } else {
                TcpAction::Write(bytes)
            },
            TcpEvent::ReadFailed(e) => TcpAction::Stop(RelayError::UpstreamSocketFail(e)),
            TcpEvent::Written => TcpAction::Read(TCP_BUFFER_LEN),
            TcpEvent::WriteFailed(e) => TcpAction::Stop(RelayError::DownstreamSocketFail(e)),
        }
    }

    /// Takes the datagrams from the server one event further.
    pub fn run_udp_recv_loop(&self, event: UdpRecvEvent) -> (action: UdpRecvAction)
        requires
            self@.upstream is Some,
            event matches UdpRecvEvent::Received(_, from) ==> {
                &&& self@.relay_target is Some
                &&& self@.relay_target == Some(from) ==> self@.peer_udp_address is Some
            },
        ensures
            action@ == udp_recv_step(
                self@.relay_target->Some_0,
                self@.peer_udp_address->Some_0,
                event,
            ),
    {
        match event {
            UdpRecvEvent::Started => UdpRecvAction::Receive(UDP_BUFFER_LEN),
            UdpRecvEvent::Received(datagram, from) => {
                let target: SocketAddress = *self.get_relay_target().unwrap();
                if from != target {
                    UdpRecvAction::Receive(UDP_BUFFER_LEN)
                } else {
                    UdpRecvAction::Send(datagram, *self.get_udp_peer().unwrap())
                }
            },
            UdpRecvEvent::Sent => UdpRecvAction::Receive(UDP_BUFFER_LEN),
            UdpRecvEvent::Failed(e) => UdpRecvAction::Stop(RelayError::from(e)),
        }
    }

    /// Takes the traffic of a client one event further.
    pub fn run_client(cl: &RelayClient<D, U>, event: ClientEvent) -> (action: ClientAction)
        requires
            cl@.upstream is Some,
            event matches ClientEvent::UdpRecv(UdpRecvEvent::Received(_, from)) ==> {
                &&& cl@.relay_target is Some
                &&& cl@.relay_target == Some(from) ==> cl@.peer_udp_address is Some
            },
        ensures
            action@ == client_step(
                cl@.relay_target->Some_0,
                cl@.peer_udp_address->Some_0,
                event,
            ),
            event matches ClientEvent::TcpSend(TcpEvent::Read(bytes)) ==> (bytes@.len() > 0 ==> {
                &&& action matches ClientAction::TcpSend(TcpAction::Write(out))
                &&& out@ == bytes@
            }),
            event matches ClientEvent::TcpRecv(TcpEvent::Read(bytes)) ==> (bytes@.len() > 0 ==> {
                &&& action matches ClientAction::TcpRecv(TcpAction::Write(out))
                &&& out@ == bytes@
            }),
            event matches ClientEvent::UdpRecv(UdpRecvEvent::Received(datagram, from)) ==> (
            cl@.relay_target == Some(from) ==> {
                &&& action matches ClientAction::UdpRecv(UdpRecvAction::Send(out, to))
                &&& out@ == datagram@
                &&& cl@.peer_udp_address == Some(to)
            }),
    {
        match event {
            ClientEvent::TcpSend(e) => match cl.run_tcp_send_loop(e) {
                TcpAction::Stop(error) => ClientAction::Finish(Err(error)),
                action => ClientAction::TcpSend(action),
            },
            ClientEvent::TcpRecv(e) => match cl.run_tcp_recv_loop(e) {
                TcpAction::Stop(error) => ClientAction::Finish(Err(error)),
                action => ClientAction::TcpRecv(action),
            },
            ClientEvent::UdpRecv(e) => match cl.run_udp_recv_loop(e) {
                UdpRecvAction::Stop(error) => ClientAction::Finish(Err(error)),
                action => ClientAction::UdpRecv(action),
            },
        }
    }

    /// Where a datagram of the client goes: unchanged to its server, out of the UDP socket that
    /// leads there.
    pub fn push_new_udp_message<'a>(&self, message: &'a [u8]) -> (send: UdpSend<'a>)
        requires
            self@.relay_target is Some,
            self@.upstream is Some,
        ensures
            self@.relay_target == Some(send.to),
            send.message@ == message@,
    {
        UdpSend { to: *self.get_relay_target().unwrap(), message }
    }
}

} // verus!
