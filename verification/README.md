# globed-relay

A relay between game clients and a fixed list of servers. A client logs in over TCP and names the
server that it wants to reach; if that server is permitted, the client is asked a question that it
answers with a UDP datagram, which tells the relay where its datagrams come from. Then the relay
connects to the server and passes everything on, unchanged, in both directions.

    globed-relay <listen address> [permitted server]...

## Layout

`src/` is a Verus library that holds every decision of the relay: the bytes on the wire
(`wire`), one client and the setting up of its relay (`relay_client`, `relay_server`), the passing
on of its traffic (`relay_traffic`), and the errors (`relay_error`). Each of them is a function
from a state and an event to the next state and an action, with a contract that says exactly
which. `guarantees` and `routing` state and prove what holds over any course of events: that only
permitted servers are ever connected to, that a client is relayed only once everything is known of
it, that a relayed connection is transparent but for its login, that claims of UDP addresses are
first come, first served, and where datagrams go.

`app/` performs the actions: it owns the sockets, tasks, timers and locks.

## What is trusted

- `address::parse_address` calls the standard library's parser of socket addresses; which texts are
  addresses is not stated.
- `text::text_from_utf8_lossy` calls `String::from_utf8_lossy`.
- `relay_client::draw_number` calls `rand::random`; nothing is assumed of the number.
- `std::io::Error` is carried through unopened.
