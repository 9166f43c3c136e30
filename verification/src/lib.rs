//! The decisions of a relay that stands between game clients and a fixed list of servers.
//!
//! A client opens a TCP connection, names the server that it wants to reach, and claims its
//! UDP address by answering a question with a datagram. From then on its TCP bytes and its
//! datagrams are passed on unchanged in both directions. This crate holds what the relay reads,
//! writes, stores and refuses; sockets, tasks and timers are its caller's.
pub mod address;
pub mod address_table;
pub mod guarantees;
pub mod relay_client;
pub mod relay_error;
pub mod relay_server;
pub mod relay_traffic;
pub mod routing;
pub mod text;
pub mod wire;
