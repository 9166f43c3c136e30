//! Socket addresses as plain numbers.
use vstd::prelude::*;

verus! {

/// An IP address with a port. Two addresses are equal exactly when every part of them is,
/// the flow information and the scope of an IPv6 address among them.
#[derive(Clone, Copy, Debug, PartialEq, Eq, Structural)]
pub enum SocketAddress {
    /// An IPv4 address; its first octet is the most significant byte of `octets`.
    V4 { octets: u32, port: u16 },
    /// An IPv6 address; its first segment is the most significant part of `segments`.
    V6 { segments: u128, port: u16, flowinfo: u32, scope_id: u32 },
}

/// The address that leaves both the IPv4 address and the port to the system: 0.0.0.0:0.
pub open spec fn unspecified_address() -> SocketAddress {
    SocketAddress::V4 { octets: 0, port: 0 }
}

/// The address that `SocketAddr::from_str` reads a text as, if it reads it at all.
pub uninterp spec fn parsed_address(text: Seq<char>) -> Option<SocketAddress>;

/// Calls `str::parse` for `core::net::SocketAddr`. Claimed of it: whether the text is an address,
/// and which one, depends on the text alone. Which texts are addresses is left to the name.
#[verifier::external_body]
pub(crate) fn parse_address(text: &str) -> (address: Option<SocketAddress>)
    ensures
        address == parsed_address(text@),
{
    match text.parse::<core::net::SocketAddr>() {
        Ok(core::net::SocketAddr::V4(a)) => {
            Some(SocketAddress::V4 { octets: u32::from(*a.ip()), port: a.port() })
        },
        Ok(core::net::SocketAddr::V6(a)) => Some(SocketAddress::V6 {
            segments: u128::from(*a.ip()),
            port: a.port(),
            flowinfo: a.flowinfo(),
            scope_id: a.scope_id(),
        }),
        Err(_) => None,
    }
}

/// Whether `address` occurs in `addresses`.
pub fn is_listed(addresses: &Vec<SocketAddress>, address: &SocketAddress) -> (listed: bool)
    ensures
        listed == addresses@.contains(*address),
{
    let mut i: usize = 0;
    while i < addresses.len()
        invariant
            i <= addresses.len(),
            forall|j: int| 0 <= j < i ==> addresses@[j] != *address,
        decreases addresses.len() - i,
    {
        if addresses[i] == *address {
            assert(addresses@[i as int] == *address);
            return true;
        }
        i = i + 1;
    }
    false
}

} // verus!
