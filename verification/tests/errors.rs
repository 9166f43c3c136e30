use std::io::{Error, ErrorKind};

use globed_relay::relay_error::RelayError;

fn broken() -> Error {
    Error::new(ErrorKind::Other, "it broke")
}

#[test]
fn wording_of_every_error() {
    assert_eq!(
        RelayError::Socket(broken()).to_string(),
        "Socket error: it broke"
    );
    assert_eq!(
        RelayError::InvalidMagic.to_string(),
        "Invalid magic sent by the client"
    );
    assert_eq!(
        RelayError::InvalidHost.to_string(),
        "Invalid host was sent by the client"
    );
    assert_eq!(RelayError::DisallowedHost.to_string(), "Disallowed host");
    assert_eq!(
        RelayError::InternalError.to_string(),
        "Internal error, check other logs for more information"
    );
    assert_eq!(
        RelayError::Closed.to_string(),
        "One of the ends of the connection was closed"
    );
    assert_eq!(
        RelayError::UpstreamSocketFail(broken()).to_string(),
        "Upstream socket failure: it broke"
    );
    assert_eq!(
        RelayError::DownstreamSocketFail(broken()).to_string(),
        "Downstream socket failure: it broke"
    );
}

#[test]
fn wording_with_a_given_cause() {
    assert_eq!(
        RelayError::UpstreamSocketFail(broken()).describe("gone"),
        "Upstream socket failure: gone"
    );
    assert_eq!(RelayError::DisallowedHost.describe("gone"), "Disallowed host");
}

#[test]
fn socket_errors_convert() {
    assert!(matches!(RelayError::from(broken()), RelayError::Socket(_)));
    let result: Result<(), RelayError> = Err(broken()).map_err(RelayError::from);
    assert_eq!(result.unwrap_err().to_string(), "Socket error: it broke");
}
