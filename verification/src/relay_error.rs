//! What can go wrong with a connection, and how it is put into words.
use vstd::prelude::*;

verus! {

/// Declares `std::io::Error`, the error that socket operations report. It is carried through
/// unopened; only its own wording of itself is ever used.
#[verifier::external_type_specification]
#[verifier::external_body]
pub struct ExIoError(std::io::Error);

/// Whether `error` can word itself as `text`. The wording comes from the system, so the same
/// error can have more than one.
pub open spec fn words_itself(error: std::io::Error, text: Seq<char>) -> bool {
    exists|s: String| #[trigger] vstd::string::to_string_from_display_ensures(&error, s) && s@ == text
}

/// How a socket error words itself.
fn cause_text(error: &std::io::Error) -> (text: String)
    ensures
        words_itself(*error, text@),
{
    error.to_string()
}

/// Why a connection was refused or ended.
#[derive(Debug)]
pub enum RelayError {
    Socket(std::io::Error),
    InvalidMagic,
    InvalidHost,
    DisallowedHost,
    InternalError,
    Closed,
    UpstreamSocketFail(std::io::Error),
    DownstreamSocketFail(std::io::Error),
}

impl From<std::io::Error> for RelayError {
    fn from(value: std::io::Error) -> (error: Self) {
        RelayError::Socket(value)
    }
}

impl vstd::std_specs::convert::FromSpecImpl<std::io::Error> for RelayError {
    open spec fn obeys_from_spec() -> bool {
        true
    }

    open spec fn from_spec(value: std::io::Error) -> Self {
        RelayError::Socket(value)
    }
}

impl RelayError {
    /// The socket error behind this error, where there is one.
    pub open spec fn cause(self) -> Option<std::io::Error> {
        match self {
            RelayError::Socket(e) => Some(e),
            RelayError::UpstreamSocketFail(e) => Some(e),
            RelayError::DownstreamSocketFail(e) => Some(e),
            _ => None,
        }
    }

    /// The words for this error when `cause` is how its socket error, if any, words itself.
    pub open spec fn message(self, cause: Seq<char>) -> Seq<char> {
        match self {
            RelayError::Socket(_) => "Socket error: "@ + cause,
            RelayError::InvalidMagic => "Invalid magic sent by the client"@,
            RelayError::InvalidHost => "Invalid host was sent by the client"@,
            RelayError::DisallowedHost => "Disallowed host"@,
            RelayError::InternalError => "Internal error, check other logs for more information"@,
            RelayError::Closed => "One of the ends of the connection was closed"@,
            RelayError::UpstreamSocketFail(_) => "Upstream socket failure: "@ + cause,
            RelayError::DownstreamSocketFail(_) => "Downstream socket failure: "@ + cause,
        }
    }

    /// Whether `text` puts this error into words. An error without a socket error behind it has
    /// exactly one such text.
    pub open spec fn worded_as(self, text: Seq<char>) -> bool {
        exists|cause: Seq<char>|
            (self.cause() matches Some(e) ==> words_itself(e, cause)) && text
                == #[trigger] self.message(cause)
    }

    /// Words this error, given how its socket error words itself.
    pub fn describe(&self, cause: &str) -> (text: String)
        ensures
            text@ == self.message(cause@),
    {
        match self {
            RelayError::Socket(_) => "Socket error: ".to_owned().concat(cause),
            RelayError::InvalidMagic => "Invalid magic sent by the client".to_owned(),
            RelayError::InvalidHost => "Invalid host was sent by the client".to_owned(),
            RelayError::DisallowedHost => "Disallowed host".to_owned(),
            RelayError::InternalError =>
                "Internal error, check other logs for more information".to_owned(),
            RelayError::Closed => "One of the ends of the connection was closed".to_owned(),
            RelayError::UpstreamSocketFail(_) =>
                "Upstream socket failure: ".to_owned().concat(cause),
            RelayError::DownstreamSocketFail(_) =>
                "Downstream socket failure: ".to_owned().concat(cause),
        }
    }

    /// This error in words, as a refused client is told them.
    pub fn to_string(&self) -> (text: String)
        ensures
            self.worded_as(text@),
    {
        match self {
            RelayError::Socket(e)
            | RelayError::UpstreamSocketFail(e)
            | RelayError::DownstreamSocketFail(e) => self.describe(cause_text(e).as_str()),
            _ => self.describe(""),
        }
    }
}

/// Every wording of a socket error is what the error itself displays.
pub proof fn wording_comes_from_the_error(e: std::io::Error, text: Seq<char>)
    requires
        words_itself(e, text),
    ensures
        exists|s: String|
            #[trigger] vstd::string::to_string_from_display_ensures(&e, s) && s@ == text,
{
}

/// A socket error that is not put down to one end becomes a plain socket error that carries it.
pub proof fn socket_errors_are_carried(e: std::io::Error)
    ensures
        <RelayError as vstd::std_specs::convert::FromSpec<std::io::Error>>::from_spec(e)
            == RelayError::Socket(e),
{
}

/// A failure of a socket is worded as a prefix that says where it happened, followed by the wording
/// of the socket error, whole.
pub proof fn socket_failures_say_where_and_why(e: std::io::Error, cause: Seq<char>)
    ensures
        RelayError::Socket(e).message(cause) == "Socket error: "@ + cause,
        RelayError::UpstreamSocketFail(e).message(cause) == "Upstream socket failure: "@ + cause,
        RelayError::DownstreamSocketFail(e).message(cause) == "Downstream socket failure: "@
            + cause,
        RelayError::Socket(e).cause() == Some(e),
        RelayError::UpstreamSocketFail(e).cause() == Some(e),
        RelayError::DownstreamSocketFail(e).cause() == Some(e),
{
}

/// An error without a socket error behind it always has the same words.
pub proof fn other_errors_have_fixed_words(text: Seq<char>)
    ensures
        RelayError::InvalidMagic.worded_as(text) <==> text == "Invalid magic sent by the client"@,
        RelayError::InvalidHost.worded_as(text) <==> text
            == "Invalid host was sent by the client"@,
        RelayError::DisallowedHost.worded_as(text) <==> text == "Disallowed host"@,
        RelayError::InternalError.worded_as(text) <==> text
            == "Internal error, check other logs for more information"@,
        RelayError::Closed.worded_as(text) <==> text
            == "One of the ends of the connection was closed"@,
{
    let none = Seq::<char>::empty();
    assert(RelayError::InvalidMagic.message(none) == "Invalid magic sent by the client"@);
    assert(RelayError::InvalidHost.message(none) == "Invalid host was sent by the client"@);
    assert(RelayError::DisallowedHost.message(none) == "Disallowed host"@);
    assert(RelayError::InternalError.message(none)
        == "Internal error, check other logs for more information"@);
    assert(RelayError::Closed.message(none) == "One of the ends of the connection was closed"@);
}

/// The words of an error with a socket error behind it end in a wording of that socket error.
pub proof fn words_of_a_failure_hold_its_cause(e: std::io::Error, text: Seq<char>)
    ensures
        RelayError::Socket(e).worded_as(text) <==> exists|cause: Seq<char>|
            #[trigger] words_itself(e, cause) && text == "Socket error: "@ + cause,
        RelayError::UpstreamSocketFail(e).worded_as(text) <==> exists|cause: Seq<char>|
            #[trigger] words_itself(e, cause) && text == "Upstream socket failure: "@ + cause,
        RelayError::DownstreamSocketFail(e).worded_as(text) <==> exists|cause: Seq<char>|
            #[trigger] words_itself(e, cause) && text == "Downstream socket failure: "@ + cause,
{
    assert forall|cause: Seq<char>| #[trigger] words_itself(e, cause) implies {
        &&& RelayError::Socket(e).worded_as("Socket error: "@ + cause)
        &&& RelayError::UpstreamSocketFail(e).worded_as("Upstream socket failure: "@ + cause)
        &&& RelayError::DownstreamSocketFail(e).worded_as("Downstream socket failure: "@ + cause)
    } by {
        assert(RelayError::Socket(e).message(cause) == "Socket error: "@ + cause);
        assert(RelayError::UpstreamSocketFail(e).message(cause) == "Upstream socket failure: "@
            + cause);
        assert(RelayError::DownstreamSocketFail(e).message(cause) == "Downstream socket failure: "@
            + cause);
    }
}

} // verus!
