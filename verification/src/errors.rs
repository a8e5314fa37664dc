//! Failures of request handling and the response each one becomes.

use vstd::prelude::*;

verus! {

/// An HTTP response reduced to what the relay decides: status and body.
#[derive(Clone, Debug, PartialEq, Eq)]
pub struct Reply {
    pub status: u16,
    /// The headers that the response sets itself, where it sets any.
    pub headers: Option<Vec<(String, String)>>,
    /// The body, where the response has one.
    pub body: Option<String>,
}

/// What went wrong in an unexpected failure: the detail that is kept for the
/// log and never sent to the client.
#[derive(Clone, Debug, PartialEq, Eq)]
pub enum Failure {
    /// The outbound request could not be built or sent; the text says why.
    Transport(String),
    /// The notification endpoint answered with this status, which is not a
    /// success.
    Status(u16),
}

/// A failure of request handling.
#[derive(Clone, Debug, PartialEq, Eq)]
pub enum ServerError {
    /// A response that is already formed and is sent as it is.
    Response(Reply),
    /// Any other failure, with the detail that is kept for the log.
    Other(Failure),
}

impl Reply {
    /// A response that carries only a status: no headers of its own and no
    /// body.
    pub fn from_status(status: u16) -> (r: Reply)
        ensures
            r == (Reply { status, headers: None, body: None }),
    {
        Reply { status, headers: None, body: None }
    }
}

impl ServerError {
    /// What the client is sent for this failure: a formed response as it is,
    /// headers and body included, and for anything else a bare status 500.
    pub open spec fn response_spec(self) -> Reply {
        match self {
            ServerError::Response(reply) => reply,
            ServerError::Other(_) => Reply { status: 500, headers: None, body: None },
        }
    }

    /// The detail that belongs in the log, if this failure has any.
    pub open spec fn detail_spec(self) -> Option<Failure> {
        match self {
            ServerError::Response(_) => None,
            ServerError::Other(detail) => Some(detail),
        }
    }

    /// Turns the failure into the client's response. The detail of an
    /// unexpected failure never reaches the response.
    pub fn into_response(self) -> (r: Reply)
        ensures
            r == self.response_spec(),
    {
        match self {
            ServerError::Response(reply) => reply,
            ServerError::Other(_) => Reply::from_status(500),
        }
    }

    /// The detail to log before the failure is turned into a response.
    pub fn detail(&self) -> (r: Option<&Failure>)
        ensures
            self.detail_spec() matches Some(d) ==> r == Some(&d),
            self.detail_spec() is None ==> r is None,
    {
        match self {
            ServerError::Response(_) => None,
            ServerError::Other(detail) => Some(detail),
        }
    }
}

impl From<Reply> for ServerError {
    fn from(value: Reply) -> (r: ServerError) {
        ServerError::Response(value)
    }
}

impl vstd::std_specs::convert::FromSpecImpl<Reply> for ServerError {
    open spec fn obeys_from_spec() -> bool {
        true
    }

    open spec fn from_spec(value: Reply) -> ServerError {
        ServerError::Response(value)
    }
}

impl From<u16> for ServerError {
    fn from(value: u16) -> (r: ServerError) {
        ServerError::Response(Reply::from_status(value))
    }
}

impl vstd::std_specs::convert::FromSpecImpl<u16> for ServerError {
    open spec fn obeys_from_spec() -> bool {
        true
    }

    open spec fn from_spec(value: u16) -> ServerError {
        ServerError::Response(Reply { status: value, headers: None, body: None })
    }
}

} // verus!
