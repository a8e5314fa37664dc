//! The decisions of request handling, from a request to its response.

use vstd::prelude::*;
use crate::config::Config;
use crate::errors::{Failure, Reply, ServerError};
use crate::notify::Outbound;
use crate::submission::{
    declared_of, negotiate, negotiate_of, outcome_view, str_text_of, Rejection, SubmitBody,
    SubmitView,
};

verus! {

/// The relay's request handling. It holds no state: the configuration is
/// handed to each call.
#[derive(Debug)]
pub struct Server;

/// How the one call to the notification endpoint ended.
#[derive(Clone, Debug, PartialEq, Eq)]
pub enum Upstream {
    /// The endpoint answered with this status.
    Answered(u16),
    /// The request could not be built or sent; the text says why.
    Failed(String),
}

/// A status that counts as success: 200 to 299.
pub open spec fn is_success(status: u16) -> bool {
    200 <= status < 300
}

/// What a decoded submission leads to: the request to send, or the
/// response that refuses it.
pub open spec fn forward_holds(
    cfg: Config,
    decoded: Result<SubmitView, Rejection>,
    r: Result<Outbound, ServerError>,
) -> bool {
    match decoded {
        Ok(record) => r matches Ok(request) && request.carries(cfg, record),
        Err(rejection) => r == Err::<Outbound, ServerError>(
            ServerError::Response(Reply { status: rejection.status_spec(), headers: None, body: None }),
        ),
    }
}

impl Server {
    /// The answer to a liveness probe: 204 and no body.
    pub fn health() -> (r: Reply)
        ensures
            r == (Reply { status: 204, headers: None, body: None }),
    {
        Reply::from_status(204)
    }

    /// Turns the outcome of decoding into the request to send. A refused
    /// submission becomes a client error with no body.
    pub fn forward(cfg: &Config, decoded: Result<SubmitBody, Rejection>) -> (r: Result<
        Outbound,
        ServerError,
    >)
        ensures
            forward_holds(*cfg, outcome_view(decoded), r),
    {
        match decoded {
            Ok(record) => Ok(Outbound::compose(cfg, &record)),
            Err(rejection) => Err(rejection.into_error()),
        }
    }

    /// Handles the body of a submission up to the outbound call: decodes it
    /// and composes the notification.
    pub fn accept(cfg: &Config, content_type: Option<&str>, body: &[u8]) -> (r: Result<
        Outbound,
        ServerError,
    >)
        ensures
            forward_holds(
                *cfg,
                negotiate_of(declared_of(str_text_of(content_type)), body@),
                r,
            ),
    {
        Server::forward(cfg, negotiate(content_type, body))
    }

    /// Settles the request once the outbound call has ended: 201 with no
    /// body after a success status, and an unexpected failure otherwise,
    /// which keeps the refused status or the transport's detail for the log.
    pub fn conclude(upstream: Upstream) -> (r: Result<Reply, ServerError>)
        ensures
            match upstream {
                Upstream::Answered(status) => if is_success(status) {
                    r == Ok::<Reply, ServerError>(Reply { status: 201, headers: None, body: None })
                } else {
                    r == Err::<Reply, ServerError>(ServerError::Other(Failure::Status(status)))
                },
                Upstream::Failed(detail) => r == Err::<Reply, ServerError>(
                    ServerError::Other(Failure::Transport(detail)),
                ),
            },
    {
        match upstream {
            Upstream::Answered(status) => {
                if 200 <= status && status < 300 {
                    Ok(Reply::from_status(201))
                } else {
                    Err(ServerError::Other(Failure::Status(status)))
                }
            },
            Upstream::Failed(detail) => Err(ServerError::Other(Failure::Transport(detail))),
        }
    }

    /// The response the client is sent: the handler's own on success, and
    /// otherwise what the failure maps to.
    pub fn respond(outcome: Result<Reply, ServerError>) -> (r: Reply)
        ensures
            r == match outcome {
                Ok(reply) => reply,
                Err(e) => e.response_spec(),
            },
    {
        match outcome {
            Ok(reply) => reply,
            Err(e) => e.into_response(),
        }
    }
}

/// Whatever the outbound call ended in, the client is sent 201 or 500, and
/// neither carries a body or headers: no detail of a failure reaches the
/// client.
pub proof fn lemma_upstream_detail_stays_inside(
    upstream: Upstream,
    outcome: Result<Reply, ServerError>,
)
    requires
        match upstream {
            Upstream::Answered(status) => if is_success(status) {
                outcome == Ok::<Reply, ServerError>(Reply { status: 201, headers: None, body: None })
            } else {
                outcome matches Err(ServerError::Other(_))
            },
            Upstream::Failed(detail) => outcome == Err::<Reply, ServerError>(
                ServerError::Other(Failure::Transport(detail)),
            ),
        },
    ensures
        ({
            let reply = match outcome {
                Ok(reply) => reply,
                Err(e) => e.response_spec(),
            };
            &&& reply.body is None
            &&& reply.headers is None
            &&& reply.status == if upstream matches Upstream::Answered(s) && is_success(s) {
                201u16
            } else {
                500u16
            }
        }),
{
}

} // verus!
