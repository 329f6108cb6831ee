//! Messages of the HTTP-carried transport.
use vstd::prelude::*;

pub use crate::protocol::FailureMessage;
use crate::protocol::error_failure_message;
use crate::UpdateRequest;

verus! {

/// Message sent from clients to the server.
#[derive(Clone, Debug)]
#[non_exhaustive]
pub enum ServerBoundHttpMessage {
    UpdateRequest(UpdateRequest),
}

/// Message sent from the server to clients.
#[derive(Clone, Debug)]
#[non_exhaustive]
pub enum ClientBoundHttpMessage {
    Unimplemented,
    RequestReceived,
    Failure(Option<FailureMessage>),
}

impl From<anyhow::Error> for ClientBoundHttpMessage {
    /// A failure carrying the error's outermost description, where it fits.
    fn from(err: anyhow::Error) -> (r: Self)
        ensures
            r is Failure,
    {
        ClientBoundHttpMessage::Failure(error_failure_message(&err))
    }
}

impl vstd::std_specs::convert::FromSpecImpl<anyhow::Error> for ClientBoundHttpMessage {
    open spec fn obeys_from_spec() -> bool {
        false
    }

    open spec fn from_spec(v: anyhow::Error) -> Self {
        ClientBoundHttpMessage::Failure(None)
    }
}

} // verus!
