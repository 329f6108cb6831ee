//! Messages of the raw TCP transport.
use vstd::prelude::*;

pub use crate::protocol::FailureMessage;
use crate::protocol::error_failure_message;
use crate::{DeviceId, UpdateNotification, UpdateRequest};

verus! {

/// Message sent from clients to the server.
#[derive(Clone, Debug)]
#[non_exhaustive]
pub enum ServerBoundTcpMessage {
    UpdateRequest(UpdateRequest),
    StateQuery { device_id: DeviceId },
}

/// Message sent from the server to clients.
#[derive(Clone, Debug)]
#[non_exhaustive]
pub enum ClientBoundTcpMessage {
    Unimplemented,
    RequestReceived,
    UpdateNotification(UpdateNotification),
    Failure(Option<FailureMessage>),
}

impl From<anyhow::Error> for ClientBoundTcpMessage {
    /// A failure carrying the error's outermost description, where it fits.
    fn from(err: anyhow::Error) -> (r: Self)
        ensures
            r is Failure,
    {
        ClientBoundTcpMessage::Failure(error_failure_message(&err))
    }
}

impl vstd::std_specs::convert::FromSpecImpl<anyhow::Error> for ClientBoundTcpMessage {
    open spec fn obeys_from_spec() -> bool {
        false
    }

    open spec fn from_spec(v: anyhow::Error) -> Self {
        ClientBoundTcpMessage::Failure(None)
    }
}

} // verus!
