//! Messages of the plain socket transport.
use vstd::prelude::*;

pub use crate::protocol::FailureMessage;
use crate::protocol::error_failure_message;
use crate::{DeviceId, SceneId, UpdateNotification, UpdateRequest};

verus! {

/// Message sent from clients to the server.
#[derive(Clone, Debug)]
#[non_exhaustive]
pub enum ServerBoundSocketMessage {
    UpdateRequest(UpdateRequest),
    ActivateScene(SceneId),
    StateQuery { device_id: DeviceId },
}

/// Message sent from the server to clients.
#[derive(Clone, Debug)]
#[non_exhaustive]
pub enum ClientBoundSocketMessage {
    Unimplemented,
    RequestReceived,
    UpdateNotification(UpdateNotification),
    Failure(Option<FailureMessage>),
}

impl From<anyhow::Error> for ClientBoundSocketMessage {
    /// A failure carrying the error's outermost description, where it fits.
    fn from(err: anyhow::Error) -> (r: Self)
        ensures
            r is Failure,
    {
        ClientBoundSocketMessage::Failure(error_failure_message(&err))
    }
}

impl vstd::std_specs::convert::FromSpecImpl<anyhow::Error> for ClientBoundSocketMessage {
    open spec fn obeys_from_spec() -> bool {
        false
    }

    open spec fn from_spec(v: anyhow::Error) -> Self {
        ClientBoundSocketMessage::Failure(None)
    }
}

} // verus!
