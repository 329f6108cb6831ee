//! Messages of the UDP transport, where every request carries its credentials.
use vstd::prelude::*;

pub use crate::protocol::FailureMessage;
use crate::protocol::error_failure_message;
use crate::protocol::auth::AuthPair;
use crate::{DeviceId, UpdateRequest};

verus! {

/// The largest message that fits one datagram: an Ethernet payload less the
/// IP and UDP headers.
pub const MAX_MSG_LEN: usize = 1500 - 20 - 8;

/// Message sent from clients to the server.
#[derive(Clone, Debug)]
#[non_exhaustive]
pub enum ServerBoundUdpMessage {
    UpdateRequest(AuthPair, UpdateRequest),
    StateQuery { device_id: DeviceId },
}

/// Message sent from the server to clients.
#[derive(Clone, Debug)]
#[non_exhaustive]
pub enum ClientBoundUdpMessage {
    NotAuthenticated,
    UnknownCommand,
    RequestReceived,
    Failure(Option<FailureMessage>),
}

impl From<anyhow::Error> for ClientBoundUdpMessage {
    /// A failure carrying the error's outermost description, where it fits.
    fn from(err: anyhow::Error) -> (r: Self)
        ensures
            r is Failure,
    {
        ClientBoundUdpMessage::Failure(error_failure_message(&err))
    }
}

impl vstd::std_specs::convert::FromSpecImpl<anyhow::Error> for ClientBoundUdpMessage {
    open spec fn obeys_from_spec() -> bool {
        false
    }

    open spec fn from_spec(v: anyhow::Error) -> Self {
        ClientBoundUdpMessage::Failure(None)
    }
}

} // verus!
