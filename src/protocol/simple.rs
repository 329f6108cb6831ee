//! The "simple" transport: a hand-rolled authenticated stream over TCP.
use vstd::prelude::*;

pub mod crypto;
pub mod framing;
pub mod session;

pub use crate::protocol::FailureMessage;
use crate::protocol::error_failure_message;
use crate::{DeviceId, UpdateCommand, UpdateNotification};

verus! {

/// Length in bytes of a frame's nonce field.
pub const NONCE_LEN: usize = 4;

/// Length in bytes of a frame's payload-length field.
pub const PAYLOAD_LEN_LEN: usize = 4;

/// Message sent from the server to devices.
#[derive(Clone, Debug)]
#[non_exhaustive]
pub enum DeviceBoundSimpleMessage {
    UpdateCommand(UpdateCommand),
    StateQuery { device_id: DeviceId },
    Failure(Option<FailureMessage>),
}

impl From<anyhow::Error> for DeviceBoundSimpleMessage {
    /// A failure carrying the error's outermost description, where it fits.
    fn from(err: anyhow::Error) -> (r: Self)
        ensures
            r is Failure,
    {
        DeviceBoundSimpleMessage::Failure(error_failure_message(&err))
    }
}

impl vstd::std_specs::convert::FromSpecImpl<anyhow::Error> for DeviceBoundSimpleMessage {
    open spec fn obeys_from_spec() -> bool {
        false
    }

    open spec fn from_spec(v: anyhow::Error) -> Self {
        DeviceBoundSimpleMessage::Failure(None)
    }
}

/// Message sent from devices to the server.
#[derive(Clone, Debug)]
#[non_exhaustive]
pub enum ServerBoundSimpleMessage {
    Identify(DeviceId),
    RequestReceived,
    UpdateNotification(UpdateNotification),
    Failure(Option<FailureMessage>),
}

impl From<anyhow::Error> for ServerBoundSimpleMessage {
    /// A failure carrying the error's outermost description, where it fits.
    fn from(err: anyhow::Error) -> (r: Self)
        ensures
            r is Failure,
    {
        ServerBoundSimpleMessage::Failure(error_failure_message(&err))
    }
}

impl vstd::std_specs::convert::FromSpecImpl<anyhow::Error> for ServerBoundSimpleMessage {
    open spec fn obeys_from_spec() -> bool {
        false
    }

    open spec fn from_spec(v: anyhow::Error) -> Self {
        ServerBoundSimpleMessage::Failure(None)
    }
}

} // verus!

