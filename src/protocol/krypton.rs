//! Messages of the TLS transport that names the device in its SNI value.
use vstd::prelude::*;

pub use crate::protocol::FailureMessage;
use crate::protocol::error_failure_message;
use vstd::utf8::{is_ascii_chars, is_ascii_chars_encode_utf8};

use crate::{append_str, lemma_encode_concat, BoundedText, DeviceId, UpdateCommand, UpdateNotification};

verus! {

/// Message sent from the server to devices.
#[derive(Clone, Debug)]
#[non_exhaustive]
pub enum DeviceBoundKryptonMessage {
    UpdateCommand(UpdateCommand),
    StateQuery { device_id: DeviceId },
    Failure(Option<FailureMessage>),
}

impl From<anyhow::Error> for DeviceBoundKryptonMessage {
    /// A failure carrying the error's outermost description, where it fits.
    fn from(err: anyhow::Error) -> (r: Self)
        ensures
            r is Failure,
    {
        DeviceBoundKryptonMessage::Failure(error_failure_message(&err))
    }
}

impl vstd::std_specs::convert::FromSpecImpl<anyhow::Error> for DeviceBoundKryptonMessage {
    open spec fn obeys_from_spec() -> bool {
        false
    }

    open spec fn from_spec(v: anyhow::Error) -> Self {
        DeviceBoundKryptonMessage::Failure(None)
    }
}

/// Message sent from devices to the server.
#[derive(Clone, Debug)]
#[non_exhaustive]
pub enum ServerBoundKryptonMessage {
    Identify(DeviceId),
    RequestReceived,
    UpdateNotification(UpdateNotification),
    Failure(Option<FailureMessage>),
}

impl From<anyhow::Error> for ServerBoundKryptonMessage {
    /// A failure carrying the error's outermost description, where it fits.
    fn from(err: anyhow::Error) -> (r: Self)
        ensures
            r is Failure,
    {
        ServerBoundKryptonMessage::Failure(error_failure_message(&err))
    }
}

impl vstd::std_specs::convert::FromSpecImpl<anyhow::Error> for ServerBoundKryptonMessage {
    open spec fn obeys_from_spec() -> bool {
        false
    }

    open spec fn from_spec(v: anyhow::Error) -> Self {
        ServerBoundKryptonMessage::Failure(None)
    }
}

/// The SNI value that names a device: `krypton-deviceid=<device_id>`.
pub fn generate_sni(device_id: &DeviceId) -> (r: BoundedText<49>)
    ensures
        r@ == "krypton-deviceid="@ + device_id@,
{
    let prefix = "krypton-deviceid=";
    let id_len = device_id.len();
    proof {
        reveal_strlit("krypton-deviceid=");
        assert(is_ascii_chars(prefix@));
        is_ascii_chars_encode_utf8(prefix@);
        lemma_encode_concat(prefix@, device_id@);
    }
    let mut sni = String::new();
    let ghost empty = sni@;
    append_str(&mut sni, prefix);
    append_str(&mut sni, device_id.as_str());
    assert(sni@ == prefix@ + device_id@) by {
        assert(empty + prefix@ =~= prefix@);
    }
    BoundedText::<49>::from_text(sni)
}

} // verus!
