//! Credentials that a device presents on connectionless transports.
use vstd::prelude::*;

use crate::{BoundedText, DeviceId};

verus! {

/// A device's secret key, at most 64 bytes.
pub type AuthKey = BoundedText<64>;

/// A device and the key that authenticates it.
#[derive(Clone, Debug)]
pub struct AuthPair {
    pub id: DeviceId,
    pub key: AuthKey,
}

} // verus!
