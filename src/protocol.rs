//! Wire vocabularies of the transports, and the "simple" transport's engine.
use vstd::prelude::*;

pub mod auth;
pub mod http;
pub mod krypton;
pub mod simple;
pub mod socket;
pub mod tcp;
pub mod udp;

use crate::BoundedText;

verus! {

#[verifier::external_type_specification]
#[verifier::external_body]
pub struct ExAnyhowError(anyhow::Error);

/// A failure description of at most 100 bytes.
pub type FailureMessage = BoundedText<100>;

/// Relies on anyhow's `Error::chain`: the text of the outermost error in the
/// chain, which always holds at least the error itself.
#[verifier::external_body]
fn outermost_error_text(err: &anyhow::Error) -> (r: Option<String>) {
    err.chain().next().map(|c| c.to_string())
}

/// The failure description that carries `text`, where it fits in 100 bytes.
pub fn failure_message(text: Option<String>) -> (r: Option<FailureMessage>)
    ensures
        r is Some <==> (text matches Some(t) && FailureMessage::byte_len(t@) <= 100),
        r matches Some(m) ==> m@ == text->0@,
{
    match text {
        Some(t) => FailureMessage::from_str(t.as_str()),
        None => None,
    }
}

/// The failure description of an error: the text of its outermost cause,
/// where it fits.
pub(crate) fn error_failure_message(err: &anyhow::Error) -> (r: Option<FailureMessage>) {
    failure_message(outermost_error_text(err))
}

} // verus!
