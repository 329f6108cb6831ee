//! Device-side core of a home-automation control protocol: the device and
//! update vocabulary, the numeric update evaluator, and the authenticated
//! framing and session logic of the "simple" transport.
use vstd::prelude::*;
use vstd::string::StringSliceAdditionalSpecFns;
use vstd::utf8::{encode_utf8, is_ascii_chars, is_ascii_chars_encode_utf8};

pub mod device_types;
pub mod protocol;
pub mod updates;

use crate::device_types::{
    ceiling_fan::CeilingFanState, color_light::ColorLightState,
    dimmable_light::DimmableLightState, switch::SwitchState,
};
use crate::updates::AttributeUpdate;

verus! {

/// Relies on String::push_str: appends `tail` to the end of `s`.
#[verifier::external_body]
pub(crate) fn append_str(s: &mut String, tail: &str)
    ensures
        final(s)@ == old(s)@ + tail@,
{
    s.push_str(tail)
}

/// UTF-8 text of at most `CAP` bytes.
#[derive(Debug)]
pub struct BoundedText<const CAP: usize> {
    text: String,
}

impl<const CAP: usize> View for BoundedText<CAP> {
    type V = Seq<char>;

    closed spec fn view(&self) -> Seq<char> {
        self.text@
    }
}

impl<const CAP: usize> BoundedText<CAP> {
    #[verifier::type_invariant]
    spec fn fits(&self) -> bool {
        encode_utf8(self.text@).len() <= CAP
    }

    /// The number of bytes of the UTF-8 encoding of `chars`.
    pub open spec fn byte_len(chars: Seq<char>) -> nat {
        encode_utf8(chars).len()
    }

    /// The text, where its UTF-8 encoding takes at most `CAP` bytes.
    pub fn from_str(text: &str) -> (r: Option<Self>)
        ensures
            r is Some <==> Self::byte_len(text@) <= CAP,
            r matches Some(b) ==> b@ == text@,
    {
        if text.as_bytes().len() <= CAP {
            Some(BoundedText { text: text.to_owned() })
        } else {
            None
        }
    }

    /// The text, where its UTF-8 encoding takes at most `CAP` bytes.
    pub fn from_text(text: String) -> (r: Self)
        requires
            Self::byte_len(text@) <= CAP,
        ensures
            r@ == text@,
    {
        BoundedText { text }
    }

    pub fn as_str(&self) -> (r: &str)
        ensures
            r@ == self@,
    {
        self.text.as_str()
    }

    /// The length of the text in bytes.
    pub fn len(&self) -> (r: usize)
        ensures
            r == Self::byte_len(self@),
            r <= CAP,
    {
        proof {
            use_type_invariant(self);
        }
        self.text.as_str().as_bytes().len()
    }
}

impl<const CAP: usize> Clone for BoundedText<CAP> {
    fn clone(&self) -> (r: Self)
        ensures
            r@ == self@,
    {
        proof {
            use_type_invariant(self);
        }
        BoundedText { text: self.text.clone() }
    }
}

/// The encoding of two texts one after the other is the two encodings one
/// after the other.
pub proof fn lemma_encode_concat(a: Seq<char>, b: Seq<char>)
    ensures
        encode_utf8(a + b) == encode_utf8(a) + encode_utf8(b),
    decreases a.len(),
{
    if a.len() == 0 {
        assert(a + b =~= b);
        assert(encode_utf8(a) + encode_utf8(b) =~= encode_utf8(b));
    } else {
        assert((a + b).drop_first() =~= a.drop_first() + b);
        lemma_encode_concat(a.drop_first(), b);
        assert(encode_utf8(a + b) =~= encode_utf8(a) + encode_utf8(b));
    }
}

/// Identifies one physical device to the server.
pub type DeviceId = BoundedText<32>;

/// Identifies a scene.
pub type SceneId = BoundedText<32>;

/// The kinds of device this build understands, and a catch-all.
#[derive(Clone, Copy, Debug, PartialEq, Eq, Structural, Hash)]
#[non_exhaustive]
pub enum DeviceType {
    Switch,
    ColorLight,
    DimmableLight,
    CeilingFan,
    Unknown,
}

/// The state of a device, by kind; `Unknown` stands for a kind that this
/// build does not understand.
#[derive(Clone, Copy, Debug)]
#[non_exhaustive]
pub enum DeviceState {
    Switch(SwitchState),
    ColorLight(ColorLightState),
    DimmableLight(DimmableLightState),
    CeilingFan(CeilingFanState),
    Unknown,
}

impl DeviceState {
    pub open spec fn spec_kind(&self) -> DeviceType {
        match *self {
            DeviceState::Switch(_) => DeviceType::Switch,
            DeviceState::ColorLight(_) => DeviceType::ColorLight,
            DeviceState::DimmableLight(_) => DeviceType::DimmableLight,
            DeviceState::CeilingFan(_) => DeviceType::CeilingFan,
            DeviceState::Unknown => DeviceType::Unknown,
        }
    }

    /// The kind of device this state belongs to.
    pub fn kind(&self) -> (r: DeviceType)
        ensures
            r == self.spec_kind(),
    {
        match self {
            DeviceState::Switch(_) => DeviceType::Switch,
            DeviceState::ColorLight(_) => DeviceType::ColorLight,
            DeviceState::DimmableLight(_) => DeviceType::DimmableLight,
            DeviceState::CeilingFan(_) => DeviceType::CeilingFan,
            DeviceState::Unknown => DeviceType::Unknown,
        }
    }

    /// Whether this state matches `kind`; an unknown state matches every kind.
    pub fn is_kind(&self, kind: DeviceType) -> (r: bool)
        ensures
            r == (self.spec_kind() == DeviceType::Unknown || self.spec_kind() == kind),
    {
        self.kind() == DeviceType::Unknown || self.kind() == kind
    }
}

/// Sent from clients to the server.
#[derive(Clone, Debug)]
pub struct UpdateRequest {
    pub device_id: DeviceId,
    pub change_to: AttributeUpdate,
}

/// Sent from the server to a device.
#[derive(Clone, Debug)]
pub struct UpdateCommand {
    pub device_id: DeviceId,
    pub change_to: AttributeUpdate,
}

/// Sent from devices to the server, and from the server to clients.
#[derive(Clone, Debug)]
pub struct UpdateNotification {
    pub device_id: DeviceId,
    pub reachable: bool,
    pub new_state: DeviceState,
}

} // verus!
