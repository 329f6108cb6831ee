//! The connection engine's decisions: the handshake, nonce tracking,
//! sealing and authenticating frames, the connection's life cycle and the
//! events that the supervisor reports when a connection ends.
//!
//! The I/O (connecting, reading and writing the stream, waiting) is done by
//! the caller, which hands each outcome to these functions.
use vstd::prelude::*;

use crate::protocol::simple::crypto::{
    p256_signature, p256_verifies, random_u32, CryptoContext, SIGNATURE_LEN,
};
use crate::protocol::simple::framing::{
    be_bytes, length_prefixed, length_prefixed_frame, signed_bytes, signed_region, to_be_bytes,
};
use crate::protocol::simple::DeviceBoundSimpleMessage;

verus! {

/// Seconds the supervisor waits before each connection attempt.
pub const RECONNECT_DELAY_SECS: u64 = 5;

/// Capacity of each queue between the application and the engine.
pub const CHANNEL_CAPACITY: usize = 8;

/// Why a connection failed, or why one frame could not be used.
#[derive(Clone, Copy, Debug, PartialEq, Eq, Structural)]
pub enum TransportError {
    /// The stream could not be opened.
    ConnectError,
    /// The handshake exchange was short or malformed.
    HandshakeError,
    /// A frame's nonce was not the next one expected.
    NonceMismatch,
    /// A frame's signature did not verify.
    SignatureInvalid,
    /// Reading a frame failed.
    FrameReadError,
    /// Writing a frame failed, or it could not be framed.
    FrameWriteError,
    /// An outbound frame could not be signed.
    SigningError,
    /// The application's outbound queue was closed.
    ChannelClosed,
    /// An authenticated payload could not be decoded.
    PayloadParseError,
}

impl TransportError {
    pub open spec fn spec_is_fatal(self) -> bool {
        !(self is PayloadParseError)
    }

    /// Whether the error ends the connection. Only an undecodable payload
    /// leaves it open.
    pub fn is_fatal(&self) -> (r: bool)
        ensures
            r == self.spec_is_fatal(),
    {
        !matches!(self, TransportError::PayloadParseError)
    }
}

/// What the engine hands the application.
#[derive(Clone, Debug)]
pub enum TransportEvent {
    Connected,
    Disconnected,
    Message(DeviceBoundSimpleMessage),
    Error(TransportError),
}

/// `n + 1`, wrapping at 32 bits.
pub open spec fn next_nonce(n: u32) -> u32 {
    if n == u32::MAX {
        0
    } else {
        (n + 1) as u32
    }
}

/// `seed + k`, wrapping at 32 bits.
pub open spec fn nonce_offset(seed: u32, k: int) -> u32 {
    ((seed + k) % 0x1_0000_0000) as u32
}

/// The nonce counters of one connection: the last nonce received from the
/// peer (the next must be one more) and the last nonce sent.
#[derive(Clone, Copy, Debug, PartialEq, Eq, Structural)]
pub struct Session {
    pub expected_recv: u32,
    pub send: u32,
}

impl Session {
    /// The counters after the handshake: ours starts from the seed we sent,
    /// the peer's from the seed it sent.
    pub fn new(own_seed: u32, peer_seed: u32) -> (r: Session)
        ensures
            r == (Session { expected_recv: own_seed, send: peer_seed }),
    {
        Session { expected_recv: own_seed, send: peer_seed }
    }

    /// The counters after a frame with `nonce` arrives: `None` where it is not
    /// the next nonce, which ends the connection.
    pub open spec fn received(self, nonce: u32) -> Option<Session> {
        if nonce == next_nonce(self.expected_recv) {
            Some(Session { expected_recv: nonce, send: self.send })
        } else {
            None
        }
    }

    /// Checks the nonce of an arriving frame against the next one expected.
    /// The receive counter advances either way; the send counter is left alone.
    pub fn accept_nonce(&mut self, nonce: u32) -> (r: Result<(), TransportError>)
        ensures
            final(self).expected_recv == next_nonce(old(self).expected_recv),
            final(self).send == old(self).send,
            r is Ok <==> old(self).received(nonce) is Some,
            r is Ok ==> old(self).received(nonce) == Some(*final(self)),
            r is Err ==> r == Err::<(), TransportError>(TransportError::NonceMismatch),
    {
        self.expected_recv = self.expected_recv.wrapping_add(1);
        if nonce != self.expected_recv {
            Err(TransportError::NonceMismatch)
        } else {
            Ok(())
        }
    }

    /// Numbers, frames and signs an outbound payload: the send counter
    /// advances, and the frame is `nonce ‖ length ‖ payload ‖ signature` with
    /// the signature over the rest.
    pub fn seal_frame(&mut self, crypto: &CryptoContext, payload: &[u8]) -> (r: Result<
        Vec<u8>,
        TransportError,
    >)
        ensures
            final(self).send == next_nonce(old(self).send),
            final(self).expected_recv == old(self).expected_recv,
            payload@.len() > u32::MAX ==> r == Err::<Vec<u8>, TransportError>(
                TransportError::FrameWriteError,
            ),
            payload@.len() <= u32::MAX ==> match p256_signature(
                crypto.private_key@,
                signed_region(final(self).send, payload@),
            ) {
                Some(sig) => r matches Ok(frame) && frame@ == signed_region(
                    final(self).send,
                    payload@,
                ) + sig && sig.len() == SIGNATURE_LEN,
                None => r == Err::<Vec<u8>, TransportError>(TransportError::SigningError),
            },
    {
        self.send = self.send.wrapping_add(1);
        if payload.len() > u32::MAX as usize {
            return Err(TransportError::FrameWriteError);
        }
        let mut frame = signed_bytes(self.send, payload);
        let sig = match crypto.sign(frame.as_slice()) {
            Some(sig) => sig,
            None => {
                return Err(TransportError::SigningError);
            },
        };
        let ghost unsigned = frame@;
        let mut i: usize = 0;
        while i < sig.len()
            invariant
                0 <= i <= sig@.len(),
                frame@ == unsigned + sig@.subrange(0, i as int),
            decreases sig@.len() - i,
        {
            frame.push(sig[i]);
            i = i + 1;
            assert(frame@ =~= unsigned + sig@.subrange(0, i as int));
        }
        assert(sig@.subrange(0, i as int) =~= sig@);
        Ok(frame)
    }
}

/// Checks the signature of an arriving frame whose nonce was accepted: the
/// server must have signed `nonce ‖ length ‖ payload`.
pub fn authenticate_frame(crypto: &CryptoContext, nonce: u32, payload: &[u8], sig: &[u8]) -> (r:
    Result<(), TransportError>)
    requires
        payload@.len() <= u32::MAX,
    ensures
        r is Ok <==> p256_verifies(crypto.server_public_key@, signed_region(nonce, payload@), sig@),
        r is Err ==> r == Err::<(), TransportError>(TransportError::SignatureInvalid),
        sig@.len() != SIGNATURE_LEN ==> r is Err,
{
    let region = signed_bytes(nonce, payload);
    if crypto.verify(region.as_slice(), sig) {
        Ok(())
    } else {
        Err(TransportError::SignatureInvalid)
    }
}

/// Opens the handshake: a fresh random seed, and the four bytes that send it.
pub fn handshake_hello() -> (r: Result<(u32, Vec<u8>), TransportError>)
    ensures
        r matches Ok((seed, bytes)) ==> bytes@ == be_bytes(seed),
        r is Err ==> r == Err::<(u32, Vec<u8>), TransportError>(TransportError::HandshakeError),
{
    match random_u32() {
        Some(seed) => Ok((seed, to_be_bytes(seed))),
        None => Err(TransportError::HandshakeError),
    }
}

/// The unsigned frame that identifies the device at the end of the
/// handshake: the payload's length, then the payload.
pub fn identify_frame(payload: &[u8]) -> (r: Result<Vec<u8>, TransportError>)
    ensures
        r is Ok <==> payload@.len() <= u32::MAX,
        r matches Ok(f) ==> f@ == length_prefixed(payload@),
        r is Err ==> r == Err::<Vec<u8>, TransportError>(TransportError::HandshakeError),
{
    match length_prefixed_frame(payload) {
        Some(f) => Ok(f),
        None => Err(TransportError::HandshakeError),
    }
}

/// Where one connection stands.
#[derive(Clone, Copy, Debug, PartialEq, Eq, Structural)]
pub enum LinkState {
    /// Opening the stream.
    Connecting,
    /// Our seed was sent; waiting for the peer's.
    Handshaking { own_seed: u32 },
    /// Frames flow, numbered by the session's counters.
    Active(Session),
    /// The connection ended.
    Terminated(TransportError),
}

/// What happened to the connection, as reported by the caller.
#[derive(Clone, Copy, Debug, PartialEq, Eq, Structural)]
pub enum LinkEvent {
    /// The stream opened and `own_seed` was sent.
    Connected { own_seed: u32 },
    /// The peer's seed arrived.
    PeerSeed(u32),
    /// Something failed.
    Failed(TransportError),
    /// The reconnect delay passed.
    Retry,
}

/// The state after `e` in state `s`. A fatal error ends any connection; an
/// event that does not belong to the state leaves it as it is.
pub open spec fn next_state(s: LinkState, e: LinkEvent) -> LinkState {
    match e {
        LinkEvent::Failed(t) => if t.spec_is_fatal() {
            LinkState::Terminated(t)
        } else {
            s
        },
        LinkEvent::Connected { own_seed } => match s {
            LinkState::Connecting => LinkState::Handshaking { own_seed },
            _ => s,
        },
        LinkEvent::PeerSeed(peer) => match s {
            LinkState::Handshaking { own_seed } => LinkState::Active(
                Session { expected_recv: own_seed, send: peer },
            ),
            _ => s,
        },
        LinkEvent::Retry => match s {
            LinkState::Terminated(_) => LinkState::Connecting,
            _ => s,
        },
    }
}

impl LinkState {
    /// A connection that has not started.
    pub fn new() -> (r: LinkState)
        ensures
            r == LinkState::Connecting,
    {
        LinkState::Connecting
    }

    /// The state after `e`.
    pub fn step(self, e: LinkEvent) -> (r: LinkState)
        ensures
            r == next_state(self, e),
    {
        match e {
            LinkEvent::Failed(t) => if t.is_fatal() {
                LinkState::Terminated(t)
            } else {
                self
            },
            LinkEvent::Connected { own_seed } => match self {
                LinkState::Connecting => LinkState::Handshaking { own_seed },
                _ => self,
            },
            LinkEvent::PeerSeed(peer) => match self {
                LinkState::Handshaking { own_seed } => LinkState::Active(
                    Session::new(own_seed, peer),
                ),
                _ => self,
            },
            LinkEvent::Retry => match self {
                LinkState::Terminated(_) => LinkState::Connecting,
                _ => self,
            },
        }
    }
}

/// After any fatal error the next connection starts again from the first step
/// of the handshake, and its counters come from its own seeds alone: nothing
/// of the failed connection survives.
pub proof fn lemma_reconnect_starts_fresh(
    s: LinkState,
    t: TransportError,
    own_seed: u32,
    peer_seed: u32,
)
    requires
        t.spec_is_fatal(),
    ensures
        next_state(s, LinkEvent::Failed(t)) == LinkState::Terminated(t),
        next_state(next_state(s, LinkEvent::Failed(t)), LinkEvent::Retry) == LinkState::Connecting,
        next_state(
            next_state(
                next_state(next_state(s, LinkEvent::Failed(t)), LinkEvent::Retry),
                LinkEvent::Connected { own_seed },
            ),
            LinkEvent::PeerSeed(peer_seed),
        ) == LinkState::Active(Session { expected_recv: own_seed, send: peer_seed }),
{
}

/// The counters after frames with `nonces` arrive in turn; `None` once one is
/// rejected.
pub open spec fn receive_all(s: Session, nonces: Seq<u32>) -> Option<Session>
    decreases nonces.len(),
{
    if nonces.len() == 0 {
        Some(s)
    } else {
        match receive_all(s, nonces.drop_last()) {
            Some(s1) => s1.received(nonces.last()),
            None => None,
        }
    }
}

/// The nonces of `n` frames sent in order after `seed`.
pub open spec fn in_order(seed: u32, n: nat) -> Seq<u32> {
    Seq::new(n, |i: int| nonce_offset(seed, i + 1))
}

/// After `n` frames in order the receive counter is `seed + n` and the send
/// counter is untouched; a frame whose nonce is not the next one is rejected.
pub proof fn lemma_nonce_sequence(s: Session, n: nat, nonce: u32)
    ensures
        receive_all(s, in_order(s.expected_recv, n)) == Some(
            Session { expected_recv: nonce_offset(s.expected_recv, n as int), send: s.send },
        ),
        nonce != nonce_offset(s.expected_recv, 1) ==> s.received(nonce) is None,
    decreases n,
{
    if n > 0 {
        lemma_nonce_sequence(s, (n - 1) as nat, nonce);
        assert(in_order(s.expected_recv, n).drop_last() =~= in_order(
            s.expected_recv,
            (n - 1) as nat,
        ));
        let prev = nonce_offset(s.expected_recv, n - 1);
        assert(next_nonce(prev) == nonce_offset(s.expected_recv, n as int));
    } else {
        assert(in_order(s.expected_recv, n) =~= Seq::<u32>::empty());
    }
}

/// What the supervisor reports when a connection ends: the error, if there
/// was one, then that the connection is gone.
pub fn disconnect_events(outcome: Result<(), TransportError>) -> (r: Vec<TransportEvent>)
    ensures
        outcome is Ok ==> r@ == seq![TransportEvent::Disconnected],
        outcome matches Err(e) ==> r@ == seq![
            TransportEvent::Error(e),
            TransportEvent::Disconnected,
        ],
{
    match outcome {
        Ok(()) => vec![TransportEvent::Disconnected],
        Err(e) => vec![TransportEvent::Error(e), TransportEvent::Disconnected],
    }
}

} // verus!
