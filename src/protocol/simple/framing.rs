//! Byte layout of the simple protocol's frames.
//!
//! After the handshake every frame is
//! `[4-byte big-endian nonce][4-byte big-endian length L][L payload bytes][signature]`,
//! and the signature covers everything before it. The one frame sent during the
//! handshake is `[4-byte big-endian length L][L payload bytes]`.
use vstd::prelude::*;

verus! {

/// The big-endian encoding of `n`.
pub open spec fn be_bytes(n: u32) -> Seq<u8> {
    seq![
        (n / 0x100_0000) as u8,
        ((n / 0x1_0000) % 0x100) as u8,
        ((n / 0x100) % 0x100) as u8,
        (n % 0x100) as u8,
    ]
}

/// The number whose big-endian encoding is the four bytes `b`.
pub open spec fn from_be(b: Seq<u8>) -> u32
    recommends
        b.len() == 4,
{
    (b[0] as int * 0x100_0000 + b[1] as int * 0x1_0000 + b[2] as int * 0x100 + b[3] as int) as u32
}

/// What a frame's signature covers: nonce, payload length and payload.
pub open spec fn signed_region(nonce: u32, payload: Seq<u8>) -> Seq<u8> {
    be_bytes(nonce) + be_bytes(payload.len() as u32) + payload
}

/// The handshake frame carrying `payload`: its length, then the payload.
pub open spec fn length_prefixed(payload: Seq<u8>) -> Seq<u8> {
    be_bytes(payload.len() as u32) + payload
}

/// Decoding an encoding gives the number back.
pub proof fn lemma_be_round_trip(n: u32)
    ensures
        from_be(be_bytes(n)) == n,
        be_bytes(n).len() == 4,
{
    let b = be_bytes(n);
    assert(b[0] as int * 0x100_0000 + b[1] as int * 0x1_0000 + b[2] as int * 0x100 + b[3] as int
        == n as int);
}

/// A signed frame read back field by field gives what was sealed: the nonce,
/// the length, the payload and the signature. So the region a receiver
/// rebuilds from those fields is exactly the region the sender signed.
pub proof fn lemma_frame_round_trip(nonce: u32, payload: Seq<u8>, sig: Seq<u8>)
    requires
        payload.len() <= u32::MAX,
    ensures
        ({
            let f = signed_region(nonce, payload) + sig;
            let n = payload.len() as int;
            &&& from_be(f.subrange(0, 4)) == nonce
            &&& from_be(f.subrange(4, 8)) == payload.len()
            &&& f.subrange(8, 8 + n) == payload
            &&& f.subrange(8 + n, f.len() as int) == sig
            &&& signed_region(from_be(f.subrange(0, 4)), f.subrange(8, 8 + n)) == f.subrange(
                0,
                8 + n,
            )
        }),
{
    let f = signed_region(nonce, payload) + sig;
    let n = payload.len() as int;
    lemma_be_round_trip(nonce);
    lemma_be_round_trip(payload.len() as u32);
    assert(f.subrange(0, 4) =~= be_bytes(nonce));
    assert(f.subrange(4, 8) =~= be_bytes(payload.len() as u32));
    assert(f.subrange(8, 8 + n) =~= payload);
    assert(f.subrange(8 + n, f.len() as int) =~= sig);
    assert(f.subrange(0, 8 + n) =~= signed_region(nonce, payload));
}

/// Appends the big-endian encoding of `n` to `out`.
pub fn push_be(out: &mut Vec<u8>, n: u32)
    ensures
        final(out)@ == old(out)@ + be_bytes(n),
{
    out.push((n / 0x100_0000) as u8);
    out.push(((n / 0x1_0000) % 0x100) as u8);
    out.push(((n / 0x100) % 0x100) as u8);
    out.push((n % 0x100) as u8);
    assert(final(out)@ =~= old(out)@ + be_bytes(n));
}

/// The big-endian encoding of `n`.
pub fn to_be_bytes(n: u32) -> (r: Vec<u8>)
    ensures
        r@ == be_bytes(n),
{
    let mut r: Vec<u8> = Vec::new();
    push_be(&mut r, n);
    assert(r@ =~= be_bytes(n));
    r
}

/// The number that four big-endian bytes encode; `None` for any other count
/// of bytes.
pub fn from_be_bytes(b: &[u8]) -> (r: Option<u32>)
    ensures
        r == (if b@.len() == 4 {
            Some(from_be(b@))
        } else {
            None::<u32>
        }),
{
    if b.len() != 4 {
        return None;
    }
    let v: u32 = (b[0] as u32) * 0x100_0000 + (b[1] as u32) * 0x1_0000 + (b[2] as u32) * 0x100
        + (b[3] as u32);
    Some(v)
}

/// The bytes a frame's signature covers, for a payload whose length fits the
/// four-byte length field.
pub fn signed_bytes(nonce: u32, payload: &[u8]) -> (r: Vec<u8>)
    requires
        payload@.len() <= u32::MAX,
    ensures
        r@ == signed_region(nonce, payload@),
{
    let mut r: Vec<u8> = Vec::new();
    push_be(&mut r, nonce);
    push_be(&mut r, payload.len() as u32);
    let mut i: usize = 0;
    while i < payload.len()
        invariant
            0 <= i <= payload@.len(),
            r@ == be_bytes(nonce) + be_bytes(payload@.len() as u32) + payload@.subrange(0, i as int),
        decreases payload@.len() - i,
    {
        r.push(payload[i]);
        i = i + 1;
        assert(r@ =~= be_bytes(nonce) + be_bytes(payload@.len() as u32) + payload@.subrange(
            0,
            i as int,
        ));
    }
    assert(payload@.subrange(0, i as int) =~= payload@);
    r
}

/// The handshake frame carrying `payload`, or `None` where the payload is too
/// long for the four-byte length field.
pub fn length_prefixed_frame(payload: &[u8]) -> (r: Option<Vec<u8>>)
    ensures
        r is Some <==> payload@.len() <= u32::MAX,
        r matches Some(f) ==> f@ == length_prefixed(payload@),
{
    if payload.len() > u32::MAX as usize {
        return None;
    }
    let mut r: Vec<u8> = Vec::new();
    push_be(&mut r, payload.len() as u32);
    let mut i: usize = 0;
    while i < payload.len()
        invariant
            0 <= i <= payload@.len(),
            payload@.len() <= u32::MAX,
            r@ == be_bytes(payload@.len() as u32) + payload@.subrange(0, i as int),
        decreases payload@.len() - i,
    {
        r.push(payload[i]);
        i = i + 1;
        assert(r@ =~= be_bytes(payload@.len() as u32) + payload@.subrange(0, i as int));
    }
    assert(payload@.subrange(0, i as int) =~= payload@);
    Some(r)
}

} // verus!
