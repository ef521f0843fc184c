//! The framing of messages on the daemon's socket: each message is its
//! length as four big-endian bytes, then the message itself.
use vstd::prelude::*;

verus! {

/// `n` as four big-endian bytes.
pub open spec fn be32(n: nat) -> Seq<u8> {
    seq![(n / 0x100_0000 % 0x100) as u8, (n / 0x1_0000 % 0x100) as u8, (n / 0x100 % 0x100) as u8, (n % 0x100) as u8]
}

/// The number that four big-endian bytes stand for.
pub open spec fn be32_value(b: Seq<u8>) -> nat {
    (b[0] as nat) * 0x100_0000 + (b[1] as nat) * 0x1_0000 + (b[2] as nat) * 0x100 + (b[3] as nat)
}

/// A message as sent: its length, then its bytes.
pub open spec fn framed(payload: Seq<u8>) -> Seq<u8> {
    be32(payload.len()) + payload
}

/// The message sent for `payload`, which must fit the four-byte length.
pub fn frame(payload: &[u8]) -> (r: Vec<u8>)
    requires
        payload.len() <= u32::MAX,
    ensures
        r@ == framed(payload@),
{
    let n = payload.len() as u32;
    let mut out: Vec<u8> = Vec::new();
    out.push((n / 0x100_0000) as u8);
    out.push((n / 0x1_0000 % 0x100) as u8);
    out.push((n / 0x100 % 0x100) as u8);
    out.push((n % 0x100) as u8);
    assert((n as nat) / 0x100_0000 < 0x100) by (nonlinear_arith)
        requires
            n <= u32::MAX,
    ;
    assert(out@ =~= be32(payload.len() as nat));
    let mut i: usize = 0;
    while i < payload.len()
        invariant
            i <= payload.len(),
            payload.len() <= u32::MAX,
            out@ == be32(payload.len() as nat) + payload@.take(i as int),
        decreases payload.len() - i,
    {
        out.push(payload[i]);
        assert(payload@.take(i + 1) == payload@.take(i as int).push(payload@[i as int]));
        i += 1;
    }
    assert(payload@.take(payload.len() as int) == payload@);
    out
}

/// The length a message header announces.
pub fn frame_len(header: &[u8]) -> (r: u32)
    requires
        header.len() == 4,
    ensures
        r == be32_value(header@),
{
    assert(be32_value(header@) <= u32::MAX) by (nonlinear_arith)
        requires
            header@[0] < 256,
            header@[1] < 256,
            header@[2] < 256,
            header@[3] < 256,
    {
        assert(be32_value(header@) == (header@[0] as nat) * 0x100_0000 + (header@[1] as nat) * 0x1_0000 + (
        header@[2] as nat) * 0x100 + (header@[3] as nat));
    }
    (header[0] as u32) * 0x100_0000 + (header[1] as u32) * 0x1_0000 + (header[2] as u32) * 0x100 + (header[3] as u32)
}

/// The message at the start of `bytes`: the bytes after the header, as
/// many as it announces, when that many have arrived.
pub open spec fn unframed(bytes: Seq<u8>) -> Option<Seq<u8>> {
    if bytes.len() < 4 {
        None
    } else {
        let n = be32_value(bytes.take(4));
        if bytes.len() - 4 >= n {
            Some(bytes.subrange(4, 4 + n as int))
        } else {
            None
        }
    }
}

/// The first message in `bytes`, or nothing when it has not wholly
/// arrived.
pub fn unframe(bytes: &[u8]) -> (r: Option<Vec<u8>>)
    ensures
        match r {
            Some(p) => unframed(bytes@) == Some(p@),
            None => unframed(bytes@) is None,
        },
{
    if bytes.len() < 4 {
        return None;
    }
    let head: Vec<u8> = vec![bytes[0], bytes[1], bytes[2], bytes[3]];
    assert(head@ =~= bytes@.take(4));
    let n = frame_len(head.as_slice()) as usize;
    if bytes.len() - 4 < n {
        return None;
    }
    let mut out: Vec<u8> = Vec::new();
    let mut i: usize = 0;
    while i < n
        invariant
            i <= n,
            4 + n <= bytes.len(),
            out@ == bytes@.subrange(4, 4 + i as int),
        decreases n - i,
    {
        out.push(bytes[4 + i]);
        assert(bytes@.subrange(4, 4 + i + 1) == bytes@.subrange(4, 4 + i as int).push(bytes@[4 + i as int]));
        i += 1;
    }
    Some(out)
}

/// Reading the header of a sent message gives back the message's length.
pub proof fn law_header_round_trip(n: nat)
    requires
        n <= u32::MAX,
    ensures
        be32_value(be32(n)) == n,
{
    assert(be32_value(be32(n)) == n) by (nonlinear_arith)
        requires
            n <= u32::MAX,
    {
        let a = n / 0x100_0000;
        let b = n / 0x1_0000 % 0x100;
        let c = n / 0x100 % 0x100;
        let d = n % 0x100;
        assert(a < 0x100);
        assert(n == a * 0x100_0000 + b * 0x1_0000 + c * 0x100 + d);
    }
}

/// Receiving a sent message gives back exactly the message, whatever
/// follows it.
pub proof fn law_unframe_frame(payload: Seq<u8>, rest: Seq<u8>)
    requires
        payload.len() <= u32::MAX,
    ensures
        unframed(framed(payload) + rest) == Some(payload),
{
    law_header_round_trip(payload.len());
    let b = framed(payload) + rest;
    assert(b.take(4) =~= be32(payload.len()));
    assert(b.subrange(4, 4 + payload.len() as int) =~= payload);
}

} // verus!
