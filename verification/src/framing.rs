//! Length-prefixed framing of the messages between client and daemon: each frame is
//! the payload's length as a 32-bit big-endian integer, followed by the payload.

use vstd::prelude::*;

verus! {

/// The four big-endian bytes of `n`.
pub open spec fn length_prefix(n: u32) -> Seq<u8> {
    seq![(n >> 24u32) as u8, (n >> 16u32) as u8, (n >> 8u32) as u8, n as u8]
}

/// The 32-bit big-endian integer held by the first four bytes of `b`.
pub open spec fn prefix_value(b: Seq<u8>) -> u32 {
    ((b[0] as u32) << 24u32) | ((b[1] as u32) << 16u32) | ((b[2] as u32) << 8u32) | (b[3] as u32)
}

/// The frame that carries `payload`.
pub open spec fn frame_of(payload: Seq<u8>) -> Seq<u8> {
    length_prefix(payload.len() as u32) + payload
}

/// Result of looking for one frame at the start of a buffer.
pub enum FrameDecode {
    /// The buffer does not yet hold a whole frame.
    Incomplete,
    /// A whole frame: its payload, and how many bytes of the buffer it took.
    Frame { payload: Vec<u8>, consumed: usize },
}

/// Reading back a length prefix gives the length it was written from.
pub proof fn lemma_prefix_roundtrip(n: u32)
    ensures
        prefix_value(length_prefix(n)) == n,
{
    let b = length_prefix(n);
    let b0 = (n >> 24u32) as u8;
    let b1 = (n >> 16u32) as u8;
    let b2 = (n >> 8u32) as u8;
    let b3 = n as u8;
    assert(((b0 as u32) << 24u32) | ((b1 as u32) << 16u32) | ((b2 as u32) << 8u32) | (b3 as u32) == n)
        by (bit_vector)
        requires
            b0 == (n >> 24u32) as u8,
            b1 == (n >> 16u32) as u8,
            b2 == (n >> 8u32) as u8,
            b3 == n as u8,
    ;
}

/// Frames `payload`; `None` when its length does not fit in 32 bits.
pub fn encode_frame(payload: &[u8]) -> (r: Option<Vec<u8>>)
    ensures
        payload@.len() <= u32::MAX ==> (r matches Some(f) && f@ == frame_of(payload@)),
        payload@.len() > u32::MAX ==> r is None,
{
    if payload.len() > 0xffff_ffffusize {
        return None;
    }
    let n: u32 = payload.len() as u32;
    let mut out: Vec<u8> = Vec::new();
    out.push((n >> 24u32) as u8);
    out.push((n >> 16u32) as u8);
    out.push((n >> 8u32) as u8);
    out.push(n as u8);
    let mut i: usize = 0;
    while i < payload.len()
        invariant
            i <= payload@.len(),
            n == payload@.len(),
            out@ == length_prefix(n) + payload@.subrange(0, i as int),
        decreases payload@.len() - i,
    {
        out.push(payload[i]);
        i = i + 1;
        assert(out@ =~= length_prefix(n) + payload@.subrange(0, i as int));
    }
    assert(payload@.subrange(0, payload@.len() as int) =~= payload@);
    Some(out)
}

/// Looks for one frame at the start of `buf`.
pub fn decode_frame(buf: &[u8]) -> (r: FrameDecode)
    ensures
        buf@.len() < 4 ==> r is Incomplete,
        buf@.len() >= 4 ==> {
            let n = prefix_value(buf@) as int;
            if buf@.len() < 4 + n {
                r is Incomplete
            } else {
                (r matches FrameDecode::Frame { payload, consumed } && consumed == 4 + n
                    && payload@ == buf@.subrange(4, 4 + n))
            }
        },
{
    if buf.len() < 4 {
        return FrameDecode::Incomplete;
    }
    let n: u32 = ((buf[0] as u32) << 24u32) | ((buf[1] as u32) << 16u32) | ((buf[2] as u32) << 8u32) | (buf[3] as u32);
    let len: usize = n as usize;
    if buf.len() - 4 < len {
        return FrameDecode::Incomplete;
    }
    let mut payload: Vec<u8> = Vec::new();
    let mut i: usize = 0;
    while i < len
        invariant
            i <= len,
            4 + len <= buf@.len(),
            buf@.len() <= usize::MAX,
            payload@ == buf@.subrange(4, 4 + i),
        decreases len - i,
    {
        payload.push(buf[4 + i]);
        i = i + 1;
        assert(payload@ =~= buf@.subrange(4, 4 + i));
    }
    FrameDecode::Frame { payload, consumed: 4 + len }
}

/// A frame written by `encode_frame` is read back whole by `decode_frame`, whatever follows it.
pub proof fn lemma_frame_roundtrip(payload: Seq<u8>, rest: Seq<u8>)
    requires
        payload.len() <= u32::MAX,
    ensures
        prefix_value(frame_of(payload) + rest) == payload.len(),
        (frame_of(payload) + rest).subrange(4, 4 + payload.len() as int) == payload,
        (frame_of(payload) + rest).len() >= 4 + payload.len(),
{
    let n = payload.len() as u32;
    lemma_prefix_roundtrip(n);
    let buf = frame_of(payload) + rest;
    assert(buf[0] == length_prefix(n)[0]);
    assert(buf[1] == length_prefix(n)[1]);
    assert(buf[2] == length_prefix(n)[2]);
    assert(buf[3] == length_prefix(n)[3]);
    assert(buf.subrange(4, 4 + payload.len() as int) =~= payload);
}

}
