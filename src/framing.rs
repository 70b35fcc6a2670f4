//! Length-prefixed framing: the outer frame on the shared transport and the
//! inner frame that a virtual service connection carries inside a data push.

use vstd::prelude::*;

verus! {

/// Largest payload that an outer frame may declare (1 MiB).
pub const MAX_FRAME_LEN: usize = 1048576;

/// Why a frame could not be built or read.
#[derive(Clone, Copy, Debug, PartialEq, Eq, Structural)]
pub enum FrameError {
    /// Fewer bytes than the four of the length prefix, or fewer than the
    /// prefix declares.
    Truncated,
    /// An outer frame that declares an empty payload.
    ZeroLength,
    /// A length beyond what the frame kind allows.
    TooLarge,
    /// An outer frame whose bytes after the prefix are not exactly as many as
    /// the prefix declares.
    LengthMismatch,
}

/// The four big-endian bytes of `n`.
pub open spec fn be_bytes(n: u32) -> Seq<u8> {
    seq![
        (n / 0x100_0000) as u8,
        ((n / 0x1_0000) % 0x100) as u8,
        ((n / 0x100) % 0x100) as u8,
        (n % 0x100) as u8,
    ]
}

/// The number that the first four bytes of `b` give, read big-endian.
pub open spec fn be_value(b: Seq<u8>) -> int
    recommends
        b.len() >= 4,
{
    b[0] as int * 0x100_0000 + b[1] as int * 0x1_0000 + b[2] as int * 0x100 + b[3] as int
}

/// An outer or inner frame around `payload`: its length, then its bytes.
pub open spec fn frame_of(payload: Seq<u8>) -> Seq<u8> {
    be_bytes(payload.len() as u32) + payload
}

/// Whether an outer frame may declare `len` bytes.
pub open spec fn outer_len_ok(len: int) -> bool {
    1 <= len <= MAX_FRAME_LEN
}

/// The outcome of reading an outer frame from its length prefix alone.
pub open spec fn outer_header_result(header: Seq<u8>) -> Result<usize, FrameError> {
    if header.len() < 4 {
        Err(FrameError::Truncated)
    } else if be_value(header) == 0 {
        Err(FrameError::ZeroLength)
    } else if be_value(header) > MAX_FRAME_LEN {
        Err(FrameError::TooLarge)
    } else {
        Ok(be_value(header) as usize)
    }
}

/// The bytes that a framing result holds, as a sequence.
pub open spec fn bytes_result(r: Result<Vec<u8>, FrameError>) -> Result<Seq<u8>, FrameError> {
    match r {
        Ok(v) => Ok(v@),
        Err(e) => Err(e),
    }
}

/// The outcome of framing `payload` as an outer frame.
pub open spec fn encode_result(payload: Seq<u8>) -> Result<Seq<u8>, FrameError> {
    if payload.len() == 0 {
        Err(FrameError::ZeroLength)
    } else if payload.len() > MAX_FRAME_LEN {
        Err(FrameError::TooLarge)
    } else {
        Ok(frame_of(payload))
    }
}

/// The outcome of reading `bytes` as one whole outer frame.
pub open spec fn decode_result(bytes: Seq<u8>) -> Result<Seq<u8>, FrameError> {
    match outer_header_result(bytes) {
        Err(e) => Err(e),
        Ok(n) => if bytes.len() != 4 + n {
            Err(FrameError::LengthMismatch)
        } else {
            Ok(bytes.subrange(4, bytes.len() as int))
        },
    }
}

/// The outcome of framing `message` as an inner frame.
pub open spec fn wrap_result(message: Seq<u8>) -> Result<Seq<u8>, FrameError> {
    if message.len() > u32::MAX {
        Err(FrameError::TooLarge)
    } else {
        Ok(frame_of(message))
    }
}

/// Reading back the prefix gives the number that was written.
pub proof fn lemma_be_round_trip(n: u32)
    ensures
        be_bytes(n).len() == 4,
        be_value(be_bytes(n)) == n,
{
    let b = be_bytes(n);
    assert(0 <= n / 0x100_0000 < 0x100) by (nonlinear_arith)
        requires
            0 <= n <= 0xffff_ffff,
    ;
    assert(b[0] as int == n / 0x100_0000);
    assert(b[1] as int == (n / 0x1_0000) % 0x100);
    assert(b[2] as int == (n / 0x100) % 0x100);
    assert(b[3] as int == n % 0x100);
    assert((n / 0x100_0000) * 0x100_0000 + ((n / 0x1_0000) % 0x100) * 0x1_0000
        + ((n / 0x100) % 0x100) * 0x100 + n % 0x100 == n) by (nonlinear_arith)
        requires
            0 <= n,
    ;
}

/// The big-endian bytes of `n`.
pub fn u32_to_be(n: u32) -> (r: Vec<u8>)
    ensures
        r@ == be_bytes(n),
{
    let mut r: Vec<u8> = Vec::with_capacity(4);
    r.push((n / 0x100_0000) as u8);
    r.push(((n / 0x1_0000) % 0x100) as u8);
    r.push(((n / 0x100) % 0x100) as u8);
    r.push((n % 0x100) as u8);
    assert(r@ =~= be_bytes(n));
    r
}

/// The number that the first four bytes of `b` give, read big-endian.
pub fn u32_from_be(b: &[u8]) -> (r: u32)
    requires
        b@.len() >= 4,
    ensures
        r as int == be_value(b@),
{
    let b0 = b[0] as u32;
    let b1 = b[1] as u32;
    let b2 = b[2] as u32;
    let b3 = b[3] as u32;
    b0 * 0x100_0000 + b1 * 0x1_0000 + b2 * 0x100 + b3
}

/// The bytes of `src` from `start` up to `end`, copied.
pub(crate) fn copy_range(src: &[u8], start: usize, end: usize) -> (r: Vec<u8>)
    requires
        start <= end <= src@.len(),
    ensures
        r@ == src@.subrange(start as int, end as int),
{
    let mut r: Vec<u8> = Vec::with_capacity(end - start);
    let mut i: usize = start;
    while i < end
        invariant
            start <= i <= end <= src@.len(),
            r@ == src@.subrange(start as int, i as int),
        decreases end - i,
    {
        r.push(src[i]);
        i = i + 1;
        assert(r@ =~= src@.subrange(start as int, i as int));
    }
    r
}

/// `payload` behind a four-byte big-endian length prefix.
fn prefixed(payload: &[u8]) -> (r: Vec<u8>)
    requires
        payload@.len() <= u32::MAX,
    ensures
        r@ == frame_of(payload@),
{
    let mut r = u32_to_be(payload.len() as u32);
    r.extend_from_slice(payload);
    r
}

/// Builds the outer frame that carries `payload`.
pub fn encode_frame(payload: &[u8]) -> (r: Result<Vec<u8>, FrameError>)
    ensures
        bytes_result(r) == encode_result(payload@),
{
    if payload.len() == 0 {
        Err(FrameError::ZeroLength)
    } else if payload.len() > MAX_FRAME_LEN {
        Err(FrameError::TooLarge)
    } else {
        Ok(prefixed(payload))
    }
}

/// Reads the length prefix of an outer frame and says how many payload bytes
/// follow it. An empty or oversized claim is refused here, before anything
/// is allocated for the payload.
pub fn outer_payload_len(header: &[u8]) -> (r: Result<usize, FrameError>)
    ensures
        r == outer_header_result(header@),
{
    if header.len() < 4 {
        Err(FrameError::Truncated)
    } else {
        let n = u32_from_be(header);
        if n == 0 {
            Err(FrameError::ZeroLength)
        } else if n as usize > MAX_FRAME_LEN {
            Err(FrameError::TooLarge)
        } else {
            Ok(n as usize)
        }
    }
}

/// Reads a whole outer frame: its prefix, then exactly the payload that the
/// prefix declares.
pub fn decode_frame(bytes: &[u8]) -> (r: Result<Vec<u8>, FrameError>)
    ensures
        bytes_result(r) == decode_result(bytes@),
{
    match outer_payload_len(bytes) {
        Err(e) => Err(e),
        Ok(n) => {
            if bytes.len() - 4 != n {
                Err(FrameError::LengthMismatch)
            } else {
                Ok(copy_range(bytes, 4, bytes.len()))
            }
        },
    }
}

/// Builds the inner frame that carries a service message inside a data push.
pub fn wrap_inner(message: &[u8]) -> (r: Result<Vec<u8>, FrameError>)
    ensures
        bytes_result(r) == wrap_result(message@),
{
    if message.len() > 0xffff_ffff {
        Err(FrameError::TooLarge)
    } else {
        Ok(prefixed(message))
    }
}

/// The message that an inner frame carries: the bytes after the prefix, as
/// many as the prefix declares. Bytes beyond those are ignored; fewer than
/// declared is a protocol error.
pub open spec fn inner_result(raw: Seq<u8>) -> Result<Seq<u8>, FrameError> {
    if raw.len() < 4 || raw.len() < 4 + be_value(raw) {
        Err(FrameError::Truncated)
    } else {
        Ok(raw.subrange(4, 4 + be_value(raw)))
    }
}

/// Takes the message out of an inner frame.
pub fn unwrap_inner(raw: &[u8]) -> (r: Result<Vec<u8>, FrameError>)
    ensures
        bytes_result(r) == inner_result(raw@),
{
    if raw.len() < 4 {
        return Err(FrameError::Truncated);
    }
    let n = u32_from_be(raw) as usize;
    if raw.len() - 4 < n {
        Err(FrameError::Truncated)
    } else {
        Ok(copy_range(raw, 4, 4 + n))
    }
}

/// Framing then reading back gives the payload, for every payload that an
/// outer frame may carry; and bytes that do not match the prefix in front
/// of them are refused.
pub proof fn lemma_frame_round_trip(payload: Seq<u8>, trailing: Seq<u8>)
    requires
        outer_len_ok(payload.len() as int),
    ensures
        decode_result(frame_of(payload)) == Ok::<Seq<u8>, FrameError>(payload),
        trailing.len() > 0 ==> decode_result(frame_of(payload) + trailing) == Err::<
            Seq<u8>,
            FrameError,
        >(FrameError::LengthMismatch),
        payload.len() > 1 ==> decode_result(frame_of(payload).drop_last()) == Err::<
            Seq<u8>,
            FrameError,
        >(FrameError::LengthMismatch),
{
    let f = frame_of(payload);
    lemma_be_round_trip(payload.len() as u32);
    assert(f.subrange(4, f.len() as int) =~= payload);
    let g = f + trailing;
    assert(g[0] == f[0] && g[1] == f[1] && g[2] == f[2] && g[3] == f[3]);
    let h = f.drop_last();
    assert(h[0] == f[0] && h[1] == f[1] && h[2] == f[2] && h[3] == f[3]);
}

/// A frame that declares zero bytes, or more than the largest frame, is
/// refused from its prefix alone, whatever follows it.
pub proof fn lemma_frame_rejection(bytes: Seq<u8>)
    requires
        bytes.len() >= 4,
        !outer_len_ok(be_value(bytes)),
    ensures
        outer_header_result(bytes) is Err,
        outer_header_result(bytes) == outer_header_result(bytes.subrange(0, 4)),
{
    let h = bytes.subrange(0, 4);
    assert(h[0] == bytes[0] && h[1] == bytes[1] && h[2] == bytes[2] && h[3] == bytes[3]);
}

} // verus!
