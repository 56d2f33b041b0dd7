//! The wire protocol: a 4-byte big-endian length followed by that many bytes.
//! A response puts a status byte (0 success, 1 error) in front of one frame.

use vstd::prelude::*;
use vstd::string::StringSliceAdditionalSpecFns;

verus! {

/// The largest request payload that the service accepts (10 MiB).
pub const MAX_IMAGE_SIZE: usize = 10485760;

/// Status byte of a success response.
pub const STATUS_OK: u8 = 0;

/// Status byte of an error response.
pub const STATUS_ERROR: u8 = 1;

/// The four big-endian bytes of `n`.
pub open spec fn be32(n: u32) -> Seq<u8> {
    seq![
        (n / 0x1000000) as u8,
        ((n / 0x10000) % 0x100) as u8,
        ((n / 0x100) % 0x100) as u8,
        (n % 0x100) as u8,
    ]
}

/// The number that four big-endian bytes stand for.
pub open spec fn be32_value(b: Seq<u8>) -> int
    recommends
        b.len() == 4,
{
    b[0] * 0x1000000 + b[1] * 0x10000 + b[2] * 0x100 + b[3]
}

/// A declared request length that the service accepts.
pub open spec fn valid_length(n: int) -> bool {
    0 < n <= MAX_IMAGE_SIZE
}

/// A status byte followed by a frame holding `payload`.
pub open spec fn response_bytes(status: u8, payload: Seq<u8>) -> Seq<u8> {
    seq![status] + be32(payload.len() as u32) + payload
}

/// The bytes of a success response carrying `payload`.
pub open spec fn success_response(payload: Seq<u8>) -> Seq<u8> {
    response_bytes(STATUS_OK, payload)
}

/// The bytes of an error response carrying the message bytes `msg`.
pub open spec fn error_response(msg: Seq<u8>) -> Seq<u8> {
    response_bytes(STATUS_ERROR, msg)
}

/// Reading four bytes back gives the number that was written.
pub proof fn lemma_be32_round_trip(n: u32)
    ensures
        be32(n).len() == 4,
        be32_value(be32(n)) == n,
{
    let b = be32(n);
    assert(b[0] == n / 0x1000000);
    assert(b[1] == (n / 0x10000) % 0x100);
    assert(b[2] == (n / 0x100) % 0x100);
    assert(b[3] == n % 0x100);
    assert(be32_value(b) == n) by (nonlinear_arith)
        requires
            b[0] == n / 0x1000000,
            b[1] == (n / 0x10000) % 0x100,
            b[2] == (n / 0x100) % 0x100,
            b[3] == n % 0x100,
            0 <= n < 0x100000000,
            be32_value(b) == b[0] * 0x1000000 + b[1] * 0x10000 + b[2] * 0x100 + b[3],
    ;
}

/// The big-endian bytes of a length field.
pub fn length_to_bytes(n: u32) -> (r: [u8; 4])
    ensures
        r@ == be32(n),
{
    let r: [u8; 4] = [
        (n / 0x1000000) as u8,
        ((n / 0x10000) % 0x100) as u8,
        ((n / 0x100) % 0x100) as u8,
        (n % 0x100) as u8,
    ];
    assert(r@ =~= be32(n));
    r
}

/// The length that four big-endian bytes hold.
pub fn length_from_bytes(b: [u8; 4]) -> (r: u32)
    ensures
        r == be32_value(b@),
{
    let r: u32 = (b[0] as u32) * 0x1000000 + (b[1] as u32) * 0x10000 + (b[2] as u32) * 0x100
        + (b[3] as u32);
    r
}

/// What can go wrong with a frame on the transport.
#[derive(Clone, Copy, Debug, PartialEq, Eq, Structural)]
pub enum FrameError {
    /// The stream closed before the whole field or payload arrived.
    ShortRead,
    /// The declared length is zero or above the limit.
    InvalidSize,
    /// Writing or flushing a response failed.
    WriteFailed,
}

/// Checks a declared request length against `(0, max_len]`, before any
/// payload is read.
pub fn check_length(len: u32, max_len: usize) -> (r: Result<usize, FrameError>)
    ensures
        r is Ok <==> 0 < len <= max_len,
        r is Ok ==> r->Ok_0 == len,
        r is Err ==> r->Err_0 == FrameError::InvalidSize,
{
    if len == 0 || len as u64 > max_len as u64 {
        Err(FrameError::InvalidSize)
    } else {
        Ok(len as usize)
    }
}

/// Appends `more` to the end of `out`.
pub fn append_bytes(out: &mut Vec<u8>, more: &[u8])
    ensures
        final(out)@ == old(out)@ + more@,
{
    let ghost start = out@;
    let mut i: usize = 0;
    while i < more.len()
        invariant
            i <= more@.len(),
            out@ == start + more@.subrange(0, i as int),
        decreases more@.len() - i,
    {
        out.push(more[i]);
        i = i + 1;
        assert(more@.subrange(0, i as int) =~= more@.subrange(0, i - 1) + seq![more@[i - 1]]);
        assert(out@ =~= start + more@.subrange(0, i as int));
    }
    assert(more@.subrange(0, i as int) =~= more@);
}

/// The bytes of a response: `status`, the payload's length, the payload.
pub fn encode_response(status: u8, payload: &[u8]) -> (r: Vec<u8>)
    requires
        payload@.len() <= u32::MAX,
    ensures
        r@ == response_bytes(status, payload@),
{
    let n: u32 = payload.len() as u32;
    let head = length_to_bytes(n);
    let mut out: Vec<u8> = Vec::new();
    out.push(status);
    out.push(head[0]);
    out.push(head[1]);
    out.push(head[2]);
    out.push(head[3]);
    assert(out@ =~= seq![status] + be32(n));
    append_bytes(&mut out, payload);
    assert(out@ =~= response_bytes(status, payload@));
    out
}

/// A success response carrying `payload`.
pub fn success_frame(payload: &[u8]) -> (r: Vec<u8>)
    requires
        payload@.len() <= u32::MAX,
    ensures
        r@ == success_response(payload@),
{
    encode_response(STATUS_OK, payload)
}

/// An error response carrying the UTF-8 bytes of `msg`.
pub fn error_frame(msg: &str) -> (r: Vec<u8>)
    requires
        msg.spec_bytes().len() <= u32::MAX,
    ensures
        r@ == error_response(msg.spec_bytes()),
{
    encode_response(STATUS_ERROR, msg.as_bytes())
}

} // verus!
