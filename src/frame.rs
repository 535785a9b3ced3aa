//! Control-channel frames: a `u32` carried as four big-endian bytes.
use byteorder::{BigEndian, ByteOrder};
use vstd::prelude::*;

verus! {

/// Number of bytes in one control-channel frame.
pub const FRAME_LEN: usize = 4;

/// The value of four big-endian bytes.
pub open spec fn be_value(b: Seq<u8>) -> u32
    recommends
        b.len() == 4,
{
    ((b[0] as u32) << 24u32) | ((b[1] as u32) << 16u32) | ((b[2] as u32) << 8u32) | (b[3] as u32)
}

/// The four big-endian bytes of a value, most significant first.
pub open spec fn be_bytes(v: u32) -> Seq<u8> {
    seq![(v >> 24u32) as u8, (v >> 16u32) as u8, (v >> 8u32) as u8, v as u8]
}

/// Relies on byteorder's `BigEndian::read_u32`: the first four bytes, most significant first.
#[verifier::external_body]
fn read_be_u32(buf: &[u8]) -> (r: u32)
    requires
        buf@.len() >= 4,
    ensures
        r == be_value(buf@.subrange(0, 4)),
{
    BigEndian::read_u32(buf)
}

/// Relies on byteorder's `BigEndian::write_u32`: stores the value most significant byte first.
#[verifier::external_body]
fn write_be_u32(n: u32) -> (r: [u8; 4])
    ensures
        r@ == be_bytes(n),
{
    let mut buf = [0u8; 4];
    BigEndian::write_u32(&mut buf, n);
    buf
}

/// Decodes a frame.
pub fn decode_frame(bytes: &[u8; 4]) -> (r: u32)
    ensures
        r == be_value(bytes@),
{
    let s: &[u8] = bytes.as_slice();
    let r = read_be_u32(s);
    assert(s@.subrange(0, 4) =~= bytes@);
    r
}

/// Encodes a frame.
pub fn encode_frame(v: u32) -> (r: [u8; 4])
    ensures
        r@ == be_bytes(v),
        be_value(r@) == v,
{
    let r = write_be_u32(v);
    proof {
        lemma_value_of_bytes(v);
    }
    r
}

/// Decoding the encoding of a value gives the value back.
pub proof fn lemma_value_of_bytes(v: u32)
    ensures
        be_value(be_bytes(v)) == v,
{
    assert(((((v >> 24u32) as u8) as u32) << 24u32) | ((((v >> 16u32) as u8) as u32) << 16u32)
        | ((((v >> 8u32) as u8) as u32) << 8u32) | ((v as u8) as u32) == v) by (bit_vector);
}

/// Encoding the value of four bytes gives the same four bytes back.
pub proof fn lemma_bytes_of_value(b: Seq<u8>)
    requires
        b.len() == 4,
    ensures
        be_bytes(be_value(b)) == b,
{
    let (b0, b1, b2, b3) = (b[0], b[1], b[2], b[3]);
    let v = be_value(b);
    assert(v == ((b0 as u32) << 24u32) | ((b1 as u32) << 16u32) | ((b2 as u32) << 8u32) | (b3 as u32));
    assert((v >> 24u32) as u8 == b0 && (v >> 16u32) as u8 == b1 && (v >> 8u32) as u8 == b2
        && v as u8 == b3) by (bit_vector)
        requires
            v == ((b0 as u32) << 24u32) | ((b1 as u32) << 16u32) | ((b2 as u32) << 8u32) | (b3 as u32),
    ;
    assert(be_bytes(v) =~= b);
}

} // verus!
