//! Fixed-layout payload decoding.
//!
//! Readings are kept as IEEE-754 single-precision bit patterns: decoding is a
//! pure reinterpretation of little-endian bytes, so no value is ever rounded or
//! normalised (NaN payloads included).
use vstd::prelude::*;

verus! {

/// Number of bytes in a three-axis reading.
pub const VEC3_LEN: usize = 12;

/// Number of bytes in a scalar reading.
pub const SCALAR_LEN: usize = 4;

/// A three-axis reading; each axis is the bit pattern of a 32-bit float.
#[derive(Debug, Clone, Copy, PartialEq, Eq, Structural)]
pub struct Vec3 {
    pub x: u32,
    pub y: u32,
    pub z: u32,
}

/// Why a payload could not be decoded.
#[derive(Debug, Clone, Copy, PartialEq, Eq, Structural)]
pub enum DecodeError {
    WrongLength { expected: usize, actual: usize },
}

/// The 32-bit word whose little-endian bytes are `b[i..i + 4]`.
pub open spec fn le_word(b: Seq<u8>, i: int) -> u32 {
    (b[i] as u32) | ((b[i + 1] as u32) << 8u32) | ((b[i + 2] as u32) << 16u32) | ((
    b[i + 3] as u32) << 24u32)
}

/// The little-endian bytes of `w`.
pub open spec fn le_bytes(w: u32) -> Seq<u8> {
    seq![
        (w & 0xffu32) as u8,
        ((w >> 8u32) & 0xffu32) as u8,
        ((w >> 16u32) & 0xffu32) as u8,
        ((w >> 24u32) & 0xffu32) as u8,
    ]
}

/// What a buffer decodes to as a three-axis reading.
pub open spec fn vec3_of(b: Seq<u8>) -> Result<Vec3, DecodeError> {
    if b.len() == VEC3_LEN {
        Ok(Vec3 { x: le_word(b, 0), y: le_word(b, 4), z: le_word(b, 8) })
    } else {
        Err(DecodeError::WrongLength { expected: VEC3_LEN, actual: b.len() as usize })
    }
}

/// What a buffer decodes to as a scalar reading.
pub open spec fn scalar_of(b: Seq<u8>) -> Result<u32, DecodeError> {
    if b.len() == SCALAR_LEN {
        Ok(le_word(b, 0))
    } else {
        Err(DecodeError::WrongLength { expected: SCALAR_LEN, actual: b.len() as usize })
    }
}

/// The wire form of a three-axis reading.
pub open spec fn vec3_bytes(v: Vec3) -> Seq<u8> {
    le_bytes(v.x) + le_bytes(v.y) + le_bytes(v.z)
}

fn read_le_word(b: &[u8], i: usize) -> (r: u32)
    requires
        i + 4 <= b@.len(),
    ensures
        r == le_word(b@, i as int),
{
    (b[i] as u32) | ((b[i + 1] as u32) << 8u32) | ((b[i + 2] as u32) << 16u32) | ((
    b[i + 3] as u32) << 24u32)
}

fn push_le_word(out: &mut Vec<u8>, w: u32)
    ensures
        final(out)@ == old(out)@ + le_bytes(w),
{
    out.push((w & 0xffu32) as u8);
    out.push(((w >> 8u32) & 0xffu32) as u8);
    out.push(((w >> 16u32) & 0xffu32) as u8);
    out.push(((w >> 24u32) & 0xffu32) as u8);
    assert(final(out)@ =~= old(out)@ + le_bytes(w));
}

/// Decodes a three-axis reading: exactly twelve bytes, x, y and z in that
/// order, each a little-endian 32-bit float.
pub fn decode_vec3(bytes: &[u8]) -> (r: Result<Vec3, DecodeError>)
    ensures
        r == vec3_of(bytes@),
{
    if bytes.len() != VEC3_LEN {
        return Err(DecodeError::WrongLength { expected: VEC3_LEN, actual: bytes.len() });
    }
    Ok(Vec3 { x: read_le_word(bytes, 0), y: read_le_word(bytes, 4), z: read_le_word(bytes, 8) })
}

/// Decodes a scalar reading: exactly four bytes, a little-endian 32-bit float.
pub fn decode_scalar(bytes: &[u8]) -> (r: Result<u32, DecodeError>)
    ensures
        r == scalar_of(bytes@),
{
    if bytes.len() != SCALAR_LEN {
        return Err(DecodeError::WrongLength { expected: SCALAR_LEN, actual: bytes.len() });
    }
    Ok(read_le_word(bytes, 0))
}

/// Encodes a three-axis reading in the layout that `decode_vec3` reads.
pub fn encode_vec3(v: Vec3) -> (r: Vec<u8>)
    ensures
        r@ == vec3_bytes(v),
{
    let mut out: Vec<u8> = Vec::new();
    push_le_word(&mut out, v.x);
    push_le_word(&mut out, v.y);
    push_le_word(&mut out, v.z);
    assert(out@ =~= vec3_bytes(v));
    out
}

/// Encodes a scalar reading in the layout that `decode_scalar` reads.
pub fn encode_scalar(w: u32) -> (r: Vec<u8>)
    ensures
        r@ == le_bytes(w),
{
    let mut out: Vec<u8> = Vec::new();
    push_le_word(&mut out, w);
    assert(out@ =~= le_bytes(w));
    out
}

/// Reading back the little-endian bytes of a word gives the word.
pub proof fn lemma_le_word_of_bytes(w: u32)
    ensures
        le_word(le_bytes(w), 0) == w,
{
    let b0 = (w & 0xffu32) as u8;
    let b1 = ((w >> 8u32) & 0xffu32) as u8;
    let b2 = ((w >> 16u32) & 0xffu32) as u8;
    let b3 = ((w >> 24u32) & 0xffu32) as u8;
    assert((b0 as u32) | ((b1 as u32) << 8u32) | ((b2 as u32) << 16u32) | ((b3 as u32)
        << 24u32) == w) by (bit_vector)
        requires
            b0 == (w & 0xffu32) as u8,
            b1 == ((w >> 8u32) & 0xffu32) as u8,
            b2 == ((w >> 16u32) & 0xffu32) as u8,
            b3 == ((w >> 24u32) & 0xffu32) as u8,
    ;
}

/// Encoding three axes and decoding the bytes gives back the same three bit
/// patterns, exactly.
pub proof fn lemma_vec3_round_trip(v: Vec3)
    ensures
        vec3_of(vec3_bytes(v)) == Ok::<Vec3, DecodeError>(v),
{
    let b = vec3_bytes(v);
    lemma_le_word_of_bytes(v.x);
    lemma_le_word_of_bytes(v.y);
    lemma_le_word_of_bytes(v.z);
    assert(b.subrange(0, 4) =~= le_bytes(v.x));
    assert(b.subrange(4, 8) =~= le_bytes(v.y));
    assert(b.subrange(8, 12) =~= le_bytes(v.z));
    assert(le_word(b, 0) == le_word(le_bytes(v.x), 0));
    assert(le_word(b, 4) == le_word(le_bytes(v.y), 0));
    assert(le_word(b, 8) == le_word(le_bytes(v.z), 0));
}

/// Encoding a scalar and decoding the bytes gives back the same bit pattern.
pub proof fn lemma_scalar_round_trip(w: u32)
    ensures
        scalar_of(le_bytes(w)) == Ok::<u32, DecodeError>(w),
{
    lemma_le_word_of_bytes(w);
}

/// Any buffer of another length than twelve is refused as a three-axis
/// reading, and any of another length than four as a scalar, with the
/// length it had.
pub proof fn lemma_wrong_length_refused(b: Seq<u8>)
    requires
        b.len() <= usize::MAX,
    ensures
        b.len() != VEC3_LEN ==> vec3_of(b) == Err::<Vec3, DecodeError>(
            DecodeError::WrongLength { expected: VEC3_LEN, actual: b.len() as usize },
        ),
        b.len() != SCALAR_LEN ==> scalar_of(b) == Err::<u32, DecodeError>(
            DecodeError::WrongLength { expected: SCALAR_LEN, actual: b.len() as usize },
        ),
{
}

} // verus!
