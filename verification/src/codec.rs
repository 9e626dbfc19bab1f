//! Decoding of raw sample bytes and the self-test judgment.
//!
//! The chip delivers each axis as a little-endian signed 16-bit integer in
//! a (low byte, high byte) pair; a full sample is six consecutive bytes,
//! X low first.

use vstd::prelude::*;

verus! {

/// The signed 16-bit value encoded little-endian by the pair (lo, hi).
pub open spec fn le_i16(lo: u8, hi: u8) -> i16 {
    if hi >= 128 {
        (lo + 256 * hi - 65536) as i16
    } else {
        (lo + 256 * hi) as i16
    }
}

/// The little-endian two-byte encoding of `v`: low byte first.
pub open spec fn le_bytes(v: i16) -> Seq<u8> {
    let u = if v < 0 {
        v + 65536
    } else {
        v as int
    };
    seq![(u % 256) as u8, (u / 256) as u8]
}

/// The (x, y, z) triple decoded from six raw data bytes.
pub open spec fn decode_sample(data: Seq<u8>) -> (i16, i16, i16)
    recommends
        data.len() == 6,
{
    (le_i16(data[0], data[1]), le_i16(data[2], data[3]), le_i16(data[4], data[5]))
}

/// The six-byte little-endian encoding of an (x, y, z) triple, as the chip
/// would deliver it.
pub open spec fn encode_sample(x: i16, y: i16, z: i16) -> Seq<u8> {
    le_bytes(x) + le_bytes(y) + le_bytes(z)
}

/// Decodes one axis from its little-endian byte pair.
pub fn decode_axis(lo: u8, hi: u8) -> (r: i16)
    ensures
        r == le_i16(lo, hi),
{
    let w: i32 = (lo as i32) + 256 * (hi as i32);
    if hi >= 128 {
        (w - 65536) as i16
    } else {
        w as i16
    }
}

/// Decodes a full six-byte sample into its (x, y, z) triple.
pub fn decode_sample_bytes(data: &Vec<u8>) -> (r: (i16, i16, i16))
    requires
        data@.len() == 6,
    ensures
        r == decode_sample(data@),
{
    (
        decode_axis(data[0], data[1]),
        decode_axis(data[2], data[3]),
        decode_axis(data[4], data[5]),
    )
}

/// Acceptance bounds of the factory self-test: the synthetic reading must
/// satisfy X in [-200, 200], Y in [-200, 200], Z in [-800, -200].
pub open spec fn self_test_pass(x: i16, y: i16, z: i16) -> bool {
    &&& -200 <= x <= 200
    &&& -200 <= y <= 200
    &&& -800 <= z <= -200
}

/// Judges a self-test reading against the fixed acceptance bounds.
pub fn judge_self_test(x: i16, y: i16, z: i16) -> (r: bool)
    ensures
        r == self_test_pass(x, y, z),
{
    x >= -200 && x <= 200 && y >= -200 && y <= 200 && z >= -800 && z <= -200
}

/// Law: decoding the little-endian encoding of one axis value gives the
/// value back, for every signed 16-bit value.
pub proof fn lemma_le_round_trip(v: i16)
    ensures
        le_i16(le_bytes(v)[0], le_bytes(v)[1]) == v,
{
    let u = if v < 0 {
        v + 65536
    } else {
        v as int
    };
    assert(0 <= u <= 65535);
    assert(u == 256 * (u / 256) + u % 256);
}

/// Law: decoding the six-byte little-endian encoding of a triple
/// reproduces the triple, for every (x, y, z).
pub proof fn lemma_encode_decode(x: i16, y: i16, z: i16)
    ensures
        decode_sample(encode_sample(x, y, z)) == (x, y, z),
{
    let e = encode_sample(x, y, z);
    assert(e[0] == le_bytes(x)[0]);
    assert(e[1] == le_bytes(x)[1]);
    assert(e[2] == le_bytes(y)[0]);
    assert(e[3] == le_bytes(y)[1]);
    assert(e[4] == le_bytes(z)[0]);
    assert(e[5] == le_bytes(z)[1]);
    lemma_le_round_trip(x);
    lemma_le_round_trip(y);
    lemma_le_round_trip(z);
}

} // verus!
