//! Decoding raw PCM bytes into samples.
//!
//! The decoder subprocess hands the pipeline a byte buffer of interleaved
//! little-endian signed 16-bit mono samples. This module turns that buffer
//! into a sample vector; a trailing odd byte, which cannot form a sample, is
//! ignored.

use vstd::prelude::*;

verus! {

/// The signed 16-bit sample encoded little-endian by the byte pair
/// (`lo`, `hi`): the unsigned value `lo + 256 * hi`, reinterpreted in two's
/// complement.
pub open spec fn sample_of_pair(lo: u8, hi: u8) -> i16 {
    let unsigned = lo + 256 * hi;
    if unsigned < 32768 {
        unsigned as i16
    } else {
        (unsigned - 65536) as i16
    }
}

/// The sample sequence encoded by a raw PCM byte buffer: consecutive
/// little-endian byte pairs, a trailing odd byte ignored.
pub open spec fn pcm_of_bytes(bytes: Seq<u8>) -> Seq<i16> {
    Seq::new(bytes.len() / 2, |i: int| sample_of_pair(bytes[2 * i], bytes[2 * i + 1]))
}

/// Decodes a raw PCM byte buffer into its samples.
pub fn decode_pcm(bytes: &Vec<u8>) -> (r: Vec<i16>)
    ensures
        r@ == pcm_of_bytes(bytes@),
{
    let total: usize = bytes.len();
    let n: usize = total / 2;
    let mut samples: Vec<i16> = Vec::new();
    let mut i: usize = 0;
    while i < n
        invariant
            total == bytes@.len(),
            n == bytes@.len() / 2,
            i <= n,
            samples@ == pcm_of_bytes(bytes@).take(i as int),
        decreases n - i,
    {
        assert(2 * i + 1 < bytes@.len());
        let lo: u8 = bytes[2 * i];
        let hi: u8 = bytes[2 * i + 1];
        let unsigned: i32 = lo as i32 + 256 * hi as i32;
        let value: i32 = if unsigned < 32768 {
            unsigned
        } else {
            unsigned - 65536
        };
        samples.push(value as i16);
        assert(samples@ == pcm_of_bytes(bytes@).take(i + 1));
        i = i + 1;
    }
    assert(samples@ == pcm_of_bytes(bytes@).take(n as int));
    assert(pcm_of_bytes(bytes@).take(n as int) == pcm_of_bytes(bytes@));
    samples
}

} // verus!
