use vstd::prelude::*;

use crate::error::PlayerError;

verus! {

/// The signed 16-bit little-endian sample starting at byte `2 * i`.
pub open spec fn sample_at(bytes: Seq<u8>, i: int) -> i16 {
    ((bytes[2 * i] as u16) | ((bytes[2 * i + 1] as u16) << 8)) as i16
}

/// The whole buffer read as little-endian signed 16-bit PCM.
pub open spec fn decoded_samples(bytes: Seq<u8>) -> Seq<i16> {
    Seq::new((bytes.len() / 2) as nat, |i: int| sample_at(bytes, i))
}

/// Sum over the buffer of each sample squared: the raw power that the
/// root-mean-square loudness is drawn from.
pub open spec fn sum_squares(s: Seq<i16>) -> int
    decreases s.len(),
{
    if s.len() == 0 {
        0
    } else {
        sum_squares(s.drop_last()) + s.last() * s.last()
    }
}

/// A square of a signed 16-bit value is non-negative and at most `2^30`.
proof fn lemma_square_i16_bounds(s: int)
    requires
        -0x8000 <= s <= 0x7fff,
    ensures
        0 <= s * s <= 0x4000_0000,
{
    assert(0 <= s * s <= 0x4000_0000) by (nonlinear_arith)
        requires
            -0x8000 <= s <= 0x7fff,
    ;
}

/// The sum of squares over any sample sequence is non-negative and at most
/// `2^30` per sample.
proof fn lemma_sum_squares_bounds(s: Seq<i16>)
    ensures
        0 <= sum_squares(s) <= s.len() * 0x4000_0000,
    decreases s.len(),
{
    if s.len() > 0 {
        lemma_sum_squares_bounds(s.drop_last());
        lemma_square_i16_bounds(s.last() as int);
        assert(s.len() * 0x4000_0000 == (s.len() - 1) * 0x4000_0000 + 0x4000_0000) by (nonlinear_arith);
    }
}

/// The per-buffer loudness measurement the tap hands on: an exact rational.
/// The mean square of the normalized signal is
/// `sum_squares / (count * 32767 * 32767)`; its square root (the caller's
/// final, inexact step) is the root-mean-square loudness in `[0, 1]`.
pub struct LoudnessPower {
    /// Sum over the buffer of sample times sample.
    pub sum_squares: u128,
    /// Number of samples in the buffer.
    pub count: usize,
}

/// Read a raw PCM buffer as little-endian signed 16-bit samples. A buffer
/// that splits evenly into samples decodes in full; an odd-length buffer is
/// not in the expected format and is rejected, never partially decoded.
pub fn decode_samples(bytes: &Vec<u8>) -> (r: Result<Vec<i16>, PlayerError>)
    ensures
        match r {
            Ok(samples) => bytes@.len() % 2 == 0 && samples@ == decoded_samples(bytes@),
            Err(e) => bytes@.len() % 2 != 0 && e is BufferFormatError,
        },
{
    if bytes.len() % 2 != 0 {
        return Err(PlayerError::BufferFormatError);
    }
    let half: usize = bytes.len() / 2;
    let mut samples: Vec<i16> = Vec::new();
    let mut i: usize = 0;
    while i < half
        invariant
            i <= half,
            half == bytes@.len() / 2,
            bytes@.len() % 2 == 0,
            2 * half == bytes@.len(),
            bytes@.len() <= usize::MAX,
            samples@.len() == i,
            forall|j: int| 0 <= j < i ==> samples@[j] == sample_at(bytes@, j),
        decreases half - i,
    {
        let lo = bytes[2 * i];
        let hi = bytes[2 * i + 1];
        let word: u16 = (lo as u16) | ((hi as u16) << 8);
        samples.push(#[verifier::truncate] (word as i16));
        i = i + 1;
    }
    assert(samples@ =~= decoded_samples(bytes@));
    Ok(samples)
}

/// Total the squares of a sample buffer. The sum is exact: each square is at
/// most `2^30`, so the 128-bit total cannot wrap for any buffer that fits in
/// memory.
pub fn sample_power(samples: &Vec<i16>) -> (p: LoudnessPower)
    ensures
        p.count == samples@.len(),
        p.sum_squares == sum_squares(samples@),
{
    let mut acc: u128 = 0;
    let mut i: usize = 0;
    while i < samples.len()
        invariant
            i <= samples@.len(),
            acc == sum_squares(samples@.take(i as int)),
        decreases samples@.len() - i,
    {
        let s = samples[i];
        proof {
            lemma_square_i16_bounds(s as int);
            lemma_sum_squares_bounds(samples@.take(i as int));
            assert(samples@.take(i as int).len() * 0x4000_0000 <= samples@.len() * 0x4000_0000)
                by (nonlinear_arith)
                requires
                    samples@.take(i as int).len() <= samples@.len(),
            ;
            assert(samples@.take(i + 1).drop_last() =~= samples@.take(i as int));
            assert(samples@.take(i + 1).last() == samples@[i as int]);
        }
        let sq: i32 = (s as i32) * (s as i32);
        acc = acc + (sq as u128);
        i = i + 1;
    }
    assert(samples@.take(samples@.len() as int) =~= samples@);
    LoudnessPower { sum_squares: acc, count: samples.len() }
}

/// The analysis tap's per-buffer step: interpret one decoded audio buffer as
/// signed 16-bit PCM and measure its raw loudness power. An ill-formed
/// buffer yields `BufferFormatError`, and exactly then; no malformed frame
/// ever leaves the tap.
pub fn analyze_buffer(bytes: &Vec<u8>) -> (r: Result<LoudnessPower, PlayerError>)
    ensures
        match r {
            Ok(p) => bytes@.len() % 2 == 0 && p.count == bytes@.len() / 2 && p.sum_squares
                == sum_squares(decoded_samples(bytes@)),
            Err(e) => bytes@.len() % 2 != 0 && e is BufferFormatError,
        },
{
    match decode_samples(bytes) {
        Ok(samples) => Ok(sample_power(&samples)),
        Err(e) => Err(e),
    }
}

} // verus!
