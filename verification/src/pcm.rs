//! Raw signed 16-bit PCM: reading samples out of a byte buffer and the
//! integer part of the root-mean-square loudness computation.
//!
//! The loudness of a buffer of samples `s_0 .. s_{n-1}` is
//! `sqrt((1/n) * sum((s_i / 32767)^2))`, which equals
//! `sqrt(sum(s_i^2) / (n * 32767^2))`. The sum of squares and the sample
//! count are exact integers and are computed here; the final division and
//! square root are floating point and are left to the caller.

use vstd::prelude::*;

verus! {

/// Error when a raw buffer cannot be read as 16-bit samples.
#[derive(Debug, Clone, Copy, PartialEq, Eq, Structural)]
pub enum DecodeError {
    /// The buffer holds an odd number of bytes, so its last sample is
    /// incomplete.
    OddLength,
}

/// The value of a signed 16-bit sample stored as two bytes, low byte first.
pub open spec fn s16_le(lo: u8, hi: u8) -> int {
    let unsigned = lo + 256 * hi;
    if unsigned < 32768 {
        unsigned as int
    } else {
        unsigned - 65536
    }
}

/// The sample sequence that a byte sequence encodes, two bytes per sample,
/// low byte first.
pub open spec fn samples_of(bytes: Seq<u8>) -> Seq<i16> {
    Seq::new((bytes.len() / 2) as nat, |i: int| s16_le(bytes[2 * i], bytes[2 * i + 1]) as i16)
}

/// Reads a raw buffer as signed 16-bit samples, low byte first.
/// Succeeds exactly when the buffer holds an even number of bytes.
pub fn decode_s16le(bytes: &[u8]) -> (r: Result<Vec<i16>, DecodeError>)
    ensures
        r is Ok <==> bytes@.len() % 2 == 0,
        r matches Ok(v) ==> v@ == samples_of(bytes@),
        r matches Err(e) ==> e == DecodeError::OddLength,
{
    if bytes.len() % 2 != 0 {
        return Err(DecodeError::OddLength);
    }
    let mut out: Vec<i16> = Vec::new();
    let mut i: usize = 0;
    while i < bytes.len()
        invariant
            bytes@.len() % 2 == 0,
            i % 2 == 0,
            i <= bytes@.len(),
            out@ == samples_of(bytes@.take(i as int)),
        decreases bytes@.len() - i,
    {
        let lo = bytes[i];
        let hi = bytes[i + 1];
        let unsigned: u16 = (lo as u16) + (hi as u16) * 256;
        let sample: i16 = if unsigned < 32768 {
            unsigned as i16
        } else {
            ((unsigned - 32768) as i16) - 32767 - 1
        };
        out.push(sample);
        i = i + 2;
        assert(out@ =~= samples_of(bytes@.take(i as int)));
    }
    assert(bytes@.take(bytes@.len() as int) =~= bytes@);
    Ok(out)
}

/// The sum of the squares of a sample sequence.
pub open spec fn sum_squares(s: Seq<i16>) -> int
    decreases s.len(),
{
    if s.len() == 0 {
        0
    } else {
        sum_squares(s.drop_last()) + s.last() * s.last()
    }
}

/// The sum of squares is non-negative, and each square is at most
/// 32768^2, so the sum is at most the sample count times 0x4000_0000.
pub proof fn lemma_sum_squares_bounds(s: Seq<i16>)
    ensures
        0 <= sum_squares(s) <= s.len() * 0x4000_0000,
    decreases s.len(),
{
    if s.len() > 0 {
        lemma_sum_squares_bounds(s.drop_last());
        assert(0 <= s.last() * s.last() <= 0x4000_0000) by (nonlinear_arith)
            requires
                -32768 <= s.last() <= 32767,
        ;
        assert(s.len() * 0x4000_0000 == (s.len() - 1) * 0x4000_0000 + 0x4000_0000) by (nonlinear_arith);
    }
}

/// Sums the squares of the samples. The result cannot overflow: each
/// square is at most 2^30 and a slice holds fewer than 2^64 samples.
pub fn sum_of_squares(samples: &[i16]) -> (r: u128)
    ensures
        r == sum_squares(samples@),
{
    let mut acc: u128 = 0;
    let mut i: usize = 0;
    while i < samples.len()
        invariant
            i <= samples@.len(),
            acc == sum_squares(samples@.take(i as int)),
        decreases samples@.len() - i,
    {
        let s: i64 = samples[i] as i64;
        assert(0 <= s * s <= 0x4000_0000) by (nonlinear_arith)
            requires
                -32768 <= s <= 32767,
        ;
        let sq: i64 = s * s;
        proof {
            lemma_sum_squares_bounds(samples@.take(i as int));
            assert(i * 0x4000_0000 + 0x4000_0000 < u128::MAX) by (nonlinear_arith)
                requires
                    0 <= i < 0x1_0000_0000_0000_0000,
            ;
        }
        acc = acc + (sq as u128);
        i = i + 1;
        proof {
            let pre = samples@.take(i as int - 1);
            let post = samples@.take(i as int);
            assert(post.drop_last() =~= pre);
        }
    }
    assert(samples@.take(samples@.len() as int) =~= samples@);
    acc
}

/// The loudness analysis of one raw buffer: the sum of the squares of its
/// samples and their count. The root-mean-square loudness is then
/// `sqrt(sum / (count * 32767^2))`, a floating-point step the caller takes.
/// Fails exactly when the buffer holds an odd number of bytes.
pub fn analyze_buffer(bytes: &[u8]) -> (r: Result<(u128, usize), DecodeError>)
    ensures
        r is Ok <==> bytes@.len() % 2 == 0,
        r matches Ok((sum, count)) ==> count == samples_of(bytes@).len()
            && sum == sum_squares(samples_of(bytes@)),
        r matches Err(e) ==> e == DecodeError::OddLength,
{
    let samples = match decode_s16le(bytes) {
        Ok(v) => v,
        Err(e) => {
            return Err(e);
        },
    };
    let sum = sum_of_squares(samples.as_slice());
    Ok((sum, samples.len()))
}

} // verus!
