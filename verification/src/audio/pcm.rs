//! Raw PCM decoding for the named-pipe audio source.
//!
//! A pipe delivers signed 16-bit little-endian samples, interleaved by
//! channel. Only complete frames (one sample per channel) are decoded; a
//! partial frame at the end of a read is dropped.
use vstd::prelude::*;

verus! {

/// The signed 16-bit value of the little-endian byte pair `lo`, `hi`.
pub open spec fn s16_le(lo: u8, hi: u8) -> int {
    if hi < 128 {
        lo + 256 * hi
    } else {
        lo + 256 * hi - 0x1_0000
    }
}

/// Number of bytes of `n` that make up complete frames of `frame_bytes`.
pub open spec fn complete_bytes(n: int, frame_bytes: int) -> int {
    n - n % frame_bytes
}

/// The samples in the complete frames of the first `n` bytes of `bytes`, in
/// order (two bytes per sample).
pub open spec fn s16le_samples(bytes: Seq<u8>, n: int, frame_bytes: int) -> Seq<i16> {
    Seq::new(
        (complete_bytes(n, frame_bytes) / 2) as nat,
        |i: int| s16_le(bytes[2 * i], bytes[2 * i + 1]) as i16,
    )
}

/// Decode one little-endian signed 16-bit sample.
pub fn sample_from_le_bytes(lo: u8, hi: u8) -> (s: i16)
    ensures
        s == s16_le(lo, hi),
{
    if hi < 128 {
        (lo as i16) + (hi as i16) * 256
    } else {
        ((lo as i32) + (hi as i32) * 256 - 0x1_0000) as i16
    }
}

/// Decode the samples of the complete frames among the first `n` bytes of
/// `bytes`, for `channels` interleaved channels.
pub fn decode_s16le(bytes: &[u8], n: usize, channels: usize) -> (samples: Vec<i16>)
    requires
        n <= bytes@.len(),
        1 <= channels,
        2 * channels <= usize::MAX,
    ensures
        samples@ == s16le_samples(bytes@, n as int, 2 * channels as int),
{
    let frame_bytes = 2 * channels;
    let rem = n % frame_bytes;
    assert(rem <= n) by (nonlinear_arith)
        requires
            rem == n % frame_bytes,
            frame_bytes >= 2,
    ;
    let complete = n - rem;
    assert(complete % 2 == 0) by (nonlinear_arith)
        requires
            complete == n - rem,
            rem == n % frame_bytes,
            frame_bytes == 2 * channels,
            channels >= 1,
    {
        assert(n == frame_bytes * (n / frame_bytes) + n % frame_bytes);
        assert(complete == 2 * (channels * (n / frame_bytes)));
    }
    let count = complete / 2;
    let mut samples: Vec<i16> = Vec::with_capacity(count);
    let mut i: usize = 0;
    while i < count
        invariant
            i <= count,
            count == complete_bytes(n as int, frame_bytes as int) / 2,
            2 * count <= n,
            n <= bytes@.len(),
            samples@.len() == i,
            forall|j: int|
                0 <= j < i ==> #[trigger] samples@[j] == s16_le(bytes@[2 * j], bytes@[2 * j + 1]),
        decreases count - i,
    {
        samples.push(sample_from_le_bytes(bytes[2 * i], bytes[2 * i + 1]));
        i = i + 1;
    }
    assert(samples@ =~= s16le_samples(bytes@, n as int, frame_bytes as int));
    samples
}

} // verus!
