//! The wire format of audio: mono 16-bit signed samples, two bytes each,
//! least significant byte first.

use vstd::prelude::*;

verus! {

/// The unsigned 16-bit pattern of a sample in two's complement.
pub open spec fn sample_bits(sample: i16) -> int {
    if sample < 0 {
        sample + 65536
    } else {
        sample as int
    }
}

/// The low byte of a sample on the wire.
pub open spec fn low_byte(sample: i16) -> u8 {
    (sample_bits(sample) % 256) as u8
}

/// The high byte of a sample on the wire.
pub open spec fn high_byte(sample: i16) -> u8 {
    (sample_bits(sample) / 256) as u8
}

/// The sample that two wire bytes stand for.
pub open spec fn sample_of_bytes(low: u8, high: u8) -> i16 {
    let bits = low + 256 * high;
    if bits >= 32768 {
        (bits - 65536) as i16
    } else {
        bits as i16
    }
}

/// The binary frame of a chunk: each sample as its low byte, then its high byte.
pub open spec fn frame_of(chunk: Seq<i16>) -> Seq<u8> {
    Seq::new(
        2 * chunk.len(),
        |k: int|
            if k % 2 == 0 {
                low_byte(chunk[k / 2])
            } else {
                high_byte(chunk[k / 2])
            },
    )
}

/// The number of mono samples that a batch of interleaved samples yields: one
/// per complete group of `channels` samples.
pub open spec fn mono_count(samples: nat, channels: nat) -> nat
    recommends
        channels > 0,
{
    samples / channels
}

/// Splits one sample into its two wire bytes.
pub fn sample_bytes(sample: i16) -> (bytes: (u8, u8))
    ensures
        bytes.0 == low_byte(sample),
        bytes.1 == high_byte(sample),
{
    let wide: i32 = sample as i32;
    let bits: i32 = if wide < 0 {
        wide + 65536
    } else {
        wide
    };
    ((bits % 256) as u8, (bits / 256) as u8)
}

/// Encodes a chunk as the payload of one binary frame.
pub fn frame_bytes(chunk: &Vec<i16>) -> (frame: Vec<u8>)
    ensures
        frame@ == frame_of(chunk@),
{
    let mut frame: Vec<u8> = Vec::new();
    let mut i: usize = 0;
    while i < chunk.len()
        invariant
            i <= chunk.len(),
            frame@.len() == 2 * i,
            forall|k: int|
                0 <= k < 2 * i ==> frame@[k] == (if k % 2 == 0 {
                    low_byte(chunk@[k / 2])
                } else {
                    high_byte(chunk@[k / 2])
                }),
        decreases chunk.len() - i,
    {
        let (low, high) = sample_bytes(chunk[i]);
        frame.push(low);
        frame.push(high);
        i += 1;
    }
    frame
}

/// How many mono samples a batch of `samples` interleaved samples yields.  A
/// trailing group with fewer than `channels` samples yields none.
pub fn mono_len(samples: usize, channels: u16) -> (count: usize)
    requires
        channels > 0,
    ensures
        count == mono_count(samples as nat, channels as nat),
        count * channels <= samples,
        samples - count * channels < channels,
{
    let count: usize = samples / (channels as usize);
    proof {
        let c = channels as int;
        let s = samples as int;
        assert(s == c * (s / c) + s % c && 0 <= s % c < c) by (nonlinear_arith)
            requires
                c > 0,
                s >= 0,
        ;
        assert(c * (s / c) == (s / c) * c) by (nonlinear_arith);
    }
    count
}

/// Decoding the two wire bytes of a sample gives the sample back, so a frame
/// loses nothing of its chunk.
pub proof fn lemma_sample_bytes_round_trip(sample: i16)
    ensures
        sample_of_bytes(low_byte(sample), high_byte(sample)) == sample,
{
}

/// A frame is twice as long as its chunk, and the chunk can be read back from
/// it sample by sample.
pub proof fn lemma_frame_round_trip(chunk: Seq<i16>, i: int)
    requires
        0 <= i < chunk.len(),
    ensures
        frame_of(chunk).len() == 2 * chunk.len(),
        sample_of_bytes(frame_of(chunk)[2 * i], frame_of(chunk)[2 * i + 1]) == chunk[i],
{
    lemma_sample_bytes_round_trip(chunk[i]);
}

} // verus!
