//! The PCM format that flows between decoder and encoders, and audio packets.
use vstd::prelude::*;

use crate::shared::{bytes_of, share_vec};

verus! {

/// Interleaved channels per sample frame.
pub const CHANNEL_COUNT: u64 = 2;

/// Sample frames per second.
pub const SAMPLE_RATE: u64 = 44100;

/// Bytes per sample of one channel (signed 16 bit, little endian).
pub const BYTE_DEPTH: u64 = 2;

/// Bytes of PCM per second of audio.
pub const BYTES_PER_SECOND: u64 = 176400;

/// Bytes of PCM that one decoded packet holds at most: one second of audio.
pub const DECODER_PACKET_BYTES: usize = 176400;

/// Duration, in microseconds (rounded down), of `bytes` bytes of PCM.
pub open spec fn pcm_micros(bytes: nat) -> nat {
    bytes * 1_000_000 / BYTES_PER_SECOND as nat
}

/// Number of sample frames in `ms` milliseconds, rounded to the nearest frame
/// (halves round up).
pub open spec fn silence_frames(ms: nat) -> nat {
    (ms * SAMPLE_RATE as nat + 500) / 1000
}

/// Number of PCM bytes that `ms` milliseconds of silence take.
pub open spec fn silence_byte_count(ms: nat) -> nat {
    silence_frames(ms) * CHANNEL_COUNT as nat * BYTE_DEPTH as nat
}

/// Converts a PCM byte count to its duration in microseconds, rounded down.
pub fn calculate_buffer_length(buffer_capacity_bytes: u32) -> (r: u64)
    ensures
        r == pcm_micros(buffer_capacity_bytes as nat),
{
    (buffer_capacity_bytes as u64) * 1_000_000 / BYTES_PER_SECOND
}

/// A slice of PCM audio: interleaved signed 16-bit little-endian stereo at
/// 44100 Hz, shared without copying, with its duration.
pub struct AudioPacket {
    /// How long the audio lasts, in microseconds.
    pub audio_length_micros: u64,
    /// The PCM bytes.
    pub buffer: bytes::Bytes,
}

impl Clone for AudioPacket {
    /// Another handle on the same PCM bytes, with the same duration.
    fn clone(&self) -> (r: Self)
        ensures
            r.audio_length_micros == self.audio_length_micros,
            r.pcm() == self.pcm(),
    {
        AudioPacket { audio_length_micros: self.audio_length_micros, buffer: self.buffer.clone() }
    }
}

impl AudioPacket {
    /// The PCM bytes of the packet.
    pub open spec fn pcm(&self) -> Seq<u8> {
        bytes_of(self.buffer)
    }

    /// A packet of `duration_ms` milliseconds of silence: zero bytes, as many
    /// as that many milliseconds of sample frames take.
    pub fn from_silence(duration_ms: u64) -> (r: AudioPacket)
        requires
            duration_ms * SAMPLE_RATE + 500 <= u64::MAX,
            silence_byte_count(duration_ms as nat) <= usize::MAX,
        ensures
            r.audio_length_micros == duration_ms * 1000,
            r.pcm().len() == silence_byte_count(duration_ms as nat),
            forall|i: int| 0 <= i < r.pcm().len() ==> r.pcm()[i] == 0u8,
    {
        let frames: u64 = (duration_ms * SAMPLE_RATE + 500) / 1000;
        assert(frames * 4 <= usize::MAX);
        let byte_count: usize = (frames * (CHANNEL_COUNT * BYTE_DEPTH)) as usize;
        let buffer: Vec<u8> = vec![0u8; byte_count];
        AudioPacket { audio_length_micros: duration_ms * 1000, buffer: share_vec(buffer) }
    }

    /// A packet that carries the decoded PCM in `buffer`; its duration follows
    /// from its length.
    pub fn from_pcm(buffer: Vec<u8>) -> (r: AudioPacket)
        requires
            buffer@.len() <= u32::MAX,
        ensures
            r.pcm() == buffer@,
            r.audio_length_micros == pcm_micros(buffer@.len()),
    {
        let n: u32 = buffer.len() as u32;
        let micros = calculate_buffer_length(n);
        AudioPacket { audio_length_micros: micros, buffer: share_vec(buffer) }
    }

    /// Number of PCM bytes in the packet.
    pub fn byte_len(&self) -> (r: usize)
        ensures
            r == self.pcm().len(),
    {
        self.buffer.len()
    }
}

} // verus!
