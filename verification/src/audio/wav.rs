//! 16-bit PCM WAV encoding of speech chunks (16 kHz mono), as sent to the
//! speech-swift audio-server.

use vstd::prelude::*;

verus! {

/// Little-endian bytes of an unsigned 16-bit value.
pub open spec fn le_u16(x: int) -> Seq<u8> {
    seq![(x % 256) as u8, (x / 256 % 256) as u8]
}

/// Little-endian bytes of an unsigned 32-bit value.
pub open spec fn le_u32(x: int) -> Seq<u8> {
    seq![
        (x % 256) as u8,
        (x / 256 % 256) as u8,
        (x / 65_536 % 256) as u8,
        (x / 16_777_216 % 256) as u8,
    ]
}

/// Little-endian two's-complement bytes of a signed 16-bit sample.
pub open spec fn le_i16(s: i16) -> Seq<u8> {
    le_u16(if s < 0 { s + 65_536 } else { s as int })
}

/// The sample data of a 16-bit PCM WAV file: each sample little-endian.
pub open spec fn pcm16_data(samples: Seq<i16>) -> Seq<u8>
    decreases samples.len(),
{
    if samples.len() == 0 {
        Seq::empty()
    } else {
        pcm16_data(samples.drop_last()) + le_i16(samples.last())
    }
}

/// A canonical 16-bit PCM WAV file: the 44-byte RIFF/WAVE header with a
/// 16-byte `fmt ` chunk (format tag 1), followed by the `data` chunk.
pub open spec fn wav_pcm16(samples: Seq<i16>, channels: int, sample_rate: int) -> Seq<u8> {
    let data_len = 2 * (samples.len() as int);
    seq![82u8, 73, 70, 70]  // "RIFF"
     + le_u32(data_len + 36) + seq![87u8, 65, 86, 69]  // "WAVE"
     + seq![102u8, 109, 116, 32]  // "fmt "
     + le_u32(16) + le_u16(1) + le_u16(channels) + le_u32(sample_rate) + le_u32(
        sample_rate * 2 * channels,
    ) + le_u16(2 * channels) + le_u16(16) + seq![100u8, 97, 116, 97]  // "data"
     + le_u32(data_len) + pcm16_data(samples)
}

/// Largest number of 16-bit samples a WAV file can describe (its sizes are
/// 32-bit fields).
pub open spec fn max_wav_samples() -> int {
    (u32::MAX - 36) / 2
}

/// Writes `samples` as 16-bit integer PCM with `hound::WavWriter` into an
/// in-memory buffer and returns the bytes. hound writes the 44-byte
/// PCMWAVEFORMAT header (fmt chunk of 16 bytes, since there are at most two
/// channels and 16 bits per sample), then each sample little-endian, and
/// `finalize` fills in the RIFF and data sizes. Writing to a `Vec` cannot fail;
/// the sizes are 32-bit, hence the bound on the number of samples.
#[verifier::external_body]
fn hound_write_pcm16(samples: &[i16], channels: u16, sample_rate: u32) -> (bytes: Vec<u8>)
    requires
        channels == 1 || channels == 2,
        (samples@.len() as int) % (channels as int) == 0,
        0 < sample_rate,
        sample_rate * 2 * channels <= u32::MAX,
        samples@.len() <= max_wav_samples(),
    ensures
        bytes@ == wav_pcm16(samples@, channels as int, sample_rate as int),
{
    let spec = hound::WavSpec { channels, sample_rate, bits_per_sample: 16, sample_format: hound::SampleFormat::Int };
    let mut buf = Vec::new();
    {
        let mut writer = hound::WavWriter::new(std::io::Cursor::new(&mut buf), spec).expect("WAV writer on a Vec cannot fail");
        for &s in samples {
            writer.write_sample(s).expect("WAV write_sample to a Vec cannot fail");
        }
        writer.finalize().expect("WAV finalize to a Vec cannot fail");
    }
    buf
}

/// Encode 16-bit samples as a 16 kHz mono PCM WAV file.
pub fn encode_wav(samples: &[i16]) -> (bytes: Vec<u8>)
    requires
        samples@.len() <= max_wav_samples(),
    ensures
        bytes@ == wav_pcm16(samples@, 1, 16_000),
{
    hound_write_pcm16(samples, 1, 16_000)
}

} // verus!
