use minutes::audio::wav::encode_wav;

#[test]
fn wav_header_and_samples_are_little_endian_pcm16() {
    let wav = encode_wav(&[1, -2, 0x1234]);
    let mut expected: Vec<u8> = Vec::new();
    expected.extend_from_slice(b"RIFF");
    expected.extend_from_slice(&(36u32 + 6).to_le_bytes());
    expected.extend_from_slice(b"WAVE");
    expected.extend_from_slice(b"fmt ");
    expected.extend_from_slice(&16u32.to_le_bytes());
    expected.extend_from_slice(&1u16.to_le_bytes()); // PCM
    expected.extend_from_slice(&1u16.to_le_bytes()); // mono
    expected.extend_from_slice(&16_000u32.to_le_bytes());
    expected.extend_from_slice(&32_000u32.to_le_bytes());
    expected.extend_from_slice(&2u16.to_le_bytes());
    expected.extend_from_slice(&16u16.to_le_bytes());
    expected.extend_from_slice(b"data");
    expected.extend_from_slice(&6u32.to_le_bytes());
    expected.extend_from_slice(&[0x01, 0x00, 0xfe, 0xff, 0x34, 0x12]);
    assert_eq!(wav, expected);
}

#[test]
fn wav_of_no_samples_is_the_bare_header() {
    let wav = encode_wav(&[]);
    assert_eq!(wav.len(), 44);
    assert_eq!(&wav[4..8], &36u32.to_le_bytes());
    assert_eq!(&wav[40..44], &0u32.to_le_bytes());
}
