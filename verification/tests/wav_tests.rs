use piper_server::errors::SynthesizeError;
use piper_server::wav::{SampleChunk, WavEncoder};

fn u16_at(bytes: &[u8], at: usize) -> u16 {
    u16::from_le_bytes([bytes[at], bytes[at + 1]])
}

fn u32_at(bytes: &[u8], at: usize) -> u32 {
    u32::from_le_bytes([bytes[at], bytes[at + 1], bytes[at + 2], bytes[at + 3]])
}

#[test]
fn two_chunks_declare_192_samples_at_22050() {
    let mut enc = WavEncoder::new();
    enc.feed(&SampleChunk { sample_rate: 22050, samples: vec![0u32; 128] });
    enc.feed(&SampleChunk { sample_rate: 22050, samples: vec![0u32; 64] });
    let bytes = enc.finalize().expect("chunks were fed");

    assert_eq!(bytes.len(), 44 + 192 * 4);
    assert_eq!(&bytes[0..4], b"RIFF");
    assert_eq!(u32_at(&bytes, 4), 36 + 192 * 4);
    assert_eq!(&bytes[8..12], b"WAVE");
    assert_eq!(&bytes[12..16], b"fmt ");
    assert_eq!(u32_at(&bytes, 16), 16);
    assert_eq!(u16_at(&bytes, 20), 3, "IEEE float format");
    assert_eq!(u16_at(&bytes, 22), 1, "mono");
    assert_eq!(u32_at(&bytes, 24), 22050, "declared sample rate");
    assert_eq!(u32_at(&bytes, 28), 22050 * 4, "byte rate");
    assert_eq!(u16_at(&bytes, 32), 4, "block align");
    assert_eq!(u16_at(&bytes, 34), 32, "bits per sample");
    assert_eq!(&bytes[36..40], b"data");
    let data_size = u32_at(&bytes, 40);
    assert_eq!(data_size, 192 * 4);
    assert_eq!(data_size / 4, 192, "declared sample count");
}

#[test]
fn samples_are_written_as_little_endian_float_bits() {
    let mut enc = WavEncoder::new();
    let samples = vec![0.5f32.to_bits(), (-1.0f32).to_bits(), 0.0f32.to_bits()];
    enc.feed(&SampleChunk { sample_rate: 16000, samples });
    let bytes = enc.finalize().expect("a chunk was fed");
    assert_eq!(bytes.len(), 44 + 12);
    assert_eq!(&bytes[44..48], &0.5f32.to_le_bytes());
    assert_eq!(&bytes[48..52], &(-1.0f32).to_le_bytes());
    assert_eq!(&bytes[52..56], &0.0f32.to_le_bytes());
}

#[test]
fn finalize_without_any_chunk_fails_with_empty_audio() {
    let mut enc = WavEncoder::new();
    assert_eq!(enc.finalize(), Err(SynthesizeError::EmptyAudioError));
}

#[test]
fn rate_is_fixed_by_the_first_chunk_only() {
    let mut enc = WavEncoder::new();
    enc.feed(&SampleChunk { sample_rate: 22050, samples: vec![1, 2] });
    enc.feed(&SampleChunk { sample_rate: 44100, samples: vec![3] });
    let bytes = enc.finalize().expect("chunks were fed");
    assert_eq!(u32_at(&bytes, 24), 22050, "later rates are ignored");
    assert_eq!(u32_at(&bytes, 40), 12);
}

#[test]
fn an_empty_first_chunk_still_writes_the_header() {
    let mut enc = WavEncoder::new();
    enc.feed(&SampleChunk { sample_rate: 8000, samples: vec![] });
    let bytes = enc.finalize().expect("a chunk was fed");
    assert_eq!(bytes.len(), 44);
    assert_eq!(u32_at(&bytes, 24), 8000);
    assert_eq!(u32_at(&bytes, 40), 0);
    assert_eq!(u32_at(&bytes, 4), 36);
}
