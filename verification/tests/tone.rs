use std::io::Cursor;

use pomocli::wav::decode_wav_pcm16_mono;
use pomocli::wav::encode_wav_pcm16_mono;
use pomocli::wav::parse_wav_header;
use pomocli::wav::tone_sample_count;

// The notification tone of the timer: an instant-attack, exponentially
// decaying sine, sampled and rounded to signed 16-bit, exactly as the
// unverified shell synthesizes it before handing the samples to the encoder.
fn synthesize_samples(sample_rate: u32, frequency: f32, duration_seconds: u32, decay_rate: f32) -> Vec<i16> {
    let n = tone_sample_count(sample_rate, duration_seconds) as usize;
    let mut samples = Vec::with_capacity(n);
    for i in 0..n {
        let t = i as f32 / sample_rate as f32;
        let envelope = (-t * decay_rate).exp();
        let s = (t * frequency * 2.0 * std::f32::consts::PI).sin() * 0.6 * envelope;
        samples.push((s * 32767.0) as i16);
    }
    samples
}

#[test]
fn synthesizer_is_deterministic() {
    let a = synthesize_samples(8000, 880.0, 1, 3.0);
    let b = synthesize_samples(8000, 880.0, 1, 3.0);
    assert_eq!(a, b);
    let wav_a = encode_wav_pcm16_mono(8000, &a);
    let wav_b = encode_wav_pcm16_mono(8000, &b);
    assert_eq!(wav_a, wav_b);
}

#[test]
fn encoded_data_length_is_twice_sample_rate_times_duration() {
    let sample_rate = 8000u32;
    let duration = 2u32;
    let samples = synthesize_samples(sample_rate, 880.0, duration, 3.0);
    assert_eq!(samples.len() as u64, tone_sample_count(sample_rate, duration));
    let bytes = encode_wav_pcm16_mono(sample_rate, &samples);
    assert_eq!(bytes.len(), 44 + 2 * samples.len());
    let header = parse_wav_header(&bytes).unwrap();
    assert_eq!(header.data_len as u64, 2 * sample_rate as u64 * duration as u64);
    assert_eq!(header.audio_format, 1);
    assert_eq!(header.channels, 1);
    assert_eq!(header.sample_rate, sample_rate);
    assert_eq!(header.byte_rate, 2 * sample_rate);
    assert_eq!(header.block_align, 2);
    assert_eq!(header.bits_per_sample, 16);
}

#[test]
fn header_fields_round_trip_through_a_standard_decoder() {
    let sample_rate = 8000u32;
    let duration = 1u32;
    let samples = synthesize_samples(sample_rate, 880.0, duration, 3.0);
    let bytes = encode_wav_pcm16_mono(sample_rate, &samples);
    let mut reader = hound::WavReader::new(Cursor::new(bytes)).unwrap();
    let spec = reader.spec();
    assert_eq!(spec.channels, 1);
    assert_eq!(spec.sample_rate, sample_rate);
    assert_eq!(spec.bits_per_sample, 16);
    assert_eq!(reader.len() as u64, tone_sample_count(sample_rate, duration));
    let decoded: Vec<i16> = reader.samples::<i16>().map(|s| s.unwrap()).collect();
    assert_eq!(decoded, samples);
}

#[test]
fn library_decoder_returns_the_samples_unchanged() {
    let samples: Vec<i16> = vec![0, 1, -1, 32767, -32768, 12345, -12345];
    let bytes = encode_wav_pcm16_mono(44100, &samples);
    let (header, decoded) = decode_wav_pcm16_mono(&bytes).unwrap();
    assert_eq!(header.sample_rate, 44100);
    assert_eq!(header.data_len, 14);
    assert_eq!(decoded, samples);
}

#[test]
fn empty_tone_still_encodes_a_valid_container() {
    let samples: Vec<i16> = Vec::new();
    let bytes = encode_wav_pcm16_mono(8000, &samples);
    assert_eq!(bytes.len(), 44);
    let header = parse_wav_header(&bytes).unwrap();
    assert_eq!(header.data_len, 0);
    let mut reader = hound::WavReader::new(Cursor::new(bytes)).unwrap();
    assert_eq!(reader.len(), 0);
    assert_eq!(reader.samples::<i16>().count(), 0);
}

#[test]
fn malformed_streams_are_rejected_without_failing() {
    assert!(parse_wav_header(&Vec::new()).is_none());
    assert!(decode_wav_pcm16_mono(&Vec::new()).is_none());
    let garbage: Vec<u8> = (0..100u8).collect();
    assert!(parse_wav_header(&garbage).is_none());
    assert!(decode_wav_pcm16_mono(&garbage).is_none());
    // a good stream with one header byte flipped is no longer accepted
    let samples: Vec<i16> = vec![5, -5];
    let mut bytes = encode_wav_pcm16_mono(8000, &samples);
    bytes[0] = 0x51;
    assert!(parse_wav_header(&bytes).is_none());
    assert!(decode_wav_pcm16_mono(&bytes).is_none());
}

#[test]
fn wav_tags_stand_where_a_decoder_expects_them() {
    let samples: Vec<i16> = vec![257];
    let bytes = encode_wav_pcm16_mono(3, &samples);
    assert_eq!(&bytes[0..4], b"RIFF");
    assert_eq!(&bytes[8..12], b"WAVE");
    assert_eq!(&bytes[12..16], b"fmt ");
    assert_eq!(&bytes[36..40], b"data");
    // riff chunk size: 36 + payload, little endian
    assert_eq!(bytes[4], 38);
    assert_eq!(&bytes[5..8], &[0, 0, 0]);
    // the one sample, 0x0101, little endian
    assert_eq!(&bytes[44..46], &[1, 1]);
}
