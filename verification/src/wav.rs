//! The audio container that carries a synthesized tone.
//!
//! A notification tone is one channel of 16-bit signed PCM samples wrapped in
//! a minimal RIFF/WAVE header: format tag, channel count, sample rate, bit
//! depth, and a data-length field that must equal the payload size. This
//! module builds that byte stream, parses it back, and proves that the two
//! directions agree: a buffer encoded from `n` samples declares a data length
//! of exactly `2 * n` bytes, and decoding it recovers the header fields and
//! the samples unchanged.

use vstd::prelude::*;

verus! {

/// The two little-endian bytes of a 16-bit value, least significant first.
pub open spec fn u16_le_bytes(x: u16) -> Seq<u8> {
    seq![(x % 256) as u8, (x / 256) as u8]
}

/// The four little-endian bytes of a 32-bit value, least significant first.
pub open spec fn u32_le_bytes(x: u32) -> Seq<u8> {
    seq![
        (x % 256) as u8,
        ((x / 256) % 256) as u8,
        (((x / 256) / 256) % 256) as u8,
        (((x / 256) / 256) / 256) as u8,
    ]
}

/// The 16-bit value stored little-endian at position `i`.
pub open spec fn u16_at(bytes: Seq<u8>, i: int) -> u16 {
    (bytes[i] + 256 * bytes[i + 1]) as u16
}

/// The 32-bit value stored little-endian at position `i`.
pub open spec fn u32_at(bytes: Seq<u8>, i: int) -> u32 {
    (bytes[i] + 256 * (bytes[i + 1] + 256 * (bytes[i + 2] + 256 * bytes[i + 3]))) as u32
}

/// The unsigned 16-bit pattern that stores a signed sample in two's
/// complement.
pub open spec fn bits_of_sample(s: i16) -> u16 {
    if s >= 0 {
        s as u16
    } else {
        (s + 0x10000) as u16
    }
}

/// The signed sample read back from its stored 16-bit pattern.
pub open spec fn sample_of_bits(b: u16) -> i16 {
    if b < 0x8000 {
        b as i16
    } else {
        (b - 0x10000) as i16
    }
}

/// Reading a stored sample back gives the sample.
pub proof fn lemma_sample_bits_round_trip(s: i16)
    ensures
        sample_of_bits(bits_of_sample(s)) == s,
{
}

/// The raw PCM payload of a sample sequence: each sample as two little-endian
/// bytes, in order.
pub open spec fn pcm_bytes_spec(samples: Seq<i16>) -> Seq<u8> {
    Seq::new(
        2 * samples.len(),
        |j: int|
            if j % 2 == 0 {
                (bits_of_sample(samples[j / 2]) % 256) as u8
            } else {
                (bits_of_sample(samples[j / 2]) / 256) as u8
            },
    )
}

/// The payload bytes of sample `i` stand at positions `2 i` and `2 i + 1`.
pub proof fn lemma_pcm_bytes_at(samples: Seq<i16>, i: int)
    requires
        0 <= i < samples.len(),
    ensures
        pcm_bytes_spec(samples)[2 * i] == u16_le_bytes(bits_of_sample(samples[i]))[0],
        pcm_bytes_spec(samples)[2 * i + 1] == u16_le_bytes(bits_of_sample(samples[i]))[1],
{
    assert((2 * i) % 2 == 0);
    assert((2 * i) / 2 == i);
    assert((2 * i + 1) % 2 == 1);
    assert((2 * i + 1) / 2 == i);
}

/// The 44-byte header that precedes the PCM payload: RIFF tag and chunk size,
/// WAVE tag, a 16-byte `fmt ` chunk (PCM, one channel, the sample rate, a
/// byte rate of twice the sample rate, block align two, sixteen bits per
/// sample), then the `data` tag and the payload length.
pub open spec fn wav_header_spec(sample_rate: u32, data_len: u32) -> Seq<u8> {
    seq![0x52u8, 0x49u8, 0x46u8, 0x46u8]  // "RIFF"
     + u32_le_bytes((36 + data_len) as u32) + seq![0x57u8, 0x41u8, 0x56u8, 0x45u8]  // "WAVE"
     + seq![0x66u8, 0x6du8, 0x74u8, 0x20u8]  // "fmt "
     + u32_le_bytes(16u32)  // fmt chunk size
     + u16_le_bytes(1u16)  // audio format: PCM
     + u16_le_bytes(1u16)  // channels: mono
     + u32_le_bytes(sample_rate) + u32_le_bytes((2 * sample_rate) as u32)  // byte rate
     + u16_le_bytes(2u16)  // block align
     + u16_le_bytes(16u16)  // bits per sample
     + seq![0x64u8, 0x61u8, 0x74u8, 0x61u8]  // "data"
     + u32_le_bytes(data_len)
}

/// The whole encoded tone: header, then payload.
pub open spec fn wav_file_spec(sample_rate: u32, samples: Seq<i16>) -> Seq<u8> {
    wav_header_spec(sample_rate, (2 * samples.len()) as u32) + pcm_bytes_spec(samples)
}

/// The header fields a decoder reads back from an encoded tone.
#[derive(Clone, Copy, Debug, PartialEq, Eq, Structural)]
pub struct WavHeader {
    pub audio_format: u16,
    pub channels: u16,
    pub sample_rate: u32,
    pub byte_rate: u32,
    pub block_align: u16,
    pub bits_per_sample: u16,
    pub data_len: u32,
}

/// Whether the byte stream starts with a well-shaped minimal RIFF/WAVE
/// header: the three tags in place, a 16-byte `fmt ` chunk, and a `data`
/// chunk whose declared length fits inside the stream.
pub open spec fn header_shape_ok(bytes: Seq<u8>) -> bool {
    &&& bytes.len() >= 44
    &&& bytes[0] == 0x52u8 && bytes[1] == 0x49u8 && bytes[2] == 0x46u8 && bytes[3] == 0x46u8
    &&& bytes[8] == 0x57u8 && bytes[9] == 0x41u8 && bytes[10] == 0x56u8 && bytes[11] == 0x45u8
    &&& bytes[12] == 0x66u8 && bytes[13] == 0x6du8 && bytes[14] == 0x74u8 && bytes[15] == 0x20u8
    &&& u32_at(bytes, 16) == 16
    &&& bytes[36] == 0x64u8 && bytes[37] == 0x61u8 && bytes[38] == 0x74u8 && bytes[39] == 0x61u8
    &&& u32_at(bytes, 40) <= bytes.len() - 44
}

/// What parsing a byte stream yields: the header fields when the shape is
/// right, nothing otherwise.
pub open spec fn parse_header_spec(bytes: Seq<u8>) -> Option<WavHeader> {
    if header_shape_ok(bytes) {
        Some(
            WavHeader {
                audio_format: u16_at(bytes, 20),
                channels: u16_at(bytes, 22),
                sample_rate: u32_at(bytes, 24),
                byte_rate: u32_at(bytes, 28),
                block_align: u16_at(bytes, 32),
                bits_per_sample: u16_at(bytes, 34),
                data_len: u32_at(bytes, 40),
            },
        )
    } else {
        None
    }
}

/// The first `n` samples read back from the payload that starts at byte 44.
pub open spec fn samples_at(bytes: Seq<u8>, n: nat) -> Seq<i16> {
    Seq::new(n, |i: int| sample_of_bits(u16_at(bytes, 44 + 2 * i)))
}

/// Storing a 16-bit value little-endian and reading it back gives the value.
pub proof fn lemma_u16_le_round_trip(x: u16)
    ensures
        u16_at(u16_le_bytes(x), 0) == x,
{
    assert(x % 256 + 256 * (x / 256) == x);
}

/// Storing a 32-bit value little-endian and reading it back gives the value.
pub proof fn lemma_u32_le_round_trip(x: u32)
    ensures
        u32_at(u32_le_bytes(x), 0) == x,
{
    assert(x / 256 / 256 % 256 + 256 * (x / 256 / 256 / 256) == x / 256 / 256);
    assert(x / 256 % 256 + 256 * (x / 256 / 256) == x / 256);
    assert(x % 256 + 256 * (x / 256) == x);
}

fn push_tag(out: &mut Vec<u8>, a: u8, b: u8, c: u8, d: u8)
    ensures
        final(out)@ == old(out)@ + seq![a, b, c, d],
{
    out.push(a);
    out.push(b);
    out.push(c);
    out.push(d);
    assert(out@ =~= old(out)@ + seq![a, b, c, d]);
}

fn push_u16_le(out: &mut Vec<u8>, x: u16)
    ensures
        final(out)@ == old(out)@ + u16_le_bytes(x),
{
    out.push((x % 256) as u8);
    out.push((x / 256) as u8);
    assert(out@ =~= old(out)@ + u16_le_bytes(x));
}

fn push_u32_le(out: &mut Vec<u8>, x: u32)
    ensures
        final(out)@ == old(out)@ + u32_le_bytes(x),
{
    out.push((x % 256) as u8);
    out.push((x / 256 % 256) as u8);
    out.push((x / 256 / 256 % 256) as u8);
    out.push((x / 256 / 256 / 256) as u8);
    assert(out@ =~= old(out)@ + u32_le_bytes(x));
}

/// Encode one channel of 16-bit PCM samples as a self-contained audio byte
/// stream: the 44-byte header, then every sample as two little-endian bytes.
/// The declared data length is exactly twice the sample count, and the whole
/// result is pinned byte for byte, so identical inputs always give identical
/// buffers.
pub fn encode_wav_pcm16_mono(sample_rate: u32, samples: &Vec<i16>) -> (r: Vec<u8>)
    requires
        2 * samples@.len() + 36 <= u32::MAX,
        2 * sample_rate <= u32::MAX,
    ensures
        r@ == wav_file_spec(sample_rate, samples@),
        r@.len() == 44 + 2 * samples@.len(),
{
    let data_len: u32 = (samples.len() * 2) as u32;
    let mut out: Vec<u8> = Vec::new();
    push_tag(&mut out, 0x52, 0x49, 0x46, 0x46);  // "RIFF"
    push_u32_le(&mut out, 36 + data_len);
    push_tag(&mut out, 0x57, 0x41, 0x56, 0x45);  // "WAVE"
    push_tag(&mut out, 0x66, 0x6d, 0x74, 0x20);  // "fmt "
    push_u32_le(&mut out, 16);
    push_u16_le(&mut out, 1);
    push_u16_le(&mut out, 1);
    push_u32_le(&mut out, sample_rate);
    push_u32_le(&mut out, 2 * sample_rate);
    push_u16_le(&mut out, 2);
    push_u16_le(&mut out, 16);
    push_tag(&mut out, 0x64, 0x61, 0x74, 0x61);  // "data"
    push_u32_le(&mut out, data_len);
    assert(out@ =~= wav_header_spec(sample_rate, data_len));
    let ghost header = out@;
    let mut i: usize = 0;
    while i < samples.len()
        invariant
            2 * samples@.len() + 36 <= u32::MAX,
            i <= samples@.len(),
            header == wav_header_spec(sample_rate, (2 * samples@.len()) as u32),
            out@ == header + pcm_bytes_spec(samples@.take(i as int)),
        decreases samples@.len() - i,
    {
        let s: i16 = samples[i];
        let bits: u16 = if s >= 0 {
            s as u16
        } else {
            ((s as i32) + 0x10000) as u16
        };
        assert(bits == bits_of_sample(samples@[i as int]));
        out.push((bits % 256) as u8);
        out.push((bits / 256) as u8);
        assert(out@ =~= header + pcm_bytes_spec(samples@.take(i as int + 1))) by {
            let prev = pcm_bytes_spec(samples@.take(i as int));
            let next = pcm_bytes_spec(samples@.take(i as int + 1));
            assert forall|j: int| 0 <= j < next.len() implies next[j] == (prev + u16_le_bytes(
                bits_of_sample(samples@[i as int]),
            ))[j] by {
                assert(samples@.take(i as int + 1)[j / 2] == samples@[j / 2]);
                if j < 2 * (i as int) {
                    assert(samples@.take(i as int)[j / 2] == samples@[j / 2]);
                } else if j == 2 * (i as int) {
                    assert(j % 2 == 0 && j / 2 == i as int);
                } else {
                    assert(j == 2 * (i as int) + 1);
                    assert(j % 2 == 1 && j / 2 == i as int);
                }
            }
        }
        i = i + 1;
    }
    assert(samples@.take(samples@.len() as int) =~= samples@);
    out
}

fn read_u16_le(bytes: &Vec<u8>, i: usize) -> (r: u16)
    requires
        i + 2 <= bytes@.len(),
    ensures
        r == u16_at(bytes@, i as int),
{
    let n = bytes.len();
    assert(i + 2 <= n);
    (bytes[i] as u16) + 256 * (bytes[i + 1] as u16)
}

fn read_u32_le(bytes: &Vec<u8>, i: usize) -> (r: u32)
    requires
        i + 4 <= bytes@.len(),
    ensures
        r == u32_at(bytes@, i as int),
{
    let n = bytes.len();
    assert(i + 4 <= n);
    (bytes[i] as u32) + 256 * ((bytes[i + 1] as u32) + 256 * ((bytes[i + 2] as u32) + 256 * (bytes[i
        + 3] as u32)))
}

/// Parse the minimal RIFF/WAVE header from the front of a byte stream.
/// Returns the header fields exactly when the stream is well shaped, and
/// nothing otherwise; it never fails any other way.
pub fn parse_wav_header(bytes: &Vec<u8>) -> (r: Option<WavHeader>)
    ensures
        r == parse_header_spec(bytes@),
{
    if bytes.len() < 44 {
        return None;
    }
    if !(bytes[0] == 0x52 && bytes[1] == 0x49 && bytes[2] == 0x46 && bytes[3] == 0x46) {
        return None;
    }
    if !(bytes[8] == 0x57 && bytes[9] == 0x41 && bytes[10] == 0x56 && bytes[11] == 0x45) {
        return None;
    }
    if !(bytes[12] == 0x66 && bytes[13] == 0x6d && bytes[14] == 0x74 && bytes[15] == 0x20) {
        return None;
    }
    if read_u32_le(bytes, 16) != 16 {
        return None;
    }
    if !(bytes[36] == 0x64 && bytes[37] == 0x61 && bytes[38] == 0x74 && bytes[39] == 0x61) {
        return None;
    }
    let data_len = read_u32_le(bytes, 40);
    if !(data_len as usize <= bytes.len() - 44) {
        return None;
    }
    Some(
        WavHeader {
            audio_format: read_u16_le(bytes, 20),
            channels: read_u16_le(bytes, 22),
            sample_rate: read_u32_le(bytes, 24),
            byte_rate: read_u32_le(bytes, 28),
            block_align: read_u16_le(bytes, 32),
            bits_per_sample: read_u16_le(bytes, 34),
            data_len,
        },
    )
}

/// Whether a parsed header announces the payload this library produces:
/// plain PCM, one channel, sixteen bits per sample, a whole number of
/// samples.
pub open spec fn pcm16_mono_header(h: WavHeader) -> bool {
    h.audio_format == 1 && h.channels == 1 && h.bits_per_sample == 16 && h.data_len % 2 == 0
}

/// Decode an encoded tone: the header fields and every 16-bit sample of the
/// payload. Returns nothing — and never fails any other way — unless the
/// stream carries a well-shaped header announcing 16-bit mono PCM.
pub fn decode_wav_pcm16_mono(bytes: &Vec<u8>) -> (r: Option<(WavHeader, Vec<i16>)>)
    ensures
        match r {
            Some(decoded) => {
                &&& parse_header_spec(bytes@) == Some(decoded.0)
                &&& pcm16_mono_header(decoded.0)
                &&& decoded.1@ == samples_at(bytes@, (decoded.0.data_len / 2) as nat)
            },
            None => parse_header_spec(bytes@) matches Some(h) ==> !pcm16_mono_header(h),
        },
        r is Some <==> (parse_header_spec(bytes@) matches Some(h) && pcm16_mono_header(h)),
{
    let header = match parse_wav_header(bytes) {
        Some(h) => h,
        None => {
            return None;
        },
    };
    if !(header.audio_format == 1 && header.channels == 1 && header.bits_per_sample == 16
        && header.data_len % 2 == 0) {
        return None;
    }
    let n: usize = (header.data_len / 2) as usize;
    let blen: usize = bytes.len();
    let mut samples: Vec<i16> = Vec::new();
    let mut i: usize = 0;
    while i < n
        invariant
            i <= n,
            n == header.data_len / 2,
            blen == bytes@.len(),
            header.data_len <= blen - 44,
            samples@ =~= samples_at(bytes@, i as nat),
        decreases n - i,
    {
        let bits = read_u16_le(bytes, 44 + 2 * i);
        let s: i16 = if bits < 0x8000 {
            bits as i16
        } else {
            ((bits as i32) - 0x10000) as i16
        };
        assert(s == sample_of_bits(u16_at(bytes@, 44 + 2 * (i as int))));
        samples.push(s);
        i = i + 1;
        assert(samples@ =~= samples_at(bytes@, i as nat));
    }
    Some((header, samples))
}

/// How many samples a tone of `duration_seconds` seconds holds at
/// `sample_rate` samples per second.
pub fn tone_sample_count(sample_rate: u32, duration_seconds: u32) -> (n: u64)
    ensures
        n == sample_rate * duration_seconds,
{
    proof {
        assert((sample_rate as int) * (duration_seconds as int) <= 0xffff_ffff * 0xffff_ffff)
            by (nonlinear_arith)
            requires
                sample_rate <= 0xffff_ffffu32,
                duration_seconds <= 0xffff_ffffu32,
        ;
    }
    (sample_rate as u64) * (duration_seconds as u64)
}

/// The encoded container round-trips: parsing a buffer encoded from a sample
/// sequence yields exactly the header it was built with — PCM format, one
/// channel, the stated sample rate, sixteen bits, and a data length of twice
/// the sample count — and reading the payload back gives the samples
/// unchanged.
pub proof fn lemma_wav_round_trip(sample_rate: u32, samples: Seq<i16>)
    requires
        2 * samples.len() + 36 <= u32::MAX,
        2 * sample_rate <= u32::MAX,
    ensures
        parse_header_spec(wav_file_spec(sample_rate, samples)) == Some(
            WavHeader {
                audio_format: 1,
                channels: 1,
                sample_rate,
                byte_rate: (2 * sample_rate) as u32,
                block_align: 2,
                bits_per_sample: 16,
                data_len: (2 * samples.len()) as u32,
            },
        ),
        samples_at(wav_file_spec(sample_rate, samples), samples.len()) == samples,
{
    let data_len = (2 * samples.len()) as u32;
    let h = wav_header_spec(sample_rate, data_len);
    let pcm = pcm_bytes_spec(samples);
    let file = wav_file_spec(sample_rate, samples);
    assert(h.len() == 44);
    assert(pcm.len() == 2 * samples.len());
    assert(file.len() == 44 + 2 * samples.len());
    lemma_u32_le_round_trip((36 + data_len) as u32);
    lemma_u32_le_round_trip(sample_rate);
    lemma_u32_le_round_trip((2 * sample_rate) as u32);
    lemma_u32_le_round_trip(data_len);
    assert(header_shape_ok(file));
    assert(u32_at(file, 40) == data_len);
    assert(u16_at(file, 20) == 1);
    assert(u16_at(file, 22) == 1);
    assert(u32_at(file, 24) == sample_rate);
    assert(u32_at(file, 28) == (2 * sample_rate) as u32);
    assert(u16_at(file, 32) == 2);
    assert(u16_at(file, 34) == 16);
    assert(samples_at(file, samples.len()) =~= samples) by {
        assert forall|i: int| 0 <= i < samples.len() implies samples_at(file, samples.len())[i]
            == samples[i] by {
            lemma_pcm_bytes_at(samples, i);
            let bits = bits_of_sample(samples[i]);
            assert(file[44 + 2 * i] == pcm[2 * i]);
            assert(file[44 + 2 * i + 1] == pcm[2 * i + 1]);
            lemma_u16_le_round_trip(bits);
            assert(u16_at(file, 44 + 2 * i) == bits);
            lemma_sample_bits_round_trip(samples[i]);
        }
    }
}

/// The declared data length of an encoded tone always equals
/// `2 * sample_rate * duration`: two bytes for each of the
/// `sample_rate * duration` samples of a 16-bit mono tone.
pub proof fn lemma_tone_data_len(sample_rate: u32, duration_seconds: u32, samples: Seq<i16>)
    requires
        samples.len() == sample_rate * duration_seconds,
        2 * samples.len() + 36 <= u32::MAX,
        2 * sample_rate <= u32::MAX,
    ensures
        parse_header_spec(wav_file_spec(sample_rate, samples)) matches Some(h) && h.data_len == 2
            * sample_rate * duration_seconds,
{
    lemma_wav_round_trip(sample_rate, samples);
    assert(2 * ((sample_rate as int) * (duration_seconds as int)) == 2 * (sample_rate as int) * (
    duration_seconds as int)) by (nonlinear_arith);
}

} // verus!
