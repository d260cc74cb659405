//! The audio artifact format: a RIFF/WAVE container holding mono 16-bit PCM
//! at the capture rate, written by hound into memory.
use vstd::prelude::*;

verus! {

/// The most samples a WAVE container can describe: its size fields are 32-bit.
pub const MAX_WAV_SAMPLES: usize = 2147483629;

/// The highest sample rate whose byte rate fits the format's 32-bit field.
pub const MAX_SAMPLE_RATE: u32 = 2147483647;

/// The four bytes of `x` in little-endian order.
pub open spec fn le32(x: nat) -> Seq<u8> {
    seq![
        (x % 256) as u8,
        (x / 256 % 256) as u8,
        (x / 65536 % 256) as u8,
        (x / 16777216 % 256) as u8,
    ]
}

/// The two bytes of `x` in little-endian order.
pub open spec fn le16(x: nat) -> Seq<u8> {
    seq![(x % 256) as u8, (x / 256 % 256) as u8]
}

/// The two's-complement bit pattern of a sample.
pub open spec fn sample_bits(s: i16) -> nat {
    if s >= 0 {
        s as nat
    } else {
        (s + 65536) as nat
    }
}

/// The data chunk's payload: each sample as two little-endian bytes.
pub open spec fn pcm_bytes(samples: Seq<i16>) -> Seq<u8> {
    Seq::new(
        2 * samples.len(),
        |j: int|
            if j % 2 == 0 {
                (sample_bits(samples[j / 2]) % 256) as u8
            } else {
                (sample_bits(samples[j / 2]) / 256) as u8
            },
    )
}

/// The 44-byte header of a mono 16-bit PCM container of `n` samples.
pub open spec fn wav_header(sample_rate: u32, n: nat) -> Seq<u8> {
    seq![0x52u8, 0x49, 0x46, 0x46] + le32(36 + 2 * n) + seq![0x57u8, 0x41, 0x56, 0x45]
        + seq![0x66u8, 0x6d, 0x74, 0x20] + le32(16) + le16(1) + le16(1) + le32(
        sample_rate as nat,
    ) + le32((2 * sample_rate) as nat) + le16(2) + le16(16) + seq![0x64u8, 0x61, 0x74, 0x61] + le32(
        2 * n,
    )
}

/// The complete container for `samples` captured at `sample_rate`.
pub open spec fn wav_image(sample_rate: u32, samples: Seq<i16>) -> Seq<u8> {
    wav_header(sample_rate, samples.len()) + pcm_bytes(samples)
}

/// Whether a recording fits the format.
pub open spec fn encodable(sample_rate: u32, n: nat) -> bool {
    0 < sample_rate <= MAX_SAMPLE_RATE && n <= MAX_WAV_SAMPLES
}

#[verifier::external_type_specification]
#[verifier::external_body]
pub struct ExHoundError(hound::Error);

/// Relies on hound's `WavWriter` (`new`, `write_sample`, `finalize`) over an
/// in-memory cursor: for a mono 16-bit integer spec it writes the 16-byte
/// PCMWAVEFORMAT fmt chunk, each sample little-endian, and on finalizing the
/// RIFF and data sizes. None of its errors can arise here: 16 bits is a
/// supported depth, an `i16` always fits it, one channel never leaves a
/// sample unfinished, and writes to the cursor do not fail. It panics on a
/// zero rate and overflows its 32-bit counters beyond the bounds required here.
#[verifier::external_body]
fn write_pcm16(sample_rate: u32, samples: &Vec<i16>) -> (r: Result<Vec<u8>, hound::Error>)
    requires
        encodable(sample_rate, samples.len() as nat),
    ensures
        r is Ok,
        r matches Ok(bytes) ==> bytes@ == wav_image(sample_rate, samples@),
{
    let spec = hound::WavSpec {
        channels: 1,
        sample_rate,
        bits_per_sample: 16,
        sample_format: hound::SampleFormat::Int,
    };
    let mut cursor = std::io::Cursor::new(Vec::new());
    let mut writer = hound::WavWriter::new(&mut cursor, spec)?;
    for s in samples.iter() {
        writer.write_sample(*s)?;
    }
    writer.finalize()?;
    Ok(cursor.into_inner())
}

/// Why no audio artifact was produced.
#[derive(Clone, Copy, Debug, PartialEq, Eq, Structural)]
pub enum EncodeError {
    /// The buffer held no samples.
    NothingRecorded,
    /// The rate or the length does not fit the container's fields.
    Unencodable,
}

impl EncodeError {
    /// A sentence for logs and user notifications.
    pub fn message(&self) -> (r: String)
        ensures
            r@ == match *self {
                EncodeError::NothingRecorded => "No audio recorded"@,
                EncodeError::Unencodable => "Recording does not fit a WAV container"@,
            },
    {
        match self {
            EncodeError::NothingRecorded => "No audio recorded".to_string(),
            EncodeError::Unencodable => "Recording does not fit a WAV container".to_string(),
        }
    }
}

/// Encodes a recording as a mono 16-bit PCM container.
pub fn encode_wav(sample_rate: u32, samples: &Vec<i16>) -> (r: Result<Vec<u8>, EncodeError>)
    ensures
        samples@.len() == 0 ==> r == Err::<Vec<u8>, EncodeError>(EncodeError::NothingRecorded),
        samples@.len() > 0 && !encodable(sample_rate, samples@.len()) ==> r == Err::<
            Vec<u8>,
            EncodeError,
        >(EncodeError::Unencodable),
        samples@.len() > 0 && encodable(sample_rate, samples@.len()) ==> (r matches Ok(bytes)
            && bytes@ == wav_image(sample_rate, samples@)),
{
    if samples.len() == 0 {
        return Err(EncodeError::NothingRecorded);
    }
    if sample_rate == 0 || sample_rate > MAX_SAMPLE_RATE || samples.len() > MAX_WAV_SAMPLES {
        return Err(EncodeError::Unencodable);
    }
    match write_pcm16(sample_rate, samples) {
        Ok(bytes) => Ok(bytes),
        Err(_) => {
            // The encoder cannot fail on a recording that fits the format.
            proof {
                assert(false);
            }
            Err(EncodeError::Unencodable)
        },
    }
}

/// The unsigned value of the little-endian bytes `b[at]`, `b[at + 1]`.
pub open spec fn read_le16(b: Seq<u8>, at: int) -> nat {
    (b[at] + 256 * b[at + 1]) as nat
}

/// The unsigned value of the four little-endian bytes from `b[at]`.
pub open spec fn read_le32(b: Seq<u8>, at: int) -> nat {
    (b[at] + 256 * b[at + 1] + 65536 * b[at + 2] + 16777216 * b[at + 3]) as nat
}

/// The sample a 16-bit two's-complement pattern stands for.
pub open spec fn sample_of_bits(x: nat) -> int {
    if x < 32768 {
        x as int
    } else {
        x - 65536
    }
}

/// The channel count a mono/stereo PCM container declares.
pub open spec fn container_channels(b: Seq<u8>) -> nat {
    read_le16(b, 22)
}

/// The sample rate a PCM container declares.
pub open spec fn container_rate(b: Seq<u8>) -> nat {
    read_le32(b, 24)
}

/// The bit depth a PCM container declares.
pub open spec fn container_bits(b: Seq<u8>) -> nat {
    read_le16(b, 34)
}

/// The samples of a 16-bit PCM container whose data chunk starts at byte 44,
/// as many as its data size declares.
pub open spec fn container_samples(b: Seq<u8>) -> Seq<int> {
    Seq::new(read_le32(b, 40) / 2, |i: int| sample_of_bits(read_le16(b, 44 + 2 * i)))
}

proof fn le32_round_trip(x: nat)
    requires
        x < 0x1_0000_0000,
    ensures
        read_le32(le32(x), 0) == x,
{
    let s = le32(x);
    assert(s[0] == x % 256);
    assert(s[1] == x / 256 % 256);
    assert(s[2] == x / 65536 % 256);
    assert(s[3] == x / 16777216 % 256);
    assert(x % 256 + 256 * (x / 256 % 256) + 65536 * (x / 65536 % 256) + 16777216 * (x / 16777216
        % 256) == x) by (nonlinear_arith)
        requires
            x < 0x1_0000_0000,
    {
        assert(x == 256 * (x / 256) + x % 256);
        assert(x / 256 == 256 * (x / 65536) + (x / 256) % 256);
        assert(x / 65536 == 256 * (x / 16777216) + (x / 65536) % 256);
        assert(x / 16777216 < 256);
    }
}

proof fn le16_round_trip(x: nat)
    requires
        x < 65536,
    ensures
        read_le16(le16(x), 0) == x,
{
    let s = le16(x);
    assert(s[0] == x % 256);
    assert(s[1] == x / 256 % 256);
    assert(x % 256 + 256 * (x / 256 % 256) == x) by (nonlinear_arith)
        requires
            x < 65536,
    {
        assert(x == 256 * (x / 256) + x % 256);
        assert(x / 256 < 256);
    }
}

proof fn sample_round_trip(s: i16)
    ensures
        sample_bits(s) % 256 + 256 * (sample_bits(s) / 256) == sample_bits(s),
        sample_bits(s) / 256 < 256,
        sample_of_bits(sample_bits(s)) == s,
{
    let x = sample_bits(s);
    assert(x < 65536);
    assert(x % 256 + 256 * (x / 256) == x) by (nonlinear_arith);
    assert(x / 256 < 256) by (nonlinear_arith)
        requires
            x < 65536,
    ;
}

/// Reading back the container written for `samples` at `sample_rate` gives a
/// mono 16-bit stream at that rate holding exactly those samples.
pub proof fn wav_round_trip(sample_rate: u32, samples: Seq<i16>)
    requires
        encodable(sample_rate, samples.len()),
    ensures
        container_channels(wav_image(sample_rate, samples)) == 1,
        container_bits(wav_image(sample_rate, samples)) == 16,
        container_rate(wav_image(sample_rate, samples)) == sample_rate,
        container_samples(wav_image(sample_rate, samples)) == samples.map_values(|s: i16| s as int),
{
    let b = wav_image(sample_rate, samples);
    let n = samples.len();
    let h = wav_header(sample_rate, n);
    assert(h.len() == 44);
    assert(b.subrange(22, 24) =~= le16(1));
    le16_round_trip(1);
    assert(b.subrange(24, 28) =~= le32(sample_rate as nat));
    le32_round_trip(sample_rate as nat);
    assert(b.subrange(34, 36) =~= le16(16));
    le16_round_trip(16);
    assert(b.subrange(40, 44) =~= le32(2 * n));
    le32_round_trip(2 * n);
    assert(read_le16(b, 22) == read_le16(b.subrange(22, 24), 0));
    assert(read_le32(b, 24) == read_le32(b.subrange(24, 28), 0));
    assert(read_le16(b, 34) == read_le16(b.subrange(34, 36), 0));
    assert(read_le32(b, 40) == read_le32(b.subrange(40, 44), 0));
    let out = container_samples(b);
    let expect = samples.map_values(|s: i16| s as int);
    assert forall|i: int| 0 <= i < n implies out[i] == expect[i] by {
        sample_round_trip(samples[i]);
        let p = pcm_bytes(samples);
        assert(b[44 + 2 * i] == p[2 * i]);
        assert(b[44 + 2 * i + 1] == p[2 * i + 1]);
        assert((2 * i) / 2 == i);
        assert((2 * i + 1) / 2 == i);
        assert((2 * i) % 2 == 0);
        assert((2 * i + 1) % 2 == 1);
    }
    assert(out =~= expect);
}

} // verus!
