use mouth_high::capture::{pcm_from_u16, CaptureActor, Recording, FULL_SCALE};
use mouth_high::wav::{encode_wav, EncodeError};

#[test]
fn stop_without_start_reports_nothing_recorded() {
    let mut a = CaptureActor::new();
    assert_eq!(a.stop().err(), Some(EncodeError::NothingRecorded));
    assert_eq!(a.push_chunk(&[1000, -1000], 100), None);
    assert_eq!(a.buffered(), 0);
    assert_eq!(a.stop().err(), Some(EncodeError::NothingRecorded));
}

#[test]
fn second_stop_after_recording_reports_nothing_recorded() {
    let mut a = CaptureActor::new();
    a.start(0);
    a.stream_opened(16000);
    a.push_chunk(&[1, 2, 3], 10);
    let rec = a.stop().unwrap();
    assert_eq!(rec.sample_rate, 16000);
    assert_eq!(rec.samples, vec![1, 2, 3]);
    assert_eq!(a.stop().err(), Some(EncodeError::NothingRecorded));
    assert_eq!(EncodeError::NothingRecorded.message(), "No audio recorded");
}

#[test]
fn double_start_equals_single_start() {
    let mut a = CaptureActor::new();
    a.start(0);
    a.push_chunk(&[5, 6], 10);
    a.start(20);
    assert!(a.is_recording());
    assert_eq!(a.buffered(), 0);
    a.push_chunk(&[7], 30);
    assert_eq!(a.stop().unwrap().samples, vec![7]);
}

#[test]
fn failed_stream_leaves_actor_idle() {
    let mut a = CaptureActor::new();
    a.start(0);
    a.stream_failed();
    assert!(!a.is_recording());
    assert_eq!(a.push_chunk(&[5], 100), None);
    assert_eq!(a.stop().err(), Some(EncodeError::NothingRecorded));
}

#[test]
fn amplitude_emitted_every_interval_within_range() {
    let mut a = CaptureActor::new();
    a.start(0);
    assert_eq!(a.push_chunk(&[100; 10], 20), None);
    // window: 20 samples of magnitude 100, gain 5 -> 500
    assert_eq!(a.push_chunk(&[-100; 10], 50), Some(500));
    assert_eq!(a.push_chunk(&[i16::MAX; 4], 60), None);
    assert_eq!(a.push_chunk(&[i16::MIN; 4], 100), Some(FULL_SCALE));
    assert_eq!(a.push_chunk(&[], 200), None);
}

#[test]
fn lowest_sample_is_kept_within_range() {
    let mut a = CaptureActor::new();
    a.start(0);
    assert_eq!(a.push_chunk(&[i16::MIN, 3, i16::MIN], 60), Some(FULL_SCALE));
    assert_eq!(a.push_chunk(&[-1000, 1000], 70), None);
    assert_eq!(a.stop().unwrap().samples, vec![-32767, 3, -32767, -1000, 1000]);
}

#[test]
fn encoding_a_valid_recording_succeeds() {
    let rec = Recording { sample_rate: 48000, samples: vec![0; 2400] };
    let bytes = rec.encode().unwrap();
    assert_eq!(bytes.len(), 44 + 4800);
}

#[test]
fn no_amplitude_while_idle() {
    let mut a = CaptureActor::new();
    for t in 0..10u64 {
        assert_eq!(a.push_chunk(&[30000; 8], t * 100), None);
    }
}

#[test]
fn unsigned_samples_are_centred() {
    assert_eq!(pcm_from_u16(0), -32767);
    assert_eq!(pcm_from_u16(65535), 32767);
    assert_eq!(pcm_from_u16(32767), 0);
    assert_eq!(pcm_from_u16(32768), 0);
    assert_eq!(pcm_from_u16(49151), 16383);
    assert_eq!(pcm_from_u16(49152), 16384);
    let mut a = CaptureActor::new();
    a.start(0);
    a.push_u16_chunk(&[0, 65535], 1);
    assert_eq!(a.stop().unwrap().samples, vec![-32767, 32767]);
}

#[test]
fn wav_bytes_for_one_sample() {
    let bytes = encode_wav(16000, &vec![-2]).unwrap();
    let mut expected: Vec<u8> = Vec::new();
    expected.extend_from_slice(b"RIFF");
    expected.extend_from_slice(&38u32.to_le_bytes());
    expected.extend_from_slice(b"WAVEfmt ");
    expected.extend_from_slice(&16u32.to_le_bytes());
    expected.extend_from_slice(&1u16.to_le_bytes());
    expected.extend_from_slice(&1u16.to_le_bytes());
    expected.extend_from_slice(&16000u32.to_le_bytes());
    expected.extend_from_slice(&32000u32.to_le_bytes());
    expected.extend_from_slice(&2u16.to_le_bytes());
    expected.extend_from_slice(&16u16.to_le_bytes());
    expected.extend_from_slice(b"data");
    expected.extend_from_slice(&2u32.to_le_bytes());
    expected.extend_from_slice(&[0xfe, 0xff]);
    assert_eq!(bytes, expected);
}

#[test]
fn encode_errors() {
    assert_eq!(encode_wav(16000, &vec![]), Err(EncodeError::NothingRecorded));
    assert_eq!(encode_wav(0, &vec![1]), Err(EncodeError::Unencodable));
    assert_eq!(encode_wav(u32::MAX, &vec![1]), Err(EncodeError::Unencodable));
    let rec = Recording { sample_rate: 8000, samples: vec![] };
    assert_eq!(rec.encode(), Err(EncodeError::NothingRecorded));
}

fn quantize(x: f32) -> i16 {
    (x.clamp(-1.0, 1.0) * 32767.0).round() as i16
}

#[test]
fn float_round_trip_within_one_step() {
    let originals: Vec<f32> = vec![0.0, 0.5, -0.5, 1.0, -1.0, 0.123456, -0.987654, 0.00001];
    let rate = 44100;
    let pcm: Vec<i16> = originals.iter().map(|x| quantize(*x)).collect();
    let rec = Recording { sample_rate: rate, samples: pcm };
    let bytes = rec.encode().unwrap();
    let reader = hound::WavReader::new(std::io::Cursor::new(bytes)).unwrap();
    let spec = reader.spec();
    assert_eq!(spec.channels, 1);
    assert_eq!(spec.bits_per_sample, 16);
    assert_eq!(spec.sample_rate, rate);
    let decoded: Vec<i16> = reader.into_samples::<i16>().map(|s| s.unwrap()).collect();
    assert_eq!(decoded.len(), originals.len());
    for (d, o) in decoded.iter().zip(originals.iter()) {
        let back = *d as f32 / 32767.0;
        assert!((back - o).abs() <= 1.0 / 32767.0, "{} vs {}", back, o);
    }
}

#[test]
fn encode_error_messages() {
    assert_eq!(EncodeError::Unencodable.message(), "Recording does not fit a WAV container");
}
