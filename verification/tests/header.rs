use segment_capture::config::{
    sample_format, wav_spec_from_config, SampleEncoding, SampleFormat, StreamConfig,
};
use segment_capture::sink::SampleSink;
use segment_capture::wav::build_header;

fn u16_at(b: &[u8], i: usize) -> u16 {
    u16::from_le_bytes([b[i], b[i + 1]])
}

fn u32_at(b: &[u8], i: usize) -> u32 {
    u32::from_le_bytes([b[i], b[i + 1], b[i + 2], b[i + 3]])
}

#[test]
fn header_fields_match_config() {
    let c = StreamConfig::new(2, 44100, 0, 8192, SampleFormat::Int16).unwrap();
    let s = wav_spec_from_config(&c);
    assert_eq!(s.channels, 2);
    assert_eq!(s.sample_rate, 44100);
    assert_eq!(s.bits_per_sample, 16);
    assert!(matches!(s.sample_format, SampleEncoding::Int));
    let h = build_header(&s, 8);
    assert_eq!(h.len(), 44);
    assert_eq!(&h[0..4], b"RIFF");
    assert_eq!(u32_at(&h, 4), 44);
    assert_eq!(&h[8..12], b"WAVE");
    assert_eq!(&h[12..16], b"fmt ");
    assert_eq!(u32_at(&h, 16), 16);
    assert_eq!(u16_at(&h, 20), 1);
    assert_eq!(u16_at(&h, 22), 2);
    assert_eq!(u32_at(&h, 24), 44100);
    assert_eq!(u32_at(&h, 28), 44100 * 4);
    assert_eq!(u16_at(&h, 32), 4);
    assert_eq!(u16_at(&h, 34), 16);
    assert_eq!(&h[36..40], b"data");
    assert_eq!(u32_at(&h, 40), 8);
}

#[test]
fn float_config_header_flag() {
    assert!(matches!(
        sample_format(SampleFormat::Float32),
        SampleEncoding::Float
    ));
    assert!(matches!(
        sample_format(SampleFormat::Int16),
        SampleEncoding::Int
    ));
    let c = StreamConfig::new(1, 48000, 0, 4096, SampleFormat::Float32).unwrap();
    let s = wav_spec_from_config(&c);
    assert_eq!(s.bits_per_sample, 32);
    assert!(matches!(s.sample_format, SampleEncoding::Float));
    let h = build_header(&s, 0);
    assert_eq!(u16_at(&h, 20), 3);
    assert_eq!(u16_at(&h, 32), 4);
    assert_eq!(u16_at(&h, 34), 32);
    assert_eq!(u32_at(&h, 28), 48000 * 4);
}

#[test]
fn config_invariant_rejected() {
    assert!(StreamConfig::new(0, 16000, 0, 8192, SampleFormat::Int16).is_none());
    assert!(StreamConfig::new(1, 0, 0, 8192, SampleFormat::Int16).is_none());
    assert!(StreamConfig::new(0, 0, 0, 8192, SampleFormat::Float32).is_none());
    assert!(StreamConfig::new(1, 1, 0, 8192, SampleFormat::Int16).is_some());
}

#[test]
fn two_second_segment_end_to_end() {
    let c = StreamConfig::new(1, 16000, 0, 8192, SampleFormat::Int16).unwrap();
    let s = wav_spec_from_config(&c);
    let mut sink = SampleSink::absent();
    sink.start_segment(s);
    let mut buf: Vec<i16> = Vec::new();
    for i in 0..32000usize {
        let t = i as f64 / 16000.0;
        let v = (2.0 * std::f64::consts::PI * 440.0 * t).sin();
        buf.push((v * 30000.0) as i16);
        if buf.len() == 512 {
            sink.write_input_data(&buf);
            buf.clear();
        }
    }
    if !buf.is_empty() {
        sink.write_input_data(&buf);
    }
    let file = sink.finalize_segment().unwrap();
    assert_eq!(file.len(), 44 + 64000);
    let data_len = u32_at(&file, 40) as f64;
    let byte_rate = u32_at(&file, 28) as f64;
    let duration = data_len / byte_rate;
    assert!(duration >= 1.9 && duration <= 2.1);
    assert_eq!(u16_at(&file, 20), 1);
    assert_eq!(u16_at(&file, 22), 1);
    assert_eq!(u32_at(&file, 24), 16000);
    assert_eq!(u16_at(&file, 34), 16);
    assert_eq!(u32_at(&file, 4), 36 + 64000);
}

#[test]
fn finalized_file_parses_with_reference_reader() {
    let c = StreamConfig::new(1, 16000, 0, 8192, SampleFormat::Int16).unwrap();
    let s = wav_spec_from_config(&c);
    let mut sink = SampleSink::absent();
    sink.start_segment(s);
    let samples: Vec<i16> = vec![0, 1000, -1000, 32767, -32768, 7];
    sink.write_input_data(&samples);
    let file = sink.finalize_segment().unwrap();
    let reader = hound::WavReader::new(std::io::Cursor::new(file)).unwrap();
    let spec = reader.spec();
    assert_eq!(spec.channels, 1);
    assert_eq!(spec.sample_rate, 16000);
    assert_eq!(spec.bits_per_sample, 16);
    assert_eq!(spec.sample_format, hound::SampleFormat::Int);
    let decoded: Vec<i16> = reader.into_samples().map(|r| r.unwrap()).collect();
    assert_eq!(decoded, samples);
}
