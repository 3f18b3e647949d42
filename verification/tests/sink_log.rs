use segment_capture::config::{wav_spec_from_config, SampleFormat, StreamConfig};
use segment_capture::sink::SampleSink;
use segment_capture::translog::TranscriptLog;

fn int16_params() -> segment_capture::config::WavSpec {
    let c = StreamConfig::new(1, 16000, 0, 8192, SampleFormat::Int16).unwrap();
    wav_spec_from_config(&c)
}

#[test]
fn absent_sink_drops_writes() {
    let mut sink = SampleSink::absent();
    sink.write_input_data(&[1, 2, 3]);
    sink.start_segment(int16_params());
    let empty_file = {
        let mut probe = SampleSink::absent();
        probe.start_segment(int16_params());
        probe.finalize_segment().unwrap()
    };
    // Before any write the segment holds no data bytes at all.
    assert_eq!(empty_file.len(), 44);
    assert_eq!(u32::from_le_bytes([empty_file[40], empty_file[41], empty_file[42], empty_file[43]]), 0);
    // Writes to the open sink only ever grow the data section.
    sink.write_input_data(&[5]);
    sink.write_input_data(&[]);
    sink.write_input_data(&[6, 7]);
    let file = sink.finalize_segment().unwrap();
    assert_eq!(file.len(), 44 + 6);
    assert_eq!(&file[44..], &[5, 0, 6, 0, 7, 0]);
}

#[test]
fn finalize_then_late_write_is_noop() {
    let mut sink = SampleSink::absent();
    sink.start_segment(int16_params());
    sink.write_input_data(&[1, 2, 3]);
    let file = sink.finalize_segment().unwrap();
    // A callback arriving after finalize finds the sink absent and is dropped.
    sink.write_input_data(&[9, 9, 9]);
    assert!(sink.finalize_segment().is_none());
    // The finalized bytes are a consistent stream of whole samples.
    assert_eq!((file.len() - 44) % 2, 0);
    assert_eq!(&file[44..], &[1, 0, 2, 0, 3, 0]);
    let declared = u32::from_le_bytes([file[40], file[41], file[42], file[43]]) as usize;
    assert_eq!(declared, file.len() - 44);
}

#[test]
fn log_entries_whole_in_either_order() {
    let a = b"alpha response";
    let b = b"bravo response";
    let mut log_ab = TranscriptLog::new();
    log_ab.append_entry(a);
    log_ab.append_entry(b);
    let mut expected_ab = Vec::new();
    expected_ab.extend_from_slice(a);
    expected_ab.push(b'\n');
    expected_ab.extend_from_slice(b);
    expected_ab.push(b'\n');
    assert_eq!(log_ab.bytes(), &expected_ab);

    let mut log_ba = TranscriptLog::new();
    log_ba.append_entry(b);
    log_ba.append_entry(a);
    let mut expected_ba = Vec::new();
    expected_ba.extend_from_slice(b);
    expected_ba.push(b'\n');
    expected_ba.extend_from_slice(a);
    expected_ba.push(b'\n');
    assert_eq!(log_ba.bytes(), &expected_ba);
}

#[test]
fn endpoint_outcomes_logged_in_either_order() {
    // Segment A's upload fails with a server error; segment B's succeeds with
    // body "ok". Whichever completes first, the log ends up with one whole
    // line per outcome and B's line is exactly "ok".
    let error_body = b"500 Internal Server Error";
    let ok_body = b"ok";
    for first_is_error in [true, false] {
        let mut log = TranscriptLog::new();
        if first_is_error {
            log.append_entry(error_body);
            log.append_entry(ok_body);
        } else {
            log.append_entry(ok_body);
            log.append_entry(error_body);
        }
        let text = String::from_utf8(log.bytes().clone()).unwrap();
        let lines: Vec<&str> = text.split_terminator('\n').collect();
        assert_eq!(lines.len(), 2);
        assert_eq!(lines.iter().filter(|l| **l == "ok").count(), 1);
        assert_eq!(
            lines
                .iter()
                .filter(|l| **l == "500 Internal Server Error")
                .count(),
            1
        );
    }
}
