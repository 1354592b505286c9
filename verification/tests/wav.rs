use friday::wav::{finish_recording, merge_segments, recording_file, SAMPLE_RATE};
use hound::{SampleFormat, WavReader, WavSpec, WavWriter};
use std::io::Cursor;

fn segment(samples: &[i16]) -> Result<Vec<u8>, String> {
    Ok(recording_file(&samples.to_vec()))
}

fn stereo_floats() -> Vec<u8> {
    let spec = WavSpec {
        channels: 2,
        sample_rate: 8000,
        bits_per_sample: 32,
        sample_format: SampleFormat::Float,
    };
    let mut file = Cursor::new(Vec::new());
    let mut writer = WavWriter::new(&mut file, spec).unwrap();
    writer.write_sample(0.5f32).unwrap();
    writer.write_sample(-0.5f32).unwrap();
    writer.finalize().unwrap();
    file.into_inner()
}

#[test]
fn a_recording_has_the_header_and_the_samples() {
    let file = recording_file(&vec![1, -2, 0x1234]);
    let mut expected: Vec<u8> = Vec::new();
    expected.extend(b"RIFF");
    expected.extend(42u32.to_le_bytes());
    expected.extend(b"WAVEfmt ");
    expected.extend(16u32.to_le_bytes());
    expected.extend([1, 0, 1, 0]);
    expected.extend(16_000u32.to_le_bytes());
    expected.extend(32_000u32.to_le_bytes());
    expected.extend([2, 0, 16, 0]);
    expected.extend(b"data");
    expected.extend(6u32.to_le_bytes());
    expected.extend([1, 0, 0xfe, 0xff, 0x34, 0x12]);
    assert_eq!(file, expected);
}

#[test]
fn a_recording_reads_back() {
    let samples: Vec<i16> = vec![0, 1, -1, i16::MAX, i16::MIN, 1234];
    let file = recording_file(&samples);
    let mut reader = WavReader::new(file.as_slice()).unwrap();
    assert_eq!(reader.spec().channels, 1);
    assert_eq!(reader.spec().sample_rate, SAMPLE_RATE);
    assert_eq!(reader.spec().bits_per_sample, 16);
    let read: Vec<i16> = reader.samples::<i16>().map(|s| s.unwrap()).collect();
    assert_eq!(read, samples);
}

#[test]
fn segments_are_joined_in_order() {
    let reads = vec![segment(&[1, 2]), segment(&[]), segment(&[3]), segment(&[-4, 5])];
    let (samples, result) = merge_segments(&reads);
    assert_eq!(samples, [1, 2, 3, -4, 5]);
    assert_eq!(result, Ok(()));
}

#[test]
fn no_segments_make_an_empty_recording() {
    let (file, result) = finish_recording(&vec![]).unwrap();
    assert_eq!(file, recording_file(&vec![]));
    assert_eq!(file.len(), 44);
    assert_eq!(result, Ok(()));
}

#[test]
fn a_finished_recording_holds_every_segment() {
    let (file, result) = finish_recording(&vec![segment(&[7, 8]), segment(&[9])]).unwrap();
    assert_eq!(result, Ok(()));
    assert_eq!(file, recording_file(&vec![7, 8, 9]));
}

#[test]
fn a_missing_segment_ends_the_recording() {
    let reads = vec![segment(&[1]), Err("not found".to_string()), segment(&[2])];
    let (file, result) = finish_recording(&reads).unwrap();
    assert_eq!(
        result,
        Err("cannot read recording segment: not found".to_string())
    );
    assert_eq!(file, recording_file(&vec![1]));
}

#[test]
fn a_segment_that_is_no_wav_ends_the_recording() {
    let (samples, result) = merge_segments(&vec![segment(&[1]), Ok(b"RIFX....WAVE".to_vec())]);
    assert_eq!(samples, [1]);
    assert_eq!(
        result,
        Err("cannot read recording segment: Ill-formed WAVE file: no RIFF tag found".to_string())
    );
    let (_, result) = merge_segments(&vec![Ok(Vec::new())]);
    assert_eq!(
        result,
        Err("cannot read recording segment: Failed to read enough bytes.".to_string())
    );
}

#[test]
fn a_cut_segment_keeps_what_can_be_read() {
    let mut bytes = recording_file(&vec![10, 20, 30]);
    bytes.truncate(bytes.len() - 1);
    let (samples, result) = merge_segments(&vec![Ok(bytes), segment(&[40])]);
    assert_eq!(samples, [10, 20]);
    assert_eq!(
        result,
        Err("cannot read recording sample: Failed to read enough bytes.".to_string())
    );
}

#[test]
fn a_header_that_promises_too_much_ends_at_the_data() {
    let mut bytes = recording_file(&vec![10, 20]);
    bytes[40..44].copy_from_slice(&0x7fff_fffeu32.to_le_bytes());
    let (samples, result) = merge_segments(&vec![Ok(bytes)]);
    assert_eq!(samples, [10, 20]);
    assert!(result.is_err());
}

#[test]
fn a_segment_of_another_kind_cannot_be_read() {
    let (samples, result) = merge_segments(&vec![Ok(stereo_floats())]);
    assert!(samples.is_empty());
    assert_eq!(
        result,
        Err(
            "cannot read recording sample: The sample format differs from the destination format."
                .to_string()
        )
    );
}
