use friday::meter::{recent_bytes, recent_total, Meter};
use friday::stream::{
    begin_block, finish_answer, sample_written, set_error, StreamFault, WriterClose, WriterSlot,
};

#[test]
fn the_level_is_taken_from_the_end_of_the_file() {
    assert_eq!(recent_bytes(0), 0);
    assert_eq!(recent_bytes(44), 0);
    assert_eq!(recent_bytes(45), 0);
    assert_eq!(recent_bytes(46), 2);
    assert_eq!(recent_bytes(1045), 1000);
    assert_eq!(recent_bytes(4140), 4096);
    assert_eq!(recent_bytes(4139), 4094);
    assert_eq!(recent_bytes(u64::MAX), 4096);
}

#[test]
fn bytes_are_samples_with_the_low_byte_first() {
    assert_eq!(recent_total(&vec![]), (0, 0));
    assert_eq!(recent_total(&vec![3, 0]), (9, 1));
    assert_eq!(recent_total(&vec![0, 1, 0xff, 0xff]), (65536 + 1, 2));
    assert_eq!(recent_total(&vec![0, 0x80]), (1 << 30, 1));
    assert_eq!(recent_total(&vec![0xff, 0x7f]), (32767 * 32767, 1));
    assert_eq!(recent_total(&vec![2, 0, 9]), (4, 1));
}

#[test]
fn bytes_agree_with_the_language() {
    for low in 0..=255u8 {
        for high in 0..=255u8 {
            let sample = i16::from_le_bytes([low, high]) as i64;
            assert_eq!(recent_total(&vec![low, high]), ((sample * sample) as u128, 1));
        }
    }
}

#[test]
fn silence_sums_to_zero() {
    let mut meter = Meter::new();
    for _ in 0..1024 {
        meter.add(0);
    }
    assert_eq!(meter.total(), (0, 1024));
    let mut meter = Meter::new();
    for _ in 0..1024 {
        meter.add(-4096);
    }
    assert_eq!(meter.total(), (4096 * 4096 * 1024, 1024));
}

#[test]
fn blocks_are_written_only_while_the_capture_runs() {
    let mut error = None;
    assert!(begin_block(true, WriterSlot::Open, &mut error));
    assert!(!begin_block(false, WriterSlot::Open, &mut error));
    assert!(!begin_block(true, WriterSlot::Closed, &mut error));
    assert!(!begin_block(false, WriterSlot::Poisoned, &mut error));
    assert_eq!(error, None);
    assert!(!begin_block(true, WriterSlot::Poisoned, &mut error));
    assert_eq!(error, Some("recording writer lock poisoned".to_string()));
}

#[test]
fn a_failed_write_ends_the_block_and_counts() {
    let mut meter = Meter::new();
    let mut writing = true;
    let mut error = None;
    assert!(sample_written(&mut meter, 3, Ok(()), &mut writing, &mut error));
    assert!(writing);
    assert_eq!(error, None);
    let full = Err("disk full".to_string());
    assert!(!sample_written(&mut meter, 4, full, &mut writing, &mut error));
    assert!(!writing);
    assert_eq!(error, Some("cannot write recording: disk full".to_string()));
    assert_eq!(meter.total(), (25, 2));
}

#[test]
fn the_last_error_is_kept() {
    let mut slot = Some("old".to_string());
    set_error(&mut slot, "new".to_string());
    assert_eq!(slot, Some("new".to_string()));
}

#[test]
fn the_file_comes_first_at_the_end_of_a_stream() {
    let broken = || Some("microphone failed: unplugged".to_string());
    assert_eq!(finish_answer(None, WriterClose::Finalized), Ok(()));
    assert_eq!(finish_answer(None, WriterClose::Absent), Ok(()));
    assert_eq!(
        finish_answer(broken(), WriterClose::Finalized),
        Err("microphone failed: unplugged".to_string())
    );
    assert_eq!(
        finish_answer(broken(), WriterClose::Absent),
        Err("microphone failed: unplugged".to_string())
    );
    assert_eq!(
        finish_answer(broken(), WriterClose::Poisoned),
        Err("recording writer lock poisoned".to_string())
    );
    assert_eq!(
        finish_answer(broken(), WriterClose::Failed("disk full".to_string())),
        Err("cannot finish recording: disk full".to_string())
    );
}

#[test]
fn microphone_faults_are_told() {
    let cause = || "why".to_string();
    let told = [
        (StreamFault::Unsupported, "audio recording is supported on Windows and Linux"),
        (StreamFault::NoDevice, "no input audio device found"),
        (StreamFault::Config(cause()), "cannot read microphone config: why"),
        (StreamFault::Create(cause()), "cannot create recording: why"),
        (StreamFault::Write(cause()), "cannot write recording: why"),
        (StreamFault::Format(cause()), "unsupported microphone sample format: why"),
        (StreamFault::Open(cause()), "cannot open microphone: why"),
        (StreamFault::Start(cause()), "cannot start microphone: why"),
        (StreamFault::Stream(cause()), "microphone failed: why"),
    ];
    for (fault, message) in told {
        assert_eq!(fault.message(), message);
    }
}

#[test]
fn a_block_counts_up_to_its_first_failure() {
    let mut meter = Meter::new();
    let mut writing = true;
    let mut error = None;
    let outcomes = [Ok(()), Ok(()), Err("full".to_string()), Ok(())];
    for (sample, outcome) in [1, 2, 3, 4].into_iter().zip(outcomes) {
        if !sample_written(&mut meter, sample, outcome, &mut writing, &mut error) {
            break;
        }
    }
    assert_eq!(meter.total(), (1 + 4 + 9, 3));
    assert!(!writing);
    assert_eq!(error, Some("cannot write recording: full".to_string()));
}
