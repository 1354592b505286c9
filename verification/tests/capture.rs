use friday::capture::{
    arguments, process_group, signal_answer, stop_deadline, Capture, ChildPoll, StopStep,
    STOP_GRACE, STOP_POLL_MILLIS,
};

fn running() -> Capture {
    let mut capture = Capture::start("20260726_004.wav", None);
    capture.spawn_segment(Ok(())).unwrap();
    capture
}

#[test]
fn the_environment_may_name_the_recorder() {
    assert_eq!(Capture::start("a.wav", None).program(), "arecord");
    let capture = Capture::start("a.wav", Some("/opt/rec".to_string()));
    assert_eq!(capture.program(), "/opt/rec");
}

#[test]
fn the_recorder_is_asked_for_mono_at_sixteen_kilohertz() {
    assert_eq!(
        arguments(),
        ["-q", "-t", "wav", "-f", "S16_LE", "-r", "16000", "-c", "1"]
    );
}

#[test]
fn each_stretch_gets_its_own_segment() {
    let mut capture = Capture::start("20260726_004.wav", None);
    assert!(!capture.is_running());
    assert_eq!(capture.next_segment(), "20260726_004.part-0.wav");
    assert_eq!(capture.spawn_segment(Ok(())), Ok(()));
    assert!(capture.is_running());
    assert_eq!(capture.next_segment(), "20260726_004.part-1.wav");
    assert_eq!(capture.spawn_segment(Ok(())), Ok(()));
    assert_eq!(
        capture.segments(),
        &["20260726_004.part-0.wav", "20260726_004.part-1.wav"]
    );
}

#[test]
fn a_recorder_that_does_not_start_adds_no_segment() {
    let mut capture = Capture::start("a.wav", Some("rec".to_string()));
    assert_eq!(
        capture.spawn_segment(Err("not found".to_string())),
        Err("cannot start rec: not found".to_string())
    );
    assert!(capture.segments().is_empty());
    assert!(!capture.is_running());
}

#[test]
fn there_is_nothing_to_stop_without_a_process() {
    let mut capture = Capture::start("a.wav", None);
    assert_eq!(capture.stop_query(ChildPoll::Running), Ok(false));
    assert_eq!(
        capture.stop_query(ChildPoll::Failed("x".to_string())),
        Ok(false)
    );
}

#[test]
fn a_running_process_is_told_to_stop() {
    let mut capture = running();
    assert_eq!(capture.stop_query(ChildPoll::Running), Ok(true));
    assert!(capture.is_running());
}

#[test]
fn a_process_that_stopped_by_itself_is_an_error() {
    let mut capture = running();
    assert_eq!(
        capture.stop_query(ChildPoll::Exited("exit status: 1".to_string())),
        Err("audio recorder stopped unexpectedly".to_string())
    );
    assert!(!capture.is_running());
}

#[test]
fn a_process_that_cannot_be_queried_is_kept() {
    let mut capture = running();
    assert_eq!(
        capture.stop_query(ChildPoll::Failed("denied".to_string())),
        Err("cannot query audio recorder: denied".to_string())
    );
    assert!(capture.is_running());
}

#[test]
fn stopping_waits_until_the_deadline() {
    let mut capture = running();
    let deadline = stop_deadline(1_000);
    assert_eq!(deadline, 1_000 + STOP_GRACE);
    assert_eq!(STOP_GRACE, 500_000_000);
    let step = capture.stop_wait(ChildPoll::Running, deadline - 1, deadline);
    assert!(matches!(step, StopStep::Sleep));
    assert!(capture.is_running());
    match capture.stop_wait(ChildPoll::Running, deadline, deadline) {
        StopStep::Kill(error) => assert_eq!(error, "audio recorder did not stop cleanly"),
        _ => panic!("the process is past its deadline"),
    }
    assert!(!capture.is_running());
}

#[test]
fn stopping_ends_with_the_process() {
    let mut capture = running();
    let poll = ChildPoll::Exited("signal: 2".to_string());
    assert!(matches!(capture.stop_wait(poll, 9, 5), StopStep::Stopped));
    assert!(!capture.is_running());
}

#[test]
fn stopping_a_process_that_cannot_be_queried_kills_it() {
    let mut capture = running();
    match capture.stop_wait(ChildPoll::Failed("denied".to_string()), 1, 5) {
        StopStep::Kill(error) => assert_eq!(error, "cannot finish recording: denied"),
        _ => panic!("the process cannot be waited for"),
    }
    assert!(!capture.is_running());
}

#[test]
fn signals_go_to_the_process_group() {
    assert_eq!(process_group(4711), -4711);
    assert_eq!(process_group(0x7fff_ffff), -0x7fff_ffff);
    assert_eq!(process_group(0), 0);
    assert_eq!(process_group(u32::MAX), 1);
    assert_eq!(process_group(0x8000_0001), 0x7fff_ffff);
}

#[test]
fn a_failed_signal_is_told() {
    assert_eq!(signal_answer(0, "unused"), Ok(()));
    assert_eq!(
        signal_answer(-1, "no such process"),
        Err("cannot stop recording: no such process".to_string())
    );
}

#[test]
fn a_dead_recorder_is_reported_once() {
    let mut capture = running();
    assert_eq!(capture.poll_error(ChildPoll::Running), None);
    assert_eq!(
        capture.poll_error(ChildPoll::Exited("exit status: 1".to_string())),
        Some("audio recorder exited unexpectedly: exit status: 1".to_string())
    );
    assert_eq!(
        capture.poll_error(ChildPoll::Exited("exit status: 1".to_string())),
        None
    );
}

#[test]
fn a_recorder_that_cannot_be_queried_is_reported() {
    let mut capture = running();
    assert_eq!(
        capture.poll_error(ChildPoll::Failed("denied".to_string())),
        Some("cannot query audio recorder: denied".to_string())
    );
    assert!(capture.is_running());
}

#[test]
fn the_level_comes_from_the_last_segment() {
    let mut capture = Capture::start("a.wav", None);
    assert_eq!(capture.level_source(), None);
    capture.spawn_segment(Ok(())).unwrap();
    capture.spawn_segment(Ok(())).unwrap();
    assert_eq!(capture.level_source(), Some("a.part-1.wav"));
    capture.stop_wait(ChildPoll::Exited("0".to_string()), 0, 1);
    assert_eq!(capture.level_source(), None);
}

#[test]
fn releasing_a_capture_leaves_its_segments_to_remove() {
    let (kill, segments) = running().release();
    assert!(kill);
    assert_eq!(segments, ["20260726_004.part-0.wav"]);
    let (kill, segments) = Capture::start("a.wav", None).release();
    assert!(!kill);
    assert!(segments.is_empty());
}

#[test]
fn stopping_is_decided_within_fifty_one_looks() {
    let mut capture = running();
    let deadline = stop_deadline(7);
    let mut looks = 0;
    let mut now = 7;
    while let StopStep::Sleep = capture.stop_wait(ChildPoll::Running, now, deadline) {
        looks += 1;
        now += STOP_POLL_MILLIS * 1_000_000;
    }
    assert_eq!(looks, 50);
    assert!(!capture.is_running());
}
