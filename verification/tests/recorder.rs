use friday::recorder::{
    ensure_transition, whole_seconds, PlayOutcome, RecordAction, StartOutcome, MAX_ELAPSED,
};
use friday::{FridayRecorder, RecordingState};

const SECOND: u64 = 1_000_000_000;

fn recording(now: u64) -> FridayRecorder {
    let mut recorder = FridayRecorder::new();
    recorder
        .start(StartOutcome::Capturing("20260726_001.wav".to_string()), now)
        .unwrap();
    recorder
}

fn finished() -> FridayRecorder {
    let mut recorder = recording(0);
    recorder.finish(Ok(()), SECOND).unwrap();
    recorder
}

#[test]
fn accepts_complete_recording_lifecycle() {
    assert!(ensure_transition(RecordingState::Idle, RecordAction::Start).is_ok());
    assert!(ensure_transition(RecordingState::Recording, RecordAction::Pause).is_ok());
    assert!(ensure_transition(RecordingState::Paused, RecordAction::Resume).is_ok());
    assert!(ensure_transition(RecordingState::Paused, RecordAction::Finish).is_ok());
    assert!(ensure_transition(RecordingState::Finished, RecordAction::Play).is_ok());
}

#[test]
fn rejects_invalid_recording_controls() {
    assert!(ensure_transition(RecordingState::Idle, RecordAction::Pause).is_err());
    assert!(ensure_transition(RecordingState::Recording, RecordAction::Play).is_err());
    assert!(ensure_transition(RecordingState::Finished, RecordAction::Resume).is_err());
}

#[test]
fn transitions_are_exactly_the_admitted_ones() {
    let states = [
        RecordingState::Idle,
        RecordingState::Recording,
        RecordingState::Paused,
        RecordingState::Finished,
        RecordingState::Failed,
    ];
    let actions = [
        RecordAction::Start,
        RecordAction::Pause,
        RecordAction::Resume,
        RecordAction::Finish,
        RecordAction::Play,
    ];
    let admitted = [
        [true, false, false, false, false],
        [false, true, false, true, false],
        [false, false, true, true, false],
        [true, false, false, false, true],
        [true, false, false, false, false],
    ];
    for (i, state) in states.iter().enumerate() {
        for (j, action) in actions.iter().enumerate() {
            let answer = ensure_transition(*state, *action);
            if admitted[i][j] {
                assert_eq!(answer, Ok(()));
            } else {
                let message = format!(
                    "cannot {} while recorder is {}",
                    action.label(),
                    state.label()
                );
                assert_eq!(answer, Err(message));
            }
        }
    }
}

#[test]
fn refusals_name_the_action_and_the_state() {
    assert_eq!(
        ensure_transition(RecordingState::Recording, RecordAction::Start),
        Err("cannot start while recorder is recording".to_string())
    );
    assert_eq!(
        ensure_transition(RecordingState::Failed, RecordAction::Finish),
        Err("cannot finish while recorder is failed".to_string())
    );
    assert_eq!(
        ensure_transition(RecordingState::Paused, RecordAction::Play),
        Err("cannot play while recorder is paused".to_string())
    );
}

#[test]
fn a_new_recorder_is_idle() {
    let recorder = FridayRecorder::default();
    assert_eq!(recorder.state(), RecordingState::default());
    assert_eq!(recorder.state(), RecordingState::Idle);
    assert_eq!(recorder.path(), None);
    assert_eq!(recorder.error(), None);
    assert_eq!(recorder.elapsed(77), 0);
    assert!(!recorder.is_active());
    assert!(!recorder.is_playing());
    assert_eq!(recorder.close(), (false, false));
}

#[test]
fn pauses_are_left_out_of_the_elapsed_time() {
    let mut recorder = recording(10 * SECOND);
    assert_eq!(recorder.elapsed(13 * SECOND), 3_000_000_000);
    assert_eq!(recorder.pause(Ok(()), 13 * SECOND), Ok(()));
    assert_eq!(recorder.state(), RecordingState::Paused);
    assert_eq!(recorder.elapsed(99 * SECOND), 3_000_000_000);
    assert_eq!(recorder.resume(Ok(()), 50 * SECOND), Ok(()));
    assert_eq!(recorder.state(), RecordingState::Recording);
    assert!(recorder.is_active());
    assert_eq!(recorder.finish(Ok(()), 52 * SECOND), Ok(()));
    assert_eq!(recorder.state(), RecordingState::Finished);
    assert!(!recorder.is_active());
    assert_eq!(recorder.elapsed(500 * SECOND), 5_000_000_000);
    assert_eq!(recorder.path(), Some("20260726_001.wav"));
    assert_eq!(whole_seconds(recorder.elapsed(500 * SECOND)), 5);
}

#[test]
fn a_clock_that_runs_backwards_adds_nothing() {
    let recorder = recording(10 * SECOND);
    assert_eq!(recorder.elapsed(3 * SECOND), 0);
}

#[test]
fn seconds_are_cut_off() {
    assert_eq!(whole_seconds(1_999_999_999), 1);
    assert_eq!(whole_seconds(MAX_ELAPSED), u64::MAX);
    assert_eq!(
        MAX_ELAPSED,
        std::time::Duration::MAX.as_nanos(),
    );
}

#[test]
fn a_new_recording_begins_at_zero() {
    let mut recorder = finished();
    assert_eq!(
        recorder.start(StartOutcome::Capturing("b.wav".to_string()), 7 * SECOND),
        Ok(())
    );
    assert_eq!(recorder.elapsed(7 * SECOND), 0);
    assert_eq!(recorder.path(), Some("b.wav"));
}

#[test]
fn a_start_without_a_path_fails() {
    let mut recorder = FridayRecorder::new();
    let answer = recorder.start(StartOutcome::NoPath("no media".to_string()), 1);
    assert_eq!(answer, Err("no media".to_string()));
    assert_eq!(recorder.state(), RecordingState::Failed);
    assert_eq!(recorder.error(), Some("no media"));
    assert_eq!(recorder.path(), None);
    assert!(recorder.permit(RecordAction::Start).is_ok());
}

#[test]
fn a_start_without_a_microphone_fails_and_keeps_the_last_recording() {
    let mut recorder = finished();
    let outcome = StartOutcome::NoCapture {
        path: "20260726_002.wav".to_string(),
        error: "no input audio device found".to_string(),
    };
    assert_eq!(outcome.leftover(), Some("20260726_002.wav"));
    assert_eq!(
        recorder.start(outcome, SECOND),
        Err("no input audio device found".to_string())
    );
    assert_eq!(recorder.state(), RecordingState::Failed);
    assert_eq!(recorder.path(), Some("20260726_001.wav"));
    assert!(!recorder.is_active());
}

#[test]
fn only_an_unused_file_is_left_over() {
    assert_eq!(StartOutcome::NoPath("x".to_string()).leftover(), None);
    assert_eq!(StartOutcome::Capturing("a.wav".to_string()).leftover(), None);
}

#[test]
fn a_start_stops_the_replay() {
    let mut recorder = finished();
    recorder.play(PlayOutcome::Playing).unwrap();
    assert!(recorder.is_playing());
    recorder
        .start(StartOutcome::Capturing("b.wav".to_string()), 1)
        .unwrap();
    assert!(!recorder.is_playing());
    assert!(recorder.is_active());
}

#[test]
fn refused_requests_leave_the_recorder_alone() {
    let mut recorder = recording(5);
    assert!(recorder
        .start(StartOutcome::Capturing("b.wav".to_string()), 9)
        .is_err());
    assert!(recorder.resume(Ok(()), 9).is_err());
    assert!(recorder.play(PlayOutcome::Playing).is_err());
    assert_eq!(recorder.state(), RecordingState::Recording);
    assert_eq!(recorder.path(), Some("20260726_001.wav"));
    assert_eq!(recorder.error(), None);
    assert_eq!(recorder.elapsed(7), 2);
    assert!(!recorder.is_playing());
}

#[test]
fn a_pause_that_fails_goes_on_recording() {
    let mut recorder = recording(0);
    assert_eq!(
        recorder.pause(Err("audio recorder did not stop cleanly".to_string()), 4),
        Err("audio recorder did not stop cleanly".to_string())
    );
    assert_eq!(recorder.state(), RecordingState::Recording);
    assert_eq!(recorder.error(), Some("audio recorder did not stop cleanly"));
    assert_eq!(recorder.elapsed(9), 9);
}

#[test]
fn a_resume_that_fails_stays_paused() {
    let mut recorder = recording(0);
    recorder.pause(Ok(()), 4).unwrap();
    assert_eq!(
        recorder.resume(Err("cannot start arecord: gone".to_string()), 8),
        Err("cannot start arecord: gone".to_string())
    );
    assert_eq!(recorder.state(), RecordingState::Paused);
    assert_eq!(recorder.error(), Some("cannot start arecord: gone"));
    assert_eq!(recorder.elapsed(100), 4);
}

#[test]
fn a_finish_that_fails_ends_the_recording() {
    let mut recorder = recording(0);
    assert_eq!(
        recorder.finish(Err("disk full".to_string()), 6),
        Err("disk full".to_string())
    );
    assert_eq!(recorder.state(), RecordingState::Failed);
    assert_eq!(recorder.error(), Some("disk full"));
    assert_eq!(recorder.elapsed(100), 6);
    assert_eq!(recorder.close(), (false, false));
}

#[test]
fn a_finish_clears_the_error() {
    let mut recorder = recording(0);
    let _ = recorder.pause(Err("stuck".to_string()), 4);
    recorder.finish(Ok(()), 6).unwrap();
    assert_eq!(recorder.error(), None);
}

#[test]
fn a_replay_needs_a_player() {
    let mut recorder = finished();
    assert_eq!(
        recorder.play(PlayOutcome::NoPlayer),
        Err("mpv not found; install it or set FRIDAY_MPV to its executable".to_string())
    );
    assert!(!recorder.is_playing());
    assert_eq!(
        recorder.play(PlayOutcome::SpawnFailed("denied".to_string())),
        Err("cannot start mpv: denied".to_string())
    );
    assert_eq!(recorder.state(), RecordingState::Finished);
    assert_eq!(recorder.error(), None);
}

#[test]
fn a_missing_player_leaves_the_replay_running() {
    let mut recorder = finished();
    recorder.play(PlayOutcome::Playing).unwrap();
    assert!(recorder.play(PlayOutcome::NoPlayer).is_err());
    assert!(recorder.is_playing());
    assert!(recorder
        .play(PlayOutcome::SpawnFailed("denied".to_string()))
        .is_err());
    assert!(!recorder.is_playing());
}

#[test]
fn a_replay_is_stopped_once() {
    let mut recorder = finished();
    recorder.play(PlayOutcome::Playing).unwrap();
    assert!(recorder.stop_playback());
    assert!(!recorder.stop_playback());
    assert!(!recorder.is_playing());
}

#[test]
fn a_player_that_has_ended_is_let_go() {
    let mut recorder = finished();
    recorder.play(PlayOutcome::Playing).unwrap();
    recorder.poll(false, None, 3);
    assert!(recorder.is_playing());
    recorder.poll(true, None, 3);
    assert!(!recorder.is_playing());
    assert_eq!(recorder.state(), RecordingState::Finished);
}

#[test]
fn a_capture_that_breaks_down_fails_the_recording() {
    let mut recorder = recording(0);
    recorder.poll(
        false,
        Some("audio recorder exited unexpectedly: exit status: 1".to_string()),
        12,
    );
    assert_eq!(recorder.state(), RecordingState::Failed);
    assert_eq!(
        recorder.error(),
        Some("audio recorder exited unexpectedly: exit status: 1")
    );
    assert_eq!(recorder.elapsed(100), 12);
    assert_eq!(recorder.path(), Some("20260726_001.wav"));
    assert_eq!(recorder.close(), (false, false));
}

#[test]
fn a_capture_error_without_a_capture_does_not_count() {
    let mut recorder = finished();
    recorder.poll(false, Some("late".to_string()), 12);
    assert_eq!(recorder.state(), RecordingState::Finished);
    assert_eq!(recorder.error(), None);
}

#[test]
fn closing_tells_what_is_left_to_end() {
    let mut recorder = finished();
    recorder.play(PlayOutcome::Playing).unwrap();
    assert_eq!(recorder.close(), (true, false));
    assert_eq!(recording(0).close(), (false, true));
}

#[test]
fn permission_follows_the_state() {
    let recorder = recording(0);
    assert!(recorder.permit(RecordAction::Pause).is_ok());
    assert!(recorder.permit(RecordAction::Finish).is_ok());
    assert_eq!(
        recorder.permit(RecordAction::Resume),
        Err("cannot resume while recorder is recording".to_string())
    );
    assert!(finished().permit(RecordAction::Play).is_ok());
}

#[test]
fn any_number_of_pauses_leaves_only_the_stretches() {
    let mut recorder = recording(0);
    assert!(recorder.time_fits(u64::MAX));
    for round in 0..5u64 {
        let begun = round * 10 * SECOND;
        if round > 0 {
            recorder.resume(Ok(()), begun).unwrap();
        }
        recorder.pause(Ok(()), begun + 3 * SECOND).unwrap();
    }
    assert_eq!(recorder.state(), RecordingState::Paused);
    assert_eq!(recorder.elapsed(99 * SECOND), 15 * SECOND as u128);
    recorder.finish(Ok(()), 100 * SECOND).unwrap();
    assert_eq!(recorder.elapsed(200 * SECOND), 15 * SECOND as u128);
    assert_eq!(recorder.path(), Some("20260726_001.wav"));
}

#[test]
fn a_replay_is_ended_before_the_microphone_opens() {
    let mut recorder = finished();
    assert_eq!(recorder.begin_start(), Ok(false));
    recorder.play(PlayOutcome::Playing).unwrap();
    assert!(recorder.is_playing());
    assert_eq!(recorder.begin_start(), Ok(true));
    assert!(!recorder.is_playing());
    assert_eq!(recorder.state(), RecordingState::Finished);
    assert_eq!(recorder.begin_start(), Ok(false));
    recorder
        .start(StartOutcome::Capturing("b.wav".to_string()), 5)
        .unwrap();
    assert_eq!(
        recorder.begin_start(),
        Err("cannot start while recorder is recording".to_string())
    );
    assert_eq!(recorder.state(), RecordingState::Recording);
}

#[test]
fn a_replay_is_ended_before_the_next_one() {
    let mut recorder = finished();
    assert_eq!(recorder.begin_play(true), Ok(false));
    recorder.play(PlayOutcome::Playing).unwrap();
    assert_eq!(
        recorder.begin_play(false),
        Err("mpv not found; install it or set FRIDAY_MPV to its executable".to_string())
    );
    assert!(recorder.is_playing());
    assert_eq!(recorder.begin_play(true), Ok(true));
    assert!(!recorder.is_playing());
    assert_eq!(recorder.play(PlayOutcome::Playing), Ok(()));
    assert_eq!(
        FridayRecorder::new().begin_play(true),
        Err("cannot play while recorder is idle".to_string())
    );
}

#[test]
fn a_last_stretch_without_a_pause_counts_too() {
    let mut recorder = recording(0);
    recorder.pause(Ok(()), 3 * SECOND).unwrap();
    recorder.resume(Ok(()), 10 * SECOND).unwrap();
    recorder.pause(Ok(()), 14 * SECOND).unwrap();
    recorder.resume(Ok(()), 20 * SECOND).unwrap();
    recorder.finish(Ok(()), 25 * SECOND).unwrap();
    assert_eq!(recorder.state(), RecordingState::Finished);
    assert_eq!(recorder.path(), Some("20260726_001.wav"));
    assert_eq!(recorder.elapsed(90 * SECOND), 12 * SECOND as u128);
}
