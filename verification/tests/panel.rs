use friday::globals::{
    click_row, global_rows, row_frame, selected_row, GlobalGroup, Keepalive, Retry,
};
use friday::panel::{
    recorder_buttons, recording_tone, supervisor_button, voice_panel, ReceiverControl,
    RecorderAction, RecorderButton, RecordingDetail, SupervisorAction, Tone, VoiceInputs,
};
use friday::recorder::{ensure_transition, RecordAction};
use friday::text::{decimal_text, padded_text, parse_u32};
use friday::waveform::{bar_levels, bar_tone, repaint_after};
use friday::{FridayState, RecordingState};

fn inputs(recording: RecordingState) -> VoiceInputs {
    VoiceInputs {
        receiver: FridayState::Listening,
        address: "127.0.0.1:17322".to_string(),
        player: None,
        receiver_error: None,
        recording,
        record_file: None,
        is_playing: false,
        elapsed: 0,
        record_error: None,
        hotkey_error: None,
    }
}

#[test]
fn the_receiver_shows_its_state() {
    let shown = [
        (FridayState::Starting, "\u{25cf} starting", Tone::Warning),
        (FridayState::Listening, "\u{25cf} listening", Tone::Success),
        (FridayState::Stopping, "\u{25cf} stopping", Tone::Warning),
        (FridayState::Stopped, "\u{25cf} stopped", Tone::Muted),
        (FridayState::Failed, "\u{25cf} failed", Tone::Error),
    ];
    for (receiver, text, tone) in shown {
        let mut given = inputs(RecordingState::Idle);
        given.receiver = receiver;
        let panel = voice_panel(given);
        assert_eq!(panel.receiver_status.text, text);
        assert_eq!(panel.receiver_status.tone, tone);
        assert_eq!(panel.receiver_control, receiver.control());
        assert_eq!(panel.address.text, "Receiver: http://127.0.0.1:17322/speak");
        assert_eq!(panel.address.tone, Tone::Primary);
    }
}

#[test]
fn the_receiver_is_controlled_by_one_button() {
    assert_eq!(FridayState::Stopped.control(), ReceiverControl::Start);
    assert_eq!(FridayState::Failed.control(), ReceiverControl::Start);
    assert_eq!(FridayState::Listening.control(), ReceiverControl::Stop);
    assert_eq!(FridayState::Starting.control(), ReceiverControl::Starting);
    assert_eq!(FridayState::Stopping.control(), ReceiverControl::Stopping);
    assert_eq!(ReceiverControl::Start.action(), Some(true));
    assert_eq!(ReceiverControl::Stop.action(), Some(false));
    assert_eq!(ReceiverControl::Starting.action(), None);
    assert_eq!(ReceiverControl::Stopping.action(), None);
    assert_eq!(ReceiverControl::Start.label(), "\u{25b6}  Start receiver");
    assert_eq!(ReceiverControl::Stop.label(), "\u{25a0}  Stop receiver");
    assert_eq!(ReceiverControl::Starting.label(), "Starting\u{2026}");
    assert_eq!(ReceiverControl::Stopping.label(), "Stopping\u{2026}");
}

#[test]
fn the_recorder_shows_its_state_and_time() {
    let shown = [
        (RecordingState::Idle, 0, "\u{25cf} idle  00:00", Tone::Muted),
        (RecordingState::Recording, 65, "\u{25cf} recording  01:05", Tone::Error),
        (RecordingState::Paused, 3599, "\u{25cf} paused  59:59", Tone::Warning),
        (RecordingState::Finished, 6000, "\u{25cf} finished  100:00", Tone::Success),
        (RecordingState::Failed, 9, "\u{25cf} failed  00:09", Tone::Error),
    ];
    for (state, elapsed, text, tone) in shown {
        let mut given = inputs(state);
        given.elapsed = elapsed;
        let panel = voice_panel(given);
        assert_eq!(panel.recording_status.text, text);
        assert_eq!(panel.recording_status.tone, tone);
        assert_eq!(recording_tone(state), tone);
        assert_eq!(panel.buttons, recorder_buttons(state, false));
    }
}

#[test]
fn notes_appear_where_there_is_something_to_say() {
    let panel = voice_panel(inputs(RecordingState::Recording));
    assert!(panel.player.is_none());
    assert!(panel.receiver_error.is_none());
    assert!(panel.record_error.is_none());
    assert!(panel.hint.is_none());
    let mut given = inputs(RecordingState::Recording);
    given.player = Some("/usr/bin/mpv".to_string());
    given.receiver_error = Some("port taken".to_string());
    given.record_error = Some("disk full".to_string());
    given.hotkey_error = Some("no hotkey".to_string());
    let panel = voice_panel(given);
    let player = panel.player.unwrap();
    assert_eq!((player.text.as_str(), player.tone), ("player: /usr/bin/mpv", Tone::Muted));
    let error = panel.receiver_error.unwrap();
    assert_eq!((error.text.as_str(), error.tone), ("port taken", Tone::Error));
    let error = panel.record_error.unwrap();
    assert_eq!((error.text.as_str(), error.tone), ("disk full", Tone::Error));
    let hint = panel.hint.unwrap();
    assert_eq!((hint.text.as_str(), hint.tone), ("no hotkey", Tone::Error));
}

#[test]
fn the_hotkey_is_explained_while_nothing_is_recorded() {
    for state in [RecordingState::Idle, RecordingState::Failed] {
        let hint = voice_panel(inputs(state)).hint.unwrap();
        assert_eq!(hint.text, "F8: record / finish; WAV is saved in media/.");
        assert_eq!(hint.tone, Tone::Muted);
    }
    assert!(voice_panel(inputs(RecordingState::Finished)).hint.is_none());
    assert!(voice_panel(inputs(RecordingState::Paused)).hint.is_none());
}

#[test]
fn the_detail_is_the_waveform_or_the_file() {
    let detail = |state, file: Option<&str>| {
        let mut given = inputs(state);
        given.record_file = file.map(|name| name.to_string());
        voice_panel(given).detail
    };
    assert!(matches!(
        detail(RecordingState::Recording, Some("a.wav")),
        RecordingDetail::Waveform { active: true }
    ));
    assert!(matches!(
        detail(RecordingState::Paused, Some("a.wav")),
        RecordingDetail::Waveform { active: false }
    ));
    assert!(matches!(detail(RecordingState::Idle, None), RecordingDetail::Nothing));
    for state in [RecordingState::Finished, RecordingState::Failed] {
        match detail(state, Some("a.wav")) {
            RecordingDetail::Saved(line) => {
                assert_eq!(line.text, "Saved: media/a.wav");
                assert_eq!(line.tone, Tone::Success);
            }
            _ => panic!("the file is shown"),
        }
    }
}

#[test]
fn buttons_follow_the_recorder() {
    assert_eq!(recorder_buttons(RecordingState::Idle, false), [RecorderButton::Record]);
    assert_eq!(recorder_buttons(RecordingState::Failed, false), [RecorderButton::Record]);
    assert_eq!(
        recorder_buttons(RecordingState::Recording, false),
        [RecorderButton::Finish, RecorderButton::Pause]
    );
    assert_eq!(
        recorder_buttons(RecordingState::Paused, false),
        [RecorderButton::Finish, RecorderButton::Continue]
    );
    assert_eq!(
        recorder_buttons(RecordingState::Finished, false),
        [RecorderButton::RecordNew, RecorderButton::Playback]
    );
    assert_eq!(
        recorder_buttons(RecordingState::Finished, true),
        [RecorderButton::RecordNew, RecorderButton::StopPlayback]
    );
}

#[test]
fn buttons_say_what_they_do() {
    let told = [
        (RecorderButton::Record, "\u{25cf}  Record", RecorderAction::Start),
        (RecorderButton::RecordNew, "\u{25cf}  Record new", RecorderAction::Start),
        (RecorderButton::Finish, "\u{25a0}  Finish", RecorderAction::Finish),
        (RecorderButton::Pause, "\u{2161}  Pause", RecorderAction::Pause),
        (RecorderButton::Continue, "\u{25b6}  Continue", RecorderAction::Resume),
        (RecorderButton::Playback, "\u{25b6}  Playback", RecorderAction::Play),
        (RecorderButton::StopPlayback, "\u{25a0}  Stop playback", RecorderAction::StopPlayback),
    ];
    for (button, label, action) in told {
        assert_eq!(button.label(), label);
        assert_eq!(button.action(), action);
    }
}

#[test]
fn offered_buttons_are_never_refused() {
    for state in [
        RecordingState::Idle,
        RecordingState::Recording,
        RecordingState::Paused,
        RecordingState::Finished,
        RecordingState::Failed,
    ] {
        for playing in [false, true] {
            for button in recorder_buttons(state, playing) {
                let action = match button.action() {
                    RecorderAction::Start => RecordAction::Start,
                    RecorderAction::Pause => RecordAction::Pause,
                    RecorderAction::Resume => RecordAction::Resume,
                    RecorderAction::Finish => RecordAction::Finish,
                    RecorderAction::Play => RecordAction::Play,
                    RecorderAction::StopPlayback => continue,
                };
                assert_eq!(ensure_transition(state, action), Ok(()));
            }
        }
    }
}

#[test]
fn all_tunnels_start_and_stop_together() {
    assert_eq!(
        supervisor_button(true),
        ("\u{25a0}  Stop All", SupervisorAction::Stop)
    );
    assert_eq!(
        supervisor_button(false),
        ("\u{25b6}  Start All", SupervisorAction::Start)
    );
}

#[test]
fn the_newest_level_is_at_the_right() {
    assert_eq!(bar_levels(4, 2), [None, None, Some(0), Some(1)]);
    assert_eq!(bar_levels(3, 3), [Some(0), Some(1), Some(2)]);
    assert_eq!(bar_levels(2, 5), [Some(0), Some(1)]);
    assert_eq!(bar_levels(2, 0), [None, None]);
    assert_eq!(bar_levels(0, 3), []);
}

#[test]
fn a_paused_waveform_stands_still() {
    assert_eq!(bar_tone(true), Tone::Primary);
    assert_eq!(bar_tone(false), Tone::Warning);
    assert_eq!(repaint_after(true), Some(50));
    assert_eq!(repaint_after(false), None);
}

fn settings() -> (Keepalive, Retry) {
    (
        Keepalive { interval: 30, count_max: 3, connect_timeout: 10 },
        Retry { initial_seconds: 1, maximum_seconds: u64::MAX, stable_seconds: 0 },
    )
}

#[test]
fn settings_show_their_unit_and_edit_the_bare_number() {
    let (keepalive, retry) = settings();
    let (first, second) = global_rows(keepalive, retry);
    let expected = [
        (0, GlobalGroup::KeepaliveInterval, "30 s", "30"),
        (1, GlobalGroup::KeepaliveCount, "3", "3"),
        (2, GlobalGroup::KeepaliveTimeout, "10 s", "10"),
        (3, GlobalGroup::RetryInitial, "1 s", "1"),
        (4, GlobalGroup::RetryMaximum, "18446744073709551615 s", "18446744073709551615"),
        (5, GlobalGroup::RetryStable, "0 s", "0"),
    ];
    for (row, (index, group, display, edit)) in first.iter().chain(second.iter()).zip(expected) {
        assert_eq!(row.index, index);
        assert_eq!(row.group, group);
        assert_eq!(row.display, display);
        assert_eq!(row.edit, edit);
    }
    assert_eq!(first.len() + second.len(), 6);
}

#[test]
fn edited_settings_parse_back() {
    let (keepalive, retry) = settings();
    let (_, second) = global_rows(keepalive, retry);
    assert_eq!(second[1].edit.parse::<u64>(), Ok(u64::MAX));
    assert!(second[1].display.parse::<u64>().is_err());
}

#[test]
fn the_selection_stays_on_a_row() {
    assert_eq!(selected_row(0), 0);
    assert_eq!(selected_row(5), 5);
    assert_eq!(selected_row(6), 5);
    assert_eq!(selected_row(usize::MAX), 5);
}

#[test]
fn the_selected_row_stands_out() {
    let selected = row_frame(2, 2);
    assert_eq!(selected.fill, (34, 56, 70));
    assert_eq!(selected.stroke_halves, 2);
    assert_eq!(selected.stroke, Tone::Primary);
    let other = row_frame(2, 3);
    assert_eq!(other.fill, (24, 28, 34));
    assert_eq!(other.stroke_halves, 1);
    assert_eq!(other.stroke, Tone::Dim);
}

#[test]
fn clicks_select_and_double_clicks_edit() {
    let (keepalive, retry) = settings();
    let (first, _) = global_rows(keepalive, retry);
    let mut selected = 5;
    assert!(click_row(&first[1], &mut selected, false, false).is_none());
    assert_eq!(selected, 5);
    assert!(click_row(&first[1], &mut selected, true, false).is_none());
    assert_eq!(selected, 1);
    let edit = click_row(&first[0], &mut selected, false, true).unwrap();
    assert_eq!(selected, 0);
    assert_eq!(edit.group, GlobalGroup::KeepaliveInterval);
    assert_eq!(edit.value, "30");
}

#[test]
fn numbers_are_written_as_the_language_writes_them() {
    for n in [0, 7, 9, 10, 99, 100, 1234567890, u64::MAX] {
        assert_eq!(decimal_text(n), n.to_string());
        assert_eq!(padded_text(n, 3), format!("{n:03}"));
        assert_eq!(padded_text(n, 0), n.to_string());
    }
}

#[test]
fn numbers_are_read_as_the_language_reads_them() {
    let texts = [
        "", "+", "-", "0", "+0", "-0", "7", "+7", "++7", "007", "4294967295", "4294967296",
        "+4294967295", "99999999999999999999", "00000000000000000000001", "1 ", " 1", "1_0",
        "\u{661}", "0x1",
    ];
    for text in texts {
        let chars: Vec<char> = text.chars().collect();
        assert_eq!(parse_u32(&chars, 0, chars.len()), text.parse::<u32>().ok());
    }
    let chars: Vec<char> = "ab12cd".chars().collect();
    assert_eq!(parse_u32(&chars, 2, 4), Some(12));
    assert_eq!(parse_u32(&chars, 2, 2), None);
}
