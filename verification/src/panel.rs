//! The centre panel of the host's window: what it shows, which controls it
//! offers, and what a click on them asks for. The host draws it.

use vstd::prelude::*;

use crate::recorder::{RecordAction, RecordingState};
use crate::text::padded_text;

verus! {

/// The colours of the panel, by what they are for.
#[derive(Clone, Copy, Debug, PartialEq, Eq, Structural)]
pub enum Tone {
    /// Frames in the background.
    Dim,
    /// Text in the background.
    Muted,
    /// Text in the foreground.
    Primary,
    /// All is well.
    Success,
    /// Something is about to change or stands still.
    Warning,
    /// Something is wrong, or needs attention.
    Error,
}

/// Where the voice receiver stands.
#[derive(Clone, Copy, Debug, PartialEq, Eq, Structural)]
pub enum FridayState {
    /// It is about to listen.
    Starting,
    /// It listens.
    Listening,
    /// It is about to stop.
    Stopping,
    /// It does not listen.
    Stopped,
    /// It could not listen.
    Failed,
}

/// What a click on a recorder control asks for.
#[derive(Clone, Copy, Debug, PartialEq, Eq, Structural)]
pub enum RecorderAction {
    /// Begin a new recording.
    Start,
    /// Interrupt the recording.
    Pause,
    /// Go on after a pause.
    Resume,
    /// Complete the recording.
    Finish,
    /// Replay the last recording.
    Play,
    /// Stop the replay.
    StopPlayback,
}

/// The control of the voice receiver.
#[derive(Clone, Copy, Debug, PartialEq, Eq, Structural)]
pub enum ReceiverControl {
    /// A button that starts it.
    Start,
    /// A button that stops it.
    Stop,
    /// A button out of use while it starts.
    Starting,
    /// A button out of use while it stops.
    Stopping,
}

/// A button of the recorder.
#[derive(Clone, Copy, Debug, PartialEq, Eq, Structural)]
pub enum RecorderButton {
    /// Begin the first recording, or try again.
    Record,
    /// Begin another recording.
    RecordNew,
    /// Complete the recording.
    Finish,
    /// Interrupt the recording.
    Pause,
    /// Go on after a pause.
    Continue,
    /// Replay the last recording.
    Playback,
    /// Stop the replay.
    StopPlayback,
}

impl FridayState {
    /// The state in a word.
    pub open spec fn text(self) -> Seq<char> {
        match self {
            FridayState::Starting => "starting"@,
            FridayState::Listening => "listening"@,
            FridayState::Stopping => "stopping"@,
            FridayState::Stopped => "stopped"@,
            FridayState::Failed => "failed"@,
        }
    }

    /// The colour of the state.
    pub open spec fn colour(self) -> Tone {
        match self {
            FridayState::Starting => Tone::Warning,
            FridayState::Listening => Tone::Success,
            FridayState::Stopping => Tone::Warning,
            FridayState::Stopped => Tone::Muted,
            FridayState::Failed => Tone::Error,
        }
    }

    /// The control that the state offers.
    pub open spec fn offered(self) -> ReceiverControl {
        match self {
            FridayState::Stopped | FridayState::Failed => ReceiverControl::Start,
            FridayState::Listening => ReceiverControl::Stop,
            FridayState::Starting => ReceiverControl::Starting,
            FridayState::Stopping => ReceiverControl::Stopping,
        }
    }

    /// The state in a word, and its colour.
    pub fn status(self) -> (r: (&'static str, Tone))
        ensures
            r.0@ == self.text(),
            r.1 == self.colour(),
    {
        match self {
            FridayState::Starting => ("starting", Tone::Warning),
            FridayState::Listening => ("listening", Tone::Success),
            FridayState::Stopping => ("stopping", Tone::Warning),
            FridayState::Stopped => ("stopped", Tone::Muted),
            FridayState::Failed => ("failed", Tone::Error),
        }
    }

    /// The control that the state offers.
    pub fn control(self) -> (r: ReceiverControl)
        ensures
            r == self.offered(),
    {
        match self {
            FridayState::Stopped | FridayState::Failed => ReceiverControl::Start,
            FridayState::Listening => ReceiverControl::Stop,
            FridayState::Starting => ReceiverControl::Starting,
            FridayState::Stopping => ReceiverControl::Stopping,
        }
    }
}

impl ReceiverControl {
    /// What stands on the control.
    pub open spec fn text(self) -> Seq<char> {
        match self {
            ReceiverControl::Start => "▶  Start receiver"@,
            ReceiverControl::Stop => "■  Stop receiver"@,
            ReceiverControl::Starting => "Starting…"@,
            ReceiverControl::Stopping => "Stopping…"@,
        }
    }

    /// What stands on the control.
    pub fn label(self) -> (r: &'static str)
        ensures
            r@ == self.text(),
    {
        match self {
            ReceiverControl::Start => "▶  Start receiver",
            ReceiverControl::Stop => "■  Stop receiver",
            ReceiverControl::Starting => "Starting…",
            ReceiverControl::Stopping => "Stopping…",
        }
    }

    /// What a click asks for: that the receiver runs, or that it does not. A
    /// control out of use asks for nothing, and cannot be clicked.
    pub fn action(self) -> (r: Option<bool>)
        ensures
            r == match self {
                ReceiverControl::Start => Some(true),
                ReceiverControl::Stop => Some(false),
                _ => None::<bool>,
            },
    {
        match self {
            ReceiverControl::Start => Some(true),
            ReceiverControl::Stop => Some(false),
            _ => None,
        }
    }
}

impl RecorderButton {
    /// What stands on the button.
    pub open spec fn text(self) -> Seq<char> {
        match self {
            RecorderButton::Record => "●  Record"@,
            RecorderButton::RecordNew => "●  Record new"@,
            RecorderButton::Finish => "■  Finish"@,
            RecorderButton::Pause => "Ⅱ  Pause"@,
            RecorderButton::Continue => "▶  Continue"@,
            RecorderButton::Playback => "▶  Playback"@,
            RecorderButton::StopPlayback => "■  Stop playback"@,
        }
    }

    /// What a click on the button asks for.
    pub open spec fn asks(self) -> RecorderAction {
        match self {
            RecorderButton::Record | RecorderButton::RecordNew => RecorderAction::Start,
            RecorderButton::Finish => RecorderAction::Finish,
            RecorderButton::Pause => RecorderAction::Pause,
            RecorderButton::Continue => RecorderAction::Resume,
            RecorderButton::Playback => RecorderAction::Play,
            RecorderButton::StopPlayback => RecorderAction::StopPlayback,
        }
    }

    /// What stands on the button.
    pub fn label(self) -> (r: &'static str)
        ensures
            r@ == self.text(),
    {
        match self {
            RecorderButton::Record => "●  Record",
            RecorderButton::RecordNew => "●  Record new",
            RecorderButton::Finish => "■  Finish",
            RecorderButton::Pause => "Ⅱ  Pause",
            RecorderButton::Continue => "▶  Continue",
            RecorderButton::Playback => "▶  Playback",
            RecorderButton::StopPlayback => "■  Stop playback",
        }
    }

    /// What a click on the button asks for.
    pub fn action(self) -> (r: RecorderAction)
        ensures
            r == self.asks(),
    {
        match self {
            RecorderButton::Record | RecorderButton::RecordNew => RecorderAction::Start,
            RecorderButton::Finish => RecorderAction::Finish,
            RecorderButton::Pause => RecorderAction::Pause,
            RecorderButton::Continue => RecorderAction::Resume,
            RecorderButton::Playback => RecorderAction::Play,
            RecorderButton::StopPlayback => RecorderAction::StopPlayback,
        }
    }
}

impl RecorderAction {
    /// The action of the recorder that is asked for. Stopping a replay is none:
    /// it is always admitted.
    pub open spec fn request(self) -> Option<RecordAction> {
        match self {
            RecorderAction::Start => Some(RecordAction::Start),
            RecorderAction::Pause => Some(RecordAction::Pause),
            RecorderAction::Resume => Some(RecordAction::Resume),
            RecorderAction::Finish => Some(RecordAction::Finish),
            RecorderAction::Play => Some(RecordAction::Play),
            RecorderAction::StopPlayback => None,
        }
    }
}

/// The colour of a recorder's state.
pub open spec fn recording_colour(state: RecordingState) -> Tone {
    match state {
        RecordingState::Idle => Tone::Muted,
        RecordingState::Recording => Tone::Error,
        RecordingState::Paused => Tone::Warning,
        RecordingState::Finished => Tone::Success,
        RecordingState::Failed => Tone::Error,
    }
}

/// The colour of a recorder's state.
pub fn recording_tone(state: RecordingState) -> (r: Tone)
    ensures
        r == recording_colour(state),
{
    match state {
        RecordingState::Idle => Tone::Muted,
        RecordingState::Recording => Tone::Error,
        RecordingState::Paused => Tone::Warning,
        RecordingState::Finished => Tone::Success,
        RecordingState::Failed => Tone::Error,
    }
}

/// The buttons that a recorder offers, in the order in which they are asked.
pub open spec fn offered_buttons(state: RecordingState, playing: bool) -> Seq<RecorderButton> {
    match state {
        RecordingState::Idle | RecordingState::Failed => seq![RecorderButton::Record],
        RecordingState::Recording => seq![RecorderButton::Finish, RecorderButton::Pause],
        RecordingState::Paused => seq![RecorderButton::Finish, RecorderButton::Continue],
        RecordingState::Finished => seq![
            RecorderButton::RecordNew,
            if playing {
                RecorderButton::StopPlayback
            } else {
                RecorderButton::Playback
            },
        ],
    }
}

/// The buttons that a recorder offers, in the order in which they are asked: a
/// click on one hides those behind it for that frame.
pub fn recorder_buttons(state: RecordingState, playing: bool) -> (r: Vec<RecorderButton>)
    ensures
        r@ == offered_buttons(state, playing),
{
    match state {
        RecordingState::Idle | RecordingState::Failed => vec![RecorderButton::Record],
        RecordingState::Recording => vec![RecorderButton::Finish, RecorderButton::Pause],
        RecordingState::Paused => vec![RecorderButton::Finish, RecorderButton::Continue],
        RecordingState::Finished => if playing {
            vec![RecorderButton::RecordNew, RecorderButton::StopPlayback]
        } else {
            vec![RecorderButton::RecordNew, RecorderButton::Playback]
        },
    }
}

/// Every button that is offered asks for something that the state admits.
pub proof fn offered_buttons_are_admitted(state: RecordingState, playing: bool, i: int)
    requires
        0 <= i < offered_buttons(state, playing).len(),
    ensures
        offered_buttons(state, playing)[i].asks().request() matches Some(action)
            ==> crate::recorder::allowed(state, action),
{
}

/// Everything that a state admits is offered by a button, but for a replay while
/// one is under way, which is offered to be stopped instead.
pub proof fn admitted_actions_are_offered(
    state: RecordingState,
    playing: bool,
    action: RecordAction,
)
    requires
        crate::recorder::allowed(state, action),
        !(playing && action is Play),
    ensures
        exists|i: int|
            0 <= i < offered_buttons(state, playing).len() && #[trigger] offered_buttons(
                state,
                playing,
            )[i].asks().request() == Some(action),
{
    let buttons = offered_buttons(state, playing);
    if action is Start || action is Finish {
        assert(buttons[0].asks().request() == Some(action));
    } else {
        assert(buttons[1].asks().request() == Some(action));
    }
}

/// A line of text in a colour.
pub struct Line {
    /// What it says.
    pub text: String,
    /// Its colour.
    pub tone: Tone,
}

impl View for Line {
    type V = (Seq<char>, Tone);

    open spec fn view(&self) -> (Seq<char>, Tone) {
        (self.text@, self.tone)
    }
}

/// A line that may be missing.
pub open spec fn optional_line(line: Option<Line>) -> Option<(Seq<char>, Tone)> {
    match line {
        Some(line) => Some(line@),
        None => None,
    }
}

/// What the panel shows below the recorder's controls.
pub enum RecordingDetail {
    /// The waveform of the recording under way; it moves only where `active`.
    Waveform {
        /// Whether the microphone is being captured.
        active: bool,
    },
    /// Where the last recording was saved.
    Saved(Line),
    /// Nothing.
    Nothing,
}

/// What the voice part of the panel is made from.
pub struct VoiceInputs {
    /// Where the receiver stands.
    pub receiver: FridayState,
    /// The address that the receiver listens on.
    pub address: String,
    /// The player that the receiver uses.
    pub player: Option<String>,
    /// What went wrong with the receiver.
    pub receiver_error: Option<String>,
    /// Where the recorder stands.
    pub recording: RecordingState,
    /// The file name of the last recording that was begun.
    pub record_file: Option<String>,
    /// Whether a replay is under way.
    pub is_playing: bool,
    /// The time recorded, in whole seconds.
    pub elapsed: u64,
    /// What went wrong with the recorder.
    pub record_error: Option<String>,
    /// What went wrong with the hotkey.
    pub hotkey_error: Option<String>,
}

/// The voice part of the panel.
pub struct VoicePanel {
    /// Where the receiver stands.
    pub receiver_status: Line,
    /// The control of the receiver.
    pub receiver_control: ReceiverControl,
    /// Where the receiver listens.
    pub address: Line,
    /// The player that the receiver uses.
    pub player: Option<Line>,
    /// What went wrong with the receiver.
    pub receiver_error: Option<Line>,
    /// Where the recorder stands, and for how long it recorded.
    pub recording_status: Line,
    /// The buttons of the recorder.
    pub buttons: Vec<RecorderButton>,
    /// The waveform or the file of the recording.
    pub detail: RecordingDetail,
    /// What went wrong with the recorder.
    pub record_error: Option<Line>,
    /// What went wrong with the hotkey, or what it is for.
    pub hint: Option<Line>,
}

/// A time as minutes and seconds of at least two digits each.
pub open spec fn clock_text(seconds: nat) -> Seq<char> {
    crate::text::padded(seconds / 60, 2) + ":"@ + crate::text::padded(seconds % 60, 2)
}

/// An optional error as a line.
pub open spec fn error_line(error: Option<String>) -> Option<(Seq<char>, Tone)> {
    match error {
        Some(error) => Some((error@, Tone::Error)),
        None => None,
    }
}

/// What the panel shows below the recorder's controls.
pub open spec fn shows_detail(
    detail: RecordingDetail,
    recording: RecordingState,
    record_file: Option<String>,
) -> bool {
    match recording {
        RecordingState::Recording => detail == (RecordingDetail::Waveform { active: true }),
        RecordingState::Paused => detail == (RecordingDetail::Waveform { active: false }),
        _ => match record_file {
            Some(file) => detail matches RecordingDetail::Saved(line) && line@ == (
                "Saved: media/"@ + file@,
                Tone::Success,
            ),
            None => detail is Nothing,
        },
    }
}

/// The hint about the hotkey: its error, or else what it is for while nothing is
/// recorded.
pub open spec fn hint_line(
    recording: RecordingState,
    hotkey_error: Option<String>,
) -> Option<(Seq<char>, Tone)> {
    match hotkey_error {
        Some(error) => Some((error@, Tone::Error)),
        None => if recording is Idle || recording is Failed {
            Some(("F8: record / finish; WAV is saved in media/."@, Tone::Muted))
        } else {
            None
        },
    }
}

/// A line of two parts.
fn joined_line(first: &str, second: &str, tone: Tone) -> (r: Line)
    ensures
        r@ == (first@ + second@, tone),
{
    let mut text: String = first.to_owned();
    text.append(second);
    Line { text, tone }
}

/// An optional error as a line.
fn line_of_error(error: Option<String>) -> (r: Option<Line>)
    ensures
        optional_line(r) == error_line(error),
{
    match error {
        Some(text) => Some(Line { text, tone: Tone::Error }),
        None => None,
    }
}

/// The line that says where the recorder stands.
fn recording_line(state: RecordingState, seconds: u64) -> (r: Line)
    ensures
        r@ == (
            "● "@ + state.text() + "  "@ + clock_text(seconds as nat),
            recording_colour(state),
        ),
{
    let mut text: String = "● ".to_owned();
    text.append(state.label());
    text.append("  ");
    let minutes: String = padded_text(seconds / 60, 2);
    text.append(minutes.as_str());
    text.append(":");
    let rest: String = padded_text(seconds % 60, 2);
    text.append(rest.as_str());
    assert(text@ =~= "● "@ + state.text() + "  "@ + clock_text(seconds as nat));
    Line { text, tone: recording_tone(state) }
}

/// What the panel shows below the recorder's controls.
fn detail_of(recording: RecordingState, record_file: Option<String>) -> (r: RecordingDetail)
    ensures
        shows_detail(r, recording, record_file),
{
    match recording {
        RecordingState::Recording => RecordingDetail::Waveform { active: true },
        RecordingState::Paused => RecordingDetail::Waveform { active: false },
        _ => match record_file {
            Some(file) => RecordingDetail::Saved(
                joined_line("Saved: media/", file.as_str(), Tone::Success),
            ),
            None => RecordingDetail::Nothing,
        },
    }
}

/// The voice part of the panel.
pub fn voice_panel(inputs: VoiceInputs) -> (r: VoicePanel)
    ensures
        r.receiver_status@ == ("● "@ + inputs.receiver.text(), inputs.receiver.colour()),
        r.receiver_control == inputs.receiver.offered(),
        r.address@ == ("Receiver: http://"@ + inputs.address@ + "/speak"@, Tone::Primary),
        optional_line(r.player) == match inputs.player {
            Some(player) => Some(("player: "@ + player@, Tone::Muted)),
            None => None,
        },
        optional_line(r.receiver_error) == error_line(inputs.receiver_error),
        r.recording_status@ == (
            "● "@ + inputs.recording.text() + "  "@ + clock_text(inputs.elapsed as nat),
            recording_colour(inputs.recording),
        ),
        r.buttons@ == offered_buttons(inputs.recording, inputs.is_playing),
        shows_detail(r.detail, inputs.recording, inputs.record_file),
        optional_line(r.record_error) == error_line(inputs.record_error),
        optional_line(r.hint) == hint_line(inputs.recording, inputs.hotkey_error),
{
    let (status, tone) = inputs.receiver.status();
    let mut address: String = "Receiver: http://".to_owned();
    address.append(inputs.address.as_str());
    address.append("/speak");
    let player: Option<Line> = match inputs.player {
        Some(player) => Some(joined_line("player: ", player.as_str(), Tone::Muted)),
        None => None,
    };
    let hint: Option<Line> = match inputs.hotkey_error {
        Some(text) => Some(Line { text, tone: Tone::Error }),
        None => match inputs.recording {
            RecordingState::Idle | RecordingState::Failed => Some(
                Line {
                    text: "F8: record / finish; WAV is saved in media/.".to_owned(),
                    tone: Tone::Muted,
                },
            ),
            _ => None,
        },
    };
    VoicePanel {
        receiver_status: joined_line("● ", status, tone),
        receiver_control: inputs.receiver.control(),
        address: Line { text: address, tone: Tone::Primary },
        player,
        receiver_error: line_of_error(inputs.receiver_error),
        recording_status: recording_line(inputs.recording, inputs.elapsed),
        buttons: recorder_buttons(inputs.recording, inputs.is_playing),
        detail: detail_of(inputs.recording, inputs.record_file),
        record_error: line_of_error(inputs.record_error),
        hint,
    }
}

/// What a click on the button for all tunnels asks for.
#[derive(Clone, Copy, Debug, PartialEq, Eq, Structural)]
pub enum SupervisorAction {
    /// Start them.
    Start,
    /// Stop them.
    Stop,
}

/// The button for all tunnels: what stands on it, and what a click asks for.
pub fn supervisor_button(running: bool) -> (r: (&'static str, SupervisorAction))
    ensures
        r.0@ == if running {
            "■  Stop All"@
        } else {
            "▶  Start All"@
        },
        r.1 == if running {
            SupervisorAction::Stop
        } else {
            SupervisorAction::Start
        },
{
    if running {
        ("■  Stop All", SupervisorAction::Stop)
    } else {
        ("▶  Start All", SupervisorAction::Start)
    }
}

/// What the clock shows reads back as the time, for every number of seconds: the
/// number before the colon counts sixties and the one behind it the rest. The rest
/// has two digits, and the sixties have two or as many as they need.
pub proof fn clock_reads_back(seconds: nat)
    ensures
        ({
            let shown = clock_text(seconds);
            let minutes = shown.take(shown.len() - 3);
            let rest = shown.skip(shown.len() - 2);
            &&& shown.len() >= 5
            &&& shown[shown.len() - 3] == ':'
            &&& crate::text::all_digits(minutes)
            &&& crate::text::all_digits(rest)
            &&& crate::text::digits_value(rest) < 60
            &&& crate::text::digits_value(minutes) * 60 + crate::text::digits_value(rest) == seconds
            &&& minutes.len() == 2 || minutes[0] != '0'
        }),
{
    let shown = clock_text(seconds);
    let minutes = crate::text::padded(seconds / 60, 2);
    let rest = crate::text::padded(seconds % 60, 2);
    reveal_strlit(":");
    crate::text::lemma_padded_value(seconds / 60, 2);
    crate::text::lemma_padded_value(seconds % 60, 2);
    crate::text::decimals_are_shortest(seconds / 60, 2);
    assert(vstd::arithmetic::power::pow(10, 2) == 100) by {
        reveal(vstd::arithmetic::power::pow);
        reveal_with_fuel(vstd::arithmetic::power::pow, 3);
    }
    crate::text::small_numbers_are_short(seconds % 60, 2);
    assert(shown.take(shown.len() - 3) =~= minutes);
    assert(shown.skip(shown.len() - 2) =~= rest);
}

/// Different times are shown differently.
pub proof fn clocks_differ(a: nat, b: nat)
    requires
        clock_text(a) == clock_text(b),
    ensures
        a == b,
{
    clock_reads_back(a);
    clock_reads_back(b);
}

/// A line that is there is shown as it is, and an error as it was given.
pub proof fn lines_are_kept(line: Line, error: String)
    ensures
        optional_line(Some(line)) == Some((line.text@, line.tone)),
        optional_line(None) is None,
        error_line(Some(error)) == Some((error@, Tone::Error)),
        error_line(None) is None,
{
}

/// The waveform stands exactly while a recording is under way and moves exactly
/// while it is not paused; else the file of the last recording is named, if there
/// is one.
pub proof fn detail_follows_the_recorder(
    detail: RecordingDetail,
    recording: RecordingState,
    record_file: Option<String>,
)
    requires
        shows_detail(detail, recording, record_file),
    ensures
        detail is Waveform <==> crate::recorder::allowed(recording, RecordAction::Finish),
        detail matches RecordingDetail::Waveform { active } ==> (active
            <==> crate::recorder::allowed(recording, RecordAction::Pause)),
        detail is Nothing <==> !(detail is Waveform) && record_file is None,
        detail matches RecordingDetail::Saved(line) ==> record_file is Some && line.text@
            == "Saved: media/"@ + record_file->0@ && line.tone == Tone::Success,
{
}

/// An error of the hotkey is always told. Without one, the hotkey is explained
/// exactly where nothing is under way and nothing was finished.
pub proof fn hints_follow_the_hotkey(recording: RecordingState, error: String)
    ensures
        hint_line(recording, Some(error)) == Some((error@, Tone::Error)),
        hint_line(recording, None) is Some <==> crate::recorder::allowed(
            recording,
            RecordAction::Start,
        ) && !crate::recorder::allowed(recording, RecordAction::Play),
        hint_line(recording, None) matches Some(line) ==> line == (
            "F8: record / finish; WAV is saved in media/."@,
            Tone::Muted,
        ),
{
}

/// A replay changes the buttons only after a recording was finished, where one of
/// two is swapped. No button is offered twice, and the one that begins or ends a
/// recording comes first.
pub proof fn replays_swap_one_button(state: RecordingState, playing: bool)
    ensures
        !(state is Finished) ==> offered_buttons(state, true) == offered_buttons(state, false),
        state is Finished ==> offered_buttons(state, playing).len() == 2 && (offered_buttons(
            state,
            playing,
        )[1].asks() is StopPlayback <==> playing),
        offered_buttons(state, playing).len() == if state is Idle || state is Failed {
            1int
        } else {
            2
        },
        offered_buttons(state, playing)[0].asks() is Start <==> crate::recorder::allowed(
            state,
            RecordAction::Start,
        ),
        offered_buttons(state, playing)[0].asks() is Finish <==> crate::recorder::allowed(
            state,
            RecordAction::Finish,
        ),
        offered_buttons(state, playing).len() == 2 ==> offered_buttons(state, playing)[0]
            != offered_buttons(state, playing)[1],
{
}

} // verus!
