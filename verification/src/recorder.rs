//! The recorder: capture lifecycle, elapsed time, and local replay.
//!
//! The host owns the microphone, the player process and the clock. It asks
//! [`FridayRecorder::permit`] before it touches any of them, does the outside
//! work, and reports how that went; the recorder decides what follows. Before a
//! new recording and before a replay it asks [`FridayRecorder::begin_start`] or
//! [`FridayRecorder::begin_play`] instead, which also say whether a replay has to
//! be ended first. Clock readings are nanoseconds since a moment that the host
//! fixes once.

use vstd::prelude::*;

verus! {

/// The longest recording time that the host's clock can hold, in nanoseconds.
pub const MAX_ELAPSED: u128 = 18_446_744_073_709_551_615_999_999_999;

/// Where a recorder stands.
#[derive(Clone, Copy, Debug, PartialEq, Eq, Structural)]
pub enum RecordingState {
    /// Nothing was recorded yet.
    Idle,
    /// The microphone is being captured.
    Recording,
    /// The capture is interrupted and can go on.
    Paused,
    /// The last recording is complete.
    Finished,
    /// The last attempt to record went wrong.
    Failed,
}

/// What a recorder can be asked to do.
#[derive(Clone, Copy, Debug, PartialEq, Eq, Structural)]
pub enum RecordAction {
    /// Begin a new recording.
    Start,
    /// Interrupt the recording.
    Pause,
    /// Go on after a pause.
    Resume,
    /// Complete the recording.
    Finish,
    /// Replay the last recording.
    Play,
}

impl Default for RecordingState {
    fn default() -> (r: RecordingState)
        ensures
            r == RecordingState::Idle,
    {
        RecordingState::Idle
    }
}

impl RecordAction {
    /// The action as a verb.
    pub open spec fn text(self) -> Seq<char> {
        match self {
            RecordAction::Start => "start"@,
            RecordAction::Pause => "pause"@,
            RecordAction::Resume => "resume"@,
            RecordAction::Finish => "finish"@,
            RecordAction::Play => "play"@,
        }
    }

    /// The action as a verb, for messages.
    pub fn label(self) -> (r: &'static str)
        ensures
            r@ == self.text(),
    {
        match self {
            RecordAction::Start => "start",
            RecordAction::Pause => "pause",
            RecordAction::Resume => "resume",
            RecordAction::Finish => "finish",
            RecordAction::Play => "play",
        }
    }
}

impl RecordingState {
    /// The state as an adjective.
    pub open spec fn text(self) -> Seq<char> {
        match self {
            RecordingState::Idle => "idle"@,
            RecordingState::Recording => "recording"@,
            RecordingState::Paused => "paused"@,
            RecordingState::Finished => "finished"@,
            RecordingState::Failed => "failed"@,
        }
    }

    /// The state as an adjective, for messages.
    pub fn label(self) -> (r: &'static str)
        ensures
            r@ == self.text(),
    {
        match self {
            RecordingState::Idle => "idle",
            RecordingState::Recording => "recording",
            RecordingState::Paused => "paused",
            RecordingState::Finished => "finished",
            RecordingState::Failed => "failed",
        }
    }
}

/// Which actions each state admits.
pub open spec fn allowed(state: RecordingState, action: RecordAction) -> bool {
    match action {
        RecordAction::Start => state is Idle || state is Finished || state is Failed,
        RecordAction::Pause => state is Recording,
        RecordAction::Resume => state is Paused,
        RecordAction::Finish => state is Recording || state is Paused,
        RecordAction::Play => state is Finished,
    }
}

/// What is answered to an action that the state does not admit.
pub open spec fn refusal(state: RecordingState, action: RecordAction) -> Seq<char> {
    "cannot "@ + action.text() + " while recorder is "@ + state.text()
}

/// Admits `action` in `state`, or says why not.
pub fn ensure_transition(state: RecordingState, action: RecordAction) -> (r: Result<(), String>)
    ensures
        crate::text::answer(r) == if allowed(state, action) {
            Ok(())
        } else {
            Err(refusal(state, action))
        },
{
    let valid: bool = match (state, action) {
        (
            RecordingState::Idle | RecordingState::Finished | RecordingState::Failed,
            RecordAction::Start,
        ) => true,
        (RecordingState::Recording, RecordAction::Pause | RecordAction::Finish) => true,
        (RecordingState::Paused, RecordAction::Resume | RecordAction::Finish) => true,
        (RecordingState::Finished, RecordAction::Play) => true,
        _ => false,
    };
    if valid {
        Ok(())
    } else {
        let mut error: String = "cannot ".to_owned();
        error.append(action.label());
        error.append(" while recorder is ");
        error.append(state.label());
        Err(error)
    }
}

/// How the outside work of a new recording went.
pub enum StartOutcome {
    /// No file could be found to record into.
    NoPath(String),
    /// The microphone could not be opened for the file.
    NoCapture {
        /// The file that was to be recorded into.
        path: String,
        /// What went wrong.
        error: String,
    },
    /// The microphone is being captured into the file.
    Capturing(String),
}

impl StartOutcome {
    /// The file that the host removes, because nothing will be recorded into it.
    pub open spec fn unused_file(self) -> Option<Seq<char>> {
        match self {
            StartOutcome::NoCapture { path, error } => Some(path@),
            _ => None,
        }
    }

    /// The file that the host removes, because nothing will be recorded into it.
    pub fn leftover(&self) -> (r: Option<&str>)
        ensures
            match r {
                Some(path) => self.unused_file() == Some(path@),
                None => self.unused_file() is None,
            },
    {
        match self {
            StartOutcome::NoCapture { path, error: _ } => Some(path.as_str()),
            _ => None,
        }
    }
}

/// How the outside work of a replay went.
pub enum PlayOutcome {
    /// No player program is installed.
    NoPlayer,
    /// The player could not be started.
    SpawnFailed(String),
    /// The player runs.
    Playing,
}

/// What a recorder holds.
pub struct RecorderView {
    /// Where it stands.
    pub state: RecordingState,
    /// Whether the host holds a capture for it.
    pub capture: bool,
    /// The file name of the last recording that was begun.
    pub path: Option<Seq<char>>,
    /// Whether the host holds a player for it.
    pub player: bool,
    /// What last went wrong.
    pub error: Option<Seq<char>>,
    /// The time recorded up to the last pause.
    pub elapsed: nat,
    /// When the capture last began or went on, if it is running.
    pub active_since: Option<nat>,
}

impl RecorderView {
    /// A recorder that nothing was asked of.
    pub open spec fn initial() -> RecorderView {
        RecorderView {
            state: RecordingState::Idle,
            capture: false,
            path: None,
            player: false,
            error: None,
            elapsed: 0,
            active_since: None,
        }
    }

    /// What holds in each state.
    pub open spec fn wf(self) -> bool {
        match self.state {
            RecordingState::Idle => self == RecorderView::initial(),
            RecordingState::Recording => self.capture && !self.player && self.path is Some
                && self.active_since is Some,
            RecordingState::Paused => self.capture && !self.player && self.path is Some
                && self.active_since is None,
            RecordingState::Finished => !self.capture && self.path is Some && self.active_since
                is None && self.error is None,
            RecordingState::Failed => !self.capture && !self.player && self.active_since is None
                && self.error is Some,
        }
    }

    /// The time recorded when the clock reads `now`. A reading before the capture
    /// went on adds nothing.
    pub open spec fn elapsed_at(self, now: nat) -> nat {
        match self.active_since {
            Some(since) => if now > since {
                (self.elapsed + (now - since)) as nat
            } else {
                self.elapsed
            },
            None => self.elapsed,
        }
    }

    /// The recorder with the running time taken into account.
    pub open spec fn frozen(self, now: nat) -> RecorderView {
        RecorderView { elapsed: self.elapsed_at(now), active_since: None, ..self }
    }

    /// The recorder after something went wrong.
    pub open spec fn failed(self, error: Seq<char>) -> RecorderView {
        RecorderView {
            state: RecordingState::Failed,
            error: Some(error),
            active_since: None,
            ..self
        }
    }

    /// The recorder without its player.
    pub open spec fn silent(self) -> RecorderView {
        RecorderView { player: false, ..self }
    }

    /// Whether outside work may be done for `action`, or why not.
    pub open spec fn permit(self, action: RecordAction) -> Result<(), Seq<char>> {
        if !allowed(self.state, action) {
            Err(refusal(self.state, action))
        } else if !self.capture && (action is Pause || action is Resume || action is Finish) {
            Err("recording session is missing"@)
        } else if self.path is None && action is Play {
            Err("no recording to play"@)
        } else {
            Ok(())
        }
    }

    /// The beginning of a new recording, before its outside work: the recorder
    /// afterwards, and whether there is a player that the host ends first.
    pub open spec fn begin_start(self) -> (RecorderView, Result<bool, Seq<char>>) {
        if !allowed(self.state, RecordAction::Start) {
            (self, Err(refusal(self.state, RecordAction::Start)))
        } else {
            (self.silent(), Ok(self.player))
        }
    }

    /// The beginning of a replay, once the host has looked for a player program:
    /// the recorder afterwards, and whether there is a player that the host ends
    /// before it starts the new one.
    pub open spec fn begin_play(self, found: bool) -> (RecorderView, Result<bool, Seq<char>>) {
        match self.permit(RecordAction::Play) {
            Err(error) => (self, Err(error)),
            Ok(_) => if found {
                (self.silent(), Ok(self.player))
            } else {
                (self, Err("mpv not found; install it or set FRIDAY_MPV to its executable"@))
            },
        }
    }

    /// A new recording: the recorder afterwards, and the answer.
    pub open spec fn start(self, outcome: StartOutcome, now: nat) -> (
        RecorderView,
        Result<(), Seq<char>>,
    ) {
        if !allowed(self.state, RecordAction::Start) {
            (self, Err(refusal(self.state, RecordAction::Start)))
        } else {
            match outcome {
                StartOutcome::NoPath(error) => (self.silent().failed(error@), Err(error@)),
                StartOutcome::NoCapture { path, error } => (
                    self.silent().failed(error@),
                    Err(error@),
                ),
                StartOutcome::Capturing(path) => (
                    RecorderView {
                        state: RecordingState::Recording,
                        capture: true,
                        path: Some(path@),
                        player: false,
                        error: None,
                        elapsed: 0,
                        active_since: Some(now),
                    },
                    Ok(()),
                ),
            }
        }
    }

    /// A pause: the recorder afterwards, and the answer.
    pub open spec fn pause(self, outcome: Result<(), Seq<char>>, now: nat) -> (
        RecorderView,
        Result<(), Seq<char>>,
    ) {
        match (self.permit(RecordAction::Pause), outcome) {
            (Err(error), _) => (self, Err(error)),
            (Ok(_), Err(error)) => (RecorderView { error: Some(error), ..self }, Err(error)),
            (Ok(_), Ok(_)) => (
                RecorderView { state: RecordingState::Paused, ..self.frozen(now) },
                Ok(()),
            ),
        }
    }

    /// The end of a pause: the recorder afterwards, and the answer.
    pub open spec fn resume(self, outcome: Result<(), Seq<char>>, now: nat) -> (
        RecorderView,
        Result<(), Seq<char>>,
    ) {
        match (self.permit(RecordAction::Resume), outcome) {
            (Err(error), _) => (self, Err(error)),
            (Ok(_), Err(error)) => (RecorderView { error: Some(error), ..self }, Err(error)),
            (Ok(_), Ok(_)) => (
                RecorderView {
                    state: RecordingState::Recording,
                    active_since: Some(now),
                    ..self
                },
                Ok(()),
            ),
        }
    }

    /// The end of a recording: the recorder afterwards, and the answer.
    pub open spec fn finish(self, outcome: Result<(), Seq<char>>, now: nat) -> (
        RecorderView,
        Result<(), Seq<char>>,
    ) {
        if !allowed(self.state, RecordAction::Finish) {
            (self, Err(refusal(self.state, RecordAction::Finish)))
        } else if !self.capture {
            (self.frozen(now), Err("recording session is missing"@))
        } else {
            let released = RecorderView { capture: false, ..self.frozen(now) };
            match outcome {
                Ok(_) => (
                    RecorderView { state: RecordingState::Finished, error: None, ..released },
                    Ok(()),
                ),
                Err(error) => (released.failed(error), Err(error)),
            }
        }
    }

    /// A replay: the recorder afterwards, and the answer.
    pub open spec fn play(self, outcome: PlayOutcome) -> (RecorderView, Result<(), Seq<char>>) {
        match self.permit(RecordAction::Play) {
            Err(error) => (self, Err(error)),
            Ok(_) => match outcome {
                PlayOutcome::NoPlayer => (
                    self,
                    Err("mpv not found; install it or set FRIDAY_MPV to its executable"@),
                ),
                PlayOutcome::SpawnFailed(error) => (
                    self.silent(),
                    Err("cannot start mpv: "@ + error@),
                ),
                PlayOutcome::Playing => (RecorderView { player: true, ..self }, Ok(())),
            },
        }
    }

    /// A look at the player and the capture: a player that has ended is let go,
    /// and a capture that broke down ends the recording.
    pub open spec fn poll(
        self,
        player_ended: bool,
        capture_error: Option<Seq<char>>,
        now: nat,
    ) -> RecorderView {
        let heard = if player_ended {
            self.silent()
        } else {
            self
        };
        match capture_error {
            Some(error) => if self.capture {
                RecorderView { capture: false, ..heard.frozen(now) }.failed(error)
            } else {
                heard
            },
            None => heard,
        }
    }
}

/// The recorder of a host.
pub struct FridayRecorder {
    state: RecordingState,
    capture: bool,
    path: Option<String>,
    player: bool,
    error: Option<String>,
    elapsed: u128,
    active_since: Option<u64>,
}

impl View for FridayRecorder {
    type V = RecorderView;

    closed spec fn view(&self) -> RecorderView {
        RecorderView {
            state: self.state,
            capture: self.capture,
            path: crate::text::optional(self.path),
            player: self.player,
            error: crate::text::optional(self.error),
            elapsed: self.elapsed as nat,
            active_since: match self.active_since {
                Some(since) => Some(since as nat),
                None => None,
            },
        }
    }
}

impl FridayRecorder {
    /// A recorder with nothing recorded.
    pub fn new() -> (r: FridayRecorder)
        ensures
            r@ == RecorderView::initial(),
            r@.wf(),
    {
        FridayRecorder {
            state: RecordingState::Idle,
            capture: false,
            path: None,
            player: false,
            error: None,
            elapsed: 0,
            active_since: None,
        }
    }

    /// Where the recorder stands.
    pub fn state(&self) -> (r: RecordingState)
        ensures
            r == self@.state,
    {
        self.state
    }

    /// The file name of the last recording that was begun.
    pub fn path(&self) -> (r: Option<&str>)
        ensures
            match r {
                Some(path) => self@.path == Some(path@),
                None => self@.path is None,
            },
    {
        match &self.path {
            Some(path) => Some(path.as_str()),
            None => None,
        }
    }

    /// What last went wrong.
    pub fn error(&self) -> (r: Option<&str>)
        ensures
            match r {
                Some(error) => self@.error == Some(error@),
                None => self@.error is None,
            },
    {
        match &self.error {
            Some(error) => Some(error.as_str()),
            None => None,
        }
    }

    /// Whether the time recorded so far can be held.
    pub fn time_fits(&self, now: u64) -> (r: bool)
        ensures
            r == (self@.elapsed_at(now as nat) <= MAX_ELAPSED),
    {
        let running: u64 = match self.active_since {
            Some(since) => if now > since {
                now - since
            } else {
                0
            },
            None => 0,
        };
        self.elapsed <= MAX_ELAPSED - running as u128
    }

    /// The time recorded so far, in nanoseconds, without the pauses.
    pub fn elapsed(&self, now: u64) -> (r: u128)
        requires
            self@.elapsed_at(now as nat) <= MAX_ELAPSED,
        ensures
            r == self@.elapsed_at(now as nat),
    {
        match self.active_since {
            Some(since) => if now > since {
                self.elapsed + (now - since) as u128
            } else {
                self.elapsed
            },
            None => self.elapsed,
        }
    }

    /// Whether a recording is under way, paused or not.
    pub fn is_active(&self) -> (r: bool)
        ensures
            r == (self@.state is Recording || self@.state is Paused),
            self@.wf() ==> r == self@.capture,
    {
        matches!(self.state, RecordingState::Recording | RecordingState::Paused)
    }

    /// Whether a replay is under way.
    pub fn is_playing(&self) -> (r: bool)
        ensures
            r == self@.player,
    {
        self.player
    }

    /// Whether the host may do the outside work of `action`: the answer is the
    /// one that the action itself would give without asking the outside.
    pub fn permit(&self, action: RecordAction) -> (r: Result<(), String>)
        ensures
            crate::text::answer(r) == self@.permit(action),
    {
        if let Err(error) = ensure_transition(self.state, action) {
            return Err(error);
        }
        match action {
            RecordAction::Pause | RecordAction::Resume | RecordAction::Finish => if !self.capture {
                return Err("recording session is missing".to_owned());
            },
            RecordAction::Play => if self.path.is_none() {
                return Err("no recording to play".to_owned());
            },
            RecordAction::Start => {},
        }
        Ok(())
    }

    /// Prepares a new recording, before the microphone is opened for it. A replay
    /// is stopped, so that it cannot feed back into the microphone: the answer is
    /// whether there is a player that the host has to end first. A refusal changes
    /// nothing.
    pub fn begin_start(&mut self) -> (r: Result<bool, String>)
        ensures
            final(self)@ == old(self)@.begin_start().0,
            match r {
                Ok(ends) => {
                    &&& old(self)@.begin_start().1 == Ok::<bool, Seq<char>>(ends)
                    &&& ends == old(self)@.player
                    &&& final(self)@ == old(self)@.silent()
                },
                Err(error) => {
                    &&& old(self)@.begin_start().1 == Err::<bool, Seq<char>>(error@)
                    &&& final(self)@ == old(self)@
                },
            },
            old(self)@.wf() ==> final(self)@.wf(),
    {
        if let Err(error) = ensure_transition(self.state, RecordAction::Start) {
            return Err(error);
        }
        Ok(self.stop_playback())
    }

    /// Prepares a replay, before a player is started for it. `found` is whether a
    /// player program was found; only then is a replay that is under way stopped.
    /// The answer is whether there is a player that the host has to end first. A
    /// refusal changes nothing.
    pub fn begin_play(&mut self, found: bool) -> (r: Result<bool, String>)
        ensures
            final(self)@ == old(self)@.begin_play(found).0,
            match r {
                Ok(ends) => {
                    &&& old(self)@.begin_play(found).1 == Ok::<bool, Seq<char>>(ends)
                    &&& ends == old(self)@.player
                    &&& final(self)@ == old(self)@.silent()
                },
                Err(error) => {
                    &&& old(self)@.begin_play(found).1 == Err::<bool, Seq<char>>(error@)
                    &&& final(self)@ == old(self)@
                },
            },
            old(self)@.wf() ==> final(self)@.wf(),
    {
        if let Err(error) = self.permit(RecordAction::Play) {
            return Err(error);
        }
        if !found {
            return Err("mpv not found; install it or set FRIDAY_MPV to its executable".to_owned());
        }
        Ok(self.stop_playback())
    }

    /// Begins a new recording that [`FridayRecorder::begin_start`] has prepared. No
    /// replay goes on, so that it cannot feed back into the microphone.
    pub fn start(&mut self, outcome: StartOutcome, now: u64) -> (r: Result<(), String>)
        ensures
            (final(self)@, crate::text::answer(r)) == old(self)@.start(outcome, now as nat),
            old(self)@.wf() ==> final(self)@.wf(),
    {
        if let Err(error) = ensure_transition(self.state, RecordAction::Start) {
            return Err(error);
        }
        self.player = false;
        match outcome {
            StartOutcome::NoPath(error) => {
                self.fail(error.clone());
                Err(error)
            },
            StartOutcome::NoCapture { path: _, error } => {
                self.fail(error.clone());
                Err(error)
            },
            StartOutcome::Capturing(path) => {
                self.path = Some(path);
                self.capture = true;
                self.state = RecordingState::Recording;
                self.error = None;
                self.elapsed = 0;
                self.active_since = Some(now);
                Ok(())
            },
        }
    }

    /// Interrupts the recording. `outcome` is how the capture was interrupted.
    pub fn pause(&mut self, outcome: Result<(), String>, now: u64) -> (r: Result<(), String>)
        requires
            old(self)@.permit(RecordAction::Pause) is Ok && outcome is Ok ==> old(self)@.elapsed_at(
                now as nat,
            ) <= MAX_ELAPSED,
        ensures
            (final(self)@, crate::text::answer(r)) == old(self)@.pause(
                crate::text::answer(outcome),
                now as nat,
            ),
            old(self)@.wf() ==> final(self)@.wf(),
    {
        if let Err(error) = self.permit(RecordAction::Pause) {
            return Err(error);
        }
        if let Err(error) = outcome {
            self.error = Some(error.clone());
            return Err(error);
        }
        self.freeze_elapsed(now);
        self.state = RecordingState::Paused;
        Ok(())
    }

    /// Goes on after a pause. `outcome` is how the capture was taken up again.
    pub fn resume(&mut self, outcome: Result<(), String>, now: u64) -> (r: Result<(), String>)
        ensures
            (final(self)@, crate::text::answer(r)) == old(self)@.resume(
                crate::text::answer(outcome),
                now as nat,
            ),
            old(self)@.wf() ==> final(self)@.wf(),
    {
        if let Err(error) = self.permit(RecordAction::Resume) {
            return Err(error);
        }
        if let Err(error) = outcome {
            self.error = Some(error.clone());
            return Err(error);
        }
        self.active_since = Some(now);
        self.state = RecordingState::Recording;
        Ok(())
    }

    /// Completes the recording. `outcome` is how the capture was completed; the
    /// host lets go of it either way.
    pub fn finish(&mut self, outcome: Result<(), String>, now: u64) -> (r: Result<(), String>)
        requires
            allowed(old(self)@.state, RecordAction::Finish) ==> old(self)@.elapsed_at(now as nat)
                <= MAX_ELAPSED,
        ensures
            (final(self)@, crate::text::answer(r)) == old(self)@.finish(
                crate::text::answer(outcome),
                now as nat,
            ),
            old(self)@.wf() ==> final(self)@.wf(),
    {
        if let Err(error) = ensure_transition(self.state, RecordAction::Finish) {
            return Err(error);
        }
        self.freeze_elapsed(now);
        if !self.capture {
            return Err("recording session is missing".to_owned());
        }
        self.capture = false;
        match outcome {
            Ok(_) => {
                self.state = RecordingState::Finished;
                self.error = None;
                Ok(())
            },
            Err(error) => {
                self.fail(error.clone());
                Err(error)
            },
        }
    }

    /// Replays the last recording, as [`FridayRecorder::begin_play`] has prepared.
    /// A replay that was under way does not go on once a player was found.
    pub fn play(&mut self, outcome: PlayOutcome) -> (r: Result<(), String>)
        ensures
            (final(self)@, crate::text::answer(r)) == old(self)@.play(outcome),
            old(self)@.wf() ==> final(self)@.wf(),
    {
        if let Err(error) = self.permit(RecordAction::Play) {
            return Err(error);
        }
        match outcome {
            PlayOutcome::NoPlayer => Err(
                "mpv not found; install it or set FRIDAY_MPV to its executable".to_owned(),
            ),
            PlayOutcome::SpawnFailed(error) => {
                self.player = false;
                let mut message: String = "cannot start mpv: ".to_owned();
                message.append(error.as_str());
                Err(message)
            },
            PlayOutcome::Playing => {
                self.player = true;
                Ok(())
            },
        }
    }

    /// Stops the replay. The answer is whether there is a player that the host
    /// has to end.
    pub fn stop_playback(&mut self) -> (r: bool)
        ensures
            r == old(self)@.player,
            final(self)@ == old(self)@.silent(),
            old(self)@.wf() ==> final(self)@.wf(),
    {
        let playing: bool = self.player;
        self.player = false;
        playing
    }

    /// Looks after the player and the capture: `player_ended` is whether the
    /// player has ended or cannot be asked, `capture_error` is what the capture
    /// reports.
    pub fn poll(&mut self, player_ended: bool, capture_error: Option<String>, now: u64)
        requires
            old(self)@.capture && capture_error is Some ==> old(self)@.elapsed_at(now as nat)
                <= MAX_ELAPSED,
        ensures
            final(self)@ == old(self)@.poll(
                player_ended,
                crate::text::optional(capture_error),
                now as nat,
            ),
            player_ended ==> !final(self)@.player,
            old(self)@.wf() ==> final(self)@.wf(),
    {
        if self.player && player_ended {
            self.player = false;
        }
        if let Some(error) = capture_error {
            if self.capture {
                self.freeze_elapsed(now);
                self.capture = false;
                self.fail(error);
            }
        }
    }

    /// Takes leave of the recorder: whether the host has a player to end, and
    /// whether it has a capture to complete, in this order.
    pub fn close(self) -> (r: (bool, bool))
        ensures
            r == (self@.player, self@.capture),
    {
        (self.player, self.capture)
    }

    fn freeze_elapsed(&mut self, now: u64)
        requires
            old(self)@.elapsed_at(now as nat) <= MAX_ELAPSED,
        ensures
            final(self)@ == old(self)@.frozen(now as nat),
    {
        self.elapsed = self.elapsed(now);
        self.active_since = None;
    }

    fn fail(&mut self, error: String)
        ensures
            final(self)@ == old(self)@.failed(error@),
    {
        self.state = RecordingState::Failed;
        self.error = Some(error);
        self.active_since = None;
    }
}

impl Default for FridayRecorder {
    fn default() -> (r: FridayRecorder)
        ensures
            r@ == RecorderView::initial(),
            r@.wf(),
    {
        FridayRecorder::new()
    }
}

/// The whole seconds of a time in nanoseconds.
pub fn whole_seconds(nanoseconds: u128) -> (r: u64)
    requires
        nanoseconds <= MAX_ELAPSED,
    ensures
        r == nanoseconds / 1_000_000_000,
{
    (nanoseconds / 1_000_000_000) as u64
}

/// A request that the state does not admit is answered with a refusal and changes
/// nothing, whatever the outside would have done.
pub proof fn refused_requests_change_nothing(
    recorder: RecorderView,
    start: StartOutcome,
    play: PlayOutcome,
    outcome: Result<(), Seq<char>>,
    now: nat,
)
    ensures
        !allowed(recorder.state, RecordAction::Start) ==> recorder.start(start, now) == (
            recorder,
            Err::<(), Seq<char>>(refusal(recorder.state, RecordAction::Start)),
        ),
        !allowed(recorder.state, RecordAction::Pause) ==> recorder.pause(outcome, now) == (
            recorder,
            Err::<(), Seq<char>>(refusal(recorder.state, RecordAction::Pause)),
        ),
        !allowed(recorder.state, RecordAction::Resume) ==> recorder.resume(outcome, now) == (
            recorder,
            Err::<(), Seq<char>>(refusal(recorder.state, RecordAction::Resume)),
        ),
        !allowed(recorder.state, RecordAction::Finish) ==> recorder.finish(outcome, now) == (
            recorder,
            Err::<(), Seq<char>>(refusal(recorder.state, RecordAction::Finish)),
        ),
        !allowed(recorder.state, RecordAction::Play) ==> recorder.play(play) == (
            recorder,
            Err::<(), Seq<char>>(refusal(recorder.state, RecordAction::Play)),
        ),
{
}

/// What is not permitted is answered the same by the request itself, so a host
/// that asks first never does outside work for a request that fails without it.
pub proof fn permission_is_the_answer(
    recorder: RecorderView,
    start: StartOutcome,
    play: PlayOutcome,
    outcome: Result<(), Seq<char>>,
    now: nat,
)
    ensures
        recorder.permit(RecordAction::Start) is Err ==> recorder.start(start, now).1
            == recorder.permit(RecordAction::Start),
        recorder.permit(RecordAction::Pause) is Err ==> recorder.pause(outcome, now).1
            == recorder.permit(RecordAction::Pause),
        recorder.permit(RecordAction::Resume) is Err ==> recorder.resume(outcome, now).1
            == recorder.permit(RecordAction::Resume),
        recorder.permit(RecordAction::Finish) is Err ==> recorder.finish(outcome, now).1
            == recorder.permit(RecordAction::Finish),
        recorder.permit(RecordAction::Play) is Err ==> recorder.play(play).1 == recorder.permit(
            RecordAction::Play,
        ),
{
}

/// A capture that is opened after a recording was prepared finds no player, and a
/// player that was held is handed to the host to be ended. The preparation takes
/// nothing from the recording: it is admitted as before and goes as before.
pub proof fn capture_opens_in_silence(recorder: RecorderView, outcome: StartOutcome, now: nat)
    requires
        allowed(recorder.state, RecordAction::Start),
    ensures
        recorder.begin_start().1 == Ok::<bool, Seq<char>>(recorder.player),
        !recorder.begin_start().0.player,
        recorder.begin_start().0.permit(RecordAction::Start) is Ok,
        recorder.begin_start().0.start(outcome, now) == recorder.start(outcome, now),
        !recorder.start(outcome, now).0.player,
{
}

/// A player that is started after a replay was prepared is the only one, and the
/// one that was held is handed to the host to be ended. The preparation takes
/// nothing from the replay: it is admitted as before and goes as before.
pub proof fn replays_do_not_overlap(recorder: RecorderView, outcome: PlayOutcome)
    requires
        recorder.permit(RecordAction::Play) is Ok,
    ensures
        recorder.begin_play(true).1 == Ok::<bool, Seq<char>>(recorder.player),
        !recorder.begin_play(true).0.player,
        recorder.begin_play(true).0.permit(RecordAction::Play) is Ok,
        !(outcome is NoPlayer) ==> recorder.begin_play(true).0.play(outcome) == recorder.play(
            outcome,
        ),
        recorder.begin_play(false).0 == recorder,
        recorder.begin_play(false).1 is Err && recorder.begin_play(false).1->Err_0
            == recorder.play(PlayOutcome::NoPlayer).1->Err_0,
{
}

/// A sound recorder never lacks a session or a file that its state calls for: the
/// state alone decides what is permitted.
pub proof fn state_alone_decides(recorder: RecorderView, action: RecordAction)
    requires
        recorder.wf(),
    ensures
        recorder.permit(action) is Ok <==> allowed(recorder.state, action),
        !allowed(recorder.state, action) ==> recorder.permit(action) == Err::<(), Seq<char>>(
            refusal(recorder.state, action),
        ),
{
}

/// A sound recorder never captures and replays at the same time, holds a capture
/// exactly while a recording is under way, runs the clock exactly while it is not
/// paused, and says what went wrong after a failure.
pub proof fn sound_recorder(recorder: RecorderView)
    requires
        recorder.wf(),
    ensures
        !(recorder.capture && recorder.player),
        recorder.capture <==> recorder.state is Recording || recorder.state is Paused,
        recorder.active_since is Some <==> recorder.state is Recording,
        recorder.state is Failed ==> recorder.error is Some,
        recorder.player ==> recorder.state is Finished,
        recorder.state is Recording || recorder.state is Paused || recorder.state is Finished
            ==> recorder.path is Some,
{
}

/// The recorded time runs with the clock while a recording is under way, and
/// stands still in every other state.
pub proof fn time_runs_only_while_recording(recorder: RecorderView, a: nat, b: nat)
    requires
        recorder.wf(),
        a <= b,
    ensures
        !(recorder.state is Recording) ==> recorder.elapsed_at(a) == recorder.elapsed_at(b),
        recorder.state is Recording && recorder.active_since->0 <= a ==> recorder.elapsed_at(b)
            - recorder.elapsed_at(a) == b - a,
{
}

/// Neither a pause, nor its end, nor the end of the recording, nor a failure of
/// the capture moves the recorded time; only a new recording begins again at
/// zero.
pub proof fn requests_do_not_move_time(
    recorder: RecorderView,
    outcome: Result<(), Seq<char>>,
    path: String,
    ended: bool,
    error: Option<Seq<char>>,
    now: nat,
)
    requires
        recorder.wf(),
    ensures
        recorder.pause(outcome, now).0.elapsed_at(now) == recorder.elapsed_at(now),
        recorder.resume(outcome, now).0.elapsed_at(now) == recorder.elapsed_at(now),
        recorder.finish(outcome, now).0.elapsed_at(now) == recorder.elapsed_at(now),
        recorder.poll(ended, error, now).elapsed_at(now) == recorder.elapsed_at(now),
        allowed(recorder.state, RecordAction::Start) ==> recorder.start(
            StartOutcome::Capturing(path),
            now,
        ).0.elapsed_at(now) == 0,
{
}

/// A recording that is paused once and goes on counts both stretches and not the
/// pause, and ends as the finished recording of its file.
pub proof fn pauses_do_not_count(
    recorder: RecorderView,
    path: String,
    begun: nat,
    paused: nat,
    resumed: nat,
    finished: nat,
    later: nat,
)
    requires
        allowed(recorder.state, RecordAction::Start),
        begun <= paused <= resumed <= finished,
    ensures
        ({
            let first = recorder.start(StartOutcome::Capturing(path), begun);
            let second = first.0.pause(Ok(()), paused);
            let third = second.0.resume(Ok(()), resumed);
            let last = third.0.finish(Ok(()), finished);
            &&& first.1 is Ok && second.1 is Ok && third.1 is Ok && last.1 is Ok
            &&& last.0.state is Finished
            &&& last.0.path == Some(path@)
            &&& last.0.elapsed_at(later) == (paused - begun) + (finished - resumed)
        }),
{
}

/// The time of stretches, given by their ends.
pub open spec fn stretch_time(stretches: Seq<(nat, nat)>) -> int
    decreases stretches.len(),
{
    if stretches.len() == 0 {
        0
    } else {
        stretch_time(stretches.drop_last()) + (stretches.last().1 - stretches.last().0)
    }
}

/// A recorder that has recorded `stretches` into `path`, with a pause after each.
pub open spec fn recorded(
    recorder: RecorderView,
    path: String,
    stretches: Seq<(nat, nat)>,
) -> RecorderView
    decreases stretches.len(),
{
    let (begun, paused) = stretches.last();
    if stretches.len() <= 1 {
        recorder.start(StartOutcome::Capturing(path), begun).0.pause(Ok(()), paused).0
    } else {
        recorded(recorder, path, stretches.drop_last()).resume(Ok(()), begun).0.pause(
            Ok(()),
            paused,
        ).0
    }
}

/// However often a recording is paused, it counts its stretches and nothing of
/// the pauses, and can be finished as the recording of its file: at once, or after
/// a last stretch that no pause follows, which then counts too.
pub proof fn every_stretch_counts(
    recorder: RecorderView,
    path: String,
    stretches: Seq<(nat, nat)>,
    begun: nat,
    finished: nat,
    later: nat,
)
    requires
        allowed(recorder.state, RecordAction::Start),
        stretches.len() > 0,
        forall|i: int|
            0 <= i < stretches.len() ==> (#[trigger] stretches[i]).0 <= stretches[i].1,
    ensures
        recorded(recorder, path, stretches).state is Paused,
        recorded(recorder, path, stretches).elapsed_at(later) == stretch_time(stretches),
        ({
            let last = recorded(recorder, path, stretches).finish(Ok(()), finished);
            &&& last.1 is Ok
            &&& last.0.state is Finished
            &&& last.0.path == Some(path@)
            &&& last.0.elapsed_at(later) == stretch_time(stretches)
        }),
        begun <= finished ==> ({
            let going = recorded(recorder, path, stretches).resume(Ok(()), begun);
            let last = going.0.finish(Ok(()), finished);
            &&& going.1 is Ok
            &&& last.1 is Ok
            &&& last.0.state is Finished
            &&& last.0.path == Some(path@)
            &&& last.0.elapsed_at(later) == stretch_time(stretches) + (finished - begun)
        }),
    decreases stretches.len(),
{
    let front = stretches.drop_last();
    assert(stretches.last() == stretches[stretches.len() - 1]);
    if stretches.len() == 1 {
        assert(stretch_time(front) == 0);
    } else {
        assert forall|i: int| 0 <= i < front.len() implies (#[trigger] front[i]).0
            <= front[i].1 by {
            assert(front[i] == stretches[i]);
        }
        every_stretch_counts(recorder, path, front, begun, finished, stretches.last().0);
    }
}

/// A recording that was finished can be replayed, and a recorder that failed can
/// begin again.
pub proof fn endings_lead_on(recorder: RecorderView, outcome: Result<(), Seq<char>>, now: nat)
    requires
        recorder.wf(),
        allowed(recorder.state, RecordAction::Finish),
    ensures
        outcome is Ok ==> recorder.finish(outcome, now).0.permit(RecordAction::Play) is Ok,
        recorder.finish(outcome, now).0.permit(RecordAction::Start) is Ok,
{
}

/// A look that finds nothing changes nothing.
pub proof fn quiet_poll_changes_nothing(recorder: RecorderView, now: nat)
    ensures
        recorder.poll(false, None, now) == recorder,
{
}

/// A look that found the player ended leaves the recorder without a player, whatever
/// it held and whatever else the look found; one that found it running does not take
/// it away. Where the capture reports nothing, or there is none, nothing else changes.
pub proof fn ended_players_are_let_go(
    recorder: RecorderView,
    ended: bool,
    error: Option<Seq<char>>,
    now: nat,
)
    ensures
        !recorder.poll(true, error, now).player,
        recorder.poll(false, error, now).player == recorder.player,
        error is None || !recorder.capture ==> recorder.poll(ended, error, now) == (RecorderView {
            player: recorder.player && !ended,
            ..recorder
        }),
{
}

/// A capture that breaks down ends the recording: it is let go of, the time stands
/// where it was, the file is kept, and what went wrong is told.
pub proof fn broken_captures_end_the_recording(
    recorder: RecorderView,
    ended: bool,
    error: Seq<char>,
    now: nat,
    later: nat,
)
    requires
        recorder.capture,
    ensures
        ({
            let after = recorder.poll(ended, Some(error), now);
            &&& after.state is Failed
            &&& after.error == Some(error)
            &&& !after.capture
            &&& after.path == recorder.path
            &&& after.active_since is None
            &&& after.elapsed_at(later) == recorder.elapsed_at(now)
        }),
{
}

/// A new recording that is captured begins afresh, and its time runs with the clock.
/// One that is not captured fails with the error that is answered, and leaves the
/// last file and its time.
pub proof fn recordings_begin_afresh(
    recorder: RecorderView,
    outcome: StartOutcome,
    now: nat,
    passed: nat,
)
    requires
        recorder.wf(),
        allowed(recorder.state, RecordAction::Start),
    ensures
        ({
            let (after, answer) = recorder.start(outcome, now);
            &&& !after.player
            &&& answer is Ok <==> outcome is Capturing
            &&& after.state is Recording <==> outcome is Capturing
            &&& after.capture <==> outcome is Capturing
            &&& outcome matches StartOutcome::Capturing(path) ==> after.path == Some(path@)
                && after.error is None && after.elapsed_at(now + passed) == passed
            &&& outcome matches StartOutcome::NoPath(error) ==> answer == Err::<(), Seq<char>>(
                error@,
            )
            &&& outcome matches StartOutcome::NoCapture { path, error } ==> answer == Err::<
                (),
                Seq<char>,
            >(error@)
            &&& answer matches Err(error) ==> after.state is Failed && after.error == Some(error)
                && after.path == recorder.path && after.elapsed_at(now + passed)
                == recorder.elapsed_at(now)
        }),
{
}

/// The file that is removed is the one for which the microphone could not be
/// opened; none is removed where there was no file, or it is recorded into.
pub proof fn only_unused_files_are_removed(path: String, error: String)
    ensures
        (StartOutcome::NoCapture { path, error }).unused_file() == Some(path@),
        StartOutcome::NoPath(error).unused_file() is None,
        StartOutcome::Capturing(path).unused_file() is None,
{
}

/// A pause keeps the file, what was told, and what is held, and stops the time where
/// it is. A pause that fails only tells why, and the recording goes on.
pub proof fn pauses_only_stop_the_time(
    recorder: RecorderView,
    outcome: Result<(), Seq<char>>,
    now: nat,
    later: nat,
)
    requires
        recorder.wf(),
        allowed(recorder.state, RecordAction::Pause),
    ensures
        ({
            let (after, answer) = recorder.pause(outcome, now);
            &&& answer is Ok <==> outcome is Ok
            &&& outcome matches Err(error) ==> answer == Err::<(), Seq<char>>(error)
            &&& after.path == recorder.path && after.capture && !after.player
            &&& outcome is Ok ==> after.state is Paused && after.error == recorder.error
                && after.elapsed_at(later) == recorder.elapsed_at(now)
            &&& outcome matches Err(error) ==> after.state is Recording && after.error == Some(
                error,
            ) && after.elapsed_at(later) == recorder.elapsed_at(later)
        }),
{
}

/// The end of a pause keeps the file, what was told, and what is held, and lets the
/// time run on from where it stood. One that fails only tells why.
pub proof fn resuming_only_runs_the_time(
    recorder: RecorderView,
    outcome: Result<(), Seq<char>>,
    now: nat,
    passed: nat,
)
    requires
        recorder.wf(),
        allowed(recorder.state, RecordAction::Resume),
    ensures
        ({
            let (after, answer) = recorder.resume(outcome, now);
            &&& answer is Ok <==> outcome is Ok
            &&& outcome matches Err(error) ==> answer == Err::<(), Seq<char>>(error)
            &&& after.path == recorder.path && after.capture && !after.player
            &&& outcome is Ok ==> after.state is Recording && after.error == recorder.error
                && after.elapsed_at(now + passed) == recorder.elapsed_at(now) + passed
            &&& outcome matches Err(error) ==> after.state is Paused && after.error == Some(error)
                && after.elapsed_at(now + passed) == recorder.elapsed_at(now)
        }),
{
}

/// The end of a recording lets the capture go and stops the time, however it went,
/// and keeps the file. It is finished with nothing to tell, or has failed with the
/// error that is answered.
pub proof fn finishing_lets_the_capture_go(
    recorder: RecorderView,
    outcome: Result<(), Seq<char>>,
    now: nat,
    later: nat,
)
    requires
        recorder.wf(),
        allowed(recorder.state, RecordAction::Finish),
    ensures
        ({
            let (after, answer) = recorder.finish(outcome, now);
            &&& answer is Ok <==> outcome is Ok
            &&& outcome matches Err(error) ==> answer == Err::<(), Seq<char>>(error)
            &&& !after.capture && !after.player && after.path == recorder.path
            &&& after.elapsed_at(later) == recorder.elapsed_at(now)
            &&& outcome is Ok ==> after.state is Finished && after.error is None
            &&& outcome matches Err(error) ==> after.state is Failed && after.error == Some(error)
        }),
{
}

/// A replay changes nothing but whether a player is held: a new one is, one that
/// did not start is not, and without a player program everything stays.
pub proof fn replays_only_change_the_player(recorder: RecorderView, outcome: PlayOutcome)
    requires
        recorder.permit(RecordAction::Play) is Ok,
    ensures
        ({
            let (after, answer) = recorder.play(outcome);
            &&& answer is Ok <==> outcome is Playing
            &&& after == (RecorderView { player: after.player, ..recorder })
            &&& after.player <==> outcome is Playing || (outcome is NoPlayer && recorder.player)
            &&& outcome is NoPlayer ==> answer == Err::<(), Seq<char>>(
                "mpv not found; install it or set FRIDAY_MPV to its executable"@,
            )
            &&& outcome matches PlayOutcome::SpawnFailed(error) ==> answer == Err::<
                (),
                Seq<char>,
            >("cannot start mpv: "@ + error@)
        }),
        !recorder.silent().player,
        recorder == (RecorderView { player: recorder.player, ..recorder.silent() }),
{
}

/// What a recorder admits follows from what it holds: a new recording where none is
/// under way, a pause while the time runs, its end while a recording stands still,
/// the end of any recording under way, and a replay of one that ended well.
pub proof fn admission_follows_what_is_held(recorder: RecorderView)
    requires
        recorder.wf(),
    ensures
        allowed(recorder.state, RecordAction::Start) <==> !recorder.capture,
        allowed(recorder.state, RecordAction::Pause) <==> recorder.active_since is Some,
        allowed(recorder.state, RecordAction::Resume) <==> recorder.capture
            && recorder.active_since is None,
        allowed(recorder.state, RecordAction::Finish) <==> recorder.capture,
        allowed(recorder.state, RecordAction::Play) <==> !recorder.capture && recorder.path is Some
            && recorder.error is None,
{
}

/// The recorded time is what was recorded up to the last pause, and what has passed
/// since the capture went on, if it runs.
pub proof fn time_adds_what_has_passed(recorder: RecorderView, passed: nat, before: nat)
    ensures
        recorder.active_since is None ==> recorder.elapsed_at(passed) == recorder.elapsed,
        recorder.active_since matches Some(since) ==> recorder.elapsed_at(since + passed)
            == recorder.elapsed + passed,
        recorder.active_since matches Some(since) ==> before <= since ==> recorder.elapsed_at(
            before,
        ) == recorder.elapsed,
{
}

/// A request that lacks what it needs is refused by name, and one that is refused
/// for its state is told by its verb and the state.
pub proof fn refusals_say_why(recorder: RecorderView, action: RecordAction)
    ensures
        !allowed(recorder.state, action) ==> recorder.permit(action) == Err::<(), Seq<char>>(
            "cannot "@ + action.text() + " while recorder is "@ + recorder.state.text(),
        ),
        allowed(recorder.state, action) && (action is Pause || action is Resume || action is Finish)
            && !recorder.capture ==> recorder.permit(action) == Err::<(), Seq<char>>(
            "recording session is missing"@,
        ),
        allowed(recorder.state, action) && action is Play && recorder.path is None
            ==> recorder.permit(action) == Err::<(), Seq<char>>("no recording to play"@),
{
}

/// Verbs and adjectives of a refusal, letter by letter.
pub proof fn refusals_are_spelled_out()
    ensures
        RecordAction::Start.text() == seq!['s', 't', 'a', 'r', 't'],
        RecordAction::Pause.text() == seq!['p', 'a', 'u', 's', 'e'],
        RecordAction::Resume.text() == seq!['r', 'e', 's', 'u', 'm', 'e'],
        RecordAction::Finish.text() == seq!['f', 'i', 'n', 'i', 's', 'h'],
        RecordAction::Play.text() == seq!['p', 'l', 'a', 'y'],
        RecordingState::Idle.text() == seq!['i', 'd', 'l', 'e'],
        RecordingState::Recording.text() == seq!['r', 'e', 'c', 'o', 'r', 'd', 'i', 'n', 'g'],
        RecordingState::Paused.text() == seq!['p', 'a', 'u', 's', 'e', 'd'],
        RecordingState::Finished.text() == seq!['f', 'i', 'n', 'i', 's', 'h', 'e', 'd'],
        RecordingState::Failed.text() == seq!['f', 'a', 'i', 'l', 'e', 'd'],
{
    reveal_strlit("start");
    reveal_strlit("pause");
    reveal_strlit("resume");
    reveal_strlit("finish");
    reveal_strlit("play");
    reveal_strlit("idle");
    reveal_strlit("recording");
    reveal_strlit("paused");
    reveal_strlit("finished");
    reveal_strlit("failed");
}

/// The longest time that can be held is one nanosecond short of 2^64 seconds, so a
/// time that can be held has whole seconds of 64 bits.
pub proof fn longest_time_is_64_bits_of_seconds()
    ensures
        MAX_ELAPSED + 1 == (u64::MAX + 1) * 1_000_000_000,
{
}

/// A recording or a replay that is not permitted is refused before its outside work
/// with the same answer, and no player is given up for it.
pub proof fn refused_beginnings_change_nothing(recorder: RecorderView, found: bool)
    ensures
        recorder.permit(RecordAction::Start) matches Err(error) ==> recorder.begin_start() == (
            recorder,
            Err::<bool, Seq<char>>(error),
        ),
        recorder.permit(RecordAction::Play) matches Err(error) ==> recorder.begin_play(found) == (
            recorder,
            Err::<bool, Seq<char>>(error),
        ),
        recorder.begin_start().1 is Ok <==> recorder.permit(RecordAction::Start) is Ok,
        recorder.begin_play(found).1 is Ok <==> found && recorder.permit(RecordAction::Play) is Ok,
{
}

} // verus!
