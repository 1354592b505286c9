//! Capture: the recorder process that writes each stretch between two pauses
//! into a segment of its own, how it is stopped, and where its level is read.

use vstd::prelude::*;

use crate::naming::segment_file;
use crate::text::decimal_text;
use crate::wav::{CHANNELS, SAMPLE_RATE};

verus! {

/// How long a recorder process that was told to stop may take, in nanoseconds.
pub const STOP_GRACE: u64 = 500_000_000;

/// How long to sleep between two looks at a stopping process, in milliseconds.
pub const STOP_POLL_MILLIS: u64 = 10;

/// What a look at the recorder process found.
pub enum ChildPoll {
    /// It runs.
    Running,
    /// It ended, with this status.
    Exited(String),
    /// It could not be looked at, for this reason.
    Failed(String),
}

/// What to do next about a process that was told to stop.
pub enum StopStep {
    /// It has stopped.
    Stopped,
    /// Sleep, and look again.
    Sleep,
    /// End it by force; the capture failed with this error.
    Kill(String),
}

/// What a capture holds.
pub struct CaptureView {
    /// The recorder program.
    pub program: Seq<char>,
    /// The file name of the recording.
    pub path: Seq<char>,
    /// The file names of the segments, in the order of their capture.
    pub segments: Seq<Seq<char>>,
    /// Whether the host holds a recorder process for it.
    pub child: bool,
}

/// The texts of a list.
pub open spec fn texts(list: Seq<String>) -> Seq<Seq<char>> {
    list.map_values(|s: String| s@)
}

impl CaptureView {
    /// A capture that has not begun. `program` is what the host's environment
    /// names in place of `arecord`.
    pub open spec fn initial(path: Seq<char>, program: Option<Seq<char>>) -> CaptureView {
        CaptureView {
            program: match program {
                Some(name) => name,
                None => "arecord"@,
            },
            path,
            segments: Seq::empty(),
            child: false,
        }
    }

    /// The recording is a file name, its segments are numbered from zero, and a
    /// process writes into the last.
    pub open spec fn wf(self) -> bool {
        &&& crate::naming::is_file_name(self.path)
        &&& forall|i: int|
            0 <= i < self.segments.len() ==> #[trigger] self.segments[i]
                == crate::naming::segment_name(self.path, i as nat)
        &&& self.child ==> self.segments.len() > 0
    }

    /// The capture without its process.
    pub open spec fn ended(self) -> CaptureView {
        CaptureView { child: false, ..self }
    }

    /// The file name of the segment that would be captured next.
    pub open spec fn next_segment(self) -> Seq<char> {
        crate::naming::segment_name(self.path, self.segments.len())
    }

    /// A new segment: the capture afterwards, and the answer.
    pub open spec fn spawn_segment(self, outcome: Result<(), Seq<char>>) -> (
        CaptureView,
        Result<(), Seq<char>>,
    ) {
        match outcome {
            Ok(_) => (
                CaptureView {
                    segments: self.segments.push(self.next_segment()),
                    child: true,
                    ..self
                },
                Ok(()),
            ),
            Err(error) => (self, Err("cannot start "@ + self.program + ": "@ + error)),
        }
    }

    /// The first look at a process that is to be stopped: the capture
    /// afterwards, and whether to tell the process to stop.
    pub open spec fn stop_query(self, poll: ChildPoll) -> (CaptureView, Result<bool, Seq<char>>) {
        if !self.child {
            (self, Ok(false))
        } else {
            match poll {
                ChildPoll::Running => (self, Ok(true)),
                ChildPoll::Exited(status) => (
                    self.ended(),
                    Err("audio recorder stopped unexpectedly"@),
                ),
                ChildPoll::Failed(error) => (
                    self,
                    Err("cannot query audio recorder: "@ + error@),
                ),
            }
        }
    }

    /// A later look at a process that was told to stop: whether the host lets
    /// go of the process.
    pub open spec fn stop_wait(self, poll: ChildPoll, now: nat, deadline: nat) -> CaptureView {
        if poll is Running && now < deadline {
            self
        } else {
            self.ended()
        }
    }

    /// A look at a process that should be running: the capture afterwards, and
    /// what is wrong.
    pub open spec fn poll_error(self, poll: ChildPoll) -> (CaptureView, Option<Seq<char>>) {
        if !self.child {
            (self, None)
        } else {
            match poll {
                ChildPoll::Running => (self, None),
                ChildPoll::Exited(status) => (
                    self.ended(),
                    Some("audio recorder exited unexpectedly: "@ + status@),
                ),
                ChildPoll::Failed(error) => (
                    self,
                    Some("cannot query audio recorder: "@ + error@),
                ),
            }
        }
    }

    /// The file that the level is read from, if there is one.
    pub open spec fn level_source(self) -> Option<Seq<char>> {
        if self.child && self.segments.len() > 0 {
            Some(self.segments.last())
        } else {
            None
        }
    }
}

/// The step that a look at a process that was told to stop calls for.
pub open spec fn stop_step(step: StopStep, poll: ChildPoll, now: nat, deadline: nat) -> bool {
    match poll {
        ChildPoll::Exited(status) => step is Stopped,
        ChildPoll::Running => if now < deadline {
            step is Sleep
        } else {
            step matches StopStep::Kill(error) && error@ == "audio recorder did not stop cleanly"@
        },
        ChildPoll::Failed(cause) => step matches StopStep::Kill(error) && error@
            == "cannot finish recording: "@ + cause@,
    }
}

/// A microphone capture.
pub struct Capture {
    program: String,
    path: String,
    segments: Vec<String>,
    child: bool,
}

impl View for Capture {
    type V = CaptureView;

    closed spec fn view(&self) -> CaptureView {
        CaptureView {
            program: self.program@,
            path: self.path@,
            segments: texts(self.segments@),
            child: self.child,
        }
    }
}

impl Capture {
    /// A capture into the recording `path`, before its first segment. `program`
    /// is what the host's environment names in place of `arecord`.
    pub fn start(path: &str, program: Option<String>) -> (r: Capture)
        requires
            crate::naming::is_file_name(path@),
        ensures
            r@ == CaptureView::initial(path@, crate::text::optional(program)),
            r@.wf(),
    {
        let program: String = match program {
            Some(name) => name,
            None => "arecord".to_owned(),
        };
        let r = Capture { program, path: path.to_owned(), segments: Vec::new(), child: false };
        assert(texts(r.segments@) =~= Seq::<Seq<char>>::empty());
        r
    }

    /// The recorder program.
    pub fn program(&self) -> (r: &str)
        ensures
            r@ == self@.program,
    {
        self.program.as_str()
    }

    /// Whether there is a recorder process.
    pub fn is_running(&self) -> (r: bool)
        ensures
            r == self@.child,
    {
        self.child
    }

    /// The file names of the segments, in the order of their capture.
    pub fn segments(&self) -> (r: &Vec<String>)
        ensures
            texts(r@) == self@.segments,
    {
        &self.segments
    }

    /// The file name of the segment that would be captured next.
    pub fn next_segment(&self) -> (r: String)
        requires
            self@.wf(),
        ensures
            r@ == self@.next_segment(),
    {
        segment_file(self.path.as_str(), self.segments.len() as u64)
    }

    /// Begins the next segment. `outcome` is how the recorder process was
    /// started for it.
    pub fn spawn_segment(&mut self, outcome: Result<(), String>) -> (r: Result<(), String>)
        requires
            old(self)@.wf(),
        ensures
            (final(self)@, crate::text::answer(r)) == old(self)@.spawn_segment(
                crate::text::answer(outcome),
            ),
            final(self)@.wf(),
    {
        if let Err(error) = outcome {
            let mut message: String = "cannot start ".to_owned();
            message.append(self.program.as_str());
            message.append(": ");
            message.append(error.as_str());
            return Err(message);
        }
        let segment: String = self.next_segment();
        self.child = true;
        self.segments.push(segment);
        assert(texts(self.segments@) =~= texts(old(self).segments@).push(segment@));
        Ok(())
    }

    /// Begins to stop the process. `poll` is what a look at it found, and does
    /// not count where there is none. The answer is whether the host has to tell
    /// the process to stop.
    pub fn stop_query(&mut self, poll: ChildPoll) -> (r: Result<bool, String>)
        ensures
            final(self)@ == old(self)@.stop_query(poll).0,
            match r {
                Ok(signal) => old(self)@.stop_query(poll).1 == Ok::<bool, Seq<char>>(signal),
                Err(error) => old(self)@.stop_query(poll).1 == Err::<bool, Seq<char>>(error@),
            },
            old(self)@.wf() ==> final(self)@.wf(),
    {
        if !self.child {
            return Ok(false);
        }
        match poll {
            ChildPoll::Running => Ok(true),
            ChildPoll::Exited(_) => {
                self.child = false;
                Err("audio recorder stopped unexpectedly".to_owned())
            },
            ChildPoll::Failed(error) => {
                let mut message: String = "cannot query audio recorder: ".to_owned();
                message.append(error.as_str());
                Err(message)
            },
        }
    }

    /// Goes on stopping a process that was told to stop. Where the answer is not
    /// to sleep, the host lets go of the process.
    pub fn stop_wait(&mut self, poll: ChildPoll, now: u64, deadline: u64) -> (r: StopStep)
        ensures
            final(self)@ == old(self)@.stop_wait(poll, now as nat, deadline as nat),
            stop_step(r, poll, now as nat, deadline as nat),
            r is Sleep <==> poll is Running && now < deadline,
            r is Stopped <==> poll is Exited,
            old(self)@.wf() ==> final(self)@.wf(),
    {
        match poll {
            ChildPoll::Exited(_) => {
                self.child = false;
                StopStep::Stopped
            },
            ChildPoll::Running => if now < deadline {
                StopStep::Sleep
            } else {
                self.child = false;
                StopStep::Kill("audio recorder did not stop cleanly".to_owned())
            },
            ChildPoll::Failed(error) => {
                self.child = false;
                let mut message: String = "cannot finish recording: ".to_owned();
                message.append(error.as_str());
                StopStep::Kill(message)
            },
        }
    }

    /// Looks after a process that should be running: what is wrong with it.
    /// `poll` is what a look at it found, and does not count where there is none.
    pub fn poll_error(&mut self, poll: ChildPoll) -> (r: Option<String>)
        ensures
            (final(self)@, crate::text::optional(r)) == old(self)@.poll_error(poll),
            old(self)@.wf() ==> final(self)@.wf(),
    {
        if !self.child {
            return None;
        }
        match poll {
            ChildPoll::Running => None,
            ChildPoll::Exited(status) => {
                self.child = false;
                let mut message: String = "audio recorder exited unexpectedly: ".to_owned();
                message.append(status.as_str());
                Some(message)
            },
            ChildPoll::Failed(error) => {
                let mut message: String = "cannot query audio recorder: ".to_owned();
                message.append(error.as_str());
                Some(message)
            },
        }
    }

    /// The segment whose end the level is read from; none where nothing is being
    /// captured, and the level is zero.
    pub fn level_source(&self) -> (r: Option<&str>)
        ensures
            match r {
                Some(name) => self@.level_source() == Some(name@),
                None => self@.level_source() is None,
            },
    {
        if self.child && self.segments.len() > 0 {
            let last: &String = &self.segments[self.segments.len() - 1];
            assert(self@.segments.last() == last@);
            Some(last.as_str())
        } else {
            None
        }
    }

    /// Takes leave of the capture: whether the host has a process to end, and the
    /// segments that it then removes.
    pub fn release(self) -> (r: (bool, Vec<String>))
        ensures
            r.0 == self@.child,
            texts(r.1@) == self@.segments,
    {
        (self.child, self.segments)
    }
}

/// When a process that is told to stop at `now` has to have stopped.
pub fn stop_deadline(now: u64) -> (r: u64)
    requires
        now + STOP_GRACE <= u64::MAX,
    ensures
        r == now + STOP_GRACE,
{
    now + STOP_GRACE
}

/// The target of a signal to a recorder's process group, which the host is not
/// part of: the process id, taken as a signed number of 32 bits, negated.
pub fn process_group(pid: u32) -> (r: i32)
    requires
        pid != 0x8000_0000,
    ensures
        r == if pid < 0x8000_0000 {
            -(pid as int)
        } else {
            0x1_0000_0000 - pid as int
        },
        0 < pid < 0x8000_0000 ==> r < 0,
{
    if pid < 0x8000_0000 {
        -(pid as i32)
    } else {
        (0x1_0000_0000 - pid as i64) as i32
    }
}

/// The answer to telling a process to stop: `code` is what the system call
/// returned, `cause` the system's error.
pub fn signal_answer(code: i32, cause: &str) -> (r: Result<(), String>)
    ensures
        crate::text::answer(r) == if code == 0 {
            Ok(())
        } else {
            Err("cannot stop recording: "@ + cause@)
        },
{
    if code == 0 {
        Ok(())
    } else {
        let mut message: String = "cannot stop recording: ".to_owned();
        message.append(cause);
        Err(message)
    }
}

/// The arguments of the recorder program before the file: quietly, as a WAV file
/// of signed 16-bit samples, at the rate and with the channels of a recording.
pub open spec fn recorder_arguments() -> Seq<Seq<char>> {
    seq![
        "-q"@,
        "-t"@,
        "wav"@,
        "-f"@,
        "S16_LE"@,
        "-r"@,
        crate::text::decimal(SAMPLE_RATE as nat),
        "-c"@,
        crate::text::decimal(CHANNELS as nat),
    ]
}

/// The arguments of the recorder program, before the file that it writes.
pub fn arguments() -> (r: Vec<String>)
    ensures
        texts(r@) == recorder_arguments(),
{
    let mut list: Vec<String> = Vec::new();
    list.push("-q".to_owned());
    list.push("-t".to_owned());
    list.push("wav".to_owned());
    list.push("-f".to_owned());
    list.push("S16_LE".to_owned());
    list.push("-r".to_owned());
    list.push(decimal_text(SAMPLE_RATE as u64));
    list.push("-c".to_owned());
    list.push(decimal_text(CHANNELS as u64));
    assert(texts(list@) =~= recorder_arguments());
    list
}

/// A recording's own file is not among the segments that are removed in the end,
/// and no two segments share a file, whatever file name that takes an extension
/// the recording has.
pub proof fn segments_are_distinct(capture: CaptureView)
    requires
        capture.wf(),
        crate::naming::takes_extension(capture.path),
    ensures
        forall|i: int|
            0 <= i < capture.segments.len() ==> #[trigger] capture.segments[i] != capture.path,
        forall|i: int, j: int|
            0 <= i < j < capture.segments.len() ==> #[trigger] capture.segments[i]
                != #[trigger] capture.segments[j],
{
    assert forall|i: int| 0 <= i < capture.segments.len() implies #[trigger] capture.segments[i]
        != capture.path by {
        crate::naming::segments_have_their_own_files(capture.path, i as nat, (i + 1) as nat);
    }
    assert forall|i: int, j: int|
        0 <= i < j < capture.segments.len() implies #[trigger] capture.segments[i]
        != #[trigger] capture.segments[j] by {
        crate::naming::segments_have_their_own_files(capture.path, i as nat, j as nat);
    }
}

/// A process that was told to stop is let go of by its deadline at the latest,
/// whatever the looks at it find.
pub proof fn stopping_keeps_its_deadline(
    capture: CaptureView,
    poll: ChildPoll,
    now: nat,
    deadline: nat,
)
    requires
        deadline <= now,
    ensures
        !capture.stop_wait(poll, now, deadline).child,
        forall|step: StopStep| stop_step(step, poll, now, deadline) ==> !(step is Sleep),
{
}

/// A process that was told to stop is looked at a bounded number of times: where
/// each look comes at least a sleep after the one before, one of the first
/// fifty-one is no longer answered with sleep, whatever it finds.
pub proof fn stopping_takes_few_looks(
    now: nat,
    looks: Seq<nat>,
    polls: Seq<ChildPoll>,
    steps: Seq<StopStep>,
)
    requires
        looks.len() > 50,
        looks.len() == polls.len() == steps.len(),
        now <= looks[0],
        forall|i: int|
            0 <= i < looks.len() - 1 ==> (#[trigger] looks[i]) + STOP_POLL_MILLIS * 1_000_000
                <= looks[i + 1],
        forall|i: int|
            0 <= i < steps.len() ==> stop_step(
                #[trigger] steps[i],
                polls[i],
                looks[i],
                now + STOP_GRACE as nat,
            ),
    ensures
        exists|i: int| 0 <= i <= 50 && !(#[trigger] steps[i] is Sleep),
{
    lemma_looks_spread(now, looks, 50);
    assert(!(steps[50] is Sleep));
}

/// Looks with a sleep between them reach far.
proof fn lemma_looks_spread(now: nat, looks: Seq<nat>, i: int)
    requires
        0 <= i < looks.len(),
        now <= looks[0],
        forall|j: int|
            0 <= j < looks.len() - 1 ==> (#[trigger] looks[j]) + STOP_POLL_MILLIS * 1_000_000
                <= looks[j + 1],
    ensures
        now + i * 10_000_000 <= looks[i],
    decreases i,
{
    if i > 0 {
        lemma_looks_spread(now, looks, i - 1);
        assert(looks[i - 1] + STOP_POLL_MILLIS * 1_000_000 <= looks[i]);
    }
}

/// A capture after `count` stretches, each of which was begun and ended.
pub open spec fn captured(path: Seq<char>, program: Option<Seq<char>>, count: nat) -> CaptureView
    decreases count,
{
    if count == 0 {
        CaptureView::initial(path, program)
    } else {
        captured(path, program, (count - 1) as nat).spawn_segment(Ok(())).0.ended()
    }
}

/// Each stretch between two pauses has a segment of its own, in the order of the
/// stretches.
pub proof fn each_stretch_has_its_segment(
    path: Seq<char>,
    program: Option<Seq<char>>,
    count: nat,
)
    requires
        crate::naming::is_file_name(path),
    ensures
        captured(path, program, count).wf(),
        captured(path, program, count).path == path,
        captured(path, program, count).segments == Seq::new(
            count,
            |i: int| crate::naming::segment_name(path, i as nat),
        ),
    decreases count,
{
    if count > 0 {
        each_stretch_has_its_segment(path, program, (count - 1) as nat);
    }
}

/// The level is read from the segment that is being written.
pub proof fn level_follows_the_running_segment(
    capture: CaptureView,
    outcome: Result<(), Seq<char>>,
)
    requires
        outcome is Ok,
    ensures
        capture.spawn_segment(outcome).0.level_source() == Some(capture.next_segment()),
        capture.ended().level_source() is None,
{
}

/// A process that was told to stop and has ended has stopped, at whatever time. It
/// is ended by force only where it cannot be looked at, or still runs when its
/// deadline has come, and is slept on only where it still runs before that. The
/// host lets go of it unless it sleeps, and of nothing else.
pub proof fn stopping_follows_the_look(
    capture: CaptureView,
    step: StopStep,
    poll: ChildPoll,
    now: nat,
    deadline: nat,
)
    requires
        stop_step(step, poll, now, deadline),
    ensures
        step is Stopped <==> poll is Exited,
        step is Kill <==> poll is Failed || (poll is Running && deadline <= now),
        step is Sleep <==> poll is Running && now < deadline,
        poll is Running && step is Kill ==> step->Kill_0@ == "audio recorder did not stop cleanly"@,
        poll matches ChildPoll::Failed(cause) ==> step->Kill_0@ == "cannot finish recording: "@
            + cause@,
        capture.stop_wait(poll, now, deadline) == (CaptureView {
            child: capture.child && step is Sleep,
            ..capture
        }),
{
}

/// A process that is told to stop has half a second: it is slept on as long as it
/// runs within that time, and no longer.
pub proof fn grace_is_half_a_second(told: nat, now: nat, step: StopStep)
    requires
        stop_step(step, ChildPoll::Running, now, told + STOP_GRACE as nat),
    ensures
        step is Sleep <==> now < told + 500_000_000,
{
}

/// Stopping begins with a look. Only a process that runs is told to stop; one that
/// has ended on its own is let go of, and one that cannot be looked at is kept. A
/// capture without a process has nothing to stop, whatever the look would find.
pub proof fn stopping_begins_with_a_look(capture: CaptureView, poll: ChildPoll)
    ensures
        capture.stop_query(poll).1 == Ok::<bool, Seq<char>>(true) <==> capture.child
            && poll is Running,
        capture.stop_query(poll).1 == Ok::<bool, Seq<char>>(false) <==> !capture.child,
        capture.child && poll is Exited ==> capture.stop_query(poll).1 == Err::<bool, Seq<char>>(
            "audio recorder stopped unexpectedly"@,
        ),
        capture.child ==> (poll matches ChildPoll::Failed(cause) ==> capture.stop_query(poll).1
            == Err::<bool, Seq<char>>("cannot query audio recorder: "@ + cause@)),
        capture.stop_query(poll).0 == (CaptureView {
            child: capture.child && !(poll is Exited),
            ..capture
        }),
{
}

/// While a capture runs, a look finds fault exactly with a process that has ended or
/// cannot be looked at. Only one that has ended is let go of.
pub proof fn looks_find_fault(capture: CaptureView, poll: ChildPoll)
    ensures
        capture.poll_error(poll).1 is None <==> !capture.child || poll is Running,
        capture.child ==> (poll matches ChildPoll::Exited(status) ==> capture.poll_error(poll).1
            == Some("audio recorder exited unexpectedly: "@ + status@)),
        capture.child ==> (poll matches ChildPoll::Failed(cause) ==> capture.poll_error(poll).1
            == Some("cannot query audio recorder: "@ + cause@)),
        capture.poll_error(poll).0 == (CaptureView {
            child: capture.child && !(poll is Exited),
            ..capture
        }),
{
}

/// A process that starts adds the next segment behind those that are there and is
/// held. One that does not start changes nothing, and the answer names the program
/// and the cause.
pub proof fn segments_begin_with_their_process(capture: CaptureView, cause: Seq<char>)
    ensures
        capture.spawn_segment(Ok(())).1 is Ok,
        capture.spawn_segment(Ok(())).0 == (CaptureView {
            segments: capture.segments + seq![
                crate::naming::segment_name(capture.path, capture.segments.len()),
            ],
            child: true,
            ..capture
        }),
        capture.spawn_segment(Err(cause)) == (
            capture,
            Err::<(), Seq<char>>("cannot start "@ + capture.program + ": "@ + cause),
        ),
        capture.next_segment() == crate::naming::segment_name(
            capture.path,
            capture.segments.len(),
        ),
{
    assert(capture.spawn_segment(Ok(())).0.segments =~= capture.segments + seq![
        crate::naming::segment_name(capture.path, capture.segments.len()),
    ]);
}

/// A capture begins without segments and without a process, and records with the
/// program that the environment names, or with `arecord`.
pub proof fn captures_begin_empty(path: Seq<char>, program: Seq<char>)
    ensures
        CaptureView::initial(path, Some(program)).program == program,
        CaptureView::initial(path, None).program == "arecord"@,
        CaptureView::initial(path, Some(program)).path == path,
        CaptureView::initial(path, None).path == path,
        CaptureView::initial(path, Some(program)).segments.len() == 0,
        CaptureView::initial(path, None).segments.len() == 0,
        !CaptureView::initial(path, Some(program)).child,
        !CaptureView::initial(path, None).child,
{
}

/// The level is read from the last segment while there is a process, and from none
/// else.
pub proof fn level_needs_a_process(capture: CaptureView)
    requires
        capture.wf(),
    ensures
        capture.level_source() is Some <==> capture.child,
        capture.level_source() matches Some(name) ==> name
            == capture.segments[capture.segments.len() - 1],
{
}

/// The texts of a list are its texts, each in its place.
pub proof fn lists_keep_their_texts(list: Seq<String>, i: int)
    requires
        0 <= i < list.len(),
    ensures
        texts(list).len() == list.len(),
        texts(list)[i] == list[i]@,
{
}

} // verus!
