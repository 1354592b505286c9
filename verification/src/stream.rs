//! Capture from a sample stream: the host hands blocks of samples over as they
//! arrive and writes them into the file of the recording itself.

use vstd::prelude::*;

use crate::meter::Meter;

verus! {

/// What the host finds where it keeps the file of the recording.
pub enum WriterSlot {
    /// It cannot be reached: another thread died while it held it.
    Poisoned,
    /// The file is closed.
    Closed,
    /// The file is open.
    Open,
}

/// How the file of the recording was closed.
pub enum WriterClose {
    /// It could not be reached: another thread died while it held it.
    Poisoned,
    /// It was closed before.
    Absent,
    /// It is complete.
    Finalized,
    /// It could not be completed.
    Failed(String),
}

/// What can go wrong with the microphone or with the file that is recorded into.
pub enum StreamFault {
    /// The system is not one whose microphone can be recorded.
    Unsupported,
    /// There is none.
    NoDevice,
    /// Its format could not be asked for.
    Config(String),
    /// The file of the recording could not be made.
    Create(String),
    /// The file of the recording could not be written.
    Write(String),
    /// Its format is not one that is known.
    Format(String),
    /// It could not be opened.
    Open(String),
    /// It could not be started.
    Start(String),
    /// It broke down.
    Stream(String),
}

impl StreamFault {
    /// The fault in words.
    pub open spec fn text(self) -> Seq<char> {
        match self {
            StreamFault::Unsupported => "audio recording is supported on Windows and Linux"@,
            StreamFault::NoDevice => "no input audio device found"@,
            StreamFault::Config(cause) => "cannot read microphone config: "@ + cause@,
            StreamFault::Create(cause) => "cannot create recording: "@ + cause@,
            StreamFault::Write(cause) => "cannot write recording: "@ + cause@,
            StreamFault::Format(name) => "unsupported microphone sample format: "@ + name@,
            StreamFault::Open(cause) => "cannot open microphone: "@ + cause@,
            StreamFault::Start(cause) => "cannot start microphone: "@ + cause@,
            StreamFault::Stream(cause) => "microphone failed: "@ + cause@,
        }
    }

    /// The fault in words.
    pub fn message(&self) -> (r: String)
        ensures
            r@ == self.text(),
    {
        let (fault, cause): (&str, &str) = match self {
            StreamFault::Unsupported => return "audio recording is supported on Windows and Linux"
                .to_owned(),
            StreamFault::NoDevice => return "no input audio device found".to_owned(),
            StreamFault::Config(cause) => ("cannot read microphone config: ", cause.as_str()),
            StreamFault::Create(cause) => ("cannot create recording: ", cause.as_str()),
            StreamFault::Write(cause) => ("cannot write recording: ", cause.as_str()),
            StreamFault::Format(name) => ("unsupported microphone sample format: ", name.as_str()),
            StreamFault::Open(cause) => ("cannot open microphone: ", cause.as_str()),
            StreamFault::Start(cause) => ("cannot start microphone: ", cause.as_str()),
            StreamFault::Stream(cause) => ("microphone failed: ", cause.as_str()),
        };
        let mut message: String = fault.to_owned();
        message.append(cause);
        message
    }
}

/// Keeps `message` as what last went wrong.
pub fn set_error(slot: &mut Option<String>, message: String)
    ensures
        *final(slot) == Some(message),
{
    *slot = Some(message);
}

/// Whether a block of samples is to be written: not while the capture is paused,
/// and only into an open file. `error` is where the stream keeps what went wrong.
pub fn begin_block(writing: bool, slot: WriterSlot, error: &mut Option<String>) -> (r: bool)
    ensures
        r == (writing && slot is Open),
        crate::text::optional(*final(error)) == if writing && slot is Poisoned {
            Some("recording writer lock poisoned"@)
        } else {
            crate::text::optional(*old(error))
        },
{
    if !writing {
        return false;
    }
    match slot {
        WriterSlot::Poisoned => {
            set_error(error, "recording writer lock poisoned".to_owned());
            false
        },
        WriterSlot::Closed => false,
        WriterSlot::Open => true,
    }
}

/// What a block of samples has come to so far.
pub struct BlockView {
    /// The samples that count for the level.
    pub seen: Seq<i16>,
    /// Whether the capture goes on writing.
    pub writing: bool,
    /// What the stream ran into.
    pub error: Option<Seq<char>>,
}

impl BlockView {
    /// The block after one more sample, by how writing it went.
    pub open spec fn written(self, sample: i16, outcome: Result<(), Seq<char>>) -> BlockView {
        match outcome {
            Ok(_) => BlockView { seen: self.seen.push(sample), ..self },
            Err(cause) => BlockView {
                seen: self.seen.push(sample),
                writing: false,
                error: Some("cannot write recording: "@ + cause),
            },
        }
    }

    /// The block after all its samples, or after the first that could not be
    /// written.
    pub open spec fn run(
        self,
        samples: Seq<i16>,
        outcomes: Seq<Result<(), Seq<char>>>,
    ) -> BlockView
        decreases samples.len(),
    {
        if samples.len() == 0 {
            self
        } else {
            let next = self.written(samples[0], outcomes[0]);
            if outcomes[0] is Ok {
                next.run(samples.skip(1), outcomes.skip(1))
            } else {
                next
            }
        }
    }
}

/// A block whose samples are all written counts all of them and leaves the
/// capture as it was.
pub proof fn whole_blocks_count(
    block: BlockView,
    samples: Seq<i16>,
    outcomes: Seq<Result<(), Seq<char>>>,
)
    requires
        outcomes.len() == samples.len(),
        forall|i: int| 0 <= i < outcomes.len() ==> #[trigger] outcomes[i] is Ok,
    ensures
        block.run(samples, outcomes) == (BlockView { seen: block.seen + samples, ..block }),
    decreases samples.len(),
{
    if samples.len() == 0 {
        assert(block.seen + samples =~= block.seen);
    } else {
        assert(outcomes[0] is Ok);
        let next = block.written(samples[0], outcomes[0]);
        assert forall|i: int| 0 <= i < outcomes.skip(1).len() implies #[trigger] outcomes.skip(1)[i]
            is Ok by {
            assert(outcomes.skip(1)[i] == outcomes[i + 1]);
        }
        whole_blocks_count(next, samples.skip(1), outcomes.skip(1));
        assert(next.seen + samples.skip(1) =~= block.seen + samples);
    }
}

/// The first sample that cannot be written ends the block and the writing. It
/// still counts, nothing after it does, and its cause is what is reported.
pub proof fn first_failure_ends_the_block(
    block: BlockView,
    samples: Seq<i16>,
    outcomes: Seq<Result<(), Seq<char>>>,
    first: int,
)
    requires
        outcomes.len() == samples.len(),
        0 <= first < outcomes.len(),
        forall|i: int| 0 <= i < first ==> #[trigger] outcomes[i] is Ok,
        outcomes[first] is Err,
    ensures
        block.run(samples, outcomes) == (BlockView {
            seen: block.seen + samples.take(first + 1),
            writing: false,
            error: Some("cannot write recording: "@ + outcomes[first]->Err_0),
        }),
    decreases first,
{
    let next = block.written(samples[0], outcomes[0]);
    if first == 0 {
        assert(next.seen =~= block.seen + samples.take(1));
    } else {
        assert(outcomes[0] is Ok);
        assert forall|i: int| 0 <= i < first - 1 implies #[trigger] outcomes.skip(1)[i] is Ok by {
            assert(outcomes.skip(1)[i] == outcomes[i + 1]);
        }
        first_failure_ends_the_block(next, samples.skip(1), outcomes.skip(1), first - 1);
        assert(next.seen + samples.skip(1).take(first) =~= block.seen + samples.take(first + 1));
    }
}

/// Takes a sample that was handed to the file into account. `outcome` is how
/// writing it went; a failure ends the block and the writing altogether. The
/// answer is whether the block goes on. The sample counts either way.
pub fn sample_written(
    meter: &mut Meter,
    sample: i16,
    outcome: Result<(), String>,
    writing: &mut bool,
    error: &mut Option<String>,
) -> (r: bool)
    requires
        old(meter).wf(),
        old(meter)@.len() < usize::MAX,
    ensures
        final(meter).wf(),
        (BlockView {
            seen: final(meter)@,
            writing: *final(writing),
            error: crate::text::optional(*final(error)),
        }) == (BlockView {
            seen: old(meter)@,
            writing: *old(writing),
            error: crate::text::optional(*old(error)),
        }).written(sample, crate::text::answer(outcome)),
        r == (outcome is Ok),
{
    meter.add(sample);
    match outcome {
        Ok(_) => true,
        Err(cause) => {
            *writing = false;
            let mut message: String = "cannot write recording: ".to_owned();
            message.append(cause.as_str());
            set_error(error, message);
            false
        },
    }
}

/// The answer to the end of a capture. What went wrong with the file itself
/// comes before `error`, what the stream ran into.
pub fn finish_answer(error: Option<String>, close: WriterClose) -> (r: Result<(), String>)
    ensures
        crate::text::answer(r) == match close {
            WriterClose::Poisoned => Err("recording writer lock poisoned"@),
            WriterClose::Failed(cause) => Err("cannot finish recording: "@ + cause@),
            _ => match error {
                Some(message) => Err(message@),
                None => Ok(()),
            },
        },
{
    match close {
        WriterClose::Poisoned => Err("recording writer lock poisoned".to_owned()),
        WriterClose::Failed(cause) => {
            let mut message: String = "cannot finish recording: ".to_owned();
            message.append(cause.as_str());
            Err(message)
        },
        _ => match error {
            Some(message) => Err(message),
            None => Ok(()),
        },
    }
}

/// Taking one sample is running a block of one.
pub proof fn a_sample_is_a_block_of_one(
    block: BlockView,
    sample: i16,
    outcome: Result<(), Seq<char>>,
)
    ensures
        block.written(sample, outcome).seen == block.seen + seq![sample],
        outcome is Ok ==> block.written(sample, outcome).writing == block.writing
            && block.written(sample, outcome).error == block.error,
        outcome matches Err(cause) ==> !block.written(sample, outcome).writing && block.written(
            sample,
            outcome,
        ).error == Some("cannot write recording: "@ + cause),
        block.run(seq![sample], seq![outcome]) == block.written(sample, outcome),
{
    assert(block.written(sample, outcome).seen =~= block.seen + seq![sample]);
    reveal_with_fuel(BlockView::run, 2);
}

/// A fault is told by what failed, followed by its cause as it was given.
pub proof fn faults_end_with_their_cause(cause: String)
    ensures
        StreamFault::Config(cause).text() == "cannot read microphone config: "@ + cause@,
        StreamFault::Create(cause).text() == "cannot create recording: "@ + cause@,
        StreamFault::Write(cause).text() == "cannot write recording: "@ + cause@,
        StreamFault::Format(cause).text() == "unsupported microphone sample format: "@ + cause@,
        StreamFault::Open(cause).text() == "cannot open microphone: "@ + cause@,
        StreamFault::Start(cause).text() == "cannot start microphone: "@ + cause@,
        StreamFault::Stream(cause).text() == "microphone failed: "@ + cause@,
{
}

} // verus!
