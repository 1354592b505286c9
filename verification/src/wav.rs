//! WAV files in memory: reading the samples of captured segments and writing
//! the finished recording.

use vstd::prelude::*;

verus! {

/// `hound::WavReader`: a WAV file that is being read.
#[verifier::external_type_specification]
#[verifier::external_body]
#[verifier::reject_recursive_types(R)]
pub struct ExWavReader<R>(hound::WavReader<R>);

/// What `hound` makes of the bytes of a WAV file when 16-bit samples are asked
/// for: the text of its error where it does not accept the header, and else each
/// sample, or the text of the error in its place.
pub uninterp spec fn decoded_wav(bytes: Seq<u8>) -> Result<
    Seq<Result<i16, Seq<char>>>,
    Seq<char>,
>;

/// The samples that a WAV reader has still to hand out.
pub uninterp spec fn pending_samples(reader: hound::WavReader<&[u8]>) -> Seq<
    Result<i16, Seq<char>>,
>;

/// `hound::WavReader::new`: reads the header, and fails as the bytes decide.
#[verifier::external_body]
fn open_wav(bytes: &[u8]) -> (r: Result<hound::WavReader<&[u8]>, String>)
    ensures
        match r {
            Ok(reader) => decoded_wav(bytes@) == Ok::<_, Seq<char>>(pending_samples(reader)),
            Err(error) => decoded_wav(bytes@) == Err::<Seq<Result<i16, Seq<char>>>, _>(error@),
        },
{
    hound::WavReader::new(bytes).map_err(|error| error.to_string())
}

/// `hound::WavReader::samples` and the first step of its iterator: hands out the
/// next sample, or the error that stands in its place, until none is left.
#[verifier::external_body]
fn next_sample(reader: &mut hound::WavReader<&[u8]>) -> (r: Option<Result<i16, String>>)
    ensures
        match r {
            Some(item) => {
                &&& pending_samples(*old(reader)).len() > 0
                &&& pending_samples(*old(reader))[0] == match item {
                    Ok(sample) => Ok::<i16, Seq<char>>(sample),
                    Err(error) => Err::<i16, Seq<char>>(error@),
                }
                &&& pending_samples(*final(reader)) == pending_samples(*old(reader)).skip(1)
            },
            None => pending_samples(*old(reader)).len() == 0 && pending_samples(*final(reader))
                == pending_samples(*old(reader)),
        },
{
    reader.samples::<i16>().next().map(|item| item.map_err(|error| error.to_string()))
}

/// The channels of a recording.
pub const CHANNELS: u16 = 1;

/// The samples per second of a recording.
pub const SAMPLE_RATE: u32 = 16_000;

/// The bits per sample of a recording.
pub const BITS_PER_SAMPLE: u16 = 16;

/// The most samples that one recording can hold: the file names its own length,
/// less eight bytes, in 32 bits, and 36 of them belong to the header.
pub const MAX_SAMPLES: u64 = 2_147_483_629;

/// A number in two bytes, the lower one first.
pub open spec fn le16(n: nat) -> Seq<u8> {
    seq![(n % 256) as u8, (n / 256 % 256) as u8]
}

/// A number in four bytes, the lowest one first.
pub open spec fn le32(n: nat) -> Seq<u8> {
    le16(n % 65536) + le16(n / 65536 % 65536)
}

/// Samples in two bytes each, in two's complement.
pub open spec fn sample_bytes(samples: Seq<i16>) -> Seq<u8>
    decreases samples.len(),
{
    if samples.len() == 0 {
        Seq::empty()
    } else {
        sample_bytes(samples.drop_last()) + le16((samples.last() as int % 65536) as nat)
    }
}

/// A WAV file of one channel with 16-bit samples: the header of 44 bytes, then
/// the samples.
pub open spec fn wav_bytes(samples: Seq<i16>, sample_rate: nat) -> Seq<u8> {
    let length = 2 * samples.len();
    // RIFF, the length of what follows, WAVE
    let file = seq![0x52u8, 0x49, 0x46, 0x46] + le32(36 + length) + seq![
        0x57u8,
        0x41,
        0x56,
        0x45,
    ];
    // "fmt ", the length of this part, PCM, one channel, the rates, the sizes
    let format = seq![0x66u8, 0x6d, 0x74, 0x20] + le32(16) + le16(1) + le16(1) + le32(sample_rate)
        + le32(2 * sample_rate) + le16(2) + le16(16);
    // "data", the length of the samples, the samples
    let data = seq![0x64u8, 0x61, 0x74, 0x61] + le32(length) + sample_bytes(samples);
    file + format + data
}

/// Samples as a reader hands them out where none is damaged.
pub open spec fn intact(samples: Seq<i16>) -> Seq<Result<i16, Seq<char>>> {
    samples.map_values(|sample: i16| Ok::<i16, Seq<char>>(sample))
}

/// `hound::WavWriter::new`, `write_sample` for each sample, and `finalize`, into
/// memory: writes the header, the samples, and then the lengths into the header.
/// One channel of 16-bit samples is a format that it supports, memory takes
/// every byte, and the lengths fit by the bound on the samples, so it does not
/// fail. `hound::WavReader` reads the same samples back out of the file.
#[verifier::external_body]
fn encode_wav(samples: &[i16], channels: u16, sample_rate: u32, bits_per_sample: u16) -> (r: Result<
    Vec<u8>,
    String,
>)
    requires
        channels == 1,
        bits_per_sample == 16,
        0 < sample_rate <= 0x7fff_ffff,
        samples@.len() <= MAX_SAMPLES,
    ensures
        match r {
            Ok(bytes) => bytes@ == wav_bytes(samples@, sample_rate as nat) && decoded_wav(bytes@)
                == Ok::<_, Seq<char>>(intact(samples@)),
            Err(_) => false,
        },
{
    let sample_format = hound::SampleFormat::Int;
    let spec = hound::WavSpec { channels, sample_rate, bits_per_sample, sample_format };
    let mut file = std::io::Cursor::new(Vec::new());
    let mut writer = hound::WavWriter::new(&mut file, spec).map_err(|error| error.to_string())?;
    for sample in samples {
        writer.write_sample(*sample).map_err(|error| error.to_string())?;
    }
    writer.finalize().map_err(|error| error.to_string())?;
    Ok(file.into_inner())
}

/// The samples up to the first damaged one, and whether there was one.
pub open spec fn readable(items: Seq<Result<i16, Seq<char>>>) -> (
    Seq<i16>,
    Result<(), Seq<char>>,
)
    decreases items.len(),
{
    if items.len() == 0 {
        (Seq::empty(), Ok(()))
    } else {
        match items[0] {
            Err(error) => (Seq::empty(), Err("cannot read recording sample: "@ + error)),
            Ok(sample) => {
                let rest = readable(items.skip(1));
                (seq![sample] + rest.0, rest.1)
            },
        }
    }
}

/// What a segment adds to the recording: `read` holds the bytes of its file, or
/// why they could not be had.
pub open spec fn segment_part(read: Result<Vec<u8>, String>) -> (
    Seq<i16>,
    Result<(), Seq<char>>,
) {
    match read {
        Err(error) => (Seq::empty(), Err("cannot read recording segment: "@ + error@)),
        Ok(bytes) => match decoded_wav(bytes@) {
            Err(error) => (Seq::empty(), Err("cannot read recording segment: "@ + error)),
            Ok(items) => readable(items),
        },
    }
}

/// The recording that segments make up, in their order: the samples up to the
/// first thing that cannot be read, and what that was.
pub open spec fn merged(reads: Seq<Result<Vec<u8>, String>>) -> (
    Seq<i16>,
    Result<(), Seq<char>>,
)
    decreases reads.len(),
{
    if reads.len() == 0 {
        (Seq::empty(), Ok(()))
    } else {
        let first = segment_part(reads[0]);
        if first.1 is Err {
            first
        } else {
            let rest = merged(reads.skip(1));
            (first.0 + rest.0, rest.1)
        }
    }
}

/// Appends the samples that a segment adds.
fn append_segment(samples: &mut Vec<i16>, read: &Result<Vec<u8>, String>) -> (r: Result<(), String>)
    ensures
        final(samples)@ == old(samples)@ + segment_part(*read).0,
        crate::text::answer(r) == segment_part(*read).1,
{
    let opened = match read {
        Ok(bytes) => open_wav(bytes.as_slice()),
        Err(error) => Err(error.clone()),
    };
    let mut reader = match opened {
        Ok(reader) => reader,
        Err(error) => {
            let mut message: String = "cannot read recording segment: ".to_owned();
            message.append(error.as_str());
            return Err(message);
        },
    };
    let ghost items = pending_samples(reader);
    loop
        invariant
            segment_part(*read) == readable(items),
            old(samples)@ + readable(items).0 == samples@ + readable(pending_samples(reader)).0,
            readable(items).1 == readable(pending_samples(reader)).1,
        ensures
            samples@ == old(samples)@ + readable(items).0,
            readable(items).1 is Ok,
        decreases pending_samples(reader).len(),
    {
        let ghost before = pending_samples(reader);
        match next_sample(&mut reader) {
            Some(Ok(sample)) => {
                let ghost taken = samples@;
                samples.push(sample);
                assert(samples@ + readable(before.skip(1)).0 =~= taken + readable(before).0);
            },
            Some(Err(error)) => {
                let mut message: String = "cannot read recording sample: ".to_owned();
                message.append(error.as_str());
                assert(samples@ =~= samples@ + readable(before).0);
                return Err(message);
            },
            None => {
                assert(samples@ =~= samples@ + readable(before).0);
                break;
            },
        }
    }
    Ok(())
}

/// Puts the segments of a recording together, in their order. `reads` holds the
/// bytes of each segment's file, or why they could not be had. The samples up to
/// the first thing that cannot be read are kept.
pub fn merge_segments(reads: &Vec<Result<Vec<u8>, String>>) -> (r: (Vec<i16>, Result<(), String>))
    ensures
        (r.0@, crate::text::answer(r.1)) == merged(reads@),
{
    let mut samples: Vec<i16> = Vec::new();
    let mut i: usize = 0;
    assert(reads@.skip(0) =~= reads@);
    assert(samples@ + merged(reads@).0 =~= merged(reads@).0);
    while i < reads.len()
        invariant
            i <= reads@.len(),
            samples@ + merged(reads@.skip(i as int)).0 == merged(reads@).0,
            merged(reads@.skip(i as int)).1 == merged(reads@).1,
        decreases reads.len() - i,
    {
        let ghost rest = reads@.skip(i as int);
        let ghost before = samples@;
        assert(rest[0] == reads@[i as int]);
        assert(rest.skip(1) =~= reads@.skip(i + 1));
        if let Err(error) = append_segment(&mut samples, &reads[i]) {
            return (samples, Err(error));
        }
        assert(samples@ + merged(rest.skip(1)).0 =~= before + merged(rest).0);
        i = i + 1;
    }
    assert(samples@ + merged(reads@.skip(i as int)).0 =~= samples@);
    (samples, Ok(()))
}

/// The file of a recording.
pub fn recording_file(samples: &Vec<i16>) -> (r: Vec<u8>)
    requires
        samples@.len() <= MAX_SAMPLES,
    ensures
        r@ == wav_bytes(samples@, SAMPLE_RATE as nat),
        decoded_wav(r@) == Ok::<_, Seq<char>>(intact(samples@)),
{
    match encode_wav(samples.as_slice(), CHANNELS, SAMPLE_RATE, BITS_PER_SAMPLE) {
        Ok(bytes) => bytes,
        Err(_) => Vec::new(),
    }
}

/// Completes a recording out of its segments: its file, and whether every
/// segment went into it whole. Where a segment cannot be read, the file ends
/// before it. None where the samples exceed what a file can hold.
pub fn finish_recording(reads: &Vec<Result<Vec<u8>, String>>) -> (r: Option<
    (Vec<u8>, Result<(), String>),
>)
    ensures
        match r {
            Some(done) => {
                &&& merged(reads@).0.len() <= MAX_SAMPLES
                &&& done.0@ == wav_bytes(merged(reads@).0, SAMPLE_RATE as nat)
                &&& decoded_wav(done.0@) == Ok::<_, Seq<char>>(intact(merged(reads@).0))
                &&& crate::text::answer(done.1) == merged(reads@).1
            },
            None => merged(reads@).0.len() > MAX_SAMPLES,
        },
{
    let (samples, result) = merge_segments(reads);
    if samples.len() as u64 > MAX_SAMPLES {
        None
    } else {
        Some((recording_file(&samples), result))
    }
}

/// All samples of segments that are read without damage, one after the other.
pub open spec fn joined(segments: Seq<Seq<i16>>) -> Seq<i16>
    decreases segments.len(),
{
    if segments.len() == 0 {
        Seq::empty()
    } else {
        segments[0] + joined(segments.skip(1))
    }
}

/// Samples that are read without damage are all kept.
pub proof fn intact_samples_are_readable(samples: Seq<i16>)
    ensures
        readable(intact(samples)) == (samples, Ok::<(), Seq<char>>(())),
    decreases samples.len(),
{
    if samples.len() > 0 {
        intact_samples_are_readable(samples.skip(1));
        assert(intact(samples).skip(1) =~= intact(samples.skip(1)));
        assert(seq![samples[0]] + samples.skip(1) =~= samples);
    } else {
        assert(samples =~= Seq::<i16>::empty());
    }
}

/// Segments that can all be read make up a recording of exactly their samples,
/// in the order in which they were captured.
pub proof fn recording_joins_its_segments(
    reads: Seq<Result<Vec<u8>, String>>,
    segments: Seq<Seq<i16>>,
)
    requires
        reads.len() == segments.len(),
        forall|i: int|
            0 <= i < reads.len() ==> (#[trigger] reads[i]) is Ok && decoded_wav(reads[i]->Ok_0@)
                == Ok::<_, Seq<char>>(intact(segments[i])),
    ensures
        merged(reads) == (joined(segments), Ok::<(), Seq<char>>(())),
    decreases reads.len(),
{
    if reads.len() > 0 {
        assert(reads[0] is Ok);
        intact_samples_are_readable(segments[0]);
        assert forall|i: int| 0 <= i < reads.skip(1).len() implies (#[trigger] reads.skip(1)[i])
            is Ok && decoded_wav(reads.skip(1)[i]->Ok_0@) == Ok::<_, Seq<char>>(
            intact(segments.skip(1)[i]),
        ) by {
            assert(reads.skip(1)[i] == reads[i + 1]);
        }
        recording_joins_its_segments(reads.skip(1), segments.skip(1));
    }
}

/// Every sample takes two bytes.
pub proof fn samples_take_two_bytes(samples: Seq<i16>)
    ensures
        sample_bytes(samples).len() == 2 * samples.len(),
    decreases samples.len(),
{
    if samples.len() > 0 {
        samples_take_two_bytes(samples.drop_last());
    }
}

/// The two bytes of a sample count it modulo 2^16, the first for ones and the second
/// for two hundred and fifty-sixes.
pub proof fn bytes_count_low_first(samples: Seq<i16>, i: int)
    requires
        0 <= i < samples.len(),
    ensures
        2 * i + 1 < sample_bytes(samples).len(),
        sample_bytes(samples)[2 * i] + 256 * sample_bytes(samples)[2 * i + 1] == samples[i] as int
            % 65536,
    decreases samples.len(),
{
    let front = samples.drop_last();
    samples_take_two_bytes(samples);
    samples_take_two_bytes(front);
    if i < front.len() {
        bytes_count_low_first(front, i);
        assert(sample_bytes(samples)[2 * i] == sample_bytes(front)[2 * i]);
        assert(sample_bytes(samples)[2 * i + 1] == sample_bytes(front)[2 * i + 1]);
        assert(front[i] == samples[i]);
    } else {
        let n = (samples.last() as int % 65536) as nat;
        assert(n / 256 % 256 == n / 256);
        assert(sample_bytes(samples)[2 * i] == (n % 256) as u8);
        assert(sample_bytes(samples)[2 * i + 1] == (n / 256 % 256) as u8);
    }
}

/// A recording holds as many samples as the 32 bits of its length allow: one more
/// would not fit.
pub proof fn recordings_fill_their_length()
    ensures
        36 + 2 * MAX_SAMPLES <= u32::MAX,
        36 + 2 * (MAX_SAMPLES + 1) > u32::MAX,
{
}

/// Where nothing is damaged every sample is kept in its place, and where something
/// is, exactly the samples before the first damage are kept and its cause is told.
pub proof fn damage_ends_a_segment(items: Seq<Result<i16, Seq<char>>>, at: int)
    requires
        0 <= at <= items.len(),
        forall|i: int| 0 <= i < at ==> #[trigger] items[i] is Ok,
        at < items.len() ==> items[at] is Err,
    ensures
        readable(items).0 == Seq::new(at as nat, |i: int| items[i]->Ok_0),
        readable(items).1 == if at < items.len() {
            Err::<(), Seq<char>>("cannot read recording sample: "@ + items[at]->Err_0)
        } else {
            Ok(())
        },
    decreases at,
{
    let kept = Seq::new(at as nat, |i: int| items[i]->Ok_0);
    if at > 0 {
        let rest = items.skip(1);
        assert(items[0] is Ok);
        assert forall|i: int| 0 <= i < at - 1 implies #[trigger] rest[i] is Ok by {
            assert(rest[i] == items[i + 1]);
        }
        damage_ends_a_segment(rest, at - 1);
        assert(kept =~= seq![items[0]->Ok_0] + Seq::new((at - 1) as nat, |i: int| rest[i]->Ok_0));
    } else {
        assert(kept =~= Seq::<i16>::empty());
    }
}

/// A segment whose file or header cannot be read adds nothing and tells why; any
/// other adds what can be read of it.
pub proof fn segments_add_what_can_be_read(bytes: Vec<u8>, error: String)
    ensures
        segment_part(Err(error)) == (
            Seq::<i16>::empty(),
            Err::<(), Seq<char>>("cannot read recording segment: "@ + error@),
        ),
        match decoded_wav(bytes@) {
            Ok(items) => segment_part(Ok(bytes)) == readable(items),
            Err(cause) => segment_part(Ok(bytes)) == (
                Seq::<i16>::empty(),
                Err::<(), Seq<char>>("cannot read recording segment: "@ + cause),
            ),
        },
{
}

/// A recording is what its segments add, one after the other in their order, up to
/// the first that cannot be read whole. That one still adds what can be read of
/// it, and its error is told.
pub proof fn first_bad_segment_ends_the_recording(reads: Seq<Result<Vec<u8>, String>>, at: int)
    requires
        0 <= at <= reads.len(),
        forall|i: int| 0 <= i < at ==> segment_part(#[trigger] reads[i]).1 is Ok,
        at < reads.len() ==> segment_part(reads[at]).1 is Err,
    ensures
        merged(reads).0 == Seq::new(
            if at < reads.len() {
                (at + 1) as nat
            } else {
                at as nat
            },
            |i: int| segment_part(reads[i]).0,
        ).flatten(),
        merged(reads).1 == if at < reads.len() {
            segment_part(reads[at]).1
        } else {
            Ok(())
        },
    decreases at,
{
    let count = if at < reads.len() {
        (at + 1) as nat
    } else {
        at as nat
    };
    let parts = Seq::new(count, |i: int| segment_part(reads[i]).0);
    if at > 0 {
        let rest = reads.skip(1);
        assert(segment_part(reads[0]).1 is Ok);
        assert forall|i: int| 0 <= i < at - 1 implies segment_part(#[trigger] rest[i]).1 is Ok by {
            assert(rest[i] == reads[i + 1]);
        }
        first_bad_segment_ends_the_recording(rest, at - 1);
        assert(parts.drop_first() =~= Seq::new(
            (count - 1) as nat,
            |i: int| segment_part(rest[i]).0,
        ));
    } else if reads.len() > 0 {
        parts.lemma_flatten_one_element();
    } else {
        assert(parts =~= Seq::<Seq<i16>>::empty());
    }
}

/// Joining segments is putting them one after the other.
pub proof fn joining_keeps_the_order(segments: Seq<Seq<i16>>)
    ensures
        joined(segments) == segments.flatten(),
    decreases segments.len(),
{
    if segments.len() > 0 {
        joining_keeps_the_order(segments.skip(1));
        assert(segments.skip(1) =~= segments.drop_first());
    }
}

} // verus!
