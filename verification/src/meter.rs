//! What the level of a recording is computed from: the squares of its latest
//! samples.

use vstd::prelude::*;

verus! {

/// The bytes of a WAV file before its samples.
pub const HEADER_BYTES: u64 = 44;

/// The most bytes at the end of a file that the level is taken from.
pub const TAIL_BYTES: u64 = 4096;

/// The sum of the squares of samples.
pub open spec fn square_sum(samples: Seq<i16>) -> nat
    decreases samples.len(),
{
    if samples.len() == 0 {
        0
    } else {
        (square_sum(samples.drop_last()) + samples.last() * samples.last()) as nat
    }
}

/// A sample out of its two bytes, the lower one first.
pub open spec fn sample_of(low: u8, high: u8) -> i16 {
    if high < 128 {
        (low + 256 * high) as i16
    } else {
        (low + 256 * high - 65536) as i16
    }
}

/// The samples that bytes hold, two bytes each. A last byte without a partner
/// holds none.
pub open spec fn samples_of(bytes: Seq<u8>) -> Seq<i16> {
    Seq::new(bytes.len() / 2, |i: int| sample_of(bytes[2 * i], bytes[2 * i + 1]))
}

/// How much of the end of a file of `length` bytes the level is taken from: whole
/// samples, none of the header, and not more than the meter needs.
pub open spec fn tail_length(length: nat) -> nat {
    let samples = if length < HEADER_BYTES {
        0
    } else {
        (length - HEADER_BYTES) as nat
    };
    let tail = if samples < TAIL_BYTES {
        samples
    } else {
        TAIL_BYTES as nat
    };
    (tail - tail % 2) as nat
}

/// How much of the end of a file of `length` bytes the level is taken from.
pub fn recent_bytes(length: u64) -> (r: usize)
    ensures
        r == tail_length(length as nat),
{
    let samples: u64 = if length < HEADER_BYTES {
        0
    } else {
        length - HEADER_BYTES
    };
    let tail: u64 = if samples < TAIL_BYTES {
        samples
    } else {
        TAIL_BYTES
    };
    (tail - tail % 2) as usize
}

/// The squares of samples sum up to at most 2^30 for each.
proof fn lemma_square_sum_bound(samples: Seq<i16>)
    ensures
        square_sum(samples) <= samples.len() * 0x4000_0000,
    decreases samples.len(),
{
    if samples.len() > 0 {
        lemma_square_sum_bound(samples.drop_last());
        lemma_square(samples.last());
    }
}

/// The square of a sample lies between zero and 2^30.
proof fn lemma_square(sample: i16)
    ensures
        0 <= sample * sample <= 0x4000_0000,
{
    assert(0 <= sample * sample <= 0x4000_0000) by (nonlinear_arith)
        requires
            -0x8000 <= sample <= 0x7fff,
    ;
}

/// What a block of samples amounts to: how many there are, and the sum of their
/// squares.
pub struct Meter {
    squares: u128,
    count: usize,
    seen: Ghost<Seq<i16>>,
}

impl View for Meter {
    type V = Seq<i16>;

    closed spec fn view(&self) -> Seq<i16> {
        self.seen@
    }
}

impl Meter {
    /// The meter holds the count and the sum of what it has seen.
    pub closed spec fn wf(self) -> bool {
        &&& self.count == self@.len()
        &&& self.squares == square_sum(self@)
    }

    /// A meter that has seen nothing.
    pub fn new() -> (r: Meter)
        ensures
            r@ == Seq::<i16>::empty(),
            r.wf(),
    {
        Meter { squares: 0, count: 0, seen: Ghost(Seq::empty()) }
    }

    /// Takes one more sample into account.
    pub fn add(&mut self, sample: i16)
        requires
            old(self).wf(),
            old(self)@.len() < usize::MAX,
        ensures
            final(self).wf(),
            final(self)@ == old(self)@.push(sample),
    {
        proof {
            lemma_square_sum_bound(self@);
            lemma_square(sample);
            assert(self@.push(sample).drop_last() =~= self@);
        }
        let wide: i32 = sample as i32;
        let square: i32 = wide * wide;
        self.squares = self.squares + square as u128;
        self.count = self.count + 1;
        self.seen = Ghost(self.seen@.push(sample));
    }

    /// The sum of the squares, and the number of samples.
    pub fn total(&self) -> (r: (u128, usize))
        requires
            self.wf(),
        ensures
            r.0 == square_sum(self@),
            r.1 == self@.len(),
    {
        (self.squares, self.count)
    }
}

/// The sum of the squares of the samples that bytes hold, and their number.
pub fn recent_total(bytes: &Vec<u8>) -> (r: (u128, usize))
    ensures
        r.0 == square_sum(samples_of(bytes@)),
        r.1 == bytes@.len() / 2,
{
    let mut meter: Meter = Meter::new();
    let pairs: usize = bytes.len() / 2;
    let mut i: usize = 0;
    assert(samples_of(bytes@).take(0) =~= Seq::<i16>::empty());
    while i < pairs
        invariant
            i <= pairs,
            pairs == bytes@.len() / 2,
            bytes@.len() <= usize::MAX,
            meter.wf(),
            meter@ == samples_of(bytes@).take(i as int),
        decreases pairs - i,
    {
        let low: i32 = bytes[2 * i] as i32;
        let high: i32 = bytes[2 * i + 1] as i32;
        let word: i32 = low + 256 * high;
        let sample: i16 = if high < 128 {
            word as i16
        } else {
            (word - 65536) as i16
        };
        meter.add(sample);
        i = i + 1;
        assert(meter@ =~= samples_of(bytes@).take(i as int));
    }
    assert(samples_of(bytes@).take(pairs as int) =~= samples_of(bytes@));
    meter.total()
}

/// The end of a file that the level is taken from holds whole samples, leaves the
/// header out, and is never longer than the meter needs.
pub proof fn tail_holds_whole_samples(length: nat)
    ensures
        tail_length(length) % 2 == 0,
        tail_length(length) <= TAIL_BYTES,
        tail_length(length) > 0 ==> HEADER_BYTES + tail_length(length) <= length,
        length >= HEADER_BYTES + TAIL_BYTES ==> tail_length(length) == TAIL_BYTES,
        length <= HEADER_BYTES + 1 <==> tail_length(length) == 0,
{
}

/// Silence is what sums up to zero: a block has no level exactly where all its
/// samples are zero.
pub proof fn only_silence_sums_to_zero(samples: Seq<i16>)
    ensures
        square_sum(samples) == 0 <==> forall|i: int|
            0 <= i < samples.len() ==> #[trigger] samples[i] == 0,
    decreases samples.len(),
{
    if samples.len() > 0 {
        let front = samples.drop_last();
        let last = samples.last();
        only_silence_sums_to_zero(front);
        lemma_square(last);
        assert(last * last == 0 <==> last == 0) by (nonlinear_arith);
        if square_sum(samples) == 0 {
            assert forall|i: int| 0 <= i < samples.len() implies #[trigger] samples[i] == 0 by {
                if i < front.len() {
                    assert(front[i] == 0);
                }
            }
        }
        if forall|i: int| 0 <= i < samples.len() ==> #[trigger] samples[i] == 0 {
            assert forall|i: int| 0 <= i < front.len() implies #[trigger] front[i] == 0 by {
                assert(samples[i] == 0);
            }
            assert(samples[samples.len() - 1] == 0);
        }
    }
}

/// A sample is what its two bytes count, the first for ones and the second for
/// two hundred and fifty-sixes, modulo 2^16: at every place, in bytes of whatever
/// length.
pub proof fn samples_count_low_byte_first(bytes: Seq<u8>, i: int)
    requires
        0 <= i < bytes.len() / 2,
    ensures
        samples_of(bytes).len() == bytes.len() / 2,
        samples_of(bytes)[i] as int % 65536 == bytes[2 * i] + 256 * bytes[2 * i + 1],
{
}

/// Samples that are written two bytes each are read back, whatever their number,
/// and a byte left over behind them does not count.
pub proof fn written_samples_read_back(samples: Seq<i16>, left_over: u8)
    ensures
        samples_of(crate::wav::sample_bytes(samples)) == samples,
        samples_of(crate::wav::sample_bytes(samples).push(left_over)) == samples,
{
    let bytes = crate::wav::sample_bytes(samples);
    let more = bytes.push(left_over);
    crate::wav::samples_take_two_bytes(samples);
    assert forall|i: int| 0 <= i < samples.len() implies samples_of(bytes)[i] == samples[i]
        && samples_of(more)[i] == samples[i] by {
        crate::wav::bytes_count_low_first(samples, i);
        samples_count_low_byte_first(bytes, i);
        samples_count_low_byte_first(more, i);
    }
    assert(samples_of(bytes) =~= samples);
    assert(samples_of(more) =~= samples);
}

/// The squares of two blocks add up, and those of a single sample are its square.
pub proof fn squares_add_up(a: Seq<i16>, b: Seq<i16>, sample: i16)
    ensures
        square_sum(a + b) == square_sum(a) + square_sum(b),
        square_sum(seq![sample]) == sample * sample,
        square_sum(Seq::empty()) == 0,
    decreases b.len(),
{
    lemma_square(sample);
    assert(seq![sample].drop_last() =~= Seq::<i16>::empty());
    assert(square_sum(seq![sample].drop_last()) == 0);
    if b.len() == 0 {
        assert(a + b =~= a);
    } else {
        squares_add_up(a, b.drop_last(), sample);
        assert((a + b).drop_last() =~= a + b.drop_last());
        lemma_square(b.last());
    }
}

/// A steady signal sums up to its square for each sample.
pub proof fn steady_signals_sum_evenly(sample: i16, count: nat)
    ensures
        square_sum(Seq::new(count, |i: int| sample)) == count * (sample * sample),
    decreases count,
{
    let samples = Seq::new(count, |i: int| sample);
    if count > 0 {
        steady_signals_sum_evenly(sample, (count - 1) as nat);
        lemma_square(sample);
        assert(samples.drop_last() =~= Seq::new((count - 1) as nat, |i: int| sample));
        let square = sample * sample;
        assert(count * square == (count - 1) * square + square) by (nonlinear_arith);
    } else {
        assert(count * (sample * sample) == 0) by (nonlinear_arith)
            requires
                count == 0,
        ;
    }
}

/// The end that the level is taken from is the longest that keeps to its bounds:
/// any other run of whole samples behind the header that is not longer than the
/// meter needs is at most as long.
pub proof fn tail_is_the_longest(length: nat, other: nat)
    requires
        other % 2 == 0,
        other <= 4096,
        44 + other <= length,
    ensures
        other <= tail_length(length),
{
}

} // verus!
