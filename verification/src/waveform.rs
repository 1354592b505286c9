//! The waveform of a recording: which level each bar shows.

use vstd::prelude::*;

use crate::panel::Tone;

verus! {

/// How long the waveform of a running recording stands before it is drawn
/// again, in milliseconds.
pub const REPAINT_MILLIS: u64 = 50;

/// The level that a bar shows, by its place among the levels: the levels fill the
/// bars up from the right, and the first of them stand where there are more
/// levels than bars. A bar without a level is flat.
pub open spec fn level_of_bar(bars: nat, levels: nat, bar: int) -> Option<int> {
    let leading = if levels < bars {
        bars - levels
    } else {
        0
    };
    if leading <= bar < leading + levels {
        Some(bar - leading)
    } else {
        None
    }
}

/// The level that each of `bars` bars shows, by its place among `levels` levels.
pub fn bar_levels(bars: usize, levels: usize) -> (r: Vec<Option<usize>>)
    ensures
        r@.len() == bars,
        forall|bar: int|
            0 <= bar < bars ==> match #[trigger] r@[bar] {
                Some(level) => level < levels && level_of_bar(bars as nat, levels as nat, bar)
                    == Some(level as int),
                None => level_of_bar(bars as nat, levels as nat, bar) is None,
            },
{
    let leading: usize = if levels < bars {
        bars - levels
    } else {
        0
    };
    let mut shown: Vec<Option<usize>> = Vec::new();
    let mut bar: usize = 0;
    while bar < bars
        invariant
            bar <= bars,
            leading == if levels < bars {
                bars - levels
            } else {
                0
            },
            shown@.len() == bar,
            forall|b: int|
                0 <= b < bar ==> match #[trigger] shown@[b] {
                    Some(level) => level < levels && level_of_bar(bars as nat, levels as nat, b)
                        == Some(level as int),
                    None => level_of_bar(bars as nat, levels as nat, b) is None,
                },
        decreases bars - bar,
    {
        if bar < leading || bar - leading >= levels {
            shown.push(None);
        } else {
            shown.push(Some(bar - leading));
        }
        bar = bar + 1;
    }
    shown
}

/// The colour of the bars: a paused waveform stands out.
pub fn bar_tone(active: bool) -> (r: Tone)
    ensures
        r == if active {
            Tone::Primary
        } else {
            Tone::Warning
        },
{
    if active {
        Tone::Primary
    } else {
        Tone::Warning
    }
}

/// When the waveform is drawn again, in milliseconds; a paused one is not.
pub fn repaint_after(active: bool) -> (r: Option<u64>)
    ensures
        r == if active {
            Some(REPAINT_MILLIS)
        } else {
            None
        },
{
    if active {
        Some(REPAINT_MILLIS)
    } else {
        None
    }
}

/// As long as there is a bar for every level, each level is shown exactly once,
/// in its place from the right: the newest one at the edge.
pub proof fn levels_fill_from_the_right(bars: nat, levels: nat, level: int)
    requires
        levels <= bars,
        0 <= level < levels,
    ensures
        level_of_bar(bars, levels, bars - levels + level) == Some(level),
        forall|bar: int| #[trigger]
            level_of_bar(bars, levels, bar) == Some(level) ==> bar == bars - levels + level,
        level_of_bar(bars, levels, bars - 1) == Some(levels - 1),
{
}

/// A bar that shows a level shows one that exists, its right neighbour shows the
/// next, and a bar is flat exactly where the levels to its right are too few.
pub proof fn bars_show_levels_in_order(bars: nat, levels: nat, bar: int)
    requires
        0 <= bar < bars,
    ensures
        level_of_bar(bars, levels, bar) is None <==> bar + levels < bars,
        level_of_bar(bars, levels, bar) matches Some(level) ==> {
            &&& 0 <= level < levels
            &&& bar + 1 < bars ==> level_of_bar(bars, levels, bar + 1) == Some(level + 1)
        },
        levels >= bars ==> level_of_bar(bars, levels, 0) == Some(0int),
{
}

} // verus!
