//! The keepalive and retry settings that all connections share: the rows that
//! show them, and how a row is selected and edited.

use vstd::prelude::*;

use crate::panel::Tone;
use crate::text::decimal_text;

verus! {

/// The last row.
pub const LAST_ROW: usize = 5;

/// When a connection counts as lost.
#[derive(Clone, Copy, Debug, PartialEq, Eq, Structural)]
pub struct Keepalive {
    /// Seconds between two probes.
    pub interval: u64,
    /// Unanswered probes before the connection is given up.
    pub count_max: u64,
    /// Seconds that connecting may take.
    pub connect_timeout: u64,
}

/// When a lost connection is tried again.
#[derive(Clone, Copy, Debug, PartialEq, Eq, Structural)]
pub struct Retry {
    /// Seconds before the first attempt.
    pub initial_seconds: u64,
    /// Seconds between two attempts at most.
    pub maximum_seconds: u64,
    /// Seconds after which a connection counts as stable.
    pub stable_seconds: u64,
}

/// The settings, one for each row.
#[derive(Clone, Copy, Debug, PartialEq, Eq, Structural)]
pub enum GlobalGroup {
    /// Seconds between two probes.
    KeepaliveInterval,
    /// Unanswered probes before a connection is given up.
    KeepaliveCount,
    /// Seconds that connecting may take.
    KeepaliveTimeout,
    /// Seconds before the first attempt.
    RetryInitial,
    /// Seconds between two attempts at most.
    RetryMaximum,
    /// Seconds after which a connection counts as stable.
    RetryStable,
}

impl GlobalGroup {
    /// The number that the setting holds.
    pub open spec fn value(self, keepalive: Keepalive, retry: Retry) -> u64 {
        match self {
            GlobalGroup::KeepaliveInterval => keepalive.interval,
            GlobalGroup::KeepaliveCount => keepalive.count_max,
            GlobalGroup::KeepaliveTimeout => keepalive.connect_timeout,
            GlobalGroup::RetryInitial => retry.initial_seconds,
            GlobalGroup::RetryMaximum => retry.maximum_seconds,
            GlobalGroup::RetryStable => retry.stable_seconds,
        }
    }

    /// The setting as it is shown: all but the count are in seconds.
    pub open spec fn display(self, value: u64) -> Seq<char> {
        if self is KeepaliveCount {
            crate::text::decimal(value as nat)
        } else {
            crate::text::decimal(value as nat) + " s"@
        }
    }
}

/// The settings in the order of their rows: those of the keepalive, then those
/// of the retry.
pub open spec fn groups() -> Seq<GlobalGroup> {
    seq![
        GlobalGroup::KeepaliveInterval,
        GlobalGroup::KeepaliveCount,
        GlobalGroup::KeepaliveTimeout,
        GlobalGroup::RetryInitial,
        GlobalGroup::RetryMaximum,
        GlobalGroup::RetryStable,
    ]
}

/// A row.
pub struct GlobalRow {
    /// Its place.
    pub index: usize,
    /// The setting that it shows.
    pub group: GlobalGroup,
    /// The setting as it is shown.
    pub display: String,
    /// The setting as it is edited: the bare number.
    pub edit: String,
}

impl GlobalRow {
    /// Whether this is row `index` of the settings.
    pub open spec fn is_row(self, index: int, keepalive: Keepalive, retry: Retry) -> bool {
        let group = groups()[index];
        let value = group.value(keepalive, retry);
        &&& self.index == index
        &&& self.group == group
        &&& self.display@ == group.display(value)
        &&& self.edit@ == crate::text::decimal(value as nat)
    }
}

/// The row of a setting.
fn row_of(index: usize, group: GlobalGroup, value: u64) -> (r: GlobalRow)
    ensures
        r.index == index,
        r.group == group,
        r.display@ == group.display(value),
        r.edit@ == crate::text::decimal(value as nat),
{
    let mut display: String = decimal_text(value);
    match group {
        GlobalGroup::KeepaliveCount => {},
        _ => {
            display.append(" s");
        },
    }
    GlobalRow { index, group, display, edit: decimal_text(value) }
}

/// The rows of the keepalive, and those of the retry.
pub fn global_rows(keepalive: Keepalive, retry: Retry) -> (r: (Vec<GlobalRow>, Vec<GlobalRow>))
    ensures
        r.0@.len() == 3,
        r.1@.len() == 3,
        forall|i: int| 0 <= i < 3 ==> (#[trigger] r.0@[i]).is_row(i, keepalive, retry),
        forall|i: int| 0 <= i < 3 ==> (#[trigger] r.1@[i]).is_row(i + 3, keepalive, retry),
{
    let mut first: Vec<GlobalRow> = Vec::new();
    first.push(row_of(0, GlobalGroup::KeepaliveInterval, keepalive.interval));
    first.push(row_of(1, GlobalGroup::KeepaliveCount, keepalive.count_max));
    first.push(row_of(2, GlobalGroup::KeepaliveTimeout, keepalive.connect_timeout));
    let mut second: Vec<GlobalRow> = Vec::new();
    second.push(row_of(3, GlobalGroup::RetryInitial, retry.initial_seconds));
    second.push(row_of(4, GlobalGroup::RetryMaximum, retry.maximum_seconds));
    second.push(row_of(5, GlobalGroup::RetryStable, retry.stable_seconds));
    (first, second)
}

/// The row that is selected where `selected` was kept: one of the rows.
pub fn selected_row(selected: usize) -> (r: usize)
    ensures
        r == if selected < LAST_ROW {
            selected
        } else {
            LAST_ROW
        },
{
    if selected < LAST_ROW {
        selected
    } else {
        LAST_ROW
    }
}

/// What a row looks like.
#[derive(Clone, Copy, Debug, PartialEq, Eq)]
pub struct RowFrame {
    /// The background, as red, green and blue.
    pub fill: (u8, u8, u8),
    /// The width of the frame, in half points.
    pub stroke_halves: u8,
    /// The colour of the frame.
    pub stroke: Tone,
}

/// What a row looks like: the selected one stands out.
pub open spec fn frame_of(is_selected: bool) -> RowFrame {
    if is_selected {
        RowFrame { fill: (34, 56, 70), stroke_halves: 2, stroke: Tone::Primary }
    } else {
        RowFrame { fill: (24, 28, 34), stroke_halves: 1, stroke: Tone::Dim }
    }
}

/// What row `index` looks like while `selected` is selected.
pub fn row_frame(index: usize, selected: usize) -> (r: RowFrame)
    ensures
        r == frame_of(selected == index),
{
    if selected == index {
        RowFrame { fill: (34, 56, 70), stroke_halves: 2, stroke: Tone::Primary }
    } else {
        RowFrame { fill: (24, 28, 34), stroke_halves: 1, stroke: Tone::Dim }
    }
}

/// A setting that is to be edited.
pub struct EditGlobal {
    /// The setting.
    pub group: GlobalGroup,
    /// The number to begin with.
    pub value: String,
}

/// Takes the clicks on a row: either kind selects it, and a double click opens
/// it for editing.
pub fn click_row(
    row: &GlobalRow,
    selected: &mut usize,
    clicked: bool,
    double_clicked: bool,
) -> (r: Option<EditGlobal>)
    ensures
        *final(selected) == if clicked || double_clicked {
            row.index
        } else {
            *old(selected)
        },
        match r {
            Some(edit) => double_clicked && edit.group == row.group && edit.value@ == row.edit@,
            None => !double_clicked,
        },
{
    if clicked {
        *selected = row.index;
    }
    if double_clicked {
        *selected = row.index;
        Some(EditGlobal { group: row.group, value: row.edit.clone() })
    } else {
        None
    }
}

/// What a row hands over for editing is read back as the number that the setting
/// holds.
pub proof fn edited_value_reads_back(
    row: GlobalRow,
    index: int,
    keepalive: Keepalive,
    retry: Retry,
)
    requires
        0 <= index < groups().len(),
        row.is_row(index, keepalive, retry),
    ensures
        crate::text::unsigned_at_most(row.edit@, u64::MAX as nat) == Some(
            groups()[index].value(keepalive, retry) as nat,
        ),
{
    crate::text::written_number_reads_back(
        groups()[index].value(keepalive, retry) as nat,
        0,
        u64::MAX as nat,
    );
}

/// What a row shows with its unit is not a number: it is not what is edited.
pub proof fn shown_seconds_are_not_a_number(group: GlobalGroup, value: u64)
    requires
        !(group is KeepaliveCount),
    ensures
        crate::text::unsigned(group.display(value)) is None,
{
    let shown = group.display(value);
    let digits = crate::text::decimal(value as nat);
    crate::text::lemma_decimal_value(value as nat);
    reveal_strlit(" s");
    assert(crate::text::is_digit(digits[0]));
    assert(shown[0] == digits[0]);
    assert(crate::text::unsigned_digits(shown) == shown);
    assert(!crate::text::is_digit(shown[digits.len() as int]));
}

/// The rows hold the settings in this order, each once.
pub proof fn rows_hold_the_settings(keepalive: Keepalive, retry: Retry, i: int, j: int)
    requires
        0 <= i < groups().len(),
        0 <= j < groups().len(),
    ensures
        groups().len() == LAST_ROW + 1,
        groups()[i].value(keepalive, retry) == seq![
            keepalive.interval,
            keepalive.count_max,
            keepalive.connect_timeout,
            retry.initial_seconds,
            retry.maximum_seconds,
            retry.stable_seconds,
        ][i],
        groups()[i] == groups()[j] ==> i == j,
{
}

/// A row shows the number that it hands over for editing, and behind it the unit
/// where the setting has one. That number is written without leading zeros.
pub proof fn rows_show_what_they_edit(
    row: GlobalRow,
    index: int,
    keepalive: Keepalive,
    retry: Retry,
)
    requires
        0 <= index < groups().len(),
        row.is_row(index, keepalive, retry),
    ensures
        row.index == index,
        row.group == groups()[index],
        row.display@ == if row.group is KeepaliveCount {
            row.edit@
        } else {
            row.edit@ + seq![' ', 's']
        },
        crate::text::all_digits(row.edit@),
        crate::text::digits_value(row.edit@) == groups()[index].value(keepalive, retry),
        row.edit@.len() == 1 || row.edit@[0] != '0',
{
    let value = groups()[index].value(keepalive, retry) as nat;
    reveal_strlit(" s");
    assert(" s"@ =~= seq![' ', 's']);
    crate::text::lemma_decimal_value(value);
    crate::text::decimals_are_shortest(value, 0);
}

} // verus!
