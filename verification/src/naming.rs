//! File names inside the media directory: recordings are numbered per day, and
//! a recording is put together from the segments captured between pauses.

use vstd::prelude::*;

use crate::text::{chars_of, decimal_text, padded_text, parse_u32};

verus! {

/// What the name of a recording of `date` begins with.
pub open spec fn recording_prefix(date: Seq<char>) -> Seq<char> {
    date + "_"@
}

/// The name of recording `number` of a day: `20260726_004.wav`.
pub open spec fn recording_name(date: Seq<char>, number: nat) -> Seq<char> {
    recording_prefix(date) + crate::text::padded(number, 3) + ".wav"@
}

/// The number under which a file name counts as a recording of `date`: what
/// stands between the date with its underscore and the `.wav`, if that is a
/// number of 32 bits.
pub open spec fn recording_number(name: Seq<char>, date: Seq<char>) -> Option<nat> {
    let prefix = recording_prefix(date);
    let suffix = ".wav"@;
    if prefix.len() + suffix.len() <= name.len() && prefix =~= name.take(prefix.len() as int)
        && suffix =~= name.skip(name.len() - suffix.len()) {
        crate::text::unsigned_at_most(
            name.subrange(prefix.len() as int, name.len() - suffix.len()),
            u32::MAX as nat,
        )
    } else {
        None
    }
}

/// The highest number that any of `names` holds as a recording of `date`; zero
/// where none is one.
pub open spec fn highest_number(names: Seq<String>, date: Seq<char>) -> nat
    decreases names.len(),
{
    if names.len() == 0 {
        0
    } else {
        let before = highest_number(names.drop_last(), date);
        match recording_number(names.last()@, date) {
            Some(n) => if n > before {
                n
            } else {
                before
            },
            None => before,
        }
    }
}

/// Whether `chars[at..]` begins with `part`.
fn holds_at(chars: &Vec<char>, at: usize, part: &Vec<char>) -> (r: bool)
    requires
        at + part@.len() <= chars@.len(),
    ensures
        r == (part@ =~= chars@.subrange(at as int, at + part@.len())),
{
    let len: usize = chars.len();
    let mut i: usize = 0;
    while i < part.len()
        invariant
            i <= part@.len(),
            len == chars@.len(),
            at + part@.len() <= len,
            forall|j: int| 0 <= j < i ==> part@[j] == #[trigger] chars@[at + j],
        decreases part.len() - i,
    {
        if chars[at + i] != part[i] {
            assert(chars@.subrange(at as int, at + part@.len())[i as int] == chars@[at + i]);
            return false;
        }
        i = i + 1;
    }
    assert forall|j: int| 0 <= j < part@.len() implies part@[j] == chars@.subrange(
        at as int,
        at + part@.len(),
    )[j] by {
        assert(part@[j] == chars@[at + j]);
    }
    true
}

/// The number under which `name` counts as a recording of `date`.
fn number_of(name: &str, date: &str) -> (r: Option<u32>)
    ensures
        match r {
            Some(n) => recording_number(name@, date@) == Some(n as nat),
            None => recording_number(name@, date@) is None,
        },
{
    let mut prefix_text: String = date.to_owned();
    prefix_text.append("_");
    let chars: Vec<char> = chars_of(name);
    let prefix: Vec<char> = chars_of(prefix_text.as_str());
    let suffix: Vec<char> = chars_of(".wav");
    if prefix.len() > chars.len() || suffix.len() > chars.len() - prefix.len() {
        return None;
    }
    let end: usize = chars.len() - suffix.len();
    assert(name@.take(prefix@.len() as int) =~= chars@.subrange(0, prefix@.len() as int));
    assert(name@.skip(end as int) =~= chars@.subrange(end as int, end + suffix@.len()));
    if holds_at(&chars, 0, &prefix) && holds_at(&chars, end, &suffix) {
        parse_u32(&chars, prefix.len(), end)
    } else {
        None
    }
}

/// The name of the next recording of `date` in a media directory that holds the
/// files `names`: one above the highest number there. `media` is the directory
/// as it is shown to the user, and stands in the error when the numbers of the
/// day are used up.
pub fn next_recording_path(media: &str, names: &Vec<String>, date: &str) -> (r: Result<
    String,
    String,
>)
    ensures
        match r {
            Ok(name) => highest_number(names@, date@) < u32::MAX && name@ == recording_name(
                date@,
                highest_number(names@, date@) + 1,
            ),
            Err(error) => highest_number(names@, date@) == u32::MAX && error@
                == "recording number overflow in "@ + media@,
        },
{
    let mut highest: u32 = 0;
    let mut i: usize = 0;
    assert(names@.take(0) =~= Seq::<String>::empty());
    while i < names.len()
        invariant
            i <= names@.len(),
            highest == highest_number(names@.take(i as int), date@),
        decreases names.len() - i,
    {
        assert(names@.take(i + 1).drop_last() =~= names@.take(i as int));
        if let Some(number) = number_of(names[i].as_str(), date) {
            if number > highest {
                highest = number;
            }
        }
        i = i + 1;
    }
    assert(names@.take(names@.len() as int) =~= names@);
    if highest == u32::MAX {
        let mut error: String = "recording number overflow in ".to_owned();
        error.append(media);
        return Err(error);
    }
    let mut name: String = date.to_owned();
    name.append("_");
    let number: String = padded_text((highest + 1) as u64, 3);
    name.append(number.as_str());
    name.append(".wav");
    Ok(name)
}

/// What the host found where recordings are kept: the `media` directory beside
/// the program.
pub enum MediaListing {
    /// The program could not be located.
    NoExecutable(String),
    /// The program lies in no directory.
    NoDirectory,
    /// The media directory could not be made.
    NotCreated {
        /// The directory as it is shown to the user.
        media: String,
        /// What went wrong.
        error: String,
    },
    /// The media directory could not be read.
    NotReadable {
        /// The directory as it is shown to the user.
        media: String,
        /// What went wrong.
        error: String,
    },
    /// The names of the files in the media directory.
    Files {
        /// The directory as it is shown to the user.
        media: String,
        /// The names, as far as they are text.
        names: Vec<String>,
    },
}

/// The name of the recording to begin on `date`, or why there is none.
pub open spec fn recording_to_begin(listing: MediaListing, date: Seq<char>) -> Result<
    Seq<char>,
    Seq<char>,
> {
    match listing {
        MediaListing::NoExecutable(error) => Err("cannot locate executable: "@ + error@),
        MediaListing::NoDirectory => Err("executable directory is missing"@),
        MediaListing::NotCreated { media, error } => Err(
            "cannot create "@ + media@ + ": "@ + error@,
        ),
        MediaListing::NotReadable { media, error } => Err(
            "cannot read "@ + media@ + ": "@ + error@,
        ),
        MediaListing::Files { media, names } => {
            let highest = highest_number(names@, date);
            if highest < u32::MAX {
                Ok(recording_name(date, highest + 1))
            } else {
                Err("recording number overflow in "@ + media@)
            }
        },
    }
}

/// What could not be done about the media directory.
fn media_error(verb: &str, media: &str, error: &str) -> (r: String)
    ensures
        r@ == verb@ + media@ + ": "@ + error@,
{
    let mut message: String = verb.to_owned();
    message.append(media);
    message.append(": ");
    message.append(error);
    message
}

/// The name of the recording to begin on `date`, or why there is none.
pub fn recording_wav_path(listing: &MediaListing, date: &str) -> (r: Result<String, String>)
    ensures
        match r {
            Ok(name) => recording_to_begin(*listing, date@) == Ok::<Seq<char>, Seq<char>>(name@),
            Err(error) => recording_to_begin(*listing, date@) == Err::<Seq<char>, Seq<char>>(
                error@,
            ),
        },
{
    proof {
        if let MediaListing::Files { media, names } = listing {
            lemma_highest_fits(names@, date@);
        }
    }
    match listing {
        MediaListing::NoExecutable(error) => {
            let mut message: String = "cannot locate executable: ".to_owned();
            message.append(error.as_str());
            Err(message)
        },
        MediaListing::NoDirectory => Err("executable directory is missing".to_owned()),
        MediaListing::NotCreated { media, error } => Err(
            media_error("cannot create ", media.as_str(), error.as_str()),
        ),
        MediaListing::NotReadable { media, error } => Err(
            media_error("cannot read ", media.as_str(), error.as_str()),
        ),
        MediaListing::Files { media, names } => next_recording_path(media.as_str(), names, date),
    }
}

/// Every number of a recording is one of 32 bits, and so is the highest.
proof fn lemma_highest_fits(names: Seq<String>, date: Seq<char>)
    ensures
        highest_number(names, date) <= u32::MAX,
    decreases names.len(),
{
    if names.len() > 0 {
        lemma_highest_fits(names.drop_last(), date);
    }
}

/// Whether `year` is a leap year of the Gregorian calendar.
pub open spec fn is_leap(year: int) -> bool {
    year % 4 == 0 && (year % 100 != 0 || year % 400 == 0)
}

/// The number of days in a month.
pub open spec fn days_in_month(year: int, month: int) -> int {
    if month == 2 {
        if is_leap(year) {
            29
        } else {
            28
        }
    } else if month == 4 || month == 6 || month == 9 || month == 11 {
        30
    } else {
        31
    }
}

/// Whether the day stands in the calendar, which runs from year -262143 to year
/// 262142.
pub open spec fn on_calendar(year: int, month: int, day: int) -> bool {
    &&& -262143 <= year <= 262142
    &&& 1 <= month <= 12
    &&& 1 <= day <= days_in_month(year, month)
}

/// A year as at least four digits, with a sign before those that four digits
/// alone do not cover.
pub open spec fn year_text(year: int) -> Seq<char> {
    if year < 0 {
        "-"@ + crate::text::padded((-year) as nat, 4)
    } else if year > 9999 {
        "+"@ + crate::text::padded(year as nat, 4)
    } else {
        crate::text::padded(year as nat, 4)
    }
}

/// A day as year, month and day without separators: `20260726`.
pub open spec fn day_text(year: int, month: int, day: int) -> Seq<char> {
    year_text(year) + crate::text::padded(month as nat, 2) + crate::text::padded(day as nat, 2)
}

/// `chrono::NaiveDate::from_ymd_opt` and `NaiveDate::format`: the first knows
/// exactly the days that are on the calendar, and the second, given
/// `%Y%m%d`, writes the year with at least four digits (signed before year 0
/// and after year 9999) and the month and the day with two.
#[verifier::external_body]
fn format_day(year: i32, month: u32, day: u32, format: &str) -> (r: Option<String>)
    requires
        format@ == "%Y%m%d"@,
    ensures
        match r {
            Some(text) => on_calendar(year as int, month as int, day as int) && text@ == day_text(
                year as int,
                month as int,
                day as int,
            ),
            None => !on_calendar(year as int, month as int, day as int),
        },
{
    let date = chrono::NaiveDate::from_ymd_opt(year, month, day)?;
    Some(date.format(format).to_string())
}

/// The date under which a recording of that day is filed; none for a day that
/// is not on the calendar.
pub fn date_stamp(year: i32, month: u32, day: u32) -> (r: Option<String>)
    ensures
        match r {
            Some(text) => on_calendar(year as int, month as int, day as int) && text@ == day_text(
                year as int,
                month as int,
                day as int,
            ),
            None => !on_calendar(year as int, month as int, day as int),
        },
{
    format_day(year, month, day, "%Y%m%d")
}

/// The index of the last dot of a name; zero where it has none.
pub open spec fn last_dot(name: Seq<char>) -> nat
    decreases name.len(),
{
    if name.len() == 0 {
        0
    } else if name.last() == '.' {
        (name.len() - 1) as nat
    } else {
        last_dot(name.drop_last())
    }
}

/// A file name without its extension. A dot at the front begins no extension.
pub open spec fn stem(name: Seq<char>) -> Seq<char> {
    if last_dot(name) > 0 {
        name.take(last_dot(name) as int)
    } else {
        name
    }
}

/// Whether `name` stays inside its directory: a path of one part, with nothing
/// before it.
pub open spec fn is_file_name(name: Seq<char>) -> bool {
    !name.contains('/')
}

/// Whether a file name ends up as `..` when its extension is cut off up to the
/// dot: it begins with two dots and has no other.
pub open spec fn cuts_to_parent(name: Seq<char>) -> bool {
    last_dot(name) == 1 && name[0] == '.'
}

/// Whether a file name takes an extension: the empty name and the two names that
/// stand for directories do not, nor does one that is cut down to such a name.
pub open spec fn takes_extension(name: Seq<char>) -> bool {
    name != ""@ && name != "."@ && !cuts_to_parent(name)
}

/// The name of segment `index` of a recording: the name of the recording with
/// `part-<index>.wav` for an extension, where it takes one.
pub open spec fn segment_name(recording: Seq<char>, index: nat) -> Seq<char> {
    if takes_extension(recording) {
        stem(recording) + ".part-"@ + crate::text::decimal(index) + ".wav"@
    } else if cuts_to_parent(recording) {
        ".."@
    } else {
        recording
    }
}

/// The name of the file that segment `index` of `recording` is captured into.
pub fn segment_file(recording: &str, index: u64) -> (r: String)
    requires
        is_file_name(recording@),
    ensures
        r@ == segment_name(recording@, index as nat),
{
    let chars: Vec<char> = chars_of(recording);
    proof {
        reveal_strlit("");
        reveal_strlit(".");
    }
    if chars.len() == 0 || (chars.len() == 1 && chars[0] == '.') {
        assert(chars@ =~= ""@ || chars@ =~= "."@);
        assert(last_dot(chars@) == 0);
        return recording.to_owned();
    }
    let mut end: usize = chars.len();
    assert(chars@.take(end as int) =~= chars@);
    while end > 0 && chars[end - 1] != '.'
        invariant
            end <= chars@.len(),
            last_dot(chars@) == last_dot(chars@.take(end as int)),
        decreases end,
    {
        assert(chars@.take(end as int).drop_last() =~= chars@.take(end - 1));
        end = end - 1;
    }
    if end == 2 && chars[0] == '.' {
        return "..".to_owned();
    }
    let mut name: String = if end > 1 {
        recording.substring_char(0, end - 1).to_owned()
    } else {
        recording.to_owned()
    };
    assert(name@ =~= stem(recording@));
    name.append(".part-");
    let number: String = decimal_text(index);
    name.append(number.as_str());
    name.append(".wav");
    name
}

/// The name of a recording gives its number back.
pub proof fn recording_name_has_its_number(date: Seq<char>, number: nat)
    requires
        number <= u32::MAX,
    ensures
        recording_number(recording_name(date, number), date) == Some(number),
{
    let prefix = recording_prefix(date);
    let name = recording_name(date, number);
    let digits = crate::text::padded(number, 3);
    crate::text::written_number_reads_back(number, 3, u32::MAX as nat);
    assert(name.take(prefix.len() as int) =~= prefix);
    assert(name.skip(name.len() - ".wav"@.len()) =~= ".wav"@);
    assert(name.subrange(prefix.len() as int, name.len() - ".wav"@.len()) =~= digits);
}

/// No file of the directory has a number above the highest.
proof fn lemma_highest_bounds(names: Seq<String>, date: Seq<char>, i: int)
    requires
        0 <= i < names.len(),
        recording_number(names[i]@, date) is Some,
    ensures
        recording_number(names[i]@, date)->0 <= highest_number(names, date),
    decreases names.len(),
{
    if i < names.len() - 1 {
        assert(names.drop_last()[i] == names[i]);
        lemma_highest_bounds(names.drop_last(), date, i);
    }
}

/// A new recording never takes the name of a file that is already there.
pub proof fn next_recording_is_new(names: Seq<String>, date: Seq<char>)
    requires
        highest_number(names, date) < u32::MAX,
    ensures
        forall|i: int|
            0 <= i < names.len() ==> (#[trigger] names[i])@ != recording_name(
                date,
                highest_number(names, date) + 1,
            ),
{
    let number = highest_number(names, date) + 1;
    recording_name_has_its_number(date, number);
    assert forall|i: int| 0 <= i < names.len() implies (#[trigger] names[i])@ != recording_name(
        date,
        number,
    ) by {
        if names[i]@ == recording_name(date, number) {
            lemma_highest_bounds(names, date, i);
        }
    }
}

/// Once the new recording is in the directory, the one after it gets the next
/// number.
pub proof fn recordings_count_up(names: Seq<String>, date: Seq<char>, added: String)
    requires
        highest_number(names, date) < u32::MAX,
        added@ == recording_name(date, highest_number(names, date) + 1),
    ensures
        highest_number(names.push(added), date) == highest_number(names, date) + 1,
{
    recording_name_has_its_number(date, highest_number(names, date) + 1);
    assert(names.push(added).drop_last() =~= names);
}

/// The last dot of a name stands inside the name.
proof fn lemma_last_dot_inside(name: Seq<char>)
    ensures
        last_dot(name) <= name.len(),
    decreases name.len(),
{
    if name.len() > 0 {
        lemma_last_dot_inside(name.drop_last());
    }
}

/// The last dot of a name stands where the last dot of its dotless end begins.
proof fn lemma_last_dot(front: Seq<char>, back: Seq<char>)
    requires
        forall|i: int| 0 <= i < back.len() ==> back[i] != '.',
    ensures
        last_dot(front.push('.') + back) == front.len(),
    decreases back.len(),
{
    let name = front.push('.') + back;
    if back.len() == 0 {
        assert(name =~= front.push('.'));
    } else {
        assert(name.drop_last() =~= front.push('.') + back.drop_last());
        lemma_last_dot(front, back.drop_last());
    }
}

/// The segments of a recording are named after it.
pub proof fn segment_of_a_recording(date: Seq<char>, number: nat, index: nat)
    ensures
        takes_extension(recording_name(date, number)),
        segment_name(recording_name(date, number), index) == recording_prefix(date)
            + crate::text::padded(number, 3) + ".part-"@ + crate::text::decimal(index) + ".wav"@,
{
    let name = recording_name(date, number);
    let front = recording_prefix(date) + crate::text::padded(number, 3);
    crate::text::lemma_padded_value(number, 3);
    reveal_strlit("");
    reveal_strlit(".");
    reveal_strlit(".wav");
    reveal_strlit("wav");
    assert(name =~= front.push('.') + "wav"@);
    lemma_last_dot(front, "wav"@);
    assert(stem(name) =~= front);
    assert(segment_name(name, index) =~= front + ".part-"@ + crate::text::decimal(index) + ".wav"@);
}

/// A run of digits holds no separator, nor do two texts that hold none hold one
/// together.
proof fn lemma_no_separator(digits: Seq<char>, a: Seq<char>, b: Seq<char>)
    ensures
        crate::text::all_digits(digits) ==> is_file_name(digits),
        is_file_name(a) && is_file_name(b) ==> is_file_name(a + b),
{
    if (a + b).contains('/') {
        let i = choose|i: int| 0 <= i < (a + b).len() && (a + b)[i] == '/';
        if i < a.len() {
            assert(a[i] == '/');
        } else {
            assert(b[i - a.len()] == '/');
        }
    }
}

/// A recording whose date holds no separator stays inside the media directory.
pub proof fn recordings_are_file_names(date: Seq<char>, number: nat)
    requires
        is_file_name(date),
    ensures
        is_file_name(recording_name(date, number)),
{
    let digits = crate::text::padded(number, 3);
    crate::text::lemma_padded_value(number, 3);
    reveal_strlit("_");
    reveal_strlit(".wav");
    lemma_no_separator(digits, date, "_"@);
    lemma_no_separator(digits, recording_prefix(date), digits);
    lemma_no_separator(digits, recording_prefix(date) + digits, ".wav"@);
}

/// The date of a recording holds no separator.
pub proof fn days_are_file_names(year: int, month: int, day: int)
    requires
        on_calendar(year, month, day),
    ensures
        is_file_name(day_text(year, month, day)),
{
    let years = crate::text::padded(if year < 0 { (-year) as nat } else { year as nat }, 4);
    let months = crate::text::padded(month as nat, 2);
    let days = crate::text::padded(day as nat, 2);
    crate::text::lemma_padded_value(if year < 0 { (-year) as nat } else { year as nat }, 4);
    crate::text::lemma_padded_value(month as nat, 2);
    crate::text::lemma_padded_value(day as nat, 2);
    reveal_strlit("-");
    reveal_strlit("+");
    lemma_no_separator(years, "-"@, years);
    lemma_no_separator(years, "+"@, years);
    lemma_no_separator(months, year_text(year), months);
    lemma_no_separator(days, year_text(year) + months, days);
}

/// The segments of a recording do not count as recordings themselves: a
/// segment left in the directory does not move the numbers on.
pub proof fn segments_are_not_recordings(date: Seq<char>, number: nat, index: nat)
    ensures
        recording_number(segment_name(recording_name(date, number), index), date) is None,
{
    let name = segment_name(recording_name(date, number), index);
    let prefix = recording_prefix(date);
    let digits = crate::text::padded(number, 3);
    segment_of_a_recording(date, number, index);
    crate::text::lemma_padded_value(number, 3);
    reveal_strlit(".part-");
    let middle = name.subrange(prefix.len() as int, name.len() - ".wav"@.len());
    assert(middle =~= digits + ".part-"@ + crate::text::decimal(index));
    assert(middle[digits.len() as int] == '.');
    assert(crate::text::is_digit(digits[0]));
    assert(middle[0] == digits[0]);
    assert(crate::text::unsigned_digits(middle) == middle);
    assert(!crate::text::is_digit(middle[digits.len() as int]));
}

/// Decimal texts of different numbers differ.
proof fn lemma_decimal_injective(a: nat, b: nat)
    requires
        crate::text::decimal(a) == crate::text::decimal(b),
    ensures
        a == b,
{
    crate::text::lemma_decimal_value(a);
    crate::text::lemma_decimal_value(b);
}

/// No two segments of a recording share a file, and none is captured into the
/// file of the recording itself, whatever file name that takes an extension the
/// recording has.
pub proof fn segments_have_their_own_files(recording: Seq<char>, a: nat, b: nat)
    requires
        takes_extension(recording),
        a != b,
    ensures
        segment_name(recording, a) != segment_name(recording, b),
        segment_name(recording, a) != recording,
{
    let front = stem(recording) + ".part-"@;
    let one = segment_name(recording, a);
    let other = segment_name(recording, b);
    let end = ".wav"@.len() as int;
    assert(one.subrange(front.len() as int, one.len() - end) =~= crate::text::decimal(a));
    assert(other.subrange(front.len() as int, other.len() - end) =~= crate::text::decimal(b));
    if one == other {
        lemma_decimal_injective(a, b);
    }
    reveal_strlit(".part-");
    reveal_strlit(".wav");
    reveal_strlit("wav");
    assert(one =~= (front + crate::text::decimal(a)).push('.') + "wav"@);
    lemma_last_dot(front + crate::text::decimal(a), "wav"@);
    lemma_last_dot_inside(recording);
    if one == recording {
        assert(stem(recording).len() < last_dot(one));
        assert(one.len() > recording.len() || last_dot(recording) == stem(recording).len());
    }
}

/// The name of a recording, part by part: the date, an underscore, the number in
/// at least three digits and no more than it needs, and `.wav`.
pub proof fn recording_name_part_by_part(date: Seq<char>, number: nat)
    ensures
        ({
            let name = recording_name(date, number);
            let digits = name.subrange((date.len() + 1) as int, name.len() - 4);
            &&& name == date + seq!['_'] + digits + seq!['.', 'w', 'a', 'v']
            &&& crate::text::all_digits(digits)
            &&& crate::text::digits_value(digits) == number
            &&& digits.len() == 3 || (digits.len() > 3 && digits[0] != '0')
        }),
{
    let name = recording_name(date, number);
    let digits = crate::text::padded(number, 3);
    reveal_strlit("_");
    reveal_strlit(".wav");
    crate::text::lemma_padded_value(number, 3);
    crate::text::decimals_are_shortest(number, 3);
    assert(name.subrange((date.len() + 1) as int, name.len() - 4) =~= digits);
    assert(name =~= date + seq!['_'] + digits + seq!['.', 'w', 'a', 'v']);
    if digits.len() > 3 && number == 0 {
        assert(crate::text::decimal(0).len() == 1);
    }
}

/// Exactly these names count as recording `n` of a date: the date, an underscore, a
/// way of writing `n` that fits 32 bits, and `.wav`.
pub proof fn only_numbered_names_count(name: Seq<char>, date: Seq<char>, n: nat)
    ensures
        recording_number(name, date) == Some(n) <==> n <= u32::MAX && exists|
            leading: nat,
            plus: bool,
        |
            name == date + seq!['_'] + #[trigger] crate::text::written_form(n, leading, plus)
                + seq!['.', 'w', 'a', 'v'],
{
    reveal_strlit("_");
    reveal_strlit(".wav");
    let prefix = recording_prefix(date);
    let suffix = seq!['.', 'w', 'a', 'v'];
    assert(".wav"@ =~= suffix);
    assert("_"@ =~= seq!['_']);
    if recording_number(name, date) == Some(n) {
        let middle = name.subrange(prefix.len() as int, name.len() - 4);
        crate::text::only_written_numbers_are_read(middle, n, u32::MAX as nat);
        let (leading, plus) = choose|leading: nat, plus: bool|
            middle == #[trigger] crate::text::written_form(n, leading, plus);
        assert(name =~= prefix + middle + suffix) by {
            assert(name =~= name.take(prefix.len() as int) + middle + name.skip(name.len() - 4));
        }
        assert(name == date + seq!['_'] + crate::text::written_form(n, leading, plus) + suffix);
    }
    if n <= u32::MAX && exists|leading: nat, plus: bool|
        name == date + seq!['_'] + #[trigger] crate::text::written_form(n, leading, plus)
            + suffix {
        let (leading, plus) = choose|leading: nat, plus: bool|
            name == date + seq!['_'] + #[trigger] crate::text::written_form(n, leading, plus)
                + suffix;
        let middle = crate::text::written_form(n, leading, plus);
        crate::text::only_written_numbers_are_read(middle, n, u32::MAX as nat);
        assert(prefix =~= name.take(prefix.len() as int));
        assert(suffix =~= name.skip(name.len() - 4));
        assert(name.subrange(prefix.len() as int, name.len() - 4) =~= middle);
    }
}

/// The highest number of a listing is the maximum: no file has a higher one, and a
/// file has it, unless it is zero.
pub proof fn highest_is_the_maximum(names: Seq<String>, date: Seq<char>)
    ensures
        forall|i: int|
            0 <= i < names.len() && recording_number((#[trigger] names[i])@, date) is Some
                ==> recording_number(names[i]@, date)->0 <= highest_number(names, date),
        highest_number(names, date) == 0 || exists|i: int|
            0 <= i < names.len() && recording_number((#[trigger] names[i])@, date) == Some(
                highest_number(names, date),
            ),
    decreases names.len(),
{
    assert forall|i: int|
        0 <= i < names.len() && recording_number(
            (#[trigger] names[i])@,
            date,
        ) is Some implies recording_number(names[i]@, date)->0 <= highest_number(names, date) by {
        lemma_highest_bounds(names, date, i);
    }
    if names.len() > 0 && highest_number(names, date) != 0 {
        let front = names.drop_last();
        highest_is_the_maximum(front, date);
        let last = names.len() - 1;
        if recording_number(names[last]@, date) != Some(highest_number(names, date)) {
            let i = choose|i: int|
                0 <= i < front.len() && recording_number((#[trigger] front[i])@, date) == Some(
                    highest_number(front, date),
                );
            assert(names[i] == front[i]);
        }
    }
}

/// Listings of the same files, in whatever order and however often each is named,
/// have the same highest number.
pub proof fn order_of_files_does_not_matter(a: Seq<String>, b: Seq<String>, date: Seq<char>)
    requires
        forall|i: int|
            0 <= i < a.len() ==> exists|j: int|
                0 <= j < b.len() && (#[trigger] b[j])@ == (#[trigger] a[i])@,
        forall|j: int|
            0 <= j < b.len() ==> exists|i: int|
                0 <= i < a.len() && (#[trigger] a[i])@ == (#[trigger] b[j])@,
    ensures
        highest_number(a, date) == highest_number(b, date),
{
    highest_is_the_maximum(a, date);
    highest_is_the_maximum(b, date);
    if highest_number(a, date) > highest_number(b, date) {
        let i = choose|i: int|
            0 <= i < a.len() && recording_number((#[trigger] a[i])@, date) == Some(
                highest_number(a, date),
            );
        let j = choose|j: int| 0 <= j < b.len() && (#[trigger] b[j])@ == a[i]@;
        assert(recording_number(b[j]@, date)->0 <= highest_number(b, date));
    }
    if highest_number(b, date) > highest_number(a, date) {
        let j = choose|j: int|
            0 <= j < b.len() && recording_number((#[trigger] b[j])@, date) == Some(
                highest_number(b, date),
            );
        let i = choose|i: int| 0 <= i < a.len() && (#[trigger] a[i])@ == b[j]@;
        assert(recording_number(a[i]@, date)->0 <= highest_number(a, date));
    }
}

/// A new recording is numbered one above a file that is there, or one where no
/// file counts, and above every file. It fails only where a file has the last
/// number of 32 bits.
pub proof fn new_recordings_follow_the_files(media: String, names: Vec<String>, date: Seq<char>)
    ensures
        match recording_to_begin(MediaListing::Files { media, names }, date) {
            Ok(name) => {
                let number = recording_number(name, date);
                &&& number is Some
                &&& name == recording_name(date, number->0)
                &&& forall|i: int|
                    0 <= i < names@.len() && recording_number((#[trigger] names@[i])@, date) is Some
                        ==> recording_number(names@[i]@, date)->0 < number->0
                &&& number->0 == 1 || exists|i: int|
                    0 <= i < names@.len() && recording_number((#[trigger] names@[i])@, date)
                        == Some((number->0 - 1) as nat)
            },
            Err(error) => {
                &&& error == "recording number overflow in "@ + media@
                &&& exists|i: int|
                    0 <= i < names@.len() && recording_number((#[trigger] names@[i])@, date)
                        == Some(u32::MAX as nat)
            },
        },
{
    let highest = highest_number(names@, date);
    highest_is_the_maximum(names@, date);
    lemma_highest_fits(names@, date);
    if highest < u32::MAX {
        recording_name_has_its_number(date, highest + 1);
    }
}

/// Where there is no listing, the answer says what could not be done, where, and
/// why.
pub proof fn missing_listings_are_told(media: String, error: String, date: Seq<char>)
    ensures
        recording_to_begin(MediaListing::NoExecutable(error), date) == Err::<Seq<char>, Seq<char>>(
            "cannot locate executable: "@ + error@,
        ),
        recording_to_begin(MediaListing::NoDirectory, date) == Err::<Seq<char>, Seq<char>>(
            "executable directory is missing"@,
        ),
        recording_to_begin(MediaListing::NotCreated { media, error }, date) == Err::<
            Seq<char>,
            Seq<char>,
        >("cannot create "@ + media@ + ": "@ + error@),
        recording_to_begin(MediaListing::NotReadable { media, error }, date) == Err::<
            Seq<char>,
            Seq<char>,
        >("cannot read "@ + media@ + ": "@ + error@),
{
}

/// What stands behind the last dot of a recording's name is replaced in the names
/// of its segments. A name without a dot, or with one only at its front, is
/// extended. One that is left with two dots stands for a directory.
pub proof fn extensions_are_replaced(front: Seq<char>, back: Seq<char>, index: nat)
    requires
        forall|i: int| 0 <= i < back.len() ==> back[i] != '.',
    ensures
        front.len() > 0 && front != seq!['.'] ==> segment_name(front + seq!['.'] + back, index)
            == front + ".part-"@ + crate::text::decimal(index) + ".wav"@,
        back.len() > 0 ==> segment_name(back, index) == back + ".part-"@ + crate::text::decimal(
            index,
        ) + ".wav"@,
        back.len() > 0 ==> segment_name(seq!['.'] + back, index) == seq!['.'] + back + ".part-"@
            + crate::text::decimal(index) + ".wav"@,
        segment_name(seq!['.', '.'] + back, index) == seq!['.', '.'],
        segment_name(seq!['.'], index) == seq!['.'],
        segment_name(Seq::empty(), index) == Seq::<char>::empty(),
{
    reveal_strlit("");
    reveal_strlit(".");
    reveal_strlit("..");
    assert("."@ =~= seq!['.']);
    assert(""@ =~= Seq::<char>::empty());
    assert(".."@ =~= seq!['.', '.']);
    let whole = front + seq!['.'] + back;
    assert(whole =~= front.push('.') + back);
    lemma_last_dot(front, back);
    if front.len() > 0 && front != seq!['.'] {
        if front.len() == 1 && front[0] == '.' {
            assert(front =~= seq!['.']);
        }
        assert(whole[0] == front[0]);
        assert(stem(whole) =~= front);
    }
    lemma_dotless(back);
    if back.len() > 0 {
        let hidden = seq!['.'] + back;
        assert(hidden =~= Seq::<char>::empty().push('.') + back);
        lemma_last_dot(Seq::empty(), back);
        assert(back[0] != '.');
    }
    let parent = seq!['.', '.'] + back;
    assert(parent =~= seq!['.'].push('.') + back);
    lemma_last_dot(seq!['.'], back);
    assert(seq!['.'] =~= Seq::<char>::empty().push('.') + Seq::<char>::empty());
    lemma_last_dot(Seq::empty(), Seq::empty());
}

/// A name without a dot has none to find.
proof fn lemma_dotless(name: Seq<char>)
    requires
        forall|i: int| 0 <= i < name.len() ==> name[i] != '.',
    ensures
        last_dot(name) == 0,
    decreases name.len(),
{
    if name.len() > 0 {
        assert(name.last() == name[name.len() - 1]);
        lemma_dotless(name.drop_last());
    }
}

/// The date of a recording reads as one number, year before month before day, of
/// eight digits or as many as it needs. A sign stands before it exactly where the
/// year is below zero or has more than four digits.
pub proof fn dates_read_as_numbers(year: int, month: int, day: int)
    requires
        on_calendar(year, month, day),
    ensures
        ({
            let text = day_text(year, month, day);
            let signed = year < 0 || year > 9999;
            let size = if year < 0 {
                -year
            } else {
                year
            };
            let digits = if signed {
                text.skip(1)
            } else {
                text
            };
            &&& signed ==> text[0] == if year < 0 {
                '-'
            } else {
                '+'
            }
            &&& crate::text::all_digits(digits)
            &&& crate::text::digits_value(digits) == size * 10000 + month * 100 + day
            &&& digits.len() == 8 || (digits.len() > 8 && digits[0] != '0')
        }),
{
    let size = if year < 0 {
        (-year) as nat
    } else {
        year as nat
    };
    let years = crate::text::padded(size, 4);
    let months = crate::text::padded(month as nat, 2);
    let days = crate::text::padded(day as nat, 2);
    let digits = years + months + days;
    crate::text::lemma_padded_value(size, 4);
    crate::text::lemma_padded_value(month as nat, 2);
    crate::text::lemma_padded_value(day as nat, 2);
    crate::text::decimals_are_shortest(size, 4);
    assert(vstd::arithmetic::power::pow(10, 2) == 100) by {
        reveal(vstd::arithmetic::power::pow);
        reveal_with_fuel(vstd::arithmetic::power::pow, 3);
    }
    crate::text::small_numbers_are_short(month as nat, 2);
    crate::text::small_numbers_are_short(day as nat, 2);
    crate::text::digits_count_in_tens(years, months, '0');
    crate::text::digits_count_in_tens(years + months, days, '0');
    assert forall|i: int| 0 <= i < digits.len() implies crate::text::is_digit(
        #[trigger] digits[i],
    ) by {
        if i < years.len() {
            assert(digits[i] == years[i]);
        } else if i < years.len() + 2 {
            assert(digits[i] == months[i - years.len()]);
        } else {
            assert(digits[i] == days[i - years.len() - 2]);
        }
    }
    let text = day_text(year, month, day);
    reveal_strlit("-");
    reveal_strlit("+");
    if year < 0 || year > 9999 {
        assert(text.skip(1) =~= digits);
    } else {
        assert(text =~= digits);
    }
    assert(digits[0] == years[0]);
}

/// The calendar: long and short months take turns up to July and again from
/// August, and February has twenty-eight days, and one more in every fourth year
/// but those that end a century which four does not divide.
pub proof fn months_have_their_lengths(year: int, month: int, day: int)
    requires
        -262143 <= year <= 262142,
        1 <= month <= 12,
    ensures
        month != 2 ==> (on_calendar(year, month, day) <==> 1 <= day <= 30 + (month + month / 8)
            % 2),
        on_calendar(year, 2, day) <==> 1 <= day <= 28 || (day == 29 && if year % 100 == 0 {
            (year / 100) % 4 == 0
        } else {
            year % 4 == 0
        }),
{
}

} // verus!
