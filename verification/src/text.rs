//! Texts: how counters and file numbers are written in decimal and read back, and
//! what optional texts and answers hold.

use vstd::prelude::*;

verus! {

/// The character of a decimal digit.
pub open spec fn digit(d: nat) -> char {
    (48 + d) as char
}

/// `n` in decimal, without leading zeros.
pub open spec fn decimal(n: nat) -> Seq<char>
    decreases n,
{
    if n < 10 {
        seq![digit(n)]
    } else {
        decimal(n / 10).push(digit(n % 10))
    }
}

/// A run of `k` zeros.
pub open spec fn zeros(k: nat) -> Seq<char> {
    Seq::new(k, |i: int| '0')
}

/// `n` in decimal, filled up with leading zeros to at least `width` characters.
pub open spec fn padded(n: nat, width: nat) -> Seq<char> {
    if decimal(n).len() < width {
        zeros((width - decimal(n).len()) as nat) + decimal(n)
    } else {
        decimal(n)
    }
}

/// Whether `c` is one of the ten ASCII digits.
pub open spec fn is_digit(c: char) -> bool {
    '0' <= c <= '9'
}

/// Whether every character of `s` is a digit.
pub open spec fn all_digits(s: Seq<char>) -> bool {
    forall|i: int| 0 <= i < s.len() ==> is_digit(#[trigger] s[i])
}

/// The number that a run of digits denotes.
pub open spec fn digits_value(s: Seq<char>) -> nat
    decreases s.len(),
{
    if s.len() == 0 {
        0
    } else {
        digits_value(s.drop_last()) * 10 + (s.last() as nat - 48) as nat
    }
}

/// The digits of an unsigned number: what is left of `s` behind one leading `+`.
pub open spec fn unsigned_digits(s: Seq<char>) -> Seq<char> {
    if s.len() > 0 && s[0] == '+' {
        s.skip(1)
    } else {
        s
    }
}

/// The unsigned number that `s` denotes: one or more digits behind an optional
/// `+`. Any other text denotes none.
pub open spec fn unsigned(s: Seq<char>) -> Option<nat> {
    if unsigned_digits(s).len() > 0 && all_digits(unsigned_digits(s)) {
        Some(digits_value(unsigned_digits(s)))
    } else {
        None
    }
}

/// The unsigned number that `s` denotes, as far as it is at most `max`.
pub open spec fn unsigned_at_most(s: Seq<char>, max: nat) -> Option<nat> {
    match unsigned(s) {
        Some(n) => if n <= max {
            Some(n)
        } else {
            None
        },
        None => None,
    }
}

/// An answer with its message as text.
pub open spec fn answer(r: Result<(), String>) -> Result<(), Seq<char>> {
    match r {
        Ok(_) => Ok(()),
        Err(e) => Err(e@),
    }
}

/// An optional text.
pub open spec fn optional(s: Option<String>) -> Option<Seq<char>> {
    match s {
        Some(t) => Some(t@),
        None => None,
    }
}

/// The text of one digit.
fn digit_text(d: u8) -> (r: &'static str)
    requires
        d < 10,
    ensures
        r@ == seq![digit(d as nat)],
{
    proof {
        reveal_strlit("0");
        reveal_strlit("1");
        reveal_strlit("2");
        reveal_strlit("3");
        reveal_strlit("4");
        reveal_strlit("5");
        reveal_strlit("6");
        reveal_strlit("7");
        reveal_strlit("8");
        reveal_strlit("9");
    }
    match d {
        0 => "0",
        1 => "1",
        2 => "2",
        3 => "3",
        4 => "4",
        5 => "5",
        6 => "6",
        7 => "7",
        8 => "8",
        _ => "9",
    }
}

/// Appends `n` in decimal.
pub fn push_decimal(out: &mut String, n: u64)
    ensures
        final(out)@ == old(out)@ + decimal(n as nat),
    decreases n,
{
    if n >= 10 {
        push_decimal(out, n / 10);
    }
    out.append(digit_text((n % 10) as u8));
    assert(out@ =~= old(out)@ + decimal(n as nat));
}

/// `n` in decimal.
pub fn decimal_text(n: u64) -> (r: String)
    ensures
        r@ == decimal(n as nat),
{
    let mut out = String::new();
    push_decimal(&mut out, n);
    assert(out@ =~= decimal(n as nat));
    out
}

/// `n` in decimal, with leading zeros up to `width` characters.
pub fn padded_text(n: u64, width: usize) -> (r: String)
    ensures
        r@ == padded(n as nat, width as nat),
{
    let digits: String = decimal_text(n);
    let len: usize = digits.as_str().unicode_len();
    let mut out = String::new();
    let mut filled: usize = len;
    while filled < width
        invariant
            len == digits@.len(),
            len <= filled,
            filled <= width || filled == len,
            out@ == zeros((filled - len) as nat),
        decreases width - filled,
    {
        proof {
            reveal_strlit("0");
        }
        out.append("0");
        filled = filled + 1;
        assert(out@ =~= zeros((filled - len) as nat));
    }
    out.append(digits.as_str());
    assert(out@ =~= padded(n as nat, width as nat));
    out
}

/// The characters of a text.
pub fn chars_of(s: &str) -> (r: Vec<char>)
    ensures
        r@ == s@,
{
    let mut out: Vec<char> = Vec::new();
    for c in it: s.chars()
        invariant
            it.seq() == s@,
            out@ == s@.take(it.index() as int),
    {
        out.push(c);
        assert(out@ =~= s@.take(it.index() as int + 1));
    }
    assert(out@ =~= s@);
    out
}

/// Reads an unsigned 32-bit number out of `chars[from..to]`: one or more digits
/// behind an optional `+`, up to `u32::MAX`.
pub fn parse_u32(chars: &Vec<char>, from: usize, to: usize) -> (r: Option<u32>)
    requires
        from <= to <= chars@.len(),
    ensures
        match r {
            Some(n) => unsigned_at_most(chars@.subrange(from as int, to as int), u32::MAX as nat)
                == Some(n as nat),
            None => unsigned_at_most(
                chars@.subrange(from as int, to as int),
                u32::MAX as nat,
            ) is None,
        },
{
    let ghost text = chars@.subrange(from as int, to as int);
    let mut start: usize = from;
    if from < to && chars[from] == '+' {
        start = from + 1;
    }
    let ghost digits = chars@.subrange(start as int, to as int);
    assert(digits =~= unsigned_digits(text));
    if start == to {
        return None;
    }
    let mut value: u64 = 0;
    let mut fits: bool = true;
    let mut i: usize = start;
    while i < to
        invariant
            from <= start <= i <= to <= chars@.len(),
            digits == chars@.subrange(start as int, to as int),
            text == chars@.subrange(from as int, to as int),
            digits == unsigned_digits(text),
            digits.len() > 0,
            all_digits(digits.take(i - start)),
            fits ==> value == digits_value(digits.take(i - start)) && value <= u32::MAX,
            !fits ==> digits_value(digits.take(i - start)) > u32::MAX,
        decreases to - i,
    {
        let c: char = chars[i];
        let ghost seen = digits.take(i - start);
        let ghost next = digits.take(i - start + 1);
        assert(next.drop_last() =~= seen);
        assert(next.last() == c);
        assert(digits[i - start] == c);
        if c < '0' || '9' < c {
            assert(!is_digit(digits[i - start]));
            return None;
        }
        let d: u64 = (c as u32 - 48) as u64;
        assert(digits_value(next) == digits_value(seen) * 10 + d);
        if fits {
            value = value * 10 + d;
            fits = value <= u32::MAX as u64;
        }
        assert(all_digits(next)) by {
            assert forall|j: int| 0 <= j < next.len() implies is_digit(#[trigger] next[j]) by {
                if j < seen.len() {
                    assert(seen[j] == next[j]);
                }
            }
        }
        i = i + 1;
    }
    assert(digits.take(to - start) =~= digits);
    if fits {
        Some(value as u32)
    } else {
        None
    }
}

/// A number in decimal is a nonempty run of digits that denotes the number.
pub proof fn lemma_decimal_value(n: nat)
    ensures
        decimal(n).len() > 0,
        all_digits(decimal(n)),
        digits_value(decimal(n)) == n,
    decreases n,
{
    if n >= 10 {
        lemma_decimal_value(n / 10);
        let front = decimal(n / 10);
        assert(decimal(n).drop_last() =~= front);
        assert forall|i: int| 0 <= i < decimal(n).len() implies is_digit(
            #[trigger] decimal(n)[i],
        ) by {
            if i < front.len() {
                assert(decimal(n)[i] == front[i]);
            }
        }
    } else {
        assert(decimal(n).drop_last() =~= Seq::<char>::empty());
        assert(digits_value(decimal(n).drop_last()) == 0);
    }
}

/// Leading zeros do not change the number that a run of digits denotes.
proof fn lemma_leading_zeros(k: nat, s: Seq<char>)
    ensures
        digits_value(zeros(k) + s) == digits_value(s),
    decreases s.len(), k,
{
    if s.len() > 0 {
        lemma_leading_zeros(k, s.drop_last());
        assert((zeros(k) + s).drop_last() =~= zeros(k) + s.drop_last());
    } else if k > 0 {
        lemma_leading_zeros((k - 1) as nat, s);
        assert((zeros(k) + s).drop_last() =~= zeros((k - 1) as nat) + s);
    } else {
        assert(zeros(k) + s =~= s);
    }
}

/// A padded number is a run of at least `width` digits that denotes the number.
pub proof fn lemma_padded_value(n: nat, width: nat)
    ensures
        padded(n, width).len() > 0,
        padded(n, width).len() >= width,
        all_digits(padded(n, width)),
        digits_value(padded(n, width)) == n,
{
    lemma_decimal_value(n);
    if decimal(n).len() < width {
        let k = (width - decimal(n).len()) as nat;
        lemma_leading_zeros(k, decimal(n));
        assert forall|i: int| 0 <= i < padded(n, width).len() implies is_digit(
            #[trigger] padded(n, width)[i],
        ) by {
            if i >= k {
                assert(padded(n, width)[i] == decimal(n)[i - k]);
            }
        }
    }
}

/// A number that was written, with or without leading zeros, is read back as
/// the same number, whatever the upper limit that it keeps to.
pub proof fn written_number_reads_back(n: nat, width: nat, max: nat)
    requires
        n <= max,
    ensures
        unsigned_at_most(decimal(n), max) == Some(n),
        unsigned_at_most(padded(n, width), max) == Some(n),
{
    lemma_decimal_value(n);
    lemma_padded_value(n, width);
    assert(is_digit(decimal(n)[0]));
    assert(is_digit(padded(n, width)[0]));
}

/// A digit's character stands behind `0` by as much as the digit counts, and no
/// other character is a digit.
pub proof fn digits_are_ten_characters(c: char, d: nat)
    ensures
        d < 10 ==> digit(d) as nat == '0' as nat + d,
        is_digit(c) <==> exists|n: nat| n < 10 && c == #[trigger] digit(n),
{
    if is_digit(c) {
        let n = (c as nat - 48) as nat;
        assert(n < 10 && c == digit(n));
    }
}

/// Digits count in tens: what stands before a run of digits counts ten times as
/// much for each of them, and a digit on its own counts what it says.
pub proof fn digits_count_in_tens(front: Seq<char>, back: Seq<char>, c: char)
    ensures
        digits_value(front + back) == digits_value(front) * vstd::arithmetic::power::pow(
            10,
            back.len(),
        ) + digits_value(back),
        is_digit(c) ==> digits_value(seq![c]) == c as nat - '0' as nat,
        digits_value(Seq::<char>::empty()) == 0,
    decreases back.len(),
{
    reveal(vstd::arithmetic::power::pow);
    assert(seq![c].drop_last() =~= Seq::<char>::empty());
    assert(digits_value(seq![c].drop_last()) == 0);
    if back.len() == 0 {
        assert(front + back =~= front);
    } else {
        let fewer = back.drop_last();
        digits_count_in_tens(front, fewer, c);
        assert((front + back).drop_last() =~= front + fewer);
        let value = digits_value(front) as int;
        let scale = vstd::arithmetic::power::pow(10, fewer.len());
        assert((value * scale) * 10 == value * (10 * scale)) by (nonlinear_arith);
    }
}

/// Runs of digits of the same length that denote the same number are the same.
pub proof fn digits_are_unique(a: Seq<char>, b: Seq<char>)
    requires
        all_digits(a),
        all_digits(b),
        a.len() == b.len(),
        digits_value(a) == digits_value(b),
    ensures
        a == b,
    decreases a.len(),
{
    if a.len() > 0 {
        assert(is_digit(a[a.len() - 1]) && is_digit(b[b.len() - 1]));
        assert forall|i: int| 0 <= i < a.len() - 1 implies is_digit(
            #[trigger] a.drop_last()[i],
        ) by {
            assert(is_digit(a[i]));
        }
        assert forall|i: int| 0 <= i < b.len() - 1 implies is_digit(
            #[trigger] b.drop_last()[i],
        ) by {
            assert(is_digit(b[i]));
        }
        digits_are_unique(a.drop_last(), b.drop_last());
        assert(a =~= a.drop_last().push(a.last()));
        assert(b =~= b.drop_last().push(b.last()));
    }
    assert(a =~= b);
}

/// A number in decimal has no leading zero, but for zero itself, which is one
/// digit. Padding fills up to the width and no further.
pub proof fn decimals_are_shortest(n: nat, width: nat)
    ensures
        n > 0 ==> decimal(n)[0] != '0',
        n == 0 ==> decimal(n).len() == 1,
        padded(n, width).len() == if decimal(n).len() < width {
            width
        } else {
            decimal(n).len()
        },
    decreases n,
{
    if n >= 10 {
        decimals_are_shortest(n / 10, width);
        lemma_decimal_value(n / 10);
    }
}

/// A number below ten to the power of `width` takes at most `width` digits.
pub proof fn small_numbers_are_short(n: nat, width: nat)
    requires
        width > 0,
        n < vstd::arithmetic::power::pow(10, width),
    ensures
        decimal(n).len() <= width,
        padded(n, width).len() == width,
    decreases width,
{
    reveal(vstd::arithmetic::power::pow);
    if n >= 10 {
        if width == 1 {
            assert(vstd::arithmetic::power::pow(10, 0) == 1);
        }
        small_numbers_are_short(n / 10, (width - 1) as nat);
    }
}

/// The ways of writing a number: an optional `+`, any leading zeros, and the number
/// in decimal.
pub open spec fn written_form(n: nat, leading: nat, plus: bool) -> Seq<char> {
    let digits = Seq::new(leading, |i: int| '0') + decimal(n);
    if plus {
        seq!['+'] + digits
    } else {
        digits
    }
}

/// A run of digits is the number that it denotes behind leading zeros.
proof fn lemma_strip_zeros(digits: Seq<char>) -> (leading: nat)
    requires
        digits.len() > 0,
        all_digits(digits),
    ensures
        digits == zeros(leading) + decimal(digits_value(digits)),
    decreases digits.len(),
{
    let front = digits.drop_last();
    let d = (digits.last() as nat - 48) as nat;
    assert(is_digit(digits[digits.len() - 1]));
    assert(digits.last() == digit(d));
    assert(digits =~= front.push(digits.last()));
    if front.len() == 0 {
        assert(digits_value(front) == 0);
        assert(digits =~= zeros(0) + decimal(d));
        0
    } else {
        assert forall|i: int| 0 <= i < front.len() implies is_digit(#[trigger] front[i]) by {
            assert(is_digit(digits[i]));
        }
        let leading = lemma_strip_zeros(front);
        let m = digits_value(front);
        if m == 0 {
            assert(digits =~= zeros(leading + 1) + decimal(d));
            leading + 1
        } else {
            assert((m * 10 + d) / 10 == m && (m * 10 + d) % 10 == d);
            assert(digits =~= zeros(leading) + decimal(m * 10 + d));
            leading
        }
    }
}

/// Exactly the ways of writing a number are read as that number, up to the limit:
/// no other sign, no other character and no empty text is read as one.
pub proof fn only_written_numbers_are_read(s: Seq<char>, n: nat, max: nat)
    ensures
        unsigned_at_most(s, max) == Some(n) <==> n <= max && exists|leading: nat, plus: bool|
            s == #[trigger] written_form(n, leading, plus),
{
    if unsigned_at_most(s, max) == Some(n) {
        let digits = unsigned_digits(s);
        let leading = lemma_strip_zeros(digits);
        assert(zeros(leading) =~= Seq::new(leading, |i: int| '0'));
        if s[0] == '+' {
            assert(s =~= written_form(n, leading, true));
        } else {
            assert(s =~= written_form(n, leading, false));
        }
    }
    if n <= max && exists|leading: nat, plus: bool| s == #[trigger] written_form(n, leading, plus) {
        let (leading, plus) = choose|leading: nat, plus: bool|
            s == #[trigger] written_form(n, leading, plus);
        let digits = zeros(leading) + decimal(n);
        assert(Seq::new(leading, |i: int| '0') =~= zeros(leading));
        lemma_decimal_value(n);
        lemma_leading_zeros(leading, decimal(n));
        assert forall|i: int| 0 <= i < digits.len() implies is_digit(#[trigger] digits[i]) by {
            if i >= leading {
                assert(digits[i] == decimal(n)[i - leading]);
            }
        }
        assert(is_digit(digits[0]));
        if plus {
            assert(s.skip(1) =~= digits);
        }
        assert(unsigned_digits(s) == digits);
    }
}

/// An answer and an optional text keep their text.
pub proof fn texts_are_kept(text: String)
    ensures
        answer(Err(text)) == Err::<(), Seq<char>>(text@),
        answer(Ok(())) == Ok::<(), Seq<char>>(()),
        optional(Some(text)) == Some(text@),
        optional(None) is None,
{
}

} // verus!
