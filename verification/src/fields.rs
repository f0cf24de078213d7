//! The building blocks of the protocol's grammar: a line is split at its
//! commas into fields, a field is trimmed of blanks, and numbers are written
//! and read in decimal.

use vstd::prelude::*;
use crate::strings::push_char;

verus! {

/// The character that separates the fields of a line.
pub const COMMA: char = ',';

/// The blank characters that are trimmed off a field: those with the Unicode
/// property `White_Space`.
pub open spec fn is_blank(c: char) -> bool {
    let u = c as u32;
    ||| 0x09 <= u <= 0x0d
    ||| u == 0x20
    ||| u == 0x85
    ||| u == 0xa0
    ||| u == 0x1680
    ||| 0x2000 <= u <= 0x200a
    ||| u == 0x2028
    ||| u == 0x2029
    ||| u == 0x202f
    ||| u == 0x205f
    ||| u == 0x3000
}

/// `s` without the blanks at its start.
pub open spec fn trim_start(s: Seq<char>) -> Seq<char>
    decreases s.len(),
{
    if s.len() > 0 && is_blank(s[0]) {
        trim_start(s.skip(1))
    } else {
        s
    }
}

/// `s` without the blanks at its end.
pub open spec fn trim_end(s: Seq<char>) -> Seq<char>
    decreases s.len(),
{
    if s.len() > 0 && is_blank(s.last()) {
        trim_end(s.drop_last())
    } else {
        s
    }
}

/// `s` without the blanks at its start and at its end.
pub open spec fn trim(s: Seq<char>) -> Seq<char> {
    trim_end(trim_start(s))
}

/// The fields of `s`: the pieces between its commas, in order. A text of
/// `n` commas has `n + 1` fields, empty ones among them.
pub open spec fn split(s: Seq<char>) -> Seq<Seq<char>>
    decreases s.len(),
{
    if s.len() == 0 {
        seq![Seq::<char>::empty()]
    } else {
        let before = split(s.drop_last());
        if s.last() == COMMA {
            before.push(Seq::<char>::empty())
        } else {
            before.update(before.len() - 1, before.last().push(s.last()))
        }
    }
}

/// The fields of `s`, each trimmed.
pub open spec fn fields(s: Seq<char>) -> Seq<Seq<char>> {
    split(s).map_values(|f: Seq<char>| trim(f))
}

/// A text always has a first field, and trimming keeps the number of fields.
pub proof fn lemma_split_nonempty(s: Seq<char>)
    ensures
        split(s).len() >= 1,
        fields(s).len() == split(s).len(),
    decreases s.len(),
{
    if s.len() > 0 {
        lemma_split_nonempty(s.drop_last());
    }
}

/// No comma lies in `s`.
pub open spec fn comma_free(s: Seq<char>) -> bool {
    forall|i: int| 0 <= i < s.len() ==> s[i] != COMMA
}

/// A text without a comma is its own single field. With the law of the first
/// comma this tells the fields of any given line.
pub proof fn law_split_without_comma(s: Seq<char>)
    requires
        comma_free(s),
    ensures
        split(s) == seq![s],
    decreases s.len(),
{
    if s.len() == 0 {
        assert(s =~= Seq::<char>::empty());
    } else {
        law_split_without_comma(s.drop_last());
        assert(s.drop_last().push(s.last()) =~= s);
    }
}

/// The first field of a text is what stands before its first comma, and the
/// other fields are those of what stands behind that comma.
pub proof fn law_split_at_first_comma(first: Seq<char>, rest: Seq<char>)
    requires
        comma_free(first),
    ensures
        split(first + seq![COMMA] + rest) == seq![first] + split(rest),
    decreases rest.len(),
{
    let s = first + seq![COMMA] + rest;
    if rest.len() == 0 {
        assert(s.drop_last() =~= first);
        law_split_without_comma(first);
    } else {
        let shorter = rest.drop_last();
        assert(s.drop_last() =~= first + seq![COMMA] + shorter);
        law_split_at_first_comma(first, shorter);
        lemma_split_nonempty(shorter);
    }
}

/// A text that neither begins nor ends with a blank is trimmed already.
pub proof fn law_trim_of_clean_text(s: Seq<char>)
    requires
        s.len() > 0 ==> !is_blank(s[0]) && !is_blank(s.last()),
    ensures
        trim(s) == s,
{
}

/// `c` is one of the ten decimal digits.
pub open spec fn is_digit(c: char) -> bool {
    '0' <= c <= '9'
}

/// Every character of `s` is a decimal digit.
pub open spec fn all_digits(s: Seq<char>) -> bool {
    forall|i: int| 0 <= i < s.len() ==> is_digit(#[trigger] s[i])
}

/// The number that the digits of `s` write in decimal.
pub open spec fn digits_value(s: Seq<char>) -> nat
    decreases s.len(),
{
    if s.len() == 0 {
        0
    } else {
        (digits_value(s.drop_last()) * 10 + (s.last() as u32 - '0' as u32)) as nat
    }
}

/// The integer that `s` writes: an optional sign, `+` or `-`, and then one
/// decimal digit or more, with nothing before, between or after.
pub open spec fn parse_int(s: Seq<char>) -> Option<int> {
    let negative = s.len() > 0 && s[0] == '-';
    let digits = if s.len() > 0 && (s[0] == '-' || s[0] == '+') {
        s.skip(1)
    } else {
        s
    };
    if digits.len() == 0 || !all_digits(digits) {
        None
    } else if negative {
        Some(-(digits_value(digits) as int))
    } else {
        Some(digits_value(digits) as int)
    }
}

/// The `isize` that `s` writes, if it writes an integer and that fits.
pub open spec fn parse_isize_spec(s: Seq<char>) -> Option<isize> {
    match parse_int(s) {
        Some(v) => if isize::MIN <= v <= isize::MAX {
            Some(v as isize)
        } else {
            None
        },
        None => None,
    }
}

/// The digit that stands for `d`, which is less than ten.
pub open spec fn digit(d: nat) -> char {
    ('0' as u32 + d) as char
}

/// The digits of `n` in decimal, none for 0.
pub open spec fn digits_of(n: nat) -> Seq<char>
    decreases n,
{
    if n == 0 {
        Seq::empty()
    } else {
        digits_of(n / 10).push(digit(n % 10))
    }
}

/// `n` written in decimal, without leading zeros.
pub open spec fn decimal(n: nat) -> Seq<char> {
    if n == 0 {
        seq!['0']
    } else {
        digits_of(n)
    }
}

/// A number is written with digits only, and with one at least.
pub proof fn lemma_decimal_digits(n: nat)
    ensures
        all_digits(decimal(n)),
        decimal(n).len() > 0,
    decreases n,
{
    if n >= 10 {
        lemma_decimal_digits(n / 10);
        assert(decimal(n / 10) == digits_of(n / 10));
    } else if n > 0 {
        assert(digits_of(n / 10) =~= Seq::<char>::empty());
    }
    if n > 0 {
        let d = digit(n % 10);
        assert(is_digit(d));
        assert forall|i: int| 0 <= i < decimal(n).len() implies is_digit(
            #[trigger] decimal(n)[i],
        ) by {
            if i < digits_of(n / 10).len() {
                assert(decimal(n)[i] == digits_of(n / 10)[i]);
            }
        }
    }
}

/// Whether `c` is a blank.
pub fn blank(c: char) -> (b: bool)
    ensures
        b == is_blank(c),
{
    let u = c as u32;
    (0x09 <= u && u <= 0x0d) || u == 0x20 || u == 0x85 || u == 0xa0 || u == 0x1680 || (0x2000 <= u
        && u <= 0x200a) || u == 0x2028 || u == 0x2029 || u == 0x202f || u == 0x205f || u == 0x3000
}

/// Whether two texts hold the same characters.
pub fn same_chars(a: &Vec<char>, b: &Vec<char>) -> (same: bool)
    ensures
        same == (a@ == b@),
{
    if a.len() != b.len() {
        return false;
    }
    let mut i: usize = 0;
    while i < a.len()
        invariant
            i <= a@.len() == b@.len(),
            a@.take(i as int) == b@.take(i as int),
        decreases a@.len() - i,
    {
        if a[i] != b[i] {
            return false;
        }
        i += 1;
    }
    assert(a@.take(i as int) =~= a@);
    assert(b@.take(i as int) =~= b@);
    true
}

/// `s` without the blanks at its start and at its end.
pub fn trimmed(s: &Vec<char>) -> (t: Vec<char>)
    ensures
        t@ == trim(s@),
{
    let mut from: usize = 0;
    assert(s@.skip(0) =~= s@);
    while from < s.len() && blank(s[from])
        invariant
            from <= s@.len(),
            trim_start(s@) == trim_start(s@.skip(from as int)),
        decreases s@.len() - from,
    {
        assert(s@.skip(from as int).skip(1) =~= s@.skip(from as int + 1));
        from += 1;
    }
    let mut to: usize = s.len();
    while to > from && blank(s[to - 1])
        invariant
            from <= to <= s@.len(),
            trim(s@) == trim_end(s@.subrange(from as int, to as int)),
        decreases to - from,
    {
        assert(s@.subrange(from as int, to as int).drop_last() =~= s@.subrange(
            from as int,
            to as int - 1,
        ));
        to -= 1;
    }
    let mut t: Vec<char> = Vec::new();
    let mut i: usize = from;
    while i < to
        invariant
            from <= i <= to <= s@.len(),
            t@ == s@.subrange(from as int, i as int),
        decreases to - i,
    {
        t.push(s[i]);
        i += 1;
    }
    t
}

/// The texts that a vector of fields holds.
pub open spec fn views(v: Seq<Vec<char>>) -> Seq<Seq<char>> {
    v.map_values(|f: Vec<char>| f@)
}

/// The fields of `line`, each trimmed.
pub fn split_fields(line: &Vec<char>) -> (out: Vec<Vec<char>>)
    ensures
        views(out@) == fields(line@),
{
    let mut out: Vec<Vec<char>> = Vec::new();
    let mut current: Vec<char> = Vec::new();
    let mut i: usize = 0;
    while i < line.len()
        invariant
            i <= line@.len(),
            split(line@.take(i as int)) == views(out@).push(current@),
        decreases line@.len() - i,
    {
        let c = line[i];
        assert(line@.take(i as int + 1).drop_last() =~= line@.take(i as int));
        if c == COMMA {
            out.push(current);
            current = Vec::new();
        } else {
            current.push(c);
        }
        i += 1;
    }
    assert(line@.take(i as int) =~= line@);
    out.push(current);
    let ghost raw = views(out@);
    let mut k: usize = 0;
    while k < out.len()
        invariant
            k <= out@.len() == raw.len(),
            raw == split(line@),
            forall|j: int| 0 <= j < k ==> (#[trigger] out@[j])@ == trim(raw[j]),
            forall|j: int| k <= j < out@.len() ==> (#[trigger] out@[j])@ == raw[j],
        decreases out@.len() - k,
    {
        let t = trimmed(&out[k]);
        out.set(k, t);
        k += 1;
    }
    out
}

/// Digits write at least what any of their prefixes writes.
pub proof fn lemma_digits_value_prefix(s: Seq<char>, k: int)
    requires
        all_digits(s),
        0 <= k <= s.len(),
    ensures
        digits_value(s.take(k)) <= digits_value(s),
    decreases s.len(),
{
    if k == s.len() {
        assert(s.take(k) =~= s);
    } else {
        assert(s.drop_last().take(k) =~= s.take(k));
        lemma_digits_value_prefix(s.drop_last(), k);
    }
}

/// Reads the `isize` that `s` writes in decimal: `None` where `s` is no
/// integer or the integer does not fit.
pub fn read_isize(s: &Vec<char>) -> (r: Option<isize>)
    ensures
        r == parse_isize_spec(s@),
{
    let n = s.len();
    if n == 0 {
        return None;
    }
    let negative = s[0] == '-';
    let start: usize = if negative || s[0] == '+' {
        1
    } else {
        0
    };
    let ghost digits = s@.skip(start as int);
    assert(s@.skip(0) =~= s@);
    if start == n {
        return None;
    }
    let limit: u128 = if negative {
        isize::MAX as u128 + 1
    } else {
        isize::MAX as u128
    };
    let mut acc: u128 = 0;
    let mut i: usize = start;
    while i < n
        invariant
            start <= i <= n == s@.len(),
            start < n,
            negative == (s@[0] == '-'),
            start == if s@[0] == '-' || s@[0] == '+' { 1int } else { 0int },
            limit == if negative { isize::MAX + 1 } else { isize::MAX as int },
            digits == s@.skip(start as int),
            all_digits(digits.take(i - start)),
            acc == digits_value(digits.take(i - start)),
            acc <= limit <= isize::MAX + 1,
        decreases n - i,
    {
        let c = s[i];
        if !('0' <= c && c <= '9') {
            return None;
        }
        let d = (c as u32 - '0' as u32) as u128;
        assert(digits.take(i - start + 1).drop_last() =~= digits.take(i - start));
        acc = acc * 10 + d;
        if acc > limit {
            proof {
                assert(s@.skip(0) =~= s@);
                if all_digits(digits) {
                    lemma_digits_value_prefix(digits, i - start + 1);
                }
            }
            return None;
        }
        i += 1;
    }
    assert(digits.take(i - start) =~= digits);
    if !negative {
        Some(acc as isize)
    } else if acc == limit {
        Some(isize::MIN)
    } else {
        Some(-(acc as isize))
    }
}

/// The digit that stands for `d`.
fn digit_char(d: u8) -> (c: char)
    requires
        d < 10,
    ensures
        c == digit(d as nat),
{
    match d {
        0 => '0',
        1 => '1',
        2 => '2',
        3 => '3',
        4 => '4',
        5 => '5',
        6 => '6',
        7 => '7',
        8 => '8',
        _ => '9',
    }
}

/// Appends `n`, written in decimal, to `out`.
pub fn push_decimal(out: &mut String, n: u128)
    ensures
        final(out)@ == old(out)@ + decimal(n as nat),
{
    if n == 0 {
        push_char(out, '0');
        return ;
    }
    let mut low: Vec<char> = Vec::new();
    let mut m: u128 = n;
    while m > 0
        invariant
            digits_of(n as nat) == digits_of(m as nat) + low@.reverse(),
        decreases m,
    {
        low.push(digit_char((m % 10) as u8));
        m = m / 10;
    }
    let mut k: usize = low.len();
    while k > 0
        invariant
            k <= low@.len(),
            out@ == old(out)@ + low@.reverse().take(low@.len() - k),
        decreases k,
    {
        k -= 1;
        push_char(out, low[k]);
    }
}

} // verus!
