//! Small exact tools on text: decimal numbers, trimming and splitting.

use vstd::prelude::*;
use vstd::slice::slice_subrange;
use vstd::string::*;

verus! {

/// The decimal digit that stands for `d`, for `d` below ten.
pub open spec fn digit_char(d: nat) -> char {
    (48 + d) as char
}

/// The usual decimal form of `n`, without leading zeros.
pub open spec fn decimal_text(n: nat) -> Seq<char>
    decreases n,
{
    if n < 10 {
        seq![digit_char(n)]
    } else {
        decimal_text(n / 10).push(digit_char(n % 10))
    }
}

fn digit_str(d: u64) -> (r: &'static str)
    requires
        d < 10,
    ensures
        r@ == seq![digit_char(d as nat)],
{
    proof {
        reveal_strlit("0");
        reveal_strlit("1");
        reveal_strlit("2");
        reveal_strlit("3");
        reveal_strlit("4");
        reveal_strlit("5");
        reveal_strlit("6");
        reveal_strlit("7");
        reveal_strlit("8");
        reveal_strlit("9");
    }
    match d {
        0 => "0",
        1 => "1",
        2 => "2",
        3 => "3",
        4 => "4",
        5 => "5",
        6 => "6",
        7 => "7",
        8 => "8",
        _ => "9",
    }
}

/// Writes `n` in decimal.
pub fn decimal(n: u64) -> (r: String)
    ensures
        r@ == decimal_text(n as nat),
    decreases n,
{
    if n < 10 {
        digit_str(n).to_owned()
    } else {
        let mut text = decimal(n / 10);
        text.append(digit_str(n % 10));
        assert(text@ =~= decimal_text(n as nat));
        text
    }
}

/// Whether `c` has the Unicode property `White_Space`.
pub open spec fn is_space(c: char) -> bool {
    let code = c as u32;
    ||| 9 <= code <= 13
    ||| code == 32
    ||| code == 0x85
    ||| code == 0xa0
    ||| code == 0x1680
    ||| 0x2000 <= code <= 0x200a
    ||| code == 0x2028
    ||| code == 0x2029
    ||| code == 0x202f
    ||| code == 0x205f
    ||| code == 0x3000
}

/// Tests for the Unicode property `White_Space`.
pub fn is_whitespace(c: char) -> (r: bool)
    ensures
        r == is_space(c),
{
    let code: u32 = c as u32;
    (9 <= code && code <= 13) || code == 32 || code == 0x85 || code == 0xa0 || code == 0x1680 || (
    0x2000 <= code && code <= 0x200a) || code == 0x2028 || code == 0x2029 || code == 0x202f || code
        == 0x205f || code == 0x3000
}

/// `s` without the white space that it starts with.
pub open spec fn trimmed_start(s: Seq<char>) -> Seq<char>
    decreases s.len(),
{
    if s.len() > 0 && is_space(s[0]) {
        trimmed_start(s.drop_first())
    } else {
        s
    }
}

/// `s` without the white space that it ends with.
pub open spec fn trimmed_end(s: Seq<char>) -> Seq<char>
    decreases s.len(),
{
    if s.len() > 0 && is_space(s.last()) {
        trimmed_end(s.drop_last())
    } else {
        s
    }
}

/// `s` without the white space around it.
pub open spec fn trimmed(s: Seq<char>) -> Seq<char> {
    trimmed_end(trimmed_start(s))
}

/// Removes the white space around `s`.
pub fn trim(s: &[char]) -> (r: &[char])
    ensures
        r@ == trimmed(s@),
{
    let len: usize = s.len();
    let mut start: usize = 0;
    assert(s@.subrange(0, len as int) =~= s@);
    while start < len && is_whitespace(s[start])
        invariant
            len == s@.len(),
            start <= len,
            trimmed_start(s@) == trimmed_start(s@.subrange(start as int, len as int)),
        decreases len - start,
    {
        proof {
            let rest = s@.subrange(start as int, len as int);
            assert(rest[0] == s@[start as int]);
            assert(rest.drop_first() =~= s@.subrange(start + 1, len as int));
        }
        start = start + 1;
    }
    proof {
        let rest = s@.subrange(start as int, len as int);
        if start < len {
            assert(rest[0] == s@[start as int]);
        }
        assert(trimmed_start(s@) == rest);
    }
    let mut end: usize = len;
    while start < end && is_whitespace(s[end - 1])
        invariant
            len == s@.len(),
            start <= end <= len,
            trimmed_end(s@.subrange(start as int, len as int)) == trimmed_end(
                s@.subrange(start as int, end as int),
            ),
        decreases end,
    {
        proof {
            let rest = s@.subrange(start as int, end as int);
            assert(rest.last() == s@[end - 1]);
            assert(rest.drop_last() =~= s@.subrange(start as int, end - 1));
        }
        end = end - 1;
    }
    proof {
        let rest = s@.subrange(start as int, end as int);
        if start < end {
            assert(rest.last() == s@[end - 1]);
        }
        assert(trimmed_end(rest) == rest);
    }
    slice_subrange(s, start, end)
}

/// Whether `c` is one of the ten ASCII digits.
pub open spec fn is_digit(c: char) -> bool {
    '0' <= c <= '9'
}

/// Whether `s` is made of ASCII digits, at least one.
pub open spec fn is_digits(s: Seq<char>) -> bool {
    &&& s.len() > 0
    &&& forall|i: int| 0 <= i < s.len() ==> is_digit(#[trigger] s[i])
}

/// The number that a string of digits stands for.
pub open spec fn digits_value(s: Seq<char>) -> nat
    decreases s.len(),
{
    if s.len() == 0 {
        0
    } else {
        digits_value(s.drop_last()) * 10 + (s.last() as nat - 48) as nat
    }
}

/// `s` without the plus sign that it may start with.
pub open spec fn unsigned_part(s: Seq<char>) -> Seq<char> {
    if s.len() > 0 && s[0] == '+' {
        s.drop_first()
    } else {
        s
    }
}

/// The number that `s` writes: digits after at most one plus sign, with a value
/// of at most `max`.
pub open spec fn parsed_number(s: Seq<char>, max: nat) -> Option<nat> {
    let digits = unsigned_part(s);
    if is_digits(digits) && digits_value(digits) <= max {
        Some(digits_value(digits))
    } else {
        None
    }
}

proof fn lemma_digits_value_grows(s: Seq<char>, n: int)
    requires
        0 <= n <= s.len(),
    ensures
        digits_value(s.take(n)) <= digits_value(s),
    decreases s.len(),
{
    if n == s.len() {
        assert(s.take(n) =~= s);
    } else {
        lemma_digits_value_grows(s.drop_last(), n);
        assert(s.drop_last().take(n) =~= s.take(n));
    }
}

/// Reads a number of at most `max`: digits after at most one plus sign.
pub fn parse_number(s: &[char], max: u64) -> (r: Option<u64>)
    ensures
        match r {
            Some(n) => parsed_number(s@, max as nat) == Some(n as nat),
            None => parsed_number(s@, max as nat) is None,
        },
{
    let len: usize = s.len();
    let start: usize = if len > 0 && s[0] == '+' {
        1
    } else {
        0
    };
    let ghost digits = unsigned_part(s@);
    assert(digits =~= s@.subrange(start as int, len as int));
    if start == len {
        return None;
    }
    let mut value: u64 = 0;
    let mut i: usize = start;
    assert(digits.take(0) =~= Seq::<char>::empty());
    while i < len
        invariant
            len == s@.len(),
            start <= i <= len,
            digits == unsigned_part(s@),
            digits == s@.subrange(start as int, len as int),
            forall|k: int| 0 <= k < i - start ==> is_digit(#[trigger] digits[k]),
            value == digits_value(digits.take(i - start)),
            value <= max,
        decreases len - i,
    {
        let c: char = s[i];
        assert(digits[i - start] == c);
        if !('0' <= c && c <= '9') {
            assert(!is_digit(digits[i - start]));
            return None;
        }
        let d: u64 = (c as u32 - 48) as u64;
        proof {
            let next = digits.take(i - start + 1);
            assert(next.drop_last() =~= digits.take(i - start));
            assert(next.last() == c);
            assert(digits_value(next) == value * 10 + d);
            lemma_digits_value_grows(digits, i - start + 1);
        }
        if d > max || value > (max - d) / 10 {
            return None;
        }
        value = value * 10 + d;
        i = i + 1;
    }
    assert(digits.take(len - start) =~= digits);
    Some(value)
}

/// The parts of `s` between occurrences of `sep`: each `sep` starts a new part,
/// every other character extends the last one.
pub open spec fn split_on(s: Seq<char>, sep: char) -> Seq<Seq<char>>
    decreases s.len(),
{
    if s.len() == 0 {
        seq![Seq::<char>::empty()]
    } else {
        let parts = split_on(s.drop_last(), sep);
        if s.last() == sep {
            parts.push(Seq::<char>::empty())
        } else {
            parts.drop_last().push(parts.last().push(s.last()))
        }
    }
}

/// The characters of `s`, one by one.
pub fn chars_of(s: &str) -> (r: Vec<char>)
    ensures
        r@ == s@,
{
    let mut chars: Vec<char> = Vec::new();
    for c in it: s.chars()
        invariant
            it.seq() == s@,
            chars@ == s@.take(it.index()),
    {
        chars.push(c);
        assert(s@.take(it.index() + 1) =~= s@.take(it.index()).push(c));
    }
    assert(s@.take(s@.len() as int) =~= s@);
    chars
}

/// Finds where the parts of `s` between occurrences of `sep` start and end.
pub fn split_ranges(s: &[char], sep: char) -> (r: Vec<(usize, usize)>)
    ensures
        r@.len() == split_on(s@, sep).len(),
        forall|k: int|
            0 <= k < r@.len() ==> {
                &&& (#[trigger] r@[k]).0 <= r@[k].1 <= s@.len()
                &&& s@.subrange(r@[k].0 as int, r@[k].1 as int) == split_on(s@, sep)[k]
            },
{
    let len: usize = s.len();
    let mut ranges: Vec<(usize, usize)> = Vec::new();
    let mut start: usize = 0;
    let mut i: usize = 0;
    assert(s@.take(0) =~= Seq::<char>::empty());
    while i < len
        invariant
            len == s@.len(),
            start <= i <= len,
            ranges@.len() + 1 == split_on(s@.take(i as int), sep).len(),
            forall|k: int|
                0 <= k < ranges@.len() ==> {
                    &&& (#[trigger] ranges@[k]).0 <= ranges@[k].1 <= s@.len()
                    &&& s@.subrange(ranges@[k].0 as int, ranges@[k].1 as int) == split_on(
                        s@.take(i as int),
                        sep,
                    )[k]
                },
            s@.subrange(start as int, i as int) == split_on(s@.take(i as int), sep).last(),
        decreases len - i,
    {
        proof {
            let next = s@.take(i + 1);
            assert(next.drop_last() =~= s@.take(i as int));
            assert(next.last() == s@[i as int]);
            assert(s@.subrange(start as int, i + 1) =~= s@.subrange(start as int, i as int).push(
                s@[i as int],
            ));
        }
        if s[i] == sep {
            ranges.push((start, i));
            start = i + 1;
            assert(s@.subrange(start as int, i + 1) =~= Seq::<char>::empty());
        }
        i = i + 1;
    }
    assert(s@.take(len as int) =~= s@);
    ranges.push((start, len));
    ranges
}

proof fn lemma_decimal_digits(n: nat)
    ensures
        is_digits(decimal_text(n)),
        digits_value(decimal_text(n)) == n,
    decreases n,
{
    if n >= 10 {
        lemma_decimal_digits(n / 10);
        let text = decimal_text(n);
        assert(text.drop_last() =~= decimal_text(n / 10));
        assert(text.last() == digit_char(n % 10));
        assert forall|i: int| 0 <= i < text.len() implies is_digit(#[trigger] text[i]) by {
            if i < text.len() - 1 {
                assert(text[i] == decimal_text(n / 10)[i]);
            }
        }
    } else {
        let text = decimal_text(n);
        assert(text.drop_last() =~= Seq::<char>::empty());
        assert(text.last() == digit_char(n));
        reveal_with_fuel(digits_value, 2);
    }
}

/// A number that was written in decimal is read back as that number, and refused
/// where it is over the limit.
pub proof fn law_numbers_are_read_back(n: nat, max: nat)
    ensures
        parsed_number(decimal_text(n), max) == if n <= max {
            Some(n)
        } else {
            None
        },
        parsed_number(seq!['+'] + decimal_text(n), max) == parsed_number(decimal_text(n), max),
{
    lemma_decimal_digits(n);
    let text = decimal_text(n);
    assert(is_digit(text[0]));
    assert((seq!['+'] + text).drop_first() =~= text);
}

/// Different numbers have different decimal forms.
pub proof fn law_decimal_forms_differ(a: nat, b: nat)
    requires
        decimal_text(a) == decimal_text(b),
    ensures
        a == b,
{
    lemma_decimal_digits(a);
    lemma_decimal_digits(b);
}

/// Trimming leaves the decimal form of a number as it is.
pub proof fn law_numbers_are_not_trimmed(n: nat)
    ensures
        trimmed(decimal_text(n)) == decimal_text(n),
{
    lemma_decimal_digits(n);
    let text = decimal_text(n);
    assert(is_digit(text[0]));
    assert(is_digit(text.last()));
}

/// Decimal forms are made of the digits of a number, the most significant one first:
/// those below ten are one digit, and each further digit is added behind.
pub proof fn law_decimal_forms_grow_digit_by_digit(n: nat, d: nat)
    requires
        d < 10,
    ensures
        decimal_text(d) == seq![(48 + d) as char],
        n > 0 ==> decimal_text(n * 10 + d) == decimal_text(n).push((48 + d) as char),
{
}

/// Numbers are read digit by digit. One more digit makes ten times the number and the
/// digit, as long as that is not over the limit. Nothing but digits, after at most one
/// plus sign, is a number, and what is none does not become one by more characters.
pub proof fn law_numbers_are_read_digit_by_digit(s: Seq<char>, c: char, max: nat)
    ensures
        ({
            let digit = '0' <= c && c <= '9';
            let d = (c as nat - 48) as nat;
            &&& parsed_number(Seq::<char>::empty(), max) is None
            &&& parsed_number(seq![c], max) == if digit && d <= max {
                Some(d)
            } else {
                None
            }
            &&& parsed_number(seq!['+', c], max) == parsed_number(seq![c], max)
            &&& s.len() > 0 && s != seq!['+'] ==> parsed_number(s.push(c), max)
                == match parsed_number(s, max) {
                Some(n) => if digit && n * 10 + d <= max {
                    Some(n * 10 + d)
                } else {
                    None
                },
                None => None,
            }
        }),
{
    let one = seq![c];
    assert(one.drop_last() =~= Seq::<char>::empty());
    assert(one.last() == c);
    reveal_with_fuel(digits_value, 2);
    if c == '+' {
        assert(one.drop_first() =~= Seq::<char>::empty());
    } else {
        assert(one[0] == c);
    }
    assert(is_digits(one) <==> is_digit(c)) by {
        if is_digits(one) {
            assert(is_digit(one[0]));
        }
    }
    assert(seq!['+', c].drop_first() =~= one);
    if s.len() > 0 && s != seq!['+'] {
        let digits = unsigned_part(s);
        let more = unsigned_part(s.push(c));
        assert(s.push(c)[0] == s[0]);
        assert(more =~= digits.push(c));
        if s[0] == '+' && s.len() == 1 {
            assert(s =~= seq!['+']);
        }
        assert(digits.len() > 0);
        assert(more.drop_last() =~= digits);
        assert(more.last() == c);
        if is_digits(more) {
            assert(is_digit(more[more.len() - 1]));
            assert forall|i: int| 0 <= i < digits.len() implies is_digit(#[trigger] digits[i]) by {
                assert(digits[i] == more[i]);
            }
        }
        if is_digits(digits) && is_digit(c) {
            assert forall|i: int| 0 <= i < more.len() implies is_digit(#[trigger] more[i]) by {
                if i < digits.len() {
                    assert(digits[i] == more[i]);
                }
            }
        }
    }
}

pub(crate) proof fn lemma_trimmed_start_more(s: Seq<char>, c: char)
    ensures
        trimmed_start(s.push(c)) == if trimmed_start(s).len() > 0 {
            trimmed_start(s).push(c)
        } else if is_space(c) {
            Seq::<char>::empty()
        } else {
            seq![c]
        },
    decreases s.len(),
{
    if s.len() > 0 {
        assert(s.push(c)[0] == s[0]);
        if is_space(s[0]) {
            assert(s.push(c).drop_first() =~= s.drop_first().push(c));
            lemma_trimmed_start_more(s.drop_first(), c);
        }
    } else {
        assert(s.push(c) =~= seq![c]);
        assert(seq![c].drop_first() =~= Seq::<char>::empty());
        reveal_with_fuel(trimmed_start, 2);
    }
}

pub(crate) proof fn lemma_trimmed_start_of_end(s: Seq<char>)
    ensures
        trimmed_start(trimmed_end(s)) == trimmed_end(trimmed_start(s)),
    decreases s.len(),
{
    if s.len() > 0 {
        let rest = s.drop_last();
        let c = s.last();
        assert(rest.push(c) =~= s);
        lemma_trimmed_start_more(rest, c);
        lemma_trimmed_start_of_end(rest);
        let start = trimmed_start(rest);
        if start.len() > 0 {
            assert(start.push(c).drop_last() =~= start);
        }
        reveal_with_fuel(trimmed_end, 2);
    }
}

pub(crate) proof fn lemma_trimmed_again(s: Seq<char>)
    ensures
        trimmed_start(trimmed_start(s)) == trimmed_start(s),
        trimmed_end(trimmed_end(s)) == trimmed_end(s),
    decreases s.len(),
{
    if s.len() > 0 {
        lemma_trimmed_again(s.drop_first());
        lemma_trimmed_again(s.drop_last());
    }
}

pub(crate) proof fn lemma_trimmed_around(low: Seq<char>, c: char, high: Seq<char>)
    requires
        !is_space(c),
    ensures
        trimmed(low.push(c) + high) == trimmed_start(low).push(c) + trimmed_end(high),
{
    lemma_trimmed_start_around(low, c, high);
    lemma_trimmed_end_around(trimmed_start(low).push(c), high);
}

proof fn lemma_trimmed_start_around(low: Seq<char>, c: char, high: Seq<char>)
    requires
        !is_space(c),
    ensures
        trimmed_start(low.push(c) + high) == trimmed_start(low).push(c) + high,
    decreases low.len(),
{
    let s = low.push(c) + high;
    if low.len() > 0 && is_space(low[0]) {
        assert(s[0] == low[0]);
        assert(s.drop_first() =~= low.drop_first().push(c) + high);
        lemma_trimmed_start_around(low.drop_first(), c, high);
    } else if low.len() > 0 {
        assert(s[0] == low[0]);
    } else {
        assert(s[0] == c);
    }
}

proof fn lemma_trimmed_end_around(low: Seq<char>, high: Seq<char>)
    requires
        low.len() > 0,
        !is_space(low.last()),
    ensures
        trimmed_end(low + high) == low + trimmed_end(high),
    decreases high.len(),
{
    let s = low + high;
    if high.len() == 0 {
        assert(s =~= low);
        assert(low + trimmed_end(high) =~= low);
    } else {
        assert(s.last() == high.last());
        if is_space(high.last()) {
            assert(s.drop_last() =~= low + high.drop_last());
            lemma_trimmed_end_around(low, high.drop_last());
        }
    }
}

proof fn lemma_trimmed_start_of_spaces(before: Seq<char>, text: Seq<char>)
    requires
        forall|i: int| 0 <= i < before.len() ==> is_space(#[trigger] before[i]),
        text.len() > 0 ==> !is_space(text[0]),
    ensures
        trimmed_start(before + text) == text,
    decreases before.len(),
{
    let s = before + text;
    if before.len() > 0 {
        assert(s[0] == before[0]);
        let rest = before.drop_first();
        assert(s.drop_first() =~= rest + text);
        assert forall|i: int| 0 <= i < rest.len() implies is_space(#[trigger] rest[i]) by {
            assert(rest[i] == before[i + 1]);
        }
        lemma_trimmed_start_of_spaces(rest, text);
    } else {
        assert(s =~= text);
    }
}

proof fn lemma_trimmed_end_of_spaces(text: Seq<char>, after: Seq<char>)
    requires
        forall|i: int| 0 <= i < after.len() ==> is_space(#[trigger] after[i]),
        text.len() > 0 ==> !is_space(text.last()),
    ensures
        trimmed_end(text + after) == text,
    decreases after.len(),
{
    let s = text + after;
    if after.len() > 0 {
        assert(s.last() == after[after.len() - 1]);
        let rest = after.drop_last();
        assert(s.drop_last() =~= text + rest);
        assert forall|i: int| 0 <= i < rest.len() implies is_space(#[trigger] rest[i]) by {
            assert(rest[i] == after[i]);
        }
        lemma_trimmed_end_of_spaces(text, rest);
    } else {
        assert(s =~= text);
    }
}

/// Trimming removes the white space around a text and nothing else. Of white space
/// alone nothing is left.
pub proof fn law_trimming_removes_what_surrounds(
    before: Seq<char>,
    text: Seq<char>,
    after: Seq<char>,
)
    requires
        forall|i: int| 0 <= i < before.len() ==> is_space(#[trigger] before[i]),
        forall|i: int| 0 <= i < after.len() ==> is_space(#[trigger] after[i]),
        text.len() > 0 ==> !is_space(text[0]) && !is_space(text.last()),
    ensures
        trimmed(before + text + after) == text,
{
    let both = text + after;
    assert(before + text + after =~= before + both);
    if text.len() > 0 {
        assert(both[0] == text[0]);
        lemma_trimmed_start_of_spaces(before, both);
        lemma_trimmed_end_of_spaces(text, after);
    } else {
        let all = before + both;
        assert forall|i: int| 0 <= i < all.len() implies is_space(#[trigger] all[i]) by {
            if i >= before.len() {
                assert(all[i] == after[i - before.len()]);
            } else {
                assert(all[i] == before[i]);
            }
        }
        lemma_trimmed_start_of_spaces(all, Seq::<char>::empty());
        assert(all + Seq::<char>::empty() =~= all);
        assert(text =~= Seq::<char>::empty());
    }
}

pub(crate) proof fn lemma_trimmed_holds_no_more(s: Seq<char>, c: char)
    requires
        !s.contains(c),
    ensures
        !trimmed_start(s).contains(c),
        !trimmed_end(s).contains(c),
        !trimmed(s).contains(c),
    decreases s.len(),
{
    lemma_start_holds_no_more(s, c);
    lemma_end_holds_no_more(s, c);
    lemma_end_holds_no_more(trimmed_start(s), c);
}

proof fn lemma_start_holds_no_more(s: Seq<char>, c: char)
    requires
        !s.contains(c),
    ensures
        !trimmed_start(s).contains(c),
    decreases s.len(),
{
    if s.len() > 0 && is_space(s[0]) {
        let rest = s.drop_first();
        assert forall|i: int| 0 <= i < rest.len() implies rest[i] != c by {
            assert(rest[i] == s[i + 1]);
        }
        lemma_start_holds_no_more(rest, c);
    }
}

proof fn lemma_end_holds_no_more(s: Seq<char>, c: char)
    requires
        !s.contains(c),
    ensures
        !trimmed_end(s).contains(c),
    decreases s.len(),
{
    if s.len() > 0 && is_space(s.last()) {
        let rest = s.drop_last();
        assert forall|i: int| 0 <= i < rest.len() implies rest[i] != c by {
            assert(rest[i] == s[i]);
        }
        lemma_end_holds_no_more(rest, c);
    }
}

/// The decimal form of a number is made of digits alone, so it holds neither white
/// space nor any other sign.
pub proof fn law_decimal_forms_hold_digits_only(n: nat, i: int)
    requires
        0 <= i < decimal_text(n).len(),
    ensures
        '0' <= decimal_text(n)[i] && decimal_text(n)[i] <= '9',
        !is_space(decimal_text(n)[i]),
{
    lemma_decimal_digits(n);
    assert(is_digit(decimal_text(n)[i]));
}

/// A text is split at every separator and nowhere else: what stands before a separator
/// and what stands behind it are split each by itself, and a text without one is one
/// part.
pub proof fn law_texts_are_split_at_every_separator(before: Seq<char>, after: Seq<char>, sep: char)
    ensures
        split_on(before.push(sep) + after, sep) == split_on(before, sep) + split_on(after, sep),
        !before.contains(sep) ==> split_on(before, sep) == seq![before],
    decreases after.len(),
{
    lemma_one_part(before, sep);
    let s = before.push(sep) + after;
    if after.len() == 0 {
        assert(s =~= before.push(sep));
        assert(s.drop_last() =~= before);
        assert(s.last() == sep);
        assert(split_on(after, sep) =~= seq![Seq::<char>::empty()]);
        assert(split_on(s, sep) =~= split_on(before, sep) + split_on(after, sep));
    } else {
        let rest = after.drop_last();
        assert(s.drop_last() =~= before.push(sep) + rest);
        assert(s.last() == after.last());
        law_texts_are_split_at_every_separator(before, rest, sep);
        lemma_some_part(rest, sep);
        assert(split_on(s, sep) =~= split_on(before, sep) + split_on(after, sep));
    }
}

proof fn lemma_some_part(s: Seq<char>, sep: char)
    ensures
        split_on(s, sep).len() > 0,
    decreases s.len(),
{
    if s.len() > 0 {
        lemma_some_part(s.drop_last(), sep);
    }
}

proof fn lemma_one_part(s: Seq<char>, sep: char)
    ensures
        !s.contains(sep) ==> split_on(s, sep) == seq![s],
    decreases s.len(),
{
    if !s.contains(sep) {
        if s.len() == 0 {
            assert(s =~= Seq::<char>::empty());
        } else {
            let rest = s.drop_last();
            assert forall|i: int| 0 <= i < rest.len() implies rest[i] != sep by {
                assert(rest[i] == s[i]);
            }
            lemma_one_part(rest, sep);
            assert(s.last() == s[s.len() - 1]);
            assert(rest.push(s.last()) =~= s);
            assert(split_on(s, sep) =~= seq![s]);
        }
    }
}

/// Texts are written, trimmed, read and split as the laws on them say.
pub proof fn law_texts_are_handled_by_the_laws(
    n: u64,
    text: String,
    s: &[char],
    max: u64,
    r: Option<u64>,
    part: &[char],
    sep: char,
    ranges: Vec<(usize, usize)>,
    k: int,
    chars: Vec<char>,
    source: &str,
)
    ensures
        call_ensures(decimal, (n,), text) ==> text@ == decimal_text(n as nat),
        call_ensures(trim, (s,), part) ==> part@ == trimmed(s@),
        call_ensures(parse_number, (s, max), r) ==> {
            &&& r is Some <==> parsed_number(s@, max as nat) is Some
            &&& r matches Some(m) ==> parsed_number(s@, max as nat) == Some(m as nat)
        },
        call_ensures(chars_of, (source,), chars) ==> chars@ == source@,
        call_ensures(split_ranges, (s, sep), ranges) ==> {
            &&& ranges@.len() == split_on(s@, sep).len()
            &&& 0 <= k < ranges@.len() ==> s@.subrange(ranges@[k].0 as int, ranges@[k].1 as int)
                == split_on(s@, sep)[k]
        },
{
}

} // verus!
