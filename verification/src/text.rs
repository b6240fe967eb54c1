//! Text functions over the characters of a string.

use vstd::prelude::*;

verus! {

/// `String::push` appends one character at the end of the string.
pub assume_specification[ String::push ](text: &mut String, c: char)
    ensures
        final(text)@ == old(text)@.push(c),
;

/// The characters of a text.
pub fn chars_of(text: &str) -> (chars: Vec<char>)
    ensures
        chars@ == text@,
{
    let mut chars: Vec<char> = Vec::new();
    for c in it: text.chars()
        invariant
            it.seq() == text@,
            chars@ == text@.take(it.index() as int),
    {
        assert(text@.take(it.index() + 1) == text@.take(it.index() as int).push(c));
        chars.push(c);
    }
    assert(text@.take(text@.len() as int) == text@);
    chars
}

/// The text made of the characters from `start` up to `end`.
pub fn text_between(chars: &Vec<char>, start: usize, end: usize) -> (text: String)
    requires
        start <= end <= chars@.len(),
    ensures
        text@ == chars@.subrange(start as int, end as int),
{
    let mut text = String::new();
    for i in start..end
        invariant
            start <= end <= chars@.len(),
            text@ == chars@.subrange(start as int, i as int),
    {
        assert(chars@.subrange(start as int, i + 1) == chars@.subrange(start as int, i as int).push(
            chars@[i as int],
        ));
        text.push(chars[i]);
    }
    text
}

/// Whether two texts hold the same characters.
pub fn same_text(left: &str, right: &str) -> (same: bool)
    ensures
        same == (left@ == right@),
{
    left.to_owned() == right.to_owned()
}

/// Whether a text has no characters.
pub fn is_empty_text(text: &str) -> (empty: bool)
    ensures
        empty == (text@.len() == 0),
{
    proof {
        reveal_strlit("");
        assert(text@.len() == 0 ==> text@ == ""@);
    }
    same_text(text, "")
}

/// The characters of a text that may be absent.
pub open spec fn text_option(text: Option<String>) -> Option<Seq<char>> {
    match text {
        Some(text) => Some(text@),
        None => None,
    }
}

/// A copy of a text that may be absent.
pub fn copy_text_option(text: &Option<String>) -> (copy: Option<String>)
    ensures
        text_option(copy) == text_option(*text),
{
    match text {
        Some(text) => Some(text.clone()),
        None => None,
    }
}

/// The characters of each text of a list.
pub open spec fn texts_of(texts: Seq<String>) -> Seq<Seq<char>> {
    texts.map_values(|text: String| text@)
}

/// Whether `part` stands in `text` at position `at`.
pub open spec fn stands_at(text: Seq<char>, part: Seq<char>, at: int) -> bool {
    0 <= at && at + part.len() <= text.len() && text.subrange(at, at + part.len()) == part
}

/// Whether `text` begins with `prefix`.
pub open spec fn has_prefix(text: Seq<char>, prefix: Seq<char>) -> bool {
    stands_at(text, prefix, 0)
}

/// Whether `part` occurs somewhere in `text`.
pub open spec fn occurs_in(text: Seq<char>, part: Seq<char>) -> bool {
    exists|at: int| stands_at(text, part, at)
}

/// Whether `part` stands in `text` at position `at`.
fn matches_at(text: &Vec<char>, part: &Vec<char>, at: usize) -> (found: bool)
    requires
        at <= text@.len(),
    ensures
        found == stands_at(text@, part@, at as int),
{
    if part.len() > text.len() - at {
        return false;
    }
    for i in 0..part.len()
        invariant
            at + part.len() <= text.len(),
            forall|j: int| 0 <= j < i ==> text@[at + j] == part@[j],
    {
        if text[at + i] != part[i] {
            assert(text@.subrange(at as int, at + part@.len())[i as int] != part@[i as int]);
            return false;
        }
    }
    assert(text@.subrange(at as int, at + part@.len()) == part@);
    true
}

/// Whether `text` begins with `prefix`.
pub fn begins_with(text: &str, prefix: &str) -> (found: bool)
    ensures
        found == has_prefix(text@, prefix@),
{
    let chars = chars_of(text);
    let part = chars_of(prefix);
    matches_at(&chars, &part, 0)
}

/// Whether `part` occurs somewhere in `text`.
pub fn contains_text(text: &str, part: &str) -> (found: bool)
    ensures
        found == occurs_in(text@, part@),
{
    let chars = chars_of(text);
    let wanted = chars_of(part);
    let mut at: usize = 0;
    while at < chars.len()
        invariant
            at <= chars@.len(),
            chars@ == text@,
            wanted@ == part@,
            forall|i: int| 0 <= i < at ==> !stands_at(text@, part@, i),
        decreases chars@.len() - at,
    {
        if matches_at(&chars, &wanted, at) {
            return true;
        }
        at = at + 1;
    }
    let last = matches_at(&chars, &wanted, at);
    assert forall|i: int| !last implies !stands_at(text@, part@, i) by {}
    last
}

/// `text` with each occurrence of `from`, taken from the left and without overlap, replaced
/// by `to`.
pub open spec fn replaced(text: Seq<char>, from: Seq<char>, to: Seq<char>) -> Seq<char>
    decreases text.len(),
{
    if from.len() == 0 || text.len() == 0 {
        text
    } else if has_prefix(text, from) {
        to + replaced(text.skip(from.len() as int), from, to)
    } else {
        seq![text[0]] + replaced(text.skip(1), from, to)
    }
}

/// `text` with each occurrence of `from`, taken from the left and without overlap, replaced
/// by `to`.
pub fn replace_text(text: &str, from: &str, to: &str) -> (result: String)
    requires
        from@.len() > 0,
    ensures
        result@ == replaced(text@, from@, to@),
{
    let chars = chars_of(text);
    let part = chars_of(from);
    let mut result = String::new();
    let mut at: usize = 0;
    assert(chars@.skip(0) == text@);
    while at < chars.len()
        invariant
            at <= chars@.len(),
            chars@ == text@,
            part@ == from@,
            from@.len() > 0,
            replaced(text@, from@, to@) == result@ + replaced(chars@.skip(at as int), from@, to@),
        decreases chars@.len() - at,
    {
        let ghost rest = chars@.skip(at as int);
        let found = matches_at(&chars, &part, at);
        proof {
            assert(found == has_prefix(rest, from@)) by {
                if at + part@.len() <= chars@.len() {
                    assert(rest.subrange(0, part@.len() as int) == chars@.subrange(
                        at as int,
                        at + part@.len(),
                    ));
                }
            }
        }
        if found {
            proof {
                assert(rest.skip(from@.len() as int) == chars@.skip(at + part@.len()));
                assert((result@ + to@) + replaced(rest.skip(from@.len() as int), from@, to@)
                    == result@ + (to@ + replaced(rest.skip(from@.len() as int), from@, to@)));
            }
            result.append(to);
            at = at + part.len();
        } else {
            proof {
                assert(rest.skip(1) == chars@.skip(at + 1));
                assert(result@.push(rest[0]) + replaced(rest.skip(1), from@, to@) == result@ + (
                seq![rest[0]] + replaced(rest.skip(1), from@, to@)));
            }
            result.push(chars[at]);
            at = at + 1;
        }
    }
    assert(result@ + replaced(chars@.skip(at as int), from@, to@) == result@);
    result
}

/// The decimal digit of a number below ten.
pub open spec fn digit_char(digit: nat) -> char {
    (digit + '0' as u32) as char
}

/// The decimal form of a number.
pub open spec fn decimal(number: nat) -> Seq<char>
    decreases number,
{
    if number < 10 {
        seq![digit_char(number)]
    } else {
        decimal(number / 10).push(digit_char(number % 10))
    }
}

/// Appends the decimal form of `number`.
pub fn push_decimal(text: &mut String, number: u64)
    ensures
        final(text)@ == old(text)@ + decimal(number as nat),
    decreases number,
{
    if number >= 10 {
        push_decimal(text, number / 10);
    }
    let digit: u8 = 48 + (number % 10) as u8;
    text.push(digit as char);
    assert(final(text)@ == old(text)@ + decimal(number as nat));
}

/// Whether a character is one of the ten decimal digits.
pub open spec fn is_digit(c: char) -> bool {
    '0' <= c <= '9'
}

/// The number that a sequence of decimal digits denotes.
pub open spec fn digits_value(digits: Seq<char>) -> nat
    decreases digits.len(),
{
    if digits.len() == 0 {
        0
    } else {
        digits_value(digits.drop_last()) * 10 + (digits.last() as nat - '0' as nat) as nat
    }
}

/// A non-empty sequence of decimal digits.
pub open spec fn is_digits(text: Seq<char>) -> bool {
    text.len() > 0 && forall|i: int| 0 <= i < text.len() ==> is_digit(#[trigger] text[i])
}

/// The number written as an optional `+` and decimal digits, if it is at most `max`.
pub open spec fn unsigned_number(text: Seq<char>, max: nat) -> Option<nat> {
    let digits = if text.len() > 0 && text[0] == '+' { text.skip(1) } else { text };
    if is_digits(digits) && digits_value(digits) <= max {
        Some(digits_value(digits))
    } else {
        None
    }
}

/// The number written as an optional sign and decimal digits, if it fits in 64 bits.
pub open spec fn signed_number(text: Seq<char>) -> Option<int> {
    if text.len() > 0 && text[0] == '-' {
        let digits = text.skip(1);
        if is_digits(digits) && -digits_value(digits) >= i64::MIN {
            Some(-digits_value(digits))
        } else {
            None
        }
    } else {
        match unsigned_number(text, i64::MAX as nat) {
            Some(number) => Some(number as int),
            None => None,
        }
    }
}

proof fn lemma_digits_value_grows(digits: Seq<char>, end: int)
    requires
        0 <= end <= digits.len(),
    ensures
        digits_value(digits.take(end)) <= digits_value(digits),
    decreases digits.len(),
{
    if end < digits.len() {
        lemma_digits_value_grows(digits.drop_last(), end);
        assert(digits.drop_last().take(end) == digits.take(end));
    } else {
        assert(digits.take(end) == digits);
    }
}

/// The number that the digits from `start` on denote, if it is at most `max`.
fn digits_from(chars: &Vec<char>, start: usize, max: u64) -> (number: Option<u64>)
    requires
        start <= chars@.len(),
    ensures
        number is Some <==> is_digits(chars@.skip(start as int)) && digits_value(
            chars@.skip(start as int),
        ) <= max,
        number matches Some(n) ==> n == digits_value(chars@.skip(start as int)),
{
    let ghost digits = chars@.skip(start as int);
    if start == chars.len() {
        return None;
    }
    let mut number: u64 = 0;
    for i in start..chars.len()
        invariant
            start < chars@.len(),
            digits == chars@.skip(start as int),
            forall|j: int| 0 <= j < i - start ==> is_digit(#[trigger] digits[j]),
            number == digits_value(digits.take(i - start)),
            number <= max,
    {
        let c = chars[i];
        assert(digits[i - start] == c);
        if c < '0' || c > '9' {
            return None;
        }
        let digit: u64 = (c as u32 - '0' as u32) as u64;
        proof {
            let next = digits.take(i - start + 1);
            assert(next.drop_last() == digits.take(i - start));
            assert(next.last() == c);
            assert(digits_value(next) == number * 10 + digit);
            lemma_digits_value_grows(digits, i - start + 1);
        }
        if digit > max || number > (max - digit) / 10 {
            return None;
        }
        number = number * 10 + digit;
    }
    assert(digits.take(digits.len() as int) == digits);
    Some(number)
}

/// Reads an optional `+` and decimal digits as a number that is at most `max`.
pub fn parse_unsigned(text: &str, max: u64) -> (number: Option<u64>)
    ensures
        match number {
            Some(n) => unsigned_number(text@, max as nat) == Some(n as nat),
            None => unsigned_number(text@, max as nat) is None,
        },
{
    let chars = chars_of(text);
    let start: usize = if chars.len() > 0 && chars[0] == '+' { 1 } else { 0 };
    assert(chars@.skip(0) == chars@);
    digits_from(&chars, start, max)
}

/// Reads an optional sign and decimal digits as a signed number of 64 bits.
pub fn parse_signed(text: &str) -> (number: Option<i64>)
    ensures
        match number {
            Some(n) => signed_number(text@) == Some(n as int),
            None => signed_number(text@) is None,
        },
{
    let chars = chars_of(text);
    if chars.len() > 0 && chars[0] == '-' {
        match digits_from(&chars, 1, 0x8000_0000_0000_0000) {
            Some(magnitude) => Some((-(magnitude as i128)) as i64),
            None => None,
        }
    } else {
        match parse_unsigned(text, i64::MAX as u64) {
            Some(magnitude) => Some(magnitude as i64),
            None => None,
        }
    }
}

/// The position of the first `c` in `text`, or the length of `text` where there is none.
pub open spec fn position_of(text: Seq<char>, c: char) -> int
    decreases text.len(),
{
    if text.len() == 0 || text[0] == c {
        0
    } else {
        1 + position_of(text.skip(1), c)
    }
}

/// `position_of` points at the first `c`, or past the end.
pub proof fn lemma_position_of(text: Seq<char>, c: char)
    ensures
        0 <= position_of(text, c) <= text.len(),
        position_of(text, c) < text.len() ==> text[position_of(text, c)] == c,
        forall|i: int| 0 <= i < position_of(text, c) ==> text[i] != c,
    decreases text.len(),
{
    if text.len() > 0 && text[0] != c {
        let rest = text.skip(1);
        lemma_position_of(rest, c);
        assert forall|i: int| 0 <= i < position_of(text, c) implies text[i] != c by {
            if i > 0 {
                assert(rest[i - 1] == text[i]);
            }
        }
    }
}

/// The position of the first `c` from `start` on, or the number of characters.
pub fn find_char(chars: &Vec<char>, start: usize, c: char) -> (position: usize)
    requires
        start <= chars@.len(),
    ensures
        start <= position <= chars@.len(),
        position == start + position_of(chars@.skip(start as int), c),
{
    let mut at: usize = start;
    while at < chars.len() && chars[at] != c
        invariant
            start <= at <= chars@.len(),
            start + position_of(chars@.skip(start as int), c) == at + position_of(
                chars@.skip(at as int),
                c,
            ),
        decreases chars@.len() - at,
    {
        assert(chars@.skip(at as int).skip(1) == chars@.skip(at + 1));
        at = at + 1;
    }
    at
}

/// Whether a character has the Unicode property `White_Space`.
pub open spec fn is_white_space(c: char) -> bool {
    ||| '\u{9}' <= c <= '\u{d}'
    ||| c == '\u{20}'
    ||| c == '\u{85}'
    ||| c == '\u{a0}'
    ||| c == '\u{1680}'
    ||| '\u{2000}' <= c <= '\u{200a}'
    ||| c == '\u{2028}'
    ||| c == '\u{2029}'
    ||| c == '\u{202f}'
    ||| c == '\u{205f}'
    ||| c == '\u{3000}'
}

/// Whether a character has the Unicode property `White_Space`.
pub fn white_space(c: char) -> (answer: bool)
    ensures
        answer == is_white_space(c),
{
    ('\u{9}' <= c && c <= '\u{d}') || c == '\u{20}' || c == '\u{85}' || c == '\u{a0}' || c
        == '\u{1680}' || ('\u{2000}' <= c && c <= '\u{200a}') || c == '\u{2028}' || c == '\u{2029}'
        || c == '\u{202f}' || c == '\u{205f}' || c == '\u{3000}'
}

/// `text` without its leading white space.
pub open spec fn trimmed_start(text: Seq<char>) -> Seq<char>
    decreases text.len(),
{
    if text.len() > 0 && is_white_space(text[0]) {
        trimmed_start(text.skip(1))
    } else {
        text
    }
}

/// `text` without its trailing white space.
pub open spec fn trimmed_end(text: Seq<char>) -> Seq<char>
    decreases text.len(),
{
    if text.len() > 0 && is_white_space(text.last()) {
        trimmed_end(text.drop_last())
    } else {
        text
    }
}

/// `text` without leading and trailing white space.
pub open spec fn trimmed(text: Seq<char>) -> Seq<char> {
    trimmed_end(trimmed_start(text))
}

/// The text from `start` up to `end`, without leading and trailing white space.
pub fn trimmed_between(chars: &Vec<char>, start: usize, end: usize) -> (text: String)
    requires
        start <= end <= chars@.len(),
    ensures
        text@ == trimmed(chars@.subrange(start as int, end as int)),
{
    let mut first: usize = start;
    while first < end && white_space(chars[first])
        invariant
            start <= first <= end <= chars@.len(),
            trimmed_start(chars@.subrange(start as int, end as int)) == trimmed_start(
                chars@.subrange(first as int, end as int),
            ),
        decreases end - first,
    {
        assert(chars@.subrange(first as int, end as int).skip(1) == chars@.subrange(
            first + 1,
            end as int,
        ));
        first = first + 1;
    }
    let ghost body = chars@.subrange(first as int, end as int);
    let mut last: usize = end;
    while last > first && white_space(chars[last - 1])
        invariant
            first <= last <= end <= chars@.len(),
            body == chars@.subrange(first as int, end as int),
            trimmed_end(body) == trimmed_end(chars@.subrange(first as int, last as int)),
        decreases last,
    {
        assert(chars@.subrange(first as int, last as int).drop_last() == chars@.subrange(
            first as int,
            last - 1,
        ));
        last = last - 1;
    }
    text_between(chars, first, last)
}

} // verus!
