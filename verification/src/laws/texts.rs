//! Laws on texts and the numbers written in them.

use vstd::prelude::*;

use super::errors::{contains, lemma_contains};
use crate::text::{
    begins_with, chars_of, contains_text, copy_text_option, find_char, is_empty_text, parse_signed,
    parse_unsigned, replace_text, same_text, text_between, trimmed_between, white_space,
};
use crate::text::{
    decimal, digits_value, has_prefix, is_digits, lemma_position_of, replaced, trimmed_end,
    trimmed_start,
};

verus! {

/// Whether a text begins with another one.
pub open spec fn starts(text: Seq<char>, start: Seq<char>) -> bool {
    text.len() >= start.len() && text.take(start.len() as int) == start
}

/// The library's notion of a beginning is this one.
pub(crate) proof fn lemma_starts(text: Seq<char>, start: Seq<char>)
    ensures
        has_prefix(text, start) <==> starts(text, start),
{
    if text.len() >= start.len() {
        assert(text.take(start.len() as int) == text.subrange(0, start.len() as int));
    }
}

/// Texts are compared by their characters: for equality, for emptiness, for their beginnings and
/// for what they contain.
pub proof fn texts_are_compared(
    left: &str,
    right: &str,
    equal: bool,
    empty: bool,
    begins: bool,
    found: bool,
)
    requires
        call_ensures(same_text, (left, right), equal),
        call_ensures(is_empty_text, (left,), empty),
        call_ensures(begins_with, (left, right), begins),
        call_ensures(contains_text, (left, right), found),
    ensures
        equal <==> left@ == right@,
        empty <==> left@.len() == 0,
        begins <==> starts(left@, right@),
        found <==> contains(left@, right@),
{
    lemma_starts(left@, right@);
    lemma_contains(left@, right@);
}

/// Texts are taken apart and copied character by character.
pub proof fn texts_are_taken_apart(
    text: &str,
    chars: Vec<char>,
    start: usize,
    end: usize,
    part: String,
    option: &Option<String>,
    copy: Option<String>,
)
    requires
        call_ensures(chars_of, (text,), chars),
        start <= end <= chars@.len(),
        call_ensures(text_between, (&chars, start, end), part),
        call_ensures(copy_text_option, (option,), copy),
    ensures
        chars@ == text@,
        part@ == text@.subrange(start as int, end as int),
        copy is Some <==> *option is Some,
        copy matches Some(copy) ==> copy@ == (*option)->0@,
{
}

/// The first place of a character is found, or the end where there is none.
pub proof fn characters_are_found(chars: &Vec<char>, start: usize, c: char, position: usize, at: int)
    requires
        start <= chars@.len(),
        call_ensures(find_char, (chars, start, c), position),
    ensures
        start <= position <= chars@.len(),
        position < chars@.len() ==> chars@[position as int] == c,
        start <= at < position ==> chars@[at] != c,
{
    let rest = chars@.skip(start as int);
    lemma_position_of(rest, c);
    if start <= at < position {
        assert(rest[at - start] == chars@[at]);
    }
    if position < chars@.len() {
        assert(rest[position - start] == chars@[position as int]);
    }
}

/// Blanks, tabulators and line ends are white space, and so are the blanks of other scripts; what
/// can be seen, or belongs to a word, is not.
pub proof fn white_space_is_told(c: char, answer: bool)
    requires
        call_ensures(white_space, (c,), answer),
    ensures
        c == ' ' || c == '\t' || c == '\n' || c == '\u{b}' || c == '\u{c}' || c == '\r' ==> answer,
        c as u32 == 0x85 || c as u32 == 0xa0 || c as u32 == 0x1680 ==> answer,
        0x2000 <= c as u32 <= 0x200a ==> answer,
        c as u32 == 0x2028 || c as u32 == 0x2029 || c as u32 == 0x202f || c as u32 == 0x205f
            || c as u32 == 0x3000 ==> answer,
        answer && c as u32 <= 0x7f ==> c == ' ' || 9 <= c as u32 <= 13,
        answer && 0x7f < (c as u32) && (c as u32) < 0x2000 ==> c as u32 == 0x85 || c as u32 == 0xa0 || c as u32
            == 0x1680,
        answer && 0x200a < (c as u32) ==> c as u32 == 0x2028 || c as u32 == 0x2029 || c as u32
            == 0x202f || c as u32 == 0x205f || c as u32 == 0x3000,
{
}

proof fn lemma_trimmed_start(text: Seq<char>) -> (from: int)
    ensures
        0 <= from <= text.len(),
        trimmed_start(text) == text.skip(from),
        forall|i: int| 0 <= i < from ==> crate::text::is_white_space(#[trigger] text[i]),
        from < text.len() ==> !crate::text::is_white_space(text[from]),
    decreases text.len(),
{
    if text.len() > 0 && crate::text::is_white_space(text[0]) {
        let rest = text.skip(1);
        let from = lemma_trimmed_start(rest);
        assert(rest.skip(from) == text.skip(from + 1));
        assert forall|i: int| 0 <= i < from + 1 implies crate::text::is_white_space(
            #[trigger] text[i],
        ) by {
            if i > 0 {
                assert(rest[i - 1] == text[i]);
            }
        }
        if from + 1 < text.len() {
            assert(rest[from] == text[from + 1]);
        }
        from + 1
    } else {
        assert(text.skip(0) == text);
        0
    }
}

proof fn lemma_trimmed_end(text: Seq<char>) -> (to: int)
    ensures
        0 <= to <= text.len(),
        trimmed_end(text) == text.take(to),
        forall|i: int| to <= i < text.len() ==> crate::text::is_white_space(#[trigger] text[i]),
        to > 0 ==> !crate::text::is_white_space(text[to - 1]),
    decreases text.len(),
{
    if text.len() > 0 && crate::text::is_white_space(text.last()) {
        let rest = text.drop_last();
        let to = lemma_trimmed_end(rest);
        assert(rest.take(to) == text.take(to));
        assert forall|i: int| to <= i < text.len() implies crate::text::is_white_space(
            #[trigger] text[i],
        ) by {
            if i < rest.len() {
                assert(rest[i] == text[i]);
            }
        }
        to
    } else {
        assert(text.take(text.len() as int) == text);
        text.len() as int
    }
}

/// Trimming takes white space from both ends and nothing else: a text between white space that
/// neither begins nor ends with it is what remains.
pub proof fn trimming_takes_white_space(
    chars: &Vec<char>,
    start: usize,
    end: usize,
    text: String,
    first: int,
    last: int,
)
    requires
        start <= first <= last <= end <= chars@.len(),
        call_ensures(trimmed_between, (chars, start, end), text),
        forall|i: int|
            start <= i < first || last <= i < end ==> crate::text::is_white_space(
                #[trigger] chars@[i],
            ),
        first < last ==> !crate::text::is_white_space(chars@[first])
            && !crate::text::is_white_space(chars@[last - 1]),
    ensures
        text@ == chars@.subrange(first, last),
{
    let all = chars@.subrange(start as int, end as int);
    assert forall|i: int| 0 <= i < all.len() && (i < first - start || i >= last - start) implies
        crate::text::is_white_space(#[trigger] all[i]) by {
        assert(all[i] == chars@[start + i]);
    }
    let from = lemma_trimmed_start(all);
    let rest = all.skip(from);
    let to = lemma_trimmed_end(rest);
    if first < last {
        assert(all[first - start] == chars@[first]);
        assert(all[last - 1 - start] == chars@[last - 1]);
        assert(from == first - start);
        assert(rest[last - 1 - first] == all[last - 1 - start]);
        if to > last - first {
            assert(rest[to - 1] == all[from + to - 1]);
        }
        assert(to == last - first);
        assert(rest.take(to) == chars@.subrange(first, last));
    } else {
        if from < all.len() {
            assert(crate::text::is_white_space(all[from]));
        }
        assert(rest.len() == 0);
        assert(rest.take(to) == chars@.subrange(first, last));
    }
}

/// Replacement takes one occurrence after the other, from the left: a text that begins with what is
/// to be replaced has it replaced before the rest is dealt with; else its first character stays.
pub proof fn occurrences_are_replaced(from: Seq<char>, to: Seq<char>, rest: Seq<char>, c: char)
    requires
        from.len() > 0,
    ensures
        replaced(from + rest, from, to) == to + replaced(rest, from, to),
        !starts(seq![c] + rest, from) ==> replaced(seq![c] + rest, from, to) == seq![c] + replaced(
            rest,
            from,
            to,
        ),
        replaced(Seq::empty(), from, to) == Seq::<char>::empty(),
{
    let text = from + rest;
    assert(text.take(from.len() as int) == from);
    lemma_starts(text, from);
    assert(text.skip(from.len() as int) == rest);
    let other = seq![c] + rest;
    lemma_starts(other, from);
    assert(other.skip(1) == rest);
}

/// A text without an occurrence stays as it is.
pub proof fn other_texts_stay_as_they_are(text: Seq<char>, from: Seq<char>, to: Seq<char>)
    requires
        !contains(text, from),
    ensures
        replaced(text, from, to) == text,
    decreases text.len(),
{
    if from.len() > 0 && text.len() > 0 {
        if has_prefix(text, from) {
            let at: int = 0;
            assert(text.subrange(at, at + from.len()) == from);
        }
        let rest = text.skip(1);
        if contains(rest, from) {
            let at = choose|at: int|
                0 <= at && at + from.len() <= rest.len() && #[trigger] rest.subrange(
                    at,
                    at + from.len(),
                ) == from;
            assert(text.subrange(at + 1, at + 1 + from.len()) == from);
        }
        other_texts_stay_as_they_are(rest, from, to);
        assert(seq![text[0]] + rest == text);
    }
}

/// The text that replacement gives is that of these rules.
pub proof fn replacements_follow_the_rules(text: &str, from: &str, to: &str, result: String)
    requires
        from@.len() > 0,
        call_ensures(replace_text, (text, from, to), result),
    ensures
        result@ == replaced(text@, from@, to@),
{
}

/// Decimal digits are read from the left: each one counts ten times as much as the next.
pub proof fn digits_count_by_ten(digits: Seq<char>, c: char)
    requires
        '0' <= c <= '9',
    ensures
        digits_value(Seq::empty()) == 0,
        digits_value(digits.push(c)) == 10 * digits_value(digits) + (c as int - '0' as int),
{
    assert(digits.push(c).drop_last() == digits);
}

/// The decimal form of a number is made of digits, without leading zeros, and is read back as the
/// number.
pub proof fn decimals_are_read_back(number: nat)
    ensures
        is_digits(decimal(number)),
        forall|i: int| 0 <= i < decimal(number).len() ==> '0' <= #[trigger] decimal(number)[i] <= '9',
        digits_value(decimal(number)) == number,
        number > 0 ==> decimal(number)[0] != '0',
        decimal(number).len() > 0,
    decreases number,
{
    let text = decimal(number);
    if number < 10 {
        digits_count_by_ten(Seq::empty(), crate::text::digit_char(number));
        assert(text == Seq::<char>::empty().push(crate::text::digit_char(number)));
    } else {
        let before = decimal(number / 10);
        decimals_are_read_back(number / 10);
        let c = crate::text::digit_char(number % 10);
        digits_count_by_ten(before, c);
        assert(text == before.push(c));
        assert forall|i: int| 0 <= i < text.len() implies '0' <= #[trigger] text[i] <= '9' by {
            if i < before.len() {
                assert(text[i] == before[i]);
            }
        }
        assert(text[0] == before[0]);
    }
}

/// A number is read exactly if it is written in decimal digits, perhaps after a plus sign, and is
/// at most the limit; the number that is read is the one that is written.
pub proof fn numbers_are_read(text: &str, max: u64, number: Option<u64>, written: nat, at: int)
    requires
        call_ensures(parse_unsigned, (text, max), number),
    ensures
        text@ == decimal(written) && written <= max ==> (number matches Some(n) && n == written),
        text@ == seq!['+'] + decimal(written) && written <= max ==> (number matches Some(n) && n
            == written),
        text@ == decimal(written) && written > max ==> number is None,
        text@.len() > 0 && (forall|i: int| 0 <= i < text@.len() ==> '0' <= #[trigger] text@[i] <= '9')
            && digits_value(text@) <= max ==> (number matches Some(n) && n == digits_value(text@)),
        text@.len() == 0 ==> number is None,
        text@ == seq!['+'] ==> number is None,
        0 <= at < text@.len() && !('0' <= text@[at] <= '9') && (at > 0 || text@[0] != '+')
            ==> number is None,
        number matches Some(n) ==> n <= max && (n == digits_value(text@) || (text@[0] == '+' && n
            == digits_value(text@.skip(1)))),
{
    decimals_are_read_back(written);
    if text@ == seq!['+'] + decimal(written) {
        assert(text@.skip(1) == decimal(written));
    }
    if text@ == seq!['+'] {
        assert(text@.skip(1) == Seq::<char>::empty());
    }
    if text@ == decimal(written) {
        assert(decimal(written)[0] != '+');
    }
    if 0 < at < text@.len() {
        assert(text@.skip(1)[at - 1] == text@[at]);
    }
}

/// A signed number is read as an unsigned one is, or after a minus sign as its opposite, if it fits
/// in 64 bits.
pub proof fn signed_numbers_are_read(text: &str, number: Option<i64>, written: nat, at: int)
    requires
        call_ensures(parse_signed, (text,), number),
    ensures
        text@ == decimal(written) && written <= i64::MAX ==> (number matches Some(n) && n
            == written),
        text@ == seq!['-'] + decimal(written) && -written >= i64::MIN ==> (number matches Some(n)
            && n == -written),
        text@ == seq!['+'] + decimal(written) && written <= i64::MAX ==> (number matches Some(n)
            && n == written),
        text@ == decimal(written) && written > i64::MAX ==> number is None,
        text@ == seq!['-'] + decimal(written) && -written < i64::MIN ==> number is None,
        text@.len() > 0 && (forall|i: int| 0 <= i < text@.len() ==> '0' <= #[trigger] text@[i] <= '9')
            && digits_value(text@) <= i64::MAX ==> (number matches Some(n) && n == digits_value(
            text@,
        )),
        text@.len() == 0 ==> number is None,
        0 < at < text@.len() && !('0' <= text@[at] <= '9') ==> number is None,
        text@.len() > 0 && !('0' <= text@[0] <= '9') && text@[0] != '+' && text@[0] != '-'
            ==> number is None,
{
    decimals_are_read_back(written);
    if text@ == seq!['+'] + decimal(written) || text@ == seq!['-'] + decimal(written) {
        assert(text@.skip(1) == decimal(written));
    }
    if text@ == decimal(written) {
        assert('0' <= decimal(written)[0] <= '9');
    }
    if 0 < at < text@.len() {
        assert(text@.skip(1)[at - 1] == text@[at]);
    }
}

} // verus!
