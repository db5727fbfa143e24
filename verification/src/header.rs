//! Reading the head of a request: which header line ends the head, and
//! what a `Content-Length` header says.

use vstd::prelude::*;
use vstd::string::StrSliceExecFns;

verus! {

/// Whether `c` is white space: a character with the Unicode property
/// `White_Space`.
pub open spec fn is_space(c: char) -> bool {
    ||| '\u{9}' <= c <= '\u{d}'
    ||| c == ' '
    ||| c == '\u{85}'
    ||| c == '\u{a0}'
    ||| c == '\u{1680}'
    ||| '\u{2000}' <= c <= '\u{200a}'
    ||| c == '\u{2028}'
    ||| c == '\u{2029}'
    ||| c == '\u{202f}'
    ||| c == '\u{205f}'
    ||| c == '\u{3000}'
}

/// Whether `c` is white space.
pub fn is_whitespace(c: char) -> (space: bool)
    ensures
        space == is_space(c),
{
    ('\u{9}' <= c && c <= '\u{d}') || c == ' ' || c == '\u{85}' || c == '\u{a0}' || c == '\u{1680}'
        || ('\u{2000}' <= c && c <= '\u{200a}') || c == '\u{2028}' || c == '\u{2029}' || c
        == '\u{202f}' || c == '\u{205f}' || c == '\u{3000}'
}

/// The first place at or after `from` that holds no white space; the
/// length of `line` where there is none.
pub open spec fn skip_spaces(line: Seq<char>, from: int) -> int
    decreases line.len() - from,
{
    if from >= line.len() {
        line.len() as int
    } else if !is_space(line[from]) {
        from
    } else {
        skip_spaces(line, from + 1)
    }
}

/// The first place at or after `from` that holds white space; the length
/// of `line` where there is none.
pub open spec fn skip_word(line: Seq<char>, from: int) -> int
    decreases line.len() - from,
{
    if from >= line.len() {
        line.len() as int
    } else if is_space(line[from]) {
        from
    } else {
        skip_word(line, from + 1)
    }
}

/// Where the second word of `line` starts, words being what white space
/// separates; the length of `line` where it has no second word.
pub open spec fn second_word_start(line: Seq<char>) -> int {
    skip_spaces(line, skip_word(line, skip_spaces(line, 0)))
}

/// The second word of `line`, if it has one.
pub open spec fn second_word(line: Seq<char>) -> Option<Seq<char>> {
    let start = second_word_start(line);
    if start < line.len() {
        Some(line.subrange(start, skip_word(line, start)))
    } else {
        None
    }
}

/// Whether `c` is one of the digits `0` to `9`.
pub open spec fn is_digit(c: char) -> bool {
    '0' <= c <= '9'
}

/// Whether every character of `digits` is a digit.
pub open spec fn all_digits(digits: Seq<char>) -> bool {
    forall|i: int| 0 <= i < digits.len() ==> is_digit(#[trigger] digits[i])
}

/// The number that a run of digits writes in base ten.
pub open spec fn digits_value(digits: Seq<char>) -> nat
    decreases digits.len(),
{
    if digits.len() == 0 {
        0
    } else {
        (digits_value(digits.drop_last()) * 10 + (digits.last() as int - '0' as int)) as nat
    }
}

/// The digits of a word that may start with a plus sign.
pub open spec fn unsigned_digits(word: Seq<char>) -> Seq<char> {
    if word.len() > 0 && word[0] == '+' {
        word.skip(1)
    } else {
        word
    }
}

/// The number that `word` writes: an optional plus sign, then at least one
/// digit and nothing but digits. Any other word writes no number.
pub open spec fn unsigned_of(word: Seq<char>) -> Option<nat> {
    let digits = unsigned_digits(word);
    if digits.len() > 0 && all_digits(digits) {
        Some(digits_value(digits))
    } else {
        None
    }
}

/// Whether `line` starts with the name of the length header.
pub open spec fn names_content_length(line: Seq<char>) -> bool {
    line.len() >= 15 && line.subrange(0, 15) == "Content-Length:"@
}

/// What a header line says of the length of the body. A line that does not
/// start with `Content-Length:` says nothing. One that does gives the
/// number that its second word writes; it gives zero where there is no
/// second word, where the word writes no number, and where the number does
/// not fit.
pub open spec fn content_length_of(line: Seq<char>) -> Option<usize> {
    if !names_content_length(line) {
        None
    } else {
        match second_word(line) {
            Some(word) => match unsigned_of(word) {
                Some(n) => if n <= usize::MAX {
                    Some(n as usize)
                } else {
                    Some(0)
                },
                None => Some(0),
            },
            None => Some(0),
        }
    }
}

/// A run of digits writes at least what any of its prefixes writes.
pub proof fn lemma_digits_value_grows(digits: Seq<char>, n: int)
    requires
        all_digits(digits),
        0 <= n <= digits.len(),
    ensures
        digits_value(digits.take(n)) <= digits_value(digits),
    decreases digits.len() - n,
{
    if n == digits.len() {
        assert(digits.take(n) =~= digits);
    } else {
        let longer = digits.take(n + 1);
        assert(longer.drop_last() =~= digits.take(n));
        assert(longer.last() == digits[n]);
        assert(is_digit(digits[n]));
        lemma_digits_value_grows(digits, n + 1);
    }
}

/// The second word of `line`, if it has one.
pub fn find_second_word(line: &str) -> (word: Option<&str>)
    ensures
        match word {
            Some(w) => second_word(line@) == Some(w@),
            None => second_word(line@) is None,
        },
{
    let length = line.unicode_len();
    // 0: before the first word, 1: in it, 2: after it, 3: in the second
    // word, 4: past the second word
    let mut stage: u8 = 0;
    let mut place: usize = 0;
    let mut start: usize = 0;
    let mut end: usize = 0;
    let ghost mut first_start = 0int;
    let ghost mut first_end = 0int;
    for c in it: line.chars()
        invariant
            it.seq() == line@,
            length == line@.len(),
            place == it.index(),
            stage <= 4,
            stage == 0 ==> skip_spaces(line@, 0) == skip_spaces(line@, place as int),
            stage >= 1 ==> first_start == skip_spaces(line@, 0) && first_start < place,
            stage == 1 ==> skip_word(line@, first_start) == skip_word(line@, place as int),
            stage >= 2 ==> first_end == skip_word(line@, first_start) && first_end < place,
            stage == 2 ==> skip_spaces(line@, first_end) == skip_spaces(line@, place as int),
            stage >= 3 ==> start == skip_spaces(line@, first_end) && start < place,
            stage == 3 ==> skip_word(line@, start as int) == skip_word(line@, place as int),
            stage == 4 ==> end == skip_word(line@, start as int) && start < end < place,
    {
        let space = is_whitespace(c);
        if stage == 0 {
            if !space {
                stage = 1;
                proof {
                    first_start = place as int;
                }
            }
        } else if stage == 1 {
            if space {
                stage = 2;
                proof {
                    first_end = place as int;
                }
            }
        } else if stage == 2 {
            if !space {
                stage = 3;
                start = place;
            }
        } else if stage == 3 {
            if space {
                stage = 4;
                end = place;
            }
        }
        place = place + 1;
    }
    if stage < 3 {
        None
    } else {
        if stage == 3 {
            end = length;
        }
        Some(line.substring_char(start, end))
    }
}

/// The value of a digit.
fn digit_value(c: char) -> (value: usize)
    requires
        is_digit(c),
    ensures
        value == c as int - '0' as int,
        value <= 9,
{
    (c as u32 - '0' as u32) as usize
}

/// The number that `word` writes, where it writes one that fits.
pub fn parse_unsigned(word: &str) -> (number: Option<usize>)
    ensures
        match number {
            Some(n) => unsigned_of(word@) == Some(n as nat),
            None => unsigned_of(word@) matches Some(n) ==> n > usize::MAX,
        },
{
    let length = word.unicode_len();
    let ghost digits = unsigned_digits(word@);
    let ghost signed = word@.len() > 0 && word@[0] == '+';
    let ghost shift: int = if signed {
        1
    } else {
        0
    };
    let mut place: usize = 0;
    let mut value: usize = 0;
    let mut seen: bool = false;
    for c in it: word.chars()
        invariant
            it.seq() == word@,
            length == word@.len(),
            place == it.index(),
            digits == unsigned_digits(word@),
            signed == (word@.len() > 0 && word@[0] == '+'),
            shift == (if signed {
                1int
            } else {
                0int
            }),
            place == 0 ==> !seen && value == 0,
            place > 0 ==> {
                &&& seen == (place > shift)
                &&& all_digits(digits.take(place - shift))
                &&& value == digits_value(digits.take(place - shift))
            },
    {
        if place == 0 && c == '+' {
            assert(digits.take(0) =~= Seq::<char>::empty());
        } else {
            if !('0' <= c && c <= '9') {
                assert(!is_digit(digits[place - shift]));
                return None;
            }
            let ghost shorter = digits.take(place - shift);
            let ghost longer = digits.take(place - shift + 1);
            assert(longer.drop_last() =~= shorter);
            assert(longer.last() == c);
            proof {
                if place == 0 {
                    assert(shorter =~= Seq::<char>::empty());
                }
                assert forall|i: int| 0 <= i < longer.len() implies is_digit(
                    #[trigger] longer[i],
                ) by {
                    if i < shorter.len() {
                        assert(longer[i] == shorter[i]);
                    }
                }
            }
            let digit = digit_value(c);
            let next = match value.checked_mul(10) {
                Some(tens) => tens.checked_add(digit),
                None => None,
            };
            match next {
                Some(n) => {
                    value = n;
                    seen = true;
                },
                None => {
                    proof {
                        assert(digits_value(longer) > usize::MAX);
                        if all_digits(digits) {
                            lemma_digits_value_grows(digits, place - shift + 1);
                        }
                    }
                    return None;
                },
            }
        }
        place = place + 1;
    }
    proof {
        if place > 0 {
            assert(digits.take(place - shift) =~= digits);
        }
    }
    if seen {
        Some(value)
    } else {
        None
    }
}

/// What a header line says of the length of the body.
pub fn content_length(line: &str) -> (length: Option<usize>)
    ensures
        length == content_length_of(line@),
{
    if line.unicode_len() < 15 {
        return None;
    }
    if !line.substring_char(0, 15).eq("Content-Length:") {
        return None;
    }
    match find_second_word(line) {
        Some(word) => match parse_unsigned(word) {
            Some(n) => Some(n),
            None => Some(0),
        },
        None => Some(0),
    }
}

/// Whether a header line ends the head of a request: it holds a carriage
/// return and a line feed and nothing else.
pub fn ends_head(line: &str) -> (blank: bool)
    ensures
        blank == (line@ == "\r\n"@),
{
    line.eq("\r\n")
}

} // verus!
